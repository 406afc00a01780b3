pub mod catalog;
pub mod migration;
pub mod plugins;
pub mod runner;

pub use catalog::load_migrations;
pub use migration::{Migration, MigrationKind};
pub use plugins::{enabled_plugins, Plugin, DATABASE_URL};
