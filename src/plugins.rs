use vstd::prelude::*;

verus! {

/// Connection string of the local database that the migrations are applied to.
pub const DATABASE_URL: &'static str = "sqlite:app.db";

/// A capability that the application shell registers at startup.
#[derive(Clone, Copy, Debug, PartialEq, Eq, Structural)]
pub enum Plugin {
    /// Handling of the application's own URL schemes.
    DeepLink,
    /// Filesystem access.
    Fs,
    /// The SQL plugin with no database attached.
    Sql,
    /// The SQL plugin with the migration catalog attached to `DATABASE_URL`.
    SqlWithMigrations,
    /// Opening URLs and files with the system's default handler.
    Opener,
    /// One running instance at a time; a second launch is handed to the first.
    SingleInstance,
}

/// The plugins registered at startup, in registration order. Single-instance
/// enforcement exists on desktop targets only.
pub open spec fn plugin_order(desktop: bool) -> Seq<Plugin> {
    let before = seq![Plugin::DeepLink, Plugin::Fs, Plugin::Sql, Plugin::SqlWithMigrations, Plugin::Opener];
    let desktop_only = if desktop { seq![Plugin::SingleInstance] } else { Seq::empty() };
    before + desktop_only + seq![Plugin::DeepLink]
}

/// Lists the plugins to register at startup, in order, for a desktop target or another one.
pub fn enabled_plugins(desktop: bool) -> (r: Vec<Plugin>)
    ensures
        r@ == plugin_order(desktop),
{
    let mut plugins = vec![Plugin::DeepLink, Plugin::Fs, Plugin::Sql, Plugin::SqlWithMigrations, Plugin::Opener];
    if desktop {
        plugins.push(Plugin::SingleInstance);
    }
    plugins.push(Plugin::DeepLink);
    assert(plugins@ =~= plugin_order(desktop));
    plugins
}

} // verus!
