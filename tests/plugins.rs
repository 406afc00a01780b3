use app_backend::{enabled_plugins, Plugin, DATABASE_URL};

#[test]
fn desktop_plugins_in_order() {
    assert_eq!(
        enabled_plugins(true),
        vec![
            Plugin::DeepLink,
            Plugin::Fs,
            Plugin::Sql,
            Plugin::SqlWithMigrations,
            Plugin::Opener,
            Plugin::SingleInstance,
            Plugin::DeepLink,
        ]
    );
}

#[test]
fn mobile_plugins_leave_out_single_instance() {
    assert_eq!(
        enabled_plugins(false),
        vec![
            Plugin::DeepLink,
            Plugin::Fs,
            Plugin::Sql,
            Plugin::SqlWithMigrations,
            Plugin::Opener,
            Plugin::DeepLink,
        ]
    );
}

#[test]
fn database_is_local_sqlite_file() {
    assert_eq!(DATABASE_URL, "sqlite:app.db");
}
