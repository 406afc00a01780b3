use app_backend::{load_migrations, MigrationKind};

const DDL: &str = "CREATE TABLE items (id INTEGER PRIMARY KEY, name TEXT NOT NULL);";

#[test]
fn catalog_has_single_init_migration() {
    let migrations = load_migrations(DDL);
    assert_eq!(migrations.len(), 1);
    let first = &migrations[0];
    assert_eq!(first.version, 1);
    assert_eq!(first.description, "init");
    assert_eq!(first.sql, DDL);
    assert_eq!(first.kind, MigrationKind::Up);
}

#[test]
fn catalog_carries_given_script_unchanged() {
    let other = "CREATE TABLE notes (body TEXT);";
    let migrations = load_migrations(other);
    assert_eq!(migrations[0].sql, other);
    assert_ne!(migrations[0].sql, DDL);
}

#[test]
fn catalog_with_empty_script_keeps_it_empty() {
    let migrations = load_migrations("");
    assert_eq!(migrations.len(), 1);
    assert_eq!(migrations[0].version, 1);
    assert!(migrations[0].sql.is_empty());
}

#[test]
fn catalog_is_deterministic() {
    let a = load_migrations(DDL);
    let b = load_migrations(DDL);
    assert_eq!(a.len(), b.len());
    for (x, y) in a.iter().zip(b.iter()) {
        assert_eq!(x.version, y.version);
        assert_eq!(x.description, y.description);
        assert_eq!(x.sql, y.sql);
        assert_eq!(x.kind, y.kind);
    }
}

#[test]
fn catalog_versions_strictly_increasing_from_one() {
    let migrations = load_migrations(DDL);
    for (i, m) in migrations.iter().enumerate() {
        assert_eq!(m.version, i as i64 + 1);
        assert!(m.version > 0);
    }
    for pair in migrations.windows(2) {
        assert!(pair[0].version < pair[1].version);
    }
}

#[test]
fn catalog_scripts_non_empty_and_forward() {
    for m in load_migrations(DDL) {
        assert!(!m.sql.is_empty());
        assert_eq!(m.kind, MigrationKind::Up);
    }
}

#[test]
fn fresh_database_reaches_latest_version() {
    // A runner starting with no marker applies every entry with a version above it.
    let migrations = load_migrations(DDL);
    let mut recorded: Option<i64> = None;
    let mut applied: Vec<&str> = Vec::new();
    for m in &migrations {
        if recorded.map_or(true, |v| m.version > v) {
            applied.push(m.sql);
            recorded = Some(m.version);
        }
    }
    assert_eq!(applied, vec![DDL]);
    assert_eq!(recorded, Some(1));
    assert_eq!(recorded, migrations.iter().map(|m| m.version).max());
}

#[test]
fn startup_at_latest_version_runs_nothing() {
    let migrations = load_migrations(DDL);
    let recorded: Option<i64> = migrations.iter().map(|m| m.version).max();
    let pending = migrations
        .iter()
        .filter(|m| recorded.map_or(true, |v| m.version > v))
        .count();
    assert_eq!(pending, 0);
}
