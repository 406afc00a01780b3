use vstd::prelude::*;
use crate::migration::{Migration, MigrationKind, MigrationView, views_of};

verus! {

/// The catalog of this build, in the order in which it is applied, given the
/// text of the script that creates the initial schema.
pub open spec fn catalog(init_sql: Seq<char>) -> Seq<MigrationView> {
    seq![
        MigrationView { version: 1, description: "init"@, sql: init_sql, kind: MigrationKind::Up },
    ]
}

/// Versions grow strictly from each entry to every later one.
pub open spec fn versions_increasing(c: Seq<MigrationView>) -> bool {
    forall|i: int, j: int| 0 <= i < j < c.len() ==> c[i].version < c[j].version
}

/// No two entries share a version.
pub open spec fn versions_unique(c: Seq<MigrationView>) -> bool {
    forall|i: int, j: int|
        0 <= i < c.len() && 0 <= j < c.len() && i != j ==> c[i].version != c[j].version
}

/// Each entry's version is one more than the one before it, starting at 1.
pub open spec fn versions_consecutive(c: Seq<MigrationView>) -> bool {
    forall|i: int| 0 <= i < c.len() ==> #[trigger] c[i].version == i + 1
}

/// Every entry has a script with at least one character in it.
pub open spec fn scripts_non_empty(c: Seq<MigrationView>) -> bool {
    forall|i: int| 0 <= i < c.len() ==> #[trigger] c[i].sql.len() > 0
}

/// A catalog that a runner can take: positive versions in strictly increasing
/// order, a script in every entry, and forward entries only.
pub open spec fn is_well_formed(c: Seq<MigrationView>) -> bool {
    &&& versions_increasing(c)
    &&& scripts_non_empty(c)
    &&& forall|i: int| 0 <= i < c.len() ==> #[trigger] c[i].version > 0
    &&& forall|i: int| 0 <= i < c.len() ==> #[trigger] c[i].kind == MigrationKind::Up
}

/// Strictly increasing versions are unique.
pub proof fn lemma_increasing_implies_unique(c: Seq<MigrationView>)
    requires
        versions_increasing(c),
    ensures
        versions_unique(c),
{
    assert forall|i: int, j: int|
        0 <= i < c.len() && 0 <= j < c.len() && i != j implies c[i].version != c[j].version by {
        if i < j {
            assert(c[i].version < c[j].version);
        } else {
            assert(c[j].version < c[i].version);
        }
    }
}

/// The catalog's versions are unique and strictly increasing in catalog order,
/// and run from 1 up by one.
pub proof fn lemma_catalog_versions_ordered(init_sql: Seq<char>)
    ensures
        versions_increasing(catalog(init_sql)),
        versions_unique(catalog(init_sql)),
        versions_consecutive(catalog(init_sql)),
{
    lemma_increasing_implies_unique(catalog(init_sql));
}

/// Every script of the catalog is non-empty when the initial script is.
pub proof fn lemma_catalog_scripts_non_empty(init_sql: Seq<char>)
    requires
        init_sql.len() > 0,
    ensures
        scripts_non_empty(catalog(init_sql)),
{
}

/// The catalog is well formed when the initial script is non-empty.
pub proof fn lemma_catalog_well_formed(init_sql: Seq<char>)
    requires
        init_sql.len() > 0,
    ensures
        is_well_formed(catalog(init_sql)),
{
    lemma_catalog_versions_ordered(init_sql);
    lemma_catalog_scripts_non_empty(init_sql);
}

/// Two constructions of the catalog from the same script give the same sequence.
pub proof fn lemma_load_migrations_deterministic(
    init_sql: Seq<char>,
    a: Seq<Migration>,
    b: Seq<Migration>,
)
    requires
        views_of(a) == catalog(init_sql),
        views_of(b) == catalog(init_sql),
    ensures
        views_of(a) == views_of(b),
{
}

/// Builds the catalog of schema migrations that the database runner is handed
/// at startup. `init_sql` is the text of the script that creates the initial
/// schema, embedded in the program when it is built.
pub fn load_migrations(init_sql: &'static str) -> (r: Vec<Migration>)
    ensures
        views_of(r@) == catalog(init_sql@),
        r@.len() == catalog(init_sql@).len(),
        forall|i: int| 0 <= i < r@.len() ==> #[trigger] r@[i]@ == catalog(init_sql@)[i],
        versions_increasing(views_of(r@)),
        versions_consecutive(views_of(r@)),
        init_sql@.len() > 0 ==> is_well_formed(views_of(r@)),
{
    let migrations = vec![
        Migration { version: 1, description: "init", sql: init_sql, kind: MigrationKind::Up },
    ];
    assert(views_of(migrations@) =~= catalog(init_sql@));
    proof {
        lemma_catalog_versions_ordered(init_sql@);
        if init_sql@.len() > 0 {
            lemma_catalog_well_formed(init_sql@);
        }
    }
    migrations
}

} // verus!
