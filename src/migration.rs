use vstd::prelude::*;

verus! {

/// Whether a script moves the schema forward or takes it back.
#[derive(Clone, Copy, Debug, PartialEq, Eq, Structural)]
pub enum MigrationKind {
    Up,
    Down,
}

/// One versioned schema change, with its script embedded in the program.
#[derive(Clone, Copy, Debug)]
pub struct Migration {
    pub version: i64,
    pub description: &'static str,
    pub sql: &'static str,
    pub kind: MigrationKind,
}

/// What a migration is, as plain values.
pub ghost struct MigrationView {
    pub version: int,
    pub description: Seq<char>,
    pub sql: Seq<char>,
    pub kind: MigrationKind,
}

impl View for Migration {
    type V = MigrationView;

    open spec fn view(&self) -> MigrationView {
        MigrationView {
            version: self.version as int,
            description: self.description@,
            sql: self.sql@,
            kind: self.kind,
        }
    }
}

/// The plain values of a sequence of migrations, in order.
pub open spec fn views_of(ms: Seq<Migration>) -> Seq<MigrationView> {
    ms.map_values(|m: Migration| m@)
}

} // verus!
