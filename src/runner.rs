use vstd::prelude::*;
use crate::catalog::{catalog, is_well_formed, lemma_catalog_well_formed, versions_increasing};
use crate::migration::{MigrationKind, MigrationView};

verus! {

// The database runner that takes the catalog keeps one marker in the database:
// the highest version applied so far, or none for a new database. At startup it
// applies, in catalog order, each forward migration whose version exceeds that
// marker, and records each one's version as it is applied.

/// Whether the runner applies `m` to a database whose marker is `recorded`.
pub open spec fn is_pending(m: MigrationView, recorded: Option<int>) -> bool {
    &&& m.kind == MigrationKind::Up
    &&& match recorded {
        None => true,
        Some(v) => m.version > v,
    }
}

/// The migrations that one startup applies, in the order it applies them.
pub open spec fn pending(c: Seq<MigrationView>, recorded: Option<int>) -> Seq<MigrationView> {
    c.filter(|m: MigrationView| is_pending(m, recorded))
}

/// The scripts that one startup executes, in order.
pub open spec fn scripts_run(c: Seq<MigrationView>, recorded: Option<int>) -> Seq<Seq<char>> {
    pending(c, recorded).map_values(|m: MigrationView| m.sql)
}

/// The marker after one startup: the version of the last migration applied,
/// or the marker unchanged when nothing was applied.
pub open spec fn recorded_after(c: Seq<MigrationView>, recorded: Option<int>) -> Option<int> {
    let p = pending(c, recorded);
    if p.len() == 0 {
        recorded
    } else {
        Some(p.last().version)
    }
}

/// The largest version in a catalog, none for an empty one.
pub open spec fn max_version(c: Seq<MigrationView>) -> Option<int>
    decreases c.len(),
{
    if c.len() == 0 {
        None
    } else {
        let v = c.last().version;
        match max_version(c.drop_last()) {
            None => Some(v),
            Some(w) => Some(if v >= w { v } else { w }),
        }
    }
}

/// In a catalog with increasing versions the largest version is the last one.
pub proof fn lemma_max_version_is_last(c: Seq<MigrationView>)
    requires
        versions_increasing(c),
    ensures
        c.len() == 0 ==> max_version(c) is None,
        c.len() > 0 ==> max_version(c) == Some(c.last().version),
    decreases c.len(),
{
    if c.len() > 1 {
        let d = c.drop_last();
        assert(versions_increasing(d));
        lemma_max_version_is_last(d);
        assert(d.last() == c[c.len() - 2]);
        assert(c[c.len() - 2].version < c[c.len() - 1].version);
    } else if c.len() == 1 {
        assert(max_version(c.drop_last()) is None);
    }
}

/// Where every entry is forward, a new database has all of them pending.
proof fn lemma_pending_from_none(c: Seq<MigrationView>)
    requires
        forall|i: int| 0 <= i < c.len() ==> #[trigger] c[i].kind == MigrationKind::Up,
    ensures
        pending(c, None) == c,
    decreases c.len(),
{
    reveal(Seq::filter);
    if c.len() > 0 {
        let d = c.drop_last();
        assert forall|i: int| 0 <= i < d.len() implies #[trigger] d[i].kind == MigrationKind::Up by {
            assert(d[i] == c[i]);
        }
        lemma_pending_from_none(d);
        assert(is_pending(c.last(), None));
        assert(d.push(c.last()) =~= c);
    }
}

/// A marker at or above every version leaves nothing pending.
proof fn lemma_nothing_pending_at_or_above(c: Seq<MigrationView>, v: int)
    requires
        forall|i: int| 0 <= i < c.len() ==> #[trigger] c[i].version <= v,
    ensures
        pending(c, Some(v)).len() == 0,
    decreases c.len(),
{
    reveal(Seq::filter);
    if c.len() > 0 {
        let d = c.drop_last();
        assert forall|i: int| 0 <= i < d.len() implies #[trigger] d[i].version <= v by {
            assert(d[i] == c[i]);
        }
        lemma_nothing_pending_at_or_above(d, v);
        assert(!is_pending(c.last(), Some(v)));
    }
}

/// Where anything is pending in a well-formed catalog, the last entry is the
/// last one applied.
proof fn lemma_last_pending_is_last(c: Seq<MigrationView>, recorded: Option<int>)
    requires
        is_well_formed(c),
        pending(c, recorded).len() > 0,
    ensures
        c.len() > 0,
        pending(c, recorded).last() == c.last(),
{
    broadcast use vstd::seq_lib::group_filter_ensures;
    reveal(Seq::filter);
    let p = pending(c, recorded);
    let pred = |m: MigrationView| is_pending(m, recorded);
    assert(pred(p[0]));
    assert(c.filter(pred).contains(p[0])) by {
        assert(p.contains(p[0]));
    }
    assert(c.len() > 0) by {
        if c.len() == 0 {
            assert(p.len() == 0);
        }
    }
    lemma_filtered_in_source(c, pred, 0);
    let j = choose|j: int| 0 <= j < c.len() && c[j] == p[0];
    if j < c.len() - 1 {
        assert(c[j].version < c[c.len() - 1].version);
    }
    assert(is_pending(c.last(), recorded));
}

/// An entry of a filtered sequence is an entry of the sequence.
proof fn lemma_filtered_in_source(c: Seq<MigrationView>, pred: spec_fn(MigrationView) -> bool, i: int)
    requires
        0 <= i < c.filter(pred).len(),
    ensures
        exists|j: int| 0 <= j < c.len() && c[j] == c.filter(pred)[i],
    decreases c.len(),
{
    reveal(Seq::filter);
    let d = c.drop_last();
    if pred(c.last()) && i == c.filter(pred).len() - 1 {
        assert(c[c.len() - 1] == c.filter(pred)[i]);
    } else {
        assert(c.filter(pred)[i] == d.filter(pred)[i]);
        lemma_filtered_in_source(d, pred, i);
        let j = choose|j: int| 0 <= j < d.len() && d[j] == d.filter(pred)[i];
        assert(c[j] == d[j]);
    }
}

/// Starting from a new database, one startup applies every entry of a
/// well-formed catalog in catalog order and leaves the marker at the
/// catalog's largest version.
pub proof fn lemma_fresh_database_reaches_max_version(c: Seq<MigrationView>)
    requires
        is_well_formed(c),
    ensures
        pending(c, None) == c,
        scripts_run(c, None) == c.map_values(|m: MigrationView| m.sql),
        recorded_after(c, None) == max_version(c),
{
    lemma_pending_from_none(c);
    lemma_max_version_is_last(c);
}

/// A database whose marker already stands at the catalog's largest version
/// is left as it is by another startup: no script runs and the marker stays.
pub proof fn lemma_startup_at_max_version_is_noop(c: Seq<MigrationView>)
    requires
        is_well_formed(c),
    ensures
        scripts_run(c, max_version(c)).len() == 0,
        recorded_after(c, max_version(c)) == max_version(c),
{
    lemma_max_version_is_last(c);
    if c.len() > 0 {
        let v = c.last().version;
        assert forall|i: int| 0 <= i < c.len() implies #[trigger] c[i].version <= v by {
            if i < c.len() - 1 {
                assert(c[i].version < c[c.len() - 1].version);
            }
        }
        lemma_nothing_pending_at_or_above(c, v);
    } else {
        lemma_pending_from_none(c);
    }
}

/// Whatever marker a database starts with, a second startup after the first
/// runs no script and leaves the marker where the first left it.
pub proof fn lemma_startup_idempotent(c: Seq<MigrationView>, recorded: Option<int>)
    requires
        is_well_formed(c),
    ensures
        scripts_run(c, recorded_after(c, recorded)).len() == 0,
        recorded_after(c, recorded_after(c, recorded)) == recorded_after(c, recorded),
{
    if pending(c, recorded).len() > 0 {
        lemma_last_pending_is_last(c, recorded);
        lemma_max_version_is_last(c);
        lemma_startup_at_max_version_is_noop(c);
    }
}

/// The catalog of this build, applied to a new database, runs its one script
/// once and leaves the marker at version 1, its largest version; a second
/// startup then changes nothing.
pub proof fn lemma_catalog_startup(init_sql: Seq<char>)
    requires
        init_sql.len() > 0,
    ensures
        pending(catalog(init_sql), None) == catalog(init_sql),
        scripts_run(catalog(init_sql), None) == seq![init_sql],
        recorded_after(catalog(init_sql), None) == max_version(catalog(init_sql)),
        max_version(catalog(init_sql)) == Some(1int),
        scripts_run(catalog(init_sql), max_version(catalog(init_sql))).len() == 0,
        recorded_after(catalog(init_sql), max_version(catalog(init_sql))) == max_version(catalog(init_sql)),
{
    let c = catalog(init_sql);
    lemma_catalog_well_formed(init_sql);
    lemma_fresh_database_reaches_max_version(c);
    lemma_startup_at_max_version_is_noop(c);
    assert(scripts_run(c, None) =~= seq![init_sql]);
}

} // verus!
