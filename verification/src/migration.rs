//! Compatibility of the database with the schema this library was written for.

use vstd::prelude::*;

use crate::text::same_bytes;

verus! {

/// Channel on which the database announces, after commit, that jobs became ready.
pub const READY_JOB_NOTIFICATION_CHANNEL: &'static str = "octacity_ready_jobs";

/// Read-only compatibility state of the database migration history.
#[derive(Clone, Copy, Debug, PartialEq, Eq, Structural)]
pub enum MigrationStatus {
    /// Every embedded forward migration is applied with its original checksum.
    Current,
    /// The migration table is absent or at least one embedded migration is pending.
    Pending,
    /// Applied history is dirty, unknown to this binary, or has a changed checksum.
    Incompatible,
}

/// A migration recorded by the database.
pub struct AppliedMigration {
    /// Its version.
    pub version: i64,
    /// Whether it ran to its end.
    pub success: bool,
    /// Checksum of its text when it ran.
    pub checksum: Vec<u8>,
}

/// A migration this binary carries.
pub struct EmbeddedMigration {
    /// Its version.
    pub version: i64,
    /// Whether it undoes another migration.
    pub down: bool,
    /// Checksum of its text.
    pub checksum: Vec<u8>,
}

/// The forward migrations among those embedded.
pub open spec fn forward(embedded: Seq<EmbeddedMigration>) -> Seq<EmbeddedMigration>
    decreases embedded.len(),
{
    if embedded.len() == 0 {
        Seq::empty()
    } else if embedded.last().down {
        forward(embedded.drop_last())
    } else {
        forward(embedded.drop_last()).push(embedded.last())
    }
}

/// Whether the first migration of `expected` with the version of `applied` has its checksum.
pub open spec fn recognized(applied: AppliedMigration, expected: Seq<EmbeddedMigration>) -> bool {
    exists|i: int|
        #![trigger expected[i]]
        0 <= i < expected.len() && expected[i].version == applied.version && expected[i].checksum@
            == applied.checksum@ && (forall|j: int|
            0 <= j < i ==> #[trigger] expected[j].version != applied.version)
}

/// The status of a history.
pub open spec fn status_of(
    table_exists: bool,
    applied: Seq<AppliedMigration>,
    embedded: Seq<EmbeddedMigration>,
) -> MigrationStatus {
    if !table_exists {
        MigrationStatus::Pending
    } else if exists|i: int| 0 <= i < applied.len() && !(#[trigger] applied[i]).success {
        MigrationStatus::Incompatible
    } else if exists|i: int| 0 <= i < applied.len() && !recognized(#[trigger] applied[i], forward(embedded)) {
        MigrationStatus::Incompatible
    } else if applied.len() == forward(embedded).len() {
        MigrationStatus::Current
    } else {
        MigrationStatus::Pending
    }
}

fn forward_indices(embedded: &Vec<EmbeddedMigration>) -> (indices: Vec<usize>)
    ensures
        indices@.len() == forward(embedded@).len(),
        forall|i: int|
            0 <= i < indices@.len() ==> #[trigger] indices@[i] < embedded@.len() && embedded@[indices@[i] as int]
                == forward(embedded@)[i],
{
    let mut indices: Vec<usize> = Vec::new();
    let mut i: usize = 0;
    assert(embedded@.subrange(0, 0) =~= Seq::empty());
    while i < embedded.len()
        invariant
            i <= embedded@.len(),
            indices@.len() == forward(embedded@.subrange(0, i as int)).len(),
            forall|k: int|
                0 <= k < indices@.len() ==> #[trigger] indices@[k] < embedded@.len() && embedded@[indices@[k] as int]
                    == forward(embedded@.subrange(0, i as int))[k],
        decreases embedded@.len() - i,
    {
        let ghost before = embedded@.subrange(0, i as int);
        if !embedded[i].down {
            indices.push(i);
        }
        i += 1;
        assert(embedded@.subrange(0, i as int).drop_last() =~= before);
        assert(embedded@.subrange(0, i as int).last() == embedded@[i - 1]);
    }
    assert(embedded@.subrange(0, i as int) =~= embedded@);
    indices
}

fn recognize(applied: &AppliedMigration, embedded: &Vec<EmbeddedMigration>, indices: &Vec<usize>) -> (known: bool)
    requires
        indices@.len() == forward(embedded@).len(),
        forall|i: int|
            0 <= i < indices@.len() ==> #[trigger] indices@[i] < embedded@.len() && embedded@[indices@[i] as int]
                == forward(embedded@)[i],
    ensures
        known == recognized(*applied, forward(embedded@)),
{
    let mut i: usize = 0;
    while i < indices.len()
        invariant
            i <= indices@.len(),
            indices@.len() == forward(embedded@).len(),
            forall|k: int|
                0 <= k < indices@.len() ==> #[trigger] indices@[k] < embedded@.len() && embedded@[indices@[k] as int]
                    == forward(embedded@)[k],
            forall|j: int| 0 <= j < i ==> (#[trigger] forward(embedded@)[j]).version != applied.version,
        decreases indices@.len() - i,
    {
        let candidate = &embedded[indices[i]];
        assert(*candidate == forward(embedded@)[i as int]);
        if candidate.version == applied.version {
            let same = same_bytes(candidate.checksum.as_slice(), applied.checksum.as_slice());
            return same;
        }
        i += 1;
    }
    false
}

/// Inspects migration compatibility: a missing table or a missing migration is pending; a failed,
/// unknown or changed one is incompatible.
pub fn migration_status(
    table_exists: bool,
    applied: &Vec<AppliedMigration>,
    embedded: &Vec<EmbeddedMigration>,
) -> (status: MigrationStatus)
    ensures
        status == status_of(table_exists, applied@, embedded@),
{
    if !table_exists {
        return MigrationStatus::Pending;
    }
    let mut i: usize = 0;
    while i < applied.len()
        invariant
            i <= applied@.len(),
            table_exists,
            forall|j: int| 0 <= j < i ==> (#[trigger] applied@[j]).success,
        decreases applied@.len() - i,
    {
        if !applied[i].success {
            return MigrationStatus::Incompatible;
        }
        i += 1;
    }
    let indices = forward_indices(embedded);
    let mut k: usize = 0;
    while k < applied.len()
        invariant
            k <= applied@.len(),
            table_exists,
            forall|j: int| 0 <= j < applied@.len() ==> (#[trigger] applied@[j]).success,
            indices@.len() == forward(embedded@).len(),
            forall|i: int|
                0 <= i < indices@.len() ==> #[trigger] indices@[i] < embedded@.len() && embedded@[indices@[i] as int]
                    == forward(embedded@)[i],
            forall|j: int| 0 <= j < k ==> recognized(#[trigger] applied@[j], forward(embedded@)),
        decreases applied@.len() - k,
    {
        if !recognize(&applied[k], embedded, &indices) {
            return MigrationStatus::Incompatible;
        }
        k += 1;
    }
    if applied.len() == indices.len() {
        MigrationStatus::Current
    } else {
        MigrationStatus::Pending
    }
}

/// Where versions are unique, a current database has applied every embedded forward migration,
/// successfully and with its original checksum.
pub proof fn current_means_every_migration_is_applied(
    applied: Seq<AppliedMigration>,
    embedded: Seq<EmbeddedMigration>,
    expected: int,
)
    requires
        status_of(true, applied, embedded) == MigrationStatus::Current,
        forall|i: int, j: int|
            0 <= i < j < applied.len() ==> (#[trigger] applied[i]).version != (#[trigger] applied[j]).version,
        forall|i: int, j: int|
            0 <= i < j < forward(embedded).len() ==> (#[trigger] forward(embedded)[i]).version != (
            #[trigger] forward(embedded)[j]).version,
        0 <= expected < forward(embedded).len(),
    ensures
        exists|i: int|
            #![trigger applied[i]]
            0 <= i < applied.len() && applied[i].success && applied[i].version
                == forward(embedded)[expected].version && applied[i].checksum@ == forward(
                embedded,
            )[expected].checksum@,
{
    let known = forward(embedded);
    let have = applied.map_values(|a: AppliedMigration| a.version);
    let want = known.map_values(|e: EmbeddedMigration| e.version);
    assert(have.no_duplicates()) by {
        assert forall|i: int, j: int| 0 <= i < have.len() && 0 <= j < have.len() && i != j implies have[i]
            != have[j] by {
            if i < j {
                assert(applied[i].version != applied[j].version);
            } else {
                assert(applied[j].version != applied[i].version);
            }
        }
    }
    assert(want.no_duplicates()) by {
        assert forall|i: int, j: int| 0 <= i < want.len() && 0 <= j < want.len() && i != j implies want[i]
            != want[j] by {
            if i < j {
                assert(known[i].version != known[j].version);
            } else {
                assert(known[j].version != known[i].version);
            }
        }
    }
    have.unique_seq_to_set();
    want.unique_seq_to_set();
    assert(have.to_set().subset_of(want.to_set())) by {
        assert forall|v: i64| have.to_set().contains(v) implies want.to_set().contains(v) by {
            let i = choose|i: int| 0 <= i < have.len() && have[i] == v;
            assert(recognized(applied[i], known));
            let k = choose|k: int|
                #![trigger known[k]]
                0 <= k < known.len() && known[k].version == applied[i].version && known[k].checksum@
                    == applied[i].checksum@ && (forall|j: int|
                    0 <= j < k ==> #[trigger] known[j].version != applied[i].version);
            assert(want[k] == v);
            assert(want.contains(v));
        }
    }
    vstd::set_lib::lemma_subset_equality(have.to_set(), want.to_set());
    let v = want[expected];
    assert(want.contains(v));
    assert(have.to_set().contains(v));
    let i = choose|i: int| 0 <= i < have.len() && have[i] == v;
    assert(applied[i].version == known[expected].version);
    assert(recognized(applied[i], known));
    let k = choose|k: int|
        #![trigger known[k]]
        0 <= k < known.len() && known[k].version == applied[i].version && known[k].checksum@ == applied[i].checksum@
            && (forall|j: int| 0 <= j < k ==> #[trigger] known[j].version != applied[i].version);
    if k < expected {
        assert(known[k].version != known[expected].version);
    } else if expected < k {
        assert(known[expected].version != known[k].version);
    }
}

/// Whether the database answered the probe query with the number it was asked for.
pub fn health_check(answer: Option<i32>) -> (healthy: bool)
    ensures
        healthy == (answer == Some(1i32)),
{
    match answer {
        Some(value) => value == 1,
        None => false,
    }
}

/// The number of jobs eligible for placement; a count is never negative.
pub fn ready_job_count(count: i64) -> (jobs: Option<u64>)
    ensures
        jobs == (if count >= 0 {
            Some(count as u64)
        } else {
            None
        }),
{
    if count >= 0 {
        Some(count as u64)
    } else {
        None
    }
}

/// How far a database is migrated: not at all without the table of migrations, in a way that does not fit where one
/// failed or is not known as it was applied, and otherwise up to date exactly where as many are applied as there are
/// to go forward.
pub proof fn databases_are_current_or_behind_or_unknown(
    table_exists: bool,
    applied: Seq<AppliedMigration>,
    embedded: Seq<EmbeddedMigration>,
)
    ensures
        !table_exists ==> status_of(table_exists, applied, embedded) == MigrationStatus::Pending,
        table_exists ==> (status_of(table_exists, applied, embedded) == MigrationStatus::Incompatible <==> exists|i: int|
            0 <= i < applied.len() && (!(#[trigger] applied[i]).success || !recognized(applied[i], forward(embedded)))),
        table_exists && (forall|i: int|
            0 <= i < applied.len() ==> (#[trigger] applied[i]).success && recognized(applied[i], forward(embedded)))
            ==> status_of(table_exists, applied, embedded) == (if applied.len() == forward(embedded).len() {
            MigrationStatus::Current
        } else {
            MigrationStatus::Pending
        }),
{
}

/// A migration is to be applied exactly where it does not go back.
pub proof fn only_forward_migrations_are_applied(first: Seq<EmbeddedMigration>, second: Seq<EmbeddedMigration>)
    ensures
        forward(first + second) == forward(first) + forward(second),
        forall|migration: EmbeddedMigration| #[trigger]
            forward(seq![migration]) == (if migration.down {
                Seq::<EmbeddedMigration>::empty()
            } else {
                seq![migration]
            }),
    decreases second.len(),
{
    assert forall|migration: EmbeddedMigration| #[trigger]
        forward(seq![migration]) == (if migration.down {
            Seq::<EmbeddedMigration>::empty()
        } else {
            seq![migration]
        }) by {
        let one = seq![migration];
        assert(one.drop_last() =~= Seq::<EmbeddedMigration>::empty());
        assert(one.last() == migration);
        assert(forward(Seq::<EmbeddedMigration>::empty()) == Seq::<EmbeddedMigration>::empty());
        assert(Seq::<EmbeddedMigration>::empty().push(migration) =~= one);
    }
    if second.len() == 0 {
        assert(first + second =~= first);
        assert(forward(first) + forward(second) =~= forward(first));
    } else {
        only_forward_migrations_are_applied(first, second.drop_last());
        assert((first + second).drop_last() =~= first + second.drop_last());
        assert((first + second).last() == second.last());
        assert(forward(first + second) =~= forward(first) + forward(second));
    }
}

/// An applied migration is known where the one that is to be applied under its version is the very same.
pub proof fn applied_migrations_are_known_by_their_content(
    applied: AppliedMigration,
    expected: Seq<EmbeddedMigration>,
    at: int,
)
    requires
        forall|i: int, j: int|
            0 <= i < j < expected.len() ==> (#[trigger] expected[i]).version != (#[trigger] expected[j]).version,
        0 <= at < expected.len(),
        expected[at].version == applied.version,
    ensures
        recognized(applied, expected) <==> expected[at].checksum@ == applied.checksum@,
{
}

/// Where two embedded migrations have one version, an applied one is held against the first of them.
pub proof fn applied_migrations_are_held_against_the_first(
    applied: AppliedMigration,
    expected: Seq<EmbeddedMigration>,
    i: int,
)
    requires
        0 <= i < expected.len(),
        expected[i].version == applied.version,
        expected[i].checksum@ != applied.checksum@,
        forall|j: int| 0 <= j < i ==> (#[trigger] expected[j]).version != applied.version,
    ensures
        !recognized(applied, expected),
{
    if recognized(applied, expected) {
        let k = choose|k: int|
            #![trigger expected[k]]
            0 <= k < expected.len() && expected[k].version == applied.version && expected[k].checksum@
                == applied.checksum@ && (forall|j: int|
                0 <= j < k ==> #[trigger] expected[j].version != applied.version);
        assert(k == i);
    }
}

} // verus!
