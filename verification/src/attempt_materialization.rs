//! Materialising an attempt: its jobs, their dependencies, and the jobs that start it.

use vstd::prelude::*;

use crate::domain::{is_identity, is_version, StoreError};
use crate::state::{job_state_text, JobState};

verus! {

/// What materialising reads of a job.
pub struct MaterializedJob {
    /// The job.
    pub id: u128,
    /// Jobs it waits for.
    pub dependencies: Vec<u128>,
    /// Pools whose agents may run it.
    pub allowed_pools: Vec<u128>,
}

/// The state a job starts in: ready where it waits for nothing.
pub open spec fn initial_state(job: MaterializedJob) -> JobState {
    if job.dependencies@.len() == 0 {
        JobState::Ready
    } else {
        JobState::Blocked
    }
}

/// The stored name of the state a job starts in.
pub fn initial_state_name(job: &MaterializedJob) -> (text: &'static str)
    ensures
        text@ == job_state_text(initial_state(*job)),
{
    if job.dependencies.len() == 0 {
        "ready"
    } else {
        "blocked"
    }
}

/// The jobs that wait for nothing, in order.
pub open spec fn roots_of(jobs: Seq<MaterializedJob>) -> Seq<u128>
    decreases jobs.len(),
{
    if jobs.len() == 0 {
        Seq::empty()
    } else if initial_state(jobs.last()) == JobState::Ready {
        roots_of(jobs.drop_last()).push(jobs.last().id)
    } else {
        roots_of(jobs.drop_last())
    }
}

/// Selects the jobs that wait for nothing, in order.
pub fn roots(jobs: &Vec<MaterializedJob>) -> (ids: Vec<u128>)
    ensures
        ids@ == roots_of(jobs@),
{
    let mut ids: Vec<u128> = Vec::new();
    let mut i: usize = 0;
    assert(jobs@.subrange(0, 0) =~= Seq::empty());
    while i < jobs.len()
        invariant
            i <= jobs@.len(),
            ids@ == roots_of(jobs@.subrange(0, i as int)),
        decreases jobs@.len() - i,
    {
        assert(jobs@.subrange(0, i + 1).drop_last() =~= jobs@.subrange(0, i as int));
        if jobs[i].dependencies.len() == 0 {
            ids.push(jobs[i].id);
        }
        i += 1;
    }
    assert(jobs@.subrange(0, i as int) =~= jobs@);
    ids
}

/// The pairs of a job and each job it waits for.
pub open spec fn pairs_of_job(job: u128, dependencies: Seq<u128>) -> Seq<(u128, u128)> {
    dependencies.map_values(|dependency: u128| (job, dependency))
}

/// The pairs of every job and each job it waits for, in order.
pub open spec fn dependency_pairs_of(jobs: Seq<MaterializedJob>) -> Seq<(u128, u128)>
    decreases jobs.len(),
{
    if jobs.len() == 0 {
        Seq::empty()
    } else {
        dependency_pairs_of(jobs.drop_last()) + pairs_of_job(jobs.last().id, jobs.last().dependencies@)
    }
}

/// Lists every job with each job it waits for, in order.
pub fn dependency_pairs(jobs: &Vec<MaterializedJob>) -> (pairs: Vec<(u128, u128)>)
    ensures
        pairs@ == dependency_pairs_of(jobs@),
{
    let mut pairs: Vec<(u128, u128)> = Vec::new();
    let mut i: usize = 0;
    assert(jobs@.subrange(0, 0) =~= Seq::empty());
    while i < jobs.len()
        invariant
            i <= jobs@.len(),
            pairs@ == dependency_pairs_of(jobs@.subrange(0, i as int)),
        decreases jobs@.len() - i,
    {
        let job = &jobs[i];
        let ghost before = pairs@;
        let mut k: usize = 0;
        while k < job.dependencies.len()
            invariant
                k <= job.dependencies@.len(),
                pairs@ == before + pairs_of_job(job.id, job.dependencies@.subrange(0, k as int)),
            decreases job.dependencies@.len() - k,
        {
            pairs.push((job.id, job.dependencies[k]));
            k += 1;
            assert(pairs_of_job(job.id, job.dependencies@.subrange(0, k as int)) =~= pairs_of_job(
                job.id,
                job.dependencies@.subrange(0, k - 1),
            ).push((job.id, job.dependencies@[k - 1])));
        }
        assert(job.dependencies@.subrange(0, k as int) =~= job.dependencies@);
        assert(jobs@.subrange(0, i + 1).drop_last() =~= jobs@.subrange(0, i as int));
        assert(jobs@.subrange(0, i + 1).last() == *job);
        i += 1;
    }
    assert(jobs@.subrange(0, i as int) =~= jobs@);
    pairs
}

/// A job that starts ready has no dependency on record, provided that no job is listed twice.
pub proof fn roots_wait_for_nothing(jobs: Seq<MaterializedJob>, id: u128, dependency: u128)
    requires
        forall|i: int, j: int| 0 <= i < j < jobs.len() ==> (#[trigger] jobs[i]).id != (#[trigger] jobs[j]).id,
    ensures
        roots_of(jobs).contains(id) ==> !dependency_pairs_of(jobs).contains((id, dependency)),
{
    if roots_of(jobs).contains(id) && dependency_pairs_of(jobs).contains((id, dependency)) {
        let at = root_index(jobs, id);
        let other = pair_index(jobs, (id, dependency));
        if at < other {
            assert(jobs[at].id != jobs[other].id);
        } else if other < at {
            assert(jobs[other].id != jobs[at].id);
        }
    }
}

proof fn root_index(jobs: Seq<MaterializedJob>, id: u128) -> (index: int)
    requires
        roots_of(jobs).contains(id),
    ensures
        0 <= index < jobs.len(),
        jobs[index].id == id,
        jobs[index].dependencies@.len() == 0,
    decreases jobs.len(),
{
    let shorter = jobs.drop_last();
    if initial_state(jobs.last()) == JobState::Ready && jobs.last().id == id {
        jobs.len() - 1
    } else {
        let all = roots_of(jobs);
        let k = choose|k: int| 0 <= k < all.len() && all[k] == id;
        assert(roots_of(shorter)[k] == id);
        let index = root_index(shorter, id);
        assert(jobs[index] == shorter[index]);
        index
    }
}

proof fn pair_index(jobs: Seq<MaterializedJob>, pair: (u128, u128)) -> (index: int)
    requires
        dependency_pairs_of(jobs).contains(pair),
    ensures
        0 <= index < jobs.len(),
        jobs[index].id == pair.0,
        jobs[index].dependencies@.len() > 0,
    decreases jobs.len(),
{
    let shorter = jobs.drop_last();
    let all = dependency_pairs_of(jobs);
    let k = choose|k: int| 0 <= k < all.len() && all[k] == pair;
    if k < dependency_pairs_of(shorter).len() {
        assert(dependency_pairs_of(shorter)[k] == pair);
        let index = pair_index(shorter, pair);
        assert(jobs[index] == shorter[index]);
        index
    } else {
        let own = pairs_of_job(jobs.last().id, jobs.last().dependencies@);
        assert(own[k - dependency_pairs_of(shorter).len()] == pair);
        jobs.len() - 1
    }
}

/// A job that is about to be signed.
pub struct ReadyJobSpecRow {
    /// The job.
    pub job_id: u128,
    /// Number of its attempt.
    pub attempt_number: i64,
}

/// Whether a job can be signed.
pub open spec fn is_signable(row: ReadyJobSpecRow) -> bool {
    is_version(row.attempt_number) && is_identity(row.job_id)
}

/// Whether a pair names a signable job and its attempt.
pub open spec fn names_job(pair: (u128, u64), row: ReadyJobSpecRow) -> bool {
    is_signable(row) && pair.0 == row.job_id && pair.1 == row.attempt_number
}

/// Prepares the jobs that became ready for signing: each of them has to be found, and its attempt
/// number and identity have to be readable.
pub fn signable_jobs(job_ids: &Vec<u128>, rows: &Vec<ReadyJobSpecRow>) -> (result: Result<Vec<(u128, u64)>, StoreError>)
    ensures
        match result {
            Ok(jobs) => {
                &&& rows@.len() == job_ids@.len()
                &&& jobs@.len() == rows@.len()
                &&& forall|i: int| 0 <= i < rows@.len() ==> names_job(#[trigger] jobs@[i], rows@[i])
            },
            Err(error) => error == StoreError::Unavailable && (rows@.len() != job_ids@.len() || exists|i: int|
                0 <= i < rows@.len() && !is_signable(#[trigger] rows@[i])),
        },
{
    if rows.len() != job_ids.len() {
        return Err(StoreError::Unavailable);
    }
    let mut jobs: Vec<(u128, u64)> = Vec::new();
    let mut i: usize = 0;
    while i < rows.len()
        invariant
            i <= rows@.len(),
            rows@.len() == job_ids@.len(),
            jobs@.len() == i,
            forall|k: int| 0 <= k < i ==> names_job(#[trigger] jobs@[k], rows@[k]),
        decreases rows@.len() - i,
    {
        if rows[i].attempt_number <= 0 || rows[i].job_id == 0 {
            assert(!is_signable(rows@[i as int]));
            return Err(StoreError::Unavailable);
        }
        jobs.push((rows[i].job_id, rows[i].attempt_number as u64));
        i += 1;
    }
    Ok(jobs)
}

/// The jobs that an attempt starts with are exactly those that wait for no other; every other job is blocked.
pub proof fn jobs_without_dependencies_start(jobs: Seq<MaterializedJob>, id: u128)
    ensures
        roots_of(jobs).contains(id) <==> exists|i: int|
            0 <= i < jobs.len() && (#[trigger] jobs[i]).id == id && jobs[i].dependencies@.len() == 0,
        forall|i: int|
            0 <= i < jobs.len() ==> initial_state(#[trigger] jobs[i]) == (if jobs[i].dependencies@.len() == 0 {
                JobState::Ready
            } else {
                JobState::Blocked
            }),
    decreases jobs.len(),
{
    if jobs.len() > 0 {
        let before = jobs.drop_last();
        let last = jobs.last();
        jobs_without_dependencies_start(before, id);
        let earlier = roots_of(before);
        if roots_of(jobs).contains(id) {
            let index = root_index(jobs, id);
            assert(jobs[index].id == id);
        }
        if exists|i: int| 0 <= i < jobs.len() && (#[trigger] jobs[i]).id == id && jobs[i].dependencies@.len() == 0 {
            let i = choose|i: int|
                0 <= i < jobs.len() && (#[trigger] jobs[i]).id == id && jobs[i].dependencies@.len() == 0;
            if i == jobs.len() - 1 {
                assert(roots_of(jobs)[earlier.len() as int] == id);
            } else {
                assert(before[i] == jobs[i]);
                let at = choose|k: int| 0 <= k < earlier.len() && earlier[k] == id;
                assert(roots_of(jobs)[at] == id);
            }
        }
    }
}

/// The dependencies that are written are exactly those of the jobs: one for each job and each job it waits for.
pub proof fn dependencies_are_written_for_each_job(jobs: Seq<MaterializedJob>, job_id: u128, dependency: u128)
    ensures
        dependency_pairs_of(jobs).contains((job_id, dependency)) <==> exists|i: int|
            0 <= i < jobs.len() && (#[trigger] jobs[i]).id == job_id && jobs[i].dependencies@.contains(dependency),
    decreases jobs.len(),
{
    if jobs.len() > 0 {
        let before = jobs.drop_last();
        let last = jobs.last();
        let earlier = dependency_pairs_of(before);
        let own = pairs_of_job(last.id, last.dependencies@);
        let all = dependency_pairs_of(jobs);
        dependencies_are_written_for_each_job(before, job_id, dependency);
        if all.contains((job_id, dependency)) {
            let at = choose|k: int| 0 <= k < all.len() && all[k] == (job_id, dependency);
            if at < earlier.len() {
                assert(earlier[at] == (job_id, dependency));
                let i = choose|i: int|
                    0 <= i < before.len() && (#[trigger] before[i]).id == job_id && before[i].dependencies@.contains(
                        dependency,
                    );
                assert(jobs[i] == before[i]);
            } else {
                assert(own[at - earlier.len()] == (job_id, dependency));
                assert(last.dependencies@[at - earlier.len()] == dependency);
                assert(jobs[jobs.len() - 1].dependencies@.contains(dependency));
            }
        }
        if exists|i: int|
            0 <= i < jobs.len() && (#[trigger] jobs[i]).id == job_id && jobs[i].dependencies@.contains(dependency) {
            let i = choose|i: int|
                0 <= i < jobs.len() && (#[trigger] jobs[i]).id == job_id && jobs[i].dependencies@.contains(dependency);
            if i == jobs.len() - 1 {
                let k = choose|k: int| 0 <= k < last.dependencies@.len() && last.dependencies@[k] == dependency;
                assert(own[k] == (job_id, dependency));
                assert(all[earlier.len() + k] == (job_id, dependency));
            } else {
                assert(before[i] == jobs[i]);
                let k = choose|k: int| 0 <= k < earlier.len() && earlier[k] == (job_id, dependency);
                assert(all[k] == (job_id, dependency));
            }
        }
    }
}

/// A specification is signed for a job and its attempt as the database holds them.
pub proof fn specifications_are_signed_for_their_job(pair: (u128, u64), row: ReadyJobSpecRow)
    requires
        names_job(pair, row),
    ensures
        pair.0 == row.job_id && pair.0 != 0,
        pair.1 == row.attempt_number && pair.1 > 0,
{
}

} // verus!
