//! Retrying a failed build with a new attempt over the same job graph.

use vstd::prelude::*;

use crate::database::{all_identities, fits_column, number, out_of_range};
use crate::domain::{
    is_identity, is_version, version, EntityKind, MutationDisposition, StoreError, StoreOperation,
};
use crate::identity_text::{hyphenated, identity_text};
use crate::job_completion::copy_ids;
use crate::mutation::{FactValue, Member, MutationFacts};
use crate::state::{
    attempt_state_text, build_state_text, parse_attempt_state, parse_build_state, AttemptState, BuildState,
};
use crate::text::same_text;

verus! {

/// The latest attempt of a build.
pub struct SourceAttempt {
    /// The attempt.
    pub id: u128,
    /// Its number within the build.
    pub attempt_number: i64,
    /// Its state.
    pub state: String,
}

/// Everything the decision to retry rests on.
#[derive(Clone, Copy, Debug, PartialEq, Eq, Structural)]
pub struct RetryInput {
    /// State of the build.
    pub build_state: BuildState,
    /// State of its latest attempt.
    pub attempt_state: AttemptState,
    /// Number of its latest attempt.
    pub latest_number: u64,
}

/// Whether the states and the number of an attempt can be read.
pub open spec fn is_readable(build_state: Seq<char>, source: SourceAttempt) -> bool {
    &&& is_version(source.attempt_number)
    &&& exists|state: BuildState| build_state == #[trigger] build_state_text(state)
    &&& exists|state: AttemptState| source.state@ == #[trigger] attempt_state_text(state)
}

/// Prepares a retry: `validated` is the verdict on the request by itself, and a missing build or attempt is not
/// found.
pub fn prepare(
    validated: Result<(), StoreError>,
    current_build_state: &Option<String>,
    source: &Option<SourceAttempt>,
) -> (result: Result<RetryInput, StoreError>)
    ensures
        match (validated, *current_build_state, *source) {
            (Err(error), _, _) => result == Err::<RetryInput, StoreError>(error),
            (Ok(()), None, _) => result == Err::<RetryInput, StoreError>(
                StoreError::NotFound { entity: EntityKind::Build },
            ),
            (Ok(()), Some(_), None) => result == Err::<RetryInput, StoreError>(
                StoreError::NotFound { entity: EntityKind::Attempt },
            ),
            (Ok(()), Some(build), Some(source)) => if is_readable(build@, source) {
                result matches Ok(input) && build@ == build_state_text(input.build_state) && source.state@
                    == attempt_state_text(input.attempt_state) && input.latest_number == source.attempt_number
            } else {
                result == Err::<RetryInput, StoreError>(StoreError::Unavailable)
            },
        },
{
    match validated {
        Ok(()) => {},
        Err(error) => {
            return Err(error);
        },
    }
    let build = match current_build_state {
        Some(build) => build,
        None => {
            return Err(StoreError::NotFound { entity: EntityKind::Build });
        },
    };
    let source = match source {
        Some(source) => source,
        None => {
            return Err(StoreError::NotFound { entity: EntityKind::Attempt });
        },
    };
    let latest_number: u64 = version(source.attempt_number)?;
    let build_state = parse_build_state(build.as_str())?;
    assert(build@ == build_state_text(build_state));
    let attempt_state = parse_attempt_state(source.state.as_str())?;
    assert(source.state@ == attempt_state_text(attempt_state));
    Ok(RetryInput { build_state, attempt_state, latest_number })
}

/// Why the orchestrator refuses to retry.
#[derive(Clone, Copy, Debug, PartialEq, Eq, Structural)]
pub enum RetryDecisionError {
    /// The build did not fail.
    BuildNotFailed,
    /// The latest attempt did not fail.
    AttemptNotFailed,
    /// There is no number for another attempt.
    AttemptNumberOverflow,
}

/// How a refusal to retry is reported.
pub open spec fn refusal(error: RetryDecisionError) -> StoreError {
    match error {
        RetryDecisionError::BuildNotFailed => StoreError::Conflict { entity: EntityKind::Build },
        RetryDecisionError::AttemptNotFailed => StoreError::Conflict { entity: EntityKind::Attempt },
        RetryDecisionError::AttemptNumberOverflow => StoreError::Unavailable,
    }
}

/// One dependency of one job of the failed attempt.
pub struct SourceJobRow {
    /// The job.
    pub job_id: u128,
    /// Its node of the pipeline.
    pub pipeline_node_id: String,
    /// Whether that is the name of a node.
    pub node_is_admissible: bool,
    /// Pools whose agents may run it.
    pub allowed_pool_ids: Vec<u128>,
    /// What it needs of an agent.
    pub requirements: String,
    /// What it is to do.
    pub job_spec_template: String,
    /// A job it depends on.
    pub dependency_job_id: Option<u128>,
    /// How it treats its dependencies, as a number that tells policies apart.
    pub dependency_policy: u32,
}

/// One job of the failed attempt.
pub struct SourceJob {
    /// The job.
    pub id: u128,
    /// Its node of the pipeline.
    pub pipeline_node_id: String,
    /// Jobs it depends on.
    pub dependencies: Vec<u128>,
    /// How it treats them.
    pub dependency_policy: u32,
    /// Pools whose agents may run it.
    pub allowed_pools: Vec<u128>,
    /// What it needs of an agent.
    pub requirements: String,
    /// What it is to do.
    pub job_spec_template: String,
}

/// What allocating the number of a retry comes to: `graph` is what reading the jobs of the source gave, and
/// `is_same` says whether those of the retry are the same.
pub open spec fn allocation(
    allocated: Result<u64, RetryDecisionError>,
    requested_number: u64,
    graph: Result<Vec<SourceJob>, StoreError>,
    is_same: bool,
) -> Result<i64, StoreError> {
    match allocated {
        Err(error) => Err(refusal(error)),
        Ok(allocated) => if requested_number != allocated {
            Err(StoreError::Conflict { entity: EntityKind::Attempt })
        } else {
            match graph {
                Err(error) => Err(error),
                Ok(_) => if !is_same {
                    Err(StoreError::Conflict { entity: EntityKind::Attempt })
                } else if !fits_column(allocated) {
                    Err(out_of_range(StoreOperation::RetryBuild))
                } else {
                    Ok(allocated as i64)
                },
            }
        },
    }
}

/// Allows a retry under the number the orchestrator allocated: a caller who expected another number is too late,
/// whatever the jobs are, and one with other jobs is refused. The number is returned as the database holds it.
pub fn allocate(
    allocated: Result<u64, RetryDecisionError>,
    requested_number: u64,
    graph: &Result<Vec<SourceJob>, StoreError>,
    is_same: bool,
) -> (result: Result<i64, StoreError>)
    ensures
        result == allocation(allocated, requested_number, *graph, is_same),
{
    match allocated {
        Err(RetryDecisionError::BuildNotFailed) => Err(StoreError::Conflict { entity: EntityKind::Build }),
        Err(RetryDecisionError::AttemptNotFailed) => Err(StoreError::Conflict { entity: EntityKind::Attempt }),
        Err(RetryDecisionError::AttemptNumberOverflow) => Err(StoreError::Unavailable),
        Ok(allocated) => {
            if requested_number != allocated {
                return Err(StoreError::Conflict { entity: EntityKind::Attempt });
            }
            match graph {
                Ok(_) => {},
                Err(error) => {
                    return Err(*error);
                },
            }
            if !is_same {
                return Err(StoreError::Conflict { entity: EntityKind::Attempt });
            }
            number(allocated, StoreOperation::RetryBuild)
        },
    }
}

/// Whether no earlier row speaks of the same job.
#[verifier::opaque]
pub open spec fn is_first(rows: Seq<SourceJobRow>, index: int) -> bool {
    forall|j: int| 0 <= j < index ==> (#[trigger] rows[j]).job_id != rows[index].job_id
}

/// The rows among the first `count` with which a job first appears.
pub open spec fn firsts(rows: Seq<SourceJobRow>, count: nat) -> Seq<int>
    decreases count,
{
    if count == 0 {
        Seq::empty()
    } else if is_first(rows, count - 1) {
        firsts(rows, (count - 1) as nat).push(count - 1)
    } else {
        firsts(rows, (count - 1) as nat)
    }
}

/// The dependencies of a job among the first `count` rows, in order.
pub open spec fn dependencies_among(rows: Seq<SourceJobRow>, job_id: u128, count: nat) -> Seq<u128>
    decreases count,
{
    if count == 0 {
        Seq::empty()
    } else {
        let before = dependencies_among(rows, job_id, (count - 1) as nat);
        match rows[count - 1].dependency_job_id {
            Some(dependency) if rows[count - 1].job_id == job_id => before.push(dependency),
            _ => before,
        }
    }
}

/// Whether two rows describe one job alike.
pub open spec fn agree(a: SourceJobRow, b: SourceJobRow) -> bool {
    &&& a.pipeline_node_id@ == b.pipeline_node_id@
    &&& a.requirements@ == b.requirements@
    &&& a.dependency_policy == b.dependency_policy
    &&& a.job_spec_template@ == b.job_spec_template@
}

/// Whether a row can be read: its identities are sound, and it introduces a job properly or agrees with
/// the row that did.
#[verifier::opaque]
pub open spec fn is_sound_row(rows: Seq<SourceJobRow>, index: int) -> bool {
    &&& is_identity(rows[index].job_id)
    &&& rows[index].dependency_job_id matches Some(dependency) ==> is_identity(dependency)
    &&& is_first(rows, index) ==> rows[index].node_is_admissible && all_identities(rows[index].allowed_pool_ids@)
    &&& forall|j: int|
        0 <= j < index && is_first(rows, j) && (#[trigger] rows[j]).job_id == rows[index].job_id ==> agree(
            rows[j],
            rows[index],
        )
}

/// Whether every row can be read.
pub open spec fn is_sound(rows: Seq<SourceJobRow>) -> bool {
    forall|i: int| 0 <= i < rows.len() ==> #[trigger] is_sound_row(rows, i)
}

/// Whether a job is the one that first appears in row `first`, with its dependencies from all rows.
pub open spec fn is_source_of(job: SourceJob, rows: Seq<SourceJobRow>, first: int) -> bool {
    &&& job.id == rows[first].job_id
    &&& job.pipeline_node_id@ == rows[first].pipeline_node_id@
    &&& job.dependencies@ == dependencies_among(rows, job.id, rows.len())
    &&& job.dependency_policy == rows[first].dependency_policy
    &&& job.allowed_pools@ == rows[first].allowed_pool_ids@
    &&& job.requirements@ == rows[first].requirements@
    &&& job.job_spec_template@ == rows[first].job_spec_template@
}

fn first_row(rows: &Vec<SourceJobRow>, index: usize) -> (first: usize)
    requires
        index < rows@.len(),
    ensures
        first <= index,
        rows@[first as int].job_id == rows@[index as int].job_id,
        is_first(rows@, first as int),
{
    reveal(is_first);
    let mut first: usize = 0;
    while rows[first].job_id != rows[index].job_id
        invariant
            first <= index < rows@.len(),
            forall|j: int| 0 <= j < first ==> (#[trigger] rows@[j]).job_id != rows@[index as int].job_id,
        decreases index - first,
    {
        first += 1;
    }
    first
}

fn collect_dependencies(rows: &Vec<SourceJobRow>, job_id: u128) -> (dependencies: Vec<u128>)
    ensures
        dependencies@ == dependencies_among(rows@, job_id, rows@.len()),
{
    let mut dependencies: Vec<u128> = Vec::new();
    let mut i: usize = 0;
    while i < rows.len()
        invariant
            i <= rows@.len(),
            dependencies@ == dependencies_among(rows@, job_id, i as nat),
        decreases rows@.len() - i,
    {
        match rows[i].dependency_job_id {
            Some(dependency) => {
                if rows[i].job_id == job_id {
                    dependencies.push(dependency);
                }
            },
            None => {},
        }
        i += 1;
    }
    dependencies
}

fn are_identities(ids: &Vec<u128>) -> (sound: bool)
    ensures
        sound == all_identities(ids@),
{
    let mut i: usize = 0;
    while i < ids.len()
        invariant
            i <= ids@.len(),
            forall|k: int| 0 <= k < i ==> is_identity(#[trigger] ids@[k]),
        decreases ids@.len() - i,
    {
        if ids[i] == 0 {
            assert(!is_identity(ids@[i as int]));
            return false;
        }
        i += 1;
    }
    true
}

fn check_row(rows: &Vec<SourceJobRow>, index: usize) -> (introduces: Option<bool>)
    requires
        index < rows@.len(),
    ensures
        match introduces {
            Some(introduces) => is_sound_row(rows@, index as int) && introduces == is_first(rows@, index as int),
            None => !is_sound_row(rows@, index as int),
        },
{
    let row = &rows[index];
    proof {
        reveal(is_sound_row);
        reveal(is_first);
    }
    let dependency_is_known = match row.dependency_job_id {
        Some(dependency) => dependency != 0,
        None => true,
    };
    if row.job_id == 0 || !dependency_is_known {
        return None;
    }
    let first = first_row(rows, index);
    if first == index {
        if row.node_is_admissible && are_identities(&row.allowed_pool_ids) {
            return Some(true);
        }
        return None;
    }
    assert(rows@[first as int].job_id == rows@[index as int].job_id);
    let known = &rows[first];
    if same_text(known.pipeline_node_id.as_str(), row.pipeline_node_id.as_str()) && same_text(
        known.requirements.as_str(),
        row.requirements.as_str(),
    ) && known.dependency_policy == row.dependency_policy && same_text(
        known.job_spec_template.as_str(),
        row.job_spec_template.as_str(),
    ) {
        proof {
            assert forall|j: int|
                0 <= j < index && is_first(rows@, j) && (#[trigger] rows@[j]).job_id
                    == rows@[index as int].job_id implies agree(rows@[j], rows@[index as int]) by {
                if j < first {
                    assert(rows@[j].job_id != rows@[first as int].job_id);
                } else if first < j {
                    assert(rows@[first as int].job_id != rows@[j].job_id);
                }
            }
        }
        Some(false)
    } else {
        None
    }
}

/// Rebuilds the job graph of the failed attempt, one job per first appearance and in that order. A row
/// that cannot be read, or that contradicts the row that introduced its job, makes it unreadable.
pub fn source_graph(rows: &Vec<SourceJobRow>) -> (result: Result<Vec<SourceJob>, StoreError>)
    ensures
        match result {
            Ok(jobs) => {
                &&& is_sound(rows@)
                &&& jobs@.len() == firsts(rows@, rows@.len()).len()
                &&& forall|k: int|
                    0 <= k < jobs@.len() ==> is_source_of(
                        #[trigger] jobs@[k],
                        rows@,
                        firsts(rows@, rows@.len())[k],
                    )
            },
            Err(error) => error == StoreError::Unavailable && !is_sound(rows@),
        },
{
    let mut jobs: Vec<SourceJob> = Vec::new();
    let mut i: usize = 0;
    while i < rows.len()
        invariant
            i <= rows@.len(),
            forall|k: int| 0 <= k < i ==> #[trigger] is_sound_row(rows@, k),
            jobs@.len() == firsts(rows@, i as nat).len(),
            forall|k: int|
                0 <= k < jobs@.len() ==> is_source_of(#[trigger] jobs@[k], rows@, firsts(rows@, i as nat)[k]),
        decreases rows@.len() - i,
    {
        match check_row(rows, i) {
            None => {
                return Err(StoreError::Unavailable);
            },
            Some(first) => if first {
                let row = &rows[i];
                jobs.push(
                    SourceJob {
                        id: row.job_id,
                        pipeline_node_id: row.pipeline_node_id.clone(),
                        dependencies: collect_dependencies(rows, row.job_id),
                        dependency_policy: row.dependency_policy,
                        allowed_pools: copy_ids(&row.allowed_pool_ids),
                        requirements: row.requirements.clone(),
                        job_spec_template: row.job_spec_template.clone(),
                    },
                );
            },
        }
        i += 1;
    }
    Ok(jobs)
}

/// What retrying a build did.
pub struct RetryDisposition {
    /// Whether this call changed anything.
    pub disposition: MutationDisposition,
    /// The build.
    pub build_id: u128,
    /// The attempt that failed.
    pub source_attempt_id: u128,
    /// The new attempt.
    pub attempt_id: u128,
    /// Its number.
    pub attempt_number: u64,
    /// Jobs that are ready from the start.
    pub ready_jobs: Vec<u128>,
}

/// Reports a retry that was carried out now.
pub fn applied(
    build_id: u128,
    source_attempt_id: u128,
    attempt_id: u128,
    attempt_number: u64,
    ready_jobs: Vec<u128>,
) -> (result: Result<RetryDisposition, StoreError>)
    ensures
        match result {
            Ok(outcome) => {
                &&& is_identity(source_attempt_id)
                &&& outcome == (RetryDisposition {
                    disposition: MutationDisposition::Applied,
                    build_id,
                    source_attempt_id,
                    attempt_id,
                    attempt_number,
                    ready_jobs,
                })
            },
            Err(error) => error == StoreError::Unavailable && !is_identity(source_attempt_id),
        },
{
    if source_attempt_id == 0 {
        return Err(StoreError::Unavailable);
    }
    Ok(
        RetryDisposition {
            disposition: MutationDisposition::Applied,
            build_id,
            source_attempt_id,
            attempt_id,
            attempt_number,
            ready_jobs,
        },
    )
}

/// Repeats a stored outcome.
pub fn replay(stored: RetryDisposition) -> (outcome: RetryDisposition)
    ensures
        outcome == (RetryDisposition { disposition: MutationDisposition::Replayed, ..stored }),
{
    RetryDisposition {
        disposition: MutationDisposition::Replayed,
        build_id: stored.build_id,
        source_attempt_id: stored.source_attempt_id,
        attempt_id: stored.attempt_id,
        attempt_number: stored.attempt_number,
        ready_jobs: stored.ready_jobs,
    }
}

/// What the audit trail and the outbox are told of a retry.
pub fn facts(outcome: &RetryDisposition) -> (facts: MutationFacts)
    ensures
        facts.actor_kind@ == "unauthenticated_management"@,
        facts.actor_identity is None,
        facts.target_identity@ == hyphenated(outcome.build_id),
        facts.safe_metadata@ == seq![
            (Member { name: "attempt_id", value: FactValue::Identity(outcome.attempt_id) }),
            (Member { name: "attempt_number", value: FactValue::Number(outcome.attempt_number) }),
            (Member { name: "ready_job_count", value: FactValue::Number(outcome.ready_jobs@.len() as u64) }),
            (Member { name: "source_attempt_id", value: FactValue::Identity(outcome.source_attempt_id) }),
        ],
        facts.outbox_payload@ == seq![
            (Member { name: "attempt_id", value: FactValue::Identity(outcome.attempt_id) }),
            (Member { name: "attempt_number", value: FactValue::Number(outcome.attempt_number) }),
            (Member { name: "build_id", value: FactValue::Identity(outcome.build_id) }),
            (Member { name: "schema_version", value: FactValue::Number(1) }),
            (Member { name: "source_attempt_id", value: FactValue::Identity(outcome.source_attempt_id) }),
        ],
{
    MutationFacts {
        actor_kind: "unauthenticated_management",
        actor_identity: None,
        target_identity: identity_text(outcome.build_id),
        safe_metadata: vec![
            Member { name: "attempt_id", value: FactValue::Identity(outcome.attempt_id) },
            Member { name: "attempt_number", value: FactValue::Number(outcome.attempt_number) },
            Member { name: "ready_job_count", value: FactValue::Number(outcome.ready_jobs.len() as u64) },
            Member { name: "source_attempt_id", value: FactValue::Identity(outcome.source_attempt_id) },
        ],
        outbox_payload: vec![
            Member { name: "attempt_id", value: FactValue::Identity(outcome.attempt_id) },
            Member { name: "attempt_number", value: FactValue::Number(outcome.attempt_number) },
            Member { name: "build_id", value: FactValue::Identity(outcome.build_id) },
            Member { name: "schema_version", value: FactValue::Number(1) },
            Member { name: "source_attempt_id", value: FactValue::Identity(outcome.source_attempt_id) },
        ],
    }
}

/// A build is retried exactly where its rules admit another attempt, the request names the number of that attempt,
/// and its jobs are those of the attempt before; it gets the number that the rules gave.
pub proof fn retries_take_the_next_number(
    allocated: Result<u64, RetryDecisionError>,
    requested_number: u64,
    graph: Result<Vec<SourceJob>, StoreError>,
    is_same: bool,
)
    ensures
        allocation(allocated, requested_number, graph, is_same) is Ok <==> allocated == Ok::<u64, RetryDecisionError>(
            requested_number,
        ) && graph is Ok && is_same && requested_number <= i64::MAX,
        allocation(allocated, requested_number, graph, is_same) matches Ok(number) ==> number == requested_number,
        allocated matches Ok(number) ==> (number != requested_number || (graph is Ok && !is_same)) ==> allocation(
            allocated,
            requested_number,
            graph,
            is_same,
        ) == Err::<i64, StoreError>(StoreError::Conflict { entity: EntityKind::Attempt }),
        allocated == Ok::<u64, RetryDecisionError>(requested_number) && graph is Err ==> allocation(
            allocated,
            requested_number,
            graph,
            is_same,
        ) == Err::<i64, StoreError>(graph->Err_0),
        allocated matches Err(error) ==> allocation(allocated, requested_number, graph, is_same) == Err::<
            i64,
            StoreError,
        >(
            match error {
                RetryDecisionError::BuildNotFailed => StoreError::Conflict { entity: EntityKind::Build },
                RetryDecisionError::AttemptNotFailed => StoreError::Conflict { entity: EntityKind::Attempt },
                RetryDecisionError::AttemptNumberOverflow => StoreError::Unavailable,
            },
        ),
{
}

/// A job is taken over from the first of its rows: every job of the rows is, and none twice.
pub proof fn jobs_are_taken_over_once(rows: Seq<SourceJobRow>, count: nat)
    requires
        count <= rows.len(),
    ensures
        forall|k: int| 0 <= k < firsts(rows, count).len() ==> 0 <= #[trigger] firsts(rows, count)[k] < count,
        forall|j: int, k: int|
            0 <= j < k < firsts(rows, count).len() ==> rows[#[trigger] firsts(rows, count)[j]].job_id
                != rows[#[trigger] firsts(rows, count)[k]].job_id,
        forall|i: int|
            0 <= i < count ==> exists|k: int|
                0 <= k < firsts(rows, count).len() && rows[#[trigger] firsts(rows, count)[k]].job_id
                    == (#[trigger] rows[i]).job_id,
{
    firsts_are_distinct(rows, count);
    assert forall|i: int| 0 <= i < count implies exists|k: int|
        0 <= k < firsts(rows, count).len() && rows[#[trigger] firsts(rows, count)[k]].job_id == (
        #[trigger] rows[i]).job_id by {
        first_is_met(rows, count, i);
    }
}

proof fn firsts_are_distinct(rows: Seq<SourceJobRow>, count: nat)
    requires
        count <= rows.len(),
    ensures
        forall|k: int| 0 <= k < firsts(rows, count).len() ==> 0 <= #[trigger] firsts(rows, count)[k] < count,
        forall|j: int, k: int|
            0 <= j < k < firsts(rows, count).len() ==> rows[#[trigger] firsts(rows, count)[j]].job_id
                != rows[#[trigger] firsts(rows, count)[k]].job_id,
    decreases count,
{
    reveal(is_first);
    if count > 0 {
        let before = firsts(rows, (count - 1) as nat);
        let all = firsts(rows, count);
        firsts_are_distinct(rows, (count - 1) as nat);
        assert forall|j: int, k: int| 0 <= j < k < all.len() implies rows[#[trigger] all[j]].job_id
            != rows[#[trigger] all[k]].job_id by {
            if k < before.len() {
                assert(all[j] == before[j] && all[k] == before[k]);
            } else {
                assert(all[j] == before[j]);
                assert(0 <= before[j] < count - 1);
            }
        }
    }
}

proof fn first_is_met(rows: Seq<SourceJobRow>, count: nat, i: int)
    requires
        0 <= i < count <= rows.len(),
    ensures
        exists|k: int|
            0 <= k < firsts(rows, count).len() && rows[#[trigger] firsts(rows, count)[k]].job_id == rows[i].job_id,
    decreases count, i,
{
    let before = firsts(rows, (count - 1) as nat);
    let all = firsts(rows, count);
    if i < count - 1 {
        first_is_met(rows, (count - 1) as nat, i);
        let k = choose|k: int| 0 <= k < before.len() && rows[#[trigger] before[k]].job_id == rows[i].job_id;
        assert(all[k] == before[k]);
    } else if is_first(rows, i) {
        assert(all[before.len() as int] == i);
    } else {
        reveal(is_first);
        let j = choose|j: int| 0 <= j < i && (#[trigger] rows[j]).job_id == rows[i].job_id;
        first_is_met(rows, (count - 1) as nat, j);
        let k = choose|k: int| 0 <= k < before.len() && rows[#[trigger] before[k]].job_id == rows[j].job_id;
        assert(all[k] == before[k]);
    }
}

/// A job that is taken over waits exactly for the jobs that a row of its own names.
pub proof fn dependencies_are_taken_over(rows: Seq<SourceJobRow>, job_id: u128, count: nat, dependency: u128)
    requires
        count <= rows.len(),
    ensures
        dependencies_among(rows, job_id, count).contains(dependency) <==> exists|i: int|
            0 <= i < count && (#[trigger] rows[i]).job_id == job_id && rows[i].dependency_job_id == Some(dependency),
    decreases count,
{
    if count > 0 {
        let before = dependencies_among(rows, job_id, (count - 1) as nat);
        let all = dependencies_among(rows, job_id, count);
        dependencies_are_taken_over(rows, job_id, (count - 1) as nat, dependency);
        if all.contains(dependency) {
            let at = choose|k: int| 0 <= k < all.len() && all[k] == dependency;
            if at < before.len() {
                assert(before[at] == dependency);
            } else {
                assert(rows[count - 1].job_id == job_id);
            }
        }
        if exists|i: int|
            0 <= i < count && (#[trigger] rows[i]).job_id == job_id && rows[i].dependency_job_id == Some(dependency) {
            let i = choose|i: int|
                0 <= i < count && (#[trigger] rows[i]).job_id == job_id && rows[i].dependency_job_id == Some(dependency);
            if i == count - 1 {
                assert(all[before.len() as int] == dependency);
            } else {
                let at = choose|k: int| 0 <= k < before.len() && before[k] == dependency;
                assert(all[at] == dependency);
            }
        }
    }
}

/// A job of the new attempt is the job of its first row as it was: its node, its pools, its requirements and its
/// template.
pub proof fn jobs_are_taken_over_as_they_were(job: SourceJob, rows: Seq<SourceJobRow>, first: int)
    requires
        is_source_of(job, rows, first),
    ensures
        job.id == rows[first].job_id && job.pipeline_node_id@ == rows[first].pipeline_node_id@,
        job.allowed_pools@ == rows[first].allowed_pool_ids@ && job.dependency_policy == rows[first].dependency_policy,
        job.requirements@ == rows[first].requirements@ && job.job_spec_template@ == rows[first].job_spec_template@,
        forall|i: int|
            0 <= i < rows.len() && (#[trigger] rows[i]).job_id == job.id && rows[i].dependency_job_id is Some
                ==> job.dependencies@.contains(rows[i].dependency_job_id->Some_0),
{
    assert forall|i: int|
        0 <= i < rows.len() && (#[trigger] rows[i]).job_id == job.id && rows[i].dependency_job_id
            is Some implies job.dependencies@.contains(rows[i].dependency_job_id->Some_0) by {
        dependencies_are_taken_over(rows, job.id, rows.len(), rows[i].dependency_job_id->Some_0);
    }
}

/// The attempt that is tried again is read exactly where its number counts from one and the states are known.
pub proof fn sound_attempts_are_read(build_state: Seq<char>, source: SourceAttempt)
    ensures
        is_readable(build_state, source) <==> source.attempt_number > 0 && (exists|state: BuildState|
            build_state == #[trigger] build_state_text(state)) && (exists|state: AttemptState|
            source.state@ == #[trigger] attempt_state_text(state)),
{
}

/// Jobs are taken over exactly where each row names a job and waits for one, each job is introduced by a node that may
/// run in pools that are set, and all rows of a job describe it alike.
pub proof fn sound_jobs_are_taken_over(rows: Seq<SourceJobRow>, i: int, j: int)
    requires
        is_sound(rows),
        0 <= j < i < rows.len(),
        is_first(rows, j),
    ensures
        rows[i].job_id != 0 && (rows[i].dependency_job_id is None || rows[i].dependency_job_id->Some_0 != 0),
        is_first(rows, i) ==> rows[i].node_is_admissible && forall|k: int|
            0 <= k < rows[i].allowed_pool_ids@.len() ==> #[trigger] rows[i].allowed_pool_ids@[k] != 0,
        rows[i].job_id == rows[j].job_id ==> rows[i].pipeline_node_id@ == rows[j].pipeline_node_id@
            && rows[i].requirements@ == rows[j].requirements@ && rows[i].dependency_policy == rows[j].dependency_policy
            && rows[i].job_spec_template@ == rows[j].job_spec_template@,
{
    reveal(is_sound_row);
    assert(is_sound_row(rows, i));
    if is_first(rows, i) {
        assert forall|k: int| 0 <= k < rows[i].allowed_pool_ids@.len() implies #[trigger] rows[i].allowed_pool_ids@[k]
            != 0 by {
            assert(is_identity(rows[i].allowed_pool_ids@[k]));
        }
    }
}

} // verus!
