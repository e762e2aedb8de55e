//! Cancelling a build.

use vstd::prelude::*;

use crate::database::{all_identities, job_ids};
use crate::domain::{identity, is_identity, EntityKind, MutationDisposition, StoreError};
use crate::identity_text::{hyphenated, identity_text};
use crate::job_completion::copy_ids;
use crate::mutation::{FactValue, Member, MutationFacts};
use crate::orchestration::{jobs_moved_to, moved_to, JobTransition};
use crate::state::{
    attempt_state_text, build_state, build_state_text, job_state_text, parse_attempt_state, parse_build_state,
    parse_job_state, AttemptState, BuildState, JobState,
};

verus! {

/// The latest attempt of a build.
pub struct AttemptRow {
    /// The attempt.
    pub id: u128,
    /// Its state.
    pub state: String,
}

/// A job of that attempt.
pub struct JobRow {
    /// The job.
    pub id: u128,
    /// Its state.
    pub state: String,
}

/// A cancellation on record.
pub struct RecordedCancellation {
    /// The build.
    pub build_id: u128,
    /// The attempt that was cancelled.
    pub attempt_id: u128,
    /// Jobs that were cancelled at once.
    pub cancelled_job_ids: Vec<u128>,
    /// Jobs whose agents were asked to stop.
    pub cancelling_job_ids: Vec<u128>,
    /// State the attempt went to.
    pub attempt_state: String,
    /// State the build went to.
    pub build_state: String,
}

/// What cancelling a build did.
pub struct CancellationDisposition {
    /// Whether this call changed anything.
    pub disposition: MutationDisposition,
    /// The build.
    pub build_id: u128,
    /// The attempt that was cancelled.
    pub attempt_id: u128,
    /// Jobs that were cancelled at once.
    pub cancelled_jobs: Vec<u128>,
    /// Jobs whose agents were asked to stop.
    pub cancelling_jobs: Vec<u128>,
    /// State of the attempt.
    pub attempt_state: AttemptState,
    /// State of the build.
    pub build_state: BuildState,
}

/// Whether a cancellation on record can be read.
pub open spec fn is_readable(recorded: RecordedCancellation) -> bool {
    &&& is_identity(recorded.build_id)
    &&& is_identity(recorded.attempt_id)
    &&& all_identities(recorded.cancelled_job_ids@)
    &&& all_identities(recorded.cancelling_job_ids@)
    &&& exists|state: AttemptState| recorded.attempt_state@ == #[trigger] attempt_state_text(state)
    &&& exists|state: BuildState| recorded.build_state@ == #[trigger] build_state_text(state)
}

/// Whether a disposition says what a cancellation on record says.
pub open spec fn says(outcome: CancellationDisposition, recorded: RecordedCancellation) -> bool {
    &&& outcome.build_id == recorded.build_id
    &&& outcome.attempt_id == recorded.attempt_id
    &&& outcome.cancelled_jobs@ == recorded.cancelled_job_ids@
    &&& outcome.cancelling_jobs@ == recorded.cancelling_job_ids@
    &&& recorded.attempt_state@ == attempt_state_text(outcome.attempt_state)
    &&& recorded.build_state@ == build_state_text(outcome.build_state)
}

impl RecordedCancellation {
    /// Reads a cancellation on record.
    pub fn outcome(self, disposition: MutationDisposition) -> (result: Result<CancellationDisposition, StoreError>)
        ensures
            match result {
                Ok(outcome) => is_readable(self) && outcome.disposition == disposition && says(outcome, self),
                Err(error) => error == StoreError::Unavailable && !is_readable(self),
            },
    {
        let build_id: u128 = identity(self.build_id)?;
        let attempt_id: u128 = identity(self.attempt_id)?;
        let cancelled_jobs = job_ids(self.cancelled_job_ids)?;
        let cancelling_jobs = job_ids(self.cancelling_job_ids)?;
        let attempt_state = parse_attempt_state(self.attempt_state.as_str())?;
        assert(self.attempt_state@ == attempt_state_text(attempt_state));
        let build_state = parse_build_state(self.build_state.as_str())?;
        assert(self.build_state@ == build_state_text(build_state));
        Ok(
            CancellationDisposition {
                disposition,
                build_id,
                attempt_id,
                cancelled_jobs,
                cancelling_jobs,
                attempt_state,
                build_state,
            },
        )
    }
}

/// Everything the decision to cancel rests on.
pub struct CancellationInput {
    /// State of the build.
    pub build_state: BuildState,
    /// The latest attempt.
    pub attempt_id: u128,
    /// Its state.
    pub attempt_state: AttemptState,
    /// Its jobs and their states, in the order of the rows.
    pub jobs: Vec<JobTransition>,
}

/// How a cancellation goes on.
pub enum CancellationStep {
    /// The build was cancelled before; this is what it did.
    Repeat(CancellationDisposition),
    /// Decide by these states.
    Decide(CancellationInput),
}

/// Whether a row names a job and a known state.
pub open spec fn is_readable_job(row: JobRow) -> bool {
    is_identity(row.id) && exists|state: JobState| row.state@ == #[trigger] job_state_text(state)
}

/// Whether a job and its state are those of a row.
pub open spec fn is_job_of(job: JobTransition, row: JobRow) -> bool {
    job.job_id == row.id && is_identity(row.id) && row.state@ == job_state_text(job.state)
}

/// Whether states and jobs of an attempt can be read.
pub open spec fn is_readable_attempt(build_state: Seq<char>, attempt: AttemptRow, rows: Seq<JobRow>) -> bool {
    &&& exists|state: BuildState| build_state == #[trigger] build_state_text(state)
    &&& exists|state: AttemptState| attempt.state@ == #[trigger] attempt_state_text(state)
    &&& forall|i: int| 0 <= i < rows.len() ==> is_readable_job(#[trigger] rows[i])
}

fn read_jobs(rows: &Vec<JobRow>) -> (result: Result<Vec<JobTransition>, StoreError>)
    ensures
        match result {
            Ok(jobs) => jobs@.len() == rows@.len() && forall|i: int|
                0 <= i < rows@.len() ==> is_job_of(#[trigger] jobs@[i], rows@[i]),
            Err(error) => error == StoreError::Unavailable && exists|i: int|
                0 <= i < rows@.len() && !is_readable_job(#[trigger] rows@[i]),
        },
{
    let mut jobs: Vec<JobTransition> = Vec::new();
    let mut i: usize = 0;
    while i < rows.len()
        invariant
            i <= rows@.len(),
            jobs@.len() == i,
            forall|k: int| 0 <= k < i ==> is_job_of(#[trigger] jobs@[k], rows@[k]),
        decreases rows@.len() - i,
    {
        match parse_job_state(rows[i].state.as_str()) {
            Ok(state) => {
                assert(rows@[i as int].state@ == job_state_text(state));
                if rows[i].id == 0 {
                    assert(!is_readable_job(rows@[i as int]));
                    return Err(StoreError::Unavailable);
                }
                jobs.push(JobTransition { job_id: rows[i].id, state });
            },
            Err(_) => {
                assert(!is_readable_job(rows@[i as int]));
                return Err(StoreError::Unavailable);
            },
        }
        i += 1;
    }
    Ok(jobs)
}

/// Prepares a cancellation: a missing build or attempt is not found, a build that was cancelled before
/// repeats what that did, and otherwise the states of the latest attempt decide.
pub fn prepare(
    current_build_state: &Option<String>,
    recorded: Option<RecordedCancellation>,
    attempt: &Option<AttemptRow>,
    rows: &Vec<JobRow>,
) -> (result: Result<CancellationStep, StoreError>)
    ensures
        match (*current_build_state, recorded, *attempt) {
            (None, _, _) => result matches Err(error) && error == (StoreError::NotFound { entity: EntityKind::Build }),
            (Some(_), Some(recorded), _) => if is_readable(recorded) {
                result matches Ok(CancellationStep::Repeat(outcome)) && outcome.disposition
                    == MutationDisposition::Replayed && says(outcome, recorded)
            } else {
                result matches Err(error) && error == StoreError::Unavailable
            },
            (Some(_), None, None) => result matches Err(error) && error == (StoreError::NotFound {
                entity: EntityKind::Attempt,
            }),
            (Some(build), None, Some(attempt)) => if is_readable_attempt(build@, attempt, rows@) {
                result matches Ok(CancellationStep::Decide(input)) && build@ == build_state_text(input.build_state)
                    && input.attempt_id == attempt.id && attempt.state@ == attempt_state_text(input.attempt_state)
                    && input.jobs@.len() == rows@.len() && forall|i: int|
                    0 <= i < rows@.len() ==> is_job_of(#[trigger] input.jobs@[i], rows@[i])
            } else {
                result matches Err(error) && error == StoreError::Unavailable
            },
        },
{
    let build = match current_build_state {
        Some(build) => build,
        None => {
            return Err(StoreError::NotFound { entity: EntityKind::Build });
        },
    };
    match recorded {
        Some(recorded) => {
            return match recorded.outcome(MutationDisposition::Replayed) {
                Ok(outcome) => Ok(CancellationStep::Repeat(outcome)),
                Err(error) => Err(error),
            };
        },
        None => {},
    }
    let attempt = match attempt {
        Some(attempt) => attempt,
        None => {
            return Err(StoreError::NotFound { entity: EntityKind::Attempt });
        },
    };
    let build_state = parse_build_state(build.as_str())?;
    assert(build@ == build_state_text(build_state));
    let attempt_state = parse_attempt_state(attempt.state.as_str())?;
    assert(attempt.state@ == attempt_state_text(attempt_state));
    let jobs = read_jobs(rows)?;
    proof {
        assert forall|i: int| 0 <= i < rows@.len() implies is_readable_job(#[trigger] rows@[i]) by {
            assert(is_job_of(jobs@[i], rows@[i]));
        }
    }
    Ok(CancellationStep::Decide(CancellationInput { build_state, attempt_id: attempt.id, attempt_state, jobs }))
}

/// Why the orchestrator refuses to cancel.
#[derive(Clone, Copy, Debug, PartialEq, Eq, Structural)]
pub enum CancellationError {
    /// The build has ended.
    BuildNotActive,
    /// The attempt has ended.
    AttemptNotActive,
    /// The attempt has no jobs.
    EmptyAttempt,
    /// A job was listed twice.
    DuplicateJob,
    /// A job cannot go from its state to the one it should.
    InvalidTransition,
}

/// How a refusal to cancel is reported.
pub open spec fn refusal(error: CancellationError) -> StoreError {
    match error {
        CancellationError::BuildNotActive => StoreError::Conflict { entity: EntityKind::Build },
        CancellationError::AttemptNotActive => StoreError::Conflict { entity: EntityKind::Attempt },
        _ => StoreError::Unavailable,
    }
}

/// Reports a refusal to cancel: ending twice is a conflict, anything else a damaged record.
pub fn refuse(error: CancellationError) -> (reported: StoreError)
    ensures
        reported == refusal(error),
{
    match error {
        CancellationError::BuildNotActive => StoreError::Conflict { entity: EntityKind::Build },
        CancellationError::AttemptNotActive => StoreError::Conflict { entity: EntityKind::Attempt },
        _ => StoreError::Unavailable,
    }
}

/// Splits a decision into the jobs that are cancelled at once and the jobs whose agents are asked to
/// stop.
pub fn split(transitions: &Vec<JobTransition>) -> (split: (Vec<u128>, Vec<u128>))
    ensures
        split.0@ == moved_to(transitions@, JobState::Cancelled),
        split.1@ == moved_to(transitions@, JobState::Cancelling),
{
    (jobs_moved_to(transitions, JobState::Cancelled), jobs_moved_to(transitions, JobState::Cancelling))
}

/// Reports a cancellation that was carried out now.
pub fn applied(
    build_id: u128,
    attempt_id: u128,
    cancelled: Vec<u128>,
    cancelling: Vec<u128>,
    attempt_state: AttemptState,
    build_state: BuildState,
) -> (result: Result<CancellationDisposition, StoreError>)
    ensures
        match result {
            Ok(outcome) => {
                &&& is_identity(attempt_id) && all_identities(cancelled@) && all_identities(cancelling@)
                &&& outcome.disposition == MutationDisposition::Applied
                &&& outcome.build_id == build_id
                &&& outcome.attempt_id == attempt_id
                &&& outcome.cancelled_jobs@ == cancelled@
                &&& outcome.cancelling_jobs@ == cancelling@
                &&& outcome.attempt_state == attempt_state
                &&& outcome.build_state == build_state
            },
            Err(error) => error == StoreError::Unavailable && !(is_identity(attempt_id) && all_identities(cancelled@)
                && all_identities(cancelling@)),
        },
{
    let attempt_id: u128 = identity(attempt_id)?;
    let cancelled_jobs = job_ids(cancelled)?;
    let cancelling_jobs = job_ids(cancelling)?;
    Ok(
        CancellationDisposition {
            disposition: MutationDisposition::Applied,
            build_id,
            attempt_id,
            cancelled_jobs,
            cancelling_jobs,
            attempt_state,
            build_state,
        },
    )
}

/// A cancellation that was recorded is repeated in full, however often it is asked for again.
pub proof fn cancellations_repeat(
    first: CancellationDisposition,
    recorded: RecordedCancellation,
    again: CancellationDisposition,
)
    requires
        says(first, recorded),
        says(again, recorded),
        again.disposition == MutationDisposition::Replayed,
    ensures
        again.build_id == first.build_id,
        again.attempt_id == first.attempt_id,
        again.cancelled_jobs@ == first.cancelled_jobs@,
        again.cancelling_jobs@ == first.cancelling_jobs@,
        again.attempt_state == first.attempt_state,
        again.build_state == first.build_state,
{
    crate::state::attempt_state_text_names_one_value(first.attempt_state, again.attempt_state);
    crate::state::build_state_text_names_one_value(first.build_state, again.build_state);
}

/// Repeats a stored outcome.
pub fn replay(stored: CancellationDisposition) -> (outcome: CancellationDisposition)
    ensures
        outcome == (CancellationDisposition { disposition: MutationDisposition::Replayed, ..stored }),
{
    CancellationDisposition {
        disposition: MutationDisposition::Replayed,
        build_id: stored.build_id,
        attempt_id: stored.attempt_id,
        cancelled_jobs: stored.cancelled_jobs,
        cancelling_jobs: stored.cancelling_jobs,
        attempt_state: stored.attempt_state,
        build_state: stored.build_state,
    }
}

/// What the audit trail and the outbox are told of a cancellation.
pub fn facts(outcome: &CancellationDisposition) -> (facts: MutationFacts)
    ensures
        facts.actor_kind@ == "unauthenticated_management"@,
        facts.actor_identity is None,
        facts.target_identity@ == hyphenated(outcome.build_id),
        facts.safe_metadata@ == seq![
            (Member { name: "attempt_id", value: FactValue::Identity(outcome.attempt_id) }),
            (Member {
                name: "cancelled_job_count",
                value: FactValue::Number(outcome.cancelled_jobs@.len() as u64),
            }),
            (Member {
                name: "cancelling_job_count",
                value: FactValue::Number(outcome.cancelling_jobs@.len() as u64),
            }),
        ],
        facts.outbox_payload@.len() == 6,
        facts.outbox_payload@[0] == (Member { name: "attempt_id", value: FactValue::Identity(outcome.attempt_id) }),
        facts.outbox_payload@[1] == (Member { name: "build_id", value: FactValue::Identity(outcome.build_id) }),
        facts.outbox_payload@[2].name@ == "cancelled_jobs"@,
        facts.outbox_payload@[2].value matches FactValue::Identities(ids) && ids@ == outcome.cancelled_jobs@,
        facts.outbox_payload@[3].name@ == "cancelling_jobs"@,
        facts.outbox_payload@[3].value matches FactValue::Identities(ids) && ids@ == outcome.cancelling_jobs@,
        facts.outbox_payload@[4].name@ == "build_state"@,
        facts.outbox_payload@[4].value matches FactValue::Word(word) && word@ == build_state_text(outcome.build_state),
        facts.outbox_payload@[5] == (Member { name: "schema_version", value: FactValue::Number(1) }),
{
    MutationFacts {
        actor_kind: "unauthenticated_management",
        actor_identity: None,
        target_identity: identity_text(outcome.build_id),
        safe_metadata: vec![
            Member { name: "attempt_id", value: FactValue::Identity(outcome.attempt_id) },
            Member {
                name: "cancelled_job_count",
                value: FactValue::Number(outcome.cancelled_jobs.len() as u64),
            },
            Member {
                name: "cancelling_job_count",
                value: FactValue::Number(outcome.cancelling_jobs.len() as u64),
            },
        ],
        outbox_payload: vec![
            Member { name: "attempt_id", value: FactValue::Identity(outcome.attempt_id) },
            Member { name: "build_id", value: FactValue::Identity(outcome.build_id) },
            Member { name: "cancelled_jobs", value: FactValue::Identities(copy_ids(&outcome.cancelled_jobs)) },
            Member { name: "cancelling_jobs", value: FactValue::Identities(copy_ids(&outcome.cancelling_jobs)) },
            Member { name: "build_state", value: FactValue::Word(build_state(outcome.build_state)) },
            Member { name: "schema_version", value: FactValue::Number(1) },
        ],
    }
}

/// Cancelling what is not going on contradicts the build or its attempt; a graph that makes no sense cannot be read.
pub proof fn ended_builds_are_not_cancelled(error: CancellationError)
    ensures
        refusal(error) == (StoreError::Conflict { entity: EntityKind::Build }) <==> error
            == CancellationError::BuildNotActive,
        refusal(error) == (StoreError::Conflict { entity: EntityKind::Attempt }) <==> error
            == CancellationError::AttemptNotActive,
        error != CancellationError::BuildNotActive && error != CancellationError::AttemptNotActive ==> refusal(error)
            == StoreError::Unavailable,
{
}

/// What is repeated of a cancellation is what was recorded of it: the jobs that were cancelled at once apart from
/// those whose agents were asked to stop, and the states of the attempt and of the build.
pub proof fn recorded_cancellations_are_repeated(outcome: CancellationDisposition, recorded: RecordedCancellation)
    requires
        says(outcome, recorded),
    ensures
        outcome.build_id == recorded.build_id && outcome.attempt_id == recorded.attempt_id,
        outcome.cancelled_jobs@ == recorded.cancelled_job_ids@,
        outcome.cancelling_jobs@ == recorded.cancelling_job_ids@,
        attempt_state_text(outcome.attempt_state) == recorded.attempt_state@,
        build_state_text(outcome.build_state) == recorded.build_state@,
{
}

/// The jobs that a cancellation is decided over are those of the attempt, each in the state it is in.
pub proof fn cancellations_are_decided_over_the_jobs_as_they_are(job: JobTransition, row: JobRow)
    requires
        is_job_of(job, row),
    ensures
        job.job_id == row.id,
        job_state_text(job.state) == row.state@,
{
}

/// A recorded cancellation is read exactly where every identity in it is set and its states are known; an attempt is
/// read exactly where its state, that of its build and every job are.
pub proof fn sound_cancellations_are_read(
    recorded: RecordedCancellation,
    build_state: Seq<char>,
    attempt: AttemptRow,
    rows: Seq<JobRow>,
)
    ensures
        is_readable(recorded) <==> recorded.build_id != 0 && recorded.attempt_id != 0 && (forall|i: int|
            0 <= i < recorded.cancelled_job_ids@.len() ==> #[trigger] recorded.cancelled_job_ids@[i] != 0) && (forall|
            i: int,
        |
            0 <= i < recorded.cancelling_job_ids@.len() ==> #[trigger] recorded.cancelling_job_ids@[i] != 0) && (exists|
            state: AttemptState,
        |
            recorded.attempt_state@ == #[trigger] attempt_state_text(state)) && (exists|state: BuildState|
            recorded.build_state@ == #[trigger] build_state_text(state)),
        is_readable_attempt(build_state, attempt, rows) <==> (exists|state: BuildState|
            build_state == #[trigger] build_state_text(state)) && (exists|state: AttemptState|
            attempt.state@ == #[trigger] attempt_state_text(state)) && (forall|i: int|
            0 <= i < rows.len() ==> (#[trigger] rows[i]).id != 0 && exists|state: JobState|
                rows[i].state@ == #[trigger] job_state_text(state)),
{
    if all_identities(recorded.cancelled_job_ids@) {
        assert forall|i: int| 0 <= i < recorded.cancelled_job_ids@.len() implies #[trigger] recorded.cancelled_job_ids@[i]
            != 0 by {
            assert(is_identity(recorded.cancelled_job_ids@[i]));
        }
    }
    if all_identities(recorded.cancelling_job_ids@) {
        assert forall|i: int| 0 <= i < recorded.cancelling_job_ids@.len() implies #[trigger] recorded.cancelling_job_ids@[
        i] != 0 by {
            assert(is_identity(recorded.cancelling_job_ids@[i]));
        }
    }
    if is_readable_attempt(build_state, attempt, rows) {
        assert forall|i: int| 0 <= i < rows.len() implies (#[trigger] rows[i]).id != 0 && exists|state: JobState|
            rows[i].state@ == #[trigger] job_state_text(state) by {
            assert(is_readable_job(rows[i]));
        }
    }
}

} // verus!
