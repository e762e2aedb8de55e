//! Completion of a job, and what it does to the rest of its attempt.

use vstd::prelude::*;

use crate::database::{all_identities, fits_column, job_ids, number, out_of_range};
use crate::domain::{
    is_identity, identity, EntityKind, MutationDisposition, StoreError, StoreInputError, StoreOperation,
};
use crate::hash::sha256_of;
use crate::identity_text::{hyphenated, identity_text};
use crate::lease::{
    currency, current_states_are_not_expired, load, loaded, require_current, LeaseAccess, LeaseRow,
};
use crate::mutation::{FactValue, Member, MutationFacts};
use crate::state::{
    attempt_state, attempt_state_text, build_state, build_state_text, job_state, job_state_text, parse_attempt_state,
    parse_build_state, AttemptState, BuildState, JobState,
};
use crate::text::same_text;

verus! {

/// Whose fault a failed job was.
#[derive(Clone, Copy, Debug, PartialEq, Eq, Structural)]
pub enum JobFailureClass {
    /// Stored as `execution`.
    Execution,
    /// Stored as `infrastructure`.
    Infrastructure,
}

/// The stored name of a failure class.
pub open spec fn failure_class_name_text(value: JobFailureClass) -> Seq<char> {
    match value {
        JobFailureClass::Execution => "execution"@,
        JobFailureClass::Infrastructure => "infrastructure"@,
    }
}

/// No two values share a stored name.
pub proof fn failure_class_name_text_names_one_value(a: JobFailureClass, b: JobFailureClass)
    ensures
        failure_class_name_text(a) == failure_class_name_text(b) ==> a == b,
{
    reveal_strlit("execution");
    reveal_strlit("infrastructure");
    assert("execution"@.len() == 9);
    assert("infrastructure"@.len() == 14);
}

/// Names a failure class as the database stores it.
pub fn failure_class_name(value: JobFailureClass) -> (text: &'static str)
    ensures
        text@ == failure_class_name_text(value),
{
    match value {
        JobFailureClass::Execution => "execution",
        JobFailureClass::Infrastructure => "infrastructure",
    }
}

/// Reads a failure class back from its stored name; any other text is unreadable.
pub fn parse_failure_class_name(text: &str) -> (result: Result<JobFailureClass, StoreError>)
    ensures
        forall|value: JobFailureClass|
            result == Ok::<JobFailureClass, StoreError>(value)
                <==> text@ == #[trigger] failure_class_name_text(value),
        result is Err ==> result == Err::<JobFailureClass, StoreError>(StoreError::Unavailable),
{
    proof {
        assert forall|a: JobFailureClass, b: JobFailureClass|
            #[trigger] failure_class_name_text(a) == #[trigger] failure_class_name_text(b)
            implies a == b by {
            failure_class_name_text_names_one_value(a, b);
        }
    }
    let result = if same_text(text, "execution") {
        Ok(JobFailureClass::Execution)
    } else if same_text(text, "infrastructure") {
        Ok(JobFailureClass::Infrastructure)
    } else {
        Err(StoreError::Unavailable)
    };
    assert(result matches Ok(value) ==> text@ == failure_class_name_text(value));
    result
}

/// How a job ended.
#[derive(Clone, Copy, Debug, PartialEq, Eq, Structural)]
pub enum JobCompletionKind {
    /// It did what it was for.
    Succeeded,
    /// It failed.
    Failed(JobFailureClass),
    /// It was cancelled.
    Cancelled,
}

/// The state a completed job is in.
pub open spec fn completed_state(kind: JobCompletionKind) -> JobState {
    match kind {
        JobCompletionKind::Succeeded => JobState::Succeeded,
        JobCompletionKind::Failed(_) => JobState::Failed,
        JobCompletionKind::Cancelled => JobState::Cancelled,
    }
}

/// The stored name of how a job ended.
pub fn completion_kind(kind: JobCompletionKind) -> (text: &'static str)
    ensures
        text@ == job_state_text(completed_state(kind)),
{
    match kind {
        JobCompletionKind::Succeeded => "succeeded",
        JobCompletionKind::Failed(_) => "failed",
        JobCompletionKind::Cancelled => "cancelled",
    }
}

/// The class of a failure; other ends have none.
pub open spec fn class_of(kind: JobCompletionKind) -> Option<JobFailureClass> {
    match kind {
        JobCompletionKind::Failed(class) => Some(class),
        _ => None,
    }
}

/// The stored name of the class of a failure.
pub fn failure_class(kind: JobCompletionKind) -> (text: Option<&'static str>)
    ensures
        match class_of(kind) {
            Some(class) => text matches Some(name) && name@ == failure_class_name_text(class),
            None => text is None,
        },
{
    match kind {
        JobCompletionKind::Failed(class) => Some(failure_class_name(class)),
        _ => None,
    }
}

/// Reads the class of a failure back; absence is no failure.
pub fn parse_failure_class(value: &Option<String>) -> (result: Result<Option<JobFailureClass>, StoreError>)
    ensures
        value is None ==> result == Ok::<Option<JobFailureClass>, StoreError>(None),
        value matches Some(text) ==> {
            &&& forall|class: JobFailureClass|
                result == Ok::<Option<JobFailureClass>, StoreError>(Some(class)) <==> text@
                    == #[trigger] failure_class_name_text(class)
            &&& result != Ok::<Option<JobFailureClass>, StoreError>(None)
        },
        result is Err ==> result == Err::<Option<JobFailureClass>, StoreError>(StoreError::Unavailable),
{
    match value {
        None => Ok(None),
        Some(text) => match parse_failure_class_name(text.as_str()) {
            Ok(class) => Ok(Some(class)),
            Err(error) => Err(error),
        },
    }
}

/// A request to complete a job.
pub struct JobCompletion {
    /// The lease and who presents it.
    pub lease: LeaseAccess,
    /// Last position of the job's log, where it has one.
    pub final_sequence: Option<u64>,
    /// How the job ended.
    pub kind: JobCompletionKind,
    /// When it ended.
    pub completed_at: i64,
}

impl JobCompletion {
    /// The position through which the log has to be durable.
    pub open spec fn spec_required(self) -> u64 {
        match self.final_sequence {
            Some(sequence) => sequence,
            None => 0,
        }
    }

    /// The position through which the log has to be durable.
    pub fn required(&self) -> (sequence: u64)
        ensures
            sequence == self.spec_required(),
    {
        match self.final_sequence {
            Some(sequence) => sequence,
            None => 0,
        }
    }
}

/// A completion on record.
pub struct CompletionRow {
    /// Lease under which it was reported.
    pub lease_id: u128,
    /// Last position of the job's log.
    pub final_sequence: i64,
    /// How the job ended.
    pub kind: String,
    /// Class of the failure.
    pub failure_class: Option<String>,
    /// Jobs that became ready.
    pub ready_job_ids: Vec<u128>,
    /// Jobs that were skipped.
    pub skipped_job_ids: Vec<u128>,
    /// State the attempt went to.
    pub attempt_state: String,
    /// State the build went to.
    pub build_state: String,
}

/// Whether a completion on record is the one that is requested.
pub open spec fn same_completion(row: CompletionRow, request: JobCompletion, final_sequence: i64) -> bool {
    &&& row.lease_id == request.lease.lease_id
    &&& row.final_sequence == final_sequence
    &&& row.kind@ == job_state_text(completed_state(request.kind))
    &&& match (row.failure_class, class_of(request.kind)) {
        (Some(text), Some(class)) => text@ == failure_class_name_text(class),
        (None, None) => true,
        _ => false,
    }
}

impl CompletionRow {
    /// Whether this completion is the one that is requested.
    pub fn matches(&self, request: &JobCompletion, final_sequence: i64) -> (same: bool)
        ensures
            same == same_completion(*self, *request, final_sequence),
    {
        let same_class = match (&self.failure_class, failure_class(request.kind)) {
            (Some(text), Some(class)) => same_text(text.as_str(), class),
            (None, None) => true,
            _ => false,
        };
        self.lease_id == request.lease.lease_id && self.final_sequence == final_sequence && same_text(
            self.kind.as_str(),
            completion_kind(request.kind),
        ) && same_class
    }
}

/// What completing a job did.
pub struct CompletionDisposition {
    /// Whether this call changed anything.
    pub disposition: MutationDisposition,
    /// The job.
    pub job_id: u128,
    /// Class of its failure.
    pub failure_class: Option<JobFailureClass>,
    /// Jobs that became ready.
    pub ready_jobs: Vec<u128>,
    /// Jobs that were skipped.
    pub skipped_jobs: Vec<u128>,
    /// State of the attempt.
    pub attempt_state: AttemptState,
    /// State of the build.
    pub build_state: BuildState,
}

/// Whether a completion on record can be read.
pub open spec fn is_readable(row: CompletionRow) -> bool {
    &&& all_identities(row.ready_job_ids@)
    &&& all_identities(row.skipped_job_ids@)
    &&& row.failure_class matches Some(text) ==> exists|class: JobFailureClass|
        text@ == #[trigger] failure_class_name_text(class)
    &&& exists|state: AttemptState| row.attempt_state@ == #[trigger] attempt_state_text(state)
    &&& exists|state: BuildState| row.build_state@ == #[trigger] build_state_text(state)
}

/// Whether a disposition repeats a completion on record.
pub open spec fn repeats(outcome: CompletionDisposition, row: CompletionRow, job_id: u128) -> bool {
    &&& outcome.disposition == MutationDisposition::Replayed
    &&& outcome.job_id == job_id
    &&& match (outcome.failure_class, row.failure_class) {
        (Some(class), Some(text)) => text@ == failure_class_name_text(class),
        (None, None) => true,
        _ => false,
    }
    &&& outcome.ready_jobs@ == row.ready_job_ids@
    &&& outcome.skipped_jobs@ == row.skipped_job_ids@
    &&& row.attempt_state@ == attempt_state_text(outcome.attempt_state)
    &&& row.build_state@ == build_state_text(outcome.build_state)
}

fn repeat(row: CompletionRow, job_id: u128) -> (result: Result<CompletionDisposition, StoreError>)
    ensures
        match result {
            Ok(outcome) => is_identity(job_id) && is_readable(row) && repeats(outcome, row, job_id),
            Err(error) => error == StoreError::Unavailable && !(is_identity(job_id) && is_readable(row)),
        },
{
    let ready_jobs = job_ids(row.ready_job_ids)?;
    let job_id: u128 = identity(job_id)?;
    let failure_class = parse_failure_class(&row.failure_class)?;
    assert(row.failure_class matches Some(text) ==> text@ == failure_class_name_text(failure_class->Some_0));
    let skipped_jobs = job_ids(row.skipped_job_ids)?;
    let attempt_state = parse_attempt_state(row.attempt_state.as_str())?;
    assert(row.attempt_state@ == attempt_state_text(attempt_state));
    let build_state = parse_build_state(row.build_state.as_str())?;
    assert(row.build_state@ == build_state_text(build_state));
    Ok(
        CompletionDisposition {
            disposition: MutationDisposition::Replayed,
            job_id,
            failure_class,
            ready_jobs,
            skipped_jobs,
            attempt_state,
            build_state,
        },
    )
}

/// Whether a log that is durable through `durable_through` is complete at `required`.
pub open spec fn cursor_verdict(job_id: u128, durable_through: i64, required: u64) -> Result<(), StoreError> {
    if durable_through < 0 {
        Err(StoreError::Unavailable)
    } else if required > durable_through {
        if is_identity(job_id) {
            Err(
                StoreError::EventsMissing { job: job_id, durable_through: durable_through as u64, required },
            )
        } else {
            Err(StoreError::Unavailable)
        }
    } else if required < durable_through {
        Err(StoreError::Conflict { entity: EntityKind::Job })
    } else {
        Ok(())
    }
}

/// Requires that the log of a job ends exactly where its completion says.
pub fn require_durable_cursor(job_id: u128, durable_through: i64, required: u64) -> (result: Result<(), StoreError>)
    ensures
        result == cursor_verdict(job_id, durable_through, required),
{
    if durable_through < 0 {
        return Err(StoreError::Unavailable);
    }
    let durable: u64 = durable_through as u64;
    if required > durable {
        let job: u128 = identity(job_id)?;
        return Err(StoreError::EventsMissing { job, durable_through: durable, required });
    }
    if required < durable {
        return Err(StoreError::Conflict { entity: EntityKind::Job });
    }
    Ok(())
}

/// The state to write for a completed job: `terminal` is what the completion makes of the job's
/// state, and has to agree with how the job ended.
pub fn persist_terminal_state(
    kind: JobCompletionKind,
    terminal: Result<JobState, StoreError>,
) -> (result: Result<&'static str, StoreError>)
    ensures
        match terminal {
            Err(error) => result == Err::<&'static str, StoreError>(error),
            Ok(state) => if state == completed_state(kind) {
                result matches Ok(text) && text@ == job_state_text(state)
            } else {
                result == Err::<&'static str, StoreError>(StoreError::Unavailable)
            },
        },
{
    match terminal {
        Err(error) => Err(error),
        Ok(state) => {
            let text = job_state(state);
            if !same_text(text, completion_kind(kind)) {
                return Err(StoreError::Unavailable);
            }
            proof {
                crate::state::job_state_text_names_one_value(state, completed_state(kind));
            }
            Ok(text)
        },
    }
}

/// What is done about a completion.
pub enum CompletionStep {
    /// The same completion is on record; this is what it did.
    Repeat(CompletionDisposition),
    /// The job is to be completed now: the position through which its log is durable, and the state it ends in.
    Complete { final_sequence: i64, job_state: &'static str },
}

/// What a completion meets in the database.
pub struct CompletionSurroundings {
    /// The attempt and the build that were found for the lease.
    pub graph: Option<(u128, u128)>,
    /// The build of that attempt, once both are locked.
    pub locked_build: u128,
    /// The completion on record.
    pub existing: Option<CompletionRow>,
    /// The position through which the log of the job is durable.
    pub durable_through: i64,
}

/// What a request to complete a job comes to before the lease is looked at.
pub open spec fn located(request: JobCompletion, met: CompletionSurroundings) -> Result<(), StoreError> {
    match met.graph {
        None => Err(StoreError::Fenced { lease: request.lease.lease_id }),
        Some((_, build_id)) => if met.locked_build != build_id {
            Err(StoreError::Unavailable)
        } else {
            Ok(())
        },
    }
}

/// Whether a job may end as a completion says: `terminal` is what the completion makes of its state.
pub open spec fn end_verdict(
    kind: JobCompletionKind,
    job_id: u128,
    durable_through: i64,
    required: u64,
    terminal: Result<JobState, StoreError>,
) -> Result<(), StoreError> {
    match cursor_verdict(job_id, durable_through, required) {
        Err(error) => Err(error),
        Ok(()) => match terminal {
            Err(error) => Err(error),
            Ok(state) => if state == completed_state(kind) {
                Ok(())
            } else {
                Err(StoreError::Unavailable)
            },
        },
    }
}

/// What a request to complete a job comes to before anything is written, where the lease was loaded for its
/// holder.
pub open spec fn admitted(
    request: JobCompletion,
    lease: LeaseRow,
    met: CompletionSurroundings,
    terminal: Result<JobState, StoreError>,
) -> Result<(), StoreError> {
    match located(request, met) {
        Err(error) => Err(error),
        Ok(()) => if lease.attempt_id != met.graph->Some_0.0 {
            Err(StoreError::Unavailable)
        } else if !fits_column(request.spec_required()) {
            Err(out_of_range(StoreOperation::CompleteJob))
        } else {
            match met.existing {
                Some(row) => if !same_completion(row, request, request.spec_required() as i64) {
                    Err(StoreError::Conflict { entity: EntityKind::Job })
                } else if is_identity(lease.job_id) && is_readable(row) {
                    Ok(())
                } else {
                    Err(StoreError::Unavailable)
                },
                None => match currency(lease, request.lease, request.completed_at) {
                    Err(error) => Err(error),
                    Ok(()) => end_verdict(
                        request.kind,
                        lease.job_id,
                        met.durable_through,
                        request.spec_required(),
                        terminal,
                    ),
                },
            }
        },
    }
}

/// Whether a step is the one of an admitted request: the completion on record is repeated, and without one the
/// job ends now.
pub open spec fn is_step(
    step: CompletionStep,
    request: JobCompletion,
    lease: LeaseRow,
    existing: Option<CompletionRow>,
) -> bool {
    match (step, existing) {
        (CompletionStep::Repeat(outcome), Some(row)) => repeats(outcome, row, lease.job_id),
        (CompletionStep::Complete { final_sequence, job_state }, None) => final_sequence == request.spec_required()
            && job_state@ == job_state_text(completed_state(request.kind)),
        _ => false,
    }
}

fn locate(request: &JobCompletion, met: &CompletionSurroundings) -> (result: Result<(), StoreError>)
    ensures
        result == located(*request, *met),
{
    match met.graph {
        Some((_, build_id)) => if met.locked_build != build_id {
            Err(StoreError::Unavailable)
        } else {
            Ok(())
        },
        None => Err(StoreError::Fenced { lease: request.lease.lease_id }),
    }
}

/// Decides whether a completion under a lease that was loaded is new, a repetition, or to be refused: the same
/// completion on record is repeated, another one is a conflict, and without one the lease has to be held and the
/// log to be complete.
pub fn execute_held(
    request: &JobCompletion,
    lease: &LeaseRow,
    met: CompletionSurroundings,
    terminal: Result<JobState, StoreError>,
) -> (result: Result<CompletionStep, StoreError>)
    ensures
        match admitted(*request, *lease, met, terminal) {
            Err(error) => result matches Err(reported) && reported == error,
            Ok(()) => result matches Ok(step) && is_step(step, *request, *lease, met.existing),
        },
{
    match locate(request, &met) {
        Ok(()) => {},
        Err(error) => {
            return Err(error);
        },
    }
    match met.graph {
        Some((attempt_id, _)) => {
            if lease.attempt_id != attempt_id {
                return Err(StoreError::Unavailable);
            }
        },
        None => {},
    }
    let required: u64 = request.required();
    let final_sequence: i64 = number(required, StoreOperation::CompleteJob)?;
    match met.existing {
        Some(row) => {
            if !row.matches(request, final_sequence) {
                return Err(StoreError::Conflict { entity: EntityKind::Job });
            }
            let outcome = repeat(row, lease.job_id)?;
            Ok(CompletionStep::Repeat(outcome))
        },
        None => {
            match require_current(lease, &request.lease, request.completed_at) {
                Ok(()) => {},
                Err(error) => {
                    return Err(error);
                },
            }
            match require_durable_cursor(lease.job_id, met.durable_through, required) {
                Ok(()) => {},
                Err(error) => {
                    return Err(error);
                },
            }
            match persist_terminal_state(request.kind, terminal) {
                Ok(job_state) => Ok(CompletionStep::Complete { final_sequence, job_state }),
                Err(error) => Err(error),
            }
        },
    }
}

/// Decides whether a completion is new, a repetition, or to be refused: the caller has to be the holder of the
/// lease.
pub fn execute(
    request: &JobCompletion,
    row: Option<LeaseRow>,
    met: CompletionSurroundings,
    terminal: Result<JobState, StoreError>,
) -> (result: Result<CompletionStep, StoreError>)
    ensures
        match located(*request, met) {
            Err(error) => result matches Err(reported) && reported == error,
            Ok(()) => match loaded(
                row,
                request.lease,
                StoreOperation::CompleteJob,
                sha256_of(request.lease.fence@),
            ) {
                Err(error) => result matches Err(reported) && reported == error,
                Ok(lease) => match admitted(*request, lease, met, terminal) {
                    Err(error) => result matches Err(reported) && reported == error,
                    Ok(()) => result matches Ok(step) && is_step(step, *request, lease, met.existing),
                },
            },
        },
{
    match locate(request, &met) {
        Ok(()) => {},
        Err(error) => {
            return Err(error);
        },
    }
    match load(row, &request.lease, StoreOperation::CompleteJob) {
        Ok(lease) => execute_held(request, &lease, met, terminal),
        Err(error) => Err(error),
    }
}

/// Completing a job a second time in the same way is a repetition, in another way a conflict, whether
/// or not the lease is still held.
pub proof fn completions_happen_once(
    request: JobCompletion,
    lease: LeaseRow,
    met: CompletionSurroundings,
    terminal: Result<JobState, StoreError>,
)
    requires
        located(request, met) is Ok,
        lease.attempt_id == met.graph->Some_0.0,
        fits_column(request.spec_required()),
        is_identity(lease.job_id),
        met.existing is Some,
        is_readable(met.existing->Some_0),
    ensures
        same_completion(met.existing->Some_0, request, request.spec_required() as i64) ==> admitted(
            request,
            lease,
            met,
            terminal,
        ) == Ok::<(), StoreError>(()),
        !same_completion(met.existing->Some_0, request, request.spec_required() as i64) ==> admitted(
            request,
            lease,
            met,
            terminal,
        ) == Err::<(), StoreError>(StoreError::Conflict { entity: EntityKind::Job }),
{
}

/// A job ends only under a lease that is held, and only where its log is durable exactly through the position
/// that its completion names.
pub proof fn ended_jobs_are_complete(
    request: JobCompletion,
    lease: LeaseRow,
    met: CompletionSurroundings,
    terminal: Result<JobState, StoreError>,
)
    requires
        met.existing is None,
        admitted(request, lease, met, terminal) is Ok,
    ensures
        currency(lease, request.lease, request.completed_at) is Ok,
        met.durable_through == request.spec_required(),
        terminal == Ok::<JobState, StoreError>(completed_state(request.kind)),
{
}

/// A job whose completion is not on record ends exactly under a lease that is held, which it is also while its
/// holder was asked to stop: where the attempt and the build are those that were found, the log is durable exactly
/// through the position that the completion names, and the job's state becomes the one that the completion names.
pub proof fn held_leases_complete_their_jobs(
    request: JobCompletion,
    lease: LeaseRow,
    met: CompletionSurroundings,
    terminal: Result<JobState, StoreError>,
)
    requires
        met.existing is None,
    ensures
        admitted(request, lease, met, terminal) is Ok <==> {
            &&& met.graph == Some((lease.attempt_id, met.locked_build))
            &&& lease.state@ == "active"@ || lease.state@ == "cancellation_requested"@ || lease.state@
                == "drain_requested"@
            &&& !lease.expired
            &&& request.completed_at < lease.expires_at_millis
            &&& met.durable_through == (match request.final_sequence {
                Some(sequence) => sequence as int,
                None => 0,
            })
            &&& terminal == Ok::<JobState, StoreError>(
                match request.kind {
                    JobCompletionKind::Succeeded => JobState::Succeeded,
                    JobCompletionKind::Failed(_) => JobState::Failed,
                    JobCompletionKind::Cancelled => JobState::Cancelled,
                },
            )
        },
{
    current_states_are_not_expired();
}

/// A job that ends now ends through the last position of its log and in the state that its completion names.
pub proof fn jobs_end_as_reported(step: CompletionStep, request: JobCompletion, lease: LeaseRow)
    ensures
        is_step(step, request, lease, None) <==> (step matches CompletionStep::Complete { final_sequence, job_state }
            && final_sequence == (match request.final_sequence {
            Some(sequence) => sequence as int,
            None => 0,
        }) && job_state@ == (match request.kind {
            JobCompletionKind::Succeeded => "succeeded"@,
            JobCompletionKind::Failed(_) => "failed"@,
            JobCompletionKind::Cancelled => "cancelled"@,
        })),
{
}

/// Why a completion that is not on record is refused: a lease that has run out is expired, one that was ended
/// otherwise fences its agent off, a log that is not durable far enough lacks events, and one that is durable
/// further contradicts the completion.
pub proof fn refused_completions_say_why(
    request: JobCompletion,
    lease: LeaseRow,
    met: CompletionSurroundings,
    terminal: Result<JobState, StoreError>,
    required: u64,
)
    requires
        met.existing is None,
        met.graph == Some((lease.attempt_id, met.locked_build)),
        required == (match request.final_sequence {
            Some(sequence) => sequence,
            None => 0,
        }),
        required <= i64::MAX,
        met.durable_through >= 0,
        is_identity(lease.job_id),
    ensures
        lease.expired || lease.state@ == "expired"@ || request.completed_at >= lease.expires_at_millis ==> admitted(
            request,
            lease,
            met,
            terminal,
        ) == Err::<(), StoreError>(StoreError::Expired { lease: request.lease.lease_id }),
        !lease.expired && lease.state@ != "expired"@ && request.completed_at < lease.expires_at_millis ==> {
            let held = lease.state@ == "active"@ || lease.state@ == "cancellation_requested"@ || lease.state@
                == "drain_requested"@;
            &&& !held ==> admitted(request, lease, met, terminal) == Err::<(), StoreError>(
                StoreError::Fenced { lease: request.lease.lease_id },
            )
            &&& held && met.durable_through < required ==> admitted(request, lease, met, terminal) == Err::<
                (),
                StoreError,
            >(
                StoreError::EventsMissing {
                    job: lease.job_id,
                    durable_through: met.durable_through as u64,
                    required,
                },
            )
            &&& held && met.durable_through > required ==> admitted(request, lease, met, terminal) == Err::<
                (),
                StoreError,
            >(StoreError::Conflict { entity: EntityKind::Job })
            &&& held && met.durable_through == required && terminal is Err ==> admitted(request, lease, met, terminal)
                == Err::<(), StoreError>(terminal->Err_0)
        },
{
}

/// A completion is refused before its lease is looked at where no attempt was found for it, or one of another build;
/// and where the lease is for another attempt, or the position cannot be stored.
pub proof fn misplaced_completions_are_refused(
    request: JobCompletion,
    lease: LeaseRow,
    met: CompletionSurroundings,
    terminal: Result<JobState, StoreError>,
)
    ensures
        met.graph is None ==> admitted(request, lease, met, terminal) == Err::<(), StoreError>(
            StoreError::Fenced { lease: request.lease.lease_id },
        ),
        met.graph matches Some((attempt_id, build_id)) ==> (met.locked_build != build_id || lease.attempt_id
            != attempt_id) ==> admitted(request, lease, met, terminal) == Err::<(), StoreError>(StoreError::Unavailable),
        met.graph == Some((lease.attempt_id, met.locked_build)) && request.final_sequence is Some
            && request.final_sequence->Some_0 > i64::MAX ==> admitted(request, lease, met, terminal) == Err::<(), StoreError>(
            StoreError::InvalidInput {
                operation: StoreOperation::CompleteJob,
                source: StoreInputError::NumericOutOfRange,
            },
        ),
{
}

/// Two completions are the same exactly where they agree on the lease, on the last position of the log, and on how
/// the job ended, down to the class of a failure.
pub proof fn completions_are_told_apart(row: CompletionRow, request: JobCompletion, final_sequence: i64)
    ensures
        same_completion(row, request, final_sequence) <==> row.lease_id == request.lease.lease_id && row.final_sequence
            == final_sequence && match request.kind {
            JobCompletionKind::Succeeded => row.kind@ == "succeeded"@ && row.failure_class is None,
            JobCompletionKind::Cancelled => row.kind@ == "cancelled"@ && row.failure_class is None,
            JobCompletionKind::Failed(JobFailureClass::Execution) => row.kind@ == "failed"@ && row.failure_class is Some
                && row.failure_class->Some_0@ == "execution"@,
            JobCompletionKind::Failed(JobFailureClass::Infrastructure) => row.kind@ == "failed"@
                && row.failure_class is Some && row.failure_class->Some_0@ == "infrastructure"@,
        },
{
}

/// A repeated completion reports what the first one did: the jobs it made ready and those it skipped, and the
/// states of the attempt and of the build.
pub proof fn repetitions_report_the_first_completion(
    step: CompletionStep,
    request: JobCompletion,
    lease: LeaseRow,
    row: CompletionRow,
)
    requires
        is_step(step, request, lease, Some(row)),
    ensures
        step matches CompletionStep::Repeat(outcome) && outcome.disposition == MutationDisposition::Replayed
            && outcome.job_id == lease.job_id && outcome.ready_jobs@ == row.ready_job_ids@ && outcome.skipped_jobs@
            == row.skipped_job_ids@ && attempt_state_text(outcome.attempt_state) == row.attempt_state@
            && build_state_text(outcome.build_state) == row.build_state@,
        step matches CompletionStep::Repeat(outcome) && (outcome.failure_class is Some <==> row.failure_class is Some)
            && (outcome.failure_class == Some(JobFailureClass::Execution) ==> row.failure_class->Some_0@ == "execution"@)
            && (outcome.failure_class == Some(JobFailureClass::Infrastructure) ==> row.failure_class->Some_0@
            == "infrastructure"@),
{
}

/// Reports a completion that was carried out now.
pub fn applied(
    request: &JobCompletion,
    job_id: u128,
    ready_jobs: Vec<u128>,
    skipped_jobs: Vec<u128>,
    attempt_state: AttemptState,
    build_state: BuildState,
) -> (result: Result<CompletionDisposition, StoreError>)
    ensures
        match result {
            Ok(outcome) => {
                &&& is_identity(job_id) && all_identities(ready_jobs@) && all_identities(skipped_jobs@)
                &&& outcome.disposition == MutationDisposition::Applied
                &&& outcome.job_id == job_id
                &&& outcome.failure_class == class_of(request.kind)
                &&& outcome.ready_jobs@ == ready_jobs@
                &&& outcome.skipped_jobs@ == skipped_jobs@
                &&& outcome.attempt_state == attempt_state
                &&& outcome.build_state == build_state
            },
            Err(error) => error == StoreError::Unavailable && !(is_identity(job_id) && all_identities(ready_jobs@)
                && all_identities(skipped_jobs@)),
        },
{
    let job_id: u128 = identity(job_id)?;
    let ready_jobs = job_ids(ready_jobs)?;
    let skipped_jobs = job_ids(skipped_jobs)?;
    Ok(
        CompletionDisposition {
            disposition: MutationDisposition::Applied,
            job_id,
            failure_class: match request.kind {
                JobCompletionKind::Failed(class) => Some(class),
                _ => None,
            },
            ready_jobs,
            skipped_jobs,
            attempt_state,
            build_state,
        },
    )
}

/// Repeats a stored outcome.
pub fn replay(stored: CompletionDisposition) -> (outcome: CompletionDisposition)
    ensures
        outcome == (CompletionDisposition { disposition: MutationDisposition::Replayed, ..stored }),
{
    CompletionDisposition {
        disposition: MutationDisposition::Replayed,
        job_id: stored.job_id,
        failure_class: stored.failure_class,
        ready_jobs: stored.ready_jobs,
        skipped_jobs: stored.skipped_jobs,
        attempt_state: stored.attempt_state,
        build_state: stored.build_state,
    }
}

/// What the audit trail and the outbox are told of a completion.
pub fn facts(request: &JobCompletion, outcome: &CompletionDisposition) -> (facts: MutationFacts)
    ensures
        facts.actor_kind@ == "agent"@,
        facts.actor_identity matches Some(actor) && actor@ == hyphenated(request.lease.agent_id),
        facts.target_identity@ == hyphenated(outcome.job_id),
        facts.safe_metadata@.len() == 8,
        facts.safe_metadata@[0].name@ == "final_sequence"@,
        facts.safe_metadata@[0].value == FactValue::OptionalNumber(request.final_sequence),
        facts.safe_metadata@[1].name@ == "kind"@,
        facts.safe_metadata@[1].value matches FactValue::Word(word) && word@ == job_state_text(
            completed_state(request.kind),
        ),
        facts.safe_metadata@[2].name@ == "failure_class"@,
        is_class_word(facts.safe_metadata@[2].value, request.kind),
        facts.safe_metadata@[3] == (Member {
            name: "lease_id",
            value: FactValue::Identity(request.lease.lease_id),
        }),
        facts.safe_metadata@[4] == (Member {
            name: "ready_job_count",
            value: FactValue::Number(outcome.ready_jobs@.len() as u64),
        }),
        facts.safe_metadata@[5] == (Member {
            name: "skipped_job_count",
            value: FactValue::Number(outcome.skipped_jobs@.len() as u64),
        }),
        facts.safe_metadata@[6].name@ == "attempt_state"@,
        facts.safe_metadata@[6].value matches FactValue::Word(word) && word@ == attempt_state_text(
            outcome.attempt_state,
        ),
        facts.safe_metadata@[7].name@ == "build_state"@,
        facts.safe_metadata@[7].value matches FactValue::Word(word) && word@ == build_state_text(outcome.build_state),
        facts.outbox_payload@.len() == 8,
        facts.outbox_payload@[0] == (Member { name: "job_id", value: FactValue::Identity(outcome.job_id) }),
        facts.outbox_payload@[1].name@ == "kind"@,
        facts.outbox_payload@[1].value matches FactValue::Word(word) && word@ == job_state_text(
            completed_state(request.kind),
        ),
        facts.outbox_payload@[2].name@ == "failure_class"@,
        is_class_word(facts.outbox_payload@[2].value, request.kind),
        facts.outbox_payload@[3].name@ == "ready_jobs"@,
        facts.outbox_payload@[3].value matches FactValue::Identities(ids) && ids@ == outcome.ready_jobs@,
        facts.outbox_payload@[4].name@ == "skipped_jobs"@,
        facts.outbox_payload@[4].value matches FactValue::Identities(ids) && ids@ == outcome.skipped_jobs@,
        facts.outbox_payload@[5].name@ == "attempt_state"@,
        facts.outbox_payload@[5].value matches FactValue::Word(word) && word@ == attempt_state_text(
            outcome.attempt_state,
        ),
        facts.outbox_payload@[6].name@ == "build_state"@,
        facts.outbox_payload@[6].value matches FactValue::Word(word) && word@ == build_state_text(
            outcome.build_state,
        ),
        facts.outbox_payload@[7] == (Member { name: "schema_version", value: FactValue::Number(2) }),
{
    let kind = completion_kind(request.kind);
    let class = failure_class(request.kind);
    let attempt = attempt_state(outcome.attempt_state);
    let build = build_state(outcome.build_state);
    MutationFacts {
        actor_kind: "agent",
        actor_identity: Some(identity_text(request.lease.agent_id)),
        target_identity: identity_text(outcome.job_id),
        safe_metadata: vec![
            Member { name: "final_sequence", value: FactValue::OptionalNumber(request.final_sequence) },
            Member { name: "kind", value: FactValue::Word(kind) },
            Member { name: "failure_class", value: FactValue::OptionalWord(class) },
            Member { name: "lease_id", value: FactValue::Identity(request.lease.lease_id) },
            Member { name: "ready_job_count", value: FactValue::Number(outcome.ready_jobs.len() as u64) },
            Member { name: "skipped_job_count", value: FactValue::Number(outcome.skipped_jobs.len() as u64) },
            Member { name: "attempt_state", value: FactValue::Word(attempt) },
            Member { name: "build_state", value: FactValue::Word(build) },
        ],
        outbox_payload: vec![
            Member { name: "job_id", value: FactValue::Identity(outcome.job_id) },
            Member { name: "kind", value: FactValue::Word(kind) },
            Member { name: "failure_class", value: FactValue::OptionalWord(class) },
            Member { name: "ready_jobs", value: FactValue::Identities(copy_ids(&outcome.ready_jobs)) },
            Member { name: "skipped_jobs", value: FactValue::Identities(copy_ids(&outcome.skipped_jobs)) },
            Member { name: "attempt_state", value: FactValue::Word(attempt) },
            Member { name: "build_state", value: FactValue::Word(build) },
            Member { name: "schema_version", value: FactValue::Number(2) },
        ],
    }
}

/// Whether a fact names the failure class of a completion.
pub open spec fn is_class_word(value: FactValue, kind: JobCompletionKind) -> bool {
    value matches FactValue::OptionalWord(word) && match (word, class_of(kind)) {
        (Some(word), Some(class)) => word@ == failure_class_name_text(class),
        (None, None) => true,
        _ => false,
    }
}

/// Copies a list of identities.
pub fn copy_ids(ids: &Vec<u128>) -> (copy: Vec<u128>)
    ensures
        copy@ == ids@,
{
    let mut copy: Vec<u128> = Vec::new();
    let mut i: usize = 0;
    while i < ids.len()
        invariant
            i <= ids@.len(),
            copy@ == ids@.subrange(0, i as int),
        decreases ids@.len() - i,
    {
        copy.push(ids[i]);
        i += 1;
        assert(ids@.subrange(0, i as int) =~= ids@.subrange(0, i - 1).push(ids@[i - 1]));
    }
    assert(ids@.subrange(0, i as int) =~= ids@);
    copy
}

/// Each class of a failure is stored under its own name.
pub proof fn failure_classes_are_stored_by_name()
    ensures
        failure_class_name_text(JobFailureClass::Execution) == "execution"@,
        failure_class_name_text(JobFailureClass::Infrastructure) == "infrastructure"@,
{
}

/// A recorded completion is read exactly where the jobs it names are set and its failure and states are known.
pub proof fn sound_completions_are_read(row: CompletionRow)
    ensures
        is_readable(row) <==> (forall|i: int| 0 <= i < row.ready_job_ids@.len() ==> #[trigger] row.ready_job_ids@[i] != 0)
            && (forall|i: int| 0 <= i < row.skipped_job_ids@.len() ==> #[trigger] row.skipped_job_ids@[i] != 0) && (
        row.failure_class is None || row.failure_class->Some_0@ == "execution"@ || row.failure_class->Some_0@
            == "infrastructure"@) && (exists|state: AttemptState|
            row.attempt_state@ == #[trigger] attempt_state_text(state)) && (exists|state: BuildState|
            row.build_state@ == #[trigger] build_state_text(state)),
{
    assert(failure_class_name_text(JobFailureClass::Execution) == "execution"@);
    assert(failure_class_name_text(JobFailureClass::Infrastructure) == "infrastructure"@);
    if all_identities(row.ready_job_ids@) {
        assert forall|i: int| 0 <= i < row.ready_job_ids@.len() implies #[trigger] row.ready_job_ids@[i] != 0 by {
            assert(is_identity(row.ready_job_ids@[i]));
        }
    }
    if all_identities(row.skipped_job_ids@) {
        assert forall|i: int| 0 <= i < row.skipped_job_ids@.len() implies #[trigger] row.skipped_job_ids@[i] != 0 by {
            assert(is_identity(row.skipped_job_ids@[i]));
        }
    }
}

/// A completion that is reported again is answered from the record exactly where that can be read; one that cannot, or
/// a lease that names no job, is reported as unavailable.
pub proof fn damaged_completions_are_unavailable(
    request: JobCompletion,
    lease: LeaseRow,
    met: CompletionSurroundings,
    terminal: Result<JobState, StoreError>,
    row: CompletionRow,
)
    requires
        located(request, met) is Ok,
        lease.attempt_id == met.graph->Some_0.0,
        request.spec_required() <= i64::MAX,
        met.existing == Some(row),
        same_completion(row, request, request.spec_required() as i64),
    ensures
        admitted(request, lease, met, terminal) == (if lease.job_id != 0 && is_readable(row) {
            Ok::<(), StoreError>(())
        } else {
            Err(StoreError::Unavailable)
        }),
{
}

/// A cursor that is damaged is reported as unavailable, and so is a job without an identity whose events are missing.
pub proof fn damaged_cursors_are_unavailable(job_id: u128, durable_through: i64, required: u64)
    ensures
        durable_through < 0 || (job_id == 0 && required > durable_through) ==> cursor_verdict(
            job_id,
            durable_through,
            required,
        ) == Err::<(), StoreError>(StoreError::Unavailable),
        0 <= durable_through < required && job_id != 0 ==> cursor_verdict(job_id, durable_through, required) == Err::<
            (),
            StoreError,
        >(StoreError::EventsMissing { job: job_id, durable_through: durable_through as u64, required }),
{
}

/// A completion says which class of failure it reports exactly where it reports a failure.
pub proof fn classes_are_reported_with_failures(
    word: Option<&'static str>,
    kind: JobCompletionKind,
    class: JobFailureClass,
)
    ensures
        kind == JobCompletionKind::Failed(class) ==> (is_class_word(FactValue::OptionalWord(word), kind) <==> word is Some
            && word->Some_0@ == (if class == JobFailureClass::Execution {
            "execution"@
        } else {
            "infrastructure"@
        })),
        !(kind is Failed) ==> (is_class_word(FactValue::OptionalWord(word), kind) <==> word is None),
{
}

/// A job that would end otherwise than was reported does not end: that is reported as unavailable.
pub proof fn jobs_do_not_end_otherwise_than_reported(
    kind: JobCompletionKind,
    job_id: u128,
    durable_through: i64,
    required: u64,
    state: JobState,
)
    requires
        durable_through == required,
    ensures
        end_verdict(kind, job_id, durable_through, required, Ok(state)) == (if state == (match kind {
            JobCompletionKind::Succeeded => JobState::Succeeded,
            JobCompletionKind::Failed(_) => JobState::Failed,
            JobCompletionKind::Cancelled => JobState::Cancelled,
        }) {
            Ok::<(), StoreError>(())
        } else {
            Err(StoreError::Unavailable)
        }),
{
}

} // verus!
