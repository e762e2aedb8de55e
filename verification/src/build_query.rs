//! Reading builds, attempts and jobs.

use vstd::prelude::*;

use crate::accept_trigger::{TriggerDefinitionRef, TriggerTarget};
use crate::database::all_identities;
use crate::domain::{
    identity, is_identity, is_optional_identity, is_optional_timestamp, is_timestamp, is_version, optional_identity,
    optional_timestamp, timestamp, version, EntityKind, StoreError,
};
use crate::job_completion::{failure_class_name_text, parse_failure_class, JobFailureClass};
use crate::state::{
    attempt_state_text, build_state_text, job_state_text, job_state_text_names_one_value, parse_attempt_state,
    parse_build_state, parse_job_state, AttemptState, BuildState, JobState,
};
use crate::text::same_text;

verus! {

/// State of a trigger occurrence.
#[derive(Clone, Copy, Debug, PartialEq, Eq, Structural)]
pub enum TriggerOccurrenceState {
    /// Stored as `pending`.
    Pending,
    /// Stored as `evaluating`.
    Evaluating,
    /// Stored as `deferred`.
    Deferred,
    /// Stored as `accepted`.
    Accepted,
    /// Stored as `suppressed`.
    Suppressed,
    /// Stored as `rejected`.
    Rejected,
}

/// The stored name of the state of a trigger occurrence.
pub open spec fn trigger_state_name_text(value: TriggerOccurrenceState) -> Seq<char> {
    match value {
        TriggerOccurrenceState::Pending => "pending"@,
        TriggerOccurrenceState::Evaluating => "evaluating"@,
        TriggerOccurrenceState::Deferred => "deferred"@,
        TriggerOccurrenceState::Accepted => "accepted"@,
        TriggerOccurrenceState::Suppressed => "suppressed"@,
        TriggerOccurrenceState::Rejected => "rejected"@,
    }
}

/// No two values share a stored name.
pub proof fn trigger_state_name_text_names_one_value(a: TriggerOccurrenceState, b: TriggerOccurrenceState)
    ensures
        trigger_state_name_text(a) == trigger_state_name_text(b) ==> a == b,
{
    reveal_strlit("pending");
    reveal_strlit("evaluating");
    reveal_strlit("deferred");
    reveal_strlit("accepted");
    reveal_strlit("suppressed");
    reveal_strlit("rejected");
    assert("pending"@.len() == 7);
    assert("evaluating"@.len() == 10);
    assert("deferred"@.len() == 8);
    assert("accepted"@.len() == 8);
    assert("suppressed"@.len() == 10);
    assert("rejected"@.len() == 8);
    assert("deferred"@[0] == 'd');
    assert("accepted"@[0] == 'a');
    assert("rejected"@[0] == 'r');
    assert("evaluating"@[0] == 'e');
    assert("suppressed"@[0] == 's');
}

/// Names the state of a trigger occurrence as the database stores it.
pub fn trigger_state_name(value: TriggerOccurrenceState) -> (text: &'static str)
    ensures
        text@ == trigger_state_name_text(value),
{
    match value {
        TriggerOccurrenceState::Pending => "pending",
        TriggerOccurrenceState::Evaluating => "evaluating",
        TriggerOccurrenceState::Deferred => "deferred",
        TriggerOccurrenceState::Accepted => "accepted",
        TriggerOccurrenceState::Suppressed => "suppressed",
        TriggerOccurrenceState::Rejected => "rejected",
    }
}

/// Reads the state of a trigger occurrence back from its stored name; any other text is unreadable.
pub fn trigger_state(text: &str) -> (result: Result<TriggerOccurrenceState, StoreError>)
    ensures
        forall|value: TriggerOccurrenceState|
            result == Ok::<TriggerOccurrenceState, StoreError>(value)
                <==> text@ == #[trigger] trigger_state_name_text(value),
        result is Err ==> result == Err::<TriggerOccurrenceState, StoreError>(StoreError::Unavailable),
{
    proof {
        assert forall|a: TriggerOccurrenceState, b: TriggerOccurrenceState|
            #[trigger] trigger_state_name_text(a) == #[trigger] trigger_state_name_text(b)
            implies a == b by {
            trigger_state_name_text_names_one_value(a, b);
        }
    }
    let result = if same_text(text, "pending") {
        Ok(TriggerOccurrenceState::Pending)
    } else if same_text(text, "evaluating") {
        Ok(TriggerOccurrenceState::Evaluating)
    } else if same_text(text, "deferred") {
        Ok(TriggerOccurrenceState::Deferred)
    } else if same_text(text, "accepted") {
        Ok(TriggerOccurrenceState::Accepted)
    } else if same_text(text, "suppressed") {
        Ok(TriggerOccurrenceState::Suppressed)
    } else if same_text(text, "rejected") {
        Ok(TriggerOccurrenceState::Rejected)
    } else {
        Err(StoreError::Unavailable)
    };
    assert(result matches Ok(value) ==> text@ == trigger_state_name_text(value));
    result
}

/// A build with the occurrence that caused it. Documents are carried as they are stored;
/// `documents_are_valid` says whether the identities and documents that only their own rules can
/// judge are valid.
pub struct BuildRow {
    /// The build.
    pub id: u128,
    /// Its project.
    pub project_id: u128,
    /// Its build configuration.
    pub build_configuration_id: u128,
    /// Version of that configuration.
    pub build_configuration_version: i64,
    /// Its pipeline.
    pub pipeline_id: u128,
    /// Version of that pipeline.
    pub pipeline_version: i64,
    /// Its repository.
    pub repository_id: u128,
    /// Version of that repository.
    pub repository_version: i64,
    /// The revision it builds.
    pub immutable_revision: String,
    /// What went into it.
    pub input_snapshot: serde_json::Value,
    /// The policy it is built under.
    pub effective_policy_snapshot: serde_json::Value,
    /// Until when its metadata are kept.
    pub metadata_retention_millis: i64,
    /// Until when its logs are kept.
    pub log_retention_millis: i64,
    /// Until when its artifacts are kept.
    pub artifact_retention_millis: i64,
    /// Until when its reports are kept.
    pub report_retention_millis: i64,
    /// Number of jobs its project may run at once.
    pub project_job_concurrency_limit: i64,
    /// Its priority.
    pub priority: i64,
    /// Its state.
    pub state: String,
    /// Its version.
    pub version: i64,
    /// When it was created.
    pub created_at_millis: i64,
    /// When it changed last.
    pub updated_at_millis: i64,
    /// The occurrence that caused it.
    pub occurrence_id: u128,
    /// The trigger of that occurrence.
    pub trigger_id: u128,
    /// Version of that trigger.
    pub trigger_version: i64,
    /// What that trigger builds.
    pub trigger_configuration_id: u128,
    /// Version of what it builds.
    pub trigger_configuration_version: i64,
    /// Identity under which the occurrence is recognised.
    pub deduplication_identity: String,
    /// What set the occurrence off.
    pub cause: serde_json::Value,
    /// What the occurrence follows from.
    pub causality: serde_json::Value,
    /// What its provider said of the occurrence.
    pub provider_metadata: serde_json::Value,
    /// When the occurrence happened.
    pub source_time_millis: i64,
    /// State of the occurrence.
    pub trigger_state: String,
    /// When the occurrence was recorded.
    pub trigger_created_at_millis: i64,
    /// When the occurrence changed last.
    pub trigger_updated_at_millis: i64,
    /// Whether revision, deduplication identity and occurrence are valid by their own rules.
    pub documents_are_valid: bool,
}

/// Until when the parts of a build are kept.
#[derive(Clone, Copy, Debug, PartialEq, Eq, Structural)]
pub struct BuildRetentionDeadlines {
    /// Its metadata.
    pub metadata: i64,
    /// Its logs.
    pub logs: i64,
    /// Its artifacts.
    pub artifacts: i64,
    /// Its reports.
    pub reports: i64,
}

/// A build.
pub struct BuildRecord {
    /// The build.
    pub id: u128,
    /// Its project.
    pub project_id: u128,
    /// Its build configuration.
    pub configuration: TriggerTarget,
    /// Its pipeline.
    pub pipeline_id: u128,
    /// Version of that pipeline.
    pub pipeline_version: u64,
    /// Its repository.
    pub repository_id: u128,
    /// Version of that repository.
    pub repository_version: u64,
    /// The revision it builds.
    pub immutable_revision: String,
    /// What went into it.
    pub input_snapshot: serde_json::Value,
    /// The policy it is built under.
    pub effective_policy_snapshot: serde_json::Value,
    /// Until when its parts are kept.
    pub retention: BuildRetentionDeadlines,
    /// Number of jobs its project may run at once.
    pub project_job_concurrency_limit: u32,
    /// Its priority.
    pub priority: i64,
    /// Its state.
    pub state: BuildState,
    /// Its version.
    pub version: u64,
    /// The occurrence that caused it.
    pub occurrence_id: u128,
    /// The trigger of that occurrence.
    pub trigger: TriggerDefinitionRef,
    /// What that trigger builds.
    pub target: TriggerTarget,
    /// Identity under which the occurrence is recognised.
    pub deduplication_identity: String,
    /// What set the occurrence off.
    pub cause: serde_json::Value,
    /// What the occurrence follows from.
    pub causality: serde_json::Value,
    /// What its provider said of the occurrence.
    pub provider_metadata: serde_json::Value,
    /// When the occurrence happened.
    pub source_time: i64,
    /// State of the occurrence.
    pub trigger_state: TriggerOccurrenceState,
    /// When the occurrence was recorded.
    pub trigger_created_at: i64,
    /// When the occurrence changed last.
    pub trigger_updated_at: i64,
    /// When it was created.
    pub created_at: i64,
    /// When it changed last.
    pub updated_at: i64,
}

/// Whether a build can be read.
pub open spec fn is_readable_build(row: BuildRow) -> bool {
    &&& is_identity(row.id) && is_identity(row.project_id) && is_identity(row.build_configuration_id)
    &&& is_identity(row.pipeline_id) && is_identity(row.repository_id) && is_identity(row.occurrence_id)
    &&& is_identity(row.trigger_id) && is_identity(row.trigger_configuration_id)
    &&& is_version(row.build_configuration_version) && is_version(row.pipeline_version)
    &&& is_version(row.repository_version) && is_version(row.version) && is_version(row.trigger_version)
    &&& is_version(row.trigger_configuration_version)
    &&& is_timestamp(row.metadata_retention_millis) && is_timestamp(row.log_retention_millis)
    &&& is_timestamp(row.artifact_retention_millis) && is_timestamp(row.report_retention_millis)
    &&& is_timestamp(row.created_at_millis) && is_timestamp(row.updated_at_millis)
    &&& is_timestamp(row.source_time_millis) && is_timestamp(row.trigger_created_at_millis)
    &&& is_timestamp(row.trigger_updated_at_millis)
    &&& 0 <= row.project_job_concurrency_limit <= u32::MAX
    &&& exists|state: BuildState| row.state@ == #[trigger] build_state_text(state)
    &&& exists|state: TriggerOccurrenceState| row.trigger_state@ == #[trigger] trigger_state_name_text(state)
    &&& row.documents_are_valid
}

/// Whether a record says what its row says.
pub open spec fn is_build_of(record: BuildRecord, row: BuildRow) -> bool {
    &&& record.id == row.id
    &&& record.project_id == row.project_id
    &&& record.configuration.configuration_id == row.build_configuration_id
    &&& record.configuration.configuration_version == row.build_configuration_version
    &&& record.pipeline_id == row.pipeline_id
    &&& record.pipeline_version == row.pipeline_version
    &&& record.repository_id == row.repository_id
    &&& record.repository_version == row.repository_version
    &&& record.immutable_revision@ == row.immutable_revision@
    &&& record.input_snapshot == row.input_snapshot
    &&& record.effective_policy_snapshot == row.effective_policy_snapshot
    &&& record.retention.metadata == row.metadata_retention_millis
    &&& record.retention.logs == row.log_retention_millis
    &&& record.retention.artifacts == row.artifact_retention_millis
    &&& record.retention.reports == row.report_retention_millis
    &&& record.project_job_concurrency_limit == row.project_job_concurrency_limit
    &&& record.priority == row.priority
    &&& row.state@ == build_state_text(record.state)
    &&& record.version == row.version
    &&& record.occurrence_id == row.occurrence_id
    &&& record.trigger.id == row.trigger_id
    &&& record.trigger.version == row.trigger_version
    &&& record.target.configuration_id == row.trigger_configuration_id
    &&& record.target.configuration_version == row.trigger_configuration_version
    &&& record.deduplication_identity@ == row.deduplication_identity@
    &&& record.cause == row.cause
    &&& record.causality == row.causality
    &&& record.provider_metadata == row.provider_metadata
    &&& record.source_time == row.source_time_millis
    &&& row.trigger_state@ == trigger_state_name_text(record.trigger_state)
    &&& record.trigger_created_at == row.trigger_created_at_millis
    &&& record.trigger_updated_at == row.trigger_updated_at_millis
    &&& record.created_at == row.created_at_millis
    &&& record.updated_at == row.updated_at_millis
}

/// Reads a build.
pub fn decode_build(row: BuildRow) -> (result: Result<BuildRecord, StoreError>)
    ensures
        match result {
            Ok(record) => is_readable_build(row) && is_build_of(record, row),
            Err(error) => error == StoreError::Unavailable && !is_readable_build(row),
        },
{
    if !row.documents_are_valid {
        return Err(StoreError::Unavailable);
    }
    let state = parse_build_state(row.state.as_str())?;
    assert(row.state@ == build_state_text(state));
    let occurrence_state = trigger_state(row.trigger_state.as_str())?;
    assert(row.trigger_state@ == trigger_state_name_text(occurrence_state));
    let limit: u32 = match u32::try_from(row.project_job_concurrency_limit) {
        Ok(limit) => limit,
        Err(_) => {
            return Err(StoreError::Unavailable);
        },
    };
    Ok(
        BuildRecord {
            id: identity(row.id)?,
            project_id: identity(row.project_id)?,
            configuration: TriggerTarget {
                configuration_id: identity(row.build_configuration_id)?,
                configuration_version: version(row.build_configuration_version)?,
            },
            pipeline_id: identity(row.pipeline_id)?,
            pipeline_version: version(row.pipeline_version)?,
            repository_id: identity(row.repository_id)?,
            repository_version: version(row.repository_version)?,
            immutable_revision: row.immutable_revision,
            input_snapshot: row.input_snapshot,
            effective_policy_snapshot: row.effective_policy_snapshot,
            retention: BuildRetentionDeadlines {
                metadata: timestamp(row.metadata_retention_millis)?,
                logs: timestamp(row.log_retention_millis)?,
                artifacts: timestamp(row.artifact_retention_millis)?,
                reports: timestamp(row.report_retention_millis)?,
            },
            project_job_concurrency_limit: limit,
            priority: row.priority,
            state,
            version: version(row.version)?,
            occurrence_id: identity(row.occurrence_id)?,
            trigger: TriggerDefinitionRef { id: identity(row.trigger_id)?, version: version(row.trigger_version)? },
            target: TriggerTarget {
                configuration_id: identity(row.trigger_configuration_id)?,
                configuration_version: version(row.trigger_configuration_version)?,
            },
            deduplication_identity: row.deduplication_identity,
            cause: row.cause,
            causality: row.causality,
            provider_metadata: row.provider_metadata,
            source_time: timestamp(row.source_time_millis)?,
            trigger_state: occurrence_state,
            trigger_created_at: timestamp(row.trigger_created_at_millis)?,
            trigger_updated_at: timestamp(row.trigger_updated_at_millis)?,
            created_at: timestamp(row.created_at_millis)?,
            updated_at: timestamp(row.updated_at_millis)?,
        },
    )
}

/// Reads a build, where there is one that is shown.
pub fn build(row: Option<BuildRow>) -> (result: Result<BuildRecord, StoreError>)
    ensures
        match row {
            None => result matches Err(error) && error == (StoreError::NotFound { entity: EntityKind::Build }),
            Some(row) => match result {
                Ok(record) => is_readable_build(row) && is_build_of(record, row),
                Err(error) => error == StoreError::Unavailable && !is_readable_build(row),
            },
        },
{
    match row {
        Some(row) => decode_build(row),
        None => Err(StoreError::NotFound { entity: EntityKind::Build }),
    }
}

/// An attempt of a build.
pub struct AttemptRow {
    /// The attempt.
    pub id: u128,
    /// The build.
    pub build_id: u128,
    /// Its number within the build.
    pub attempt_number: i64,
    /// The attempt it repeats.
    pub retry_of_attempt_id: Option<u128>,
    /// Its state.
    pub state: String,
    /// Its version.
    pub version: i64,
    /// When it was created.
    pub created_at_millis: i64,
    /// When it changed last.
    pub updated_at_millis: i64,
}

/// An attempt of a build.
pub struct AttemptRecord {
    /// The attempt.
    pub id: u128,
    /// The build.
    pub build_id: u128,
    /// Its number within the build.
    pub number: u64,
    /// The attempt it repeats.
    pub retry_of_attempt_id: Option<u128>,
    /// Its state.
    pub state: AttemptState,
    /// Its version.
    pub version: u64,
    /// When it was created.
    pub created_at: i64,
    /// When it changed last.
    pub updated_at: i64,
    /// Its jobs.
    pub jobs: Vec<JobRecord>,
}

/// Whether an attempt can be read.
pub open spec fn is_readable_attempt(row: AttemptRow) -> bool {
    &&& is_identity(row.id) && is_identity(row.build_id) && is_optional_identity(row.retry_of_attempt_id)
    &&& is_version(row.attempt_number) && is_version(row.version)
    &&& is_timestamp(row.created_at_millis) && is_timestamp(row.updated_at_millis)
    &&& exists|state: AttemptState| row.state@ == #[trigger] attempt_state_text(state)
}

/// Whether a record says what its row says, and has the jobs it was read with.
pub open spec fn is_attempt_of(record: AttemptRecord, row: AttemptRow, jobs: Seq<JobRecord>) -> bool {
    &&& record.id == row.id
    &&& record.build_id == row.build_id
    &&& record.number == row.attempt_number
    &&& record.retry_of_attempt_id == row.retry_of_attempt_id
    &&& row.state@ == attempt_state_text(record.state)
    &&& record.version == row.version
    &&& record.created_at == row.created_at_millis
    &&& record.updated_at == row.updated_at_millis
    &&& record.jobs@ == jobs
}

impl AttemptRow {
    /// Reads an attempt, with its jobs.
    pub fn into_record(self, jobs: Vec<JobRecord>) -> (result: Result<AttemptRecord, StoreError>)
        ensures
            match result {
                Ok(record) => is_readable_attempt(self) && is_attempt_of(record, self, jobs@),
                Err(error) => error == StoreError::Unavailable && !is_readable_attempt(self),
            },
    {
        let state = parse_attempt_state(self.state.as_str())?;
        assert(self.state@ == attempt_state_text(state));
        Ok(
            AttemptRecord {
                id: identity(self.id)?,
                build_id: identity(self.build_id)?,
                number: version(self.attempt_number)?,
                retry_of_attempt_id: optional_identity(self.retry_of_attempt_id)?,
                state,
                version: version(self.version)?,
                created_at: timestamp(self.created_at_millis)?,
                updated_at: timestamp(self.updated_at_millis)?,
                jobs,
            },
        )
    }
}

/// The dependencies of a job among rows of a job and a job it depends on, in order.
pub open spec fn dependencies_in(rows: Seq<(u128, u128)>, job_id: u128) -> Seq<u128>
    decreases rows.len(),
{
    if rows.len() == 0 {
        Seq::empty()
    } else if rows.last().0 == job_id {
        dependencies_in(rows.drop_last(), job_id).push(rows.last().1)
    } else {
        dependencies_in(rows.drop_last(), job_id)
    }
}

/// Whether every dependency of the rows is an identity.
pub open spec fn are_readable_dependencies(rows: Seq<(u128, u128)>) -> bool {
    forall|i: int| 0 <= i < rows.len() ==> is_identity((#[trigger] rows[i]).1)
}

/// Looks up the dependencies of one job; one unreadable dependency of any job makes all unreadable.
pub fn load_dependencies(rows: &Vec<(u128, u128)>, job_id: u128) -> (result: Result<Vec<u128>, StoreError>)
    ensures
        match result {
            Ok(dependencies) => are_readable_dependencies(rows@) && dependencies@ == dependencies_in(rows@, job_id),
            Err(error) => error == StoreError::Unavailable && !are_readable_dependencies(rows@),
        },
{
    let mut dependencies: Vec<u128> = Vec::new();
    let mut i: usize = 0;
    assert(rows@.subrange(0, 0) =~= Seq::empty());
    while i < rows.len()
        invariant
            i <= rows@.len(),
            forall|k: int| 0 <= k < i ==> is_identity((#[trigger] rows@[k]).1),
            dependencies@ == dependencies_in(rows@.subrange(0, i as int), job_id),
        decreases rows@.len() - i,
    {
        let (job, dependency) = rows[i];
        assert(rows@.subrange(0, i + 1).drop_last() =~= rows@.subrange(0, i as int));
        assert(rows@.subrange(0, i + 1).last() == rows@[i as int]);
        if dependency == 0 {
            assert(!is_identity(rows@[i as int].1));
            return Err(StoreError::Unavailable);
        }
        if job == job_id {
            dependencies.push(dependency);
        }
        i += 1;
    }
    assert(rows@.subrange(0, i as int) =~= rows@);
    Ok(dependencies)
}

/// A job with its place in the queue, its assignment and its end.
pub struct JobRow {
    /// The job.
    pub id: u128,
    /// Its attempt.
    pub attempt_id: u128,
    /// Its node of the pipeline.
    pub pipeline_node_id: String,
    /// Whether that is the name of a node.
    pub node_is_admissible: bool,
    /// Its state.
    pub state: String,
    /// Pools whose agents may run it.
    pub allowed_pool_ids: Vec<u128>,
    /// What it requires of an agent.
    pub requirements: serde_json::Value,
    /// Its specification.
    pub job_spec_template: serde_json::Value,
    /// What becomes of it where a dependency fails.
    pub dependency_policy: serde_json::Value,
    /// Its version.
    pub version: i64,
    /// When it was created.
    pub created_at_millis: i64,
    /// When it changed last.
    pub updated_at_millis: i64,
    /// Its priority in the queue.
    pub queue_priority: Option<i64>,
    /// When it was queued.
    pub enqueued_at_millis: Option<i64>,
    /// The pool it was assigned to last.
    pub assigned_pool_id: Option<u128>,
    /// The agent it was assigned to last.
    pub assigned_agent_id: Option<u128>,
    /// How it ended.
    pub completion_kind: Option<String>,
    /// Whose fault its failure was.
    pub failure_class: Option<String>,
    /// When it ended.
    pub completed_at_millis: Option<i64>,
    /// Through which position its log is durable.
    pub event_cursor: i64,
}

/// A job's place in the queue.
#[derive(Clone, Copy, Debug, PartialEq, Eq, Structural)]
pub struct JobQueueRecord {
    /// Its priority.
    pub priority: i64,
    /// When it was queued.
    pub enqueued_at: i64,
}

/// A job's assignment.
#[derive(Clone, Copy, Debug, PartialEq, Eq, Structural)]
pub struct JobAssignmentRecord {
    /// The pool.
    pub pool_id: u128,
    /// The agent.
    pub agent_id: u128,
}

/// A job's end.
#[derive(Clone, Copy, Debug, PartialEq, Eq, Structural)]
pub struct JobTerminalRecord {
    /// The state it ended in.
    pub state: JobState,
    /// Whose fault its failure was.
    pub failure_class: Option<JobFailureClass>,
    /// When it ended.
    pub completed_at: i64,
}

/// A job.
pub struct JobRecord {
    /// The job.
    pub id: u128,
    /// Its attempt.
    pub attempt_id: u128,
    /// Its node of the pipeline.
    pub pipeline_node_id: String,
    /// Jobs it depends on.
    pub dependencies: Vec<u128>,
    /// Pools whose agents may run it.
    pub allowed_pools: Vec<u128>,
    /// What it requires of an agent.
    pub requirements: serde_json::Value,
    /// Its specification.
    pub job_spec_template: serde_json::Value,
    /// What becomes of it where a dependency fails.
    pub dependency_policy: serde_json::Value,
    /// Its state.
    pub state: JobState,
    /// Its version.
    pub version: u64,
    /// When it was created.
    pub created_at: i64,
    /// When it changed last.
    pub updated_at: i64,
    /// Its place in the queue.
    pub queue: Option<JobQueueRecord>,
    /// Its assignment.
    pub assignment: Option<JobAssignmentRecord>,
    /// Its end.
    pub terminal: Option<JobTerminalRecord>,
    /// Through which position its log is durable.
    pub event_cursor: u64,
}

/// Whether a job in this state has ended.
pub open spec fn is_terminal(state: JobState) -> bool {
    state == JobState::Succeeded || state == JobState::Failed || state == JobState::Cancelled || state
        == JobState::Skipped
}

fn has_ended(state: JobState) -> (ended: bool)
    ensures
        ended == is_terminal(state),
{
    state == JobState::Succeeded || state == JobState::Failed || state == JobState::Cancelled || state
        == JobState::Skipped
}

/// Whether a completion of this kind and this class of failure is one of a job in this state. A
/// cancelled job may lack a completion, and a skipped one has none.
pub open spec fn fits_completion(state: JobState, kind: Option<String>, failure: Option<String>) -> bool {
    match state {
        JobState::Succeeded => kind is Some && kind->Some_0@ == "succeeded"@ && failure is None,
        JobState::Failed => kind is Some && kind->Some_0@ == "failed"@ && failure is Some,
        JobState::Cancelled => kind is None || kind->Some_0@ == "cancelled"@,
        JobState::Skipped => kind is None,
        _ => false,
    }
}

/// Whether a class of failure can be read.
pub open spec fn is_readable_class(failure: Option<String>) -> bool {
    failure matches Some(text) ==> exists|class: JobFailureClass| text@ == #[trigger] failure_class_name_text(class)
}

/// Whether the end of a job is consistent with its state: a job that has not ended has no trace of an
/// end, and one that has ended has a time and a fitting completion.
pub open spec fn is_consistent_end(
    state: JobState,
    kind: Option<String>,
    failure: Option<String>,
    completed_at: Option<i64>,
) -> bool {
    if is_terminal(state) {
        completed_at is Some && is_readable_class(failure) && fits_completion(state, kind, failure)
    } else {
        kind is None && failure is None && completed_at is None
    }
}

/// Whether a terminal record is the end that a state, a class of failure and a time describe.
pub open spec fn is_end_of(
    terminal: Option<JobTerminalRecord>,
    state: JobState,
    failure: Option<String>,
    completed_at: Option<i64>,
) -> bool {
    if is_terminal(state) {
        terminal matches Some(end) && end.state == state && completed_at == Some(end.completed_at) && match (
            end.failure_class,
            failure,
        ) {
            (Some(class), Some(text)) => text@ == failure_class_name_text(class),
            (None, None) => true,
            _ => false,
        }
    } else {
        terminal is None
    }
}

fn kind_is(kind: &Option<String>, expected: &str) -> (same: bool)
    ensures
        same == (kind is Some && kind->Some_0@ == expected@),
{
    match kind {
        Some(kind) => same_text(kind.as_str(), expected),
        None => false,
    }
}

/// Reads the end of a job.
pub fn terminal(
    state: JobState,
    kind: &Option<String>,
    failure: &Option<String>,
    completed_at: Option<i64>,
) -> (result: Result<Option<JobTerminalRecord>, StoreError>)
    ensures
        match result {
            Ok(terminal) => is_consistent_end(state, *kind, *failure, completed_at) && is_end_of(
                terminal,
                state,
                *failure,
                completed_at,
            ),
            Err(error) => error == StoreError::Unavailable && !is_consistent_end(state, *kind, *failure, completed_at),
        },
{
    if !has_ended(state) {
        if kind.is_none() && failure.is_none() && completed_at.is_none() {
            return Ok(None);
        }
        return Err(StoreError::Unavailable);
    }
    let completed_at: i64 = match completed_at {
        Some(completed_at) => completed_at,
        None => {
            return Err(StoreError::Unavailable);
        },
    };
    let failure_class = parse_failure_class(failure)?;
    assert(failure matches Some(text) ==> text@ == failure_class_name_text(failure_class->Some_0));
    let valid = match state {
        JobState::Succeeded => kind_is(kind, "succeeded") && failure_class.is_none(),
        JobState::Failed => kind_is(kind, "failed") && failure_class.is_some(),
        JobState::Cancelled => kind.is_none() || kind_is(kind, "cancelled"),
        JobState::Skipped => kind.is_none(),
        _ => false,
    };
    if !valid {
        return Err(StoreError::Unavailable);
    }
    Ok(Some(JobTerminalRecord { state, failure_class, completed_at }))
}

/// When a job ended: a job that has ended without a completion ended when it changed last.
pub open spec fn end_of(row: JobRow, state: JobState) -> Option<i64> {
    if row.completed_at_millis is Some {
        row.completed_at_millis
    } else if is_terminal(state) {
        Some(row.updated_at_millis)
    } else {
        None
    }
}

/// Whether a job can be read, where its state is known.
pub open spec fn is_readable_job(row: JobRow, state: JobState) -> bool {
    &&& row.state@ == job_state_text(state)
    &&& is_identity(row.id) && is_identity(row.attempt_id) && all_identities(row.allowed_pool_ids@)
    &&& row.node_is_admissible
    &&& is_version(row.version)
    &&& is_timestamp(row.created_at_millis) && is_timestamp(row.updated_at_millis)
    &&& is_optional_timestamp(row.enqueued_at_millis) && is_optional_timestamp(row.completed_at_millis)
    &&& (row.queue_priority is Some) == (row.enqueued_at_millis is Some)
    &&& is_optional_identity(row.assigned_pool_id) && is_optional_identity(row.assigned_agent_id)
    &&& (row.assigned_pool_id is Some) == (row.assigned_agent_id is Some)
    &&& is_consistent_end(state, row.completion_kind, row.failure_class, end_of(row, state))
    &&& row.event_cursor >= 0
}

/// Whether a record says what its row says.
pub open spec fn is_job_of(record: JobRecord, row: JobRow, dependencies: Seq<u128>) -> bool {
    &&& record.id == row.id
    &&& record.attempt_id == row.attempt_id
    &&& record.pipeline_node_id@ == row.pipeline_node_id@
    &&& record.dependencies@ == dependencies
    &&& record.allowed_pools@ == row.allowed_pool_ids@
    &&& record.requirements == row.requirements
    &&& record.job_spec_template == row.job_spec_template
    &&& record.dependency_policy == row.dependency_policy
    &&& record.version == row.version
    &&& record.created_at == row.created_at_millis
    &&& record.updated_at == row.updated_at_millis
    &&& match record.queue {
        Some(queue) => row.queue_priority == Some(queue.priority) && row.enqueued_at_millis == Some(queue.enqueued_at),
        None => row.queue_priority is None && row.enqueued_at_millis is None,
    }
    &&& match record.assignment {
        Some(assignment) => row.assigned_pool_id == Some(assignment.pool_id) && row.assigned_agent_id == Some(
            assignment.agent_id,
        ),
        None => row.assigned_pool_id is None && row.assigned_agent_id is None,
    }
    &&& is_end_of(record.terminal, record.state, row.failure_class, end_of(row, record.state))
    &&& record.event_cursor == row.event_cursor
}

impl JobRow {
    /// Reads a job, with the jobs it depends on.
    pub fn into_record(self, dependencies: Vec<u128>) -> (result: Result<JobRecord, StoreError>)
        ensures
            match result {
                Ok(record) => is_readable_job(self, record.state) && is_job_of(record, self, dependencies@),
                Err(error) => error == StoreError::Unavailable && forall|state: JobState|
                    !#[trigger] is_readable_job(self, state),
            },
    {
        let state = match parse_job_state(self.state.as_str()) {
            Ok(state) => state,
            Err(_) => {
                return Err(StoreError::Unavailable);
            },
        };
        proof {
            assert(self.state@ == job_state_text(state));
            assert forall|other: JobState| #[trigger] is_readable_job(self, other) implies other == state by {
                crate::state::job_state_text_names_one_value(other, state);
            }
        }
        let updated_at: i64 = timestamp(self.updated_at_millis)?;
        let queue = match (self.queue_priority, optional_timestamp(self.enqueued_at_millis)?) {
            (Some(priority), Some(enqueued_at)) => Some(JobQueueRecord { priority, enqueued_at }),
            (None, None) => None,
            _ => {
                return Err(StoreError::Unavailable);
            },
        };
        let assignment = match (optional_identity(self.assigned_pool_id)?, optional_identity(self.assigned_agent_id)?) {
            (Some(pool_id), Some(agent_id)) => Some(JobAssignmentRecord { pool_id, agent_id }),
            (None, None) => None,
            _ => {
                return Err(StoreError::Unavailable);
            },
        };
        let completed_at: Option<i64> = match optional_timestamp(self.completed_at_millis)? {
            Some(completed_at) => Some(completed_at),
            None => if has_ended(state) {
                Some(updated_at)
            } else {
                None
            },
        };
        let terminal = terminal(state, &self.completion_kind, &self.failure_class, completed_at)?;
        let attempt_id: u128 = identity(self.attempt_id)?;
        let id: u128 = identity(self.id)?;
        if !self.node_is_admissible {
            return Err(StoreError::Unavailable);
        }
        let allowed_pools = crate::database::job_ids(self.allowed_pool_ids)?;
        let job_version: u64 = version(self.version)?;
        let created_at: i64 = timestamp(self.created_at_millis)?;
        if self.event_cursor < 0 {
            return Err(StoreError::Unavailable);
        }
        Ok(
            JobRecord {
                id,
                attempt_id,
                pipeline_node_id: self.pipeline_node_id,
                dependencies,
                allowed_pools,
                requirements: self.requirements,
                job_spec_template: self.job_spec_template,
                dependency_policy: self.dependency_policy,
                state,
                version: job_version,
                created_at,
                updated_at,
                queue,
                assignment,
                terminal,
                event_cursor: self.event_cursor as u64,
            },
        )
    }
}

/// Whether a job can be read, whatever its state.
pub open spec fn is_readable_row(row: JobRow) -> bool {
    exists|state: JobState| is_readable_job(row, state)
}

/// Whether a job was read from a readable row, with those of the dependencies that are its own.
pub open spec fn is_loaded_job(record: JobRecord, row: JobRow, dependencies: Seq<(u128, u128)>) -> bool {
    is_readable_job(row, record.state) && is_job_of(record, row, dependencies_in(dependencies, row.id))
}

/// Whether the jobs of an attempt can be read; without a job there are no dependencies to read.
pub open spec fn are_readable_jobs(rows: Seq<JobRow>, dependencies: Seq<(u128, u128)>) -> bool {
    &&& rows.len() > 0 ==> are_readable_dependencies(dependencies)
    &&& forall|i: int| 0 <= i < rows.len() ==> is_readable_row(#[trigger] rows[i])
}

/// Whether jobs were read from rows, one for one.
pub open spec fn are_loaded_jobs(jobs: Seq<JobRecord>, rows: Seq<JobRow>, dependencies: Seq<(u128, u128)>) -> bool {
    jobs.len() == rows.len() && forall|i: int|
        0 <= i < rows.len() ==> is_loaded_job(#[trigger] jobs[i], rows[i], dependencies)
}

/// Reads the jobs of an attempt, each with its dependencies; one that cannot be read fails them all.
pub fn load_jobs(rows: Vec<JobRow>, dependencies: &Vec<(u128, u128)>) -> (result: Result<Vec<JobRecord>, StoreError>)
    ensures
        match result {
            Ok(jobs) => are_readable_jobs(rows@, dependencies@) && are_loaded_jobs(jobs@, rows@, dependencies@),
            Err(error) => error == StoreError::Unavailable && !are_readable_jobs(rows@, dependencies@),
        },
{
    let ghost fetched = rows@;
    let mut remaining = rows;
    let mut jobs: Vec<JobRecord> = Vec::new();
    while remaining.len() > 0
        invariant
            fetched == rows@,
            jobs@.len() + remaining@.len() == fetched.len(),
            remaining@ == fetched.skip(jobs@.len() as int),
            jobs@.len() > 0 ==> are_readable_dependencies(dependencies@),
            forall|i: int| 0 <= i < jobs@.len() ==> is_readable_row(#[trigger] fetched[i]),
            forall|i: int| 0 <= i < jobs@.len() ==> is_loaded_job(#[trigger] jobs@[i], fetched[i], dependencies@),
        decreases remaining@.len(),
    {
        let ghost at = jobs@.len() as int;
        let row = remaining.remove(0);
        assert(row == fetched[at]);
        let own = match load_dependencies(dependencies, row.id) {
            Ok(own) => own,
            Err(error) => {
                return Err(error);
            },
        };
        match row.into_record(own) {
            Ok(job) => {
                assert(is_readable_job(fetched[at], job.state));
                jobs.push(job);
            },
            Err(error) => {
                assert(!is_readable_row(rows@[at]));
                return Err(error);
            },
        }
        assert(remaining@ =~= fetched.skip(jobs@.len() as int));
    }
    Ok(jobs)
}

/// Reads an attempt with its jobs, where there is one that is shown.
pub fn attempt(row: Option<AttemptRow>, jobs: Vec<JobRow>, dependencies: &Vec<(u128, u128)>) -> (result: Result<
    AttemptRecord,
    StoreError,
>)
    ensures
        match row {
            None => result matches Err(error) && error == (StoreError::NotFound { entity: EntityKind::Attempt }),
            Some(row) => match result {
                Ok(record) => {
                    &&& is_readable_attempt(row) && are_readable_jobs(jobs@, dependencies@)
                    &&& is_attempt_of(record, row, record.jobs@)
                    &&& are_loaded_jobs(record.jobs@, jobs@, dependencies@)
                },
                Err(error) => error == StoreError::Unavailable && !(is_readable_attempt(row) && are_readable_jobs(
                    jobs@,
                    dependencies@,
                )),
            },
        },
{
    match row {
        None => Err(StoreError::NotFound { entity: EntityKind::Attempt }),
        Some(row) => {
            let jobs = load_jobs(jobs, dependencies)?;
            row.into_record(jobs)
        },
    }
}

/// Reads a job with its dependencies, where there is one that is shown.
pub fn job(row: Option<JobRow>, dependencies: &Vec<(u128, u128)>) -> (result: Result<JobRecord, StoreError>)
    ensures
        match row {
            None => result matches Err(error) && error == (StoreError::NotFound { entity: EntityKind::Job }),
            Some(row) => match result {
                Ok(record) => are_readable_dependencies(dependencies@) && is_loaded_job(record, row, dependencies@),
                Err(error) => error == StoreError::Unavailable && !(are_readable_dependencies(dependencies@)
                    && is_readable_row(row)),
            },
        },
{
    match row {
        None => Err(StoreError::NotFound { entity: EntityKind::Job }),
        Some(row) => {
            let own = load_dependencies(dependencies, row.id)?;
            row.into_record(own)
        },
    }
}

/// A job that was read has an end exactly where its state is terminal; a failed one names whose fault
/// it was, and a succeeded one names nobody's.
pub proof fn ends_agree_with_states(row: JobRow, record: JobRecord, dependencies: Seq<u128>)
    requires
        is_readable_job(row, record.state),
        is_job_of(record, row, dependencies),
    ensures
        record.terminal is Some <==> is_terminal(record.state),
        record.state == JobState::Failed ==> record.terminal->Some_0.failure_class is Some,
        record.state == JobState::Succeeded ==> record.terminal->Some_0.failure_class is None,
{
}

/// A build is read as it is on record: what was built, of which revision, under which policy, how long its parts are
/// kept, and what set it off.
pub proof fn builds_are_read_as_recorded(record: BuildRecord, row: BuildRow)
    requires
        is_build_of(record, row),
    ensures
        record.id == row.id && record.project_id == row.project_id && record.version == row.version,
        record.configuration.configuration_id == row.build_configuration_id && record.configuration.configuration_version
            == row.build_configuration_version,
        record.pipeline_id == row.pipeline_id && record.pipeline_version == row.pipeline_version,
        record.repository_id == row.repository_id && record.repository_version == row.repository_version,
        record.immutable_revision@ == row.immutable_revision@,
        record.input_snapshot == row.input_snapshot && record.effective_policy_snapshot == row.effective_policy_snapshot,
        record.retention.metadata == row.metadata_retention_millis && record.retention.logs == row.log_retention_millis,
        record.retention.artifacts == row.artifact_retention_millis && record.retention.reports
            == row.report_retention_millis,
        record.project_job_concurrency_limit == row.project_job_concurrency_limit && record.priority == row.priority,
        build_state_text(record.state) == row.state@ && trigger_state_name_text(record.trigger_state)
            == row.trigger_state@,
        record.occurrence_id == row.occurrence_id && record.trigger.id == row.trigger_id && record.trigger.version
            == row.trigger_version,
        record.target.configuration_id == row.trigger_configuration_id && record.target.configuration_version
            == row.trigger_configuration_version,
        record.deduplication_identity@ == row.deduplication_identity@ && record.cause == row.cause && record.causality
            == row.causality && record.provider_metadata == row.provider_metadata,
        record.source_time == row.source_time_millis && record.created_at == row.created_at_millis && record.updated_at
            == row.updated_at_millis,
{
}

/// An attempt is read as it is on record, with its jobs.
pub proof fn attempts_are_read_as_recorded(record: AttemptRecord, row: AttemptRow, jobs: Seq<JobRecord>)
    requires
        is_attempt_of(record, row, jobs),
    ensures
        record.id == row.id && record.build_id == row.build_id && record.number == row.attempt_number,
        record.retry_of_attempt_id == row.retry_of_attempt_id && record.version == row.version,
        attempt_state_text(record.state) == row.state@,
        record.created_at == row.created_at_millis && record.updated_at == row.updated_at_millis,
        record.jobs@ == jobs,
{
}

/// A job is read as it is on record: where it waits, who runs it, how far its log is, and when it ended.
pub proof fn jobs_are_read_as_recorded(record: JobRecord, row: JobRow, dependencies: Seq<u128>)
    requires
        is_job_of(record, row, dependencies),
        is_readable_job(row, record.state),
    ensures
        record.id == row.id && record.attempt_id == row.attempt_id && record.pipeline_node_id@ == row.pipeline_node_id@,
        record.dependencies@ == dependencies && record.allowed_pools@ == row.allowed_pool_ids@,
        record.requirements == row.requirements && record.job_spec_template == row.job_spec_template
            && record.dependency_policy == row.dependency_policy,
        job_state_text(record.state) == row.state@ && record.version == row.version,
        record.queue is Some <==> row.queue_priority is Some,
        record.queue matches Some(queue) ==> row.queue_priority == Some(queue.priority) && row.enqueued_at_millis == Some(
            queue.enqueued_at,
        ),
        record.assignment is Some <==> row.assigned_agent_id is Some,
        record.assignment matches Some(assignment) ==> row.assigned_pool_id == Some(assignment.pool_id)
            && row.assigned_agent_id == Some(assignment.agent_id),
        record.event_cursor == row.event_cursor,
        record.terminal is Some <==> record.state == JobState::Succeeded || record.state == JobState::Failed
            || record.state == JobState::Cancelled || record.state == JobState::Skipped,
        record.terminal matches Some(end) ==> end.state == record.state && end.completed_at == (
        match row.completed_at_millis {
            Some(time) => time,
            None => row.updated_at_millis,
        }),
{
}

/// How the end of a job may be on record: a job that succeeded or failed has a completion of that kind, with the class
/// of a failure exactly where it failed; one that was cancelled may have one, one that was skipped has none, and one
/// that goes on has no end at all.
pub proof fn ends_are_recorded_as_they_came(
    state: JobState,
    kind: Option<String>,
    failure: Option<String>,
    completed_at: Option<i64>,
)
    requires
        is_consistent_end(state, kind, failure, completed_at),
    ensures
        state == JobState::Succeeded ==> kind is Some && kind->Some_0@ == "succeeded"@ && failure is None,
        state == JobState::Failed ==> kind is Some && kind->Some_0@ == "failed"@ && failure is Some,
        state == JobState::Cancelled ==> kind is None || kind->Some_0@ == "cancelled"@,
        state == JobState::Skipped ==> kind is None,
        completed_at is Some <==> state == JobState::Succeeded || state == JobState::Failed || state
            == JobState::Cancelled || state == JobState::Skipped,
        completed_at is None ==> kind is None && failure is None,
{
}

/// A job waits exactly for the jobs that a row of its own names.
pub proof fn dependencies_are_those_of_the_rows(rows: Seq<(u128, u128)>, job_id: u128, dependency: u128)
    ensures
        dependencies_in(rows, job_id).contains(dependency) <==> rows.contains((job_id, dependency)),
    decreases rows.len(),
{
    if rows.len() > 0 {
        let before = rows.drop_last();
        let earlier = dependencies_in(before, job_id);
        let all = dependencies_in(rows, job_id);
        dependencies_are_those_of_the_rows(before, job_id, dependency);
        if all.contains(dependency) {
            let at = choose|k: int| 0 <= k < all.len() && all[k] == dependency;
            if at < earlier.len() {
                assert(earlier[at] == dependency);
                let i = choose|i: int| 0 <= i < before.len() && before[i] == (job_id, dependency);
                assert(rows[i] == (job_id, dependency));
            } else {
                assert(rows[rows.len() - 1] == (job_id, dependency));
            }
        }
        if rows.contains((job_id, dependency)) {
            let i = choose|i: int| 0 <= i < rows.len() && rows[i] == (job_id, dependency);
            if i == rows.len() - 1 {
                assert(all[earlier.len() as int] == dependency);
            } else {
                assert(before[i] == (job_id, dependency));
                let at = choose|k: int| 0 <= k < earlier.len() && earlier[k] == dependency;
                assert(all[at] == dependency);
            }
        }
    }
}

/// Each state of an occurrence is stored under its own name.
pub proof fn states_of_occurrences_are_stored_by_name()
    ensures
        trigger_state_name_text(TriggerOccurrenceState::Pending) == "pending"@,
        trigger_state_name_text(TriggerOccurrenceState::Evaluating) == "evaluating"@,
        trigger_state_name_text(TriggerOccurrenceState::Deferred) == "deferred"@,
        trigger_state_name_text(TriggerOccurrenceState::Accepted) == "accepted"@,
        trigger_state_name_text(TriggerOccurrenceState::Suppressed) == "suppressed"@,
        trigger_state_name_text(TriggerOccurrenceState::Rejected) == "rejected"@,
{
}

/// A build is read exactly from a row whose identities are set, whose versions count from one, whose times are no
/// earlier than the Unix epoch, whose limit fits, whose states are known and whose documents are valid.
pub proof fn sound_builds_are_read(row: BuildRow)
    ensures
        is_readable_build(row) <==> row.id != 0 && row.project_id != 0 && row.build_configuration_id != 0
            && row.pipeline_id != 0 && row.repository_id != 0 && row.occurrence_id != 0 && row.trigger_id != 0
            && row.trigger_configuration_id != 0 && row.build_configuration_version > 0 && row.pipeline_version > 0
            && row.repository_version > 0 && row.version > 0 && row.trigger_version > 0
            && row.trigger_configuration_version > 0 && row.metadata_retention_millis >= 0 && row.log_retention_millis
            >= 0 && row.artifact_retention_millis >= 0 && row.report_retention_millis >= 0 && row.created_at_millis >= 0
            && row.updated_at_millis >= 0 && row.source_time_millis >= 0 && row.trigger_created_at_millis >= 0
            && row.trigger_updated_at_millis >= 0 && 0 <= row.project_job_concurrency_limit <= 0xffff_ffff && (row.state@
            == "queued"@ || row.state@ == "running"@ || row.state@ == "succeeded"@ || row.state@ == "failed"@
            || row.state@ == "cancelled"@) && (row.trigger_state@ == "pending"@ || row.trigger_state@ == "evaluating"@
            || row.trigger_state@ == "deferred"@ || row.trigger_state@ == "accepted"@ || row.trigger_state@
            == "suppressed"@ || row.trigger_state@ == "rejected"@) && row.documents_are_valid,
{
    assert(build_state_text(BuildState::Queued) == "queued"@);
    assert(build_state_text(BuildState::Running) == "running"@);
    assert(build_state_text(BuildState::Succeeded) == "succeeded"@);
    assert(build_state_text(BuildState::Failed) == "failed"@);
    assert(build_state_text(BuildState::Cancelled) == "cancelled"@);
    states_of_occurrences_are_stored_by_name();
}

/// A build is told with when its occurrence was recorded and last changed.
pub proof fn builds_are_told_with_their_occurrence(record: BuildRecord, row: BuildRow)
    requires
        is_build_of(record, row),
    ensures
        record.trigger_created_at == row.trigger_created_at_millis,
        record.trigger_updated_at == row.trigger_updated_at_millis,
{
}

/// An attempt is read exactly from a row whose identities are set, whose numbers count from one, whose times are no
/// earlier than the Unix epoch and whose state is known.
pub proof fn sound_attempts_are_read(row: AttemptRow)
    ensures
        is_readable_attempt(row) <==> row.id != 0 && row.build_id != 0 && (row.retry_of_attempt_id is None
            || row.retry_of_attempt_id->Some_0 != 0) && row.attempt_number > 0 && row.version > 0 && row.created_at_millis
            >= 0 && row.updated_at_millis >= 0 && (row.state@ == "created"@ || row.state@ == "running"@ || row.state@
            == "succeeded"@ || row.state@ == "failed"@ || row.state@ == "cancelled"@),
{
    assert(attempt_state_text(AttemptState::Created) == "created"@);
    assert(attempt_state_text(AttemptState::Running) == "running"@);
    assert(attempt_state_text(AttemptState::Succeeded) == "succeeded"@);
    assert(attempt_state_text(AttemptState::Failed) == "failed"@);
    assert(attempt_state_text(AttemptState::Cancelled) == "cancelled"@);
}

/// A job is read exactly from a row whose identities are set, whose times and numbers are sound, which is queued with
/// a priority and a time or not at all, which is assigned to a pool and an agent or not at all, and whose end agrees
/// with its state.
pub proof fn sound_jobs_are_read(row: JobRow, state: JobState)
    ensures
        is_readable_job(row, state) <==> row.state@ == job_state_text(state) && row.id != 0 && row.attempt_id != 0 && (
        forall|i: int| 0 <= i < row.allowed_pool_ids@.len() ==> #[trigger] row.allowed_pool_ids@[i] != 0)
            && row.node_is_admissible && row.version > 0 && row.created_at_millis >= 0 && row.updated_at_millis >= 0 && (
        row.enqueued_at_millis is None || row.enqueued_at_millis->Some_0 >= 0) && (row.completed_at_millis is None
            || row.completed_at_millis->Some_0 >= 0) && (row.queue_priority is Some <==> row.enqueued_at_millis is Some)
            && (row.assigned_pool_id is None || row.assigned_pool_id->Some_0 != 0) && (row.assigned_agent_id is None
            || row.assigned_agent_id->Some_0 != 0) && (row.assigned_pool_id is Some <==> row.assigned_agent_id is Some)
            && row.event_cursor >= 0 && is_consistent_end(
            state,
            row.completion_kind,
            row.failure_class,
            if row.completed_at_millis is Some {
                row.completed_at_millis
            } else if state == JobState::Succeeded || state == JobState::Failed || state == JobState::Cancelled || state
                == JobState::Skipped {
                Some(row.updated_at_millis)
            } else {
                None
            },
        ),
{
    if all_identities(row.allowed_pool_ids@) {
        assert forall|i: int| 0 <= i < row.allowed_pool_ids@.len() implies #[trigger] row.allowed_pool_ids@[i] != 0 by {
            assert(is_identity(row.allowed_pool_ids@[i]));
        }
    }
}

/// The end of a job agrees with its state exactly where an ended job has a time, a known failure or none, and the kind
/// of completion its state comes from, and where a job that goes on has none of these.
pub proof fn ends_agree_exactly_with_their_states(
    state: JobState,
    kind: Option<String>,
    failure: Option<String>,
    completed_at: Option<i64>,
)
    ensures
        is_consistent_end(state, kind, failure, completed_at) <==> match state {
            JobState::Succeeded => completed_at is Some && kind is Some && kind->Some_0@ == "succeeded"@ && failure is None,
            JobState::Failed => completed_at is Some && kind is Some && kind->Some_0@ == "failed"@ && failure is Some && (
            failure->Some_0@ == "execution"@ || failure->Some_0@ == "infrastructure"@),
            JobState::Cancelled => completed_at is Some && (kind is None || kind->Some_0@ == "cancelled"@) && (
            failure is None || failure->Some_0@ == "execution"@ || failure->Some_0@ == "infrastructure"@),
            JobState::Skipped => completed_at is Some && kind is None && (failure is None || failure->Some_0@
                == "execution"@ || failure->Some_0@ == "infrastructure"@),
            _ => completed_at is None && kind is None && failure is None,
        },
{
    assert(failure_class_name_text(JobFailureClass::Execution) == "execution"@);
    assert(failure_class_name_text(JobFailureClass::Infrastructure) == "infrastructure"@);
}

/// The end of a job is told with the failure that was stored for it.
pub proof fn ends_are_told_with_their_failure(
    terminal: Option<JobTerminalRecord>,
    state: JobState,
    failure: Option<String>,
    completed_at: Option<i64>,
)
    requires
        is_end_of(terminal, state, failure, completed_at),
        state == JobState::Succeeded || state == JobState::Failed || state == JobState::Cancelled || state
            == JobState::Skipped,
    ensures
        terminal is Some && terminal->Some_0.state == state && completed_at == Some(terminal->Some_0.completed_at),
        terminal->Some_0.failure_class is Some <==> failure is Some,
        terminal->Some_0.failure_class == Some(JobFailureClass::Execution) ==> failure->Some_0@ == "execution"@,
        terminal->Some_0.failure_class == Some(JobFailureClass::Infrastructure) ==> failure->Some_0@
            == "infrastructure"@,
{
}

/// Jobs are loaded one for each row, in order, each with the dependencies that are stored for it, exactly where every
/// row and every dependency can be read.
pub proof fn jobs_are_loaded_in_order(jobs: Seq<JobRecord>, rows: Seq<JobRow>, dependencies: Seq<(u128, u128)>)
    requires
        are_loaded_jobs(jobs, rows, dependencies),
    ensures
        jobs.len() == rows.len(),
        forall|i: int|
            0 <= i < rows.len() ==> (#[trigger] jobs[i]).id == rows[i].id && jobs[i].created_at
                == rows[i].created_at_millis && jobs[i].updated_at == rows[i].updated_at_millis && jobs[i].dependencies@
                == dependencies_in(dependencies, rows[i].id) && rows[i].state@ == job_state_text(jobs[i].state),
{
    assert forall|i: int| 0 <= i < rows.len() implies (#[trigger] jobs[i]).id == rows[i].id && jobs[i].created_at
        == rows[i].created_at_millis && jobs[i].updated_at == rows[i].updated_at_millis && jobs[i].dependencies@
        == dependencies_in(dependencies, rows[i].id) && rows[i].state@ == job_state_text(jobs[i].state) by {
        assert(is_loaded_job(jobs[i], rows[i], dependencies));
    }
}

/// Jobs can be loaded exactly where each of them can be read in some state and each dependency names a job. Where
/// there are no jobs, dependencies are not looked at.
pub proof fn readable_jobs_are_loaded(rows: Seq<JobRow>, dependencies: Seq<(u128, u128)>)
    ensures
        are_readable_jobs(rows, dependencies) <==> (rows.len() == 0 || (forall|i: int|
            0 <= i < dependencies.len() ==> (#[trigger] dependencies[i]).1 != 0)) && (forall|i: int|
            0 <= i < rows.len() ==> is_readable_row(#[trigger] rows[i])),
        forall|i: int, state: JobState|
            0 <= i < rows.len() && are_readable_jobs(rows, dependencies) && (#[trigger] rows[i]).state@
                == #[trigger] job_state_text(state) ==> is_readable_job(rows[i], state),
{
    if are_readable_dependencies(dependencies) {
        assert forall|i: int| 0 <= i < dependencies.len() implies (#[trigger] dependencies[i]).1 != 0 by {
            assert(is_identity(dependencies[i].1));
        }
    }
    if are_readable_jobs(rows, dependencies) {
        assert forall|i: int, state: JobState|
            0 <= i < rows.len() && (#[trigger] rows[i]).state@ == #[trigger] job_state_text(
                state,
            ) implies is_readable_job(rows[i], state) by {
            assert(is_readable_row(rows[i]));
            let stored = choose|stored: JobState| is_readable_job(rows[i], stored);
            job_state_text_names_one_value(stored, state);
        }
    }
}

} // verus!
