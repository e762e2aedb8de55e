//! Values the store reads, writes and reports: identities, versions, times and errors.

use vstd::prelude::*;

verus! {

/// Kind of entity an error speaks of.
#[derive(Clone, Copy, Debug, PartialEq, Eq, Structural)]
pub enum EntityKind {
    /// An agent.
    Agent,
    /// An agent enrollment credential.
    AgentEnrollmentCredential,
    /// An agent registration.
    AgentRegistration,
    /// An artifact.
    Artifact,
    /// An artifact upload.
    ArtifactUpload,
    /// An attempt.
    Attempt,
    /// A build.
    Build,
    /// A cache session.
    CacheSession,
    /// A configuration.
    Configuration,
    /// An integration.
    Integration,
    /// A job.
    Job,
    /// A lease.
    Lease,
    /// A log chunk.
    LogChunk,
    /// A log indexing work.
    LogIndexingWork,
    /// A pipeline.
    Pipeline,
    /// A pool.
    Pool,
    /// A project.
    Project,
    /// A repository.
    Repository,
    /// A retention hold.
    RetentionHold,
    /// A retention work.
    RetentionWork,
    /// A trigger.
    Trigger,
}

/// Operation an invalid input was given to.
#[derive(Clone, Copy, Debug, PartialEq, Eq, Structural)]
pub enum StoreOperation {
    /// Accept trigger.
    AcceptTrigger,
    /// Append job events.
    AppendJobEvents,
    /// Begin artifact upload.
    BeginArtifactUpload,
    /// Begin artifact verification.
    BeginArtifactVerification,
    /// Begin cache session.
    BeginCacheSession,
    /// Claim internal trigger events.
    ClaimInternalTriggerEvents,
    /// Claim ready job.
    ClaimReadyJob,
    /// Complete internal trigger event.
    CompleteInternalTriggerEvent,
    /// Complete job.
    CompleteJob,
    /// Complete retention object.
    CompleteRetentionObject,
    /// Complete schedule claim.
    CompleteScheduleClaim,
    /// Create agent pool.
    CreateAgentPool,
    /// Create build configuration.
    CreateBuildConfiguration,
    /// Create managed webhook.
    CreateManagedWebhook,
    /// Create pipeline.
    CreatePipeline,
    /// Create repository.
    CreateRepository,
    /// Create schedule.
    CreateSchedule,
    /// Create trigger definition.
    CreateTriggerDefinition,
    /// Create unmanaged webhook.
    CreateUnmanagedWebhook,
    /// Drain agent.
    DrainAgent,
    /// Fail orphan log chunk.
    FailOrphanLogChunk,
    /// Fail retention work.
    FailRetentionWork,
    /// Finish artifact verification.
    FinishArtifactVerification,
    /// Issue agent enrollment.
    IssueAgentEnrollment,
    /// List audit facts.
    ListAuditFacts,
    /// List cache sessions.
    ListCacheSessions,
    /// List published artifacts.
    ListPublishedArtifacts,
    /// Move project.
    MoveProject,
    /// Prepare job event append.
    PrepareJobEventAppend,
    /// Prepare retention work.
    PrepareRetentionWork,
    /// Publish agent pool version.
    PublishAgentPoolVersion,
    /// Publish build configuration version.
    PublishBuildConfigurationVersion,
    /// Publish cache action.
    PublishCacheAction,
    /// Publish cache blob.
    PublishCacheBlob,
    /// Publish internal trigger version.
    PublishInternalTriggerVersion,
    /// Publish pipeline version.
    PublishPipelineVersion,
    /// Publish project policy.
    PublishProjectPolicy,
    /// Publish repository version.
    PublishRepositoryVersion,
    /// Read build configuration version.
    ReadBuildConfigurationVersion,
    /// Read cache action.
    ReadCacheAction,
    /// Read cache blob.
    ReadCacheBlob,
    /// Read internal trigger definition.
    ReadInternalTriggerDefinition,
    /// Read job events.
    ReadJobEvents,
    /// Read pipeline version.
    ReadPipelineVersion,
    /// Read repository version.
    ReadRepositoryVersion,
    /// Read schedule.
    ReadSchedule,
    /// Reassign agent pool.
    ReassignAgentPool,
    /// Register agent.
    RegisterAgent,
    /// Rename project.
    RenameProject,
    /// Renew lease.
    RenewLease,
    /// Reserve artifact.
    ReserveArtifact,
    /// Retry build.
    RetryBuild,
    /// Revoke cache session.
    RevokeCacheSession,
    /// Stage orphan log chunk.
    StageOrphanLogChunk,
    /// Transition artifact.
    TransitionArtifact,
}

/// What was wrong with an invalid input.
#[derive(Clone, Copy, Debug, PartialEq, Eq, Structural)]
pub enum StoreInputError {
    /// Invalid agent inventory.
    InvalidAgentInventory,
    /// Invalid artifact.
    InvalidArtifact,
    /// Invalid audit query.
    InvalidAuditQuery,
    /// Invalid cache data.
    InvalidCacheData,
    /// Invalid cache session.
    InvalidCacheSession,
    /// Invalid log chunk manifest.
    InvalidLogChunkManifest,
    /// Invalid normalized trigger.
    InvalidNormalizedTrigger,
    /// Invalid pipeline snapshot.
    InvalidPipelineSnapshot,
    /// Invalid worker claim.
    InvalidWorkerClaim,
    /// Numeric out of range.
    NumericOutOfRange,
    /// Too many internal trigger matches.
    TooManyInternalTriggerMatches,
}

/// Failure of a store operation.
#[derive(Clone, Copy, Debug, PartialEq, Eq, Structural)]
pub enum StoreError {
    /// The database cannot answer, or holds something this library cannot read.
    Unavailable,
    /// The presented credential does not grant access.
    CredentialRejected,
    /// The named entity does not exist.
    NotFound { entity: EntityKind },
    /// An entity with the same identity exists.
    Duplicate { entity: EntityKind },
    /// The request contradicts the stored state.
    Conflict { entity: EntityKind },
    /// The lease belongs to somebody else, or was taken away.
    Fenced { lease: u128 },
    /// The lease has run out.
    Expired { lease: u128 },
    /// The request itself is malformed.
    InvalidInput { operation: StoreOperation, source: StoreInputError },
    /// Completion was requested before every event was durable.
    EventsMissing { job: u128, durable_through: u64, required: u64 },
    /// Events were appended past a missing one.
    EventGap { job: u128, expected: u64, actual: u64 },
}

/// Whether a mutation took effect now or had taken effect before.
#[derive(Clone, Copy, Debug, PartialEq, Eq, Structural)]
pub enum MutationDisposition {
    /// The mutation took effect in this call.
    Applied,
    /// An identical earlier call took effect; its outcome is repeated.
    Replayed,
}

/// The first version of every versioned entity.
pub const INITIAL_VERSION: u64 = 1;

/// Whether a number is an identity: a UUID, read as the number its bytes spell in network
/// order. The nil UUID names nothing. What an identity is, the constructors of the server's domain types decide;
/// this rule is assumed of them.
pub open spec fn is_identity(raw: u128) -> bool {
    raw != 0
}

/// Reads an identity column.
pub fn identity(raw: u128) -> (result: Result<u128, StoreError>)
    ensures
        result == (if is_identity(raw) {
            Ok::<u128, StoreError>(raw)
        } else {
            Err(StoreError::Unavailable)
        }),
{
    if raw != 0 {
        Ok(raw)
    } else {
        Err(StoreError::Unavailable)
    }
}

/// Whether an optional column is absent or holds an identity.
pub open spec fn is_optional_identity(raw: Option<u128>) -> bool {
    match raw {
        Some(raw) => is_identity(raw),
        None => true,
    }
}

/// Reads an optional identity column.
pub fn optional_identity(raw: Option<u128>) -> (result: Result<Option<u128>, StoreError>)
    ensures
        result == (if is_optional_identity(raw) {
            Ok::<Option<u128>, StoreError>(raw)
        } else {
            Err(StoreError::Unavailable)
        }),
{
    match raw {
        Some(raw) => Ok(Some(identity(raw)?)),
        None => Ok(None),
    }
}

/// Whether a number is a version, a position or an epoch: these count from one. What one is, the constructors of
/// the server's domain types decide; this rule is assumed of them.
pub open spec fn is_version(raw: i64) -> bool {
    raw > 0
}

/// Reads a version, position or epoch column.
pub fn version(raw: i64) -> (result: Result<u64, StoreError>)
    ensures
        result == (if is_version(raw) {
            Ok::<u64, StoreError>(raw as u64)
        } else {
            Err(StoreError::Unavailable)
        }),
{
    if raw > 0 {
        Ok(raw as u64)
    } else {
        Err(StoreError::Unavailable)
    }
}

/// Whether a number of milliseconds since the Unix epoch is a time: none is before the epoch. What a time is, the
/// constructor of the server's domain type decides; this rule is assumed of it.
pub open spec fn is_timestamp(raw: i64) -> bool {
    raw >= 0
}

/// Reads a time column, in milliseconds since the Unix epoch.
pub fn timestamp(raw: i64) -> (result: Result<i64, StoreError>)
    ensures
        result == (if is_timestamp(raw) {
            Ok::<i64, StoreError>(raw)
        } else {
            Err(StoreError::Unavailable)
        }),
{
    if raw >= 0 {
        Ok(raw)
    } else {
        Err(StoreError::Unavailable)
    }
}

/// Whether an optional column is absent or holds a time.
pub open spec fn is_optional_timestamp(raw: Option<i64>) -> bool {
    match raw {
        Some(raw) => is_timestamp(raw),
        None => true,
    }
}

/// Reads an optional time column.
pub fn optional_timestamp(raw: Option<i64>) -> (result: Result<Option<i64>, StoreError>)
    ensures
        result == (if is_optional_timestamp(raw) {
            Ok::<Option<i64>, StoreError>(raw)
        } else {
            Err(StoreError::Unavailable)
        }),
{
    match raw {
        Some(raw) => Ok(Some(timestamp(raw)?)),
        None => Ok(None),
    }
}

/// The version that follows `current`; the last version has no successor.
pub fn next_version(current: u64) -> (result: Result<u64, StoreError>)
    ensures
        result == (if current < u64::MAX {
            Ok::<u64, StoreError>((current + 1) as u64)
        } else {
            Err(StoreError::Unavailable)
        }),
{
    if current < u64::MAX {
        Ok(current + 1)
    } else {
        Err(StoreError::Unavailable)
    }
}

/// What can be read back: an identity is any but the empty one, a version counts from one, and a time does not lie
/// before the epoch.
pub proof fn values_are_read_within_their_bounds(id: u128, number: i64)
    ensures
        is_identity(id) <==> id > 0,
        is_optional_identity(Some(id)) <==> id > 0,
        is_optional_identity(None),
        is_version(number) <==> number >= 1,
        is_timestamp(number) <==> number >= 0,
        is_optional_timestamp(Some(number)) <==> number >= 0,
        is_optional_timestamp(None),
        INITIAL_VERSION == 1,
{
}

} // verus!
