//! Artifacts and reports of a job: reserving, uploading, verifying and expiring them.

use vstd::prelude::*;

use crate::database::{fits_column, number, out_of_range};
use crate::domain::{
    identity, is_identity, is_optional_timestamp, is_timestamp, is_version, optional_timestamp, timestamp, version,
    EntityKind, MutationDisposition, StoreError, StoreInputError, StoreOperation,
};
use crate::hash::sha256_of;
use crate::lease::{
    currency, current_states_are_not_expired, load, loaded, require_current, LeaseAccess, LeaseRow,
};
use crate::refusal::{a_refusal_is_found, first_refusal, first_refusal_decides, no_refusal_remains};
use crate::text::{same_bytes, same_text};

verus! {

/// How far an artifact has got.
#[derive(Clone, Copy, Debug, PartialEq, Eq, Structural)]
pub enum ArtifactState {
    /// Stored as `pending`.
    Pending,
    /// Stored as `verifying`.
    Verifying,
    /// Stored as `published`.
    Published,
    /// Stored as `expired`.
    Expired,
    /// Stored as `deleted`.
    Deleted,
}

/// The stored name of the state of an artifact.
pub open spec fn artifact_state_text(value: ArtifactState) -> Seq<char> {
    match value {
        ArtifactState::Pending => "pending"@,
        ArtifactState::Verifying => "verifying"@,
        ArtifactState::Published => "published"@,
        ArtifactState::Expired => "expired"@,
        ArtifactState::Deleted => "deleted"@,
    }
}

/// No two values share a stored name.
pub proof fn artifact_state_text_names_one_value(a: ArtifactState, b: ArtifactState)
    ensures
        artifact_state_text(a) == artifact_state_text(b) ==> a == b,
{
    reveal_strlit("pending");
    reveal_strlit("verifying");
    reveal_strlit("published");
    reveal_strlit("expired");
    reveal_strlit("deleted");
    assert("pending"@.len() == 7);
    assert("verifying"@.len() == 9);
    assert("published"@.len() == 9);
    assert("expired"@.len() == 7);
    assert("deleted"@.len() == 7);
    assert("pending"@[0] == 'p');
    assert("expired"@[0] == 'e');
    assert("deleted"@[0] == 'd');
    assert("verifying"@[0] == 'v');
    assert("published"@[0] == 'p');
}

/// Names the state of an artifact as the database stores it.
pub fn artifact_state(value: ArtifactState) -> (text: &'static str)
    ensures
        text@ == artifact_state_text(value),
{
    match value {
        ArtifactState::Pending => "pending",
        ArtifactState::Verifying => "verifying",
        ArtifactState::Published => "published",
        ArtifactState::Expired => "expired",
        ArtifactState::Deleted => "deleted",
    }
}

/// Reads the state of an artifact back from its stored name; any other text is unreadable.
pub fn parse_artifact_state(text: &str) -> (result: Result<ArtifactState, StoreError>)
    ensures
        forall|value: ArtifactState|
            result == Ok::<ArtifactState, StoreError>(value)
                <==> text@ == #[trigger] artifact_state_text(value),
        result is Err ==> result == Err::<ArtifactState, StoreError>(StoreError::Unavailable),
{
    proof {
        assert forall|a: ArtifactState, b: ArtifactState|
            #[trigger] artifact_state_text(a) == #[trigger] artifact_state_text(b)
            implies a == b by {
            artifact_state_text_names_one_value(a, b);
        }
    }
    let result = if same_text(text, "pending") {
        Ok(ArtifactState::Pending)
    } else if same_text(text, "verifying") {
        Ok(ArtifactState::Verifying)
    } else if same_text(text, "published") {
        Ok(ArtifactState::Published)
    } else if same_text(text, "expired") {
        Ok(ArtifactState::Expired)
    } else if same_text(text, "deleted") {
        Ok(ArtifactState::Deleted)
    } else {
        Err(StoreError::Unavailable)
    };
    assert(result matches Ok(value) ==> text@ == artifact_state_text(value));
    result
}

/// Something that happens to an artifact.
#[derive(Clone, Copy, Debug, PartialEq, Eq, Structural)]
pub enum ArtifactEvent {
    /// Its content arrived and is checked.
    BeginVerification,
    /// Its content is as announced.
    Publish,
    /// Its content is not as announced.
    VerificationFailed,
    /// Its time is up.
    Expire,
    /// Its content is gone.
    Delete,
}

/// What an artifact is.
pub enum ArtifactType {
    /// A file.
    Artifact,
    /// A report in a format.
    Report(String),
}

/// Whether two types are the same.
pub open spec fn same_type_as(a: ArtifactType, b: ArtifactType) -> bool {
    match (a, b) {
        (ArtifactType::Artifact, ArtifactType::Artifact) => true,
        (ArtifactType::Report(a), ArtifactType::Report(b)) => a@ == b@,
        _ => false,
    }
}

/// Whether two types are the same.
pub fn same_type(a: &ArtifactType, b: &ArtifactType) -> (same: bool)
    ensures
        same == same_type_as(*a, *b),
{
    match (a, b) {
        (ArtifactType::Artifact, ArtifactType::Artifact) => true,
        (ArtifactType::Report(a), ArtifactType::Report(b)) => same_text(a.as_str(), b.as_str()),
        _ => false,
    }
}

/// What is refused as no artifact.
pub open spec fn not_an_artifact(operation: StoreOperation) -> StoreError {
    StoreError::InvalidInput { operation, source: StoreInputError::InvalidArtifact }
}

fn invalid(operation: StoreOperation) -> (error: StoreError)
    ensures
        error == not_an_artifact(operation),
{
    StoreError::InvalidInput { operation, source: StoreInputError::InvalidArtifact }
}

/// An artifact as the database holds it.
pub struct ArtifactRow {
    /// The artifact.
    pub id: u128,
    /// Its build.
    pub build_id: u128,
    /// Its attempt.
    pub attempt_id: u128,
    /// Its job.
    pub job_id: u128,
    /// The lease it was produced under.
    pub lease_id: u128,
    /// Its name.
    pub logical_name: String,
    /// Whether it is a file or a report.
    pub artifact_type: String,
    /// Its media type.
    pub media_type: String,
    /// Format of a report.
    pub report_format: Option<String>,
    /// Its length.
    pub byte_length: i64,
    /// Digest of its content.
    pub sha256: Vec<u8>,
    /// How far it has got.
    pub state: String,
    /// Until when it is kept.
    pub retention_until_millis: Option<i64>,
    /// Its version.
    pub version: i64,
    /// When it was reserved.
    pub created_at_millis: i64,
    /// When it was published.
    pub published_at_millis: Option<i64>,
    /// When it was deleted.
    pub deleted_at_millis: Option<i64>,
    /// Whether names, media type and times are valid by their own rules.
    pub is_valid: bool,
}

/// What an artifact is and where it comes from.
pub struct ArtifactIdentity {
    /// The artifact.
    pub artifact_id: u128,
    /// Its build.
    pub build_id: u128,
    /// Its attempt.
    pub attempt_id: u128,
    /// Its job.
    pub job_id: u128,
    /// The lease it was produced under.
    pub lease_id: u128,
    /// Its name.
    pub logical_name: String,
    /// What it is.
    pub artifact_type: ArtifactType,
    /// Its media type.
    pub media_type: String,
    /// Its length.
    pub size_bytes: u64,
    /// Digest of its content.
    pub digest: Vec<u8>,
    /// Until when it is kept; without a time it is kept for ever.
    pub delete_after: Option<i64>,
}

/// An artifact.
pub struct ArtifactRecord {
    /// What it is and where it comes from.
    pub identity: ArtifactIdentity,
    /// How far it has got.
    pub state: ArtifactState,
    /// Its version.
    pub version: u64,
    /// When it was reserved.
    pub created_at: i64,
    /// When it was published.
    pub published_at: Option<i64>,
    /// When it was deleted.
    pub deleted_at: Option<i64>,
}

/// Whether the type columns of an artifact fit: a report has a format, and a file has none.
pub open spec fn is_readable_type(artifact_type: Seq<char>, report_format: Option<String>) -> bool {
    ||| artifact_type == "artifact"@ && report_format is None
    ||| artifact_type == "report"@ && report_format is Some
}

/// Whether an artifact can be read.
pub open spec fn is_readable(row: ArtifactRow) -> bool {
    &&& row.sha256@.len() == 32
    &&& is_readable_type(row.artifact_type@, row.report_format)
    &&& is_optional_timestamp(row.retention_until_millis)
    &&& is_identity(row.id) && is_identity(row.build_id) && is_identity(row.attempt_id) && is_identity(row.job_id)
    &&& is_identity(row.lease_id)
    &&& row.byte_length >= 0
    &&& exists|state: ArtifactState| row.state@ == #[trigger] artifact_state_text(state)
    &&& is_version(row.version)
    &&& is_timestamp(row.created_at_millis)
    &&& is_optional_timestamp(row.published_at_millis) && is_optional_timestamp(row.deleted_at_millis)
    &&& row.is_valid
}

/// Whether an artifact is what its row says.
pub open spec fn is_artifact_of(record: ArtifactRecord, row: ArtifactRow) -> bool {
    &&& record.identity.artifact_id == row.id
    &&& record.identity.build_id == row.build_id
    &&& record.identity.attempt_id == row.attempt_id
    &&& record.identity.job_id == row.job_id
    &&& record.identity.lease_id == row.lease_id
    &&& record.identity.logical_name@ == row.logical_name@
    &&& match record.identity.artifact_type {
        ArtifactType::Artifact => row.artifact_type@ == "artifact"@ && row.report_format is None,
        ArtifactType::Report(format) => row.artifact_type@ == "report"@ && row.report_format == Some(format),
    }
    &&& record.identity.media_type@ == row.media_type@
    &&& record.identity.size_bytes == row.byte_length
    &&& record.identity.digest@ == row.sha256@
    &&& record.identity.delete_after == row.retention_until_millis
    &&& row.state@ == artifact_state_text(record.state)
    &&& record.version == row.version
    &&& record.created_at == row.created_at_millis
    &&& record.published_at == row.published_at_millis
    &&& record.deleted_at == row.deleted_at_millis
}

fn read_type(artifact_type: &str, report_format: Option<String>) -> (result: Result<ArtifactType, StoreError>)
    ensures
        match result {
            Ok(ArtifactType::Artifact) => artifact_type@ == "artifact"@ && report_format is None,
            Ok(ArtifactType::Report(format)) => artifact_type@ == "report"@ && report_format == Some(format),
            Err(error) => error == StoreError::Unavailable && !is_readable_type(artifact_type@, report_format),
        },
{
    match report_format {
        None => if same_text(artifact_type, "artifact") {
            Ok(ArtifactType::Artifact)
        } else {
            Err(StoreError::Unavailable)
        },
        Some(format) => if same_text(artifact_type, "report") {
            Ok(ArtifactType::Report(format))
        } else {
            Err(StoreError::Unavailable)
        },
    }
}

/// Reads an artifact.
pub fn decode(row: ArtifactRow) -> (result: Result<ArtifactRecord, StoreError>)
    ensures
        match result {
            Ok(record) => is_readable(row) && is_artifact_of(record, row),
            Err(error) => error == StoreError::Unavailable && !is_readable(row),
        },
{
    if row.sha256.len() != 32 || row.byte_length < 0 || !row.is_valid {
        return Err(StoreError::Unavailable);
    }
    let artifact_type = read_type(row.artifact_type.as_str(), row.report_format)?;
    let state = parse_artifact_state(row.state.as_str())?;
    assert(row.state@ == artifact_state_text(state));
    Ok(
        ArtifactRecord {
            identity: ArtifactIdentity {
                artifact_id: identity(row.id)?,
                build_id: identity(row.build_id)?,
                attempt_id: identity(row.attempt_id)?,
                job_id: identity(row.job_id)?,
                lease_id: identity(row.lease_id)?,
                logical_name: row.logical_name,
                artifact_type,
                media_type: row.media_type,
                size_bytes: row.byte_length as u64,
                digest: row.sha256,
                delete_after: optional_timestamp(row.retention_until_millis)?,
            },
            state,
            version: version(row.version)?,
            created_at: timestamp(row.created_at_millis)?,
            published_at: optional_timestamp(row.published_at_millis)?,
            deleted_at: optional_timestamp(row.deleted_at_millis)?,
        },
    )
}

/// An upload as the database holds it, with its artifact.
pub struct ArtifactUploadRow {
    /// The upload.
    pub upload_id: u128,
    /// Idempotency key.
    pub idempotency_key: String,
    /// When its capability runs out.
    pub capability_expires_at_millis: i64,
    /// Media type of the transport.
    pub transport_media_type: String,
    /// Run that produced it.
    pub producer_run_id: String,
    /// Task that produced it.
    pub producer_task_id: String,
    /// The artifact.
    pub artifact: ArtifactRow,
    /// Whether artifacts of its kind are visible in its build.
    pub component_visible: bool,
    /// Whether key, producers and transport are valid by their own rules.
    pub is_valid: bool,
}

/// An upload.
pub struct ArtifactUploadRecord {
    /// The upload.
    pub upload_id: u128,
    /// Idempotency key.
    pub idempotency_key: String,
    /// The artifact.
    pub artifact: ArtifactRecord,
    /// Run that produced it.
    pub producer_run_id: String,
    /// Task that produced it.
    pub producer_task_id: String,
    /// Media type of the transport.
    pub transport_media_type: String,
    /// When its capability runs out.
    pub capability_expires_at: i64,
}

/// Whether an upload can be read.
pub open spec fn is_readable_upload(row: ArtifactUploadRow) -> bool {
    &&& is_readable(row.artifact)
    &&& is_identity(row.upload_id)
    &&& is_timestamp(row.capability_expires_at_millis)
    &&& row.is_valid
}

/// Whether an upload is what its row says.
pub open spec fn is_upload_of(record: ArtifactUploadRecord, row: ArtifactUploadRow) -> bool {
    &&& record.upload_id == row.upload_id
    &&& record.idempotency_key@ == row.idempotency_key@
    &&& is_artifact_of(record.artifact, row.artifact)
    &&& record.producer_run_id@ == row.producer_run_id@
    &&& record.producer_task_id@ == row.producer_task_id@
    &&& record.transport_media_type@ == row.transport_media_type@
    &&& record.capability_expires_at == row.capability_expires_at_millis
}

/// Reads an upload.
pub fn decode_upload(row: ArtifactUploadRow) -> (result: Result<ArtifactUploadRecord, StoreError>)
    ensures
        match result {
            Ok(record) => is_readable_upload(row) && is_upload_of(record, row),
            Err(error) => error == StoreError::Unavailable && !is_readable_upload(row),
        },
{
    if !row.is_valid {
        return Err(StoreError::Unavailable);
    }
    let artifact = decode(row.artifact)?;
    Ok(
        ArtifactUploadRecord {
            upload_id: identity(row.upload_id)?,
            idempotency_key: row.idempotency_key,
            artifact,
            producer_run_id: row.producer_run_id,
            producer_task_id: row.producer_task_id,
            transport_media_type: row.transport_media_type,
            capability_expires_at: timestamp(row.capability_expires_at_millis)?,
        },
    )
}

/// Reads an artifact, where there is one.
pub fn read(row: Option<ArtifactRow>) -> (result: Result<ArtifactRecord, StoreError>)
    ensures
        match row {
            None => result matches Err(error) && error == (StoreError::NotFound { entity: EntityKind::Artifact }),
            Some(row) => match result {
                Ok(record) => is_readable(row) && is_artifact_of(record, row),
                Err(error) => error == StoreError::Unavailable && !is_readable(row),
            },
        },
{
    match row {
        Some(row) => decode(row),
        None => Err(StoreError::NotFound { entity: EntityKind::Artifact }),
    }
}

/// Reads an upload, where there is one.
pub fn read_upload(row: Option<ArtifactUploadRow>) -> (result: Result<ArtifactUploadRecord, StoreError>)
    ensures
        match row {
            None => result matches Err(error) && error == (StoreError::NotFound { entity: EntityKind::ArtifactUpload }),
            Some(row) => match result {
                Ok(record) => is_readable_upload(row) && is_upload_of(record, row),
                Err(error) => error == StoreError::Unavailable && !is_readable_upload(row),
            },
        },
{
    match row {
        Some(row) => decode_upload(row),
        None => Err(StoreError::NotFound { entity: EntityKind::ArtifactUpload }),
    }
}

/// Reads an artifact that is published and shown, where there is one.
pub fn published(row: Option<ArtifactUploadRow>) -> (result: Result<ArtifactUploadRecord, StoreError>)
    ensures
        match row {
            None => result matches Err(error) && error == (StoreError::NotFound { entity: EntityKind::Artifact }),
            Some(row) => match result {
                Ok(record) => is_readable_upload(row) && is_upload_of(record, row),
                Err(error) => error == StoreError::Unavailable && !is_readable_upload(row),
            },
        },
{
    match row {
        Some(row) => decode_upload(row),
        None => Err(StoreError::NotFound { entity: EntityKind::Artifact }),
    }
}

/// Whether a lease is for the work an artifact comes from.
pub open spec fn is_work_of(row: LeaseRow, access: LeaseAccess, artifact: ArtifactIdentity) -> bool {
    &&& row.job_id == artifact.job_id
    &&& row.attempt_id == artifact.attempt_id
    &&& row.build_id == artifact.build_id
    &&& access.lease_id == artifact.lease_id
}

/// What requiring a lease on an artifact's work comes to, where the lease was loaded for its holder.
pub open spec fn work_verdict(row: LeaseRow, access: LeaseAccess, observed_at: i64, artifact: ArtifactIdentity) -> Result<
    (),
    StoreError,
> {
    match currency(row, access, observed_at) {
        Err(error) => Err(error),
        Ok(()) => if is_work_of(row, access, artifact) {
            Ok(())
        } else {
            Err(StoreError::Fenced { lease: access.lease_id })
        },
    }
}

/// Requires that a held lease is for the work an artifact comes from.
pub fn require_work(row: &LeaseRow, access: &LeaseAccess, observed_at: i64, artifact: &ArtifactIdentity) -> (result:
    Result<(), StoreError>)
    ensures
        result == work_verdict(*row, *access, observed_at, *artifact),
{
    match require_current(row, access, observed_at) {
        Ok(()) => {},
        Err(error) => {
            return Err(error);
        },
    }
    if row.job_id != artifact.job_id || row.attempt_id != artifact.attempt_id || row.build_id != artifact.build_id
        || access.lease_id != artifact.lease_id {
        return Err(StoreError::Fenced { lease: access.lease_id });
    }
    Ok(())
}

/// Requires that the caller holds a lease for the work an artifact comes from.
pub fn require_lease_identity(
    row: Option<LeaseRow>,
    access: &LeaseAccess,
    observed_at: i64,
    artifact: &ArtifactIdentity,
    operation: StoreOperation,
) -> (result: Result<(), StoreError>)
    ensures
        result == (match loaded(row, *access, operation, sha256_of(access.fence@)) {
            Ok(row) => work_verdict(row, *access, observed_at, *artifact),
            Err(error) => Err::<(), StoreError>(error),
        }),
{
    match load(row, access, operation) {
        Ok(row) => require_work(&row, access, observed_at, artifact),
        Err(error) => Err(error),
    }
}

/// Reserves an artifact under a lease that was loaded: gives its length as the database holds it.
pub fn reserve_held(row: &LeaseRow, access: &LeaseAccess, reserved_at: i64, artifact: &ArtifactIdentity) -> (result:
    Result<i64, StoreError>)
    ensures
        result == (match work_verdict(*row, *access, reserved_at, *artifact) {
            Err(error) => Err::<i64, StoreError>(error),
            Ok(()) => if fits_column(artifact.size_bytes) {
                Ok(artifact.size_bytes as i64)
            } else {
                Err(out_of_range(StoreOperation::ReserveArtifact))
            },
        }),
{
    match require_work(row, access, reserved_at, artifact) {
        Ok(()) => number(artifact.size_bytes, StoreOperation::ReserveArtifact),
        Err(error) => Err(error),
    }
}

/// Reserves an artifact: gives its length as the database holds it. `is_artifact` says whether what is reserved
/// is a valid artifact; it has to be one of the lease, and the caller has to hold that.
pub fn reserve(
    is_artifact: bool,
    row: Option<LeaseRow>,
    access: &LeaseAccess,
    reserved_at: i64,
    artifact: &ArtifactIdentity,
) -> (result: Result<i64, StoreError>)
    ensures
        result == (if !is_artifact || access.lease_id != artifact.lease_id {
            Err::<i64, StoreError>(not_an_artifact(StoreOperation::ReserveArtifact))
        } else {
            match loaded(row, *access, StoreOperation::ReserveArtifact, sha256_of(access.fence@)) {
                Err(error) => Err(error),
                Ok(row) => match work_verdict(row, *access, reserved_at, *artifact) {
                    Err(error) => Err(error),
                    Ok(()) => if fits_column(artifact.size_bytes) {
                        Ok(artifact.size_bytes as i64)
                    } else {
                        Err(out_of_range(StoreOperation::ReserveArtifact))
                    },
                },
            }
        }),
{
    if !is_artifact {
        return Err(invalid(StoreOperation::ReserveArtifact));
    }
    if access.lease_id != artifact.lease_id {
        return Err(invalid(StoreOperation::ReserveArtifact));
    }
    match load(row, access, StoreOperation::ReserveArtifact) {
        Ok(row) => reserve_held(&row, access, reserved_at, artifact),
        Err(error) => Err(error),
    }
}

/// What becomes of an artifact that is to change: `authorised` says whether whoever asks may cause the change,
/// and `transitioned` is what the artifact becomes, where the change is in order.
pub open spec fn change_verdict(
    current: Option<ArtifactRow>,
    authorised: bool,
    transitioned: Option<ArtifactRecord>,
) -> Result<(ArtifactRecord, i64, i64), StoreError> {
    match current {
        None => Err(StoreError::NotFound { entity: EntityKind::Artifact }),
        Some(row) => if !is_readable(row) {
            Err(StoreError::Unavailable)
        } else if !authorised {
            Err(not_an_artifact(StoreOperation::TransitionArtifact))
        } else {
            match transitioned {
                None => Err(StoreError::Conflict { entity: EntityKind::Artifact }),
                Some(record) => if fits_column(record.version) {
                    Ok((record, record.version as i64, row.version))
                } else {
                    Err(out_of_range(StoreOperation::TransitionArtifact))
                },
            }
        },
    }
}

/// Decides a change of an artifact: gives what it becomes, with the version to store and the one that it
/// replaces.
pub fn transition(current: Option<ArtifactRow>, authorised: bool, transitioned: Option<ArtifactRecord>) -> (result:
    Result<(ArtifactRecord, i64, i64), StoreError>)
    ensures
        result == change_verdict(current, authorised, transitioned),
{
    let current = match current {
        Some(row) => decode(row)?,
        None => {
            return Err(StoreError::NotFound { entity: EntityKind::Artifact });
        },
    };
    if !authorised {
        return Err(invalid(StoreOperation::TransitionArtifact));
    }
    match transitioned {
        Some(record) => {
            let (new_version, old_version) = update_numbers(
                record.version,
                current.version,
                StoreOperation::TransitionArtifact,
            )?;
            Ok((record, new_version, old_version))
        },
        None => Err(StoreError::Conflict { entity: EntityKind::Artifact }),
    }
}

/// Decides a change of an artifact that the holder of a lease asks for: the lease has to be held, and for the
/// work that the artifact comes from.
pub fn transition_under_lease(
    row: Option<LeaseRow>,
    access: &LeaseAccess,
    transitioned_at: i64,
    expected: &ArtifactIdentity,
    current: Option<ArtifactRow>,
    authorised: bool,
    transitioned: Option<ArtifactRecord>,
) -> (result: Result<(ArtifactRecord, i64, i64), StoreError>)
    ensures
        result == (match loaded(row, *access, StoreOperation::TransitionArtifact, sha256_of(access.fence@)) {
            Err(error) => Err(error),
            Ok(row) => match work_verdict(row, *access, transitioned_at, *expected) {
                Err(error) => Err(error),
                Ok(()) => change_verdict(current, authorised, transitioned),
            },
        }),
{
    match require_lease_identity(row, access, transitioned_at, expected, StoreOperation::TransitionArtifact) {
        Ok(()) => transition(current, authorised, transitioned),
        Err(error) => Err(error),
    }
}

/// The versions of an update as the database holds them: the new one, and the one it replaces.
pub fn update_numbers(version: u64, previous_version: u64, operation: StoreOperation) -> (result: Result<
    (i64, i64),
    StoreError,
>)
    ensures
        result == (if fits_column(version) && fits_column(previous_version) {
            Ok::<(i64, i64), StoreError>((version as i64, previous_version as i64))
        } else {
            Err(out_of_range(operation))
        }),
{
    let new_version: i64 = number(version, operation)?;
    let old_version: i64 = number(previous_version, operation)?;
    Ok((new_version, old_version))
}

/// The version an artifact had before its last transition.
pub fn previous_version(version: u64) -> (result: Result<u64, StoreError>)
    ensures
        result == (if version > 0 {
            Ok::<u64, StoreError>((version - 1) as u64)
        } else {
            Err(StoreError::Unavailable)
        }),
{
    match version.checked_sub(1) {
        Some(previous) => Ok(previous),
        None => Err(StoreError::Unavailable),
    }
}

/// Checks that a write reached the artifact it was meant for: it did not where somebody else wrote
/// first.
pub fn require_written(affected: u64) -> (result: Result<(), StoreError>)
    ensures
        result == (if affected == 1 {
            Ok::<(), StoreError>(())
        } else {
            Err(StoreError::Conflict { entity: EntityKind::Artifact })
        }),
{
    if affected != 1 {
        return Err(StoreError::Conflict { entity: EntityKind::Artifact });
    }
    Ok(())
}

/// A request to upload.
pub struct BeginArtifactUpload {
    /// The lease and who presents it.
    pub lease: LeaseAccess,
    /// The upload.
    pub upload_id: u128,
    /// The artifact.
    pub artifact_id: u128,
    /// Its job.
    pub job_id: u128,
    /// Number of the attempt.
    pub attempt: u64,
    /// Idempotency key.
    pub idempotency_key: String,
    /// Run that produced it.
    pub producer_run_id: String,
    /// Task that produced it.
    pub producer_task_id: String,
    /// Its name.
    pub logical_name: String,
    /// What it is.
    pub artifact_type: ArtifactType,
    /// Its media type.
    pub media_type: String,
    /// Media type of the transport.
    pub transport_media_type: String,
    /// Its length.
    pub size_bytes: u64,
    /// Digest of its content.
    pub digest: Vec<u8>,
    /// When it is reserved.
    pub reserved_at: i64,
    /// When its capability runs out.
    pub capability_expires_at: i64,
}

/// Whether an upload on record is the one that is requested.
pub open spec fn is_same_upload(existing: ArtifactUploadRecord, request: BeginArtifactUpload) -> bool {
    &&& existing.artifact.identity.lease_id == request.lease.lease_id
    &&& existing.artifact.identity.job_id == request.job_id
    &&& existing.artifact.identity.logical_name@ == request.logical_name@
    &&& existing.producer_run_id@ == request.producer_run_id@
    &&& existing.producer_task_id@ == request.producer_task_id@
    &&& same_type_as(existing.artifact.identity.artifact_type, request.artifact_type)
    &&& existing.artifact.identity.media_type@ == request.media_type@
    &&& existing.transport_media_type@ == request.transport_media_type@
    &&& existing.artifact.identity.size_bytes == request.size_bytes
    &&& existing.artifact.identity.digest@ == request.digest@
}

/// Whether an upload on record is the one that is requested.
pub fn upload_matches(existing: &ArtifactUploadRecord, request: &BeginArtifactUpload) -> (matches: bool)
    ensures
        matches == is_same_upload(*existing, *request),
{
    let identity = &existing.artifact.identity;
    identity.lease_id == request.lease.lease_id && identity.job_id == request.job_id && same_text(
        identity.logical_name.as_str(),
        request.logical_name.as_str(),
    ) && same_text(existing.producer_run_id.as_str(), request.producer_run_id.as_str()) && same_text(
        existing.producer_task_id.as_str(),
        request.producer_task_id.as_str(),
    ) && same_type(&identity.artifact_type, &request.artifact_type) && same_text(
        identity.media_type.as_str(),
        request.media_type.as_str(),
    ) && same_text(existing.transport_media_type.as_str(), request.transport_media_type.as_str())
        && identity.size_bytes == request.size_bytes && same_bytes(
        identity.digest.as_slice(),
        request.digest.as_slice(),
    )
}

/// Whether a held lease is for a job and an attempt.
pub open spec fn attempt_verdict(
    row: LeaseRow,
    access: LeaseAccess,
    job_id: u128,
    attempt: u64,
    observed_at: i64,
    operation: StoreOperation,
) -> Result<(), StoreError> {
    match currency(row, access, observed_at) {
        Err(error) => Err(error),
        Ok(()) => if row.job_id != job_id {
            Err(StoreError::Fenced { lease: access.lease_id })
        } else if !fits_column(attempt) {
            Err(out_of_range(operation))
        } else if row.attempt_number != attempt {
            Err(StoreError::Fenced { lease: access.lease_id })
        } else {
            Ok(())
        },
    }
}

/// Requires that a lease is held for a job and an attempt.
pub fn require_attempt(
    row: &LeaseRow,
    access: &LeaseAccess,
    job_id: u128,
    attempt: u64,
    observed_at: i64,
    operation: StoreOperation,
) -> (result: Result<(), StoreError>)
    ensures
        result == attempt_verdict(*row, *access, job_id, attempt, observed_at, operation),
{
    match require_current(row, access, observed_at) {
        Ok(()) => {},
        Err(error) => {
            return Err(error);
        },
    }
    if row.job_id != job_id {
        return Err(StoreError::Fenced { lease: access.lease_id });
    }
    let number: i64 = number(attempt, operation)?;
    if row.attempt_number != number {
        return Err(StoreError::Fenced { lease: access.lease_id });
    }
    Ok(())
}

/// How much a job may put out.
#[derive(Clone, Copy, Debug, PartialEq, Eq, Structural)]
pub struct OutputLimits {
    /// Number of files.
    pub artifact_count: u32,
    /// Bytes of files.
    pub artifact_bytes: u64,
    /// Number of reports.
    pub report_count: u32,
    /// Bytes of reports.
    pub report_bytes: u64,
    /// Bytes of one output.
    pub single_output_bytes: u64,
}

/// The limits on outputs of a type: their number and their bytes.
pub open spec fn limits_for(limits: OutputLimits, artifact_type: ArtifactType) -> (u64, u64) {
    match artifact_type {
        ArtifactType::Artifact => (limits.artifact_count as u64, limits.artifact_bytes),
        ArtifactType::Report(_) => (limits.report_count as u64, limits.report_bytes),
    }
}

/// Whether one more output stays within the limits, besides what is retained.
pub open spec fn is_within_limits(
    limits: OutputLimits,
    artifact_type: ArtifactType,
    retained_count: i64,
    retained_bytes: i64,
    requested_bytes: u64,
) -> bool {
    &&& requested_bytes <= limits.single_output_bytes
    &&& retained_count >= 0
    &&& retained_count + 1 <= limits_for(limits, artifact_type).0
    &&& retained_bytes >= 0
    &&& retained_bytes + requested_bytes <= limits_for(limits, artifact_type).1
}

/// Requires that one more output stays within the limits.
pub fn enforce_output_limits(
    limits: &OutputLimits,
    artifact_type: &ArtifactType,
    retained_count: i64,
    retained_bytes: i64,
    requested_bytes: u64,
) -> (result: Result<(), StoreError>)
    ensures
        result == (if is_within_limits(*limits, *artifact_type, retained_count, retained_bytes, requested_bytes) {
            Ok::<(), StoreError>(())
        } else {
            Err(StoreError::Conflict { entity: EntityKind::Artifact })
        }),
{
    let (maximum_count, maximum_bytes) = match artifact_type {
        ArtifactType::Artifact => (limits.artifact_count as u64, limits.artifact_bytes),
        ArtifactType::Report(_) => (limits.report_count as u64, limits.report_bytes),
    };
    let exceeded = StoreError::Conflict { entity: EntityKind::Artifact };
    if requested_bytes > limits.single_output_bytes || retained_count < 0 || retained_bytes < 0 {
        return Err(exceeded);
    }
    let count: u64 = retained_count as u64 + 1;
    if count > maximum_count {
        return Err(exceeded);
    }
    match (retained_bytes as u64).checked_add(requested_bytes) {
        None => Err(exceeded),
        Some(bytes) => if bytes > maximum_bytes {
            Err(exceeded)
        } else {
            Ok(())
        },
    }
}

/// Until when a new artifact is kept, given what its build says of artifacts of its kind: until when it keeps
/// them, and whether it shows them.
pub open spec fn kept_until(row: Option<(i64, bool)>, reserved_at: i64) -> Result<i64, StoreError> {
    match row {
        None => Err(StoreError::NotFound { entity: EntityKind::Build }),
        Some((deadline, visible)) => if !is_timestamp(deadline) {
            Err(StoreError::Unavailable)
        } else if !visible || deadline <= reserved_at {
            Err(StoreError::Conflict { entity: EntityKind::Build })
        } else {
            Ok(deadline)
        },
    }
}

/// Until when a new artifact is kept: its build has to exist, show artifacts of its kind, and keep them
/// beyond now.
pub fn artifact_retention_deadline(row: Option<(i64, bool)>, reserved_at: i64) -> (result: Result<i64, StoreError>)
    ensures
        result == kept_until(row, reserved_at),
{
    match row {
        None => Err(StoreError::NotFound { entity: EntityKind::Build }),
        Some((milliseconds, visible)) => {
            let deadline: i64 = timestamp(milliseconds)?;
            if !visible || deadline <= reserved_at {
                return Err(StoreError::Conflict { entity: EntityKind::Build });
            }
            Ok(deadline)
        },
    }
}

/// What an upload meets in the database.
#[derive(Clone, Copy, Debug)]
pub struct UploadSurroundings {
    /// How much the job may put out, where its specification is valid.
    pub limits: Option<OutputLimits>,
    /// Number of its outputs of the same kind.
    pub retained_count: i64,
    /// Bytes of those.
    pub retained_bytes: i64,
    /// Until when its build keeps such outputs, and whether it shows them, where there is the build.
    pub retention: Option<(i64, bool)>,
    /// Whether what is uploaded would be a valid artifact.
    pub is_artifact: bool,
}

/// Until when an upload that is not on record is kept, where it can be reserved.
pub open spec fn reservation(request: BeginArtifactUpload, row: LeaseRow, met: UploadSurroundings) -> Result<
    i64,
    StoreError,
> {
    match met.limits {
        None => Err(StoreError::Unavailable),
        Some(limits) => if !is_within_limits(
            limits,
            request.artifact_type,
            met.retained_count,
            met.retained_bytes,
            request.size_bytes,
        ) {
            Err(StoreError::Conflict { entity: EntityKind::Artifact })
        } else if !is_identity(row.build_id) || !is_identity(row.attempt_id) {
            Err(StoreError::Unavailable)
        } else {
            match kept_until(met.retention, request.reserved_at) {
                Err(error) => Err(error),
                Ok(deadline) => if !met.is_artifact {
                    Err(not_an_artifact(StoreOperation::BeginArtifactUpload))
                } else if !fits_column(request.size_bytes) {
                    Err(out_of_range(StoreOperation::BeginArtifactUpload))
                } else {
                    Ok(deadline)
                },
            }
        },
    }
}

/// Whether an upload is what a request reserves under a lease: pending, with the build and the attempt of the
/// lease and the deadline of its build.
pub open spec fn is_reservation(
    upload: ArtifactUploadRecord,
    request: BeginArtifactUpload,
    row: LeaseRow,
    deadline: i64,
) -> bool {
    &&& upload.upload_id == request.upload_id
    &&& upload.idempotency_key@ == request.idempotency_key@
    &&& upload.producer_run_id@ == request.producer_run_id@
    &&& upload.producer_task_id@ == request.producer_task_id@
    &&& upload.transport_media_type@ == request.transport_media_type@
    &&& upload.capability_expires_at == request.capability_expires_at
    &&& upload.artifact.identity.artifact_id == request.artifact_id
    &&& upload.artifact.identity.build_id == row.build_id
    &&& upload.artifact.identity.attempt_id == row.attempt_id
    &&& upload.artifact.identity.job_id == request.job_id
    &&& upload.artifact.identity.lease_id == request.lease.lease_id
    &&& upload.artifact.identity.logical_name@ == request.logical_name@
    &&& same_type_as(upload.artifact.identity.artifact_type, request.artifact_type)
    &&& upload.artifact.identity.media_type@ == request.media_type@
    &&& upload.artifact.identity.size_bytes == request.size_bytes
    &&& upload.artifact.identity.digest@ == request.digest@
    &&& upload.artifact.identity.delete_after == Some(deadline)
    &&& upload.artifact.state == ArtifactState::Pending
    &&& upload.artifact.version == 1
    &&& upload.artifact.created_at == request.reserved_at
    &&& upload.artifact.published_at is None
    &&& upload.artifact.deleted_at is None
}

/// Reserves an upload that is not on record; its length is given as the database holds it.
pub fn reserved_upload(request: BeginArtifactUpload, row: &LeaseRow, met: &UploadSurroundings) -> (result: Result<
    (ArtifactUploadRecord, i64),
    StoreError,
>)
    ensures
        match reservation(request, *row, *met) {
            Ok(deadline) => result matches Ok(reserved) && is_reservation(reserved.0, request, *row, deadline)
                && reserved.1 == request.size_bytes,
            Err(error) => result matches Err(reported) && reported == error,
        },
{
    let limits = match met.limits {
        Some(limits) => limits,
        None => {
            return Err(StoreError::Unavailable);
        },
    };
    match enforce_output_limits(
        &limits,
        &request.artifact_type,
        met.retained_count,
        met.retained_bytes,
        request.size_bytes,
    ) {
        Ok(()) => {},
        Err(error) => {
            return Err(error);
        },
    }
    let build_id: u128 = identity(row.build_id)?;
    let attempt_id: u128 = identity(row.attempt_id)?;
    let deadline: i64 = artifact_retention_deadline(met.retention, request.reserved_at)?;
    if !met.is_artifact {
        return Err(invalid(StoreOperation::BeginArtifactUpload));
    }
    let length: i64 = number(request.size_bytes, StoreOperation::BeginArtifactUpload)?;
    let artifact = ArtifactRecord {
        identity: ArtifactIdentity {
            artifact_id: request.artifact_id,
            build_id,
            attempt_id,
            job_id: request.job_id,
            lease_id: request.lease.lease_id,
            logical_name: request.logical_name,
            artifact_type: request.artifact_type,
            media_type: request.media_type,
            size_bytes: request.size_bytes,
            digest: request.digest,
            delete_after: Some(deadline),
        },
        state: ArtifactState::Pending,
        version: 1,
        created_at: request.reserved_at,
        published_at: None,
        deleted_at: None,
    };
    let upload = ArtifactUploadRecord {
        upload_id: request.upload_id,
        idempotency_key: request.idempotency_key,
        artifact,
        producer_run_id: request.producer_run_id,
        producer_task_id: request.producer_task_id,
        transport_media_type: request.transport_media_type,
        capability_expires_at: request.capability_expires_at,
    };
    Ok((upload, length))
}

/// How an upload begins.
pub enum UploadStart {
    /// The same upload is on record.
    Replay(ArtifactUploadRecord),
    /// It is reserved, with its length as the database holds it.
    Reserve(ArtifactUploadRecord, i64),
}

/// What beginning an upload comes to, where the lease was loaded for its holder: until when a new upload is
/// kept, and nothing more where the upload is on record. `existing` is what reading the upload under the key of
/// the request gave.
pub open spec fn upload_verdict(
    request: BeginArtifactUpload,
    row: LeaseRow,
    existing: Result<Option<ArtifactUploadRecord>, StoreError>,
    met: UploadSurroundings,
) -> Result<Option<i64>, StoreError> {
    match attempt_verdict(
        row,
        request.lease,
        request.job_id,
        request.attempt,
        request.reserved_at,
        StoreOperation::BeginArtifactUpload,
    ) {
        Err(error) => Err(error),
        Ok(()) => match existing {
            Err(error) => Err(error),
            Ok(Some(existing)) => if is_same_upload(existing, request) {
                Ok(None)
            } else {
                Err(StoreError::Conflict { entity: EntityKind::ArtifactUpload })
            },
            Ok(None) => match reservation(request, row, met) {
                Ok(deadline) => Ok(Some(deadline)),
                Err(error) => Err(error),
            },
        },
    }
}

/// Whether an upload begins as its verdict says.
pub open spec fn is_upload_start(
    start: UploadStart,
    request: BeginArtifactUpload,
    row: LeaseRow,
    existing: Result<Option<ArtifactUploadRecord>, StoreError>,
    deadline: Option<i64>,
) -> bool {
    match (start, deadline) {
        (UploadStart::Replay(upload), None) => existing matches Ok(Some(existing)) && upload == existing,
        (UploadStart::Reserve(upload, length), Some(deadline)) => is_reservation(upload, request, row, deadline)
            && length == request.size_bytes,
        _ => false,
    }
}

/// Begins an upload under a lease that was loaded: under a key that was used for the same upload it is
/// repeated, under one that was used for another it is a conflict, and else it is reserved.
pub fn begin_held_upload(
    request: BeginArtifactUpload,
    row: &LeaseRow,
    existing: Result<Option<ArtifactUploadRecord>, StoreError>,
    met: &UploadSurroundings,
) -> (result: Result<UploadStart, StoreError>)
    ensures
        match upload_verdict(request, *row, existing, *met) {
            Ok(deadline) => result matches Ok(start) && is_upload_start(start, request, *row, existing, deadline),
            Err(error) => result matches Err(reported) && reported == error,
        },
{
    match require_attempt(
        row,
        &request.lease,
        request.job_id,
        request.attempt,
        request.reserved_at,
        StoreOperation::BeginArtifactUpload,
    ) {
        Ok(()) => {},
        Err(error) => {
            return Err(error);
        },
    }
    match existing {
        Err(error) => Err(error),
        Ok(Some(existing)) => {
            if !upload_matches(&existing, &request) {
                return Err(StoreError::Conflict { entity: EntityKind::ArtifactUpload });
            }
            Ok(UploadStart::Replay(existing))
        },
        Ok(None) => match reserved_upload(request, row, met) {
            Ok((upload, length)) => Ok(UploadStart::Reserve(upload, length)),
            Err(error) => Err(error),
        },
    }
}

/// Begins an upload: its capability has to outlive its reservation, and the caller has to hold the lease.
pub fn begin_upload(
    request: BeginArtifactUpload,
    row: Option<LeaseRow>,
    existing: Result<Option<ArtifactUploadRecord>, StoreError>,
    met: &UploadSurroundings,
) -> (result: Result<UploadStart, StoreError>)
    ensures
        if request.capability_expires_at <= request.reserved_at {
            result matches Err(reported) && reported == not_an_artifact(StoreOperation::BeginArtifactUpload)
        } else {
            match loaded(row, request.lease, StoreOperation::BeginArtifactUpload, sha256_of(request.lease.fence@)) {
                Err(error) => result matches Err(reported) && reported == error,
                Ok(row) => match upload_verdict(request, row, existing, *met) {
                    Ok(deadline) => result matches Ok(start) && is_upload_start(
                        start,
                        request,
                        row,
                        existing,
                        deadline,
                    ),
                    Err(error) => result matches Err(reported) && reported == error,
                },
            }
        },
{
    if request.capability_expires_at <= request.reserved_at {
        return Err(invalid(StoreOperation::BeginArtifactUpload));
    }
    match load(row, &request.lease, StoreOperation::BeginArtifactUpload) {
        Ok(row) => begin_held_upload(request, &row, existing, met),
        Err(error) => Err(error),
    }
}

/// An upload that was reserved is recognised when it is asked for again, for as long as the lease is held.
pub proof fn reserved_uploads_are_recognised(
    request: BeginArtifactUpload,
    row: LeaseRow,
    upload: ArtifactUploadRecord,
    deadline: i64,
    met: UploadSurroundings,
)
    requires
        is_reservation(upload, request, row, deadline),
    ensures
        is_same_upload(upload, request),
        upload_verdict(request, row, Ok(None), met) is Ok ==> upload_verdict(request, row, Ok(Some(upload)), met) == Ok::<
            Option<i64>,
            StoreError,
        >(None),
{
}

/// Checks the size of a page of published artifacts.
pub fn list_limit(limit: u16, maximum: u16) -> (result: Result<i64, StoreError>)
    ensures
        result == (if limit == 0 || limit > maximum {
            Err::<i64, StoreError>(not_an_artifact(StoreOperation::ListPublishedArtifacts))
        } else {
            Ok(limit as i64)
        }),
{
    if limit == 0 || limit > maximum {
        return Err(invalid(StoreOperation::ListPublishedArtifacts));
    }
    Ok(limit as i64)
}

/// Whether every upload can be read.
pub open spec fn are_readable_uploads(rows: Seq<ArtifactUploadRow>) -> bool {
    forall|i: int| 0 <= i < rows.len() ==> is_readable_upload(#[trigger] rows[i])
}

/// Reads a page of published artifacts: its size must be allowed, and one that cannot be read fails the page.
pub fn list_published(limit: u16, maximum: u16, rows: Vec<ArtifactUploadRow>) -> (result: Result<
    Vec<ArtifactUploadRecord>,
    StoreError,
>)
    ensures
        if limit == 0 || limit > maximum {
            result matches Err(error) && error == not_an_artifact(StoreOperation::ListPublishedArtifacts)
        } else {
            match result {
                Ok(uploads) => are_readable_uploads(rows@) && uploads@.len() == rows@.len() && forall|i: int|
                    0 <= i < rows@.len() ==> is_upload_of(#[trigger] uploads@[i], rows@[i]),
                Err(error) => error == StoreError::Unavailable && !are_readable_uploads(rows@),
            }
        },
{
    match list_limit(limit, maximum) {
        Ok(_) => {},
        Err(error) => {
            return Err(error);
        },
    }
    let ghost fetched = rows@;
    let mut remaining = rows;
    let mut uploads: Vec<ArtifactUploadRecord> = Vec::new();
    while remaining.len() > 0
        invariant
            0 < limit <= maximum,
            fetched == rows@,
            uploads@.len() + remaining@.len() == fetched.len(),
            remaining@ == fetched.skip(uploads@.len() as int),
            forall|i: int| 0 <= i < uploads@.len() ==> is_readable_upload(#[trigger] fetched[i]),
            forall|i: int| 0 <= i < uploads@.len() ==> is_upload_of(#[trigger] uploads@[i], fetched[i]),
        decreases remaining@.len(),
    {
        let ghost at = uploads@.len() as int;
        let row = remaining.remove(0);
        assert(row == fetched[at]);
        match decode_upload(row) {
            Ok(upload) => {
                uploads.push(upload);
            },
            Err(error) => {
                assert(!is_readable_upload(rows@[at]));
                return Err(error);
            },
        }
        assert(remaining@ =~= fetched.skip(uploads@.len() as int));
    }
    Ok(uploads)
}

/// What checking an upload's content showed.
#[derive(Clone, Copy, Debug, PartialEq, Eq, Structural)]
pub enum ArtifactVerificationResult {
    /// It is as announced.
    Verified,
    /// It is not.
    Rejected,
}

/// What verification does to an artifact: nothing where that was done before. Without a result
/// verification begins, with one it ends.
pub open spec fn verification_step(result: Option<ArtifactVerificationResult>, state: ArtifactState) -> Result<
    Option<ArtifactEvent>,
    StoreError,
> {
    match (result, state) {
        (None, ArtifactState::Pending) => Ok(Some(ArtifactEvent::BeginVerification)),
        (None, ArtifactState::Verifying) => Ok(None),
        (None, ArtifactState::Published) => Ok(None),
        (Some(ArtifactVerificationResult::Verified), ArtifactState::Verifying) => Ok(Some(ArtifactEvent::Publish)),
        (Some(ArtifactVerificationResult::Verified), ArtifactState::Published) => Ok(None),
        (Some(ArtifactVerificationResult::Rejected), ArtifactState::Verifying) => Ok(
            Some(ArtifactEvent::VerificationFailed),
        ),
        (Some(ArtifactVerificationResult::Rejected), ArtifactState::Pending) => Ok(None),
        _ => Err(StoreError::Conflict { entity: EntityKind::ArtifactUpload }),
    }
}

/// Decides what verification does to an artifact.
pub fn verification_event(result: Option<ArtifactVerificationResult>, state: ArtifactState) -> (event: Result<
    Option<ArtifactEvent>,
    StoreError,
>)
    ensures
        event == verification_step(result, state),
{
    match (result, state) {
        (None, ArtifactState::Pending) => Ok(Some(ArtifactEvent::BeginVerification)),
        (None, ArtifactState::Verifying) => Ok(None),
        (None, ArtifactState::Published) => Ok(None),
        (Some(ArtifactVerificationResult::Verified), ArtifactState::Verifying) => Ok(Some(ArtifactEvent::Publish)),
        (Some(ArtifactVerificationResult::Verified), ArtifactState::Published) => Ok(None),
        (Some(ArtifactVerificationResult::Rejected), ArtifactState::Verifying) => Ok(
            Some(ArtifactEvent::VerificationFailed),
        ),
        (Some(ArtifactVerificationResult::Rejected), ArtifactState::Pending) => Ok(None),
        _ => Err(StoreError::Conflict { entity: EntityKind::ArtifactUpload }),
    }
}

/// An artifact is published only after its content was checked, and an expired or deleted one is
/// neither checked nor published any more.
pub proof fn only_verified_content_is_published(result: Option<ArtifactVerificationResult>, state: ArtifactState)
    ensures
        verification_step(result, state) == Ok::<Option<ArtifactEvent>, StoreError>(Some(ArtifactEvent::Publish))
            ==> state == ArtifactState::Verifying && result == Some(ArtifactVerificationResult::Verified),
        state == ArtifactState::Expired || state == ArtifactState::Deleted ==> verification_step(result, state)
            is Err,
{
}

/// A request to begin or to end the verification of an upload.
pub struct VerifyArtifactUpload {
    /// The lease and who presents it.
    pub lease: LeaseAccess,
    /// The upload.
    pub upload_id: u128,
    /// Its job.
    pub job_id: u128,
    /// Number of the attempt.
    pub attempt: u64,
    /// When that is.
    pub observed_at: i64,
}

/// The operation that begins verification, or ends it with a result.
pub open spec fn verification_operation(result: Option<ArtifactVerificationResult>) -> StoreOperation {
    if result is Some {
        StoreOperation::FinishArtifactVerification
    } else {
        StoreOperation::BeginArtifactVerification
    }
}

/// What changing the verification of an upload comes to before its state is looked at, where the lease
/// was loaded for its holder.
pub open spec fn verification_access(
    request: VerifyArtifactUpload,
    row: LeaseRow,
    upload: Option<ArtifactUploadRow>,
    operation: StoreOperation,
) -> Result<(), StoreError> {
    match attempt_verdict(row, request.lease, request.job_id, request.attempt, request.observed_at, operation) {
        Err(error) => Err(error),
        Ok(()) => match upload {
            None => Err(StoreError::NotFound { entity: EntityKind::ArtifactUpload }),
            Some(row) => if !row.component_visible {
                Err(StoreError::Conflict { entity: EntityKind::Artifact })
            } else if !is_readable_upload(row) {
                Err(StoreError::Unavailable)
            } else if row.artifact.lease_id != request.lease.lease_id || row.artifact.job_id != request.job_id {
                Err(StoreError::Fenced { lease: request.lease.lease_id })
            } else {
                Ok(())
            },
        },
    }
}

/// Whether the verification of a readable upload changes as its state allows.
pub open spec fn is_verification_change(
    outcome: Result<(ArtifactUploadRecord, Option<ArtifactEvent>), StoreError>,
    upload: ArtifactUploadRow,
    result: Option<ArtifactVerificationResult>,
) -> bool {
    match outcome {
        Ok((record, event)) => is_upload_of(record, upload) && verification_step(result, record.artifact.state) == Ok::<
            Option<ArtifactEvent>,
            StoreError,
        >(event),
        Err(error) => exists|state: ArtifactState| #[trigger]
            artifact_state_text(state) == upload.artifact.state@ && verification_step(result, state) == Err::<
                Option<ArtifactEvent>,
                StoreError,
            >(error),
    }
}

/// Opens an upload for a change of its verification under a lease that was loaded, and says what happens to its
/// artifact.
pub fn change_held_verification(
    request: &VerifyArtifactUpload,
    row: &LeaseRow,
    upload: Option<ArtifactUploadRow>,
    result: Option<ArtifactVerificationResult>,
) -> (outcome: Result<(ArtifactUploadRecord, Option<ArtifactEvent>), StoreError>)
    ensures
        match verification_access(*request, *row, upload, verification_operation(result)) {
            Err(error) => outcome matches Err(reported) && reported == error,
            Ok(()) => is_verification_change(outcome, upload->Some_0, result),
        },
{
    let operation = if result.is_some() {
        StoreOperation::FinishArtifactVerification
    } else {
        StoreOperation::BeginArtifactVerification
    };
    match require_attempt(row, &request.lease, request.job_id, request.attempt, request.observed_at, operation) {
        Ok(()) => {},
        Err(error) => {
            return Err(error);
        },
    }
    let found = match upload {
        Some(found) => found,
        None => {
            return Err(StoreError::NotFound { entity: EntityKind::ArtifactUpload });
        },
    };
    if !found.component_visible {
        return Err(StoreError::Conflict { entity: EntityKind::Artifact });
    }
    let record = decode_upload(found)?;
    if record.artifact.identity.lease_id != request.lease.lease_id || record.artifact.identity.job_id
        != request.job_id {
        return Err(StoreError::Fenced { lease: request.lease.lease_id });
    }
    assert(artifact_state_text(record.artifact.state) == upload->Some_0.artifact.state@);
    match verification_event(result, record.artifact.state) {
        Ok(event) => Ok((record, event)),
        Err(error) => Err(error),
    }
}

/// Opens an upload for a change of its verification, and says what happens to its artifact: the caller has to
/// hold the lease.
pub fn change_verification(
    request: &VerifyArtifactUpload,
    row: Option<LeaseRow>,
    upload: Option<ArtifactUploadRow>,
    result: Option<ArtifactVerificationResult>,
) -> (outcome: Result<(ArtifactUploadRecord, Option<ArtifactEvent>), StoreError>)
    ensures
        match loaded(row, request.lease, verification_operation(result), sha256_of(request.lease.fence@)) {
            Err(error) => outcome matches Err(reported) && reported == error,
            Ok(row) => match verification_access(*request, row, upload, verification_operation(result)) {
                Err(error) => outcome matches Err(reported) && reported == error,
                Ok(()) => is_verification_change(outcome, upload->Some_0, result),
            },
        },
{
    let operation = if result.is_some() {
        StoreOperation::FinishArtifactVerification
    } else {
        StoreOperation::BeginArtifactVerification
    };
    match load(row, &request.lease, operation) {
        Ok(row) => change_held_verification(request, &row, upload, result),
        Err(error) => Err(error),
    }
}

/// When an upload is recorded as completed: where its artifact was published just now.
pub fn completed_at(event: ArtifactEvent, published_at: Option<i64>) -> (completed_at: Option<i64>)
    ensures
        completed_at == (if event == ArtifactEvent::Publish {
            published_at
        } else {
            None
        }),
{
    if event == ArtifactEvent::Publish {
        published_at
    } else {
        None
    }
}

/// What retention does to an artifact before its content is deleted; a deleted one is not met.
pub open spec fn retention_step(state: ArtifactState) -> Result<Option<ArtifactEvent>, StoreError> {
    match state {
        ArtifactState::Published => Ok(Some(ArtifactEvent::Expire)),
        ArtifactState::Verifying => Ok(Some(ArtifactEvent::VerificationFailed)),
        ArtifactState::Pending => Ok(None),
        ArtifactState::Expired => Ok(None),
        ArtifactState::Deleted => Err(StoreError::Unavailable),
    }
}

/// Decides what retention does to an artifact before its content is deleted.
pub fn retention_event(state: ArtifactState) -> (event: Result<Option<ArtifactEvent>, StoreError>)
    ensures
        event == retention_step(state),
{
    match state {
        ArtifactState::Published => Ok(Some(ArtifactEvent::Expire)),
        ArtifactState::Verifying => Ok(Some(ArtifactEvent::VerificationFailed)),
        ArtifactState::Pending => Ok(None),
        ArtifactState::Expired => Ok(None),
        ArtifactState::Deleted => Err(StoreError::Unavailable),
    }
}

/// The state that a readable upload is in.
pub open spec fn state_in(row: ArtifactUploadRow) -> ArtifactState {
    choose|state: ArtifactState| row.artifact.state@ == #[trigger] artifact_state_text(state)
}

/// The reason for which retention cannot prepare an upload, where there is one. `transitioned` is what its artifact
/// becomes, where the change is in order.
pub open spec fn preparation_refusal(row: ArtifactUploadRow, transitioned: Option<ArtifactRecord>) -> Option<StoreError> {
    if !is_readable_upload(row) {
        Some(StoreError::Unavailable)
    } else {
        match retention_step(state_in(row)) {
            Err(error) => Some(error),
            Ok(None) => None,
            Ok(Some(_)) => match transitioned {
                None => Some(StoreError::Conflict { entity: EntityKind::Artifact }),
                Some(record) => if record.version == 0 {
                    Some(StoreError::Unavailable)
                } else if !fits_column(record.version) {
                    Some(out_of_range(StoreOperation::PrepareRetentionWork))
                } else {
                    None
                },
            },
        }
    }
}

/// What retention does to an artifact before its content is deleted.
pub struct ArtifactPreparation {
    /// What happens to it.
    pub event: ArtifactEvent,
    /// The version to store.
    pub version: i64,
    /// The version that this replaces.
    pub previous_version: i64,
}

/// An upload that retention has prepared.
pub struct PreparedUpload {
    /// The upload, with its artifact as it is from now on.
    pub upload: ArtifactUploadRecord,
    /// What is written of its artifact; nothing where that stays as it is.
    pub change: Option<ArtifactPreparation>,
}

/// Whether an upload was prepared as its row and the transition of its artifact say.
pub open spec fn is_prepared(prepared: PreparedUpload, row: ArtifactUploadRow, transitioned: Option<ArtifactRecord>) -> bool {
    &&& prepared.upload.upload_id == row.upload_id
    &&& prepared.upload.idempotency_key@ == row.idempotency_key@
    &&& prepared.upload.producer_run_id@ == row.producer_run_id@
    &&& prepared.upload.producer_task_id@ == row.producer_task_id@
    &&& prepared.upload.transport_media_type@ == row.transport_media_type@
    &&& prepared.upload.capability_expires_at == row.capability_expires_at_millis
    &&& match retention_step(state_in(row)) {
        Ok(Some(event)) => {
            &&& Some(prepared.upload.artifact) == transitioned
            &&& prepared.change matches Some(change) && change.event == event && change.version
                == prepared.upload.artifact.version && change.previous_version == prepared.upload.artifact.version - 1
        },
        _ => prepared.change is None && is_artifact_of(prepared.upload.artifact, row.artifact),
    }
}

/// Prepares an upload whose time is up.
pub fn prepare_upload(row: ArtifactUploadRow, transitioned: Option<ArtifactRecord>) -> (result: Result<
    PreparedUpload,
    StoreError,
>)
    ensures
        match preparation_refusal(row, transitioned) {
            None => result matches Ok(prepared) && is_prepared(prepared, row, transitioned),
            Some(refusal) => result matches Err(error) && error == refusal,
        },
{
    let upload = decode_upload(row)?;
    proof {
        assert(row.artifact.state@ == artifact_state_text(upload.artifact.state));
        artifact_state_text_names_one_value(state_in(row), upload.artifact.state);
    }
    let event = match retention_event(upload.artifact.state) {
        Ok(event) => event,
        Err(error) => {
            return Err(error);
        },
    };
    match event {
        None => Ok(PreparedUpload { upload, change: None }),
        Some(event) => match transitioned {
            None => Err(StoreError::Conflict { entity: EntityKind::Artifact }),
            Some(artifact) => {
                let previous: u64 = previous_version(artifact.version)?;
                let (version, previous_version) = update_numbers(
                    artifact.version,
                    previous,
                    StoreOperation::PrepareRetentionWork,
                )?;
                Ok(
                    PreparedUpload {
                        upload: ArtifactUploadRecord { artifact, ..upload },
                        change: Some(ArtifactPreparation { event, version, previous_version }),
                    },
                )
            },
        },
    }
}

/// A row of a page of uploads whose time is up.
pub struct RetentionRow {
    /// The upload.
    pub upload: ArtifactUploadRow,
    /// What its artifact becomes, where the change is in order.
    pub transitioned: Option<ArtifactRecord>,
    /// How many rows the change wrote, where there is one.
    pub updated_rows: u64,
}

/// The reason for which a row fails its page, where there is one: that it cannot be prepared, or that its change did
/// not reach the artifact.
pub open spec fn retention_refusal(row: RetentionRow) -> Option<StoreError> {
    match preparation_refusal(row.upload, row.transitioned) {
        Some(error) => Some(error),
        None => if retention_step(state_in(row.upload)) != Ok::<Option<ArtifactEvent>, StoreError>(None)
            && row.updated_rows != 1 {
            Some(StoreError::Conflict { entity: EntityKind::Artifact })
        } else {
            None
        },
    }
}

/// The reason for which a page fails, where there is one: that of the first row that has one.
pub open spec fn page_refusal(rows: Seq<RetentionRow>) -> Option<StoreError> {
    first_refusal(rows.map_values(|row: RetentionRow| retention_refusal(row)))
}

/// Prepares a page of uploads whose time is up, row by row: the first that fails decides the error.
pub fn retention_page(rows: Vec<RetentionRow>) -> (result: Result<Vec<PreparedUpload>, StoreError>)
    ensures
        match page_refusal(rows@) {
            None => result matches Ok(prepared) && prepared@.len() == rows@.len() && forall|i: int|
                0 <= i < rows@.len() ==> is_prepared(#[trigger] prepared@[i], rows@[i].upload, rows@[i].transitioned),
            Some(refusal) => result matches Err(error) && error == refusal,
        },
{
    let ghost refusals = rows@.map_values(|row: RetentionRow| retention_refusal(row));
    let ghost met = rows@;
    let mut remaining = rows;
    let mut prepared: Vec<PreparedUpload> = Vec::new();
    while remaining.len() > 0
        invariant
            met == rows@,
            refusals == met.map_values(|row: RetentionRow| retention_refusal(row)),
            prepared@.len() + remaining@.len() == met.len(),
            remaining@ == met.skip(prepared@.len() as int),
            forall|i: int| 0 <= i < prepared@.len() ==> (#[trigger] refusals[i]) is None,
            forall|i: int|
                0 <= i < prepared@.len() ==> is_prepared(#[trigger] prepared@[i], met[i].upload, met[i].transitioned),
        decreases remaining@.len(),
    {
        let ghost at = prepared@.len() as int;
        let row = remaining.remove(0);
        assert(row == met[at]);
        assert(refusals[at] == retention_refusal(row));
        proof {
            if refusals[at] is Some {
                first_refusal_decides(refusals, at);
            }
        }
        let updated_rows: u64 = row.updated_rows;
        let one = match prepare_upload(row.upload, row.transitioned) {
            Ok(one) => one,
            Err(error) => {
                return Err(error);
            },
        };
        if one.change.is_some() && updated_rows != 1 {
            return Err(StoreError::Conflict { entity: EntityKind::Artifact });
        }
        prepared.push(one);
        assert(remaining@ =~= met.skip(prepared@.len() as int));
    }
    proof {
        no_refusal_remains(refusals);
    }
    Ok(prepared)
}

/// What completing the retention of an artifact does: a deleted one stays as it is, and one that is
/// still in use is a conflict.
pub open spec fn deletion_step(state: ArtifactState) -> Result<Option<ArtifactEvent>, StoreError> {
    match state {
        ArtifactState::Deleted => Ok(None),
        ArtifactState::Pending => Ok(Some(ArtifactEvent::Delete)),
        ArtifactState::Expired => Ok(Some(ArtifactEvent::Delete)),
        _ => Err(StoreError::Conflict { entity: EntityKind::Artifact }),
    }
}

/// Decides what completing the retention of an artifact does.
pub fn complete_retention(state: ArtifactState) -> (event: Result<Option<ArtifactEvent>, StoreError>)
    ensures
        event == deletion_step(state),
{
    match state {
        ArtifactState::Deleted => Ok(None),
        ArtifactState::Pending => Ok(Some(ArtifactEvent::Delete)),
        ArtifactState::Expired => Ok(Some(ArtifactEvent::Delete)),
        _ => Err(StoreError::Conflict { entity: EntityKind::Artifact }),
    }
}

/// An artifact that retention has prepared can be deleted: what it is left in is never refused.
pub proof fn prepared_artifacts_can_be_deleted(state: ArtifactState)
    requires
        retention_step(state) == Ok::<Option<ArtifactEvent>, StoreError>(None),
    ensures
        deletion_step(state) == Ok::<Option<ArtifactEvent>, StoreError>(Some(ArtifactEvent::Delete)),
{
}

/// The statement that reads an artifact, and locks it where it is about to change.
pub fn artifact_select(for_update: bool) -> (sql: &'static str)
    ensures
        sql@ == (if for_update {
            locking_select()
        } else {
            plain_select()
        }),
{
    if for_update {
        "SELECT id, build_id, attempt_id, job_id, lease_id, logical_name, artifact_type, media_type, report_format, byte_length, sha256, state, version, FLOOR(EXTRACT(EPOCH FROM retention_until) * 1000)::BIGINT AS retention_until_millis, FLOOR(EXTRACT(EPOCH FROM created_at) * 1000)::BIGINT AS created_at_millis, FLOOR(EXTRACT(EPOCH FROM published_at) * 1000)::BIGINT AS published_at_millis, FLOOR(EXTRACT(EPOCH FROM deleted_at) * 1000)::BIGINT AS deleted_at_millis FROM artifacts WHERE id = $1 FOR UPDATE"
    } else {
        "SELECT id, build_id, attempt_id, job_id, lease_id, logical_name, artifact_type, media_type, report_format, byte_length, sha256, state, version, FLOOR(EXTRACT(EPOCH FROM retention_until) * 1000)::BIGINT AS retention_until_millis, FLOOR(EXTRACT(EPOCH FROM created_at) * 1000)::BIGINT AS created_at_millis, FLOOR(EXTRACT(EPOCH FROM published_at) * 1000)::BIGINT AS published_at_millis, FLOOR(EXTRACT(EPOCH FROM deleted_at) * 1000)::BIGINT AS deleted_at_millis FROM artifacts WHERE id = $1"
    }
}

/// The statement that reads an artifact.
pub open spec fn plain_select() -> Seq<char> {
    "SELECT id, build_id, attempt_id, job_id, lease_id, logical_name, artifact_type, media_type, report_format, byte_length, sha256, state, version, FLOOR(EXTRACT(EPOCH FROM retention_until) * 1000)::BIGINT AS retention_until_millis, FLOOR(EXTRACT(EPOCH FROM created_at) * 1000)::BIGINT AS created_at_millis, FLOOR(EXTRACT(EPOCH FROM published_at) * 1000)::BIGINT AS published_at_millis, FLOOR(EXTRACT(EPOCH FROM deleted_at) * 1000)::BIGINT AS deleted_at_millis FROM artifacts WHERE id = $1"@
}

/// The statement that reads and locks an artifact.
pub open spec fn locking_select() -> Seq<char> {
    "SELECT id, build_id, attempt_id, job_id, lease_id, logical_name, artifact_type, media_type, report_format, byte_length, sha256, state, version, FLOOR(EXTRACT(EPOCH FROM retention_until) * 1000)::BIGINT AS retention_until_millis, FLOOR(EXTRACT(EPOCH FROM created_at) * 1000)::BIGINT AS created_at_millis, FLOOR(EXTRACT(EPOCH FROM published_at) * 1000)::BIGINT AS published_at_millis, FLOOR(EXTRACT(EPOCH FROM deleted_at) * 1000)::BIGINT AS deleted_at_millis FROM artifacts WHERE id = $1 FOR UPDATE"@
}

/// An artifact is admitted exactly where it is not too long by itself, and the job's artifacts leave room for one
/// more and for its bytes; a report exactly where the same holds of the job's reports.
pub proof fn outputs_are_limited_by_their_type(
    limits: OutputLimits,
    format: String,
    retained_count: i64,
    retained_bytes: i64,
    requested_bytes: u64,
)
    ensures
        is_within_limits(limits, ArtifactType::Artifact, retained_count, retained_bytes, requested_bytes) <==> {
            &&& requested_bytes <= limits.single_output_bytes
            &&& 0 <= retained_count < limits.artifact_count
            &&& 0 <= retained_bytes
            &&& retained_bytes + requested_bytes <= limits.artifact_bytes
        },
        is_within_limits(limits, ArtifactType::Report(format), retained_count, retained_bytes, requested_bytes) <==> {
            &&& requested_bytes <= limits.single_output_bytes
            &&& 0 <= retained_count < limits.report_count
            &&& 0 <= retained_bytes
            &&& retained_bytes + requested_bytes <= limits.report_bytes
        },
{
}

/// The verdict on a report does not depend on what artifacts may take up, nor that on an artifact on what reports
/// may.
pub proof fn types_do_not_share_limits(
    limits: OutputLimits,
    other: OutputLimits,
    format: String,
    retained_count: i64,
    retained_bytes: i64,
    requested_bytes: u64,
)
    requires
        limits.single_output_bytes == other.single_output_bytes,
    ensures
        limits.report_count == other.report_count && limits.report_bytes == other.report_bytes ==> is_within_limits(
            limits,
            ArtifactType::Report(format),
            retained_count,
            retained_bytes,
            requested_bytes,
        ) == is_within_limits(other, ArtifactType::Report(format), retained_count, retained_bytes, requested_bytes),
        limits.artifact_count == other.artifact_count && limits.artifact_bytes == other.artifact_bytes
            ==> is_within_limits(limits, ArtifactType::Artifact, retained_count, retained_bytes, requested_bytes)
            == is_within_limits(other, ArtifactType::Artifact, retained_count, retained_bytes, requested_bytes),
{
}

/// An output that is admitted leaves the job within its limits: with it, its count and its bytes are still allowed.
pub proof fn admitted_outputs_keep_the_limits(
    limits: OutputLimits,
    artifact_type: ArtifactType,
    retained_count: i64,
    retained_bytes: i64,
    requested_bytes: u64,
)
    requires
        is_within_limits(limits, artifact_type, retained_count, retained_bytes, requested_bytes),
    ensures
        artifact_type is Artifact ==> retained_count + 1 <= limits.artifact_count && retained_bytes + requested_bytes
            <= limits.artifact_bytes,
        artifact_type is Report ==> retained_count + 1 <= limits.report_count && retained_bytes + requested_bytes
            <= limits.report_bytes,
{
}

/// An artifact is worked on exactly under the held lease of its own job, attempt and build.
pub proof fn artifacts_are_worked_on_under_their_lease(
    row: LeaseRow,
    access: LeaseAccess,
    observed_at: i64,
    artifact: ArtifactIdentity,
)
    ensures
        work_verdict(row, access, observed_at, artifact) is Ok <==> {
            &&& !row.expired && observed_at < row.expires_at_millis
            &&& row.state@ == "active"@ || row.state@ == "cancellation_requested"@ || row.state@ == "drain_requested"@
            &&& row.job_id == artifact.job_id && row.attempt_id == artifact.attempt_id && row.build_id
                == artifact.build_id
            &&& access.lease_id == artifact.lease_id
        },
        work_verdict(row, access, observed_at, artifact) matches Err(error) ==> error == (if row.expired || row.state@
            == "expired"@ || observed_at >= row.expires_at_millis {
            StoreError::Expired { lease: access.lease_id }
        } else {
            StoreError::Fenced { lease: access.lease_id }
        }),
{
    current_states_are_not_expired();
}

/// An upload goes on exactly under the held lease of its job, for the attempt that the lease is for.
pub proof fn uploads_go_on_for_their_attempt(
    row: LeaseRow,
    access: LeaseAccess,
    job_id: u128,
    attempt: u64,
    observed_at: i64,
    operation: StoreOperation,
)
    ensures
        attempt_verdict(row, access, job_id, attempt, observed_at, operation) is Ok <==> {
            &&& !row.expired && observed_at < row.expires_at_millis
            &&& row.state@ == "active"@ || row.state@ == "cancellation_requested"@ || row.state@ == "drain_requested"@
            &&& row.job_id == job_id
            &&& row.attempt_number == attempt
        },
        attempt <= i64::MAX && attempt_verdict(row, access, job_id, attempt, observed_at, operation) is Err
            ==> attempt_verdict(row, access, job_id, attempt, observed_at, operation) == Err::<(), StoreError>(
            if row.expired || row.state@ == "expired"@ || observed_at >= row.expires_at_millis {
                StoreError::Expired { lease: access.lease_id }
            } else {
                StoreError::Fenced { lease: access.lease_id }
            },
        ),
{
    current_states_are_not_expired();
}

/// An output is kept until the deadline of its build's part, where that is still shown and not over.
pub proof fn outputs_are_kept_until_the_deadline(deadline: i64, visible: bool, reserved_at: i64)
    requires
        is_timestamp(deadline),
    ensures
        kept_until(Some((deadline, visible)), reserved_at) == (if visible && reserved_at < deadline {
            Ok::<i64, StoreError>(deadline)
        } else {
            Err(StoreError::Conflict { entity: EntityKind::Build })
        }),
        kept_until(None, reserved_at) == Err::<i64, StoreError>(StoreError::NotFound { entity: EntityKind::Build }),
{
}

/// A new upload is reserved exactly where it is within the limits on its type, its build still shows that part of
/// the result, and it is an artifact whose length can be stored. It is kept as long as that part.
pub proof fn uploads_within_limits_are_reserved(request: BeginArtifactUpload, row: LeaseRow, met: UploadSurroundings)
    requires
        is_identity(row.build_id),
        is_identity(row.attempt_id),
        met.retention matches Some((deadline, _)) ==> is_timestamp(deadline),
    ensures
        reservation(request, row, met) is Ok <==> {
            &&& met.limits is Some
            &&& request.size_bytes <= met.limits->Some_0.single_output_bytes
            &&& 0 <= met.retained_count && 0 <= met.retained_bytes
            &&& match request.artifact_type {
                ArtifactType::Artifact => met.retained_count < met.limits->Some_0.artifact_count && met.retained_bytes
                    + request.size_bytes <= met.limits->Some_0.artifact_bytes,
                ArtifactType::Report(_) => met.retained_count < met.limits->Some_0.report_count && met.retained_bytes
                    + request.size_bytes <= met.limits->Some_0.report_bytes,
            }
            &&& met.retention is Some && met.retention->Some_0.1 && request.reserved_at < met.retention->Some_0.0
            &&& met.is_artifact
            &&& request.size_bytes <= i64::MAX
        },
        reservation(request, row, met) matches Ok(deadline) ==> deadline == met.retention->Some_0.0,
{
}

/// A reserved upload waits for its content: it is pending, in its first version, of the job, the lease and the
/// content that were named, and in the build and the attempt of the lease.
pub proof fn reserved_uploads_are_pending(
    upload: ArtifactUploadRecord,
    request: BeginArtifactUpload,
    row: LeaseRow,
    deadline: i64,
)
    requires
        is_reservation(upload, request, row, deadline),
    ensures
        upload.artifact.state == ArtifactState::Pending && upload.artifact.version == 1,
        upload.artifact.published_at is None && upload.artifact.deleted_at is None,
        upload.upload_id == request.upload_id && upload.artifact.identity.artifact_id == request.artifact_id,
        upload.artifact.identity.job_id == request.job_id && upload.artifact.identity.lease_id
            == request.lease.lease_id,
        upload.artifact.identity.build_id == row.build_id && upload.artifact.identity.attempt_id == row.attempt_id,
        upload.artifact.identity.size_bytes == request.size_bytes && upload.artifact.identity.digest@
            == request.digest@,
        upload.artifact.identity.logical_name@ == request.logical_name@,
        upload.artifact.identity.artifact_type is Report <==> request.artifact_type is Report,
        upload.artifact.identity.delete_after == Some(deadline),
        upload.artifact.created_at == request.reserved_at,
        upload.capability_expires_at == request.capability_expires_at,
{
}

/// An upload on record is the one that is begun again exactly where they agree on the job, the lease, the producer
/// and everything about the content. Begun again it is answered with what is on record; another one under the same
/// key is a conflict.
pub proof fn uploads_are_begun_once(
    request: BeginArtifactUpload,
    row: LeaseRow,
    existing: ArtifactUploadRecord,
    met: UploadSurroundings,
)
    requires
        !row.expired && request.reserved_at < row.expires_at_millis,
        row.state@ == "active"@ || row.state@ == "cancellation_requested"@ || row.state@ == "drain_requested"@,
        row.job_id == request.job_id,
        row.attempt_number == request.attempt,
    ensures
        ({
            let identity = existing.artifact.identity;
            let same = identity.lease_id == request.lease.lease_id && identity.job_id == request.job_id
                && identity.logical_name@ == request.logical_name@ && identity.media_type@ == request.media_type@
                && identity.size_bytes == request.size_bytes && identity.digest@ == request.digest@
                && existing.producer_run_id@ == request.producer_run_id@ && existing.producer_task_id@
                == request.producer_task_id@ && existing.transport_media_type@ == request.transport_media_type@ && (
            identity.artifact_type is Report <==> request.artifact_type is Report) && (identity.artifact_type is Report
                ==> identity.artifact_type->Report_0@ == request.artifact_type->Report_0@);
            upload_verdict(request, row, Ok(Some(existing)), met) == (if same {
                Ok::<Option<i64>, StoreError>(None)
            } else {
                Err(StoreError::Conflict { entity: EntityKind::ArtifactUpload })
            })
        }),
        forall|start: UploadStart|
            is_upload_start(start, request, row, Ok(Some(existing)), None) <==> start == UploadStart::Replay(existing),
{
    current_states_are_not_expired();
}

/// A new upload under the held lease of its attempt is decided by its reservation alone.
pub proof fn new_uploads_are_reserved(request: BeginArtifactUpload, row: LeaseRow, met: UploadSurroundings, length: i64)
    requires
        !row.expired && request.reserved_at < row.expires_at_millis,
        row.state@ == "active"@ || row.state@ == "cancellation_requested"@ || row.state@ == "drain_requested"@,
        row.job_id == request.job_id,
        row.attempt_number == request.attempt,
    ensures
        reservation(request, row, met) matches Ok(deadline) ==> upload_verdict(request, row, Ok(None), met) == Ok::<
            Option<i64>,
            StoreError,
        >(Some(deadline)),
        reservation(request, row, met) matches Err(error) ==> upload_verdict(request, row, Ok(None), met) == Err::<
            Option<i64>,
            StoreError,
        >(error),
        forall|start: UploadStart, deadline: i64|
            is_upload_start(start, request, row, Ok(None), Some(deadline)) ==> start is Reserve && start->Reserve_1
                == request.size_bytes && start->Reserve_0.artifact.identity.delete_after == Some(deadline),
{
    current_states_are_not_expired();
}

/// How the content of an upload is verified: an upload that waits is taken up, content that was found right is
/// published, and content that was found wrong sends the upload back. The same verdict again changes nothing, and
/// every other is a conflict.
pub proof fn verified_content_is_published(state: ArtifactState)
    ensures
        verification_step(None, ArtifactState::Pending) == Ok::<Option<ArtifactEvent>, StoreError>(
            Some(ArtifactEvent::BeginVerification),
        ),
        verification_step(Some(ArtifactVerificationResult::Verified), ArtifactState::Verifying) == Ok::<
            Option<ArtifactEvent>,
            StoreError,
        >(Some(ArtifactEvent::Publish)),
        verification_step(Some(ArtifactVerificationResult::Rejected), ArtifactState::Verifying) == Ok::<
            Option<ArtifactEvent>,
            StoreError,
        >(Some(ArtifactEvent::VerificationFailed)),
        verification_step(None, state) == Ok::<Option<ArtifactEvent>, StoreError>(None) <==> state
            == ArtifactState::Verifying || state == ArtifactState::Published,
        verification_step(Some(ArtifactVerificationResult::Verified), state) == Ok::<Option<ArtifactEvent>, StoreError>(
            None,
        ) <==> state == ArtifactState::Published,
        verification_step(Some(ArtifactVerificationResult::Rejected), state) == Ok::<Option<ArtifactEvent>, StoreError>(
            None,
        ) <==> state == ArtifactState::Pending,
        forall|result: Option<ArtifactVerificationResult>| #[trigger]
            verification_step(result, state) matches Err(error) ==> error == (StoreError::Conflict {
                entity: EntityKind::ArtifactUpload,
            }),
        verification_step(Some(ArtifactVerificationResult::Verified), state) is Err <==> state != ArtifactState::Verifying
            && state != ArtifactState::Published,
        verification_step(Some(ArtifactVerificationResult::Rejected), state) is Err <==> state != ArtifactState::Verifying
            && state != ArtifactState::Pending,
        verification_step(None, state) is Err <==> state == ArtifactState::Expired || state == ArtifactState::Deleted,
{
}

/// An upload is verified exactly under the held lease of its own job and attempt, and while its part of the result
/// is shown.
pub proof fn uploads_are_verified_by_their_job(
    request: VerifyArtifactUpload,
    row: LeaseRow,
    upload: ArtifactUploadRow,
    operation: StoreOperation,
)
    requires
        is_readable_upload(upload),
    ensures
        verification_access(request, row, Some(upload), operation) is Ok <==> {
            &&& !row.expired && request.observed_at < row.expires_at_millis
            &&& row.state@ == "active"@ || row.state@ == "cancellation_requested"@ || row.state@ == "drain_requested"@
            &&& row.job_id == request.job_id && row.attempt_number == request.attempt
            &&& upload.component_visible
            &&& upload.artifact.lease_id == request.lease.lease_id && upload.artifact.job_id == request.job_id
        },
        verification_access(request, row, None, operation) is Err,
{
    current_states_are_not_expired();
}

/// What is kept no longer is taken back before it is deleted: what is published expires and what is being verified
/// is sent back, and only what is pending or expired is deleted. What is deleted stays so.
pub proof fn published_artifacts_expire_before_they_are_deleted(state: ArtifactState)
    ensures
        retention_step(state) == Ok::<Option<ArtifactEvent>, StoreError>(Some(ArtifactEvent::Expire)) <==> state
            == ArtifactState::Published,
        retention_step(state) == Ok::<Option<ArtifactEvent>, StoreError>(Some(ArtifactEvent::VerificationFailed)) <==> state
            == ArtifactState::Verifying,
        retention_step(state) == Ok::<Option<ArtifactEvent>, StoreError>(None) <==> state == ArtifactState::Pending
            || state == ArtifactState::Expired,
        retention_step(state) == Err::<Option<ArtifactEvent>, StoreError>(StoreError::Unavailable) <==> state
            == ArtifactState::Deleted,
        deletion_step(state) == Ok::<Option<ArtifactEvent>, StoreError>(Some(ArtifactEvent::Delete)) <==> state
            == ArtifactState::Pending || state == ArtifactState::Expired,
        deletion_step(state) == Ok::<Option<ArtifactEvent>, StoreError>(None) <==> state == ArtifactState::Deleted,
        deletion_step(state) == Err::<Option<ArtifactEvent>, StoreError>(
            StoreError::Conflict { entity: EntityKind::Artifact },
        ) <==> state == ArtifactState::Published || state == ArtifactState::Verifying,
{
}

/// An artifact on record is moved on exactly where the caller may and its state admits it; it is written over the
/// version that was read.
pub proof fn artifacts_are_moved_on_by_those_who_may(
    row: ArtifactRow,
    authorised: bool,
    transitioned: Option<ArtifactRecord>,
)
    requires
        is_readable(row),
    ensures
        change_verdict(Some(row), authorised, transitioned) is Ok <==> authorised && transitioned is Some
            && transitioned->Some_0.version <= i64::MAX,
        change_verdict(Some(row), authorised, transitioned) matches Ok((record, version, previous)) ==> transitioned
            == Some(record) && version == record.version && previous == row.version,
        !authorised ==> change_verdict(Some(row), authorised, transitioned) == Err::<
            (ArtifactRecord, i64, i64),
            StoreError,
        >(
            StoreError::InvalidInput {
                operation: StoreOperation::TransitionArtifact,
                source: StoreInputError::InvalidArtifact,
            },
        ),
        authorised && transitioned is None ==> change_verdict(Some(row), authorised, transitioned) == Err::<
            (ArtifactRecord, i64, i64),
            StoreError,
        >(StoreError::Conflict { entity: EntityKind::Artifact }),
{
}

/// Of a page of uploads that are kept no longer each one that was published or being verified is moved on, over the
/// version before; the others are left as they are.
pub proof fn kept_uploads_are_left_as_they_are(
    prepared: PreparedUpload,
    row: ArtifactUploadRow,
    transitioned: Option<ArtifactRecord>,
    state: ArtifactState,
)
    requires
        is_prepared(prepared, row, transitioned),
        row.artifact.state@ == artifact_state_text(state),
        state != ArtifactState::Deleted,
    ensures
        prepared.upload.upload_id == row.upload_id,
        prepared.change is Some <==> state == ArtifactState::Published || state == ArtifactState::Verifying,
        prepared.change matches Some(change) ==> transitioned == Some(prepared.upload.artifact) && change.version
            == prepared.upload.artifact.version && change.previous_version + 1 == change.version && change.event == (
        if state == ArtifactState::Published {
            ArtifactEvent::Expire
        } else {
            ArtifactEvent::VerificationFailed
        }),
        prepared.change is None ==> prepared.upload.artifact.state == state && prepared.upload.artifact.version
            == row.artifact.version && prepared.upload.artifact.identity.artifact_id == row.artifact.id,
{
    artifact_state_text_names_one_value(state_in(row), state);
    artifact_state_text_names_one_value(prepared.upload.artifact.state, state);
}

/// Each state of an artifact is stored under its own name.
pub proof fn states_of_artifacts_are_stored_by_name()
    ensures
        artifact_state_text(ArtifactState::Pending) == "pending"@,
        artifact_state_text(ArtifactState::Verifying) == "verifying"@,
        artifact_state_text(ArtifactState::Published) == "published"@,
        artifact_state_text(ArtifactState::Expired) == "expired"@,
        artifact_state_text(ArtifactState::Deleted) == "deleted"@,
{
}

/// An artifact is read as it is on record: of its job, its lease and its build, with its name, its type, its length and
/// its digest, in the state and the version it is in.
pub proof fn artifacts_are_read_as_recorded(record: ArtifactRecord, row: ArtifactRow)
    requires
        is_artifact_of(record, row),
    ensures
        record.identity.artifact_id == row.id && record.identity.job_id == row.job_id && record.identity.lease_id
            == row.lease_id,
        record.identity.build_id == row.build_id && record.identity.attempt_id == row.attempt_id,
        record.identity.logical_name@ == row.logical_name@ && record.identity.media_type@ == row.media_type@,
        record.identity.artifact_type is Artifact ==> row.artifact_type@ == "artifact"@ && row.report_format is None,
        record.identity.artifact_type matches ArtifactType::Report(format) ==> row.artifact_type@ == "report"@
            && row.report_format == Some(format),
        record.identity.size_bytes == row.byte_length && record.identity.digest@ == row.sha256@,
        record.identity.delete_after == row.retention_until_millis,
        artifact_state_text(record.state) == row.state@ && record.version == row.version,
        record.created_at == row.created_at_millis && record.published_at == row.published_at_millis
            && record.deleted_at == row.deleted_at_millis,
{
}

/// An upload is read as it is on record, with its artifact.
pub proof fn uploads_are_read_as_recorded(record: ArtifactUploadRecord, row: ArtifactUploadRow)
    requires
        is_upload_of(record, row),
    ensures
        record.upload_id == row.upload_id && record.idempotency_key@ == row.idempotency_key@,
        is_artifact_of(record.artifact, row.artifact),
        record.producer_run_id@ == row.producer_run_id@ && record.producer_task_id@ == row.producer_task_id@,
        record.transport_media_type@ == row.transport_media_type@,
        record.capability_expires_at == row.capability_expires_at_millis,
{
}

/// A page of uploads that are kept no longer is refused for its first upload that cannot be moved on, and otherwise
/// not at all: one that is deleted already, whose change its state does not admit, or that was changed meanwhile.
pub proof fn pages_are_refused_for_uploads_that_cannot_be_moved_on(row: RetentionRow, state: ArtifactState)
    requires
        is_readable_upload(row.upload),
        row.upload.artifact.state@ == artifact_state_text(state),
        row.transitioned matches Some(record) ==> 0 < record.version <= i64::MAX,
    ensures
        retention_refusal(row) == (match state {
            ArtifactState::Deleted => Some(StoreError::Unavailable),
            ArtifactState::Pending | ArtifactState::Expired => None,
            ArtifactState::Published | ArtifactState::Verifying => if row.transitioned is Some && row.updated_rows == 1 {
                None
            } else {
                Some(StoreError::Conflict { entity: EntityKind::Artifact })
            },
        }),
{
    artifact_state_text_names_one_value(state_in(row.upload), state);
}

/// An artifact is read exactly from a row whose identities are set, whose digest has its full length, whose times are
/// no earlier than the Unix epoch, whose version counts from one, whose state is known, and which has a report format
/// exactly where it is a report.
pub proof fn sound_artifacts_are_read(row: ArtifactRow)
    ensures
        is_readable(row) <==> row.id != 0 && row.build_id != 0 && row.attempt_id != 0 && row.job_id != 0 && row.lease_id
            != 0 && row.sha256@.len() == 32 && ((row.artifact_type@ == "artifact"@ && row.report_format is None) || (
        row.artifact_type@ == "report"@ && row.report_format is Some)) && (row.retention_until_millis is None
            || row.retention_until_millis->Some_0 >= 0) && row.byte_length >= 0 && (row.state@ == "pending"@ || row.state@
            == "verifying"@ || row.state@ == "published"@ || row.state@ == "expired"@ || row.state@ == "deleted"@)
            && row.version > 0 && row.created_at_millis >= 0 && (row.published_at_millis is None
            || row.published_at_millis->Some_0 >= 0) && (row.deleted_at_millis is None || row.deleted_at_millis->Some_0
            >= 0) && row.is_valid,
{
    assert(artifact_state_text(ArtifactState::Pending) == "pending"@);
    assert(artifact_state_text(ArtifactState::Verifying) == "verifying"@);
    assert(artifact_state_text(ArtifactState::Published) == "published"@);
    assert(artifact_state_text(ArtifactState::Expired) == "expired"@);
    assert(artifact_state_text(ArtifactState::Deleted) == "deleted"@);
}

/// An upload is read exactly where its artifact is, and a page of uploads exactly where each of them is.
pub proof fn sound_uploads_are_read(rows: Seq<ArtifactUploadRow>)
    ensures
        are_readable_uploads(rows) <==> forall|i: int|
            0 <= i < rows.len() ==> is_readable((#[trigger] rows[i]).artifact) && rows[i].upload_id != 0
                && rows[i].capability_expires_at_millis >= 0 && rows[i].is_valid,
{
    if are_readable_uploads(rows) {
        assert forall|i: int| 0 <= i < rows.len() implies is_readable((#[trigger] rows[i]).artifact) && rows[i].upload_id
            != 0 && rows[i].capability_expires_at_millis >= 0 && rows[i].is_valid by {
            assert(is_readable_upload(rows[i]));
        }
    }
}

/// What cannot be read is reported as unavailable, whoever asks: an artifact, an upload, the limits it is held
/// against, or the deadline until which it is kept.
pub proof fn damaged_artifacts_are_unavailable(
    row: ArtifactUploadRow,
    authorised: bool,
    transitioned: Option<ArtifactRecord>,
    request: BeginArtifactUpload,
    lease: LeaseRow,
    met: UploadSurroundings,
    deadline: i64,
    visible: bool,
)
    ensures
        !is_readable(row.artifact) ==> change_verdict(Some(row.artifact), authorised, transitioned) == Err::<
            (ArtifactRecord, i64, i64),
            StoreError,
        >(StoreError::Unavailable),
        !is_readable(row.artifact) || row.upload_id == 0 || row.capability_expires_at_millis < 0 || !row.is_valid
            ==> preparation_refusal(row, transitioned) == Some(StoreError::Unavailable),
        met.limits is None ==> reservation(request, lease, met) == Err::<i64, StoreError>(StoreError::Unavailable),
        deadline < 0 ==> kept_until(Some((deadline, visible)), request.reserved_at) == Err::<i64, StoreError>(
            StoreError::Unavailable,
        ),
{
}

/// The state that is read from an upload is the one whose name is stored.
pub proof fn uploads_are_in_the_stored_state(row: ArtifactUploadRow, state: ArtifactState)
    requires
        row.artifact.state@ == artifact_state_text(state),
    ensures
        state_in(row) == state,
{
    artifact_state_text_names_one_value(state_in(row), state);
}

/// An upload that is prepared for deletion is the stored one: only the artifact in it moves on, to the next version.
pub proof fn prepared_uploads_stay_themselves(
    prepared: PreparedUpload,
    row: ArtifactUploadRow,
    transitioned: Option<ArtifactRecord>,
    state: ArtifactState,
)
    requires
        is_prepared(prepared, row, transitioned),
        row.artifact.state@ == artifact_state_text(state),
    ensures
        prepared.upload.upload_id == row.upload_id,
        prepared.upload.idempotency_key@ == row.idempotency_key@,
        prepared.upload.producer_run_id@ == row.producer_run_id@ && prepared.upload.producer_task_id@
            == row.producer_task_id@,
        prepared.upload.transport_media_type@ == row.transport_media_type@,
        prepared.upload.capability_expires_at == row.capability_expires_at_millis,
        prepared.change matches Some(change) ==> Some(prepared.upload.artifact) == transitioned && change.version
            == prepared.upload.artifact.version && change.previous_version + 1 == change.version && retention_step(state)
            == Ok::<Option<ArtifactEvent>, StoreError>(Some(change.event)),
        prepared.change is None ==> is_artifact_of(prepared.upload.artifact, row.artifact),
{
    uploads_are_in_the_stored_state(row, state);
}

/// An upload that was reserved says what was asked, for the build and attempt of the lease.
pub proof fn reserved_uploads_say_what_was_asked(
    upload: ArtifactUploadRecord,
    request: BeginArtifactUpload,
    row: LeaseRow,
    deadline: i64,
)
    requires
        is_reservation(upload, request, row, deadline),
    ensures
        upload.upload_id == request.upload_id && upload.idempotency_key@ == request.idempotency_key@,
        upload.producer_run_id@ == request.producer_run_id@ && upload.producer_task_id@ == request.producer_task_id@,
        upload.transport_media_type@ == request.transport_media_type@,
        upload.capability_expires_at == request.capability_expires_at,
        upload.artifact.identity.artifact_id == request.artifact_id,
        upload.artifact.identity.build_id == row.build_id && upload.artifact.identity.attempt_id == row.attempt_id,
        upload.artifact.identity.job_id == request.job_id && upload.artifact.identity.lease_id == request.lease.lease_id,
        upload.artifact.identity.logical_name@ == request.logical_name@,
        upload.artifact.identity.media_type@ == request.media_type@,
        upload.artifact.identity.size_bytes == request.size_bytes && upload.artifact.identity.digest@ == request.digest@,
        upload.artifact.identity.artifact_type is Report <==> request.artifact_type is Report,
{
}

/// A verification moves an upload on from the state that is stored, and only from there: whatever becomes of it, the
/// upload that is told is the stored one, and nothing is refused but for that state.
pub proof fn verifications_move_the_stored_upload_on(
    outcome: Result<(ArtifactUploadRecord, Option<ArtifactEvent>), StoreError>,
    upload: ArtifactUploadRow,
    result: Option<ArtifactVerificationResult>,
    state: ArtifactState,
)
    requires
        is_verification_change(outcome, upload, result),
        upload.artifact.state@ == artifact_state_text(state),
    ensures
        outcome matches Ok((record, event)) ==> record.upload_id == upload.upload_id && record.idempotency_key@
            == upload.idempotency_key@ && record.artifact.identity.artifact_id == upload.artifact.id
            && record.artifact.state == state && verification_step(result, state) == Ok::<
            Option<ArtifactEvent>,
            StoreError,
        >(event),
        outcome matches Err(error) ==> verification_step(result, state) == Err::<Option<ArtifactEvent>, StoreError>(error)
            && error == (StoreError::Conflict { entity: EntityKind::ArtifactUpload }),
{
    match outcome {
        Ok((record, _)) => {
            artifact_state_text_names_one_value(record.artifact.state, state);
        },
        Err(error) => {
            let stored = choose|stored: ArtifactState| #[trigger]
                artifact_state_text(stored) == upload.artifact.state@ && verification_step(result, stored) == Err::<
                    Option<ArtifactEvent>,
                    StoreError,
                >(error);
            artifact_state_text_names_one_value(stored, state);
        },
    }
}

/// An upload is verified for the job and the lease it was begun under: whoever holds another is fenced off, and a
/// hidden part of a result takes no content.
pub proof fn foreign_uploads_are_not_verified(
    request: VerifyArtifactUpload,
    row: LeaseRow,
    upload: ArtifactUploadRow,
    operation: StoreOperation,
)
    requires
        attempt_verdict(row, request.lease, request.job_id, request.attempt, request.observed_at, operation) is Ok,
    ensures
        !upload.component_visible ==> verification_access(request, row, Some(upload), operation) == Err::<(), StoreError>(
            StoreError::Conflict { entity: EntityKind::Artifact },
        ),
        upload.component_visible && !is_readable_upload(upload) ==> verification_access(
            request,
            row,
            Some(upload),
            operation,
        ) == Err::<(), StoreError>(StoreError::Unavailable),
        upload.component_visible && is_readable_upload(upload) && (upload.artifact.lease_id != request.lease.lease_id
            || upload.artifact.job_id != request.job_id) ==> verification_access(request, row, Some(upload), operation)
            == Err::<(), StoreError>(StoreError::Fenced { lease: request.lease.lease_id }),
{
}

/// What is not there is not found, and what exceeds the limits conflicts with what is kept.
pub proof fn missing_artifacts_are_not_found(
    authorised: bool,
    transitioned: Option<ArtifactRecord>,
    request: VerifyArtifactUpload,
    row: LeaseRow,
    operation: StoreOperation,
    begin: BeginArtifactUpload,
    met: UploadSurroundings,
    limits: OutputLimits,
)
    ensures
        change_verdict(None, authorised, transitioned) == Err::<(ArtifactRecord, i64, i64), StoreError>(
            StoreError::NotFound { entity: EntityKind::Artifact },
        ),
        attempt_verdict(row, request.lease, request.job_id, request.attempt, request.observed_at, operation) is Ok
            ==> verification_access(request, row, None, operation) == Err::<(), StoreError>(
            StoreError::NotFound { entity: EntityKind::ArtifactUpload },
        ),
        met.limits == Some(limits) && !is_within_limits(
            limits,
            begin.artifact_type,
            met.retained_count,
            met.retained_bytes,
            begin.size_bytes,
        ) ==> reservation(begin, row, met) == Err::<i64, StoreError>(
            StoreError::Conflict { entity: EntityKind::Artifact },
        ),
{
}

/// A verification begins without a result and is finished with one.
pub proof fn verifications_are_finished_with_a_result(result: ArtifactVerificationResult)
    ensures
        verification_operation(None) == StoreOperation::BeginArtifactVerification,
        verification_operation(Some(result)) == StoreOperation::FinishArtifactVerification,
{
}

/// A page of uploads is moved on exactly where each of them can be.
pub proof fn pages_are_moved_on_as_a_whole(rows: Seq<RetentionRow>)
    ensures
        page_refusal(rows) is None <==> forall|i: int| 0 <= i < rows.len() ==> retention_refusal(#[trigger] rows[i]) is None,
{
    let refusals = rows.map_values(|row: RetentionRow| retention_refusal(row));
    if forall|i: int| 0 <= i < rows.len() ==> retention_refusal(#[trigger] rows[i]) is None {
        no_refusal_remains(refusals);
    } else {
        let at = choose|i: int| 0 <= i < rows.len() && retention_refusal(#[trigger] rows[i]) is Some;
        assert(refusals[at] == retention_refusal(rows[at]));
        a_refusal_is_found(refusals, at);
    }
}

} // verus!
