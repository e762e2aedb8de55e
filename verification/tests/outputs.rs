use store_postgres::artifact::{
    self, artifact_retention_deadline, artifact_select, artifact_state, begin_upload, change_verification,
    complete_retention, completed_at, decode, decode_upload, enforce_output_limits, parse_artifact_state,
    previous_version, require_attempt, require_lease_identity, require_written, reserve, retention_event,
    retention_page, same_type, transition, transition_under_lease, update_numbers, upload_matches, verification_event,
    ArtifactEvent, ArtifactRecord, ArtifactRow, ArtifactState, ArtifactType, ArtifactUploadRecord, ArtifactUploadRow,
    ArtifactVerificationResult, BeginArtifactUpload, OutputLimits, RetentionRow, UploadStart, UploadSurroundings,
    VerifyArtifactUpload,
};
use store_postgres::cache_data::{
    authorize_data, check_action, find_missing_blobs, invalid_cache_data, prepare_blob, publish_action, publish_blob,
    quota_allows, read_action, read_blob, resolve_namespace, BlobPreparation, CachePublicationOutcome,
    DataAuthorizationRow, DataScope, ExistingBlob, OfferedAction,
};
use store_postgres::cache_session::{
    self, add_seconds, authorize, begin, cache_session_state, current_lease_state, invalid_cache, load_policy,
    parse_state, policy_retention_seconds, require_lease, retention_seconds, revoke, session_number, unsigned, AuthorizationRow,
    BeginCacheSession, CacheAuthorizationOutcome, CacheNamespacePolicy, CacheOperation, CachePermissions,
    CacheSessionRow, CacheSessionState, SelectedNamespace, SessionStart,
};
use store_postgres::domain::{EntityKind, MutationDisposition, StoreError, StoreInputError, StoreOperation};
use store_postgres::lease::{fence_hash, LeaseAccess, LeaseRow};

fn access() -> LeaseAccess {
    LeaseAccess { lease_id: 1, agent_id: 2, registration_epoch: 3, fence: b"fence".to_vec() }
}

fn lease() -> LeaseRow {
    LeaseRow {
        job_id: 4,
        attempt_id: 5,
        attempt_number: 6,
        build_id: 7,
        project_id: 8,
        registration_id: 9,
        agent_id: 2,
        epoch: 3,
        fence_hash: fence_hash(b"fence"),
        state: "active".to_owned(),
        expired: false,
        expires_at_millis: 100,
    }
}

fn uploading() -> BeginArtifactUpload {
    BeginArtifactUpload {
        lease: access(),
        upload_id: 10,
        artifact_id: 11,
        job_id: 4,
        attempt: 6,
        idempotency_key: "key".to_owned(),
        producer_run_id: "run".to_owned(),
        producer_task_id: "task".to_owned(),
        logical_name: "app".to_owned(),
        artifact_type: ArtifactType::Artifact,
        media_type: "application/zip".to_owned(),
        transport_media_type: "application/zip".to_owned(),
        size_bytes: 12,
        digest: vec![5; 32],
        reserved_at: 50,
        capability_expires_at: 60,
    }
}

fn row(state: &str) -> ArtifactRow {
    ArtifactRow {
        id: 11,
        build_id: 7,
        attempt_id: 5,
        job_id: 4,
        lease_id: 1,
        logical_name: "app".to_owned(),
        artifact_type: "artifact".to_owned(),
        media_type: "application/zip".to_owned(),
        report_format: None,
        byte_length: 12,
        sha256: vec![5; 32],
        state: state.to_owned(),
        retention_until_millis: Some(500),
        version: 1,
        created_at_millis: 50,
        published_at_millis: None,
        deleted_at_millis: None,
        is_valid: true,
    }
}

fn upload(state: &str) -> ArtifactUploadRow {
    ArtifactUploadRow {
        upload_id: 10,
        idempotency_key: "key".to_owned(),
        capability_expires_at_millis: 60,
        transport_media_type: "application/zip".to_owned(),
        producer_run_id: "run".to_owned(),
        producer_task_id: "task".to_owned(),
        artifact: row(state),
        component_visible: true,
        is_valid: true,
    }
}

#[test]
fn artifacts_are_selected() {
    assert_eq!(artifact_select(true), format!("{} FOR UPDATE", artifact_select(false)));
    assert!(artifact_select(false).starts_with("SELECT id, build_id, attempt_id, job_id, lease_id, logical_name"));
    assert!(artifact_select(false).ends_with("FROM artifacts WHERE id = $1"));
}

#[test]
fn artifacts_are_read() {
    assert!(matches!(decode(row("pending")), Ok(record) if record.identity.size_bytes == 12));
    let mut report = row("published");
    report.artifact_type = "report".to_owned();
    assert!(matches!(decode(report), Err(StoreError::Unavailable)));
    let mut report = row("published");
    report.artifact_type = "report".to_owned();
    report.report_format = Some("junit".to_owned());
    assert!(matches!(
        decode(report),
        Ok(record) if matches!(&record.identity.artifact_type, ArtifactType::Report(format) if format == "junit")
    ));
    let mut short = row("pending");
    short.sha256.pop();
    assert!(matches!(decode(short), Err(StoreError::Unavailable)));
    assert!(matches!(artifact::read(Some(row("pending"))), Ok(record) if record.version == 1));
    assert!(matches!(artifact::read(None), Err(StoreError::NotFound { entity: EntityKind::Artifact })));
    assert!(matches!(artifact::read_upload(Some(upload("pending"))), Ok(record) if record.upload_id == 10));
    assert!(matches!(
        artifact::read_upload(None),
        Err(StoreError::NotFound { entity: EntityKind::ArtifactUpload })
    ));
    assert!(matches!(artifact::published(Some(upload("published"))), Ok(record) if record.upload_id == 10));
    assert!(matches!(artifact::published(None), Err(StoreError::NotFound { entity: EntityKind::Artifact })));
    let listed = artifact::list_published(2, 9, vec![upload("published"), upload("published")]);
    assert!(matches!(listed, Ok(uploads) if uploads.len() == 2));
    assert!(matches!(artifact::list_published(2, 9, vec![upload("lost")]), Err(StoreError::Unavailable)));
    assert!(matches!(artifact::list_published(0, 9, vec![]), Err(StoreError::InvalidInput { .. })));
    for state in [
        ArtifactState::Pending,
        ArtifactState::Verifying,
        ArtifactState::Published,
        ArtifactState::Expired,
        ArtifactState::Deleted,
    ] {
        assert_eq!(parse_artifact_state(artifact_state(state)), Ok(state));
    }
    assert!(same_type(&ArtifactType::Artifact, &ArtifactType::Artifact));
    assert!(!same_type(&ArtifactType::Artifact, &ArtifactType::Report("junit".to_owned())));
}

fn surroundings() -> UploadSurroundings {
    UploadSurroundings {
        limits: Some(OutputLimits {
            artifact_count: 2,
            artifact_bytes: 100,
            report_count: 1,
            report_bytes: 10,
            single_output_bytes: 60,
        }),
        retained_count: 1,
        retained_bytes: 88,
        retention: Some((500, true)),
        is_artifact: true,
    }
}

fn begin_one(
    request: BeginArtifactUpload,
    existing: Option<ArtifactUploadRecord>,
) -> Result<UploadStart, StoreError> {
    begin_upload(request, Some(lease()), Ok(existing), &surroundings())
}

#[test]
fn uploads_are_reserved_once() {
    let reserved = match begin_one(uploading(), None) {
        Ok(UploadStart::Reserve(reserved, length)) => {
            assert_eq!(length, 12);
            reserved
        }
        _ => panic!("the upload can be reserved"),
    };
    assert_eq!((reserved.artifact.state, reserved.artifact.version), (ArtifactState::Pending, 1));
    assert_eq!((reserved.artifact.identity.build_id, reserved.artifact.identity.attempt_id), (7, 5));
    assert_eq!(reserved.artifact.identity.delete_after, Some(500));
    assert!(upload_matches(&reserved, &uploading()));
    let again = begin_one(uploading(), Some(reserved));
    assert!(matches!(again, Ok(UploadStart::Replay(record)) if record.upload_id == 10));
    let existing = match decode_upload(upload("pending")) {
        Ok(existing) => existing,
        Err(_) => panic!("the upload can be read"),
    };
    assert!(matches!(begin_one(uploading(), Some(existing)), Ok(UploadStart::Replay(_))));
    let mut other = upload("pending");
    other.artifact.byte_length = 13;
    let other = match decode_upload(other) {
        Ok(other) => other,
        Err(_) => panic!("the upload can be read"),
    };
    assert!(matches!(
        begin_one(uploading(), Some(other)),
        Err(StoreError::Conflict { entity: EntityKind::ArtifactUpload })
    ));
}

#[test]
fn uploads_need_the_lease() {
    let mut early = uploading();
    early.capability_expires_at = 50;
    assert!(matches!(
        begin_upload(early, None, Ok(None), &surroundings()),
        Err(StoreError::InvalidInput { source: StoreInputError::InvalidArtifact, .. })
    ));
    assert!(matches!(
        begin_upload(uploading(), None, Ok(None), &surroundings()),
        Err(StoreError::Fenced { lease: 1 })
    ));
    let mut secret = uploading();
    secret.lease.fence = b"other".to_vec();
    assert!(matches!(begin_one(secret, None), Err(StoreError::Fenced { lease: 1 })));
    let mut foreign = uploading();
    foreign.job_id = 40;
    assert!(matches!(begin_one(foreign, None), Err(StoreError::Fenced { lease: 1 })));
    let mut late = uploading();
    late.reserved_at = 100;
    late.capability_expires_at = 101;
    assert!(matches!(begin_one(late, None), Err(StoreError::Expired { lease: 1 })));
    assert_eq!(
        require_attempt(&lease(), &access(), 4, 7, 50, StoreOperation::BeginArtifactUpload),
        Err(StoreError::Fenced { lease: 1 })
    );
}

#[test]
fn uploads_meet_their_surroundings() {
    let begin_with = |met: UploadSurroundings| begin_upload(uploading(), Some(lease()), Ok(None), &met);
    let unreadable = begin_upload(uploading(), Some(lease()), Err(StoreError::Unavailable), &surroundings());
    assert!(matches!(unreadable, Err(StoreError::Unavailable)));
    assert!(matches!(
        begin_with(UploadSurroundings { limits: None, ..surroundings() }),
        Err(StoreError::Unavailable)
    ));
    assert!(matches!(
        begin_with(UploadSurroundings { retained_bytes: 89, ..surroundings() }),
        Err(StoreError::Conflict { entity: EntityKind::Artifact })
    ));
    assert!(matches!(
        begin_with(UploadSurroundings { retention: Some((500, false)), ..surroundings() }),
        Err(StoreError::Conflict { entity: EntityKind::Build })
    ));
    assert!(matches!(
        begin_with(UploadSurroundings { retention: None, ..surroundings() }),
        Err(StoreError::NotFound { entity: EntityKind::Build })
    ));
    assert!(matches!(
        begin_with(UploadSurroundings { is_artifact: false, ..surroundings() }),
        Err(StoreError::InvalidInput { source: StoreInputError::InvalidArtifact, .. })
    ));
}

#[test]
fn artifacts_change_under_their_lease() {
    let read = |state: &str| match decode(row(state)) {
        Ok(record) => record,
        Err(_) => panic!("the artifact can be read"),
    };
    let identity = read("pending").identity;
    assert_eq!(reserve(true, Some(lease()), &access(), 50, &identity), Ok(12));
    assert!(matches!(reserve(false, Some(lease()), &access(), 50, &identity), Err(StoreError::InvalidInput { .. })));
    assert_eq!(reserve(true, None, &access(), 50, &identity), Err(StoreError::Fenced { lease: 1 }));
    assert_eq!(reserve(true, Some(lease()), &access(), 100, &identity), Err(StoreError::Expired { lease: 1 }));
    let operation = StoreOperation::ReserveArtifact;
    assert_eq!(require_lease_identity(Some(lease()), &access(), 50, &identity, operation), Ok(()));
    assert_eq!(
        require_lease_identity(None, &access(), 50, &identity, operation),
        Err(StoreError::Fenced { lease: 1 })
    );
    let mut verifying = read("verifying");
    verifying.version = 2;
    let changed = transition(Some(row("pending")), true, Some(verifying));
    assert!(matches!(changed, Ok((record, 2, 1)) if record.state == ArtifactState::Verifying));
    assert!(matches!(
        transition(Some(row("pending")), true, None),
        Err(StoreError::Conflict { entity: EntityKind::Artifact })
    ));
    assert!(matches!(transition(Some(row("pending")), false, None), Err(StoreError::InvalidInput { .. })));
    assert!(matches!(
        transition(None, true, None),
        Err(StoreError::NotFound { entity: EntityKind::Artifact })
    ));
    assert!(matches!(transition(Some(row("lost")), true, None), Err(StoreError::Unavailable)));
    let held = transition_under_lease(
        Some(lease()),
        &access(),
        50,
        &identity,
        Some(row("pending")),
        true,
        Some(read("verifying")),
    );
    assert!(matches!(held, Ok((_, 1, 1))));
    let fenced = transition_under_lease(None, &access(), 50, &identity, None, true, None);
    assert!(matches!(fenced, Err(StoreError::Fenced { lease: 1 })));
}

#[test]
fn outputs_are_limited() {
    let limits = OutputLimits {
        artifact_count: 2,
        artifact_bytes: 100,
        report_count: 1,
        report_bytes: 10,
        single_output_bytes: 60,
    };
    let conflict = Err(StoreError::Conflict { entity: EntityKind::Artifact });
    let report = ArtifactType::Report("junit".to_owned());
    assert_eq!(enforce_output_limits(&limits, &ArtifactType::Artifact, 1, 40, 60), Ok(()));
    assert_eq!(enforce_output_limits(&limits, &ArtifactType::Artifact, 1, 41, 60), conflict);
    assert_eq!(enforce_output_limits(&limits, &ArtifactType::Artifact, 2, 0, 1), conflict);
    assert_eq!(enforce_output_limits(&limits, &ArtifactType::Artifact, 0, 0, 61), conflict);
    assert_eq!(enforce_output_limits(&limits, &report, 0, 0, 10), Ok(()));
    assert_eq!(enforce_output_limits(&limits, &report, 0, 0, 11), conflict);
    assert_eq!(artifact_retention_deadline(Some((500, true)), 50), Ok(500));
    assert_eq!(
        artifact_retention_deadline(Some((50, true)), 50),
        Err(StoreError::Conflict { entity: EntityKind::Build })
    );
    assert_eq!(
        artifact_retention_deadline(None, 50),
        Err(StoreError::NotFound { entity: EntityKind::Build })
    );
    assert_eq!(artifact::list_limit(5, 10), Ok(5));
    assert!(artifact::list_limit(0, 10).is_err());
    assert!(artifact::list_limit(11, 10).is_err());
}

#[test]
fn only_verified_content_is_published() {
    let verified = Some(ArtifactVerificationResult::Verified);
    let rejected = Some(ArtifactVerificationResult::Rejected);
    assert_eq!(verification_event(None, ArtifactState::Pending), Ok(Some(ArtifactEvent::BeginVerification)));
    assert_eq!(verification_event(verified, ArtifactState::Verifying), Ok(Some(ArtifactEvent::Publish)));
    assert_eq!(verification_event(verified, ArtifactState::Published), Ok(None));
    assert_eq!(verification_event(rejected, ArtifactState::Verifying), Ok(Some(ArtifactEvent::VerificationFailed)));
    assert_eq!(
        verification_event(verified, ArtifactState::Pending),
        Err(StoreError::Conflict { entity: EntityKind::ArtifactUpload })
    );
    let request = VerifyArtifactUpload { lease: access(), upload_id: 10, job_id: 4, attempt: 6, observed_at: 50 };
    let change = |upload: Option<ArtifactUploadRow>| change_verification(&request, Some(lease()), upload, verified);
    assert!(matches!(change(Some(upload("verifying"))), Ok((_, Some(ArtifactEvent::Publish)))));
    assert!(matches!(change(Some(upload("published"))), Ok((_, None))));
    assert!(matches!(
        change(Some(upload("pending"))),
        Err(StoreError::Conflict { entity: EntityKind::ArtifactUpload })
    ));
    let mut foreign = upload("verifying");
    foreign.artifact.lease_id = 2;
    assert!(matches!(change(Some(foreign)), Err(StoreError::Fenced { lease: 1 })));
    assert!(matches!(change(None), Err(StoreError::NotFound { entity: EntityKind::ArtifactUpload })));
    let mut hidden = upload("verifying");
    hidden.component_visible = false;
    assert!(matches!(change(Some(hidden)), Err(StoreError::Conflict { entity: EntityKind::Artifact })));
    let fenced = change_verification(&request, None, Some(upload("verifying")), verified);
    assert!(matches!(fenced, Err(StoreError::Fenced { lease: 1 })));
    let late = VerifyArtifactUpload { lease: access(), upload_id: 10, job_id: 4, attempt: 7, observed_at: 50 };
    let late = change_verification(&late, Some(lease()), Some(upload("verifying")), verified);
    assert!(matches!(late, Err(StoreError::Fenced { lease: 1 })));
    assert_eq!(completed_at(ArtifactEvent::Publish, Some(9)), Some(9));
    assert_eq!(completed_at(ArtifactEvent::VerificationFailed, Some(9)), None);
}

#[test]
fn prepared_artifacts_can_be_deleted() {
    assert_eq!(retention_event(ArtifactState::Published), Ok(Some(ArtifactEvent::Expire)));
    assert_eq!(retention_event(ArtifactState::Verifying), Ok(Some(ArtifactEvent::VerificationFailed)));
    assert_eq!(retention_event(ArtifactState::Pending), Ok(None));
    assert_eq!(retention_event(ArtifactState::Deleted), Err(StoreError::Unavailable));
    let retained = |upload: ArtifactUploadRow, transitioned: Option<ArtifactRecord>, updated_rows: u64| RetentionRow {
        upload,
        transitioned,
        updated_rows,
    };
    let expired = || {
        let mut row = row("expired");
        row.version = 2;
        decode(row).ok()
    };
    let rows = vec![retained(upload("published"), expired(), 1), retained(upload("pending"), None, 0)];
    let page = match retention_page(rows) {
        Ok(page) => page,
        Err(_) => panic!("the page can be prepared"),
    };
    assert_eq!(page[0].upload.artifact.state, ArtifactState::Expired);
    let change = page[0].change.as_ref().map(|change| (change.event, change.version, change.previous_version));
    assert_eq!(change, Some((ArtifactEvent::Expire, 2, 1)));
    assert!(page[1].change.is_none());
    let conflict = StoreError::Conflict { entity: EntityKind::Artifact };
    let refused = retention_page(vec![
        retained(upload("published"), None, 0),
        retained(upload("deleted"), None, 0),
    ]);
    assert!(matches!(refused, Err(error) if error == conflict));
    let lost = retention_page(vec![
        retained(upload("deleted"), None, 0),
        retained(upload("published"), None, 0),
    ]);
    assert!(matches!(lost, Err(StoreError::Unavailable)));
    let unwritten = retention_page(vec![retained(upload("published"), expired(), 0)]);
    assert!(matches!(unwritten, Err(error) if error == conflict));
    assert_eq!(complete_retention(ArtifactState::Expired), Ok(Some(ArtifactEvent::Delete)));
    assert_eq!(complete_retention(ArtifactState::Deleted), Ok(None));
    assert_eq!(
        complete_retention(ArtifactState::Published),
        Err(StoreError::Conflict { entity: EntityKind::Artifact })
    );
    assert_eq!(previous_version(4), Ok(3));
    assert_eq!(previous_version(0), Err(StoreError::Unavailable));
    assert_eq!(update_numbers(4, 3, StoreOperation::TransitionArtifact), Ok((4, 3)));
    assert!(update_numbers(u64::MAX, 3, StoreOperation::TransitionArtifact).is_err());
    assert_eq!(require_written(1), Ok(()));
    assert_eq!(require_written(0), Err(StoreError::Conflict { entity: EntityKind::Artifact }));
}

const BOTH: CachePermissions = CachePermissions { read: true, write: true };
const READ: CachePermissions = CachePermissions { read: true, write: false };

fn policy() -> CacheNamespacePolicy {
    CacheNamespacePolicy {
        namespace: "cargo".to_owned(),
        permissions: BOTH,
        quota_bytes: 1000,
        retention_seconds: 60,
    }
}

fn opening() -> BeginCacheSession {
    BeginCacheSession { lease: access(), job_id: 4, attempt: 6, created_at: 50, expires_at: 200 }
}

fn session() -> CacheSessionRow {
    CacheSessionRow {
        id: 20,
        project_id: 8,
        build_id: 7,
        job_id: 4,
        lease_id: 1,
        namespace: "cargo".to_owned(),
        namespace_is_valid: true,
        permissions: BOTH,
        quota_bytes: 1000,
        state: "active".to_owned(),
        scope_id: "scope".to_owned(),
        agent_id: 2,
        registration_epoch: 3,
        created_at_millis: 50,
        expires_at_millis: 100,
        retention_until_millis: 60050,
        revoked_at_millis: None,
        lease_current: true,
    }
}

#[test]
fn sessions_end_with_their_lease() {
    let write = match begin(Ok(()), &opening(), Some(lease()), &Ok(policy()), None) {
        Ok(SessionStart::Open(write)) => write,
        _ => panic!("the session is new"),
    };
    assert_eq!((write.expires_at, write.retention_until), (100, 60050));
    assert_eq!((write.quota_bytes, write.registration_epoch), (1000, 3));
    let again = begin(Ok(()), &opening(), Some(lease()), &Ok(policy()), Some(session()));
    assert!(matches!(again, Ok(SessionStart::Replay(record)) if record.policy.retention_seconds == 60));
    let mut other = session();
    other.permissions = READ;
    assert!(matches!(
        begin(Ok(()), &opening(), Some(lease()), &Ok(policy()), Some(other)),
        Err(StoreError::Conflict { entity: EntityKind::CacheSession })
    ));
    let mut foreign = opening();
    foreign.job_id = 40;
    assert_eq!(require_lease(&foreign, &lease()), Err(StoreError::Fenced { lease: 1 }));
    let mut endless = policy();
    endless.retention_seconds = u64::MAX;
    assert!(matches!(
        begin(Ok(()), &opening(), Some(lease()), &Ok(endless), None),
        Err(StoreError::InvalidInput { source: StoreInputError::InvalidCacheSession, .. })
    ));
    assert!(matches!(
        begin(Err(StoreError::Unavailable), &opening(), Some(lease()), &Ok(policy()), None),
        Err(StoreError::Unavailable)
    ));
    assert!(matches!(
        begin(Ok(()), &opening(), None, &Ok(policy()), None),
        Err(StoreError::Fenced { lease: 1 })
    ));
    assert!(matches!(
        begin(Ok(()), &opening(), Some(lease()), &Err(invalid_cache()), Some(session())),
        Err(StoreError::InvalidInput { source: StoreInputError::InvalidCacheSession, .. })
    ));
}

#[test]
fn lifetimes_are_read_back() {
    assert_eq!(add_seconds(50, 60), Ok(60050));
    assert_eq!(retention_seconds(50, 60050), Ok(60));
    assert_eq!(retention_seconds(50, 60051), Err(StoreError::Unavailable));
    assert_eq!(retention_seconds(50, 50), Err(StoreError::Unavailable));
    assert!(add_seconds(i64::MAX, 1).is_err());
    assert!(session_number(u64::MAX).is_err());
    assert_eq!(session_number(5), Ok(5));
    assert_eq!(unsigned(5), Ok(5));
    assert_eq!(unsigned(-5), Err(StoreError::Unavailable));
    assert!(current_lease_state("active"));
    assert!(current_lease_state("drain_requested"));
    assert!(!current_lease_state("expired"));
    assert_eq!(parse_state("revoked"), Ok(CacheSessionState::Revoked));
    assert_eq!(cache_session_state(CacheSessionState::Expired), "expired");
    assert!(READ.allows(CacheOperation::Read));
    assert!(!READ.allows(CacheOperation::Write));
}

#[test]
fn policies_say_how_long_caches_are_kept() {
    let mut seconds = serde_json::Map::new();
    seconds.insert("cache_seconds".to_owned(), serde_json::Value::from(3600u64));
    let mut retention = serde_json::Map::new();
    retention.insert("retention".to_owned(), serde_json::Value::Object(seconds));
    let mut inner = serde_json::Map::new();
    inner.insert("policy".to_owned(), serde_json::Value::Object(retention));
    let mut project = serde_json::Map::new();
    project.insert("project".to_owned(), serde_json::Value::Object(inner));
    let project = serde_json::Value::Object(project);
    assert_eq!(policy_retention_seconds(&project), Ok(3600));
    assert!(policy_retention_seconds(&serde_json::Value::Null).is_err());
    let selected =
        || Some(SelectedNamespace { namespace: "cargo".to_owned(), permissions: READ, quota_bytes: 1000 });
    assert!(matches!(
        load_policy(selected(), &project),
        Ok(policy) if policy.retention_seconds == 3600 && policy.namespace == "cargo"
    ));
    assert!(load_policy(None, &project).is_err());
    assert!(load_policy(selected(), &serde_json::Value::Null).is_err());
}

#[test]
fn sessions_are_revoked_once() {
    let row = |state: &str| Some((4, state.to_owned()));
    let revoke_one = |row: &Option<(u128, String)>, job_id: u128, can_be_revoked: bool| {
        revoke(Some(lease()), &access(), 50, row, job_id, can_be_revoked)
    };
    assert_eq!(revoke_one(&row("active"), 4, true), Ok(MutationDisposition::Applied));
    assert_eq!(revoke_one(&row("revoked"), 4, false), Ok(MutationDisposition::Replayed));
    assert_eq!(
        revoke_one(&row("expired"), 4, false),
        Err(StoreError::Conflict { entity: EntityKind::CacheSession })
    );
    assert_eq!(revoke_one(&row("lost"), 4, true), Err(StoreError::Unavailable));
    assert_eq!(revoke_one(&row("active"), 5, true), Err(StoreError::Fenced { lease: 1 }));
    assert_eq!(revoke_one(&None, 4, true), Err(StoreError::NotFound { entity: EntityKind::CacheSession }));
    assert_eq!(revoke(None, &access(), 50, &row("active"), 4, true), Err(StoreError::Fenced { lease: 1 }));
    assert_eq!(
        revoke(Some(lease()), &access(), 100, &row("active"), 4, true),
        Err(StoreError::Expired { lease: 1 })
    );
    assert!(matches!(
        cache_session::read(None),
        Err(StoreError::NotFound { entity: EntityKind::CacheSession })
    ));
    assert!(matches!(cache_session::read(Some(session())), Ok(record) if record.id == 20));
    assert!(matches!(cache_session::list(5, 5, vec![session(), session()]), Ok(records) if records.len() == 2));
    let mut lost = session();
    lost.state = "lost".to_owned();
    assert!(matches!(cache_session::list(5, 5, vec![session(), lost]), Err(StoreError::Unavailable)));
    assert!(matches!(cache_session::list(6, 5, vec![]), Err(StoreError::InvalidInput { .. })));
    assert_eq!(cache_session::list_limit(3, 5), Ok(3));
    assert!(cache_session::list_limit(6, 5).is_err());
    assert!(matches!(cache_session::decode(session()), Ok(record) if record.state == CacheSessionState::Active));
}

fn authorization() -> AuthorizationRow {
    AuthorizationRow {
        project_id: 8,
        namespace: "cargo".to_owned(),
        permissions: READ,
        credential_hash: vec![6; 32],
        quota_bytes: 1000,
        state: "active".to_owned(),
        created_at_millis: 50,
        expires_at_millis: 100,
        retention_until_millis: 60050,
        lease_state: "active".to_owned(),
        lease_expires_at_millis: 100,
        registration_revoked: false,
        registration_expires_at_millis: 100,
    }
}

#[test]
fn unbacked_sessions_stay_closed() {
    let granted = authorize(Some(authorization()), "cargo".to_owned(), CacheOperation::Read, &[6; 32], 99);
    assert!(matches!(
        granted,
        Ok(CacheAuthorizationOutcome::Authorized(granted)) if granted.policy.retention_seconds == 60
    ));
    let rejects = |row: AuthorizationRow, namespace: &str, operation: CacheOperation, digest: &[u8], now: i64| {
        matches!(
            authorize(Some(row), namespace.to_owned(), operation, digest, now),
            Ok(CacheAuthorizationOutcome::Rejected)
        )
    };
    assert!(rejects(authorization(), "npm", CacheOperation::Read, &[6; 32], 99));
    assert!(rejects(authorization(), "cargo", CacheOperation::Write, &[6; 32], 99));
    assert!(rejects(authorization(), "cargo", CacheOperation::Read, &[7; 32], 99));
    assert!(rejects(authorization(), "cargo", CacheOperation::Read, &[6; 32], 100));
    let mut revoked = authorization();
    revoked.registration_revoked = true;
    assert!(rejects(revoked, "cargo", CacheOperation::Read, &[6; 32], 99));
    let mut ended = authorization();
    ended.lease_state = "expired".to_owned();
    assert!(rejects(ended, "cargo", CacheOperation::Read, &[6; 32], 99));
    assert!(matches!(
        authorize(None, "cargo".to_owned(), CacheOperation::Read, &[6; 32], 99),
        Ok(CacheAuthorizationOutcome::Rejected)
    ));
}

fn data() -> DataAuthorizationRow {
    DataAuthorizationRow {
        project_id: 8,
        scope_id: "scope".to_owned(),
        permissions: READ,
        credential_hash: vec![6; 32],
        quota_bytes: 1000,
        state: "active".to_owned(),
        session_expires_at_millis: 100,
        retention_until_millis: 60050,
        lease_state: "active".to_owned(),
        lease_expires_at_millis: 100,
        registration_revoked: false,
        registration_expires_at_millis: 100,
        namespace: "cargo".to_owned(),
    }
}

#[test]
fn cache_permissions_are_kept() {
    let read = Some(CacheOperation::Read);
    let scope = authorize_data(Some(data()), "cargo", &[6; 32], read, 99);
    assert!(matches!(scope, Ok(scope) if scope.scope_id == "scope" && scope.quota_bytes == 1000));
    assert!(authorize_data(Some(data()), "cargo", &[6; 32], None, 99).is_ok());
    let write = Some(CacheOperation::Write);
    assert!(matches!(
        authorize_data(Some(data()), "cargo", &[6; 32], write, 99),
        Err(StoreError::CredentialRejected)
    ));
    assert!(matches!(
        authorize_data(Some(data()), "cargo", &[6; 32], read, 100),
        Err(StoreError::CredentialRejected)
    ));
    let mut short = data();
    short.credential_hash.pop();
    assert!(matches!(
        authorize_data(Some(short), "cargo", &[6; 32], read, 99),
        Err(StoreError::Unavailable)
    ));
    assert!(matches!(authorize_data(None, "cargo", &[6; 32], read, 99), Err(StoreError::CredentialRejected)));
}

fn scope() -> Result<DataScope, StoreError> {
    Ok(DataScope { scope_id: "scope".to_owned(), project_id: 8, quota_bytes: 1000, retention_until: 60050 })
}

const REJECTED: Result<DataScope, StoreError> = Err(StoreError::CredentialRejected);

#[test]
fn missing_blobs_are_reported_once() {
    let texts = |values: &[&str]| values.iter().map(|value| value.to_string()).collect::<Vec<_>>();
    let missing = |keys: &[&str], present: &[&str]| find_missing_blobs(&scope(), true, &texts(keys), &texts(present));
    assert_eq!(missing(&["a", "b", "a", "c"], &["b"]), Ok(vec![0, 3]));
    assert_eq!(missing(&["a"], &["a"]), Ok(vec![]));
    assert_eq!(missing(&[], &["a"]), Ok(vec![]));
    assert_eq!(
        find_missing_blobs(&REJECTED, true, &texts(&["a"]), &texts(&[])),
        Err(StoreError::CredentialRejected)
    );
    assert_eq!(
        find_missing_blobs(&scope(), false, &texts(&["a"]), &texts(&[])),
        Err(invalid_cache_data(StoreOperation::ReadCacheBlob))
    );
}

#[test]
fn quotas_are_kept() {
    assert_eq!(quota_allows(900, 100, 1000), Ok(true));
    assert_eq!(quota_allows(901, 100, 1000), Ok(false));
    assert_eq!(quota_allows(1, u64::MAX, u64::MAX), Ok(false));
    assert_eq!(quota_allows(-1, 1, 1000), Err(StoreError::Unavailable));
}

#[test]
fn blobs_are_published_once() {
    let existing = |is_same: bool, published: bool| Some(ExistingBlob { is_same, published });
    let prepare = |existing: Option<ExistingBlob>, used: i64| prepare_blob(true, &scope(), true, existing, used, 10);
    assert_eq!(prepare(None, 0), Ok(BlobPreparation::Reserve { charged_bytes: 10 }));
    assert_eq!(prepare(None, 995), Ok(BlobPreparation::QuotaExceeded));
    assert_eq!(prepare(existing(true, true), 0), Ok(BlobPreparation::AlreadyPresent));
    assert_eq!(prepare(existing(true, false), 0), Ok(BlobPreparation::Resume));
    assert_eq!(prepare(existing(false, true), 0), Err(StoreError::Unavailable));
    let refused = Err(invalid_cache_data(StoreOperation::PublishCacheBlob));
    assert_eq!(prepare_blob(true, &scope(), false, None, 0, 10), refused);
    assert_eq!(prepare_blob(false, &REJECTED, true, None, 0, 10), refused);
    assert_eq!(prepare_blob(true, &REJECTED, true, None, 0, 10), Err(StoreError::CredentialRejected));
    assert_eq!(publish_blob(true, &scope(), existing(true, false)), Ok(CachePublicationOutcome::Published));
    assert_eq!(publish_blob(true, &scope(), existing(true, true)), Ok(CachePublicationOutcome::AlreadyPresent));
    assert_eq!(publish_blob(true, &scope(), existing(false, true)), Ok(CachePublicationOutcome::Conflict));
    assert_eq!(publish_blob(true, &scope(), None), Ok(CachePublicationOutcome::Conflict));
    assert_eq!(
        publish_blob(false, &scope(), None),
        Err(invalid_cache_data(StoreOperation::PublishCacheBlob))
    );
    assert_eq!(publish_blob(true, &REJECTED, None), Err(StoreError::CredentialRejected));
}

#[test]
fn actions_are_published_once() {
    let offered = OfferedAction { is_valid: true, is_for_action: true, wire_size_bytes: 10 };
    let empty = OfferedAction { is_valid: true, is_for_action: true, wire_size_bytes: 0 };
    let refused = Err(invalid_cache_data(StoreOperation::PublishCacheAction));
    assert_eq!(check_action(offered), Ok(()));
    assert_eq!(check_action(empty), refused);
    let publish = |existing: Option<bool>, bundle: Option<u64>, used: i64| {
        publish_action(offered, &scope(), existing, bundle, used)
    };
    assert_eq!(publish(None, Some(1), 0), Ok(CachePublicationOutcome::Published));
    assert_eq!(publish(None, Some(0), 0), Ok(CachePublicationOutcome::Conflict));
    assert_eq!(publish(None, None, 995), Ok(CachePublicationOutcome::QuotaExceeded));
    assert_eq!(publish(Some(true), None, 0), Ok(CachePublicationOutcome::AlreadyPresent));
    assert_eq!(publish(Some(false), None, 0), Ok(CachePublicationOutcome::Conflict));
    assert_eq!(
        publish_action(empty, &scope(), None, None, 0),
        Err(invalid_cache_data(StoreOperation::PublishCacheAction))
    );
    assert_eq!(publish_action(offered, &REJECTED, None, None, 0), Err(StoreError::CredentialRejected));
    assert_eq!(resolve_namespace(Some("cargo".to_owned()), true, &scope()), Ok("cargo".to_owned()));
    assert_eq!(
        resolve_namespace(Some("cargo".to_owned()), true, &REJECTED),
        Err(StoreError::CredentialRejected)
    );
    assert_eq!(
        resolve_namespace(Some("?".to_owned()), false, &scope()),
        Err(invalid_cache_data(StoreOperation::ReadCacheBlob))
    );
    assert_eq!(resolve_namespace(None, true, &scope()), Err(StoreError::CredentialRejected));
    assert_eq!(read_blob(true, &scope(), false, false), Ok(false));
    assert_eq!(read_blob(true, &scope(), true, true), Ok(true));
    assert_eq!(read_blob(true, &scope(), true, false), Err(invalid_cache_data(StoreOperation::ReadCacheBlob)));
    assert_eq!(read_blob(false, &scope(), true, true), Err(invalid_cache_data(StoreOperation::ReadCacheBlob)));
    assert_eq!(read_blob(true, &REJECTED, true, true), Err(StoreError::CredentialRejected));
    assert_eq!(read_action(&scope(), Some(5), true), Ok(Some(5)));
    assert_eq!(read_action(&scope(), Some(5), false), Err(invalid_cache_data(StoreOperation::ReadCacheAction)));
    assert_eq!(read_action::<u8>(&scope(), None, false), Ok(None));
    assert_eq!(read_action(&REJECTED, Some(5), true), Err(StoreError::CredentialRejected));
}
