use sha2::Digest;
use store_postgres::database::{
    classify, classify_conflict, classify_project_create, found, job_ids, number, require_affected, require_exists,
};
use store_postgres::decimal::decimal;
use store_postgres::domain::{
    identity, next_version, optional_identity, optional_timestamp, timestamp, version, EntityKind, StoreError,
    StoreInputError, StoreOperation,
};
use store_postgres::fingerprint;
use store_postgres::migration::{ready_job_count, AppliedMigration, EmbeddedMigration};
use store_postgres::mutation::{
    begin, commit, decode_outcome, encode_outcome, mark, require_stored, stable_record_id, start, FactValue, Member,
    MutationFacts, MutationIdentity, MutationKind, MutationStart, StoredOutcome,
};
use store_postgres::page::{cut, fetch_limit};
use store_postgres::state::{
    attempt_state, build_state, job_state, parse_attempt_state, parse_build_state, parse_job_state, AttemptState,
    BuildState, JobState,
};
use store_postgres::text::{append_bytes, column_holds, same_bytes, same_optional_text, same_text};
use store_postgres::{health_check, migration_status, MigrationStatus, READY_JOB_NOTIFICATION_CHANNEL};

fn mutation(kind: MutationKind, key: &str, encoded: &[u8]) -> MutationIdentity {
    MutationIdentity::new(kind, key.to_owned(), 77, EntityKind::Project, encoded)
}

const KINDS: [MutationKind; 40] = [
    MutationKind::CreateProject,
    MutationKind::RenameProject,
    MutationKind::MoveProject,
    MutationKind::DeleteProject,
    MutationKind::PublishProjectPolicy,
    MutationKind::CreateAgentPool,
    MutationKind::PublishAgentPoolVersion,
    MutationKind::DeleteAgentPool,
    MutationKind::ReassignAgentPool,
    MutationKind::DrainAgent,
    MutationKind::CreatePipeline,
    MutationKind::PublishPipelineVersion,
    MutationKind::CreateRepository,
    MutationKind::PublishRepositoryVersion,
    MutationKind::CreateBuildConfiguration,
    MutationKind::PublishBuildConfigurationVersion,
    MutationKind::CreateTriggerDefinition,
    MutationKind::PublishInternalTriggerVersion,
    MutationKind::CreateUnmanagedWebhook,
    MutationKind::CreateManagedWebhook,
    MutationKind::CompleteManagedWebhookCreate,
    MutationKind::ObserveManagedWebhook,
    MutationKind::RotateManagedWebhook,
    MutationKind::DeleteManagedWebhook,
    MutationKind::CreateSchedule,
    MutationKind::AcceptTrigger,
    MutationKind::SuppressTrigger,
    MutationKind::ClaimReadyJob,
    MutationKind::RenewLease,
    MutationKind::RecoverExpiredLease,
    MutationKind::AppendJobEvents,
    MutationKind::CompleteJob,
    MutationKind::CancelBuild,
    MutationKind::RetryBuild,
    MutationKind::IssueAgentEnrollment,
    MutationKind::RegisterAgent,
    MutationKind::RevokeAgentEnrollment,
    MutationKind::RevokeAgentRegistration,
    MutationKind::PlaceBuildResultHold,
    MutationKind::ReleaseBuildResultHold,
];

#[test]
fn kinds_have_scopes_of_their_own() {
    for (i, a) in KINDS.iter().enumerate() {
        for b in &KINDS[i + 1..] {
            assert_ne!(a.scope(), b.scope());
            assert_ne!(a.digest_version(), b.digest_version());
        }
    }
}

#[test]
fn digest_versions_end_with_a_zero() {
    for kind in KINDS {
        let bytes = kind.digest_version();
        assert_eq!(bytes.iter().position(|byte| *byte == 0), Some(bytes.len() - 1));
        assert_eq!(kind.metadata().digest_version.as_bytes(), bytes);
        assert!(!kind.scope().contains(':'));
        assert!(!kind.target_kind().is_empty());
    }
}

#[test]
fn metadata_is_fixed() {
    assert_eq!(MutationKind::CreateProject.scope(), "create-project");
    assert_eq!(MutationKind::CreateProject.target_kind(), "project");
    assert_eq!(MutationKind::CreateProject.outbox_topic(), "project.created");
    assert_eq!(MutationKind::CreateProject.digest_version(), b"octacity.create-project.v1\0");
    assert_eq!(MutationKind::CompleteJob.outbox_topic(), "job.completed");
    assert_eq!(MutationKind::CancelBuild.outbox_topic(), "build.cancellation-requested");
}

#[test]
fn requests_are_hashed_under_their_kind() {
    let identity = mutation(MutationKind::CreateProject, "key", b"{}");
    let expected: [u8; 32] = sha2::Sha256::digest(b"octacity.create-project.v1\0{}").into();
    assert_eq!(identity.request_digest, expected);
    assert_eq!(identity.request_identity, "create-project:key");
    assert_eq!((identity.key.as_str(), identity.occurred_at), ("key", 77));
    let named = MutationIdentity::new_with_request_identity(
        MutationKind::CreateProject,
        "key".to_owned(),
        "request".to_owned(),
        77,
        EntityKind::Project,
        b"{}",
    );
    assert_eq!(named.request_identity, "request");
    assert_eq!(named.request_digest, expected);
    let given = MutationIdentity::with_digest(
        MutationKind::AcceptTrigger,
        "key".to_owned(),
        77,
        EntityKind::Trigger,
        [3; 32],
    );
    assert_eq!(given.request_digest, [3; 32]);
    assert_ne!(
        mutation(MutationKind::CreateProject, "key", b"x").request_digest,
        mutation(MutationKind::RenameProject, "key", b"x").request_digest
    );
}

#[test]
fn repeated_requests_replay() {
    let identity = mutation(MutationKind::CreateProject, "key", b"{}");
    let digest = identity.request_digest;
    assert_eq!(start(&identity, 1, &digest, true), Ok(MutationStart::Fresh));
    assert_eq!(start(&identity, 0, &digest, false), Ok(MutationStart::Replay));
    assert_eq!(
        start(&identity, 0, &[0; 32], false),
        Err(StoreError::Conflict { entity: EntityKind::Project })
    );
}

#[test]
fn reserved_keys_are_pending() {
    let identity = mutation(MutationKind::CreateProject, "key", b"{}");
    let digest = identity.request_digest;
    let mut pending = serde_json::Map::new();
    pending.insert("status".to_owned(), serde_json::Value::String("pending".to_owned()));
    let pending = serde_json::Value::Object(pending);
    let fresh = begin(&identity, 1, &digest, &pending);
    assert_eq!(fresh, Ok(MutationStart::Fresh));
    let waiting = begin(&identity, 0, &digest, &pending);
    assert_eq!(waiting, start(&identity, 0, &digest, true));
    let done = begin(&identity, 0, &digest, &serde_json::Value::Null);
    assert_eq!(done, Ok(MutationStart::Replay));
}

#[test]
fn outcomes_are_read_back() {
    let stored = encode_outcome(5u8);
    assert_eq!(stored.schema_version, 1);
    assert_eq!(decode_outcome(stored), Ok(5u8));
    assert_eq!(decode_outcome(StoredOutcome { schema_version: 2, value: 5u8 }), Err(StoreError::Unavailable));
    assert_eq!(require_stored(1), Ok(()));
    assert_eq!(require_stored(0), Err(StoreError::Unavailable));
}

#[test]
fn records_are_named_after_their_mutation() {
    let identity = mutation(MutationKind::CreateProject, "key", b"{}");
    let facts = || MutationFacts {
        actor_kind: "management_api",
        actor_identity: Some("someone".to_owned()),
        target_identity: "target".to_owned(),
        safe_metadata: vec![Member { name: "version", value: FactValue::Number(1) }],
        outbox_payload: vec![],
    };
    let (audit, outbox) = commit(&identity, facts());
    assert_eq!((audit.operation, audit.target_kind), ("create-project", "project"));
    assert_eq!((audit.idempotency_key.as_str(), audit.occurred_at), ("key", 77));
    assert_eq!((outbox.topic, outbox.aggregate_identity.as_str()), ("project.created", "target"));
    assert_ne!(audit.id, outbox.id);
    let (again, _) = commit(&identity, facts());
    assert_eq!(again.id, audit.id);
    let digest: [u8; 32] =
        sha2::Sha256::digest(b"octacity.store-mutation-record.v1\0audit\0create-project\0key").into();
    let mut bytes = [0u8; 16];
    bytes.copy_from_slice(&digest[..16]);
    bytes[6] = (bytes[6] & 0x0f) | 0x50;
    bytes[8] = (bytes[8] & 0x3f) | 0x80;
    assert_eq!(mark(digest), bytes);
    assert_eq!(audit.id, u128::from_be_bytes(bytes));
    assert_eq!(stable_record_id("audit", &identity), audit.id);
    assert_ne!(stable_record_id("audit", &mutation(MutationKind::CreateProject, "kez", b"{}")), audit.id);
}

#[test]
fn states_are_named() {
    for (name, state) in [
        ("blocked", JobState::Blocked),
        ("ready", JobState::Ready),
        ("leased", JobState::Leased),
        ("running", JobState::Running),
        ("cancelling", JobState::Cancelling),
        ("succeeded", JobState::Succeeded),
        ("failed", JobState::Failed),
        ("cancelled", JobState::Cancelled),
        ("skipped", JobState::Skipped),
    ] {
        assert_eq!(job_state(state), name);
        assert_eq!(parse_job_state(name), Ok(state));
    }
    assert_eq!(parse_job_state("done"), Err(StoreError::Unavailable));
    assert_eq!(attempt_state(AttemptState::Created), "created");
    assert_eq!(parse_attempt_state("running"), Ok(AttemptState::Running));
    assert_eq!(parse_attempt_state("queued"), Err(StoreError::Unavailable));
    assert_eq!(build_state(BuildState::Queued), "queued");
    assert_eq!(parse_build_state("cancelled"), Ok(BuildState::Cancelled));
    assert_eq!(parse_build_state("created"), Err(StoreError::Unavailable));
}

#[test]
fn columns_are_checked() {
    assert_eq!(identity(1), Ok(1));
    assert_eq!(identity(0), Err(StoreError::Unavailable));
    assert_eq!(optional_identity(None), Ok(None));
    assert_eq!(optional_identity(Some(0)), Err(StoreError::Unavailable));
    assert_eq!(version(1), Ok(1));
    assert_eq!(version(0), Err(StoreError::Unavailable));
    assert_eq!(timestamp(0), Ok(0));
    assert_eq!(timestamp(-1), Err(StoreError::Unavailable));
    assert_eq!(optional_timestamp(Some(3)), Ok(Some(3)));
    assert_eq!(optional_timestamp(Some(-3)), Err(StoreError::Unavailable));
    assert_eq!(next_version(4), Ok(5));
    assert_eq!(next_version(u64::MAX), Err(StoreError::Unavailable));
    assert_eq!(number(4, StoreOperation::CreateAgentPool), Ok(4));
    assert_eq!(
        number(i64::MAX as u64 + 1, StoreOperation::CreateAgentPool),
        Err(StoreError::InvalidInput {
            operation: StoreOperation::CreateAgentPool,
            source: StoreInputError::NumericOutOfRange,
        })
    );
    assert_eq!(job_ids(vec![1, 2]), Ok(vec![1, 2]));
    assert_eq!(job_ids(vec![1, 0]), Err(StoreError::Unavailable));
}

#[test]
fn failed_statements_are_classified() {
    let entity = EntityKind::Trigger;
    let code = |code: &str| Some(code.to_owned());
    assert_eq!(classify(&code("23505"), entity), StoreError::Duplicate { entity });
    assert_eq!(classify(&code("23503"), entity), StoreError::NotFound { entity });
    assert_eq!(classify(&code("23514"), entity), StoreError::Conflict { entity });
    assert_eq!(classify(&code("23P01"), entity), StoreError::Conflict { entity });
    assert_eq!(classify(&code("08006"), entity), StoreError::Unavailable);
    assert_eq!(classify(&None, entity), StoreError::Unavailable);
    assert_eq!(classify_conflict(&code("23503"), entity), StoreError::Conflict { entity });
    assert_eq!(classify_conflict(&code("23P01"), entity), StoreError::Unavailable);
    let project = EntityKind::Project;
    assert_eq!(
        classify_project_create(&code("23505"), &code("projects_pkey")),
        StoreError::Duplicate { entity: project }
    );
    assert_eq!(
        classify_project_create(&code("23505"), &code("projects_name_key")),
        StoreError::Conflict { entity: project }
    );
    assert_eq!(classify_project_create(&code("23503"), &None), StoreError::Unavailable);
}

#[test]
fn rows_must_be_there() {
    assert_eq!(require_affected(2, 2), Ok(()));
    assert!(require_affected(1, 2).is_err());
    assert_eq!(found(Some(3), EntityKind::Job), Ok(3));
    assert_eq!(found::<u8>(None, EntityKind::Job), Err(StoreError::NotFound { entity: EntityKind::Job }));
    assert_eq!(require_exists(true, EntityKind::Job), Ok(()));
    assert_eq!(require_exists(false, EntityKind::Job), Err(StoreError::NotFound { entity: EntityKind::Job }));
}

#[test]
fn migrations_are_compared() {
    let embedded = || {
        vec![
            EmbeddedMigration { version: 1, down: false, checksum: vec![1] },
            EmbeddedMigration { version: 1, down: true, checksum: vec![9] },
            EmbeddedMigration { version: 2, down: false, checksum: vec![2] },
        ]
    };
    let applied = |version: i64, success: bool, checksum: u8| AppliedMigration {
        version,
        success,
        checksum: vec![checksum],
    };
    let both = vec![applied(1, true, 1), applied(2, true, 2)];
    assert_eq!(migration_status(false, &both, &embedded()), MigrationStatus::Pending);
    assert_eq!(migration_status(true, &both, &embedded()), MigrationStatus::Current);
    let first = vec![applied(1, true, 1)];
    assert_eq!(migration_status(true, &first, &embedded()), MigrationStatus::Pending);
    let dirty = vec![applied(1, false, 1)];
    assert_eq!(migration_status(true, &dirty, &embedded()), MigrationStatus::Incompatible);
    let changed = vec![applied(1, true, 7)];
    assert_eq!(migration_status(true, &changed, &embedded()), MigrationStatus::Incompatible);
    let unknown = vec![applied(3, true, 3)];
    assert_eq!(migration_status(true, &unknown, &embedded()), MigrationStatus::Incompatible);
}

#[test]
fn health_is_an_answer_of_one() {
    assert!(health_check(Some(1)));
    assert!(!health_check(Some(0)));
    assert!(!health_check(None));
    assert_eq!(READY_JOB_NOTIFICATION_CHANNEL, "octacity_ready_jobs");
    assert_eq!(ready_job_count(4), Some(4));
    assert_eq!(ready_job_count(-1), None);
}

#[test]
fn pages_are_cut() {
    assert_eq!(fetch_limit(10), 11);
    assert_eq!(cut(vec![1, 2, 3], 2), (vec![1, 2], true));
    assert_eq!(cut(vec![1, 2], 2), (vec![1, 2], false));
}

#[test]
fn texts_are_compared() {
    assert!(same_text("grün", "grün"));
    assert!(!same_text("a", "b"));
    assert!(same_bytes(&[1, 2], &[1, 2]));
    assert!(!same_bytes(&[1, 2], &[1]));
    assert!(same_optional_text(&None, &None));
    assert!(!same_optional_text(&Some("a".to_owned()), &None));
    assert!(column_holds(&Some("a".to_owned()), "a"));
    assert!(!column_holds(&None, "a"));
    let mut bytes = vec![1];
    append_bytes(&mut bytes, &[2, 3]);
    assert_eq!(bytes, vec![1, 2, 3]);
}

#[test]
fn numbers_are_written_in_decimal() {
    assert_eq!(decimal(0), "0");
    assert_eq!(decimal(10), "10");
    assert_eq!(decimal(u64::MAX), u64::MAX.to_string());
}

fn names(members: &[Member]) -> Vec<&'static str> {
    members.iter().map(|member| member.name).collect()
}

#[test]
fn requests_are_recognised_by_their_members() {
    let text = |value: &str| value.to_owned();
    assert_eq!(names(&fingerprint::create_project(None, text("a"))), ["parent_id", "name"]);
    assert_eq!(names(&fingerprint::rename_project(1, 2, text("a"))), ["id", "expected_version", "name"]);
    assert_eq!(names(&fingerprint::move_project(1, 2, Some(3))), ["id", "expected_version", "parent_id"]);
    assert_eq!(names(&fingerprint::delete_project(1, 2)), ["id", "expected_version"]);
    assert_eq!(
        names(&fingerprint::publish_policy(1, None, text("{}"))),
        ["project_id", "expected_current_version", "policy"]
    );
    assert_eq!(names(&fingerprint::create_pool(text("a"), text("{}"))), ["name", "definition"]);
    assert_eq!(
        names(&fingerprint::publish_version(1, 2, text("{}"))),
        ["id", "expected_current_version", "definition"]
    );
    assert_eq!(names(&fingerprint::delete_pool(1, 2)), ["id", "expected_current_version"]);
    assert_eq!(
        names(&fingerprint::reassign_agent(1, 2, 3)),
        ["agent_id", "expected_version", "target_pool_id"]
    );
    assert_eq!(names(&fingerprint::drain_agent(1, 2, "forced")), ["agent_id", "expected_version", "mode"]);
    assert_eq!(
        names(&fingerprint::create_pipeline(1, 2, text("a"), text("{}"))),
        ["id", "project_id", "name", "dag"]
    );
    assert_eq!(
        names(&fingerprint::publish_pipeline(1, 2, text("{}"))),
        ["id", "expected_current_version", "dag"]
    );
    assert_eq!(
        names(&fingerprint::create_repository(1, text("a"), text("{}"))),
        ["project_id", "name", "definition"]
    );
    assert_eq!(
        names(&fingerprint::create_configuration(1, 2, text("a"), text("{}"))),
        ["id", "project_id", "name", "definition"]
    );
    assert_eq!(
        names(&fingerprint::create_trigger(1, 2, 3, "manual", true, text("{}"))),
        ["version", "configuration_id", "configuration_version", "kind", "enabled", "definition"]
    );
    assert_eq!(
        names(&fingerprint::publish_internal_trigger(1, 2, text("{}"), true, text("{}"))),
        ["id", "expected_current_version", "target", "enabled", "definition"]
    );
    assert_eq!(
        names(&fingerprint::create_webhook(1, 2, 3, true, text("{}"))),
        ["trigger_version", "configuration_id", "configuration_version", "enabled", "definition"]
    );
    assert_eq!(names(&fingerprint::record_registration(1, text("{}"))), ["integration_id", "registration"]);
    assert_eq!(
        names(&fingerprint::create_schedule(1, 2, 3, true, text("{}"), text("{}"))),
        ["version", "configuration_id", "configuration_version", "enabled", "definition", "schedule"]
    );
}

#[test]
fn work_on_jobs_is_recognised_by_its_members() {
    let text = |value: &str| value.to_owned();
    assert_eq!(
        names(&fingerprint::claim_job(1, text("f"), 2, 3, 4, text("{}"))),
        ["agent_id", "fence", "lease_id", "pool_id", "registration_epoch", "snapshot"]
    );
    assert_eq!(
        names(&fingerprint::renew_lease(1, 2, text("f"), 3, 4, 5)),
        ["agent_id", "attempt", "fence", "job_id", "lease_id", "registration_epoch"]
    );
    assert_eq!(names(&fingerprint::recover_lease(1, 2)), ["lease_id", "job_id"]);
    let members = fingerprint::complete_job(1, None, text("f"), Some(9), "succeeded", 2, 3);
    assert_eq!(
        names(&members),
        ["agent_id", "failure_class", "fence", "final_sequence", "kind", "lease_id", "registration_epoch"]
    );
    assert!(matches!(members[3].value, FactValue::OptionalNumber(Some(9))));
    assert_eq!(
        names(&fingerprint::append_events(1, text("[]"), text("f"), 2, text("[]"), 3)),
        ["agent_id", "events", "fence", "lease_id", "log_chunks", "registration_epoch"]
    );
    assert_eq!(names(&fingerprint::cancel_build(1)), ["build_id"]);
    assert_eq!(
        names(&fingerprint::retry_build(1, 2, 3, text("[]"))),
        ["build_id", "attempt_id", "attempt_number", "jobs"]
    );
    assert_eq!(
        names(&fingerprint::issue_enrollment(vec![1], 2, 3, text("{}"), 4)),
        ["credential_hash", "pool_id", "pool_version", "expected_platform", "expires_at"]
    );
    assert_eq!(
        names(&fingerprint::register_agent(vec![1], 2, text("a"), text("{}"), text("{}"), text("{}"), 3)),
        ["credential_hash", "agent_id", "agent_name", "proof", "platform", "inventory", "expires_at"]
    );
    assert_eq!(names(&fingerprint::revoke_credential(text("x"))), ["target_identity"]);
    assert_eq!(
        names(&fingerprint::place_hold(1, text("r"), None, None)),
        ["build_id", "reason", "expires_at", "actor_identity"]
    );
    assert_eq!(
        names(&fingerprint::release_hold(1, 2, Some(text("me")))),
        ["build_id", "expected_version", "actor_identity"]
    );
}

#[test]
fn conflicts_are_reported_of_an_entity() {
    assert_eq!(fingerprint::conflict_entity(MutationKind::CreateProject), EntityKind::Project);
    assert_eq!(fingerprint::conflict_entity(MutationKind::RenewLease), EntityKind::Lease);
    assert_eq!(fingerprint::conflict_entity(MutationKind::AppendJobEvents), EntityKind::Job);
    assert_eq!(fingerprint::conflict_entity(MutationKind::DeleteManagedWebhook), EntityKind::Integration);
}
