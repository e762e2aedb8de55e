use store_postgres::domain::{EntityKind, MutationDisposition, StoreError, StoreInputError, StoreOperation};
use store_postgres::log_chunk::{BuildLogStream, LogChunkManifest, LogObjectRow};
use store_postgres::mutation::FactValue;
use store_postgres::retention::{
    allocate_search_deletion, check_failure, claim, complete_chunk, complete_search, component, component_name, fail,
    finish_pass, hide_build_component, hide_component, lock_work, log_position, must_hide, phase, phase_name, plan,
    prepare, remaining_objects, require_hidden, require_object, retention_objects, BuildResultComponent, ClaimRow,
    DeleteLogSearchDocuments, FailureReplayRow, LockedWork, LockedWorkRow, ObjectList, RetentionObjectIdentity,
    RetentionPassOutcome, RetentionPhase, RetentionPlan,
};
use store_postgres::retention_hold::{
    active_for_retention, build_state_sql, facts, hold_state, latest_hold_sql, place, read, release, replay,
    terminal_transition_millis, BuildRetentionRow, HoldCheck, HoldRow, PlaceBuildResultHold,
    ReleaseBuildResultHold, ReleaseBuildResultHoldError, RetentionHoldState,
};
use store_postgres::retention_orphan;

const CONFLICT: StoreError = StoreError::Conflict { entity: EntityKind::RetentionWork };
const HOLD_CONFLICT: StoreError = StoreError::Conflict { entity: EntityKind::RetentionHold };

fn locked(part: BuildResultComponent, at: &str) -> LockedWork {
    LockedWork {
        work_id: 1,
        project_id: 2,
        build_id: 3,
        component: part,
        phase: at.to_owned(),
        search_work_id: None,
        search_position: None,
    }
}

#[test]
fn parts_and_phases_are_named() {
    for (name, part) in [
        ("metadata", BuildResultComponent::Metadata),
        ("logs", BuildResultComponent::Logs),
        ("artifacts", BuildResultComponent::Artifacts),
        ("reports", BuildResultComponent::Reports),
    ] {
        assert_eq!(component(name), Ok(part));
        assert_eq!(component_name(part), name);
    }
    assert_eq!(component("cache"), Err(StoreError::Unavailable));
    for (name, at) in [
        ("pending", RetentionPhase::Pending),
        ("hidden", RetentionPhase::Hidden),
        ("search_deleted", RetentionPhase::SearchDeleted),
        ("bytes_deleted", RetentionPhase::BytesDeleted),
        ("dead_letter", RetentionPhase::DeadLetter),
    ] {
        assert_eq!(phase(name), Ok(at));
        assert_eq!(phase_name(at), name);
    }
    assert_eq!(phase(""), Err(StoreError::Unavailable));
}

#[test]
fn failure_codes_are_single_words() {
    let operation = StoreOperation::FailRetentionWork;
    let invalid = Err(StoreError::InvalidInput { operation, source: StoreInputError::InvalidWorkerClaim });
    assert_eq!(check_failure("timeout", 10, 5, None, operation), Ok(()));
    assert_eq!(check_failure("timeout", 7, 5, Some(6), operation), Ok(()));
    assert_eq!(check_failure("", 10, 5, None, operation), invalid);
    assert_eq!(check_failure("timeout", 6, 5, None, operation), invalid);
    assert_eq!(check_failure("ööö", 5, 5, None, operation), invalid);
    assert_eq!(check_failure("two words", 20, 5, None, operation), invalid);
    assert_eq!(check_failure("tab\tbed", 20, 5, None, operation), invalid);
    assert_eq!(check_failure("wide\u{3000}space", 20, 5, None, operation), invalid);
    assert_eq!(check_failure("zero\u{200b}width", 20, 5, None, operation), Ok(()));
    assert_eq!(check_failure("timeout", 10, 5, Some(5), operation), invalid);
}

#[test]
fn white_space_is_what_unicode_says() {
    let operation = StoreOperation::FailOrphanLogChunk;
    for code in 0..=0x10ffffu32 {
        if let Some(character) = char::from_u32(code) {
            let refused = check_failure(&character.to_string(), 4, 0, None, operation).is_err();
            let white = matches!(
                code,
                0x9..=0xd | 0x20 | 0x85 | 0xa0 | 0x1680 | 0x2000..=0x200a | 0x2028 | 0x2029 | 0x202f | 0x205f | 0x3000
            );
            assert_eq!(refused, white, "{code:x}");
        }
    }
}

fn failed(state: &str, retry_at: Option<i64>) -> Option<FailureReplayRow> {
    Some(FailureReplayRow {
        state: state.to_owned(),
        owner: Some("worker".to_owned()),
        error_code: Some("timeout".to_owned()),
        failed_at_millis: Some(5),
        retry_at_millis: retry_at,
    })
}

#[test]
fn failures_are_recorded_once() {
    assert_eq!(fail(20, 1, &None, "worker", "timeout", 5, None), Ok(()));
    assert_eq!(fail(20, 0, &failed("hidden", Some(9)), "worker", "timeout", 5, Some(9)), Ok(()));
    assert_eq!(fail(20, 0, &failed("dead_letter", None), "worker", "timeout", 5, None), Ok(()));
    assert_eq!(fail(20, 0, &failed("hidden", None), "worker", "timeout", 5, None), Err(CONFLICT));
    assert_eq!(fail(20, 0, &failed("hidden", Some(9)), "other", "timeout", 5, Some(9)), Err(CONFLICT));
    assert_eq!(fail(20, 0, &None, "worker", "timeout", 5, None), Err(CONFLICT));
    assert_eq!(
        fail(6, 1, &None, "worker", "timeout", 5, None),
        Err(StoreError::InvalidInput {
            operation: StoreOperation::FailRetentionWork,
            source: StoreInputError::InvalidWorkerClaim,
        })
    );
    assert_eq!(
        retention_orphan::fail(20, 1, &None, "worker", "two words", 5, None),
        Err(StoreError::InvalidInput {
            operation: StoreOperation::FailOrphanLogChunk,
            source: StoreInputError::InvalidWorkerClaim,
        })
    );
    let orphan = retention_orphan::fail(20, 0, &failed("retry_scheduled", Some(9)), "worker", "timeout", 5, Some(9));
    assert_eq!(orphan, Ok(()));
    let orphan = retention_orphan::fail(20, 0, &failed("claimed", Some(9)), "worker", "timeout", 5, Some(9));
    assert_eq!(orphan, Err(CONFLICT));
}

#[test]
fn work_is_claimed() {
    let row = || ClaimRow {
        id: 1,
        project_id: 2,
        build_id: 3,
        resource_kind: "logs".to_owned(),
        phase: "hidden".to_owned(),
        deadline_millis: 10,
        attempt_count: 2,
        claim_owner: Some("worker".to_owned()),
        owner_verdict: Ok(()),
        claim_expires_at_millis: Some(20),
    };
    let claims = match claim(Ok(()), &vec![row(), row()]) {
        Ok(claims) => claims,
        Err(_) => panic!("the work can be read"),
    };
    assert_eq!(claims.len(), 2);
    assert_eq!(claims[1].component, BuildResultComponent::Logs);
    assert_eq!(claims[1].phase, RetentionPhase::Hidden);
    assert_eq!((claims[0].deadline, claims[0].attempt, claims[0].claim_expires_at), (10, 2, 20));
    let mut often = row();
    often.attempt_count = 65536;
    assert!(matches!(claim(Ok(()), &vec![row(), often]), Err(StoreError::Unavailable)));
    let mut unowned = row();
    unowned.claim_owner = None;
    assert!(matches!(claim(Ok(()), &vec![unowned]), Err(StoreError::Unavailable)));
    assert!(matches!(claim(Err(CONFLICT), &vec![]), Err(error) if error == CONFLICT));
    let mut nobody = row();
    nobody.owner_verdict = Err(StoreError::CredentialRejected);
    assert!(matches!(claim(Ok(()), &vec![row(), nobody]), Err(StoreError::CredentialRejected)));
}

#[test]
fn only_the_owner_locks_work() {
    let row = |kind: &str| LockedWorkRow {
        project_id: 2,
        build_id: 3,
        resource_kind: kind.to_owned(),
        phase: "pending".to_owned(),
        search_work_id: None,
        search_position: None,
    };
    assert!(matches!(lock_work(1, None), Err(CONFLICT)));
    assert!(matches!(lock_work(1, Some(row("cache"))), Err(StoreError::Unavailable)));
    let work = match lock_work(1, Some(row("logs"))) {
        Ok(work) => work,
        Err(_) => panic!("the work can be read"),
    };
    assert_eq!((work.work_id, work.build_id), (1, 3));
    assert_eq!(must_hide(&work), Ok(true));
    assert_eq!(must_hide(&locked(BuildResultComponent::Logs, "hidden")), Ok(false));
    assert_eq!(must_hide(&locked(BuildResultComponent::Logs, "gone")), Err(StoreError::Unavailable));
}

#[test]
fn hidden_logs_are_forgotten_before_their_content_goes() {
    let work = locked(BuildResultComponent::Logs, "pending");
    let allocated = match allocate_search_deletion(&work, 7) {
        Ok(Some(allocated)) => allocated,
        _ => panic!("logs get work for the index"),
    };
    assert_ne!(allocated.0, 3);
    assert_eq!(allocated.1, 8);
    assert_eq!(allocate_search_deletion(&work, i64::MAX), Err(StoreError::Unavailable));
    let reports = locked(BuildResultComponent::Reports, "pending");
    assert_eq!(allocate_search_deletion(&reports, 7), Ok(None));
    let hidden = hide_component(work, Some(allocated));
    assert_eq!(hidden.phase, "hidden");
    assert_eq!(allocate_search_deletion(&hidden, 7), Ok(None));
    assert_eq!(
        plan(&hidden),
        Ok(RetentionPlan {
            search_deletion: Some(DeleteLogSearchDocuments {
                work_id: allocated.0,
                position: 8,
                project_id: 2,
                build_id: 3,
            }),
            objects: ObjectList::Nothing,
        })
    );
    assert_eq!(complete_search(&hidden), Ok(Some(allocated)));
    assert_eq!(finish_pass(&hidden, false), Ok(RetentionPassOutcome::Pending));
    let forgotten = locked(BuildResultComponent::Logs, "search_deleted");
    assert_eq!(
        plan(&forgotten),
        Ok(RetentionPlan { search_deletion: None, objects: ObjectList::LogChunks })
    );
    assert_eq!(complete_search(&forgotten), Ok(None));
    assert_eq!(finish_pass(&forgotten, true), Ok(RetentionPassOutcome::Pending));
    assert_eq!(finish_pass(&forgotten, false), Ok(RetentionPassOutcome::Completed));
}

#[test]
fn the_work_for_the_index_is_derived_from_the_build() {
    let first = allocate_search_deletion(&locked(BuildResultComponent::Logs, "pending"), 7);
    let again = allocate_search_deletion(&locked(BuildResultComponent::Logs, "pending"), 7);
    assert_eq!(first, again);
    let mut other = locked(BuildResultComponent::Logs, "pending");
    other.build_id = 4;
    assert_ne!(first, allocate_search_deletion(&other, 7));
    let namespace = uuid::Uuid::from_u128(3);
    let expected = uuid::Uuid::new_v5(&namespace, b"retention:delete-build-logs").as_u128();
    assert_eq!(first, Ok(Some((expected, 8))));
}

#[test]
fn unreadable_search_work_is_reported() {
    let hidden = locked(BuildResultComponent::Logs, "hidden");
    assert_eq!(plan(&hidden), Err(StoreError::Unavailable));
    assert_eq!(complete_search(&hidden), Err(StoreError::Unavailable));
    assert_eq!(complete_search(&locked(BuildResultComponent::Metadata, "hidden")), Err(CONFLICT));
    assert_eq!(log_position(Some(3)), Ok(3));
    assert_eq!(log_position(Some(0)), Err(StoreError::Unavailable));
    assert_eq!(log_position(None), Err(StoreError::Unavailable));
    let odd = locked(BuildResultComponent::Logs, "odd");
    assert_eq!(finish_pass(&odd, false), Err(StoreError::Unavailable));
    assert_eq!(
        finish_pass(&locked(BuildResultComponent::Metadata, "odd"), false),
        Ok(RetentionPassOutcome::Completed)
    );
}

#[test]
fn other_parts_are_deleted_at_once() {
    let reports = locked(BuildResultComponent::Reports, "hidden");
    assert_eq!(plan(&reports), Ok(RetentionPlan { search_deletion: None, objects: ObjectList::Reports }));
    assert_eq!(retention_objects(BuildResultComponent::Artifacts), ObjectList::Artifacts);
    assert_eq!(retention_objects(BuildResultComponent::Metadata), ObjectList::Nothing);
    assert_eq!(remaining_objects(BuildResultComponent::Artifacts), Some("artifact"));
    assert_eq!(remaining_objects(BuildResultComponent::Reports), Some("report"));
    assert_eq!(remaining_objects(BuildResultComponent::Logs), None);
}

#[test]
fn hiding_reaches_the_build() {
    let sql = hide_build_component(BuildResultComponent::Reports);
    assert!(matches!(sql, Ok(sql) if sql.starts_with("UPDATE builds SET reports_visible = false")));
    let sql = hide_build_component(BuildResultComponent::Logs);
    assert!(matches!(sql, Ok(sql) if sql.contains("logs_hidden_at") && sql.ends_with("WHERE id = $2")));
    assert_eq!(hide_build_component(BuildResultComponent::Metadata), Err(StoreError::Unavailable));
    assert_eq!(require_hidden(1), Ok(()));
    assert_eq!(require_hidden(0), Err(StoreError::NotFound { entity: EntityKind::Build }));
}

#[test]
fn content_belongs_to_its_part() {
    let logs = locked(BuildResultComponent::Logs, "search_deleted");
    let artifacts = locked(BuildResultComponent::Artifacts, "hidden");
    assert_eq!(require_object(&logs, RetentionObjectIdentity::Log(1)), Ok(()));
    assert_eq!(require_object(&logs, RetentionObjectIdentity::Output(1)), Err(CONFLICT));
    assert_eq!(require_object(&artifacts, RetentionObjectIdentity::Output(1)), Ok(()));
    assert_eq!(require_object(&artifacts, RetentionObjectIdentity::Log(1)), Err(CONFLICT));
    assert_eq!(complete_chunk(1, None), Ok(()));
    assert_eq!(complete_chunk(0, Some(true)), Ok(()));
    assert_eq!(complete_chunk(0, Some(false)), Err(CONFLICT));
    assert_eq!(complete_chunk(0, None), Err(StoreError::NotFound { entity: EntityKind::LogChunk }));
}

fn manifest() -> LogChunkManifest {
    LogChunkManifest {
        chunk_id: 1,
        job_id: 2,
        stream: BuildLogStream::Stdout,
        first_sequence: 3,
        last_sequence: 4,
        byte_length: 5,
        digest: vec![9; 32],
        object_identity: "logs/1".to_owned(),
    }
}

fn orphan_row() -> LogObjectRow {
    LogObjectRow {
        id: 1,
        job_id: 2,
        stream: "stdout".to_owned(),
        first_sequence: 3,
        last_sequence: 4,
        object_identity: "logs/1".to_owned(),
        byte_length: 5,
        sha256: vec![9; 32],
        is_valid: true,
    }
}

#[test]
fn orphans_are_staged_once() {
    let invalid = StoreError::InvalidInput {
        operation: StoreOperation::StageOrphanLogChunk,
        source: StoreInputError::InvalidLogChunkManifest,
    };
    let numbers = retention_orphan::stage(&manifest(), &Some(manifest()));
    assert!(matches!(numbers, Ok(numbers) if numbers.first_sequence == 3 && numbers.byte_length == 5));
    assert_eq!(retention_orphan::stage(&manifest(), &None), Err(invalid));
    let mut foreign = manifest();
    foreign.job_id = 7;
    assert_eq!(retention_orphan::stage(&manifest(), &Some(foreign)), Err(invalid));
    let mut large = manifest();
    large.byte_length = u64::MAX;
    let mut same = manifest();
    same.byte_length = u64::MAX;
    assert_eq!(retention_orphan::stage(&large, &Some(same)), Err(StoreError::Unavailable));
    assert_eq!(retention_orphan::staged(1, &None, &manifest()), Ok(()));
    assert_eq!(retention_orphan::staged(0, &Some(orphan_row()), &manifest()), Ok(()));
    let mut other = orphan_row();
    other.object_identity = "logs/2".to_owned();
    assert_eq!(retention_orphan::staged(0, &Some(other), &manifest()), Err(CONFLICT));
    assert_eq!(retention_orphan::staged(0, &None, &manifest()), Err(StoreError::Unavailable));
}

#[test]
fn orphans_are_claimed_and_completed() {
    let row = |owner_verdict: Result<(), StoreError>| retention_orphan::OrphanRow {
        chunk: orphan_row(),
        attempt_count: 3,
        claim_owner: Some("worker".to_owned()),
        owner_verdict,
    };
    let refused = retention_orphan::claim(Ok(()), &vec![row(Ok(())), row(Err(StoreError::CredentialRejected))]);
    assert!(matches!(refused, Err(StoreError::CredentialRejected)));
    let claims = retention_orphan::claim(Ok(()), &vec![row(Ok(()))]);
    assert!(matches!(claims, Ok(claims) if claims[0].attempt == 3 && claims[0].manifest.chunk_id == 1));
    let left = Some(retention_orphan::CompletionReplay {
        state: "completed".to_owned(),
        last_claim_owner: Some("worker".to_owned()),
        completed_at_millis: Some(5),
    });
    assert_eq!(retention_orphan::complete(1, &None, "worker", 5), Ok(()));
    assert_eq!(retention_orphan::complete(0, &left, "worker", 5), Ok(()));
    assert_eq!(retention_orphan::complete(0, &left, "worker", 6), Err(CONFLICT));
    assert_eq!(retention_orphan::complete(0, &None, "worker", 5), Err(CONFLICT));
}

#[test]
fn work_is_hidden_before_it_is_done() {
    let row = |part: &str, phase: &str| {
        Some(LockedWorkRow {
            project_id: 2,
            build_id: 3,
            resource_kind: part.to_owned(),
            phase: phase.to_owned(),
            search_work_id: None,
            search_position: None,
        })
    };
    let (next, allocated) = match prepare(Ok(()), 1, row("logs", "pending"), 1, 7) {
        Ok((next, Some(allocated))) => (next, allocated),
        _ => panic!("the logs can be hidden"),
    };
    assert_eq!(allocated.1, 8);
    assert_eq!(next.objects, ObjectList::Nothing);
    assert!(matches!(
        next.search_deletion,
        Some(deletion) if deletion.work_id == allocated.0 && deletion.position == 8 && deletion.build_id == 3
    ));
    assert_eq!(
        prepare(Ok(()), 1, row("artifacts", "pending"), 1, 7),
        Ok((RetentionPlan { search_deletion: None, objects: ObjectList::Artifacts }, None))
    );
    assert_eq!(
        prepare(Ok(()), 1, row("artifacts", "pending"), 0, 7),
        Err(StoreError::NotFound { entity: EntityKind::Build })
    );
    assert_eq!(
        prepare(Ok(()), 1, row("metadata", "pending"), 0, 7),
        Ok((RetentionPlan { search_deletion: None, objects: ObjectList::Nothing }, None))
    );
    assert_eq!(
        prepare(Ok(()), 1, row("reports", "hidden"), 0, 7),
        Ok((RetentionPlan { search_deletion: None, objects: ObjectList::Reports }, None))
    );
    assert_eq!(prepare(Ok(()), 1, row("logs", "hidden"), 0, 7), Err(StoreError::Unavailable));
    assert_eq!(prepare(Ok(()), 1, row("logs", "pending"), 1, i64::MAX), Err(StoreError::Unavailable));
    assert_eq!(prepare(Ok(()), 1, row("logs", "odd"), 1, 7), Err(StoreError::Unavailable));
    assert_eq!(prepare(Ok(()), 1, None, 1, 7), Err(CONFLICT));
    assert_eq!(prepare(Err(HOLD_CONFLICT), 1, None, 1, 7), Err(HOLD_CONFLICT));
}

fn build() -> BuildRetentionRow {
    BuildRetentionRow {
        build_id: 3,
        metadata_deadline_millis: 10,
        log_deadline_millis: 20,
        artifact_deadline_millis: 30,
        report_deadline_millis: 40,
        metadata_visible: true,
        logs_visible: true,
        artifacts_visible: true,
        reports_visible: true,
    }
}

fn hold(version: i64) -> HoldRow {
    HoldRow {
        build_id: 3,
        version,
        reason: "release".to_owned(),
        created_at_millis: 5,
        expires_at_millis: Some(50),
        expired_at_millis: None,
        released_at_millis: None,
        actor_kind: "unauthenticated_management".to_owned(),
        actor_identity: None,
        request_identity: "request".to_owned(),
        release_actor_kind: None,
        release_actor_identity: None,
        release_request_identity: None,
    }
}

fn placing(placed_at: i64) -> PlaceBuildResultHold {
    PlaceBuildResultHold {
        build_id: 3,
        reason: "audit".to_owned(),
        expires_at: Some(100),
        actor_identity: Some("someone".to_owned()),
        request_identity: "request-2".to_owned(),
        placed_at,
    }
}

fn releasing(expected_version: u64, released_at: i64) -> ReleaseBuildResultHold {
    ReleaseBuildResultHold {
        build_id: 3,
        expected_version,
        actor_identity: Some("someone".to_owned()),
        request_identity: "request-3".to_owned(),
        released_at,
    }
}

#[test]
fn statements_lock_where_asked_to() {
    assert_eq!(build_state_sql(true), format!("{} FOR UPDATE", build_state_sql(false)));
    assert_eq!(latest_hold_sql(true), format!("{} FOR UPDATE", latest_hold_sql(false)));
    assert!(build_state_sql(false).ends_with("FROM builds WHERE id = $1"));
    assert!(latest_hold_sql(false).ends_with("ORDER BY version DESC LIMIT 1"));
}

#[test]
fn holds_end_by_release_or_in_time() {
    assert_eq!(hold_state(&hold(1), 49), RetentionHoldState::Active);
    assert_eq!(hold_state(&hold(1), 50), RetentionHoldState::Expired);
    let mut released = hold(1);
    released.released_at_millis = Some(7);
    assert_eq!(hold_state(&released, 50), RetentionHoldState::Released);
    assert_eq!(terminal_transition_millis(&released), Some(7));
    let mut expired = hold(1);
    expired.expired_at_millis = Some(50);
    assert_eq!(hold_state(&expired, 1), RetentionHoldState::Expired);
    assert_eq!(terminal_transition_millis(&expired), Some(50));
    assert_eq!(terminal_transition_millis(&hold(1)), None);
}

#[test]
fn the_first_hold_is_version_one() {
    let (row, outcome) = match place(Ok(()), Some(build()), &None, placing(60)) {
        Ok(placed) => placed,
        Err(_) => panic!("the hold can be placed"),
    };
    assert_eq!((row.version, row.created_at_millis, row.expires_at_millis), (1, 60, Some(100)));
    assert_eq!(row.actor_kind, "unauthenticated_management");
    assert_eq!(row.actor_identity.as_deref(), Some("someone"));
    assert_eq!(outcome.disposition, MutationDisposition::Applied);
    assert_eq!(outcome.retention.deadlines.reports, 40);
    let placed = match &outcome.retention.hold {
        Some(placed) => placed,
        None => panic!("the hold is shown"),
    };
    assert_eq!(placed.state, RetentionHoldState::Active);
    assert_eq!(placed.reason, "audit");
    assert!(placed.release_audit.is_none());
    let told = match facts(&outcome, Some("someone".to_owned())) {
        Ok(told) => told,
        Err(_) => panic!("there is a hold to tell of"),
    };
    assert_eq!(told.actor_kind, "unauthenticated_management");
    assert_eq!(told.target_identity, "00000000-0000-0000-0000-000000000003");
    assert_eq!(told.safe_metadata[0].name, "version");
    assert!(matches!(told.safe_metadata[1].value, FactValue::Word("active")));
    assert!(matches!(told.safe_metadata[2].value, FactValue::OptionalTime(Some(100))));
    assert!(matches!(told.outbox_payload[0].value, FactValue::Identity(3)));
    assert_eq!(replay(outcome).disposition, MutationDisposition::Replayed);
}

#[test]
fn holds_do_not_overlap() {
    assert!(matches!(place(Ok(()), Some(build()), &Some(hold(4)), placing(49)), Err(HOLD_CONFLICT)));
    let next = place(Ok(()), Some(build()), &Some(hold(4)), placing(60));
    assert!(matches!(&next, Ok((row, _)) if row.version == 5));
    let mut released = hold(4);
    released.released_at_millis = Some(30);
    assert!(matches!(place(Ok(()), Some(build()), &Some(released), placing(29)), Err(HOLD_CONFLICT)));
}

#[test]
fn holds_need_the_whole_result() {
    let mut partial = build();
    partial.logs_visible = false;
    assert!(matches!(place(Ok(()), Some(partial), &None, placing(60)), Err(HOLD_CONFLICT)));
    assert!(matches!(
        place(Ok(()), None, &None, placing(60)),
        Err(StoreError::NotFound { entity: EntityKind::Build })
    ));
    let refused = Err(StoreError::CredentialRejected);
    assert!(matches!(place(refused, None, &None, placing(60)), Err(StoreError::CredentialRejected)));
    assert!(matches!(
        place(Ok(()), Some(build()), &Some(hold(i64::MAX)), placing(60)),
        Err(StoreError::Unavailable)
    ));
    let mut broken = build();
    broken.log_deadline_millis = -1;
    assert!(matches!(place(Ok(()), Some(broken), &None, placing(60)), Err(StoreError::Unavailable)));
}

#[test]
fn holds_are_released_once() {
    let (row, outcome) = match release(Some(build()), Some(hold(4)), releasing(4, 20)) {
        Ok(released) => released,
        Err(_) => panic!("the hold can be released"),
    };
    assert_eq!((row.version, row.released_at_millis), (5, Some(20)));
    assert_eq!(row.release_actor_kind.as_deref(), Some("unauthenticated_management"));
    assert_eq!(row.release_request_identity.as_deref(), Some("request-3"));
    let shown = match outcome.retention.hold {
        Some(shown) => shown,
        None => panic!("the hold is shown"),
    };
    assert_eq!(shown.state, RetentionHoldState::Released);
    assert!(matches!(shown.release_audit, Some(audit) if audit.request_identity == "request-3"));
    assert!(matches!(
        release(Some(build()), Some(row), releasing(5, 21)),
        Err(ReleaseBuildResultHoldError::Store(HOLD_CONFLICT))
    ));
}

#[test]
fn releases_name_the_latest_version() {
    assert!(matches!(
        release(Some(build()), Some(hold(4)), releasing(3, 20)),
        Err(ReleaseBuildResultHoldError::PreconditionFailed)
    ));
    assert!(matches!(
        release(Some(build()), Some(hold(4)), releasing(4, 4)),
        Err(ReleaseBuildResultHoldError::Store(HOLD_CONFLICT))
    ));
    assert!(matches!(
        release(Some(build()), Some(hold(4)), releasing(4, 50)),
        Err(ReleaseBuildResultHoldError::Store(HOLD_CONFLICT))
    ));
    assert!(matches!(
        release(Some(build()), None, releasing(4, 20)),
        Err(ReleaseBuildResultHoldError::Store(StoreError::NotFound { entity: EntityKind::RetentionHold }))
    ));
    assert!(matches!(
        release(None, Some(hold(4)), releasing(4, 20)),
        Err(ReleaseBuildResultHoldError::Store(StoreError::NotFound { entity: EntityKind::Build }))
    ));
    assert!(matches!(
        release(Some(build()), Some(hold(0)), releasing(4, 20)),
        Err(ReleaseBuildResultHoldError::Store(StoreError::Unavailable))
    ));
}

#[test]
fn due_expiries_are_put_on_record() {
    assert!(matches!(active_for_retention(None, 10), Ok(HoldCheck::Inactive)));
    assert!(matches!(active_for_retention(Some(hold(4)), 49), Ok(HoldCheck::Active)));
    let row = match active_for_retention(Some(hold(4)), 50) {
        Ok(HoldCheck::Expire(row)) => row,
        _ => panic!("the hold has run out"),
    };
    assert_eq!((row.version, row.expired_at_millis), (5, Some(50)));
    assert!(matches!(active_for_retention(Some(row), 60), Ok(HoldCheck::Inactive)));
    let mut endless = hold(4);
    endless.expires_at_millis = None;
    assert!(matches!(active_for_retention(Some(endless), i64::MAX), Ok(HoldCheck::Active)));
    assert!(matches!(active_for_retention(Some(hold(i64::MAX)), 50), Err(StoreError::Unavailable)));
}

#[test]
fn retention_is_read_with_its_hold() {
    let state = match read(Some(build()), Some(hold(4)), 50) {
        Ok(state) => state,
        Err(_) => panic!("it can be read"),
    };
    assert!(state.visibility.complete());
    assert!(matches!(state.hold, Some(hold) if hold.state == RetentionHoldState::Expired && hold.version == 4));
    assert!(matches!(read(None, None, 50), Err(StoreError::NotFound { entity: EntityKind::Build })));
    let mut half = hold(4);
    half.release_actor_kind = Some("someone".to_owned());
    assert!(matches!(read(Some(build()), Some(half), 50), Err(StoreError::Unavailable)));
}
