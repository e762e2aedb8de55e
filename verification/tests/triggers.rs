use store_postgres::accept_trigger::{
    accepted_facts, acceptance_numbers, allowed_pools, insert_occurrence, next_step, outcome, repeat_evaluation,
    replay_accepted, replay_evaluation, replay_suppressed, require_references, require_trigger_reference,
    suppressed_facts, suppression_numbers, trigger_actor, EvaluationEvent, EvaluationStep, ExistingEvaluation,
    NormalizedTriggerOccurrence, SuppressTriggerOutcome, TriggerCause, TriggerDefinitionRef, TriggerEvaluation, TriggerTarget,
};
use store_postgres::attempt_materialization::MaterializedJob;
use store_postgres::domain::{
    EntityKind, MutationDisposition, StoreError, StoreInputError, StoreOperation, INITIAL_VERSION,
};
use store_postgres::external_trigger::{
    self, attempts, claim_managed_operations, create_facts, create_managed, create_managed_facts,
    decode_managed_operation_claim, enqueued, fail_managed_operation, failure_code, managed_operation, parse_failure_code, parse_managed_operation, read_managed, record_facts,
    record_kind, record_managed, replay_managed_create, replay_record, require_held, CreateManagedWebhook,
    CreateUnmanagedWebhook, ManagedOperationClaimRow, ManagedWebhookOperation, ManagedWebhookRow,
    RecordManagedWebhookRegistration, TriggerRow, WebhookFailureCode, WebhookRow,
};
use store_postgres::internal_trigger::{
    ancestry, complete, completed_event, event_kind, event_kind_name, event_subject, load_claim, match_keys, match_limit,
    matching_triggers, AncestorRow, ClaimedEventRow, EventRows, EventSubject, MatchRow, OccurrenceRow, SourceBuildRow,
    TerminalBuildEvent,
};
use store_postgres::internal_trigger_definition::{
    self, list, CurrentVersion, DefinitionRow, PublishInternalTriggerVersion,
};
use store_postgres::mutation::{FactValue, MutationKind, MutationStart};
use store_postgres::schedule::{self, check_completion, ScheduleRow};
use store_postgres::trigger_definition::{
    create_trigger, decode, kind_name, replay_trigger, trigger_facts, CreateTriggerDefinition, TriggerColumns,
    TriggerKind,
};
use store_postgres::webhook_delivery::{
    claim_deliveries, claimed_delivery, complete_delivery, decode_delivery_claim, delivery_diagnostic, delivery_state,
    delivery_state_name, enqueue_delivery, fail_delivery, judge_event, record_event, recorded_state, require_receipt, ClaimedDeliveryRow, DeliveryClaimRow, DeliveryDiagnosticRow, RecordWebhookEventOutcome,
    WebhookDeliveryState, WebhookDeliveryWork,
};

fn occurrence(cause: TriggerCause) -> NormalizedTriggerOccurrence {
    NormalizedTriggerOccurrence {
        id: 1,
        trigger: TriggerDefinitionRef { id: 2, version: INITIAL_VERSION },
        target: TriggerTarget { configuration_id: 3, configuration_version: INITIAL_VERSION },
        deduplication_identity: "manual:audit".to_owned(),
        cause,
        source_time: 1,
    }
}

fn columns() -> TriggerColumns {
    TriggerColumns {
        trigger_id: 2,
        trigger_version: 5,
        build_configuration_id: 3,
        build_configuration_version: 6,
    }
}

#[test]
fn manual_trigger_is_audited_as_the_unauthenticated_management_actor() {
    let trigger = occurrence(TriggerCause::Manual {});
    assert_eq!(trigger_actor(&trigger), ("unauthenticated_management", None));
}

#[test]
fn other_triggers_are_audited_as_themselves() {
    let trigger = occurrence(TriggerCause::Scheduled {});
    let (kind, identity) = trigger_actor(&trigger);
    assert_eq!(kind, "trigger");
    assert_eq!(identity.as_deref(), Some("00000000-0000-0000-0000-000000000002"));
}

#[test]
fn acceptances_are_told() {
    let jobs = vec![
        MaterializedJob { id: 9, dependencies: vec![], allowed_pools: vec![7, 4] },
        MaterializedJob { id: 8, dependencies: vec![9], allowed_pools: vec![7] },
    ];
    assert_eq!(allowed_pools(&jobs), vec![4, 7]);
    let accepted = outcome(1, 10, 11, &jobs);
    assert_eq!(accepted.ready_jobs, vec![9]);
    let facts = accepted_facts(&occurrence(TriggerCause::Manual {}), &accepted);
    assert_eq!(facts.actor_kind, "unauthenticated_management");
    assert_eq!(facts.target_identity, "00000000-0000-0000-0000-00000000000a");
    assert!(matches!(facts.safe_metadata[1].value, FactValue::Number(1)));
    assert_eq!(replay_accepted(accepted).disposition, MutationDisposition::Replayed);
    let facts = suppressed_facts(&occurrence(TriggerCause::External {}), 1);
    assert_eq!(facts.target_identity, "00000000-0000-0000-0000-000000000001");
    let suppressed =
        SuppressTriggerOutcome { disposition: MutationDisposition::Applied, trigger_occurrence_id: 1 };
    assert_eq!(replay_suppressed(suppressed).disposition, MutationDisposition::Replayed);
}

#[test]
fn references_must_exist() {
    assert_eq!(require_references(true, &vec![4, 7], 2), Ok(()));
    assert!(require_references(true, &vec![4, 7], 1).is_err());
    assert!(require_references(false, &vec![], 0).is_err());
    assert_eq!(require_trigger_reference(true), Ok(()));
    assert!(require_trigger_reference(false).is_err());
    assert_eq!(insert_occurrence(1), Ok(()));
    assert!(insert_occurrence(0).is_err());
    assert_eq!(suppression_numbers(Ok(()), 1, 2), Ok((1, 2)));
    assert!(matches!(
        suppression_numbers(Ok(()), 1, u64::MAX),
        Err(StoreError::InvalidInput { operation: StoreOperation::AcceptTrigger, .. })
    ));
    assert_eq!(suppression_numbers(Err(StoreError::Unavailable), u64::MAX, 2), Err(StoreError::Unavailable));
    assert!(matches!(
        acceptance_numbers(Err(StoreError::Unavailable), u64::MAX, 2, 3, 4, 5),
        Err(StoreError::Unavailable)
    ));
    let numbers = acceptance_numbers(Ok(()), 1, 2, 3, 4, 5);
    assert!(matches!(numbers, Ok(numbers) if numbers.pipeline_version == 3 && numbers.attempt_number == 5));
    assert_eq!(
        acceptance_numbers(Ok(()), u64::MAX, 2, 3, 4, 5),
        Err(StoreError::InvalidInput {
            operation: StoreOperation::AcceptTrigger,
            source: StoreInputError::NumericOutOfRange,
        })
    );
}

#[test]
fn evaluations_are_final() {
    let evaluation = |state: &str| ExistingEvaluation {
        occurrence_id: 1,
        state: state.to_owned(),
        digest: vec![5; 32],
        stored_occurrence: Ok(1),
    };
    assert_eq!(replay_evaluation(&None, &[5; 32]), Ok(None));
    assert_eq!(replay_evaluation(&Some(evaluation("accepted")), &[5; 32]), Ok(Some(TriggerEvaluation::Accepted)));
    assert_eq!(
        replay_evaluation(&Some(evaluation("suppressed")), &[5; 32]),
        Ok(Some(TriggerEvaluation::Suppressed))
    );
    assert!(replay_evaluation(&Some(evaluation("accepted")), &[6; 32]).is_err());
    assert!(replay_evaluation(&Some(evaluation("pending")), &[5; 32]).is_err());
    assert_eq!(repeat_evaluation(&evaluation("accepted"), &[5; 32], "accepted"), Ok(()));
    assert!(repeat_evaluation(&evaluation("suppressed"), &[5; 32], "accepted").is_err());
}

#[test]
fn acceptances_are_checked_before_they_are_written() {
    let digest = [5u8; 32];
    let pools = vec![4u128, 7];
    let next = |step: EvaluationStep, event: EvaluationEvent| {
        next_step(TriggerEvaluation::Accepted, &digest, &pools, step, &event)
    };
    let mut step = EvaluationStep::Begin;
    for (event, expected) in [
        (EvaluationEvent::Started(MutationStart::Fresh), EvaluationStep::FindOccurrence),
        (EvaluationEvent::Found(None), EvaluationStep::CheckReferences),
        (EvaluationEvent::ReferencesExist(true), EvaluationStep::CountPools),
        (EvaluationEvent::PoolsCounted(2), EvaluationStep::RecordOccurrence),
        (EvaluationEvent::OccurrencesInserted(1), EvaluationStep::Write),
    ] {
        step = match next(step, event) {
            Ok(step) => step,
            Err(_) => panic!("nothing is missing"),
        };
        assert_eq!(step, expected);
    }
    assert_eq!(
        next(EvaluationStep::Begin, EvaluationEvent::Started(MutationStart::Replay)),
        Ok(EvaluationStep::Replay)
    );
    assert_eq!(
        next(EvaluationStep::CheckReferences, EvaluationEvent::ReferencesExist(false)),
        Err(StoreError::NotFound { entity: EntityKind::Trigger })
    );
    assert_eq!(
        next(EvaluationStep::CountPools, EvaluationEvent::PoolsCounted(1)),
        Err(StoreError::NotFound { entity: EntityKind::Pool })
    );
    assert_eq!(
        next(EvaluationStep::RecordOccurrence, EvaluationEvent::OccurrencesInserted(0)),
        Err(StoreError::Conflict { entity: EntityKind::Trigger })
    );
    assert_eq!(
        next(EvaluationStep::Begin, EvaluationEvent::ReferencesExist(true)),
        Err(StoreError::Unavailable)
    );
}

#[test]
fn suppressions_need_no_pools() {
    let next = |step: EvaluationStep, event: EvaluationEvent| {
        next_step(TriggerEvaluation::Suppressed, &[5; 32], &vec![], step, &event)
    };
    assert_eq!(
        next(EvaluationStep::CheckReferences, EvaluationEvent::ReferencesExist(true)),
        Ok(EvaluationStep::RecordOccurrence)
    );
    let on_record = |state: &str| {
        EvaluationEvent::Found(Some(ExistingEvaluation {
            occurrence_id: 1,
            state: state.to_owned(),
            digest: vec![5; 32],
            stored_occurrence: Ok(1),
        }))
    };
    assert_eq!(next(EvaluationStep::FindOccurrence, on_record("suppressed")), Ok(EvaluationStep::Repeat));
    assert_eq!(
        next(EvaluationStep::FindOccurrence, on_record("accepted")),
        Err(StoreError::Conflict { entity: EntityKind::Trigger })
    );
}

#[test]
fn triggers_are_read_and_created() {
    assert_eq!(
        decode(columns()),
        Ok((
            TriggerDefinitionRef { id: 2, version: 5 },
            TriggerTarget { configuration_id: 3, configuration_version: 6 }
        ))
    );
    let mut broken = columns();
    broken.trigger_version = 0;
    assert_eq!(decode(broken), Err(StoreError::Unavailable));
    let request = CreateTriggerDefinition {
        id: 2,
        version: 5,
        configuration_id: 3,
        configuration_version: 6,
        kind: TriggerKind::Manual,
        enabled: true,
    };
    let (row, created) = match create_trigger(Ok(()), &request) {
        Ok(created) => created,
        Err(_) => panic!("it can be created"),
    };
    assert_eq!(row, columns());
    assert_eq!((created.trigger_id, created.version), (2, 5));
    assert_eq!(replay_trigger(created).disposition, MutationDisposition::Replayed);
    let facts = trigger_facts(&created, TriggerKind::Manual, true);
    assert_eq!(facts.actor_kind, "management_api");
    assert!(matches!(facts.safe_metadata[1].value, FactValue::Word("manual")));
    assert!(matches!(facts.safe_metadata[2].value, FactValue::Flag(true)));
    assert_eq!(create_trigger(Err(StoreError::CredentialRejected), &request), Err(StoreError::CredentialRejected));
    let large = CreateTriggerDefinition { configuration_version: u64::MAX, ..request };
    assert_eq!(
        create_trigger(Ok(()), &large),
        Err(StoreError::InvalidInput {
            operation: StoreOperation::CreateTriggerDefinition,
            source: StoreInputError::NumericOutOfRange,
        })
    );
    assert_eq!(kind_name(TriggerKind::Scheduled), "scheduled");
    assert_eq!(kind_name(TriggerKind::Internal), "internal");
    assert_eq!(kind_name(TriggerKind::External), "external");
}

#[test]
fn webhook_names_are_read_back() {
    for operation in [
        ManagedWebhookOperation::Create,
        ManagedWebhookOperation::Observe,
        ManagedWebhookOperation::Rotate,
        ManagedWebhookOperation::Delete,
    ] {
        assert_eq!(parse_managed_operation(managed_operation(operation)), Ok(operation));
    }
    assert_eq!(managed_operation(ManagedWebhookOperation::Rotate), "rotate");
    assert_eq!(parse_managed_operation("update"), Err(StoreError::Unavailable));
    for (name, code) in [
        ("authentication_failed", WebhookFailureCode::AuthenticationFailed),
        ("invalid_configuration", WebhookFailureCode::InvalidConfiguration),
        ("unsupported", WebhookFailureCode::Unsupported),
        ("permanent", WebhookFailureCode::Permanent),
        ("cancelled", WebhookFailureCode::Cancelled),
        ("unavailable", WebhookFailureCode::Unavailable),
        ("invalid_response", WebhookFailureCode::InvalidResponse),
        ("normalized_event_mismatch", WebhookFailureCode::NormalizedEventMismatch),
        ("delivery_identity_conflict", WebhookFailureCode::DeliveryIdentityConflict),
        ("trigger_evaluation_failed", WebhookFailureCode::TriggerEvaluationFailed),
    ] {
        assert_eq!(failure_code(code), name);
        assert_eq!(parse_failure_code(name), Ok(code));
    }
    assert_eq!(parse_failure_code("other"), Err(StoreError::Unavailable));
    for (name, state) in [
        ("pending_verification", WebhookDeliveryState::PendingVerification),
        ("retry_scheduled", WebhookDeliveryState::RetryScheduled),
        ("pending_trigger", WebhookDeliveryState::PendingTrigger),
        ("completed", WebhookDeliveryState::Completed),
        ("suppressed", WebhookDeliveryState::Suppressed),
        ("dead_letter", WebhookDeliveryState::DeadLetter),
    ] {
        assert_eq!(delivery_state(name), Ok(state));
        assert_eq!(delivery_state_name(state), name);
    }
    assert_eq!(delivery_state("pending"), Err(StoreError::Unavailable));
}

fn unmanaged() -> CreateUnmanagedWebhook {
    CreateUnmanagedWebhook {
        integration_id: 1,
        trigger: TriggerDefinitionRef { id: 2, version: 5 },
        target: TriggerTarget { configuration_id: 3, configuration_version: 6 },
        adapter_id: "forge".to_owned(),
    }
}

fn managed() -> CreateManagedWebhook {
    CreateManagedWebhook {
        integration_id: 1,
        trigger: TriggerDefinitionRef { id: 2, version: 5 },
        target: TriggerTarget { configuration_id: 3, configuration_version: 6 },
        adapter_id: "forge".to_owned(),
    }
}

#[test]
fn integrations_are_created() {
    let (stored, created) = match external_trigger::create(Ok(()), &unmanaged()) {
        Ok(created) => created,
        Err(_) => panic!("it can be created"),
    };
    assert_eq!(stored, (5, 6));
    assert_eq!((created.integration_id, created.trigger.version), (1, 5));
    assert_eq!(external_trigger::replay_create(created).disposition, MutationDisposition::Replayed);
    let facts = create_facts(&unmanaged());
    assert_eq!(facts.target_identity, "00000000-0000-0000-0000-000000000001");
    assert!(matches!(&facts.safe_metadata[2].value, FactValue::Text(text) if text == "forge"));
    let mut large = unmanaged();
    large.trigger.version = u64::MAX;
    assert_eq!(
        external_trigger::create(Ok(()), &large),
        Err(StoreError::InvalidInput {
            operation: StoreOperation::CreateUnmanagedWebhook,
            source: StoreInputError::NumericOutOfRange,
        })
    );
    let created = create_managed(Ok(()), &managed());
    assert!(matches!(&created, Ok((stored, outcome)) if *stored == (5, 6) && outcome.registration.is_none()));
    let facts = create_managed_facts(&managed());
    assert!(matches!(facts.safe_metadata[3].value, FactValue::Word("managed")));
    assert!(matches!(facts.outbox_payload[3].value, FactValue::Word("pending")));
    if let Ok((_, outcome)) = created {
        let replayed = replay_managed_create(outcome, Some("registered".to_owned()));
        assert_eq!(replayed.disposition, MutationDisposition::Replayed);
        assert_eq!(replayed.registration.as_deref(), Some("registered"));
    }
    let refused = create_managed(Err(StoreError::CredentialRejected), &managed());
    assert!(matches!(refused, Err(StoreError::CredentialRejected)));
}

fn webhook(kind: &str) -> WebhookRow {
    WebhookRow {
        columns: columns(),
        enabled: true,
        trigger_kind: kind.to_owned(),
        definition: "{}".to_owned(),
        definition_is_valid: true,
    }
}

fn managed_row() -> ManagedWebhookRow {
    ManagedWebhookRow {
        webhook: webhook("external"),
        administration_credential_handle: "handle".to_owned(),
        remote_registration: Some("{}".to_owned()),
        registration_is_readable: true,
        registration_is_valid: true,
    }
}

#[test]
fn integrations_are_read() {
    let missing = StoreError::NotFound { entity: EntityKind::Integration };
    assert!(matches!(external_trigger::read(1, None), Err(error) if error == missing));
    assert!(matches!(external_trigger::read(1, Some(webhook("internal"))), Err(StoreError::Unavailable)));
    let record = external_trigger::read(1, Some(webhook("external")));
    assert!(matches!(record, Ok(record) if record.integration_id == 1 && record.target.configuration_version == 6));
    assert!(matches!(read_managed(1, None), Err(error) if error == missing));
    let record = read_managed(1, Some(managed_row()));
    assert!(matches!(record, Ok(record) if record.administration_credential_handle == "handle"));
    let mut invalid = managed_row();
    invalid.registration_is_valid = false;
    assert!(matches!(read_managed(1, Some(invalid)), Err(StoreError::Unavailable)));
    let mut invalid = managed_row();
    invalid.registration_is_valid = false;
    invalid.remote_registration = None;
    assert!(matches!(read_managed(1, Some(invalid)), Ok(record) if record.registration.is_none()));
}

fn recording(operation: ManagedWebhookOperation) -> RecordManagedWebhookRegistration {
    RecordManagedWebhookRegistration {
        integration_id: 1,
        operation,
        registration: "{}".to_owned(),
        registration_status: "active".to_owned(),
    }
}

#[test]
fn registrations_are_recorded_by_the_holder() {
    let trigger = Some(TriggerRow { trigger_id: 2, trigger_version: 5 });
    let recorded = record_managed(Ok(()), &recording(ManagedWebhookOperation::Delete), trigger, 1);
    let (outcome, disables) = match recorded {
        Ok(recorded) => recorded,
        Err(_) => panic!("it can be recorded"),
    };
    assert!(disables);
    assert_eq!(outcome.trigger, TriggerDefinitionRef { id: 2, version: 5 });
    assert_eq!(outcome.registration.as_deref(), Some("{}"));
    assert_eq!(replay_record(outcome).disposition, MutationDisposition::Replayed);
    let recorded = record_managed(Ok(()), &recording(ManagedWebhookOperation::Observe), trigger, 1);
    assert!(matches!(recorded, Ok((_, false))));
    let refused = record_managed(Err(StoreError::Unavailable), &recording(ManagedWebhookOperation::Create), None, 1);
    assert!(matches!(refused, Err(StoreError::Unavailable)));
    let missing = record_managed(Ok(()), &recording(ManagedWebhookOperation::Create), None, 1);
    assert!(matches!(missing, Err(StoreError::NotFound { entity: EntityKind::Integration })));
    let unheld = record_managed(Ok(()), &recording(ManagedWebhookOperation::Create), trigger, 0);
    assert!(matches!(unheld, Err(StoreError::Conflict { entity: EntityKind::Integration })));
    let broken = Some(TriggerRow { trigger_id: 0, trigger_version: 5 });
    let broken = record_managed(Ok(()), &recording(ManagedWebhookOperation::Create), broken, 1);
    assert!(matches!(broken, Err(StoreError::Unavailable)));
    assert_eq!(record_kind(ManagedWebhookOperation::Create), MutationKind::CompleteManagedWebhookCreate);
    assert_eq!(record_kind(ManagedWebhookOperation::Observe), MutationKind::ObserveManagedWebhook);
    assert_eq!(record_kind(ManagedWebhookOperation::Rotate), MutationKind::RotateManagedWebhook);
    assert_eq!(record_kind(ManagedWebhookOperation::Delete), MutationKind::DeleteManagedWebhook);
    let facts = record_facts(&recording(ManagedWebhookOperation::Rotate));
    assert!(matches!(facts.safe_metadata[0].value, FactValue::Word("rotate")));
    assert!(matches!(&facts.outbox_payload[2].value, FactValue::Text(text) if text == "active"));
}

#[test]
fn operations_are_claimed() {
    let row = || ManagedOperationClaimRow {
        integration_id: 1,
        operation: "create".to_owned(),
        idempotency_key: "key".to_owned(),
        key_is_valid: true,
        attempts: 4,
        integration: managed_row(),
    };
    let owner = "worker".to_owned();
    let claims = claim_managed_operations(vec![row(), row()], &owner, 99);
    assert!(matches!(claims, Ok(claims) if claims.len() == 2 && claims[1].owner == "worker"));
    let mut lost = row();
    lost.attempts = -1;
    assert!(matches!(claim_managed_operations(vec![row(), lost], &owner, 99), Err(StoreError::Unavailable)));
    let claim = match decode_managed_operation_claim(row(), &owner, 99) {
        Ok(claim) => claim,
        Err(_) => panic!("it can be read"),
    };
    assert_eq!(claim.operation, ManagedWebhookOperation::Create);
    assert_eq!((claim.attempt, claim.claim_expires_at), (4, 99));
    assert_eq!(claim.integration.integration_id, 1);
    let mut unchecked = row();
    unchecked.integration.registration_is_valid = false;
    assert!(decode_managed_operation_claim(unchecked, &owner, 99).is_ok());
    let mut unreadable = row();
    unreadable.integration.registration_is_readable = false;
    assert!(matches!(decode_managed_operation_claim(unreadable, &owner, 99), Err(StoreError::Unavailable)));
    let mut unknown = row();
    unknown.operation = "renew".to_owned();
    assert!(matches!(decode_managed_operation_claim(unknown, &owner, 99), Err(StoreError::Unavailable)));
    assert_eq!(attempts(65535), Ok(65535));
    assert_eq!(attempts(65536), Err(StoreError::Unavailable));
    assert_eq!(attempts(-1), Err(StoreError::Unavailable));
    assert_eq!(enqueued(1), MutationDisposition::Applied);
    assert_eq!(enqueued(0), MutationDisposition::Replayed);
    assert_eq!(require_held(1), Ok(()));
    assert_eq!(require_held(0), Err(StoreError::Conflict { entity: EntityKind::Integration }));
}

fn text(value: &str) -> serde_json::Value {
    serde_json::Value::String(value.to_owned())
}

fn headers() -> serde_json::Value {
    let mut map = serde_json::Map::new();
    map.insert("x-kind".to_owned(), text("push"));
    map.insert("accept".to_owned(), text("*/*"));
    serde_json::Value::Object(map)
}

fn delivery(state: &str) -> DeliveryClaimRow {
    DeliveryClaimRow {
        id: 1,
        integration_id: 2,
        state: state.to_owned(),
        body: vec![1, 2, 3],
        received_at_millis: 10,
        verification_attempts: 1,
        trigger_attempts: 0,
        normalized_event: None,
        event_is_readable: true,
    }
}

#[test]
fn deliveries_are_verified_first() {
    let owner = "worker".to_owned();
    let claim = match decode_delivery_claim(delivery("retry_scheduled"), headers(), &owner, 99) {
        Ok(claim) => claim,
        Err(_) => panic!("it can be read"),
    };
    assert_eq!((claim.delivery_id, claim.received_at, claim.verification_attempt), (1, 10, 1));
    match claim.work {
        WebhookDeliveryWork::Verify { headers, body } => {
            let expected =
                vec![("accept".to_owned(), "*/*".to_owned()), ("x-kind".to_owned(), "push".to_owned())];
            assert_eq!(headers, expected);
            assert_eq!(body, vec![1, 2, 3]);
        }
        WebhookDeliveryWork::Trigger { .. } => panic!("it is not verified yet"),
    }
    let odd = delivery("pending_verification");
    assert!(matches!(decode_delivery_claim(odd, text("push"), &owner, 99), Err(StoreError::Unavailable)));
    let pairs = vec![("accept".to_owned(), "*/*".to_owned())];
    let claim = claimed_delivery(delivery("pending_verification"), Some(pairs), &owner, 99);
    assert!(matches!(
        claim,
        Ok(claim) if matches!(&claim.work, WebhookDeliveryWork::Verify { headers, .. } if headers.len() == 1)
    ));
    assert!(matches!(decode_delivery_claim(delivery("completed"), headers(), &owner, 99), Err(StoreError::Unavailable)));
}

#[test]
fn deliveries_are_claimed_received_and_failed() {
    let owner = "worker".to_owned();
    let row = |state: &str| ClaimedDeliveryRow { delivery: delivery(state), headers: headers() };
    let claims = claim_deliveries(vec![row("retry_scheduled"), row("pending_verification")], &owner, 99);
    assert!(matches!(claims, Ok(claims) if claims.len() == 2 && claims[1].claim_expires_at == 99));
    let claims = claim_deliveries(vec![row("retry_scheduled"), row("completed")], &owner, 99);
    assert!(matches!(claims, Err(StoreError::Unavailable)));
    assert_eq!(enqueue_delivery(Ok(()), 1), Ok(MutationDisposition::Applied));
    assert_eq!(enqueue_delivery(Ok(()), 0), Ok(MutationDisposition::Replayed));
    assert_eq!(enqueue_delivery(Err(StoreError::Unavailable), 1), Err(StoreError::Unavailable));
    assert_eq!(fail_delivery(Ok(()), 1), Ok(()));
    assert_eq!(fail_delivery(Ok(()), 0), Err(StoreError::Conflict { entity: EntityKind::Integration }));
    assert_eq!(fail_delivery(Err(StoreError::Unavailable), 1), Err(StoreError::Unavailable));
    assert_eq!(fail_managed_operation(Ok(()), Some(5), 1), Ok("retry_scheduled"));
    assert_eq!(fail_managed_operation(Ok(()), None, 1), Ok("dead_letter"));
    assert_eq!(
        fail_managed_operation(Ok(()), None, 0),
        Err(StoreError::Conflict { entity: EntityKind::Integration })
    );
    assert_eq!(fail_managed_operation(Err(StoreError::Unavailable), None, 1), Err(StoreError::Unavailable));
}

#[test]
fn verified_deliveries_carry_their_event() {
    let owner = "worker".to_owned();
    assert!(matches!(
        decode_delivery_claim(delivery("pending_trigger"), headers(), &owner, 99),
        Err(StoreError::Unavailable)
    ));
    let mut verified = delivery("pending_trigger");
    verified.normalized_event = Some("push".to_owned());
    let claim = decode_delivery_claim(verified, text("push"), &owner, 99);
    assert!(matches!(
        claim,
        Ok(claim) if matches!(&claim.work, WebhookDeliveryWork::Trigger { event } if event == "push")
    ));
}

#[test]
fn events_are_recorded_once() {
    let recorded = record_event(Ok(()), Some(2), 2, true, &None, &text("push"));
    assert_eq!(recorded, Ok(RecordWebhookEventOutcome::Recorded));
    let duplicate = record_event(Ok(()), Some(2), 2, false, &Some(headers()), &headers());
    assert_eq!(duplicate, Ok(RecordWebhookEventOutcome::Duplicate));
    let conflict = record_event(Ok(()), Some(2), 2, false, &Some(text("push")), &text("tag"));
    assert_eq!(conflict, Ok(RecordWebhookEventOutcome::IdentityConflict));
    assert_eq!(record_event(Ok(()), Some(2), 2, false, &None, &text("tag")), Err(StoreError::Unavailable));
    assert_eq!(recorded_state(RecordWebhookEventOutcome::Recorded), WebhookDeliveryState::PendingTrigger);
    assert_eq!(recorded_state(RecordWebhookEventOutcome::Duplicate), WebhookDeliveryState::Completed);
    assert_eq!(recorded_state(RecordWebhookEventOutcome::IdentityConflict), WebhookDeliveryState::DeadLetter);
    assert_eq!(
        record_event(Ok(()), Some(3), 2, true, &None, &text("tag")),
        Err(StoreError::Conflict { entity: EntityKind::Integration })
    );
    assert_eq!(
        record_event(Err(StoreError::Unavailable), Some(3), 2, true, &None, &text("tag")),
        Err(StoreError::Unavailable)
    );
    assert_eq!(judge_event(false, Some(true)), Ok(RecordWebhookEventOutcome::Duplicate));
    assert_eq!(judge_event(false, Some(false)), Ok(RecordWebhookEventOutcome::IdentityConflict));
    assert_eq!(require_receipt(Some(2), 2), Ok(()));
    assert_eq!(require_receipt(Some(3), 2), Err(StoreError::Conflict { entity: EntityKind::Integration }));
    assert_eq!(require_receipt(None, 2), Err(StoreError::Conflict { entity: EntityKind::Integration }));
    assert_eq!(complete_delivery(1), Ok(MutationDisposition::Applied));
    assert_eq!(complete_delivery(0), Err(StoreError::Conflict { entity: EntityKind::Integration }));
}

#[test]
fn deliveries_can_be_diagnosed() {
    let row = || DeliveryDiagnosticRow {
        integration_id: 2,
        state: "dead_letter".to_owned(),
        verification_attempts: 3,
        trigger_attempts: 0,
        provider_delivery_id: Some("42".to_owned()),
        provider_delivery_id_is_valid: true,
        failure_code: Some("permanent".to_owned()),
        diagnostic: Some("gone".to_owned()),
        next_attempt_at_millis: None,
    };
    let diagnostic = match delivery_diagnostic(1, Some(row())) {
        Ok(diagnostic) => diagnostic,
        Err(_) => panic!("it can be read"),
    };
    assert_eq!(diagnostic.state, WebhookDeliveryState::DeadLetter);
    assert_eq!(diagnostic.failure_code, Some(WebhookFailureCode::Permanent));
    assert_eq!(diagnostic.diagnostic.as_deref(), Some("gone"));
    assert!(matches!(
        delivery_diagnostic(1, None),
        Err(StoreError::NotFound { entity: EntityKind::Integration })
    ));
    let mut unknown = row();
    unknown.failure_code = Some("odd".to_owned());
    assert!(matches!(delivery_diagnostic(1, Some(unknown)), Err(StoreError::Unavailable)));
}

fn event(topic: &str) -> ClaimedEventRow {
    ClaimedEventRow {
        id: 0xabc,
        topic: topic.to_owned(),
        aggregate_identity: "job".to_owned(),
        occurred_at_millis: 10,
    }
}

fn event_rows() -> EventRows {
    EventRows {
        event: event("job.completed"),
        build: Some(SourceBuildRow {
            id: 20,
            build_configuration_id: 21,
            build_configuration_version: 22,
            immutable_revision: "f00".to_owned(),
            revision_is_valid: true,
        }),
        occurrence: Some(OccurrenceRow {
            id: 30,
            columns: columns(),
            deduplication_identity: "x".to_owned(),
            cause: TriggerCause::Internal {},
            cause_details: "{}".to_owned(),
            causality: "{}".to_owned(),
            provider_metadata: "{}".to_owned(),
            source_time_millis: 5,
            is_valid: true,
        }),
        ancestry: vec![AncestorRow { trigger_id: 2, trigger_version: 5 }],
        ancestry_is_valid: true,
        state: "failed".to_owned(),
        matches: vec![MatchRow { columns: columns(), definition: "{}".to_owned() }],
    }
}

#[test]
fn ended_builds_set_off_their_triggers() {
    let owner = "worker".to_owned();
    let claim = match load_claim(event_rows(), 1, &owner, 99) {
        Ok(claim) => claim,
        Err(_) => panic!("it can be read"),
    };
    assert_eq!(claim.event_identity, "00000000-0000-0000-0000-000000000abc");
    assert_eq!(claim.event_kind, TerminalBuildEvent::Failed);
    assert_eq!(claim.source_target, TriggerTarget { configuration_id: 21, configuration_version: 22 });
    assert_eq!(claim.trigger_ancestry, vec![TriggerDefinitionRef { id: 2, version: 5 }]);
    assert_eq!(claim.matches.len(), 1);
    assert_eq!(claim.source_occurrence.occurrence.id, 30);
    assert_eq!(completed_event(&claim.event_identity), Ok(0xabc));
}

#[test]
fn unreadable_events_are_refused_in_order() {
    let owner = "worker".to_owned();
    let missing = StoreError::NotFound { entity: EntityKind::Build };
    let mut rows = event_rows();
    rows.event = event("job.started");
    assert!(matches!(load_claim(rows, 1, &owner, 99), Err(error) if error == missing));
    let mut rows = event_rows();
    rows.build = None;
    assert!(matches!(load_claim(rows, 1, &owner, 99), Err(error) if error == missing));
    let mut rows = event_rows();
    rows.occurrence = None;
    assert!(matches!(load_claim(rows, 1, &owner, 99), Err(error) if error == missing));
    let mut rows = event_rows();
    rows.ancestry_is_valid = false;
    assert!(matches!(load_claim(rows, 1, &owner, 99), Err(StoreError::Unavailable)));
    let mut rows = event_rows();
    rows.state = "running".to_owned();
    assert!(matches!(load_claim(rows, 1, &owner, 99), Err(StoreError::Unavailable)));
    let too_many = StoreError::InvalidInput {
        operation: StoreOperation::ClaimInternalTriggerEvents,
        source: StoreInputError::TooManyInternalTriggerMatches,
    };
    assert!(matches!(load_claim(event_rows(), 0, &owner, 99), Err(error) if error == too_many));
}

#[test]
fn events_have_subjects() {
    assert_eq!(event_subject(&event("job.completed")), Some(EventSubject::Job));
    assert_eq!(event_subject(&event("build.cancellation-requested")), Some(EventSubject::Build));
    assert_eq!(event_subject(&event("build.accepted")), None);
    assert_eq!(event_kind("succeeded"), Ok(TerminalBuildEvent::Succeeded));
    assert_eq!(event_kind_name(TerminalBuildEvent::Succeeded), "succeeded");
    assert_eq!(event_kind("cancelled"), Ok(TerminalBuildEvent::Cancelled));
    assert_eq!(event_kind("queued"), Err(StoreError::Unavailable));
    let keys = match_keys(TriggerTarget { configuration_id: 0xff, configuration_version: 120 });
    assert_eq!(keys, ("00000000-0000-0000-0000-0000000000ff".to_owned(), "120".to_owned()));
    assert_eq!(match_limit(64), Ok(65));
    assert!(matches!(ancestry(&vec![AncestorRow { trigger_id: 2, trigger_version: 0 }]), Err(StoreError::Unavailable)));
    assert!(matches!(matching_triggers(&vec![], 0), Ok(found) if found.is_empty()));
}

#[test]
fn events_are_completed_by_their_identity() {
    let invalid = StoreError::InvalidInput {
        operation: StoreOperation::CompleteInternalTriggerEvent,
        source: StoreInputError::InvalidWorkerClaim,
    };
    assert_eq!(completed_event("00000000-0000-0000-0000-000000000abc"), Ok(0xabc));
    assert_eq!(completed_event("00000000000000000000000000000ABC"), Ok(0xabc));
    assert_eq!(completed_event("abc"), Err(invalid));
    assert_eq!(complete(1), Ok(MutationDisposition::Applied));
    assert_eq!(complete(0), Err(StoreError::Conflict { entity: EntityKind::Trigger }));
}

fn publishing(expected: u64, published_at: i64) -> PublishInternalTriggerVersion {
    PublishInternalTriggerVersion {
        id: 2,
        expected_current_version: expected,
        target: TriggerTarget { configuration_id: 3, configuration_version: 6 },
        enabled: true,
        published_at,
    }
}

#[test]
fn internal_triggers_are_published_in_turn() {
    let current = Some(CurrentVersion { version: 4, created_at_millis: 10 });
    let (row, published) = match internal_trigger_definition::publish(Ok(()), current, &publishing(4, 11)) {
        Ok(published) => published,
        Err(_) => panic!("it can be published"),
    };
    assert_eq!(row, columns());
    assert_eq!(published.version, 5);
    assert_eq!(
        internal_trigger_definition::publish(Ok(()), current, &publishing(4, 10)),
        Err(StoreError::InvalidInput {
            operation: StoreOperation::PublishInternalTriggerVersion,
            source: StoreInputError::InvalidNormalizedTrigger,
        })
    );
    assert_eq!(
        internal_trigger_definition::publish(Ok(()), current, &publishing(3, 11)),
        Err(StoreError::Conflict { entity: EntityKind::Trigger })
    );
    assert_eq!(
        internal_trigger_definition::publish(Ok(()), None, &publishing(4, 11)),
        Err(StoreError::NotFound { entity: EntityKind::Trigger })
    );
    assert_eq!(
        internal_trigger_definition::publish(Ok(()), current, &publishing(u64::MAX, 11)),
        Err(StoreError::InvalidInput {
            operation: StoreOperation::PublishInternalTriggerVersion,
            source: StoreInputError::NumericOutOfRange,
        })
    );
}

#[test]
fn definitions_are_listed_by_page() {
    let row = |id: u128| DefinitionRow {
        columns: TriggerColumns { trigger_id: id, ..columns() },
        enabled: true,
        definition: "{}".to_owned(),
        created_at_millis: 10,
    };
    let page = match list(vec![row(1), row(2), row(3)], 2) {
        Ok(page) => page,
        Err(_) => panic!("the rows can be read"),
    };
    assert_eq!(page.items.len(), 2);
    assert_eq!(page.next_after, Some(2));
    let page = list(vec![row(1), row(2)], 2);
    assert!(matches!(page, Ok(page) if page.next_after.is_none() && page.items.len() == 2));
    assert!(matches!(list(vec![row(1), row(0)], 2), Err(StoreError::Unavailable)));
    assert!(list(vec![row(1), row(2), row(0)], 2).is_ok());
    assert!(matches!(internal_trigger_definition::read(Some(row(1))), Ok(record) if record.created_at == 10));
    assert!(matches!(
        internal_trigger_definition::read(None),
        Err(StoreError::NotFound { entity: EntityKind::Trigger })
    ));
    assert_eq!(internal_trigger_definition::read_version(7), Ok(7));
    assert!(internal_trigger_definition::read_version(u64::MAX).is_err());
}

fn scheduled() -> ScheduleRow {
    ScheduleRow {
        columns: columns(),
        enabled: true,
        definition: "{}".to_owned(),
        expression: "0 0 * * *".to_owned(),
        timezone: "UTC".to_owned(),
        missed_run_policy: "skip".to_owned(),
        schedule_is_valid: true,
        next_occurrence_at_millis: 100,
    }
}

#[test]
fn schedules_are_read_and_claimed() {
    let owner = "worker".to_owned();
    let claims = match schedule::claim(&vec![scheduled()], &owner, 99) {
        Ok(claims) => claims,
        Err(_) => panic!("it can be read"),
    };
    assert_eq!(claims[0].schedule.next_occurrence_at, 100);
    assert_eq!(claims[0].schedule.schedule.timezone, "UTC");
    assert_eq!((claims[0].owner.as_str(), claims[0].claim_expires_at), ("worker", 99));
    let mut invalid = scheduled();
    invalid.schedule_is_valid = false;
    assert!(matches!(schedule::claim(&vec![scheduled(), invalid], &owner, 99), Err(StoreError::Unavailable)));
    assert!(matches!(schedule::read(None), Err(StoreError::NotFound { entity: EntityKind::Trigger })));
    assert!(matches!(schedule::read(Some(scheduled())), Ok(record) if record.schedule.expression == "0 0 * * *"));
    assert_eq!(schedule::read_version(3), Ok(3));
    assert!(schedule::read_version(u64::MAX).is_err());
}

#[test]
fn schedules_move_forward() {
    let invalid = Err(StoreError::InvalidInput {
        operation: StoreOperation::CompleteScheduleClaim,
        source: StoreInputError::InvalidWorkerClaim,
    });
    assert_eq!(check_completion(5, 100, 200), Ok(5));
    assert_eq!(check_completion(5, 100, 100), invalid);
    assert_eq!(check_completion(5, 200, 100), invalid);
    assert_eq!(
        check_completion(u64::MAX, 100, 200),
        Err(StoreError::InvalidInput {
            operation: StoreOperation::CompleteScheduleClaim,
            source: StoreInputError::NumericOutOfRange,
        })
    );
    assert_eq!(schedule::complete(1), Ok(MutationDisposition::Applied));
    assert_eq!(schedule::complete(0), Err(StoreError::Conflict { entity: EntityKind::Trigger }));
}

#[test]
fn schedules_are_created() {
    let request = CreateTriggerDefinition {
        id: 2,
        version: 5,
        configuration_id: 3,
        configuration_version: 6,
        kind: TriggerKind::Scheduled,
        enabled: true,
    };
    let (row, created) = match schedule::create(Ok(()), &request) {
        Ok(created) => created,
        Err(_) => panic!("it can be created"),
    };
    assert_eq!(row, columns());
    let facts = schedule::facts(&created, 100);
    assert!(matches!(facts.safe_metadata[1].value, FactValue::Word("scheduled")));
    assert!(matches!(facts.outbox_payload[2].value, FactValue::Time(100)));
    assert_eq!(schedule::create(Err(StoreError::Unavailable), &request), Err(StoreError::Unavailable));
}
