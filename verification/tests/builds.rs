use store_postgres::audit_query::{self, AuditCursor, AuditFactRow};
use store_postgres::build_query::{
    attempt, build, job, load_dependencies, terminal, trigger_state, trigger_state_name, AttemptRow, BuildRow, JobRow,
    TriggerOccurrenceState,
};
use store_postgres::cancel_build::{
    self, refuse, split, CancellationError, CancellationStep, RecordedCancellation,
};
use store_postgres::domain::{EntityKind, MutationDisposition, StoreError, StoreInputError, StoreOperation};
use store_postgres::job_completion::JobFailureClass;
use store_postgres::mutation::FactValue;
use store_postgres::orchestration::JobTransition;
use store_postgres::retry_build::{self, allocate, source_graph, RetryDecisionError, SourceAttempt, SourceJobRow};
use store_postgres::state::{AttemptState, BuildState, JobState};

fn recorded() -> RecordedCancellation {
    RecordedCancellation {
        build_id: 1,
        attempt_id: 2,
        cancelled_job_ids: vec![3],
        cancelling_job_ids: vec![4],
        attempt_state: "running".to_owned(),
        build_state: "running".to_owned(),
    }
}

#[test]
fn cancellations_repeat() {
    let state = Some("running".to_owned());
    match cancel_build::prepare(&state, Some(recorded()), &None, &vec![]) {
        Ok(CancellationStep::Repeat(outcome)) => {
            assert_eq!(outcome.disposition, MutationDisposition::Replayed);
            assert_eq!(outcome.cancelled_jobs, vec![3]);
            assert_eq!(outcome.build_state, BuildState::Running);
            let facts = cancel_build::facts(&outcome);
            assert!(matches!(facts.safe_metadata[1].value, FactValue::Number(1)));
            assert!(matches!(facts.outbox_payload[4].value, FactValue::Word("running")));
            assert_eq!(cancel_build::replay(outcome).disposition, MutationDisposition::Replayed);
        }
        _ => panic!("the build was cancelled before"),
    }
    let mut broken = recorded();
    broken.cancelling_job_ids = vec![0];
    assert!(matches!(
        cancel_build::prepare(&state, Some(broken), &None, &vec![]),
        Err(StoreError::Unavailable)
    ));
}

#[test]
fn cancellations_are_decided_on_every_job() {
    let attempt = || Some(cancel_build::AttemptRow { id: 2, state: "running".to_owned() });
    let jobs = vec![
        cancel_build::JobRow { id: 3, state: "ready".to_owned() },
        cancel_build::JobRow { id: 4, state: "running".to_owned() },
    ];
    match cancel_build::prepare(&Some("running".to_owned()), None, &attempt(), &jobs) {
        Ok(CancellationStep::Decide(input)) => {
            assert_eq!(input.attempt_state, AttemptState::Running);
            assert_eq!(input.jobs[1], JobTransition { job_id: 4, state: JobState::Running });
        }
        _ => panic!("the build was not cancelled before"),
    }
    assert!(matches!(
        cancel_build::prepare(&None, None, &attempt(), &jobs),
        Err(StoreError::NotFound { entity: EntityKind::Build })
    ));
    assert!(matches!(
        cancel_build::prepare(&Some("running".to_owned()), None, &None, &jobs),
        Err(StoreError::NotFound { entity: EntityKind::Attempt })
    ));
    assert!(matches!(
        cancel_build::prepare(&Some("odd".to_owned()), None, &attempt(), &jobs),
        Err(StoreError::Unavailable)
    ));
}

#[test]
fn cancellations_are_applied() {
    let transitions = vec![
        JobTransition { job_id: 3, state: JobState::Cancelled },
        JobTransition { job_id: 4, state: JobState::Cancelling },
    ];
    assert_eq!(split(&transitions), (vec![3], vec![4]));
    let applied = cancel_build::applied(1, 2, vec![3], vec![4], AttemptState::Running, BuildState::Running);
    assert!(matches!(applied, Ok(outcome) if outcome.disposition == MutationDisposition::Applied));
    assert!(matches!(
        cancel_build::applied(1, 0, vec![], vec![], AttemptState::Running, BuildState::Running),
        Err(StoreError::Unavailable)
    ));
    assert_eq!(refuse(CancellationError::BuildNotActive), StoreError::Conflict { entity: EntityKind::Build });
    assert_eq!(refuse(CancellationError::AttemptNotActive), StoreError::Conflict { entity: EntityKind::Attempt });
    assert_eq!(refuse(CancellationError::EmptyAttempt), StoreError::Unavailable);
    assert_eq!(refuse(CancellationError::DuplicateJob), StoreError::Unavailable);
    assert_eq!(refuse(CancellationError::InvalidTransition), StoreError::Unavailable);
}

#[test]
fn retries_take_the_next_number() {
    let source = || Some(SourceAttempt { id: 2, attempt_number: 3, state: "failed".to_owned() });
    let input = retry_build::prepare(Ok(()), &Some("failed".to_owned()), &source());
    assert!(matches!(input, Ok(input) if input.latest_number == 3 && input.build_state == BuildState::Failed));
    assert_eq!(
        retry_build::prepare(Ok(()), &None, &source()),
        Err(StoreError::NotFound { entity: EntityKind::Build })
    );
    assert_eq!(
        retry_build::prepare(Ok(()), &Some("failed".to_owned()), &None),
        Err(StoreError::NotFound { entity: EntityKind::Attempt })
    );
    assert_eq!(retry_build::prepare(Err(StoreError::Unavailable), &None, &None), Err(StoreError::Unavailable));
    assert_eq!(allocate(Ok(4), 4, &Ok(vec![]), true), Ok(4));
    assert_eq!(allocate(Ok(4), 4, &Err(StoreError::Unavailable), true), Err(StoreError::Unavailable));
    assert_eq!(
        allocate(Ok(4), 5, &Err(StoreError::Unavailable), true),
        Err(StoreError::Conflict { entity: EntityKind::Attempt })
    );
    assert_eq!(allocate(Ok(4), 5, &Ok(vec![]), true), Err(StoreError::Conflict { entity: EntityKind::Attempt }));
    assert_eq!(allocate(Ok(4), 4, &Ok(vec![]), false), Err(StoreError::Conflict { entity: EntityKind::Attempt }));
    assert_eq!(
        allocate(Err(RetryDecisionError::BuildNotFailed), 4, &Ok(vec![]), true),
        Err(StoreError::Conflict { entity: EntityKind::Build })
    );
    assert_eq!(
        allocate(Err(RetryDecisionError::AttemptNotFailed), 4, &Ok(vec![]), true),
        Err(StoreError::Conflict { entity: EntityKind::Attempt })
    );
    assert_eq!(allocate(Err(RetryDecisionError::AttemptNumberOverflow), 4, &Ok(vec![]), true), Err(StoreError::Unavailable));
    assert_eq!(
        allocate(Ok(u64::MAX), u64::MAX, &Ok(vec![]), true),
        Err(StoreError::InvalidInput {
            operation: StoreOperation::RetryBuild,
            source: StoreInputError::NumericOutOfRange,
        })
    );
}

#[test]
fn retries_are_told() {
    let outcome = match retry_build::applied(1, 2, 3, 4, vec![9]) {
        Ok(outcome) => outcome,
        Err(_) => panic!("the attempt has an identity"),
    };
    let facts = retry_build::facts(&outcome);
    assert_eq!(facts.target_identity, "00000000-0000-0000-0000-000000000001");
    assert_eq!(retry_build::replay(outcome).disposition, MutationDisposition::Replayed);
    assert!(matches!(retry_build::applied(1, 0, 3, 4, vec![]), Err(StoreError::Unavailable)));
}

fn source_row(job_id: u128, dependency: Option<u128>) -> SourceJobRow {
    SourceJobRow {
        job_id,
        pipeline_node_id: format!("node-{job_id}"),
        node_is_admissible: true,
        allowed_pool_ids: vec![8],
        requirements: "{}".to_owned(),
        job_spec_template: "{}".to_owned(),
        dependency_job_id: dependency,
        dependency_policy: 1,
    }
}

#[test]
fn source_graphs_are_put_together() {
    let jobs = match source_graph(&vec![source_row(2, Some(5)), source_row(1, None), source_row(2, Some(1))]) {
        Ok(jobs) => jobs,
        Err(_) => panic!("the rows agree"),
    };
    assert_eq!(jobs.iter().map(|job| job.id).collect::<Vec<_>>(), vec![2, 1]);
    assert_eq!(jobs[0].dependencies, vec![5, 1]);
    assert_eq!(jobs[0].allowed_pools, vec![8]);
    let mut other = source_row(2, Some(1));
    other.requirements = "[]".to_owned();
    assert!(matches!(source_graph(&vec![source_row(2, None), other]), Err(StoreError::Unavailable)));
    assert!(matches!(source_graph(&vec![source_row(0, None)]), Err(StoreError::Unavailable)));
}

fn build_row() -> BuildRow {
    BuildRow {
        id: 1,
        project_id: 2,
        build_configuration_id: 3,
        build_configuration_version: 4,
        pipeline_id: 5,
        pipeline_version: 6,
        repository_id: 7,
        repository_version: 8,
        immutable_revision: "f00".to_owned(),
        input_snapshot: serde_json::Value::from(1),
        effective_policy_snapshot: serde_json::Value::from(2),
        metadata_retention_millis: 10,
        log_retention_millis: 20,
        artifact_retention_millis: 30,
        report_retention_millis: 40,
        project_job_concurrency_limit: 2,
        priority: -5,
        state: "running".to_owned(),
        version: 9,
        created_at_millis: 1,
        updated_at_millis: 2,
        occurrence_id: 11,
        trigger_id: 12,
        trigger_version: 13,
        trigger_configuration_id: 14,
        trigger_configuration_version: 15,
        deduplication_identity: "x".to_owned(),
        cause: serde_json::Value::from(3),
        causality: serde_json::Value::from(4),
        provider_metadata: serde_json::Value::from(5),
        source_time_millis: 0,
        trigger_state: "accepted".to_owned(),
        trigger_created_at_millis: 0,
        trigger_updated_at_millis: 0,
        documents_are_valid: true,
    }
}

#[test]
fn builds_are_read() {
    let record = match build(Some(build_row())) {
        Ok(record) => record,
        Err(_) => panic!("the build can be read"),
    };
    assert_eq!(record.state, BuildState::Running);
    assert_eq!(record.trigger_state, TriggerOccurrenceState::Accepted);
    assert_eq!((record.configuration.configuration_version, record.target.configuration_version), (4, 15));
    assert_eq!(record.retention.reports, 40);
    assert_eq!(record.priority, -5);
    assert_eq!(record.input_snapshot, serde_json::Value::from(1));
    assert_eq!(record.effective_policy_snapshot, serde_json::Value::from(2));
    assert_eq!(record.cause, serde_json::Value::from(3));
    assert_eq!(record.causality, serde_json::Value::from(4));
    assert_eq!(record.provider_metadata, serde_json::Value::from(5));
    assert!(matches!(build(None), Err(StoreError::NotFound { entity: EntityKind::Build })));
    let mut odd = build_row();
    odd.trigger_state = "running".to_owned();
    assert!(matches!(build(Some(odd)), Err(StoreError::Unavailable)));
    let mut large = build_row();
    large.project_job_concurrency_limit = 1 << 32;
    assert!(matches!(build(Some(large)), Err(StoreError::Unavailable)));
    for state in [
        TriggerOccurrenceState::Pending,
        TriggerOccurrenceState::Evaluating,
        TriggerOccurrenceState::Deferred,
        TriggerOccurrenceState::Accepted,
        TriggerOccurrenceState::Suppressed,
        TriggerOccurrenceState::Rejected,
    ] {
        assert_eq!(trigger_state(trigger_state_name(state)), Ok(state));
    }
}

#[test]
fn ends_agree_with_states() {
    let text = |value: &str| Some(value.to_owned());
    let end = terminal(JobState::Failed, &text("failed"), &text("execution"), Some(5));
    assert!(matches!(
        end,
        Ok(Some(end)) if end.failure_class == Some(JobFailureClass::Execution) && end.completed_at == 5
    ));
    assert!(matches!(terminal(JobState::Running, &None, &None, None), Ok(None)));
    assert!(matches!(terminal(JobState::Running, &text("failed"), &None, None), Err(StoreError::Unavailable)));
    assert!(matches!(terminal(JobState::Succeeded, &text("failed"), &None, Some(5)), Err(StoreError::Unavailable)));
    assert!(matches!(terminal(JobState::Failed, &text("failed"), &None, Some(5)), Err(StoreError::Unavailable)));
    assert!(matches!(terminal(JobState::Skipped, &None, &None, Some(5)), Ok(Some(_))));
}

fn job_row(state: &str) -> JobRow {
    JobRow {
        id: 1,
        attempt_id: 2,
        pipeline_node_id: "test".to_owned(),
        node_is_admissible: true,
        state: state.to_owned(),
        allowed_pool_ids: vec![3],
        requirements: serde_json::Value::from(1),
        job_spec_template: serde_json::Value::from(2),
        dependency_policy: serde_json::Value::from(3),
        version: 1,
        created_at_millis: 10,
        updated_at_millis: 20,
        queue_priority: Some(5),
        enqueued_at_millis: Some(11),
        assigned_pool_id: None,
        assigned_agent_id: None,
        completion_kind: None,
        failure_class: None,
        completed_at_millis: None,
        event_cursor: 0,
    }
}

#[test]
fn jobs_are_read_with_their_dependencies() {
    let dependencies = load_dependencies(&vec![(1, 7), (2, 8), (1, 9)], 1);
    assert_eq!(dependencies, Ok(vec![7, 9]));
    assert_eq!(load_dependencies(&vec![(2, 0)], 1), Err(StoreError::Unavailable));
    let record = match job_row("ready").into_record(vec![7, 9]) {
        Ok(record) => record,
        Err(_) => panic!("the job can be read"),
    };
    assert_eq!(record.dependencies, vec![7, 9]);
    assert!(matches!(record.queue, Some(queue) if queue.priority == 5));
    assert!(record.terminal.is_none());
    assert_eq!(record.requirements, serde_json::Value::from(1));
    assert_eq!(record.job_spec_template, serde_json::Value::from(2));
    assert_eq!(record.dependency_policy, serde_json::Value::from(3));
    let skipped = job_row("skipped").into_record(vec![]);
    assert!(matches!(skipped, Ok(record) if matches!(record.terminal, Some(end) if end.completed_at == 20)));
    let mut half = job_row("ready");
    half.assigned_pool_id = Some(3);
    assert!(matches!(half.into_record(vec![]), Err(StoreError::Unavailable)));
    let attempt_row = || AttemptRow {
        id: 2,
        build_id: 4,
        attempt_number: 1,
        retry_of_attempt_id: None,
        state: "created".to_owned(),
        version: 1,
        created_at_millis: 1,
        updated_at_millis: 1,
    };
    let empty = attempt_row().into_record(vec![]);
    assert!(matches!(empty, Ok(record) if record.number == 1 && record.jobs.is_empty()));
    let read = attempt(Some(attempt_row()), vec![job_row("ready"), job_row("skipped")], &vec![(1, 7), (2, 8)]);
    match read {
        Ok(read) => {
            assert_eq!(read.jobs.len(), 2);
            assert_eq!(read.jobs[1].dependencies, vec![7]);
            assert_eq!(read.jobs[1].state, JobState::Skipped);
        }
        Err(_) => panic!("the attempt can be read"),
    }
    assert!(matches!(
        attempt(None, vec![], &vec![]),
        Err(StoreError::NotFound { entity: EntityKind::Attempt })
    ));
    assert!(matches!(
        attempt(Some(attempt_row()), vec![job_row("odd")], &vec![]),
        Err(StoreError::Unavailable)
    ));
    assert!(attempt(Some(attempt_row()), vec![], &vec![(1, 0)]).is_ok());
    assert!(matches!(job(Some(job_row("ready")), &vec![(1, 7)]), Ok(job) if job.dependencies == vec![7]));
    assert!(matches!(job(None, &vec![]), Err(StoreError::NotFound { entity: EntityKind::Job })));
}

fn fact(id: u128, at: i64) -> AuditFactRow {
    AuditFactRow {
        id,
        actor_kind: "management_api".to_owned(),
        actor_identity: None,
        operation: "create-project".to_owned(),
        target_kind: "project".to_owned(),
        target_identity: "x".to_owned(),
        request_identity: None,
        idempotency_key: None,
        outcome: "succeeded".to_owned(),
        safe_metadata: "{}".to_owned(),
        occurred_at_unix_ms: at,
        is_valid: true,
    }
}

#[test]
fn audit_facts_are_listed_by_page() {
    let page = match audit_query::list(true, vec![fact(3, 30), fact(2, 20), fact(1, 10)], 2) {
        Ok(page) => page,
        Err(_) => panic!("the facts can be read"),
    };
    assert_eq!(page.items.len(), 2);
    assert_eq!(page.next_cursor, Some(AuditCursor { occurred_at: 20, id: 2 }));
    let page = audit_query::list(true, vec![fact(3, 30)], 2);
    assert!(matches!(page, Ok(page) if page.next_cursor.is_none() && page.items[0].metadata == "{}"));
    assert!(matches!(audit_query::list(true, vec![fact(0, 30)], 2), Err(StoreError::Unavailable)));
    assert!(matches!(
        audit_query::list(false, vec![fact(3, 30)], 2),
        Err(StoreError::InvalidInput {
            operation: StoreOperation::ListAuditFacts,
            source: StoreInputError::InvalidAuditQuery,
        })
    ));
}
