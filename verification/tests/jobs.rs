use store_postgres::attempt_materialization::{
    dependency_pairs, initial_state_name, roots, signable_jobs, MaterializedJob, ReadyJobSpecRow,
};
use store_postgres::domain::{EntityKind, MutationDisposition, StoreError, StoreInputError, StoreOperation};
use store_postgres::job_claim::{
    self, answer, concurrency_locks, grant, leases_counted, page_fetched, pool_lock, start, within_concurrency_limits,
    CandidateRow, ClaimStart, JobClaim, QueueCursor, SearchStep, StoredOutcome, PAGE_SIZE,
};
use store_postgres::job_completion::{
    self, completion_kind, copy_ids, failure_class, parse_failure_class, persist_terminal_state,
    require_durable_cursor, CompletionRow, CompletionStep, CompletionSurroundings, JobCompletion, JobCompletionKind,
    JobFailureClass,
};
use store_postgres::job_event_query::{read, JobEventReadRow};
use store_postgres::job_events::{
    self, batch_key, durable_position, execution_started, plan_append, plan_log_chunks, replay_range,
    AppendSurroundings, ChunkWrite, EventDigestRow, JobEvent, LogChunk,
};
use store_postgres::lease::{fence_hash, LeaseAccess, LeaseRow};
use store_postgres::orchestration::{apply_job_transitions, graph, jobs_moved_to, GraphRow, JobTransition};
use store_postgres::ordered::{extend_ordered, insert_ordered, ordered};
use store_postgres::state::{AttemptState, BuildState, JobState};

fn events(sequences: &[u64]) -> Vec<JobEvent> {
    sequences.iter().map(|sequence| JobEvent { sequence: *sequence, digest: vec![*sequence as u8; 32] }).collect()
}

fn digests(sequences: &[i64]) -> Vec<EventDigestRow> {
    sequences
        .iter()
        .map(|sequence| EventDigestRow { sequence: *sequence, event_digest: vec![*sequence as u8; 32] })
        .collect()
}

#[test]
fn events_are_appended_without_a_hole() {
    let plan = match plan_append(&events(&[3, 4, 5]), 9, 3, &digests(&[3])) {
        Ok(plan) => plan,
        Err(_) => panic!("the batch continues the log"),
    };
    assert_eq!(plan.new_events, vec![1, 2]);
    assert_eq!((plan.acknowledged_through, plan.inserted), (5, 2));
}

#[test]
fn appending_again_writes_nothing() {
    let plan = match plan_append(&events(&[3, 4]), 9, 4, &digests(&[3, 4])) {
        Ok(plan) => plan,
        Err(_) => panic!("the batch is a repetition"),
    };
    assert!(plan.new_events.is_empty());
    assert_eq!((plan.acknowledged_through, plan.inserted), (4, 0));
}

#[test]
fn gaps_are_refused() {
    assert!(matches!(
        plan_append(&events(&[6]), 9, 4, &digests(&[])),
        Err(StoreError::EventGap { job: 9, expected: 5, actual: 6 })
    ));
    assert!(matches!(
        plan_append(&events(&[5, 7]), 9, 4, &digests(&[])),
        Err(StoreError::EventGap { job: 9, expected: 6, actual: 7 })
    ));
}

#[test]
fn changed_events_are_refused() {
    let mut changed = digests(&[3]);
    changed[0].event_digest[0] = 99;
    assert!(matches!(
        plan_append(&events(&[3]), 9, 3, &changed),
        Err(StoreError::Conflict { entity: EntityKind::Job })
    ));
    assert!(matches!(plan_append(&events(&[1]), 9, -1, &digests(&[])), Err(StoreError::Unavailable)));
    assert!(matches!(
        plan_append(&events(&[u64::MAX]), 9, 0, &digests(&[])),
        Err(StoreError::InvalidInput { source: StoreInputError::NumericOutOfRange, .. })
    ));
}

#[test]
fn repeated_events_are_looked_up() {
    assert_eq!(replay_range(&events(&[3, 4, 5]), 4), Ok(Some((3, 4))));
    assert_eq!(replay_range(&events(&[5, 6]), 4), Ok(None));
    assert_eq!(durable_position(7), Ok(7));
    assert_eq!(durable_position(-7), Err(StoreError::Unavailable));
    assert_eq!(batch_key(1, &events(&[3, 4, 12])), "00000000-0000-0000-0000-000000000001:3-12");
}

#[test]
fn chunks_take_the_next_positions() {
    let chunks = vec![
        LogChunk { first_sequence: 1, last_sequence: 2, byte_length: 3 },
        LogChunk { first_sequence: 4, last_sequence: 5, byte_length: 6 },
    ];
    let writes = match plan_log_chunks(10, &chunks) {
        Ok(writes) => writes,
        Err(_) => panic!("there are positions left"),
    };
    assert_eq!(writes[0], ChunkWrite { position: 11, first_sequence: 1, last_sequence: 2, byte_length: 3 });
    assert_eq!(writes[1].position, 12);
    assert!(matches!(plan_log_chunks(i64::MAX - 1, &chunks), Err(StoreError::Unavailable)));
    let large = vec![LogChunk { first_sequence: 1, last_sequence: u64::MAX, byte_length: 3 }];
    assert!(matches!(
        plan_log_chunks(10, &large),
        Err(StoreError::InvalidInput { operation: StoreOperation::AppendJobEvents, .. })
    ));
}

#[test]
fn started_jobs_are_running() {
    assert_eq!(execution_started("leased", Ok(JobState::Running)), Ok(Some("running")));
    assert_eq!(execution_started("running", Ok(JobState::Running)), Ok(None));
    assert_eq!(execution_started("odd", Ok(JobState::Running)), Err(StoreError::Unavailable));
    let refused = Err(StoreError::Conflict { entity: EntityKind::Job });
    assert!(execution_started("ready", refused).is_err());
    let plan = plan_append(&events(&[1]), 9, 0, &digests(&[]));
    if let Ok(plan) = plan {
        let facts = job_events::facts(2, 1, 9, 1, &plan);
        assert!(!facts.safe_metadata.is_empty());
    }
}

fn event_row(sequence: Option<i64>) -> JobEventReadRow {
    JobEventReadRow {
        current_sequence: 8,
        sequence,
        event_kind: sequence.map(|_| "log".to_owned()),
        event_time_unix_ms: sequence.map(|_| 5),
        payload: sequence.map(|_| "{}".to_owned()),
        admissible: true,
    }
}

#[test]
fn events_are_read_by_page() {
    let page = match read(Ok(()), 2, &vec![event_row(Some(3)), event_row(Some(4))]) {
        Ok(page) => page,
        Err(_) => panic!("the events can be read"),
    };
    assert_eq!(page.events.len(), 2);
    assert_eq!(page.cursor, 4);
    assert!(matches!(read(Ok(()), 2, &vec![event_row(None)]), Ok(page) if page.events.is_empty() && page.cursor == 8));
    assert!(matches!(read(Err(StoreError::Unavailable), 2, &vec![]), Err(StoreError::Unavailable)));
    assert!(matches!(
        read(Ok(()), u64::MAX, &vec![]),
        Err(StoreError::InvalidInput { operation: StoreOperation::ReadJobEvents, .. })
    ));
    assert!(matches!(read(Ok(()), 2, &vec![]), Err(StoreError::NotFound { entity: EntityKind::Job })));
    let mut half = event_row(Some(3));
    half.payload = None;
    assert!(matches!(read(Ok(()), 2, &vec![half]), Err(StoreError::Unavailable)));
}

fn lease(state: &str) -> LeaseRow {
    LeaseRow {
        job_id: 4,
        attempt_id: 5,
        attempt_number: 6,
        build_id: 7,
        project_id: 8,
        registration_id: 9,
        agent_id: 2,
        epoch: 3,
        fence_hash: fence_hash(b"fence"),
        state: state.to_owned(),
        expired: false,
        expires_at_millis: 100,
    }
}

fn completion(kind: JobCompletionKind) -> JobCompletion {
    JobCompletion {
        lease: LeaseAccess { lease_id: 1, agent_id: 2, registration_epoch: 3, fence: b"fence".to_vec() },
        final_sequence: Some(12),
        kind,
        completed_at: 50,
    }
}

fn recorded() -> CompletionRow {
    CompletionRow {
        lease_id: 1,
        final_sequence: 12,
        kind: "failed".to_owned(),
        failure_class: Some("execution".to_owned()),
        ready_job_ids: vec![],
        skipped_job_ids: vec![21],
        attempt_state: "failed".to_owned(),
        build_state: "failed".to_owned(),
    }
}

fn met(existing: Option<CompletionRow>) -> CompletionSurroundings {
    CompletionSurroundings { graph: Some((5, 7)), locked_build: 7, existing, durable_through: 12 }
}

#[test]
fn completions_happen_once() {
    let failed = completion(JobCompletionKind::Failed(JobFailureClass::Execution));
    let fresh = job_completion::execute(&failed, Some(lease("active")), met(None), Ok(JobState::Failed));
    assert!(matches!(fresh, Ok(CompletionStep::Complete { final_sequence: 12, job_state: "failed" })));
    let repeated =
        job_completion::execute(&failed, Some(lease("completed")), met(Some(recorded())), Ok(JobState::Failed));
    match repeated {
        Ok(CompletionStep::Repeat(outcome)) => {
            assert_eq!(outcome.disposition, MutationDisposition::Replayed);
            assert_eq!(outcome.skipped_jobs, vec![21]);
            assert_eq!(outcome.build_state, BuildState::Failed);
        }
        _ => panic!("the completion is a repetition"),
    }
    let other = completion(JobCompletionKind::Succeeded);
    assert!(matches!(
        job_completion::execute(&other, Some(lease("completed")), met(Some(recorded())), Ok(JobState::Succeeded)),
        Err(StoreError::Conflict { entity: EntityKind::Job })
    ));
}

#[test]
fn completions_need_the_lease() {
    let complete = |request: &JobCompletion, row: Option<LeaseRow>, met: CompletionSurroundings| {
        job_completion::execute(request, row, met, Ok(JobState::Succeeded))
    };
    let done = completion(JobCompletionKind::Succeeded);
    assert!(matches!(
        complete(&done, Some(lease("active")), CompletionSurroundings { graph: None, ..met(None) }),
        Err(StoreError::Fenced { lease: 1 })
    ));
    assert!(matches!(
        complete(&done, Some(lease("active")), CompletionSurroundings { locked_build: 8, ..met(None) }),
        Err(StoreError::Unavailable)
    ));
    assert!(matches!(
        complete(&done, Some(lease("active")), CompletionSurroundings { graph: Some((6, 7)), ..met(None) }),
        Err(StoreError::Unavailable)
    ));
    assert!(matches!(complete(&done, None, met(None)), Err(StoreError::Fenced { lease: 1 })));
    let mut foreign = lease("active");
    foreign.fence_hash = vec![1; 32];
    assert!(matches!(complete(&done, Some(foreign), met(None)), Err(StoreError::Fenced { lease: 1 })));
    let mut late = completion(JobCompletionKind::Succeeded);
    late.completed_at = 100;
    assert!(matches!(complete(&late, Some(lease("active")), met(None)), Err(StoreError::Expired { lease: 1 })));
    let mut large = completion(JobCompletionKind::Succeeded);
    large.final_sequence = Some(u64::MAX);
    assert!(matches!(
        complete(&large, Some(lease("active")), met(None)),
        Err(StoreError::InvalidInput { operation: StoreOperation::CompleteJob, .. })
    ));
    assert!(matches!(
        complete(&done, Some(lease("active")), CompletionSurroundings { durable_through: 11, ..met(None) }),
        Err(StoreError::EventsMissing { job: 4, durable_through: 11, required: 12 })
    ));
    let cancelled = completion(JobCompletionKind::Cancelled);
    assert!(matches!(complete(&cancelled, Some(lease("active")), met(None)), Err(StoreError::Unavailable)));
}

#[test]
fn completions_wait_for_every_event() {
    assert_eq!(require_durable_cursor(4, 12, 12), Ok(()));
    assert_eq!(
        require_durable_cursor(4, 11, 12),
        Err(StoreError::EventsMissing { job: 4, durable_through: 11, required: 12 })
    );
    assert_eq!(require_durable_cursor(4, 13, 12), Err(StoreError::Conflict { entity: EntityKind::Job }));
    assert_eq!(require_durable_cursor(4, -1, 12), Err(StoreError::Unavailable));
}

#[test]
fn batches_are_appended_by_the_holder() {
    let access = |fence: &[u8]| LeaseAccess { lease_id: 1, agent_id: 2, registration_epoch: 3, fence: fence.to_vec() };
    let met = |durable_through: i64, job_state: &str| AppendSurroundings {
        durable_through,
        durable_digests: digests(&[3]),
        job_state: job_state.to_owned(),
        committed_through: 10,
    };
    let chunks = vec![LogChunk { first_sequence: 3, last_sequence: 5, byte_length: 6 }];
    let append = |row: Option<LeaseRow>, fence: &[u8], at: i64, chunks_fit: Result<(), StoreError>| {
        let batch = events(&[3, 4, 5]);
        let started = Ok(JobState::Running);
        job_events::execute(Ok(()), row, &access(fence), at, &batch, &chunks, chunks_fit, started, &met(3, "leased"))
    };
    let appended = match append(Some(lease("active")), b"fence", 50, Ok(())) {
        Ok(appended) => appended,
        Err(_) => panic!("the batch can be appended"),
    };
    assert_eq!(appended.plan.new_events, vec![1, 2]);
    assert_eq!((appended.plan.acknowledged_through, appended.started), (5, Some("running")));
    assert_eq!(appended.chunks.len(), 1);
    assert_eq!(appended.chunks[0].position, 11);
    assert!(matches!(append(None, b"fence", 50, Ok(())), Err(StoreError::Fenced { lease: 1 })));
    assert!(matches!(append(Some(lease("active")), b"other", 50, Ok(())), Err(StoreError::Fenced { lease: 1 })));
    assert!(matches!(append(Some(lease("active")), b"fence", 100, Ok(())), Err(StoreError::Expired { lease: 1 })));
    assert!(matches!(
        append(Some(lease("active")), b"fence", 50, Err(StoreError::Conflict { entity: EntityKind::LogChunk })),
        Err(StoreError::Conflict { entity: EntityKind::LogChunk })
    ));
    let repeated = job_events::execute(
        Ok(()),
        Some(lease("active")),
        &access(b"fence"),
        50,
        &events(&[3]),
        &vec![],
        Ok(()),
        Err(StoreError::Unavailable),
        &met(3, "odd"),
    );
    assert!(matches!(repeated, Ok(append) if append.started.is_none() && append.plan.inserted == 0));
    let odd = job_events::execute(
        Ok(()),
        Some(lease("active")),
        &access(b"fence"),
        50,
        &events(&[4]),
        &vec![],
        Ok(()),
        Ok(JobState::Running),
        &met(3, "odd"),
    );
    assert!(matches!(odd, Err(StoreError::Unavailable)));
    let refused = job_events::execute(
        Err(StoreError::Unavailable),
        None,
        &access(b"fence"),
        50,
        &vec![],
        &vec![],
        Ok(()),
        Ok(JobState::Running),
        &met(3, "leased"),
    );
    assert!(matches!(refused, Err(StoreError::Unavailable)));
    let prepare = |row: Option<LeaseRow>, at: i64| job_events::prepare(row, &access(b"fence"), at, 3);
    assert_eq!(prepare(Some(lease("active")), 50), Ok(3));
    assert_eq!(prepare(None, 50), Err(StoreError::Fenced { lease: 1 }));
    assert_eq!(prepare(Some(lease("active")), 100), Err(StoreError::Expired { lease: 1 }));
}

#[test]
fn completions_are_named() {
    assert_eq!(completion_kind(JobCompletionKind::Cancelled), "cancelled");
    assert_eq!(failure_class(JobCompletionKind::Failed(JobFailureClass::Infrastructure)), Some("infrastructure"));
    assert_eq!(failure_class(JobCompletionKind::Succeeded), None);
    assert_eq!(parse_failure_class(&Some("execution".to_owned())), Ok(Some(JobFailureClass::Execution)));
    assert_eq!(parse_failure_class(&None), Ok(None));
    assert_eq!(parse_failure_class(&Some("odd".to_owned())), Err(StoreError::Unavailable));
    assert_eq!(persist_terminal_state(JobCompletionKind::Succeeded, Ok(JobState::Succeeded)), Ok("succeeded"));
    assert_eq!(copy_ids(&vec![1, 2]), vec![1, 2]);
    let applied = job_completion::applied(
        &completion(JobCompletionKind::Succeeded),
        4,
        vec![21],
        vec![],
        AttemptState::Running,
        BuildState::Running,
    );
    match applied {
        Ok(outcome) => {
            let facts = job_completion::facts(&completion(JobCompletionKind::Succeeded), &outcome);
            assert_eq!(facts.target_identity, "00000000-0000-0000-0000-000000000004");
            assert_eq!(job_completion::replay(outcome).disposition, MutationDisposition::Replayed);
        }
        Err(_) => panic!("the job has an identity"),
    }
}

fn graph_row(job_id: u128, state: &str, dependency: Option<u128>) -> GraphRow {
    GraphRow { job_id, job_state: state.to_owned(), dependency_job_id: dependency, dependency_policy: 0 }
}

#[test]
fn graphs_are_put_together() {
    let nodes = match graph(&vec![
        graph_row(2, "blocked", Some(1)),
        graph_row(1, "succeeded", None),
        graph_row(2, "blocked", Some(3)),
        graph_row(3, "running", None),
    ]) {
        Ok(nodes) => nodes,
        Err(_) => panic!("the rows agree"),
    };
    assert_eq!(nodes.iter().map(|node| node.job_id).collect::<Vec<_>>(), vec![1, 2, 3]);
    assert_eq!(nodes[1].dependencies, vec![1, 3]);
    assert_eq!(nodes[1].state, JobState::Blocked);
    assert!(matches!(
        graph(&vec![graph_row(2, "blocked", Some(1)), graph_row(2, "ready", Some(3))]),
        Err(StoreError::Unavailable)
    ));
    assert!(matches!(graph(&vec![graph_row(0, "ready", None)]), Err(StoreError::Unavailable)));
}

#[test]
fn ready_and_skipped_jobs_are_told_apart() {
    let transitions = vec![
        JobTransition { job_id: 1, state: JobState::Ready },
        JobTransition { job_id: 2, state: JobState::Skipped },
        JobTransition { job_id: 3, state: JobState::Ready },
    ];
    assert_eq!(apply_job_transitions(&transitions), (vec![1, 3], vec![2]));
    assert_eq!(jobs_moved_to(&transitions, JobState::Failed), Vec::<u128>::new());
}

fn job(id: u128, dependencies: Vec<u128>) -> MaterializedJob {
    MaterializedJob { id, dependencies, allowed_pools: vec![] }
}

#[test]
fn roots_wait_for_nothing() {
    let jobs = vec![job(1, vec![]), job(2, vec![1]), job(3, vec![]), job(4, vec![2, 3])];
    assert_eq!(roots(&jobs), vec![1, 3]);
    assert_eq!(initial_state_name(&jobs[0]), "ready");
    assert_eq!(initial_state_name(&jobs[1]), "blocked");
    assert_eq!(dependency_pairs(&jobs), vec![(2, 1), (4, 2), (4, 3)]);
}

#[test]
fn every_ready_job_is_signed() {
    let row = |job_id: u128| ReadyJobSpecRow { job_id, attempt_number: 2 };
    assert_eq!(signable_jobs(&vec![1, 2], &vec![row(1), row(2)]), Ok(vec![(1, 2), (2, 2)]));
    assert_eq!(signable_jobs(&vec![1, 2], &vec![row(1)]), Err(StoreError::Unavailable));
    assert_eq!(signable_jobs(&vec![0], &vec![row(0)]), Err(StoreError::Unavailable));
}

fn request() -> JobClaim {
    JobClaim {
        lease_id: 1,
        fence: vec![9],
        agent_id: 2,
        registration_epoch: 3,
        pool_id: 4,
        claimed_at: 10,
        expires_at: 20,
    }
}

fn candidate(job_id: u128) -> CandidateRow {
    CandidateRow {
        job_id,
        project_id: 30,
        build_configuration_id: 31,
        project_concurrency_limit: 2,
        configuration_concurrency_limit: 1,
        priority: 5,
        fairness_rank: 0,
        enqueue_order: job_id as i64,
        attempt_number: 1,
    }
}

#[test]
fn claims_start_for_registered_agents() {
    assert_eq!(start(Ok(()), &request(), false, true, false), Ok(ClaimStart::Empty));
    assert_eq!(start(Ok(()), &request(), true, true, false), Ok(ClaimStart::Search { epoch: 3 }));
    let invalid = Err(StoreError::InvalidInput {
        operation: StoreOperation::ClaimReadyJob,
        source: StoreInputError::InvalidAgentInventory,
    });
    assert_eq!(start(Ok(()), &request(), true, true, true), invalid);
    assert_eq!(start(Ok(()), &request(), true, false, false), invalid);
}

#[test]
fn candidates_are_tried_in_order() {
    let page = vec![candidate(1), candidate(2)];
    assert_eq!(page_fetched(&page), SearchStep::CheckCompatibility { index: 0 });
    assert_eq!(page_fetched(&vec![]), SearchStep::Empty);
    let mut step = SearchStep::CheckCompatibility { index: 0 };
    step = answer(&page, step, true);
    assert_eq!(step, SearchStep::LockEntry { index: 0 });
    step = answer(&page, step, true);
    assert_eq!(step, SearchStep::LockProject { index: 0 });
    step = answer(&page, step, true);
    assert_eq!(step, SearchStep::LockConfiguration { index: 0 });
    assert_eq!(answer(&page, step, false), SearchStep::CheckCompatibility { index: 1 });
    step = answer(&page, step, true);
    assert_eq!(step, SearchStep::CountLeases { index: 0 });
    assert_eq!(leases_counted(&page, 0, 1, 0), Ok(SearchStep::Claim { index: 0 }));
    assert_eq!(leases_counted(&page, 0, 2, 0), Ok(SearchStep::CheckCompatibility { index: 1 }));
    assert_eq!(answer(&page, SearchStep::CheckCompatibility { index: 1 }, false), SearchStep::Empty);
}

#[test]
fn full_pages_are_followed_by_another() {
    let page: Vec<CandidateRow> = (1..=PAGE_SIZE as u128).map(candidate).collect();
    let last = SearchStep::LockEntry { index: PAGE_SIZE - 1 };
    assert_eq!(
        answer(&page, last, false),
        SearchStep::FetchPage {
            after: Some(QueueCursor {
                priority: 5,
                fairness_rank: 0,
                enqueue_order: PAGE_SIZE as i64,
                job_id: PAGE_SIZE as u128,
            }),
        }
    );
}

#[test]
fn limits_bound_what_runs_at_once() {
    assert_eq!(within_concurrency_limits(&candidate(1), 1, 0), Ok(true));
    assert_eq!(within_concurrency_limits(&candidate(1), 1, 1), Ok(false));
    assert_eq!(within_concurrency_limits(&candidate(1), 2, 0), Ok(false));
    let mut broken = candidate(1);
    broken.project_concurrency_limit = 0;
    assert_eq!(within_concurrency_limits(&broken, 0, 0), Err(StoreError::Unavailable));
    assert_eq!(pool_lock(4), "octacity.agent-pool.00000000-0000-0000-0000-000000000004");
    let (project, configuration) = concurrency_locks(30, 31);
    assert_eq!(project, "octacity.project-concurrency.00000000-0000-0000-0000-00000000001e");
    assert_eq!(configuration, "octacity.configuration-concurrency.00000000-0000-0000-0000-00000000001f");
}

#[test]
fn claims_are_granted() {
    let granted = match grant(request(), &candidate(7), "signed".to_owned()) {
        Ok(granted) => granted,
        Err(_) => panic!("the candidate can be read"),
    };
    assert_eq!((granted.job_id, granted.attempt, granted.expires_at), (7, 1, 20));
    assert_eq!(granted.fence, vec![9]);
    let facts = job_claim::facts(&granted);
    assert!(!facts.outbox_payload.is_empty());
    assert!(matches!(grant(request(), &candidate(0), "signed".to_owned()), Err(StoreError::Unavailable)));
    let stored = StoredOutcome {
        job_id: 7,
        attempt: 1,
        signed_job_spec: "signed".to_owned(),
        claimed_at: 1,
        expires_at: 2,
    };
    let replayed = job_claim::replay(request(), stored);
    assert_eq!((replayed.job_id, replayed.claimed_at, replayed.expires_at), (7, 1, 2));
}

#[test]
fn identities_are_kept_in_order() {
    assert_eq!(ordered(&vec![3, 1, 2, 3]), vec![1, 2, 3]);
    let mut ids = vec![1, 4];
    insert_ordered(&mut ids, 3);
    insert_ordered(&mut ids, 4);
    assert_eq!(ids, vec![1, 3, 4]);
    extend_ordered(&mut ids, &vec![2, 9, 1]);
    assert_eq!(ids, vec![1, 2, 3, 4, 9]);
}
