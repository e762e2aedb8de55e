use store_postgres::agent_credential::{
    authenticate, issue, issue_facts, platform_columns, replay_issue, require_revoked, revocation_facts,
    revocation_identity, AgentCredentialTarget, CredentialRow, ExpectedAgentPlatform, IssueAgentEnrollment,
};
use store_postgres::agent_mutation::{
    current_pool, drain, drain_facts, ensure_compatible, pools_to_lock, reassign, reassign_facts, require_movable,
    AgentDrainMode, AgentLockRow, AgentMove, CurrentPoolRow,
};
use store_postgres::agent_query::{self, agent_status, parse_agent_status, AgentRow, AgentStatus};
use store_postgres::agent_registration::{
    self, enroll, platform_matches, registration_numbers, renew, require_consumed, EnrollmentRow, RegisterAgent,
    RegistrationProof, RegistrationRow,
};
use store_postgres::domain::{EntityKind, MutationDisposition, StoreError, StoreInputError, StoreOperation};
use store_postgres::mutation::{FactValue, MutationKind};
use store_postgres::pool::{
    self, accepts_platform, apply_lease_directive, classify_create, delete_facts, drain_state, fairness_policy,
    parse_drain_state, parse_fairness_policy, pool_facts, require_current, same_platform, AgentPlatform,
    AgentPoolDefinition, AgentPoolMutationOutcome, CreateAgentPool, DeleteAgentPoolOutcome, PoolAdmissionPolicy,
    PoolDrainState, PoolFairnessPolicy, PoolRow, PublishAgentPoolVersion, PublishedAgentPool,
};

fn platform(system: &str) -> AgentPlatform {
    AgentPlatform { operating_system: system.to_owned(), architecture: "x86_64".to_owned() }
}

fn definition() -> AgentPoolDefinition {
    AgentPoolDefinition {
        enabled: true,
        drain_state: PoolDrainState::Accepting,
        admission_policy: PoolAdmissionPolicy::Any,
        concurrency_limit: 4,
        fairness_policy: PoolFairnessPolicy::PriorityFifo,
        static_capacity_limit: 2,
    }
}

fn published() -> PublishedAgentPool {
    PublishedAgentPool {
        id: 1,
        name: "linux".to_owned(),
        version: 3,
        definition: definition(),
        published_at: 10,
    }
}

#[test]
fn pool_names_are_read_back() {
    for state in [
        PoolDrainState::Accepting,
        PoolDrainState::GracefulDrain,
        PoolDrainState::ForcedDrain,
        PoolDrainState::Drained,
    ] {
        assert_eq!(parse_drain_state(drain_state(state)), Ok(state));
    }
    assert_eq!(parse_drain_state("open"), Err(StoreError::Unavailable));
    for policy in [PoolFairnessPolicy::PriorityFifo, PoolFairnessPolicy::ConfigurationFair] {
        assert_eq!(parse_fairness_policy(fairness_policy(policy)), Ok(policy));
    }
    assert_eq!(fairness_policy(PoolFairnessPolicy::ConfigurationFair), "configuration_fair");
}

#[test]
fn pools_choose_platforms() {
    assert!(accepts_platform(&PoolAdmissionPolicy::Any, &None));
    let only = PoolAdmissionPolicy::Allowlist { platforms: vec![platform("linux"), platform("macos")] };
    assert!(accepts_platform(&only, &Some(platform("macos"))));
    assert!(!accepts_platform(&only, &Some(platform("windows"))));
    assert!(!accepts_platform(&only, &None));
    assert!(same_platform(&platform("linux"), &platform("linux")));
    assert!(!same_platform(&platform("linux"), &platform("macos")));
}

fn pool_row() -> PoolRow {
    PoolRow {
        id: 1,
        name: "linux".to_owned(),
        version: 3,
        enabled: true,
        drain_state: "accepting".to_owned(),
        admission_policy: Some(PoolAdmissionPolicy::Any),
        concurrency_limit: 4,
        fairness_policy: "priority_fifo".to_owned(),
        static_capacity_limit: 2,
        published_at_millis: 10,
        is_valid: true,
    }
}

#[test]
fn pools_are_read_and_listed() {
    assert!(matches!(pool::decode(pool_row()), Ok(read) if read.definition.static_capacity_limit == 2));
    let mut odd = pool_row();
    odd.concurrency_limit = -1;
    assert!(matches!(pool::decode(odd), Err(StoreError::Unavailable)));
    let page = match pool::list(vec![pool_row(), pool_row()], 1) {
        Ok(page) => page,
        Err(_) => panic!("the pools can be read"),
    };
    assert_eq!(page.pools.len(), 1);
    assert_eq!(page.next_cursor, Some(1));
    let mut lost = pool_row();
    lost.version = 0;
    assert!(matches!(pool::list(vec![pool_row(), lost], 1), Err(StoreError::Unavailable)));
    assert!(matches!(pool::read(Some(pool_row())), Ok(read) if read.version == 3));
    assert!(matches!(pool::read(None), Err(StoreError::NotFound { entity: EntityKind::Pool })));
    assert_eq!(pool::read_version(5), Ok(5));
    assert!(pool::read_version(u64::MAX).is_err());
    let request = || CreateAgentPool { id: 1, name: "linux".to_owned(), definition: definition(), published_at: 10 };
    let created = pool::create(Ok(()), false, request());
    assert!(matches!(created, Ok(created) if created.pool.version == 1 && created.pool.name == "linux"));
    let taken = pool::create(Ok(()), true, request());
    assert!(matches!(taken, Err(StoreError::Conflict { entity: EntityKind::Pool })));
    let refused = pool::create(Err(StoreInputError::NumericOutOfRange), true, request());
    assert!(matches!(refused, Err(StoreError::InvalidInput { operation: StoreOperation::CreateAgentPool, .. })));
}

#[test]
fn pools_are_published_in_turn() {
    let publish = |current: Option<PublishedAgentPool>, expected_current_version: u64, published_at: i64| {
        let mut definition = definition();
        definition.drain_state = PoolDrainState::ForcedDrain;
        let request = PublishAgentPoolVersion { expected_current_version, definition, published_at };
        pool::publish(Ok(()), current, request, Ok(()))
    };
    let conflict = StoreError::Conflict { entity: EntityKind::Pool };
    let next = match publish(Some(published()), 3, 11) {
        Ok(next) => next,
        Err(_) => panic!("the version can be published"),
    };
    assert_eq!((next.version, next.lease_state), (4, Some("cancellation_requested")));
    assert_eq!((next.outcome.pool.id, next.outcome.pool.version, next.outcome.pool.published_at), (1, 4, 11));
    assert!(matches!(publish(Some(published()), 2, 10), Err(error) if error == conflict));
    assert!(matches!(publish(Some(published()), 3, 9), Err(error) if error == conflict));
    assert!(matches!(publish(None, 3, 10), Err(StoreError::NotFound { entity: EntityKind::Pool })));
    assert!(matches!(publish(Some(next.outcome.pool), 3, 12), Err(error) if error == conflict));
    let request = || PublishAgentPoolVersion {
        expected_current_version: 3,
        definition: definition(),
        published_at: 10,
    };
    let refused = Err(StoreError::Conflict { entity: EntityKind::Agent });
    assert!(matches!(
        pool::publish(Ok(()), Some(published()), request(), refused),
        Err(StoreError::Conflict { entity: EntityKind::Agent })
    ));
    assert!(matches!(
        pool::publish(Err(StoreInputError::NumericOutOfRange), Some(published()), request(), Ok(())),
        Err(StoreError::InvalidInput { operation: StoreOperation::PublishAgentPoolVersion, .. })
    ));
    assert_eq!(require_current(&Some(published()), 3, 10), Ok(()));
    let mut last = published();
    last.version = i64::MAX as u64;
    assert!(matches!(publish(Some(last), i64::MAX as u64, 10), Err(error) if error == conflict));
}

#[test]
fn pools_are_deleted_unless_needed() {
    assert_eq!(pool::delete(&Some(published()), 3, 10, false), Ok(()));
    assert_eq!(
        pool::delete(&Some(published()), 3, 10, true),
        Err(StoreError::Conflict { entity: EntityKind::Pool })
    );
    assert_eq!(classify_create(true), StoreError::Duplicate { entity: EntityKind::Pool });
    assert_eq!(classify_create(false), StoreError::Unavailable);
    assert_eq!(apply_lease_directive(PoolDrainState::GracefulDrain), Some("drain_requested"));
    assert_eq!(apply_lease_directive(PoolDrainState::ForcedDrain), Some("cancellation_requested"));
    assert_eq!(apply_lease_directive(PoolDrainState::Accepting), None);
    let facts = pool_facts(&published());
    assert!(matches!(facts.safe_metadata[2].value, FactValue::Word("accepting")));
    assert!(matches!(delete_facts(1, 3).safe_metadata[0].value, FactValue::Number(3)));
    let stored = AgentPoolMutationOutcome { disposition: MutationDisposition::Applied, pool: published() };
    assert_eq!(pool::replay_pool(stored).disposition, MutationDisposition::Replayed);
    let stored = DeleteAgentPoolOutcome { disposition: MutationDisposition::Applied, pool_id: 1 };
    assert_eq!(pool::replay_delete(stored).disposition, MutationDisposition::Replayed);
}

#[test]
fn agents_are_read() {
    let row = || AgentRow {
        id: 1,
        name: "agent".to_owned(),
        version: 2,
        pool_id: 3,
        pool_version: 4,
        inventory: "{}".to_owned(),
        state: "online".to_owned(),
        last_seen_at_millis: 5,
        created_at_millis: 6,
        updated_at_millis: 7,
        is_valid: true,
    };
    let agent = match agent_query::decode(row()) {
        Ok(agent) => agent,
        Err(_) => panic!("the agent can be read"),
    };
    assert_eq!(agent.status, AgentStatus::Online);
    let mut odd = row();
    odd.state = "busy".to_owned();
    assert!(matches!(agent_query::decode(odd), Err(StoreError::Unavailable)));
    let mut lost = row();
    lost.pool_id = 0;
    assert!(matches!(agent_query::list(vec![row(), lost], 1), Err(StoreError::Unavailable)));
    let page = agent_query::list(vec![row(), row()], 1);
    assert!(matches!(page, Ok(page) if page.agents.len() == 1 && page.next_cursor == Some(1)));
    assert!(matches!(agent_query::list(vec![row()], 1), Ok(page) if page.next_cursor.is_none()));
    assert!(matches!(agent_query::read(Some(row())), Ok(agent) if agent.id == 1));
    assert!(matches!(agent_query::read(None), Err(StoreError::NotFound { entity: EntityKind::Agent })));
    assert_eq!(agent_status(AgentStatus::Draining), "draining");
    assert_eq!(parse_agent_status("offline"), Ok(AgentStatus::Offline));
}

fn enrollment() -> EnrollmentRow {
    EnrollmentRow {
        credential_hash: vec![7; 32],
        pool_id: 3,
        pool_version: 4,
        expected_operating_system: Some("linux".to_owned()),
        expected_architecture: Some("x86_64".to_owned()),
        consumed: false,
        revoked: false,
        expires_at: 100,
    }
}

fn registering() -> RegisterAgent {
    RegisterAgent {
        credential_id: 20,
        agent_id: 21,
        agent_name: "agent".to_owned(),
        platform: platform("linux"),
        registered_at: 50,
        expires_at: 500,
    }
}

fn known(greatest_epoch: i64) -> agent_registration::AgentRow {
    agent_registration::AgentRow {
        name: "agent".to_owned(),
        pool_id: 3,
        pool_version: 4,
        platform_operating_system: Some("linux".to_owned()),
        platform_architecture: Some("x86_64".to_owned()),
        greatest_epoch,
    }
}

#[test]
fn new_agents_start_with_epoch_one() {
    let authority = match enroll(30, &Some(enrollment()), &None, &[7; 32], &registering()) {
        Ok(authority) => authority,
        Err(_) => panic!("the credential is good"),
    };
    assert_eq!((authority.epoch, authority.create_agent), (1, true));
    assert_eq!(authority.consumed_enrollment, Some(30));
    assert_eq!(registration_numbers(&authority), Ok((4, 1)));
    let outcome = agent_registration::outcome(&registering(), &authority);
    assert_eq!((outcome.agent_id, outcome.registration_epoch, outcome.pool_version), (21, 1, 4));
    assert!(!agent_registration::facts(&outcome).outbox_payload.is_empty());
    assert_eq!(agent_registration::replay(outcome).disposition, MutationDisposition::Replayed);
    assert_eq!(require_consumed(1), Ok(()));
    assert_eq!(require_consumed(0), Err(StoreError::CredentialRejected));
}

#[test]
fn enrollments_are_used_once() {
    let rejected = Err(StoreError::CredentialRejected);
    let mut used = enrollment();
    used.consumed = true;
    assert_eq!(enroll(30, &Some(used), &None, &[7; 32], &registering()), rejected);
    let mut revoked = enrollment();
    revoked.revoked = true;
    assert_eq!(enroll(30, &Some(revoked), &None, &[7; 32], &registering()), rejected);
    let mut old = enrollment();
    old.expires_at = 50;
    assert_eq!(enroll(30, &Some(old), &None, &[7; 32], &registering()), rejected);
    assert_eq!(enroll(30, &None, &None, &[7; 32], &registering()), rejected);
    assert_eq!(enroll(30, &Some(enrollment()), &None, &[8; 32], &registering()), rejected);
    let mut short = enrollment();
    short.credential_hash.pop();
    assert_eq!(enroll(30, &Some(short), &None, &[7; 32], &registering()), Err(StoreError::Unavailable));
}

fn previous() -> Option<RegistrationRow> {
    Some(RegistrationRow {
        agent_id: 21,
        epoch: 7,
        credential_hash: vec![9; 32],
        revoked: false,
        expires_at: 100,
        agent_name: "agent".to_owned(),
        pool_id: 3,
        pool_version: 4,
        platform_operating_system: Some("linux".to_owned()),
        platform_architecture: Some("x86_64".to_owned()),
    })
}

#[test]
fn epochs_grow() {
    let authority = enroll(30, &Some(enrollment()), &Some(known(6)), &[7; 32], &registering());
    assert!(matches!(authority, Ok(authority) if authority.epoch == 7 && !authority.create_agent));
    let mut renamed = known(6);
    renamed.name = "other".to_owned();
    assert_eq!(
        enroll(30, &Some(enrollment()), &Some(renamed), &[7; 32], &registering()),
        Err(StoreError::CredentialRejected)
    );
    let renewed = renew(&previous(), 7, &[9; 32], &registering());
    assert!(matches!(renewed, Ok(authority) if authority.epoch == 8 && authority.consumed_enrollment.is_none()));
    assert_eq!(renew(&previous(), 6, &[9; 32], &registering()), Err(StoreError::CredentialRejected));
    assert_eq!(
        renew(&previous(), u64::MAX, &[9; 32], &registering()),
        Err(StoreError::InvalidInput {
            operation: StoreOperation::RegisterAgent,
            source: StoreInputError::NumericOutOfRange,
        })
    );
}

#[test]
fn agents_register_by_what_they_present() {
    let by_enrollment = |digest: u8| RegistrationProof::Enrollment {
        credential_id: 30,
        presented_digest: vec![digest; 32],
        enrollment: Some(enrollment()),
        agent: None,
    };
    let registered = agent_registration::execute(Ok(()), &by_enrollment(7), &registering());
    match registered {
        Ok(registered) => {
            assert_eq!((registered.epoch, registered.authority.consumed_enrollment), (1, Some(30)));
            assert!(registered.authority.create_agent);
            assert_eq!(registered.outcome.credential_id, 20);
            assert_eq!(registered.outcome.disposition, MutationDisposition::Applied);
        }
        Err(_) => panic!("the agent can register"),
    }
    assert_eq!(
        agent_registration::execute(Ok(()), &by_enrollment(8), &registering()),
        Err(StoreError::CredentialRejected)
    );
    assert_eq!(
        agent_registration::execute(Err(StoreError::Unavailable), &by_enrollment(7), &registering()),
        Err(StoreError::Unavailable)
    );
    let by_registration =
        RegistrationProof::Registration { epoch: 7, presented_digest: vec![9; 32], previous: previous() };
    let renewed = agent_registration::execute(Ok(()), &by_registration, &registering());
    assert!(matches!(renewed, Ok(renewed) if renewed.epoch == 8 && renewed.authority.consumed_enrollment.is_none()));
}

#[test]
fn enrollments_may_expect_a_platform() {
    let text = |value: &str| Some(value.to_owned());
    assert!(platform_matches(&None, &None, &platform("linux")));
    assert!(platform_matches(&text("linux"), &text("x86_64"), &platform("linux")));
    assert!(!platform_matches(&text("macos"), &text("x86_64"), &platform("linux")));
    assert!(!platform_matches(&text("linux"), &None, &platform("linux")));
    assert_eq!(platform_columns(ExpectedAgentPlatform::Any), (None, None));
    assert_eq!(
        platform_columns(ExpectedAgentPlatform::Exact(platform("linux"))),
        (text("linux"), text("x86_64"))
    );
}

#[test]
fn credentials_are_checked() {
    let row = || {
        Some(CredentialRow {
            agent_id: 21,
            epoch: 7,
            credential_hash: vec![9; 32],
            revoked: false,
            expires_at: 100,
            pool_id: 3,
            pool_version: 4,
        })
    };
    assert!(matches!(authenticate(&row(), &[9; 32], 99), Ok(agent) if agent.registration_epoch == 7));
    let rejected = Err(StoreError::CredentialRejected);
    assert_eq!(authenticate(&row(), &[9; 32], 100), rejected);
    assert_eq!(authenticate(&row(), &[8; 32], 99), rejected);
    assert_eq!(authenticate(&None, &[9; 32], 99), rejected);
    let mut revoked = row();
    if let Some(row) = &mut revoked {
        row.revoked = true;
    }
    assert_eq!(authenticate(&revoked, &[9; 32], 99), rejected);
}

#[test]
fn enrollments_are_issued_for_a_pool() {
    let request = |pool_version: u64| IssueAgentEnrollment {
        credential_id: 30,
        pool_id: 3,
        pool_version,
        expires_at: 100,
    };
    let outcome = match issue(Ok(()), &request(4), true) {
        Ok((stored, outcome)) => {
            assert_eq!(stored, 4);
            outcome
        }
        Err(_) => panic!("the enrollment can be issued"),
    };
    assert_eq!((outcome.credential_id, outcome.pool_version, outcome.expires_at), (30, 4, 100));
    assert_eq!(issue(Ok(()), &request(4), false), Err(StoreError::NotFound { entity: EntityKind::Pool }));
    assert!(issue(Ok(()), &request(u64::MAX), true).is_err());
    assert_eq!(issue(Err(StoreError::Unavailable), &request(4), true), Err(StoreError::Unavailable));
    assert!(!issue_facts(&outcome).safe_metadata.is_empty());
    assert_eq!(replay_issue(outcome).disposition, MutationDisposition::Replayed);
}

#[test]
fn credentials_are_revoked_under_their_own_name() {
    let named = revocation_identity(AgentCredentialTarget::Enrollment(30));
    assert_eq!(named.kind, MutationKind::RevokeAgentEnrollment);
    assert_eq!(named.key, "00000000-0000-0000-0000-00000000001e");
    assert_eq!(named.entity, EntityKind::AgentEnrollmentCredential);
    let named = revocation_identity(AgentCredentialTarget::Registration(31));
    assert_eq!(named.kind, MutationKind::RevokeAgentRegistration);
    assert_eq!(named.entity, EntityKind::AgentRegistration);
    let target = AgentCredentialTarget::Registration(31);
    assert_eq!(require_revoked(target, 1), Ok(MutationDisposition::Applied));
    assert_eq!(require_revoked(target, 0), Err(StoreError::NotFound { entity: EntityKind::AgentRegistration }));
    assert_eq!(revocation_facts(target).target_identity, "00000000-0000-0000-0000-00000000001f");
}

#[test]
fn agents_are_drained_once() {
    let current = |status: &str| Some((2, status.to_owned()));
    assert_eq!(drain(&current("online"), 2, AgentDrainMode::Graceful), Ok("drain_requested"));
    assert_eq!(drain(&current("online"), 2, AgentDrainMode::Forced), Ok("cancellation_requested"));
    let conflict = Err(StoreError::Conflict { entity: EntityKind::Agent });
    assert_eq!(drain(&current("draining"), 2, AgentDrainMode::Graceful), conflict);
    assert_eq!(drain(&current("online"), 3, AgentDrainMode::Graceful), conflict);
    assert_eq!(drain(&None, 2, AgentDrainMode::Graceful), Err(StoreError::NotFound { entity: EntityKind::Agent }));
    assert!(matches!(drain_facts(1, AgentDrainMode::Forced).safe_metadata[0].value, FactValue::Word("forced")));
}

#[test]
fn agents_move_between_pools() {
    let agent = || {
        Some(AgentLockRow {
            pool_id: 3,
            version: 2,
            operating_system: Some("linux".to_owned()),
            architecture: Some("x86_64".to_owned()),
            platform_is_valid: true,
        })
    };
    let movable = |source: Option<u128>, target: u128, leased: bool| require_movable(source, agent(), 2, target, leased);
    assert!(matches!(movable(Some(3), 4, false), Ok(moved) if moved.source_pool_id == 3 && moved.platform.is_some()));
    let conflict = StoreError::Conflict { entity: EntityKind::Agent };
    assert!(matches!(movable(Some(3), 3, false), Err(error) if error == conflict));
    assert!(matches!(movable(Some(5), 4, false), Err(error) if error == conflict));
    assert!(matches!(movable(Some(3), 4, true), Err(StoreError::Conflict { entity: EntityKind::Lease })));
    assert!(matches!(movable(None, 4, false), Err(StoreError::NotFound { entity: EntityKind::Agent })));
    let mut half = agent();
    if let Some(row) = &mut half {
        row.architecture = None;
    }
    assert!(matches!(require_movable(Some(3), half, 2, 4, false), Err(StoreError::Unavailable)));
    let moved = |target: Option<CurrentPoolRow>, assigned: i64| reassign(Some(3), agent(), 2, 4, false, target, assigned);
    assert_eq!(
        moved(target_pool(), 1),
        Ok(AgentMove { source_pool_id: 3, target_pool_id: 4, target_version: 3 })
    );
    assert_eq!(moved(target_pool(), 2), Err(StoreError::Conflict { entity: EntityKind::Pool }));
    assert_eq!(moved(None, 1), Err(StoreError::NotFound { entity: EntityKind::Pool }));
    assert_eq!(
        reassign(Some(3), agent(), 1, 4, false, target_pool(), 1),
        Err(StoreError::Conflict { entity: EntityKind::Agent })
    );
    let mut windows = target_pool();
    if let Some(row) = &mut windows {
        row.admission_policy = Some(PoolAdmissionPolicy::Allowlist { platforms: vec![platform("windows")] });
    }
    assert_eq!(moved(windows, 1), Err(StoreError::Conflict { entity: EntityKind::Pool }));
    assert_eq!(pools_to_lock(4, 3), vec![3, 4]);
    assert_eq!(pools_to_lock(3, 4), vec![3, 4]);
    assert_eq!(pools_to_lock(3, 3), vec![3]);
    assert!(matches!(reassign_facts(1, 3, 4, 9).outbox_payload[2].value, FactValue::Number(9)));
}

fn target_pool() -> Option<CurrentPoolRow> {
    Some(CurrentPoolRow {
        version: 3,
        enabled: true,
        drain_state: "accepting".to_owned(),
        admission_policy: Some(PoolAdmissionPolicy::Any),
        concurrency_limit: 4,
        fairness_policy: "priority_fifo".to_owned(),
        static_capacity_limit: 2,
    })
}

#[test]
fn pools_take_agents_while_they_have_room() {
    let current = match current_pool(target_pool()) {
        Ok(current) => current,
        Err(_) => panic!("the pool can be read"),
    };
    assert_eq!(current.version, 3);
    assert_eq!(ensure_compatible(&current.definition, &None, 1), Ok(()));
    let conflict = Err(StoreError::Conflict { entity: EntityKind::Pool });
    assert_eq!(ensure_compatible(&current.definition, &None, 2), conflict);
    let mut draining = definition();
    draining.drain_state = PoolDrainState::GracefulDrain;
    assert_eq!(ensure_compatible(&draining, &None, 0), conflict);
    assert!(matches!(current_pool(None), Err(StoreError::NotFound { entity: EntityKind::Pool })));
}
