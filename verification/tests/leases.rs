use sha2::Digest;
use store_postgres::domain::{EntityKind, MutationDisposition, StoreError, StoreInputError, StoreOperation};
use store_postgres::lease::{
    current_state, fence_hash, load, load_hashed, require_current, LeaseAccess, LeaseRow,
};
use store_postgres::lease_heartbeat::{
    self, direct, execute, renewed_deadline, LeaseHeartbeatOutcome, RenewLease,
};
use store_postgres::lease_recovery::{
    self, claim, completion_id, recover, terminal, u16_requeues, ClaimRow, ExpiredLeaseClaim, LeaseRecoveryAction,
    RecoveryPlan, RecoveryRow,
};
use store_postgres::mutation::FactValue;

fn access() -> LeaseAccess {
    LeaseAccess { lease_id: 1, agent_id: 2, registration_epoch: 3, fence: b"fence".to_vec() }
}

fn lease(state: &str) -> LeaseRow {
    LeaseRow {
        job_id: 4,
        attempt_id: 5,
        attempt_number: 6,
        build_id: 7,
        project_id: 8,
        registration_id: 9,
        agent_id: 2,
        epoch: 3,
        fence_hash: sha2::Sha256::digest(b"fence").to_vec(),
        state: state.to_owned(),
        expired: false,
        expires_at_millis: 100,
    }
}

#[test]
fn leases_are_fenced() {
    let operation = StoreOperation::RenewLease;
    assert_eq!(fence_hash(b"fence"), sha2::Sha256::digest(b"fence").to_vec());
    assert!(matches!(load(Some(lease("active")), &access(), operation), Ok(row) if row.job_id == 4));
    let fenced = StoreError::Fenced { lease: 1 };
    assert!(matches!(load(None, &access(), operation), Err(error) if error == fenced));
    let mut stranger = access();
    stranger.fence = b"other".to_vec();
    assert!(matches!(load(Some(lease("active")), &stranger, operation), Err(error) if error == fenced));
    let mut later = access();
    later.registration_epoch = 4;
    assert!(matches!(load(Some(lease("active")), &later, operation), Err(error) if error == fenced));
    let mut large = access();
    large.registration_epoch = u64::MAX;
    assert!(matches!(
        load(Some(lease("active")), &large, operation),
        Err(StoreError::InvalidInput { source: StoreInputError::NumericOutOfRange, .. })
    ));
    let hash = fence_hash(b"fence");
    assert!(load_hashed(Some(lease("active")), &access(), operation, &hash).is_ok());
    assert!(load_hashed(Some(lease("active")), &access(), operation, b"fence").is_err());
}

#[test]
fn leases_run_out() {
    assert_eq!(require_current(&lease("active"), &access(), 99), Ok(()));
    assert_eq!(require_current(&lease("drain_requested"), &access(), 99), Ok(()));
    assert_eq!(require_current(&lease("active"), &access(), 100), Err(StoreError::Expired { lease: 1 }));
    assert_eq!(require_current(&lease("expired"), &access(), 1), Err(StoreError::Expired { lease: 1 }));
    assert_eq!(require_current(&lease("released"), &access(), 1), Err(StoreError::Fenced { lease: 1 }));
    let mut marked = lease("active");
    marked.expired = true;
    assert_eq!(require_current(&marked, &access(), 1), Err(StoreError::Expired { lease: 1 }));
    assert!(current_state("cancellation_requested"));
    assert!(!current_state("completed"));
}

fn renewal() -> RenewLease {
    RenewLease { lease: access(), job_id: 4, attempt: 6, observed_at: 50, expires_at: 200 }
}

#[test]
fn heartbeats_are_answered() {
    assert_eq!(
        execute(Ok(()), Some(lease("active")), &renewal()),
        Ok(LeaseHeartbeatOutcome::Continue { expires_at: 200 })
    );
    assert_eq!(execute(Ok(()), Some(lease("cancellation_requested")), &renewal()), Ok(LeaseHeartbeatOutcome::Cancel));
    assert_eq!(
        execute(Ok(()), Some(lease("drain_requested")), &renewal()),
        Ok(LeaseHeartbeatOutcome::Drain { expires_at: 200 })
    );
    assert_eq!(execute(Ok(()), None, &renewal()), Ok(LeaseHeartbeatOutcome::Fenced));
    assert_eq!(execute(Err(StoreError::Unavailable), None, &renewal()), Err(StoreError::Unavailable));
    assert_eq!(execute(Ok(()), Some(lease("expired")), &renewal()), Ok(LeaseHeartbeatOutcome::Fenced));
    let mut other = renewal();
    other.job_id = 40;
    assert_eq!(execute(Ok(()), Some(lease("active")), &other), Ok(LeaseHeartbeatOutcome::Fenced));
    let mut broken = lease("active");
    broken.attempt_number = 0;
    assert_eq!(direct(&broken, &renewal()), Err(StoreError::Unavailable));
}

#[test]
fn only_holders_are_renewed() {
    assert_eq!(renewed_deadline(LeaseHeartbeatOutcome::Continue { expires_at: 200 }), Some(200));
    assert_eq!(renewed_deadline(LeaseHeartbeatOutcome::Drain { expires_at: 200 }), Some(200));
    assert_eq!(renewed_deadline(LeaseHeartbeatOutcome::Fenced), None);
    let facts = lease_heartbeat::facts(&renewal(), LeaseHeartbeatOutcome::Cancel);
    assert!(facts.safe_metadata.iter().any(|member| matches!(member.value, FactValue::Word("cancel"))));
}

fn claimed() -> ExpiredLeaseClaim {
    ExpiredLeaseClaim { lease_id: 1, job_id: 4, owner: "worker".to_owned(), claim_expires_at: 100 }
}

fn recovering(lease_state: &str, job_state: &str, requeues: i64) -> Option<RecoveryRow> {
    Some(RecoveryRow {
        job_id: 4,
        lease_state: lease_state.to_owned(),
        job_state: job_state.to_owned(),
        infrastructure_requeues: requeues,
        max_attempts: 3,
        retries_infrastructure: true,
        cancelled: false,
    })
}

#[test]
fn expired_leases_are_claimed() {
    let owner = "worker".to_owned();
    let claims = claim(&vec![ClaimRow { lease_id: 1, job_id: 4 }], &owner, 100);
    assert!(matches!(claims, Ok(claims) if claims[0].lease_id == 1 && claims[0].owner == "worker"));
    assert!(matches!(
        claim(&vec![ClaimRow { lease_id: 0, job_id: 4 }], &owner, 100),
        Err(StoreError::Unavailable)
    ));
}

#[test]
fn lost_jobs_are_tried_again() {
    assert_eq!(
        recover(&claimed(), 50, true, &recovering("active", "running", 0)),
        Ok(RecoveryPlan::Requeue { requeues: 1 })
    );
    assert_eq!(
        recover(&claimed(), 50, true, &recovering("active", "leased", 1)),
        Ok(RecoveryPlan::Requeue { requeues: 2 })
    );
}

#[test]
fn recovery_is_bounded() {
    assert_eq!(
        recover(&claimed(), 50, true, &recovering("active", "running", 2)),
        Ok(RecoveryPlan::Fail { requeues: 2 })
    );
    let mut cancelled = recovering("active", "cancelling", 0);
    if let Some(row) = &mut cancelled {
        row.cancelled = true;
    }
    assert_eq!(recover(&claimed(), 50, true, &cancelled), Ok(RecoveryPlan::Cancel { requeues: 0 }));
    assert_eq!(
        recover(&claimed(), 50, true, &recovering("released", "running", 0)),
        Ok(RecoveryPlan::Keep { requeues: 0 })
    );
    assert_eq!(u16_requeues(65535), Ok(65535));
    assert_eq!(u16_requeues(65536), Err(StoreError::Unavailable));
}

#[test]
fn recovery_needs_the_claim() {
    let conflict = Err(StoreError::Conflict { entity: EntityKind::Lease });
    assert_eq!(recover(&claimed(), 50, false, &recovering("active", "running", 0)), conflict);
    assert_eq!(recover(&claimed(), 100, true, &recovering("active", "running", 0)), conflict);
    assert_eq!(recover(&claimed(), 50, true, &None), Err(StoreError::NotFound { entity: EntityKind::Lease }));
    let mut foreign = recovering("active", "running", 0);
    if let Some(row) = &mut foreign {
        row.job_id = 40;
    }
    assert_eq!(recover(&claimed(), 50, true, &foreign), conflict);
    assert_eq!(
        recover(&claimed(), 50, true, &recovering("active", "succeeded", 0)),
        Err(StoreError::Unavailable)
    );
}

#[test]
fn recoveries_are_recorded() {
    let failed = terminal(RecoveryPlan::Fail { requeues: 2 });
    assert!(matches!(failed, Some(end) if end.job_state == "failed" && end.failure_class == Some("infrastructure")));
    assert!(terminal(RecoveryPlan::Requeue { requeues: 1 }).is_none());
    assert_eq!(completion_id(1), "lease-expiry:00000000-0000-0000-0000-000000000001");
    let plan = RecoveryPlan::Requeue { requeues: 1 };
    assert_eq!(plan.action(), LeaseRecoveryAction::Requeued);
    assert_eq!(plan.requeues(), 1);
    let outcome = lease_recovery::outcome(&claimed(), plan);
    assert_eq!(outcome.disposition, MutationDisposition::Applied);
    assert_eq!((outcome.lease_id, outcome.job_id, outcome.infrastructure_requeues), (1, 4, 1));
    let facts = lease_recovery::facts(&claimed(), &outcome);
    assert!(!facts.outbox_payload.is_empty());
}
