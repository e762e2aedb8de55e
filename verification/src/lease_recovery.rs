//! Recovery of leases whose holder went silent.

use vstd::prelude::*;

use crate::domain::{is_identity, EntityKind, MutationDisposition, StoreError};
use crate::identity_text::{hyphenated, identity_text};
use crate::lease::{current_state, is_current_state};
use crate::mutation::{FactValue, Member, MutationFacts};
use crate::text::same_text;

verus! {

/// Kind of work under which recovery claims are kept.
pub const WORK_KIND: &'static str = "lease_expiry";

/// A silent lease and its job, as found by a worker.
pub struct ClaimRow {
    /// The lease.
    pub lease_id: u128,
    /// The leased job.
    pub job_id: u128,
}

/// A worker's claim on recovering one lease.
pub struct ExpiredLeaseClaim {
    /// The lease.
    pub lease_id: u128,
    /// The leased job.
    pub job_id: u128,
    /// The worker.
    pub owner: String,
    /// When the claim itself runs out.
    pub claim_expires_at: i64,
}

/// Whether both identities of a claimed row can be read.
pub open spec fn is_readable_claim(row: ClaimRow) -> bool {
    is_identity(row.lease_id) && is_identity(row.job_id)
}

/// Whether a claim is that of `owner` on a readable row.
pub open spec fn is_claim_of(claim: ExpiredLeaseClaim, row: ClaimRow, owner: Seq<char>, claim_expires_at: i64) -> bool {
    &&& is_readable_claim(row)
    &&& claim.lease_id == row.lease_id
    &&& claim.job_id == row.job_id
    &&& claim.owner@ == owner
    &&& claim.claim_expires_at == claim_expires_at
}

/// Turns claimed rows into claims of `owner`; one unreadable row makes the whole batch unreadable.
pub fn claim(rows: &Vec<ClaimRow>, owner: &String, claim_expires_at: i64) -> (result: Result<
    Vec<ExpiredLeaseClaim>,
    StoreError,
>)
    ensures
        match result {
            Ok(claims) => {
                &&& claims@.len() == rows@.len()
                &&& forall|i: int|
                    0 <= i < rows@.len() ==> is_claim_of(#[trigger] claims@[i], rows@[i], owner@, claim_expires_at)
            },
            Err(error) => error == StoreError::Unavailable && exists|i: int|
                0 <= i < rows@.len() && !is_readable_claim(#[trigger] rows@[i]),
        },
{
    let mut claims: Vec<ExpiredLeaseClaim> = Vec::new();
    let mut i: usize = 0;
    while i < rows.len()
        invariant
            i <= rows@.len(),
            claims@.len() == i,
            forall|k: int|
                0 <= k < i ==> is_claim_of(#[trigger] claims@[k], rows@[k], owner@, claim_expires_at),
        decreases rows@.len() - i,
    {
        let row = &rows[i];
        if row.lease_id == 0 || row.job_id == 0 {
            assert(!is_readable_claim(rows@[i as int]));
            return Err(StoreError::Unavailable);
        }
        claims.push(
            ExpiredLeaseClaim {
                lease_id: row.lease_id,
                job_id: row.job_id,
                owner: owner.clone(),
                claim_expires_at,
            },
        );
        i += 1;
    }
    Ok(claims)
}

/// Everything recovery needs to know of a lease.
pub struct RecoveryRow {
    /// The leased job.
    pub job_id: u128,
    /// State of the lease.
    pub lease_state: String,
    /// State of the job.
    pub job_state: String,
    /// How often the job was requeued before.
    pub infrastructure_requeues: i64,
    /// How often a job of this configuration may be tried.
    pub max_attempts: i64,
    /// Whether this configuration retries after infrastructure failures.
    pub retries_infrastructure: bool,
    /// Whether cancellation of the build was requested.
    pub cancelled: bool,
}

/// What recovery did to the job.
#[derive(Clone, Copy, Debug, PartialEq, Eq, Structural)]
pub enum LeaseRecoveryAction {
    /// The lease was no longer held.
    AlreadyRecovered,
    /// The job is ready again.
    Requeued,
    /// The job was cancelled with its build.
    Cancelled,
    /// The job failed.
    Failed,
}

/// What to do about a silent lease.
#[derive(Clone, Copy, Debug, PartialEq, Eq, Structural)]
pub enum RecoveryPlan {
    /// Leave everything as it is.
    Keep { requeues: u16 },
    /// Expire the lease and make the job ready again, as its `requeues`-th requeue.
    Requeue { requeues: u16 },
    /// Expire the lease and end the job as cancelled.
    Cancel { requeues: u16 },
    /// Expire the lease and end the job as failed by infrastructure.
    Fail { requeues: u16 },
}

impl RecoveryPlan {
    /// What carrying out the plan does to the job.
    pub open spec fn spec_action(self) -> LeaseRecoveryAction {
        match self {
            RecoveryPlan::Keep { .. } => LeaseRecoveryAction::AlreadyRecovered,
            RecoveryPlan::Requeue { .. } => LeaseRecoveryAction::Requeued,
            RecoveryPlan::Cancel { .. } => LeaseRecoveryAction::Cancelled,
            RecoveryPlan::Fail { .. } => LeaseRecoveryAction::Failed,
        }
    }

    /// What carrying out the plan does to the job.
    pub fn action(self) -> (action: LeaseRecoveryAction)
        ensures
            action == self.spec_action(),
    {
        match self {
            RecoveryPlan::Keep { .. } => LeaseRecoveryAction::AlreadyRecovered,
            RecoveryPlan::Requeue { .. } => LeaseRecoveryAction::Requeued,
            RecoveryPlan::Cancel { .. } => LeaseRecoveryAction::Cancelled,
            RecoveryPlan::Fail { .. } => LeaseRecoveryAction::Failed,
        }
    }

    /// How often the job has been requeued once the plan is carried out.
    pub open spec fn spec_requeues(self) -> u16 {
        match self {
            RecoveryPlan::Keep { requeues } => requeues,
            RecoveryPlan::Requeue { requeues } => requeues,
            RecoveryPlan::Cancel { requeues } => requeues,
            RecoveryPlan::Fail { requeues } => requeues,
        }
    }

    /// How often the job has been requeued once the plan is carried out.
    pub fn requeues(self) -> (requeues: u16)
        ensures
            requeues == self.spec_requeues(),
    {
        match self {
            RecoveryPlan::Keep { requeues } => requeues,
            RecoveryPlan::Requeue { requeues } => requeues,
            RecoveryPlan::Cancel { requeues } => requeues,
            RecoveryPlan::Fail { requeues } => requeues,
        }
    }
}

/// Whether the job may be tried again on another agent.
pub open spec fn may_requeue(row: RecoveryRow) -> bool {
    &&& row.job_state@ == "leased"@ || row.job_state@ == "running"@
    &&& !row.cancelled
    &&& row.retries_infrastructure
    &&& row.infrastructure_requeues < (if row.max_attempts == i64::MIN {
        i64::MIN as int
    } else {
        row.max_attempts - 1
    })
}

/// Whether recovery can end a job that is in this state.
pub open spec fn can_be_ended(job_state: Seq<char>) -> bool {
    job_state == "leased"@ || job_state == "running"@ || job_state == "cancelling"@
}

/// Whether a count of requeues can be reported.
pub open spec fn is_requeue_count(value: int) -> bool {
    0 <= value <= u16::MAX
}

/// The count of requeues as it is reported.
pub fn u16_requeues(value: i64) -> (result: Result<u16, StoreError>)
    ensures
        result == (if is_requeue_count(value as int) {
            Ok::<u16, StoreError>(value as u16)
        } else {
            Err(StoreError::Unavailable)
        }),
{
    match u16::try_from(value) {
        Ok(value) => Ok(value),
        Err(_) => Err(StoreError::Unavailable),
    }
}

/// What recovery decides: `owns_claim` says whether the worker's claim is on record and alive.
pub open spec fn recovery(
    claim: ExpiredLeaseClaim,
    recovered_at: i64,
    owns_claim: bool,
    row: Option<RecoveryRow>,
) -> Result<RecoveryPlan, StoreError> {
    if !owns_claim || recovered_at >= claim.claim_expires_at {
        Err(StoreError::Conflict { entity: EntityKind::Lease })
    } else {
        match row {
            None => Err(StoreError::NotFound { entity: EntityKind::Lease }),
            Some(row) => if row.job_id != claim.job_id {
                Err(StoreError::Conflict { entity: EntityKind::Lease })
            } else if is_current_state(row.lease_state@) && may_requeue(row) {
                if is_requeue_count(row.infrastructure_requeues + 1) {
                    Ok(RecoveryPlan::Requeue { requeues: (row.infrastructure_requeues + 1) as u16 })
                } else {
                    Err(StoreError::Unavailable)
                }
            } else if !is_requeue_count(row.infrastructure_requeues as int) {
                Err(StoreError::Unavailable)
            } else if !is_current_state(row.lease_state@) {
                Ok(RecoveryPlan::Keep { requeues: row.infrastructure_requeues as u16 })
            } else if !can_be_ended(row.job_state@) {
                Err(StoreError::Unavailable)
            } else if row.cancelled {
                Ok(RecoveryPlan::Cancel { requeues: row.infrastructure_requeues as u16 })
            } else {
                Ok(RecoveryPlan::Fail { requeues: row.infrastructure_requeues as u16 })
            },
        }
    }
}

/// Decides what becomes of a silent lease and its job.
pub fn recover(
    claim: &ExpiredLeaseClaim,
    recovered_at: i64,
    owns_claim: bool,
    row: &Option<RecoveryRow>,
) -> (result: Result<RecoveryPlan, StoreError>)
    ensures
        result == recovery(*claim, recovered_at, owns_claim, *row),
{
    if !owns_claim || recovered_at >= claim.claim_expires_at {
        return Err(StoreError::Conflict { entity: EntityKind::Lease });
    }
    let row = match row {
        Some(row) => row,
        None => {
            return Err(StoreError::NotFound { entity: EntityKind::Lease });
        },
    };
    if row.job_id != claim.job_id {
        return Err(StoreError::Conflict { entity: EntityKind::Lease });
    }
    let limit: i64 = if row.max_attempts == i64::MIN {
        i64::MIN
    } else {
        row.max_attempts - 1
    };
    let on_agent: bool = same_text(row.job_state.as_str(), "leased") || same_text(row.job_state.as_str(), "running");
    if !current_state(row.lease_state.as_str()) {
        let requeues: u16 = u16_requeues(row.infrastructure_requeues)?;
        Ok(RecoveryPlan::Keep { requeues })
    } else if on_agent && !row.cancelled && row.retries_infrastructure && row.infrastructure_requeues < limit {
        let requeues: u16 = u16_requeues(row.infrastructure_requeues + 1)?;
        Ok(RecoveryPlan::Requeue { requeues })
    } else if !on_agent && !same_text(row.job_state.as_str(), "cancelling") {
        Err(StoreError::Unavailable)
    } else if row.cancelled {
        let requeues: u16 = u16_requeues(row.infrastructure_requeues)?;
        Ok(RecoveryPlan::Cancel { requeues })
    } else {
        let requeues: u16 = u16_requeues(row.infrastructure_requeues)?;
        Ok(RecoveryPlan::Fail { requeues })
    }
}

/// Recovery never exceeds the configured attempts, never requeues a job of a cancelled build, never ends
/// a job that is not in progress, and never touches a lease that is no longer held.
pub proof fn recovery_is_bounded(claim: ExpiredLeaseClaim, recovered_at: i64, owns_claim: bool, row: RecoveryRow)
    ensures
        recovery(claim, recovered_at, owns_claim, Some(row)) matches Ok(RecoveryPlan::Requeue { requeues }) ==> {
            &&& requeues < row.max_attempts
            &&& requeues == row.infrastructure_requeues + 1
            &&& !row.cancelled
            &&& is_current_state(row.lease_state@)
        },
        (recovery(claim, recovered_at, owns_claim, Some(row)) matches Ok(plan) && (plan is Cancel || plan is Fail))
            ==> can_be_ended(row.job_state@) && is_current_state(row.lease_state@),
        recovery(claim, recovered_at, owns_claim, Some(row)) is Ok && !is_current_state(row.lease_state@) ==> recovery(
            claim,
            recovered_at,
            owns_claim,
            Some(row),
        ) == Ok::<RecoveryPlan, StoreError>(RecoveryPlan::Keep { requeues: row.infrastructure_requeues as u16 }),
{
}

/// What becomes of a job whose held lease went silent, where the worker's claim is alive. A job on an agent is tried
/// again exactly where its build goes on, its configuration retries after infrastructure failures, and the attempts
/// that are allowed are not used up by the one more; otherwise it ends, as cancelled with its build and as failed
/// without.
pub proof fn silent_jobs_are_retried_or_ended(claim: ExpiredLeaseClaim, recovered_at: i64, row: RecoveryRow)
    requires
        recovered_at < claim.claim_expires_at,
        row.job_id == claim.job_id,
        row.lease_state@ == "active"@ || row.lease_state@ == "cancellation_requested"@ || row.lease_state@
            == "drain_requested"@,
        0 <= row.infrastructure_requeues < u16::MAX,
    ensures
        ({
            let on_agent = row.job_state@ == "leased"@ || row.job_state@ == "running"@;
            let again = on_agent && !row.cancelled && row.retries_infrastructure && row.infrastructure_requeues + 1
                < row.max_attempts;
            let plan = recovery(claim, recovered_at, true, Some(row));
            &&& again <==> plan == Ok::<RecoveryPlan, StoreError>(
                RecoveryPlan::Requeue { requeues: (row.infrastructure_requeues + 1) as u16 },
            )
            &&& !again && row.cancelled && (on_agent || row.job_state@ == "cancelling"@) <==> plan == Ok::<
                RecoveryPlan,
                StoreError,
            >(RecoveryPlan::Cancel { requeues: row.infrastructure_requeues as u16 })
            &&& !again && !row.cancelled && (on_agent || row.job_state@ == "cancelling"@) <==> plan == Ok::<
                RecoveryPlan,
                StoreError,
            >(RecoveryPlan::Fail { requeues: row.infrastructure_requeues as u16 })
            &&& !on_agent && row.job_state@ != "cancelling"@ <==> plan == Err::<RecoveryPlan, StoreError>(
                StoreError::Unavailable,
            )
        }),
{
}

/// A job is tried again only where its configuration retries after infrastructure failures, only while it is on an
/// agent, only while its build goes on, and only under a live claim on a held lease; each time counts.
pub proof fn only_retried_failures_are_requeued(
    claim: ExpiredLeaseClaim,
    recovered_at: i64,
    owns_claim: bool,
    row: Option<RecoveryRow>,
)
    ensures
        recovery(claim, recovered_at, owns_claim, row) matches Ok(RecoveryPlan::Requeue { requeues }) ==> {
            &&& owns_claim && recovered_at < claim.claim_expires_at
            &&& row is Some && row->Some_0.job_id == claim.job_id
            &&& row->Some_0.retries_infrastructure
            &&& !row->Some_0.cancelled
            &&& row->Some_0.job_state@ == "leased"@ || row->Some_0.job_state@ == "running"@
            &&& row->Some_0.lease_state@ == "active"@ || row->Some_0.lease_state@ == "cancellation_requested"@
                || row->Some_0.lease_state@ == "drain_requested"@
            &&& requeues == row->Some_0.infrastructure_requeues + 1
            &&& requeues < row->Some_0.max_attempts
        },
{
}

/// A job of a cancelled build never fails by its agent's silence, and a job of a build that goes on is never
/// cancelled by it.
pub proof fn silent_jobs_end_with_their_build(
    claim: ExpiredLeaseClaim,
    recovered_at: i64,
    owns_claim: bool,
    row: RecoveryRow,
)
    ensures
        recovery(claim, recovered_at, owns_claim, Some(row)) matches Ok(plan) ==> {
            &&& plan is Cancel ==> row.cancelled
            &&& plan is Fail ==> !row.cancelled
            &&& plan is Keep || plan is Cancel || plan is Fail ==> plan.spec_requeues() == row.infrastructure_requeues
            &&& plan is Keep <==> !(row.lease_state@ == "active"@ || row.lease_state@ == "cancellation_requested"@
                || row.lease_state@ == "drain_requested"@)
        },
{
}

/// Recovery without a live claim is refused, whatever became of the lease, and so is recovery of a lease that does
/// not exist or is for another job.
pub proof fn recovery_needs_a_live_claim(
    claim: ExpiredLeaseClaim,
    recovered_at: i64,
    owns_claim: bool,
    row: Option<RecoveryRow>,
)
    ensures
        !owns_claim || recovered_at >= claim.claim_expires_at || (row is Some && row->Some_0.job_id != claim.job_id)
            ==> recovery(claim, recovered_at, owns_claim, row) == Err::<RecoveryPlan, StoreError>(
            StoreError::Conflict { entity: EntityKind::Lease },
        ),
        owns_claim && recovered_at < claim.claim_expires_at && row is None ==> recovery(
            claim,
            recovered_at,
            owns_claim,
            row,
        ) == Err::<RecoveryPlan, StoreError>(StoreError::NotFound { entity: EntityKind::Lease }),
        owns_claim && recovered_at < claim.claim_expires_at && row is Some && row->Some_0.job_id == claim.job_id
            && row->Some_0.lease_state@ != "active"@ && row->Some_0.lease_state@ != "cancellation_requested"@
            && row->Some_0.lease_state@ != "drain_requested"@ && 0 <= row->Some_0.infrastructure_requeues <= u16::MAX
            ==> recovery(claim, recovered_at, owns_claim, row) == Ok::<RecoveryPlan, StoreError>(
            RecoveryPlan::Keep { requeues: row->Some_0.infrastructure_requeues as u16 },
        ),
{
}

/// What a worker is told is what was done to the job.
pub proof fn plans_are_reported_as_carried_out(requeues: u16)
    ensures
        (RecoveryPlan::Keep { requeues }).spec_action() == LeaseRecoveryAction::AlreadyRecovered,
        (RecoveryPlan::Requeue { requeues }).spec_action() == LeaseRecoveryAction::Requeued,
        (RecoveryPlan::Cancel { requeues }).spec_action() == LeaseRecoveryAction::Cancelled,
        (RecoveryPlan::Fail { requeues }).spec_action() == LeaseRecoveryAction::Failed,
        (RecoveryPlan::Keep { requeues }).spec_requeues() == requeues,
        (RecoveryPlan::Requeue { requeues }).spec_requeues() == requeues,
        (RecoveryPlan::Cancel { requeues }).spec_requeues() == requeues,
        (RecoveryPlan::Fail { requeues }).spec_requeues() == requeues,
{
}

/// The rows recovery writes when it ends a job.
#[derive(Clone, Copy, Debug)]
pub struct TerminalRecovery {
    /// State the job ends in.
    pub job_state: &'static str,
    /// How its completion is recorded.
    pub completion_kind: &'static str,
    /// Whose fault it was.
    pub failure_class: Option<&'static str>,
}

/// How a job that is not requeued ends, where the plan ends it.
pub fn terminal(plan: RecoveryPlan) -> (terminal: Option<TerminalRecovery>)
    ensures
        match plan {
            RecoveryPlan::Cancel { .. } => terminal matches Some(end) && end.job_state@ == "cancelled"@
                && end.completion_kind@ == "cancelled"@ && end.failure_class is None,
            RecoveryPlan::Fail { .. } => terminal matches Some(end) && end.job_state@ == "failed"@
                && end.completion_kind@ == "failed"@ && end.failure_class == Some("infrastructure"),
            _ => terminal is None,
        },
{
    match plan {
        RecoveryPlan::Cancel { .. } => Some(
            TerminalRecovery { job_state: "cancelled", completion_kind: "cancelled", failure_class: None },
        ),
        RecoveryPlan::Fail { .. } => Some(
            TerminalRecovery { job_state: "failed", completion_kind: "failed", failure_class: Some("infrastructure") },
        ),
        _ => None,
    }
}

/// Identity of the completion that recovery records for a job it ends.
pub fn completion_id(lease_id: u128) -> (text: String)
    ensures
        text@ == "lease-expiry:"@ + hyphenated(lease_id),
{
    let mut text: String = "lease-expiry:".to_owned();
    let id = identity_text(lease_id);
    text.append(id.as_str());
    text
}

/// What a worker learns of a recovered lease.
#[derive(Clone, Copy, Debug, PartialEq, Eq, Structural)]
pub struct RecoverExpiredLeaseOutcome {
    /// Whether this call changed anything.
    pub disposition: MutationDisposition,
    /// The lease.
    pub lease_id: u128,
    /// The job.
    pub job_id: u128,
    /// What was done.
    pub action: LeaseRecoveryAction,
    /// How often the job has been requeued.
    pub infrastructure_requeues: u16,
}

/// Reports a plan that was carried out.
pub fn outcome(claim: &ExpiredLeaseClaim, plan: RecoveryPlan) -> (outcome: RecoverExpiredLeaseOutcome)
    ensures
        outcome.disposition == (if plan is Keep {
            MutationDisposition::Replayed
        } else {
            MutationDisposition::Applied
        }),
        outcome.lease_id == claim.lease_id,
        outcome.job_id == claim.job_id,
        outcome.action == plan.spec_action(),
        outcome.infrastructure_requeues == plan.spec_requeues(),
{
    let action = plan.action();
    RecoverExpiredLeaseOutcome {
        disposition: if action == LeaseRecoveryAction::AlreadyRecovered {
            MutationDisposition::Replayed
        } else {
            MutationDisposition::Applied
        },
        lease_id: claim.lease_id,
        job_id: claim.job_id,
        action,
        infrastructure_requeues: plan.requeues(),
    }
}

/// The word by which an action is announced.
pub open spec fn action_word(action: LeaseRecoveryAction) -> &'static str {
    match action {
        LeaseRecoveryAction::AlreadyRecovered => "AlreadyRecovered",
        LeaseRecoveryAction::Requeued => "Requeued",
        LeaseRecoveryAction::Cancelled => "Cancelled",
        LeaseRecoveryAction::Failed => "Failed",
    }
}

/// What the audit trail and the outbox are told of a recovery.
pub fn facts(claim: &ExpiredLeaseClaim, outcome: &RecoverExpiredLeaseOutcome) -> (facts: MutationFacts)
    ensures
        facts.actor_kind@ == "worker"@,
        facts.actor_identity matches Some(actor) && actor@ == claim.owner@,
        facts.target_identity@ == hyphenated(claim.lease_id),
        facts.safe_metadata@ == seq![
            (Member { name: "action", value: FactValue::Word(action_word(outcome.action)) }),
            (Member { name: "job_id", value: FactValue::Identity(claim.job_id) }),
            (Member { name: "requeues", value: FactValue::Number(outcome.infrastructure_requeues as u64) }),
        ],
        facts.outbox_payload@ == seq![
            (Member { name: "action", value: FactValue::Word(action_word(outcome.action)) }),
            (Member { name: "job_id", value: FactValue::Identity(claim.job_id) }),
            (Member { name: "lease_id", value: FactValue::Identity(claim.lease_id) }),
        ],
{
    let word: &'static str = match outcome.action {
        LeaseRecoveryAction::AlreadyRecovered => "AlreadyRecovered",
        LeaseRecoveryAction::Requeued => "Requeued",
        LeaseRecoveryAction::Cancelled => "Cancelled",
        LeaseRecoveryAction::Failed => "Failed",
    };
    MutationFacts {
        actor_kind: "worker",
        actor_identity: Some(claim.owner.clone()),
        target_identity: identity_text(claim.lease_id),
        safe_metadata: vec![
            Member { name: "action", value: FactValue::Word(word) },
            Member { name: "job_id", value: FactValue::Identity(claim.job_id) },
            Member { name: "requeues", value: FactValue::Number(outcome.infrastructure_requeues as u64) },
        ],
        outbox_payload: vec![
            Member { name: "action", value: FactValue::Word(word) },
            Member { name: "job_id", value: FactValue::Identity(claim.job_id) },
            Member { name: "lease_id", value: FactValue::Identity(claim.lease_id) },
        ],
    }
}

/// A claim on a silent lease is the worker's own, on that lease and its job; and an action is announced by its name.
pub proof fn silent_leases_are_claimed_for_their_worker(
    claim: ExpiredLeaseClaim,
    row: ClaimRow,
    owner: Seq<char>,
    claim_expires_at: i64,
)
    ensures
        is_claim_of(claim, row, owner, claim_expires_at) ==> claim.lease_id == row.lease_id && claim.job_id == row.job_id
            && claim.owner@ == owner && claim.claim_expires_at == claim_expires_at,
        is_readable_claim(row) <==> row.lease_id != 0 && row.job_id != 0,
        action_word(LeaseRecoveryAction::AlreadyRecovered) == "AlreadyRecovered",
        action_word(LeaseRecoveryAction::Requeued) == "Requeued",
        action_word(LeaseRecoveryAction::Cancelled) == "Cancelled",
        action_word(LeaseRecoveryAction::Failed) == "Failed",
{
}

/// A recovery that is refused says why: the claim has run out or belongs to somebody else, there is no such lease, it
/// is for another job, or what is stored of it cannot be read.
pub proof fn refused_recoveries_say_why(
    claim: ExpiredLeaseClaim,
    recovered_at: i64,
    owns_claim: bool,
    row: Option<RecoveryRow>,
)
    requires
        recovery(claim, recovered_at, owns_claim, row) is Err,
    ensures
        recovery(claim, recovered_at, owns_claim, row) == Err::<RecoveryPlan, StoreError>(
            if !owns_claim || claim.claim_expires_at <= recovered_at {
                StoreError::Conflict { entity: EntityKind::Lease }
            } else if row is None {
                StoreError::NotFound { entity: EntityKind::Lease }
            } else if row->Some_0.job_id != claim.job_id {
                StoreError::Conflict { entity: EntityKind::Lease }
            } else {
                StoreError::Unavailable
            },
        ),
{
}

} // verus!
