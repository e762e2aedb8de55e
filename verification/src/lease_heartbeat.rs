//! Heartbeats: an agent keeps its lease, or learns that it must stop.

use vstd::prelude::*;

use crate::domain::{is_version, version, StoreError, StoreOperation};
use crate::hash::sha256_of;
use crate::identity_text::{hyphenated, identity_text};
use crate::lease::{currency, current_states_are_not_expired, load, loaded, require_current, LeaseAccess, LeaseRow};
use crate::mutation::{FactValue, Member, MutationFacts};
use crate::text::same_text;

verus! {

/// A heartbeat.
pub struct RenewLease {
    /// The lease and who presents it.
    pub lease: LeaseAccess,
    /// The job the agent believes it runs.
    pub job_id: u128,
    /// Number of the attempt the agent believes it runs.
    pub attempt: u64,
    /// When the heartbeat arrived.
    pub observed_at: i64,
    /// Deadline the lease is renewed to.
    pub expires_at: i64,
}

/// What an agent is told in answer to a heartbeat.
#[derive(Clone, Copy, Debug, PartialEq, Eq, Structural)]
pub enum LeaseHeartbeatOutcome {
    /// Go on until the new deadline.
    Continue { expires_at: i64 },
    /// Cancel the job.
    Cancel,
    /// The lease is not this agent's any more.
    Fenced,
    /// Finish the job before the new deadline and take no other.
    Drain { expires_at: i64 },
}

/// The answer to a heartbeat on a lease that was loaded for its holder.
pub open spec fn directive(row: LeaseRow, request: RenewLease) -> Result<LeaseHeartbeatOutcome, StoreError> {
    if !is_version(row.attempt_number) {
        Err(StoreError::Unavailable)
    } else if row.job_id != request.job_id || row.attempt_number != request.attempt {
        Ok(LeaseHeartbeatOutcome::Fenced)
    } else if currency(row, request.lease, request.observed_at) is Err {
        Ok(LeaseHeartbeatOutcome::Fenced)
    } else if row.state@ == "active"@ {
        Ok(LeaseHeartbeatOutcome::Continue { expires_at: request.expires_at })
    } else if row.state@ == "cancellation_requested"@ {
        Ok(LeaseHeartbeatOutcome::Cancel)
    } else {
        Ok(LeaseHeartbeatOutcome::Drain { expires_at: request.expires_at })
    }
}

/// The answer to a heartbeat.
pub open spec fn heartbeat(
    row: Option<LeaseRow>,
    request: RenewLease,
    presented_hash: Seq<u8>,
) -> Result<LeaseHeartbeatOutcome, StoreError> {
    match loaded(row, request.lease, StoreOperation::RenewLease, presented_hash) {
        Ok(row) => directive(row, request),
        Err(StoreError::Fenced { .. }) => Ok(LeaseHeartbeatOutcome::Fenced),
        Err(error) => Err(error),
    }
}

/// Answers a heartbeat: a caller who does not hold the lease, or whose lease has run out, is fenced
/// off; a holder is told to go on, to cancel or to drain.
/// `validated` is the verdict on the request by itself.
pub fn execute(validated: Result<(), StoreError>, row: Option<LeaseRow>, request: &RenewLease) -> (result: Result<
    LeaseHeartbeatOutcome,
    StoreError,
>)
    ensures
        result == (match validated {
            Err(error) => Err::<LeaseHeartbeatOutcome, StoreError>(error),
            Ok(()) => heartbeat(row, *request, sha256_of(request.lease.fence@)),
        }),
{
    match validated {
        Ok(()) => {},
        Err(error) => {
            return Err(error);
        },
    }
    match load(row, &request.lease, StoreOperation::RenewLease) {
        Ok(row) => direct(&row, request),
        Err(StoreError::Fenced { .. }) => Ok(LeaseHeartbeatOutcome::Fenced),
        Err(error) => Err(error),
    }
}

/// Answers the holder of a lease.
pub fn direct(row: &LeaseRow, request: &RenewLease) -> (result: Result<LeaseHeartbeatOutcome, StoreError>)
    ensures
        result == directive(*row, *request),
{
    let attempt: u64 = version(row.attempt_number)?;
    if row.job_id != request.job_id || attempt != request.attempt {
        return Ok(LeaseHeartbeatOutcome::Fenced);
    }
    if require_current(row, &request.lease, request.observed_at).is_err() {
        return Ok(LeaseHeartbeatOutcome::Fenced);
    }
    if same_text(row.state.as_str(), "active") {
        Ok(LeaseHeartbeatOutcome::Continue { expires_at: request.expires_at })
    } else if same_text(row.state.as_str(), "cancellation_requested") {
        Ok(LeaseHeartbeatOutcome::Cancel)
    } else {
        Ok(LeaseHeartbeatOutcome::Drain { expires_at: request.expires_at })
    }
}

/// An agent is never told to go on with a lease that has run out or that somebody else holds.
pub proof fn only_holders_go_on(row: LeaseRow, request: RenewLease, presented_hash: Seq<u8>)
    ensures
        heartbeat(Some(row), request, presented_hash) matches Ok(outcome) && !(outcome is Fenced) ==> {
            &&& crate::lease::is_owner(row, request.lease, presented_hash)
            &&& !crate::lease::has_run_out(row, request.observed_at)
            &&& row.job_id == request.job_id
        },
        heartbeat(None, request, presented_hash) matches Ok(outcome) ==> outcome is Fenced,
{
}

/// The deadline a heartbeat moves the lease to, where it moves it.
pub fn renewed_deadline(outcome: LeaseHeartbeatOutcome) -> (deadline: Option<i64>)
    ensures
        deadline == match outcome {
            LeaseHeartbeatOutcome::Continue { expires_at } => Some(expires_at),
            LeaseHeartbeatOutcome::Drain { expires_at } => Some(expires_at),
            _ => None,
        },
{
    match outcome {
        LeaseHeartbeatOutcome::Continue { expires_at } => Some(expires_at),
        LeaseHeartbeatOutcome::Drain { expires_at } => Some(expires_at),
        _ => None,
    }
}

/// The word by which an answer is recorded.
pub open spec fn directive_word(outcome: LeaseHeartbeatOutcome) -> &'static str {
    match outcome {
        LeaseHeartbeatOutcome::Continue { .. } => "continue",
        LeaseHeartbeatOutcome::Cancel => "cancel",
        LeaseHeartbeatOutcome::Fenced => "fenced",
        LeaseHeartbeatOutcome::Drain { .. } => "drain",
    }
}

/// What the audit trail and the outbox are told of a heartbeat.
pub fn facts(request: &RenewLease, outcome: LeaseHeartbeatOutcome) -> (facts: MutationFacts)
    ensures
        facts.actor_kind@ == "agent"@,
        facts.actor_identity matches Some(actor) && actor@ == hyphenated(request.lease.agent_id),
        facts.target_identity@ == hyphenated(request.lease.lease_id),
        facts.safe_metadata@ == seq![
            (Member { name: "directive", value: FactValue::Word(directive_word(outcome)) }),
            (Member { name: "job_id", value: FactValue::Identity(request.job_id) }),
            (Member { name: "registration_epoch", value: FactValue::Number(request.lease.registration_epoch) }),
        ],
        facts.outbox_payload@ == seq![
            (Member { name: "directive", value: FactValue::Word(directive_word(outcome)) }),
            (Member { name: "job_id", value: FactValue::Identity(request.job_id) }),
            (Member { name: "lease_id", value: FactValue::Identity(request.lease.lease_id) }),
            (Member { name: "schema_version", value: FactValue::Number(1) }),
        ],
{
    let word: &'static str = match outcome {
        LeaseHeartbeatOutcome::Continue { .. } => "continue",
        LeaseHeartbeatOutcome::Cancel => "cancel",
        LeaseHeartbeatOutcome::Fenced => "fenced",
        LeaseHeartbeatOutcome::Drain { .. } => "drain",
    };
    MutationFacts {
        actor_kind: "agent",
        actor_identity: Some(identity_text(request.lease.agent_id)),
        target_identity: identity_text(request.lease.lease_id),
        safe_metadata: vec![
            Member { name: "directive", value: FactValue::Word(word) },
            Member { name: "job_id", value: FactValue::Identity(request.job_id) },
            Member { name: "registration_epoch", value: FactValue::Number(request.lease.registration_epoch) },
        ],
        outbox_payload: vec![
            Member { name: "directive", value: FactValue::Word(word) },
            Member { name: "job_id", value: FactValue::Identity(request.job_id) },
            Member { name: "lease_id", value: FactValue::Identity(request.lease.lease_id) },
            Member { name: "schema_version", value: FactValue::Number(1) },
        ],
    }
}

/// What an agent is told that presents its lease in time, for its job and its attempt: one whose lease is active
/// goes on, one whose build is being cancelled stops, and one that is drained finishes; the lease of those that go
/// on or finish lasts until the deadline that was asked for.
pub proof fn holders_are_told_what_was_asked_of_them(row: LeaseRow, request: RenewLease, presented_hash: Seq<u8>)
    requires
        row.agent_id == request.lease.agent_id,
        row.epoch == request.lease.registration_epoch,
        row.fence_hash@ == presented_hash,
        row.job_id == request.job_id,
        row.attempt_number == request.attempt,
        row.attempt_number > 0,
        !row.expired,
        request.observed_at < row.expires_at_millis,
    ensures
        row.state@ == "active"@ <==> heartbeat(Some(row), request, presented_hash) == Ok::<
            LeaseHeartbeatOutcome,
            StoreError,
        >(LeaseHeartbeatOutcome::Continue { expires_at: request.expires_at }),
        row.state@ == "cancellation_requested"@ <==> heartbeat(Some(row), request, presented_hash) == Ok::<
            LeaseHeartbeatOutcome,
            StoreError,
        >(LeaseHeartbeatOutcome::Cancel),
        row.state@ == "drain_requested"@ <==> heartbeat(Some(row), request, presented_hash) == Ok::<
            LeaseHeartbeatOutcome,
            StoreError,
        >(LeaseHeartbeatOutcome::Drain { expires_at: request.expires_at }),
        row.state@ != "active"@ && row.state@ != "cancellation_requested"@ && row.state@ != "drain_requested"@
            <==> heartbeat(Some(row), request, presented_hash) == Ok::<LeaseHeartbeatOutcome, StoreError>(
            LeaseHeartbeatOutcome::Fenced,
        ),
{
    current_states_are_not_expired();
}

/// Whoever does not hold a lease, comes too late or names another job or attempt is fenced off, and told so without
/// an error.
pub proof fn others_are_fenced_off(row: Option<LeaseRow>, request: RenewLease, presented_hash: Seq<u8>)
    requires
        request.lease.registration_epoch <= i64::MAX,
        row matches Some(lease) ==> lease.attempt_number > 0,
        row is None || row->Some_0.agent_id != request.lease.agent_id || row->Some_0.epoch
            != request.lease.registration_epoch || row->Some_0.fence_hash@ != presented_hash || row->Some_0.job_id
            != request.job_id || row->Some_0.attempt_number != request.attempt || row->Some_0.expired
            || request.observed_at >= row->Some_0.expires_at_millis,
    ensures
        heartbeat(row, request, presented_hash) == Ok::<LeaseHeartbeatOutcome, StoreError>(
            LeaseHeartbeatOutcome::Fenced,
        ),
{
}

/// What an agent was told is announced by its name.
pub proof fn directives_are_announced_by_name(expires_at: i64)
    ensures
        directive_word(LeaseHeartbeatOutcome::Continue { expires_at }) == "continue",
        directive_word(LeaseHeartbeatOutcome::Cancel) == "cancel",
        directive_word(LeaseHeartbeatOutcome::Fenced) == "fenced",
        directive_word(LeaseHeartbeatOutcome::Drain { expires_at }) == "drain",
{
}

/// A lease whose attempt cannot be read is reported as unavailable, whoever asks.
pub proof fn damaged_attempts_are_unavailable(row: LeaseRow, request: RenewLease)
    ensures
        row.attempt_number <= 0 <==> directive(row, request) == Err::<LeaseHeartbeatOutcome, StoreError>(
            StoreError::Unavailable,
        ),
        directive(row, request) is Err ==> row.attempt_number <= 0,
{
}

} // verus!
