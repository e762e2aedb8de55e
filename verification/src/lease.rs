//! Leases: who holds one, and until when.

use vstd::prelude::*;

use crate::database::{fits_column, number, out_of_range};
use crate::domain::{StoreError, StoreOperation};
use crate::hash::{sha256, sha256_of};
use crate::text::{append_bytes, same_bytes, same_text};

verus! {

/// What an agent presents to act under a lease.
pub struct LeaseAccess {
    /// The lease.
    pub lease_id: u128,
    /// The agent.
    pub agent_id: u128,
    /// Epoch of the agent's registration.
    pub registration_epoch: u64,
    /// The secret handed out with the lease.
    pub fence: Vec<u8>,
}

/// A lease as the database holds it, with the job it is for and the registration that owns it.
pub struct LeaseRow {
    /// The leased job.
    pub job_id: u128,
    /// The attempt the job belongs to.
    pub attempt_id: u128,
    /// Number of that attempt within its build.
    pub attempt_number: i64,
    /// The build the attempt belongs to.
    pub build_id: u128,
    /// The project the build belongs to.
    pub project_id: u128,
    /// The registration that owns the lease.
    pub registration_id: u128,
    /// The agent behind that registration.
    pub agent_id: u128,
    /// Epoch of that registration.
    pub epoch: i64,
    /// Digest of the lease's secret.
    pub fence_hash: Vec<u8>,
    /// State of the lease.
    pub state: String,
    /// Whether the database's clock has passed the deadline.
    pub expired: bool,
    /// Deadline of the lease.
    pub expires_at_millis: i64,
}

/// Whether a lease in this state is held: it is active, or its holder was asked to stop.
pub open spec fn is_current_state(state: Seq<char>) -> bool {
    state == "active"@ || state == "cancellation_requested"@ || state == "drain_requested"@
}

/// Whether a lease in this state is held.
pub fn current_state(state: &str) -> (current: bool)
    ensures
        current == is_current_state(state@),
{
    same_text(state, "active") || same_text(state, "cancellation_requested") || same_text(state, "drain_requested")
}

/// The digest under which a lease's secret is stored.
pub fn fence_hash(fence: &[u8]) -> (hash: Vec<u8>)
    ensures
        hash@ == sha256_of(fence@),
{
    let digest = sha256(fence);
    let bytes: &[u8] = &digest;
    let mut hash: Vec<u8> = Vec::new();
    append_bytes(&mut hash, bytes);
    assert(hash@ =~= digest@);
    hash
}

/// Whether the lease belongs to the presented agent, registration and secret.
pub open spec fn is_owner(row: LeaseRow, access: LeaseAccess, presented_hash: Seq<u8>) -> bool {
    row.agent_id == access.agent_id && row.epoch == access.registration_epoch && row.fence_hash@ == presented_hash
}

/// What loading a lease comes to, given the digest of the presented secret.
pub open spec fn loaded(
    row: Option<LeaseRow>,
    access: LeaseAccess,
    operation: StoreOperation,
    presented_hash: Seq<u8>,
) -> Result<LeaseRow, StoreError> {
    if !fits_column(access.registration_epoch) {
        Err(out_of_range(operation))
    } else {
        match row {
            Some(row) if is_owner(row, access, presented_hash) => Ok(row),
            _ => Err(StoreError::Fenced { lease: access.lease_id }),
        }
    }
}

/// Admits the holder of a lease: a missing lease, or one that belongs to somebody else, fences the
/// caller off.
pub fn load(row: Option<LeaseRow>, access: &LeaseAccess, operation: StoreOperation) -> (result: Result<
    LeaseRow,
    StoreError,
>)
    ensures
        result == loaded(row, *access, operation, sha256_of(access.fence@)),
{
    let presented = fence_hash(access.fence.as_slice());
    load_hashed(row, access, operation, presented.as_slice())
}

/// Admits the holder of a lease by the digest of the secret it presented.
pub fn load_hashed(
    row: Option<LeaseRow>,
    access: &LeaseAccess,
    operation: StoreOperation,
    presented_hash: &[u8],
) -> (result: Result<LeaseRow, StoreError>)
    ensures
        result == loaded(row, *access, operation, presented_hash@),
{
    let epoch: i64 = number(access.registration_epoch, operation)?;
    let fenced = StoreError::Fenced { lease: access.lease_id };
    match row {
        Some(row) => {
            if row.agent_id != access.agent_id || row.epoch != epoch || !same_bytes(
                row.fence_hash.as_slice(),
                presented_hash,
            ) {
                return Err(fenced);
            }
            Ok(row)
        },
        None => Err(fenced),
    }
}

/// Whether the lease has run out by `observed_at`, by the database's clock or by its state.
pub open spec fn has_run_out(row: LeaseRow, observed_at: i64) -> bool {
    row.expired || row.state@ == "expired"@ || observed_at >= row.expires_at_millis
}

/// What requiring a held lease comes to.
pub open spec fn currency(row: LeaseRow, access: LeaseAccess, observed_at: i64) -> Result<(), StoreError> {
    if has_run_out(row, observed_at) {
        Err(StoreError::Expired { lease: access.lease_id })
    } else if !is_current_state(row.state@) {
        Err(StoreError::Fenced { lease: access.lease_id })
    } else {
        Ok(())
    }
}

/// Requires that a lease is held at `observed_at`.
pub fn require_current(row: &LeaseRow, access: &LeaseAccess, observed_at: i64) -> (result: Result<(), StoreError>)
    ensures
        result == currency(*row, *access, observed_at),
{
    if row.expired || same_text(row.state.as_str(), "expired") || observed_at >= row.expires_at_millis {
        return Err(StoreError::Expired { lease: access.lease_id });
    }
    if !current_state(row.state.as_str()) {
        return Err(StoreError::Fenced { lease: access.lease_id });
    }
    Ok(())
}

/// A lease is held exactly before its deadline, while the database's clock has not passed that either, and while it
/// is active or its holder was only asked to stop. Whoever comes too late learns that the lease has expired, and
/// whoever comes under a lease that was ended otherwise is fenced off.
pub proof fn leases_are_held_until_their_deadline(row: LeaseRow, access: LeaseAccess, observed_at: i64)
    ensures
        currency(row, access, observed_at) is Ok <==> !row.expired && observed_at < row.expires_at_millis && (
        row.state@ == "active"@ || row.state@ == "cancellation_requested"@ || row.state@ == "drain_requested"@),
        currency(row, access, observed_at) == Err::<(), StoreError>(StoreError::Expired { lease: access.lease_id })
            <==> row.expired || row.state@ == "expired"@ || observed_at >= row.expires_at_millis,
        currency(row, access, observed_at) is Err && !row.expired && row.state@ != "expired"@ && observed_at
            < row.expires_at_millis ==> currency(row, access, observed_at) == Err::<(), StoreError>(
            StoreError::Fenced { lease: access.lease_id },
        ),
{
    current_states_are_not_expired();
}

/// None of the states in which a lease is held is that of an expired one.
pub proof fn current_states_are_not_expired()
    ensures
        "active"@ != "expired"@,
        "cancellation_requested"@ != "expired"@,
        "drain_requested"@ != "expired"@,
        "active"@ != "cancellation_requested"@,
        "active"@ != "drain_requested"@,
        "cancellation_requested"@ != "drain_requested"@,
{
    reveal_strlit("active");
    reveal_strlit("expired");
    reveal_strlit("cancellation_requested");
    reveal_strlit("drain_requested");
    assert("active"@.len() == 6);
    assert("expired"@.len() == 7);
    assert("cancellation_requested"@.len() == 22);
    assert("drain_requested"@.len() == 15);
}

/// A lease is handed exactly to who presents its agent, the epoch of its registration and its secret; anybody else
/// is fenced off, as is whoever names a lease that does not exist.
pub proof fn leases_are_loaded_for_their_holders(
    row: Option<LeaseRow>,
    access: LeaseAccess,
    operation: StoreOperation,
    presented_hash: Seq<u8>,
)
    requires
        access.registration_epoch <= i64::MAX,
    ensures
        loaded(row, access, operation, presented_hash) is Ok <==> row is Some && row->Some_0.agent_id == access.agent_id
            && row->Some_0.epoch == access.registration_epoch && row->Some_0.fence_hash@ == presented_hash,
        loaded(row, access, operation, presented_hash) matches Ok(lease) ==> row == Some(lease),
        loaded(row, access, operation, presented_hash) matches Err(error) ==> error == (StoreError::Fenced {
            lease: access.lease_id,
        }),
{
}

/// A lease that has run out stays so at every later time.
pub proof fn leases_do_not_come_back(row: LeaseRow, access: LeaseAccess, earlier: i64, later: i64)
    requires
        earlier <= later,
        currency(row, access, earlier) is Err,
    ensures
        currency(row, access, later) is Err,
{
}

} // verus!
