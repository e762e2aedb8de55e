//! Credentials of agents: authenticating, issuing and revoking them.

use vstd::prelude::*;

use crate::agent_registration::DIGEST_LENGTH;
use crate::database::{fits_column, number, out_of_range};
use crate::domain::{
    identity, is_identity, is_timestamp, is_version, timestamp, version, EntityKind, MutationDisposition, StoreError,
    StoreOperation,
};
use crate::identity_text::{hyphenated, identity_text};
use crate::mutation::{FactValue, Member, MutationFacts, MutationKind};
use crate::pool::AgentPlatform;
use crate::text::same_bytes;

verus! {

/// A registration, as authentication reads it.
pub struct CredentialRow {
    /// The agent.
    pub agent_id: u128,
    /// Epoch of the registration.
    pub epoch: i64,
    /// Digest of its credential.
    pub credential_hash: Vec<u8>,
    /// Whether it was revoked.
    pub revoked: bool,
    /// When it runs out.
    pub expires_at: i64,
    /// Pool of the agent.
    pub pool_id: u128,
    /// Version of that pool.
    pub pool_version: i64,
}

/// An agent that proved who it is.
#[derive(Clone, Copy, Debug, PartialEq, Eq, Structural)]
pub struct AuthenticatedAgentRegistration {
    /// The agent.
    pub agent_id: u128,
    /// Epoch of its registration.
    pub registration_epoch: u64,
    /// Its pool.
    pub pool_id: u128,
    /// Version of that pool.
    pub pool_version: u64,
    /// When the registration runs out.
    pub expires_at: i64,
}

/// What authenticating comes to, given the digest of the presented credential.
pub open spec fn authenticated(row: Option<CredentialRow>, presented_digest: Seq<u8>, authenticated_at: i64) -> Result<
    AuthenticatedAgentRegistration,
    StoreError,
> {
    match row {
        None => Err(StoreError::CredentialRejected),
        Some(row) => if row.credential_hash@.len() != DIGEST_LENGTH {
            Err(StoreError::Unavailable)
        } else if row.revoked || row.expires_at <= authenticated_at || row.credential_hash@ != presented_digest {
            Err(StoreError::CredentialRejected)
        } else if is_identity(row.agent_id) && is_version(row.epoch) && is_identity(row.pool_id) && is_version(
            row.pool_version,
        ) && is_timestamp(row.expires_at) {
            Ok(
                AuthenticatedAgentRegistration {
                    agent_id: row.agent_id,
                    registration_epoch: row.epoch as u64,
                    pool_id: row.pool_id,
                    pool_version: row.pool_version as u64,
                    expires_at: row.expires_at,
                },
            )
        } else {
            Err(StoreError::Unavailable)
        },
    }
}

/// Authenticates an agent by its registration: an unknown, revoked, run-out or wrong credential is
/// rejected without saying which.
pub fn authenticate(row: &Option<CredentialRow>, presented_digest: &[u8], authenticated_at: i64) -> (result: Result<
    AuthenticatedAgentRegistration,
    StoreError,
>)
    ensures
        result == authenticated(*row, presented_digest@, authenticated_at),
{
    let row = match row {
        Some(row) => row,
        None => {
            return Err(StoreError::CredentialRejected);
        },
    };
    if row.credential_hash.len() != DIGEST_LENGTH {
        return Err(StoreError::Unavailable);
    }
    if row.revoked || row.expires_at <= authenticated_at || !same_bytes(
        row.credential_hash.as_slice(),
        presented_digest,
    ) {
        return Err(StoreError::CredentialRejected);
    }
    Ok(
        AuthenticatedAgentRegistration {
            agent_id: identity(row.agent_id)?,
            registration_epoch: version(row.epoch)?,
            pool_id: identity(row.pool_id)?,
            pool_version: version(row.pool_version)?,
            expires_at: timestamp(row.expires_at)?,
        },
    )
}

/// Revocation holds for ever, and so does running out: once rejected on either ground, a credential is
/// never accepted again.
pub proof fn rejected_credentials_stay_rejected(row: CredentialRow, presented_digest: Seq<u8>, earlier: i64, later: i64)
    requires
        earlier <= later,
        row.revoked || row.expires_at <= earlier,
    ensures
        authenticated(Some(row), presented_digest, later) is Err,
{
}

/// A platform an enrollment is meant for.
pub enum ExpectedAgentPlatform {
    /// Any.
    Any,
    /// Exactly this one.
    Exact(AgentPlatform),
}

/// What issuing an enrollment did.
#[derive(Clone, Copy, Debug, PartialEq, Eq, Structural)]
pub struct IssueAgentEnrollmentOutcome {
    /// Whether this call changed anything.
    pub disposition: MutationDisposition,
    /// The enrollment credential.
    pub credential_id: u128,
    /// Pool it enrolls into.
    pub pool_id: u128,
    /// Version of that pool.
    pub pool_version: u64,
    /// When it runs out.
    pub expires_at: i64,
}

/// A request to issue an enrollment.
#[derive(Clone, Copy, Debug, PartialEq, Eq, Structural)]
pub struct IssueAgentEnrollment {
    /// The enrollment credential.
    pub credential_id: u128,
    /// Pool it enrolls into.
    pub pool_id: u128,
    /// Version of that pool.
    pub pool_version: u64,
    /// When it runs out.
    pub expires_at: i64,
}

/// Issues an enrollment: `validated` is the verdict on the request by itself, and its pool has to exist in the
/// version it names. That version is given as the database holds it.
pub fn issue(validated: Result<(), StoreError>, request: &IssueAgentEnrollment, pool_exists: bool) -> (result: Result<
    (i64, IssueAgentEnrollmentOutcome),
    StoreError,
>)
    ensures
        result == (match validated {
            Err(error) => Err::<(i64, IssueAgentEnrollmentOutcome), StoreError>(error),
            Ok(()) => if !fits_column(request.pool_version) {
                Err(out_of_range(StoreOperation::IssueAgentEnrollment))
            } else if !pool_exists {
                Err(StoreError::NotFound { entity: EntityKind::Pool })
            } else {
                Ok(
                    (
                        request.pool_version as i64,
                        IssueAgentEnrollmentOutcome {
                            disposition: MutationDisposition::Applied,
                            credential_id: request.credential_id,
                            pool_id: request.pool_id,
                            pool_version: request.pool_version,
                            expires_at: request.expires_at,
                        },
                    ),
                )
            },
        }),
{
    validated?;
    let pool_version: i64 = number(request.pool_version, StoreOperation::IssueAgentEnrollment)?;
    if !pool_exists {
        return Err(StoreError::NotFound { entity: EntityKind::Pool });
    }
    let outcome = IssueAgentEnrollmentOutcome {
        disposition: MutationDisposition::Applied,
        credential_id: request.credential_id,
        pool_id: request.pool_id,
        pool_version: request.pool_version,
        expires_at: request.expires_at,
    };
    Ok((pool_version, outcome))
}

/// The platform columns of an enrollment: both are set or neither is.
pub fn platform_columns(expected: ExpectedAgentPlatform) -> (columns: (Option<String>, Option<String>))
    ensures
        match expected {
            ExpectedAgentPlatform::Any => columns.0 is None && columns.1 is None,
            ExpectedAgentPlatform::Exact(platform) => columns.0 == Some(platform.operating_system) && columns.1 == Some(
                platform.architecture,
            ),
        },
{
    match expected {
        ExpectedAgentPlatform::Any => (None, None),
        ExpectedAgentPlatform::Exact(platform) => (Some(platform.operating_system), Some(platform.architecture)),
    }
}

/// An enrollment issued for a platform takes exactly the agents on it, and one issued for any takes
/// all.
pub proof fn issued_enrollments_take_their_platform(
    expected: ExpectedAgentPlatform,
    os: Option<String>,
    architecture: Option<String>,
    platform: AgentPlatform,
)
    requires
        match expected {
            ExpectedAgentPlatform::Any => os is None && architecture is None,
            ExpectedAgentPlatform::Exact(exact) => os == Some(exact.operating_system) && architecture == Some(
                exact.architecture,
            ),
        },
    ensures
        crate::agent_registration::is_expected_platform(os, architecture, platform) <==> match expected {
            ExpectedAgentPlatform::Any => true,
            ExpectedAgentPlatform::Exact(exact) => crate::pool::same_platform_as(exact, platform),
        },
{
}

/// Repeats a stored outcome.
pub fn replay_issue(stored: IssueAgentEnrollmentOutcome) -> (outcome: IssueAgentEnrollmentOutcome)
    ensures
        outcome == (IssueAgentEnrollmentOutcome { disposition: MutationDisposition::Replayed, ..stored }),
{
    IssueAgentEnrollmentOutcome {
        disposition: MutationDisposition::Replayed,
        credential_id: stored.credential_id,
        pool_id: stored.pool_id,
        pool_version: stored.pool_version,
        expires_at: stored.expires_at,
    }
}

/// What the audit trail and the outbox are told of an issued enrollment.
pub fn issue_facts(outcome: &IssueAgentEnrollmentOutcome) -> (facts: MutationFacts)
    ensures
        facts.actor_kind@ == "unauthenticated_management"@,
        facts.actor_identity is None,
        facts.target_identity@ == hyphenated(outcome.credential_id),
        facts.safe_metadata@ == seq![
            (Member { name: "pool_id", value: FactValue::Identity(outcome.pool_id) }),
            (Member { name: "pool_version", value: FactValue::Number(outcome.pool_version) }),
            (Member { name: "expires_at", value: FactValue::Time(outcome.expires_at) }),
        ],
        facts.outbox_payload@ == seq![
            (Member { name: "credential_id", value: FactValue::Identity(outcome.credential_id) }),
            (Member { name: "pool_id", value: FactValue::Identity(outcome.pool_id) }),
            (Member { name: "pool_version", value: FactValue::Number(outcome.pool_version) }),
        ],
{
    MutationFacts {
        actor_kind: "unauthenticated_management",
        actor_identity: None,
        target_identity: identity_text(outcome.credential_id),
        safe_metadata: vec![
            Member { name: "pool_id", value: FactValue::Identity(outcome.pool_id) },
            Member { name: "pool_version", value: FactValue::Number(outcome.pool_version) },
            Member { name: "expires_at", value: FactValue::Time(outcome.expires_at) },
        ],
        outbox_payload: vec![
            Member { name: "credential_id", value: FactValue::Identity(outcome.credential_id) },
            Member { name: "pool_id", value: FactValue::Identity(outcome.pool_id) },
            Member { name: "pool_version", value: FactValue::Number(outcome.pool_version) },
        ],
    }
}

/// A credential to revoke.
#[derive(Clone, Copy, Debug, PartialEq, Eq, Structural)]
pub enum AgentCredentialTarget {
    /// An enrollment credential.
    Enrollment(u128),
    /// A registration.
    Registration(u128),
}

impl AgentCredentialTarget {
    /// The credential.
    pub open spec fn spec_id(self) -> u128 {
        match self {
            AgentCredentialTarget::Enrollment(id) => id,
            AgentCredentialTarget::Registration(id) => id,
        }
    }

    /// The entity reported where it does not exist.
    pub open spec fn spec_entity(self) -> EntityKind {
        match self {
            AgentCredentialTarget::Enrollment(_) => EntityKind::AgentEnrollmentCredential,
            AgentCredentialTarget::Registration(_) => EntityKind::AgentRegistration,
        }
    }
}

/// How a revocation is named: its kind, its key, the entity it is about, and that entity's identity.
pub struct RevocationIdentity {
    /// Kind of mutation.
    pub kind: MutationKind,
    /// Idempotency key, which is the credential.
    pub key: String,
    /// Entity it is about.
    pub entity: EntityKind,
}

/// Names a revocation.
pub fn revocation_identity(target: AgentCredentialTarget) -> (named: RevocationIdentity)
    ensures
        named.kind == (match target {
            AgentCredentialTarget::Enrollment(_) => MutationKind::RevokeAgentEnrollment,
            AgentCredentialTarget::Registration(_) => MutationKind::RevokeAgentRegistration,
        }),
        named.key@ == hyphenated(target.spec_id()),
        named.entity == target.spec_entity(),
{
    match target {
        AgentCredentialTarget::Enrollment(id) => RevocationIdentity {
            kind: MutationKind::RevokeAgentEnrollment,
            key: identity_text(id),
            entity: EntityKind::AgentEnrollmentCredential,
        },
        AgentCredentialTarget::Registration(id) => RevocationIdentity {
            kind: MutationKind::RevokeAgentRegistration,
            key: identity_text(id),
            entity: EntityKind::AgentRegistration,
        },
    }
}

/// Checks that a revocation reached its credential.
pub fn require_revoked(target: AgentCredentialTarget, updated_rows: u64) -> (result: Result<
    MutationDisposition,
    StoreError,
>)
    ensures
        result == (if updated_rows == 1 {
            Ok::<MutationDisposition, StoreError>(MutationDisposition::Applied)
        } else {
            Err(StoreError::NotFound { entity: target.spec_entity() })
        }),
{
    if updated_rows != 1 {
        let entity = match target {
            AgentCredentialTarget::Enrollment(_) => EntityKind::AgentEnrollmentCredential,
            AgentCredentialTarget::Registration(_) => EntityKind::AgentRegistration,
        };
        return Err(StoreError::NotFound { entity });
    }
    Ok(MutationDisposition::Applied)
}

/// What the audit trail and the outbox are told of a revocation.
pub fn revocation_facts(target: AgentCredentialTarget) -> (facts: MutationFacts)
    ensures
        facts.actor_kind@ == "unauthenticated_management"@,
        facts.actor_identity is None,
        facts.target_identity@ == hyphenated(target.spec_id()),
        facts.safe_metadata@ == seq![
            (Member { name: "credential_identity", value: FactValue::Identity(target.spec_id()) }),
        ],
        facts.outbox_payload@ == seq![
            (Member { name: "credential_identity", value: FactValue::Identity(target.spec_id()) }),
        ],
{
    let id: u128 = match target {
        AgentCredentialTarget::Enrollment(id) => id,
        AgentCredentialTarget::Registration(id) => id,
    };
    MutationFacts {
        actor_kind: "unauthenticated_management",
        actor_identity: None,
        target_identity: identity_text(id),
        safe_metadata: vec![Member { name: "credential_identity", value: FactValue::Identity(id) }],
        outbox_payload: vec![Member { name: "credential_identity", value: FactValue::Identity(id) }],
    }
}

/// An agent is let in exactly with the credential on record, while that is neither revoked nor expired; it gets the
/// registration of that credential.
pub proof fn live_credentials_are_accepted(row: CredentialRow, presented_digest: Seq<u8>, authenticated_at: i64)
    requires
        row.credential_hash@.len() == 32,
        row.agent_id != 0 && row.epoch > 0 && row.pool_id != 0 && row.pool_version > 0 && row.expires_at >= 0,
    ensures
        authenticated(Some(row), presented_digest, authenticated_at) == (if row.credential_hash@ == presented_digest
            && !row.revoked && authenticated_at < row.expires_at {
            Ok::<AuthenticatedAgentRegistration, StoreError>(
                AuthenticatedAgentRegistration {
                    agent_id: row.agent_id,
                    registration_epoch: row.epoch as u64,
                    pool_id: row.pool_id,
                    pool_version: row.pool_version as u64,
                    expires_at: row.expires_at,
                },
            )
        } else {
            Err(StoreError::CredentialRejected)
        }),
        authenticated(None, presented_digest, authenticated_at) == Err::<AuthenticatedAgentRegistration, StoreError>(
            StoreError::CredentialRejected,
        ),
{
}

/// Nobody is let in without the very credential on record.
pub proof fn other_credentials_are_refused(row: Option<CredentialRow>, presented_digest: Seq<u8>, authenticated_at: i64)
    ensures
        authenticated(row, presented_digest, authenticated_at) matches Ok(agent) ==> row is Some
            && row->Some_0.credential_hash@ == presented_digest && !row->Some_0.revoked && authenticated_at
            < row->Some_0.expires_at && agent.agent_id == row->Some_0.agent_id && agent.pool_id == row->Some_0.pool_id
            && agent.registration_epoch == row->Some_0.epoch && agent.pool_version == row->Some_0.pool_version,
{
}

/// A revocation is about the credential it names, and of the kind it names.
pub proof fn revocations_name_their_credential(id: u128)
    ensures
        AgentCredentialTarget::Enrollment(id).spec_id() == id,
        AgentCredentialTarget::Registration(id).spec_id() == id,
        AgentCredentialTarget::Enrollment(id).spec_entity() == EntityKind::AgentEnrollmentCredential,
        AgentCredentialTarget::Registration(id).spec_entity() == EntityKind::AgentRegistration,
{
}

/// A credential whose digest does not have its full length is reported as unavailable, and so is one that would be
/// accepted but whose registration cannot be read.
pub proof fn damaged_credentials_are_unavailable(row: CredentialRow, presented_digest: Seq<u8>, authenticated_at: i64)
    ensures
        row.credential_hash@.len() != 32 ==> authenticated(Some(row), presented_digest, authenticated_at) == Err::<
            AuthenticatedAgentRegistration,
            StoreError,
        >(StoreError::Unavailable),
        row.credential_hash@.len() == 32 && !row.revoked && authenticated_at < row.expires_at && row.credential_hash@
            == presented_digest && (row.agent_id == 0 || row.epoch <= 0 || row.pool_id == 0 || row.pool_version <= 0
            || row.expires_at < 0) ==> authenticated(Some(row), presented_digest, authenticated_at) == Err::<
            AuthenticatedAgentRegistration,
            StoreError,
        >(StoreError::Unavailable),
{
}

} // verus!
