//! Registering an agent: by an enrollment credential for the first time, by its registration after that.

use vstd::prelude::*;

use crate::database::{fits_column, number, out_of_range};
use crate::domain::{
    identity, is_identity, is_version, version, MutationDisposition, StoreError, StoreOperation,
};
use crate::identity_text::{hyphenated, identity_text};
use crate::mutation::{FactValue, Member, MutationFacts};
use crate::pool::AgentPlatform;
use crate::text::{column_holds, holds, same_bytes, same_text};

verus! {

/// Length of a credential's digest.
pub const DIGEST_LENGTH: usize = 32;

/// An enrollment credential.
pub struct EnrollmentRow {
    /// Digest of the credential.
    pub credential_hash: Vec<u8>,
    /// Pool it enrolls into.
    pub pool_id: u128,
    /// Version of that pool.
    pub pool_version: i64,
    /// Operating system it is meant for.
    pub expected_operating_system: Option<String>,
    /// Architecture it is meant for.
    pub expected_architecture: Option<String>,
    /// Whether it was used.
    pub consumed: bool,
    /// Whether it was revoked.
    pub revoked: bool,
    /// When it runs out.
    pub expires_at: i64,
}

/// An earlier registration of an agent.
pub struct RegistrationRow {
    /// The agent.
    pub agent_id: u128,
    /// Epoch of the registration.
    pub epoch: i64,
    /// Digest of its credential.
    pub credential_hash: Vec<u8>,
    /// Whether it was revoked.
    pub revoked: bool,
    /// When it runs out.
    pub expires_at: i64,
    /// Name of the agent.
    pub agent_name: String,
    /// Pool of the agent.
    pub pool_id: u128,
    /// Version of that pool.
    pub pool_version: i64,
    /// Operating system of the agent.
    pub platform_operating_system: Option<String>,
    /// Architecture of the agent.
    pub platform_architecture: Option<String>,
}

/// An agent that exists already.
pub struct AgentRow {
    /// Its name.
    pub name: String,
    /// Its pool.
    pub pool_id: u128,
    /// Version of that pool.
    pub pool_version: i64,
    /// Its operating system.
    pub platform_operating_system: Option<String>,
    /// Its architecture.
    pub platform_architecture: Option<String>,
    /// Greatest epoch of its registrations.
    pub greatest_epoch: i64,
}

/// A request to register.
pub struct RegisterAgent {
    /// Credential of the new registration.
    pub credential_id: u128,
    /// The agent.
    pub agent_id: u128,
    /// Its name.
    pub agent_name: String,
    /// Its platform.
    pub platform: AgentPlatform,
    /// When it registers.
    pub registered_at: i64,
    /// When the new registration runs out.
    pub expires_at: i64,
}

/// What a registration is entitled to.
#[derive(Clone, Copy, Debug, PartialEq, Eq, Structural)]
pub struct RegistrationAuthority {
    /// Pool of the agent.
    pub pool_id: u128,
    /// Version of that pool.
    pub pool_version: u64,
    /// Epoch of the new registration.
    pub epoch: u64,
    /// Enrollment credential it uses up.
    pub consumed_enrollment: Option<u128>,
    /// Whether the agent is new.
    pub create_agent: bool,
}

/// Whether a platform is one an enrollment is meant for: any where it names none, and none where it
/// names only half of one.
pub open spec fn is_expected_platform(os: Option<String>, architecture: Option<String>, platform: AgentPlatform) -> bool {
    match (os, architecture) {
        (None, None) => true,
        (Some(os), Some(architecture)) => os@ == platform.operating_system@ && architecture@ == platform.architecture@,
        _ => false,
    }
}

/// Whether a platform is one an enrollment is meant for.
pub fn platform_matches(
    expected_os: &Option<String>,
    expected_architecture: &Option<String>,
    platform: &AgentPlatform,
) -> (matches: bool)
    ensures
        matches == is_expected_platform(*expected_os, *expected_architecture, *platform),
{
    match (expected_os, expected_architecture) {
        (None, None) => true,
        (Some(os), Some(architecture)) => same_text(os.as_str(), platform.operating_system.as_str()) && same_text(
            architecture.as_str(),
            platform.architecture.as_str(),
        ),
        _ => false,
    }
}

/// Whether an existing agent is the one that registers, in the pool its enrollment is for.
pub open spec fn is_same_agent(agent: AgentRow, enrollment: EnrollmentRow, request: RegisterAgent) -> bool {
    &&& agent.name@ == request.agent_name@
    &&& agent.pool_id == enrollment.pool_id
    &&& agent.pool_version == enrollment.pool_version
    &&& holds(agent.platform_operating_system, request.platform.operating_system@)
    &&& holds(agent.platform_architecture, request.platform.architecture@)
}

/// The authority that reading a pool and its version gives, where they can be read.
pub open spec fn authority_in_pool(
    pool_id: u128,
    pool_version: i64,
    epoch: u64,
    consumed_enrollment: Option<u128>,
    create_agent: bool,
) -> Result<RegistrationAuthority, StoreError> {
    if is_identity(pool_id) && is_version(pool_version) {
        Ok(
            RegistrationAuthority {
                pool_id,
                pool_version: pool_version as u64,
                epoch,
                consumed_enrollment,
                create_agent,
            },
        )
    } else {
        Err(StoreError::Unavailable)
    }
}

/// What an enrollment entitles to, given the digest of the presented credential.
pub open spec fn enrolled(
    enrollment_id: u128,
    enrollment: Option<EnrollmentRow>,
    agent: Option<AgentRow>,
    presented_digest: Seq<u8>,
    request: RegisterAgent,
) -> Result<RegistrationAuthority, StoreError> {
    match enrollment {
        None => Err(StoreError::CredentialRejected),
        Some(enrollment) => if enrollment.consumed || enrollment.revoked || enrollment.expires_at
            <= request.registered_at {
            Err(StoreError::CredentialRejected)
        } else if enrollment.credential_hash@.len() != DIGEST_LENGTH {
            Err(StoreError::Unavailable)
        } else if enrollment.credential_hash@ != presented_digest || !is_expected_platform(
            enrollment.expected_operating_system,
            enrollment.expected_architecture,
            request.platform,
        ) {
            Err(StoreError::CredentialRejected)
        } else {
            match agent {
                None => authority_in_pool(
                    enrollment.pool_id,
                    enrollment.pool_version,
                    1,
                    Some(enrollment_id),
                    true,
                ),
                Some(agent) => if !is_same_agent(agent, enrollment, request) {
                    Err(StoreError::CredentialRejected)
                } else if agent.greatest_epoch < 0 {
                    Err(StoreError::Unavailable)
                } else {
                    authority_in_pool(
                        enrollment.pool_id,
                        enrollment.pool_version,
                        (agent.greatest_epoch + 1) as u64,
                        Some(enrollment_id),
                        false,
                    )
                },
            }
        },
    }
}

/// Whether an earlier registration belongs to the agent that registers anew.
pub open spec fn is_same_registrant(previous: RegistrationRow, request: RegisterAgent) -> bool {
    &&& previous.agent_name@ == request.agent_name@
    &&& holds(previous.platform_operating_system, request.platform.operating_system@)
    &&& holds(previous.platform_architecture, request.platform.architecture@)
}

/// What an earlier registration entitles to, given the digest of the presented credential.
pub open spec fn renewed(
    previous: Option<RegistrationRow>,
    epoch: u64,
    presented_digest: Seq<u8>,
    request: RegisterAgent,
) -> Result<RegistrationAuthority, StoreError> {
    match previous {
        None => Err(StoreError::CredentialRejected),
        Some(previous) => if previous.agent_id != request.agent_id {
            Err(StoreError::CredentialRejected)
        } else if !fits_column(epoch) {
            Err(out_of_range(StoreOperation::RegisterAgent))
        } else if previous.epoch != epoch || previous.revoked || previous.expires_at <= request.registered_at {
            Err(StoreError::CredentialRejected)
        } else if previous.credential_hash@.len() != DIGEST_LENGTH {
            Err(StoreError::Unavailable)
        } else if previous.credential_hash@ != presented_digest || !is_same_registrant(previous, request) {
            Err(StoreError::CredentialRejected)
        } else {
            authority_in_pool(previous.pool_id, previous.pool_version, (epoch + 1) as u64, None, false)
        },
    }
}

fn authority(
    pool_id: u128,
    pool_version: i64,
    epoch: u64,
    consumed_enrollment: Option<u128>,
    create_agent: bool,
) -> (result: Result<RegistrationAuthority, StoreError>)
    ensures
        result == authority_in_pool(pool_id, pool_version, epoch, consumed_enrollment, create_agent),
{
    Ok(
        RegistrationAuthority {
            pool_id: identity(pool_id)?,
            pool_version: version(pool_version)?,
            epoch,
            consumed_enrollment,
            create_agent,
        },
    )
}

/// Decides what an enrollment credential entitles to. A new agent starts at the first epoch; an agent
/// that exists must be the same one, and goes one past its greatest epoch.
pub fn enroll(
    enrollment_id: u128,
    enrollment: &Option<EnrollmentRow>,
    agent: &Option<AgentRow>,
    presented_digest: &[u8],
    request: &RegisterAgent,
) -> (result: Result<RegistrationAuthority, StoreError>)
    ensures
        result == enrolled(enrollment_id, *enrollment, *agent, presented_digest@, *request),
{
    let enrollment = match enrollment {
        Some(enrollment) => enrollment,
        None => {
            return Err(StoreError::CredentialRejected);
        },
    };
    if enrollment.consumed || enrollment.revoked || enrollment.expires_at <= request.registered_at {
        return Err(StoreError::CredentialRejected);
    }
    if enrollment.credential_hash.len() != DIGEST_LENGTH {
        return Err(StoreError::Unavailable);
    }
    if !same_bytes(enrollment.credential_hash.as_slice(), presented_digest) || !platform_matches(
        &enrollment.expected_operating_system,
        &enrollment.expected_architecture,
        &request.platform,
    ) {
        return Err(StoreError::CredentialRejected);
    }
    let (epoch, create_agent) = match agent {
        None => (1u64, true),
        Some(agent) => {
            if !same_text(agent.name.as_str(), request.agent_name.as_str()) || agent.pool_id != enrollment.pool_id
                || agent.pool_version != enrollment.pool_version || !column_holds(
                &agent.platform_operating_system,
                request.platform.operating_system.as_str(),
            ) || !column_holds(&agent.platform_architecture, request.platform.architecture.as_str()) {
                return Err(StoreError::CredentialRejected);
            }
            if agent.greatest_epoch < 0 {
                return Err(StoreError::Unavailable);
            }
            (agent.greatest_epoch as u64 + 1, false)
        },
    };
    authority(enrollment.pool_id, enrollment.pool_version, epoch, Some(enrollment_id), create_agent)
}

/// Decides what an earlier registration entitles to: the same agent may register anew, one epoch later.
pub fn renew(
    previous: &Option<RegistrationRow>,
    epoch: u64,
    presented_digest: &[u8],
    request: &RegisterAgent,
) -> (result: Result<RegistrationAuthority, StoreError>)
    ensures
        result == renewed(*previous, epoch, presented_digest@, *request),
{
    let previous = match previous {
        Some(previous) => previous,
        None => {
            return Err(StoreError::CredentialRejected);
        },
    };
    if previous.agent_id != request.agent_id {
        return Err(StoreError::CredentialRejected);
    }
    let stored_epoch: i64 = number(epoch, StoreOperation::RegisterAgent)?;
    if previous.epoch != stored_epoch || previous.revoked || previous.expires_at <= request.registered_at {
        return Err(StoreError::CredentialRejected);
    }
    if previous.credential_hash.len() != DIGEST_LENGTH {
        return Err(StoreError::Unavailable);
    }
    if !same_bytes(previous.credential_hash.as_slice(), presented_digest) || !same_text(
        previous.agent_name.as_str(),
        request.agent_name.as_str(),
    ) || !column_holds(&previous.platform_operating_system, request.platform.operating_system.as_str())
        || !column_holds(&previous.platform_architecture, request.platform.architecture.as_str()) {
        return Err(StoreError::CredentialRejected);
    }
    authority(previous.pool_id, previous.pool_version, epoch + 1, None, false)
}

/// An agent's epochs only grow: whichever way it registers anew, its new epoch is past the one it had.
pub proof fn epochs_grow(
    enrollment_id: u128,
    enrollment: EnrollmentRow,
    agent: AgentRow,
    previous: RegistrationRow,
    epoch: u64,
    presented_digest: Seq<u8>,
    request: RegisterAgent,
)
    ensures
        enrolled(enrollment_id, Some(enrollment), Some(agent), presented_digest, request) matches Ok(authority)
            ==> authority.epoch > agent.greatest_epoch,
        renewed(Some(previous), epoch, presented_digest, request) matches Ok(authority) ==> authority.epoch
            > previous.epoch,
{
}

/// An enrollment credential is good for one registration, before it runs out, and for nobody who does
/// not know it.
pub proof fn enrollments_are_used_once(
    enrollment_id: u128,
    enrollment: EnrollmentRow,
    agent: Option<AgentRow>,
    presented_digest: Seq<u8>,
    request: RegisterAgent,
)
    ensures
        enrolled(enrollment_id, Some(enrollment), agent, presented_digest, request) matches Ok(authority) ==> {
            &&& !enrollment.consumed
            &&& !enrollment.revoked
            &&& request.registered_at < enrollment.expires_at
            &&& enrollment.credential_hash@ == presented_digest
            &&& authority.consumed_enrollment == Some(enrollment_id)
        },
{
}

/// The numbers of a new registration as the database holds them.
pub fn registration_numbers(authority: &RegistrationAuthority) -> (result: Result<(i64, i64), StoreError>)
    ensures
        result == (if fits_column(authority.pool_version) && fits_column(authority.epoch) {
            Ok::<(i64, i64), StoreError>((authority.pool_version as i64, authority.epoch as i64))
        } else {
            Err(out_of_range(StoreOperation::RegisterAgent))
        }),
{
    let pool_version: i64 = number(authority.pool_version, StoreOperation::RegisterAgent)?;
    let epoch: i64 = number(authority.epoch, StoreOperation::RegisterAgent)?;
    Ok((pool_version, epoch))
}

/// Checks that using up an enrollment reached it: one that was used or revoked meanwhile is rejected.
pub fn require_consumed(updated_rows: u64) -> (result: Result<(), StoreError>)
    ensures
        result == (if updated_rows == 1 {
            Ok::<(), StoreError>(())
        } else {
            Err(StoreError::CredentialRejected)
        }),
{
    if updated_rows != 1 {
        return Err(StoreError::CredentialRejected);
    }
    Ok(())
}

/// What registering did.
#[derive(Clone, Copy, Debug, PartialEq, Eq, Structural)]
pub struct AgentRegistrationOutcome {
    /// Whether this call changed anything.
    pub disposition: MutationDisposition,
    /// Credential of the registration.
    pub credential_id: u128,
    /// The agent.
    pub agent_id: u128,
    /// Epoch of the registration.
    pub registration_epoch: u64,
    /// Pool of the agent.
    pub pool_id: u128,
    /// Version of that pool.
    pub pool_version: u64,
    /// When the registration runs out.
    pub expires_at: i64,
}

/// Reports a registration that was carried out now.
pub fn outcome(request: &RegisterAgent, authority: &RegistrationAuthority) -> (outcome: AgentRegistrationOutcome)
    ensures
        outcome == (AgentRegistrationOutcome {
            disposition: MutationDisposition::Applied,
            credential_id: request.credential_id,
            agent_id: request.agent_id,
            registration_epoch: authority.epoch,
            pool_id: authority.pool_id,
            pool_version: authority.pool_version,
            expires_at: request.expires_at,
        }),
{
    AgentRegistrationOutcome {
        disposition: MutationDisposition::Applied,
        credential_id: request.credential_id,
        agent_id: request.agent_id,
        registration_epoch: authority.epoch,
        pool_id: authority.pool_id,
        pool_version: authority.pool_version,
        expires_at: request.expires_at,
    }
}

/// What an agent registers by, with what the database holds of it.
pub enum RegistrationProof {
    /// An enrollment, and the agent where it exists.
    Enrollment {
        /// The enrollment.
        credential_id: u128,
        /// Digest of the presented credential.
        presented_digest: Vec<u8>,
        /// The enrollment on record.
        enrollment: Option<EnrollmentRow>,
        /// The agent on record.
        agent: Option<AgentRow>,
    },
    /// An earlier registration.
    Registration {
        /// Its epoch.
        epoch: u64,
        /// Digest of the presented credential.
        presented_digest: Vec<u8>,
        /// The registration on record.
        previous: Option<RegistrationRow>,
    },
}

/// What a proof entitles to.
pub open spec fn entitled(presented: RegistrationProof, request: RegisterAgent) -> Result<
    RegistrationAuthority,
    StoreError,
> {
    match presented {
        RegistrationProof::Enrollment { credential_id, presented_digest, enrollment, agent } => enrolled(
            credential_id,
            enrollment,
            agent,
            presented_digest@,
            request,
        ),
        RegistrationProof::Registration { epoch, presented_digest, previous } => renewed(
            previous,
            epoch,
            presented_digest@,
            request,
        ),
    }
}

/// A registration to carry out.
#[derive(Clone, Copy, Debug, PartialEq, Eq, Structural)]
pub struct Registration {
    /// What it is entitled to.
    pub authority: RegistrationAuthority,
    /// The version of its pool, as the database holds it.
    pub pool_version: i64,
    /// Its epoch, as the database holds it.
    pub epoch: i64,
    /// What is reported.
    pub outcome: AgentRegistrationOutcome,
}

/// What registering an agent comes to: `validated` is the verdict on the request by itself.
pub open spec fn registration(
    validated: Result<(), StoreError>,
    presented: RegistrationProof,
    request: RegisterAgent,
) -> Result<Registration, StoreError> {
    match validated {
        Err(error) => Err(error),
        Ok(()) => match entitled(presented, request) {
            Err(error) => Err(error),
            Ok(authority) => if fits_column(authority.pool_version) && fits_column(authority.epoch) {
                Ok(
                    Registration {
                        authority,
                        pool_version: authority.pool_version as i64,
                        epoch: authority.epoch as i64,
                        outcome: AgentRegistrationOutcome {
                            disposition: MutationDisposition::Applied,
                            credential_id: request.credential_id,
                            agent_id: request.agent_id,
                            registration_epoch: authority.epoch,
                            pool_id: authority.pool_id,
                            pool_version: authority.pool_version,
                            expires_at: request.expires_at,
                        },
                    },
                )
            } else {
                Err(out_of_range(StoreOperation::RegisterAgent))
            },
        },
    }
}

/// Registers an agent by what it presents.
pub fn execute(validated: Result<(), StoreError>, presented: &RegistrationProof, request: &RegisterAgent) -> (result: Result<
    Registration,
    StoreError,
>)
    ensures
        result == registration(validated, *presented, *request),
{
    match validated {
        Ok(()) => {},
        Err(error) => {
            return Err(error);
        },
    }
    let entitlement = match presented {
        RegistrationProof::Enrollment { credential_id, presented_digest, enrollment, agent } => enroll(
            *credential_id,
            enrollment,
            agent,
            presented_digest.as_slice(),
            request,
        ),
        RegistrationProof::Registration { epoch, presented_digest, previous } => renew(
            previous,
            *epoch,
            presented_digest.as_slice(),
            request,
        ),
    };
    match entitlement {
        Ok(authority) => {
            let (pool_version, epoch) = registration_numbers(&authority)?;
            let outcome = outcome(request, &authority);
            Ok(Registration { authority, pool_version, epoch, outcome })
        },
        Err(error) => Err(error),
    }
}

/// Repeats a stored outcome.
pub fn replay(stored: AgentRegistrationOutcome) -> (outcome: AgentRegistrationOutcome)
    ensures
        outcome == (AgentRegistrationOutcome { disposition: MutationDisposition::Replayed, ..stored }),
{
    AgentRegistrationOutcome {
        disposition: MutationDisposition::Replayed,
        credential_id: stored.credential_id,
        agent_id: stored.agent_id,
        registration_epoch: stored.registration_epoch,
        pool_id: stored.pool_id,
        pool_version: stored.pool_version,
        expires_at: stored.expires_at,
    }
}

/// What the audit trail and the outbox are told of a registration.
pub fn facts(outcome: &AgentRegistrationOutcome) -> (facts: MutationFacts)
    ensures
        facts.actor_kind@ == "agent"@,
        facts.actor_identity matches Some(actor) && actor@ == hyphenated(outcome.agent_id),
        facts.target_identity@ == hyphenated(outcome.credential_id),
        facts.safe_metadata@ == seq![
            (Member { name: "agent_id", value: FactValue::Identity(outcome.agent_id) }),
            (Member { name: "registration_epoch", value: FactValue::Number(outcome.registration_epoch) }),
            (Member { name: "pool_id", value: FactValue::Identity(outcome.pool_id) }),
            (Member { name: "pool_version", value: FactValue::Number(outcome.pool_version) }),
            (Member { name: "expires_at", value: FactValue::Time(outcome.expires_at) }),
        ],
        facts.outbox_payload@ == seq![
            (Member { name: "agent_id", value: FactValue::Identity(outcome.agent_id) }),
            (Member { name: "registration_id", value: FactValue::Identity(outcome.credential_id) }),
            (Member { name: "registration_epoch", value: FactValue::Number(outcome.registration_epoch) }),
            (Member { name: "pool_id", value: FactValue::Identity(outcome.pool_id) }),
        ],
{
    MutationFacts {
        actor_kind: "agent",
        actor_identity: Some(identity_text(outcome.agent_id)),
        target_identity: identity_text(outcome.credential_id),
        safe_metadata: vec![
            Member { name: "agent_id", value: FactValue::Identity(outcome.agent_id) },
            Member { name: "registration_epoch", value: FactValue::Number(outcome.registration_epoch) },
            Member { name: "pool_id", value: FactValue::Identity(outcome.pool_id) },
            Member { name: "pool_version", value: FactValue::Number(outcome.pool_version) },
            Member { name: "expires_at", value: FactValue::Time(outcome.expires_at) },
        ],
        outbox_payload: vec![
            Member { name: "agent_id", value: FactValue::Identity(outcome.agent_id) },
            Member { name: "registration_id", value: FactValue::Identity(outcome.credential_id) },
            Member { name: "registration_epoch", value: FactValue::Number(outcome.registration_epoch) },
            Member { name: "pool_id", value: FactValue::Identity(outcome.pool_id) },
        ],
    }
}

/// An agent enrolls exactly with the enrollment on record, while that is neither used, revoked nor expired, on the
/// platform it was issued for, and, where it is known already, under its own name in its own pool. A new agent starts
/// in its first epoch, a known one in the next.
pub proof fn live_enrollments_are_accepted(
    enrollment_id: u128,
    enrollment: EnrollmentRow,
    agent: Option<AgentRow>,
    presented_digest: Seq<u8>,
    request: RegisterAgent,
)
    requires
        enrollment.credential_hash@.len() == 32,
        enrollment.pool_id != 0 && enrollment.pool_version > 0,
        agent matches Some(known) ==> known.greatest_epoch >= 0,
    ensures
        ({
            let platform = match (enrollment.expected_operating_system, enrollment.expected_architecture) {
                (None, None) => true,
                (Some(os), Some(architecture)) => os@ == request.platform.operating_system@ && architecture@
                    == request.platform.architecture@,
                _ => false,
            };
            let known = match agent {
                None => true,
                Some(known) => known.name@ == request.agent_name@ && known.pool_id == enrollment.pool_id
                    && known.pool_version == enrollment.pool_version && known.platform_operating_system is Some
                    && known.platform_operating_system->Some_0@ == request.platform.operating_system@
                    && known.platform_architecture is Some && known.platform_architecture->Some_0@
                    == request.platform.architecture@,
            };
            enrolled(enrollment_id, Some(enrollment), agent, presented_digest, request) == (if !enrollment.consumed
                && !enrollment.revoked && request.registered_at < enrollment.expires_at && enrollment.credential_hash@
                == presented_digest && platform && known {
                Ok::<RegistrationAuthority, StoreError>(
                    RegistrationAuthority {
                        pool_id: enrollment.pool_id,
                        pool_version: enrollment.pool_version as u64,
                        epoch: match agent {
                            None => 1,
                            Some(known) => (known.greatest_epoch + 1) as u64,
                        },
                        consumed_enrollment: Some(enrollment_id),
                        create_agent: agent is None,
                    },
                )
            } else {
                Err(StoreError::CredentialRejected)
            })
        }),
        enrolled(enrollment_id, None, agent, presented_digest, request) == Err::<RegistrationAuthority, StoreError>(
            StoreError::CredentialRejected,
        ),
{
}

/// An agent registers again exactly with its own registration of the epoch it names, while that is neither revoked nor
/// expired, under its name and on its platform. It stays in its pool, in the next epoch, and uses up no enrollment.
pub proof fn live_registrations_are_renewed(
    previous: RegistrationRow,
    epoch: u64,
    presented_digest: Seq<u8>,
    request: RegisterAgent,
)
    requires
        previous.credential_hash@.len() == 32,
        previous.pool_id != 0 && previous.pool_version > 0,
        epoch <= i64::MAX,
    ensures
        renewed(Some(previous), epoch, presented_digest, request) == (if previous.agent_id == request.agent_id
            && previous.epoch == epoch && !previous.revoked && request.registered_at < previous.expires_at
            && previous.credential_hash@ == presented_digest && previous.agent_name@ == request.agent_name@
            && previous.platform_operating_system is Some && previous.platform_operating_system->Some_0@
            == request.platform.operating_system@ && previous.platform_architecture is Some
            && previous.platform_architecture->Some_0@ == request.platform.architecture@ {
            Ok::<RegistrationAuthority, StoreError>(
                RegistrationAuthority {
                    pool_id: previous.pool_id,
                    pool_version: previous.pool_version as u64,
                    epoch: (epoch + 1) as u64,
                    consumed_enrollment: None,
                    create_agent: false,
                },
            )
        } else {
            Err(StoreError::CredentialRejected)
        }),
        renewed(None, epoch, presented_digest, request) == Err::<RegistrationAuthority, StoreError>(
            StoreError::CredentialRejected,
        ),
{
}

/// What an agent is told of its registration is what it was entitled to.
pub proof fn registrations_are_reported_as_granted(
    presented: RegistrationProof,
    request: RegisterAgent,
    registered: Registration,
)
    requires
        registration(Ok(()), presented, request) == Ok::<Registration, StoreError>(registered),
    ensures
        entitled(presented, request) == Ok::<RegistrationAuthority, StoreError>(registered.authority),
        registered.outcome.credential_id == request.credential_id && registered.outcome.agent_id == request.agent_id,
        registered.outcome.registration_epoch == registered.authority.epoch && registered.epoch
            == registered.authority.epoch,
        registered.outcome.pool_id == registered.authority.pool_id && registered.outcome.pool_version
            == registered.authority.pool_version && registered.pool_version == registered.authority.pool_version,
        registered.outcome.expires_at == request.expires_at,
        presented matches RegistrationProof::Enrollment { credential_id, presented_digest, enrollment, agent }
            ==> enrolled(credential_id, enrollment, agent, presented_digest@, request) == Ok::<
            RegistrationAuthority,
            StoreError,
        >(registered.authority),
        presented matches RegistrationProof::Registration { epoch, presented_digest, previous } ==> renewed(
            previous,
            epoch,
            presented_digest@,
            request,
        ) == Ok::<RegistrationAuthority, StoreError>(registered.authority),
{
}

/// What is stored of an enrollment or a registration and cannot be read is reported as unavailable: a digest that does
/// not have its full length, an epoch below zero, or a pool that is not named in a version.
pub proof fn damaged_registrations_are_unavailable(
    enrollment_id: u128,
    enrollment: EnrollmentRow,
    agent: Option<AgentRow>,
    previous: RegistrationRow,
    epoch: u64,
    presented_digest: Seq<u8>,
    request: RegisterAgent,
)
    ensures
        !enrollment.consumed && !enrollment.revoked && request.registered_at < enrollment.expires_at
            && enrollment.credential_hash@.len() != 32 ==> enrolled(
            enrollment_id,
            Some(enrollment),
            agent,
            presented_digest,
            request,
        ) == Err::<RegistrationAuthority, StoreError>(StoreError::Unavailable),
        previous.agent_id == request.agent_id && epoch <= i64::MAX && previous.epoch == epoch && !previous.revoked
            && request.registered_at < previous.expires_at && previous.credential_hash@.len() != 32 ==> renewed(
            Some(previous),
            epoch,
            presented_digest,
            request,
        ) == Err::<RegistrationAuthority, StoreError>(StoreError::Unavailable),
        enrolled(enrollment_id, Some(enrollment), agent, presented_digest, request) is Ok ==> enrollment.pool_id != 0
            && enrollment.pool_version > 0 && (agent is None || agent->Some_0.greatest_epoch >= 0),
        renewed(Some(previous), epoch, presented_digest, request) is Ok ==> previous.pool_id != 0
            && previous.pool_version > 0,
{
}

/// Where a pool cannot be read, nobody registers in it: that is reported as unavailable.
pub proof fn registrations_need_a_pool(
    pool_id: u128,
    pool_version: i64,
    epoch: u64,
    consumed_enrollment: Option<u128>,
    create_agent: bool,
)
    ensures
        authority_in_pool(pool_id, pool_version, epoch, consumed_enrollment, create_agent) == (if pool_id == 0
            || pool_version <= 0 {
            Err::<RegistrationAuthority, StoreError>(StoreError::Unavailable)
        } else {
            Ok(
                RegistrationAuthority {
                    pool_id,
                    pool_version: pool_version as u64,
                    epoch,
                    consumed_enrollment,
                    create_agent,
                },
            )
        }),
{
}

/// A registration is reported as it was made: as new, for the agent and the credential that were presented, in the pool
/// and with the epoch it was granted, and until the time that was asked for.
pub proof fn registrations_are_reported_as_made(presented: RegistrationProof, request: RegisterAgent, made: Registration)
    requires
        registration(Ok(()), presented, request) == Ok::<Registration, StoreError>(made),
    ensures
        made.outcome.disposition == MutationDisposition::Applied,
        made.outcome.credential_id == request.credential_id && made.outcome.agent_id == request.agent_id,
        made.outcome.registration_epoch == made.authority.epoch && made.epoch == made.authority.epoch,
        made.outcome.pool_id == made.authority.pool_id,
        made.outcome.pool_version == made.authority.pool_version && made.pool_version == made.authority.pool_version,
        made.outcome.expires_at == request.expires_at,
{
}

} // verus!
