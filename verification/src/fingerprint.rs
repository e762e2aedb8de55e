//! What requests are recognised by: the members, in their order, that are hashed to tell a repeated request
//! from another one under the same key.

use vstd::prelude::*;

use crate::domain::EntityKind;
use crate::mutation::{target_kind_of, FactValue, Member, MutationKind};

verus! {

/// What a request to create a project is recognised by.
pub fn create_project(parent_id: Option<u128>, name: String) -> (members: Vec<Member>)
    ensures
        members@ == seq![
            (Member { name: "parent_id", value: FactValue::OptionalIdentity(parent_id) }),
            (Member { name: "name", value: FactValue::Text(name) }),
        ],
{
    vec![
        Member { name: "parent_id", value: FactValue::OptionalIdentity(parent_id) },
        Member { name: "name", value: FactValue::Text(name) },
    ]
}

/// What a request to rename a project is recognised by.
pub fn rename_project(id: u128, expected_version: u64, name: String) -> (members: Vec<Member>)
    ensures
        members@ == seq![
            (Member { name: "id", value: FactValue::Identity(id) }),
            (Member { name: "expected_version", value: FactValue::Number(expected_version) }),
            (Member { name: "name", value: FactValue::Text(name) }),
        ],
{
    vec![
        Member { name: "id", value: FactValue::Identity(id) },
        Member { name: "expected_version", value: FactValue::Number(expected_version) },
        Member { name: "name", value: FactValue::Text(name) },
    ]
}

/// What a request to move a project is recognised by.
pub fn move_project(id: u128, expected_version: u64, parent_id: Option<u128>) -> (members: Vec<Member>)
    ensures
        members@ == seq![
            (Member { name: "id", value: FactValue::Identity(id) }),
            (Member { name: "expected_version", value: FactValue::Number(expected_version) }),
            (Member { name: "parent_id", value: FactValue::OptionalIdentity(parent_id) }),
        ],
{
    vec![
        Member { name: "id", value: FactValue::Identity(id) },
        Member { name: "expected_version", value: FactValue::Number(expected_version) },
        Member { name: "parent_id", value: FactValue::OptionalIdentity(parent_id) },
    ]
}

/// What a request to delete a project is recognised by.
pub fn delete_project(id: u128, expected_version: u64) -> (members: Vec<Member>)
    ensures
        members@ == seq![
            (Member { name: "id", value: FactValue::Identity(id) }),
            (Member { name: "expected_version", value: FactValue::Number(expected_version) }),
        ],
{
    vec![
        Member { name: "id", value: FactValue::Identity(id) },
        Member { name: "expected_version", value: FactValue::Number(expected_version) },
    ]
}

/// What a request to publish a policy is recognised by.
pub fn publish_policy(
    project_id: u128,
    expected_current_version: Option<u64>,
    policy: String,
) -> (members: Vec<Member>)
    ensures
        members@ == seq![
            (Member { name: "project_id", value: FactValue::Identity(project_id) }),
            (Member { name: "expected_current_version", value: FactValue::OptionalNumber(expected_current_version) }),
            (Member { name: "policy", value: FactValue::Document(policy) }),
        ],
{
    vec![
        Member { name: "project_id", value: FactValue::Identity(project_id) },
        Member { name: "expected_current_version", value: FactValue::OptionalNumber(expected_current_version) },
        Member { name: "policy", value: FactValue::Document(policy) },
    ]
}

/// What a request to create a pool is recognised by.
pub fn create_pool(name: String, definition: String) -> (members: Vec<Member>)
    ensures
        members@ == seq![
            (Member { name: "name", value: FactValue::Text(name) }),
            (Member { name: "definition", value: FactValue::Document(definition) }),
        ],
{
    vec![
        Member { name: "name", value: FactValue::Text(name) },
        Member { name: "definition", value: FactValue::Document(definition) },
    ]
}

/// What a request to publish a version of a pool, a repository or a build configuration is recognised by.
pub fn publish_version(id: u128, expected_current_version: u64, definition: String) -> (members: Vec<Member>)
    ensures
        members@ == seq![
            (Member { name: "id", value: FactValue::Identity(id) }),
            (Member { name: "expected_current_version", value: FactValue::Number(expected_current_version) }),
            (Member { name: "definition", value: FactValue::Document(definition) }),
        ],
{
    vec![
        Member { name: "id", value: FactValue::Identity(id) },
        Member { name: "expected_current_version", value: FactValue::Number(expected_current_version) },
        Member { name: "definition", value: FactValue::Document(definition) },
    ]
}

/// What a request to delete a pool is recognised by.
pub fn delete_pool(id: u128, expected_current_version: u64) -> (members: Vec<Member>)
    ensures
        members@ == seq![
            (Member { name: "id", value: FactValue::Identity(id) }),
            (Member { name: "expected_current_version", value: FactValue::Number(expected_current_version) }),
        ],
{
    vec![
        Member { name: "id", value: FactValue::Identity(id) },
        Member { name: "expected_current_version", value: FactValue::Number(expected_current_version) },
    ]
}

/// What a request to move an agent to another pool is recognised by.
pub fn reassign_agent(agent_id: u128, expected_version: u64, target_pool_id: u128) -> (members: Vec<Member>)
    ensures
        members@ == seq![
            (Member { name: "agent_id", value: FactValue::Identity(agent_id) }),
            (Member { name: "expected_version", value: FactValue::Number(expected_version) }),
            (Member { name: "target_pool_id", value: FactValue::Identity(target_pool_id) }),
        ],
{
    vec![
        Member { name: "agent_id", value: FactValue::Identity(agent_id) },
        Member { name: "expected_version", value: FactValue::Number(expected_version) },
        Member { name: "target_pool_id", value: FactValue::Identity(target_pool_id) },
    ]
}

/// What a request to drain an agent is recognised by.
pub fn drain_agent(agent_id: u128, expected_version: u64, mode: &'static str) -> (members: Vec<Member>)
    ensures
        members@ == seq![
            (Member { name: "agent_id", value: FactValue::Identity(agent_id) }),
            (Member { name: "expected_version", value: FactValue::Number(expected_version) }),
            (Member { name: "mode", value: FactValue::Word(mode) }),
        ],
{
    vec![
        Member { name: "agent_id", value: FactValue::Identity(agent_id) },
        Member { name: "expected_version", value: FactValue::Number(expected_version) },
        Member { name: "mode", value: FactValue::Word(mode) },
    ]
}

/// What a request to create a pipeline is recognised by.
pub fn create_pipeline(id: u128, project_id: u128, name: String, dag: String) -> (members: Vec<Member>)
    ensures
        members@ == seq![
            (Member { name: "id", value: FactValue::Identity(id) }),
            (Member { name: "project_id", value: FactValue::Identity(project_id) }),
            (Member { name: "name", value: FactValue::Text(name) }),
            (Member { name: "dag", value: FactValue::Document(dag) }),
        ],
{
    vec![
        Member { name: "id", value: FactValue::Identity(id) },
        Member { name: "project_id", value: FactValue::Identity(project_id) },
        Member { name: "name", value: FactValue::Text(name) },
        Member { name: "dag", value: FactValue::Document(dag) },
    ]
}

/// What a request to publish a version of a pipeline is recognised by.
pub fn publish_pipeline(id: u128, expected_current_version: u64, dag: String) -> (members: Vec<Member>)
    ensures
        members@ == seq![
            (Member { name: "id", value: FactValue::Identity(id) }),
            (Member { name: "expected_current_version", value: FactValue::Number(expected_current_version) }),
            (Member { name: "dag", value: FactValue::Document(dag) }),
        ],
{
    vec![
        Member { name: "id", value: FactValue::Identity(id) },
        Member { name: "expected_current_version", value: FactValue::Number(expected_current_version) },
        Member { name: "dag", value: FactValue::Document(dag) },
    ]
}

/// What a request to create a repository is recognised by. Its identity is none of it.
pub fn create_repository(project_id: u128, name: String, definition: String) -> (members: Vec<Member>)
    ensures
        members@ == seq![
            (Member { name: "project_id", value: FactValue::Identity(project_id) }),
            (Member { name: "name", value: FactValue::Text(name) }),
            (Member { name: "definition", value: FactValue::Document(definition) }),
        ],
{
    vec![
        Member { name: "project_id", value: FactValue::Identity(project_id) },
        Member { name: "name", value: FactValue::Text(name) },
        Member { name: "definition", value: FactValue::Document(definition) },
    ]
}

/// What a request to create a build configuration is recognised by.
pub fn create_configuration(id: u128, project_id: u128, name: String, definition: String) -> (members: Vec<Member>)
    ensures
        members@ == seq![
            (Member { name: "id", value: FactValue::Identity(id) }),
            (Member { name: "project_id", value: FactValue::Identity(project_id) }),
            (Member { name: "name", value: FactValue::Text(name) }),
            (Member { name: "definition", value: FactValue::Document(definition) }),
        ],
{
    vec![
        Member { name: "id", value: FactValue::Identity(id) },
        Member { name: "project_id", value: FactValue::Identity(project_id) },
        Member { name: "name", value: FactValue::Text(name) },
        Member { name: "definition", value: FactValue::Document(definition) },
    ]
}

/// What a request to create a trigger is recognised by. Its identity is none of it.
pub fn create_trigger(
    version: u64,
    configuration_id: u128,
    configuration_version: u64,
    kind: &'static str,
    enabled: bool,
    definition: String,
) -> (members: Vec<Member>)
    ensures
        members@ == seq![
            (Member { name: "version", value: FactValue::Number(version) }),
            (Member { name: "configuration_id", value: FactValue::Identity(configuration_id) }),
            (Member { name: "configuration_version", value: FactValue::Number(configuration_version) }),
            (Member { name: "kind", value: FactValue::Word(kind) }),
            (Member { name: "enabled", value: FactValue::Flag(enabled) }),
            (Member { name: "definition", value: FactValue::Document(definition) }),
        ],
{
    vec![
        Member { name: "version", value: FactValue::Number(version) },
        Member { name: "configuration_id", value: FactValue::Identity(configuration_id) },
        Member { name: "configuration_version", value: FactValue::Number(configuration_version) },
        Member { name: "kind", value: FactValue::Word(kind) },
        Member { name: "enabled", value: FactValue::Flag(enabled) },
        Member { name: "definition", value: FactValue::Document(definition) },
    ]
}

/// What a request to publish a version of a trigger is recognised by; `target` is what it builds.
pub fn publish_internal_trigger(
    id: u128,
    expected_current_version: u64,
    target: String,
    enabled: bool,
    definition: String,
) -> (members: Vec<Member>)
    ensures
        members@ == seq![
            (Member { name: "id", value: FactValue::Identity(id) }),
            (Member { name: "expected_current_version", value: FactValue::Number(expected_current_version) }),
            (Member { name: "target", value: FactValue::Document(target) }),
            (Member { name: "enabled", value: FactValue::Flag(enabled) }),
            (Member { name: "definition", value: FactValue::Document(definition) }),
        ],
{
    vec![
        Member { name: "id", value: FactValue::Identity(id) },
        Member { name: "expected_current_version", value: FactValue::Number(expected_current_version) },
        Member { name: "target", value: FactValue::Document(target) },
        Member { name: "enabled", value: FactValue::Flag(enabled) },
        Member { name: "definition", value: FactValue::Document(definition) },
    ]
}

/// What a request to create an integration is recognised by. Neither its identity nor that of its trigger is
/// part of it.
pub fn create_webhook(
    trigger_version: u64,
    configuration_id: u128,
    configuration_version: u64,
    enabled: bool,
    definition: String,
) -> (members: Vec<Member>)
    ensures
        members@ == seq![
            (Member { name: "trigger_version", value: FactValue::Number(trigger_version) }),
            (Member { name: "configuration_id", value: FactValue::Identity(configuration_id) }),
            (Member { name: "configuration_version", value: FactValue::Number(configuration_version) }),
            (Member { name: "enabled", value: FactValue::Flag(enabled) }),
            (Member { name: "definition", value: FactValue::Document(definition) }),
        ],
{
    vec![
        Member { name: "trigger_version", value: FactValue::Number(trigger_version) },
        Member { name: "configuration_id", value: FactValue::Identity(configuration_id) },
        Member { name: "configuration_version", value: FactValue::Number(configuration_version) },
        Member { name: "enabled", value: FactValue::Flag(enabled) },
        Member { name: "definition", value: FactValue::Document(definition) },
    ]
}

/// What a request to record a registration is recognised by.
pub fn record_registration(integration_id: u128, registration: String) -> (members: Vec<Member>)
    ensures
        members@ == seq![
            (Member { name: "integration_id", value: FactValue::Identity(integration_id) }),
            (Member { name: "registration", value: FactValue::Document(registration) }),
        ],
{
    vec![
        Member { name: "integration_id", value: FactValue::Identity(integration_id) },
        Member { name: "registration", value: FactValue::Document(registration) },
    ]
}

/// What a request to create a trigger with a schedule is recognised by. Its identity is none of it.
pub fn create_schedule(
    version: u64,
    configuration_id: u128,
    configuration_version: u64,
    enabled: bool,
    definition: String,
    schedule: String,
) -> (members: Vec<Member>)
    ensures
        members@ == seq![
            (Member { name: "version", value: FactValue::Number(version) }),
            (Member { name: "configuration_id", value: FactValue::Identity(configuration_id) }),
            (Member { name: "configuration_version", value: FactValue::Number(configuration_version) }),
            (Member { name: "enabled", value: FactValue::Flag(enabled) }),
            (Member { name: "definition", value: FactValue::Document(definition) }),
            (Member { name: "schedule", value: FactValue::Document(schedule) }),
        ],
{
    vec![
        Member { name: "version", value: FactValue::Number(version) },
        Member { name: "configuration_id", value: FactValue::Identity(configuration_id) },
        Member { name: "configuration_version", value: FactValue::Number(configuration_version) },
        Member { name: "enabled", value: FactValue::Flag(enabled) },
        Member { name: "definition", value: FactValue::Document(definition) },
        Member { name: "schedule", value: FactValue::Document(schedule) },
    ]
}

/// What a request to claim a job is recognised by; `fence` is the secret it presents, and `snapshot` the state
/// of its host.
pub fn claim_job(
    agent_id: u128,
    fence: String,
    lease_id: u128,
    pool_id: u128,
    registration_epoch: u64,
    snapshot: String,
) -> (members: Vec<Member>)
    ensures
        members@ == seq![
            (Member { name: "agent_id", value: FactValue::Identity(agent_id) }),
            (Member { name: "fence", value: FactValue::Text(fence) }),
            (Member { name: "lease_id", value: FactValue::Identity(lease_id) }),
            (Member { name: "pool_id", value: FactValue::Identity(pool_id) }),
            (Member { name: "registration_epoch", value: FactValue::Number(registration_epoch) }),
            (Member { name: "snapshot", value: FactValue::Document(snapshot) }),
        ],
{
    vec![
        Member { name: "agent_id", value: FactValue::Identity(agent_id) },
        Member { name: "fence", value: FactValue::Text(fence) },
        Member { name: "lease_id", value: FactValue::Identity(lease_id) },
        Member { name: "pool_id", value: FactValue::Identity(pool_id) },
        Member { name: "registration_epoch", value: FactValue::Number(registration_epoch) },
        Member { name: "snapshot", value: FactValue::Document(snapshot) },
    ]
}

/// What a request to renew a lease is recognised by; `fence` is the secret it presents. When it is renewed and
/// until when is none of it.
pub fn renew_lease(
    agent_id: u128,
    attempt: u64,
    fence: String,
    job_id: u128,
    lease_id: u128,
    registration_epoch: u64,
) -> (members: Vec<Member>)
    ensures
        members@ == seq![
            (Member { name: "agent_id", value: FactValue::Identity(agent_id) }),
            (Member { name: "attempt", value: FactValue::Number(attempt) }),
            (Member { name: "fence", value: FactValue::Text(fence) }),
            (Member { name: "job_id", value: FactValue::Identity(job_id) }),
            (Member { name: "lease_id", value: FactValue::Identity(lease_id) }),
            (Member { name: "registration_epoch", value: FactValue::Number(registration_epoch) }),
        ],
{
    vec![
        Member { name: "agent_id", value: FactValue::Identity(agent_id) },
        Member { name: "attempt", value: FactValue::Number(attempt) },
        Member { name: "fence", value: FactValue::Text(fence) },
        Member { name: "job_id", value: FactValue::Identity(job_id) },
        Member { name: "lease_id", value: FactValue::Identity(lease_id) },
        Member { name: "registration_epoch", value: FactValue::Number(registration_epoch) },
    ]
}

/// What a request to recover an expired lease is recognised by.
pub fn recover_lease(lease_id: u128, job_id: u128) -> (members: Vec<Member>)
    ensures
        members@ == seq![
            (Member { name: "lease_id", value: FactValue::Identity(lease_id) }),
            (Member { name: "job_id", value: FactValue::Identity(job_id) }),
        ],
{
    vec![
        Member { name: "lease_id", value: FactValue::Identity(lease_id) },
        Member { name: "job_id", value: FactValue::Identity(job_id) },
    ]
}

/// What a request to complete a job is recognised by; `fence` is the secret it presents. When it is completed
/// is none of it.
pub fn complete_job(
    agent_id: u128,
    failure_class: Option<&'static str>,
    fence: String,
    final_sequence: Option<u64>,
    kind: &'static str,
    lease_id: u128,
    registration_epoch: u64,
) -> (members: Vec<Member>)
    ensures
        members@ == seq![
            (Member { name: "agent_id", value: FactValue::Identity(agent_id) }),
            (Member { name: "failure_class", value: FactValue::OptionalWord(failure_class) }),
            (Member { name: "fence", value: FactValue::Text(fence) }),
            (Member { name: "final_sequence", value: FactValue::OptionalNumber(final_sequence) }),
            (Member { name: "kind", value: FactValue::Word(kind) }),
            (Member { name: "lease_id", value: FactValue::Identity(lease_id) }),
            (Member { name: "registration_epoch", value: FactValue::Number(registration_epoch) }),
        ],
{
    vec![
        Member { name: "agent_id", value: FactValue::Identity(agent_id) },
        Member { name: "failure_class", value: FactValue::OptionalWord(failure_class) },
        Member { name: "fence", value: FactValue::Text(fence) },
        Member { name: "final_sequence", value: FactValue::OptionalNumber(final_sequence) },
        Member { name: "kind", value: FactValue::Word(kind) },
        Member { name: "lease_id", value: FactValue::Identity(lease_id) },
        Member { name: "registration_epoch", value: FactValue::Number(registration_epoch) },
    ]
}

/// What a request to append events is recognised by; `fence` is the secret it presents, and `events` and
/// `log_chunks` are what is appended.
pub fn append_events(
    agent_id: u128,
    events: String,
    fence: String,
    lease_id: u128,
    log_chunks: String,
    registration_epoch: u64,
) -> (members: Vec<Member>)
    ensures
        members@ == seq![
            (Member { name: "agent_id", value: FactValue::Identity(agent_id) }),
            (Member { name: "events", value: FactValue::Document(events) }),
            (Member { name: "fence", value: FactValue::Text(fence) }),
            (Member { name: "lease_id", value: FactValue::Identity(lease_id) }),
            (Member { name: "log_chunks", value: FactValue::Document(log_chunks) }),
            (Member { name: "registration_epoch", value: FactValue::Number(registration_epoch) }),
        ],
{
    vec![
        Member { name: "agent_id", value: FactValue::Identity(agent_id) },
        Member { name: "events", value: FactValue::Document(events) },
        Member { name: "fence", value: FactValue::Text(fence) },
        Member { name: "lease_id", value: FactValue::Identity(lease_id) },
        Member { name: "log_chunks", value: FactValue::Document(log_chunks) },
        Member { name: "registration_epoch", value: FactValue::Number(registration_epoch) },
    ]
}

/// What a request to retry a build is recognised by. When it is made is none of it.
pub fn retry_build(build_id: u128, attempt_id: u128, attempt_number: u64, jobs: String) -> (members: Vec<Member>)
    ensures
        members@ == seq![
            (Member { name: "build_id", value: FactValue::Identity(build_id) }),
            (Member { name: "attempt_id", value: FactValue::Identity(attempt_id) }),
            (Member { name: "attempt_number", value: FactValue::Number(attempt_number) }),
            (Member { name: "jobs", value: FactValue::Document(jobs) }),
        ],
{
    vec![
        Member { name: "build_id", value: FactValue::Identity(build_id) },
        Member { name: "attempt_id", value: FactValue::Identity(attempt_id) },
        Member { name: "attempt_number", value: FactValue::Number(attempt_number) },
        Member { name: "jobs", value: FactValue::Document(jobs) },
    ]
}

/// What a request to issue an enrollment credential is recognised by. The credential itself is none of it, only
/// its digest.
pub fn issue_enrollment(
    credential_hash: Vec<u8>,
    pool_id: u128,
    pool_version: u64,
    expected_platform: String,
    expires_at: i64,
) -> (members: Vec<Member>)
    ensures
        members@ == seq![
            (Member { name: "credential_hash", value: FactValue::Bytes(credential_hash) }),
            (Member { name: "pool_id", value: FactValue::Identity(pool_id) }),
            (Member { name: "pool_version", value: FactValue::Number(pool_version) }),
            (Member { name: "expected_platform", value: FactValue::Document(expected_platform) }),
            (Member { name: "expires_at", value: FactValue::Time(expires_at) }),
        ],
{
    vec![
        Member { name: "credential_hash", value: FactValue::Bytes(credential_hash) },
        Member { name: "pool_id", value: FactValue::Identity(pool_id) },
        Member { name: "pool_version", value: FactValue::Number(pool_version) },
        Member { name: "expected_platform", value: FactValue::Document(expected_platform) },
        Member { name: "expires_at", value: FactValue::Time(expires_at) },
    ]
}

/// What a request to register an agent is recognised by; `proof` is what entitles it to. The credential itself
/// is none of it, only its digest.
pub fn register_agent(
    credential_hash: Vec<u8>,
    agent_id: u128,
    agent_name: String,
    proof: String,
    platform: String,
    inventory: String,
    expires_at: i64,
) -> (members: Vec<Member>)
    ensures
        members@ == seq![
            (Member { name: "credential_hash", value: FactValue::Bytes(credential_hash) }),
            (Member { name: "agent_id", value: FactValue::Identity(agent_id) }),
            (Member { name: "agent_name", value: FactValue::Text(agent_name) }),
            (Member { name: "proof", value: FactValue::Document(proof) }),
            (Member { name: "platform", value: FactValue::Document(platform) }),
            (Member { name: "inventory", value: FactValue::Document(inventory) }),
            (Member { name: "expires_at", value: FactValue::Time(expires_at) }),
        ],
{
    vec![
        Member { name: "credential_hash", value: FactValue::Bytes(credential_hash) },
        Member { name: "agent_id", value: FactValue::Identity(agent_id) },
        Member { name: "agent_name", value: FactValue::Text(agent_name) },
        Member { name: "proof", value: FactValue::Document(proof) },
        Member { name: "platform", value: FactValue::Document(platform) },
        Member { name: "inventory", value: FactValue::Document(inventory) },
        Member { name: "expires_at", value: FactValue::Time(expires_at) },
    ]
}

/// What a request to cancel a build is recognised by.
pub fn cancel_build(build_id: u128) -> (members: Vec<Member>)
    ensures
        members@ == seq![
            (Member { name: "build_id", value: FactValue::Identity(build_id) }),
        ],
{
    vec![
        Member { name: "build_id", value: FactValue::Identity(build_id) },
    ]
}

/// What a request to revoke a credential is recognised by.
pub fn revoke_credential(target_identity: String) -> (members: Vec<Member>)
    ensures
        members@ == seq![
            (Member { name: "target_identity", value: FactValue::Text(target_identity) }),
        ],
{
    vec![
        Member { name: "target_identity", value: FactValue::Text(target_identity) },
    ]
}

/// What a request to place a hold is recognised by. When it is placed is none of it.
pub fn place_hold(
    build_id: u128,
    reason: String,
    expires_at: Option<i64>,
    actor_identity: Option<String>,
) -> (members: Vec<Member>)
    ensures
        members@ == seq![
            (Member { name: "build_id", value: FactValue::Identity(build_id) }),
            (Member { name: "reason", value: FactValue::Text(reason) }),
            (Member { name: "expires_at", value: FactValue::OptionalTime(expires_at) }),
            (Member { name: "actor_identity", value: FactValue::OptionalText(actor_identity) }),
        ],
{
    vec![
        Member { name: "build_id", value: FactValue::Identity(build_id) },
        Member { name: "reason", value: FactValue::Text(reason) },
        Member { name: "expires_at", value: FactValue::OptionalTime(expires_at) },
        Member { name: "actor_identity", value: FactValue::OptionalText(actor_identity) },
    ]
}

/// What a request to release a hold is recognised by. When it is released is none of it.
pub fn release_hold(build_id: u128, expected_version: u64, actor_identity: Option<String>) -> (members: Vec<Member>)
    ensures
        members@ == seq![
            (Member { name: "build_id", value: FactValue::Identity(build_id) }),
            (Member { name: "expected_version", value: FactValue::Number(expected_version) }),
            (Member { name: "actor_identity", value: FactValue::OptionalText(actor_identity) }),
        ],
{
    vec![
        Member { name: "build_id", value: FactValue::Identity(build_id) },
        Member { name: "expected_version", value: FactValue::Number(expected_version) },
        Member { name: "actor_identity", value: FactValue::OptionalText(actor_identity) },
    ]
}

/// The entity that is reported where the key of a request was used for another one.
pub open spec fn contested_entity(kind: MutationKind) -> EntityKind {
    match kind {
        MutationKind::CreateProject
        | MutationKind::RenameProject
        | MutationKind::MoveProject
        | MutationKind::DeleteProject
        | MutationKind::PublishProjectPolicy => EntityKind::Project,
        MutationKind::CreateAgentPool
        | MutationKind::PublishAgentPoolVersion
        | MutationKind::DeleteAgentPool => EntityKind::Pool,
        MutationKind::ReassignAgentPool
        | MutationKind::DrainAgent => EntityKind::Agent,
        MutationKind::CreatePipeline
        | MutationKind::PublishPipelineVersion => EntityKind::Pipeline,
        MutationKind::CreateRepository
        | MutationKind::PublishRepositoryVersion => EntityKind::Repository,
        MutationKind::CreateBuildConfiguration
        | MutationKind::PublishBuildConfigurationVersion => EntityKind::Configuration,
        MutationKind::CreateTriggerDefinition
        | MutationKind::PublishInternalTriggerVersion
        | MutationKind::CreateSchedule
        | MutationKind::AcceptTrigger
        | MutationKind::SuppressTrigger => EntityKind::Trigger,
        MutationKind::CreateUnmanagedWebhook
        | MutationKind::CreateManagedWebhook
        | MutationKind::CompleteManagedWebhookCreate
        | MutationKind::ObserveManagedWebhook
        | MutationKind::RotateManagedWebhook
        | MutationKind::DeleteManagedWebhook => EntityKind::Integration,
        MutationKind::ClaimReadyJob
        | MutationKind::RenewLease
        | MutationKind::RecoverExpiredLease => EntityKind::Lease,
        MutationKind::AppendJobEvents
        | MutationKind::CompleteJob => EntityKind::Job,
        MutationKind::CancelBuild
        | MutationKind::RetryBuild => EntityKind::Build,
        MutationKind::IssueAgentEnrollment
        | MutationKind::RevokeAgentEnrollment => EntityKind::AgentEnrollmentCredential,
        MutationKind::RegisterAgent
        | MutationKind::RevokeAgentRegistration => EntityKind::AgentRegistration,
        MutationKind::PlaceBuildResultHold
        | MutationKind::ReleaseBuildResultHold => EntityKind::RetentionHold,
    }
}

/// The entity that is reported where the key of a request was used for another one.
pub fn conflict_entity(kind: MutationKind) -> (entity: EntityKind)
    ensures
        entity == contested_entity(kind),
{
    match kind {
        MutationKind::CreateProject
        | MutationKind::RenameProject
        | MutationKind::MoveProject
        | MutationKind::DeleteProject
        | MutationKind::PublishProjectPolicy => EntityKind::Project,
        MutationKind::CreateAgentPool
        | MutationKind::PublishAgentPoolVersion
        | MutationKind::DeleteAgentPool => EntityKind::Pool,
        MutationKind::ReassignAgentPool
        | MutationKind::DrainAgent => EntityKind::Agent,
        MutationKind::CreatePipeline
        | MutationKind::PublishPipelineVersion => EntityKind::Pipeline,
        MutationKind::CreateRepository
        | MutationKind::PublishRepositoryVersion => EntityKind::Repository,
        MutationKind::CreateBuildConfiguration
        | MutationKind::PublishBuildConfigurationVersion => EntityKind::Configuration,
        MutationKind::CreateTriggerDefinition
        | MutationKind::PublishInternalTriggerVersion
        | MutationKind::CreateSchedule
        | MutationKind::AcceptTrigger
        | MutationKind::SuppressTrigger => EntityKind::Trigger,
        MutationKind::CreateUnmanagedWebhook
        | MutationKind::CreateManagedWebhook
        | MutationKind::CompleteManagedWebhookCreate
        | MutationKind::ObserveManagedWebhook
        | MutationKind::RotateManagedWebhook
        | MutationKind::DeleteManagedWebhook => EntityKind::Integration,
        MutationKind::ClaimReadyJob
        | MutationKind::RenewLease
        | MutationKind::RecoverExpiredLease => EntityKind::Lease,
        MutationKind::AppendJobEvents
        | MutationKind::CompleteJob => EntityKind::Job,
        MutationKind::CancelBuild
        | MutationKind::RetryBuild => EntityKind::Build,
        MutationKind::IssueAgentEnrollment
        | MutationKind::RevokeAgentEnrollment => EntityKind::AgentEnrollmentCredential,
        MutationKind::RegisterAgent
        | MutationKind::RevokeAgentRegistration => EntityKind::AgentRegistration,
        MutationKind::PlaceBuildResultHold
        | MutationKind::ReleaseBuildResultHold => EntityKind::RetentionHold,
    }
}

/// Whoever repeats a request with another content contests what the request is about: what it creates or changes, or,
/// where a job is claimed or a trigger accepted, the lease or the trigger.
pub proof fn requests_contest_what_they_are_about(kind: MutationKind)
    ensures
        contested_entity(kind) == EntityKind::Project ==> target_kind_of(kind) == "project"@ || (kind
            == MutationKind::PublishProjectPolicy && target_kind_of(kind) == "project_policy"@),
        contested_entity(kind) == EntityKind::Pool ==> target_kind_of(kind) == "pool"@,
        contested_entity(kind) == EntityKind::Agent ==> target_kind_of(kind) == "agent"@,
        contested_entity(kind) == EntityKind::Pipeline ==> target_kind_of(kind) == "pipeline"@,
        contested_entity(kind) == EntityKind::Repository ==> target_kind_of(kind) == "repository"@,
        contested_entity(kind) == EntityKind::Configuration ==> target_kind_of(kind) == "build_configuration"@,
        contested_entity(kind) == EntityKind::Trigger ==> target_kind_of(kind) == "trigger"@ || (kind
            == MutationKind::AcceptTrigger && target_kind_of(kind) == "build"@),
        contested_entity(kind) == EntityKind::Integration ==> target_kind_of(kind) == "integration"@,
        contested_entity(kind) == EntityKind::Lease ==> target_kind_of(kind) == "lease"@ || (kind
            == MutationKind::ClaimReadyJob && target_kind_of(kind) == "job"@),
        contested_entity(kind) == EntityKind::Job ==> target_kind_of(kind) == "job"@,
        contested_entity(kind) == EntityKind::Build ==> target_kind_of(kind) == "build"@,
        contested_entity(kind) == EntityKind::AgentEnrollmentCredential ==> target_kind_of(kind)
            == "agent_enrollment_credential"@,
        contested_entity(kind) == EntityKind::AgentRegistration ==> target_kind_of(kind) == "agent_registration"@,
        contested_entity(kind) == EntityKind::RetentionHold ==> target_kind_of(kind) == "retention_hold"@,
        contested_entity(MutationKind::AcceptTrigger) == EntityKind::Trigger,
        contested_entity(MutationKind::ClaimReadyJob) == EntityKind::Lease,
{
}

} // verus!
