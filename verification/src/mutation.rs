//! Idempotent mutations: their kinds, their request digests, and the facts they leave behind.

use vstd::prelude::*;
use vstd::utf8::{encode_utf8_decode_utf8, is_ascii_chars_encode_utf8};

use crate::document::{string_member, string_members};
use crate::domain::{EntityKind, StoreError};
use crate::hash::{sha256, sha256_of};
use crate::identity_text::{big_endian, identity_of_bytes};
use crate::text::{append_bytes, same_bytes, same_text, utf8};

verus! {

/// Status of an outcome whose mutation has not committed.
pub const PENDING_OUTCOME: &'static str = "pending";

/// Layout version of stored outcomes.
pub const STORED_OUTCOME_SCHEMA_VERSION: u16 = 1;

/// What a mutation does.
#[derive(Clone, Copy, Debug, PartialEq, Eq, Structural)]
pub enum MutationKind {
    /// Create project.
    CreateProject,
    /// Rename project.
    RenameProject,
    /// Move project.
    MoveProject,
    /// Delete project.
    DeleteProject,
    /// Publish project policy.
    PublishProjectPolicy,
    /// Create agent pool.
    CreateAgentPool,
    /// Publish agent pool version.
    PublishAgentPoolVersion,
    /// Delete agent pool.
    DeleteAgentPool,
    /// Reassign agent pool.
    ReassignAgentPool,
    /// Drain agent.
    DrainAgent,
    /// Create pipeline.
    CreatePipeline,
    /// Publish pipeline version.
    PublishPipelineVersion,
    /// Create repository.
    CreateRepository,
    /// Publish repository version.
    PublishRepositoryVersion,
    /// Create build configuration.
    CreateBuildConfiguration,
    /// Publish build configuration version.
    PublishBuildConfigurationVersion,
    /// Create trigger definition.
    CreateTriggerDefinition,
    /// Publish internal trigger version.
    PublishInternalTriggerVersion,
    /// Create unmanaged webhook.
    CreateUnmanagedWebhook,
    /// Create managed webhook.
    CreateManagedWebhook,
    /// Complete managed webhook create.
    CompleteManagedWebhookCreate,
    /// Observe managed webhook.
    ObserveManagedWebhook,
    /// Rotate managed webhook.
    RotateManagedWebhook,
    /// Delete managed webhook.
    DeleteManagedWebhook,
    /// Create schedule.
    CreateSchedule,
    /// Accept trigger.
    AcceptTrigger,
    /// Suppress trigger.
    SuppressTrigger,
    /// Claim ready job.
    ClaimReadyJob,
    /// Renew lease.
    RenewLease,
    /// Recover expired lease.
    RecoverExpiredLease,
    /// Append job events.
    AppendJobEvents,
    /// Complete job.
    CompleteJob,
    /// Cancel build.
    CancelBuild,
    /// Retry build.
    RetryBuild,
    /// Issue agent enrollment.
    IssueAgentEnrollment,
    /// Register agent.
    RegisterAgent,
    /// Revoke agent enrollment.
    RevokeAgentEnrollment,
    /// Revoke agent registration.
    RevokeAgentRegistration,
    /// Place build result hold.
    PlaceBuildResultHold,
    /// Release build result hold.
    ReleaseBuildResultHold,
}

/// Names a mutation kind is known by.
pub struct MutationMetadata {
    /// Versioned prefix of the hashed request.
    pub digest_version: &'static str,
    /// Scope of its idempotency keys.
    pub scope: &'static str,
    /// Kind of entity it is recorded against.
    pub target_kind: &'static str,
    /// Topic under which it is announced.
    pub outbox_topic: &'static str,
}

/// The scope in which a kind keeps its idempotency keys.
pub open spec fn scope_of(kind: MutationKind) -> Seq<char> {
    match kind {
        MutationKind::CreateProject => "create-project"@,
        MutationKind::RenameProject => "rename-project"@,
        MutationKind::MoveProject => "move-project"@,
        MutationKind::DeleteProject => "delete-project"@,
        MutationKind::PublishProjectPolicy => "publish-project-policy"@,
        MutationKind::CreateAgentPool => "create-agent-pool"@,
        MutationKind::PublishAgentPoolVersion => "publish-agent-pool-version"@,
        MutationKind::DeleteAgentPool => "delete-agent-pool"@,
        MutationKind::ReassignAgentPool => "reassign-agent-pool"@,
        MutationKind::DrainAgent => "drain-agent"@,
        MutationKind::CreatePipeline => "create-pipeline"@,
        MutationKind::PublishPipelineVersion => "publish-pipeline-version"@,
        MutationKind::CreateRepository => "create-repository"@,
        MutationKind::PublishRepositoryVersion => "publish-repository-version"@,
        MutationKind::CreateBuildConfiguration => "create-build-configuration"@,
        MutationKind::PublishBuildConfigurationVersion => "publish-build-configuration-version"@,
        MutationKind::CreateTriggerDefinition => "create-trigger-definition"@,
        MutationKind::PublishInternalTriggerVersion => "publish-internal-trigger-version"@,
        MutationKind::CreateUnmanagedWebhook => "create-unmanaged-webhook"@,
        MutationKind::CreateManagedWebhook => "create-managed-webhook"@,
        MutationKind::CompleteManagedWebhookCreate => "complete-managed-webhook-create"@,
        MutationKind::ObserveManagedWebhook => "observe-managed-webhook"@,
        MutationKind::RotateManagedWebhook => "rotate-managed-webhook"@,
        MutationKind::DeleteManagedWebhook => "delete-managed-webhook"@,
        MutationKind::CreateSchedule => "create-schedule"@,
        MutationKind::AcceptTrigger => "accept-trigger"@,
        MutationKind::SuppressTrigger => "suppress-trigger"@,
        MutationKind::ClaimReadyJob => "claim-ready-job"@,
        MutationKind::RenewLease => "renew-lease"@,
        MutationKind::RecoverExpiredLease => "recover-expired-lease"@,
        MutationKind::AppendJobEvents => "append-job-events"@,
        MutationKind::CompleteJob => "complete-job"@,
        MutationKind::CancelBuild => "cancel-build"@,
        MutationKind::RetryBuild => "retry-build"@,
        MutationKind::IssueAgentEnrollment => "issue-agent-enrollment"@,
        MutationKind::RegisterAgent => "register-agent"@,
        MutationKind::RevokeAgentEnrollment => "revoke-agent-enrollment"@,
        MutationKind::RevokeAgentRegistration => "revoke-agent-registration"@,
        MutationKind::PlaceBuildResultHold => "place-build-result-hold"@,
        MutationKind::ReleaseBuildResultHold => "release-build-result-hold"@,
    }
}

/// The kind of entity a mutation is recorded against.
pub open spec fn target_kind_of(kind: MutationKind) -> Seq<char> {
    match kind {
        MutationKind::CreateProject => "project"@,
        MutationKind::RenameProject => "project"@,
        MutationKind::MoveProject => "project"@,
        MutationKind::DeleteProject => "project"@,
        MutationKind::PublishProjectPolicy => "project_policy"@,
        MutationKind::CreateAgentPool => "pool"@,
        MutationKind::PublishAgentPoolVersion => "pool"@,
        MutationKind::DeleteAgentPool => "pool"@,
        MutationKind::ReassignAgentPool => "agent"@,
        MutationKind::DrainAgent => "agent"@,
        MutationKind::CreatePipeline => "pipeline"@,
        MutationKind::PublishPipelineVersion => "pipeline"@,
        MutationKind::CreateRepository => "repository"@,
        MutationKind::PublishRepositoryVersion => "repository"@,
        MutationKind::CreateBuildConfiguration => "build_configuration"@,
        MutationKind::PublishBuildConfigurationVersion => "build_configuration"@,
        MutationKind::CreateTriggerDefinition => "trigger"@,
        MutationKind::PublishInternalTriggerVersion => "trigger"@,
        MutationKind::CreateUnmanagedWebhook => "integration"@,
        MutationKind::CreateManagedWebhook => "integration"@,
        MutationKind::CompleteManagedWebhookCreate => "integration"@,
        MutationKind::ObserveManagedWebhook => "integration"@,
        MutationKind::RotateManagedWebhook => "integration"@,
        MutationKind::DeleteManagedWebhook => "integration"@,
        MutationKind::CreateSchedule => "trigger"@,
        MutationKind::AcceptTrigger => "build"@,
        MutationKind::SuppressTrigger => "trigger"@,
        MutationKind::ClaimReadyJob => "job"@,
        MutationKind::RenewLease => "lease"@,
        MutationKind::RecoverExpiredLease => "lease"@,
        MutationKind::AppendJobEvents => "job"@,
        MutationKind::CompleteJob => "job"@,
        MutationKind::CancelBuild => "build"@,
        MutationKind::RetryBuild => "build"@,
        MutationKind::IssueAgentEnrollment => "agent_enrollment_credential"@,
        MutationKind::RegisterAgent => "agent_registration"@,
        MutationKind::RevokeAgentEnrollment => "agent_enrollment_credential"@,
        MutationKind::RevokeAgentRegistration => "agent_registration"@,
        MutationKind::PlaceBuildResultHold => "retention_hold"@,
        MutationKind::ReleaseBuildResultHold => "retention_hold"@,
    }
}

/// The topic under which a mutation is announced.
pub open spec fn outbox_topic_of(kind: MutationKind) -> Seq<char> {
    match kind {
        MutationKind::CreateProject => "project.created"@,
        MutationKind::RenameProject => "project.renamed"@,
        MutationKind::MoveProject => "project.moved"@,
        MutationKind::DeleteProject => "project.deleted"@,
        MutationKind::PublishProjectPolicy => "project-policy.version-published"@,
        MutationKind::CreateAgentPool => "agent-pool.created"@,
        MutationKind::PublishAgentPoolVersion => "agent-pool.version-published"@,
        MutationKind::DeleteAgentPool => "agent-pool.deleted"@,
        MutationKind::ReassignAgentPool => "agent.pool-reassigned"@,
        MutationKind::DrainAgent => "agent.drain-requested"@,
        MutationKind::CreatePipeline => "pipeline.created"@,
        MutationKind::PublishPipelineVersion => "pipeline.version-published"@,
        MutationKind::CreateRepository => "repository.created"@,
        MutationKind::PublishRepositoryVersion => "repository.version-published"@,
        MutationKind::CreateBuildConfiguration => "build-configuration.created"@,
        MutationKind::PublishBuildConfigurationVersion => "build-configuration.version-published"@,
        MutationKind::CreateTriggerDefinition => "trigger.created"@,
        MutationKind::PublishInternalTriggerVersion => "internal-trigger.version-published"@,
        MutationKind::CreateUnmanagedWebhook => "webhook-integration.created"@,
        MutationKind::CreateManagedWebhook => "webhook-integration.managed-created"@,
        MutationKind::CompleteManagedWebhookCreate => "webhook-integration.registration-created"@,
        MutationKind::ObserveManagedWebhook => "webhook-integration.registration-observed"@,
        MutationKind::RotateManagedWebhook => "webhook-integration.registration-rotated"@,
        MutationKind::DeleteManagedWebhook => "webhook-integration.registration-deleted"@,
        MutationKind::CreateSchedule => "schedule.created"@,
        MutationKind::AcceptTrigger => "build.accepted"@,
        MutationKind::SuppressTrigger => "trigger.suppressed"@,
        MutationKind::ClaimReadyJob => "job.claimed"@,
        MutationKind::RenewLease => "lease.heartbeat"@,
        MutationKind::RecoverExpiredLease => "lease.expired-recovered"@,
        MutationKind::AppendJobEvents => "job.events-appended"@,
        MutationKind::CompleteJob => "job.completed"@,
        MutationKind::CancelBuild => "build.cancellation-requested"@,
        MutationKind::RetryBuild => "build.retried"@,
        MutationKind::IssueAgentEnrollment => "agent.enrollment-issued"@,
        MutationKind::RegisterAgent => "agent.registered"@,
        MutationKind::RevokeAgentEnrollment => "agent.enrollment-revoked"@,
        MutationKind::RevokeAgentRegistration => "agent.registration-revoked"@,
        MutationKind::PlaceBuildResultHold => "build-result.retention-hold-placed"@,
        MutationKind::ReleaseBuildResultHold => "build-result.retention-hold-released"@,
    }
}

/// The versioned prefix under which requests of a kind are hashed.
pub open spec fn digest_version_of(kind: MutationKind) -> Seq<char> {
    match kind {
        MutationKind::CreateProject => "octacity.create-project.v1\0"@,
        MutationKind::RenameProject => "octacity.rename-project.v1\0"@,
        MutationKind::MoveProject => "octacity.move-project.v1\0"@,
        MutationKind::DeleteProject => "octacity.delete-project.v1\0"@,
        MutationKind::PublishProjectPolicy => "octacity.publish-project-policy.v1\0"@,
        MutationKind::CreateAgentPool => "octacity.create-agent-pool.v1\0"@,
        MutationKind::PublishAgentPoolVersion => "octacity.publish-agent-pool-version.v1\0"@,
        MutationKind::DeleteAgentPool => "octacity.delete-agent-pool.v1\0"@,
        MutationKind::ReassignAgentPool => "octacity.reassign-agent-pool.v1\0"@,
        MutationKind::DrainAgent => "octacity.drain-agent.v1\0"@,
        MutationKind::CreatePipeline => "octacity.create-pipeline.v1\0"@,
        MutationKind::PublishPipelineVersion => "octacity.publish-pipeline-version.v1\0"@,
        MutationKind::CreateRepository => "octacity.create-repository.v1\0"@,
        MutationKind::PublishRepositoryVersion => "octacity.publish-repository-version.v1\0"@,
        MutationKind::CreateBuildConfiguration => "octacity.create-build-configuration.v1\0"@,
        MutationKind::PublishBuildConfigurationVersion => "octacity.publish-build-configuration-version.v1\0"@,
        MutationKind::CreateTriggerDefinition => "octacity.create-trigger-definition.v1\0"@,
        MutationKind::PublishInternalTriggerVersion => "octacity.publish-internal-trigger-version.v1\0"@,
        MutationKind::CreateUnmanagedWebhook => "octacity.create-unmanaged-webhook.v1\0"@,
        MutationKind::CreateManagedWebhook => "octacity.create-managed-webhook.v1\0"@,
        MutationKind::CompleteManagedWebhookCreate => "octacity.complete-managed-webhook-create.v1\0"@,
        MutationKind::ObserveManagedWebhook => "octacity.observe-managed-webhook.v1\0"@,
        MutationKind::RotateManagedWebhook => "octacity.rotate-managed-webhook.v1\0"@,
        MutationKind::DeleteManagedWebhook => "octacity.delete-managed-webhook.v1\0"@,
        MutationKind::CreateSchedule => "octacity.create-schedule.v1\0"@,
        MutationKind::AcceptTrigger => "octacity.accept-trigger.v2\0"@,
        MutationKind::SuppressTrigger => "octacity.suppress-trigger.v1\0"@,
        MutationKind::ClaimReadyJob => "octacity.claim-ready-job.v2\0"@,
        MutationKind::RenewLease => "octacity.renew-lease.v1\0"@,
        MutationKind::RecoverExpiredLease => "octacity.recover-expired-lease.v1\0"@,
        MutationKind::AppendJobEvents => "octacity.append-job-events.v2\0"@,
        MutationKind::CompleteJob => "octacity.complete-job.v1\0"@,
        MutationKind::CancelBuild => "octacity.cancel-build.v1\0"@,
        MutationKind::RetryBuild => "octacity.retry-build.v1\0"@,
        MutationKind::IssueAgentEnrollment => "octacity.issue-agent-enrollment.v2\0"@,
        MutationKind::RegisterAgent => "octacity.register-agent.v2\0"@,
        MutationKind::RevokeAgentEnrollment => "octacity.revoke-agent-enrollment.v1\0"@,
        MutationKind::RevokeAgentRegistration => "octacity.revoke-agent-registration.v1\0"@,
        MutationKind::PlaceBuildResultHold => "octacity.place-build-result-hold.v1\0"@,
        MutationKind::ReleaseBuildResultHold => "octacity.release-build-result-hold.v1\0"@,
    }
}

impl MutationKind {
    /// Every name of this kind.
    pub fn metadata(self) -> (metadata: MutationMetadata)
        ensures
            metadata.digest_version@ == digest_version_of(self),
            metadata.scope@ == scope_of(self),
            metadata.target_kind@ == target_kind_of(self),
            metadata.outbox_topic@ == outbox_topic_of(self),
    {
        match self {
            MutationKind::CreateProject => MutationMetadata {
                digest_version: "octacity.create-project.v1\0",
                scope: "create-project",
                target_kind: "project",
                outbox_topic: "project.created",
            },
            MutationKind::RenameProject => MutationMetadata {
                digest_version: "octacity.rename-project.v1\0",
                scope: "rename-project",
                target_kind: "project",
                outbox_topic: "project.renamed",
            },
            MutationKind::MoveProject => MutationMetadata {
                digest_version: "octacity.move-project.v1\0",
                scope: "move-project",
                target_kind: "project",
                outbox_topic: "project.moved",
            },
            MutationKind::DeleteProject => MutationMetadata {
                digest_version: "octacity.delete-project.v1\0",
                scope: "delete-project",
                target_kind: "project",
                outbox_topic: "project.deleted",
            },
            MutationKind::PublishProjectPolicy => MutationMetadata {
                digest_version: "octacity.publish-project-policy.v1\0",
                scope: "publish-project-policy",
                target_kind: "project_policy",
                outbox_topic: "project-policy.version-published",
            },
            MutationKind::CreateAgentPool => MutationMetadata {
                digest_version: "octacity.create-agent-pool.v1\0",
                scope: "create-agent-pool",
                target_kind: "pool",
                outbox_topic: "agent-pool.created",
            },
            MutationKind::PublishAgentPoolVersion => MutationMetadata {
                digest_version: "octacity.publish-agent-pool-version.v1\0",
                scope: "publish-agent-pool-version",
                target_kind: "pool",
                outbox_topic: "agent-pool.version-published",
            },
            MutationKind::DeleteAgentPool => MutationMetadata {
                digest_version: "octacity.delete-agent-pool.v1\0",
                scope: "delete-agent-pool",
                target_kind: "pool",
                outbox_topic: "agent-pool.deleted",
            },
            MutationKind::ReassignAgentPool => MutationMetadata {
                digest_version: "octacity.reassign-agent-pool.v1\0",
                scope: "reassign-agent-pool",
                target_kind: "agent",
                outbox_topic: "agent.pool-reassigned",
            },
            MutationKind::DrainAgent => MutationMetadata {
                digest_version: "octacity.drain-agent.v1\0",
                scope: "drain-agent",
                target_kind: "agent",
                outbox_topic: "agent.drain-requested",
            },
            MutationKind::CreatePipeline => MutationMetadata {
                digest_version: "octacity.create-pipeline.v1\0",
                scope: "create-pipeline",
                target_kind: "pipeline",
                outbox_topic: "pipeline.created",
            },
            MutationKind::PublishPipelineVersion => MutationMetadata {
                digest_version: "octacity.publish-pipeline-version.v1\0",
                scope: "publish-pipeline-version",
                target_kind: "pipeline",
                outbox_topic: "pipeline.version-published",
            },
            MutationKind::CreateRepository => MutationMetadata {
                digest_version: "octacity.create-repository.v1\0",
                scope: "create-repository",
                target_kind: "repository",
                outbox_topic: "repository.created",
            },
            MutationKind::PublishRepositoryVersion => MutationMetadata {
                digest_version: "octacity.publish-repository-version.v1\0",
                scope: "publish-repository-version",
                target_kind: "repository",
                outbox_topic: "repository.version-published",
            },
            MutationKind::CreateBuildConfiguration => MutationMetadata {
                digest_version: "octacity.create-build-configuration.v1\0",
                scope: "create-build-configuration",
                target_kind: "build_configuration",
                outbox_topic: "build-configuration.created",
            },
            MutationKind::PublishBuildConfigurationVersion => MutationMetadata {
                digest_version: "octacity.publish-build-configuration-version.v1\0",
                scope: "publish-build-configuration-version",
                target_kind: "build_configuration",
                outbox_topic: "build-configuration.version-published",
            },
            MutationKind::CreateTriggerDefinition => MutationMetadata {
                digest_version: "octacity.create-trigger-definition.v1\0",
                scope: "create-trigger-definition",
                target_kind: "trigger",
                outbox_topic: "trigger.created",
            },
            MutationKind::PublishInternalTriggerVersion => MutationMetadata {
                digest_version: "octacity.publish-internal-trigger-version.v1\0",
                scope: "publish-internal-trigger-version",
                target_kind: "trigger",
                outbox_topic: "internal-trigger.version-published",
            },
            MutationKind::CreateUnmanagedWebhook => MutationMetadata {
                digest_version: "octacity.create-unmanaged-webhook.v1\0",
                scope: "create-unmanaged-webhook",
                target_kind: "integration",
                outbox_topic: "webhook-integration.created",
            },
            MutationKind::CreateManagedWebhook => MutationMetadata {
                digest_version: "octacity.create-managed-webhook.v1\0",
                scope: "create-managed-webhook",
                target_kind: "integration",
                outbox_topic: "webhook-integration.managed-created",
            },
            MutationKind::CompleteManagedWebhookCreate => MutationMetadata {
                digest_version: "octacity.complete-managed-webhook-create.v1\0",
                scope: "complete-managed-webhook-create",
                target_kind: "integration",
                outbox_topic: "webhook-integration.registration-created",
            },
            MutationKind::ObserveManagedWebhook => MutationMetadata {
                digest_version: "octacity.observe-managed-webhook.v1\0",
                scope: "observe-managed-webhook",
                target_kind: "integration",
                outbox_topic: "webhook-integration.registration-observed",
            },
            MutationKind::RotateManagedWebhook => MutationMetadata {
                digest_version: "octacity.rotate-managed-webhook.v1\0",
                scope: "rotate-managed-webhook",
                target_kind: "integration",
                outbox_topic: "webhook-integration.registration-rotated",
            },
            MutationKind::DeleteManagedWebhook => MutationMetadata {
                digest_version: "octacity.delete-managed-webhook.v1\0",
                scope: "delete-managed-webhook",
                target_kind: "integration",
                outbox_topic: "webhook-integration.registration-deleted",
            },
            MutationKind::CreateSchedule => MutationMetadata {
                digest_version: "octacity.create-schedule.v1\0",
                scope: "create-schedule",
                target_kind: "trigger",
                outbox_topic: "schedule.created",
            },
            MutationKind::AcceptTrigger => MutationMetadata {
                digest_version: "octacity.accept-trigger.v2\0",
                scope: "accept-trigger",
                target_kind: "build",
                outbox_topic: "build.accepted",
            },
            MutationKind::SuppressTrigger => MutationMetadata {
                digest_version: "octacity.suppress-trigger.v1\0",
                scope: "suppress-trigger",
                target_kind: "trigger",
                outbox_topic: "trigger.suppressed",
            },
            MutationKind::ClaimReadyJob => MutationMetadata {
                digest_version: "octacity.claim-ready-job.v2\0",
                scope: "claim-ready-job",
                target_kind: "job",
                outbox_topic: "job.claimed",
            },
            MutationKind::RenewLease => MutationMetadata {
                digest_version: "octacity.renew-lease.v1\0",
                scope: "renew-lease",
                target_kind: "lease",
                outbox_topic: "lease.heartbeat",
            },
            MutationKind::RecoverExpiredLease => MutationMetadata {
                digest_version: "octacity.recover-expired-lease.v1\0",
                scope: "recover-expired-lease",
                target_kind: "lease",
                outbox_topic: "lease.expired-recovered",
            },
            MutationKind::AppendJobEvents => MutationMetadata {
                digest_version: "octacity.append-job-events.v2\0",
                scope: "append-job-events",
                target_kind: "job",
                outbox_topic: "job.events-appended",
            },
            MutationKind::CompleteJob => MutationMetadata {
                digest_version: "octacity.complete-job.v1\0",
                scope: "complete-job",
                target_kind: "job",
                outbox_topic: "job.completed",
            },
            MutationKind::CancelBuild => MutationMetadata {
                digest_version: "octacity.cancel-build.v1\0",
                scope: "cancel-build",
                target_kind: "build",
                outbox_topic: "build.cancellation-requested",
            },
            MutationKind::RetryBuild => MutationMetadata {
                digest_version: "octacity.retry-build.v1\0",
                scope: "retry-build",
                target_kind: "build",
                outbox_topic: "build.retried",
            },
            MutationKind::IssueAgentEnrollment => MutationMetadata {
                digest_version: "octacity.issue-agent-enrollment.v2\0",
                scope: "issue-agent-enrollment",
                target_kind: "agent_enrollment_credential",
                outbox_topic: "agent.enrollment-issued",
            },
            MutationKind::RegisterAgent => MutationMetadata {
                digest_version: "octacity.register-agent.v2\0",
                scope: "register-agent",
                target_kind: "agent_registration",
                outbox_topic: "agent.registered",
            },
            MutationKind::RevokeAgentEnrollment => MutationMetadata {
                digest_version: "octacity.revoke-agent-enrollment.v1\0",
                scope: "revoke-agent-enrollment",
                target_kind: "agent_enrollment_credential",
                outbox_topic: "agent.enrollment-revoked",
            },
            MutationKind::RevokeAgentRegistration => MutationMetadata {
                digest_version: "octacity.revoke-agent-registration.v1\0",
                scope: "revoke-agent-registration",
                target_kind: "agent_registration",
                outbox_topic: "agent.registration-revoked",
            },
            MutationKind::PlaceBuildResultHold => MutationMetadata {
                digest_version: "octacity.place-build-result-hold.v1\0",
                scope: "place-build-result-hold",
                target_kind: "retention_hold",
                outbox_topic: "build-result.retention-hold-placed",
            },
            MutationKind::ReleaseBuildResultHold => MutationMetadata {
                digest_version: "octacity.release-build-result-hold.v1\0",
                scope: "release-build-result-hold",
                target_kind: "retention_hold",
                outbox_topic: "build-result.retention-hold-released",
            },
        }
    }

    /// The bytes hashed before a request of this kind.
    pub fn digest_version(self) -> (bytes: &'static [u8])
        ensures
            bytes@ == utf8(digest_version_of(self)),
    {
        self.metadata().digest_version.as_bytes()
    }

    /// The scope in which this kind keeps its idempotency keys.
    pub fn scope(self) -> (scope: &'static str)
        ensures
            scope@ == scope_of(self),
    {
        self.metadata().scope
    }

    /// The kind of entity this kind is recorded against.
    pub fn target_kind(self) -> (target_kind: &'static str)
        ensures
            target_kind@ == target_kind_of(self),
    {
        self.metadata().target_kind
    }

    /// The topic under which this kind is announced.
    pub fn outbox_topic(self) -> (topic: &'static str)
        ensures
            topic@ == outbox_topic_of(self),
    {
        self.metadata().outbox_topic
    }
}

/// Two kinds never share a scope, so their idempotency keys live apart.
#[verifier::rlimit(50)]
pub proof fn scopes_name_one_kind(a: MutationKind, b: MutationKind)
    ensures
        scope_of(a) == scope_of(b) ==> a == b,
{
    reveal_strlit("create-project");
    reveal_strlit("rename-project");
    reveal_strlit("move-project");
    reveal_strlit("delete-project");
    reveal_strlit("publish-project-policy");
    reveal_strlit("create-agent-pool");
    reveal_strlit("publish-agent-pool-version");
    reveal_strlit("delete-agent-pool");
    reveal_strlit("reassign-agent-pool");
    reveal_strlit("drain-agent");
    reveal_strlit("create-pipeline");
    reveal_strlit("publish-pipeline-version");
    reveal_strlit("create-repository");
    reveal_strlit("publish-repository-version");
    reveal_strlit("create-build-configuration");
    reveal_strlit("publish-build-configuration-version");
    reveal_strlit("create-trigger-definition");
    reveal_strlit("publish-internal-trigger-version");
    reveal_strlit("create-unmanaged-webhook");
    reveal_strlit("create-managed-webhook");
    reveal_strlit("complete-managed-webhook-create");
    reveal_strlit("observe-managed-webhook");
    reveal_strlit("rotate-managed-webhook");
    reveal_strlit("delete-managed-webhook");
    reveal_strlit("create-schedule");
    reveal_strlit("accept-trigger");
    reveal_strlit("suppress-trigger");
    reveal_strlit("claim-ready-job");
    reveal_strlit("renew-lease");
    reveal_strlit("recover-expired-lease");
    reveal_strlit("append-job-events");
    reveal_strlit("complete-job");
    reveal_strlit("cancel-build");
    reveal_strlit("retry-build");
    reveal_strlit("issue-agent-enrollment");
    reveal_strlit("register-agent");
    reveal_strlit("revoke-agent-enrollment");
    reveal_strlit("revoke-agent-registration");
    reveal_strlit("place-build-result-hold");
    reveal_strlit("release-build-result-hold");
    assert("create-project"@.len() == 14);
    assert("rename-project"@.len() == 14);
    assert("move-project"@.len() == 12);
    assert("delete-project"@.len() == 14);
    assert("publish-project-policy"@.len() == 22);
    assert("create-agent-pool"@.len() == 17);
    assert("publish-agent-pool-version"@.len() == 26);
    assert("delete-agent-pool"@.len() == 17);
    assert("reassign-agent-pool"@.len() == 19);
    assert("drain-agent"@.len() == 11);
    assert("create-pipeline"@.len() == 15);
    assert("publish-pipeline-version"@.len() == 24);
    assert("create-repository"@.len() == 17);
    assert("publish-repository-version"@.len() == 26);
    assert("create-build-configuration"@.len() == 26);
    assert("publish-build-configuration-version"@.len() == 35);
    assert("create-trigger-definition"@.len() == 25);
    assert("publish-internal-trigger-version"@.len() == 32);
    assert("create-unmanaged-webhook"@.len() == 24);
    assert("create-managed-webhook"@.len() == 22);
    assert("complete-managed-webhook-create"@.len() == 31);
    assert("observe-managed-webhook"@.len() == 23);
    assert("rotate-managed-webhook"@.len() == 22);
    assert("delete-managed-webhook"@.len() == 22);
    assert("create-schedule"@.len() == 15);
    assert("accept-trigger"@.len() == 14);
    assert("suppress-trigger"@.len() == 16);
    assert("claim-ready-job"@.len() == 15);
    assert("renew-lease"@.len() == 11);
    assert("recover-expired-lease"@.len() == 21);
    assert("append-job-events"@.len() == 17);
    assert("complete-job"@.len() == 12);
    assert("cancel-build"@.len() == 12);
    assert("retry-build"@.len() == 11);
    assert("issue-agent-enrollment"@.len() == 22);
    assert("register-agent"@.len() == 14);
    assert("revoke-agent-enrollment"@.len() == 23);
    assert("revoke-agent-registration"@.len() == 25);
    assert("place-build-result-hold"@.len() == 23);
    assert("release-build-result-hold"@.len() == 25);
    assert("drain-agent"@[2] == 'a');
    assert("renew-lease"@[2] == 'n');
    assert("retry-build"@[2] == 't');
    assert("move-project"@[2] == 'v');
    assert("complete-job"@[2] == 'm');
    assert("cancel-build"@[2] == 'n');
    assert("create-project"@[2] == 'e');
    assert("rename-project"@[2] == 'n');
    assert("delete-project"@[2] == 'l');
    assert("accept-trigger"@[2] == 'c');
    assert("register-agent"@[2] == 'g');
    assert("create-pipeline"@[7] == 'p');
    assert("create-schedule"@[7] == 's');
    assert("claim-ready-job"@[7] == 'e');
    assert("create-agent-pool"@[0] == 'c');
    assert("delete-agent-pool"@[0] == 'd');
    assert("create-repository"@[0] == 'c');
    assert("append-job-events"@[0] == 'a');
    assert("create-agent-pool"@[7] == 'a');
    assert("delete-agent-pool"@[7] == 'a');
    assert("create-repository"@[7] == 'r');
    assert("append-job-events"@[7] == 'j');
    assert("publish-project-policy"@[0] == 'p');
    assert("create-managed-webhook"@[0] == 'c');
    assert("rotate-managed-webhook"@[0] == 'r');
    assert("delete-managed-webhook"@[0] == 'd');
    assert("issue-agent-enrollment"@[0] == 'i');
    assert("observe-managed-webhook"@[0] == 'o');
    assert("revoke-agent-enrollment"@[0] == 'r');
    assert("place-build-result-hold"@[0] == 'p');
    assert("publish-pipeline-version"@[0] == 'p');
    assert("create-unmanaged-webhook"@[0] == 'c');
    assert("create-trigger-definition"@[2] == 'e');
    assert("revoke-agent-registration"@[2] == 'v');
    assert("release-build-result-hold"@[2] == 'l');
    assert("publish-agent-pool-version"@[8] == 'a');
    assert("publish-repository-version"@[8] == 'r');
    assert("create-build-configuration"@[8] == 'u');
}

/// Scopes are printable ASCII without a colon.
pub proof fn scopes_are_plain(kind: MutationKind)
    ensures
        forall|i: int| 0 <= i < scope_of(kind).len() ==> ' ' < #[trigger] scope_of(kind)[i] < '\u{7f}' && scope_of(kind)[i] != ':',
{
    match kind {
        MutationKind::CreateProject => {
            reveal_strlit("create-project");
        }
        MutationKind::RenameProject => {
            reveal_strlit("rename-project");
        }
        MutationKind::MoveProject => {
            reveal_strlit("move-project");
        }
        MutationKind::DeleteProject => {
            reveal_strlit("delete-project");
        }
        MutationKind::PublishProjectPolicy => {
            reveal_strlit("publish-project-policy");
        }
        MutationKind::CreateAgentPool => {
            reveal_strlit("create-agent-pool");
        }
        MutationKind::PublishAgentPoolVersion => {
            reveal_strlit("publish-agent-pool-version");
        }
        MutationKind::DeleteAgentPool => {
            reveal_strlit("delete-agent-pool");
        }
        MutationKind::ReassignAgentPool => {
            reveal_strlit("reassign-agent-pool");
        }
        MutationKind::DrainAgent => {
            reveal_strlit("drain-agent");
        }
        MutationKind::CreatePipeline => {
            reveal_strlit("create-pipeline");
        }
        MutationKind::PublishPipelineVersion => {
            reveal_strlit("publish-pipeline-version");
        }
        MutationKind::CreateRepository => {
            reveal_strlit("create-repository");
        }
        MutationKind::PublishRepositoryVersion => {
            reveal_strlit("publish-repository-version");
        }
        MutationKind::CreateBuildConfiguration => {
            reveal_strlit("create-build-configuration");
        }
        MutationKind::PublishBuildConfigurationVersion => {
            reveal_strlit("publish-build-configuration-version");
        }
        MutationKind::CreateTriggerDefinition => {
            reveal_strlit("create-trigger-definition");
        }
        MutationKind::PublishInternalTriggerVersion => {
            reveal_strlit("publish-internal-trigger-version");
        }
        MutationKind::CreateUnmanagedWebhook => {
            reveal_strlit("create-unmanaged-webhook");
        }
        MutationKind::CreateManagedWebhook => {
            reveal_strlit("create-managed-webhook");
        }
        MutationKind::CompleteManagedWebhookCreate => {
            reveal_strlit("complete-managed-webhook-create");
        }
        MutationKind::ObserveManagedWebhook => {
            reveal_strlit("observe-managed-webhook");
        }
        MutationKind::RotateManagedWebhook => {
            reveal_strlit("rotate-managed-webhook");
        }
        MutationKind::DeleteManagedWebhook => {
            reveal_strlit("delete-managed-webhook");
        }
        MutationKind::CreateSchedule => {
            reveal_strlit("create-schedule");
        }
        MutationKind::AcceptTrigger => {
            reveal_strlit("accept-trigger");
        }
        MutationKind::SuppressTrigger => {
            reveal_strlit("suppress-trigger");
        }
        MutationKind::ClaimReadyJob => {
            reveal_strlit("claim-ready-job");
        }
        MutationKind::RenewLease => {
            reveal_strlit("renew-lease");
        }
        MutationKind::RecoverExpiredLease => {
            reveal_strlit("recover-expired-lease");
        }
        MutationKind::AppendJobEvents => {
            reveal_strlit("append-job-events");
        }
        MutationKind::CompleteJob => {
            reveal_strlit("complete-job");
        }
        MutationKind::CancelBuild => {
            reveal_strlit("cancel-build");
        }
        MutationKind::RetryBuild => {
            reveal_strlit("retry-build");
        }
        MutationKind::IssueAgentEnrollment => {
            reveal_strlit("issue-agent-enrollment");
        }
        MutationKind::RegisterAgent => {
            reveal_strlit("register-agent");
        }
        MutationKind::RevokeAgentEnrollment => {
            reveal_strlit("revoke-agent-enrollment");
        }
        MutationKind::RevokeAgentRegistration => {
            reveal_strlit("revoke-agent-registration");
        }
        MutationKind::PlaceBuildResultHold => {
            reveal_strlit("place-build-result-hold");
        }
        MutationKind::ReleaseBuildResultHold => {
            reveal_strlit("release-build-result-hold");
        }
    }
}

/// A digest version is ASCII, and its only NUL is its last character.
pub proof fn digest_versions_are_framed(kind: MutationKind)
    ensures
        digest_version_of(kind).len() > 0,
        digest_version_of(kind).last() == '\0',
        forall|i: int| 0 <= i < digest_version_of(kind).len() - 1 ==> '\0' < #[trigger] digest_version_of(kind)[i] < '\u{7f}',
{
    match kind {
        MutationKind::CreateProject => {
            reveal_strlit("octacity.create-project.v1\0");
        }
        MutationKind::RenameProject => {
            reveal_strlit("octacity.rename-project.v1\0");
        }
        MutationKind::MoveProject => {
            reveal_strlit("octacity.move-project.v1\0");
        }
        MutationKind::DeleteProject => {
            reveal_strlit("octacity.delete-project.v1\0");
        }
        MutationKind::PublishProjectPolicy => {
            reveal_strlit("octacity.publish-project-policy.v1\0");
        }
        MutationKind::CreateAgentPool => {
            reveal_strlit("octacity.create-agent-pool.v1\0");
        }
        MutationKind::PublishAgentPoolVersion => {
            reveal_strlit("octacity.publish-agent-pool-version.v1\0");
        }
        MutationKind::DeleteAgentPool => {
            reveal_strlit("octacity.delete-agent-pool.v1\0");
        }
        MutationKind::ReassignAgentPool => {
            reveal_strlit("octacity.reassign-agent-pool.v1\0");
        }
        MutationKind::DrainAgent => {
            reveal_strlit("octacity.drain-agent.v1\0");
        }
        MutationKind::CreatePipeline => {
            reveal_strlit("octacity.create-pipeline.v1\0");
        }
        MutationKind::PublishPipelineVersion => {
            reveal_strlit("octacity.publish-pipeline-version.v1\0");
        }
        MutationKind::CreateRepository => {
            reveal_strlit("octacity.create-repository.v1\0");
        }
        MutationKind::PublishRepositoryVersion => {
            reveal_strlit("octacity.publish-repository-version.v1\0");
        }
        MutationKind::CreateBuildConfiguration => {
            reveal_strlit("octacity.create-build-configuration.v1\0");
        }
        MutationKind::PublishBuildConfigurationVersion => {
            reveal_strlit("octacity.publish-build-configuration-version.v1\0");
        }
        MutationKind::CreateTriggerDefinition => {
            reveal_strlit("octacity.create-trigger-definition.v1\0");
        }
        MutationKind::PublishInternalTriggerVersion => {
            reveal_strlit("octacity.publish-internal-trigger-version.v1\0");
        }
        MutationKind::CreateUnmanagedWebhook => {
            reveal_strlit("octacity.create-unmanaged-webhook.v1\0");
        }
        MutationKind::CreateManagedWebhook => {
            reveal_strlit("octacity.create-managed-webhook.v1\0");
        }
        MutationKind::CompleteManagedWebhookCreate => {
            reveal_strlit("octacity.complete-managed-webhook-create.v1\0");
        }
        MutationKind::ObserveManagedWebhook => {
            reveal_strlit("octacity.observe-managed-webhook.v1\0");
        }
        MutationKind::RotateManagedWebhook => {
            reveal_strlit("octacity.rotate-managed-webhook.v1\0");
        }
        MutationKind::DeleteManagedWebhook => {
            reveal_strlit("octacity.delete-managed-webhook.v1\0");
        }
        MutationKind::CreateSchedule => {
            reveal_strlit("octacity.create-schedule.v1\0");
        }
        MutationKind::AcceptTrigger => {
            reveal_strlit("octacity.accept-trigger.v2\0");
        }
        MutationKind::SuppressTrigger => {
            reveal_strlit("octacity.suppress-trigger.v1\0");
        }
        MutationKind::ClaimReadyJob => {
            reveal_strlit("octacity.claim-ready-job.v2\0");
        }
        MutationKind::RenewLease => {
            reveal_strlit("octacity.renew-lease.v1\0");
        }
        MutationKind::RecoverExpiredLease => {
            reveal_strlit("octacity.recover-expired-lease.v1\0");
        }
        MutationKind::AppendJobEvents => {
            reveal_strlit("octacity.append-job-events.v2\0");
        }
        MutationKind::CompleteJob => {
            reveal_strlit("octacity.complete-job.v1\0");
        }
        MutationKind::CancelBuild => {
            reveal_strlit("octacity.cancel-build.v1\0");
        }
        MutationKind::RetryBuild => {
            reveal_strlit("octacity.retry-build.v1\0");
        }
        MutationKind::IssueAgentEnrollment => {
            reveal_strlit("octacity.issue-agent-enrollment.v2\0");
        }
        MutationKind::RegisterAgent => {
            reveal_strlit("octacity.register-agent.v2\0");
        }
        MutationKind::RevokeAgentEnrollment => {
            reveal_strlit("octacity.revoke-agent-enrollment.v1\0");
        }
        MutationKind::RevokeAgentRegistration => {
            reveal_strlit("octacity.revoke-agent-registration.v1\0");
        }
        MutationKind::PlaceBuildResultHold => {
            reveal_strlit("octacity.place-build-result-hold.v1\0");
        }
        MutationKind::ReleaseBuildResultHold => {
            reveal_strlit("octacity.release-build-result-hold.v1\0");
        }
    }
}

/// Two kinds never share a digest version.
#[verifier::rlimit(50)]
pub proof fn digest_versions_name_one_kind(a: MutationKind, b: MutationKind)
    ensures
        digest_version_of(a) == digest_version_of(b) ==> a == b,
{
    reveal_strlit("octacity.create-project.v1\0");
    reveal_strlit("octacity.rename-project.v1\0");
    reveal_strlit("octacity.move-project.v1\0");
    reveal_strlit("octacity.delete-project.v1\0");
    reveal_strlit("octacity.publish-project-policy.v1\0");
    reveal_strlit("octacity.create-agent-pool.v1\0");
    reveal_strlit("octacity.publish-agent-pool-version.v1\0");
    reveal_strlit("octacity.delete-agent-pool.v1\0");
    reveal_strlit("octacity.reassign-agent-pool.v1\0");
    reveal_strlit("octacity.drain-agent.v1\0");
    reveal_strlit("octacity.create-pipeline.v1\0");
    reveal_strlit("octacity.publish-pipeline-version.v1\0");
    reveal_strlit("octacity.create-repository.v1\0");
    reveal_strlit("octacity.publish-repository-version.v1\0");
    reveal_strlit("octacity.create-build-configuration.v1\0");
    reveal_strlit("octacity.publish-build-configuration-version.v1\0");
    reveal_strlit("octacity.create-trigger-definition.v1\0");
    reveal_strlit("octacity.publish-internal-trigger-version.v1\0");
    reveal_strlit("octacity.create-unmanaged-webhook.v1\0");
    reveal_strlit("octacity.create-managed-webhook.v1\0");
    reveal_strlit("octacity.complete-managed-webhook-create.v1\0");
    reveal_strlit("octacity.observe-managed-webhook.v1\0");
    reveal_strlit("octacity.rotate-managed-webhook.v1\0");
    reveal_strlit("octacity.delete-managed-webhook.v1\0");
    reveal_strlit("octacity.create-schedule.v1\0");
    reveal_strlit("octacity.accept-trigger.v2\0");
    reveal_strlit("octacity.suppress-trigger.v1\0");
    reveal_strlit("octacity.claim-ready-job.v2\0");
    reveal_strlit("octacity.renew-lease.v1\0");
    reveal_strlit("octacity.recover-expired-lease.v1\0");
    reveal_strlit("octacity.append-job-events.v2\0");
    reveal_strlit("octacity.complete-job.v1\0");
    reveal_strlit("octacity.cancel-build.v1\0");
    reveal_strlit("octacity.retry-build.v1\0");
    reveal_strlit("octacity.issue-agent-enrollment.v2\0");
    reveal_strlit("octacity.register-agent.v2\0");
    reveal_strlit("octacity.revoke-agent-enrollment.v1\0");
    reveal_strlit("octacity.revoke-agent-registration.v1\0");
    reveal_strlit("octacity.place-build-result-hold.v1\0");
    reveal_strlit("octacity.release-build-result-hold.v1\0");
    assert("octacity.create-project.v1\0"@.len() == 27);
    assert("octacity.rename-project.v1\0"@.len() == 27);
    assert("octacity.move-project.v1\0"@.len() == 25);
    assert("octacity.delete-project.v1\0"@.len() == 27);
    assert("octacity.publish-project-policy.v1\0"@.len() == 35);
    assert("octacity.create-agent-pool.v1\0"@.len() == 30);
    assert("octacity.publish-agent-pool-version.v1\0"@.len() == 39);
    assert("octacity.delete-agent-pool.v1\0"@.len() == 30);
    assert("octacity.reassign-agent-pool.v1\0"@.len() == 32);
    assert("octacity.drain-agent.v1\0"@.len() == 24);
    assert("octacity.create-pipeline.v1\0"@.len() == 28);
    assert("octacity.publish-pipeline-version.v1\0"@.len() == 37);
    assert("octacity.create-repository.v1\0"@.len() == 30);
    assert("octacity.publish-repository-version.v1\0"@.len() == 39);
    assert("octacity.create-build-configuration.v1\0"@.len() == 39);
    assert("octacity.publish-build-configuration-version.v1\0"@.len() == 48);
    assert("octacity.create-trigger-definition.v1\0"@.len() == 38);
    assert("octacity.publish-internal-trigger-version.v1\0"@.len() == 45);
    assert("octacity.create-unmanaged-webhook.v1\0"@.len() == 37);
    assert("octacity.create-managed-webhook.v1\0"@.len() == 35);
    assert("octacity.complete-managed-webhook-create.v1\0"@.len() == 44);
    assert("octacity.observe-managed-webhook.v1\0"@.len() == 36);
    assert("octacity.rotate-managed-webhook.v1\0"@.len() == 35);
    assert("octacity.delete-managed-webhook.v1\0"@.len() == 35);
    assert("octacity.create-schedule.v1\0"@.len() == 28);
    assert("octacity.accept-trigger.v2\0"@.len() == 27);
    assert("octacity.suppress-trigger.v1\0"@.len() == 29);
    assert("octacity.claim-ready-job.v2\0"@.len() == 28);
    assert("octacity.renew-lease.v1\0"@.len() == 24);
    assert("octacity.recover-expired-lease.v1\0"@.len() == 34);
    assert("octacity.append-job-events.v2\0"@.len() == 30);
    assert("octacity.complete-job.v1\0"@.len() == 25);
    assert("octacity.cancel-build.v1\0"@.len() == 25);
    assert("octacity.retry-build.v1\0"@.len() == 24);
    assert("octacity.issue-agent-enrollment.v2\0"@.len() == 35);
    assert("octacity.register-agent.v2\0"@.len() == 27);
    assert("octacity.revoke-agent-enrollment.v1\0"@.len() == 36);
    assert("octacity.revoke-agent-registration.v1\0"@.len() == 38);
    assert("octacity.place-build-result-hold.v1\0"@.len() == 36);
    assert("octacity.release-build-result-hold.v1\0"@.len() == 38);
    assert("octacity.drain-agent.v1\0"@[11] == 'a');
    assert("octacity.renew-lease.v1\0"@[11] == 'n');
    assert("octacity.retry-build.v1\0"@[11] == 't');
    assert("octacity.move-project.v1\0"@[11] == 'v');
    assert("octacity.complete-job.v1\0"@[11] == 'm');
    assert("octacity.cancel-build.v1\0"@[11] == 'n');
    assert("octacity.create-project.v1\0"@[11] == 'e');
    assert("octacity.rename-project.v1\0"@[11] == 'n');
    assert("octacity.delete-project.v1\0"@[11] == 'l');
    assert("octacity.accept-trigger.v2\0"@[11] == 'c');
    assert("octacity.register-agent.v2\0"@[11] == 'g');
    assert("octacity.create-pipeline.v1\0"@[16] == 'p');
    assert("octacity.create-schedule.v1\0"@[16] == 's');
    assert("octacity.claim-ready-job.v2\0"@[16] == 'e');
    assert("octacity.create-agent-pool.v1\0"@[9] == 'c');
    assert("octacity.delete-agent-pool.v1\0"@[9] == 'd');
    assert("octacity.create-repository.v1\0"@[9] == 'c');
    assert("octacity.append-job-events.v2\0"@[9] == 'a');
    assert("octacity.create-agent-pool.v1\0"@[16] == 'a');
    assert("octacity.delete-agent-pool.v1\0"@[16] == 'a');
    assert("octacity.create-repository.v1\0"@[16] == 'r');
    assert("octacity.append-job-events.v2\0"@[16] == 'j');
    assert("octacity.publish-project-policy.v1\0"@[9] == 'p');
    assert("octacity.create-managed-webhook.v1\0"@[9] == 'c');
    assert("octacity.rotate-managed-webhook.v1\0"@[9] == 'r');
    assert("octacity.delete-managed-webhook.v1\0"@[9] == 'd');
    assert("octacity.issue-agent-enrollment.v2\0"@[9] == 'i');
    assert("octacity.observe-managed-webhook.v1\0"@[9] == 'o');
    assert("octacity.revoke-agent-enrollment.v1\0"@[9] == 'r');
    assert("octacity.place-build-result-hold.v1\0"@[9] == 'p');
    assert("octacity.publish-pipeline-version.v1\0"@[9] == 'p');
    assert("octacity.create-unmanaged-webhook.v1\0"@[9] == 'c');
    assert("octacity.create-trigger-definition.v1\0"@[11] == 'e');
    assert("octacity.revoke-agent-registration.v1\0"@[11] == 'v');
    assert("octacity.release-build-result-hold.v1\0"@[11] == 'l');
    assert("octacity.publish-agent-pool-version.v1\0"@[17] == 'a');
    assert("octacity.publish-repository-version.v1\0"@[17] == 'r');
    assert("octacity.create-build-configuration.v1\0"@[17] == 'u');
}

/// The bytes that are hashed for a request.
pub open spec fn request_frame(kind: MutationKind, encoded: Seq<u8>) -> Seq<u8> {
    utf8(digest_version_of(kind)) + encoded
}

/// Requests of two kinds are never hashed over the same bytes, whatever they encode to; requests
/// of one kind are hashed over the same bytes only if they encode alike.
pub proof fn request_frames_are_separate(a: MutationKind, b: MutationKind, x: Seq<u8>, y: Seq<u8>)
    ensures
        request_frame(a, x) == request_frame(b, y) ==> a == b && x == y,
{
    if request_frame(a, x) == request_frame(b, y) {
        let p = digest_version_of(a);
        let q = digest_version_of(b);
        digest_versions_are_framed(a);
        digest_versions_are_framed(b);
        assert forall|i: int| 0 <= i < p.len() implies '\0' <= #[trigger] p[i] <= '\u{7f}' by {
            assert(i < p.len() - 1 || p[i] == p.last());
        }
        assert forall|i: int| 0 <= i < q.len() implies '\0' <= #[trigger] q[i] <= '\u{7f}' by {
            assert(i < q.len() - 1 || q[i] == q.last());
        }
        is_ascii_chars_encode_utf8(p);
        is_ascii_chars_encode_utf8(q);
        let frame = request_frame(a, x);
        assert(frame[p.len() - 1] == 0u8);
        assert(frame[q.len() - 1] == 0u8);
        if p.len() < q.len() {
            assert(frame[p.len() - 1] == utf8(q)[p.len() - 1]);
            assert(q[p.len() - 1] > '\0');
            assert(false);
        }
        if q.len() < p.len() {
            assert(frame[q.len() - 1] == utf8(p)[q.len() - 1]);
            assert(p[q.len() - 1] > '\0');
            assert(false);
        }
        assert forall|i: int| 0 <= i < p.len() implies p[i] == q[i] by {
            assert(frame[i] == utf8(p)[i]);
            assert(frame[i] == utf8(q)[i]);
            assert(p[i] as u8 == q[i] as u8);
        }
        assert(p =~= q);
        digest_versions_name_one_kind(a, b);
        assert(x =~= frame.subrange(p.len() as int, frame.len() as int));
        assert(y =~= frame.subrange(p.len() as int, frame.len() as int));
    }
}

/// Who asked for what, when, and under which key.
pub struct MutationIdentity {
    /// What is asked for.
    pub kind: MutationKind,
    /// Idempotency key within the kind's scope.
    pub key: String,
    /// Digest of the request.
    pub request_digest: [u8; 32],
    /// When it was asked, in milliseconds since the Unix epoch.
    pub occurred_at: i64,
    /// Entity reported where the key was used for another request.
    pub conflict_entity: EntityKind,
    /// Identity of the request in the audit trail.
    pub request_identity: String,
}

/// The request identity that a key stands for unless another is given.
pub open spec fn default_request_identity(kind: MutationKind, key: Seq<char>) -> Seq<char> {
    scope_of(kind) + ":"@ + key
}

/// Two default request identities agree only for the same kind and the same key.
pub proof fn default_request_identities_are_separate(a: MutationKind, x: Seq<char>, b: MutationKind, y: Seq<char>)
    ensures
        default_request_identity(a, x) == default_request_identity(b, y) ==> a == b && x == y,
{
    if default_request_identity(a, x) == default_request_identity(b, y) {
        reveal_strlit(":");
        scopes_are_plain(a);
        scopes_are_plain(b);
        let p = scope_of(a);
        let q = scope_of(b);
        let whole = default_request_identity(a, x);
        assert(":"@.len() == 1 && ":"@[0] == ':');
        assert(whole[p.len() as int] == ':');
        assert(whole[q.len() as int] == ':');
        if p.len() < q.len() {
            assert(whole[p.len() as int] == q[p.len() as int]);
            assert(false);
        }
        if q.len() < p.len() {
            assert(whole[q.len() as int] == p[q.len() as int]);
            assert(false);
        }
        assert(p =~= whole.subrange(0, p.len() as int));
        assert(q =~= whole.subrange(0, p.len() as int));
        scopes_name_one_kind(a, b);
        assert(x =~= whole.subrange((p.len() + 1) as int, whole.len() as int));
        assert(y =~= whole.subrange((p.len() + 1) as int, whole.len() as int));
    }
}

fn scoped_key(kind: MutationKind, key: &String) -> (identity: String)
    ensures
        identity@ == default_request_identity(kind, key@),
{
    let mut identity: String = kind.scope().to_owned();
    identity.append(":");
    identity.append(key.as_str());
    identity
}

impl MutationIdentity {
    /// Identifies a request by the digest of its encoding.
    pub fn new(
        kind: MutationKind,
        key: String,
        occurred_at: i64,
        conflict_entity: EntityKind,
        encoded: &[u8],
    ) -> (identity: Self)
        ensures
            identity.kind == kind,
            identity.key@ == key@,
            identity.request_digest@ == sha256_of(request_frame(kind, encoded@)),
            identity.occurred_at == occurred_at,
            identity.conflict_entity == conflict_entity,
            identity.request_identity@ == default_request_identity(kind, key@),
    {
        let mut frame: Vec<u8> = Vec::new();
        append_bytes(&mut frame, kind.digest_version());
        append_bytes(&mut frame, encoded);
        assert(frame@ =~= request_frame(kind, encoded@));
        Self::with_digest(kind, key, occurred_at, conflict_entity, sha256(frame.as_slice()))
    }

    /// Identifies a request by the digest of its encoding, under a request identity of its own.
    pub fn new_with_request_identity(
        kind: MutationKind,
        key: String,
        request_identity: String,
        occurred_at: i64,
        conflict_entity: EntityKind,
        encoded: &[u8],
    ) -> (identity: Self)
        ensures
            identity.kind == kind,
            identity.key@ == key@,
            identity.request_digest@ == sha256_of(request_frame(kind, encoded@)),
            identity.occurred_at == occurred_at,
            identity.conflict_entity == conflict_entity,
            identity.request_identity@ == request_identity@,
    {
        let mut identity = Self::new(kind, key, occurred_at, conflict_entity, encoded);
        identity.request_identity = request_identity;
        identity
    }

    /// Identifies a request by a digest that was computed elsewhere.
    pub fn with_digest(
        kind: MutationKind,
        key: String,
        occurred_at: i64,
        conflict_entity: EntityKind,
        request_digest: [u8; 32],
    ) -> (identity: Self)
        ensures
            identity.kind == kind,
            identity.key@ == key@,
            identity.request_digest == request_digest,
            identity.occurred_at == occurred_at,
            identity.conflict_entity == conflict_entity,
            identity.request_identity@ == default_request_identity(kind, key@),
    {
        let request_identity = scoped_key(kind, &key);
        MutationIdentity { kind, key, request_digest, occurred_at, conflict_entity, request_identity }
    }
}

/// Value of one member of a fact.
#[derive(Debug)]
pub enum FactValue {
    /// An identity.
    Identity(u128),
    /// An identity that may be absent.
    OptionalIdentity(Option<u128>),
    /// Several identities.
    Identities(Vec<u128>),
    /// A number.
    Number(u64),
    /// A number that may be absent.
    OptionalNumber(Option<u64>),
    /// A yes or no.
    Flag(bool),
    /// A fixed word.
    Word(&'static str),
    /// A fixed word that may be absent.
    OptionalWord(Option<&'static str>),
    /// A text.
    Text(String),
    /// A text that may be absent.
    OptionalText(Option<String>),
    /// A JSON document, as it is written.
    Document(String),
    /// Bytes, each written as a number.
    Bytes(Vec<u8>),
    /// A time in milliseconds since the Unix epoch.
    Time(i64),
    /// A time in milliseconds since the Unix epoch that may be absent.
    OptionalTime(Option<i64>),
}

/// One named member of a fact.
#[derive(Debug)]
pub struct Member {
    /// Name of the member.
    pub name: &'static str,
    /// Its value.
    pub value: FactValue,
}

/// What the audit trail and the outbox are told of a mutation.
pub struct MutationFacts {
    /// Kind of actor that asked.
    pub actor_kind: &'static str,
    /// Identity of the actor, where one is known.
    pub actor_identity: Option<String>,
    /// Identity of the entity acted on.
    pub target_identity: String,
    /// Members that may be shown in the audit trail.
    pub safe_metadata: Vec<Member>,
    /// Members announced to subscribers.
    pub outbox_payload: Vec<Member>,
}

/// An outcome as it is kept for replay.
#[derive(Debug)]
pub struct StoredOutcome<T> {
    /// Layout version of the value.
    pub schema_version: u16,
    /// The outcome.
    pub value: T,
}

/// Wraps an outcome for storage.
pub fn encode_outcome<T>(outcome: T) -> (stored: StoredOutcome<T>)
    ensures
        stored.schema_version == STORED_OUTCOME_SCHEMA_VERSION,
        stored.value == outcome,
{
    StoredOutcome { schema_version: STORED_OUTCOME_SCHEMA_VERSION, value: outcome }
}

/// Unwraps a stored outcome of the current layout; another layout is unreadable.
pub fn decode_outcome<T>(stored: StoredOutcome<T>) -> (result: Result<T, StoreError>)
    ensures
        result == (if stored.schema_version == STORED_OUTCOME_SCHEMA_VERSION {
            Ok::<T, StoreError>(stored.value)
        } else {
            Err(StoreError::Unavailable)
        }),
{
    if stored.schema_version != STORED_OUTCOME_SCHEMA_VERSION {
        return Err(StoreError::Unavailable);
    }
    Ok(stored.value)
}

/// Whether a mutation is to be carried out or its stored outcome repeated.
#[derive(Clone, Copy, Debug, PartialEq, Eq, Structural)]
pub enum MutationStart {
    /// The key was free and is now reserved.
    Fresh,
    /// The same request has committed before.
    Replay,
}

/// Whether a stored outcome belongs to a mutation that has not committed.
pub open spec fn is_pending(outcome: serde_json::Value) -> bool {
    string_members(outcome).contains_key("status"@) && string_members(outcome)["status"@] == PENDING_OUTCOME@
}

/// What reserving the key of `identity` comes to: `inserted_rows` is what the reserving insert
/// wrote, and the rest is the row that was there before.
pub open spec fn started(
    identity: MutationIdentity,
    inserted_rows: u64,
    stored_digest: Seq<u8>,
    stored_is_pending: bool,
) -> Result<MutationStart, StoreError> {
    if inserted_rows == 1 {
        Ok(MutationStart::Fresh)
    } else if stored_digest != identity.request_digest@ {
        Err(StoreError::Conflict { entity: identity.conflict_entity })
    } else if stored_is_pending {
        Err(StoreError::Unavailable)
    } else {
        Ok(MutationStart::Replay)
    }
}

/// Decides how a mutation starts once its key has been offered to the database.
pub fn begin(
    identity: &MutationIdentity,
    inserted_rows: u64,
    stored_digest: &[u8],
    stored_outcome: &serde_json::Value,
) -> (result: Result<MutationStart, StoreError>)
    ensures
        result == started(*identity, inserted_rows, stored_digest@, is_pending(*stored_outcome)),
{
    if inserted_rows == 1 {
        return Ok(MutationStart::Fresh);
    }
    let pending = match string_member(stored_outcome, "status") {
        Some(status) => same_text(status.as_str(), PENDING_OUTCOME),
        None => false,
    };
    start(identity, inserted_rows, stored_digest, pending)
}

/// Decides how a mutation starts, where the stored outcome is known to be pending or not.
pub fn start(
    identity: &MutationIdentity,
    inserted_rows: u64,
    stored_digest: &[u8],
    stored_is_pending: bool,
) -> (result: Result<MutationStart, StoreError>)
    ensures
        result == started(*identity, inserted_rows, stored_digest@, stored_is_pending),
{
    if inserted_rows == 1 {
        return Ok(MutationStart::Fresh);
    }
    let digest: &[u8] = &identity.request_digest;
    if !same_bytes(stored_digest, digest) {
        return Err(StoreError::Conflict { entity: identity.conflict_entity });
    }
    if stored_is_pending {
        return Err(StoreError::Unavailable);
    }
    Ok(MutationStart::Replay)
}

/// A request that repeats a committed one under its key is replayed, and a different request under
/// that key is refused as a conflict.
pub proof fn repeated_requests_replay(
    first: MutationIdentity,
    second: MutationIdentity,
    inserted_rows: u64,
)
    requires
        inserted_rows != 1,
    ensures
        first.request_digest@ == second.request_digest@ ==> started(second, inserted_rows, first.request_digest@, false)
            == Ok::<MutationStart, StoreError>(MutationStart::Replay),
        first.request_digest@ != second.request_digest@ ==> started(second, inserted_rows, first.request_digest@, false)
            == Err::<MutationStart, StoreError>(StoreError::Conflict { entity: second.conflict_entity }),
{
}

/// Row of the audit trail.
pub struct AuditFact {
    /// Identity of the row.
    pub id: u128,
    /// Kind of actor.
    pub actor_kind: &'static str,
    /// Identity of the actor.
    pub actor_identity: Option<String>,
    /// Operation, by its scope.
    pub operation: &'static str,
    /// Kind of entity acted on.
    pub target_kind: &'static str,
    /// Identity of the entity acted on.
    pub target_identity: String,
    /// Identity of the request.
    pub request_identity: String,
    /// Idempotency key.
    pub idempotency_key: String,
    /// Members shown in the audit trail.
    pub safe_metadata: Vec<Member>,
    /// When it happened.
    pub occurred_at: i64,
}

/// Row of the outbox.
pub struct OutboxEntry {
    /// Identity of the row.
    pub id: u128,
    /// Topic of the announcement.
    pub topic: &'static str,
    /// Kind of entity acted on.
    pub aggregate_kind: &'static str,
    /// Identity of the entity acted on.
    pub aggregate_identity: String,
    /// Members announced.
    pub payload: Vec<Member>,
    /// When it happened.
    pub created_at: i64,
}

/// Builds the audit row and the outbox row of a mutation that is about to commit.
pub fn commit(identity: &MutationIdentity, facts: MutationFacts) -> (rows: (AuditFact, OutboxEntry))
    ensures
        rows.0.id as nat == record_id_of("audit"@, identity.kind, identity.key@),
        rows.0.actor_kind == facts.actor_kind,
        rows.0.actor_identity == facts.actor_identity,
        rows.0.operation@ == scope_of(identity.kind),
        rows.0.target_kind@ == target_kind_of(identity.kind),
        rows.0.target_identity@ == facts.target_identity@,
        rows.0.request_identity@ == identity.request_identity@,
        rows.0.idempotency_key@ == identity.key@,
        rows.0.safe_metadata == facts.safe_metadata,
        rows.0.occurred_at == identity.occurred_at,
        rows.1.id as nat == record_id_of("outbox"@, identity.kind, identity.key@),
        rows.1.topic@ == outbox_topic_of(identity.kind),
        rows.1.aggregate_kind@ == target_kind_of(identity.kind),
        rows.1.aggregate_identity@ == facts.target_identity@,
        rows.1.payload == facts.outbox_payload,
        rows.1.created_at == identity.occurred_at,
{
    let audit = AuditFact {
        id: stable_record_id("audit", identity),
        actor_kind: facts.actor_kind,
        actor_identity: facts.actor_identity,
        operation: identity.kind.scope(),
        target_kind: identity.kind.target_kind(),
        target_identity: facts.target_identity.clone(),
        request_identity: identity.request_identity.clone(),
        idempotency_key: identity.key.clone(),
        safe_metadata: facts.safe_metadata,
        occurred_at: identity.occurred_at,
    };
    let outbox = OutboxEntry {
        id: stable_record_id("outbox", identity),
        topic: identity.kind.outbox_topic(),
        aggregate_kind: identity.kind.target_kind(),
        aggregate_identity: facts.target_identity,
        payload: facts.outbox_payload,
        created_at: identity.occurred_at,
    };
    (audit, outbox)
}

/// Checks that storing the outcome reached the reserved key.
pub fn require_stored(updated_rows: u64) -> (result: Result<(), StoreError>)
    ensures
        result == (if updated_rows == 1 {
            Ok::<(), StoreError>(())
        } else {
            Err(StoreError::Unavailable)
        }),
{
    if updated_rows != 1 {
        return Err(StoreError::Unavailable);
    }
    Ok(())
}

/// The bytes from which the identity of a record is derived.
pub open spec fn record_frame(record_kind: Seq<char>, kind: MutationKind, key: Seq<char>) -> Seq<u8> {
    record_text_frame(record_kind, scope_of(kind), key)
}

/// The bytes that kind of record, scope and key are written to.
pub open spec fn record_text_frame(record_kind: Seq<char>, scope: Seq<char>, key: Seq<char>) -> Seq<u8> {
    utf8("octacity.store-mutation-record.v1\0"@) + utf8(record_kind) + seq![0u8] + utf8(scope) + seq![0u8] + utf8(key)
}

/// Whether a text consists of printable ASCII.
pub open spec fn is_printable(text: Seq<char>) -> bool {
    forall|i: int| 0 <= i < text.len() ==> ' ' < #[trigger] text[i] < '\u{7f}'
}

proof fn ended_texts_are_separate(a: Seq<char>, b: Seq<char>, x: Seq<u8>, y: Seq<u8>)
    requires
        is_printable(a),
        is_printable(b),
        utf8(a) + seq![0u8] + x == utf8(b) + seq![0u8] + y,
    ensures
        a == b,
        x == y,
{
    assert forall|i: int| 0 <= i < a.len() implies '\0' <= #[trigger] a[i] <= '\u{7f}' by {}
    assert forall|i: int| 0 <= i < b.len() implies '\0' <= #[trigger] b[i] <= '\u{7f}' by {}
    is_ascii_chars_encode_utf8(a);
    is_ascii_chars_encode_utf8(b);
    let whole = utf8(a) + seq![0u8] + x;
    assert(whole[a.len() as int] == 0u8);
    assert(whole[b.len() as int] == 0u8);
    if a.len() < b.len() {
        assert(whole[a.len() as int] == utf8(b)[a.len() as int]);
        assert(b[a.len() as int] > ' ');
        assert(false);
    }
    if b.len() < a.len() {
        assert(whole[b.len() as int] == utf8(a)[b.len() as int]);
        assert(a[b.len() as int] > ' ');
        assert(false);
    }
    assert forall|i: int| 0 <= i < a.len() implies a[i] == b[i] by {
        assert(whole[i] == utf8(a)[i]);
        assert(whole[i] == utf8(b)[i]);
        assert(a[i] as u8 == b[i] as u8);
    }
    assert(a =~= b);
    assert(x =~= whole.subrange((a.len() + 1) as int, whole.len() as int));
    assert(y =~= whole.subrange((a.len() + 1) as int, whole.len() as int));
}

proof fn record_texts_are_separate(r: Seq<char>, p: Seq<char>, x: Seq<char>, s: Seq<char>, q: Seq<char>, y: Seq<char>)
    requires
        is_printable(r),
        is_printable(p),
        is_printable(s),
        is_printable(q),
        record_text_frame(r, p, x) == record_text_frame(s, q, y),
    ensures
        r == s,
        p == q,
        x == y,
{
    let mark = utf8("octacity.store-mutation-record.v1\0"@);
    let u = utf8(p) + seq![0u8] + utf8(x);
    let v = utf8(q) + seq![0u8] + utf8(y);
    let whole = record_text_frame(r, p, x);
    assert(whole =~= mark + (utf8(r) + seq![0u8] + u));
    assert(whole =~= mark + (utf8(s) + seq![0u8] + v));
    assert(utf8(r) + seq![0u8] + u =~= whole.subrange(mark.len() as int, whole.len() as int));
    assert(utf8(s) + seq![0u8] + v =~= whole.subrange(mark.len() as int, whole.len() as int));
    ended_texts_are_separate(r, s, u, v);
    ended_texts_are_separate(p, q, utf8(x), utf8(y));
    encode_utf8_decode_utf8(x);
    encode_utf8_decode_utf8(y);
}

/// The identities of two records are derived from the same bytes only for records of the same kind that belong
/// to the same mutation.
pub proof fn record_frames_are_separate(
    r: Seq<char>,
    a: MutationKind,
    x: Seq<char>,
    s: Seq<char>,
    b: MutationKind,
    y: Seq<char>,
)
    requires
        is_printable(r),
        is_printable(s),
        record_frame(r, a, x) == record_frame(s, b, y),
    ensures
        r == s,
        a == b,
        x == y,
{
    assert(is_printable(scope_of(a))) by {
        scopes_are_plain(a);
    }
    assert(is_printable(scope_of(b))) by {
        scopes_are_plain(b);
    }
    record_texts_are_separate(r, scope_of(a), x, s, scope_of(b), y);
    scopes_name_one_kind(a, b);
}

/// The first sixteen bytes of a digest, marked as a name-based UUID of the standard variant.
pub open spec fn marked(digest: Seq<u8>) -> Seq<u8> {
    digest.subrange(0, 16).update(6, (digest[6] & 0x0f) | 0x50).update(8, (digest[8] & 0x3f) | 0x80)
}

/// The identity of a record of a mutation.
pub open spec fn record_id_of(record_kind: Seq<char>, kind: MutationKind, key: Seq<char>) -> nat {
    big_endian(marked(sha256_of(record_frame(record_kind, kind, key))))
}

/// Derives the identity of a record from the mutation it belongs to, so that a repeated commit
/// writes the same record.
pub fn stable_record_id(record_kind: &str, identity: &MutationIdentity) -> (id: u128)
    ensures
        id as nat == record_id_of(record_kind@, identity.kind, identity.key@),
{
    let mut frame: Vec<u8> = Vec::new();
    append_bytes(&mut frame, "octacity.store-mutation-record.v1\0".as_bytes());
    append_bytes(&mut frame, record_kind.as_bytes());
    frame.push(0);
    append_bytes(&mut frame, identity.kind.scope().as_bytes());
    frame.push(0);
    append_bytes(&mut frame, identity.key.as_str().as_bytes());
    assert(frame@ =~= record_frame(record_kind@, identity.kind, identity.key@));
    identity_of_bytes(mark(sha256(frame.as_slice())))
}

/// Cuts a digest to a UUID and marks its version and variant.
pub fn mark(digest: [u8; 32]) -> (bytes: [u8; 16])
    ensures
        bytes@ == marked(digest@),
{
    let bytes: [u8; 16] = [
        digest[0],
        digest[1],
        digest[2],
        digest[3],
        digest[4],
        digest[5],
        (digest[6] & 0x0f) | 0x50,
        digest[7],
        (digest[8] & 0x3f) | 0x80,
        digest[9],
        digest[10],
        digest[11],
        digest[12],
        digest[13],
        digest[14],
        digest[15],
    ];
    assert(bytes@ =~= marked(digest@));
    bytes
}

/// A marked digest carries version 5 in its seventh byte and the standard variant in its ninth.
pub proof fn marked_digests_are_version_five(digest: Seq<u8>)
    requires
        digest.len() == 32,
    ensures
        marked(digest).len() == 16,
        marked(digest)[6] >> 4 == 5,
        marked(digest)[8] >> 6 == 2,
{
    let high: u8 = digest[6];
    let variant: u8 = digest[8];
    assert(((high & 0x0f) | 0x50) >> 4 == 5) by (bit_vector);
    assert(((variant & 0x3f) | 0x80) >> 6 == 2) by (bit_vector);
}

/// A request is carried out exactly where its key is new. Under a key that was used, the same request is replayed, and
/// another one is refused; one that was begun and never finished cannot be told apart from one that is going on.
pub proof fn requests_are_carried_out_once(
    identity: MutationIdentity,
    inserted_rows: u64,
    stored_digest: Seq<u8>,
    stored_is_pending: bool,
)
    ensures
        started(identity, inserted_rows, stored_digest, stored_is_pending) == Ok::<MutationStart, StoreError>(
            MutationStart::Fresh,
        ) <==> inserted_rows == 1,
        started(identity, inserted_rows, stored_digest, stored_is_pending) == Ok::<MutationStart, StoreError>(
            MutationStart::Replay,
        ) <==> inserted_rows != 1 && stored_digest == identity.request_digest@ && !stored_is_pending,
        inserted_rows != 1 && stored_digest != identity.request_digest@ ==> started(
            identity,
            inserted_rows,
            stored_digest,
            stored_is_pending,
        ) == Err::<MutationStart, StoreError>(StoreError::Conflict { entity: identity.conflict_entity }),
        inserted_rows != 1 && stored_digest == identity.request_digest@ && stored_is_pending ==> started(
            identity,
            inserted_rows,
            stored_digest,
            stored_is_pending,
        ) == Err::<MutationStart, StoreError>(StoreError::Unavailable),
{
}

/// An outcome is pending exactly where it says so.
pub proof fn pending_outcomes_say_so(outcome: serde_json::Value)
    ensures
        is_pending(outcome) <==> string_members(outcome).contains_key("status"@) && string_members(outcome)["status"@]
            == "pending"@,
{
}

/// The identity of a record is taken from the first half of its digest: only the bits that mark it differ.
pub proof fn record_identities_keep_their_digest(digest: Seq<u8>, at: int)
    requires
        digest.len() == 32,
        0 <= at < 16,
    ensures
        at != 6 && at != 8 ==> marked(digest)[at] == digest[at],
        marked(digest)[6] & 0x0f == digest[6] & 0x0f,
        marked(digest)[8] & 0x3f == digest[8] & 0x3f,
{
    let a = digest[6];
    let b = digest[8];
    assert((((a & 0x0f) | 0x50) & 0x0f) == a & 0x0f) by (bit_vector);
    assert((((b & 0x3f) | 0x80) & 0x3f) == b & 0x3f) by (bit_vector);
}

/// A request that repeats one whose outcome is still to come is told that it is unavailable; one that says something
/// else under the same identity conflicts with it.
pub proof fn unfinished_mutations_are_unavailable(identity: MutationIdentity, inserted_rows: u64, stored_digest: Seq<u8>)
    requires
        inserted_rows != 1,
    ensures
        started(identity, inserted_rows, identity.request_digest@, true) == Err::<MutationStart, StoreError>(
            StoreError::Unavailable,
        ),
        stored_digest != identity.request_digest@ ==> started(identity, inserted_rows, stored_digest, true) == Err::<
            MutationStart,
            StoreError,
        >(StoreError::Conflict { entity: identity.conflict_entity }),
{
}

} // verus!
