//! Triggers that a webhook sets off, and the registrations with the services that call it.

use vstd::prelude::*;

use crate::accept_trigger::{TriggerDefinitionRef, TriggerTarget};
use crate::domain::{
    identity, is_identity, is_version, version, EntityKind, MutationDisposition, StoreError, StoreOperation,
};
use crate::identity_text::{hyphenated, identity_text};
use crate::mutation::{FactValue, Member, MutationFacts, MutationKind};
use crate::text::{optional_text, same_text};
use crate::trigger_definition::{
    decode, is_readable, kind_name_text, stored_versions, target_in, trigger_in, versions, TriggerColumns, TriggerKind,
};

verus! {

/// What is done to a registration with a service.
#[derive(Clone, Copy, Debug, PartialEq, Eq, Structural)]
pub enum ManagedWebhookOperation {
    /// Stored as `create`.
    Create,
    /// Stored as `observe`.
    Observe,
    /// Stored as `rotate`.
    Rotate,
    /// Stored as `delete`.
    Delete,
}

/// The stored name of an operation.
pub open spec fn managed_operation_text(value: ManagedWebhookOperation) -> Seq<char> {
    match value {
        ManagedWebhookOperation::Create => "create"@,
        ManagedWebhookOperation::Observe => "observe"@,
        ManagedWebhookOperation::Rotate => "rotate"@,
        ManagedWebhookOperation::Delete => "delete"@,
    }
}

/// No two values share a stored name.
pub proof fn managed_operation_text_names_one_value(a: ManagedWebhookOperation, b: ManagedWebhookOperation)
    ensures
        managed_operation_text(a) == managed_operation_text(b) ==> a == b,
{
    reveal_strlit("create");
    reveal_strlit("observe");
    reveal_strlit("rotate");
    reveal_strlit("delete");
    assert("create"@.len() == 6);
    assert("observe"@.len() == 7);
    assert("rotate"@.len() == 6);
    assert("delete"@.len() == 6);
    assert("create"@[0] == 'c');
    assert("rotate"@[0] == 'r');
    assert("delete"@[0] == 'd');
}

/// Names an operation as the database stores it.
pub fn managed_operation(value: ManagedWebhookOperation) -> (text: &'static str)
    ensures
        text@ == managed_operation_text(value),
{
    match value {
        ManagedWebhookOperation::Create => "create",
        ManagedWebhookOperation::Observe => "observe",
        ManagedWebhookOperation::Rotate => "rotate",
        ManagedWebhookOperation::Delete => "delete",
    }
}

/// Reads an operation back from its stored name; any other text is unreadable.
pub fn parse_managed_operation(text: &str) -> (result: Result<ManagedWebhookOperation, StoreError>)
    ensures
        forall|value: ManagedWebhookOperation|
            result == Ok::<ManagedWebhookOperation, StoreError>(value)
                <==> text@ == #[trigger] managed_operation_text(value),
        result is Err ==> result == Err::<ManagedWebhookOperation, StoreError>(StoreError::Unavailable),
{
    proof {
        assert forall|a: ManagedWebhookOperation, b: ManagedWebhookOperation|
            #[trigger] managed_operation_text(a) == #[trigger] managed_operation_text(b)
            implies a == b by {
            managed_operation_text_names_one_value(a, b);
        }
    }
    let result = if same_text(text, "create") {
        Ok(ManagedWebhookOperation::Create)
    } else if same_text(text, "observe") {
        Ok(ManagedWebhookOperation::Observe)
    } else if same_text(text, "rotate") {
        Ok(ManagedWebhookOperation::Rotate)
    } else if same_text(text, "delete") {
        Ok(ManagedWebhookOperation::Delete)
    } else {
        Err(StoreError::Unavailable)
    };
    assert(result matches Ok(value) ==> text@ == managed_operation_text(value));
    result
}

/// Why work on a webhook failed.
#[derive(Clone, Copy, Debug, PartialEq, Eq, Structural)]
pub enum WebhookFailureCode {
    /// Stored as `authentication_failed`.
    AuthenticationFailed,
    /// Stored as `invalid_configuration`.
    InvalidConfiguration,
    /// Stored as `unsupported`.
    Unsupported,
    /// Stored as `permanent`.
    Permanent,
    /// Stored as `cancelled`.
    Cancelled,
    /// Stored as `unavailable`.
    Unavailable,
    /// Stored as `invalid_response`.
    InvalidResponse,
    /// Stored as `normalized_event_mismatch`.
    NormalizedEventMismatch,
    /// Stored as `delivery_identity_conflict`.
    DeliveryIdentityConflict,
    /// Stored as `trigger_evaluation_failed`.
    TriggerEvaluationFailed,
}

/// The stored name of a failure.
pub open spec fn failure_code_text(value: WebhookFailureCode) -> Seq<char> {
    match value {
        WebhookFailureCode::AuthenticationFailed => "authentication_failed"@,
        WebhookFailureCode::InvalidConfiguration => "invalid_configuration"@,
        WebhookFailureCode::Unsupported => "unsupported"@,
        WebhookFailureCode::Permanent => "permanent"@,
        WebhookFailureCode::Cancelled => "cancelled"@,
        WebhookFailureCode::Unavailable => "unavailable"@,
        WebhookFailureCode::InvalidResponse => "invalid_response"@,
        WebhookFailureCode::NormalizedEventMismatch => "normalized_event_mismatch"@,
        WebhookFailureCode::DeliveryIdentityConflict => "delivery_identity_conflict"@,
        WebhookFailureCode::TriggerEvaluationFailed => "trigger_evaluation_failed"@,
    }
}

/// No two values share a stored name.
pub proof fn failure_code_text_names_one_value(a: WebhookFailureCode, b: WebhookFailureCode)
    ensures
        failure_code_text(a) == failure_code_text(b) ==> a == b,
{
    reveal_strlit("authentication_failed");
    reveal_strlit("invalid_configuration");
    reveal_strlit("unsupported");
    reveal_strlit("permanent");
    reveal_strlit("cancelled");
    reveal_strlit("unavailable");
    reveal_strlit("invalid_response");
    reveal_strlit("normalized_event_mismatch");
    reveal_strlit("delivery_identity_conflict");
    reveal_strlit("trigger_evaluation_failed");
    assert("authentication_failed"@.len() == 21);
    assert("invalid_configuration"@.len() == 21);
    assert("unsupported"@.len() == 11);
    assert("permanent"@.len() == 9);
    assert("cancelled"@.len() == 9);
    assert("unavailable"@.len() == 11);
    assert("invalid_response"@.len() == 16);
    assert("normalized_event_mismatch"@.len() == 25);
    assert("delivery_identity_conflict"@.len() == 26);
    assert("trigger_evaluation_failed"@.len() == 25);
    assert("permanent"@[0] == 'p');
    assert("cancelled"@[0] == 'c');
    assert("unsupported"@[2] == 's');
    assert("unavailable"@[2] == 'a');
    assert("authentication_failed"@[0] == 'a');
    assert("invalid_configuration"@[0] == 'i');
    assert("normalized_event_mismatch"@[0] == 'n');
    assert("trigger_evaluation_failed"@[0] == 't');
}

/// Names a failure as the database stores it.
pub fn failure_code(value: WebhookFailureCode) -> (text: &'static str)
    ensures
        text@ == failure_code_text(value),
{
    match value {
        WebhookFailureCode::AuthenticationFailed => "authentication_failed",
        WebhookFailureCode::InvalidConfiguration => "invalid_configuration",
        WebhookFailureCode::Unsupported => "unsupported",
        WebhookFailureCode::Permanent => "permanent",
        WebhookFailureCode::Cancelled => "cancelled",
        WebhookFailureCode::Unavailable => "unavailable",
        WebhookFailureCode::InvalidResponse => "invalid_response",
        WebhookFailureCode::NormalizedEventMismatch => "normalized_event_mismatch",
        WebhookFailureCode::DeliveryIdentityConflict => "delivery_identity_conflict",
        WebhookFailureCode::TriggerEvaluationFailed => "trigger_evaluation_failed",
    }
}

/// Reads a failure back from its stored name; any other text is unreadable.
pub fn parse_failure_code(text: &str) -> (result: Result<WebhookFailureCode, StoreError>)
    ensures
        forall|value: WebhookFailureCode|
            result == Ok::<WebhookFailureCode, StoreError>(value)
                <==> text@ == #[trigger] failure_code_text(value),
        result is Err ==> result == Err::<WebhookFailureCode, StoreError>(StoreError::Unavailable),
{
    proof {
        assert forall|a: WebhookFailureCode, b: WebhookFailureCode|
            #[trigger] failure_code_text(a) == #[trigger] failure_code_text(b)
            implies a == b by {
            failure_code_text_names_one_value(a, b);
        }
    }
    let result = if same_text(text, "authentication_failed") {
        Ok(WebhookFailureCode::AuthenticationFailed)
    } else if same_text(text, "invalid_configuration") {
        Ok(WebhookFailureCode::InvalidConfiguration)
    } else if same_text(text, "unsupported") {
        Ok(WebhookFailureCode::Unsupported)
    } else if same_text(text, "permanent") {
        Ok(WebhookFailureCode::Permanent)
    } else if same_text(text, "cancelled") {
        Ok(WebhookFailureCode::Cancelled)
    } else if same_text(text, "unavailable") {
        Ok(WebhookFailureCode::Unavailable)
    } else if same_text(text, "invalid_response") {
        Ok(WebhookFailureCode::InvalidResponse)
    } else if same_text(text, "normalized_event_mismatch") {
        Ok(WebhookFailureCode::NormalizedEventMismatch)
    } else if same_text(text, "delivery_identity_conflict") {
        Ok(WebhookFailureCode::DeliveryIdentityConflict)
    } else if same_text(text, "trigger_evaluation_failed") {
        Ok(WebhookFailureCode::TriggerEvaluationFailed)
    } else {
        Err(StoreError::Unavailable)
    };
    assert(result matches Ok(value) ==> text@ == failure_code_text(value));
    result
}

/// A request to create an integration that is registered by hand.
pub struct CreateUnmanagedWebhook {
    /// The integration.
    pub integration_id: u128,
    /// The trigger that it sets off.
    pub trigger: TriggerDefinitionRef,
    /// What that builds.
    pub target: TriggerTarget,
    /// The adapter that understands its deliveries.
    pub adapter_id: String,
}

/// A created integration that is registered by hand.
#[derive(Clone, Copy, Debug, PartialEq, Eq, Structural)]
pub struct UnmanagedWebhookMutationOutcome {
    /// Whether it was created now or before.
    pub disposition: MutationDisposition,
    /// The integration.
    pub integration_id: u128,
    /// The trigger that it sets off.
    pub trigger: TriggerDefinitionRef,
}

/// The versions to store for a new integration, where the request is valid and they can be stored.
pub open spec fn creation(
    validated: Result<(), StoreError>,
    trigger: TriggerDefinitionRef,
    target: TriggerTarget,
    operation: StoreOperation,
) -> Result<(i64, i64), StoreError> {
    match validated {
        Err(error) => Err(error),
        Ok(()) => stored_versions(trigger.version, target.configuration_version, operation),
    }
}

/// Creates an integration that is registered by hand: gives the versions to store and the outcome.
/// `validated` is the verdict on the request by itself.
pub fn create(validated: Result<(), StoreError>, request: &CreateUnmanagedWebhook) -> (result: Result<
    ((i64, i64), UnmanagedWebhookMutationOutcome),
    StoreError,
>)
    ensures
        result == (match creation(
            validated,
            request.trigger,
            request.target,
            StoreOperation::CreateUnmanagedWebhook,
        ) {
            Err(error) => Err(error),
            Ok(stored) => Ok::<((i64, i64), UnmanagedWebhookMutationOutcome), StoreError>(
                (
                    stored,
                    UnmanagedWebhookMutationOutcome {
                        disposition: MutationDisposition::Applied,
                        integration_id: request.integration_id,
                        trigger: request.trigger,
                    },
                ),
            ),
        }),
{
    validated?;
    let stored = versions(
        request.trigger.version,
        request.target.configuration_version,
        StoreOperation::CreateUnmanagedWebhook,
    )?;
    Ok(
        (
            stored,
            UnmanagedWebhookMutationOutcome {
                disposition: MutationDisposition::Applied,
                integration_id: request.integration_id,
                trigger: request.trigger,
            },
        ),
    )
}

/// Turns a stored outcome into the answer to a repeated request.
pub fn replay_create(outcome: UnmanagedWebhookMutationOutcome) -> (replayed: UnmanagedWebhookMutationOutcome)
    ensures
        replayed == (UnmanagedWebhookMutationOutcome { disposition: MutationDisposition::Replayed, ..outcome }),
{
    UnmanagedWebhookMutationOutcome { disposition: MutationDisposition::Replayed, ..outcome }
}

/// What the audit trail and the outbox are told of a new integration that is registered by hand.
pub fn create_facts(request: &CreateUnmanagedWebhook) -> (facts: MutationFacts)
    ensures
        facts.actor_kind@ == "management_api"@,
        facts.actor_identity is None,
        facts.target_identity@ == hyphenated(request.integration_id),
        facts.safe_metadata@.len() == 3,
        facts.safe_metadata@[0] == (Member { name: "trigger_id", value: FactValue::Identity(request.trigger.id) }),
        facts.safe_metadata@[1] == (Member {
            name: "trigger_version",
            value: FactValue::Number(request.trigger.version),
        }),
        facts.safe_metadata@[2].name@ == "adapter_id"@,
        facts.safe_metadata@[2].value matches FactValue::Text(text) && text@ == request.adapter_id@,
        facts.outbox_payload@ == seq![
            (Member { name: "integration_id", value: FactValue::Identity(request.integration_id) }),
            (Member { name: "trigger_id", value: FactValue::Identity(request.trigger.id) }),
            (Member { name: "trigger_version", value: FactValue::Number(request.trigger.version) }),
        ],
{
    MutationFacts {
        actor_kind: "management_api",
        actor_identity: None,
        target_identity: identity_text(request.integration_id),
        safe_metadata: vec![
            Member { name: "trigger_id", value: FactValue::Identity(request.trigger.id) },
            Member { name: "trigger_version", value: FactValue::Number(request.trigger.version) },
            Member { name: "adapter_id", value: FactValue::Text(request.adapter_id.clone()) },
        ],
        outbox_payload: vec![
            Member { name: "integration_id", value: FactValue::Identity(request.integration_id) },
            Member { name: "trigger_id", value: FactValue::Identity(request.trigger.id) },
            Member { name: "trigger_version", value: FactValue::Number(request.trigger.version) },
        ],
    }
}

/// An integration as the database holds it.
pub struct WebhookRow {
    /// The trigger that it sets off, and what that builds.
    pub columns: TriggerColumns,
    /// Whether that is set off at all.
    pub enabled: bool,
    /// What sets the trigger off.
    pub trigger_kind: String,
    /// How deliveries are understood.
    pub definition: String,
    /// Whether that is a valid definition.
    pub definition_is_valid: bool,
}

/// An integration that is registered by hand.
pub struct WebhookIntegrationRecord {
    /// The integration.
    pub integration_id: u128,
    /// The trigger that it sets off.
    pub trigger: TriggerDefinitionRef,
    /// What that builds.
    pub target: TriggerTarget,
    /// Whether that is set off at all.
    pub enabled: bool,
    /// How deliveries are understood.
    pub definition: String,
}

/// Whether an integration can be read.
pub open spec fn is_readable_webhook(row: WebhookRow) -> bool {
    &&& row.trigger_kind@ == kind_name_text(TriggerKind::External)
    &&& row.definition_is_valid
    &&& is_readable(row.columns)
}

fn is_external(row: &WebhookRow) -> (external: bool)
    ensures
        external == (row.trigger_kind@ == kind_name_text(TriggerKind::External)),
{
    same_text(row.trigger_kind.as_str(), "external")
}

/// Reads an integration that is registered by hand, where there is one.
pub fn read(integration_id: u128, row: Option<WebhookRow>) -> (result: Result<WebhookIntegrationRecord, StoreError>)
    ensures
        match row {
            None => result is Err && result->Err_0 == (StoreError::NotFound { entity: EntityKind::Integration }),
            Some(row) => match result {
                Ok(record) => {
                    &&& is_readable_webhook(row)
                    &&& record.integration_id == integration_id
                    &&& record.trigger == trigger_in(row.columns)
                    &&& record.target == target_in(row.columns)
                    &&& record.enabled == row.enabled
                    &&& record.definition@ == row.definition@
                },
                Err(error) => error == StoreError::Unavailable && !is_readable_webhook(row),
            },
        },
{
    match row {
        None => Err(StoreError::NotFound { entity: EntityKind::Integration }),
        Some(row) => {
            if !is_external(&row) || !row.definition_is_valid {
                return Err(StoreError::Unavailable);
            }
            let (trigger, target) = decode(row.columns)?;
            Ok(
                WebhookIntegrationRecord {
                    integration_id,
                    trigger,
                    target,
                    enabled: row.enabled,
                    definition: row.definition,
                },
            )
        },
    }
}

/// A request to create an integration that is registered with its service.
pub struct CreateManagedWebhook {
    /// The integration.
    pub integration_id: u128,
    /// The trigger that it sets off.
    pub trigger: TriggerDefinitionRef,
    /// What that builds.
    pub target: TriggerTarget,
    /// The adapter that understands its deliveries.
    pub adapter_id: String,
}

/// A changed integration that is registered with its service.
pub struct ManagedWebhookMutationOutcome {
    /// Whether it was changed now or before.
    pub disposition: MutationDisposition,
    /// The integration.
    pub integration_id: u128,
    /// The trigger that it sets off.
    pub trigger: TriggerDefinitionRef,
    /// Its registration, where there is one yet.
    pub registration: Option<String>,
}

/// Creates an integration that is registered with its service: gives the versions to store and the outcome.
/// `validated` is the verdict on the request by itself.
pub fn create_managed(validated: Result<(), StoreError>, request: &CreateManagedWebhook) -> (result: Result<
    ((i64, i64), ManagedWebhookMutationOutcome),
    StoreError,
>)
    ensures
        result == (match creation(validated, request.trigger, request.target, StoreOperation::CreateManagedWebhook) {
            Err(error) => Err(error),
            Ok(stored) => Ok::<((i64, i64), ManagedWebhookMutationOutcome), StoreError>(
                (
                    stored,
                    ManagedWebhookMutationOutcome {
                        disposition: MutationDisposition::Applied,
                        integration_id: request.integration_id,
                        trigger: request.trigger,
                        registration: None,
                    },
                ),
            ),
        }),
{
    validated?;
    let stored = versions(
        request.trigger.version,
        request.target.configuration_version,
        StoreOperation::CreateManagedWebhook,
    )?;
    Ok(
        (
            stored,
            ManagedWebhookMutationOutcome {
                disposition: MutationDisposition::Applied,
                integration_id: request.integration_id,
                trigger: request.trigger,
                registration: None,
            },
        ),
    )
}

/// Turns the stored outcome of a creation into the answer to a repeated request, which shows the
/// registration as it is by then.
pub fn replay_managed_create(outcome: ManagedWebhookMutationOutcome, registration: Option<String>) -> (replayed:
    ManagedWebhookMutationOutcome)
    ensures
        replayed == (ManagedWebhookMutationOutcome {
            disposition: MutationDisposition::Replayed,
            registration,
            ..outcome
        }),
{
    ManagedWebhookMutationOutcome { disposition: MutationDisposition::Replayed, registration, ..outcome }
}

/// What the audit trail and the outbox are told of a new integration that is registered with its service.
pub fn create_managed_facts(request: &CreateManagedWebhook) -> (facts: MutationFacts)
    ensures
        facts.actor_kind@ == "management_api"@,
        facts.actor_identity is None,
        facts.target_identity@ == hyphenated(request.integration_id),
        facts.safe_metadata@.len() == 4,
        facts.safe_metadata@[0] == (Member { name: "trigger_id", value: FactValue::Identity(request.trigger.id) }),
        facts.safe_metadata@[1] == (Member {
            name: "trigger_version",
            value: FactValue::Number(request.trigger.version),
        }),
        facts.safe_metadata@[2].name@ == "adapter_id"@,
        facts.safe_metadata@[2].value matches FactValue::Text(text) && text@ == request.adapter_id@,
        facts.safe_metadata@[3] == (Member { name: "management_mode", value: FactValue::Word("managed") }),
        facts.outbox_payload@ == seq![
            (Member { name: "integration_id", value: FactValue::Identity(request.integration_id) }),
            (Member { name: "trigger_id", value: FactValue::Identity(request.trigger.id) }),
            (Member { name: "trigger_version", value: FactValue::Number(request.trigger.version) }),
            (Member { name: "registration_state", value: FactValue::Word("pending") }),
        ],
{
    MutationFacts {
        actor_kind: "management_api",
        actor_identity: None,
        target_identity: identity_text(request.integration_id),
        safe_metadata: vec![
            Member { name: "trigger_id", value: FactValue::Identity(request.trigger.id) },
            Member { name: "trigger_version", value: FactValue::Number(request.trigger.version) },
            Member { name: "adapter_id", value: FactValue::Text(request.adapter_id.clone()) },
            Member { name: "management_mode", value: FactValue::Word("managed") },
        ],
        outbox_payload: vec![
            Member { name: "integration_id", value: FactValue::Identity(request.integration_id) },
            Member { name: "trigger_id", value: FactValue::Identity(request.trigger.id) },
            Member { name: "trigger_version", value: FactValue::Number(request.trigger.version) },
            Member { name: "registration_state", value: FactValue::Word("pending") },
        ],
    }
}

/// An integration that is registered with its service, as the database holds it. The definition is judged
/// together with the credential.
pub struct ManagedWebhookRow {
    /// The integration.
    pub webhook: WebhookRow,
    /// The credential that administrates its registration.
    pub administration_credential_handle: String,
    /// Its registration, where there is one yet.
    pub remote_registration: Option<String>,
    /// Whether that can be read as a registration.
    pub registration_is_readable: bool,
    /// Whether it is a valid one.
    pub registration_is_valid: bool,
}

/// An integration that is registered with its service.
pub struct ManagedWebhookRecord {
    /// The integration.
    pub integration_id: u128,
    /// The trigger that it sets off.
    pub trigger: TriggerDefinitionRef,
    /// What that builds.
    pub target: TriggerTarget,
    /// Whether that is set off at all.
    pub enabled: bool,
    /// How deliveries are understood.
    pub definition: String,
    /// The credential that administrates its registration.
    pub administration_credential_handle: String,
    /// Its registration, where there is one yet.
    pub registration: Option<String>,
}

/// Whether the registration of an integration, where there is one, can be read.
pub open spec fn is_readable_registration(row: ManagedWebhookRow) -> bool {
    row.remote_registration is Some ==> row.registration_is_readable
}

/// Whether the registration of an integration, where there is one, is valid.
pub open spec fn is_valid_registration(row: ManagedWebhookRow) -> bool {
    row.remote_registration is Some ==> row.registration_is_valid
}

/// Whether a record is the one of a row.
pub open spec fn is_managed_record_of(record: ManagedWebhookRecord, integration_id: u128, row: ManagedWebhookRow) -> bool {
    &&& record.integration_id == integration_id
    &&& record.trigger == trigger_in(row.webhook.columns)
    &&& record.target == target_in(row.webhook.columns)
    &&& record.enabled == row.webhook.enabled
    &&& record.definition@ == row.webhook.definition@
    &&& record.administration_credential_handle@ == row.administration_credential_handle@
    &&& optional_text(record.registration) == optional_text(row.remote_registration)
}

fn managed_record(integration_id: u128, row: ManagedWebhookRow) -> (result: Result<ManagedWebhookRecord, StoreError>)
    ensures
        match result {
            Ok(record) => {
                &&& is_readable_webhook(row.webhook)
                &&& is_readable_registration(row)
                &&& is_managed_record_of(record, integration_id, row)
            },
            Err(error) => error == StoreError::Unavailable && !(is_readable_webhook(row.webhook)
                && is_readable_registration(row)),
        },
{
    if !is_external(&row.webhook) || !row.webhook.definition_is_valid {
        return Err(StoreError::Unavailable);
    }
    if row.remote_registration.is_some() && !row.registration_is_readable {
        return Err(StoreError::Unavailable);
    }
    let (trigger, target) = decode(row.webhook.columns)?;
    Ok(
        ManagedWebhookRecord {
            integration_id,
            trigger,
            target,
            enabled: row.webhook.enabled,
            definition: row.webhook.definition,
            administration_credential_handle: row.administration_credential_handle,
            registration: row.remote_registration,
        },
    )
}

/// Reads an integration that is registered with its service, where there is one.
pub fn read_managed(integration_id: u128, row: Option<ManagedWebhookRow>) -> (result: Result<
    ManagedWebhookRecord,
    StoreError,
>)
    ensures
        match row {
            None => result is Err && result->Err_0 == (StoreError::NotFound { entity: EntityKind::Integration }),
            Some(row) => {
                let readable = is_readable_webhook(row.webhook) && is_readable_registration(row)
                    && is_valid_registration(row);
                match result {
                    Ok(record) => readable && is_managed_record_of(record, integration_id, row),
                    Err(error) => error == StoreError::Unavailable && !readable,
                }
            },
        },
{
    match row {
        None => Err(StoreError::NotFound { entity: EntityKind::Integration }),
        Some(row) => {
            if row.remote_registration.is_some() && !row.registration_is_valid {
                return Err(StoreError::Unavailable);
            }
            managed_record(integration_id, row)
        },
    }
}

/// The kind of mutation that records what was done to a registration.
pub open spec fn recording_kind(operation: ManagedWebhookOperation) -> MutationKind {
    match operation {
        ManagedWebhookOperation::Create => MutationKind::CompleteManagedWebhookCreate,
        ManagedWebhookOperation::Observe => MutationKind::ObserveManagedWebhook,
        ManagedWebhookOperation::Rotate => MutationKind::RotateManagedWebhook,
        ManagedWebhookOperation::Delete => MutationKind::DeleteManagedWebhook,
    }
}

/// The kind of mutation that records what was done to a registration.
pub fn record_kind(operation: ManagedWebhookOperation) -> (kind: MutationKind)
    ensures
        kind == recording_kind(operation),
{
    match operation {
        ManagedWebhookOperation::Create => MutationKind::CompleteManagedWebhookCreate,
        ManagedWebhookOperation::Observe => MutationKind::ObserveManagedWebhook,
        ManagedWebhookOperation::Rotate => MutationKind::RotateManagedWebhook,
        ManagedWebhookOperation::Delete => MutationKind::DeleteManagedWebhook,
    }
}

/// What is recorded of different operations is kept apart, whatever keys the requests bear.
pub proof fn operations_are_recorded_apart(a: ManagedWebhookOperation, b: ManagedWebhookOperation)
    ensures
        recording_kind(a) == recording_kind(b) ==> a == b,
{
}

/// A request to record what was done to a registration.
pub struct RecordManagedWebhookRegistration {
    /// The integration.
    pub integration_id: u128,
    /// What was done.
    pub operation: ManagedWebhookOperation,
    /// The registration since then.
    pub registration: String,
    /// Its status.
    pub registration_status: String,
}

/// The trigger of an integration as the database holds it.
#[derive(Clone, Copy, Debug, PartialEq, Eq, Structural)]
pub struct TriggerRow {
    /// The trigger.
    pub trigger_id: u128,
    /// Its version.
    pub trigger_version: i64,
}

/// The trigger of an integration whose registration is recorded: the request must be valid, the integration must
/// exist, and the worker must hold the operation, whose completion then writes one row.
pub open spec fn recording(
    validated: Result<(), StoreError>,
    trigger: Option<TriggerRow>,
    completed_rows: u64,
) -> Result<TriggerDefinitionRef, StoreError> {
    match (validated, trigger) {
        (Err(error), _) => Err(error),
        (Ok(()), None) => Err(StoreError::NotFound { entity: EntityKind::Integration }),
        (Ok(()), Some(row)) => if completed_rows != 1 {
            Err(StoreError::Conflict { entity: EntityKind::Integration })
        } else if !is_identity(row.trigger_id) || !is_version(row.trigger_version) {
            Err(StoreError::Unavailable)
        } else {
            Ok(TriggerDefinitionRef { id: row.trigger_id, version: row.trigger_version as u64 })
        },
    }
}

/// Records what was done to a registration: gives the outcome, and whether the trigger is set off no longer.
/// `validated` is the verdict on the request by itself.
pub fn record_managed(
    validated: Result<(), StoreError>,
    request: &RecordManagedWebhookRegistration,
    trigger: Option<TriggerRow>,
    completed_rows: u64,
) -> (result: Result<(ManagedWebhookMutationOutcome, bool), StoreError>)
    ensures
        match (recording(validated, trigger, completed_rows), result) {
            (Ok(trigger), Ok(recorded)) => {
                &&& recorded.0.disposition == MutationDisposition::Applied
                &&& recorded.0.integration_id == request.integration_id
                &&& recorded.0.trigger == trigger
                &&& optional_text(recorded.0.registration) == Some(request.registration@)
                &&& recorded.1 == (request.operation == ManagedWebhookOperation::Delete)
            },
            (Err(refusal), Err(error)) => error == refusal,
            _ => false,
        },
{
    validated?;
    let row = match trigger {
        Some(row) => row,
        None => {
            return Err(StoreError::NotFound { entity: EntityKind::Integration });
        },
    };
    if completed_rows != 1 {
        return Err(StoreError::Conflict { entity: EntityKind::Integration });
    }
    let trigger = TriggerDefinitionRef { id: identity(row.trigger_id)?, version: version(row.trigger_version)? };
    Ok(
        (
            ManagedWebhookMutationOutcome {
                disposition: MutationDisposition::Applied,
                integration_id: request.integration_id,
                trigger,
                registration: Some(request.registration.clone()),
            },
            request.operation == ManagedWebhookOperation::Delete,
        ),
    )
}

/// Turns the stored outcome of a record into the answer to a repeated request.
pub fn replay_record(outcome: ManagedWebhookMutationOutcome) -> (replayed: ManagedWebhookMutationOutcome)
    ensures
        replayed == (ManagedWebhookMutationOutcome { disposition: MutationDisposition::Replayed, ..outcome }),
{
    ManagedWebhookMutationOutcome { disposition: MutationDisposition::Replayed, ..outcome }
}

/// What the audit trail and the outbox are told of what was done to a registration.
pub fn record_facts(request: &RecordManagedWebhookRegistration) -> (facts: MutationFacts)
    ensures
        facts.actor_kind@ == "management_api"@,
        facts.actor_identity is None,
        facts.target_identity@ == hyphenated(request.integration_id),
        facts.safe_metadata@.len() == 2,
        facts.safe_metadata@[0].name@ == "operation"@,
        facts.safe_metadata@[0].value matches FactValue::Word(word) && word@ == managed_operation_text(
            request.operation,
        ),
        facts.safe_metadata@[1].name@ == "registration_status"@,
        facts.safe_metadata@[1].value matches FactValue::Text(text) && text@ == request.registration_status@,
        facts.outbox_payload@.len() == 3,
        facts.outbox_payload@[0] == (Member {
            name: "integration_id",
            value: FactValue::Identity(request.integration_id),
        }),
        facts.outbox_payload@[1].name@ == "operation"@,
        facts.outbox_payload@[1].value matches FactValue::Word(word) && word@ == managed_operation_text(
            request.operation,
        ),
        facts.outbox_payload@[2].name@ == "registration_status"@,
        facts.outbox_payload@[2].value matches FactValue::Text(text) && text@ == request.registration_status@,
{
    MutationFacts {
        actor_kind: "management_api",
        actor_identity: None,
        target_identity: identity_text(request.integration_id),
        safe_metadata: vec![
            Member { name: "operation", value: FactValue::Word(managed_operation(request.operation)) },
            Member { name: "registration_status", value: FactValue::Text(request.registration_status.clone()) },
        ],
        outbox_payload: vec![
            Member { name: "integration_id", value: FactValue::Identity(request.integration_id) },
            Member { name: "operation", value: FactValue::Word(managed_operation(request.operation)) },
            Member { name: "registration_status", value: FactValue::Text(request.registration_status.clone()) },
        ],
    }
}

/// Whether work that was queued is new: a repeated request queues nothing.
pub fn enqueued(inserted_rows: u64) -> (disposition: MutationDisposition)
    ensures
        disposition == (if inserted_rows == 1 {
            MutationDisposition::Applied
        } else {
            MutationDisposition::Replayed
        }),
{
    if inserted_rows == 1 {
        MutationDisposition::Applied
    } else {
        MutationDisposition::Replayed
    }
}

/// Whether a column holds a number of attempts.
pub open spec fn is_attempts(column: i32) -> bool {
    0 <= column <= u16::MAX
}

/// Reads a number of attempts.
pub fn attempts(column: i32) -> (result: Result<u16, StoreError>)
    ensures
        result == (if is_attempts(column) {
            Ok::<u16, StoreError>(column as u16)
        } else {
            Err(StoreError::Unavailable)
        }),
{
    if column < 0 || column > 65535 {
        Err(StoreError::Unavailable)
    } else {
        Ok(column as u16)
    }
}

/// A claimed operation as the database holds it.
pub struct ManagedOperationClaimRow {
    /// The integration.
    pub integration_id: u128,
    /// What is to be done.
    pub operation: String,
    /// Key of the request.
    pub idempotency_key: String,
    /// Whether that is a valid key.
    pub key_is_valid: bool,
    /// How often it was tried.
    pub attempts: i32,
    /// What the integration is.
    pub integration: ManagedWebhookRow,
}

/// A claimed operation.
pub struct ManagedWebhookOperationClaim {
    /// The integration.
    pub integration: ManagedWebhookRecord,
    /// What is to be done.
    pub operation: ManagedWebhookOperation,
    /// Key of the request.
    pub idempotency_key: String,
    /// How often it was tried.
    pub attempt: u16,
    /// Who works on it.
    pub owner: String,
    /// When the claim runs out.
    pub claim_expires_at: i64,
}

/// Whether a claimed operation can be read.
pub open spec fn is_readable_operation(row: ManagedOperationClaimRow) -> bool {
    &&& is_readable_webhook(row.integration.webhook)
    &&& is_readable_registration(row.integration)
    &&& is_identity(row.integration_id)
    &&& exists|operation: ManagedWebhookOperation| row.operation@ == #[trigger] managed_operation_text(operation)
    &&& row.key_is_valid
    &&& is_attempts(row.attempts)
}

/// Whether a claim is the one of a row.
pub open spec fn is_operation_of(
    claim: ManagedWebhookOperationClaim,
    row: ManagedOperationClaimRow,
    owner: Seq<char>,
    claim_expires_at: i64,
) -> bool {
    &&& is_managed_record_of(claim.integration, row.integration_id, row.integration)
    &&& row.operation@ == managed_operation_text(claim.operation)
    &&& claim.idempotency_key@ == row.idempotency_key@
    &&& claim.attempt == row.attempts
    &&& claim.owner@ == owner
    &&& claim.claim_expires_at == claim_expires_at
}

/// Reads a claimed operation.
pub fn decode_managed_operation_claim(row: ManagedOperationClaimRow, owner: &String, claim_expires_at: i64) -> (result:
    Result<ManagedWebhookOperationClaim, StoreError>)
    ensures
        match result {
            Ok(claim) => is_readable_operation(row) && is_operation_of(claim, row, owner@, claim_expires_at),
            Err(error) => error == StoreError::Unavailable && !is_readable_operation(row),
        },
{
    let integration_id: u128 = identity(row.integration_id)?;
    let integration = managed_record(integration_id, row.integration)?;
    let operation = parse_managed_operation(row.operation.as_str())?;
    assert(row.operation@ == managed_operation_text(operation));
    if !row.key_is_valid {
        return Err(StoreError::Unavailable);
    }
    let attempt: u16 = attempts(row.attempts)?;
    Ok(
        ManagedWebhookOperationClaim {
            integration,
            operation,
            idempotency_key: row.idempotency_key,
            attempt,
            owner: owner.clone(),
            claim_expires_at,
        },
    )
}

/// Requires that the worker held what it worked on: recording its result then writes one row.
pub fn require_held(updated_rows: u64) -> (result: Result<(), StoreError>)
    ensures
        result == (if updated_rows == 1 {
            Ok::<(), StoreError>(())
        } else {
            Err(StoreError::Conflict { entity: EntityKind::Integration })
        }),
{
    if updated_rows == 1 {
        Ok(())
    } else {
        Err(StoreError::Conflict { entity: EntityKind::Integration })
    }
}

/// Whether every claimed operation can be read.
pub open spec fn are_readable_operations(rows: Seq<ManagedOperationClaimRow>) -> bool {
    forall|i: int| 0 <= i < rows.len() ==> is_readable_operation(#[trigger] rows[i])
}

/// Reads the operations that were claimed; one that cannot be read fails them all.
pub fn claim_managed_operations(rows: Vec<ManagedOperationClaimRow>, owner: &String, claim_expires_at: i64) -> (result:
    Result<Vec<ManagedWebhookOperationClaim>, StoreError>)
    ensures
        match result {
            Ok(claims) => are_readable_operations(rows@) && claims@.len() == rows@.len() && forall|i: int|
                0 <= i < rows@.len() ==> is_operation_of(#[trigger] claims@[i], rows@[i], owner@, claim_expires_at),
            Err(error) => error == StoreError::Unavailable && !are_readable_operations(rows@),
        },
{
    let ghost fetched = rows@;
    let mut remaining = rows;
    let mut claims: Vec<ManagedWebhookOperationClaim> = Vec::new();
    while remaining.len() > 0
        invariant
            fetched == rows@,
            claims@.len() + remaining@.len() == fetched.len(),
            remaining@ == fetched.skip(claims@.len() as int),
            forall|i: int| 0 <= i < claims@.len() ==> is_readable_operation(#[trigger] fetched[i]),
            forall|i: int|
                0 <= i < claims@.len() ==> is_operation_of(#[trigger] claims@[i], fetched[i], owner@, claim_expires_at),
        decreases remaining@.len(),
    {
        let ghost at = claims@.len() as int;
        let row = remaining.remove(0);
        assert(row == fetched[at]);
        match decode_managed_operation_claim(row, owner, claim_expires_at) {
            Ok(claim) => {
                claims.push(claim);
            },
            Err(error) => {
                assert(!is_readable_operation(rows@[at]));
                return Err(error);
            },
        }
        assert(remaining@ =~= fetched.skip(claims@.len() as int));
    }
    Ok(claims)
}

/// The state that a failed operation is left in: it is tried again where a time is set for that.
pub open spec fn failed_operation(retry_at: Option<i64>) -> &'static str {
    if retry_at is Some {
        "retry_scheduled"
    } else {
        "dead_letter"
    }
}

/// Records the failure of an operation: `validated` is the verdict on the report by itself, and the worker has to
/// hold the operation. Gives the state that it is left in.
pub fn fail_managed_operation(validated: Result<(), StoreError>, retry_at: Option<i64>, updated_rows: u64) -> (result:
    Result<&'static str, StoreError>)
    ensures
        result == (match validated {
            Err(error) => Err::<&'static str, StoreError>(error),
            Ok(()) => if updated_rows == 1 {
                Ok(failed_operation(retry_at))
            } else {
                Err(StoreError::Conflict { entity: EntityKind::Integration })
            },
        }),
{
    match validated {
        Ok(()) => {},
        Err(error) => {
            return Err(error);
        },
    }
    match require_held(updated_rows) {
        Ok(()) => {},
        Err(error) => {
            return Err(error);
        },
    }
    if retry_at.is_some() {
        Ok("retry_scheduled")
    } else {
        Ok("dead_letter")
    }
}

/// What a registration with a service comes to is recorded exactly for an integration that exists and whose operation
/// is still held; it is told of the trigger that the integration is for.
pub proof fn registrations_are_recorded_while_held(row: TriggerRow, completed_rows: u64)
    requires
        row.trigger_id != 0,
        row.trigger_version > 0,
    ensures
        recording(Ok(()), Some(row), completed_rows) == (if completed_rows == 1 {
            Ok::<TriggerDefinitionRef, StoreError>(
                TriggerDefinitionRef { id: row.trigger_id, version: row.trigger_version as u64 },
            )
        } else {
            Err(StoreError::Conflict { entity: EntityKind::Integration })
        }),
        recording(Ok(()), None, completed_rows) == Err::<TriggerDefinitionRef, StoreError>(
            StoreError::NotFound { entity: EntityKind::Integration },
        ),
        forall|error: StoreError| #[trigger]
            recording(Err(error), Some(row), completed_rows) == Err::<TriggerDefinitionRef, StoreError>(error),
{
}

/// Each operation on a registration is recorded as what it is.
pub proof fn operations_are_recorded_as_what_they_are()
    ensures
        recording_kind(ManagedWebhookOperation::Create) == MutationKind::CompleteManagedWebhookCreate,
        recording_kind(ManagedWebhookOperation::Observe) == MutationKind::ObserveManagedWebhook,
        recording_kind(ManagedWebhookOperation::Rotate) == MutationKind::RotateManagedWebhook,
        recording_kind(ManagedWebhookOperation::Delete) == MutationKind::DeleteManagedWebhook,
{
}

/// A webhook is created exactly where the request is in order and its versions can be stored, which are then those of
/// the trigger and of the configuration.
pub proof fn webhooks_are_created_with_their_versions(
    trigger: TriggerDefinitionRef,
    target: TriggerTarget,
    operation: StoreOperation,
    refusal: StoreError,
)
    ensures
        creation(Ok(()), trigger, target, operation) is Ok <==> trigger.version <= i64::MAX
            && target.configuration_version <= i64::MAX,
        creation(Ok(()), trigger, target, operation) matches Ok((trigger_version, configuration_version))
            ==> trigger_version == trigger.version && configuration_version == target.configuration_version,
        creation(Err(refusal), trigger, target, operation) == Err::<(i64, i64), StoreError>(refusal),
{
}

/// An operation that failed is tried again where a time for that is given, and given up where none is.
pub proof fn failed_operations_are_tried_again(retry_at: i64)
    ensures
        failed_operation(Some(retry_at)) == "retry_scheduled",
        failed_operation(None) == "dead_letter",
{
}

/// A webhook is read only as a trigger from outside; it is read with its trigger, what that builds, whether it is on
/// and its registration, as on record.
pub proof fn webhooks_are_read_as_recorded(record: ManagedWebhookRecord, integration_id: u128, row: ManagedWebhookRow)
    ensures
        is_managed_record_of(record, integration_id, row) && is_readable_webhook(row.webhook) ==> record.integration_id
            == integration_id && record.trigger.id == row.webhook.columns.trigger_id && record.trigger.version
            == row.webhook.columns.trigger_version && record.target.configuration_id
            == row.webhook.columns.build_configuration_id && record.target.configuration_version
            == row.webhook.columns.build_configuration_version && record.enabled == row.webhook.enabled
            && record.definition@ == row.webhook.definition@ && record.administration_credential_handle@
            == row.administration_credential_handle@ && optional_text(record.registration) == optional_text(
            row.remote_registration,
        ),
        is_readable_webhook(row.webhook) ==> row.webhook.trigger_kind@ == "external"@ && row.webhook.definition_is_valid,
{
}

/// A claimed operation is that of its row, held by the worker that claimed it.
pub proof fn operations_are_claimed_for_their_worker(
    claim: ManagedWebhookOperationClaim,
    row: ManagedOperationClaimRow,
    owner: Seq<char>,
    claim_expires_at: i64,
)
    requires
        is_operation_of(claim, row, owner, claim_expires_at),
    ensures
        claim.integration.integration_id == row.integration_id,
        claim.operation == ManagedWebhookOperation::Create <==> row.operation@ == "create"@,
        claim.operation == ManagedWebhookOperation::Observe <==> row.operation@ == "observe"@,
        claim.operation == ManagedWebhookOperation::Rotate <==> row.operation@ == "rotate"@,
        claim.operation == ManagedWebhookOperation::Delete <==> row.operation@ == "delete"@,
        claim.idempotency_key@ == row.idempotency_key@ && claim.attempt == row.attempts,
        claim.owner@ == owner && claim.claim_expires_at == claim_expires_at,
{
    managed_operation_text_names_one_value(claim.operation, ManagedWebhookOperation::Create);
    managed_operation_text_names_one_value(claim.operation, ManagedWebhookOperation::Observe);
    managed_operation_text_names_one_value(claim.operation, ManagedWebhookOperation::Rotate);
    managed_operation_text_names_one_value(claim.operation, ManagedWebhookOperation::Delete);
}

/// Each reason for a failure is stored under its own name.
pub proof fn failure_codes_are_stored_by_name()
    ensures
        failure_code_text(WebhookFailureCode::AuthenticationFailed) == "authentication_failed"@,
        failure_code_text(WebhookFailureCode::InvalidConfiguration) == "invalid_configuration"@,
        failure_code_text(WebhookFailureCode::Unsupported) == "unsupported"@,
        failure_code_text(WebhookFailureCode::Permanent) == "permanent"@,
        failure_code_text(WebhookFailureCode::Cancelled) == "cancelled"@,
        failure_code_text(WebhookFailureCode::Unavailable) == "unavailable"@,
        failure_code_text(WebhookFailureCode::InvalidResponse) == "invalid_response"@,
        failure_code_text(WebhookFailureCode::NormalizedEventMismatch) == "normalized_event_mismatch"@,
        failure_code_text(WebhookFailureCode::DeliveryIdentityConflict) == "delivery_identity_conflict"@,
        failure_code_text(WebhookFailureCode::TriggerEvaluationFailed) == "trigger_evaluation_failed"@,
{
}

/// A webhook is read exactly where it is that of an external trigger whose columns are sound and whose definition is
/// valid, and an operation on it exactly where the integration is set, the operation is known, its key is valid and
/// its attempts can be counted.
pub proof fn sound_webhooks_are_read(webhook: WebhookRow, row: ManagedOperationClaimRow)
    ensures
        is_readable_webhook(webhook) <==> webhook.trigger_kind@ == "external"@ && webhook.definition_is_valid
            && is_readable(webhook.columns),
        is_readable_operation(row) <==> is_readable_webhook(row.integration.webhook) && (
        row.integration.remote_registration is None || row.integration.registration_is_readable) && row.integration_id
            != 0 && (row.operation@ == "create"@ || row.operation@ == "observe"@ || row.operation@ == "rotate"@
            || row.operation@ == "delete"@) && row.key_is_valid && is_attempts(row.attempts),
{
    assert(managed_operation_text(ManagedWebhookOperation::Create) == "create"@);
    assert(managed_operation_text(ManagedWebhookOperation::Observe) == "observe"@);
    assert(managed_operation_text(ManagedWebhookOperation::Rotate) == "rotate"@);
    assert(managed_operation_text(ManagedWebhookOperation::Delete) == "delete"@);
}

/// A trigger without an identity or a version is reported as unavailable.
pub proof fn damaged_triggers_are_unavailable(row: TriggerRow)
    ensures
        row.trigger_id == 0 || row.trigger_version <= 0 ==> recording(Ok(()), Some(row), 1) == Err::<
            TriggerDefinitionRef,
            StoreError,
        >(StoreError::Unavailable),
{
}

/// A registration that is stored is valid where it says so, and a page of operations is read exactly where each of
/// them is.
pub proof fn pages_of_operations_are_read(row: ManagedWebhookRow, rows: Seq<ManagedOperationClaimRow>)
    ensures
        row.remote_registration is None ==> is_valid_registration(row),
        row.remote_registration is Some ==> (is_valid_registration(row) <==> row.registration_is_valid),
        are_readable_operations(rows) <==> forall|i: int|
            0 <= i < rows.len() ==> is_readable_operation(#[trigger] rows[i]),
{
}

/// Attempts are counted from zero, up to what sixteen bits hold.
pub proof fn attempts_are_counted_from_zero(column: i32)
    ensures
        is_attempts(column) <==> 0 <= column <= 0xffff,
{
}

} // verus!
