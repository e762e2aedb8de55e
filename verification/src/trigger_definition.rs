//! Definitions of triggers: what they are, what they build, and their creation.

use vstd::prelude::*;

use crate::accept_trigger::{TriggerDefinitionRef, TriggerTarget};
use crate::database::{fits_column, number, out_of_range};
use crate::domain::{identity, is_identity, is_version, version, MutationDisposition, StoreError, StoreOperation};
use crate::identity_text::{hyphenated, identity_text};
use crate::mutation::{FactValue, Member, MutationFacts};

verus! {

/// What sets a trigger off.
#[derive(Clone, Copy, Debug, PartialEq, Eq, Structural)]
pub enum TriggerKind {
    /// Stored as `manual`.
    Manual,
    /// Stored as `scheduled`.
    Scheduled,
    /// Stored as `internal`.
    Internal,
    /// Stored as `external`.
    External,
}

/// The stored name of a kind of trigger.
pub open spec fn kind_name_text(value: TriggerKind) -> Seq<char> {
    match value {
        TriggerKind::Manual => "manual"@,
        TriggerKind::Scheduled => "scheduled"@,
        TriggerKind::Internal => "internal"@,
        TriggerKind::External => "external"@,
    }
}

/// No two values share a stored name.
pub proof fn kind_name_text_names_one_value(a: TriggerKind, b: TriggerKind)
    ensures
        kind_name_text(a) == kind_name_text(b) ==> a == b,
{
    reveal_strlit("manual");
    reveal_strlit("scheduled");
    reveal_strlit("internal");
    reveal_strlit("external");
    assert("manual"@.len() == 6);
    assert("scheduled"@.len() == 9);
    assert("internal"@.len() == 8);
    assert("external"@.len() == 8);
    assert("internal"@[0] == 'i');
    assert("external"@[0] == 'e');
}

/// Names a kind of trigger as the database stores it.
pub fn kind_name(value: TriggerKind) -> (text: &'static str)
    ensures
        text@ == kind_name_text(value),
{
    match value {
        TriggerKind::Manual => "manual",
        TriggerKind::Scheduled => "scheduled",
        TriggerKind::Internal => "internal",
        TriggerKind::External => "external",
    }
}
/// A version of a trigger and what it builds, as the database holds them.
#[derive(Clone, Copy, Debug, PartialEq, Eq, Structural)]
pub struct TriggerColumns {
    /// The trigger.
    pub trigger_id: u128,
    /// Its version.
    pub trigger_version: i64,
    /// The build configuration.
    pub build_configuration_id: u128,
    /// Its version.
    pub build_configuration_version: i64,
}

/// Whether a version of a trigger and what it builds can be read.
pub open spec fn is_readable(row: TriggerColumns) -> bool {
    &&& is_identity(row.trigger_id)
    &&& is_version(row.trigger_version)
    &&& is_identity(row.build_configuration_id)
    &&& is_version(row.build_configuration_version)
}

/// The version of a trigger in a row.
pub open spec fn trigger_in(row: TriggerColumns) -> TriggerDefinitionRef {
    TriggerDefinitionRef { id: row.trigger_id, version: row.trigger_version as u64 }
}

/// What the trigger in a row builds.
pub open spec fn target_in(row: TriggerColumns) -> TriggerTarget {
    TriggerTarget {
        configuration_id: row.build_configuration_id,
        configuration_version: row.build_configuration_version as u64,
    }
}

/// Reads a version of a trigger and what it builds.
pub fn decode(row: TriggerColumns) -> (result: Result<(TriggerDefinitionRef, TriggerTarget), StoreError>)
    ensures
        result == (if is_readable(row) {
            Ok::<(TriggerDefinitionRef, TriggerTarget), StoreError>((trigger_in(row), target_in(row)))
        } else {
            Err(StoreError::Unavailable)
        }),
{
    let trigger = TriggerDefinitionRef { id: identity(row.trigger_id)?, version: version(row.trigger_version)? };
    let target = TriggerTarget {
        configuration_id: identity(row.build_configuration_id)?,
        configuration_version: version(row.build_configuration_version)?,
    };
    Ok((trigger, target))
}

/// The versions of a trigger and of what it builds, as they are stored.
pub open spec fn stored_versions(trigger_version: u64, configuration_version: u64, operation: StoreOperation) -> Result<
    (i64, i64),
    StoreError,
> {
    if fits_column(trigger_version) && fits_column(configuration_version) {
        Ok((trigger_version as i64, configuration_version as i64))
    } else {
        Err(out_of_range(operation))
    }
}

/// The versions of a trigger and of what it builds, as they are stored.
pub fn versions(trigger_version: u64, configuration_version: u64, operation: StoreOperation) -> (result: Result<
    (i64, i64),
    StoreError,
>)
    ensures
        result == stored_versions(trigger_version, configuration_version, operation),
{
    let trigger_version: i64 = number(trigger_version, operation)?;
    let configuration_version: i64 = number(configuration_version, operation)?;
    Ok((trigger_version, configuration_version))
}

/// What reads back a version of a trigger is what was stored of it.
pub proof fn stored_triggers_are_read_back(
    trigger: TriggerDefinitionRef,
    target: TriggerTarget,
    operation: StoreOperation,
    row: TriggerColumns,
)
    requires
        is_identity(trigger.id),
        trigger.version > 0,
        is_identity(target.configuration_id),
        target.configuration_version > 0,
        row.trigger_id == trigger.id,
        row.build_configuration_id == target.configuration_id,
        stored_versions(trigger.version, target.configuration_version, operation) == Ok::<(i64, i64), StoreError>(
            (row.trigger_version, row.build_configuration_version),
        ),
    ensures
        is_readable(row),
        trigger_in(row) == trigger,
        target_in(row) == target,
{
}

/// A created or newly published trigger.
#[derive(Clone, Copy, Debug, PartialEq, Eq, Structural)]
pub struct TriggerDefinitionMutationOutcome {
    /// Whether that happened now or before.
    pub disposition: MutationDisposition,
    /// The trigger.
    pub trigger_id: u128,
    /// Its version.
    pub version: u64,
}

/// The outcome of a repeated request.
pub open spec fn as_repeated(outcome: TriggerDefinitionMutationOutcome) -> TriggerDefinitionMutationOutcome {
    TriggerDefinitionMutationOutcome { disposition: MutationDisposition::Replayed, ..outcome }
}

/// Turns a stored outcome into the answer to a repeated request.
pub fn replay_trigger(outcome: TriggerDefinitionMutationOutcome) -> (replayed: TriggerDefinitionMutationOutcome)
    ensures
        replayed == as_repeated(outcome),
{
    TriggerDefinitionMutationOutcome { disposition: MutationDisposition::Replayed, ..outcome }
}

/// A request to create a trigger.
#[derive(Clone, Copy, Debug, PartialEq, Eq, Structural)]
pub struct CreateTriggerDefinition {
    /// The trigger.
    pub id: u128,
    /// Its version.
    pub version: u64,
    /// The build configuration it builds.
    pub configuration_id: u128,
    /// Version of that.
    pub configuration_version: u64,
    /// What sets it off.
    pub kind: TriggerKind,
    /// Whether it is set off at all.
    pub enabled: bool,
}

/// Creates a trigger: gives the row to insert and the outcome. `validated` is the verdict on the request by
/// itself.
pub fn create_trigger(validated: Result<(), StoreError>, request: &CreateTriggerDefinition) -> (result: Result<
    (TriggerColumns, TriggerDefinitionMutationOutcome),
    StoreError,
>)
    ensures
        result == creation(validated, *request, StoreOperation::CreateTriggerDefinition),
{
    validated?;
    let (trigger_version, configuration_version) = versions(
        request.version,
        request.configuration_version,
        StoreOperation::CreateTriggerDefinition,
    )?;
    Ok(
        (
            TriggerColumns {
                trigger_id: request.id,
                trigger_version,
                build_configuration_id: request.configuration_id,
                build_configuration_version: configuration_version,
            },
            TriggerDefinitionMutationOutcome {
                disposition: MutationDisposition::Applied,
                trigger_id: request.id,
                version: request.version,
            },
        ),
    )
}

/// The row and the outcome of the creation of a trigger.
pub open spec fn creation(
    validated: Result<(), StoreError>,
    request: CreateTriggerDefinition,
    operation: StoreOperation,
) -> Result<(TriggerColumns, TriggerDefinitionMutationOutcome), StoreError> {
    match validated {
        Err(error) => Err(error),
        Ok(()) => match stored_versions(request.version, request.configuration_version, operation) {
            Err(error) => Err(error),
            Ok((trigger_version, configuration_version)) => Ok(
                (
                    TriggerColumns {
                        trigger_id: request.id,
                        trigger_version,
                        build_configuration_id: request.configuration_id,
                        build_configuration_version: configuration_version,
                    },
                    TriggerDefinitionMutationOutcome {
                        disposition: MutationDisposition::Applied,
                        trigger_id: request.id,
                        version: request.version,
                    },
                ),
            ),
        },
    }
}

/// What the audit trail and the outbox are told of a trigger of some kind that was created or published.
pub fn trigger_facts(outcome: &TriggerDefinitionMutationOutcome, kind: TriggerKind, enabled: bool) -> (facts:
    MutationFacts)
    ensures
        facts.actor_kind@ == "management_api"@,
        facts.actor_identity is None,
        facts.target_identity@ == hyphenated(outcome.trigger_id),
        facts.safe_metadata@.len() == 3,
        facts.safe_metadata@[0] == (Member { name: "version", value: FactValue::Number(outcome.version) }),
        facts.safe_metadata@[1].name@ == "kind"@,
        facts.safe_metadata@[1].value matches FactValue::Word(word) && word@ == kind_name_text(kind),
        facts.safe_metadata@[2] == (Member { name: "enabled", value: FactValue::Flag(enabled) }),
        facts.outbox_payload@ == seq![
            (Member { name: "trigger_id", value: FactValue::Identity(outcome.trigger_id) }),
            (Member { name: "version", value: FactValue::Number(outcome.version) }),
        ],
{
    MutationFacts {
        actor_kind: "management_api",
        actor_identity: None,
        target_identity: identity_text(outcome.trigger_id),
        safe_metadata: vec![
            Member { name: "version", value: FactValue::Number(outcome.version) },
            Member { name: "kind", value: FactValue::Word(kind_name(kind)) },
            Member { name: "enabled", value: FactValue::Flag(enabled) },
        ],
        outbox_payload: vec![
            Member { name: "trigger_id", value: FactValue::Identity(outcome.trigger_id) },
            Member { name: "version", value: FactValue::Number(outcome.version) },
        ],
    }
}

/// A trigger is created in the version, and for the configuration, that the request names; only a version that cannot
/// be stored is refused.
pub proof fn triggers_are_created_as_asked(request: CreateTriggerDefinition, operation: StoreOperation)
    ensures
        creation(Ok(()), request, operation) is Ok <==> request.version <= i64::MAX && request.configuration_version
            <= i64::MAX,
        creation(Ok(()), request, operation) matches Ok((row, outcome)) ==> row.trigger_id == request.id
            && row.trigger_version == request.version && row.build_configuration_id == request.configuration_id
            && row.build_configuration_version == request.configuration_version && outcome.trigger_id == request.id
            && outcome.version == request.version && outcome.disposition == MutationDisposition::Applied,
        forall|error: StoreError| #[trigger]
            creation(Err(error), request, operation) == Err::<
                (TriggerColumns, TriggerDefinitionMutationOutcome),
                StoreError,
            >(error),
{
}

/// A trigger and what it builds are read from their own columns.
pub proof fn triggers_are_read_as_recorded(row: TriggerColumns)
    ensures
        is_readable(row) <==> row.trigger_id != 0 && row.trigger_version > 0 && row.build_configuration_id != 0
            && row.build_configuration_version > 0,
        is_readable(row) ==> trigger_in(row).id == row.trigger_id && trigger_in(row).version == row.trigger_version
            && target_in(row).configuration_id == row.build_configuration_id && target_in(row).configuration_version
            == row.build_configuration_version,
        forall|outcome: TriggerDefinitionMutationOutcome|
            (#[trigger] as_repeated(outcome)).trigger_id == outcome.trigger_id && as_repeated(outcome).version
                == outcome.version && as_repeated(outcome).disposition == MutationDisposition::Replayed,
{
}

/// Each kind of trigger is stored under its own name.
pub proof fn kinds_of_triggers_are_stored_by_name()
    ensures
        kind_name_text(TriggerKind::Manual) == "manual"@,
        kind_name_text(TriggerKind::Scheduled) == "scheduled"@,
        kind_name_text(TriggerKind::Internal) == "internal"@,
        kind_name_text(TriggerKind::External) == "external"@,
{
}

} // verus!
