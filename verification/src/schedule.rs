//! Triggers that come due by a schedule.

use vstd::prelude::*;

use crate::accept_trigger::{TriggerDefinitionRef, TriggerTarget};
use crate::database::{fits_column, number, out_of_range};
use crate::domain::{
    is_timestamp, timestamp, EntityKind, MutationDisposition, StoreError, StoreInputError, StoreOperation,
};
use crate::identity_text::{hyphenated, identity_text};
use crate::mutation::{FactValue, Member, MutationFacts};
use crate::trigger_definition::{
    creation, decode as decode_columns, is_readable as is_readable_trigger, target_in, trigger_in, versions,
    CreateTriggerDefinition, TriggerColumns, TriggerDefinitionMutationOutcome,
};

verus! {

/// Creates a trigger with a schedule: gives the row to insert and the outcome. `validated` is the verdict on
/// the request by itself.
pub fn create(validated: Result<(), StoreError>, request: &CreateTriggerDefinition) -> (result: Result<
    (TriggerColumns, TriggerDefinitionMutationOutcome),
    StoreError,
>)
    ensures
        result == creation(validated, *request, StoreOperation::CreateSchedule),
{
    validated?;
    let (trigger_version, configuration_version) = versions(
        request.version,
        request.configuration_version,
        StoreOperation::CreateSchedule,
    )?;
    Ok(
        (
            TriggerColumns {
                trigger_id: request.id,
                trigger_version,
                build_configuration_id: request.configuration_id,
                build_configuration_version: configuration_version,
            },
            TriggerDefinitionMutationOutcome {
                disposition: MutationDisposition::Applied,
                trigger_id: request.id,
                version: request.version,
            },
        ),
    )
}

/// What the audit trail and the outbox are told of a new trigger with a schedule.
pub fn facts(outcome: &TriggerDefinitionMutationOutcome, next_occurrence_at: i64) -> (facts: MutationFacts)
    ensures
        facts.actor_kind@ == "management_api"@,
        facts.actor_identity is None,
        facts.target_identity@ == hyphenated(outcome.trigger_id),
        facts.safe_metadata@ == seq![
            (Member { name: "version", value: FactValue::Number(outcome.version) }),
            (Member { name: "kind", value: FactValue::Word("scheduled") }),
        ],
        facts.outbox_payload@ == seq![
            (Member { name: "trigger_id", value: FactValue::Identity(outcome.trigger_id) }),
            (Member { name: "version", value: FactValue::Number(outcome.version) }),
            (Member { name: "next_occurrence_at", value: FactValue::Time(next_occurrence_at) }),
        ],
{
    MutationFacts {
        actor_kind: "management_api",
        actor_identity: None,
        target_identity: identity_text(outcome.trigger_id),
        safe_metadata: vec![
            Member { name: "version", value: FactValue::Number(outcome.version) },
            Member { name: "kind", value: FactValue::Word("scheduled") },
        ],
        outbox_payload: vec![
            Member { name: "trigger_id", value: FactValue::Identity(outcome.trigger_id) },
            Member { name: "version", value: FactValue::Number(outcome.version) },
            Member { name: "next_occurrence_at", value: FactValue::Time(next_occurrence_at) },
        ],
    }
}

/// A schedule as the database holds it.
pub struct ScheduleRow {
    /// The trigger, and what it builds.
    pub columns: TriggerColumns,
    /// Whether it is set off at all.
    pub enabled: bool,
    /// Definition of the trigger.
    pub definition: String,
    /// When it comes due.
    pub expression: String,
    /// The time zone that is meant.
    pub timezone: String,
    /// What happens to occasions that were missed.
    pub missed_run_policy: String,
    /// Whether these make up a valid schedule.
    pub schedule_is_valid: bool,
    /// When it comes due next.
    pub next_occurrence_at_millis: i64,
}

/// A schedule.
pub struct ScheduleDefinition {
    /// When it comes due.
    pub expression: String,
    /// The time zone that is meant.
    pub timezone: String,
    /// What happens to occasions that were missed.
    pub missed_run_policy: String,
}

/// A trigger with its schedule.
pub struct ScheduleRecord {
    /// The trigger.
    pub trigger: TriggerDefinitionRef,
    /// What it builds.
    pub target: TriggerTarget,
    /// Whether it is set off at all.
    pub enabled: bool,
    /// Definition of the trigger.
    pub definition: String,
    /// Its schedule.
    pub schedule: ScheduleDefinition,
    /// When it comes due next.
    pub next_occurrence_at: i64,
}

/// Whether a schedule can be read.
pub open spec fn is_readable(row: ScheduleRow) -> bool {
    is_readable_trigger(row.columns) && row.schedule_is_valid && is_timestamp(row.next_occurrence_at_millis)
}

/// Whether a record is the one of a row.
pub open spec fn is_schedule_of(record: ScheduleRecord, row: ScheduleRow) -> bool {
    &&& record.trigger == trigger_in(row.columns)
    &&& record.target == target_in(row.columns)
    &&& record.enabled == row.enabled
    &&& record.definition@ == row.definition@
    &&& record.schedule.expression@ == row.expression@
    &&& record.schedule.timezone@ == row.timezone@
    &&& record.schedule.missed_run_policy@ == row.missed_run_policy@
    &&& record.next_occurrence_at == row.next_occurrence_at_millis
}

/// Reads a schedule.
pub fn decode(row: &ScheduleRow) -> (result: Result<ScheduleRecord, StoreError>)
    ensures
        match result {
            Ok(record) => is_readable(*row) && is_schedule_of(record, *row),
            Err(error) => error == StoreError::Unavailable && !is_readable(*row),
        },
{
    let (trigger, target) = decode_columns(row.columns)?;
    if !row.schedule_is_valid {
        return Err(StoreError::Unavailable);
    }
    let next_occurrence_at: i64 = timestamp(row.next_occurrence_at_millis)?;
    Ok(
        ScheduleRecord {
            trigger,
            target,
            enabled: row.enabled,
            definition: row.definition.clone(),
            schedule: ScheduleDefinition {
                expression: row.expression.clone(),
                timezone: row.timezone.clone(),
                missed_run_policy: row.missed_run_policy.clone(),
            },
            next_occurrence_at,
        },
    )
}

/// The version of a schedule to read, as it is stored.
pub fn read_version(version: u64) -> (result: Result<i64, StoreError>)
    ensures
        result == (if fits_column(version) {
            Ok::<i64, StoreError>(version as i64)
        } else {
            Err(out_of_range(StoreOperation::ReadSchedule))
        }),
{
    number(version, StoreOperation::ReadSchedule)
}

/// Reads a schedule, where there is one.
pub fn read(row: Option<ScheduleRow>) -> (result: Result<ScheduleRecord, StoreError>)
    ensures
        match row {
            None => result is Err && result->Err_0 == (StoreError::NotFound { entity: EntityKind::Trigger }),
            Some(row) => match result {
                Ok(record) => is_readable(row) && is_schedule_of(record, row),
                Err(error) => error == StoreError::Unavailable && !is_readable(row),
            },
        },
{
    match row {
        None => Err(StoreError::NotFound { entity: EntityKind::Trigger }),
        Some(row) => decode(&row),
    }
}

/// A schedule that came due, as it was claimed.
pub struct DueScheduleClaim {
    /// The schedule.
    pub schedule: ScheduleRecord,
    /// Who works on it.
    pub owner: String,
    /// When the claim runs out.
    pub claim_expires_at: i64,
}

/// Whether every row can be read.
pub open spec fn are_readable(rows: Seq<ScheduleRow>) -> bool {
    forall|i: int| 0 <= i < rows.len() ==> is_readable(#[trigger] rows[i])
}

/// Whether a claim is the one of a row.
pub open spec fn is_claim_of(claim: DueScheduleClaim, row: ScheduleRow, owner: Seq<char>, claim_expires_at: i64) -> bool {
    &&& is_schedule_of(claim.schedule, row)
    &&& claim.owner@ == owner
    &&& claim.claim_expires_at == claim_expires_at
}

/// Reads the schedules that were claimed.
pub fn claim(rows: &Vec<ScheduleRow>, owner: &String, claim_expires_at: i64) -> (result: Result<
    Vec<DueScheduleClaim>,
    StoreError,
>)
    ensures
        match result {
            Ok(claims) => {
                &&& are_readable(rows@)
                &&& claims@.len() == rows@.len()
                &&& forall|i: int|
                    0 <= i < rows@.len() ==> is_claim_of(#[trigger] claims@[i], rows@[i], owner@, claim_expires_at)
            },
            Err(error) => error == StoreError::Unavailable && !are_readable(rows@),
        },
{
    let mut claims: Vec<DueScheduleClaim> = Vec::new();
    let mut i: usize = 0;
    while i < rows.len()
        invariant
            i <= rows.len(),
            claims@.len() == i,
            forall|j: int| 0 <= j < i ==> is_readable(#[trigger] rows@[j]),
            forall|j: int| 0 <= j < i ==> is_claim_of(#[trigger] claims@[j], rows@[j], owner@, claim_expires_at),
        decreases rows.len() - i,
    {
        let schedule = decode(&rows[i])?;
        claims.push(DueScheduleClaim { schedule, owner: owner.clone(), claim_expires_at });
        i += 1;
    }
    Ok(claims)
}

/// The version to complete a claim of, as it is stored; a schedule only moves forward.
pub open spec fn completion(version: u64, expected_next: i64, next: i64) -> Result<i64, StoreError> {
    if next <= expected_next {
        Err(
            StoreError::InvalidInput {
                operation: StoreOperation::CompleteScheduleClaim,
                source: StoreInputError::InvalidWorkerClaim,
            },
        )
    } else if !fits_column(version) {
        Err(out_of_range(StoreOperation::CompleteScheduleClaim))
    } else {
        Ok(version as i64)
    }
}

/// Checks a request to complete a claim, and gives the version as it is stored.
pub fn check_completion(version: u64, expected_next: i64, next: i64) -> (result: Result<i64, StoreError>)
    ensures
        result == completion(version, expected_next, next),
{
    if next <= expected_next {
        return Err(
            StoreError::InvalidInput {
                operation: StoreOperation::CompleteScheduleClaim,
                source: StoreInputError::InvalidWorkerClaim,
            },
        );
    }
    number(version, StoreOperation::CompleteScheduleClaim)
}

/// Requires that the worker held the claim that it completed, and that the schedule had not moved on.
pub fn complete(updated_rows: u64) -> (result: Result<MutationDisposition, StoreError>)
    ensures
        result == (if updated_rows == 1 {
            Ok::<MutationDisposition, StoreError>(MutationDisposition::Applied)
        } else {
            Err(StoreError::Conflict { entity: EntityKind::Trigger })
        }),
{
    if updated_rows == 1 {
        Ok(MutationDisposition::Applied)
    } else {
        Err(StoreError::Conflict { entity: EntityKind::Trigger })
    }
}

/// A schedule never comes due again at an occasion that was completed: each completion moves it on, and a
/// completion that would not is refused.
pub proof fn schedules_move_forward(version: u64, first: i64, second: i64, third: i64)
    requires
        completion(version, first, second) is Ok,
        completion(version, second, third) is Ok,
    ensures
        first < second < third,
        completion(version, third, first) is Err,
        completion(version, second, second) is Err,
{
}

/// A schedule goes on exactly to a time after the one that was due.
pub proof fn schedules_go_on_to_a_later_time(version: u64, expected_next: i64, next: i64)
    requires
        version <= i64::MAX,
    ensures
        completion(version, expected_next, next) == (if expected_next < next {
            Ok::<i64, StoreError>(version as i64)
        } else {
            Err(
                StoreError::InvalidInput {
                    operation: StoreOperation::CompleteScheduleClaim,
                    source: StoreInputError::InvalidWorkerClaim,
                },
            )
        }),
{
}

/// A claimed schedule is that of its row, held by the worker that claimed it.
pub proof fn schedules_are_claimed_for_their_worker(
    claim: DueScheduleClaim,
    row: ScheduleRow,
    owner: Seq<char>,
    claim_expires_at: i64,
)
    requires
        is_claim_of(claim, row, owner, claim_expires_at),
        row.columns.trigger_version > 0 && row.columns.build_configuration_version > 0,
    ensures
        claim.owner@ == owner && claim.claim_expires_at == claim_expires_at,
        claim.schedule.trigger.id == row.columns.trigger_id && claim.schedule.trigger.version
            == row.columns.trigger_version,
        claim.schedule.target.configuration_id == row.columns.build_configuration_id
            && claim.schedule.target.configuration_version == row.columns.build_configuration_version,
        claim.schedule.enabled == row.enabled && claim.schedule.definition@ == row.definition@,
        claim.schedule.schedule.expression@ == row.expression@ && claim.schedule.schedule.timezone@ == row.timezone@
            && claim.schedule.schedule.missed_run_policy@ == row.missed_run_policy@,
        claim.schedule.next_occurrence_at == row.next_occurrence_at_millis,
{
}

/// A schedule is read exactly where its columns are sound, it is valid, and its next occurrence is no earlier than the
/// Unix epoch.
pub proof fn sound_schedules_are_read(row: ScheduleRow)
    ensures
        is_readable(row) <==> is_readable_trigger(row.columns) && row.schedule_is_valid && row.next_occurrence_at_millis
            >= 0,
{
}

/// Schedules are read exactly where each of them is.
pub proof fn pages_of_schedules_are_read(rows: Seq<ScheduleRow>)
    ensures
        are_readable(rows) <==> forall|i: int| 0 <= i < rows.len() ==> is_readable(#[trigger] rows[i]),
{
}

} // verus!
