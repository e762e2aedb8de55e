//! Triggers that the end of another build sets off.

use vstd::prelude::*;

use crate::accept_trigger::{NormalizedTriggerOccurrence, TriggerCause, TriggerDefinitionRef, TriggerTarget};
use crate::decimal::{decimal, decimal_text};
use crate::domain::{
    identity, is_identity, is_timestamp, is_version, timestamp, version, EntityKind, MutationDisposition, StoreError,
    StoreInputError, StoreOperation,
};
use crate::identity_text::{hyphenated, identity_text, parse_identity, spelled_identity};
use crate::text::same_text;
use crate::trigger_definition::{decode, is_readable, target_in, trigger_in, TriggerColumns};

verus! {

/// How a build ended.
#[derive(Clone, Copy, Debug, PartialEq, Eq, Structural)]
pub enum TerminalBuildEvent {
    /// Stored as `succeeded`.
    Succeeded,
    /// Stored as `failed`.
    Failed,
    /// Stored as `cancelled`.
    Cancelled,
}

/// The stored name of an end of a build.
pub open spec fn event_kind_name_text(value: TerminalBuildEvent) -> Seq<char> {
    match value {
        TerminalBuildEvent::Succeeded => "succeeded"@,
        TerminalBuildEvent::Failed => "failed"@,
        TerminalBuildEvent::Cancelled => "cancelled"@,
    }
}

/// No two values share a stored name.
pub proof fn event_kind_name_text_names_one_value(a: TerminalBuildEvent, b: TerminalBuildEvent)
    ensures
        event_kind_name_text(a) == event_kind_name_text(b) ==> a == b,
{
    reveal_strlit("succeeded");
    reveal_strlit("failed");
    reveal_strlit("cancelled");
    assert("succeeded"@.len() == 9);
    assert("failed"@.len() == 6);
    assert("cancelled"@.len() == 9);
    assert("succeeded"@[0] == 's');
    assert("cancelled"@[0] == 'c');
}

/// Names an end of a build as the database stores it.
pub fn event_kind_name(value: TerminalBuildEvent) -> (text: &'static str)
    ensures
        text@ == event_kind_name_text(value),
{
    match value {
        TerminalBuildEvent::Succeeded => "succeeded",
        TerminalBuildEvent::Failed => "failed",
        TerminalBuildEvent::Cancelled => "cancelled",
    }
}

/// Reads an end of a build back from its stored name; any other text is unreadable.
pub fn event_kind(text: &str) -> (result: Result<TerminalBuildEvent, StoreError>)
    ensures
        forall|value: TerminalBuildEvent|
            result == Ok::<TerminalBuildEvent, StoreError>(value)
                <==> text@ == #[trigger] event_kind_name_text(value),
        result is Err ==> result == Err::<TerminalBuildEvent, StoreError>(StoreError::Unavailable),
{
    proof {
        assert forall|a: TerminalBuildEvent, b: TerminalBuildEvent|
            #[trigger] event_kind_name_text(a) == #[trigger] event_kind_name_text(b)
            implies a == b by {
            event_kind_name_text_names_one_value(a, b);
        }
    }
    let result = if same_text(text, "succeeded") {
        Ok(TerminalBuildEvent::Succeeded)
    } else if same_text(text, "failed") {
        Ok(TerminalBuildEvent::Failed)
    } else if same_text(text, "cancelled") {
        Ok(TerminalBuildEvent::Cancelled)
    } else {
        Err(StoreError::Unavailable)
    };
    assert(result matches Ok(value) ==> text@ == event_kind_name_text(value));
    result
}

/// An announced end of a build, as it was claimed.
pub struct ClaimedEventRow {
    /// The announcement.
    pub id: u128,
    /// Its topic.
    pub topic: String,
    /// What it is about.
    pub aggregate_identity: String,
    /// When it was made.
    pub occurred_at_millis: i64,
}

/// What the subject of an announcement is.
#[derive(Clone, Copy, Debug, PartialEq, Eq, Structural)]
pub enum EventSubject {
    /// A job of the build.
    Job,
    /// The build.
    Build,
}

/// What the subject of an announcement with some topic is; announcements with other topics end no build.
pub open spec fn subject_of(topic: Seq<char>) -> Option<EventSubject> {
    if topic == "job.completed"@ {
        Some(EventSubject::Job)
    } else if topic == "build.cancellation-requested"@ {
        Some(EventSubject::Build)
    } else {
        None
    }
}

/// What the subject of an announcement is.
pub fn event_subject(event: &ClaimedEventRow) -> (subject: Option<EventSubject>)
    ensures
        subject == subject_of(event.topic@),
{
    if same_text(event.topic.as_str(), "job.completed") {
        Some(EventSubject::Job)
    } else if same_text(event.topic.as_str(), "build.cancellation-requested") {
        Some(EventSubject::Build)
    } else {
        None
    }
}

/// A build that ended, as the database holds it.
pub struct SourceBuildRow {
    /// The build.
    pub id: u128,
    /// Its configuration.
    pub build_configuration_id: u128,
    /// Version of that.
    pub build_configuration_version: i64,
    /// The revision it built.
    pub immutable_revision: String,
    /// Whether that is a valid revision.
    pub revision_is_valid: bool,
}

/// A build that ended.
pub struct SourceBuild {
    /// The build.
    pub id: u128,
    /// What it built.
    pub target: TriggerTarget,
    /// The revision it built.
    pub revision: String,
}

/// Whether a build can be read.
pub open spec fn is_readable_build(row: SourceBuildRow) -> bool {
    &&& is_identity(row.id)
    &&& is_identity(row.build_configuration_id)
    &&& is_version(row.build_configuration_version)
    &&& row.revision_is_valid
}

/// What a build built.
pub open spec fn build_target(row: SourceBuildRow) -> TriggerTarget {
    TriggerTarget {
        configuration_id: row.build_configuration_id,
        configuration_version: row.build_configuration_version as u64,
    }
}

/// Reads the build that an announcement is about, where there is one.
pub fn source_build(row: Option<SourceBuildRow>) -> (result: Result<SourceBuild, StoreError>)
    ensures
        match row {
            None => result is Err && result->Err_0 == (StoreError::NotFound { entity: EntityKind::Build }),
            Some(row) => match result {
                Ok(build) => {
                    &&& is_readable_build(row)
                    &&& build.id == row.id
                    &&& build.target == build_target(row)
                    &&& build.revision@ == row.immutable_revision@
                },
                Err(error) => error == StoreError::Unavailable && !is_readable_build(row),
            },
        },
{
    match row {
        None => Err(StoreError::NotFound { entity: EntityKind::Build }),
        Some(row) => {
            let id: u128 = identity(row.id)?;
            let configuration_id: u128 = identity(row.build_configuration_id)?;
            let configuration_version: u64 = version(row.build_configuration_version)?;
            if !row.revision_is_valid {
                return Err(StoreError::Unavailable);
            }
            Ok(
                SourceBuild {
                    id,
                    target: TriggerTarget { configuration_id, configuration_version },
                    revision: row.immutable_revision,
                },
            )
        },
    }
}

/// The occurrence that a build came from, as the database holds it.
pub struct OccurrenceRow {
    /// The occurrence.
    pub id: u128,
    /// Its trigger, and what that builds.
    pub columns: TriggerColumns,
    /// Identity under which repeated deliveries are recognised.
    pub deduplication_identity: String,
    /// What kind of thing set the trigger off.
    pub cause: TriggerCause,
    /// What that says.
    pub cause_details: String,
    /// What the occurrence follows from.
    pub causality: String,
    /// What the provider said of it.
    pub provider_metadata: String,
    /// When the trigger was set off.
    pub source_time_millis: i64,
    /// Whether these make up a valid occurrence.
    pub is_valid: bool,
}

/// The occurrence that a build came from.
pub struct SourceOccurrence {
    /// The occurrence.
    pub occurrence: NormalizedTriggerOccurrence,
    /// What the thing that set it off says.
    pub cause_details: String,
    /// What it follows from.
    pub causality: String,
    /// What the provider said of it.
    pub provider_metadata: String,
}

/// Whether an occurrence can be read.
pub open spec fn is_readable_occurrence(row: OccurrenceRow) -> bool {
    is_identity(row.id) && is_readable(row.columns) && is_timestamp(row.source_time_millis) && row.is_valid
}

/// Whether an occurrence is the one of a row.
pub open spec fn is_occurrence_of(source: SourceOccurrence, row: OccurrenceRow) -> bool {
    &&& source.occurrence.id == row.id
    &&& source.occurrence.trigger == trigger_in(row.columns)
    &&& source.occurrence.target == target_in(row.columns)
    &&& source.occurrence.deduplication_identity@ == row.deduplication_identity@
    &&& source.occurrence.cause == row.cause
    &&& source.cause_details@ == row.cause_details@
    &&& source.occurrence.source_time == row.source_time_millis
    &&& source.causality@ == row.causality@
    &&& source.provider_metadata@ == row.provider_metadata@
}

/// Reads an occurrence.
pub fn decode_occurrence(row: OccurrenceRow) -> (result: Result<SourceOccurrence, StoreError>)
    ensures
        match result {
            Ok(source) => is_readable_occurrence(row) && is_occurrence_of(source, row),
            Err(error) => error == StoreError::Unavailable && !is_readable_occurrence(row),
        },
{
    let id: u128 = identity(row.id)?;
    let (trigger, target) = decode(row.columns)?;
    let source_time: i64 = timestamp(row.source_time_millis)?;
    if !row.is_valid {
        return Err(StoreError::Unavailable);
    }
    Ok(
        SourceOccurrence {
            occurrence: NormalizedTriggerOccurrence {
                id,
                trigger,
                target,
                deduplication_identity: row.deduplication_identity,
                cause: row.cause,
                source_time,
            },
            cause_details: row.cause_details,
            causality: row.causality,
            provider_metadata: row.provider_metadata,
        },
    )
}

/// A trigger of the line that led to an occurrence, as the database holds it.
#[derive(Clone, Copy, Debug, PartialEq, Eq, Structural)]
pub struct AncestorRow {
    /// The trigger.
    pub trigger_id: u128,
    /// Its version.
    pub trigger_version: i64,
}

/// Whether a trigger of the line can be read.
pub open spec fn is_readable_ancestor(row: AncestorRow) -> bool {
    is_identity(row.trigger_id) && is_version(row.trigger_version)
}

/// The trigger of a row.
pub open spec fn ancestor_in(row: AncestorRow) -> TriggerDefinitionRef {
    TriggerDefinitionRef { id: row.trigger_id, version: row.trigger_version as u64 }
}

/// Whether every trigger of the line can be read.
pub open spec fn are_readable_ancestors(rows: Seq<AncestorRow>) -> bool {
    forall|i: int| 0 <= i < rows.len() ==> is_readable_ancestor(#[trigger] rows[i])
}

/// Reads the line of triggers that led to an occurrence, the outermost first.
pub fn ancestry(rows: &Vec<AncestorRow>) -> (result: Result<Vec<TriggerDefinitionRef>, StoreError>)
    ensures
        match result {
            Ok(triggers) => {
                &&& are_readable_ancestors(rows@)
                &&& triggers@ == rows@.map_values(|row: AncestorRow| ancestor_in(row))
            },
            Err(error) => error == StoreError::Unavailable && !are_readable_ancestors(rows@),
        },
{
    let mut triggers: Vec<TriggerDefinitionRef> = Vec::new();
    let mut i: usize = 0;
    while i < rows.len()
        invariant
            i <= rows.len(),
            triggers@.len() == i,
            forall|j: int| 0 <= j < i ==> is_readable_ancestor(#[trigger] rows@[j]),
            forall|j: int| 0 <= j < i ==> #[trigger] triggers@[j] == ancestor_in(rows@[j]),
        decreases rows.len() - i,
    {
        let row = rows[i];
        assert(row == rows@[i as int]);
        let id: u128 = identity(row.trigger_id)?;
        let trigger_version: u64 = version(row.trigger_version)?;
        triggers.push(TriggerDefinitionRef { id, version: trigger_version });
        i += 1;
    }
    assert(triggers@ =~= rows@.map_values(|row: AncestorRow| ancestor_in(row)));
    Ok(triggers)
}

/// A trigger that an end of a build sets off, as the database holds it.
pub struct MatchRow {
    /// The trigger, and what it builds.
    pub columns: TriggerColumns,
    /// Its definition.
    pub definition: String,
}

/// A trigger that an end of a build sets off.
pub struct InternalTriggerMatch {
    /// The trigger.
    pub trigger: TriggerDefinitionRef,
    /// What it builds.
    pub target: TriggerTarget,
    /// Its definition.
    pub definition: String,
}

/// Whether a trigger is the one of a row.
pub open spec fn is_match_of(found: InternalTriggerMatch, row: MatchRow) -> bool {
    &&& found.trigger == trigger_in(row.columns)
    &&& found.target == target_in(row.columns)
    &&& found.definition@ == row.definition@
}

/// Reads a trigger that an end of a build sets off.
pub fn decode_match(row: &MatchRow) -> (result: Result<InternalTriggerMatch, StoreError>)
    ensures
        match result {
            Ok(found) => is_readable(row.columns) && is_match_of(found, *row),
            Err(error) => error == StoreError::Unavailable && !is_readable(row.columns),
        },
{
    let (trigger, target) = decode(row.columns)?;
    Ok(InternalTriggerMatch { trigger, target, definition: row.definition.clone() })
}

/// The texts by which triggers of a build configuration are found: its identity and its version.
pub fn match_keys(source: TriggerTarget) -> (keys: (String, String))
    ensures
        keys.0@ == hyphenated(source.configuration_id),
        keys.1@ == decimal_text(source.configuration_version as nat),
{
    (identity_text(source.configuration_id), decimal(source.configuration_version))
}

/// How many triggers to fetch, to learn whether there are too many.
pub fn match_limit(maximum: usize) -> (result: Result<i64, StoreError>)
    requires
        maximum < usize::MAX,
    ensures
        result == (if maximum < i64::MAX {
            Ok::<i64, StoreError>((maximum + 1) as i64)
        } else {
            Err(StoreError::Unavailable)
        }),
{
    if maximum as u64 >= i64::MAX as u64 {
        Err(StoreError::Unavailable)
    } else {
        Ok(maximum as i64 + 1)
    }
}

/// Whether every trigger can be read.
pub open spec fn are_readable_matches(rows: Seq<MatchRow>) -> bool {
    forall|i: int| 0 <= i < rows.len() ==> is_readable(#[trigger] rows[i].columns)
}

/// Why the triggers of an event cannot be given, where they cannot.
pub open spec fn match_fault(rows: Seq<MatchRow>, maximum: usize) -> Option<StoreError> {
    if rows.len() > maximum {
        Some(
            StoreError::InvalidInput {
                operation: StoreOperation::ClaimInternalTriggerEvents,
                source: StoreInputError::TooManyInternalTriggerMatches,
            },
        )
    } else if !are_readable_matches(rows) {
        Some(StoreError::Unavailable)
    } else {
        None
    }
}

/// Whether triggers are those of rows.
pub open spec fn are_matches_of(matches: Seq<InternalTriggerMatch>, rows: Seq<MatchRow>) -> bool {
    &&& matches.len() == rows.len()
    &&& forall|i: int| 0 <= i < rows.len() ==> is_match_of(#[trigger] matches[i], rows[i])
}

/// Reads the triggers that an end of a build sets off, which may not be too many.
pub fn matching_triggers(rows: &Vec<MatchRow>, maximum: usize) -> (result: Result<Vec<InternalTriggerMatch>, StoreError>)
    ensures
        match result {
            Ok(matches) => match_fault(rows@, maximum) is None && are_matches_of(matches@, rows@),
            Err(error) => match_fault(rows@, maximum) == Some(error),
        },
{
    if rows.len() > maximum {
        return Err(
            StoreError::InvalidInput {
                operation: StoreOperation::ClaimInternalTriggerEvents,
                source: StoreInputError::TooManyInternalTriggerMatches,
            },
        );
    }
    let mut matches: Vec<InternalTriggerMatch> = Vec::new();
    let mut i: usize = 0;
    while i < rows.len()
        invariant
            i <= rows.len(),
            rows.len() <= maximum,
            matches@.len() == i,
            forall|j: int| 0 <= j < i ==> is_readable(#[trigger] rows@[j].columns),
            forall|j: int| 0 <= j < i ==> is_match_of(#[trigger] matches@[j], rows@[j]),
        decreases rows.len() - i,
    {
        match decode_match(&rows[i]) {
            Ok(found) => {
                matches.push(found);
            },
            Err(error) => {
                assert(!is_readable(rows@[i as int].columns));
                return Err(error);
            },
        }
        i += 1;
    }
    Ok(matches)
}

/// Everything that is read for a claimed event.
pub struct EventRows {
    /// The event.
    pub event: ClaimedEventRow,
    /// The build that ended.
    pub build: Option<SourceBuildRow>,
    /// The occurrence it came from.
    pub occurrence: Option<OccurrenceRow>,
    /// The line of triggers that led there.
    pub ancestry: Vec<AncestorRow>,
    /// Whether the occurrence and the line fit each other.
    pub ancestry_is_valid: bool,
    /// State of the build.
    pub state: String,
    /// The triggers that its end sets off.
    pub matches: Vec<MatchRow>,
}

/// A claimed event.
pub struct InternalTriggerEventClaim {
    /// Identity of the event.
    pub event_identity: String,
    /// The build that ended.
    pub source_build_id: u128,
    /// The revision it built.
    pub source_revision: String,
    /// What it built.
    pub source_target: TriggerTarget,
    /// The occurrence it came from.
    pub source_occurrence: SourceOccurrence,
    /// The line of triggers that led there.
    pub trigger_ancestry: Vec<TriggerDefinitionRef>,
    /// How the build ended.
    pub event_kind: TerminalBuildEvent,
    /// When.
    pub occurred_at: i64,
    /// The triggers that its end sets off.
    pub matches: Vec<InternalTriggerMatch>,
    /// Who works on the event.
    pub owner: String,
    /// When the claim runs out.
    pub claim_expires_at: i64,
}

/// Whether a state is one in which builds end.
pub open spec fn is_terminal(state: Seq<char>) -> bool {
    exists|kind: TerminalBuildEvent| state == #[trigger] event_kind_name_text(kind)
}

/// Why a claimed event cannot be given, where it cannot.
pub open spec fn claim_fault(rows: EventRows, maximum: usize) -> Option<StoreError> {
    if subject_of(rows.event.topic@) is None || rows.build is None {
        Some(StoreError::NotFound { entity: EntityKind::Build })
    } else if !is_readable_build(rows.build->Some_0) {
        Some(StoreError::Unavailable)
    } else if rows.occurrence is None {
        Some(StoreError::NotFound { entity: EntityKind::Build })
    } else if !is_readable_occurrence(rows.occurrence->Some_0) || !are_readable_ancestors(rows.ancestry@)
        || !rows.ancestry_is_valid || !is_terminal(rows.state@) {
        Some(StoreError::Unavailable)
    } else if match_fault(rows.matches@, maximum) is Some {
        match_fault(rows.matches@, maximum)
    } else if !is_timestamp(rows.event.occurred_at_millis) {
        Some(StoreError::Unavailable)
    } else {
        None
    }
}

/// Whether a claim is the one of an event.
pub open spec fn is_claim_of(
    claim: InternalTriggerEventClaim,
    rows: EventRows,
    owner: Seq<char>,
    claim_expires_at: i64,
) -> bool {
    &&& claim.event_identity@ == hyphenated(rows.event.id)
    &&& rows.build is Some && claim.source_build_id == rows.build->Some_0.id
    &&& claim.source_revision@ == rows.build->Some_0.immutable_revision@
    &&& claim.source_target == build_target(rows.build->Some_0)
    &&& rows.occurrence is Some && is_occurrence_of(claim.source_occurrence, rows.occurrence->Some_0)
    &&& claim.trigger_ancestry@ == rows.ancestry@.map_values(|row: AncestorRow| ancestor_in(row))
    &&& rows.state@ == event_kind_name_text(claim.event_kind)
    &&& claim.occurred_at == rows.event.occurred_at_millis
    &&& are_matches_of(claim.matches@, rows.matches@)
    &&& claim.owner@ == owner
    &&& claim.claim_expires_at == claim_expires_at
}

/// Puts together a claimed event out of everything that is read for it.
pub fn load_claim(rows: EventRows, maximum: usize, owner: &String, claim_expires_at: i64) -> (result: Result<
    InternalTriggerEventClaim,
    StoreError,
>)
    ensures
        match result {
            Ok(claim) => claim_fault(rows, maximum) is None && is_claim_of(claim, rows, owner@, claim_expires_at),
            Err(error) => claim_fault(rows, maximum) == Some(error),
        },
{
    if event_subject(&rows.event).is_none() {
        return Err(StoreError::NotFound { entity: EntityKind::Build });
    }
    let build = source_build(rows.build)?;
    let source_occurrence = match rows.occurrence {
        Some(row) => decode_occurrence(row)?,
        None => {
            return Err(StoreError::NotFound { entity: EntityKind::Build });
        },
    };
    let trigger_ancestry = ancestry(&rows.ancestry)?;
    if !rows.ancestry_is_valid {
        return Err(StoreError::Unavailable);
    }
    let kind = event_kind(rows.state.as_str())?;
    assert(rows.state@ == event_kind_name_text(kind));
    let matches = matching_triggers(&rows.matches, maximum)?;
    let occurred_at: i64 = timestamp(rows.event.occurred_at_millis)?;
    Ok(
        InternalTriggerEventClaim {
            event_identity: identity_text(rows.event.id),
            source_build_id: build.id,
            source_revision: build.revision,
            source_target: build.target,
            source_occurrence,
            trigger_ancestry,
            event_kind: kind,
            occurred_at,
            matches,
            owner: owner.clone(),
            claim_expires_at,
        },
    )
}

/// The failure of a request to complete something that names no event.
pub open spec fn not_an_event() -> StoreError {
    StoreError::InvalidInput {
        operation: StoreOperation::CompleteInternalTriggerEvent,
        source: StoreInputError::InvalidWorkerClaim,
    }
}

/// Finds the event to complete. The identity that a claim gives of an event leads to that event.
pub fn completed_event(event_identity: &str) -> (result: Result<u128, StoreError>)
    ensures
        result == (match spelled_identity(event_identity@) {
            Some(id) => Ok::<u128, StoreError>(id),
            None => Err(not_an_event()),
        }),
        forall|id: u128| event_identity@ == #[trigger] hyphenated(id) ==> result == Ok::<u128, StoreError>(id),
{
    match parse_identity(event_identity) {
        Some(id) => Ok(id),
        None => Err(
            StoreError::InvalidInput {
                operation: StoreOperation::CompleteInternalTriggerEvent,
                source: StoreInputError::InvalidWorkerClaim,
            },
        ),
    }
}

/// Requires that the worker held the event that it completed.
pub fn complete(updated_rows: u64) -> (result: Result<MutationDisposition, StoreError>)
    ensures
        result == (if updated_rows == 1 {
            Ok::<MutationDisposition, StoreError>(MutationDisposition::Applied)
        } else {
            Err(StoreError::Conflict { entity: EntityKind::Trigger })
        }),
{
    if updated_rows == 1 {
        Ok(MutationDisposition::Applied)
    } else {
        Err(StoreError::Conflict { entity: EntityKind::Trigger })
    }
}

/// What the end of a build is told by: the completion of a job, and the cancellation of the build itself.
pub proof fn ends_are_told_by_jobs_and_cancellations(topic: Seq<char>)
    ensures
        subject_of(topic) == Some(EventSubject::Job) <==> topic == "job.completed"@,
        subject_of(topic) == Some(EventSubject::Build) <==> topic == "build.cancellation-requested"@,
{
    reveal_strlit("job.completed");
    reveal_strlit("build.cancellation-requested");
    assert("job.completed"@.len() == 13);
    assert("build.cancellation-requested"@.len() == 28);
}

/// The end of a build is claimed exactly where the build, what set it off and every trigger that waits for it can be
/// read, and those triggers are not too many.
pub proof fn ends_of_builds_are_claimed(rows: EventRows, maximum: usize)
    ensures
        claim_fault(rows, maximum) is None <==> {
            &&& rows.event.topic@ == "job.completed"@ || rows.event.topic@ == "build.cancellation-requested"@
            &&& rows.build is Some && is_readable_build(rows.build->Some_0)
            &&& rows.occurrence is Some && is_readable_occurrence(rows.occurrence->Some_0)
            &&& forall|i: int|
                0 <= i < rows.ancestry@.len() ==> (#[trigger] rows.ancestry@[i]).trigger_id != 0
                    && rows.ancestry@[i].trigger_version > 0
            &&& rows.ancestry_is_valid
            &&& exists|kind: TerminalBuildEvent| rows.state@ == #[trigger] event_kind_name_text(kind)
            &&& rows.matches@.len() <= maximum
            &&& forall|i: int| 0 <= i < rows.matches@.len() ==> is_readable(#[trigger] rows.matches@[i].columns)
            &&& rows.event.occurred_at_millis >= 0
        },
        rows.matches@.len() > maximum && claim_fault(rows, maximum) is Some && rows.build is Some && is_readable_build(
            rows.build->Some_0,
        ) && rows.occurrence is Some && is_readable_occurrence(rows.occurrence->Some_0) && subject_of(rows.event.topic@)
            is Some && are_readable_ancestors(rows.ancestry@) && rows.ancestry_is_valid && is_terminal(rows.state@)
            ==> claim_fault(rows, maximum) == Some(
            StoreError::InvalidInput {
                operation: StoreOperation::ClaimInternalTriggerEvents,
                source: StoreInputError::TooManyInternalTriggerMatches,
            },
        ),
{
    ends_are_told_by_jobs_and_cancellations(rows.event.topic@);
    assert(forall|i: int|
        0 <= i < rows.ancestry@.len() ==> (is_readable_ancestor(#[trigger] rows.ancestry@[i]) <==> (
        rows.ancestry@[i].trigger_id != 0 && rows.ancestry@[i].trigger_version > 0)));
}

/// A claimed end is that of its build: with the revision and the configuration that were built, how it ended and every
/// trigger that waits for it, in their order.
pub proof fn claimed_ends_are_those_of_their_build(
    claim: InternalTriggerEventClaim,
    rows: EventRows,
    owner: Seq<char>,
    claim_expires_at: i64,
    at: int,
)
    requires
        is_claim_of(claim, rows, owner, claim_expires_at),
        claim_fault(rows, usize::MAX) is None,
    ensures
        claim.source_build_id == rows.build->Some_0.id && claim.source_revision@
            == rows.build->Some_0.immutable_revision@,
        claim.source_target.configuration_id == rows.build->Some_0.build_configuration_id
            && claim.source_target.configuration_version == rows.build->Some_0.build_configuration_version,
        claim.event_kind == TerminalBuildEvent::Succeeded <==> rows.state@ == "succeeded"@,
        claim.event_kind == TerminalBuildEvent::Failed <==> rows.state@ == "failed"@,
        claim.event_kind == TerminalBuildEvent::Cancelled <==> rows.state@ == "cancelled"@,
        claim.occurred_at == rows.event.occurred_at_millis,
        claim.owner@ == owner && claim.claim_expires_at == claim_expires_at,
        claim.matches@.len() == rows.matches@.len(),
        0 <= at < claim.matches@.len() ==> claim.matches@[at].trigger.id == rows.matches@[at].columns.trigger_id
            && claim.matches@[at].target.configuration_id == rows.matches@[at].columns.build_configuration_id
            && claim.matches@[at].definition@ == rows.matches@[at].definition@,
        claim.trigger_ancestry@.len() == rows.ancestry@.len(),
        0 <= at < claim.trigger_ancestry@.len() ==> claim.trigger_ancestry@[at].id == rows.ancestry@[at].trigger_id,
        claim.source_occurrence.occurrence.id == rows.occurrence->Some_0.id,
{
    event_kind_name_text_names_one_value(claim.event_kind, TerminalBuildEvent::Succeeded);
    event_kind_name_text_names_one_value(claim.event_kind, TerminalBuildEvent::Failed);
    event_kind_name_text_names_one_value(claim.event_kind, TerminalBuildEvent::Cancelled);
    if 0 <= at < claim.matches@.len() {
        assert(is_match_of(claim.matches@[at], rows.matches@[at]));
    }
}

/// A build, an occurrence and an ancestor are read exactly where their identities are set, their versions count from
/// one, their times are no earlier than the Unix epoch and what they hold is valid.
pub proof fn sound_sources_are_read(build: SourceBuildRow, occurrence: OccurrenceRow)
    ensures
        is_readable_build(build) <==> build.id != 0 && build.build_configuration_id != 0
            && build.build_configuration_version > 0 && build.revision_is_valid,
        is_readable_occurrence(occurrence) <==> occurrence.id != 0 && is_readable(occurrence.columns)
            && occurrence.source_time_millis >= 0 && occurrence.is_valid,
{
}

/// The occurrence a build came from is told as it was stored.
pub proof fn occurrences_are_read_as_stored(source: SourceOccurrence, row: OccurrenceRow)
    requires
        is_occurrence_of(source, row),
    ensures
        source.occurrence.id == row.id,
        source.occurrence.trigger == trigger_in(row.columns) && source.occurrence.target == target_in(row.columns),
        source.occurrence.deduplication_identity@ == row.deduplication_identity@,
        source.occurrence.cause == row.cause && source.cause_details@ == row.cause_details@,
        source.occurrence.source_time == row.source_time_millis,
        source.causality@ == row.causality@ && source.provider_metadata@ == row.provider_metadata@,
{
}

/// What an event leads to and cannot be read makes the claim of the event unavailable: the build it is about, the
/// occurrence that build came from, the chain of triggers before it, the definitions that match, or its own time.
pub proof fn damaged_events_are_unavailable(rows: EventRows, maximum: usize)
    requires
        subject_of(rows.event.topic@) is Some,
        rows.build is Some,
        rows.occurrence is Some,
        rows.matches@.len() <= maximum,
    ensures
        !is_readable_build(rows.build->Some_0) || !is_readable_occurrence(rows.occurrence->Some_0)
            || !are_readable_ancestors(rows.ancestry@) || !rows.ancestry_is_valid || !is_terminal(rows.state@)
            || !are_readable_matches(rows.matches@) || rows.event.occurred_at_millis < 0 <==> claim_fault(rows, maximum)
            == Some(StoreError::Unavailable),
        claim_fault(rows, maximum) is None || claim_fault(rows, maximum) == Some(StoreError::Unavailable),
{
}

/// Definitions that match are told one for each row, in order, with the trigger, the target and the definition that
/// are stored, and are read exactly where each row is.
pub proof fn matches_are_told_as_stored(matches: Seq<InternalTriggerMatch>, rows: Seq<MatchRow>)
    requires
        are_matches_of(matches, rows),
    ensures
        matches.len() == rows.len(),
        forall|i: int|
            0 <= i < rows.len() ==> (#[trigger] matches[i]).trigger == trigger_in(rows[i].columns) && matches[i].target
                == target_in(rows[i].columns) && matches[i].definition@ == rows[i].definition@,
        are_readable_matches(rows) <==> forall|i: int| 0 <= i < rows.len() ==> is_readable((#[trigger] rows[i]).columns),
{
    assert forall|i: int| 0 <= i < rows.len() implies (#[trigger] matches[i]).trigger == trigger_in(rows[i].columns)
        && matches[i].target == target_in(rows[i].columns) && matches[i].definition@ == rows[i].definition@ by {
        assert(is_match_of(matches[i], rows[i]));
    }
}

} // verus!
