//! Definitions of triggers that the end of another build sets off, which are published in versions.

use vstd::prelude::*;

use crate::accept_trigger::{TriggerDefinitionRef, TriggerTarget};
use crate::database::{fits_column, number, out_of_range};
use crate::domain::{
    is_timestamp, next_version, timestamp, EntityKind, MutationDisposition, StoreError, StoreInputError, StoreOperation,
};
use crate::page::cut;
use crate::trigger_definition::{
    decode as decode_columns, is_readable as is_readable_trigger, target_in, trigger_in, TriggerColumns,
    TriggerDefinitionMutationOutcome,
};

verus! {

/// The latest version of a trigger, as the database holds it.
#[derive(Clone, Copy, Debug, PartialEq, Eq, Structural)]
pub struct CurrentVersion {
    /// The version.
    pub version: i64,
    /// When it was created.
    pub created_at_millis: i64,
}

/// A request to publish a version of a trigger.
#[derive(Clone, Copy, Debug, PartialEq, Eq, Structural)]
pub struct PublishInternalTriggerVersion {
    /// The trigger.
    pub id: u128,
    /// The latest version, as far as known.
    pub expected_current_version: u64,
    /// What it builds.
    pub target: TriggerTarget,
    /// Whether it is set off at all.
    pub enabled: bool,
    /// When it is published.
    pub published_at: i64,
}

/// The row of a new version of a trigger: the latest version must be the expected one, and older.
pub open spec fn publication(current: Option<CurrentVersion>, request: PublishInternalTriggerVersion) -> Result<
    TriggerColumns,
    StoreError,
> {
    match current {
        None => Err(StoreError::NotFound { entity: EntityKind::Trigger }),
        Some(current) => if !fits_column(request.expected_current_version) {
            Err(out_of_range(StoreOperation::PublishInternalTriggerVersion))
        } else if current.version != request.expected_current_version {
            Err(StoreError::Conflict { entity: EntityKind::Trigger })
        } else if request.published_at <= current.created_at_millis {
            Err(
                StoreError::InvalidInput {
                    operation: StoreOperation::PublishInternalTriggerVersion,
                    source: StoreInputError::InvalidNormalizedTrigger,
                },
            )
        } else if current.version == i64::MAX || !fits_column(request.target.configuration_version) {
            Err(out_of_range(StoreOperation::PublishInternalTriggerVersion))
        } else {
            Ok(
                TriggerColumns {
                    trigger_id: request.id,
                    trigger_version: (current.version + 1) as i64,
                    build_configuration_id: request.target.configuration_id,
                    build_configuration_version: request.target.configuration_version as i64,
                },
            )
        },
    }
}

/// Publishes a version of a trigger: gives the row to insert and the outcome.
/// `validated` is the verdict on the request by itself.
pub fn publish(
    validated: Result<(), StoreError>,
    current: Option<CurrentVersion>,
    request: &PublishInternalTriggerVersion,
) -> (result: Result<(TriggerColumns, TriggerDefinitionMutationOutcome), StoreError>)
    ensures
        result == (match (validated, publication(current, *request)) {
            (Err(error), _) => Err(error),
            (Ok(()), Err(error)) => Err(error),
            (Ok(()), Ok(row)) => Ok::<(TriggerColumns, TriggerDefinitionMutationOutcome), StoreError>(
                (
                    row,
                    TriggerDefinitionMutationOutcome {
                        disposition: MutationDisposition::Applied,
                        trigger_id: request.id,
                        version: row.trigger_version as u64,
                    },
                ),
            ),
        }),
{
    validated?;
    let current = match current {
        Some(current) => current,
        None => {
            return Err(StoreError::NotFound { entity: EntityKind::Trigger });
        },
    };
    let expected: i64 = number(request.expected_current_version, StoreOperation::PublishInternalTriggerVersion)?;
    if current.version != expected {
        return Err(StoreError::Conflict { entity: EntityKind::Trigger });
    }
    if request.published_at <= current.created_at_millis {
        return Err(
            StoreError::InvalidInput {
                operation: StoreOperation::PublishInternalTriggerVersion,
                source: StoreInputError::InvalidNormalizedTrigger,
            },
        );
    }
    let next: u64 = next_version(request.expected_current_version)?;
    let trigger_version: i64 = number(next, StoreOperation::PublishInternalTriggerVersion)?;
    let configuration_version: i64 = number(
        request.target.configuration_version,
        StoreOperation::PublishInternalTriggerVersion,
    )?;
    Ok(
        (
            TriggerColumns {
                trigger_id: request.id,
                trigger_version,
                build_configuration_id: request.target.configuration_id,
                build_configuration_version: configuration_version,
            },
            TriggerDefinitionMutationOutcome {
                disposition: MutationDisposition::Applied,
                trigger_id: request.id,
                version: next,
            },
        ),
    )
}

/// Versions of a trigger follow each other in number and in time, and of two requests that expect the same
/// version only one is published.
pub proof fn versions_follow_each_other(
    current: CurrentVersion,
    request: PublishInternalTriggerVersion,
    row: TriggerColumns,
    other: PublishInternalTriggerVersion,
)
    requires
        publication(Some(current), request) == Ok::<TriggerColumns, StoreError>(row),
        other.expected_current_version == request.expected_current_version,
    ensures
        row.trigger_version == current.version + 1,
        request.published_at > current.created_at_millis,
        publication(
            Some(CurrentVersion { version: row.trigger_version, created_at_millis: request.published_at }),
            other,
        ) == Err::<TriggerColumns, StoreError>(StoreError::Conflict { entity: EntityKind::Trigger }),
{
}

/// A definition as the database holds it.
pub struct DefinitionRow {
    /// The trigger, and what it builds.
    pub columns: TriggerColumns,
    /// Whether it is set off at all.
    pub enabled: bool,
    /// What sets it off.
    pub definition: String,
    /// When it was created.
    pub created_at_millis: i64,
}

/// A definition.
pub struct InternalTriggerDefinitionRecord {
    /// The trigger.
    pub trigger: TriggerDefinitionRef,
    /// What it builds.
    pub target: TriggerTarget,
    /// Whether it is set off at all.
    pub enabled: bool,
    /// What sets it off.
    pub definition: String,
    /// When it was created.
    pub created_at: i64,
}

/// Whether a definition can be read.
pub open spec fn is_readable(row: DefinitionRow) -> bool {
    is_readable_trigger(row.columns) && is_timestamp(row.created_at_millis)
}

/// Whether a definition is the one of a row.
pub open spec fn is_definition_of(record: InternalTriggerDefinitionRecord, row: DefinitionRow) -> bool {
    &&& record.trigger == trigger_in(row.columns)
    &&& record.target == target_in(row.columns)
    &&& record.enabled == row.enabled
    &&& record.definition@ == row.definition@
    &&& record.created_at == row.created_at_millis
}

/// Reads a definition.
pub fn decode(row: &DefinitionRow) -> (result: Result<InternalTriggerDefinitionRecord, StoreError>)
    ensures
        match result {
            Ok(record) => is_readable(*row) && is_definition_of(record, *row),
            Err(error) => error == StoreError::Unavailable && !is_readable(*row),
        },
{
    let (trigger, target) = decode_columns(row.columns)?;
    let created_at: i64 = timestamp(row.created_at_millis)?;
    Ok(
        InternalTriggerDefinitionRecord {
            trigger,
            target,
            enabled: row.enabled,
            definition: row.definition.clone(),
            created_at,
        },
    )
}

/// The version of a definition to read, as it is stored.
pub fn read_version(version: u64) -> (result: Result<i64, StoreError>)
    ensures
        result == (if fits_column(version) {
            Ok::<i64, StoreError>(version as i64)
        } else {
            Err(out_of_range(StoreOperation::ReadInternalTriggerDefinition))
        }),
{
    number(version, StoreOperation::ReadInternalTriggerDefinition)
}

/// Reads a definition, where there is one.
pub fn read(row: Option<DefinitionRow>) -> (result: Result<InternalTriggerDefinitionRecord, StoreError>)
    ensures
        match row {
            None => result is Err && result->Err_0 == (StoreError::NotFound { entity: EntityKind::Trigger }),
            Some(row) => match result {
                Ok(record) => is_readable(row) && is_definition_of(record, row),
                Err(error) => error == StoreError::Unavailable && !is_readable(row),
            },
        },
{
    match row {
        None => Err(StoreError::NotFound { entity: EntityKind::Trigger }),
        Some(row) => decode(&row),
    }
}

/// A page of definitions.
pub struct InternalTriggerDefinitionPage {
    /// The definitions.
    pub items: Vec<InternalTriggerDefinitionRecord>,
    /// Where the next page starts, where there is one.
    pub next_after: Option<u128>,
}

/// The rows that a page shows.
pub open spec fn shown(rows: Seq<DefinitionRow>, limit: u16) -> Seq<DefinitionRow> {
    if rows.len() > limit {
        rows.subrange(0, limit as int)
    } else {
        rows
    }
}

/// Whether every row can be read.
pub open spec fn are_readable(rows: Seq<DefinitionRow>) -> bool {
    forall|i: int| 0 <= i < rows.len() ==> is_readable(#[trigger] rows[i])
}

/// Whether a page shows rows.
pub open spec fn is_page_of(page: InternalTriggerDefinitionPage, rows: Seq<DefinitionRow>, limit: u16) -> bool {
    &&& page.items@.len() == shown(rows, limit).len()
    &&& forall|i: int|
        0 <= i < page.items@.len() ==> is_definition_of(#[trigger] page.items@[i], shown(rows, limit)[i])
    &&& page.next_after == (if rows.len() > limit {
        Some(rows[limit - 1].columns.trigger_id)
    } else {
        None
    })
}

/// Reads a page of definitions out of the rows that were fetched for it.
pub fn list(rows: Vec<DefinitionRow>, limit: u16) -> (result: Result<InternalTriggerDefinitionPage, StoreError>)
    requires
        limit > 0,
    ensures
        match result {
            Ok(page) => are_readable(shown(rows@, limit)) && is_page_of(page, rows@, limit),
            Err(error) => error == StoreError::Unavailable && !are_readable(shown(rows@, limit)),
        },
{
    let ghost fetched = rows@;
    let (kept, has_more) = cut(rows, limit);
    let mut items: Vec<InternalTriggerDefinitionRecord> = Vec::new();
    let mut i: usize = 0;
    while i < kept.len()
        invariant
            i <= kept.len(),
            fetched == rows@,
            kept@ == shown(fetched, limit),
            items@.len() == i,
            forall|j: int| 0 <= j < i ==> is_readable(#[trigger] kept@[j]),
            forall|j: int| 0 <= j < i ==> is_definition_of(#[trigger] items@[j], kept@[j]),
        decreases kept.len() - i,
    {
        let item = decode(&kept[i])?;
        items.push(item);
        i += 1;
    }
    let next_after: Option<u128> = if has_more {
        let last = &items[items.len() - 1];
        assert(is_definition_of(items@[limit - 1], kept@[limit - 1]));
        Some(last.trigger.id)
    } else {
        None
    };
    Ok(InternalTriggerDefinitionPage { items, next_after })
}

/// A version of a trigger is published exactly over the one that was expected, and after that was; it then names the
/// configuration that was asked for.
pub proof fn triggers_are_published_over_what_was_expected(
    current: CurrentVersion,
    request: PublishInternalTriggerVersion,
)
    requires
        request.expected_current_version < i64::MAX,
        request.target.configuration_version <= i64::MAX,
    ensures
        publication(Some(current), request) is Ok <==> current.version == request.expected_current_version
            && current.created_at_millis < request.published_at,
        publication(Some(current), request) matches Ok(row) ==> row.trigger_id == request.id && row.trigger_version
            == request.expected_current_version + 1 && row.build_configuration_id == request.target.configuration_id
            && row.build_configuration_version == request.target.configuration_version,
        current.version != request.expected_current_version ==> publication(Some(current), request) == Err::<
            TriggerColumns,
            StoreError,
        >(StoreError::Conflict { entity: EntityKind::Trigger }),
        publication(None, request) == Err::<TriggerColumns, StoreError>(
            StoreError::NotFound { entity: EntityKind::Trigger },
        ),
{
}

/// A page shows the first definitions, as many as were asked for, each as on record; there is another page exactly
/// where there are more, and it starts behind the last one shown.
pub proof fn pages_show_the_first_definitions(
    page: InternalTriggerDefinitionPage,
    rows: Seq<DefinitionRow>,
    limit: u16,
    at: int,
)
    requires
        is_page_of(page, rows, limit),
        limit > 0,
    ensures
        page.items@.len() == (if rows.len() > limit {
            limit as nat
        } else {
            rows.len()
        }),
        0 <= at < page.items@.len() ==> page.items@[at].enabled == rows[at].enabled && page.items@[at].definition@
            == rows[at].definition@ && page.items@[at].created_at == rows[at].created_at_millis
            && page.items@[at].trigger.id == rows[at].columns.trigger_id && page.items@[at].target.configuration_id
            == rows[at].columns.build_configuration_id,
        page.next_after is Some <==> rows.len() > limit,
        page.next_after matches Some(id) ==> id == rows[limit - 1].columns.trigger_id,
{
    if 0 <= at < page.items@.len() {
        assert(is_definition_of(page.items@[at], shown(rows, limit)[at]));
    }
}

/// A definition is read exactly where its columns are sound and its time is no earlier than the Unix epoch.
pub proof fn sound_definitions_are_read(row: DefinitionRow)
    ensures
        is_readable(row) <==> is_readable_trigger(row.columns) && row.created_at_millis >= 0,
{
}

/// Definitions are read exactly where each of them is.
pub proof fn pages_of_definitions_are_read(rows: Seq<DefinitionRow>)
    ensures
        are_readable(rows) <==> forall|i: int| 0 <= i < rows.len() ==> is_readable(#[trigger] rows[i]),
{
}

} // verus!
