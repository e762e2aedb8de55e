//! Reading the event log of a job, page by page.

use vstd::prelude::*;

use crate::database::{fits_column, number, out_of_range};
use crate::domain::{is_timestamp, is_version, EntityKind, StoreError, StoreOperation};

verus! {

/// One row of a page: the end of the log, and an event unless the page is empty.
pub struct JobEventReadRow {
    /// End of the log.
    pub current_sequence: i64,
    /// Position of the event.
    pub sequence: Option<i64>,
    /// Kind of the event.
    pub event_kind: Option<String>,
    /// When the event happened.
    pub event_time_unix_ms: Option<i64>,
    /// Payload of the event.
    pub payload: Option<String>,
    /// Whether kind and payload are admissible for an event.
    pub admissible: bool,
}

/// An event of a job's log.
pub struct DurableJobEvent {
    /// Position in the log.
    pub sequence: u64,
    /// Its kind.
    pub kind: String,
    /// When it happened.
    pub occurred_at: i64,
    /// Its payload.
    pub payload: String,
}

/// A page of a job's log.
pub struct JobEventPage {
    /// The events, in order.
    pub events: Vec<DurableJobEvent>,
    /// Position to continue from.
    pub cursor: u64,
}

/// Whether a row holds no event.
pub open spec fn is_blank(row: JobEventReadRow) -> bool {
    row.sequence is None && row.event_kind is None && row.event_time_unix_ms is None && row.payload is None
}

/// Whether a row holds an event that can be read.
pub open spec fn is_event(row: JobEventReadRow) -> bool {
    &&& row.sequence matches Some(sequence) && is_version(sequence)
    &&& row.event_kind is Some
    &&& row.event_time_unix_ms matches Some(time) && is_timestamp(time)
    &&& row.payload is Some
    &&& row.admissible
}

/// The rows of a page that hold an event.
pub open spec fn event_rows(rows: Seq<JobEventReadRow>) -> Seq<JobEventReadRow>
    decreases rows.len(),
{
    if rows.len() == 0 {
        Seq::empty()
    } else if is_blank(rows.last()) {
        event_rows(rows.drop_last())
    } else {
        event_rows(rows.drop_last()).push(rows.last())
    }
}

/// Whether an event is the one its row holds.
pub open spec fn is_event_of(event: DurableJobEvent, row: JobEventReadRow) -> bool {
    &&& is_event(row)
    &&& event.sequence == row.sequence->Some_0
    &&& event.kind@ == row.event_kind->Some_0@
    &&& event.occurred_at == row.event_time_unix_ms->Some_0
    &&& event.payload@ == row.payload->Some_0@
}

/// Whether every row of a page is blank or holds a readable event.
pub open spec fn is_readable_page(rows: Seq<JobEventReadRow>) -> bool {
    &&& rows[0].current_sequence >= 0
    &&& forall|i: int| 0 <= i < rows.len() ==> is_blank(#[trigger] rows[i]) || is_event(rows[i])
}

fn event_of(row: &JobEventReadRow) -> (event: Option<DurableJobEvent>)
    ensures
        match event {
            Some(event) => is_event_of(event, *row),
            None => !is_event(*row),
        },
{
    match (&row.sequence, &row.event_kind, &row.event_time_unix_ms, &row.payload) {
        (Some(sequence), Some(kind), Some(occurred_at), Some(payload)) => {
            if *sequence > 0 && *occurred_at >= 0 && row.admissible {
                Some(
                    DurableJobEvent {
                        sequence: *sequence as u64,
                        kind: kind.clone(),
                        occurred_at: *occurred_at,
                        payload: payload.clone(),
                    },
                )
            } else {
                None
            }
        },
        _ => None,
    }
}

/// Reads a page: a job that does not exist has no rows, and a row that is neither blank nor a
/// readable event makes the page unreadable. The cursor is the last event of the page, or the end of
/// the log where the page holds none.
/// `validated` is the verdict on the request by itself, and `after` the position past which the log is read.
pub fn read(validated: Result<(), StoreError>, after: u64, rows: &Vec<JobEventReadRow>) -> (result: Result<
    JobEventPage,
    StoreError,
>)
    ensures
        if validated is Err {
            result is Err && result->Err_0 == validated->Err_0
        } else if !fits_column(after) {
            result is Err && result->Err_0 == out_of_range(StoreOperation::ReadJobEvents)
        } else if rows@.len() == 0 {
            result is Err && result->Err_0 == (StoreError::NotFound { entity: EntityKind::Job })
        } else if !is_readable_page(rows@) {
            result is Err && result->Err_0 == StoreError::Unavailable
        } else {
            &&& result is Ok
            &&& result->Ok_0.events@.len() == event_rows(rows@).len()
            &&& forall|i: int|
                0 <= i < event_rows(rows@).len() ==> is_event_of(
                    #[trigger] result->Ok_0.events@[i],
                    event_rows(rows@)[i],
                )
            &&& result->Ok_0.cursor == (if event_rows(rows@).len() == 0 {
                rows@[0].current_sequence as int
            } else {
                event_rows(rows@).last().sequence->Some_0 as int
            })
        },
{
    match validated {
        Ok(()) => {},
        Err(error) => {
            return Err(error);
        },
    }
    let _after: i64 = number(after, StoreOperation::ReadJobEvents)?;
    if rows.len() == 0 {
        return Err(StoreError::NotFound { entity: EntityKind::Job });
    }
    if rows[0].current_sequence < 0 {
        return Err(StoreError::Unavailable);
    }
    let mut cursor: u64 = rows[0].current_sequence as u64;
    let mut events: Vec<DurableJobEvent> = Vec::new();
    let mut i: usize = 0;
    assert(rows@.subrange(0, 0) =~= Seq::empty());
    while i < rows.len()
        invariant
            i <= rows@.len(),
            validated is Ok,
            fits_column(after),
            rows@.len() > 0,
            rows@[0].current_sequence >= 0,
            forall|k: int| 0 <= k < i ==> is_blank(#[trigger] rows@[k]) || is_event(rows@[k]),
            events@.len() == event_rows(rows@.subrange(0, i as int)).len(),
            forall|k: int|
                0 <= k < events@.len() ==> is_event_of(
                    #[trigger] events@[k],
                    event_rows(rows@.subrange(0, i as int))[k],
                ),
            cursor == (if events@.len() == 0 {
                rows@[0].current_sequence as int
            } else {
                events@.last().sequence as int
            }),
        decreases rows@.len() - i,
    {
        let row = &rows[i];
        assert(rows@.subrange(0, i + 1).drop_last() =~= rows@.subrange(0, i as int));
        assert(rows@.subrange(0, i + 1).last() == *row);
        let blank = row.sequence.is_none() && row.event_kind.is_none() && row.event_time_unix_ms.is_none()
            && row.payload.is_none();
        if !blank {
            match event_of(row) {
                Some(event) => {
                    cursor = event.sequence;
                    events.push(event);
                },
                None => {
                    assert(!is_blank(rows@[i as int]) && !is_event(rows@[i as int]));
                    return Err(StoreError::Unavailable);
                },
            }
        }
        i += 1;
    }
    assert(rows@.subrange(0, i as int) =~= rows@);
    Ok(JobEventPage { events, cursor })
}

/// The events of a page are exactly the rows that hold something, in their order: the events of two pieces of a page
/// are those of the first and then those of the second.
pub proof fn events_are_read_in_order(first: Seq<JobEventReadRow>, second: Seq<JobEventReadRow>, row: JobEventReadRow)
    ensures
        event_rows(first + second) == event_rows(first) + event_rows(second),
        event_rows(seq![row]) == (if row.sequence is None && row.event_kind is None && row.event_time_unix_ms is None
            && row.payload is None {
            Seq::<JobEventReadRow>::empty()
        } else {
            seq![row]
        }),
    decreases second.len(),
{
    let one = seq![row];
    assert(one.drop_last() =~= Seq::<JobEventReadRow>::empty());
    assert(one.last() == row);
    assert(event_rows(Seq::<JobEventReadRow>::empty()) == Seq::<JobEventReadRow>::empty());
    assert(Seq::<JobEventReadRow>::empty().push(row) =~= seq![row]);
    if second.len() == 0 {
        assert(first + second =~= first);
        assert(event_rows(first) + event_rows(second) =~= event_rows(first));
    } else {
        events_are_read_in_order(first, second.drop_last(), row);
        assert((first + second).drop_last() =~= first + second.drop_last());
        assert((first + second).last() == second.last());
        assert(event_rows(first + second) =~= event_rows(first) + event_rows(second));
    }
}

/// An event is read back as it was written: at its position, of its kind, at its time, with its payload.
pub proof fn events_are_read_as_written(event: DurableJobEvent, row: JobEventReadRow)
    requires
        is_event_of(event, row),
    ensures
        row.sequence matches Some(sequence) && sequence > 0 && event.sequence == sequence,
        row.event_kind matches Some(kind) && event.kind@ == kind@,
        row.event_time_unix_ms matches Some(time) && event.occurred_at == time,
        row.payload matches Some(payload) && event.payload@ == payload@,
        row.admissible,
{
}

/// A page of events is read exactly where the last sequence is not negative and each row holds a whole event, whose
/// sequence counts from one, or nothing at all.
pub proof fn sound_pages_are_read(rows: Seq<JobEventReadRow>)
    requires
        rows.len() > 0,
    ensures
        is_readable_page(rows) <==> rows[0].current_sequence >= 0 && forall|i: int|
            0 <= i < rows.len() ==> ((#[trigger] rows[i]).sequence is None && rows[i].event_kind is None
                && rows[i].event_time_unix_ms is None && rows[i].payload is None) || (rows[i].sequence is Some
                && rows[i].sequence->Some_0 > 0 && rows[i].event_kind is Some && rows[i].event_time_unix_ms is Some
                && rows[i].event_time_unix_ms->Some_0 >= 0 && rows[i].payload is Some && rows[i].admissible),
{
    if is_readable_page(rows) {
        assert forall|i: int| 0 <= i < rows.len() implies ((#[trigger] rows[i]).sequence is None && rows[i].event_kind
            is None && rows[i].event_time_unix_ms is None && rows[i].payload is None) || (rows[i].sequence is Some
            && rows[i].sequence->Some_0 > 0 && rows[i].event_kind is Some && rows[i].event_time_unix_ms is Some
            && rows[i].event_time_unix_ms->Some_0 >= 0 && rows[i].payload is Some && rows[i].admissible) by {
            assert(is_blank(rows[i]) || is_event(rows[i]));
        }
    }
}

} // verus!
