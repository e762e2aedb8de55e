//! The durable event log of a job: appending batches of events and log chunks.

use vstd::prelude::*;

use crate::database::{fits_column, number, out_of_range};
use crate::decimal::{decimal, decimal_text};
use crate::domain::{identity, is_identity, EntityKind, StoreError, StoreInputError, StoreOperation};
use crate::hash::sha256_of;
use crate::identity_text::{hyphenated, identity_text};
use crate::lease::{currency, current_states_are_not_expired, load, loaded, require_current, LeaseAccess, LeaseRow};
use crate::mutation::{FactValue, Member, MutationFacts};
use crate::refusal::{a_refusal_is_found, first_refusal, first_refusal_decides, no_refusal_remains};
use crate::state::{job_state, job_state_text, job_state_text_names_one_value, parse_job_state, JobState};
use crate::text::same_bytes;

verus! {

/// What appending reads of an event.
pub struct JobEvent {
    /// Position in the job's log, counted from one.
    pub sequence: u64,
    /// Digest of the event.
    pub digest: Vec<u8>,
}

/// Digest of an event that is already durable.
pub struct EventDigestRow {
    /// Its position.
    pub sequence: i64,
    /// Its digest.
    pub event_digest: Vec<u8>,
}

/// The digests on record, by position; a position read twice has the digest read last.
pub open spec fn digests_by_sequence(rows: Seq<EventDigestRow>) -> Map<i64, Seq<u8>>
    decreases rows.len(),
{
    if rows.len() == 0 {
        Map::empty()
    } else {
        digests_by_sequence(rows.drop_last()).insert(rows.last().sequence, rows.last().event_digest@)
    }
}

fn digest_matches(rows: &Vec<EventDigestRow>, sequence: i64, digest: &[u8]) -> (matches: bool)
    ensures
        matches == (digests_by_sequence(rows@).contains_key(sequence) && digests_by_sequence(rows@)[sequence]
            == digest@),
{
    let mut i: usize = rows.len();
    assert(rows@.subrange(0, i as int) =~= rows@);
    while i > 0
        invariant
            i <= rows@.len(),
            digests_by_sequence(rows@).contains_key(sequence) == digests_by_sequence(
                rows@.subrange(0, i as int),
            ).contains_key(sequence),
            digests_by_sequence(rows@).contains_key(sequence) ==> digests_by_sequence(rows@)[sequence]
                == digests_by_sequence(rows@.subrange(0, i as int))[sequence],
        decreases i,
    {
        let ghost prefix = rows@.subrange(0, i as int);
        i -= 1;
        assert(prefix.drop_last() =~= rows@.subrange(0, i as int));
        assert(prefix.last() == rows@[i as int]);
        if rows[i].sequence == sequence {
            return same_bytes(rows[i].event_digest.as_slice(), digest);
        }
    }
    assert(rows@.subrange(0, 0).len() == 0);
    false
}

/// What one more event comes to, where `fresh` events of the batch came before it that were not
/// durable: the count of such events after it, or the reason to refuse the batch.
pub open spec fn judged(
    event: JobEvent,
    job_id: u128,
    durable_through: u64,
    digests: Map<i64, Seq<u8>>,
    fresh: nat,
) -> Result<nat, StoreError> {
    if event.sequence <= durable_through {
        if digests.contains_key(event.sequence as i64) && digests[event.sequence as i64] == event.digest@ {
            Ok(fresh)
        } else {
            Err(StoreError::Conflict { entity: EntityKind::Job })
        }
    } else if event.sequence != durable_through + 1 + fresh {
        if is_identity(job_id) {
            Err(
                StoreError::EventGap {
                    job: job_id,
                    expected: (durable_through + 1 + fresh) as u64,
                    actual: event.sequence,
                },
            )
        } else {
            Err(StoreError::Unavailable)
        }
    } else if !fits_column(event.sequence) {
        Err(out_of_range(StoreOperation::AppendJobEvents))
    } else {
        Ok(fresh + 1)
    }
}

/// What a batch comes to: the number of its events that are not durable yet, or the reason given
/// by the first event that has one.
pub open spec fn scanned(
    events: Seq<JobEvent>,
    job_id: u128,
    durable_through: u64,
    digests: Map<i64, Seq<u8>>,
) -> Result<nat, StoreError>
    decreases events.len(),
{
    if events.len() == 0 {
        Ok(0)
    } else {
        match scanned(events.drop_last(), job_id, durable_through, digests) {
            Err(error) => Err(error),
            Ok(fresh) => judged(events.last(), job_id, durable_through, digests, fresh),
        }
    }
}

/// Which part of a batch is to be written.
pub struct AppendPlan {
    /// Indices of the events to write, in order.
    pub new_events: Vec<usize>,
    /// Position through which the log is durable once they are written.
    pub acknowledged_through: u64,
    /// Number of events written.
    pub inserted: usize,
}

/// What appending a batch comes to; a batch whose first position no column can hold is malformed.
pub open spec fn appended(
    events: Seq<JobEvent>,
    job_id: u128,
    durable_through: i64,
    digests: Map<i64, Seq<u8>>,
) -> Result<nat, StoreError> {
    if durable_through < 0 {
        Err(StoreError::Unavailable)
    } else if !fits_column(events[0].sequence) {
        Err(out_of_range(StoreOperation::AppendJobEvents))
    } else {
        scanned(events, job_id, durable_through as u64, digests)
    }
}

/// Whether the listed events are, in order, exactly those the log continues with.
pub open spec fn continues(new_events: Seq<usize>, events: Seq<JobEvent>, durable_through: int) -> bool {
    forall|k: int|
        0 <= k < new_events.len() ==> #[trigger] new_events[k] < events.len() && events[new_events[k] as int].sequence
            == durable_through + 1 + k
}

/// Plans the append of a batch to a log that is durable through `durable_through`. Events that are
/// durable already must carry the digest on record; the others must continue the log without a gap.
pub fn plan_append(
    events: &Vec<JobEvent>,
    job_id: u128,
    durable_through: i64,
    durable_digests: &Vec<EventDigestRow>,
) -> (result: Result<AppendPlan, StoreError>)
    requires
        events@.len() > 0,
        forall|i: int| 0 <= i < events@.len() ==> (#[trigger] events@[i]).sequence > 0,
    ensures
        match appended(events@, job_id, durable_through, digests_by_sequence(durable_digests@)) {
            Ok(fresh) => result matches Ok(plan) && plan.inserted == fresh && plan.new_events@.len() == fresh
                && plan.acknowledged_through == durable_through + fresh && plan.acknowledged_through > 0 && continues(
                plan.new_events@,
                events@,
                durable_through as int,
            ),
            Err(error) => result matches Err(reported) && reported == error,
        },
{
    if durable_through < 0 {
        return Err(StoreError::Unavailable);
    }
    let durable: u64 = durable_through as u64;
    let _first: i64 = number(events[0].sequence, StoreOperation::AppendJobEvents)?;
    let ghost digests = digests_by_sequence(durable_digests@);
    let mut expected: u64 = durable + 1;
    let mut new_events: Vec<usize> = Vec::new();
    let mut i: usize = 0;
    assert(events@.subrange(0, 0) =~= Seq::empty());
    while i < events.len()
        invariant
            i <= events@.len(),
            digests == digests_by_sequence(durable_digests@),
            0 <= durable_through,
            durable == durable_through,
            fits_column(events@[0].sequence),
            forall|k: int| 0 <= k < events@.len() ==> (#[trigger] events@[k]).sequence > 0,
            scanned(events@.subrange(0, i as int), job_id, durable, digests) == Ok::<nat, StoreError>(
                new_events@.len(),
            ),
            expected == durable + 1 + new_events@.len(),
            expected <= i64::MAX + 1,
            new_events@.len() <= i,
            i > 0 ==> durable + new_events@.len() > 0,
            continues(new_events@, events@, durable_through as int),
        decreases events@.len() - i,
    {
        let event = &events[i];
        let ghost before = events@.subrange(0, i as int);
        let ghost after = events@.subrange(0, i + 1);
        assert(after.drop_last() =~= before);
        assert(after.last() == *event);
        proof {
            scan_stops_at_the_first_reason(
                events@,
                i + 1,
                events@.len() as int,
                job_id,
                durable,
                digests,
            );
            assert(events@.subrange(0, events@.len() as int) =~= events@);
        }
        if event.sequence <= durable {
            let sequence: i64 = number(event.sequence, StoreOperation::AppendJobEvents)?;
            if !digest_matches(durable_digests, sequence, event.digest.as_slice()) {
                return Err(StoreError::Conflict { entity: EntityKind::Job });
            }
        } else {
            if event.sequence != expected {
                let job: u128 = identity(job_id)?;
                return Err(StoreError::EventGap { job, expected, actual: event.sequence });
            }
            let _sequence: i64 = number(event.sequence, StoreOperation::AppendJobEvents)?;
            new_events.push(i);
            expected = expected + 1;
        }
        i += 1;
    }
    assert(events@.subrange(0, i as int) =~= events@);
    let inserted: usize = new_events.len();
    Ok(AppendPlan { new_events, acknowledged_through: expected - 1, inserted })
}

proof fn scan_stops_at_the_first_reason(
    events: Seq<JobEvent>,
    from: int,
    to: int,
    job_id: u128,
    durable_through: u64,
    digests: Map<i64, Seq<u8>>,
)
    requires
        0 <= from <= to <= events.len(),
    ensures
        scanned(events.subrange(0, from), job_id, durable_through, digests) is Err ==> scanned(
            events.subrange(0, to),
            job_id,
            durable_through,
            digests,
        ) == scanned(events.subrange(0, from), job_id, durable_through, digests),
    decreases to - from,
{
    if from < to {
        scan_stops_at_the_first_reason(events, from, to - 1, job_id, durable_through, digests);
        assert(events.subrange(0, to).drop_last() =~= events.subrange(0, to - 1));
    }
}

/// Appending a batch again after it became durable writes nothing: once the log holds every event of
/// the batch under its digest, all of it is recognised.
pub proof fn appending_again_writes_nothing(
    events: Seq<JobEvent>,
    job_id: u128,
    durable_through: u64,
    digests: Map<i64, Seq<u8>>,
)
    requires
        forall|i: int|
            0 <= i < events.len() ==> (#[trigger] events[i]).sequence <= durable_through && digests.contains_key(
                events[i].sequence as i64,
            ) && digests[events[i].sequence as i64] == events[i].digest@,
    ensures
        scanned(events, job_id, durable_through, digests) == Ok::<nat, StoreError>(0),
    decreases events.len(),
{
    if events.len() > 0 {
        appending_again_writes_nothing(events.drop_last(), job_id, durable_through, digests);
        assert(events.last() == events[events.len() - 1]);
    }
}

/// An accepted batch leaves no hole: every position from the old end of the log to the new one is
/// taken by an event of the batch.
pub proof fn accepted_batches_leave_no_hole(
    events: Seq<JobEvent>,
    job_id: u128,
    durable_through: u64,
    digests: Map<i64, Seq<u8>>,
    position: int,
)
    requires
        scanned(events, job_id, durable_through, digests) is Ok,
        durable_through < position <= durable_through + scanned(events, job_id, durable_through, digests)->Ok_0,
    ensures
        exists|i: int| 0 <= i < events.len() && (#[trigger] events[i]).sequence == position,
    decreases events.len(),
{
    let shorter = events.drop_last();
    let fresh = scanned(shorter, job_id, durable_through, digests)->Ok_0;
    if position <= durable_through + fresh {
        accepted_batches_leave_no_hole(shorter, job_id, durable_through, digests, position);
        let i = choose|i: int| 0 <= i < shorter.len() && (#[trigger] shorter[i]).sequence == position;
        assert(events[i] == shorter[i]);
    } else {
        assert(events[events.len() - 1] == events.last());
    }
}

/// A batch that skips a position is refused with the position that is missing.
pub proof fn gaps_are_refused(
    accepted: Seq<JobEvent>,
    event: JobEvent,
    job_id: u128,
    durable_through: u64,
    digests: Map<i64, Seq<u8>>,
    fresh: nat,
)
    requires
        is_identity(job_id),
        scanned(accepted, job_id, durable_through, digests) == Ok::<nat, StoreError>(fresh),
        event.sequence > durable_through + 1 + fresh,
    ensures
        scanned(accepted.push(event), job_id, durable_through, digests) == Err::<nat, StoreError>(
            StoreError::EventGap {
                job: job_id,
                expected: (durable_through + 1 + fresh) as u64,
                actual: event.sequence,
            },
        ),
{
    assert(accepted.push(event).drop_last() =~= accepted);
}

/// The positions whose digests have to be read to recognise events of a batch that are durable
/// already; none where the batch starts past the end of the log.
pub fn replay_range(events: &Vec<JobEvent>, durable_through: u64) -> (result: Result<Option<(i64, i64)>, StoreError>)
    requires
        events@.len() > 0,
    ensures
        ({
            let end = if events@.last().sequence <= durable_through {
                events@.last().sequence
            } else {
                durable_through
            };
            if !fits_column(events@[0].sequence) || !fits_column(end) {
                result == Err::<Option<(i64, i64)>, StoreError>(out_of_range(StoreOperation::AppendJobEvents))
            } else if events@[0].sequence <= end {
                result == Ok::<Option<(i64, i64)>, StoreError>(Some((events@[0].sequence as i64, end as i64)))
            } else {
                result == Ok::<Option<(i64, i64)>, StoreError>(None)
            }
        }),
{
    let first: i64 = number(events[0].sequence, StoreOperation::AppendJobEvents)?;
    let last: u64 = events[events.len() - 1].sequence;
    let end: u64 = if last <= durable_through {
        last
    } else {
        durable_through
    };
    let replay_end: i64 = number(end, StoreOperation::AppendJobEvents)?;
    if first <= replay_end {
        Ok(Some((first, replay_end)))
    } else {
        Ok(None)
    }
}

/// The position through which a log is durable, as the database counts it.
pub fn durable_position(durable_through: i64) -> (result: Result<u64, StoreError>)
    ensures
        result == (if durable_through >= 0 {
            Ok::<u64, StoreError>(durable_through as u64)
        } else {
            Err(StoreError::Unavailable)
        }),
{
    if durable_through >= 0 {
        Ok(durable_through as u64)
    } else {
        Err(StoreError::Unavailable)
    }
}

/// What persisting reads of a log chunk.
#[derive(Clone, Copy, Debug, PartialEq, Eq, Structural)]
pub struct LogChunk {
    /// First position of the job's log in the chunk.
    pub first_sequence: u64,
    /// Last position of the job's log in the chunk.
    pub last_sequence: u64,
    /// Its length.
    pub byte_length: u64,
}

/// A log chunk as it is written, with its place in the project's indexing order.
#[derive(Clone, Copy, Debug, PartialEq, Eq, Structural)]
pub struct ChunkWrite {
    /// Place in the project's indexing order.
    pub position: i64,
    /// First position of the job's log in the chunk.
    pub first_sequence: i64,
    /// Last position of the job's log in the chunk.
    pub last_sequence: i64,
    /// Its length.
    pub byte_length: i64,
}

/// Whether every number of a chunk fits its column.
pub open spec fn chunk_fits(chunk: LogChunk) -> bool {
    fits_column(chunk.first_sequence) && fits_column(chunk.last_sequence) && fits_column(chunk.byte_length)
}

/// The write of the `index`-th chunk of a batch.
pub open spec fn chunk_write(chunk: LogChunk, committed_through: int, index: int) -> ChunkWrite {
    ChunkWrite {
        position: (committed_through + 1 + index) as i64,
        first_sequence: chunk.first_sequence as i64,
        last_sequence: chunk.last_sequence as i64,
        byte_length: chunk.byte_length as i64,
    }
}

/// The reason to refuse the `index`-th chunk of a batch, if there is one.
pub open spec fn chunk_refusal(chunk: LogChunk, committed_through: int, index: int) -> Option<StoreError> {
    if committed_through + 1 + index > i64::MAX {
        Some(StoreError::Unavailable)
    } else if !chunk_fits(chunk) {
        Some(out_of_range(StoreOperation::AppendJobEvents))
    } else {
        None
    }
}

/// The reasons to refuse the chunks of a batch, one by one.
pub open spec fn chunk_refusals(chunks: Seq<LogChunk>, committed_through: int) -> Seq<Option<StoreError>> {
    Seq::new(chunks.len(), |i: int| chunk_refusal(chunks[i], committed_through, i))
}

/// The reason to refuse the chunks of a batch, if there is one: that of the first chunk that has one.
pub open spec fn chunks_refusal(chunks: Seq<LogChunk>, committed_through: int) -> Option<StoreError> {
    first_refusal(chunk_refusals(chunks, committed_through))
}

/// Whether the chunks of a batch are written at the next places in their project's indexing order.
pub open spec fn are_chunk_writes(writes: Seq<ChunkWrite>, chunks: Seq<LogChunk>, committed_through: int) -> bool {
    writes.len() == chunks.len() && forall|i: int|
        0 <= i < chunks.len() ==> #[trigger] writes[i] == chunk_write(chunks[i], committed_through, i)
}

/// Gives the chunks of a batch the next places in their project's indexing order. The first chunk
/// that cannot be written decides the error.
pub fn plan_log_chunks(committed_through: i64, chunks: &Vec<LogChunk>) -> (result: Result<Vec<ChunkWrite>, StoreError>)
    ensures
        match chunks_refusal(chunks@, committed_through as int) {
            None => result matches Ok(writes) && are_chunk_writes(writes@, chunks@, committed_through as int),
            Some(refusal) => result matches Err(error) && error == refusal,
        },
{
    let ghost refusals = chunk_refusals(chunks@, committed_through as int);
    let mut writes: Vec<ChunkWrite> = Vec::new();
    let mut position: i64 = committed_through;
    let mut i: usize = 0;
    while i < chunks.len()
        invariant
            i <= chunks@.len(),
            writes@.len() == i,
            position == committed_through + i,
            refusals == chunk_refusals(chunks@, committed_through as int),
            forall|j: int| 0 <= j < i ==> (#[trigger] refusals[j]) is None,
            forall|j: int|
                0 <= j < i ==> #[trigger] writes@[j] == chunk_write(chunks@[j], committed_through as int, j),
        decreases chunks@.len() - i,
    {
        let chunk = chunks[i];
        assert(refusals[i as int] == chunk_refusal(chunk, committed_through as int, i as int));
        proof {
            if refusals[i as int] is Some {
                first_refusal_decides(refusals, i as int);
            }
        }
        position = match position.checked_add(1) {
            Some(next) => next,
            None => {
                return Err(StoreError::Unavailable);
            },
        };
        let first_sequence: i64 = number(chunk.first_sequence, StoreOperation::AppendJobEvents)?;
        let last_sequence: i64 = number(chunk.last_sequence, StoreOperation::AppendJobEvents)?;
        let byte_length: i64 = number(chunk.byte_length, StoreOperation::AppendJobEvents)?;
        writes.push(ChunkWrite { position, first_sequence, last_sequence, byte_length });
        i += 1;
    }
    proof {
        no_refusal_remains(refusals);
    }
    Ok(writes)
}

/// The reason for which the execution of a job cannot start, if there is one. `transition` is what starting
/// makes of the state that the job is in.
pub open spec fn start_refusal(current: Seq<char>, transition: Result<JobState, StoreError>) -> Option<StoreError> {
    if forall|state: JobState| current != #[trigger] job_state_text(state) {
        Some(StoreError::Unavailable)
    } else {
        match transition {
            Err(error) => Some(error),
            Ok(_) => None,
        }
    }
}

/// Whether a state is written as execution starts: not where the job is in it already.
pub open spec fn is_start(write: Option<&'static str>, current: Seq<char>, started: JobState) -> bool {
    match write {
        Some(text) => text@ == job_state_text(started) && current != job_state_text(started),
        None => current == job_state_text(started),
    }
}

/// The state to write when the first events of a job arrive: none where its state stays as it is.
/// `transition` is what execution starting makes of the job's current state.
pub fn execution_started(
    current: &str,
    transition: Result<JobState, StoreError>,
) -> (result: Result<Option<&'static str>, StoreError>)
    ensures
        match start_refusal(current@, transition) {
            Some(refusal) => result matches Err(error) && error == refusal,
            None => result matches Ok(write) && is_start(write, current@, transition->Ok_0),
        },
{
    let state = match parse_job_state(current) {
        Ok(state) => state,
        Err(_) => {
            return Err(StoreError::Unavailable);
        },
    };
    assert(job_state_text(state) == current@);
    match transition {
        Ok(next) => {
            proof {
                job_state_text_names_one_value(state, next);
            }
            if next != state {
                Ok(Some(job_state(next)))
            } else {
                Ok(None)
            }
        },
        Err(error) => Err(error),
    }
}

/// What an append meets in the database.
pub struct AppendSurroundings {
    /// The position through which the log of the job is durable.
    pub durable_through: i64,
    /// The digests of events on record.
    pub durable_digests: Vec<EventDigestRow>,
    /// The state of the job.
    pub job_state: String,
    /// The place of the last chunk in the project's indexing order.
    pub committed_through: i64,
}

/// What is to be written of a batch.
pub struct JobEventAppend {
    /// Which of its events.
    pub plan: AppendPlan,
    /// The state of the job, where it changes.
    pub started: Option<&'static str>,
    /// Its log chunks.
    pub chunks: Vec<ChunkWrite>,
}

/// What appending a batch comes to under a lease that was loaded: the number of its events that are new, or the
/// reason to refuse it. `chunks_fit` is the verdict on whether the log chunks go with the events, and
/// `transition` what execution starting makes of the state of the job.
pub open spec fn append_verdict(
    lease: LeaseRow,
    access: LeaseAccess,
    accepted_at: i64,
    events: Seq<JobEvent>,
    chunks: Seq<LogChunk>,
    chunks_fit: Result<(), StoreError>,
    transition: Result<JobState, StoreError>,
    met: AppendSurroundings,
) -> Result<nat, StoreError> {
    match currency(lease, access, accepted_at) {
        Err(error) => Err(error),
        Ok(()) => match appended(
            events,
            lease.job_id,
            met.durable_through,
            digests_by_sequence(met.durable_digests@),
        ) {
            Err(error) => Err(error),
            Ok(fresh) => match chunks_fit {
                Err(error) => Err(error),
                Ok(()) => if fresh > 0 && start_refusal(met.job_state@, transition) is Some {
                    Err(start_refusal(met.job_state@, transition)->Some_0)
                } else {
                    match chunks_refusal(chunks, met.committed_through as int) {
                        Some(error) => Err(error),
                        None => if is_identity(lease.job_id) {
                            Ok(fresh)
                        } else {
                            Err(StoreError::Unavailable)
                        },
                    }
                },
            },
        },
    }
}

/// Whether a batch is written as its verdict says: `fresh` events that continue the log, the state of the job
/// where these are its first, and the chunks at the next places.
pub open spec fn is_append(
    append: JobEventAppend,
    fresh: nat,
    events: Seq<JobEvent>,
    chunks: Seq<LogChunk>,
    transition: Result<JobState, StoreError>,
    met: AppendSurroundings,
) -> bool {
    &&& append.plan.inserted == fresh
    &&& append.plan.new_events@.len() == fresh
    &&& append.plan.acknowledged_through == met.durable_through + fresh
    &&& continues(append.plan.new_events@, events, met.durable_through as int)
    &&& if fresh > 0 {
        is_start(append.started, met.job_state@, transition->Ok_0)
    } else {
        append.started is None
    }
    &&& are_chunk_writes(append.chunks@, chunks, met.committed_through as int)
}

/// Plans everything that an append writes under a lease that was loaded.
pub fn execute_held(
    lease: &LeaseRow,
    access: &LeaseAccess,
    accepted_at: i64,
    events: &Vec<JobEvent>,
    chunks: &Vec<LogChunk>,
    chunks_fit: Result<(), StoreError>,
    transition: Result<JobState, StoreError>,
    met: &AppendSurroundings,
) -> (result: Result<JobEventAppend, StoreError>)
    requires
        events@.len() > 0,
        forall|i: int| 0 <= i < events@.len() ==> (#[trigger] events@[i]).sequence > 0,
    ensures
        match append_verdict(*lease, *access, accepted_at, events@, chunks@, chunks_fit, transition, *met) {
            Err(refusal) => result matches Err(error) && error == refusal,
            Ok(fresh) => result matches Ok(append) && is_append(append, fresh, events@, chunks@, transition, *met),
        },
{
    match require_current(lease, access, accepted_at) {
        Ok(()) => {},
        Err(error) => {
            return Err(error);
        },
    }
    let plan = match plan_append(events, lease.job_id, met.durable_through, &met.durable_digests) {
        Ok(plan) => plan,
        Err(error) => {
            return Err(error);
        },
    };
    match chunks_fit {
        Ok(()) => {},
        Err(error) => {
            return Err(error);
        },
    }
    let started: Option<&'static str> = if plan.inserted > 0 {
        match execution_started(met.job_state.as_str(), transition) {
            Ok(started) => started,
            Err(error) => {
                return Err(error);
            },
        }
    } else {
        None
    };
    let writes = match plan_log_chunks(met.committed_through, chunks) {
        Ok(writes) => writes,
        Err(error) => {
            return Err(error);
        },
    };
    let _job: u128 = identity(lease.job_id)?;
    Ok(JobEventAppend { plan, started, chunks: writes })
}

/// Plans everything that an append writes: `validated` is the verdict on the request by itself, and the caller has to
/// hold the lease.
pub fn execute(
    validated: Result<(), StoreError>,
    row: Option<LeaseRow>,
    access: &LeaseAccess,
    accepted_at: i64,
    events: &Vec<JobEvent>,
    chunks: &Vec<LogChunk>,
    chunks_fit: Result<(), StoreError>,
    transition: Result<JobState, StoreError>,
    met: &AppendSurroundings,
) -> (result: Result<JobEventAppend, StoreError>)
    requires
        validated is Ok ==> events@.len() > 0,
        validated is Ok ==> forall|i: int| 0 <= i < events@.len() ==> (#[trigger] events@[i]).sequence > 0,
    ensures
        match validated {
            Err(refusal) => result matches Err(error) && error == refusal,
            Ok(()) => match loaded(row, *access, StoreOperation::AppendJobEvents, sha256_of(access.fence@)) {
                Err(refusal) => result matches Err(error) && error == refusal,
                Ok(lease) => match append_verdict(
                    lease,
                    *access,
                    accepted_at,
                    events@,
                    chunks@,
                    chunks_fit,
                    transition,
                    *met,
                ) {
                    Err(refusal) => result matches Err(error) && error == refusal,
                    Ok(fresh) => result matches Ok(append) && is_append(
                        append,
                        fresh,
                        events@,
                        chunks@,
                        transition,
                        *met,
                    ),
                },
            },
        },
{
    match validated {
        Ok(()) => {},
        Err(error) => {
            return Err(error);
        },
    }
    match load(row, access, StoreOperation::AppendJobEvents) {
        Ok(lease) => execute_held(&lease, access, accepted_at, events, chunks, chunks_fit, transition, met),
        Err(error) => Err(error),
    }
}

/// The position through which a log is durable, for the holder of a lease that was loaded.
pub fn prepare_held(lease: &LeaseRow, access: &LeaseAccess, accepted_at: i64, durable_through: i64) -> (result: Result<
    u64,
    StoreError,
>)
    ensures
        result == (match currency(*lease, *access, accepted_at) {
            Err(error) => Err::<u64, StoreError>(error),
            Ok(()) => if durable_through >= 0 {
                Ok(durable_through as u64)
            } else {
                Err(StoreError::Unavailable)
            },
        }),
{
    match require_current(lease, access, accepted_at) {
        Ok(()) => durable_position(durable_through),
        Err(error) => Err(error),
    }
}

/// The position through which a log is durable: the caller has to hold the lease.
pub fn prepare(row: Option<LeaseRow>, access: &LeaseAccess, accepted_at: i64, durable_through: i64) -> (result: Result<
    u64,
    StoreError,
>)
    ensures
        result == (match loaded(row, *access, StoreOperation::PrepareJobEventAppend, sha256_of(access.fence@)) {
            Err(error) => Err::<u64, StoreError>(error),
            Ok(lease) => match currency(lease, *access, accepted_at) {
                Err(error) => Err(error),
                Ok(()) => if durable_through >= 0 {
                    Ok(durable_through as u64)
                } else {
                    Err(StoreError::Unavailable)
                },
            },
        }),
{
    match load(row, access, StoreOperation::PrepareJobEventAppend) {
        Ok(lease) => prepare_held(&lease, access, accepted_at, durable_through),
        Err(error) => Err(error),
    }
}

/// The idempotency key of a batch: its lease and the positions it spans.
pub fn batch_key(lease_id: u128, events: &Vec<JobEvent>) -> (key: String)
    requires
        events@.len() > 0,
    ensures
        key@ == hyphenated(lease_id) + ":"@ + decimal_text(events@[0].sequence as nat) + "-"@ + decimal_text(
            events@.last().sequence as nat,
        ),
{
    let mut key: String = identity_text(lease_id);
    key.append(":");
    let first = decimal(events[0].sequence);
    key.append(first.as_str());
    key.append("-");
    let last = decimal(events[events.len() - 1].sequence);
    key.append(last.as_str());
    key
}

/// What the audit trail and the outbox are told of an append.
pub fn facts(
    agent_id: u128,
    lease_id: u128,
    job_id: u128,
    batch_size: usize,
    plan: &AppendPlan,
) -> (facts: MutationFacts)
    ensures
        facts.actor_kind@ == "agent"@,
        facts.actor_identity matches Some(actor) && actor@ == hyphenated(agent_id),
        facts.target_identity@ == hyphenated(job_id),
        facts.safe_metadata@ == seq![
            (Member { name: "acknowledged_through", value: FactValue::Number(plan.acknowledged_through) }),
            (Member { name: "batch_size", value: FactValue::Number(batch_size as u64) }),
            (Member { name: "inserted", value: FactValue::Number(plan.inserted as u64) }),
            (Member { name: "lease_id", value: FactValue::Identity(lease_id) }),
        ],
        facts.outbox_payload@ == seq![
            (Member { name: "acknowledged_through", value: FactValue::Number(plan.acknowledged_through) }),
            (Member { name: "job_id", value: FactValue::Identity(job_id) }),
            (Member { name: "lease_id", value: FactValue::Identity(lease_id) }),
            (Member { name: "schema_version", value: FactValue::Number(1) }),
        ],
{
    MutationFacts {
        actor_kind: "agent",
        actor_identity: Some(identity_text(agent_id)),
        target_identity: identity_text(job_id),
        safe_metadata: vec![
            Member { name: "acknowledged_through", value: FactValue::Number(plan.acknowledged_through) },
            Member { name: "batch_size", value: FactValue::Number(batch_size as u64) },
            Member { name: "inserted", value: FactValue::Number(plan.inserted as u64) },
            Member { name: "lease_id", value: FactValue::Identity(lease_id) },
        ],
        outbox_payload: vec![
            Member { name: "acknowledged_through", value: FactValue::Number(plan.acknowledged_through) },
            Member { name: "job_id", value: FactValue::Identity(job_id) },
            Member { name: "lease_id", value: FactValue::Identity(lease_id) },
            Member { name: "schema_version", value: FactValue::Number(1) },
        ],
    }
}

/// The digest on record for a position is that of the row for it: there is one exactly where a row has the position,
/// and where no two rows share a position it is that row's.
pub proof fn digests_are_those_of_the_rows(rows: Seq<EventDigestRow>, sequence: i64)
    ensures
        digests_by_sequence(rows).contains_key(sequence) <==> exists|i: int|
            0 <= i < rows.len() && (#[trigger] rows[i]).sequence == sequence,
        (forall|i: int, j: int|
            0 <= i < j < rows.len() ==> (#[trigger] rows[i]).sequence != (#[trigger] rows[j]).sequence) ==> forall|i: int|
            0 <= i < rows.len() && (#[trigger] rows[i]).sequence == sequence ==> digests_by_sequence(rows)[sequence]
                == rows[i].event_digest@,
    decreases rows.len(),
{
    if rows.len() > 0 {
        let before = rows.drop_last();
        digests_are_those_of_the_rows(before, sequence);
        assert(rows.last() == rows[rows.len() - 1]);
        assert(forall|i: int| 0 <= i < before.len() ==> before[i] == rows[i]);
        if digests_by_sequence(before).contains_key(sequence) {
            let i = choose|i: int| 0 <= i < before.len() && (#[trigger] before[i]).sequence == sequence;
            assert(rows[i].sequence == sequence);
        }
        if forall|i: int, j: int|
            0 <= i < j < rows.len() ==> (#[trigger] rows[i]).sequence != (#[trigger] rows[j]).sequence {
            assert forall|i: int| 0 <= i < rows.len() && (#[trigger] rows[i]).sequence == sequence implies
                digests_by_sequence(rows)[sequence] == rows[i].event_digest@ by {
                if i < before.len() {
                    assert(before[i].sequence == sequence);
                    assert(rows[i].sequence != rows[rows.len() - 1].sequence);
                }
            }
        }
    }
}

/// A batch of consecutive events that goes on where the log ends, or overlaps it with the very events that are
/// durable, is accepted: as many events are new as lie behind the end of the log.
pub proof fn consecutive_batches_are_accepted(
    events: Seq<JobEvent>,
    first: u64,
    job_id: u128,
    durable_through: u64,
    digests: Map<i64, Seq<u8>>,
)
    requires
        forall|i: int| 0 <= i < events.len() ==> (#[trigger] events[i]).sequence == first + i,
        first <= durable_through + 1,
        first + events.len() <= i64::MAX,
        forall|i: int|
            0 <= i < events.len() && (#[trigger] events[i]).sequence <= durable_through ==> digests.contains_key(
                events[i].sequence as i64,
            ) && digests[events[i].sequence as i64] == events[i].digest@,
    ensures
        scanned(events, job_id, durable_through, digests) == Ok::<nat, StoreError>(
            if first + events.len() > durable_through + 1 {
                (first + events.len() - durable_through - 1) as nat
            } else {
                0
            },
        ),
    decreases events.len(),
{
    if events.len() > 0 {
        let before = events.drop_last();
        assert(forall|i: int| 0 <= i < before.len() ==> before[i] == events[i]);
        consecutive_batches_are_accepted(before, first, job_id, durable_through, digests);
        assert(events.last() == events[events.len() - 1]);
    }
}

/// What is durable is never replaced: an accepted batch holds at each position of the log the event that is durable
/// there, and one with another event there is a conflict.
pub proof fn durable_events_are_not_replaced(
    events: Seq<JobEvent>,
    job_id: u128,
    durable_through: u64,
    digests: Map<i64, Seq<u8>>,
    at: int,
)
    requires
        0 <= at < events.len(),
        events[at].sequence <= durable_through,
    ensures
        scanned(events, job_id, durable_through, digests) is Ok ==> digests.contains_key(events[at].sequence as i64)
            && digests[events[at].sequence as i64] == events[at].digest@,
        scanned(events.take(at), job_id, durable_through, digests) is Ok && !(digests.contains_key(
            events[at].sequence as i64,
        ) && digests[events[at].sequence as i64] == events[at].digest@) ==> scanned(
            events.take(at + 1),
            job_id,
            durable_through,
            digests,
        ) == Err::<nat, StoreError>(StoreError::Conflict { entity: EntityKind::Job }),
    decreases events.len(),
{
    assert(events.take(at + 1).drop_last() =~= events.take(at));
    assert(events.take(at + 1).last() == events[at]);
    let before = events.drop_last();
    if at < before.len() {
        assert(before[at] == events[at]);
        durable_events_are_not_replaced(before, job_id, durable_through, digests, at);
    }
}

/// Events are appended exactly under a lease that is held, where the batch is accepted and its chunks go with it.
/// New events start the job, so its state has to admit that; repeated ones do not. What is acknowledged is the log
/// with the new events.
pub proof fn events_are_appended_under_a_held_lease(
    lease: LeaseRow,
    access: LeaseAccess,
    accepted_at: i64,
    events: Seq<JobEvent>,
    chunks: Seq<LogChunk>,
    chunks_fit: Result<(), StoreError>,
    transition: Result<JobState, StoreError>,
    met: AppendSurroundings,
)
    requires
        lease.job_id != 0,
        events.len() > 0 && events[0].sequence <= i64::MAX,
        met.durable_through >= 0,
        exists|state: JobState| met.job_state@ == #[trigger] job_state_text(state),
    ensures
        append_verdict(lease, access, accepted_at, events, chunks, chunks_fit, transition, met) is Ok <==> {
            let accepted = scanned(
                events,
                lease.job_id,
                met.durable_through as u64,
                digests_by_sequence(met.durable_digests@),
            );
            &&& !lease.expired && accepted_at < lease.expires_at_millis
            &&& lease.state@ == "active"@ || lease.state@ == "cancellation_requested"@ || lease.state@
                == "drain_requested"@
            &&& accepted is Ok
            &&& chunks_fit is Ok
            &&& accepted->Ok_0 > 0 ==> transition is Ok
            &&& chunks_refusal(chunks, met.committed_through as int) is None
        },
        append_verdict(lease, access, accepted_at, events, chunks, chunks_fit, transition, met) matches Ok(fresh)
            ==> scanned(
            events,
            lease.job_id,
            met.durable_through as u64,
            digests_by_sequence(met.durable_digests@),
        ) == Ok::<nat, StoreError>(fresh),
        lease.expired || lease.state@ == "expired"@ || accepted_at >= lease.expires_at_millis ==> append_verdict(
            lease,
            access,
            accepted_at,
            events,
            chunks,
            chunks_fit,
            transition,
            met,
        ) == Err::<nat, StoreError>(StoreError::Expired { lease: access.lease_id }),
{
    current_states_are_not_expired();
}

/// What an append writes: the new events, which continue the log one by one, the start of the job where they are
/// new and it was not started, and the chunks. The agent learns that the log is durable through the new events.
pub proof fn appends_continue_the_log(
    append: JobEventAppend,
    fresh: nat,
    events: Seq<JobEvent>,
    chunks: Seq<LogChunk>,
    transition: Result<JobState, StoreError>,
    met: AppendSurroundings,
)
    requires
        is_append(append, fresh, events, chunks, transition, met),
    ensures
        append.plan.acknowledged_through == met.durable_through + fresh,
        append.plan.inserted == fresh && append.plan.new_events@.len() == fresh,
        forall|k: int|
            0 <= k < fresh ==> events[#[trigger] append.plan.new_events@[k] as int].sequence == met.durable_through + 1
                + k,
        append.started is Some <==> fresh > 0 && met.job_state@ != job_state_text(transition->Ok_0),
        append.started matches Some(text) ==> text@ == job_state_text(transition->Ok_0),
        append.chunks@.len() == chunks.len(),
{
}

/// Chunks are indexed one behind the other, right behind what the project has committed, each with the positions
/// and the length it came with. They are refused only where a number does not fit.
pub proof fn chunks_are_indexed_in_turn(writes: Seq<ChunkWrite>, chunks: Seq<LogChunk>, committed_through: i64, at: int)
    requires
        0 <= at < chunks.len(),
    ensures
        are_chunk_writes(writes, chunks, committed_through as int) && committed_through + 1 + at <= i64::MAX
            && chunks[at].first_sequence <= i64::MAX && chunks[at].last_sequence <= i64::MAX && chunks[at].byte_length
            <= i64::MAX ==> writes[at].position == committed_through + 1 + at && writes[at].first_sequence
            == chunks[at].first_sequence && writes[at].last_sequence == chunks[at].last_sequence
            && writes[at].byte_length == chunks[at].byte_length,
        chunks_refusal(chunks, committed_through as int) is None ==> committed_through + 1 + at <= i64::MAX
            && chunks[at].first_sequence <= i64::MAX && chunks[at].last_sequence <= i64::MAX && chunks[at].byte_length
            <= i64::MAX,
        (forall|i: int|
            0 <= i < chunks.len() ==> (#[trigger] chunks[i]).first_sequence <= i64::MAX && chunks[i].last_sequence
                <= i64::MAX && chunks[i].byte_length <= i64::MAX) && committed_through + chunks.len() <= i64::MAX
            ==> chunks_refusal(chunks, committed_through as int) is None,
{
    let refusals = chunk_refusals(chunks, committed_through as int);
    assert(refusals[at] == chunk_refusal(chunks[at], committed_through as int, at));
    if refusals[at] is Some {
        a_refusal_is_found(refusals, at);
    }
    if (forall|i: int|
        0 <= i < chunks.len() ==> (#[trigger] chunks[i]).first_sequence <= i64::MAX && chunks[i].last_sequence
            <= i64::MAX && chunks[i].byte_length <= i64::MAX) && committed_through + chunks.len() <= i64::MAX {
        assert forall|i: int| 0 <= i < refusals.len() implies (#[trigger] refusals[i]) is None by {
            assert(chunks[i].first_sequence <= i64::MAX);
        }
        no_refusal_remains(refusals);
    }
}

/// An event behind the log is accepted exactly where it is the next one; any other leaves a gap or comes again, and is
/// told which one is expected.
pub proof fn only_the_next_event_is_new(
    event: JobEvent,
    job_id: u128,
    durable_through: u64,
    digests: Map<i64, Seq<u8>>,
    fresh: nat,
)
    requires
        job_id != 0,
        event.sequence > durable_through,
        durable_through + 1 + fresh <= u64::MAX,
    ensures
        judged(event, job_id, durable_through, digests, fresh) == (if event.sequence != durable_through + 1 + fresh {
            Err::<nat, StoreError>(
                StoreError::EventGap {
                    job: job_id,
                    expected: (durable_through + 1 + fresh) as u64,
                    actual: event.sequence,
                },
            )
        } else if event.sequence <= i64::MAX {
            Ok(fresh + 1)
        } else {
            Err(
                StoreError::InvalidInput {
                    operation: StoreOperation::AppendJobEvents,
                    source: StoreInputError::NumericOutOfRange,
                },
            )
        }),
{
}

/// A batch is looked at only where the log's end can be read and its first position can be stored; it is then scanned
/// as a whole.
pub proof fn batches_are_scanned_as_a_whole(
    events: Seq<JobEvent>,
    job_id: u128,
    durable_through: i64,
    digests: Map<i64, Seq<u8>>,
)
    requires
        events.len() > 0,
    ensures
        durable_through < 0 ==> appended(events, job_id, durable_through, digests) == Err::<nat, StoreError>(
            StoreError::Unavailable,
        ),
        durable_through >= 0 && events[0].sequence <= i64::MAX ==> appended(events, job_id, durable_through, digests)
            == scanned(events, job_id, durable_through as u64, digests),
{
}

/// New events are numbered on from the last durable one, without a gap.
pub proof fn new_events_are_numbered_on(new_events: Seq<usize>, events: Seq<JobEvent>, durable_through: int)
    ensures
        continues(new_events, events, durable_through) <==> forall|k: int|
            0 <= k < new_events.len() ==> #[trigger] new_events[k] < events.len() && events[new_events[k] as int].sequence
                == durable_through + 1 + k,
{
}

/// A job in a state that is not known does not start: it is reported as unavailable.
pub proof fn jobs_in_unknown_states_do_not_start(current: Seq<char>, transition: Result<JobState, StoreError>)
    ensures
        (forall|state: JobState| current != #[trigger] job_state_text(state)) ==> start_refusal(current, transition)
            == Some(StoreError::Unavailable),
        (exists|state: JobState| current == #[trigger] job_state_text(state)) && transition is Err ==> start_refusal(
            current,
            transition,
        ) == Some(transition->Err_0),
        (exists|state: JobState| current == #[trigger] job_state_text(state)) && transition is Ok ==> start_refusal(
            current,
            transition,
        ) is None,
{
}

/// A chunk of a log is stored exactly where its place in the index can be counted and its numbers fit their columns.
pub proof fn chunks_are_stored_where_they_fit(chunk: LogChunk, committed_through: int, index: int)
    ensures
        chunk_refusal(chunk, committed_through, index) is None <==> committed_through + index < i64::MAX
            && chunk.first_sequence <= i64::MAX && chunk.last_sequence <= i64::MAX && chunk.byte_length <= i64::MAX,
        committed_through + index >= i64::MAX ==> chunk_refusal(chunk, committed_through, index) == Some(
            StoreError::Unavailable,
        ),
        chunk_refusal(chunk, committed_through, index) is Some && committed_through + index < i64::MAX ==> chunk_refusal(
            chunk,
            committed_through,
            index,
        ) == Some(
            StoreError::InvalidInput {
                operation: StoreOperation::AppendJobEvents,
                source: StoreInputError::NumericOutOfRange,
            },
        ),
{
}

/// Chunks are stored as a whole or not at all, at consecutive places of the index.
pub proof fn chunks_are_stored_as_a_whole(chunks: Seq<LogChunk>, committed_through: int)
    ensures
        chunks_refusal(chunks, committed_through) is None <==> forall|i: int|
            0 <= i < chunks.len() ==> chunk_refusal(#[trigger] chunks[i], committed_through, i) is None,
{
    let refusals = chunk_refusals(chunks, committed_through);
    if forall|i: int| 0 <= i < chunks.len() ==> chunk_refusal(#[trigger] chunks[i], committed_through, i) is None {
        assert forall|i: int| 0 <= i < refusals.len() implies (#[trigger] refusals[i]) is None by {
            assert(refusals[i] == chunk_refusal(chunks[i], committed_through, i));
        }
        no_refusal_remains(refusals);
    } else {
        let at = choose|i: int| 0 <= i < chunks.len() && chunk_refusal(#[trigger] chunks[i], committed_through, i) is Some;
        assert(refusals[at] == chunk_refusal(chunks[at], committed_through, at));
        a_refusal_is_found(refusals, at);
    }
}

/// An event that leaves a gap is told which one was expected; where the job has no identity that is reported as
/// unavailable.
pub proof fn gaps_are_told(
    event: JobEvent,
    job_id: u128,
    durable_through: u64,
    digests: Map<i64, Seq<u8>>,
    fresh: nat,
)
    requires
        event.sequence > durable_through,
        event.sequence != durable_through + 1 + fresh,
    ensures
        judged(event, job_id, durable_through, digests, fresh) == Err::<nat, StoreError>(
            if job_id == 0 {
                StoreError::Unavailable
            } else {
                StoreError::EventGap {
                    job: job_id,
                    expected: (durable_through + 1 + fresh) as u64,
                    actual: event.sequence,
                }
            },
        ),
{
}

/// Chunks are written one by one, at consecutive places of the index, with their own numbers.
pub proof fn fitting_chunks_are_written_in_order(
    writes: Seq<ChunkWrite>,
    chunks: Seq<LogChunk>,
    committed_through: int,
)
    requires
        writes.len() == chunks.len(),
        forall|i: int|
            0 <= i < chunks.len() ==> (#[trigger] writes[i]).position == (committed_through + 1 + i) as i64
                && writes[i].first_sequence == chunks[i].first_sequence as i64 && writes[i].last_sequence
                == chunks[i].last_sequence as i64 && writes[i].byte_length == chunks[i].byte_length as i64,
    ensures
        are_chunk_writes(writes, chunks, committed_through),
{
}

} // verus!
