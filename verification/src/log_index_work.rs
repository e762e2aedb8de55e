//! Work of the log index: claiming it, completing it, and recording that it failed.

use vstd::prelude::*;

use crate::domain::{
    identity, is_identity, is_timestamp, is_version, timestamp, version, EntityKind, MutationDisposition, StoreError,
};
use crate::log_chunk::{parse_stream_name, stream_name_text, BuildLogStream};
use crate::refusal::{a_refusal_is_found, first_refusal, first_refusal_decides, no_refusal_remains};
use crate::text::{column_holds, holds, same_text};

verus! {

/// The position through which a project's log work is committed, where it has any.
pub fn committed_log_index_position(position: Option<i64>) -> (result: Result<Option<u64>, StoreError>)
    ensures
        result == (match position {
            None => Ok::<Option<u64>, StoreError>(None),
            Some(position) => if is_version(position) {
                Ok(Some(position as u64))
            } else {
                Err(StoreError::Unavailable)
            },
        }),
{
    match position {
        None => Ok(None),
        Some(position) => Ok(Some(version(position)?)),
    }
}

/// How a piece of work was left.
pub struct CompletionReplay {
    /// Its state.
    pub state: String,
    /// Who worked on it last.
    pub last_claim_owner: Option<String>,
    /// When it was completed.
    pub completed_at_millis: Option<i64>,
}

/// What completing comes to: `updated_rows` is what the completing update wrote, and `left` how the work
/// was found where that wrote nothing.
pub open spec fn completion(
    updated_rows: u64,
    left: Option<CompletionReplay>,
    owner: Seq<char>,
    completed_at: i64,
) -> Result<MutationDisposition, StoreError> {
    if updated_rows == 1 {
        Ok(MutationDisposition::Applied)
    } else {
        match left {
            None => Err(StoreError::NotFound { entity: EntityKind::LogIndexingWork }),
            Some(left) => if left.state@ == "completed"@ && holds(left.last_claim_owner, owner)
                && left.completed_at_millis == Some(completed_at) {
                Ok(MutationDisposition::Replayed)
            } else {
                Err(StoreError::Conflict { entity: EntityKind::LogIndexingWork })
            },
        }
    }
}

/// Decides a completion: work that the same worker completed at the same time is a repetition.
pub fn complete(updated_rows: u64, left: &Option<CompletionReplay>, owner: &str, completed_at: i64) -> (result: Result<
    MutationDisposition,
    StoreError,
>)
    ensures
        result == completion(updated_rows, *left, owner@, completed_at),
{
    if updated_rows == 1 {
        return Ok(MutationDisposition::Applied);
    }
    match left {
        None => Err(StoreError::NotFound { entity: EntityKind::LogIndexingWork }),
        Some(left) => if same_text(left.state.as_str(), "completed") && column_holds(&left.last_claim_owner, owner)
            && left.completed_at_millis == Some(completed_at) {
            Ok(MutationDisposition::Replayed)
        } else {
            Err(StoreError::Conflict { entity: EntityKind::LogIndexingWork })
        },
    }
}

/// The state a failure leaves work in: scheduled again where there is a time for it, and given up
/// otherwise.
pub open spec fn failed_state(retry_at: Option<i64>) -> &'static str {
    if retry_at is Some {
        "retry_scheduled"
    } else {
        "dead_letter"
    }
}

/// Names the state a failure leaves work in.
pub fn failure_state(retry_at: Option<i64>) -> (state: &'static str)
    ensures
        state == failed_state(retry_at),
{
    if retry_at.is_some() {
        "retry_scheduled"
    } else {
        "dead_letter"
    }
}

/// How a failed piece of work was left.
pub struct FailureReplay {
    /// Its state.
    pub state: String,
    /// Who worked on it last.
    pub last_claim_owner: Option<String>,
    /// Why it failed last.
    pub last_error_code: Option<String>,
    /// When it failed last.
    pub failed_at_millis: Option<i64>,
    /// When it is tried again.
    pub retry_at_millis: Option<i64>,
}

/// Whether a failure on record is the one that is reported.
pub open spec fn is_same_failure(
    left: FailureReplay,
    owner: Seq<char>,
    error_code: Seq<char>,
    failed_at: i64,
    retry_at: Option<i64>,
) -> bool {
    &&& left.state@ == failed_state(retry_at)@
    &&& holds(left.last_claim_owner, owner)
    &&& holds(left.last_error_code, error_code)
    &&& left.failed_at_millis == Some(failed_at)
    &&& left.retry_at_millis == retry_at
}

/// What recording a failure comes to.
pub open spec fn failure(
    updated_rows: u64,
    left: Option<FailureReplay>,
    owner: Seq<char>,
    error_code: Seq<char>,
    failed_at: i64,
    retry_at: Option<i64>,
) -> Result<MutationDisposition, StoreError> {
    if updated_rows == 1 {
        Ok(MutationDisposition::Applied)
    } else {
        match left {
            None => Err(StoreError::NotFound { entity: EntityKind::LogIndexingWork }),
            Some(left) => if is_same_failure(left, owner, error_code, failed_at, retry_at) {
                Ok(MutationDisposition::Replayed)
            } else {
                Err(StoreError::Conflict { entity: EntityKind::LogIndexingWork })
            },
        }
    }
}

/// Decides the record of a failure: the same failure reported again is a repetition.
/// `validated` is the verdict on the report by itself.
pub fn fail(
    validated: Result<(), StoreError>,
    updated_rows: u64,
    left: &Option<FailureReplay>,
    owner: &str,
    error_code: &str,
    failed_at: i64,
    retry_at: Option<i64>,
) -> (result: Result<MutationDisposition, StoreError>)
    ensures
        result == (match validated {
            Err(error) => Err::<MutationDisposition, StoreError>(error),
            Ok(()) => failure(updated_rows, *left, owner@, error_code@, failed_at, retry_at),
        }),
{
    match validated {
        Ok(()) => {},
        Err(error) => {
            return Err(error);
        },
    }
    if updated_rows == 1 {
        return Ok(MutationDisposition::Applied);
    }
    match left {
        None => Err(StoreError::NotFound { entity: EntityKind::LogIndexingWork }),
        Some(left) => if same_text(left.state.as_str(), failure_state(retry_at)) && column_holds(
            &left.last_claim_owner,
            owner,
        ) && column_holds(&left.last_error_code, error_code) && left.failed_at_millis == Some(failed_at)
            && left.retry_at_millis == retry_at {
            Ok(MutationDisposition::Replayed)
        } else {
            Err(StoreError::Conflict { entity: EntityKind::LogIndexingWork })
        },
    }
}

/// A piece of work as it was claimed, with the log chunk it is about.
pub struct WorkRow {
    /// The work.
    pub id: u128,
    /// Its project.
    pub project_id: u128,
    /// Its place in the project's order.
    pub position: i64,
    /// Its build.
    pub build_id: u128,
    /// What is to be done.
    pub operation: String,
    /// How often it was tried.
    pub attempt_count: i64,
    /// Who works on it.
    pub claim_owner: Option<String>,
    /// The verdict on whether that names a worker.
    pub owner_verdict: Result<(), StoreError>,
    /// When the claim runs out.
    pub claim_expires_at_millis: Option<i64>,
    /// The chunk.
    pub chunk_id: Option<u128>,
    /// Attempt of the chunk.
    pub attempt_id: Option<u128>,
    /// Job of the chunk.
    pub job_id: Option<u128>,
    /// Stream of the chunk.
    pub stream: Option<String>,
    /// First position of the job's log in the chunk.
    pub first_sequence: Option<i64>,
    /// Last position of the job's log in the chunk.
    pub last_sequence: Option<i64>,
    /// Where the chunk's content is.
    pub object_identity: Option<String>,
    /// Length of the chunk.
    pub byte_length: Option<i64>,
    /// Digest of the chunk.
    pub sha256: Option<Vec<u8>>,
    /// When the chunk was recorded.
    pub occurred_at_millis: Option<i64>,
    /// Whether these make up a valid chunk.
    pub manifest_is_valid: bool,
}

/// A log chunk to index.
pub struct LogIndexDocumentSource {
    /// The chunk.
    pub chunk_id: u128,
    /// Its job.
    pub job_id: u128,
    /// Its attempt.
    pub attempt_id: u128,
    /// Its stream.
    pub stream: BuildLogStream,
    /// First position of the job's log in it.
    pub first_sequence: u64,
    /// Last position of the job's log in it.
    pub last_sequence: u64,
    /// Its length.
    pub byte_length: u64,
    /// Its digest.
    pub digest: Vec<u8>,
    /// Where its content is.
    pub object_identity: String,
    /// When it was recorded.
    pub occurred_at: i64,
}

/// What is to be done.
pub enum LogIndexWorkKind {
    /// Index a chunk.
    Index(LogIndexDocumentSource),
    /// Index a chunk again.
    Rebuild(LogIndexDocumentSource),
    /// Forget a build.
    DeleteBuild,
}

/// A claimed piece of work.
pub struct LogIndexWorkClaim {
    /// The work.
    pub work_id: u128,
    /// Its place in the project's order.
    pub position: u64,
    /// Its project.
    pub project_id: u128,
    /// Its build.
    pub build_id: u128,
    /// What is to be done.
    pub kind: LogIndexWorkKind,
    /// How often it was tried.
    pub attempt: u16,
    /// Who works on it.
    pub owner: String,
    /// When the claim runs out.
    pub claim_expires_at: i64,
}

/// Whether an optional column holds an identity.
pub open spec fn holds_identity(column: Option<u128>) -> bool {
    column matches Some(raw) && is_identity(raw)
}

/// Whether an optional column holds a count.
pub open spec fn holds_count(column: Option<i64>) -> bool {
    column matches Some(raw) && raw >= 0
}

/// Whether an optional column holds a time.
pub open spec fn holds_time(column: Option<i64>) -> bool {
    column matches Some(raw) && is_timestamp(raw)
}

/// Whether the chunk of a row can be read.
pub open spec fn is_readable_source(row: WorkRow) -> bool {
    &&& holds_identity(row.chunk_id) && holds_identity(row.job_id) && holds_identity(row.attempt_id)
    &&& row.stream matches Some(text) && exists|stream: BuildLogStream| text@ == #[trigger] stream_name_text(stream)
    &&& row.sha256 matches Some(digest) && digest@.len() == 32
    &&& holds_count(row.first_sequence) && holds_count(row.last_sequence) && holds_count(row.byte_length)
    &&& row.object_identity is Some
    &&& holds_time(row.occurred_at_millis)
    &&& row.manifest_is_valid
}

/// Whether a chunk is the one of a row.
pub open spec fn is_source_of(source: LogIndexDocumentSource, row: WorkRow) -> bool {
    &&& row.chunk_id == Some(source.chunk_id)
    &&& row.job_id == Some(source.job_id)
    &&& row.attempt_id == Some(source.attempt_id)
    &&& row.stream is Some && row.stream->Some_0@ == stream_name_text(source.stream)
    &&& row.first_sequence is Some && source.first_sequence == row.first_sequence->Some_0
    &&& row.last_sequence is Some && source.last_sequence == row.last_sequence->Some_0
    &&& row.byte_length is Some && source.byte_length == row.byte_length->Some_0
    &&& row.sha256 is Some && source.digest@ == row.sha256->Some_0@
    &&& row.object_identity is Some && source.object_identity@ == row.object_identity->Some_0@
    &&& row.occurred_at_millis == Some(source.occurred_at)
}

fn required_identity(column: Option<u128>) -> (result: Result<u128, StoreError>)
    ensures
        match result {
            Ok(id) => holds_identity(column) && column == Some(id),
            Err(error) => error == StoreError::Unavailable && !holds_identity(column),
        },
{
    match column {
        Some(raw) => identity(raw),
        None => Err(StoreError::Unavailable),
    }
}

fn required_count(column: Option<i64>) -> (result: Result<u64, StoreError>)
    ensures
        match result {
            Ok(count) => holds_count(column) && count == column->Some_0,
            Err(error) => error == StoreError::Unavailable && !holds_count(column),
        },
{
    match column {
        Some(raw) => if raw >= 0 {
            Ok(raw as u64)
        } else {
            Err(StoreError::Unavailable)
        },
        None => Err(StoreError::Unavailable),
    }
}

fn required_time(column: Option<i64>) -> (result: Result<i64, StoreError>)
    ensures
        match result {
            Ok(time) => holds_time(column) && column == Some(time),
            Err(error) => error == StoreError::Unavailable && !holds_time(column),
        },
{
    match column {
        Some(raw) => timestamp(raw),
        None => Err(StoreError::Unavailable),
    }
}

impl WorkRow {
    /// Reads the chunk of a row.
    pub fn document_source(&self) -> (result: Result<LogIndexDocumentSource, StoreError>)
        ensures
            match result {
                Ok(source) => is_readable_source(*self) && is_source_of(source, *self),
                Err(error) => error == StoreError::Unavailable && !is_readable_source(*self),
            },
    {
        let chunk_id: u128 = required_identity(self.chunk_id)?;
        let job_id: u128 = required_identity(self.job_id)?;
        let stream = match &self.stream {
            None => {
                return Err(StoreError::Unavailable);
            },
            Some(text) => match parse_stream_name(text.as_str()) {
                Ok(stream) => {
                    assert(text@ == stream_name_text(stream));
                    stream
                },
                Err(_) => {
                    return Err(StoreError::Unavailable);
                },
            },
        };
        let digest: Vec<u8> = match &self.sha256 {
            None => {
                return Err(StoreError::Unavailable);
            },
            Some(bytes) => {
                if bytes.len() != 32 {
                    return Err(StoreError::Unavailable);
                }
                let mut digest: Vec<u8> = Vec::new();
                crate::text::append_bytes(&mut digest, bytes.as_slice());
                assert(digest@ =~= bytes@);
                digest
            },
        };
        let first_sequence: u64 = required_count(self.first_sequence)?;
        let last_sequence: u64 = required_count(self.last_sequence)?;
        let byte_length: u64 = required_count(self.byte_length)?;
        let object_identity: String = match &self.object_identity {
            None => {
                return Err(StoreError::Unavailable);
            },
            Some(text) => text.clone(),
        };
        if !self.manifest_is_valid {
            return Err(StoreError::Unavailable);
        }
        let attempt_id: u128 = required_identity(self.attempt_id)?;
        let occurred_at: i64 = required_time(self.occurred_at_millis)?;
        Ok(
            LogIndexDocumentSource {
                chunk_id,
                job_id,
                attempt_id,
                stream,
                first_sequence,
                last_sequence,
                byte_length,
                digest,
                object_identity,
                occurred_at,
            },
        )
    }
}

/// Whether the operation of a row can be read: indexing needs a chunk, and forgetting a build must not
/// name one.
pub open spec fn is_readable_operation(row: WorkRow) -> bool {
    ||| (row.operation@ == "index"@ || row.operation@ == "rebuild"@) && is_readable_source(row)
    ||| row.operation@ == "delete_build"@ && row.chunk_id is None
}

/// Whether a row can be read, up to its worker.
pub open spec fn is_readable(row: WorkRow) -> bool {
    &&& is_identity(row.id) && is_identity(row.project_id) && is_identity(row.build_id)
    &&& is_version(row.position)
    &&& 0 <= row.attempt_count <= u16::MAX
    &&& is_readable_operation(row)
    &&& row.claim_owner is Some
}

/// The reason for which a row cannot be read, where there is one.
pub open spec fn claim_refusal(row: WorkRow) -> Option<StoreError> {
    if !is_readable(row) {
        Some(StoreError::Unavailable)
    } else {
        match row.owner_verdict {
            Err(error) => Some(error),
            Ok(()) => if holds_time(row.claim_expires_at_millis) {
                None
            } else {
                Some(StoreError::Unavailable)
            },
        }
    }
}

/// Whether a claim is the one of a row.
pub open spec fn is_claim_of(claim: LogIndexWorkClaim, row: WorkRow) -> bool {
    &&& claim.work_id == row.id
    &&& claim.position == row.position
    &&& claim.project_id == row.project_id
    &&& claim.build_id == row.build_id
    &&& match claim.kind {
        LogIndexWorkKind::Index(source) => row.operation@ == "index"@ && is_source_of(source, row),
        LogIndexWorkKind::Rebuild(source) => row.operation@ == "rebuild"@ && is_source_of(source, row),
        LogIndexWorkKind::DeleteBuild => row.operation@ == "delete_build"@,
    }
    &&& claim.attempt == row.attempt_count
    &&& row.claim_owner == Some(claim.owner)
    &&& row.claim_expires_at_millis == Some(claim.claim_expires_at)
}

proof fn operations_are_distinct()
    ensures
        "index"@ != "rebuild"@,
        "index"@ != "delete_build"@,
        "rebuild"@ != "delete_build"@,
{
    reveal_strlit("index");
    reveal_strlit("rebuild");
    reveal_strlit("delete_build");
    assert("index"@.len() == 5);
    assert("rebuild"@.len() == 7);
    assert("delete_build"@.len() == 12);
}

impl WorkRow {
    /// Reads a claimed piece of work.
    pub fn into_claim(self) -> (result: Result<LogIndexWorkClaim, StoreError>)
        ensures
            match claim_refusal(self) {
                None => result matches Ok(claim) && is_claim_of(claim, self),
                Some(refusal) => result matches Err(error) && error == refusal,
            },
    {
        proof {
            operations_are_distinct();
        }
        let work_id: u128 = identity(self.id)?;
        let project_id: u128 = identity(self.project_id)?;
        let build_id: u128 = identity(self.build_id)?;
        let position: u64 = version(self.position)?;
        let attempt: u16 = match u16::try_from(self.attempt_count) {
            Ok(attempt) => attempt,
            Err(_) => {
                return Err(StoreError::Unavailable);
            },
        };
        let kind = if same_text(self.operation.as_str(), "index") {
            LogIndexWorkKind::Index(self.document_source()?)
        } else if same_text(self.operation.as_str(), "rebuild") {
            LogIndexWorkKind::Rebuild(self.document_source()?)
        } else if same_text(self.operation.as_str(), "delete_build") && self.chunk_id.is_none() {
            LogIndexWorkKind::DeleteBuild
        } else {
            return Err(StoreError::Unavailable);
        };
        let owner = match self.claim_owner {
            Some(owner) => owner,
            None => {
                return Err(StoreError::Unavailable);
            },
        };
        match self.owner_verdict {
            Ok(()) => {},
            Err(error) => {
                return Err(error);
            },
        }
        let claim_expires_at: i64 = required_time(self.claim_expires_at_millis)?;
        Ok(LogIndexWorkClaim { work_id, position, project_id, build_id, kind, attempt, owner, claim_expires_at })
    }
}

/// The reason for which claimed rows cannot be read, where there is one: that of the first row that has one.
pub open spec fn claims_refusal(rows: Seq<WorkRow>) -> Option<StoreError> {
    first_refusal(rows.map_values(|row: WorkRow| claim_refusal(row)))
}

/// Reads the work that was claimed: `validated` is the verdict on the request by itself.
pub fn claim(validated: Result<(), StoreError>, rows: Vec<WorkRow>) -> (result: Result<
    Vec<LogIndexWorkClaim>,
    StoreError,
>)
    ensures
        match validated {
            Err(refusal) => result matches Err(error) && error == refusal,
            Ok(()) => match claims_refusal(rows@) {
                None => result matches Ok(claims) && claims@.len() == rows@.len() && forall|i: int|
                    0 <= i < rows@.len() ==> is_claim_of(#[trigger] claims@[i], rows@[i]),
                Some(refusal) => result matches Err(error) && error == refusal,
            },
        },
{
    match validated {
        Ok(()) => {},
        Err(error) => {
            return Err(error);
        },
    }
    let ghost refusals = rows@.map_values(|row: WorkRow| claim_refusal(row));
    let ghost fetched = rows@;
    let mut remaining = rows;
    let mut claims: Vec<LogIndexWorkClaim> = Vec::new();
    while remaining.len() > 0
        invariant
            validated is Ok,
            fetched == rows@,
            refusals == fetched.map_values(|row: WorkRow| claim_refusal(row)),
            claims@.len() + remaining@.len() == fetched.len(),
            remaining@ == fetched.skip(claims@.len() as int),
            forall|i: int| 0 <= i < claims@.len() ==> (#[trigger] refusals[i]) is None,
            forall|i: int| 0 <= i < claims@.len() ==> is_claim_of(#[trigger] claims@[i], fetched[i]),
        decreases remaining@.len(),
    {
        let ghost at = claims@.len() as int;
        let row = remaining.remove(0);
        assert(row == fetched[at]);
        assert(refusals[at] == claim_refusal(row));
        proof {
            if refusals[at] is Some {
                first_refusal_decides(refusals, at);
            }
        }
        match row.into_claim() {
            Ok(claim) => {
                claims.push(claim);
            },
            Err(error) => {
                return Err(error);
            },
        }
        assert(remaining@ =~= fetched.skip(claims@.len() as int));
    }
    proof {
        no_refusal_remains(refusals);
    }
    Ok(claims)
}

/// Work of the index is completed exactly where that was recorded now, or where the same worker recorded it at the
/// same time before; another end contradicts what is on record.
pub proof fn work_is_completed_once(updated_rows: u64, left: Option<CompletionReplay>, owner: Seq<char>, completed_at: i64)
    ensures
        completion(updated_rows, left, owner, completed_at) == Ok::<MutationDisposition, StoreError>(
            MutationDisposition::Applied,
        ) <==> updated_rows == 1,
        completion(updated_rows, left, owner, completed_at) == Ok::<MutationDisposition, StoreError>(
            MutationDisposition::Replayed,
        ) <==> updated_rows != 1 && left is Some && left->Some_0.state@ == "completed"@ && left->Some_0.last_claim_owner
            is Some && left->Some_0.last_claim_owner->Some_0@ == owner && left->Some_0.completed_at_millis == Some(
            completed_at,
        ),
        updated_rows != 1 && left is None ==> completion(updated_rows, left, owner, completed_at) == Err::<
            MutationDisposition,
            StoreError,
        >(StoreError::NotFound { entity: EntityKind::LogIndexingWork }),
        left is Some && completion(updated_rows, left, owner, completed_at) is Err ==> completion(
            updated_rows,
            left,
            owner,
            completed_at,
        ) == Err::<MutationDisposition, StoreError>(StoreError::Conflict { entity: EntityKind::LogIndexingWork }),
{
}

/// A failure of work is recorded once: now, or by the same worker for the same reason at the same time before, with
/// the same next try. Work without a next try is given up.
pub proof fn failures_are_recorded_once(
    updated_rows: u64,
    left: Option<FailureReplay>,
    owner: Seq<char>,
    error_code: Seq<char>,
    failed_at: i64,
    retry_at: Option<i64>,
)
    ensures
        failure(updated_rows, left, owner, error_code, failed_at, retry_at) == Ok::<MutationDisposition, StoreError>(
            MutationDisposition::Applied,
        ) <==> updated_rows == 1,
        failure(updated_rows, left, owner, error_code, failed_at, retry_at) == Ok::<MutationDisposition, StoreError>(
            MutationDisposition::Replayed,
        ) <==> updated_rows != 1 && left is Some && (if retry_at is Some {
            left->Some_0.state@ == "retry_scheduled"@
        } else {
            left->Some_0.state@ == "dead_letter"@
        }) && left->Some_0.last_claim_owner is Some && left->Some_0.last_claim_owner->Some_0@ == owner
            && left->Some_0.last_error_code is Some && left->Some_0.last_error_code->Some_0@ == error_code
            && left->Some_0.failed_at_millis == Some(failed_at) && left->Some_0.retry_at_millis == retry_at,
        updated_rows != 1 && left is None ==> failure(updated_rows, left, owner, error_code, failed_at, retry_at)
            == Err::<MutationDisposition, StoreError>(StoreError::NotFound { entity: EntityKind::LogIndexingWork }),
        left is Some && failure(updated_rows, left, owner, error_code, failed_at, retry_at) is Err ==> failure(
            updated_rows,
            left,
            owner,
            error_code,
            failed_at,
            retry_at,
        ) == Err::<MutationDisposition, StoreError>(StoreError::Conflict { entity: EntityKind::LogIndexingWork }),
{
}

/// Claimed work is the work of its row: an index entry is made for a chunk of a job, made again, or the build is
/// forgotten, in the place of the project's order that was allotted.
pub proof fn claimed_work_is_that_of_its_row(claim: LogIndexWorkClaim, row: WorkRow)
    requires
        is_claim_of(claim, row),
    ensures
        claim.work_id == row.id && claim.position == row.position,
        claim.project_id == row.project_id && claim.build_id == row.build_id,
        claim.kind is Index <==> row.operation@ == "index"@,
        claim.kind is Rebuild <==> row.operation@ == "rebuild"@,
        claim.kind is DeleteBuild <==> row.operation@ == "delete_build"@,
        claim.attempt == row.attempt_count && row.claim_owner == Some(claim.owner) && row.claim_expires_at_millis
            == Some(claim.claim_expires_at),
        (claim.kind matches LogIndexWorkKind::Index(source) ==> row.chunk_id == Some(source.chunk_id) && row.job_id
            == Some(source.job_id) && row.attempt_id == Some(source.attempt_id) && source.first_sequence
            == row.first_sequence->Some_0 && source.last_sequence == row.last_sequence->Some_0 && source.byte_length
            == row.byte_length->Some_0 && source.digest@ == row.sha256->Some_0@),
{
    operations_are_distinct();
}

/// Work is claimed exactly where its row can be read and its worker is one.
pub proof fn readable_work_is_claimed(row: WorkRow)
    ensures
        claim_refusal(row) is None <==> row.id != 0 && row.project_id != 0 && row.build_id != 0 && row.position > 0 && 0
            <= row.attempt_count <= 0xffff && ((row.operation@ == "index"@ || row.operation@ == "rebuild"@)
            && is_readable_source(row) || row.operation@ == "delete_build"@ && row.chunk_id is None) && row.claim_owner
            is Some && row.owner_verdict is Ok && row.claim_expires_at_millis is Some
            && row.claim_expires_at_millis->Some_0 >= 0,
{
}

/// Work on the index is read exactly from a row whose identities are set, whose position counts from one and which has
/// an owner; what is put into the index has a source that is complete and sound, and what is taken out has none.
pub proof fn sound_work_is_read(row: WorkRow)
    ensures
        is_readable_source(row) <==> row.chunk_id is Some && row.chunk_id->Some_0 != 0 && row.job_id is Some
            && row.job_id->Some_0 != 0 && row.attempt_id is Some && row.attempt_id->Some_0 != 0 && row.stream is Some && (
        row.stream->Some_0@ == "stdout"@ || row.stream->Some_0@ == "stderr"@) && row.sha256 is Some
            && row.sha256->Some_0@.len() == 32 && row.first_sequence is Some && row.first_sequence->Some_0 >= 0
            && row.last_sequence is Some && row.last_sequence->Some_0 >= 0 && row.byte_length is Some
            && row.byte_length->Some_0 >= 0 && row.object_identity is Some && row.occurred_at_millis is Some
            && row.occurred_at_millis->Some_0 >= 0 && row.manifest_is_valid,
        is_readable(row) <==> row.id != 0 && row.project_id != 0 && row.build_id != 0 && row.position > 0 && 0
            <= row.attempt_count <= 0xffff && row.claim_owner is Some && (((row.operation@ == "index"@ || row.operation@
            == "rebuild"@) && is_readable_source(row)) || (row.operation@ == "delete_build"@ && row.chunk_id is None)),
{
    assert(stream_name_text(BuildLogStream::Stdout) == "stdout"@);
    assert(stream_name_text(BuildLogStream::Stderr) == "stderr"@);
}

/// Work whose row or whose claim cannot be read is reported as unavailable.
pub proof fn damaged_work_is_unavailable(row: WorkRow)
    ensures
        !is_readable(row) ==> claim_refusal(row) == Some(StoreError::Unavailable),
        is_readable(row) && row.owner_verdict is Err ==> claim_refusal(row) == Some(row.owner_verdict->Err_0),
        is_readable(row) && row.owner_verdict is Ok ==> claim_refusal(row) == (if row.claim_expires_at_millis is Some
            && row.claim_expires_at_millis->Some_0 >= 0 {
            None
        } else {
            Some(StoreError::Unavailable)
        }),
{
}

/// A list of work is claimed exactly where each claim can be read.
pub proof fn work_is_claimed_as_a_whole(rows: Seq<WorkRow>)
    ensures
        claims_refusal(rows) is None <==> forall|i: int| 0 <= i < rows.len() ==> claim_refusal(#[trigger] rows[i]) is None,
{
    let refusals = rows.map_values(|row: WorkRow| claim_refusal(row));
    if forall|i: int| 0 <= i < rows.len() ==> claim_refusal(#[trigger] rows[i]) is None {
        no_refusal_remains(refusals);
    } else {
        let at = choose|i: int| 0 <= i < rows.len() && claim_refusal(#[trigger] rows[i]) is Some;
        assert(refusals[at] == claim_refusal(rows[at]));
        a_refusal_is_found(refusals, at);
    }
}

/// Work that failed is tried again where there is a time for it, and given up otherwise.
pub proof fn failed_work_is_tried_again_in_time(retry_at: Option<i64>)
    ensures
        failed_state(retry_at) == (match retry_at {
            Some(_) => "retry_scheduled",
            None => "dead_letter",
        }),
{
}

} // verus!
