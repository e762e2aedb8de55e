//! Log chunks that were stored for a job that never took them, and their deletion.

use vstd::prelude::*;

use crate::domain::{EntityKind, StoreError, StoreInputError, StoreOperation};
use crate::log_chunk::{
    is_manifest_of, is_readable, rows_hold_one_manifest, same_manifest, same_manifest_as, LogChunkManifest, LogObjectRow,
};
use crate::log_index_work::{failed_state, failure_state};
use crate::refusal::{a_refusal_is_found, first_refusal, first_refusal_decides, no_refusal_remains};
use crate::retention::{
    check_failure, conflict, failure, is_failure, record_failure, work_conflict, FailureReplayRow,
};
use crate::text::{column_holds, holds, same_text};

verus! {

/// The failure of a request to stage something that is no chunk of the job.
pub open spec fn not_a_chunk() -> StoreError {
    StoreError::InvalidInput {
        operation: StoreOperation::StageOrphanLogChunk,
        source: StoreInputError::InvalidLogChunkManifest,
    }
}

/// The columns of a manifest that hold numbers.
#[derive(Clone, Copy, Debug, PartialEq, Eq, Structural)]
pub struct ManifestNumbers {
    /// First position of the job's log in the chunk.
    pub first_sequence: i64,
    /// Last position of the job's log in the chunk.
    pub last_sequence: i64,
    /// Length of the chunk.
    pub byte_length: i64,
}

/// Whether a manifest is the one that its parts make up under the job it is staged for, where they make up
/// one.
pub open spec fn is_chunk_of_job(manifest: LogChunkManifest, restored: Option<LogChunkManifest>) -> bool {
    restored matches Some(restored) && same_manifest_as(restored, manifest)
}

/// Whether the numbers of a manifest can be stored.
pub open spec fn is_storable(manifest: LogChunkManifest) -> bool {
    manifest.first_sequence <= i64::MAX && manifest.last_sequence <= i64::MAX && manifest.byte_length <= i64::MAX
}

/// Checks a chunk that is to be staged for a job, and gives the numbers to store; `restored` is what its
/// parts make up under that job.
pub fn stage(manifest: &LogChunkManifest, restored: &Option<LogChunkManifest>) -> (result: Result<
    ManifestNumbers,
    StoreError,
>)
    ensures
        match result {
            Ok(numbers) => {
                &&& is_chunk_of_job(*manifest, *restored)
                &&& numbers.first_sequence == manifest.first_sequence
                &&& numbers.last_sequence == manifest.last_sequence
                &&& numbers.byte_length == manifest.byte_length
            },
            Err(error) => if !is_chunk_of_job(*manifest, *restored) {
                error == not_a_chunk()
            } else {
                error == StoreError::Unavailable && !is_storable(*manifest)
            },
        },
{
    let is_chunk = match restored {
        Some(restored) => same_manifest(restored, manifest),
        None => false,
    };
    if !is_chunk {
        return Err(
            StoreError::InvalidInput {
                operation: StoreOperation::StageOrphanLogChunk,
                source: StoreInputError::InvalidLogChunkManifest,
            },
        );
    }
    if manifest.first_sequence > i64::MAX as u64 || manifest.last_sequence > i64::MAX as u64 || manifest.byte_length
        > i64::MAX as u64 {
        return Err(StoreError::Unavailable);
    }
    Ok(
        ManifestNumbers {
            first_sequence: manifest.first_sequence as i64,
            last_sequence: manifest.last_sequence as i64,
            byte_length: manifest.byte_length as i64,
        },
    )
}

/// What staging comes to: `inserted_rows` is what the insertion wrote, and `existing` the chunk that was
/// staged before where that wrote nothing.
pub open spec fn staging(inserted_rows: u64, existing: Option<LogObjectRow>, manifest: LogChunkManifest) -> Result<
    (),
    StoreError,
> {
    if inserted_rows == 1 {
        Ok(())
    } else {
        match existing {
            None => Err(StoreError::Unavailable),
            Some(row) => if !is_readable(row) {
                Err(StoreError::Unavailable)
            } else if is_manifest_of(manifest, row) {
                Ok(())
            } else {
                Err(work_conflict())
            },
        }
    }
}

/// Decides whether a chunk is staged: the same one may have been staged before, another one under the same
/// identity may not.
pub fn staged(inserted_rows: u64, existing: &Option<LogObjectRow>, manifest: &LogChunkManifest) -> (result: Result<
    (),
    StoreError,
>)
    ensures
        result == staging(inserted_rows, *existing, *manifest),
{
    if inserted_rows == 1 {
        return Ok(());
    }
    match existing {
        None => Err(StoreError::Unavailable),
        Some(row) => {
            let found = row.manifest()?;
            proof {
                if is_manifest_of(*manifest, *row) {
                    rows_hold_one_manifest(*row, found, *manifest);
                }
            }
            if same_manifest(&found, manifest) {
                Ok(())
            } else {
                Err(conflict())
            }
        },
    }
}

/// A claimed chunk as the database holds it.
pub struct OrphanRow {
    /// The chunk.
    pub chunk: LogObjectRow,
    /// How often its deletion was tried.
    pub attempt_count: i64,
    /// Who works on it.
    pub claim_owner: Option<String>,
    /// The verdict on whether that names a worker.
    pub owner_verdict: Result<(), StoreError>,
}

/// A claimed chunk.
pub struct OrphanLogChunkClaim {
    /// The chunk.
    pub manifest: LogChunkManifest,
    /// How often its deletion was tried.
    pub attempt: u16,
    /// Who works on it.
    pub owner: String,
}

/// The reason for which a claimed row cannot be read, where there is one.
pub open spec fn claim_refusal(row: OrphanRow) -> Option<StoreError> {
    if !is_readable(row.chunk) || !(0 <= row.attempt_count <= u16::MAX) || row.claim_owner is None {
        Some(StoreError::Unavailable)
    } else {
        match row.owner_verdict {
            Err(error) => Some(error),
            Ok(()) => None,
        }
    }
}

/// Whether a claim is the one of a row.
pub open spec fn is_claim_of(claim: OrphanLogChunkClaim, row: OrphanRow) -> bool {
    &&& is_manifest_of(claim.manifest, row.chunk)
    &&& claim.attempt == row.attempt_count
    &&& holds(row.claim_owner, claim.owner@)
}

fn claim_of(row: &OrphanRow) -> (result: Result<OrphanLogChunkClaim, StoreError>)
    ensures
        match claim_refusal(*row) {
            None => result matches Ok(claim) && is_claim_of(claim, *row),
            Some(refusal) => result matches Err(error) && error == refusal,
        },
{
    let manifest = row.chunk.manifest()?;
    let attempt: u16 = match u16::try_from(row.attempt_count) {
        Ok(attempt) => attempt,
        Err(_) => {
            return Err(StoreError::Unavailable);
        },
    };
    match &row.claim_owner {
        Some(owner) => match row.owner_verdict {
            Ok(()) => Ok(OrphanLogChunkClaim { manifest, attempt, owner: owner.clone() }),
            Err(error) => Err(error),
        },
        None => Err(StoreError::Unavailable),
    }
}

/// The reason for which claimed rows cannot be read, where there is one: that of the first row that has one.
pub open spec fn claims_refusal(rows: Seq<OrphanRow>) -> Option<StoreError> {
    first_refusal(rows.map_values(|row: OrphanRow| claim_refusal(row)))
}

/// Reads the chunks that were claimed: `validated` is the verdict on the request by itself.
pub fn claim(validated: Result<(), StoreError>, rows: &Vec<OrphanRow>) -> (result: Result<
    Vec<OrphanLogChunkClaim>,
    StoreError,
>)
    ensures
        match validated {
            Err(refusal) => result matches Err(error) && error == refusal,
            Ok(()) => match claims_refusal(rows@) {
                None => result matches Ok(claims) && claims@.len() == rows@.len() && forall|i: int|
                    0 <= i < rows@.len() ==> is_claim_of(#[trigger] claims@[i], rows@[i]),
                Some(refusal) => result matches Err(error) && error == refusal,
            },
        },
{
    match validated {
        Ok(()) => {},
        Err(error) => {
            return Err(error);
        },
    }
    let ghost refusals = rows@.map_values(|row: OrphanRow| claim_refusal(row));
    let mut claims: Vec<OrphanLogChunkClaim> = Vec::new();
    let mut i: usize = 0;
    while i < rows.len()
        invariant
            i <= rows.len(),
            claims@.len() == i,
            validated is Ok,
            refusals == rows@.map_values(|row: OrphanRow| claim_refusal(row)),
            forall|j: int| 0 <= j < i ==> (#[trigger] refusals[j]) is None,
            forall|j: int| 0 <= j < i ==> is_claim_of(#[trigger] claims@[j], rows@[j]),
        decreases rows.len() - i,
    {
        assert(refusals[i as int] == claim_refusal(rows@[i as int]));
        proof {
            if refusals[i as int] is Some {
                first_refusal_decides(refusals, i as int);
            }
        }
        let claim = claim_of(&rows[i])?;
        claims.push(claim);
        i += 1;
    }
    proof {
        no_refusal_remains(refusals);
    }
    Ok(claims)
}

/// How the deletion of a chunk was left.
pub struct CompletionReplay {
    /// Its state.
    pub state: String,
    /// Who worked on it last.
    pub last_claim_owner: Option<String>,
    /// When it was completed.
    pub completed_at_millis: Option<i64>,
}

/// What completing the deletion of a chunk comes to: `updated_rows` is what the record wrote, and `left` how
/// the deletion was found where that wrote nothing.
pub open spec fn completion(
    updated_rows: u64,
    left: Option<CompletionReplay>,
    owner: Seq<char>,
    completed_at: i64,
) -> Result<(), StoreError> {
    if updated_rows == 1 || (left matches Some(left) && left.state@ == "completed"@ && holds(left.last_claim_owner, owner)
        && left.completed_at_millis == Some(completed_at)) {
        Ok(())
    } else {
        Err(work_conflict())
    }
}

/// Decides the completion of the deletion of a chunk.
pub fn complete(updated_rows: u64, left: &Option<CompletionReplay>, owner: &str, completed_at: i64) -> (result: Result<
    (),
    StoreError,
>)
    ensures
        result == completion(updated_rows, *left, owner@, completed_at),
{
    if updated_rows == 1 {
        return Ok(());
    }
    match left {
        Some(left) => if same_text(left.state.as_str(), "completed") && column_holds(&left.last_claim_owner, owner)
            && left.completed_at_millis == Some(completed_at) {
            Ok(())
        } else {
            Err(conflict())
        },
        None => Err(conflict()),
    }
}

/// Decides the record of a failure of the deletion of a chunk.
/// The report has to make sense: `maximum_bytes` is how long its code may be.
pub fn fail(
    maximum_bytes: usize,
    updated_rows: u64,
    left: &Option<FailureReplayRow>,
    owner: &str,
    error_code: &str,
    failed_at: i64,
    retry_at: Option<i64>,
) -> (result: Result<(), StoreError>)
    ensures
        result == (if !is_failure(error_code@, maximum_bytes, failed_at, retry_at) {
            Err::<(), StoreError>(
                StoreError::InvalidInput {
                    operation: StoreOperation::FailOrphanLogChunk,
                    source: StoreInputError::InvalidWorkerClaim,
                },
            )
        } else {
            failure(
                updated_rows,
                *left,
                Some(failed_state(retry_at)),
                owner@,
                error_code@,
                failed_at,
                retry_at,
            )
        }),
{
    match check_failure(error_code, maximum_bytes, failed_at, retry_at, StoreOperation::FailOrphanLogChunk) {
        Ok(()) => {},
        Err(error) => {
            return Err(error);
        },
    }
    record_failure(updated_rows, left, Some(failure_state(retry_at)), owner, error_code, failed_at, retry_at)
}

/// A chunk without a job is on record exactly where it was written now, or where the same chunk is there already.
pub proof fn chunks_are_staged_once(inserted_rows: u64, existing: Option<LogObjectRow>, manifest: LogChunkManifest)
    ensures
        inserted_rows == 1 ==> staging(inserted_rows, existing, manifest) is Ok,
        inserted_rows != 1 ==> (staging(inserted_rows, existing, manifest) is Ok <==> existing is Some && is_readable(
            existing->Some_0,
        ) && is_manifest_of(manifest, existing->Some_0)),
        inserted_rows != 1 && existing is Some && is_readable(existing->Some_0) && !is_manifest_of(
            manifest,
            existing->Some_0,
        ) ==> staging(inserted_rows, existing, manifest) == Err::<(), StoreError>(
            StoreError::Conflict { entity: EntityKind::RetentionWork },
        ),
        inserted_rows != 1 && existing is None ==> staging(inserted_rows, existing, manifest) == Err::<(), StoreError>(
            StoreError::Unavailable,
        ),
{
}

/// The deletion of a chunk is done exactly where it was recorded now, or where the same worker recorded it at the
/// same time before.
pub proof fn deletions_are_recorded_once(
    updated_rows: u64,
    left: Option<CompletionReplay>,
    owner: Seq<char>,
    completed_at: i64,
)
    ensures
        completion(updated_rows, left, owner, completed_at) is Ok <==> updated_rows == 1 || (left is Some
            && left->Some_0.state@ == "completed"@ && left->Some_0.last_claim_owner is Some
            && left->Some_0.last_claim_owner->Some_0@ == owner && left->Some_0.completed_at_millis == Some(completed_at)),
        completion(updated_rows, left, owner, completed_at) matches Err(error) ==> error == (StoreError::Conflict {
            entity: EntityKind::RetentionWork,
        }),
{
}

/// A chunk is claimed exactly where it can be read and its worker is one; the claim is that worker's, and counts
/// the tries.
pub proof fn chunks_are_claimed_for_their_worker(claim: OrphanLogChunkClaim, row: OrphanRow)
    ensures
        claim_refusal(row) is None <==> is_readable(row.chunk) && 0 <= row.attempt_count <= 0xffff && row.claim_owner
            is Some && row.owner_verdict is Ok,
        is_claim_of(claim, row) ==> is_manifest_of(claim.manifest, row.chunk) && claim.attempt == row.attempt_count
            && row.claim_owner is Some && row.claim_owner->Some_0@ == claim.owner@,
{
}

/// A chunk that is neither stored nor there, and one that cannot be read, is reported as unavailable, and so is a claim
/// that cannot be.
pub proof fn damaged_orphans_are_unavailable(
    inserted_rows: u64,
    existing: LogObjectRow,
    manifest: LogChunkManifest,
    row: OrphanRow,
)
    ensures
        inserted_rows != 1 ==> staging(inserted_rows, None, manifest) == Err::<(), StoreError>(StoreError::Unavailable),
        inserted_rows != 1 && !is_readable(existing) ==> staging(inserted_rows, Some(existing), manifest) == Err::<
            (),
            StoreError,
        >(StoreError::Unavailable),
        !is_readable(row.chunk) || row.attempt_count < 0 || row.attempt_count > 0xffff || row.claim_owner is None
            ==> claim_refusal(row) == Some(StoreError::Unavailable),
{
}

/// A list of chunks is claimed exactly where each claim can be read.
pub proof fn chunks_are_claimed_as_a_whole(rows: Seq<OrphanRow>)
    ensures
        claims_refusal(rows) is None <==> forall|i: int| 0 <= i < rows.len() ==> claim_refusal(#[trigger] rows[i]) is None,
{
    let refusals = rows.map_values(|row: OrphanRow| claim_refusal(row));
    if forall|i: int| 0 <= i < rows.len() ==> claim_refusal(#[trigger] rows[i]) is None {
        no_refusal_remains(refusals);
    } else {
        let at = choose|i: int| 0 <= i < rows.len() && claim_refusal(#[trigger] rows[i]) is Some;
        assert(refusals[at] == claim_refusal(rows[at]));
        a_refusal_is_found(refusals, at);
    }
}

/// A chunk belongs to a job exactly where it is the one that can be restored for it, and is stored exactly where its
/// numbers fit their columns.
pub proof fn chunks_are_stored_for_their_job(manifest: LogChunkManifest, restored: LogChunkManifest)
    ensures
        is_chunk_of_job(manifest, Some(restored)) <==> restored.chunk_id == manifest.chunk_id && restored.job_id
            == manifest.job_id && restored.stream == manifest.stream && restored.first_sequence == manifest.first_sequence
            && restored.last_sequence == manifest.last_sequence && restored.byte_length == manifest.byte_length
            && restored.digest@ == manifest.digest@ && restored.object_identity@ == manifest.object_identity@,
        !is_chunk_of_job(manifest, None),
        is_storable(manifest) <==> manifest.first_sequence <= i64::MAX && manifest.last_sequence <= i64::MAX
            && manifest.byte_length <= i64::MAX,
        not_a_chunk() == (StoreError::InvalidInput {
            operation: StoreOperation::StageOrphanLogChunk,
            source: StoreInputError::InvalidLogChunkManifest,
        }),
{
}

} // verus!
