//! Pieces of a job's log, and the streams they come from.

use vstd::prelude::*;

use crate::domain::{identity, is_identity, StoreError};
use crate::text::{append_bytes, same_bytes, same_text};

verus! {

/// A stream of a job's output.
#[derive(Clone, Copy, Debug, PartialEq, Eq, Structural)]
pub enum BuildLogStream {
    /// Stored as `stdout`.
    Stdout,
    /// Stored as `stderr`.
    Stderr,
}

/// The stored name of a stream.
pub open spec fn stream_name_text(value: BuildLogStream) -> Seq<char> {
    match value {
        BuildLogStream::Stdout => "stdout"@,
        BuildLogStream::Stderr => "stderr"@,
    }
}

/// No two values share a stored name.
pub proof fn stream_name_text_names_one_value(a: BuildLogStream, b: BuildLogStream)
    ensures
        stream_name_text(a) == stream_name_text(b) ==> a == b,
{
    reveal_strlit("stdout");
    reveal_strlit("stderr");
    assert("stdout"@.len() == 6);
    assert("stderr"@.len() == 6);
    assert("stdout"@[3] == 'o');
    assert("stderr"@[3] == 'e');
}

/// Names a stream as the database stores it.
pub fn stream_name(value: BuildLogStream) -> (text: &'static str)
    ensures
        text@ == stream_name_text(value),
{
    match value {
        BuildLogStream::Stdout => "stdout",
        BuildLogStream::Stderr => "stderr",
    }
}

/// Reads a stream back from its stored name; any other text is unreadable.
pub fn parse_stream_name(text: &str) -> (result: Result<BuildLogStream, StoreError>)
    ensures
        forall|value: BuildLogStream|
            result == Ok::<BuildLogStream, StoreError>(value)
                <==> text@ == #[trigger] stream_name_text(value),
        result is Err ==> result == Err::<BuildLogStream, StoreError>(StoreError::Unavailable),
{
    proof {
        assert forall|a: BuildLogStream, b: BuildLogStream|
            #[trigger] stream_name_text(a) == #[trigger] stream_name_text(b)
            implies a == b by {
            stream_name_text_names_one_value(a, b);
        }
    }
    let result = if same_text(text, "stdout") {
        Ok(BuildLogStream::Stdout)
    } else if same_text(text, "stderr") {
        Ok(BuildLogStream::Stderr)
    } else {
        Err(StoreError::Unavailable)
    };
    assert(result matches Ok(value) ==> text@ == stream_name_text(value));
    result
}

/// A piece of a job's log as it was stored.
pub struct LogChunkManifest {
    /// The chunk.
    pub chunk_id: u128,
    /// Its job.
    pub job_id: u128,
    /// Its stream.
    pub stream: BuildLogStream,
    /// First position of the job's log in it.
    pub first_sequence: u64,
    /// Last position of the job's log in it.
    pub last_sequence: u64,
    /// Its length.
    pub byte_length: u64,
    /// Its digest.
    pub digest: Vec<u8>,
    /// Where its content is.
    pub object_identity: String,
}

/// Whether two manifests are the same.
pub open spec fn same_manifest_as(a: LogChunkManifest, b: LogChunkManifest) -> bool {
    &&& a.chunk_id == b.chunk_id
    &&& a.job_id == b.job_id
    &&& a.stream == b.stream
    &&& a.first_sequence == b.first_sequence
    &&& a.last_sequence == b.last_sequence
    &&& a.byte_length == b.byte_length
    &&& a.digest@ == b.digest@
    &&& a.object_identity@ == b.object_identity@
}

/// Whether two manifests are the same.
pub fn same_manifest(a: &LogChunkManifest, b: &LogChunkManifest) -> (same: bool)
    ensures
        same == same_manifest_as(*a, *b),
{
    a.chunk_id == b.chunk_id && a.job_id == b.job_id && a.stream == b.stream && a.first_sequence == b.first_sequence
        && a.last_sequence == b.last_sequence && a.byte_length == b.byte_length && same_bytes(
        a.digest.as_slice(),
        b.digest.as_slice(),
    ) && same_text(a.object_identity.as_str(), b.object_identity.as_str())
}

/// A chunk as the database holds it.
pub struct LogObjectRow {
    /// The chunk.
    pub id: u128,
    /// Its job.
    pub job_id: u128,
    /// Its stream.
    pub stream: String,
    /// First position of the job's log in it.
    pub first_sequence: i64,
    /// Last position of the job's log in it.
    pub last_sequence: i64,
    /// Where its content is.
    pub object_identity: String,
    /// Its length.
    pub byte_length: i64,
    /// Its digest.
    pub sha256: Vec<u8>,
    /// Whether these make up a valid chunk.
    pub is_valid: bool,
}

/// Whether a row can be read.
pub open spec fn is_readable(row: LogObjectRow) -> bool {
    &&& is_identity(row.id) && is_identity(row.job_id)
    &&& exists|stream: BuildLogStream| row.stream@ == #[trigger] stream_name_text(stream)
    &&& row.first_sequence >= 0 && row.last_sequence >= 0 && row.byte_length >= 0
    &&& row.sha256@.len() == 32
    &&& row.is_valid
}

/// Whether a manifest is the one of a row.
pub open spec fn is_manifest_of(manifest: LogChunkManifest, row: LogObjectRow) -> bool {
    &&& manifest.chunk_id == row.id
    &&& manifest.job_id == row.job_id
    &&& row.stream@ == stream_name_text(manifest.stream)
    &&& manifest.first_sequence == row.first_sequence
    &&& manifest.last_sequence == row.last_sequence
    &&& manifest.byte_length == row.byte_length
    &&& manifest.digest@ == row.sha256@
    &&& manifest.object_identity@ == row.object_identity@
}

impl LogObjectRow {
    /// Reads a chunk.
    pub fn manifest(&self) -> (result: Result<LogChunkManifest, StoreError>)
        ensures
            match result {
                Ok(manifest) => is_readable(*self) && is_manifest_of(manifest, *self),
                Err(error) => error == StoreError::Unavailable && !is_readable(*self),
            },
    {
        let stream = match parse_stream_name(self.stream.as_str()) {
            Ok(stream) => {
                assert(self.stream@ == stream_name_text(stream));
                stream
            },
            Err(_) => {
                return Err(StoreError::Unavailable);
            },
        };
        if self.sha256.len() != 32 || !self.is_valid {
            return Err(StoreError::Unavailable);
        }
        let chunk_id: u128 = identity(self.id)?;
        let job_id: u128 = identity(self.job_id)?;
        if self.first_sequence < 0 || self.last_sequence < 0 || self.byte_length < 0 {
            return Err(StoreError::Unavailable);
        }
        let mut digest: Vec<u8> = Vec::new();
        append_bytes(&mut digest, self.sha256.as_slice());
        assert(digest@ =~= self.sha256@);
        Ok(
            LogChunkManifest {
                chunk_id,
                job_id,
                stream,
                first_sequence: self.first_sequence as u64,
                last_sequence: self.last_sequence as u64,
                byte_length: self.byte_length as u64,
                digest,
                object_identity: self.object_identity.clone(),
            },
        )
    }
}

/// A row that a manifest can be read from names no other manifest.
pub proof fn rows_hold_one_manifest(row: LogObjectRow, a: LogChunkManifest, b: LogChunkManifest)
    requires
        is_manifest_of(a, row),
        is_manifest_of(b, row),
    ensures
        same_manifest_as(a, b),
{
    stream_name_text_names_one_value(a.stream, b.stream);
}

/// Whether every row of a list can be read.
pub open spec fn are_readable(rows: Seq<LogObjectRow>) -> bool {
    forall|i: int| 0 <= i < rows.len() ==> is_readable(#[trigger] rows[i])
}

/// Reads a list of chunks.
pub fn manifests(rows: &Vec<LogObjectRow>) -> (result: Result<Vec<LogChunkManifest>, StoreError>)
    ensures
        match result {
            Ok(manifests) => {
                &&& are_readable(rows@)
                &&& manifests@.len() == rows@.len()
                &&& forall|i: int| 0 <= i < rows@.len() ==> is_manifest_of(#[trigger] manifests@[i], rows@[i])
            },
            Err(error) => error == StoreError::Unavailable && !are_readable(rows@),
        },
{
    let mut manifests: Vec<LogChunkManifest> = Vec::new();
    let mut i: usize = 0;
    while i < rows.len()
        invariant
            i <= rows.len(),
            manifests@.len() == i,
            forall|j: int| 0 <= j < i ==> is_readable(#[trigger] rows@[j]),
            forall|j: int| 0 <= j < i ==> is_manifest_of(#[trigger] manifests@[j], rows@[j]),
        decreases rows.len() - i,
    {
        let manifest = rows[i].manifest()?;
        manifests.push(manifest);
        i += 1;
    }
    Ok(manifests)
}

/// A chunk is read as it was stored: of its job and its stream, with its place in the log, its length and its digest.
pub proof fn chunks_are_read_as_stored(manifest: LogChunkManifest, row: LogObjectRow)
    requires
        is_manifest_of(manifest, row),
    ensures
        manifest.chunk_id == row.id && manifest.job_id == row.job_id,
        manifest.stream == BuildLogStream::Stdout <==> row.stream@ == "stdout"@,
        manifest.stream == BuildLogStream::Stderr <==> row.stream@ == "stderr"@,
        manifest.first_sequence == row.first_sequence && manifest.last_sequence == row.last_sequence,
        manifest.byte_length == row.byte_length && manifest.digest@ == row.sha256@,
        manifest.object_identity@ == row.object_identity@,
{
    stream_name_text_names_one_value(manifest.stream, BuildLogStream::Stdout);
    stream_name_text_names_one_value(manifest.stream, BuildLogStream::Stderr);
}

/// Two chunks are the same exactly where they agree on everything.
pub proof fn chunks_are_told_apart(a: LogChunkManifest, b: LogChunkManifest)
    ensures
        same_manifest_as(a, b) <==> a.chunk_id == b.chunk_id && a.job_id == b.job_id && a.stream == b.stream
            && a.first_sequence == b.first_sequence && a.last_sequence == b.last_sequence && a.byte_length
            == b.byte_length && a.digest@ == b.digest@ && a.object_identity@ == b.object_identity@,
{
}

/// A piece of a log is read exactly from a row whose identities are set, whose stream is known, whose numbers are not
/// negative, whose digest has its full length and which is valid.
pub proof fn sound_chunks_are_read(row: LogObjectRow)
    ensures
        is_readable(row) <==> row.id != 0 && row.job_id != 0 && (row.stream@ == "stdout"@ || row.stream@ == "stderr"@)
            && row.first_sequence >= 0 && row.last_sequence >= 0 && row.byte_length >= 0 && row.sha256@.len() == 32
            && row.is_valid,
{
    assert(stream_name_text(BuildLogStream::Stdout) == "stdout"@);
    assert(stream_name_text(BuildLogStream::Stderr) == "stderr"@);
}

/// Pieces of a log are read exactly where each of them is.
pub proof fn pages_of_chunks_are_read(rows: Seq<LogObjectRow>)
    ensures
        are_readable(rows) <==> forall|i: int| 0 <= i < rows.len() ==> is_readable(#[trigger] rows[i]),
{
}

} // verus!
