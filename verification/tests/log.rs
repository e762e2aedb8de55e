use store_postgres::domain::{EntityKind, MutationDisposition, StoreError};
use store_postgres::log_chunk::{manifests, parse_stream_name, same_manifest, stream_name, BuildLogStream, LogObjectRow};
use store_postgres::log_index_work::{
    self, committed_log_index_position, complete, fail, failure_state, CompletionReplay, FailureReplay, LogIndexWorkKind, WorkRow,
};
use store_postgres::log_search::{
    advance_freshness, apply_document, classify_record, delete, delete_digest, document_bytes, document_digest,
    document_numbers, literal_pattern, persist_document, place_document, position_number, read_indexed_through,
    record_work, replay, same_document, search, search_sql, sequence_number, start_rebuild, AppliedOperation,
    AppliedWork, AppliedWrite, FoundRow, IndexSurroundings, LogSearchCursor, LogSearchDocument, LogSearchError,
    LogSearchInputError, LogSearchMode, LogSearchMutationDisposition, LogSearchOperation, LogSearchQuery, SearchRow,
    SqlPart, WriteLogSearchDocument,
};
use store_postgres::LogSearchRebuildSummary;

fn document() -> LogSearchDocument {
    LogSearchDocument {
        chunk_id: 1,
        project_id: 2,
        build_id: 3,
        attempt_id: 4,
        job_id: 5,
        stream: BuildLogStream::Stdout,
        first_sequence: 6,
        last_sequence: 7,
        occurred_at: 8,
        redacted_text: "hello".to_owned(),
    }
}

fn row(chunk_id: u128, occurred_at: i64) -> SearchRow {
    SearchRow {
        chunk_id,
        build_id: 3,
        attempt_id: 4,
        job_id: 5,
        stream: "stdout".to_owned(),
        first_sequence: 6,
        last_sequence: 7,
        occurred_at_millis: occurred_at,
        normalized_text: "hello".to_owned(),
    }
}

fn query(mode: LogSearchMode, text: &str) -> LogSearchQuery {
    LogSearchQuery {
        project_id: 2,
        text: text.to_owned(),
        mode,
        build_id: None,
        attempt_id: None,
        job_id: None,
        stream: None,
        occurred_from: None,
        occurred_through: None,
        after: None,
        limit: 2,
    }
}

/// The statement with its bound values written in place.
fn written(parts: &[SqlPart]) -> String {
    let mut text = String::new();
    for part in parts {
        match part {
            SqlPart::Text(value) => text.push_str(value),
            SqlPart::Identity(value) => text.push_str(&format!("<{value}>")),
            SqlPart::Bound(value) => text.push_str(&format!("<{value}>")),
            SqlPart::Name(value) => text.push_str(&format!("<{value}>")),
            SqlPart::Number(value) => text.push_str(&format!("<{value}>")),
        }
    }
    text
}

const SELECT: &str = "SELECT chunk_id, build_id, attempt_id, job_id, stream, first_sequence, last_sequence, \
    FLOOR(EXTRACT(EPOCH FROM occurred_at) * 1000)::BIGINT AS occurred_at_millis, normalized_text \
    FROM log_search_documents WHERE project_id = ";

#[test]
fn literal_patterns_escape_sql_wildcards() {
    assert_eq!(literal_pattern(r"100%_done\path"), r"%100\%\_done\\path%");
}

#[test]
fn an_empty_pattern_matches_anything() {
    assert_eq!(literal_pattern(""), "%%");
    assert_eq!(literal_pattern("grüße"), "%grüße%");
}

#[test]
fn streams_are_named() {
    assert_eq!(stream_name(BuildLogStream::Stdout), "stdout");
    assert_eq!(stream_name(BuildLogStream::Stderr), "stderr");
    assert_eq!(parse_stream_name("stdout"), Ok(BuildLogStream::Stdout));
    assert_eq!(parse_stream_name("stderr"), Ok(BuildLogStream::Stderr));
    assert_eq!(parse_stream_name("STDOUT"), Err(StoreError::Unavailable));
}

#[test]
fn operations_repeat_their_kind() {
    assert_eq!(AppliedOperation::Index.as_str(), "index");
    assert_eq!(AppliedOperation::Delete.as_str(), "delete_build");
    assert_eq!(AppliedOperation::Rebuild.as_str(), "rebuild");
    assert!(AppliedOperation::Index.replays("index"));
    assert!(AppliedOperation::Index.replays("rebuild"));
    assert!(AppliedOperation::Rebuild.replays("index"));
    assert!(!AppliedOperation::Index.replays("delete_build"));
    assert!(AppliedOperation::Delete.replays("delete_build"));
    assert!(!AppliedOperation::Delete.replays("rebuild"));
}

#[test]
fn documents_are_written_in_a_fixed_layout() {
    let bytes = document_bytes(&document(), 9);
    let mut expected = b"octacity.log-search-document.v1\0".to_vec();
    expected.extend_from_slice(&9u64.to_be_bytes());
    for id in [1u128, 2, 3, 4, 5] {
        expected.extend_from_slice(&id.to_be_bytes());
    }
    expected.extend_from_slice(b"stdout");
    expected.extend_from_slice(&6u64.to_be_bytes());
    expected.extend_from_slice(&7u64.to_be_bytes());
    expected.extend_from_slice(&8i64.to_be_bytes());
    expected.extend_from_slice(&5u64.to_be_bytes());
    expected.extend_from_slice(b"hello");
    assert_eq!(bytes, expected);
}

#[test]
fn large_numbers_keep_their_bytes() {
    let mut large = document();
    large.chunk_id = 0x0102_0304_0506_0708_090a_0b0c_0d0e_0f10;
    large.first_sequence = 0xfffe_fdfc_fbfa_f9f8;
    let bytes = document_bytes(&large, u64::MAX);
    assert_eq!(&bytes[32..40], &[0xff; 8]);
    assert_eq!(&bytes[40..56], &[1, 2, 3, 4, 5, 6, 7, 8, 9, 10, 11, 12, 13, 14, 15, 16]);
    assert_eq!(&bytes[126..134], &[0xff, 0xfe, 0xfd, 0xfc, 0xfb, 0xfa, 0xf9, 0xf8]);
}

#[test]
fn different_documents_have_different_digests() {
    let digest = document_digest(&document(), 9);
    assert_eq!(digest, document_digest(&document(), 9));
    assert_ne!(digest, document_digest(&document(), 10));
    let mut other = document();
    other.redacted_text = "hello!".to_owned();
    assert_ne!(digest, document_digest(&other, 9));
    assert!(!same_document(&document(), &other));
    assert!(same_document(&document(), &document()));
    let mut other = document();
    other.stream = BuildLogStream::Stderr;
    assert_ne!(digest, document_digest(&other, 9));
}

#[test]
fn deletions_have_their_own_digest() {
    let digest = delete_digest(2, 3, 9);
    assert_eq!(digest, delete_digest(2, 3, 9));
    assert_ne!(digest, delete_digest(3, 2, 9));
    assert_ne!(digest, delete_digest(2, 3, 8));
}

#[test]
fn recorded_work_is_recognised() {
    let digest = document_digest(&document(), 9);
    let entry = record_work(11, 2, 9, AppliedOperation::Index, digest, LogSearchMutationDisposition::Applied);
    let entry = match entry {
        Ok(entry) => entry,
        Err(_) => panic!("it can be recorded"),
    };
    assert_eq!((entry.work_id, entry.project_id, entry.position), (11, 2, 9));
    assert_eq!((entry.operation, entry.disposition), ("index", "applied"));
    assert_eq!(entry.request_digest, digest);
    let recorded = |disposition: &str, digest: [u8; 32]| {
        Some(AppliedWork {
            operation: "index".to_owned(),
            request_digest: digest.to_vec(),
            disposition: disposition.to_owned(),
        })
    };
    let replayed = Ok(Some(LogSearchMutationDisposition::Replayed));
    assert_eq!(replay(&recorded("applied", digest), 11, AppliedOperation::Index, &digest), replayed);
    assert_eq!(replay(&recorded("superseded", digest), 11, AppliedOperation::Rebuild, &digest), replayed);
    assert_eq!(replay(&None, 11, AppliedOperation::Index, &digest), Ok(None));
    let conflict = Err(LogSearchError::WorkConflict { work_id: 11 });
    assert_eq!(replay(&recorded("applied", [0; 32]), 11, AppliedOperation::Index, &digest), conflict);
    assert_eq!(replay(&recorded("applied", digest), 11, AppliedOperation::Delete, &digest), conflict);
    assert_eq!(
        replay(&recorded("lost", digest), 11, AppliedOperation::Index, &digest),
        Err(LogSearchError::Unavailable)
    );
}

#[test]
fn repetitions_are_never_recorded() {
    let digest = [1; 32];
    let entry = record_work(1, 2, 3, AppliedOperation::Delete, digest, LogSearchMutationDisposition::Replayed);
    assert!(matches!(entry, Err(LogSearchError::Unavailable)));
    let entry = record_work(1, 2, u64::MAX, AppliedOperation::Delete, digest, LogSearchMutationDisposition::Applied);
    assert!(matches!(entry, Err(LogSearchError::Unavailable)));
    let entry = record_work(1, 2, 3, AppliedOperation::Rebuild, digest, LogSearchMutationDisposition::Superseded);
    assert!(matches!(entry, Ok(entry) if entry.disposition == "superseded" && entry.operation == "rebuild"));
}

#[test]
fn a_unique_violation_is_a_conflict_of_work() {
    let conflict = LogSearchError::WorkConflict { work_id: 7 };
    assert_eq!(classify_record(&Some("23505".to_owned()), 7), conflict);
    assert_eq!(classify_record(&Some("40001".to_owned()), 7), LogSearchError::Unavailable);
    assert_eq!(classify_record(&None, 7), LogSearchError::Unavailable);
}

#[test]
fn documents_are_persisted_once() {
    assert_eq!(persist_document(1, &None, &document()), Ok(()));
    assert_eq!(persist_document(0, &Some(row(1, 8)), &document()), Ok(()));
    assert_eq!(
        persist_document(0, &Some(row(1, 9)), &document()),
        Err(LogSearchError::DocumentConflict { chunk_id: 1 })
    );
    assert_eq!(persist_document(0, &None, &document()), Err(LogSearchError::Unavailable));
    let mut broken = row(1, 8);
    broken.stream = "stdin".to_owned();
    assert_eq!(persist_document(0, &Some(broken), &document()), Err(LogSearchError::Unavailable));
}

#[test]
fn deleted_builds_stay_hidden() {
    assert_eq!(place_document(true), (LogSearchMutationDisposition::Superseded, false));
    assert_eq!(place_document(false), (LogSearchMutationDisposition::Applied, true));
    let request = || WriteLogSearchDocument { work_id: 11, position: 5, document: document() };
    let met = |recorded: Option<AppliedWork>, tombstoned: bool, inserted_rows: u64| IndexSurroundings {
        recorded,
        tombstoned,
        inserted_rows,
        existing: None,
    };
    let index = |met: IndexSurroundings| apply_document(Ok(()), &request(), AppliedOperation::Index, &met);
    let entry = match index(met(None, false, 1)) {
        Ok(AppliedWrite { disposition: LogSearchMutationDisposition::Applied, entry: Some(entry) }) => entry,
        _ => panic!("the document is new"),
    };
    assert_eq!((entry.work_id, entry.position, entry.operation, entry.disposition), (11, 5, "index", "applied"));
    assert_eq!(entry.request_digest, document_digest(&document(), 5));
    let late = index(met(None, true, 0));
    assert!(matches!(
        late,
        Ok(AppliedWrite { disposition: LogSearchMutationDisposition::Superseded, entry: Some(entry) })
            if entry.disposition == "superseded"
    ));
    let recorded = || AppliedWork {
        operation: "index".to_owned(),
        request_digest: document_digest(&document(), 5).to_vec(),
        disposition: "applied".to_owned(),
    };
    let again = apply_document(Ok(()), &request(), AppliedOperation::Rebuild, &met(Some(recorded()), true, 0));
    assert!(matches!(again, Ok(AppliedWrite { disposition: LogSearchMutationDisposition::Replayed, entry: None })));
    let deleted = delete(&Some(recorded()), 11, 2, 3, 5);
    assert!(matches!(deleted, Err(LogSearchError::WorkConflict { work_id: 11 })));
    let deleted = delete(&None, 12, 2, 3, 6);
    assert!(matches!(
        deleted,
        Ok(AppliedWrite { entry: Some(entry), .. }) if entry.operation == "delete_build" && entry.position == 6
    ));
    let source = LogSearchInputError { rule: 7 };
    let invalid = apply_document(Err(source), &request(), AppliedOperation::Rebuild, &met(Some(recorded()), false, 1));
    assert!(matches!(
        invalid,
        Err(LogSearchError::InvalidInput { operation: LogSearchOperation::Rebuild, source }) if source.rule == 7
    ));
    assert!(matches!(index(met(None, false, 0)), Err(LogSearchError::Unavailable)));
}

#[test]
fn freshness_only_grows() {
    assert_eq!(advance_freshness(4, 6), Some(6));
    assert_eq!(advance_freshness(4, 4), None);
    assert_eq!(advance_freshness(4, 3), None);
    assert_eq!(read_indexed_through(Some(4)), Ok(Some(4)));
    assert_eq!(read_indexed_through(None), Ok(None));
    assert_eq!(read_indexed_through(Some(0)), Err(LogSearchError::Unavailable));
}

#[test]
fn numbers_must_fit_their_columns() {
    assert_eq!(position_number(5), Ok(5));
    assert_eq!(position_number(i64::MAX as u64 + 1), Err(LogSearchError::Unavailable));
    assert_eq!(sequence_number(i64::MAX as u64), Ok(i64::MAX));
    assert_eq!(sequence_number(u64::MAX), Err(LogSearchError::Unavailable));
    assert_eq!(document_numbers(&document()), Ok((6, 7)));
    let mut large = document();
    large.last_sequence = u64::MAX;
    assert_eq!(document_numbers(&large), Err(LogSearchError::Unavailable));
}

#[test]
fn rebuilds_are_summed_up() {
    assert_eq!(
        start_rebuild(2, Some(9), 5),
        Ok(LogSearchRebuildSummary { project_id: 2, queued: 5, committed_through: Some(9) })
    );
    assert_eq!(
        start_rebuild(2, None, 5),
        Ok(LogSearchRebuildSummary { project_id: 2, queued: 0, committed_through: None })
    );
    assert_eq!(start_rebuild(2, Some(0), 0), Err(LogSearchError::Unavailable));
}

#[test]
fn searches_bind_what_they_are_given() {
    let parts = search_sql(&query(LogSearchMode::Literal, "50%"));
    assert_eq!(
        written(&parts),
        format!("{SELECT}<2> AND normalized_text LIKE <%50\\%%> ESCAPE '\\' ORDER BY occurred_at DESC, chunk_id DESC LIMIT <3>")
    );
    let parts = search_sql(&query(LogSearchMode::FullText, "50%"));
    assert_eq!(
        written(&parts),
        format!("{SELECT}<2> AND search_vector @@ plainto_tsquery('simple', <50%>) ORDER BY occurred_at DESC, chunk_id DESC LIMIT <3>")
    );
}

#[test]
fn searches_are_narrowed_in_order() {
    let mut narrow = query(LogSearchMode::FullText, "x");
    narrow.build_id = Some(3);
    narrow.attempt_id = Some(4);
    narrow.job_id = Some(5);
    narrow.stream = Some(BuildLogStream::Stderr);
    narrow.occurred_from = Some(10);
    narrow.occurred_through = Some(20);
    narrow.after = Some(LogSearchCursor { occurred_at: 15, chunk_id: 6 });
    let text = written(&search_sql(&narrow));
    assert_eq!(
        text,
        format!(
            "{SELECT}<2> AND search_vector @@ plainto_tsquery('simple', <x>) AND build_id = <3> AND attempt_id = <4> \
             AND job_id = <5> AND stream = <stderr> AND occurred_at >= to_timestamp(<10>::double precision / 1000.0) \
             AND occurred_at <= to_timestamp(<20>::double precision / 1000.0) \
             AND (occurred_at, chunk_id) < (to_timestamp(<15>::double precision / 1000.0), <6>) \
             ORDER BY occurred_at DESC, chunk_id DESC LIMIT <3>"
        )
    );
}

fn found(chunk_id: u128, occurred_at: i64) -> FoundRow {
    FoundRow { row: row(chunk_id, occurred_at), snippet: format!("snippet {chunk_id}") }
}

#[test]
fn search_pages_end_with_a_cursor() {
    let rows = vec![found(9, 30), found(8, 20), found(7, 10)];
    let page = match search(Ok(()), &rows, 2, 2, Some(4)) {
        Ok(page) => page,
        Err(_) => panic!("the rows can be read"),
    };
    assert_eq!(page.hits.len(), 2);
    assert_eq!(page.hits[1].chunk_id, 8);
    assert_eq!(page.hits[0].snippet, "snippet 9");
    assert_eq!(page.hits[1].snippet, "snippet 8");
    assert_eq!(page.next_cursor, Some(LogSearchCursor { occurred_at: 20, chunk_id: 8 }));
    assert_eq!(page.indexed_through, Some(4));
    let page = match search(Ok(()), &rows, 2, 3, None) {
        Ok(page) => page,
        Err(_) => panic!("the rows can be read"),
    };
    assert_eq!(page.hits.len(), 3);
    assert_eq!(page.next_cursor, None);
    assert_eq!(page.indexed_through, None);
    let refused = search(Err(LogSearchInputError { rule: 1 }), &rows, 2, 0, None);
    assert!(matches!(
        refused,
        Err(LogSearchError::InvalidInput { operation: LogSearchOperation::Search, source }) if source.rule == 1
    ));
}

#[test]
fn unreadable_hits_spoil_a_page_only_where_they_are_shown() {
    let mut rows = vec![found(9, 30), found(8, 20), found(7, 10)];
    rows[2].row.job_id = 0;
    assert!(search(Ok(()), &rows, 2, 2, None).is_ok());
    assert!(matches!(search(Ok(()), &rows, 2, 3, None), Err(LogSearchError::Unavailable)));
    assert!(matches!(search(Ok(()), &rows, 2, 2, Some(-1)), Err(LogSearchError::Unavailable)));
}

fn chunk() -> LogObjectRow {
    LogObjectRow {
        id: 1,
        job_id: 5,
        stream: "stderr".to_owned(),
        first_sequence: 1,
        last_sequence: 2,
        object_identity: "logs/1".to_owned(),
        byte_length: 10,
        sha256: vec![7; 32],
        is_valid: true,
    }
}

#[test]
fn chunks_are_read() {
    let read = match manifests(&vec![chunk()]) {
        Ok(read) => read,
        Err(_) => panic!("the chunk can be read"),
    };
    assert_eq!(read[0].stream, BuildLogStream::Stderr);
    assert_eq!(read[0].byte_length, 10);
    assert_eq!(read[0].digest, vec![7; 32]);
    assert!(same_manifest(&read[0], &read[0]));
    let mut short = chunk();
    short.sha256.pop();
    assert!(matches!(manifests(&vec![chunk(), short]), Err(StoreError::Unavailable)));
    let mut negative = chunk();
    negative.first_sequence = -1;
    assert!(matches!(manifests(&vec![negative]), Err(StoreError::Unavailable)));
}

fn work(operation: &str) -> WorkRow {
    WorkRow {
        id: 20,
        project_id: 2,
        position: 3,
        build_id: 4,
        operation: operation.to_owned(),
        attempt_count: 1,
        claim_owner: Some("worker".to_owned()),
        owner_verdict: Ok(()),
        claim_expires_at_millis: Some(100),
        chunk_id: Some(1),
        attempt_id: Some(6),
        job_id: Some(5),
        stream: Some("stdout".to_owned()),
        first_sequence: Some(1),
        last_sequence: Some(2),
        object_identity: Some("logs/1".to_owned()),
        byte_length: Some(10),
        sha256: Some(vec![7; 32]),
        occurred_at_millis: Some(50),
        manifest_is_valid: true,
    }
}

#[test]
fn index_work_is_claimed_with_its_chunk() {
    let claim = match work("index").into_claim() {
        Ok(claim) => claim,
        Err(_) => panic!("the work can be read"),
    };
    assert_eq!((claim.work_id, claim.position, claim.attempt, claim.claim_expires_at), (20, 3, 1, 100));
    assert_eq!(claim.owner, "worker");
    assert!(matches!(claim.kind, LogIndexWorkKind::Index(source) if source.attempt_id == 6 && source.occurred_at == 50));
    let claims = log_index_work::claim(Ok(()), vec![work("index"), work("rebuild")]);
    assert!(matches!(claims, Ok(claims) if claims.len() == 2 && claims[1].work_id == 20));
    let mut lost = work("index");
    lost.owner_verdict = Err(StoreError::CredentialRejected);
    let claims = log_index_work::claim(Ok(()), vec![work("index"), lost, work("odd")]);
    assert!(matches!(claims, Err(StoreError::CredentialRejected)));
    let claims = log_index_work::claim(Err(StoreError::Unavailable), vec![]);
    assert!(matches!(claims, Err(StoreError::Unavailable)));
    let mut nobody = work("index");
    nobody.owner_verdict = Err(StoreError::CredentialRejected);
    nobody.claim_expires_at_millis = None;
    assert!(matches!(nobody.into_claim(), Err(StoreError::CredentialRejected)));
    let claim = work("rebuild").into_claim();
    assert!(matches!(claim, Ok(claim) if matches!(claim.kind, LogIndexWorkKind::Rebuild(_))));
}

#[test]
fn forgetting_a_build_names_no_chunk() {
    assert!(matches!(work("delete_build").into_claim(), Err(StoreError::Unavailable)));
    let mut forgetting = work("delete_build");
    forgetting.chunk_id = None;
    assert!(matches!(forgetting.into_claim(), Ok(claim) if matches!(claim.kind, LogIndexWorkKind::DeleteBuild)));
    assert!(matches!(work("compact").into_claim(), Err(StoreError::Unavailable)));
    let mut headless = work("index");
    headless.sha256 = None;
    assert!(matches!(headless.into_claim(), Err(StoreError::Unavailable)));
    let mut unowned = work("index");
    unowned.claim_owner = None;
    assert!(matches!(unowned.into_claim(), Err(StoreError::Unavailable)));
}

#[test]
fn index_work_is_completed_once() {
    let left = |state: &str, owner: &str, at: i64| {
        Some(CompletionReplay {
            state: state.to_owned(),
            last_claim_owner: Some(owner.to_owned()),
            completed_at_millis: Some(at),
        })
    };
    let conflict = Err(StoreError::Conflict { entity: EntityKind::LogIndexingWork });
    assert_eq!(complete(1, &None, "worker", 5), Ok(MutationDisposition::Applied));
    assert_eq!(complete(0, &left("completed", "worker", 5), "worker", 5), Ok(MutationDisposition::Replayed));
    assert_eq!(complete(0, &left("completed", "other", 5), "worker", 5), conflict);
    assert_eq!(complete(0, &left("completed", "worker", 6), "worker", 5), conflict);
    assert_eq!(complete(0, &left("claimed", "worker", 5), "worker", 5), conflict);
    assert_eq!(
        complete(0, &None, "worker", 5),
        Err(StoreError::NotFound { entity: EntityKind::LogIndexingWork })
    );
}

#[test]
fn failures_of_index_work_are_recorded_once() {
    assert_eq!(failure_state(Some(9)), "retry_scheduled");
    assert_eq!(failure_state(None), "dead_letter");
    let left = |state: &str, retry_at: Option<i64>| {
        Some(FailureReplay {
            state: state.to_owned(),
            last_claim_owner: Some("worker".to_owned()),
            last_error_code: Some("timeout".to_owned()),
            failed_at_millis: Some(5),
            retry_at_millis: retry_at,
        })
    };
    let conflict = Err(StoreError::Conflict { entity: EntityKind::LogIndexingWork });
    assert_eq!(fail(Ok(()), 1, &None, "worker", "timeout", 5, None), Ok(MutationDisposition::Applied));
    let refused = Err(StoreError::Unavailable);
    assert_eq!(fail(refused, 1, &None, "worker", "timeout", 5, None), Err(StoreError::Unavailable));
    assert_eq!(
        fail(Ok(()), 0, &left("retry_scheduled", Some(9)), "worker", "timeout", 5, Some(9)),
        Ok(MutationDisposition::Replayed)
    );
    assert_eq!(
        fail(Ok(()), 0, &left("dead_letter", None), "worker", "timeout", 5, None),
        Ok(MutationDisposition::Replayed)
    );
    assert_eq!(fail(Ok(()), 0, &left("retry_scheduled", Some(9)), "worker", "timeout", 5, None), conflict);
    assert_eq!(fail(Ok(()), 0, &left("dead_letter", None), "worker", "refused", 5, None), conflict);
    assert_eq!(
        fail(Ok(()), 0, &None, "worker", "timeout", 5, None),
        Err(StoreError::NotFound { entity: EntityKind::LogIndexingWork })
    );
}

#[test]
fn committed_positions_are_positive() {
    assert_eq!(committed_log_index_position(None), Ok(None));
    assert_eq!(committed_log_index_position(Some(3)), Ok(Some(3)));
    assert_eq!(committed_log_index_position(Some(0)), Err(StoreError::Unavailable));
}
