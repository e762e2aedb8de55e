//! Deleting what is kept no longer: hiding it, forgetting it in the index, and deleting its content.

use vstd::prelude::*;

use crate::domain::{
    identity, is_identity, is_timestamp, is_version, timestamp, EntityKind, StoreError, StoreInputError, StoreOperation,
};
use crate::identity_text::{derive_identity, name_based_identity};
use crate::refusal::{a_refusal_is_found, first_refusal, first_refusal_decides, no_refusal_remains};
use crate::text::{column_holds, holds, same_text, utf8};

verus! {

/// A part of a build's result.
#[derive(Clone, Copy, Debug, PartialEq, Eq, Structural)]
pub enum BuildResultComponent {
    /// Stored as `metadata`.
    Metadata,
    /// Stored as `logs`.
    Logs,
    /// Stored as `artifacts`.
    Artifacts,
    /// Stored as `reports`.
    Reports,
}

/// The stored name of a part of a result.
pub open spec fn component_name_text(value: BuildResultComponent) -> Seq<char> {
    match value {
        BuildResultComponent::Metadata => "metadata"@,
        BuildResultComponent::Logs => "logs"@,
        BuildResultComponent::Artifacts => "artifacts"@,
        BuildResultComponent::Reports => "reports"@,
    }
}

/// No two values share a stored name.
pub proof fn component_name_text_names_one_value(a: BuildResultComponent, b: BuildResultComponent)
    ensures
        component_name_text(a) == component_name_text(b) ==> a == b,
{
    reveal_strlit("metadata");
    reveal_strlit("logs");
    reveal_strlit("artifacts");
    reveal_strlit("reports");
    assert("metadata"@.len() == 8);
    assert("logs"@.len() == 4);
    assert("artifacts"@.len() == 9);
    assert("reports"@.len() == 7);
}

/// Names a part of a result as the database stores it.
pub fn component_name(value: BuildResultComponent) -> (text: &'static str)
    ensures
        text@ == component_name_text(value),
{
    match value {
        BuildResultComponent::Metadata => "metadata",
        BuildResultComponent::Logs => "logs",
        BuildResultComponent::Artifacts => "artifacts",
        BuildResultComponent::Reports => "reports",
    }
}

/// Reads a part of a result back from its stored name; any other text is unreadable.
pub fn component(text: &str) -> (result: Result<BuildResultComponent, StoreError>)
    ensures
        forall|value: BuildResultComponent|
            result == Ok::<BuildResultComponent, StoreError>(value)
                <==> text@ == #[trigger] component_name_text(value),
        result is Err ==> result == Err::<BuildResultComponent, StoreError>(StoreError::Unavailable),
{
    proof {
        assert forall|a: BuildResultComponent, b: BuildResultComponent|
            #[trigger] component_name_text(a) == #[trigger] component_name_text(b)
            implies a == b by {
            component_name_text_names_one_value(a, b);
        }
    }
    let result = if same_text(text, "metadata") {
        Ok(BuildResultComponent::Metadata)
    } else if same_text(text, "logs") {
        Ok(BuildResultComponent::Logs)
    } else if same_text(text, "artifacts") {
        Ok(BuildResultComponent::Artifacts)
    } else if same_text(text, "reports") {
        Ok(BuildResultComponent::Reports)
    } else {
        Err(StoreError::Unavailable)
    };
    assert(result matches Ok(value) ==> text@ == component_name_text(value));
    result
}

/// How far the deletion of a part of a result got.
#[derive(Clone, Copy, Debug, PartialEq, Eq, Structural)]
pub enum RetentionPhase {
    /// Stored as `pending`.
    Pending,
    /// Stored as `hidden`.
    Hidden,
    /// Stored as `search_deleted`.
    SearchDeleted,
    /// Stored as `bytes_deleted`.
    BytesDeleted,
    /// Stored as `dead_letter`.
    DeadLetter,
}

/// The stored name of a phase.
pub open spec fn phase_name_text(value: RetentionPhase) -> Seq<char> {
    match value {
        RetentionPhase::Pending => "pending"@,
        RetentionPhase::Hidden => "hidden"@,
        RetentionPhase::SearchDeleted => "search_deleted"@,
        RetentionPhase::BytesDeleted => "bytes_deleted"@,
        RetentionPhase::DeadLetter => "dead_letter"@,
    }
}

/// No two values share a stored name.
pub proof fn phase_name_text_names_one_value(a: RetentionPhase, b: RetentionPhase)
    ensures
        phase_name_text(a) == phase_name_text(b) ==> a == b,
{
    reveal_strlit("pending");
    reveal_strlit("hidden");
    reveal_strlit("search_deleted");
    reveal_strlit("bytes_deleted");
    reveal_strlit("dead_letter");
    assert("pending"@.len() == 7);
    assert("hidden"@.len() == 6);
    assert("search_deleted"@.len() == 14);
    assert("bytes_deleted"@.len() == 13);
    assert("dead_letter"@.len() == 11);
}

/// Names a phase as the database stores it.
pub fn phase_name(value: RetentionPhase) -> (text: &'static str)
    ensures
        text@ == phase_name_text(value),
{
    match value {
        RetentionPhase::Pending => "pending",
        RetentionPhase::Hidden => "hidden",
        RetentionPhase::SearchDeleted => "search_deleted",
        RetentionPhase::BytesDeleted => "bytes_deleted",
        RetentionPhase::DeadLetter => "dead_letter",
    }
}

/// Reads a phase back from its stored name; any other text is unreadable.
pub fn phase(text: &str) -> (result: Result<RetentionPhase, StoreError>)
    ensures
        forall|value: RetentionPhase|
            result == Ok::<RetentionPhase, StoreError>(value)
                <==> text@ == #[trigger] phase_name_text(value),
        result is Err ==> result == Err::<RetentionPhase, StoreError>(StoreError::Unavailable),
{
    proof {
        assert forall|a: RetentionPhase, b: RetentionPhase|
            #[trigger] phase_name_text(a) == #[trigger] phase_name_text(b)
            implies a == b by {
            phase_name_text_names_one_value(a, b);
        }
    }
    let result = if same_text(text, "pending") {
        Ok(RetentionPhase::Pending)
    } else if same_text(text, "hidden") {
        Ok(RetentionPhase::Hidden)
    } else if same_text(text, "search_deleted") {
        Ok(RetentionPhase::SearchDeleted)
    } else if same_text(text, "bytes_deleted") {
        Ok(RetentionPhase::BytesDeleted)
    } else if same_text(text, "dead_letter") {
        Ok(RetentionPhase::DeadLetter)
    } else {
        Err(StoreError::Unavailable)
    };
    assert(result matches Ok(value) ==> text@ == phase_name_text(value));
    result
}

/// The failure of a request that contradicts the state of its work.
pub open spec fn work_conflict() -> StoreError {
    StoreError::Conflict { entity: EntityKind::RetentionWork }
}

/// The failure of a request that contradicts the state of its work.
pub fn conflict() -> (error: StoreError)
    ensures
        error == work_conflict(),
{
    StoreError::Conflict { entity: EntityKind::RetentionWork }
}

/// Whether a character is white space, as Unicode has it.
pub open spec fn is_white_space(character: char) -> bool {
    ||| '\u{9}' <= character <= '\u{d}'
    ||| character == '\u{20}' || character == '\u{85}' || character == '\u{a0}' || character == '\u{1680}'
    ||| '\u{2000}' <= character <= '\u{200a}'
    ||| character == '\u{2028}' || character == '\u{2029}' || character == '\u{202f}' || character == '\u{205f}'
    ||| character == '\u{3000}'
}

/// `char::is_whitespace` finds the characters with the Unicode property `White_Space`: tab, line feed,
/// vertical tab, form feed and carriage return, the space, the next line and the no-break space, the Ogham
/// space mark, the spaces from en quad to hair space, the line and paragraph separators, the narrow no-break
/// space, the mathematical space and the ideographic space.
pub assume_specification[ char::is_whitespace ](character: char) -> (white: bool)
    ensures
        white == is_white_space(character),
;

/// Whether a code can name a failure: it is neither empty nor too long, and one word.
pub open spec fn is_failure_code(code: Seq<char>, maximum_bytes: usize) -> bool {
    &&& code.len() > 0
    &&& utf8(code).len() <= maximum_bytes
    &&& forall|i: int| 0 <= i < code.len() ==> !is_white_space(#[trigger] code[i])
}

/// Whether the report of a failure makes sense: its code can name a failure, and another try comes after
/// it.
pub open spec fn is_failure(code: Seq<char>, maximum_bytes: usize, failed_at: i64, retry_at: Option<i64>) -> bool {
    &&& is_failure_code(code, maximum_bytes)
    &&& retry_at matches Some(retry_at) ==> retry_at > failed_at
}

fn has_white_space(text: &str) -> (found: bool)
    ensures
        found == exists|i: int| 0 <= i < text@.len() && is_white_space(#[trigger] text@[i]),
{
    let length: usize = text.unicode_len();
    let mut i: usize = 0;
    while i < length
        invariant
            length == text@.len(),
            i <= length,
            forall|j: int| 0 <= j < i ==> !is_white_space(#[trigger] text@[j]),
        decreases length - i,
    {
        let character: char = text.get_char(i);
        if character.is_whitespace() {
            assert(is_white_space(text@[i as int]));
            return true;
        }
        i += 1;
    }
    false
}

/// Checks the report of a failure.
pub fn check_failure(
    code: &str,
    maximum_bytes: usize,
    failed_at: i64,
    retry_at: Option<i64>,
    operation: StoreOperation,
) -> (result: Result<(), StoreError>)
    ensures
        result == (if is_failure(code@, maximum_bytes, failed_at, retry_at) {
            Ok::<(), StoreError>(())
        } else {
            Err(StoreError::InvalidInput { operation, source: StoreInputError::InvalidWorkerClaim })
        }),
{
    let too_early = match retry_at {
        Some(retry_at) => retry_at <= failed_at,
        None => false,
    };
    if code.unicode_len() == 0 || code.as_bytes().len() > maximum_bytes || has_white_space(code) || too_early {
        Err(StoreError::InvalidInput { operation, source: StoreInputError::InvalidWorkerClaim })
    } else {
        Ok(())
    }
}

/// How a failed piece of work was left.
pub struct FailureReplayRow {
    /// Its state.
    pub state: String,
    /// Who worked on it last.
    pub owner: Option<String>,
    /// Why it failed last.
    pub error_code: Option<String>,
    /// When it failed last.
    pub failed_at_millis: Option<i64>,
    /// When it is tried again.
    pub retry_at_millis: Option<i64>,
}

/// Whether a failure on record is the one that is reported; any state is right where none is expected.
pub open spec fn is_same_failure(
    row: FailureReplayRow,
    expected_state: Option<&'static str>,
    owner: Seq<char>,
    error_code: Seq<char>,
    failed_at: i64,
    retry_at: Option<i64>,
) -> bool {
    &&& expected_state matches Some(expected) ==> row.state@ == expected@
    &&& holds(row.owner, owner)
    &&& holds(row.error_code, error_code)
    &&& row.failed_at_millis == Some(failed_at)
    &&& row.retry_at_millis == retry_at
}

impl FailureReplayRow {
    /// Whether a failure on record is the one that is reported.
    pub fn matches(
        &self,
        expected_state: Option<&'static str>,
        owner: &str,
        error_code: &str,
        failed_at: i64,
        retry_at: Option<i64>,
    ) -> (same: bool)
        ensures
            same == is_same_failure(*self, expected_state, owner@, error_code@, failed_at, retry_at),
    {
        let in_state = match expected_state {
            Some(expected) => same_text(self.state.as_str(), expected),
            None => true,
        };
        in_state && column_holds(&self.owner, owner) && column_holds(&self.error_code, error_code)
            && self.failed_at_millis == Some(failed_at) && self.retry_at_millis == retry_at
    }
}

/// What recording a failure comes to: `updated_rows` is what the record wrote, and `left` how the work was
/// found where that wrote nothing.
pub open spec fn failure(
    updated_rows: u64,
    left: Option<FailureReplayRow>,
    expected_state: Option<&'static str>,
    owner: Seq<char>,
    error_code: Seq<char>,
    failed_at: i64,
    retry_at: Option<i64>,
) -> Result<(), StoreError> {
    if updated_rows == 1 || (left matches Some(row) && is_same_failure(
        row,
        expected_state,
        owner,
        error_code,
        failed_at,
        retry_at,
    )) {
        Ok(())
    } else {
        Err(work_conflict())
    }
}

/// Decides the record of a failure: the same failure reported again changes nothing.
pub fn record_failure(
    updated_rows: u64,
    left: &Option<FailureReplayRow>,
    expected_state: Option<&'static str>,
    owner: &str,
    error_code: &str,
    failed_at: i64,
    retry_at: Option<i64>,
) -> (result: Result<(), StoreError>)
    ensures
        result == failure(updated_rows, *left, expected_state, owner@, error_code@, failed_at, retry_at),
{
    if updated_rows == 1 {
        return Ok(());
    }
    match left {
        Some(row) => if row.matches(expected_state, owner, error_code, failed_at, retry_at) {
            Ok(())
        } else {
            Err(conflict())
        },
        None => Err(conflict()),
    }
}

/// The phase a failure must have left work in: given up where it is not tried again, any otherwise.
pub open spec fn failed_phase(retry_at: Option<i64>) -> Option<&'static str> {
    if retry_at is Some {
        None
    } else {
        Some("dead_letter")
    }
}

/// Decides the record of a failure of the deletion of a part of a result.
/// The report has to make sense: `maximum_bytes` is how long its code may be.
pub fn fail(
    maximum_bytes: usize,
    updated_rows: u64,
    left: &Option<FailureReplayRow>,
    owner: &str,
    error_code: &str,
    failed_at: i64,
    retry_at: Option<i64>,
) -> (result: Result<(), StoreError>)
    ensures
        result == (if !is_failure(error_code@, maximum_bytes, failed_at, retry_at) {
            Err::<(), StoreError>(
                StoreError::InvalidInput {
                    operation: StoreOperation::FailRetentionWork,
                    source: StoreInputError::InvalidWorkerClaim,
                },
            )
        } else {
            failure(updated_rows, *left, failed_phase(retry_at), owner@, error_code@, failed_at, retry_at)
        }),
{
    match check_failure(error_code, maximum_bytes, failed_at, retry_at, StoreOperation::FailRetentionWork) {
        Ok(()) => {},
        Err(error) => {
            return Err(error);
        },
    }
    let expected = if retry_at.is_some() {
        None
    } else {
        Some("dead_letter")
    };
    record_failure(updated_rows, left, expected, owner, error_code, failed_at, retry_at)
}

/// Work as it was claimed.
pub struct ClaimRow {
    /// The work.
    pub id: u128,
    /// Its project.
    pub project_id: u128,
    /// Its build.
    pub build_id: u128,
    /// The part of the result.
    pub resource_kind: String,
    /// How far it got.
    pub phase: String,
    /// Since when the part is kept no longer.
    pub deadline_millis: i64,
    /// How often it was tried.
    pub attempt_count: i64,
    /// Who works on it.
    pub claim_owner: Option<String>,
    /// The verdict on whether that names a worker.
    pub owner_verdict: Result<(), StoreError>,
    /// When the claim runs out.
    pub claim_expires_at_millis: Option<i64>,
}

/// Claimed work.
pub struct RetentionWorkClaim {
    /// The work.
    pub work_id: u128,
    /// Its project.
    pub project_id: u128,
    /// Its build.
    pub build_id: u128,
    /// The part of the result.
    pub component: BuildResultComponent,
    /// Since when the part is kept no longer.
    pub deadline: i64,
    /// How far it got.
    pub phase: RetentionPhase,
    /// How often it was tried.
    pub attempt: u16,
    /// Who works on it.
    pub owner: String,
    /// When the claim runs out.
    pub claim_expires_at: i64,
}

/// Whether a text names a part of a result.
pub open spec fn is_component(text: Seq<char>) -> bool {
    exists|component: BuildResultComponent| text == #[trigger] component_name_text(component)
}

/// Whether a text names a phase.
pub open spec fn is_phase(text: Seq<char>) -> bool {
    exists|phase: RetentionPhase| text == #[trigger] phase_name_text(phase)
}

/// Whether a row can be read, up to its worker.
pub open spec fn is_readable_claim(row: ClaimRow) -> bool {
    &&& is_identity(row.id) && is_identity(row.project_id) && is_identity(row.build_id)
    &&& is_component(row.resource_kind@)
    &&& is_timestamp(row.deadline_millis)
    &&& is_phase(row.phase@)
    &&& 0 <= row.attempt_count <= u16::MAX
    &&& row.claim_owner is Some
}

/// The reason for which a row cannot be read, where there is one.
pub open spec fn claim_refusal(row: ClaimRow) -> Option<StoreError> {
    if !is_readable_claim(row) {
        Some(StoreError::Unavailable)
    } else {
        match row.owner_verdict {
            Err(error) => Some(error),
            Ok(()) => if row.claim_expires_at_millis matches Some(time) && is_timestamp(time) {
                None
            } else {
                Some(StoreError::Unavailable)
            },
        }
    }
}

/// Whether a claim is the one of a row.
pub open spec fn is_claim_of(claim: RetentionWorkClaim, row: ClaimRow) -> bool {
    &&& claim.work_id == row.id
    &&& claim.project_id == row.project_id
    &&& claim.build_id == row.build_id
    &&& component_name_text(claim.component) == row.resource_kind@
    &&& claim.deadline == row.deadline_millis
    &&& phase_name_text(claim.phase) == row.phase@
    &&& claim.attempt == row.attempt_count
    &&& row.claim_owner is Some && claim.owner@ == row.claim_owner->Some_0@
    &&& row.claim_expires_at_millis == Some(claim.claim_expires_at)
}

impl ClaimRow {
    /// Reads claimed work.
    pub fn into_claim(&self) -> (result: Result<RetentionWorkClaim, StoreError>)
        ensures
            match claim_refusal(*self) {
                None => result matches Ok(claim) && is_claim_of(claim, *self),
                Some(refusal) => result matches Err(error) && error == refusal,
            },
    {
        let work_id: u128 = identity(self.id)?;
        let project_id: u128 = identity(self.project_id)?;
        let build_id: u128 = identity(self.build_id)?;
        let part = component(self.resource_kind.as_str())?;
        assert(self.resource_kind@ == component_name_text(part));
        let deadline: i64 = timestamp(self.deadline_millis)?;
        let reached = phase(self.phase.as_str())?;
        assert(self.phase@ == phase_name_text(reached));
        let attempt: u16 = match u16::try_from(self.attempt_count) {
            Ok(attempt) => attempt,
            Err(_) => {
                return Err(StoreError::Unavailable);
            },
        };
        let owner = match &self.claim_owner {
            Some(owner) => owner.clone(),
            None => {
                return Err(StoreError::Unavailable);
            },
        };
        match self.owner_verdict {
            Ok(()) => {},
            Err(error) => {
                return Err(error);
            },
        }
        match self.claim_expires_at_millis {
            Some(expires_at) => {
                let claim_expires_at: i64 = timestamp(expires_at)?;
                Ok(
                    RetentionWorkClaim {
                        work_id,
                        project_id,
                        build_id,
                        component: part,
                        deadline,
                        phase: reached,
                        attempt,
                        owner,
                        claim_expires_at,
                    },
                )
            },
            None => Err(StoreError::Unavailable),
        }
    }
}

/// The reason for which rows cannot be read, where there is one: that of the first row that has one.
pub open spec fn claims_refusal(rows: Seq<ClaimRow>) -> Option<StoreError> {
    first_refusal(rows.map_values(|row: ClaimRow| claim_refusal(row)))
}

/// Reads the work that was claimed: `validated` is the verdict on the request by itself.
pub fn claim(validated: Result<(), StoreError>, rows: &Vec<ClaimRow>) -> (result: Result<
    Vec<RetentionWorkClaim>,
    StoreError,
>)
    ensures
        match validated {
            Err(refusal) => result matches Err(error) && error == refusal,
            Ok(()) => match claims_refusal(rows@) {
                None => result matches Ok(claims) && claims@.len() == rows@.len() && forall|i: int|
                    0 <= i < rows@.len() ==> is_claim_of(#[trigger] claims@[i], rows@[i]),
                Some(refusal) => result matches Err(error) && error == refusal,
            },
        },
{
    match validated {
        Ok(()) => {},
        Err(error) => {
            return Err(error);
        },
    }
    let ghost refusals = rows@.map_values(|row: ClaimRow| claim_refusal(row));
    let mut claims: Vec<RetentionWorkClaim> = Vec::new();
    let mut i: usize = 0;
    while i < rows.len()
        invariant
            i <= rows.len(),
            claims@.len() == i,
            validated is Ok,
            refusals == rows@.map_values(|row: ClaimRow| claim_refusal(row)),
            forall|j: int| 0 <= j < i ==> (#[trigger] refusals[j]) is None,
            forall|j: int| 0 <= j < i ==> is_claim_of(#[trigger] claims@[j], rows@[j]),
        decreases rows.len() - i,
    {
        assert(refusals[i as int] == claim_refusal(rows@[i as int]));
        proof {
            if refusals[i as int] is Some {
                first_refusal_decides(refusals, i as int);
            }
        }
        let claim = rows[i].into_claim()?;
        claims.push(claim);
        i += 1;
    }
    proof {
        no_refusal_remains(refusals);
    }
    Ok(claims)
}

/// Locked work as the database holds it.
pub struct LockedWorkRow {
    /// Its project.
    pub project_id: u128,
    /// Its build.
    pub build_id: u128,
    /// The part of the result.
    pub resource_kind: String,
    /// How far it got.
    pub phase: String,
    /// The work that forgets the build in the index.
    pub search_work_id: Option<u128>,
    /// Place of that work in the project's order.
    pub search_position: Option<i64>,
}

/// Locked work.
pub struct LockedWork {
    /// The work.
    pub work_id: u128,
    /// Its project.
    pub project_id: u128,
    /// Its build.
    pub build_id: u128,
    /// The part of the result.
    pub component: BuildResultComponent,
    /// How far it got.
    pub phase: String,
    /// The work that forgets the build in the index.
    pub search_work_id: Option<u128>,
    /// Place of that work in the project's order.
    pub search_position: Option<i64>,
}

/// Whether a locked row can be read.
pub open spec fn is_readable_work(row: LockedWorkRow) -> bool {
    is_identity(row.project_id) && is_identity(row.build_id) && is_component(row.resource_kind@)
}

/// Whether locked work is the one of a row.
pub open spec fn is_work_of(work: LockedWork, work_id: u128, row: LockedWorkRow) -> bool {
    &&& work.work_id == work_id
    &&& work.project_id == row.project_id
    &&& work.build_id == row.build_id
    &&& component_name_text(work.component) == row.resource_kind@
    &&& work.phase@ == row.phase@
    &&& work.search_work_id == row.search_work_id
    &&& work.search_position == row.search_position
}

/// Reads the work that a worker holds; there is none where the claim is not the worker's or has run out.
pub fn lock_work(work_id: u128, row: Option<LockedWorkRow>) -> (result: Result<LockedWork, StoreError>)
    ensures
        match row {
            None => result is Err && result->Err_0 == work_conflict(),
            Some(row) => match result {
                Ok(work) => is_readable_work(row) && is_work_of(work, work_id, row),
                Err(error) => error == StoreError::Unavailable && !is_readable_work(row),
            },
        },
{
    match row {
        None => Err(conflict()),
        Some(row) => {
            let project_id: u128 = identity(row.project_id)?;
            let build_id: u128 = identity(row.build_id)?;
            let part = component(row.resource_kind.as_str())?;
            assert(row.resource_kind@ == component_name_text(part));
            Ok(
                LockedWork {
                    work_id,
                    project_id,
                    build_id,
                    component: part,
                    phase: row.phase,
                    search_work_id: row.search_work_id,
                    search_position: row.search_position,
                },
            )
        },
    }
}

/// Whether work is still to be hidden.
pub fn must_hide(work: &LockedWork) -> (result: Result<bool, StoreError>)
    ensures
        result == (if is_phase(work.phase@) {
            Ok::<bool, StoreError>(work.phase@ == "pending"@)
        } else {
            Err(StoreError::Unavailable)
        }),
{
    let reached = phase(work.phase.as_str())?;
    proof {
        assert(work.phase@ == phase_name_text(reached));
        phase_name_text_names_one_value(reached, RetentionPhase::Pending);
    }
    Ok(reached == RetentionPhase::Pending)
}

/// The statement that hides a part of a build's result. Metadata is hidden with the build itself.
pub open spec fn hiding_statement(component: BuildResultComponent) -> Option<&'static str> {
    match component {
        BuildResultComponent::Metadata => None,
        BuildResultComponent::Logs => Some(
            "UPDATE builds SET logs_visible = false, logs_hidden_at = COALESCE(logs_hidden_at, to_timestamp($1::double precision / 1000.0)) WHERE id = $2",
        ),
        BuildResultComponent::Artifacts => Some(
            "UPDATE builds SET artifacts_visible = false, artifacts_hidden_at = COALESCE(artifacts_hidden_at, to_timestamp($1::double precision / 1000.0)) WHERE id = $2",
        ),
        BuildResultComponent::Reports => Some(
            "UPDATE builds SET reports_visible = false, reports_hidden_at = COALESCE(reports_hidden_at, to_timestamp($1::double precision / 1000.0)) WHERE id = $2",
        ),
    }
}

/// Picks the statement that hides a part of a build's result.
pub fn hide_build_component(component: BuildResultComponent) -> (result: Result<&'static str, StoreError>)
    ensures
        result == (match hiding_statement(component) {
            Some(sql) => Ok::<&'static str, StoreError>(sql),
            None => Err(StoreError::Unavailable),
        }),
{
    match component {
        BuildResultComponent::Logs => Ok(
            "UPDATE builds SET logs_visible = false, logs_hidden_at = COALESCE(logs_hidden_at, to_timestamp($1::double precision / 1000.0)) WHERE id = $2",
        ),
        BuildResultComponent::Artifacts => Ok(
            "UPDATE builds SET artifacts_visible = false, artifacts_hidden_at = COALESCE(artifacts_hidden_at, to_timestamp($1::double precision / 1000.0)) WHERE id = $2",
        ),
        BuildResultComponent::Reports => Ok(
            "UPDATE builds SET reports_visible = false, reports_hidden_at = COALESCE(reports_hidden_at, to_timestamp($1::double precision / 1000.0)) WHERE id = $2",
        ),
        BuildResultComponent::Metadata => Err(StoreError::Unavailable),
    }
}

/// Requires that hiding found the build.
pub fn require_hidden(updated_rows: u64) -> (result: Result<(), StoreError>)
    ensures
        result == (if updated_rows == 1 {
            Ok::<(), StoreError>(())
        } else {
            Err(StoreError::NotFound { entity: EntityKind::Build })
        }),
{
    if updated_rows != 1 {
        Err(StoreError::NotFound { entity: EntityKind::Build })
    } else {
        Ok(())
    }
}

/// The work that forgets a build in the index.
pub open spec fn search_work_of(build_id: u128) -> u128 {
    name_based_identity(build_id, utf8("retention:delete-build-logs"@))
}

/// The work that forgets the build in the index, and its place, once a part of the result is hidden: logs
/// get one where they have none, right behind the project's last place.
pub open spec fn allocation(
    component: BuildResultComponent,
    search_work_id: Option<u128>,
    build_id: u128,
    committed_through: i64,
) -> Result<Option<(u128, i64)>, StoreError> {
    if component != BuildResultComponent::Logs || search_work_id is Some {
        Ok(None)
    } else if committed_through == i64::MAX {
        Err(StoreError::Unavailable)
    } else {
        Ok(Some((search_work_of(build_id), (committed_through + 1) as i64)))
    }
}

/// Allots the work that forgets a build in the index, and its place behind the project's last place.
pub fn allocate_search_deletion(work: &LockedWork, committed_through: i64) -> (result: Result<
    Option<(u128, i64)>,
    StoreError,
>)
    ensures
        result == allocation(work.component, work.search_work_id, work.build_id, committed_through),
{
    if work.component != BuildResultComponent::Logs || work.search_work_id.is_some() {
        return Ok(None);
    }
    if committed_through == i64::MAX {
        return Err(StoreError::Unavailable);
    }
    let id: u128 = derive_identity(work.build_id, "retention:delete-build-logs".as_bytes());
    Ok(Some((id, committed_through + 1)))
}

/// Whether work is what hiding leaves of it.
pub open spec fn is_hidden_from(after: LockedWork, before: LockedWork, allocated: Option<(u128, i64)>) -> bool {
    &&& after.work_id == before.work_id
    &&& after.project_id == before.project_id
    &&& after.build_id == before.build_id
    &&& after.component == before.component
    &&& after.phase@ == "hidden"@
    &&& match allocated {
        Some((id, position)) => after.search_work_id == Some(id) && after.search_position == Some(position),
        None => after.search_work_id == before.search_work_id && after.search_position == before.search_position,
    }
}

/// The work once its part of the result is hidden.
pub fn hide_component(work: LockedWork, allocated: Option<(u128, i64)>) -> (hidden: LockedWork)
    ensures
        is_hidden_from(hidden, work, allocated),
{
    let (search_work_id, search_position) = match allocated {
        Some((id, position)) => (Some(id), Some(position)),
        None => (work.search_work_id, work.search_position),
    };
    LockedWork { phase: "hidden".to_owned(), search_work_id, search_position, ..work }
}

/// What to forget in the index.
#[derive(Clone, Copy, Debug, PartialEq, Eq, Structural)]
pub struct DeleteLogSearchDocuments {
    /// The work.
    pub work_id: u128,
    /// Its place in the project's order.
    pub position: u64,
    /// The project.
    pub project_id: u128,
    /// The build.
    pub build_id: u128,
}

/// Where the content to delete is listed.
#[derive(Clone, Copy, Debug, PartialEq, Eq, Structural)]
pub enum ObjectList {
    /// Nowhere: there is none, or it may not be deleted yet.
    Nothing,
    /// Among the chunks of the build's logs.
    LogChunks,
    /// Among the build's artifacts.
    Artifacts,
    /// Among the build's reports.
    Reports,
}

/// Where the content of a part of a result is listed.
pub open spec fn list_of(component: BuildResultComponent) -> ObjectList {
    match component {
        BuildResultComponent::Metadata => ObjectList::Nothing,
        BuildResultComponent::Logs => ObjectList::LogChunks,
        BuildResultComponent::Artifacts => ObjectList::Artifacts,
        BuildResultComponent::Reports => ObjectList::Reports,
    }
}

/// Where the content of a part of a result is listed.
pub fn retention_objects(component: BuildResultComponent) -> (list: ObjectList)
    ensures
        list == list_of(component),
{
    match component {
        BuildResultComponent::Metadata => ObjectList::Nothing,
        BuildResultComponent::Logs => ObjectList::LogChunks,
        BuildResultComponent::Artifacts => ObjectList::Artifacts,
        BuildResultComponent::Reports => ObjectList::Reports,
    }
}

/// What is to be done next for work.
#[derive(Clone, Copy, Debug, PartialEq, Eq, Structural)]
pub struct RetentionPlan {
    /// What to forget in the index first.
    pub search_deletion: Option<DeleteLogSearchDocuments>,
    /// Where the content to delete is listed.
    pub objects: ObjectList,
}

/// Whether the index must forget the build before any content is deleted.
pub open spec fn owes_search_deletion(component: BuildResultComponent, phase: Seq<char>) -> bool {
    component == BuildResultComponent::Logs && phase == "hidden"@
}

/// Whether a search deletion can be read.
pub open spec fn is_search_deletion(search: (Option<u128>, Option<i64>)) -> bool {
    search.0 is Some && is_identity(search.0->Some_0) && search.1 is Some && is_version(search.1->Some_0)
}

/// What is to be done next for locked work.
pub open spec fn work_plan(work: LockedWork) -> Result<RetentionPlan, StoreError> {
    planned(
        work.component,
        work.phase@,
        (work.search_work_id, work.search_position),
        work.project_id,
        work.build_id,
    )
}

/// What is to be done next for work on a part of a result that is hidden, as far as it got. `search` is the work that
/// forgets the build in the index, and its place.
pub open spec fn planned(
    component: BuildResultComponent,
    phase: Seq<char>,
    search: (Option<u128>, Option<i64>),
    project_id: u128,
    build_id: u128,
) -> Result<RetentionPlan, StoreError> {
    if !is_phase(phase) || owes_search_deletion(component, phase) && !is_search_deletion(search) {
        Err(StoreError::Unavailable)
    } else {
        Ok(
            RetentionPlan {
                search_deletion: if owes_search_deletion(component, phase) {
                    Some(
                        DeleteLogSearchDocuments {
                            work_id: search.0->Some_0,
                            position: search.1->Some_0 as u64,
                            project_id,
                            build_id,
                        },
                    )
                } else {
                    None
                },
                objects: if component == BuildResultComponent::Logs && phase != "search_deleted"@ {
                    ObjectList::Nothing
                } else {
                    list_of(component)
                },
            },
        )
    }
}

/// Decides what is to be done next: the index forgets a build's logs before their content is deleted.
pub fn plan(work: &LockedWork) -> (result: Result<RetentionPlan, StoreError>)
    ensures
        result == work_plan(*work),
{
    let reached = phase(work.phase.as_str())?;
    proof {
        assert(work.phase@ == phase_name_text(reached));
        phase_name_text_names_one_value(reached, RetentionPhase::Hidden);
        phase_name_text_names_one_value(reached, RetentionPhase::SearchDeleted);
    }
    let is_log = work.component == BuildResultComponent::Logs;
    let search_deletion: Option<DeleteLogSearchDocuments> = if is_log && reached == RetentionPhase::Hidden {
        let work_id: u128 = match work.search_work_id {
            Some(id) => identity(id)?,
            None => {
                return Err(StoreError::Unavailable);
            },
        };
        let position: u64 = log_position(work.search_position)?;
        Some(DeleteLogSearchDocuments { work_id, position, project_id: work.project_id, build_id: work.build_id })
    } else {
        None
    };
    let objects = if is_log && reached != RetentionPhase::SearchDeleted {
        ObjectList::Nothing
    } else {
        retention_objects(work.component)
    };
    Ok(RetentionPlan { search_deletion, objects })
}

/// The part of the result that a readable text names.
pub open spec fn component_in(text: Seq<char>) -> BuildResultComponent {
    choose|component: BuildResultComponent| text == #[trigger] component_name_text(component)
}

/// What preparing work comes to: what is to be done next, and the work that forgets the build in the index where it
/// was allotted now. `hidden_rows` is what hiding the part of the result wrote, where it was not hidden yet, and
/// `committed_through` the project's last place.
pub open spec fn preparation(
    validated: Result<(), StoreError>,
    row: Option<LockedWorkRow>,
    hidden_rows: u64,
    committed_through: i64,
) -> Result<(RetentionPlan, Option<(u128, i64)>), StoreError> {
    match (validated, row) {
        (Err(error), _) => Err(error),
        (Ok(()), None) => Err(work_conflict()),
        (Ok(()), Some(row)) => {
            let component = component_in(row.resource_kind@);
            if !is_readable_work(row) || !is_phase(row.phase@) {
                Err(StoreError::Unavailable)
            } else if row.phase@ != "pending"@ {
                match planned(
                    component,
                    row.phase@,
                    (row.search_work_id, row.search_position),
                    row.project_id,
                    row.build_id,
                ) {
                    Err(error) => Err(error),
                    Ok(plan) => Ok((plan, None)),
                }
            } else if component != BuildResultComponent::Metadata && hidden_rows != 1 {
                Err(StoreError::NotFound { entity: EntityKind::Build })
            } else {
                match allocation(component, row.search_work_id, row.build_id, committed_through) {
                    Err(error) => Err(error),
                    Ok(allocated) => {
                        let search = match allocated {
                            Some((id, position)) => (Some(id), Some(position)),
                            None => (row.search_work_id, row.search_position),
                        };
                        match planned(component, "hidden"@, search, row.project_id, row.build_id) {
                            Err(error) => Err(error),
                            Ok(plan) => Ok((plan, allocated)),
                        }
                    },
                }
            }
        },
    }
}

/// Prepares work: a part of the result that is not hidden yet is hidden first. `validated` is the verdict on the
/// request by itself.
pub fn prepare(
    validated: Result<(), StoreError>,
    work_id: u128,
    row: Option<LockedWorkRow>,
    hidden_rows: u64,
    committed_through: i64,
) -> (result: Result<(RetentionPlan, Option<(u128, i64)>), StoreError>)
    ensures
        result == preparation(validated, row, hidden_rows, committed_through),
{
    match validated {
        Ok(()) => {},
        Err(error) => {
            return Err(error);
        },
    }
    let work = match lock_work(work_id, row) {
        Ok(work) => work,
        Err(error) => {
            return Err(error);
        },
    };
    proof {
        component_name_text_names_one_value(work.component, component_in(row->Some_0.resource_kind@));
    }
    let pending = match must_hide(&work) {
        Ok(pending) => pending,
        Err(error) => {
            return Err(error);
        },
    };
    if !pending {
        return match plan(&work) {
            Ok(plan) => Ok((plan, None)),
            Err(error) => Err(error),
        };
    }
    if work.component != BuildResultComponent::Metadata {
        match require_hidden(hidden_rows) {
            Ok(()) => {},
            Err(error) => {
                return Err(error);
            },
        }
    }
    let allocated = match allocate_search_deletion(&work, committed_through) {
        Ok(allocated) => allocated,
        Err(error) => {
            return Err(error);
        },
    };
    let hidden = hide_component(work, allocated);
    match plan(&hidden) {
        Ok(plan) => Ok((plan, allocated)),
        Err(error) => Err(error),
    }
}

/// Reads a place in a project's order.
pub fn log_position(value: Option<i64>) -> (result: Result<u64, StoreError>)
    ensures
        match result {
            Ok(position) => value is Some && is_version(value->Some_0) && position == value->Some_0,
            Err(error) => error == StoreError::Unavailable && !(value is Some && is_version(value->Some_0)),
        },
{
    match value {
        Some(position) => if position > 0 {
            Ok(position as u64)
        } else {
            Err(StoreError::Unavailable)
        },
        None => Err(StoreError::Unavailable),
    }
}

/// What completing the search deletion of work comes to: the work in the index and its place where that is
/// to be recorded, nothing where it was recorded before.
pub open spec fn search_completion(work: LockedWork) -> Result<Option<(u128, i64)>, StoreError> {
    if work.component != BuildResultComponent::Logs {
        Err(work_conflict())
    } else if !is_phase(work.phase@) {
        Err(StoreError::Unavailable)
    } else if work.phase@ != "hidden"@ {
        Ok(None)
    } else {
        match (work.search_work_id, work.search_position) {
            (Some(id), Some(position)) => Ok(Some((id, position))),
            _ => Err(StoreError::Unavailable),
        }
    }
}

/// Decides the completion of a search deletion.
pub fn complete_search(work: &LockedWork) -> (result: Result<Option<(u128, i64)>, StoreError>)
    ensures
        result == search_completion(*work),
{
    if work.component != BuildResultComponent::Logs {
        return Err(conflict());
    }
    let reached = phase(work.phase.as_str())?;
    proof {
        assert(work.phase@ == phase_name_text(reached));
        phase_name_text_names_one_value(reached, RetentionPhase::Hidden);
    }
    if reached != RetentionPhase::Hidden {
        return Ok(None);
    }
    match (work.search_work_id, work.search_position) {
        (Some(id), Some(position)) => Ok(Some((id, position))),
        _ => Err(StoreError::Unavailable),
    }
}

/// Content that was deleted.
#[derive(Clone, Copy, Debug, PartialEq, Eq, Structural)]
pub enum RetentionObjectIdentity {
    /// A chunk of a log.
    Log(u128),
    /// An artifact or a report.
    Output(u128),
}

/// Whether content belongs to the part of the result that is worked on.
pub open spec fn belongs_to(object: RetentionObjectIdentity, component: BuildResultComponent) -> bool {
    match object {
        RetentionObjectIdentity::Log(_) => component == BuildResultComponent::Logs,
        RetentionObjectIdentity::Output(_) => component == BuildResultComponent::Artifacts || component
            == BuildResultComponent::Reports,
    }
}

/// Requires that content belongs to the part of the result that is worked on.
pub fn require_object(work: &LockedWork, object: RetentionObjectIdentity) -> (result: Result<(), StoreError>)
    ensures
        result == (if belongs_to(object, work.component) {
            Ok::<(), StoreError>(())
        } else {
            Err(work_conflict())
        }),
{
    match (work.component, object) {
        (BuildResultComponent::Logs, RetentionObjectIdentity::Log(_)) => Ok(()),
        (BuildResultComponent::Artifacts, RetentionObjectIdentity::Output(_)) => Ok(()),
        (BuildResultComponent::Reports, RetentionObjectIdentity::Output(_)) => Ok(()),
        _ => Err(conflict()),
    }
}

/// What completing the deletion of a chunk comes to: `updated_rows` is what the record wrote, and `deleted`
/// whether the chunk, where there is one, was deleted before.
pub open spec fn chunk_completion(updated_rows: u64, deleted: Option<bool>) -> Result<(), StoreError> {
    if updated_rows != 0 {
        Ok(())
    } else {
        match deleted {
            None => Err(StoreError::NotFound { entity: EntityKind::LogChunk }),
            Some(true) => Ok(()),
            Some(false) => Err(work_conflict()),
        }
    }
}

/// Decides the completion of the deletion of a chunk.
pub fn complete_chunk(updated_rows: u64, deleted: Option<bool>) -> (result: Result<(), StoreError>)
    ensures
        result == chunk_completion(updated_rows, deleted),
{
    if updated_rows != 0 {
        return Ok(());
    }
    match deleted {
        None => Err(StoreError::NotFound { entity: EntityKind::LogChunk }),
        Some(true) => Ok(()),
        Some(false) => Err(conflict()),
    }
}

/// What a pass over work came to.
#[derive(Clone, Copy, Debug, PartialEq, Eq, Structural)]
pub enum RetentionPassOutcome {
    /// Everything is deleted.
    Completed,
    /// Something is left for another pass.
    Pending,
}

/// What a pass over work came to, where content may remain.
pub open spec fn pass_outcome(work: LockedWork, remaining: bool) -> Result<RetentionPassOutcome, StoreError> {
    if work.component == BuildResultComponent::Logs && !is_phase(work.phase@) {
        Err(StoreError::Unavailable)
    } else if (work.component != BuildResultComponent::Logs || work.phase@ == "search_deleted"@) && !remaining {
        Ok(RetentionPassOutcome::Completed)
    } else {
        Ok(RetentionPassOutcome::Pending)
    }
}

/// Decides what a pass over work came to.
pub fn finish_pass(work: &LockedWork, remaining: bool) -> (result: Result<RetentionPassOutcome, StoreError>)
    ensures
        result == pass_outcome(*work, remaining),
{
    let search_ready = if work.component != BuildResultComponent::Logs {
        true
    } else {
        let reached = phase(work.phase.as_str())?;
        proof {
            assert(work.phase@ == phase_name_text(reached));
            phase_name_text_names_one_value(reached, RetentionPhase::SearchDeleted);
        }
        reached == RetentionPhase::SearchDeleted
    };
    if search_ready && !remaining {
        Ok(RetentionPassOutcome::Completed)
    } else {
        Ok(RetentionPassOutcome::Pending)
    }
}

/// The kind under which the remaining content of a part of a result is stored: none for metadata, which has
/// no content, and for logs, which are stored apart.
pub fn remaining_objects(component: BuildResultComponent) -> (kind: Option<&'static str>)
    ensures
        kind == (match component {
            BuildResultComponent::Artifacts => Some("artifact"),
            BuildResultComponent::Reports => Some("report"),
            _ => None,
        }),
{
    match component {
        BuildResultComponent::Artifacts => Some("artifact"),
        BuildResultComponent::Reports => Some("report"),
        BuildResultComponent::Metadata | BuildResultComponent::Logs => None,
    }
}

/// The content of logs is neither listed for deletion nor done with before the index has forgotten the
/// build.
pub proof fn search_goes_before_content(work: LockedWork, remaining: bool)
    requires
        work.component == BuildResultComponent::Logs,
        work.phase@ != "search_deleted"@,
    ensures
        work_plan(work) matches Ok(plan) ==> plan.objects == ObjectList::Nothing,
        pass_outcome(work, remaining) != Ok::<RetentionPassOutcome, StoreError>(RetentionPassOutcome::Completed),
{
}

/// Work is done with exactly where nothing remains to be deleted, and for logs only once the index has forgotten the
/// build. Work of any part of a result that leaves content behind is left for another pass.
pub proof fn work_is_completed_where_nothing_remains(work: LockedWork, remaining: bool)
    ensures
        pass_outcome(work, remaining) == Ok::<RetentionPassOutcome, StoreError>(RetentionPassOutcome::Completed) <==>
            !remaining && (work.component == BuildResultComponent::Logs ==> work.phase@ == "search_deleted"@),
        remaining && work.component != BuildResultComponent::Logs ==> pass_outcome(work, remaining) == Ok::<
            RetentionPassOutcome,
            StoreError,
        >(RetentionPassOutcome::Pending),
        work.component == BuildResultComponent::Logs && (work.phase@ == "pending"@ || work.phase@ == "hidden"@
            || work.phase@ == "bytes_deleted"@ || work.phase@ == "dead_letter"@ || (work.phase@ == "search_deleted"@
            && remaining)) ==> pass_outcome(work, remaining) == Ok::<RetentionPassOutcome, StoreError>(
            RetentionPassOutcome::Pending,
        ),
{
    phases_are_named();
}

/// Each phase is stored under its name.
pub proof fn phases_are_named()
    ensures
        is_phase("pending"@) && is_phase("hidden"@) && is_phase("search_deleted"@) && is_phase("bytes_deleted"@)
            && is_phase("dead_letter"@),
        "pending"@ != "search_deleted"@ && "hidden"@ != "search_deleted"@ && "bytes_deleted"@ != "search_deleted"@
            && "dead_letter"@ != "search_deleted"@,
        "pending"@ != "hidden"@,
{
    assert("pending"@ == phase_name_text(RetentionPhase::Pending));
    assert("hidden"@ == phase_name_text(RetentionPhase::Hidden));
    assert("search_deleted"@ == phase_name_text(RetentionPhase::SearchDeleted));
    assert("bytes_deleted"@ == phase_name_text(RetentionPhase::BytesDeleted));
    assert("dead_letter"@ == phase_name_text(RetentionPhase::DeadLetter));
    phase_name_text_names_one_value(RetentionPhase::Pending, RetentionPhase::SearchDeleted);
    phase_name_text_names_one_value(RetentionPhase::Hidden, RetentionPhase::SearchDeleted);
    phase_name_text_names_one_value(RetentionPhase::BytesDeleted, RetentionPhase::SearchDeleted);
    phase_name_text_names_one_value(RetentionPhase::DeadLetter, RetentionPhase::SearchDeleted);
    phase_name_text_names_one_value(RetentionPhase::Pending, RetentionPhase::Hidden);
}

/// What is to be done next for each part of a result: artifacts and reports are listed for deletion among the
/// build's own, logs among the chunks once the index has forgotten the build, and metadata has no content. Only
/// hidden logs are still to be forgotten in the index, in the place that was allotted for it.
pub proof fn each_part_is_deleted_from_its_own_list(work: LockedWork)
    requires
        work.phase@ == "hidden"@ || work.phase@ == "search_deleted"@,
        work.component == BuildResultComponent::Logs && work.phase@ == "hidden"@ ==> work.search_work_id is Some
            && is_identity(work.search_work_id->Some_0) && work.search_position is Some && work.search_position->Some_0
            > 0,
    ensures
        work_plan(work) matches Ok(plan) && plan.objects == (match work.component {
            BuildResultComponent::Metadata => ObjectList::Nothing,
            BuildResultComponent::Artifacts => ObjectList::Artifacts,
            BuildResultComponent::Reports => ObjectList::Reports,
            BuildResultComponent::Logs => if work.phase@ == "search_deleted"@ {
                ObjectList::LogChunks
            } else {
                ObjectList::Nothing
            },
        }) && (plan.search_deletion is Some <==> work.component == BuildResultComponent::Logs && work.phase@
            == "hidden"@) && (plan.search_deletion matches Some(deletion) ==> deletion.work_id
            == work.search_work_id->Some_0 && deletion.position == work.search_position->Some_0 && deletion.project_id
            == work.project_id && deletion.build_id == work.build_id),
{
    phases_are_named();
}

/// Every part of a result that is pending is hidden first, and nothing of it is listed for deletion unless hiding
/// found the build. Logs are forgotten in the index behind everything the project has committed.
pub proof fn parts_are_hidden_before_they_are_deleted(
    row: LockedWorkRow,
    hidden_rows: u64,
    committed_through: i64,
)
    requires
        row.phase@ == "pending"@,
        is_identity(row.project_id),
        is_identity(row.build_id),
        row.resource_kind@ == "logs"@ || row.resource_kind@ == "artifacts"@ || row.resource_kind@ == "reports"@,
    ensures
        hidden_rows != 1 ==> preparation(Ok(()), Some(row), hidden_rows, committed_through) == Err::<
            (RetentionPlan, Option<(u128, i64)>),
            StoreError,
        >(StoreError::NotFound { entity: EntityKind::Build }),
        hidden_rows == 1 && row.resource_kind@ == "artifacts"@ ==> preparation(
            Ok(()),
            Some(row),
            hidden_rows,
            committed_through,
        ) == Ok::<(RetentionPlan, Option<(u128, i64)>), StoreError>(
            (RetentionPlan { search_deletion: None, objects: ObjectList::Artifacts }, None),
        ),
        hidden_rows == 1 && row.resource_kind@ == "reports"@ ==> preparation(
            Ok(()),
            Some(row),
            hidden_rows,
            committed_through,
        ) == Ok::<(RetentionPlan, Option<(u128, i64)>), StoreError>(
            (RetentionPlan { search_deletion: None, objects: ObjectList::Reports }, None),
        ),
        hidden_rows == 1 && row.resource_kind@ == "logs"@ && row.search_work_id is None && 0 <= committed_through
            < i64::MAX && is_identity(name_based_identity(row.build_id, utf8("retention:delete-build-logs"@)))
            ==> preparation(Ok(()), Some(row), hidden_rows, committed_through) == Ok::<
            (RetentionPlan, Option<(u128, i64)>),
            StoreError,
        >(
            (
                RetentionPlan {
                    search_deletion: Some(
                        DeleteLogSearchDocuments {
                            work_id: name_based_identity(row.build_id, utf8("retention:delete-build-logs"@)),
                            position: (committed_through + 1) as u64,
                            project_id: row.project_id,
                            build_id: row.build_id,
                        },
                    ),
                    objects: ObjectList::Nothing,
                },
                Some(
                    (
                        name_based_identity(row.build_id, utf8("retention:delete-build-logs"@)),
                        (committed_through + 1) as i64,
                    ),
                ),
            ),
        ),
{
    phases_are_named();
    let named = component_in(row.resource_kind@);
    assert("logs"@ == component_name_text(BuildResultComponent::Logs));
    assert("artifacts"@ == component_name_text(BuildResultComponent::Artifacts));
    assert("reports"@ == component_name_text(BuildResultComponent::Reports));
    component_name_text_names_one_value(named, BuildResultComponent::Logs);
    component_name_text_names_one_value(named, BuildResultComponent::Artifacts);
    component_name_text_names_one_value(named, BuildResultComponent::Reports);
}

/// A chunk of a log is deleted only for logs, and an artifact or a report only for those: content of another part
/// of a result is never taken for deleted.
pub proof fn content_is_deleted_for_its_own_part(id: u128, component: BuildResultComponent)
    ensures
        belongs_to(RetentionObjectIdentity::Log(id), component) <==> component == BuildResultComponent::Logs,
        belongs_to(RetentionObjectIdentity::Output(id), component) <==> component == BuildResultComponent::Artifacts
            || component == BuildResultComponent::Reports,
{
}

/// Whether a chunk counts as deleted: the record was written now, or it says so already.
pub proof fn chunks_are_deleted_once(updated_rows: u64, deleted: Option<bool>)
    ensures
        chunk_completion(updated_rows, deleted) is Ok <==> updated_rows > 0 || deleted == Some(true),
        updated_rows == 0 && deleted is None ==> chunk_completion(updated_rows, deleted) == Err::<(), StoreError>(
            StoreError::NotFound { entity: EntityKind::LogChunk },
        ),
        updated_rows == 0 && deleted == Some(false) ==> chunk_completion(updated_rows, deleted) == Err::<(), StoreError>(
            StoreError::Conflict { entity: EntityKind::RetentionWork },
        ),
{
}

/// Only logs are forgotten in the index, once: hidden logs with work for it report that work, and logs that are
/// past it report nothing.
pub proof fn the_index_forgets_logs_once(work: LockedWork)
    ensures
        work.component != BuildResultComponent::Logs ==> search_completion(work) == Err::<
            Option<(u128, i64)>,
            StoreError,
        >(StoreError::Conflict { entity: EntityKind::RetentionWork }),
        work.component == BuildResultComponent::Logs && work.phase@ == "search_deleted"@ ==> search_completion(work)
            == Ok::<Option<(u128, i64)>, StoreError>(None),
        work.component == BuildResultComponent::Logs && work.phase@ == "hidden"@ && work.search_work_id is Some
            && work.search_position is Some ==> search_completion(work) == Ok::<Option<(u128, i64)>, StoreError>(
            Some((work.search_work_id->Some_0, work.search_position->Some_0)),
        ),
{
    phases_are_named();
}

/// A failure is recorded where the record was written, or where the same failure of the same worker is on record
/// already; a failure that is not tried again counts only for work that was given up.
pub proof fn failures_are_recorded_once(
    updated_rows: u64,
    left: Option<FailureReplayRow>,
    owner: Seq<char>,
    error_code: Seq<char>,
    failed_at: i64,
    retry_at: Option<i64>,
)
    ensures
        failure(updated_rows, left, failed_phase(retry_at), owner, error_code, failed_at, retry_at) is Ok <==> updated_rows
            == 1 || (left is Some && (retry_at is None ==> left->Some_0.state@ == "dead_letter"@) && left->Some_0.owner
            is Some && left->Some_0.owner->Some_0@ == owner && left->Some_0.error_code is Some
            && left->Some_0.error_code->Some_0@ == error_code && left->Some_0.failed_at_millis == Some(failed_at)
            && left->Some_0.retry_at_millis == retry_at),
        failure(updated_rows, left, failed_phase(retry_at), owner, error_code, failed_at, retry_at) matches Err(error)
            ==> error == (StoreError::Conflict { entity: EntityKind::RetentionWork }),
{
}

/// Logs that were hidden, with work allotted for the index, have that work to do next, and completing it is
/// in order.
pub proof fn hidden_logs_are_forgotten(before: LockedWork, after: LockedWork, committed_through: i64)
    requires
        before.component == BuildResultComponent::Logs,
        before.search_work_id is None,
        0 <= committed_through < i64::MAX,
        allocation(before.component, before.search_work_id, before.build_id, committed_through) matches Ok(allocated)
            && is_hidden_from(after, before, allocated),
    ensures
        is_identity(search_work_of(before.build_id)) ==> work_plan(after) == Ok::<RetentionPlan, StoreError>(
            RetentionPlan {
                search_deletion: Some(
                    DeleteLogSearchDocuments {
                        work_id: search_work_of(before.build_id),
                        position: (committed_through + 1) as u64,
                        project_id: before.project_id,
                        build_id: before.build_id,
                    },
                ),
                objects: ObjectList::Nothing,
            },
        ),
        search_completion(after) == Ok::<Option<(u128, i64)>, StoreError>(
            Some((search_work_of(before.build_id), (committed_through + 1) as i64)),
        ),
{
    assert(after.phase@ == phase_name_text(RetentionPhase::Hidden));
    phase_name_text_names_one_value(RetentionPhase::Hidden, RetentionPhase::SearchDeleted);
}

/// Each part of a result is stored under its own name.
pub proof fn parts_of_results_are_stored_by_name()
    ensures
        component_name_text(BuildResultComponent::Metadata) == "metadata"@,
        component_name_text(BuildResultComponent::Logs) == "logs"@,
        component_name_text(BuildResultComponent::Artifacts) == "artifacts"@,
        component_name_text(BuildResultComponent::Reports) == "reports"@,
{
}

/// Each phase is stored under its own name.
pub proof fn phases_are_stored_by_name()
    ensures
        phase_name_text(RetentionPhase::Pending) == "pending"@,
        phase_name_text(RetentionPhase::Hidden) == "hidden"@,
        phase_name_text(RetentionPhase::SearchDeleted) == "search_deleted"@,
        phase_name_text(RetentionPhase::BytesDeleted) == "bytes_deleted"@,
        phase_name_text(RetentionPhase::DeadLetter) == "dead_letter"@,
{
}

/// The statement that hides a part of a result hides that part.
pub proof fn statements_hide_their_part()
    ensures
        hiding_statement(BuildResultComponent::Logs) matches Some(sql) && sql@.len() > 38 && sql@.subrange(0, 38)
            == "UPDATE builds SET logs_visible = false"@,
        hiding_statement(BuildResultComponent::Artifacts) matches Some(sql) && sql@.len() > 43 && sql@.subrange(0, 43)
            == "UPDATE builds SET artifacts_visible = false"@,
        hiding_statement(BuildResultComponent::Reports) matches Some(sql) && sql@.len() > 41 && sql@.subrange(0, 41)
            == "UPDATE builds SET reports_visible = false"@,
        hiding_statement(BuildResultComponent::Metadata) is None,
{
    reveal_strlit(
        "UPDATE builds SET logs_visible = false, logs_hidden_at = COALESCE(logs_hidden_at, to_timestamp($1::double precision / 1000.0)) WHERE id = $2",
    );
    reveal_strlit(
        "UPDATE builds SET artifacts_visible = false, artifacts_hidden_at = COALESCE(artifacts_hidden_at, to_timestamp($1::double precision / 1000.0)) WHERE id = $2",
    );
    reveal_strlit(
        "UPDATE builds SET reports_visible = false, reports_hidden_at = COALESCE(reports_hidden_at, to_timestamp($1::double precision / 1000.0)) WHERE id = $2",
    );
    reveal_strlit("UPDATE builds SET logs_visible = false");
    reveal_strlit("UPDATE builds SET artifacts_visible = false");
    reveal_strlit("UPDATE builds SET reports_visible = false");
    assert(hiding_statement(BuildResultComponent::Logs)->Some_0@.subrange(0, 38)
        =~= "UPDATE builds SET logs_visible = false"@);
    assert(hiding_statement(BuildResultComponent::Artifacts)->Some_0@.subrange(0, 43)
        =~= "UPDATE builds SET artifacts_visible = false"@);
    assert(hiding_statement(BuildResultComponent::Reports)->Some_0@.subrange(0, 41)
        =~= "UPDATE builds SET reports_visible = false"@);
}

/// Work that is past hiding is gone on with where it stands: nothing is hidden or allotted again. Metadata is hidden
/// with its build and has no content, so nothing is left to do for it. Without the work's claim nothing is prepared.
pub proof fn prepared_work_is_gone_on_with(
    row: LockedWorkRow,
    refusal: StoreError,
    hidden_rows: u64,
    committed_through: i64,
)
    requires
        row.project_id != 0,
        row.build_id != 0,
    ensures
        preparation(Err(refusal), Some(row), hidden_rows, committed_through) == Err::<
            (RetentionPlan, Option<(u128, i64)>),
            StoreError,
        >(refusal),
        preparation(Ok(()), None, hidden_rows, committed_through) == Err::<
            (RetentionPlan, Option<(u128, i64)>),
            StoreError,
        >(StoreError::Conflict { entity: EntityKind::RetentionWork }),
        row.phase@ == "hidden"@ && row.resource_kind@ == "artifacts"@ ==> preparation(
            Ok(()),
            Some(row),
            hidden_rows,
            committed_through,
        ) == Ok::<(RetentionPlan, Option<(u128, i64)>), StoreError>(
            (RetentionPlan { search_deletion: None, objects: ObjectList::Artifacts }, None),
        ),
        row.phase@ == "hidden"@ && row.resource_kind@ == "reports"@ ==> preparation(
            Ok(()),
            Some(row),
            hidden_rows,
            committed_through,
        ) == Ok::<(RetentionPlan, Option<(u128, i64)>), StoreError>(
            (RetentionPlan { search_deletion: None, objects: ObjectList::Reports }, None),
        ),
        row.phase@ == "search_deleted"@ && row.resource_kind@ == "logs"@ ==> preparation(
            Ok(()),
            Some(row),
            hidden_rows,
            committed_through,
        ) == Ok::<(RetentionPlan, Option<(u128, i64)>), StoreError>(
            (RetentionPlan { search_deletion: None, objects: ObjectList::LogChunks }, None),
        ),
        row.phase@ == "hidden"@ && row.resource_kind@ == "logs"@ && row.search_work_id is Some && row.search_work_id->Some_0
            != 0 && row.search_position is Some && row.search_position->Some_0 > 0 ==> preparation(
            Ok(()),
            Some(row),
            hidden_rows,
            committed_through,
        ) == Ok::<(RetentionPlan, Option<(u128, i64)>), StoreError>(
            (
                RetentionPlan {
                    search_deletion: Some(
                        DeleteLogSearchDocuments {
                            work_id: row.search_work_id->Some_0,
                            position: row.search_position->Some_0 as u64,
                            project_id: row.project_id,
                            build_id: row.build_id,
                        },
                    ),
                    objects: ObjectList::Nothing,
                },
                None,
            ),
        ),
        (row.phase@ == "pending"@ || row.phase@ == "hidden"@) && row.resource_kind@ == "metadata"@ ==> preparation(
            Ok(()),
            Some(row),
            hidden_rows,
            committed_through,
        ) == Ok::<(RetentionPlan, Option<(u128, i64)>), StoreError>(
            (RetentionPlan { search_deletion: None, objects: ObjectList::Nothing }, None),
        ),
{
    phases_are_named();
    let named = component_in(row.resource_kind@);
    assert("logs"@ == component_name_text(BuildResultComponent::Logs));
    assert("artifacts"@ == component_name_text(BuildResultComponent::Artifacts));
    assert("reports"@ == component_name_text(BuildResultComponent::Reports));
    assert("metadata"@ == component_name_text(BuildResultComponent::Metadata));
    component_name_text_names_one_value(named, BuildResultComponent::Logs);
    component_name_text_names_one_value(named, BuildResultComponent::Artifacts);
    component_name_text_names_one_value(named, BuildResultComponent::Reports);
    component_name_text_names_one_value(named, BuildResultComponent::Metadata);
}

/// Work is claimed exactly where its row can be read and its worker is one; the claim is that worker's, on that part of
/// that build's result.
pub proof fn readable_work_is_claimed(claim: RetentionWorkClaim, row: ClaimRow)
    ensures
        claim_refusal(row) is None <==> row.id != 0 && row.project_id != 0 && row.build_id != 0 && is_component(
            row.resource_kind@,
        ) && row.deadline_millis >= 0 && is_phase(row.phase@) && 0 <= row.attempt_count <= 0xffff && row.claim_owner
            is Some && row.owner_verdict is Ok && row.claim_expires_at_millis is Some
            && row.claim_expires_at_millis->Some_0 >= 0,
        is_claim_of(claim, row) ==> claim.work_id == row.id && claim.project_id == row.project_id && claim.build_id
            == row.build_id && component_name_text(claim.component) == row.resource_kind@ && phase_name_text(claim.phase)
            == row.phase@ && claim.deadline == row.deadline_millis && claim.attempt == row.attempt_count
            && row.claim_owner is Some && claim.owner@ == row.claim_owner->Some_0@ && row.claim_expires_at_millis
            == Some(claim.claim_expires_at),
{
}

/// Locked work is that of its row, and hiding changes its phase alone, but for the work that was allotted to forget
/// the build in the index.
pub proof fn hiding_changes_the_phase_alone(
    after: LockedWork,
    before: LockedWork,
    work_id: u128,
    row: LockedWorkRow,
    allotted: Option<(u128, i64)>,
)
    ensures
        is_work_of(before, work_id, row) ==> before.work_id == work_id && before.project_id == row.project_id
            && before.build_id == row.build_id && component_name_text(before.component) == row.resource_kind@
            && before.phase@ == row.phase@ && before.search_work_id == row.search_work_id && before.search_position
            == row.search_position,
        is_hidden_from(after, before, allotted) ==> after.work_id == before.work_id && after.project_id
            == before.project_id && after.build_id == before.build_id && after.component == before.component
            && after.phase@ == "hidden"@ && (allotted is None ==> after.search_work_id == before.search_work_id
            && after.search_position == before.search_position) && (allotted matches Some((id, position))
            ==> after.search_work_id == Some(id) && after.search_position == Some(position)),
{
}

/// Whether the report of a failure makes sense: its code is one word that is not too long, and another try comes
/// later.
pub proof fn failures_are_reported_by_a_code(code: Seq<char>, maximum_bytes: usize, failed_at: i64, retry_at: Option<i64>)
    ensures
        is_failure(code, maximum_bytes, failed_at, retry_at) <==> code.len() > 0 && utf8(code).len() <= maximum_bytes && (
        forall|i: int| 0 <= i < code.len() ==> !is_white_space(#[trigger] code[i])) && (retry_at is None || failed_at
            < retry_at->Some_0),
{
}

/// The phases and the parts of a result are known by their names, and nothing else is one.
pub proof fn phases_and_parts_are_known_by_name(text: Seq<char>)
    ensures
        is_phase(text) <==> text == "pending"@ || text == "hidden"@ || text == "search_deleted"@ || text
            == "bytes_deleted"@ || text == "dead_letter"@,
        is_component(text) <==> text == "metadata"@ || text == "logs"@ || text == "artifacts"@ || text == "reports"@,
{
    assert(phase_name_text(RetentionPhase::Pending) == "pending"@);
    assert(phase_name_text(RetentionPhase::Hidden) == "hidden"@);
    assert(phase_name_text(RetentionPhase::SearchDeleted) == "search_deleted"@);
    assert(phase_name_text(RetentionPhase::BytesDeleted) == "bytes_deleted"@);
    assert(phase_name_text(RetentionPhase::DeadLetter) == "dead_letter"@);
    assert(component_name_text(BuildResultComponent::Metadata) == "metadata"@);
    assert(component_name_text(BuildResultComponent::Logs) == "logs"@);
    assert(component_name_text(BuildResultComponent::Artifacts) == "artifacts"@);
    assert(component_name_text(BuildResultComponent::Reports) == "reports"@);
}

/// Work is read exactly from a row that names a project, a build and a known part of its result. What cannot be read
/// is reported as unavailable: the work itself, its phase, its claim, or the place of its deletion in the index.
pub proof fn damaged_work_is_unavailable(
    row: LockedWorkRow,
    claim: ClaimRow,
    work: LockedWork,
    hidden_rows: u64,
    committed_through: i64,
)
    ensures
        is_readable_work(row) <==> row.project_id != 0 && row.build_id != 0 && is_component(row.resource_kind@),
        is_readable_claim(claim) <==> claim.id != 0 && claim.project_id != 0 && claim.build_id != 0 && is_component(
            claim.resource_kind@,
        ) && claim.deadline_millis >= 0 && is_phase(claim.phase@) && 0 <= claim.attempt_count <= 0xffff
            && claim.claim_owner is Some,
        row.project_id == 0 || row.build_id == 0 || !is_component(row.resource_kind@) || !is_phase(row.phase@)
            ==> preparation(Ok(()), Some(row), hidden_rows, committed_through) == Err::<
            (RetentionPlan, Option<(u128, i64)>),
            StoreError,
        >(StoreError::Unavailable),
        !is_readable_claim(claim) ==> claim_refusal(claim) == Some(StoreError::Unavailable),
        is_readable_claim(claim) && claim.owner_verdict is Ok ==> claim_refusal(claim) == (
        if claim.claim_expires_at_millis is Some && claim.claim_expires_at_millis->Some_0 >= 0 {
            None
        } else {
            Some(StoreError::Unavailable)
        }),
        work.component == BuildResultComponent::Logs && (!is_phase(work.phase@) || (work.phase@ == "hidden"@ && (
        work.search_work_id is None || work.search_position is None))) ==> search_completion(work) == Err::<
            Option<(u128, i64)>,
            StoreError,
        >(StoreError::Unavailable),
{
}

/// A deletion from the index is planned exactly where the work for it and its place are known.
pub proof fn deletions_from_the_index_have_a_place(search: (Option<u128>, Option<i64>), project_id: u128, build_id: u128)
    ensures
        planned(BuildResultComponent::Logs, "hidden"@, search, project_id, build_id) is Ok <==> search.0 is Some
            && search.0->Some_0 != 0 && search.1 is Some && search.1->Some_0 > 0,
        planned(BuildResultComponent::Logs, "hidden"@, search, project_id, build_id) matches Err(error) ==> error
            == StoreError::Unavailable,
{
    assert(phase_name_text(RetentionPhase::Hidden) == "hidden"@);
}

/// A list of work is claimed exactly where each claim can be read.
pub proof fn work_is_claimed_as_a_whole(rows: Seq<ClaimRow>)
    ensures
        claims_refusal(rows) is None <==> forall|i: int| 0 <= i < rows.len() ==> claim_refusal(#[trigger] rows[i]) is None,
{
    let refusals = rows.map_values(|row: ClaimRow| claim_refusal(row));
    if forall|i: int| 0 <= i < rows.len() ==> claim_refusal(#[trigger] rows[i]) is None {
        no_refusal_remains(refusals);
    } else {
        let at = choose|i: int| 0 <= i < rows.len() && claim_refusal(#[trigger] rows[i]) is Some;
        assert(refusals[at] == claim_refusal(rows[at]));
        a_refusal_is_found(refusals, at);
    }
}

} // verus!
