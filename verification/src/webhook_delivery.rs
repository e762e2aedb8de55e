//! Deliveries of webhooks: receiving, verifying and normalizing them, and setting their triggers off.

use vstd::prelude::*;

use crate::document::{equal_documents, pairs_view, read_text_pairs, same_document, text_pairs};
use crate::domain::{
    identity, is_identity, is_optional_timestamp, is_timestamp, optional_timestamp, timestamp, EntityKind,
    MutationDisposition, StoreError,
};
use crate::external_trigger::{
    attempts, enqueued, failure_code_text, is_attempts, parse_failure_code, require_held, WebhookFailureCode,
};
use crate::text::{optional_text, same_text};

verus! {

/// How far a delivery got.
#[derive(Clone, Copy, Debug, PartialEq, Eq, Structural)]
pub enum WebhookDeliveryState {
    /// Stored as `pending_verification`.
    PendingVerification,
    /// Stored as `retry_scheduled`.
    RetryScheduled,
    /// Stored as `pending_trigger`.
    PendingTrigger,
    /// Stored as `completed`.
    Completed,
    /// Stored as `suppressed`.
    Suppressed,
    /// Stored as `dead_letter`.
    DeadLetter,
}

/// The stored name of a state of a delivery.
pub open spec fn delivery_state_name_text(value: WebhookDeliveryState) -> Seq<char> {
    match value {
        WebhookDeliveryState::PendingVerification => "pending_verification"@,
        WebhookDeliveryState::RetryScheduled => "retry_scheduled"@,
        WebhookDeliveryState::PendingTrigger => "pending_trigger"@,
        WebhookDeliveryState::Completed => "completed"@,
        WebhookDeliveryState::Suppressed => "suppressed"@,
        WebhookDeliveryState::DeadLetter => "dead_letter"@,
    }
}

/// No two values share a stored name.
pub proof fn delivery_state_name_text_names_one_value(a: WebhookDeliveryState, b: WebhookDeliveryState)
    ensures
        delivery_state_name_text(a) == delivery_state_name_text(b) ==> a == b,
{
    reveal_strlit("pending_verification");
    reveal_strlit("retry_scheduled");
    reveal_strlit("pending_trigger");
    reveal_strlit("completed");
    reveal_strlit("suppressed");
    reveal_strlit("dead_letter");
    assert("pending_verification"@.len() == 20);
    assert("retry_scheduled"@.len() == 15);
    assert("pending_trigger"@.len() == 15);
    assert("completed"@.len() == 9);
    assert("suppressed"@.len() == 10);
    assert("dead_letter"@.len() == 11);
    assert("retry_scheduled"@[0] == 'r');
    assert("pending_trigger"@[0] == 'p');
}

/// Names a state of a delivery as the database stores it.
pub fn delivery_state_name(value: WebhookDeliveryState) -> (text: &'static str)
    ensures
        text@ == delivery_state_name_text(value),
{
    match value {
        WebhookDeliveryState::PendingVerification => "pending_verification",
        WebhookDeliveryState::RetryScheduled => "retry_scheduled",
        WebhookDeliveryState::PendingTrigger => "pending_trigger",
        WebhookDeliveryState::Completed => "completed",
        WebhookDeliveryState::Suppressed => "suppressed",
        WebhookDeliveryState::DeadLetter => "dead_letter",
    }
}

/// Reads a state of a delivery back from its stored name; any other text is unreadable.
pub fn delivery_state(text: &str) -> (result: Result<WebhookDeliveryState, StoreError>)
    ensures
        forall|value: WebhookDeliveryState|
            result == Ok::<WebhookDeliveryState, StoreError>(value)
                <==> text@ == #[trigger] delivery_state_name_text(value),
        result is Err ==> result == Err::<WebhookDeliveryState, StoreError>(StoreError::Unavailable),
{
    proof {
        assert forall|a: WebhookDeliveryState, b: WebhookDeliveryState|
            #[trigger] delivery_state_name_text(a) == #[trigger] delivery_state_name_text(b)
            implies a == b by {
            delivery_state_name_text_names_one_value(a, b);
        }
    }
    let result = if same_text(text, "pending_verification") {
        Ok(WebhookDeliveryState::PendingVerification)
    } else if same_text(text, "retry_scheduled") {
        Ok(WebhookDeliveryState::RetryScheduled)
    } else if same_text(text, "pending_trigger") {
        Ok(WebhookDeliveryState::PendingTrigger)
    } else if same_text(text, "completed") {
        Ok(WebhookDeliveryState::Completed)
    } else if same_text(text, "suppressed") {
        Ok(WebhookDeliveryState::Suppressed)
    } else if same_text(text, "dead_letter") {
        Ok(WebhookDeliveryState::DeadLetter)
    } else {
        Err(StoreError::Unavailable)
    };
    assert(result matches Ok(value) ==> text@ == delivery_state_name_text(value));
    result
}

/// A claimed delivery as the database holds it.
pub struct DeliveryClaimRow {
    /// The delivery.
    pub id: u128,
    /// The integration it was made to.
    pub integration_id: u128,
    /// How far it got.
    pub state: String,
    /// Body it was made with.
    pub body: Vec<u8>,
    /// When it was received.
    pub received_at_millis: i64,
    /// How often its verification was tried.
    pub verification_attempts: i32,
    /// How often its trigger was tried.
    pub trigger_attempts: i32,
    /// The event it stands for, where that is known.
    pub normalized_event: Option<String>,
    /// Whether that is an event.
    pub event_is_readable: bool,
}

/// What is to be done for a delivery.
pub enum WebhookDeliveryWork {
    /// Verify it and find its event.
    Verify { headers: Vec<(String, String)>, body: Vec<u8> },
    /// Set off the trigger of its event.
    Trigger { event: String },
}

/// A claimed delivery.
pub struct WebhookDeliveryClaim {
    /// The delivery.
    pub delivery_id: u128,
    /// The integration it was made to.
    pub integration_id: u128,
    /// When it was received.
    pub received_at: i64,
    /// How often its verification was tried.
    pub verification_attempt: u16,
    /// How often its trigger was tried.
    pub trigger_attempt: u16,
    /// What is to be done.
    pub work: WebhookDeliveryWork,
    /// Who works on it.
    pub owner: String,
    /// When the claim runs out.
    pub claim_expires_at: i64,
}

/// Whether a delivery still has to be verified.
pub open spec fn is_unverified(state: Seq<char>) -> bool {
    state == "pending_verification"@ || state == "retry_scheduled"@
}

/// Whether what is to be done for a delivery can be read: its headers matter while it is not verified, and its
/// event from then on.
pub open spec fn is_readable_work(row: DeliveryClaimRow, headers: Option<Seq<(Seq<char>, Seq<char>)>>) -> bool {
    if is_unverified(row.state@) {
        headers is Some
    } else {
        row.state@ == "pending_trigger"@ && row.normalized_event is Some && row.event_is_readable
    }
}

/// Whether a claimed delivery can be read.
pub open spec fn is_readable(row: DeliveryClaimRow, headers: Option<Seq<(Seq<char>, Seq<char>)>>) -> bool {
    &&& is_readable_work(row, headers)
    &&& is_identity(row.id) && is_identity(row.integration_id)
    &&& is_timestamp(row.received_at_millis)
    &&& is_attempts(row.verification_attempts) && is_attempts(row.trigger_attempts)
}

/// Whether work is what is to be done for a delivery.
pub open spec fn is_work_of(
    work: WebhookDeliveryWork,
    row: DeliveryClaimRow,
    made_with: Option<Seq<(Seq<char>, Seq<char>)>>,
) -> bool {
    match work {
        WebhookDeliveryWork::Verify { headers, body } => {
            &&& is_unverified(row.state@)
            &&& made_with == Some(pairs_view(headers@))
            &&& body@ == row.body@
        },
        WebhookDeliveryWork::Trigger { event } => {
            &&& row.state@ == "pending_trigger"@
            &&& optional_text(row.normalized_event) == Some(event@)
        },
    }
}

/// Whether a claim is the one of a row.
pub open spec fn is_claim_of(
    claim: WebhookDeliveryClaim,
    row: DeliveryClaimRow,
    headers: Option<Seq<(Seq<char>, Seq<char>)>>,
    owner: Seq<char>,
    claim_expires_at: i64,
) -> bool {
    &&& claim.delivery_id == row.id
    &&& claim.integration_id == row.integration_id
    &&& claim.received_at == row.received_at_millis
    &&& claim.verification_attempt == row.verification_attempts
    &&& claim.trigger_attempt == row.trigger_attempts
    &&& is_work_of(claim.work, row, headers)
    &&& claim.owner@ == owner
    &&& claim.claim_expires_at == claim_expires_at
}

/// Headers that were read, as contracts speak of them.
pub open spec fn read_headers(headers: Option<Vec<(String, String)>>) -> Option<Seq<(Seq<char>, Seq<char>)>> {
    match headers {
        Some(pairs) => Some(pairs_view(pairs@)),
        None => None,
    }
}

/// Reads a claimed delivery, given its headers as far as they can be read.
pub fn claimed_delivery(
    row: DeliveryClaimRow,
    headers: Option<Vec<(String, String)>>,
    owner: &String,
    claim_expires_at: i64,
) -> (result: Result<WebhookDeliveryClaim, StoreError>)
    ensures
        match result {
            Ok(claim) => is_readable(row, read_headers(headers)) && is_claim_of(
                claim,
                row,
                read_headers(headers),
                owner@,
                claim_expires_at,
            ),
            Err(error) => error == StoreError::Unavailable && !is_readable(row, read_headers(headers)),
        },
{
    proof {
        delivery_state_name_text_names_one_value(
            WebhookDeliveryState::PendingVerification,
            WebhookDeliveryState::PendingTrigger,
        );
        delivery_state_name_text_names_one_value(
            WebhookDeliveryState::RetryScheduled,
            WebhookDeliveryState::PendingTrigger,
        );
    }
    let delivery_id: u128 = identity(row.id)?;
    let integration_id: u128 = identity(row.integration_id)?;
    let received_at: i64 = timestamp(row.received_at_millis)?;
    let verification_attempt: u16 = attempts(row.verification_attempts)?;
    let trigger_attempt: u16 = attempts(row.trigger_attempts)?;
    let work = if same_text(row.state.as_str(), "pending_verification") || same_text(
        row.state.as_str(),
        "retry_scheduled",
    ) {
        match headers {
            Some(headers) => WebhookDeliveryWork::Verify { headers, body: row.body },
            None => {
                return Err(StoreError::Unavailable);
            },
        }
    } else if same_text(row.state.as_str(), "pending_trigger") && row.event_is_readable {
        match row.normalized_event {
            Some(event) => WebhookDeliveryWork::Trigger { event },
            None => {
                return Err(StoreError::Unavailable);
            },
        }
    } else {
        return Err(StoreError::Unavailable);
    };
    Ok(
        WebhookDeliveryClaim {
            delivery_id,
            integration_id,
            received_at,
            verification_attempt,
            trigger_attempt,
            work,
            owner: owner.clone(),
            claim_expires_at,
        },
    )
}

/// Reads a claimed delivery with the headers it was made with.
pub fn decode_delivery_claim(
    row: DeliveryClaimRow,
    headers: serde_json::Value,
    owner: &String,
    claim_expires_at: i64,
) -> (result: Result<WebhookDeliveryClaim, StoreError>)
    ensures
        match result {
            Ok(claim) => is_readable(row, text_pairs(headers)) && is_claim_of(
                claim,
                row,
                text_pairs(headers),
                owner@,
                claim_expires_at,
            ),
            Err(error) => error == StoreError::Unavailable && !is_readable(row, text_pairs(headers)),
        },
{
    let pairs = read_text_pairs(headers);
    claimed_delivery(row, pairs, owner, claim_expires_at)
}

/// A claimed delivery as the database holds it, with the headers it was made with.
pub struct ClaimedDeliveryRow {
    /// The delivery.
    pub delivery: DeliveryClaimRow,
    /// Its headers.
    pub headers: serde_json::Value,
}

/// Whether a claimed delivery can be read, its headers where they matter.
pub open spec fn is_readable_delivery(row: ClaimedDeliveryRow) -> bool {
    is_readable(row.delivery, text_pairs(row.headers))
}

/// Whether every claimed delivery can be read.
pub open spec fn are_readable_deliveries(rows: Seq<ClaimedDeliveryRow>) -> bool {
    forall|i: int| 0 <= i < rows.len() ==> is_readable_delivery(#[trigger] rows[i])
}

/// Whether a claim is the one of a row with its headers.
pub open spec fn is_delivery_of(
    claim: WebhookDeliveryClaim,
    row: ClaimedDeliveryRow,
    owner: Seq<char>,
    claim_expires_at: i64,
) -> bool {
    is_claim_of(claim, row.delivery, text_pairs(row.headers), owner, claim_expires_at)
}

/// Reads the deliveries that were claimed; one that cannot be read fails them all.
pub fn claim_deliveries(rows: Vec<ClaimedDeliveryRow>, owner: &String, claim_expires_at: i64) -> (result: Result<
    Vec<WebhookDeliveryClaim>,
    StoreError,
>)
    ensures
        match result {
            Ok(claims) => are_readable_deliveries(rows@) && claims@.len() == rows@.len() && forall|i: int|
                0 <= i < rows@.len() ==> is_delivery_of(#[trigger] claims@[i], rows@[i], owner@, claim_expires_at),
            Err(error) => error == StoreError::Unavailable && !are_readable_deliveries(rows@),
        },
{
    let ghost fetched = rows@;
    let mut remaining = rows;
    let mut claims: Vec<WebhookDeliveryClaim> = Vec::new();
    while remaining.len() > 0
        invariant
            fetched == rows@,
            claims@.len() + remaining@.len() == fetched.len(),
            remaining@ == fetched.skip(claims@.len() as int),
            forall|i: int| 0 <= i < claims@.len() ==> is_readable_delivery(#[trigger] fetched[i]),
            forall|i: int|
                0 <= i < claims@.len() ==> is_delivery_of(#[trigger] claims@[i], fetched[i], owner@, claim_expires_at),
        decreases remaining@.len(),
    {
        let ghost at = claims@.len() as int;
        let row = remaining.remove(0);
        assert(row == fetched[at]);
        match decode_delivery_claim(row.delivery, row.headers, owner, claim_expires_at) {
            Ok(claim) => {
                claims.push(claim);
            },
            Err(error) => {
                assert(!is_readable_delivery(rows@[at]));
                return Err(error);
            },
        }
        assert(remaining@ =~= fetched.skip(claims@.len() as int));
    }
    Ok(claims)
}

/// Receives a delivery: `validated` is the verdict on it by itself, and one that was received before writes nothing.
pub fn enqueue_delivery(validated: Result<(), StoreError>, inserted_rows: u64) -> (result: Result<
    MutationDisposition,
    StoreError,
>)
    ensures
        result == (match validated {
            Err(error) => Err::<MutationDisposition, StoreError>(error),
            Ok(()) => if inserted_rows == 1 {
                Ok(MutationDisposition::Applied)
            } else {
                Ok(MutationDisposition::Replayed)
            },
        }),
{
    match validated {
        Ok(()) => Ok(enqueued(inserted_rows)),
        Err(error) => Err(error),
    }
}

/// Records the failure of a delivery: `validated` is the verdict on the report by itself, and the worker has to hold
/// the delivery.
pub fn fail_delivery(validated: Result<(), StoreError>, updated_rows: u64) -> (result: Result<(), StoreError>)
    ensures
        result == (match validated {
            Err(error) => Err::<(), StoreError>(error),
            Ok(()) => if updated_rows == 1 {
                Ok(())
            } else {
                Err(StoreError::Conflict { entity: EntityKind::Integration })
            },
        }),
{
    match validated {
        Ok(()) => require_held(updated_rows),
        Err(error) => Err(error),
    }
}

/// What recording the event of a delivery came to.
#[derive(Clone, Copy, Debug, PartialEq, Eq, Structural)]
pub enum RecordWebhookEventOutcome {
    /// The event is new, and sets its trigger off.
    Recorded,
    /// The event came with an earlier delivery.
    Duplicate,
    /// An earlier delivery under the same name brought another event.
    IdentityConflict,
}

/// The state that recording the event of a delivery leaves the delivery in.
pub open spec fn state_after(outcome: RecordWebhookEventOutcome) -> WebhookDeliveryState {
    match outcome {
        RecordWebhookEventOutcome::Recorded => WebhookDeliveryState::PendingTrigger,
        RecordWebhookEventOutcome::Duplicate => WebhookDeliveryState::Completed,
        RecordWebhookEventOutcome::IdentityConflict => WebhookDeliveryState::DeadLetter,
    }
}

/// The state that recording the event of a delivery leaves the delivery in.
pub fn recorded_state(outcome: RecordWebhookEventOutcome) -> (state: WebhookDeliveryState)
    ensures
        state == state_after(outcome),
{
    match outcome {
        RecordWebhookEventOutcome::Recorded => WebhookDeliveryState::PendingTrigger,
        RecordWebhookEventOutcome::Duplicate => WebhookDeliveryState::Completed,
        RecordWebhookEventOutcome::IdentityConflict => WebhookDeliveryState::DeadLetter,
    }
}

/// Requires that the worker holds the delivery, and that the event belongs to the integration it was made to.
pub fn require_receipt(receipt_integration: Option<u128>, event_integration: u128) -> (result: Result<(), StoreError>)
    ensures
        result == (if receipt_integration == Some(event_integration) {
            Ok::<(), StoreError>(())
        } else {
            Err(StoreError::Conflict { entity: EntityKind::Integration })
        }),
{
    if receipt_integration != Some(event_integration) {
        Err(StoreError::Conflict { entity: EntityKind::Integration })
    } else {
        Ok(())
    }
}

/// What recording an event comes to: `inserted` says that it was new, and `existing_is_same` speaks of the event
/// on record where it was not.
pub open spec fn recording(inserted: bool, existing_is_same: Option<bool>) -> Result<
    RecordWebhookEventOutcome,
    StoreError,
> {
    if inserted {
        Ok(RecordWebhookEventOutcome::Recorded)
    } else {
        match existing_is_same {
            None => Err(StoreError::Unavailable),
            Some(true) => Ok(RecordWebhookEventOutcome::Duplicate),
            Some(false) => Ok(RecordWebhookEventOutcome::IdentityConflict),
        }
    }
}

/// Decides what recording an event comes to, given how it compares with the event on record.
pub fn judge_event(inserted: bool, existing_is_same: Option<bool>) -> (result: Result<
    RecordWebhookEventOutcome,
    StoreError,
>)
    ensures
        result == recording(inserted, existing_is_same),
{
    if inserted {
        return Ok(RecordWebhookEventOutcome::Recorded);
    }
    match existing_is_same {
        None => Err(StoreError::Unavailable),
        Some(is_same) => if is_same {
            Ok(RecordWebhookEventOutcome::Duplicate)
        } else {
            Ok(RecordWebhookEventOutcome::IdentityConflict)
        },
    }
}

/// How an event compares with the one on record.
pub open spec fn compared(existing: Option<serde_json::Value>, event: serde_json::Value) -> Option<bool> {
    match existing {
        Some(existing) => Some(equal_documents(existing, event)),
        None => None,
    }
}

/// Decides what recording an event comes to: `validated` is the verdict on the request by itself, and the worker
/// has to hold the delivery, which has to be made to the integration of the event. An event that is on record as
/// it is now is a duplicate.
pub fn record_event(
    validated: Result<(), StoreError>,
    receipt_integration: Option<u128>,
    event_integration: u128,
    inserted: bool,
    existing: &Option<serde_json::Value>,
    event: &serde_json::Value,
) -> (result: Result<RecordWebhookEventOutcome, StoreError>)
    ensures
        result == (match validated {
            Err(error) => Err::<RecordWebhookEventOutcome, StoreError>(error),
            Ok(()) => if receipt_integration != Some(event_integration) {
                Err(StoreError::Conflict { entity: EntityKind::Integration })
            } else {
                recording(inserted, compared(*existing, *event))
            },
        }),
        validated is Ok && receipt_integration == Some(event_integration) && !inserted && *existing == Some(*event)
            ==> result == Ok::<RecordWebhookEventOutcome, StoreError>(RecordWebhookEventOutcome::Duplicate),
{
    match validated {
        Ok(()) => {},
        Err(error) => {
            return Err(error);
        },
    }
    match require_receipt(receipt_integration, event_integration) {
        Ok(()) => {},
        Err(error) => {
            return Err(error);
        },
    }
    let existing_is_same: Option<bool> = match existing {
        Some(existing) => Some(same_document(existing, event)),
        None => None,
    };
    judge_event(inserted, existing_is_same)
}

/// The trigger of an event is set off by the delivery that recorded it, and by no other: whatever a later delivery
/// of the same name brings, it leads to no trigger.
pub proof fn events_are_recorded_once(inserted: bool, existing_is_same: Option<bool>)
    ensures
        recording(inserted, existing_is_same) matches Ok(outcome) ==> (state_after(outcome)
            == WebhookDeliveryState::PendingTrigger <==> inserted),
{
}

/// Requires that the worker held the delivery that it completed or suppressed.
pub fn complete_delivery(updated_rows: u64) -> (result: Result<MutationDisposition, StoreError>)
    ensures
        result == (if updated_rows == 1 {
            Ok::<MutationDisposition, StoreError>(MutationDisposition::Applied)
        } else {
            Err(StoreError::Conflict { entity: EntityKind::Integration })
        }),
{
    if updated_rows == 1 {
        Ok(MutationDisposition::Applied)
    } else {
        Err(StoreError::Conflict { entity: EntityKind::Integration })
    }
}

/// What is known of a delivery, as the database holds it.
pub struct DeliveryDiagnosticRow {
    /// The integration it was made to.
    pub integration_id: u128,
    /// How far it got.
    pub state: String,
    /// How often its verification was tried.
    pub verification_attempts: i32,
    /// How often its trigger was tried.
    pub trigger_attempts: i32,
    /// Name the service gave it.
    pub provider_delivery_id: Option<String>,
    /// Whether that, where there is one, is a valid name.
    pub provider_delivery_id_is_valid: bool,
    /// Why work on it failed last.
    pub failure_code: Option<String>,
    /// What is known of that.
    pub diagnostic: Option<String>,
    /// When it is tried again.
    pub next_attempt_at_millis: Option<i64>,
}

/// What is known of a delivery.
pub struct WebhookDeliveryDiagnostic {
    /// The delivery.
    pub delivery_id: u128,
    /// The integration it was made to.
    pub integration_id: u128,
    /// How far it got.
    pub state: WebhookDeliveryState,
    /// How often its verification was tried.
    pub verification_attempts: u16,
    /// How often its trigger was tried.
    pub trigger_attempts: u16,
    /// Name the service gave it.
    pub provider_delivery_id: Option<String>,
    /// Why work on it failed last.
    pub failure_code: Option<WebhookFailureCode>,
    /// What is known of that.
    pub diagnostic: Option<String>,
    /// When it is tried again.
    pub next_attempt_at: Option<i64>,
}

/// Whether a column, where it holds anything, names a failure.
pub open spec fn is_optional_failure(column: Option<String>) -> bool {
    column matches Some(text) ==> exists|code: WebhookFailureCode| text@ == #[trigger] failure_code_text(code)
}

/// Whether what is known of a delivery can be read.
pub open spec fn is_readable_diagnostic(row: DeliveryDiagnosticRow) -> bool {
    &&& is_identity(row.integration_id)
    &&& exists|state: WebhookDeliveryState| row.state@ == #[trigger] delivery_state_name_text(state)
    &&& is_attempts(row.verification_attempts) && is_attempts(row.trigger_attempts)
    &&& row.provider_delivery_id is Some ==> row.provider_delivery_id_is_valid
    &&& is_optional_failure(row.failure_code)
    &&& is_optional_timestamp(row.next_attempt_at_millis)
}

/// Whether a failure is the one a column names.
pub open spec fn is_failure_of(code: Option<WebhookFailureCode>, column: Option<String>) -> bool {
    match (code, column) {
        (Some(code), Some(text)) => text@ == failure_code_text(code),
        (None, None) => true,
        _ => false,
    }
}

/// Whether a diagnostic is the one of a row.
pub open spec fn is_diagnostic_of(diagnostic: WebhookDeliveryDiagnostic, delivery_id: u128, row: DeliveryDiagnosticRow) -> bool {
    &&& diagnostic.delivery_id == delivery_id
    &&& diagnostic.integration_id == row.integration_id
    &&& row.state@ == delivery_state_name_text(diagnostic.state)
    &&& diagnostic.verification_attempts == row.verification_attempts
    &&& diagnostic.trigger_attempts == row.trigger_attempts
    &&& diagnostic.provider_delivery_id == row.provider_delivery_id
    &&& is_failure_of(diagnostic.failure_code, row.failure_code)
    &&& diagnostic.diagnostic == row.diagnostic
    &&& diagnostic.next_attempt_at == row.next_attempt_at_millis
}

/// Reads what is known of a delivery, where there is one.
pub fn delivery_diagnostic(delivery_id: u128, row: Option<DeliveryDiagnosticRow>) -> (result: Result<
    WebhookDeliveryDiagnostic,
    StoreError,
>)
    ensures
        match row {
            None => result is Err && result->Err_0 == (StoreError::NotFound { entity: EntityKind::Integration }),
            Some(row) => match result {
                Ok(diagnostic) => is_readable_diagnostic(row) && is_diagnostic_of(diagnostic, delivery_id, row),
                Err(error) => error == StoreError::Unavailable && !is_readable_diagnostic(row),
            },
        },
{
    let row = match row {
        Some(row) => row,
        None => {
            return Err(StoreError::NotFound { entity: EntityKind::Integration });
        },
    };
    let integration_id: u128 = identity(row.integration_id)?;
    let state = delivery_state(row.state.as_str())?;
    assert(row.state@ == delivery_state_name_text(state));
    let verification_attempts: u16 = attempts(row.verification_attempts)?;
    let trigger_attempts: u16 = attempts(row.trigger_attempts)?;
    if row.provider_delivery_id.is_some() && !row.provider_delivery_id_is_valid {
        return Err(StoreError::Unavailable);
    }
    let failure_code: Option<WebhookFailureCode> = match &row.failure_code {
        Some(text) => {
            let code = parse_failure_code(text.as_str())?;
            assert(text@ == failure_code_text(code));
            Some(code)
        },
        None => None,
    };
    let next_attempt_at: Option<i64> = optional_timestamp(row.next_attempt_at_millis)?;
    Ok(
        WebhookDeliveryDiagnostic {
            delivery_id,
            integration_id,
            state,
            verification_attempts,
            trigger_attempts,
            provider_delivery_id: row.provider_delivery_id,
            failure_code,
            diagnostic: row.diagnostic,
            next_attempt_at,
        },
    )
}

/// What becomes of an event that a delivery brought: a new one sets its trigger off, one that was brought before is
/// done with, and another one under its identity is given up.
pub proof fn new_events_set_their_trigger_off(inserted: bool, existing_is_same: Option<bool>)
    ensures
        recording(inserted, existing_is_same) == Ok::<RecordWebhookEventOutcome, StoreError>(
            RecordWebhookEventOutcome::Recorded,
        ) <==> inserted,
        recording(inserted, existing_is_same) == Ok::<RecordWebhookEventOutcome, StoreError>(
            RecordWebhookEventOutcome::Duplicate,
        ) <==> !inserted && existing_is_same == Some(true),
        recording(inserted, existing_is_same) == Ok::<RecordWebhookEventOutcome, StoreError>(
            RecordWebhookEventOutcome::IdentityConflict,
        ) <==> !inserted && existing_is_same == Some(false),
        state_after(RecordWebhookEventOutcome::Recorded) == WebhookDeliveryState::PendingTrigger,
        state_after(RecordWebhookEventOutcome::Duplicate) == WebhookDeliveryState::Completed,
        state_after(RecordWebhookEventOutcome::IdentityConflict) == WebhookDeliveryState::DeadLetter,
{
}

/// A delivery that was not verified is verified by what it brought; one that was is worked on by its event.
pub proof fn deliveries_are_verified_first(
    work: WebhookDeliveryWork,
    row: DeliveryClaimRow,
    headers: Option<Seq<(Seq<char>, Seq<char>)>>,
)
    requires
        is_work_of(work, row, headers),
    ensures
        work is Verify <==> row.state@ == "pending_verification"@ || row.state@ == "retry_scheduled"@,
        work is Trigger <==> row.state@ == "pending_trigger"@,
        work matches WebhookDeliveryWork::Verify { headers: read, body } ==> body@ == row.body@ && headers == Some(
            pairs_view(read@),
        ),
        work matches WebhookDeliveryWork::Trigger { event } ==> row.normalized_event is Some
            && row.normalized_event->Some_0@ == event@,
{
    assert("pending_verification"@ == delivery_state_name_text(WebhookDeliveryState::PendingVerification));
    assert("retry_scheduled"@ == delivery_state_name_text(WebhookDeliveryState::RetryScheduled));
    assert("pending_trigger"@ == delivery_state_name_text(WebhookDeliveryState::PendingTrigger));
    delivery_state_name_text_names_one_value(
        WebhookDeliveryState::PendingVerification,
        WebhookDeliveryState::PendingTrigger,
    );
    delivery_state_name_text_names_one_value(WebhookDeliveryState::RetryScheduled, WebhookDeliveryState::PendingTrigger);
}

/// A claimed delivery is that of its row, held by the worker that claimed it.
pub proof fn deliveries_are_claimed_for_their_worker(
    claim: WebhookDeliveryClaim,
    row: DeliveryClaimRow,
    headers: Option<Seq<(Seq<char>, Seq<char>)>>,
    owner: Seq<char>,
    claim_expires_at: i64,
)
    requires
        is_claim_of(claim, row, headers, owner, claim_expires_at),
    ensures
        claim.delivery_id == row.id && claim.integration_id == row.integration_id,
        claim.received_at == row.received_at_millis,
        claim.verification_attempt == row.verification_attempts && claim.trigger_attempt == row.trigger_attempts,
        claim.owner@ == owner && claim.claim_expires_at == claim_expires_at,
        is_work_of(claim.work, row, headers),
{
}

/// What is told of a delivery is what is on record of it.
pub proof fn deliveries_are_read_as_recorded(
    diagnostic: WebhookDeliveryDiagnostic,
    delivery_id: u128,
    row: DeliveryDiagnosticRow,
)
    requires
        is_diagnostic_of(diagnostic, delivery_id, row),
    ensures
        diagnostic.delivery_id == delivery_id && diagnostic.integration_id == row.integration_id,
        delivery_state_name_text(diagnostic.state) == row.state@,
        diagnostic.verification_attempts == row.verification_attempts && diagnostic.trigger_attempts
            == row.trigger_attempts,
        diagnostic.provider_delivery_id == row.provider_delivery_id && diagnostic.diagnostic == row.diagnostic,
        diagnostic.failure_code is Some <==> row.failure_code is Some,
        diagnostic.failure_code matches Some(code) ==> row.failure_code->Some_0@ == failure_code_text(code),
        diagnostic.next_attempt_at == row.next_attempt_at_millis,
{
}

/// An event is the one on record exactly where their documents are equal.
pub proof fn events_are_compared_by_their_documents(existing: serde_json::Value, event: serde_json::Value)
    ensures
        compared(Some(existing), event) == Some(equal_documents(existing, event)),
        compared(None, event) is None,
{
}

/// Each state of a delivery is stored under its own name.
pub proof fn states_of_deliveries_are_stored_by_name()
    ensures
        delivery_state_name_text(WebhookDeliveryState::PendingVerification) == "pending_verification"@,
        delivery_state_name_text(WebhookDeliveryState::RetryScheduled) == "retry_scheduled"@,
        delivery_state_name_text(WebhookDeliveryState::PendingTrigger) == "pending_trigger"@,
        delivery_state_name_text(WebhookDeliveryState::Completed) == "completed"@,
        delivery_state_name_text(WebhookDeliveryState::Suppressed) == "suppressed"@,
        delivery_state_name_text(WebhookDeliveryState::DeadLetter) == "dead_letter"@,
{
}

/// A delivery is read exactly from a row whose identities are set and whose numbers are sound: with its headers while
/// it waits to be verified, and with the event that was made of it while it waits to trigger.
pub proof fn sound_deliveries_are_read(row: DeliveryClaimRow, headers: Option<Seq<(Seq<char>, Seq<char>)>>)
    ensures
        is_readable(row, headers) <==> row.id != 0 && row.integration_id != 0 && row.received_at_millis >= 0
            && is_attempts(row.verification_attempts) && is_attempts(row.trigger_attempts) && (if row.state@
            == "pending_verification"@ || row.state@ == "retry_scheduled"@ {
            headers is Some
        } else {
            row.state@ == "pending_trigger"@ && row.normalized_event is Some && row.event_is_readable
        }),
{
}

/// A page of deliveries is read exactly where each of them is.
pub proof fn pages_of_deliveries_are_read(rows: Seq<ClaimedDeliveryRow>)
    ensures
        are_readable_deliveries(rows) <==> forall|i: int|
            0 <= i < rows.len() ==> is_readable((#[trigger] rows[i]).delivery, text_pairs(rows[i].headers)),
{
    if are_readable_deliveries(rows) {
        assert forall|i: int| 0 <= i < rows.len() implies is_readable(
            (#[trigger] rows[i]).delivery,
            text_pairs(rows[i].headers),
        ) by {
            assert(is_readable_delivery(rows[i]));
        }
    }
}

/// What is told of a delivery is read exactly where its integration is set, its state and failure are known, its
/// numbers are sound and the provider's identity for it, if there is one, is valid.
pub proof fn sound_diagnostics_are_read(row: DeliveryDiagnosticRow)
    ensures
        is_readable_diagnostic(row) <==> row.integration_id != 0 && (row.state@ == "pending_verification"@ || row.state@
            == "retry_scheduled"@ || row.state@ == "pending_trigger"@ || row.state@ == "completed"@ || row.state@
            == "suppressed"@ || row.state@ == "dead_letter"@) && is_attempts(row.verification_attempts) && is_attempts(
            row.trigger_attempts,
        ) && (row.provider_delivery_id is None || row.provider_delivery_id_is_valid) && (row.failure_code is None || (
        exists|code: WebhookFailureCode| row.failure_code->Some_0@ == #[trigger] failure_code_text(code))) && (
        row.next_attempt_at_millis is None || row.next_attempt_at_millis->Some_0 >= 0),
{
    assert(delivery_state_name_text(WebhookDeliveryState::PendingVerification) == "pending_verification"@);
    assert(delivery_state_name_text(WebhookDeliveryState::RetryScheduled) == "retry_scheduled"@);
    assert(delivery_state_name_text(WebhookDeliveryState::PendingTrigger) == "pending_trigger"@);
    assert(delivery_state_name_text(WebhookDeliveryState::Completed) == "completed"@);
    assert(delivery_state_name_text(WebhookDeliveryState::Suppressed) == "suppressed"@);
    assert(delivery_state_name_text(WebhookDeliveryState::DeadLetter) == "dead_letter"@);
}

/// An event that was neither recorded nor found is reported as unavailable.
pub proof fn lost_events_are_unavailable()
    ensures
        recording(false, None) == Err::<RecordWebhookEventOutcome, StoreError>(StoreError::Unavailable),
{
}

/// A delivery is claimed for the worker that asked, with the headers that are stored for it.
pub proof fn deliveries_are_claimed_with_their_headers(
    claim: WebhookDeliveryClaim,
    row: ClaimedDeliveryRow,
    owner: Seq<char>,
    claim_expires_at: i64,
    pairs: Vec<(String, String)>,
)
    ensures
        is_delivery_of(claim, row, owner, claim_expires_at) <==> is_claim_of(
            claim,
            row.delivery,
            text_pairs(row.headers),
            owner,
            claim_expires_at,
        ),
        read_headers(Some(pairs)) == Some(pairs_view(pairs@)),
        read_headers(None) is None,
{
}

} // verus!
