//! Reading the audit trail.

use vstd::prelude::*;

use crate::domain::{is_identity, is_timestamp, StoreError, StoreInputError, StoreOperation};

verus! {

/// A fact of the audit trail.
pub struct AuditFactRow {
    /// The fact.
    pub id: u128,
    /// Kind of actor.
    pub actor_kind: String,
    /// Identity of the actor.
    pub actor_identity: Option<String>,
    /// What was done.
    pub operation: String,
    /// Kind of entity acted on.
    pub target_kind: String,
    /// Identity of the entity acted on.
    pub target_identity: String,
    /// Identity of the request.
    pub request_identity: Option<String>,
    /// Idempotency key.
    pub idempotency_key: Option<String>,
    /// What came of it.
    pub outcome: String,
    /// Members shown.
    pub safe_metadata: String,
    /// When it happened.
    pub occurred_at_unix_ms: i64,
    /// Whether actor kind, outcome and members are valid by their own rules.
    pub is_valid: bool,
}

/// A fact of the audit trail.
pub struct AuditFact {
    /// The fact.
    pub id: u128,
    /// Kind of actor.
    pub actor_kind: String,
    /// Identity of the actor.
    pub actor_identity: Option<String>,
    /// What was done.
    pub operation: String,
    /// Kind of entity acted on.
    pub target_kind: String,
    /// Identity of the entity acted on.
    pub target_identity: String,
    /// Identity of the request.
    pub request_identity: Option<String>,
    /// Idempotency key.
    pub idempotency_key: Option<String>,
    /// What came of it.
    pub outcome: String,
    /// Members shown.
    pub metadata: String,
    /// When it happened.
    pub occurred_at: i64,
}

/// Place in the audit trail, which is read from the latest fact to the earliest.
#[derive(Clone, Copy, Debug, PartialEq, Eq, Structural)]
pub struct AuditCursor {
    /// When the last fact read happened.
    pub occurred_at: i64,
    /// The last fact read.
    pub id: u128,
}

/// A page of the audit trail.
pub struct AuditFactPage {
    /// The facts.
    pub items: Vec<AuditFact>,
    /// Where the next page starts.
    pub next_cursor: Option<AuditCursor>,
}

/// Whether a fact can be read.
pub open spec fn is_readable(row: AuditFactRow) -> bool {
    is_identity(row.id) && row.is_valid && is_timestamp(row.occurred_at_unix_ms)
}

/// Whether a fact is what its row says.
pub open spec fn is_fact_of(fact: AuditFact, row: AuditFactRow) -> bool {
    &&& is_readable(row)
    &&& fact.id == row.id
    &&& fact.actor_kind == row.actor_kind
    &&& fact.actor_identity == row.actor_identity
    &&& fact.operation == row.operation
    &&& fact.target_kind == row.target_kind
    &&& fact.target_identity == row.target_identity
    &&& fact.request_identity == row.request_identity
    &&& fact.idempotency_key == row.idempotency_key
    &&& fact.outcome == row.outcome
    &&& fact.metadata == row.safe_metadata
    &&& fact.occurred_at == row.occurred_at_unix_ms
}

impl AuditFactRow {
    /// Reads a fact.
    pub fn into_fact(self) -> (result: Result<AuditFact, StoreError>)
        ensures
            match result {
                Ok(fact) => is_fact_of(fact, self),
                Err(error) => error == StoreError::Unavailable && !is_readable(self),
            },
    {
        if self.id == 0 || !self.is_valid || self.occurred_at_unix_ms < 0 {
            return Err(StoreError::Unavailable);
        }
        Ok(
            AuditFact {
                id: self.id,
                actor_kind: self.actor_kind,
                actor_identity: self.actor_identity,
                operation: self.operation,
                target_kind: self.target_kind,
                target_identity: self.target_identity,
                request_identity: self.request_identity,
                idempotency_key: self.idempotency_key,
                outcome: self.outcome,
                metadata: self.safe_metadata,
                occurred_at: self.occurred_at_unix_ms,
            },
        )
    }
}

/// The rows of a page: the extra row that tells of another page is left out.
pub open spec fn shown(rows: Seq<AuditFactRow>, limit: u16) -> Seq<AuditFactRow> {
    if rows.len() > limit {
        rows.drop_last()
    } else {
        rows
    }
}

/// Reads a page of the audit trail from the rows that were fetched for it, one more than the page
/// holds where there is another page. `is_query` says whether what was asked for is a valid query.
pub fn list(is_query: bool, rows: Vec<AuditFactRow>, limit: u16) -> (result: Result<AuditFactPage, StoreError>)
    ensures
        !is_query ==> result == Err::<AuditFactPage, StoreError>(
            StoreError::InvalidInput {
                operation: StoreOperation::ListAuditFacts,
                source: StoreInputError::InvalidAuditQuery,
            },
        ),
        is_query ==> match result {
            Ok(page) => {
                &&& page.items@.len() == shown(rows@, limit).len()
                &&& forall|i: int|
                    0 <= i < page.items@.len() ==> is_fact_of(#[trigger] page.items@[i], shown(rows@, limit)[i])
                &&& page.next_cursor == (if rows@.len() > limit && page.items@.len() > 0 {
                    Some(
                        AuditCursor {
                            occurred_at: page.items@.last().occurred_at,
                            id: page.items@.last().id,
                        },
                    )
                } else {
                    None
                })
            },
            Err(error) => error == StoreError::Unavailable && exists|i: int|
                0 <= i < shown(rows@, limit).len() && !is_readable(#[trigger] shown(rows@, limit)[i]),
        },
{
    if !is_query {
        return Err(
            StoreError::InvalidInput {
                operation: StoreOperation::ListAuditFacts,
                source: StoreInputError::InvalidAuditQuery,
            },
        );
    }
    let ghost fetched = rows@;
    let has_more = rows.len() > limit as usize;
    let mut remaining = rows;
    if has_more {
        let _extra = remaining.pop();
    }
    let ghost page = remaining@;
    assert(page =~= shown(fetched, limit));
    let mut items: Vec<AuditFact> = Vec::new();
    while remaining.len() > 0
        invariant
            remaining@.len() + items@.len() == page.len(),
            remaining@ == page.subrange(items@.len() as int, page.len() as int),
            is_query,
            page == shown(fetched, limit),
            fetched == rows@,
            forall|k: int| 0 <= k < items@.len() ==> is_fact_of(#[trigger] items@[k], page[k]),
        decreases remaining@.len(),
    {
        let ghost at = items@.len() as int;
        assert(remaining@[0] == page[at]);
        let row = remaining.remove(0);
        assert(row == page[at]);
        match row.into_fact() {
            Ok(fact) => {
                items.push(fact);
            },
            Err(error) => {
                assert(!is_readable(shown(fetched, limit)[at]));
                return Err(error);
            },
        }
        assert(remaining@ =~= page.subrange(items@.len() as int, page.len() as int));
    }
    let next_cursor: Option<AuditCursor> = if has_more && items.len() > 0 {
        let last = &items[items.len() - 1];
        Some(AuditCursor { occurred_at: last.occurred_at, id: last.id })
    } else {
        None
    };
    Ok(AuditFactPage { items, next_cursor })
}

/// A page shows the first facts, as many as were asked for, where one more at most was fetched.
pub proof fn pages_show_the_first_facts(rows: Seq<AuditFactRow>, limit: u16, at: int)
    requires
        rows.len() <= limit + 1,
    ensures
        shown(rows, limit).len() == (if rows.len() > limit {
            limit as nat
        } else {
            rows.len()
        }),
        0 <= at < shown(rows, limit).len() ==> shown(rows, limit)[at] == rows[at],
{
}

/// A fact is read as it was recorded: who did what, to what, under which request, and what came of it.
pub proof fn facts_are_read_as_recorded(fact: AuditFact, row: AuditFactRow)
    requires
        is_fact_of(fact, row),
    ensures
        fact.id == row.id && fact.occurred_at == row.occurred_at_unix_ms,
        fact.actor_kind == row.actor_kind && fact.actor_identity == row.actor_identity,
        fact.operation == row.operation && fact.target_kind == row.target_kind && fact.target_identity
            == row.target_identity,
        fact.request_identity == row.request_identity && fact.idempotency_key == row.idempotency_key,
        fact.outcome == row.outcome && fact.metadata == row.safe_metadata,
        row.id != 0 && row.is_valid && row.occurred_at_unix_ms >= 0,
{
}

/// A fact is read exactly from a row whose identity is set, which is valid, and whose time is no earlier than the Unix
/// epoch.
pub proof fn sound_facts_are_read(row: AuditFactRow)
    ensures
        is_readable(row) <==> row.id != 0 && row.is_valid && row.occurred_at_unix_ms >= 0,
{
}

} // verus!
