//! Numbers as PostgreSQL holds them, and the meaning of its error codes.

use vstd::prelude::*;

use crate::domain::{is_identity, EntityKind, StoreError, StoreInputError, StoreOperation};
use crate::text::same_text;

verus! {

/// What a number outside the range of a `BIGINT` column is answered.
pub open spec fn out_of_range(operation: StoreOperation) -> StoreError {
    StoreError::InvalidInput { operation, source: StoreInputError::NumericOutOfRange }
}

/// Whether a number fits a `BIGINT` column.
pub open spec fn fits_column(value: u64) -> bool {
    value <= i64::MAX
}

/// The number as a `BIGINT` column holds it.
pub fn number(value: u64, operation: StoreOperation) -> (result: Result<i64, StoreError>)
    ensures
        result == (if fits_column(value) {
            Ok::<i64, StoreError>(value as i64)
        } else {
            Err(out_of_range(operation))
        }),
{
    if value <= i64::MAX as u64 {
        Ok(value as i64)
    } else {
        Err(StoreError::InvalidInput { operation, source: StoreInputError::NumericOutOfRange })
    }
}

/// Checks that a statement reached exactly the rows it was meant for.
pub fn require_affected(affected: u64, expected: u64) -> (result: Result<(), StoreError>)
    ensures
        result == (if affected == expected {
            Ok::<(), StoreError>(())
        } else {
            Err(StoreError::Unavailable)
        }),
{
    if affected == expected {
        Ok(())
    } else {
        Err(StoreError::Unavailable)
    }
}

/// The row that was looked for; none is a missing entity.
pub fn found<T>(row: Option<T>, entity: EntityKind) -> (result: Result<T, StoreError>)
    ensures
        result == (match row {
            Some(row) => Ok::<T, StoreError>(row),
            None => Err(StoreError::NotFound { entity }),
        }),
{
    match row {
        Some(row) => Ok(row),
        None => Err(StoreError::NotFound { entity }),
    }
}

/// Requires that a referenced entity exists.
pub fn require_exists(exists: bool, entity: EntityKind) -> (result: Result<(), StoreError>)
    ensures
        result == (if exists {
            Ok::<(), StoreError>(())
        } else {
            Err(StoreError::NotFound { entity })
        }),
{
    if exists {
        Ok(())
    } else {
        Err(StoreError::NotFound { entity })
    }
}

/// Whether every number of a list is an identity.
pub open spec fn all_identities(ids: Seq<u128>) -> bool {
    forall|i: int| 0 <= i < ids.len() ==> is_identity(#[trigger] ids[i])
}

/// Reads a list of identities; one that is none makes the list unreadable.
pub fn job_ids(ids: Vec<u128>) -> (result: Result<Vec<u128>, StoreError>)
    ensures
        result == (if all_identities(ids@) {
            Ok::<Vec<u128>, StoreError>(ids)
        } else {
            Err(StoreError::Unavailable)
        }),
{
    let mut i: usize = 0;
    while i < ids.len()
        invariant
            i <= ids@.len(),
            forall|k: int| 0 <= k < i ==> is_identity(#[trigger] ids@[k]),
        decreases ids@.len() - i,
    {
        if ids[i] == 0 {
            assert(!is_identity(ids@[i as int]));
            return Err(StoreError::Unavailable);
        }
        i += 1;
    }
    Ok(ids)
}

/// Whether the code of a database error is `expected`; an error that did not come from the
/// database has no code.
pub open spec fn has_code(sql_state: Option<String>, expected: Seq<char>) -> bool {
    sql_state matches Some(code) && code@ == expected
}

fn code_is(sql_state: &Option<String>, expected: &str) -> (same: bool)
    ensures
        same == has_code(*sql_state, expected@),
{
    match sql_state {
        Some(code) => same_text(code.as_str(), expected),
        None => false,
    }
}

/// What a failed statement on `entity` means, by its SQLSTATE.
pub open spec fn classified(sql_state: Option<String>, entity: EntityKind) -> StoreError {
    if has_code(sql_state, "23505"@) {
        StoreError::Duplicate { entity }
    } else if has_code(sql_state, "23503"@) {
        StoreError::NotFound { entity }
    } else if has_code(sql_state, "23514"@) || has_code(sql_state, "23P01"@) {
        StoreError::Conflict { entity }
    } else {
        StoreError::Unavailable
    }
}

/// Classifies a failed statement: a unique violation is a duplicate, a foreign-key violation a
/// missing entity, a check or exclusion violation a conflict, and anything else an outage.
pub fn classify(sql_state: &Option<String>, entity: EntityKind) -> (error: StoreError)
    ensures
        error == classified(*sql_state, entity),
{
    if code_is(sql_state, "23505") {
        StoreError::Duplicate { entity }
    } else if code_is(sql_state, "23503") {
        StoreError::NotFound { entity }
    } else if code_is(sql_state, "23514") || code_is(sql_state, "23P01") {
        StoreError::Conflict { entity }
    } else {
        StoreError::Unavailable
    }
}

/// What a failed write means where every integrity violation contradicts the stored state.
pub open spec fn conflict_classified(sql_state: Option<String>, entity: EntityKind) -> StoreError {
    if has_code(sql_state, "23503"@) || has_code(sql_state, "23505"@) || has_code(sql_state, "23514"@) {
        StoreError::Conflict { entity }
    } else {
        StoreError::Unavailable
    }
}

/// Classifies a failed write to a definition: a foreign-key, unique or check violation is a
/// conflict, and anything else an outage.
pub fn classify_conflict(sql_state: &Option<String>, entity: EntityKind) -> (error: StoreError)
    ensures
        error == conflict_classified(*sql_state, entity),
{
    if code_is(sql_state, "23503") || code_is(sql_state, "23505") || code_is(sql_state, "23514") {
        StoreError::Conflict { entity }
    } else {
        StoreError::Unavailable
    }
}

/// Classifies a failed insert of a project: a reused identity is a duplicate; any other unique
/// violation, and any check violation, is a conflict.
pub fn classify_project_create(sql_state: &Option<String>, constraint: &Option<String>) -> (error: StoreError)
    ensures
        error == (if has_code(*sql_state, "23505"@) && has_code(*constraint, "projects_pkey"@) {
            StoreError::Duplicate { entity: EntityKind::Project }
        } else if has_code(*sql_state, "23505"@) || has_code(*sql_state, "23514"@) {
            StoreError::Conflict { entity: EntityKind::Project }
        } else {
            StoreError::Unavailable
        }),
{
    let entity = EntityKind::Project;
    if code_is(sql_state, "23505") && code_is(constraint, "projects_pkey") {
        StoreError::Duplicate { entity }
    } else if code_is(sql_state, "23505") || code_is(sql_state, "23514") {
        StoreError::Conflict { entity }
    } else {
        StoreError::Unavailable
    }
}

/// A number is stored exactly where it is no more than the column can hold; otherwise the request is at fault.
pub proof fn numbers_are_stored_where_they_fit(value: u64, operation: StoreOperation)
    ensures
        fits_column(value) <==> value <= 0x7fff_ffff_ffff_ffff,
        out_of_range(operation) == (StoreError::InvalidInput { operation, source: StoreInputError::NumericOutOfRange }),
{
}

/// What a violated constraint means: a key that is taken is a duplicate, a reference to nothing is something that
/// was not found, and a rule or an exclusion that is broken is a conflict. Every other failure is the database's own.
pub proof fn violations_say_what_is_wrong(sql_state: Option<String>, entity: EntityKind)
    ensures
        sql_state is None ==> classified(sql_state, entity) == StoreError::Unavailable,
        sql_state matches Some(code) ==> {
            &&& code@ == "23505"@ <==> classified(sql_state, entity) == (StoreError::Duplicate { entity })
            &&& code@ == "23503"@ <==> classified(sql_state, entity) == (StoreError::NotFound { entity })
            &&& code@ == "23514"@ || code@ == "23P01"@ <==> classified(sql_state, entity) == (StoreError::Conflict {
                entity,
            })
            &&& code@ == "23503"@ || code@ == "23505"@ || code@ == "23514"@ <==> conflict_classified(sql_state, entity)
                == (StoreError::Conflict { entity })
        },
        conflict_classified(sql_state, entity) == (StoreError::Conflict { entity }) || conflict_classified(
            sql_state,
            entity,
        ) == StoreError::Unavailable,
{
    reveal_strlit("23505");
    reveal_strlit("23503");
    reveal_strlit("23514");
    reveal_strlit("23P01");
    assert("23505"@[4] == '5');
    assert("23503"@[4] == '3');
    assert("23514"@[4] == '4');
    assert("23P01"@[4] == '1');
}

/// What the database reports without one of the known codes is that it is unavailable.
pub proof fn unknown_faults_are_unavailable(entity: EntityKind)
    ensures
        classified(None, entity) == StoreError::Unavailable,
        conflict_classified(None, entity) == StoreError::Unavailable,
{
}

} // verus!
