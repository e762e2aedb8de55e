//! Definitions that are published in versions, under the name of something that belongs to a project.

use vstd::prelude::*;

use crate::database::{fits_column, number, out_of_range};
use crate::domain::{identity, is_identity, next_version, EntityKind, StoreError, StoreOperation};

verus! {

/// The latest version of a definition, as the database holds it.
#[derive(Clone, Copy, Debug, PartialEq, Eq, Structural)]
pub struct LatestVersion {
    /// The version.
    pub version: i64,
    /// When it was published.
    pub published_at_millis: i64,
}

/// The version under which a definition is published: the latest one must be the expected one, and not
/// younger.
pub open spec fn publication(
    latest: LatestVersion,
    expected: u64,
    published_at: i64,
    operation: StoreOperation,
    entity: EntityKind,
) -> Result<u64, StoreError> {
    if !fits_column(expected) {
        Err(out_of_range(operation))
    } else if latest.version != expected || published_at < latest.published_at_millis {
        Err(StoreError::Conflict { entity })
    } else if expected == i64::MAX {
        Err(out_of_range(operation))
    } else {
        Ok((expected + 1) as u64)
    }
}

/// Decides under which version a definition is published.
pub fn publish(latest: LatestVersion, expected: u64, published_at: i64, operation: StoreOperation, entity: EntityKind) -> (
result: Result<u64, StoreError>)
    ensures
        result == publication(latest, expected, published_at, operation, entity),
{
    let stored: i64 = number(expected, operation)?;
    if latest.version != stored || published_at < latest.published_at_millis {
        return Err(StoreError::Conflict { entity });
    }
    let next: u64 = next_version(expected)?;
    number(next, operation)?;
    Ok(next)
}

/// Versions follow each other without a gap and not backwards in time, and of two requests that expect the
/// same version only one is published.
pub proof fn versions_follow_each_other(
    latest: LatestVersion,
    expected: u64,
    published_at: i64,
    operation: StoreOperation,
    entity: EntityKind,
    published: u64,
    later: i64,
)
    requires
        publication(latest, expected, published_at, operation, entity) == Ok::<u64, StoreError>(published),
    ensures
        published == latest.version + 1,
        published_at >= latest.published_at_millis,
        publication(
            LatestVersion { version: published as i64, published_at_millis: published_at },
            expected,
            later,
            operation,
            entity,
        ) == Err::<u64, StoreError>(StoreError::Conflict { entity }),
{
}

/// Something that has a name in a project, as the database holds it.
pub struct NamedRow {
    /// The project.
    pub project_id: u128,
    /// The name.
    pub name: String,
    /// Whether that is a valid name.
    pub name_is_valid: bool,
}

/// Reads the project and the name of something that is locked, where there is such a thing.
pub fn lock_named(row: Option<NamedRow>, entity: EntityKind) -> (result: Result<(u128, String), StoreError>)
    ensures
        match row {
            None => result is Err && result->Err_0 == (StoreError::NotFound { entity }),
            Some(row) => match result {
                Ok(named) => {
                    &&& is_identity(row.project_id) && row.name_is_valid
                    &&& named.0 == row.project_id
                    &&& named.1@ == row.name@
                },
                Err(error) => error == StoreError::Unavailable && !(is_identity(row.project_id) && row.name_is_valid),
            },
        },
{
    match row {
        None => Err(StoreError::NotFound { entity }),
        Some(row) => {
            let project_id: u128 = identity(row.project_id)?;
            if !row.name_is_valid {
                return Err(StoreError::Unavailable);
            }
            Ok((project_id, row.name))
        },
    }
}

/// A definition is published exactly over the latest version, and not before that one was; whoever expects another
/// version is refused.
pub proof fn definitions_are_published_over_the_latest_version(
    latest: LatestVersion,
    expected: u64,
    published_at: i64,
    operation: StoreOperation,
    entity: EntityKind,
)
    requires
        expected < i64::MAX,
    ensures
        publication(latest, expected, published_at, operation, entity) == (if latest.version == expected && published_at
            >= latest.published_at_millis {
            Ok::<u64, StoreError>((expected + 1) as u64)
        } else {
            Err(StoreError::Conflict { entity })
        }),
{
}

} // verus!
