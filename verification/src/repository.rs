//! Repositories of projects, which are published in versions.

use vstd::prelude::*;

use crate::database::{fits_column, number, out_of_range};
use crate::domain::{
    identity, is_identity, is_timestamp, is_version, timestamp, version, EntityKind, MutationDisposition, StoreError,
    StoreInputError, StoreOperation, INITIAL_VERSION,
};
use crate::identity_text::{hyphenated, identity_text};
use crate::mutation::{outbox_topic_of, FactValue, Member, MutationFacts, MutationKind};
use crate::versioned::{lock_named, publication, publish as publish_version, LatestVersion, NamedRow};

verus! {

/// Where a repository is, and which of its revisions are built.
pub struct RepositoryDefinition {
    /// The version control system it is in.
    pub vcs_integration_id: u128,
    /// Where it is there.
    pub repository_locator: String,
    /// Which of its revisions are built.
    pub selection: String,
}

/// A published version of a repository.
pub struct PublishedRepository {
    /// The repository.
    pub id: u128,
    /// Its project.
    pub project_id: u128,
    /// Its name.
    pub name: String,
    /// The version.
    pub version: u64,
    /// Its definition.
    pub definition: RepositoryDefinition,
    /// When it was published.
    pub published_at: i64,
}

/// A published version of a repository as the database holds it.
pub struct RepositoryRow {
    /// The repository.
    pub id: u128,
    /// Its project.
    pub project_id: u128,
    /// Its name.
    pub name: String,
    /// Whether that is a valid name.
    pub name_is_valid: bool,
    /// The version.
    pub version: i64,
    /// The version control system it is in.
    pub vcs_integration_id: u128,
    /// Where it is there.
    pub repository_locator: String,
    /// Which of its revisions are built.
    pub selection_policy: String,
    /// Whether these make up a valid definition.
    pub definition_is_valid: bool,
    /// When it was published.
    pub published_at_millis: i64,
}

/// Whether a repository can be read.
pub open spec fn is_readable(row: RepositoryRow) -> bool {
    &&& is_identity(row.vcs_integration_id)
    &&& row.definition_is_valid
    &&& is_identity(row.id) && is_identity(row.project_id)
    &&& row.name_is_valid
    &&& is_version(row.version)
    &&& is_timestamp(row.published_at_millis)
}

/// Whether a repository is the one of a row.
pub open spec fn is_repository_of(repository: PublishedRepository, row: RepositoryRow) -> bool {
    &&& repository.id == row.id
    &&& repository.project_id == row.project_id
    &&& repository.name@ == row.name@
    &&& repository.version == row.version
    &&& repository.definition.vcs_integration_id == row.vcs_integration_id
    &&& repository.definition.repository_locator@ == row.repository_locator@
    &&& repository.definition.selection@ == row.selection_policy@
    &&& repository.published_at == row.published_at_millis
}

/// The version of a repository to read, as it is stored.
pub fn read_version(version: u64) -> (result: Result<i64, StoreError>)
    ensures
        result == (if fits_column(version) {
            Ok::<i64, StoreError>(version as i64)
        } else {
            Err(out_of_range(StoreOperation::ReadRepositoryVersion))
        }),
{
    number(version, StoreOperation::ReadRepositoryVersion)
}

/// Reads a version of a repository, where there is one.
pub fn read(row: Option<RepositoryRow>) -> (result: Result<PublishedRepository, StoreError>)
    ensures
        match row {
            None => result is Err && result->Err_0 == (StoreError::NotFound { entity: EntityKind::Repository }),
            Some(row) => match result {
                Ok(repository) => is_readable(row) && is_repository_of(repository, row),
                Err(error) => error == StoreError::Unavailable && !is_readable(row),
            },
        },
{
    let row = match row {
        Some(row) => row,
        None => {
            return Err(StoreError::NotFound { entity: EntityKind::Repository });
        },
    };
    let vcs_integration_id: u128 = identity(row.vcs_integration_id)?;
    if !row.definition_is_valid || !row.name_is_valid {
        return Err(StoreError::Unavailable);
    }
    let id: u128 = identity(row.id)?;
    let project_id: u128 = identity(row.project_id)?;
    let repository_version: u64 = version(row.version)?;
    let published_at: i64 = timestamp(row.published_at_millis)?;
    Ok(
        PublishedRepository {
            id,
            project_id,
            name: row.name,
            version: repository_version,
            definition: RepositoryDefinition {
                vcs_integration_id,
                repository_locator: row.repository_locator,
                selection: row.selection_policy,
            },
            published_at,
        },
    )
}

/// The verdict on a definition.
pub open spec fn definition_verdict(fault: Option<StoreInputError>, operation: StoreOperation) -> Result<(), StoreError> {
    match fault {
        None => Ok(()),
        Some(source) => Err(StoreError::InvalidInput { operation, source }),
    }
}

/// Requires that a definition is valid: `fault` is what is wrong with it, where anything is.
pub fn validate(fault: Option<StoreInputError>, operation: StoreOperation) -> (result: Result<(), StoreError>)
    ensures
        result == definition_verdict(fault, operation),
{
    match fault {
        None => Ok(()),
        Some(source) => Err(StoreError::InvalidInput { operation, source }),
    }
}

/// A created or newly published repository.
pub struct RepositoryMutationOutcome {
    /// Whether that happened now or before.
    pub disposition: MutationDisposition,
    /// The repository.
    pub repository: PublishedRepository,
}

/// A request to create a repository.
pub struct CreateRepository {
    /// The repository.
    pub id: u128,
    /// Its project.
    pub project_id: u128,
    /// Its name.
    pub name: String,
    /// Its definition.
    pub definition: RepositoryDefinition,
    /// When it is published.
    pub published_at: i64,
}

/// Creates a repository in a project, which must exist.
pub fn create(fault: Option<StoreInputError>, project_exists: bool, request: CreateRepository) -> (result: Result<
    RepositoryMutationOutcome,
    StoreError,
>)
    ensures
        result == (match definition_verdict(fault, StoreOperation::CreateRepository) {
            Err(error) => Err(error),
            Ok(()) => if !project_exists {
                Err(StoreError::NotFound { entity: EntityKind::Project })
            } else {
                Ok::<RepositoryMutationOutcome, StoreError>(
                    RepositoryMutationOutcome {
                        disposition: MutationDisposition::Applied,
                        repository: PublishedRepository {
                            id: request.id,
                            project_id: request.project_id,
                            name: request.name,
                            version: INITIAL_VERSION,
                            definition: request.definition,
                            published_at: request.published_at,
                        },
                    },
                )
            },
        }),
{
    validate(fault, StoreOperation::CreateRepository)?;
    if !project_exists {
        return Err(StoreError::NotFound { entity: EntityKind::Project });
    }
    Ok(
        RepositoryMutationOutcome {
            disposition: MutationDisposition::Applied,
            repository: PublishedRepository {
                id: request.id,
                project_id: request.project_id,
                name: request.name,
                version: INITIAL_VERSION,
                definition: request.definition,
                published_at: request.published_at,
            },
        },
    )
}

/// A request to publish a version of a repository.
pub struct PublishRepositoryVersion {
    /// The repository.
    pub id: u128,
    /// The latest version, as far as known.
    pub expected_current_version: u64,
    /// Its definition.
    pub definition: RepositoryDefinition,
    /// When it is published.
    pub published_at: i64,
}

/// Why a version of a repository is not published, where it is not.
pub open spec fn publish_fault(
    fault: Option<StoreInputError>,
    repository: Option<NamedRow>,
    latest: LatestVersion,
    request: PublishRepositoryVersion,
) -> Option<StoreError> {
    match definition_verdict(fault, StoreOperation::PublishRepositoryVersion) {
        Err(error) => Some(error),
        Ok(()) => match repository {
            None => Some(StoreError::NotFound { entity: EntityKind::Repository }),
            Some(row) => if !is_identity(row.project_id) || !row.name_is_valid {
                Some(StoreError::Unavailable)
            } else {
                match publication(
                    latest,
                    request.expected_current_version,
                    request.published_at,
                    StoreOperation::PublishRepositoryVersion,
                    EntityKind::Repository,
                ) {
                    Err(error) => Some(error),
                    Ok(_) => None,
                }
            },
        },
    }
}

/// Publishes a version of a repository.
pub fn publish(
    fault: Option<StoreInputError>,
    repository: Option<NamedRow>,
    latest: LatestVersion,
    request: PublishRepositoryVersion,
) -> (result: Result<RepositoryMutationOutcome, StoreError>)
    ensures
        match result {
            Ok(outcome) => {
                &&& publish_fault(fault, repository, latest, request) is None
                &&& outcome.disposition == MutationDisposition::Applied
                &&& outcome.repository.id == request.id
                &&& outcome.repository.project_id == repository->Some_0.project_id
                &&& outcome.repository.name@ == repository->Some_0.name@
                &&& outcome.repository.version == latest.version + 1
                &&& outcome.repository.definition == request.definition
                &&& outcome.repository.published_at == request.published_at
            },
            Err(error) => publish_fault(fault, repository, latest, request) == Some(error),
        },
{
    validate(fault, StoreOperation::PublishRepositoryVersion)?;
    let (project_id, name) = lock_named(repository, EntityKind::Repository)?;
    let published: u64 = publish_version(
        latest,
        request.expected_current_version,
        request.published_at,
        StoreOperation::PublishRepositoryVersion,
        EntityKind::Repository,
    )?;
    Ok(
        RepositoryMutationOutcome {
            disposition: MutationDisposition::Applied,
            repository: PublishedRepository {
                id: request.id,
                project_id,
                name,
                version: published,
                definition: request.definition,
                published_at: request.published_at,
            },
        },
    )
}

/// What the audit trail and the outbox are told of a created or newly published repository.
pub fn facts(kind: MutationKind, repository: &PublishedRepository) -> (facts: MutationFacts)
    ensures
        facts.actor_kind@ == "unauthenticated_management"@,
        facts.actor_identity is None,
        facts.target_identity@ == hyphenated(repository.id),
        facts.safe_metadata@ == seq![
            (Member { name: "project_id", value: FactValue::Identity(repository.project_id) }),
            (Member { name: "version", value: FactValue::Number(repository.version) }),
        ],
        facts.outbox_payload@.len() == 4,
        facts.outbox_payload@[0].name@ == "event"@,
        facts.outbox_payload@[0].value matches FactValue::Word(word) && word@ == outbox_topic_of(kind),
        facts.outbox_payload@[1] == (Member { name: "project_id", value: FactValue::Identity(repository.project_id) }),
        facts.outbox_payload@[2] == (Member { name: "repository_id", value: FactValue::Identity(repository.id) }),
        facts.outbox_payload@[3] == (Member { name: "version", value: FactValue::Number(repository.version) }),
{
    MutationFacts {
        actor_kind: "unauthenticated_management",
        actor_identity: None,
        target_identity: identity_text(repository.id),
        safe_metadata: vec![
            Member { name: "project_id", value: FactValue::Identity(repository.project_id) },
            Member { name: "version", value: FactValue::Number(repository.version) },
        ],
        outbox_payload: vec![
            Member { name: "event", value: FactValue::Word(kind.outbox_topic()) },
            Member { name: "project_id", value: FactValue::Identity(repository.project_id) },
            Member { name: "repository_id", value: FactValue::Identity(repository.id) },
            Member { name: "version", value: FactValue::Number(repository.version) },
        ],
    }
}

/// Turns a stored outcome into the answer to a repeated request.
pub fn replay(outcome: RepositoryMutationOutcome) -> (replayed: RepositoryMutationOutcome)
    ensures
        replayed == (RepositoryMutationOutcome { disposition: MutationDisposition::Replayed, ..outcome }),
{
    RepositoryMutationOutcome { disposition: MutationDisposition::Replayed, ..outcome }
}

/// A version of a repository is published exactly over the one that was expected, and not before that was, where its
/// definition is in order and the repository exists.
pub proof fn repositories_are_published_over_what_was_expected(
    fault: Option<StoreInputError>,
    repository: NamedRow,
    latest: LatestVersion,
    request: PublishRepositoryVersion,
)
    requires
        repository.project_id != 0 && repository.name_is_valid,
        request.expected_current_version < i64::MAX,
    ensures
        publish_fault(fault, Some(repository), latest, request) == (match fault {
            Some(source) => Some(
                StoreError::InvalidInput { operation: StoreOperation::PublishRepositoryVersion, source },
            ),
            None => if latest.version == request.expected_current_version && latest.published_at_millis
                <= request.published_at {
                None
            } else {
                Some(StoreError::Conflict { entity: EntityKind::Repository })
            },
        }),
        fault is None ==> publish_fault(fault, None, latest, request) == Some(
            StoreError::NotFound { entity: EntityKind::Repository },
        ),
        forall|operation: StoreOperation| (#[trigger] definition_verdict(fault, operation)) is Ok <==> fault is None,
{
}

/// A repository is read as it was published.
pub proof fn repositories_are_read_as_published(repository: PublishedRepository, row: RepositoryRow)
    ensures
        is_repository_of(repository, row) ==> repository.id == row.id && repository.project_id == row.project_id
            && repository.name@ == row.name@ && repository.version == row.version
            && repository.definition.vcs_integration_id == row.vcs_integration_id
            && repository.definition.repository_locator@ == row.repository_locator@ && repository.definition.selection@
            == row.selection_policy@ && repository.published_at == row.published_at_millis,
        is_readable(row) <==> row.vcs_integration_id != 0 && row.definition_is_valid && row.id != 0 && row.project_id
            != 0 && row.name_is_valid && row.version > 0 && row.published_at_millis >= 0,
{
}

/// A new version of a repository whose row cannot be read is refused as unavailable.
pub proof fn damaged_repositories_are_unavailable(
    row: NamedRow,
    latest: LatestVersion,
    request: PublishRepositoryVersion,
)
    ensures
        row.project_id == 0 || !row.name_is_valid ==> publish_fault(None, Some(row), latest, request) == Some(
            StoreError::Unavailable,
        ),
        publish_fault(None, None, latest, request) == Some(StoreError::NotFound { entity: EntityKind::Repository }),
{
}

} // verus!
