//! Build configurations of projects, which are published in versions and refer to versions of a repository
//! and of a pipeline.

use vstd::prelude::*;

use crate::database::{fits_column, number, out_of_range};
use crate::domain::{
    identity, is_identity, is_timestamp, is_version, timestamp, version, EntityKind, MutationDisposition, StoreError,
    StoreInputError, StoreOperation, INITIAL_VERSION,
};
use crate::identity_text::{hyphenated, identity_text};
use crate::mutation::{outbox_topic_of, FactValue, Member, MutationFacts, MutationKind};
use crate::repository::{definition_verdict, validate};
use crate::versioned::{lock_named, publication, publish as publish_version, LatestVersion, NamedRow};

verus! {

/// What is built, and where.
pub struct BuildConfigurationDefinition {
    /// Whether anything is built at all.
    pub enabled: bool,
    /// The repository that is built.
    pub repository_id: u128,
    /// Version of that.
    pub repository_version: u64,
    /// The pipeline that builds it.
    pub pipeline_id: u128,
    /// Version of that.
    pub pipeline_version: u64,
    /// The pools whose agents may build it.
    pub allowed_pools: Vec<u128>,
    /// The definition as it is stored.
    pub snapshot: String,
}

/// A published version of a build configuration.
pub struct PublishedBuildConfiguration {
    /// The build configuration.
    pub id: u128,
    /// Its project.
    pub project_id: u128,
    /// Its name.
    pub name: String,
    /// The version.
    pub version: u64,
    /// Its definition.
    pub definition: BuildConfigurationDefinition,
    /// When it was published.
    pub published_at: i64,
}

/// A published version of a build configuration as the database holds it.
pub struct BuildConfigurationRow {
    /// The build configuration.
    pub id: u128,
    /// Its project.
    pub project_id: u128,
    /// Its name.
    pub name: String,
    /// Whether that is a valid name.
    pub name_is_valid: bool,
    /// The version.
    pub version: i64,
    /// Whether anything is built at all.
    pub enabled: bool,
    /// The repository that is built.
    pub repository_id: u128,
    /// Version of that.
    pub repository_version: i64,
    /// The pipeline that builds it.
    pub pipeline_id: u128,
    /// Version of that.
    pub pipeline_version: i64,
    /// The definition, where it can be read and is valid.
    pub definition: Option<BuildConfigurationDefinition>,
    /// When it was published.
    pub published_at_millis: i64,
}

/// Whether the columns beside a definition say what the definition says.
pub open spec fn agrees(definition: BuildConfigurationDefinition, row: BuildConfigurationRow) -> bool {
    &&& definition.enabled == row.enabled
    &&& definition.repository_id == row.repository_id
    &&& definition.repository_version == row.repository_version
    &&& definition.pipeline_id == row.pipeline_id
    &&& definition.pipeline_version == row.pipeline_version
}

/// Whether a build configuration can be read.
pub open spec fn is_readable(row: BuildConfigurationRow) -> bool {
    &&& is_identity(row.repository_id) && is_version(row.repository_version)
    &&& is_identity(row.pipeline_id) && is_version(row.pipeline_version)
    &&& row.definition matches Some(definition) && agrees(definition, row)
    &&& is_identity(row.id) && is_identity(row.project_id)
    &&& row.name_is_valid
    &&& is_version(row.version)
    &&& is_timestamp(row.published_at_millis)
}

/// Whether a build configuration is the one of a row.
pub open spec fn is_configuration_of(configuration: PublishedBuildConfiguration, row: BuildConfigurationRow) -> bool {
    &&& configuration.id == row.id
    &&& configuration.project_id == row.project_id
    &&& configuration.name@ == row.name@
    &&& configuration.version == row.version
    &&& row.definition == Some(configuration.definition)
    &&& configuration.published_at == row.published_at_millis
}

/// The version of a build configuration to read, as it is stored.
pub fn read_version(version: u64) -> (result: Result<i64, StoreError>)
    ensures
        result == (if fits_column(version) {
            Ok::<i64, StoreError>(version as i64)
        } else {
            Err(out_of_range(StoreOperation::ReadBuildConfigurationVersion))
        }),
{
    number(version, StoreOperation::ReadBuildConfigurationVersion)
}

/// Reads a version of a build configuration, where there is one. The columns beside the definition must say
/// what the definition says.
pub fn read(row: Option<BuildConfigurationRow>) -> (result: Result<PublishedBuildConfiguration, StoreError>)
    ensures
        match row {
            None => result is Err && result->Err_0 == (StoreError::NotFound { entity: EntityKind::Configuration }),
            Some(row) => match result {
                Ok(configuration) => is_readable(row) && is_configuration_of(configuration, row),
                Err(error) => error == StoreError::Unavailable && !is_readable(row),
            },
        },
{
    let row = match row {
        Some(row) => row,
        None => {
            return Err(StoreError::NotFound { entity: EntityKind::Configuration });
        },
    };
    let definition = match row.definition {
        Some(definition) => definition,
        None => {
            return Err(StoreError::Unavailable);
        },
    };
    let repository_id: u128 = identity(row.repository_id)?;
    let repository_version: u64 = version(row.repository_version)?;
    let pipeline_id: u128 = identity(row.pipeline_id)?;
    let pipeline_version: u64 = version(row.pipeline_version)?;
    if definition.enabled != row.enabled || definition.repository_id != repository_id || definition.repository_version
        != repository_version || definition.pipeline_id != pipeline_id || definition.pipeline_version
        != pipeline_version {
        return Err(StoreError::Unavailable);
    }
    let id: u128 = identity(row.id)?;
    let project_id: u128 = identity(row.project_id)?;
    if !row.name_is_valid {
        return Err(StoreError::Unavailable);
    }
    let configuration_version: u64 = version(row.version)?;
    let published_at: i64 = timestamp(row.published_at_millis)?;
    Ok(
        PublishedBuildConfiguration {
            id,
            project_id,
            name: row.name,
            version: configuration_version,
            definition,
            published_at,
        },
    )
}

/// What was found of the things that a definition refers to.
#[derive(Clone, Copy, Debug, PartialEq, Eq, Structural)]
pub struct References {
    /// Whether the version of the repository exists.
    pub repository_exists: bool,
    /// Whether the version of the pipeline exists, in the same project.
    pub pipeline_exists: bool,
    /// How many of the pools exist.
    pub pool_count: i64,
}

/// Why a definition refers to something that is not there, where it does.
pub open spec fn reference_fault(
    definition: BuildConfigurationDefinition,
    found: References,
    operation: StoreOperation,
) -> Option<StoreError> {
    if !fits_column(definition.repository_version) {
        Some(out_of_range(operation))
    } else if !found.repository_exists {
        Some(StoreError::NotFound { entity: EntityKind::Repository })
    } else if !fits_column(definition.pipeline_version) {
        Some(out_of_range(operation))
    } else if !found.pipeline_exists {
        Some(StoreError::NotFound { entity: EntityKind::Pipeline })
    } else if found.pool_count != definition.allowed_pools@.len() {
        Some(StoreError::NotFound { entity: EntityKind::Pool })
    } else {
        None
    }
}

/// Requires that everything a definition refers to is there.
pub fn require_references(definition: &BuildConfigurationDefinition, found: References, operation: StoreOperation) -> (
result: Result<(), StoreError>)
    ensures
        result == (match reference_fault(*definition, found, operation) {
            Some(error) => Err::<(), StoreError>(error),
            None => Ok(()),
        }),
{
    number(definition.repository_version, operation)?;
    if !found.repository_exists {
        return Err(StoreError::NotFound { entity: EntityKind::Repository });
    }
    number(definition.pipeline_version, operation)?;
    if !found.pipeline_exists {
        return Err(StoreError::NotFound { entity: EntityKind::Pipeline });
    }
    if found.pool_count < 0 || found.pool_count as u64 != definition.allowed_pools.len() as u64 {
        return Err(StoreError::NotFound { entity: EntityKind::Pool });
    }
    Ok(())
}

/// The columns of a version that hold numbers.
#[derive(Clone, Copy, Debug, PartialEq, Eq, Structural)]
pub struct VersionNumbers {
    /// The version.
    pub version: i64,
    /// Version of the repository.
    pub repository_version: i64,
    /// Version of the pipeline.
    pub pipeline_version: i64,
}

/// The columns of a version that hold numbers, where they can be stored.
pub open spec fn stored_numbers(version: u64, definition: BuildConfigurationDefinition, operation: StoreOperation) -> Result<
    VersionNumbers,
    StoreError,
> {
    if fits_column(version) && fits_column(definition.repository_version) && fits_column(definition.pipeline_version) {
        Ok(
            VersionNumbers {
                version: version as i64,
                repository_version: definition.repository_version as i64,
                pipeline_version: definition.pipeline_version as i64,
            },
        )
    } else {
        Err(out_of_range(operation))
    }
}

/// The columns of a version to insert that hold numbers.
pub fn insert_version(version: u64, definition: &BuildConfigurationDefinition, operation: StoreOperation) -> (result:
    Result<VersionNumbers, StoreError>)
    ensures
        result == stored_numbers(version, *definition, operation),
{
    Ok(
        VersionNumbers {
            version: number(version, operation)?,
            repository_version: number(definition.repository_version, operation)?,
            pipeline_version: number(definition.pipeline_version, operation)?,
        },
    )
}

/// What is written of a valid definition can be read back, and says the same.
pub proof fn stored_definitions_are_read_back(
    configuration: PublishedBuildConfiguration,
    operation: StoreOperation,
    numbers: VersionNumbers,
    row: BuildConfigurationRow,
)
    requires
        is_identity(configuration.id) && is_identity(configuration.project_id),
        is_identity(configuration.definition.repository_id) && configuration.definition.repository_version > 0,
        is_identity(configuration.definition.pipeline_id) && configuration.definition.pipeline_version > 0,
        configuration.version > 0,
        is_timestamp(configuration.published_at),
        stored_numbers(configuration.version, configuration.definition, operation) == Ok::<VersionNumbers, StoreError>(
            numbers,
        ),
        row == (BuildConfigurationRow {
            id: configuration.id,
            project_id: configuration.project_id,
            name: configuration.name,
            name_is_valid: true,
            version: numbers.version,
            enabled: configuration.definition.enabled,
            repository_id: configuration.definition.repository_id,
            repository_version: numbers.repository_version,
            pipeline_id: configuration.definition.pipeline_id,
            pipeline_version: numbers.pipeline_version,
            definition: Some(configuration.definition),
            published_at_millis: configuration.published_at,
        }),
    ensures
        is_readable(row),
        is_configuration_of(configuration, row),
{
}

/// A created or newly published build configuration.
pub struct BuildConfigurationMutationOutcome {
    /// Whether that happened now or before.
    pub disposition: MutationDisposition,
    /// The build configuration.
    pub configuration: PublishedBuildConfiguration,
}

/// A request to create a build configuration.
pub struct CreateBuildConfiguration {
    /// The build configuration.
    pub id: u128,
    /// Its project.
    pub project_id: u128,
    /// Its name.
    pub name: String,
    /// Its definition.
    pub definition: BuildConfigurationDefinition,
    /// When it is published.
    pub published_at: i64,
}

/// Why a build configuration is not created, where it is not.
pub open spec fn create_fault(
    fault: Option<StoreInputError>,
    project_exists: bool,
    found: References,
    request: CreateBuildConfiguration,
) -> Option<StoreError> {
    match definition_verdict(fault, StoreOperation::CreateBuildConfiguration) {
        Err(error) => Some(error),
        Ok(()) => if !project_exists {
            Some(StoreError::NotFound { entity: EntityKind::Project })
        } else {
            reference_fault(request.definition, found, StoreOperation::CreateBuildConfiguration)
        },
    }
}

/// Creates a build configuration in a project, which must exist, as must everything it refers to. `fault` is
/// what is wrong with the definition by itself, where anything is.
pub fn create(
    fault: Option<StoreInputError>,
    project_exists: bool,
    found: References,
    request: CreateBuildConfiguration,
) -> (result: Result<BuildConfigurationMutationOutcome, StoreError>)
    ensures
        result == (match create_fault(fault, project_exists, found, request) {
            Some(error) => Err(error),
            None => Ok::<BuildConfigurationMutationOutcome, StoreError>(
                BuildConfigurationMutationOutcome {
                    disposition: MutationDisposition::Applied,
                    configuration: PublishedBuildConfiguration {
                        id: request.id,
                        project_id: request.project_id,
                        name: request.name,
                        version: INITIAL_VERSION,
                        definition: request.definition,
                        published_at: request.published_at,
                    },
                },
            ),
        }),
{
    validate(fault, StoreOperation::CreateBuildConfiguration)?;
    if !project_exists {
        return Err(StoreError::NotFound { entity: EntityKind::Project });
    }
    require_references(&request.definition, found, StoreOperation::CreateBuildConfiguration)?;
    Ok(
        BuildConfigurationMutationOutcome {
            disposition: MutationDisposition::Applied,
            configuration: PublishedBuildConfiguration {
                id: request.id,
                project_id: request.project_id,
                name: request.name,
                version: INITIAL_VERSION,
                definition: request.definition,
                published_at: request.published_at,
            },
        },
    )
}

/// A request to publish a version of a build configuration.
pub struct PublishBuildConfigurationVersion {
    /// The build configuration.
    pub id: u128,
    /// The latest version, as far as known.
    pub expected_current_version: u64,
    /// Its definition.
    pub definition: BuildConfigurationDefinition,
    /// When it is published.
    pub published_at: i64,
}

/// Why a version of a build configuration is not published, where it is not.
pub open spec fn publish_fault(
    fault: Option<StoreInputError>,
    configuration: Option<NamedRow>,
    found: References,
    latest: LatestVersion,
    request: PublishBuildConfigurationVersion,
) -> Option<StoreError> {
    match definition_verdict(fault, StoreOperation::PublishBuildConfigurationVersion) {
        Err(error) => Some(error),
        Ok(()) => match configuration {
            None => Some(StoreError::NotFound { entity: EntityKind::Configuration }),
            Some(row) => if !is_identity(row.project_id) || !row.name_is_valid {
                Some(StoreError::Unavailable)
            } else {
                match reference_fault(request.definition, found, StoreOperation::PublishBuildConfigurationVersion) {
                    Some(error) => Some(error),
                    None => match publication(
                        latest,
                        request.expected_current_version,
                        request.published_at,
                        StoreOperation::PublishBuildConfigurationVersion,
                        EntityKind::Configuration,
                    ) {
                        Err(error) => Some(error),
                        Ok(_) => None,
                    },
                }
            },
        },
    }
}

/// Publishes a version of a build configuration.
pub fn publish(
    fault: Option<StoreInputError>,
    configuration: Option<NamedRow>,
    found: References,
    latest: LatestVersion,
    request: PublishBuildConfigurationVersion,
) -> (result: Result<BuildConfigurationMutationOutcome, StoreError>)
    ensures
        match result {
            Ok(outcome) => {
                &&& publish_fault(fault, configuration, found, latest, request) is None
                &&& outcome.disposition == MutationDisposition::Applied
                &&& outcome.configuration.id == request.id
                &&& outcome.configuration.project_id == configuration->Some_0.project_id
                &&& outcome.configuration.name@ == configuration->Some_0.name@
                &&& outcome.configuration.version == latest.version + 1
                &&& outcome.configuration.definition == request.definition
                &&& outcome.configuration.published_at == request.published_at
            },
            Err(error) => publish_fault(fault, configuration, found, latest, request) == Some(error),
        },
{
    validate(fault, StoreOperation::PublishBuildConfigurationVersion)?;
    let (project_id, name) = lock_named(configuration, EntityKind::Configuration)?;
    require_references(&request.definition, found, StoreOperation::PublishBuildConfigurationVersion)?;
    let published: u64 = publish_version(
        latest,
        request.expected_current_version,
        request.published_at,
        StoreOperation::PublishBuildConfigurationVersion,
        EntityKind::Configuration,
    )?;
    Ok(
        BuildConfigurationMutationOutcome {
            disposition: MutationDisposition::Applied,
            configuration: PublishedBuildConfiguration {
                id: request.id,
                project_id,
                name,
                version: published,
                definition: request.definition,
                published_at: request.published_at,
            },
        },
    )
}

/// What the audit trail and the outbox are told of a created or newly published build configuration.
pub fn facts(kind: MutationKind, configuration: &PublishedBuildConfiguration) -> (facts: MutationFacts)
    ensures
        facts.actor_kind@ == "unauthenticated_management"@,
        facts.actor_identity is None,
        facts.target_identity@ == hyphenated(configuration.id),
        facts.safe_metadata@ == seq![
            (Member { name: "enabled", value: FactValue::Flag(configuration.definition.enabled) }),
            (Member { name: "pipeline_id", value: FactValue::Identity(configuration.definition.pipeline_id) }),
            (Member { name: "pipeline_version", value: FactValue::Number(configuration.definition.pipeline_version) }),
            (Member { name: "project_id", value: FactValue::Identity(configuration.project_id) }),
            (Member { name: "repository_id", value: FactValue::Identity(configuration.definition.repository_id) }),
            (Member {
                name: "repository_version",
                value: FactValue::Number(configuration.definition.repository_version),
            }),
            (Member { name: "version", value: FactValue::Number(configuration.version) }),
        ],
        facts.outbox_payload@.len() == 4,
        facts.outbox_payload@[0] == (Member {
            name: "build_configuration_id",
            value: FactValue::Identity(configuration.id),
        }),
        facts.outbox_payload@[1].name@ == "event"@,
        facts.outbox_payload@[1].value matches FactValue::Word(word) && word@ == outbox_topic_of(kind),
        facts.outbox_payload@[2] == (Member {
            name: "project_id",
            value: FactValue::Identity(configuration.project_id),
        }),
        facts.outbox_payload@[3] == (Member { name: "version", value: FactValue::Number(configuration.version) }),
{
    let definition = &configuration.definition;
    MutationFacts {
        actor_kind: "unauthenticated_management",
        actor_identity: None,
        target_identity: identity_text(configuration.id),
        safe_metadata: vec![
            Member { name: "enabled", value: FactValue::Flag(definition.enabled) },
            Member { name: "pipeline_id", value: FactValue::Identity(definition.pipeline_id) },
            Member { name: "pipeline_version", value: FactValue::Number(definition.pipeline_version) },
            Member { name: "project_id", value: FactValue::Identity(configuration.project_id) },
            Member { name: "repository_id", value: FactValue::Identity(definition.repository_id) },
            Member { name: "repository_version", value: FactValue::Number(definition.repository_version) },
            Member { name: "version", value: FactValue::Number(configuration.version) },
        ],
        outbox_payload: vec![
            Member { name: "build_configuration_id", value: FactValue::Identity(configuration.id) },
            Member { name: "event", value: FactValue::Word(kind.outbox_topic()) },
            Member { name: "project_id", value: FactValue::Identity(configuration.project_id) },
            Member { name: "version", value: FactValue::Number(configuration.version) },
        ],
    }
}

/// Turns a stored outcome into the answer to a repeated request.
pub fn replay(outcome: BuildConfigurationMutationOutcome) -> (replayed: BuildConfigurationMutationOutcome)
    ensures
        replayed == (BuildConfigurationMutationOutcome { disposition: MutationDisposition::Replayed, ..outcome }),
{
    BuildConfigurationMutationOutcome { disposition: MutationDisposition::Replayed, ..outcome }
}

/// A configuration refers only to what exists: its repository and its pipeline, in the versions that it names, and
/// every pool that it allows. What is missing is named.
pub proof fn configurations_refer_to_what_exists(
    definition: BuildConfigurationDefinition,
    found: References,
    operation: StoreOperation,
)
    requires
        definition.repository_version <= i64::MAX,
        definition.pipeline_version <= i64::MAX,
    ensures
        reference_fault(definition, found, operation) == (if !found.repository_exists {
            Some(StoreError::NotFound { entity: EntityKind::Repository })
        } else if !found.pipeline_exists {
            Some(StoreError::NotFound { entity: EntityKind::Pipeline })
        } else if found.pool_count != definition.allowed_pools@.len() {
            Some(StoreError::NotFound { entity: EntityKind::Pool })
        } else {
            None
        }),
{
}

/// A configuration is created exactly in a project that exists, where its definition is in order and refers to what
/// exists.
pub proof fn configurations_are_created_in_their_project(
    fault: Option<StoreInputError>,
    project_exists: bool,
    found: References,
    request: CreateBuildConfiguration,
)
    requires
        request.definition.repository_version <= i64::MAX,
        request.definition.pipeline_version <= i64::MAX,
    ensures
        create_fault(fault, project_exists, found, request) is None <==> fault is None && project_exists
            && found.repository_exists && found.pipeline_exists && found.pool_count
            == request.definition.allowed_pools@.len(),
        fault is None && !project_exists ==> create_fault(fault, project_exists, found, request) == Some(
            StoreError::NotFound { entity: EntityKind::Project },
        ),
        fault matches Some(source) ==> create_fault(fault, project_exists, found, request) == Some(
            StoreError::InvalidInput { operation: StoreOperation::CreateBuildConfiguration, source },
        ),
{
}

/// A version of a configuration is published exactly over the one that was expected, and not before that was, where its
/// definition is in order and refers to what exists.
pub proof fn configurations_are_published_over_what_was_expected(
    fault: Option<StoreInputError>,
    configuration: NamedRow,
    found: References,
    latest: LatestVersion,
    request: PublishBuildConfigurationVersion,
)
    requires
        configuration.project_id != 0 && configuration.name_is_valid,
        request.definition.repository_version <= i64::MAX,
        request.definition.pipeline_version <= i64::MAX,
        request.expected_current_version < i64::MAX,
    ensures
        publish_fault(fault, Some(configuration), found, latest, request) is None <==> fault is None
            && found.repository_exists && found.pipeline_exists && found.pool_count
            == request.definition.allowed_pools@.len() && latest.version == request.expected_current_version
            && latest.published_at_millis <= request.published_at,
        fault is None ==> publish_fault(fault, None, found, latest, request) == Some(
            StoreError::NotFound { entity: EntityKind::Configuration },
        ),
{
}

/// A configuration is read only where what is stored beside its definition agrees with it.
pub proof fn configurations_agree_with_their_columns(row: BuildConfigurationRow)
    requires
        is_readable(row),
    ensures
        row.definition matches Some(definition) && definition.enabled == row.enabled && definition.repository_id
            == row.repository_id && definition.repository_version == row.repository_version && definition.pipeline_id
            == row.pipeline_id && definition.pipeline_version == row.pipeline_version,
        forall|configuration: PublishedBuildConfiguration| #[trigger]
            is_configuration_of(configuration, row) ==> configuration.id == row.id && configuration.project_id
                == row.project_id && configuration.name@ == row.name@ && configuration.version == row.version
                && row.definition == Some(configuration.definition) && configuration.published_at
                == row.published_at_millis,
{
}

/// A configuration is read exactly where the identities in it are set, its versions count from one, its time is no
/// earlier than the Unix epoch, its name is valid and its definition agrees with its columns.
pub proof fn sound_configurations_are_read(row: BuildConfigurationRow)
    ensures
        is_readable(row) <==> row.repository_id != 0 && row.repository_version > 0 && row.pipeline_id != 0
            && row.pipeline_version > 0 && row.definition is Some && agrees(row.definition->Some_0, row) && row.id != 0
            && row.project_id != 0 && row.name_is_valid && row.version > 0 && row.published_at_millis >= 0,
{
}

/// A new version of a configuration whose row cannot be read is refused as unavailable.
pub proof fn damaged_configurations_are_unavailable(
    row: NamedRow,
    found: References,
    latest: LatestVersion,
    request: PublishBuildConfigurationVersion,
)
    ensures
        row.project_id == 0 || !row.name_is_valid ==> publish_fault(None, Some(row), found, latest, request) == Some(
            StoreError::Unavailable,
        ),
        publish_fault(None, None, found, latest, request) == Some(
            StoreError::NotFound { entity: EntityKind::Configuration },
        ),
{
}

} // verus!
