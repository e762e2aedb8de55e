//! Pipelines of projects, which are published in versions.

use vstd::prelude::*;

use crate::database::{fits_column, number, out_of_range};
use crate::domain::{
    identity, is_identity, is_timestamp, is_version, timestamp, version, EntityKind, MutationDisposition, StoreError,
    StoreInputError, StoreOperation, INITIAL_VERSION,
};
use crate::identity_text::{hyphenated, identity_text};
use crate::mutation::{outbox_topic_of, FactValue, Member, MutationFacts, MutationKind};
use crate::versioned::{lock_named, publication, publish as publish_version, LatestVersion, NamedRow};

verus! {

/// The graph of a pipeline.
pub struct PipelineDag {
    /// The graph as it is stored.
    pub snapshot: String,
    /// Number of its nodes.
    pub node_count: u64,
    /// Number of its edges.
    pub edge_count: u64,
}

/// A published version of a pipeline.
pub struct PublishedPipeline {
    /// The pipeline.
    pub id: u128,
    /// Its project.
    pub project_id: u128,
    /// Its name.
    pub name: String,
    /// The version.
    pub version: u64,
    /// Its graph.
    pub dag: PipelineDag,
    /// When it was published.
    pub published_at: i64,
}

/// A published version of a pipeline as the database holds it.
pub struct PipelineRow {
    /// The pipeline.
    pub id: u128,
    /// Its project.
    pub project_id: u128,
    /// Its name.
    pub name: String,
    /// Whether that is a valid name.
    pub name_is_valid: bool,
    /// The version.
    pub version: i64,
    /// Its graph, where it can be read.
    pub dag: Option<PipelineDag>,
    /// When it was published.
    pub published_at_millis: i64,
}

/// Whether a pipeline can be read.
pub open spec fn is_readable(row: PipelineRow) -> bool {
    &&& is_identity(row.id) && is_identity(row.project_id)
    &&& row.name_is_valid
    &&& is_version(row.version)
    &&& row.dag is Some
    &&& is_timestamp(row.published_at_millis)
}

/// Whether a pipeline is the one of a row.
pub open spec fn is_pipeline_of(pipeline: PublishedPipeline, row: PipelineRow) -> bool {
    &&& pipeline.id == row.id
    &&& pipeline.project_id == row.project_id
    &&& pipeline.name@ == row.name@
    &&& pipeline.version == row.version
    &&& row.dag == Some(pipeline.dag)
    &&& pipeline.published_at == row.published_at_millis
}

/// The version of a pipeline to read, as it is stored.
pub fn read_version(version: u64) -> (result: Result<i64, StoreError>)
    ensures
        result == (if fits_column(version) {
            Ok::<i64, StoreError>(version as i64)
        } else {
            Err(out_of_range(StoreOperation::ReadPipelineVersion))
        }),
{
    number(version, StoreOperation::ReadPipelineVersion)
}

/// Reads a version of a pipeline, where there is one.
pub fn read(row: Option<PipelineRow>) -> (result: Result<PublishedPipeline, StoreError>)
    ensures
        match row {
            None => result is Err && result->Err_0 == (StoreError::NotFound { entity: EntityKind::Pipeline }),
            Some(row) => match result {
                Ok(pipeline) => is_readable(row) && is_pipeline_of(pipeline, row),
                Err(error) => error == StoreError::Unavailable && !is_readable(row),
            },
        },
{
    let row = match row {
        Some(row) => row,
        None => {
            return Err(StoreError::NotFound { entity: EntityKind::Pipeline });
        },
    };
    let id: u128 = identity(row.id)?;
    let project_id: u128 = identity(row.project_id)?;
    if !row.name_is_valid {
        return Err(StoreError::Unavailable);
    }
    let pipeline_version: u64 = version(row.version)?;
    let published_at: i64 = timestamp(row.published_at_millis)?;
    match row.dag {
        Some(dag) => Ok(
            PublishedPipeline { id, project_id, name: row.name, version: pipeline_version, dag, published_at },
        ),
        None => Err(StoreError::Unavailable),
    }
}

/// Requires that a graph is valid.
pub fn validate_dag(is_valid: bool, operation: StoreOperation) -> (result: Result<(), StoreError>)
    ensures
        result == dag_verdict(is_valid, operation),
{
    if is_valid {
        Ok(())
    } else {
        Err(StoreError::InvalidInput { operation, source: StoreInputError::InvalidPipelineSnapshot })
    }
}

/// The verdict on a graph.
pub open spec fn dag_verdict(is_valid: bool, operation: StoreOperation) -> Result<(), StoreError> {
    if is_valid {
        Ok(())
    } else {
        Err(StoreError::InvalidInput { operation, source: StoreInputError::InvalidPipelineSnapshot })
    }
}

/// A created or newly published pipeline.
pub struct PipelineMutationOutcome {
    /// Whether that happened now or before.
    pub disposition: MutationDisposition,
    /// The pipeline.
    pub pipeline: PublishedPipeline,
}

/// A request to create a pipeline.
pub struct CreatePipeline {
    /// The pipeline.
    pub id: u128,
    /// Its project.
    pub project_id: u128,
    /// Its name.
    pub name: String,
    /// Its graph.
    pub dag: PipelineDag,
    /// When it is published.
    pub published_at: i64,
}

/// Creates a pipeline in a project, which must exist.
pub fn create(dag_is_valid: bool, project_exists: bool, request: CreatePipeline) -> (result: Result<
    PipelineMutationOutcome,
    StoreError,
>)
    ensures
        result == (match dag_verdict(dag_is_valid, StoreOperation::CreatePipeline) {
            Err(error) => Err(error),
            Ok(()) => if !project_exists {
                Err(StoreError::NotFound { entity: EntityKind::Project })
            } else {
                Ok::<PipelineMutationOutcome, StoreError>(
                    PipelineMutationOutcome {
                        disposition: MutationDisposition::Applied,
                        pipeline: PublishedPipeline {
                            id: request.id,
                            project_id: request.project_id,
                            name: request.name,
                            version: INITIAL_VERSION,
                            dag: request.dag,
                            published_at: request.published_at,
                        },
                    },
                )
            },
        }),
{
    validate_dag(dag_is_valid, StoreOperation::CreatePipeline)?;
    if !project_exists {
        return Err(StoreError::NotFound { entity: EntityKind::Project });
    }
    Ok(
        PipelineMutationOutcome {
            disposition: MutationDisposition::Applied,
            pipeline: PublishedPipeline {
                id: request.id,
                project_id: request.project_id,
                name: request.name,
                version: INITIAL_VERSION,
                dag: request.dag,
                published_at: request.published_at,
            },
        },
    )
}

/// A request to publish a version of a pipeline.
pub struct PublishPipelineVersion {
    /// The pipeline.
    pub id: u128,
    /// The latest version, as far as known.
    pub expected_current_version: u64,
    /// Its graph.
    pub dag: PipelineDag,
    /// When it is published.
    pub published_at: i64,
}

/// Why a version of a pipeline is not published, where it is not.
pub open spec fn publish_fault(
    dag_is_valid: bool,
    pipeline: Option<NamedRow>,
    latest: LatestVersion,
    request: PublishPipelineVersion,
) -> Option<StoreError> {
    match dag_verdict(dag_is_valid, StoreOperation::PublishPipelineVersion) {
        Err(error) => Some(error),
        Ok(()) => match pipeline {
            None => Some(StoreError::NotFound { entity: EntityKind::Pipeline }),
            Some(row) => if !is_identity(row.project_id) || !row.name_is_valid {
                Some(StoreError::Unavailable)
            } else {
                match publication(
                    latest,
                    request.expected_current_version,
                    request.published_at,
                    StoreOperation::PublishPipelineVersion,
                    EntityKind::Pipeline,
                ) {
                    Err(error) => Some(error),
                    Ok(_) => None,
                }
            },
        },
    }
}

/// Publishes a version of a pipeline.
pub fn publish(dag_is_valid: bool, pipeline: Option<NamedRow>, latest: LatestVersion, request: PublishPipelineVersion) -> (
result: Result<PipelineMutationOutcome, StoreError>)
    ensures
        match result {
            Ok(outcome) => {
                &&& publish_fault(dag_is_valid, pipeline, latest, request) is None
                &&& outcome.disposition == MutationDisposition::Applied
                &&& outcome.pipeline.id == request.id
                &&& outcome.pipeline.project_id == pipeline->Some_0.project_id
                &&& outcome.pipeline.name@ == pipeline->Some_0.name@
                &&& outcome.pipeline.version == latest.version + 1
                &&& outcome.pipeline.dag == request.dag
                &&& outcome.pipeline.published_at == request.published_at
            },
            Err(error) => publish_fault(dag_is_valid, pipeline, latest, request) == Some(error),
        },
{
    validate_dag(dag_is_valid, StoreOperation::PublishPipelineVersion)?;
    let (project_id, name) = lock_named(pipeline, EntityKind::Pipeline)?;
    let published: u64 = publish_version(
        latest,
        request.expected_current_version,
        request.published_at,
        StoreOperation::PublishPipelineVersion,
        EntityKind::Pipeline,
    )?;
    Ok(
        PipelineMutationOutcome {
            disposition: MutationDisposition::Applied,
            pipeline: PublishedPipeline {
                id: request.id,
                project_id,
                name,
                version: published,
                dag: request.dag,
                published_at: request.published_at,
            },
        },
    )
}

/// The version of a pipeline to insert, as it is stored.
pub fn insert_version(version: u64, operation: StoreOperation) -> (result: Result<i64, StoreError>)
    ensures
        result == (if fits_column(version) {
            Ok::<i64, StoreError>(version as i64)
        } else {
            Err(out_of_range(operation))
        }),
{
    number(version, operation)
}

/// What the audit trail and the outbox are told of a created or newly published pipeline.
pub fn facts(kind: MutationKind, pipeline: &PublishedPipeline) -> (facts: MutationFacts)
    ensures
        facts.actor_kind@ == "unauthenticated_management"@,
        facts.actor_identity is None,
        facts.target_identity@ == hyphenated(pipeline.id),
        facts.safe_metadata@ == seq![
            (Member { name: "edge_count", value: FactValue::Number(pipeline.dag.edge_count) }),
            (Member { name: "node_count", value: FactValue::Number(pipeline.dag.node_count) }),
            (Member { name: "project_id", value: FactValue::Identity(pipeline.project_id) }),
            (Member { name: "version", value: FactValue::Number(pipeline.version) }),
        ],
        facts.outbox_payload@.len() == 4,
        facts.outbox_payload@[0].name@ == "event"@,
        facts.outbox_payload@[0].value matches FactValue::Word(word) && word@ == outbox_topic_of(kind),
        facts.outbox_payload@[1] == (Member { name: "pipeline_id", value: FactValue::Identity(pipeline.id) }),
        facts.outbox_payload@[2] == (Member { name: "project_id", value: FactValue::Identity(pipeline.project_id) }),
        facts.outbox_payload@[3] == (Member { name: "version", value: FactValue::Number(pipeline.version) }),
{
    MutationFacts {
        actor_kind: "unauthenticated_management",
        actor_identity: None,
        target_identity: identity_text(pipeline.id),
        safe_metadata: vec![
            Member { name: "edge_count", value: FactValue::Number(pipeline.dag.edge_count) },
            Member { name: "node_count", value: FactValue::Number(pipeline.dag.node_count) },
            Member { name: "project_id", value: FactValue::Identity(pipeline.project_id) },
            Member { name: "version", value: FactValue::Number(pipeline.version) },
        ],
        outbox_payload: vec![
            Member { name: "event", value: FactValue::Word(kind.outbox_topic()) },
            Member { name: "pipeline_id", value: FactValue::Identity(pipeline.id) },
            Member { name: "project_id", value: FactValue::Identity(pipeline.project_id) },
            Member { name: "version", value: FactValue::Number(pipeline.version) },
        ],
    }
}

/// Turns a stored outcome into the answer to a repeated request.
pub fn replay(outcome: PipelineMutationOutcome) -> (replayed: PipelineMutationOutcome)
    ensures
        replayed == (PipelineMutationOutcome { disposition: MutationDisposition::Replayed, ..outcome }),
{
    PipelineMutationOutcome { disposition: MutationDisposition::Replayed, ..outcome }
}

/// A version of a pipeline is published exactly over the one that was expected, and not before that was, where its
/// graph is in order and the pipeline exists.
pub proof fn pipelines_are_published_over_what_was_expected(
    dag_is_valid: bool,
    pipeline: NamedRow,
    latest: LatestVersion,
    request: PublishPipelineVersion,
)
    requires
        pipeline.project_id != 0 && pipeline.name_is_valid,
        request.expected_current_version < i64::MAX,
    ensures
        publish_fault(dag_is_valid, Some(pipeline), latest, request) == (if !dag_is_valid {
            Some(
                StoreError::InvalidInput {
                    operation: StoreOperation::PublishPipelineVersion,
                    source: StoreInputError::InvalidPipelineSnapshot,
                },
            )
        } else if latest.version == request.expected_current_version && latest.published_at_millis
            <= request.published_at {
            None
        } else {
            Some(StoreError::Conflict { entity: EntityKind::Pipeline })
        }),
        dag_is_valid ==> publish_fault(dag_is_valid, None, latest, request) == Some(
            StoreError::NotFound { entity: EntityKind::Pipeline },
        ),
        forall|operation: StoreOperation|
            (#[trigger] dag_verdict(dag_is_valid, operation)) is Ok <==> dag_is_valid,
{
}

/// A pipeline is read as it was published.
pub proof fn pipelines_are_read_as_published(pipeline: PublishedPipeline, row: PipelineRow)
    ensures
        is_pipeline_of(pipeline, row) ==> pipeline.id == row.id && pipeline.project_id == row.project_id
            && pipeline.name@ == row.name@ && pipeline.version == row.version && row.dag == Some(pipeline.dag)
            && pipeline.published_at == row.published_at_millis,
        is_readable(row) <==> row.id != 0 && row.project_id != 0 && row.name_is_valid && row.version > 0 && row.dag
            is Some && row.published_at_millis >= 0,
{
}

/// A new version of a pipeline whose row cannot be read is refused as unavailable.
pub proof fn damaged_pipelines_are_unavailable(row: NamedRow, latest: LatestVersion, request: PublishPipelineVersion)
    ensures
        row.project_id == 0 || !row.name_is_valid ==> publish_fault(true, Some(row), latest, request) == Some(
            StoreError::Unavailable,
        ),
        publish_fault(true, None, latest, request) == Some(StoreError::NotFound { entity: EntityKind::Pipeline }),
{
}

} // verus!
