use store_postgres::build_configuration::{
    self, require_references, BuildConfigurationDefinition, BuildConfigurationRow, CreateBuildConfiguration,
    PublishBuildConfigurationVersion, References,
};
use store_postgres::domain::{
    EntityKind, MutationDisposition, StoreError, StoreInputError, StoreOperation, INITIAL_VERSION,
};
use store_postgres::mutation::{FactValue, MutationKind};
use store_postgres::pipeline::{self, CreatePipeline, PipelineDag, PipelineRow, PublishPipelineVersion};
use store_postgres::policy::{lineage, policy_facts, publish_policy, replay_policy, PolicyRow};
use store_postgres::project::{
    self, delete_facts, lock_current, move_project, project_facts, rename, replay_delete, replay_project,
    require_acyclic, require_parent, ProjectRow,
};
use store_postgres::repository::{
    self, CreateRepository, PublishRepositoryVersion, RepositoryDefinition, RepositoryRow,
};
use store_postgres::versioned::{LatestVersion, NamedRow};

const CONFLICT: StoreError = StoreError::Conflict { entity: EntityKind::Project };
const MISSING: StoreError = StoreError::NotFound { entity: EntityKind::Project };

fn out_of_range(operation: StoreOperation) -> StoreError {
    StoreError::InvalidInput { operation, source: StoreInputError::NumericOutOfRange }
}

fn row(id: u128, parent_id: Option<u128>) -> ProjectRow {
    ProjectRow {
        id,
        parent_id,
        name: format!("project-{id}"),
        name_is_valid: true,
        version: 4,
        created_at_millis: 10,
        updated_at_millis: 20,
    }
}

#[test]
fn projects_are_read_with_their_line() {
    let details = match project::read(&vec![row(1, None), row(2, Some(1)), row(3, Some(2))]) {
        Ok(details) => details,
        Err(_) => panic!("the line can be read"),
    };
    assert_eq!(details.project.id, 3);
    assert_eq!(details.ancestors.iter().map(|project| project.id).collect::<Vec<_>>(), vec![1, 2]);
    assert!(matches!(project::read(&vec![]), Err(MISSING)));
    let mut unnamed = row(1, None);
    unnamed.name_is_valid = false;
    assert!(matches!(project::read(&vec![unnamed, row(2, Some(1))]), Err(StoreError::Unavailable)));
}

#[test]
fn projects_are_listed_by_page() {
    let rows = vec![row(1, None), row(2, None), row(3, None)];
    let page = match project::list(None, false, &rows, 2) {
        Ok(page) => page,
        Err(_) => panic!("the rows can be read"),
    };
    assert_eq!(page.projects.len(), 2);
    assert_eq!(page.next_cursor, Some(2));
    assert!(matches!(project::list(None, false, &rows, 3), Ok(page) if page.next_cursor.is_none()));
    assert!(matches!(
        project::list(Some(9), false, &rows, 3),
        Err(StoreError::NotFound { entity: EntityKind::Project })
    ));
    assert!(project::list(Some(9), true, &rows, 3).is_ok());
    let rows = vec![row(1, None), row(2, None), row(0, None)];
    assert!(matches!(project::list(None, false, &rows, 2), Err(StoreError::Unavailable)));
}

#[test]
fn changes_expect_the_latest_version() {
    assert_eq!(rename(&Some(row(1, None)), 4, 20), Ok(5));
    assert_eq!(rename(&Some(row(1, None)), 3, 20), Err(CONFLICT));
    assert_eq!(rename(&Some(row(1, None)), 4, 19), Err(CONFLICT));
    assert_eq!(rename(&None, 4, 20), Err(MISSING));
    let mut last = row(1, None);
    last.version = i64::MAX;
    assert_eq!(rename(&Some(last), i64::MAX as u64, 20), Err(out_of_range(StoreOperation::RenameProject)));
    assert!(matches!(lock_current(&Some(row(1, None)), 4), Ok(project) if project.name == "project-1"));
}

#[test]
fn projects_are_not_put_below_themselves() {
    let current = || Some(row(1, None));
    assert_eq!(move_project(&current(), 1, 4, 20, Some(5), true, vec![5, 6]), Ok(5));
    assert_eq!(move_project(&current(), 1, 4, 20, Some(5), true, vec![5, 1]), Err(CONFLICT));
    assert_eq!(move_project(&current(), 1, 4, 20, Some(1), true, vec![1]), Err(CONFLICT));
    assert_eq!(move_project(&current(), 1, 4, 20, Some(5), false, vec![]), Err(MISSING));
    assert_eq!(move_project(&current(), 1, 4, 20, Some(5), true, vec![5, 0]), Err(StoreError::Unavailable));
    assert_eq!(move_project(&current(), 1, 4, 20, None, false, vec![1]), Ok(5));
    assert_eq!(require_acyclic(1, Some(2), vec![2]), Ok(()));
    assert_eq!(require_parent(None, false), Ok(()));
    assert_eq!(require_parent(Some(2), false), Err(MISSING));
}

#[test]
fn projects_are_deleted_and_told() {
    let deleted = match project::delete(&Some(row(1, None)), 1, 4, 20) {
        Ok(deleted) => deleted,
        Err(_) => panic!("it can be deleted"),
    };
    assert_eq!(deleted.project_id, 1);
    assert_eq!(replay_delete(deleted).disposition, MutationDisposition::Replayed);
    assert_eq!(project::delete(&Some(row(1, None)), 1, 4, 19), Err(CONFLICT));
    let facts = delete_facts(1, 4);
    assert_eq!(facts.actor_kind, "unauthenticated_management");
    assert!(matches!(facts.safe_metadata[0].value, FactValue::Number(4)));
    let changed = match project::changed(&row(3, Some(2))) {
        Ok(changed) => changed,
        Err(_) => panic!("it can be read"),
    };
    let facts = project_facts(MutationKind::MoveProject, &changed.project);
    assert_eq!(facts.target_identity, "00000000-0000-0000-0000-000000000003");
    assert!(matches!(facts.safe_metadata[1].value, FactValue::OptionalIdentity(Some(2))));
    assert!(matches!(facts.outbox_payload[0].value, FactValue::Word("project.moved")));
    assert_eq!(replay_project(changed).disposition, MutationDisposition::Replayed);
}

#[test]
fn policies_are_published_in_turn() {
    let published = publish_policy(Ok(()), 1, true, None, None);
    assert!(matches!(published, Ok((1, outcome)) if outcome.version == INITIAL_VERSION));
    let published = publish_policy(Ok(()), 1, true, Some(4), Some(4));
    assert!(matches!(published, Ok((5, _))));
    assert_eq!(publish_policy(Ok(()), 1, true, Some(5), Some(4)), Err(CONFLICT));
    assert_eq!(publish_policy(Ok(()), 1, true, None, Some(1)), Err(CONFLICT));
    assert_eq!(publish_policy(Ok(()), 1, false, None, None), Err(MISSING));
    assert_eq!(publish_policy(Ok(()), 1, true, Some(0), None), Err(StoreError::Unavailable));
    assert_eq!(
        publish_policy(Ok(()), 1, true, Some(i64::MAX), Some(i64::MAX as u64)),
        Err(out_of_range(StoreOperation::PublishProjectPolicy))
    );
    assert_eq!(
        publish_policy(Err(StoreError::CredentialRejected), 1, true, None, None),
        Err(StoreError::CredentialRejected)
    );
    if let Ok((_, outcome)) = published {
        assert_eq!(replay_policy(outcome).disposition, MutationDisposition::Replayed);
        assert!(matches!(policy_facts(&outcome).safe_metadata[0].value, FactValue::Number(5)));
    }
}

#[test]
fn policies_are_inherited_in_order() {
    let policy = |id: u128, version: Option<i64>| PolicyRow {
        project_id: id,
        parent_id: None,
        version,
        policy: Some("{}".to_owned()),
    };
    let documents = match lineage(&vec![policy(1, Some(2)), policy(3, Some(4))]) {
        Ok(documents) => documents,
        Err(_) => panic!("the policies can be read"),
    };
    assert_eq!(documents.iter().map(|document| (document.project_id, document.version)).collect::<Vec<_>>(), vec![(1, 2), (3, 4)]);
    assert!(matches!(lineage(&vec![]), Err(MISSING)));
    assert!(matches!(lineage(&vec![policy(0, Some(2)), policy(3, None)]), Err(StoreError::Unavailable)));
    assert!(matches!(lineage(&vec![policy(1, None), policy(0, Some(2))]), Err(MISSING)));
    let mut empty = policy(1, Some(2));
    empty.policy = None;
    assert!(matches!(lineage(&vec![empty]), Err(StoreError::Unavailable)));
}

fn dag() -> PipelineDag {
    PipelineDag { snapshot: "{}".to_owned(), node_count: 3, edge_count: 2 }
}

fn named() -> Option<NamedRow> {
    Some(NamedRow { project_id: 7, name: "main".to_owned(), name_is_valid: true })
}

const LATEST: LatestVersion = LatestVersion { version: 4, published_at_millis: 10 };

fn publish_pipeline(expected: u64, published_at: i64) -> PublishPipelineVersion {
    PublishPipelineVersion { id: 1, expected_current_version: expected, dag: dag(), published_at }
}

#[test]
fn pipelines_are_published_in_turn() {
    let created = pipeline::create(
        true,
        true,
        CreatePipeline { id: 1, project_id: 7, name: "main".to_owned(), dag: dag(), published_at: 5 },
    );
    assert!(matches!(&created, Ok(created) if created.pipeline.version == 1 && created.pipeline.project_id == 7));
    if let Ok(created) = created {
        let facts = pipeline::facts(MutationKind::CreatePipeline, &created.pipeline);
        assert!(matches!(facts.safe_metadata[0].value, FactValue::Number(2)));
        assert!(matches!(facts.safe_metadata[1].value, FactValue::Number(3)));
        assert_eq!(pipeline::replay(created).disposition, MutationDisposition::Replayed);
    }
    let published = pipeline::publish(true, named(), LATEST, publish_pipeline(4, 10));
    assert!(matches!(published, Ok(published) if published.pipeline.version == 5 && published.pipeline.name == "main"));
    let conflict = StoreError::Conflict { entity: EntityKind::Pipeline };
    let stale = pipeline::publish(true, named(), LATEST, publish_pipeline(3, 10));
    assert!(matches!(stale, Err(error) if error == conflict));
    let early = pipeline::publish(true, named(), LATEST, publish_pipeline(4, 9));
    assert!(matches!(early, Err(error) if error == conflict));
    let missing = pipeline::publish(true, None, LATEST, publish_pipeline(4, 10));
    assert!(matches!(missing, Err(StoreError::NotFound { entity: EntityKind::Pipeline })));
    let large = pipeline::publish(true, named(), LATEST, publish_pipeline(u64::MAX, 10));
    assert!(matches!(large, Err(error) if error == out_of_range(StoreOperation::PublishPipelineVersion)));
    let invalid = pipeline::publish(false, named(), LATEST, publish_pipeline(4, 10));
    assert!(matches!(
        invalid,
        Err(StoreError::InvalidInput { source: StoreInputError::InvalidPipelineSnapshot, .. })
    ));
}

#[test]
fn pipelines_need_a_project() {
    let request = || CreatePipeline { id: 1, project_id: 7, name: "main".to_owned(), dag: dag(), published_at: 5 };
    assert!(matches!(pipeline::create(true, false, request()), Err(MISSING)));
    assert!(matches!(
        pipeline::create(false, true, request()),
        Err(StoreError::InvalidInput { operation: StoreOperation::CreatePipeline, .. })
    ));
    assert_eq!(pipeline::insert_version(5, StoreOperation::CreatePipeline), Ok(5));
    assert_eq!(
        pipeline::insert_version(u64::MAX, StoreOperation::CreatePipeline),
        Err(out_of_range(StoreOperation::CreatePipeline))
    );
}

#[test]
fn pipelines_are_read() {
    let stored = |dag: Option<PipelineDag>| PipelineRow {
        id: 1,
        project_id: 7,
        name: "main".to_owned(),
        name_is_valid: true,
        version: 3,
        dag,
        published_at_millis: 5,
    };
    assert!(matches!(pipeline::read(Some(stored(Some(dag())))), Ok(pipeline) if pipeline.dag.node_count == 3));
    assert!(matches!(pipeline::read(Some(stored(None))), Err(StoreError::Unavailable)));
    assert!(matches!(pipeline::read(None), Err(StoreError::NotFound { entity: EntityKind::Pipeline })));
    assert_eq!(pipeline::read_version(9), Ok(9));
    assert_eq!(
        pipeline::read_version(u64::MAX),
        Err(out_of_range(StoreOperation::ReadPipelineVersion))
    );
}

fn repository_definition() -> RepositoryDefinition {
    RepositoryDefinition {
        vcs_integration_id: 8,
        repository_locator: "git@example".to_owned(),
        selection: "{}".to_owned(),
    }
}

#[test]
fn repositories_are_published_in_turn() {
    let request = || CreateRepository {
        id: 1,
        project_id: 7,
        name: "main".to_owned(),
        definition: repository_definition(),
        published_at: 5,
    };
    let created = repository::create(None, true, request());
    assert!(matches!(&created, Ok(created) if created.repository.version == 1));
    if let Ok(created) = created {
        let facts = repository::facts(MutationKind::CreateRepository, &created.repository);
        assert!(matches!(facts.outbox_payload[2].value, FactValue::Identity(1)));
        assert_eq!(repository::replay(created).disposition, MutationDisposition::Replayed);
    }
    assert!(matches!(repository::create(None, false, request()), Err(MISSING)));
    let fault = Some(StoreInputError::InvalidArtifact);
    assert!(matches!(
        repository::create(fault, true, request()),
        Err(StoreError::InvalidInput {
            operation: StoreOperation::CreateRepository,
            source: StoreInputError::InvalidArtifact
        })
    ));
    let publishing = |expected: u64| PublishRepositoryVersion {
        id: 1,
        expected_current_version: expected,
        definition: repository_definition(),
        published_at: 10,
    };
    let published = repository::publish(None, named(), LATEST, publishing(4));
    assert!(matches!(published, Ok(published) if published.repository.version == 5));
    let stale = repository::publish(None, named(), LATEST, publishing(5));
    assert!(matches!(stale, Err(StoreError::Conflict { entity: EntityKind::Repository })));
    let missing = repository::publish(None, None, LATEST, publishing(4));
    assert!(matches!(missing, Err(StoreError::NotFound { entity: EntityKind::Repository })));
}

#[test]
fn repositories_are_read() {
    let stored = || RepositoryRow {
        id: 1,
        project_id: 7,
        name: "main".to_owned(),
        name_is_valid: true,
        version: 3,
        vcs_integration_id: 8,
        repository_locator: "git@example".to_owned(),
        selection_policy: "{}".to_owned(),
        definition_is_valid: true,
        published_at_millis: 5,
    };
    assert!(matches!(repository::read(Some(stored())), Ok(read) if read.definition.vcs_integration_id == 8));
    let mut odd = stored();
    odd.vcs_integration_id = 0;
    assert!(matches!(repository::read(Some(odd)), Err(StoreError::Unavailable)));
    assert!(matches!(repository::read(None), Err(StoreError::NotFound { entity: EntityKind::Repository })));
    assert_eq!(repository::read_version(9), Ok(9));
    assert!(repository::read_version(u64::MAX).is_err());
}

fn configuration_definition() -> BuildConfigurationDefinition {
    BuildConfigurationDefinition {
        enabled: true,
        repository_id: 11,
        repository_version: 2,
        pipeline_id: 12,
        pipeline_version: 3,
        allowed_pools: vec![21, 22],
        snapshot: "{}".to_owned(),
    }
}

const FOUND: References = References { repository_exists: true, pipeline_exists: true, pool_count: 2 };

#[test]
fn configurations_refer_to_what_exists() {
    let operation = StoreOperation::CreateBuildConfiguration;
    let definition = configuration_definition();
    assert_eq!(require_references(&definition, FOUND, operation), Ok(()));
    let found = References { repository_exists: false, ..FOUND };
    assert_eq!(
        require_references(&definition, found, operation),
        Err(StoreError::NotFound { entity: EntityKind::Repository })
    );
    let found = References { pipeline_exists: false, ..FOUND };
    assert_eq!(
        require_references(&definition, found, operation),
        Err(StoreError::NotFound { entity: EntityKind::Pipeline })
    );
    for pool_count in [1, 3, -1] {
        let found = References { pool_count, ..FOUND };
        assert_eq!(
            require_references(&definition, found, operation),
            Err(StoreError::NotFound { entity: EntityKind::Pool })
        );
    }
    let mut large = configuration_definition();
    large.pipeline_version = u64::MAX;
    assert_eq!(require_references(&large, FOUND, operation), Err(out_of_range(operation)));
}

#[test]
fn configurations_are_published_in_turn() {
    let request = || CreateBuildConfiguration {
        id: 1,
        project_id: 7,
        name: "main".to_owned(),
        definition: configuration_definition(),
        published_at: 5,
    };
    let created = build_configuration::create(None, true, FOUND, request());
    assert!(matches!(&created, Ok(created) if created.configuration.version == 1));
    if let Ok(created) = created {
        let facts = build_configuration::facts(MutationKind::CreateBuildConfiguration, &created.configuration);
        assert!(matches!(facts.safe_metadata[0].value, FactValue::Flag(true)));
        assert!(matches!(facts.safe_metadata[5].value, FactValue::Number(2)));
        assert_eq!(build_configuration::replay(created).disposition, MutationDisposition::Replayed);
    }
    assert!(matches!(build_configuration::create(None, false, FOUND, request()), Err(MISSING)));
    let publishing = |expected: u64| PublishBuildConfigurationVersion {
        id: 1,
        expected_current_version: expected,
        definition: configuration_definition(),
        published_at: 10,
    };
    let published = build_configuration::publish(None, named(), FOUND, LATEST, publishing(4));
    assert!(matches!(published, Ok(published) if published.configuration.version == 5));
    let stale = build_configuration::publish(None, named(), FOUND, LATEST, publishing(3));
    assert!(matches!(stale, Err(StoreError::Conflict { entity: EntityKind::Configuration })));
    let missing = build_configuration::publish(None, None, FOUND, LATEST, publishing(4));
    assert!(matches!(missing, Err(StoreError::NotFound { entity: EntityKind::Configuration })));
}

#[test]
fn configurations_agree_with_their_columns() {
    let numbers = match build_configuration::insert_version(
        4,
        &configuration_definition(),
        StoreOperation::PublishBuildConfigurationVersion,
    ) {
        Ok(numbers) => numbers,
        Err(_) => panic!("the numbers fit"),
    };
    let stored = || BuildConfigurationRow {
        id: 1,
        project_id: 7,
        name: "main".to_owned(),
        name_is_valid: true,
        version: numbers.version,
        enabled: true,
        repository_id: 11,
        repository_version: numbers.repository_version,
        pipeline_id: 12,
        pipeline_version: numbers.pipeline_version,
        definition: Some(configuration_definition()),
        published_at_millis: 5,
    };
    assert!(matches!(build_configuration::read(Some(stored())), Ok(read) if read.version == 4));
    let mut disabled = stored();
    disabled.enabled = false;
    assert!(matches!(build_configuration::read(Some(disabled)), Err(StoreError::Unavailable)));
    let mut other = stored();
    other.pipeline_version = 4;
    assert!(matches!(build_configuration::read(Some(other)), Err(StoreError::Unavailable)));
    assert!(matches!(
        build_configuration::read(None),
        Err(StoreError::NotFound { entity: EntityKind::Configuration })
    ));
    assert_eq!(build_configuration::read_version(9), Ok(9));
    assert!(build_configuration::read_version(u64::MAX).is_err());
}
