//! Projects, which form a hierarchy: creating, renaming, moving, deleting and reading them.

use vstd::prelude::*;

use crate::database::{all_identities, job_ids, number, out_of_range};
use crate::domain::{
    identity, is_identity, is_optional_identity, is_timestamp, is_version, next_version, optional_identity, timestamp,
    version, EntityKind, MutationDisposition, StoreError, StoreOperation,
};
use crate::identity_text::{hyphenated, identity_text};
use crate::mutation::{outbox_topic_of, FactValue, Member, MutationFacts, MutationKind};
use crate::page::cut;

verus! {

/// A project as the database holds it.
pub struct ProjectRow {
    /// The project.
    pub id: u128,
    /// The project it belongs to.
    pub parent_id: Option<u128>,
    /// Its name.
    pub name: String,
    /// Whether that is a valid name.
    pub name_is_valid: bool,
    /// Its version.
    pub version: i64,
    /// When it was created.
    pub created_at_millis: i64,
    /// When it was changed last.
    pub updated_at_millis: i64,
}

/// A project.
pub struct Project {
    /// The project.
    pub id: u128,
    /// The project it belongs to.
    pub parent_id: Option<u128>,
    /// Its name.
    pub name: String,
    /// Its version.
    pub version: u64,
    /// When it was created.
    pub created_at: i64,
    /// When it was changed last.
    pub updated_at: i64,
}

/// Whether a project can be read.
pub open spec fn is_readable(row: ProjectRow) -> bool {
    &&& is_identity(row.id) && is_optional_identity(row.parent_id)
    &&& row.name_is_valid
    &&& is_version(row.version)
    &&& is_timestamp(row.created_at_millis) && is_timestamp(row.updated_at_millis)
}

/// Whether a project is the one of a row.
pub open spec fn is_project_of(project: Project, row: ProjectRow) -> bool {
    &&& project.id == row.id
    &&& project.parent_id == row.parent_id
    &&& project.name@ == row.name@
    &&& project.version == row.version
    &&& project.created_at == row.created_at_millis
    &&& project.updated_at == row.updated_at_millis
}

/// Reads a project.
pub fn decode(row: &ProjectRow) -> (result: Result<Project, StoreError>)
    ensures
        match result {
            Ok(project) => is_readable(*row) && is_project_of(project, *row),
            Err(error) => error == StoreError::Unavailable && !is_readable(*row),
        },
{
    let id: u128 = identity(row.id)?;
    let parent_id: Option<u128> = optional_identity(row.parent_id)?;
    if !row.name_is_valid {
        return Err(StoreError::Unavailable);
    }
    let project_version: u64 = version(row.version)?;
    let created_at: i64 = timestamp(row.created_at_millis)?;
    let updated_at: i64 = timestamp(row.updated_at_millis)?;
    Ok(Project { id, parent_id, name: row.name.clone(), version: project_version, created_at, updated_at })
}

/// Whether every project can be read.
pub open spec fn are_readable(rows: Seq<ProjectRow>) -> bool {
    forall|i: int| 0 <= i < rows.len() ==> is_readable(#[trigger] rows[i])
}

/// Whether projects are those of rows.
pub open spec fn are_projects_of(projects: Seq<Project>, rows: Seq<ProjectRow>) -> bool {
    &&& projects.len() == rows.len()
    &&& forall|i: int| 0 <= i < projects.len() ==> is_project_of(#[trigger] projects[i], rows[i])
}

fn decode_all(rows: &Vec<ProjectRow>) -> (result: Result<Vec<Project>, StoreError>)
    ensures
        match result {
            Ok(projects) => are_readable(rows@) && are_projects_of(projects@, rows@),
            Err(error) => error == StoreError::Unavailable && !are_readable(rows@),
        },
{
    let mut projects: Vec<Project> = Vec::new();
    let mut i: usize = 0;
    while i < rows.len()
        invariant
            i <= rows.len(),
            projects@.len() == i,
            forall|j: int| 0 <= j < i ==> is_readable(#[trigger] rows@[j]),
            forall|j: int| 0 <= j < i ==> is_project_of(#[trigger] projects@[j], rows@[j]),
        decreases rows.len() - i,
    {
        let project = decode(&rows[i])?;
        projects.push(project);
        i += 1;
    }
    Ok(projects)
}

/// A project and those it belongs to, the outermost first.
pub struct ProjectDetails {
    /// The project.
    pub project: Project,
    /// Those it belongs to.
    pub ancestors: Vec<Project>,
}

/// Reads a project out of its line, which starts with the outermost project and ends with the project itself.
pub fn read(lineage: &Vec<ProjectRow>) -> (result: Result<ProjectDetails, StoreError>)
    ensures
        match result {
            Ok(details) => {
                &&& lineage@.len() > 0
                &&& are_readable(lineage@)
                &&& is_project_of(details.project, lineage@.last())
                &&& are_projects_of(details.ancestors@, lineage@.drop_last())
            },
            Err(error) => if lineage@.len() == 0 {
                error == (StoreError::NotFound { entity: EntityKind::Project })
            } else {
                error == StoreError::Unavailable && !are_readable(lineage@)
            },
        },
{
    let mut projects = decode_all(lineage)?;
    let ghost all = projects@;
    match projects.pop() {
        Some(project) => {
            assert(projects@ =~= all.drop_last());
            assert(is_project_of(all[all.len() - 1], lineage@[lineage@.len() - 1]));
            Ok(ProjectDetails { project, ancestors: projects })
        },
        None => Err(StoreError::NotFound { entity: EntityKind::Project }),
    }
}

/// A page of projects.
pub struct ProjectPage {
    /// The projects.
    pub projects: Vec<Project>,
    /// Where the next page starts, where there is one.
    pub next_cursor: Option<u128>,
}

/// The rows that a page shows.
pub open spec fn shown(rows: Seq<ProjectRow>, limit: u16) -> Seq<ProjectRow> {
    if rows.len() > limit {
        rows.subrange(0, limit as int)
    } else {
        rows
    }
}

/// Reads a page of projects out of the rows that were fetched for it. `parent_exists` says whether the project
/// whose children are listed exists, where one is named.
pub fn list(parent_id: Option<u128>, parent_exists: bool, rows: &Vec<ProjectRow>, limit: u16) -> (result: Result<
    ProjectPage,
    StoreError,
>)
    requires
        limit > 0,
    ensures
        parent_verdict(parent_id, parent_exists) is Err ==> result == Err::<ProjectPage, StoreError>(
            parent_verdict(parent_id, parent_exists)->Err_0,
        ),
        parent_verdict(parent_id, parent_exists) is Ok ==> match result {
            Ok(page) => {
                &&& are_readable(rows@)
                &&& are_projects_of(page.projects@, shown(rows@, limit))
                &&& page.next_cursor == (if rows@.len() > limit {
                    Some(rows@[limit - 1].id)
                } else {
                    None
                })
            },
            Err(error) => error == StoreError::Unavailable && !are_readable(rows@),
        },
{
    match require_parent(parent_id, parent_exists) {
        Ok(()) => {},
        Err(error) => {
            return Err(error);
        },
    }
    let all = decode_all(rows)?;
    let ghost fetched = all@;
    let (projects, has_more) = cut(all, limit);
    let next_cursor: Option<u128> = if has_more {
        assert(is_project_of(fetched[limit - 1], rows@[limit - 1]));
        Some(projects[projects.len() - 1].id)
    } else {
        None
    };
    assert forall|i: int| 0 <= i < projects@.len() implies is_project_of(
        #[trigger] projects@[i],
        shown(rows@, limit)[i],
    ) by {
        assert(is_project_of(fetched[i], rows@[i]));
    }
    Ok(ProjectPage { projects, next_cursor })
}

/// Whether a project may be changed by a request that expects a version of it: that must be the version it
/// has, and the request must not be older than its last change.
pub open spec fn change_verdict(current: Option<ProjectRow>, expected_version: u64, changed_at: i64) -> Result<
    (),
    StoreError,
> {
    match current {
        None => Err(StoreError::NotFound { entity: EntityKind::Project }),
        Some(row) => if !is_readable(row) {
            Err(StoreError::Unavailable)
        } else if row.version != expected_version || changed_at < row.updated_at_millis {
            Err(StoreError::Conflict { entity: EntityKind::Project })
        } else {
            Ok(())
        },
    }
}

/// Reads the project to change, and requires that it has the expected version.
pub fn lock_current(current: &Option<ProjectRow>, expected_version: u64) -> (result: Result<Project, StoreError>)
    ensures
        match result {
            Ok(project) => {
                &&& current is Some && is_readable(current->Some_0)
                &&& is_project_of(project, current->Some_0)
                &&& project.version == expected_version
            },
            Err(error) => match *current {
                None => error == (StoreError::NotFound { entity: EntityKind::Project }),
                Some(row) => if !is_readable(row) {
                    error == StoreError::Unavailable
                } else {
                    error == (StoreError::Conflict { entity: EntityKind::Project }) && row.version != expected_version
                },
            },
        },
{
    match current {
        None => Err(StoreError::NotFound { entity: EntityKind::Project }),
        Some(row) => {
            let project = decode(row)?;
            if project.version != expected_version {
                return Err(StoreError::Conflict { entity: EntityKind::Project });
            }
            Ok(project)
        },
    }
}

/// Requires that a change is not older than the last one.
pub fn require_mutation_time(project: &Project, changed_at: i64) -> (result: Result<(), StoreError>)
    ensures
        result == (if changed_at < project.updated_at {
            Err::<(), StoreError>(StoreError::Conflict { entity: EntityKind::Project })
        } else {
            Ok(())
        }),
{
    if changed_at < project.updated_at {
        return Err(StoreError::Conflict { entity: EntityKind::Project });
    }
    Ok(())
}

/// Requires that the project that another is to belong to, where it is to belong to one, exists.
pub fn require_parent(parent_id: Option<u128>, exists: bool) -> (result: Result<(), StoreError>)
    ensures
        result == parent_verdict(parent_id, exists),
{
    if parent_id.is_some() && !exists {
        return Err(StoreError::NotFound { entity: EntityKind::Project });
    }
    Ok(())
}

/// Whether the project that another is to belong to exists, where it is to belong to one.
pub open spec fn parent_verdict(parent_id: Option<u128>, exists: bool) -> Result<(), StoreError> {
    if parent_id is Some && !exists {
        Err(StoreError::NotFound { entity: EntityKind::Project })
    } else {
        Ok(())
    }
}

/// Whether a project may belong to another, given the line of that one: it may not be in the line.
pub open spec fn ancestry_verdict(project_id: u128, parent_id: Option<u128>, ancestry: Seq<u128>) -> Result<
    (),
    StoreError,
> {
    if parent_id is None {
        Ok(())
    } else if exists|i: int| 0 <= i < ancestry.len() && !is_identity(#[trigger] ancestry[i]) {
        Err(StoreError::Unavailable)
    } else if ancestry.contains(project_id) {
        Err(StoreError::Conflict { entity: EntityKind::Project })
    } else {
        Ok(())
    }
}

/// Requires that a project is not put below itself: `ancestry` is the line of the project it is to belong to,
/// that one included.
pub fn require_acyclic(project_id: u128, parent_id: Option<u128>, ancestry: Vec<u128>) -> (result: Result<(), StoreError>)
    ensures
        result == ancestry_verdict(project_id, parent_id, ancestry@),
{
    if parent_id.is_none() {
        return Ok(());
    }
    let ids = job_ids(ancestry)?;
    let mut i: usize = 0;
    while i < ids.len()
        invariant
            i <= ids.len(),
            parent_id is Some,
            ids@ == ancestry@,
            all_identities(ids@),
            forall|j: int| 0 <= j < i ==> #[trigger] ids@[j] != project_id,
        decreases ids.len() - i,
    {
        if ids[i] == project_id {
            assert(ancestry@[i as int] == project_id);
            return Err(StoreError::Conflict { entity: EntityKind::Project });
        }
        i += 1;
    }
    Ok(())
}

/// The project that a chain of projects, each belonging to the next, leads to in some steps.
pub open spec fn chain(parents: Map<u128, u128>, from: u128, steps: nat) -> Option<u128>
    decreases steps,
{
    if steps == 0 {
        Some(from)
    } else if parents.contains_key(from) {
        chain(parents, parents[from], (steps - 1) as nat)
    } else {
        None
    }
}

/// Whether a project is another or belongs to it, directly or not.
pub open spec fn belongs_to(parents: Map<u128, u128>, project: u128, other: u128) -> bool {
    exists|steps: nat| #[trigger] chain(parents, project, steps) == Some(other)
}

/// Whether the projects form a hierarchy: each can be given a depth greater than that of the project it
/// belongs to.
pub open spec fn is_hierarchy(parents: Map<u128, u128>) -> bool {
    exists|depth: spec_fn(u128) -> nat| #[trigger] has_depths(parents, depth)
}

/// Whether depths grow from each project to those that belong to it.
pub open spec fn has_depths(parents: Map<u128, u128>, depth: spec_fn(u128) -> nat) -> bool {
    forall|project: u128| #[trigger] parents.contains_key(project) ==> depth(parents[project]) < depth(project)
}

/// Whether a list is the line of a project: the projects it is or belongs to.
pub open spec fn is_line_of(ancestry: Seq<u128>, parents: Map<u128, u128>, project: u128) -> bool {
    forall|other: u128| #[trigger] ancestry.contains(other) <==> belongs_to(parents, project, other)
}

/// Who belongs to whom once a project is moved.
pub open spec fn moved(parents: Map<u128, u128>, project_id: u128, parent_id: Option<u128>) -> Map<u128, u128> {
    match parent_id {
        Some(parent_id) => parents.insert(project_id, parent_id),
        None => parents.remove(project_id),
    }
}

proof fn belonging_steps_up(parents: Map<u128, u128>, project: u128, other: u128)
    requires
        parents.contains_key(project),
    ensures
        belongs_to(parents, project, other) == (project == other || belongs_to(parents, parents[project], other)),
{
    if belongs_to(parents, project, other) && project != other {
        let steps = choose|steps: nat| #[trigger] chain(parents, project, steps) == Some(other);
        assert(steps > 0);
        assert(chain(parents, parents[project], (steps - 1) as nat) == Some(other));
    }
    if project == other {
        assert(chain(parents, project, 0) == Some(other));
    }
    if belongs_to(parents, parents[project], other) {
        let steps = choose|steps: nat| #[trigger] chain(parents, parents[project], steps) == Some(other);
        assert(chain(parents, project, steps + 1) == Some(other));
    }
}

/// Moving a project never closes a circle: what was a hierarchy still is one, where the move was allowed by
/// the line of the project that it is moved to.
pub proof fn moves_keep_the_hierarchy(
    parents: Map<u128, u128>,
    project_id: u128,
    parent_id: Option<u128>,
    ancestry: Seq<u128>,
)
    requires
        is_hierarchy(parents),
        parent_id matches Some(parent) ==> is_line_of(ancestry, parents, parent),
        ancestry_verdict(project_id, parent_id, ancestry) is Ok,
    ensures
        is_hierarchy(moved(parents, project_id, parent_id)),
{
    let depth = choose|depth: spec_fn(u128) -> nat| #[trigger] has_depths(parents, depth);
    let after = moved(parents, project_id, parent_id);
    match parent_id {
        None => {
            assert forall|project: u128| #[trigger] after.contains_key(project) implies depth(after[project]) < depth(
                project,
            ) by {
                assert(parents.contains_key(project));
            }
            assert(has_depths(after, depth));
        },
        Some(parent) => {
            assert(!belongs_to(parents, parent, project_id)) by {
                assert(!ancestry.contains(project_id));
            }
            let deeper = |project: u128|
                if belongs_to(parents, project, project_id) {
                    (depth(project) + depth(parent) + 1) as nat
                } else {
                    depth(project)
                };
            assert forall|project: u128| #[trigger] after.contains_key(project) implies deeper(after[project])
                < deeper(project) by {
                if project == project_id {
                    assert(chain(parents, project_id, 0) == Some(project_id));
                    assert(belongs_to(parents, project_id, project_id));
                } else {
                    assert(parents.contains_key(project));
                    belonging_steps_up(parents, project, project_id);
                }
            }
            assert(has_depths(after, deeper));
        },
    }
}

/// The version that a changed project gets, as it is stored.
pub open spec fn changed_version(expected_version: u64, operation: StoreOperation) -> Result<i64, StoreError> {
    if expected_version == u64::MAX {
        Err(StoreError::Unavailable)
    } else if expected_version >= i64::MAX {
        Err(out_of_range(operation))
    } else {
        Ok((expected_version + 1) as i64)
    }
}

fn change_version(expected_version: u64, operation: StoreOperation) -> (result: Result<i64, StoreError>)
    ensures
        result == changed_version(expected_version, operation),
{
    let next: u64 = next_version(expected_version)?;
    number(next, operation)
}

/// Renames a project: gives the version to store.
pub fn rename(current: &Option<ProjectRow>, expected_version: u64, renamed_at: i64) -> (result: Result<i64, StoreError>)
    ensures
        result == (match change_verdict(*current, expected_version, renamed_at) {
            Err(error) => Err::<i64, StoreError>(error),
            Ok(()) => changed_version(expected_version, StoreOperation::RenameProject),
        }),
{
    let project = lock_current(current, expected_version)?;
    require_mutation_time(&project, renamed_at)?;
    change_version(expected_version, StoreOperation::RenameProject)
}

/// Moves a project: gives the version to store. `parent_exists` says whether the project that it is moved to
/// exists, and `ancestry` is the line of that one.
pub fn move_project(
    current: &Option<ProjectRow>,
    project_id: u128,
    expected_version: u64,
    moved_at: i64,
    parent_id: Option<u128>,
    parent_exists: bool,
    ancestry: Vec<u128>,
) -> (result: Result<i64, StoreError>)
    ensures
        result == (match change_verdict(*current, expected_version, moved_at) {
            Err(error) => Err::<i64, StoreError>(error),
            Ok(()) => match parent_verdict(parent_id, parent_exists) {
                Err(error) => Err(error),
                Ok(()) => match ancestry_verdict(project_id, parent_id, ancestry@) {
                    Err(error) => Err(error),
                    Ok(()) => changed_version(expected_version, StoreOperation::MoveProject),
                },
            },
        }),
{
    let project = lock_current(current, expected_version)?;
    require_mutation_time(&project, moved_at)?;
    require_parent(parent_id, parent_exists)?;
    require_acyclic(project_id, parent_id, ancestry)?;
    change_version(expected_version, StoreOperation::MoveProject)
}

/// A created or changed project.
pub struct ProjectMutationOutcome {
    /// Whether that happened now or before.
    pub disposition: MutationDisposition,
    /// The project.
    pub project: Project,
}

/// Reads the outcome of a creation or a change out of the row it left.
pub fn changed(row: &ProjectRow) -> (result: Result<ProjectMutationOutcome, StoreError>)
    ensures
        match result {
            Ok(outcome) => {
                &&& is_readable(*row)
                &&& outcome.disposition == MutationDisposition::Applied
                &&& is_project_of(outcome.project, *row)
            },
            Err(error) => error == StoreError::Unavailable && !is_readable(*row),
        },
{
    let project = decode(row)?;
    Ok(ProjectMutationOutcome { disposition: MutationDisposition::Applied, project })
}

/// A deleted project.
#[derive(Clone, Copy, Debug, PartialEq, Eq, Structural)]
pub struct DeleteProjectOutcome {
    /// Whether it was deleted now or before.
    pub disposition: MutationDisposition,
    /// The project.
    pub project_id: u128,
}

/// Deletes a project.
pub fn delete(current: &Option<ProjectRow>, project_id: u128, expected_version: u64, deleted_at: i64) -> (result: Result<
    DeleteProjectOutcome,
    StoreError,
>)
    ensures
        result == (match change_verdict(*current, expected_version, deleted_at) {
            Err(error) => Err::<DeleteProjectOutcome, StoreError>(error),
            Ok(()) => Ok(DeleteProjectOutcome { disposition: MutationDisposition::Applied, project_id }),
        }),
{
    let project = lock_current(current, expected_version)?;
    require_mutation_time(&project, deleted_at)?;
    Ok(DeleteProjectOutcome { disposition: MutationDisposition::Applied, project_id })
}

/// Of two changes that expect the same version of a project, only one happens: once it has, the other is
/// refused.
pub proof fn changes_follow_each_other(
    current: ProjectRow,
    expected_version: u64,
    changed_at: i64,
    operation: StoreOperation,
    stored: i64,
    row: ProjectRow,
    later: i64,
)
    requires
        change_verdict(Some(current), expected_version, changed_at) is Ok,
        changed_version(expected_version, operation) == Ok::<i64, StoreError>(stored),
        is_readable(row),
        row.version == stored,
    ensures
        stored == current.version + 1,
        changed_at >= current.updated_at_millis,
        change_verdict(Some(row), expected_version, later) == Err::<(), StoreError>(
            StoreError::Conflict { entity: EntityKind::Project },
        ),
{
}

/// What the audit trail and the outbox are told of a created or changed project.
pub fn project_facts(kind: MutationKind, project: &Project) -> (facts: MutationFacts)
    ensures
        facts.actor_kind@ == "unauthenticated_management"@,
        facts.actor_identity is None,
        facts.target_identity@ == hyphenated(project.id),
        facts.safe_metadata@ == seq![
            (Member { name: "version", value: FactValue::Number(project.version) }),
            (Member { name: "parent_id", value: FactValue::OptionalIdentity(project.parent_id) }),
        ],
        facts.outbox_payload@.len() == 3,
        facts.outbox_payload@[0].name@ == "event"@,
        facts.outbox_payload@[0].value matches FactValue::Word(word) && word@ == outbox_topic_of(kind),
        facts.outbox_payload@[1] == (Member { name: "project_id", value: FactValue::Identity(project.id) }),
        facts.outbox_payload@[2] == (Member { name: "version", value: FactValue::Number(project.version) }),
{
    MutationFacts {
        actor_kind: "unauthenticated_management",
        actor_identity: None,
        target_identity: identity_text(project.id),
        safe_metadata: vec![
            Member { name: "version", value: FactValue::Number(project.version) },
            Member { name: "parent_id", value: FactValue::OptionalIdentity(project.parent_id) },
        ],
        outbox_payload: vec![
            Member { name: "event", value: FactValue::Word(kind.outbox_topic()) },
            Member { name: "project_id", value: FactValue::Identity(project.id) },
            Member { name: "version", value: FactValue::Number(project.version) },
        ],
    }
}

/// What the audit trail and the outbox are told of a deleted project.
pub fn delete_facts(project_id: u128, expected_version: u64) -> (facts: MutationFacts)
    ensures
        facts.actor_kind@ == "unauthenticated_management"@,
        facts.actor_identity is None,
        facts.target_identity@ == hyphenated(project_id),
        facts.safe_metadata@ == seq![
            (Member { name: "version", value: FactValue::Number(expected_version) }),
        ],
        facts.outbox_payload@ == seq![
            (Member { name: "project_id", value: FactValue::Identity(project_id) }),
        ],
{
    MutationFacts {
        actor_kind: "unauthenticated_management",
        actor_identity: None,
        target_identity: identity_text(project_id),
        safe_metadata: vec![Member { name: "version", value: FactValue::Number(expected_version) }],
        outbox_payload: vec![Member { name: "project_id", value: FactValue::Identity(project_id) }],
    }
}

/// Turns a stored outcome into the answer to a repeated request.
pub fn replay_project(outcome: ProjectMutationOutcome) -> (replayed: ProjectMutationOutcome)
    ensures
        replayed == (ProjectMutationOutcome { disposition: MutationDisposition::Replayed, ..outcome }),
{
    ProjectMutationOutcome { disposition: MutationDisposition::Replayed, ..outcome }
}

/// Turns a stored outcome into the answer to a repeated request.
pub fn replay_delete(outcome: DeleteProjectOutcome) -> (replayed: DeleteProjectOutcome)
    ensures
        replayed == (DeleteProjectOutcome { disposition: MutationDisposition::Replayed, ..outcome }),
{
    DeleteProjectOutcome { disposition: MutationDisposition::Replayed, ..outcome }
}

/// A project is changed exactly in the version that was expected, and not before it was changed last; each change
/// counts one.
pub proof fn projects_are_changed_in_their_current_version(
    row: ProjectRow,
    expected_version: u64,
    changed_at: i64,
    operation: StoreOperation,
)
    requires
        is_readable(row),
        expected_version < i64::MAX,
    ensures
        change_verdict(Some(row), expected_version, changed_at) == (if row.version == expected_version
            && row.updated_at_millis <= changed_at {
            Ok::<(), StoreError>(())
        } else {
            Err(StoreError::Conflict { entity: EntityKind::Project })
        }),
        change_verdict(None, expected_version, changed_at) == Err::<(), StoreError>(
            StoreError::NotFound { entity: EntityKind::Project },
        ),
        changed_version(expected_version, operation) == Ok::<i64, StoreError>((expected_version + 1) as i64),
{
}

/// A project may go under any parent that exists and is not the project itself nor below it; without a parent it
/// may always be.
pub proof fn projects_go_anywhere_but_below_themselves(project_id: u128, parent_id: u128, ancestry: Seq<u128>, parent_exists: bool)
    requires
        forall|i: int| 0 <= i < ancestry.len() ==> (#[trigger] ancestry[i]) != 0,
    ensures
        ancestry_verdict(project_id, Some(parent_id), ancestry) == (if exists|i: int|
            0 <= i < ancestry.len() && #[trigger] ancestry[i] == project_id {
            Err::<(), StoreError>(StoreError::Conflict { entity: EntityKind::Project })
        } else {
            Ok(())
        }),
        ancestry_verdict(project_id, None, ancestry) is Ok,
        parent_verdict(None, parent_exists) is Ok,
        parent_verdict(Some(parent_id), parent_exists) == (if parent_exists {
            Ok::<(), StoreError>(())
        } else {
            Err(StoreError::NotFound { entity: EntityKind::Project })
        }),
{
}

/// A page shows the first projects, as many as were asked for, and all where there are no more.
pub proof fn pages_show_the_first_projects(rows: Seq<ProjectRow>, limit: u16, at: int)
    ensures
        shown(rows, limit).len() == (if rows.len() > limit {
            limit as nat
        } else {
            rows.len()
        }),
        0 <= at < shown(rows, limit).len() ==> shown(rows, limit)[at] == rows[at],
{
}

/// A project is read as it is on record.
pub proof fn projects_are_read_as_recorded(project: Project, row: ProjectRow)
    ensures
        is_project_of(project, row) ==> project.id == row.id && project.parent_id == row.parent_id && project.name@
            == row.name@ && project.version == row.version && project.created_at == row.created_at_millis
            && project.updated_at == row.updated_at_millis,
        is_readable(row) <==> row.id != 0 && (row.parent_id matches Some(parent) ==> parent != 0) && row.name_is_valid
            && row.version > 0 && row.created_at_millis >= 0 && row.updated_at_millis >= 0,
{
}

/// A project that cannot be read, an ancestor without an identity and a version that cannot be counted on are reported
/// as unavailable.
pub proof fn damaged_projects_are_unavailable(
    row: ProjectRow,
    expected_version: u64,
    changed_at: i64,
    project_id: u128,
    parent_id: u128,
    ancestry: Seq<u128>,
    operation: StoreOperation,
)
    ensures
        !is_readable(row) ==> change_verdict(Some(row), expected_version, changed_at) == Err::<(), StoreError>(
            StoreError::Unavailable,
        ),
        ancestry.contains(0) ==> ancestry_verdict(project_id, Some(parent_id), ancestry) == Err::<(), StoreError>(
            StoreError::Unavailable,
        ),
        changed_version(u64::MAX, operation) == Err::<i64, StoreError>(StoreError::Unavailable),
{
    if ancestry.contains(0) {
        let i = ancestry.index_of(0);
        assert(!is_identity(ancestry[i]));
    }
}

/// Projects are read exactly where each row is, and are told one for each row, in order.
pub proof fn projects_are_told_in_order(projects: Seq<Project>, rows: Seq<ProjectRow>)
    requires
        are_projects_of(projects, rows),
    ensures
        projects.len() == rows.len(),
        forall|i: int|
            0 <= i < rows.len() ==> (#[trigger] projects[i]).id == rows[i].id && projects[i].parent_id
                == rows[i].parent_id && projects[i].name@ == rows[i].name@ && projects[i].version == rows[i].version,
        are_readable(rows) <==> forall|i: int| 0 <= i < rows.len() ==> is_readable(#[trigger] rows[i]),
{
    assert forall|i: int| 0 <= i < rows.len() implies (#[trigger] projects[i]).id == rows[i].id && projects[i].parent_id
        == rows[i].parent_id && projects[i].name@ == rows[i].name@ && projects[i].version == rows[i].version by {
        assert(is_project_of(projects[i], rows[i]));
    }
}

} // verus!
