//! The policies of projects, which are published in versions and inherited.

use vstd::prelude::*;

use crate::database::{number, out_of_range};
use crate::domain::{
    identity, is_identity, is_optional_identity, is_version, next_version, optional_identity, version, EntityKind,
    MutationDisposition, StoreError, StoreOperation, INITIAL_VERSION,
};
use crate::identity_text::{hyphenated, identity_text};
use crate::mutation::{FactValue, Member, MutationFacts};

verus! {

/// A published policy.
#[derive(Clone, Copy, Debug, PartialEq, Eq, Structural)]
pub struct ProjectPolicyMutationOutcome {
    /// Whether it was published now or before.
    pub disposition: MutationDisposition,
    /// The project.
    pub project_id: u128,
    /// Version of the policy.
    pub version: u64,
}

/// The version under which a policy is published. The version before must be the expected one.
pub open spec fn publication(project_exists: bool, current: Option<i64>, expected: Option<u64>) -> Result<u64, StoreError> {
    if !project_exists {
        Err(StoreError::NotFound { entity: EntityKind::Project })
    } else {
        match current {
            None => if expected is Some {
                Err(StoreError::Conflict { entity: EntityKind::Project })
            } else {
                Ok(INITIAL_VERSION)
            },
            Some(current) => if !is_version(current) {
                Err(StoreError::Unavailable)
            } else if expected != Some(current as u64) {
                Err(StoreError::Conflict { entity: EntityKind::Project })
            } else if current == i64::MAX {
                Err(out_of_range(StoreOperation::PublishProjectPolicy))
            } else {
                Ok((current + 1) as u64)
            },
        }
    }
}

/// Publishes a policy: gives the version to store and the outcome. `validated` is the verdict on the request
/// by itself, and `current` the version that is published.
pub fn publish_policy(
    validated: Result<(), StoreError>,
    project_id: u128,
    project_exists: bool,
    current: Option<i64>,
    expected: Option<u64>,
) -> (result: Result<(i64, ProjectPolicyMutationOutcome), StoreError>)
    ensures
        result == (match validated {
            Err(error) => Err(error),
            Ok(()) => match publication(project_exists, current, expected) {
                Err(error) => Err(error),
                Ok(published) => Ok::<(i64, ProjectPolicyMutationOutcome), StoreError>(
                    (
                        published as i64,
                        ProjectPolicyMutationOutcome {
                            disposition: MutationDisposition::Applied,
                            project_id,
                            version: published,
                        },
                    ),
                ),
            },
        }),
{
    validated?;
    if !project_exists {
        return Err(StoreError::NotFound { entity: EntityKind::Project });
    }
    let current: Option<u64> = match current {
        Some(value) => Some(version(value)?),
        None => None,
    };
    if current != expected {
        return Err(StoreError::Conflict { entity: EntityKind::Project });
    }
    let published: u64 = match current {
        Some(current) => next_version(current)?,
        None => INITIAL_VERSION,
    };
    let stored: i64 = number(published, StoreOperation::PublishProjectPolicy)?;
    Ok(
        (
            stored,
            ProjectPolicyMutationOutcome { disposition: MutationDisposition::Applied, project_id, version: published },
        ),
    )
}

/// Of two requests that expect the same version, only one is published: once it is, the other is refused.
pub proof fn policies_are_published_in_turn(current: Option<i64>, expected: Option<u64>, published: u64)
    requires
        publication(true, current, expected) == Ok::<u64, StoreError>(published),
    ensures
        published == match current {
            Some(current) => current + 1,
            None => 1,
        },
        publication(true, Some(published as i64), expected) == Err::<u64, StoreError>(
            StoreError::Conflict { entity: EntityKind::Project },
        ),
{
}

/// Turns a stored outcome into the answer to a repeated request.
pub fn replay_policy(outcome: ProjectPolicyMutationOutcome) -> (replayed: ProjectPolicyMutationOutcome)
    ensures
        replayed == (ProjectPolicyMutationOutcome { disposition: MutationDisposition::Replayed, ..outcome }),
{
    ProjectPolicyMutationOutcome { disposition: MutationDisposition::Replayed, ..outcome }
}

/// What the audit trail and the outbox are told of a published policy.
pub fn policy_facts(outcome: &ProjectPolicyMutationOutcome) -> (facts: MutationFacts)
    ensures
        facts.actor_kind@ == "management_api"@,
        facts.actor_identity is None,
        facts.target_identity@ == hyphenated(outcome.project_id),
        facts.safe_metadata@ == seq![
            (Member { name: "version", value: FactValue::Number(outcome.version) }),
        ],
        facts.outbox_payload@ == seq![
            (Member { name: "project_id", value: FactValue::Identity(outcome.project_id) }),
            (Member { name: "version", value: FactValue::Number(outcome.version) }),
        ],
{
    MutationFacts {
        actor_kind: "management_api",
        actor_identity: None,
        target_identity: identity_text(outcome.project_id),
        safe_metadata: vec![Member { name: "version", value: FactValue::Number(outcome.version) }],
        outbox_payload: vec![
            Member { name: "project_id", value: FactValue::Identity(outcome.project_id) },
            Member { name: "version", value: FactValue::Number(outcome.version) },
        ],
    }
}

/// The policy of a project of a line, as the database holds it.
pub struct PolicyRow {
    /// The project.
    pub project_id: u128,
    /// The project it belongs to.
    pub parent_id: Option<u128>,
    /// Version of its policy.
    pub version: Option<i64>,
    /// Its policy.
    pub policy: Option<String>,
}

/// The policy of a project.
pub struct ProjectPolicyDocument {
    /// The project.
    pub project_id: u128,
    /// The project it belongs to.
    pub parent_id: Option<u128>,
    /// Version of its policy.
    pub version: u64,
    /// Its policy.
    pub policy: String,
}

/// Why a row holds no policy, where it holds none: a project without a version of a policy has none, and
/// anything else is unreadable.
pub open spec fn policy_fault(row: PolicyRow) -> Option<StoreError> {
    if !(row.version matches Some(value) && is_version(value)) {
        Some(StoreError::NotFound { entity: EntityKind::Project })
    } else if !is_identity(row.project_id) || !is_optional_identity(row.parent_id) || row.policy is None {
        Some(StoreError::Unavailable)
    } else {
        None
    }
}

/// Whether a policy is the one of a row.
pub open spec fn is_policy_of(document: ProjectPolicyDocument, row: PolicyRow) -> bool {
    &&& document.project_id == row.project_id
    &&& document.parent_id == row.parent_id
    &&& row.version is Some && document.version == row.version->Some_0
    &&& row.policy is Some && document.policy@ == row.policy->Some_0@
}

impl PolicyRow {
    /// Reads the policy of a project.
    pub fn into_document(&self) -> (result: Result<ProjectPolicyDocument, StoreError>)
        ensures
            match result {
                Ok(document) => policy_fault(*self) is None && is_policy_of(document, *self),
                Err(error) => policy_fault(*self) == Some(error),
            },
    {
        let policy_version: u64 = match self.version {
            Some(value) => if value > 0 {
                value as u64
            } else {
                return Err(StoreError::NotFound { entity: EntityKind::Project });
            },
            None => {
                return Err(StoreError::NotFound { entity: EntityKind::Project });
            },
        };
        let project_id: u128 = identity(self.project_id)?;
        let parent_id: Option<u128> = optional_identity(self.parent_id)?;
        match &self.policy {
            Some(policy) => Ok(
                ProjectPolicyDocument { project_id, parent_id, version: policy_version, policy: policy.clone() },
            ),
            None => Err(StoreError::Unavailable),
        }
    }
}

/// Whether a fault is that of the first row of a line that has one.
pub open spec fn is_first_fault(rows: Seq<PolicyRow>, error: StoreError) -> bool {
    exists|i: int|
        0 <= i < rows.len() && policy_fault(#[trigger] rows[i]) == Some(error) && forall|j: int|
            0 <= j < i ==> policy_fault(#[trigger] rows[j]) is None
}

/// Reads the policies of a line of projects, from the outermost to the project itself. There is no line where
/// there is no project.
pub fn lineage(rows: &Vec<PolicyRow>) -> (result: Result<Vec<ProjectPolicyDocument>, StoreError>)
    ensures
        match result {
            Ok(documents) => {
                &&& rows@.len() > 0
                &&& documents@.len() == rows@.len()
                &&& forall|i: int| 0 <= i < rows@.len() ==> policy_fault(#[trigger] rows@[i]) is None
                &&& forall|i: int| 0 <= i < rows@.len() ==> is_policy_of(#[trigger] documents@[i], rows@[i])
            },
            Err(error) => if rows@.len() == 0 {
                error == (StoreError::NotFound { entity: EntityKind::Project })
            } else {
                is_first_fault(rows@, error)
            },
        },
{
    if rows.len() == 0 {
        return Err(StoreError::NotFound { entity: EntityKind::Project });
    }
    let mut documents: Vec<ProjectPolicyDocument> = Vec::new();
    let mut i: usize = 0;
    while i < rows.len()
        invariant
            i <= rows.len(),
            rows.len() > 0,
            documents@.len() == i,
            forall|j: int| 0 <= j < i ==> policy_fault(#[trigger] rows@[j]) is None,
            forall|j: int| 0 <= j < i ==> is_policy_of(#[trigger] documents@[j], rows@[j]),
        decreases rows.len() - i,
    {
        match rows[i].into_document() {
            Ok(document) => {
                documents.push(document);
            },
            Err(error) => {
                assert(policy_fault(rows@[i as int]) == Some(error));
                return Err(error);
            },
        }
        i += 1;
    }
    Ok(documents)
}

/// A policy is published exactly over the version that the request expects: none where the project has none, the
/// current one where it has. Whoever expects another version is refused.
pub proof fn policies_are_published_over_what_was_expected(current: Option<i64>, expected: Option<u64>)
    requires
        current matches Some(version) ==> 0 < version < i64::MAX,
    ensures
        publication(true, current, expected) is Ok <==> (current is None && expected is None) || (current is Some
            && expected is Some && current->Some_0 == expected->Some_0),
        publication(true, current, expected) matches Err(error) ==> error == (StoreError::Conflict {
            entity: EntityKind::Project,
        }),
        publication(false, current, expected) == Err::<u64, StoreError>(
            StoreError::NotFound { entity: EntityKind::Project },
        ),
{
}

/// A policy is read back as it was published, under its project and that project's parent.
pub proof fn policies_are_read_back(document: ProjectPolicyDocument, row: PolicyRow)
    ensures
        is_policy_of(document, row) ==> document.project_id == row.project_id && document.parent_id == row.parent_id
            && row.version is Some && document.version == row.version->Some_0 && row.policy is Some && document.policy@
            == row.policy->Some_0@,
        policy_fault(row) is None <==> row.version is Some && row.version->Some_0 > 0 && row.project_id != 0 && (
        row.parent_id matches Some(parent) ==> parent != 0) && row.policy is Some,
        !(row.version is Some && row.version->Some_0 > 0) ==> policy_fault(row) == Some(
            StoreError::NotFound { entity: EntityKind::Project },
        ),
{
}

/// A policy whose version cannot be read is not counted on, and one whose project, parent or content cannot be read is
/// reported as unavailable.
pub proof fn damaged_policies_are_unavailable(current: i64, expected: Option<u64>, row: PolicyRow)
    ensures
        current <= 0 ==> publication(true, Some(current), expected) == Err::<u64, StoreError>(StoreError::Unavailable),
        row.version is None || row.version->Some_0 <= 0 <==> policy_fault(row) == Some(
            StoreError::NotFound { entity: EntityKind::Project },
        ),
        row.version is Some && row.version->Some_0 > 0 && (row.project_id == 0 || (row.parent_id is Some
            && row.parent_id->Some_0 == 0) || row.policy is None) <==> policy_fault(row) == Some(StoreError::Unavailable),
{
}

/// A list of policies fails for the first of them that cannot be read.
pub proof fn policies_fail_for_the_first_fault(rows: Seq<PolicyRow>, at: int, error: StoreError)
    requires
        0 <= at < rows.len(),
        forall|j: int| 0 <= j < at ==> policy_fault(#[trigger] rows[j]) is None,
        policy_fault(rows[at]) is Some,
    ensures
        is_first_fault(rows, error) <==> policy_fault(rows[at]) == Some(error),
{
    if is_first_fault(rows, error) {
        let i = choose|i: int|
            0 <= i < rows.len() && policy_fault(#[trigger] rows[i]) == Some(error) && forall|j: int|
                0 <= j < i ==> policy_fault(#[trigger] rows[j]) is None;
        assert(i == at);
    }
}

} // verus!
