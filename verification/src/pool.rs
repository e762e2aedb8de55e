//! Agent pools: their versions, their drain states, and what changes them.

use vstd::prelude::*;

use crate::database::{fits_column, number};
use crate::domain::{
    identity, is_identity, is_timestamp, is_version, next_version, timestamp, version, EntityKind,
    MutationDisposition, StoreError, StoreInputError, StoreOperation,
};
use crate::identity_text::{hyphenated, identity_text};
use crate::mutation::{FactValue, Member, MutationFacts};
use crate::page::cut;
use crate::text::same_text;

verus! {

/// Whether a pool takes jobs.
#[derive(Clone, Copy, Debug, PartialEq, Eq, Structural)]
pub enum PoolDrainState {
    /// Stored as `accepting`.
    Accepting,
    /// Stored as `graceful_drain`.
    GracefulDrain,
    /// Stored as `forced_drain`.
    ForcedDrain,
    /// Stored as `drained`.
    Drained,
}

/// The stored name of a drain state.
pub open spec fn drain_state_text(value: PoolDrainState) -> Seq<char> {
    match value {
        PoolDrainState::Accepting => "accepting"@,
        PoolDrainState::GracefulDrain => "graceful_drain"@,
        PoolDrainState::ForcedDrain => "forced_drain"@,
        PoolDrainState::Drained => "drained"@,
    }
}

/// No two values share a stored name.
pub proof fn drain_state_text_names_one_value(a: PoolDrainState, b: PoolDrainState)
    ensures
        drain_state_text(a) == drain_state_text(b) ==> a == b,
{
    reveal_strlit("accepting");
    reveal_strlit("graceful_drain");
    reveal_strlit("forced_drain");
    reveal_strlit("drained");
    assert("accepting"@.len() == 9);
    assert("graceful_drain"@.len() == 14);
    assert("forced_drain"@.len() == 12);
    assert("drained"@.len() == 7);
}

/// Names a drain state as the database stores it.
pub fn drain_state(value: PoolDrainState) -> (text: &'static str)
    ensures
        text@ == drain_state_text(value),
{
    match value {
        PoolDrainState::Accepting => "accepting",
        PoolDrainState::GracefulDrain => "graceful_drain",
        PoolDrainState::ForcedDrain => "forced_drain",
        PoolDrainState::Drained => "drained",
    }
}

/// Reads a drain state back from its stored name; any other text is unreadable.
pub fn parse_drain_state(text: &str) -> (result: Result<PoolDrainState, StoreError>)
    ensures
        forall|value: PoolDrainState|
            result == Ok::<PoolDrainState, StoreError>(value)
                <==> text@ == #[trigger] drain_state_text(value),
        result is Err ==> result == Err::<PoolDrainState, StoreError>(StoreError::Unavailable),
{
    proof {
        assert forall|a: PoolDrainState, b: PoolDrainState|
            #[trigger] drain_state_text(a) == #[trigger] drain_state_text(b)
            implies a == b by {
            drain_state_text_names_one_value(a, b);
        }
    }
    let result = if same_text(text, "accepting") {
        Ok(PoolDrainState::Accepting)
    } else if same_text(text, "graceful_drain") {
        Ok(PoolDrainState::GracefulDrain)
    } else if same_text(text, "forced_drain") {
        Ok(PoolDrainState::ForcedDrain)
    } else if same_text(text, "drained") {
        Ok(PoolDrainState::Drained)
    } else {
        Err(StoreError::Unavailable)
    };
    assert(result matches Ok(value) ==> text@ == drain_state_text(value));
    result
}

/// In which order a pool gives out jobs.
#[derive(Clone, Copy, Debug, PartialEq, Eq, Structural)]
pub enum PoolFairnessPolicy {
    /// Stored as `priority_fifo`.
    PriorityFifo,
    /// Stored as `configuration_fair`.
    ConfigurationFair,
}

/// The stored name of a fairness policy.
pub open spec fn fairness_policy_text(value: PoolFairnessPolicy) -> Seq<char> {
    match value {
        PoolFairnessPolicy::PriorityFifo => "priority_fifo"@,
        PoolFairnessPolicy::ConfigurationFair => "configuration_fair"@,
    }
}

/// No two values share a stored name.
pub proof fn fairness_policy_text_names_one_value(a: PoolFairnessPolicy, b: PoolFairnessPolicy)
    ensures
        fairness_policy_text(a) == fairness_policy_text(b) ==> a == b,
{
    reveal_strlit("priority_fifo");
    reveal_strlit("configuration_fair");
    assert("priority_fifo"@.len() == 13);
    assert("configuration_fair"@.len() == 18);
}

/// Names a fairness policy as the database stores it.
pub fn fairness_policy(value: PoolFairnessPolicy) -> (text: &'static str)
    ensures
        text@ == fairness_policy_text(value),
{
    match value {
        PoolFairnessPolicy::PriorityFifo => "priority_fifo",
        PoolFairnessPolicy::ConfigurationFair => "configuration_fair",
    }
}

/// Reads a fairness policy back from its stored name; any other text is unreadable.
pub fn parse_fairness_policy(text: &str) -> (result: Result<PoolFairnessPolicy, StoreError>)
    ensures
        forall|value: PoolFairnessPolicy|
            result == Ok::<PoolFairnessPolicy, StoreError>(value)
                <==> text@ == #[trigger] fairness_policy_text(value),
        result is Err ==> result == Err::<PoolFairnessPolicy, StoreError>(StoreError::Unavailable),
{
    proof {
        assert forall|a: PoolFairnessPolicy, b: PoolFairnessPolicy|
            #[trigger] fairness_policy_text(a) == #[trigger] fairness_policy_text(b)
            implies a == b by {
            fairness_policy_text_names_one_value(a, b);
        }
    }
    let result = if same_text(text, "priority_fifo") {
        Ok(PoolFairnessPolicy::PriorityFifo)
    } else if same_text(text, "configuration_fair") {
        Ok(PoolFairnessPolicy::ConfigurationFair)
    } else {
        Err(StoreError::Unavailable)
    };
    assert(result matches Ok(value) ==> text@ == fairness_policy_text(value));
    result
}

/// A platform an agent runs on.
pub struct AgentPlatform {
    /// Operating system.
    pub operating_system: String,
    /// Processor architecture.
    pub architecture: String,
}

/// Whether two platforms are the same.
pub open spec fn same_platform_as(a: AgentPlatform, b: AgentPlatform) -> bool {
    a.operating_system@ == b.operating_system@ && a.architecture@ == b.architecture@
}

/// Whether two platforms are the same.
pub fn same_platform(a: &AgentPlatform, b: &AgentPlatform) -> (same: bool)
    ensures
        same == same_platform_as(*a, *b),
{
    same_text(a.operating_system.as_str(), b.operating_system.as_str()) && same_text(
        a.architecture.as_str(),
        b.architecture.as_str(),
    )
}

/// Which agents a pool takes.
pub enum PoolAdmissionPolicy {
    /// Any.
    Any,
    /// Those on a listed platform.
    Allowlist { platforms: Vec<AgentPlatform> },
}

/// Whether a policy takes an agent on a platform; an agent whose platform is unknown is on no list.
pub open spec fn takes(policy: PoolAdmissionPolicy, platform: Option<AgentPlatform>) -> bool {
    match policy {
        PoolAdmissionPolicy::Any => true,
        PoolAdmissionPolicy::Allowlist { platforms } => platform is Some && exists|i: int|
            0 <= i < platforms@.len() && same_platform_as(#[trigger] platforms@[i], platform->Some_0),
    }
}

fn lists(platforms: &Vec<AgentPlatform>, platform: &AgentPlatform) -> (listed: bool)
    ensures
        listed == exists|i: int| 0 <= i < platforms@.len() && same_platform_as(#[trigger] platforms@[i], *platform),
{
    let mut i: usize = 0;
    while i < platforms.len()
        invariant
            i <= platforms@.len(),
            forall|k: int| 0 <= k < i ==> !same_platform_as(#[trigger] platforms@[k], *platform),
        decreases platforms@.len() - i,
    {
        if same_platform(&platforms[i], platform) {
            return true;
        }
        i += 1;
    }
    false
}

/// Whether a policy takes an agent on a platform.
pub fn accepts_platform(policy: &PoolAdmissionPolicy, platform: &Option<AgentPlatform>) -> (accepts: bool)
    ensures
        accepts == takes(*policy, *platform),
{
    match policy {
        PoolAdmissionPolicy::Any => true,
        PoolAdmissionPolicy::Allowlist { platforms } => match platform {
            None => false,
            Some(platform) => lists(platforms, platform),
        },
    }
}

/// How a version of a pool works.
pub struct AgentPoolDefinition {
    /// Whether it is enabled.
    pub enabled: bool,
    /// Whether it takes jobs.
    pub drain_state: PoolDrainState,
    /// Which agents it takes.
    pub admission_policy: PoolAdmissionPolicy,
    /// Number of jobs it may run at once.
    pub concurrency_limit: u32,
    /// In which order it gives out jobs.
    pub fairness_policy: PoolFairnessPolicy,
    /// Number of agents it may hold.
    pub static_capacity_limit: u32,
}

/// A version of a pool.
pub struct PoolRow {
    /// The pool.
    pub id: u128,
    /// Its name.
    pub name: String,
    /// The version.
    pub version: i64,
    /// Whether it is enabled.
    pub enabled: bool,
    /// Whether it takes jobs.
    pub drain_state: String,
    /// Which agents it takes, where that can be read.
    pub admission_policy: Option<PoolAdmissionPolicy>,
    /// Number of jobs it may run at once.
    pub concurrency_limit: i64,
    /// In which order it gives out jobs.
    pub fairness_policy: String,
    /// Number of agents it may hold.
    pub static_capacity_limit: i64,
    /// When the version was published.
    pub published_at_millis: i64,
    /// Whether name and definition are valid by their own rules.
    pub is_valid: bool,
}

/// A version of a pool.
pub struct PublishedAgentPool {
    /// The pool.
    pub id: u128,
    /// Its name.
    pub name: String,
    /// The version.
    pub version: u64,
    /// How it works.
    pub definition: AgentPoolDefinition,
    /// When it was published.
    pub published_at: i64,
}

/// Whether a limit fits its thirty-two bits.
pub open spec fn is_limit(limit: i64) -> bool {
    0 <= limit <= u32::MAX
}

/// Whether the definition columns of a row can be read.
pub open spec fn is_readable_definition(row: PoolRow) -> bool {
    &&& exists|state: PoolDrainState| row.drain_state@ == #[trigger] drain_state_text(state)
    &&& exists|policy: PoolFairnessPolicy| row.fairness_policy@ == #[trigger] fairness_policy_text(policy)
    &&& row.admission_policy is Some
    &&& is_limit(row.concurrency_limit)
    &&& is_limit(row.static_capacity_limit)
}

/// Whether a definition says what its row says.
pub open spec fn is_definition_of(definition: AgentPoolDefinition, row: PoolRow) -> bool {
    &&& definition.enabled == row.enabled
    &&& row.drain_state@ == drain_state_text(definition.drain_state)
    &&& row.admission_policy == Some(definition.admission_policy)
    &&& definition.concurrency_limit == row.concurrency_limit
    &&& row.fairness_policy@ == fairness_policy_text(definition.fairness_policy)
    &&& definition.static_capacity_limit == row.static_capacity_limit
}

/// Whether a row can be read.
pub open spec fn is_readable(row: PoolRow) -> bool {
    &&& is_readable_definition(row)
    &&& row.is_valid
    &&& is_identity(row.id)
    &&& is_version(row.version)
    &&& is_timestamp(row.published_at_millis)
}

/// Whether a published pool says what its row says.
pub open spec fn is_pool_of(pool: PublishedAgentPool, row: PoolRow) -> bool {
    &&& pool.id == row.id
    &&& pool.name@ == row.name@
    &&& pool.version == row.version
    &&& is_definition_of(pool.definition, row)
    &&& pool.published_at == row.published_at_millis
}

fn limit(value: i64) -> (result: Result<u32, StoreError>)
    ensures
        result == (if is_limit(value) {
            Ok::<u32, StoreError>(value as u32)
        } else {
            Err(StoreError::Unavailable)
        }),
{
    match u32::try_from(value) {
        Ok(value) => Ok(value),
        Err(_) => Err(StoreError::Unavailable),
    }
}

/// Reads a version of a pool.
pub fn decode(row: PoolRow) -> (result: Result<PublishedAgentPool, StoreError>)
    ensures
        match result {
            Ok(pool) => is_readable(row) && is_pool_of(pool, row),
            Err(error) => error == StoreError::Unavailable && !is_readable(row),
        },
{
    let drain_state = parse_drain_state(row.drain_state.as_str())?;
    assert(row.drain_state@ == drain_state_text(drain_state));
    let fairness_policy = parse_fairness_policy(row.fairness_policy.as_str())?;
    assert(row.fairness_policy@ == fairness_policy_text(fairness_policy));
    let concurrency_limit: u32 = limit(row.concurrency_limit)?;
    let static_capacity_limit: u32 = limit(row.static_capacity_limit)?;
    if !row.is_valid {
        return Err(StoreError::Unavailable);
    }
    let id: u128 = identity(row.id)?;
    let pool_version: u64 = version(row.version)?;
    let published_at: i64 = timestamp(row.published_at_millis)?;
    match row.admission_policy {
        None => Err(StoreError::Unavailable),
        Some(admission_policy) => Ok(
            PublishedAgentPool {
                id,
                name: row.name,
                version: pool_version,
                definition: AgentPoolDefinition {
                    enabled: row.enabled,
                    drain_state,
                    admission_policy,
                    concurrency_limit,
                    fairness_policy,
                    static_capacity_limit,
                },
                published_at,
            },
        ),
    }
}

/// A page of pools.
pub struct AgentPoolPage {
    /// The pools.
    pub pools: Vec<PublishedAgentPool>,
    /// Where the next page starts.
    pub next_cursor: Option<u128>,
}

/// Whether every row can be read.
pub open spec fn are_readable(rows: Seq<PoolRow>) -> bool {
    forall|i: int| 0 <= i < rows.len() ==> is_readable(#[trigger] rows[i])
}

/// Whether pools are what the first of the rows say, in order.
pub open spec fn are_pools_of(pools: Seq<PublishedAgentPool>, rows: Seq<PoolRow>) -> bool {
    pools.len() <= rows.len() && forall|i: int| 0 <= i < pools.len() ==> is_pool_of(#[trigger] pools[i], rows[i])
}

fn decode_all(rows: Vec<PoolRow>) -> (result: Result<Vec<PublishedAgentPool>, StoreError>)
    ensures
        match result {
            Ok(pools) => are_readable(rows@) && pools@.len() == rows@.len() && are_pools_of(pools@, rows@),
            Err(error) => error == StoreError::Unavailable && !are_readable(rows@),
        },
{
    let ghost fetched = rows@;
    let mut remaining = rows;
    let mut pools: Vec<PublishedAgentPool> = Vec::new();
    while remaining.len() > 0
        invariant
            fetched == rows@,
            pools@.len() + remaining@.len() == fetched.len(),
            remaining@ == fetched.skip(pools@.len() as int),
            forall|i: int| 0 <= i < pools@.len() ==> is_readable(#[trigger] fetched[i]),
            are_pools_of(pools@, fetched),
        decreases remaining@.len(),
    {
        let ghost at = pools@.len() as int;
        let row = remaining.remove(0);
        assert(row == fetched[at]);
        match decode(row) {
            Ok(pool) => {
                pools.push(pool);
            },
            Err(error) => {
                assert(!is_readable(rows@[at]));
                return Err(error);
            },
        }
        assert(remaining@ =~= fetched.skip(pools@.len() as int));
    }
    Ok(pools)
}

/// Reads a page of pools out of the rows that were fetched; one that cannot be read fails the page, even where it
/// is past the page's end.
pub fn list(rows: Vec<PoolRow>, limit: u16) -> (result: Result<AgentPoolPage, StoreError>)
    requires
        limit > 0,
    ensures
        match result {
            Ok(page) => {
                &&& are_readable(rows@)
                &&& page.pools@.len() == (if rows@.len() > limit {
                    limit as nat
                } else {
                    rows@.len()
                })
                &&& are_pools_of(page.pools@, rows@)
                &&& page.next_cursor == (if rows@.len() > limit {
                    Some(rows@[limit - 1].id)
                } else {
                    None
                })
            },
            Err(error) => error == StoreError::Unavailable && !are_readable(rows@),
        },
{
    let all = decode_all(rows)?;
    let ghost decoded = all@;
    let (pools, has_more) = cut(all, limit);
    assert forall|i: int| 0 <= i < pools@.len() implies is_pool_of(#[trigger] pools@[i], rows@[i]) by {
        assert(is_pool_of(decoded[i], rows@[i]));
    }
    let next_cursor: Option<u128> = if has_more {
        Some(pools[pools.len() - 1].id)
    } else {
        None
    };
    Ok(AgentPoolPage { pools, next_cursor })
}

/// What changing a pool did.
pub struct AgentPoolMutationOutcome {
    /// Whether this call changed anything.
    pub disposition: MutationDisposition,
    /// The version of the pool.
    pub pool: PublishedAgentPool,
}

/// A request to create a pool.
pub struct CreateAgentPool {
    /// The pool.
    pub id: u128,
    /// Its name.
    pub name: String,
    /// How it works.
    pub definition: AgentPoolDefinition,
    /// When it is published.
    pub published_at: i64,
}

/// Creates a pool, in its first version: `validated` is the verdict on its definition, and the name must not be
/// in use.
pub fn create(validated: Result<(), StoreInputError>, name_exists: bool, request: CreateAgentPool) -> (result: Result<
    AgentPoolMutationOutcome,
    StoreError,
>)
    ensures
        result == (match validated {
            Err(source) => Err::<AgentPoolMutationOutcome, StoreError>(
                StoreError::InvalidInput { operation: StoreOperation::CreateAgentPool, source },
            ),
            Ok(()) => if name_exists {
                Err(StoreError::Conflict { entity: EntityKind::Pool })
            } else {
                Ok(
                    AgentPoolMutationOutcome {
                        disposition: MutationDisposition::Applied,
                        pool: PublishedAgentPool {
                            id: request.id,
                            name: request.name,
                            version: 1,
                            definition: request.definition,
                            published_at: request.published_at,
                        },
                    },
                )
            },
        }),
{
    match validated {
        Ok(()) => {},
        Err(source) => {
            return Err(StoreError::InvalidInput { operation: StoreOperation::CreateAgentPool, source });
        },
    }
    if name_exists {
        return Err(StoreError::Conflict { entity: EntityKind::Pool });
    }
    Ok(
        AgentPoolMutationOutcome {
            disposition: MutationDisposition::Applied,
            pool: PublishedAgentPool {
                id: request.id,
                name: request.name,
                version: 1,
                definition: request.definition,
                published_at: request.published_at,
            },
        },
    )
}

/// A pool that was stored is read back as it was.
pub proof fn stored_pools_are_read_back(pool: PublishedAgentPool, row: PoolRow)
    requires
        row.id == pool.id,
        row.name@ == pool.name@,
        row.version == pool.version,
        row.enabled == pool.definition.enabled,
        row.drain_state@ == drain_state_text(pool.definition.drain_state),
        row.admission_policy == Some(pool.definition.admission_policy),
        row.concurrency_limit == pool.definition.concurrency_limit,
        row.fairness_policy@ == fairness_policy_text(pool.definition.fairness_policy),
        row.static_capacity_limit == pool.definition.static_capacity_limit,
        row.published_at_millis == pool.published_at,
        row.is_valid,
        is_identity(pool.id),
        pool.version > 0,
        is_timestamp(pool.published_at),
    ensures
        is_readable(row),
        is_pool_of(pool, row),
        forall|other: PublishedAgentPool| #[trigger]
            is_pool_of(other, row) ==> other.definition == pool.definition && other.version == pool.version
                && other.published_at == pool.published_at && other.id == pool.id && other.name@ == pool.name@,
{
    assert forall|other: PublishedAgentPool| #[trigger] is_pool_of(other, row) implies other.definition
        == pool.definition by {
        drain_state_text_names_one_value(other.definition.drain_state, pool.definition.drain_state);
        fairness_policy_text_names_one_value(other.definition.fairness_policy, pool.definition.fairness_policy);
    }
}

/// What changing a pool comes to before the change itself is judged: the caller has to know the
/// current version, and time does not run backwards.
pub open spec fn current_verdict(current: Option<(u64, i64)>, expected_version: u64, changed_at: i64) -> Result<
    (),
    StoreError,
> {
    match current {
        None => Err(StoreError::NotFound { entity: EntityKind::Pool }),
        Some((current_version, published_at)) => if current_version != expected_version || changed_at < published_at {
            Err(StoreError::Conflict { entity: EntityKind::Pool })
        } else {
            Ok(())
        },
    }
}

/// What a caller has to know of a pool to change it: its version, and when that was published.
pub open spec fn known_version(current: Option<PublishedAgentPool>) -> Option<(u64, i64)> {
    match current {
        Some(pool) => Some((pool.version, pool.published_at)),
        None => None,
    }
}

/// Requires that a caller knows the current version of a pool.
pub fn require_current(current: &Option<PublishedAgentPool>, expected_version: u64, changed_at: i64) -> (result: Result<
    (),
    StoreError,
>)
    ensures
        result == current_verdict(
            known_version(*current),
            expected_version,
            changed_at,
        ),
{
    match current {
        None => Err(StoreError::NotFound { entity: EntityKind::Pool }),
        Some(pool) => {
            if pool.version != expected_version || changed_at < pool.published_at {
                return Err(StoreError::Conflict { entity: EntityKind::Pool });
            }
            Ok(())
        },
    }
}

/// The version under which a pool is published, as the database holds it; a number that no column can hold is
/// reported as a conflict, as any failed insert of a version is.
pub open spec fn publication(
    current: Option<(u64, i64)>,
    expected_version: u64,
    published_at: i64,
    transition: Result<(), StoreError>,
) -> Result<i64, StoreError> {
    match current_verdict(current, expected_version, published_at) {
        Err(error) => Err(error),
        Ok(()) => match transition {
            Err(error) => Err(error),
            Ok(()) => if expected_version == u64::MAX {
                Err(StoreError::Unavailable)
            } else if expected_version >= i64::MAX {
                Err(StoreError::Conflict { entity: EntityKind::Pool })
            } else {
                Ok((expected_version + 1) as i64)
            },
        },
    }
}

/// A request to publish a version of a pool.
pub struct PublishAgentPoolVersion {
    /// The version that the caller knows as the current one.
    pub expected_current_version: u64,
    /// How it works from now on.
    pub definition: AgentPoolDefinition,
    /// When it is published.
    pub published_at: i64,
}

/// A version of a pool to publish.
pub struct PoolPublication {
    /// The version as the database holds it.
    pub version: i64,
    /// The state that its active leases are put in, where they are not left alone.
    pub lease_state: Option<&'static str>,
    /// What is reported.
    pub outcome: AgentPoolMutationOutcome,
}

/// Prepares the next version of a pool: `validated` is the verdict on its definition, and `transition` the one on
/// going from the current drain state to the requested one.
pub fn publish(
    validated: Result<(), StoreInputError>,
    current: Option<PublishedAgentPool>,
    request: PublishAgentPoolVersion,
    transition: Result<(), StoreError>,
) -> (result: Result<PoolPublication, StoreError>)
    ensures
        match validated {
            Err(source) => result matches Err(error) && error == (StoreError::InvalidInput {
                operation: StoreOperation::PublishAgentPoolVersion,
                source,
            }),
            Ok(()) => match publication(
                known_version(current),
                request.expected_current_version,
                request.published_at,
                transition,
            ) {
                Err(refusal) => result matches Err(error) && error == refusal,
                Ok(version) => result matches Ok(published) && published == (PoolPublication {
                    version,
                    lease_state: lease_directive_of(request.definition.drain_state),
                    outcome: AgentPoolMutationOutcome {
                        disposition: MutationDisposition::Applied,
                        pool: PublishedAgentPool {
                            id: current->Some_0.id,
                            name: current->Some_0.name,
                            version: version as u64,
                            definition: request.definition,
                            published_at: request.published_at,
                        },
                    },
                }),
            },
        },
{
    match validated {
        Ok(()) => {},
        Err(source) => {
            return Err(StoreError::InvalidInput { operation: StoreOperation::PublishAgentPoolVersion, source });
        },
    }
    let pool = match current {
        Some(pool) => pool,
        None => {
            return Err(StoreError::NotFound { entity: EntityKind::Pool });
        },
    };
    if pool.version != request.expected_current_version || request.published_at < pool.published_at {
        return Err(StoreError::Conflict { entity: EntityKind::Pool });
    }
    transition?;
    let next: u64 = next_version(pool.version)?;
    let version: i64 = match number(next, StoreOperation::PublishAgentPoolVersion) {
        Ok(version) => version,
        Err(_) => {
            return Err(StoreError::Conflict { entity: EntityKind::Pool });
        },
    };
    Ok(
        PoolPublication {
            version,
            lease_state: apply_lease_directive(request.definition.drain_state),
            outcome: AgentPoolMutationOutcome {
                disposition: MutationDisposition::Applied,
                pool: PublishedAgentPool {
                    id: pool.id,
                    name: pool.name,
                    version: next,
                    definition: request.definition,
                    published_at: request.published_at,
                },
            },
        },
    )
}

/// Versions of a pool follow each other without a gap and not backwards in time, and of two requests that
/// expect the same version only one is published.
pub proof fn versions_follow_each_other(
    current_version: u64,
    current_published_at: i64,
    expected_version: u64,
    published_at: i64,
    transition: Result<(), StoreError>,
    published: i64,
    later: i64,
    other: Result<(), StoreError>,
)
    requires
        publication(Some((current_version, current_published_at)), expected_version, published_at, transition) == Ok::<
            i64,
            StoreError,
        >(published),
    ensures
        published == current_version + 1,
        published_at >= current_published_at,
        publication(Some((published as u64, published_at)), expected_version, later, other) == Err::<i64, StoreError>(
            StoreError::Conflict { entity: EntityKind::Pool },
        ),
{
}

/// The state that active leases of a pool are put in when the pool goes to a drain state; none where
/// they are left alone.
pub open spec fn lease_directive_of(state: PoolDrainState) -> Option<&'static str> {
    match state {
        PoolDrainState::GracefulDrain => Some("drain_requested"),
        PoolDrainState::ForcedDrain => Some("cancellation_requested"),
        _ => None,
    }
}

/// What a drain state asks of the leases that are active.
pub fn apply_lease_directive(state: PoolDrainState) -> (requested: Option<&'static str>)
    ensures
        requested == lease_directive_of(state),
{
    match state {
        PoolDrainState::GracefulDrain => Some("drain_requested"),
        PoolDrainState::ForcedDrain => Some("cancellation_requested"),
        _ => None,
    }
}

/// A lease that a drain was asked of stays held: its state is one of those that current leases have.
pub proof fn drained_leases_stay_current(state: PoolDrainState)
    ensures
        lease_directive_of(state) matches Some(requested) ==> crate::lease::is_current_state(requested@),
{
}

/// Checks that a pool may be deleted: nothing may refer to it.
pub fn delete(
    current: &Option<PublishedAgentPool>,
    expected_version: u64,
    deleted_at: i64,
    referenced: bool,
) -> (result: Result<(), StoreError>)
    ensures
        result == (match current_verdict(
            known_version(*current),
            expected_version,
            deleted_at,
        ) {
            Err(error) => Err::<(), StoreError>(error),
            Ok(()) => if referenced {
                Err(StoreError::Conflict { entity: EntityKind::Pool })
            } else {
                Ok(())
            },
        }),
{
    match require_current(current, expected_version, deleted_at) {
        Ok(()) => {},
        Err(error) => {
            return Err(error);
        },
    }
    if referenced {
        return Err(StoreError::Conflict { entity: EntityKind::Pool });
    }
    Ok(())
}

/// What a failed insert of a new pool means: a reused identity is a duplicate, anything else an outage.
pub fn classify_create(unique_violation: bool) -> (error: StoreError)
    ensures
        error == (if unique_violation {
            StoreError::Duplicate { entity: EntityKind::Pool }
        } else {
            StoreError::Unavailable
        }),
{
    if unique_violation {
        StoreError::Duplicate { entity: EntityKind::Pool }
    } else {
        StoreError::Unavailable
    }
}

/// Repeats a stored outcome.
pub fn replay_pool(stored: AgentPoolMutationOutcome) -> (outcome: AgentPoolMutationOutcome)
    ensures
        outcome.disposition == MutationDisposition::Replayed,
        outcome.pool == stored.pool,
{
    AgentPoolMutationOutcome { disposition: MutationDisposition::Replayed, pool: stored.pool }
}

/// What deleting a pool did.
#[derive(Clone, Copy, Debug, PartialEq, Eq, Structural)]
pub struct DeleteAgentPoolOutcome {
    /// Whether this call changed anything.
    pub disposition: MutationDisposition,
    /// The pool.
    pub pool_id: u128,
}

/// Repeats a stored outcome.
pub fn replay_delete(stored: DeleteAgentPoolOutcome) -> (outcome: DeleteAgentPoolOutcome)
    ensures
        outcome.disposition == MutationDisposition::Replayed,
        outcome.pool_id == stored.pool_id,
{
    DeleteAgentPoolOutcome { disposition: MutationDisposition::Replayed, pool_id: stored.pool_id }
}

/// What the audit trail and the outbox are told of a version of a pool.
pub fn pool_facts(pool: &PublishedAgentPool) -> (facts: MutationFacts)
    ensures
        facts.actor_kind@ == "unauthenticated_management"@,
        facts.actor_identity is None,
        facts.target_identity@ == hyphenated(pool.id),
        facts.safe_metadata@.len() == 3,
        facts.safe_metadata@[0] == (Member { name: "version", value: FactValue::Number(pool.version) }),
        facts.safe_metadata@[1] == (Member { name: "enabled", value: FactValue::Flag(pool.definition.enabled) }),
        facts.safe_metadata@[2].name@ == "drain_state"@,
        facts.safe_metadata@[2].value matches FactValue::Word(word) && word@ == drain_state_text(
            pool.definition.drain_state,
        ),
        facts.outbox_payload@ == seq![
            (Member { name: "pool_id", value: FactValue::Identity(pool.id) }),
            (Member { name: "version", value: FactValue::Number(pool.version) }),
        ],
{
    MutationFacts {
        actor_kind: "unauthenticated_management",
        actor_identity: None,
        target_identity: identity_text(pool.id),
        safe_metadata: vec![
            Member { name: "version", value: FactValue::Number(pool.version) },
            Member { name: "enabled", value: FactValue::Flag(pool.definition.enabled) },
            Member { name: "drain_state", value: FactValue::Word(drain_state(pool.definition.drain_state)) },
        ],
        outbox_payload: vec![
            Member { name: "pool_id", value: FactValue::Identity(pool.id) },
            Member { name: "version", value: FactValue::Number(pool.version) },
        ],
    }
}

/// What the audit trail and the outbox are told of a deleted pool.
pub fn delete_facts(pool_id: u128, version: u64) -> (facts: MutationFacts)
    ensures
        facts.actor_kind@ == "unauthenticated_management"@,
        facts.actor_identity is None,
        facts.target_identity@ == hyphenated(pool_id),
        facts.safe_metadata@ == seq![(Member { name: "version", value: FactValue::Number(version) })],
        facts.outbox_payload@ == seq![(Member { name: "pool_id", value: FactValue::Identity(pool_id) })],
{
    MutationFacts {
        actor_kind: "unauthenticated_management",
        actor_identity: None,
        target_identity: identity_text(pool_id),
        safe_metadata: vec![Member { name: "version", value: FactValue::Number(version) }],
        outbox_payload: vec![Member { name: "pool_id", value: FactValue::Identity(pool_id) }],
    }
}

/// The version of a pool to read, as the database holds it; one that no column can hold is unreadable.
pub fn read_version(version: u64) -> (result: Result<i64, StoreError>)
    ensures
        result == (if fits_column(version) {
            Ok::<i64, StoreError>(version as i64)
        } else {
            Err(StoreError::Unavailable)
        }),
{
    if version <= i64::MAX as u64 {
        Ok(version as i64)
    } else {
        Err(StoreError::Unavailable)
    }
}

/// Reads a version of a pool, where there is one.
pub fn read(row: Option<PoolRow>) -> (result: Result<PublishedAgentPool, StoreError>)
    ensures
        match row {
            None => result matches Err(error) && error == (StoreError::NotFound { entity: EntityKind::Pool }),
            Some(row) => match result {
                Ok(pool) => is_readable(row) && is_pool_of(pool, row),
                Err(error) => error == StoreError::Unavailable && !is_readable(row),
            },
        },
{
    match row {
        Some(row) => decode(row),
        None => Err(StoreError::NotFound { entity: EntityKind::Pool }),
    }
}

/// A platform is admitted exactly where the pool admits any, or lists it by operating system and architecture; an
/// agent without a platform is admitted only by a pool that admits any.
pub proof fn listed_platforms_are_admitted(platforms: Vec<AgentPlatform>, platform: AgentPlatform)
    ensures
        takes(PoolAdmissionPolicy::Any, Some(platform)) && takes(PoolAdmissionPolicy::Any, None),
        !takes(PoolAdmissionPolicy::Allowlist { platforms }, None),
        takes(PoolAdmissionPolicy::Allowlist { platforms }, Some(platform)) <==> exists|i: int|
            0 <= i < platforms@.len() && (#[trigger] platforms@[i]).operating_system@ == platform.operating_system@
                && platforms@[i].architecture@ == platform.architecture@,
{
    let policy = PoolAdmissionPolicy::Allowlist { platforms };
    if takes(policy, Some(platform)) {
        let i = choose|i: int|
            0 <= i < policy->platforms@.len() && same_platform_as(
                #[trigger] policy->platforms@[i],
                Some(platform)->Some_0,
            );
        assert(platforms@[i].operating_system@ == platform.operating_system@);
    }
    if exists|i: int|
        0 <= i < platforms@.len() && (#[trigger] platforms@[i]).operating_system@ == platform.operating_system@
            && platforms@[i].architecture@ == platform.architecture@ {
        let i = choose|i: int|
            0 <= i < platforms@.len() && (#[trigger] platforms@[i]).operating_system@ == platform.operating_system@
                && platforms@[i].architecture@ == platform.architecture@;
        assert(same_platform_as(policy->platforms@[i], Some(platform)->Some_0));
        assert(takes(policy, Some(platform)));
    }
}

/// A pool is changed exactly in the version that was expected, and not before that was published.
pub proof fn pools_are_changed_in_their_current_version(
    current_version: u64,
    current_published_at: i64,
    expected_version: u64,
    changed_at: i64,
    transition: Result<(), StoreError>,
)
    requires
        expected_version < i64::MAX,
    ensures
        current_verdict(Some((current_version, current_published_at)), expected_version, changed_at) == (if current_version
            == expected_version && current_published_at <= changed_at {
            Ok::<(), StoreError>(())
        } else {
            Err(StoreError::Conflict { entity: EntityKind::Pool })
        }),
        current_verdict(None, expected_version, changed_at) == Err::<(), StoreError>(
            StoreError::NotFound { entity: EntityKind::Pool },
        ),
        publication(Some((current_version, current_published_at)), expected_version, changed_at, transition) is Ok <==>
            current_version == expected_version && current_published_at <= changed_at && transition is Ok,
        current_version == expected_version && current_published_at <= changed_at && transition is Err ==> publication(
            Some((current_version, current_published_at)),
            expected_version,
            changed_at,
            transition,
        ) == Err::<i64, StoreError>(transition->Err_0),
{
}

/// What a pool that is drained asks of its leases: to finish where the drain is graceful, to stop where it is forced,
/// and nothing otherwise.
pub proof fn drained_pools_direct_their_leases(pool: PublishedAgentPool)
    ensures
        lease_directive_of(PoolDrainState::GracefulDrain) == Some("drain_requested"),
        lease_directive_of(PoolDrainState::ForcedDrain) == Some("cancellation_requested"),
        lease_directive_of(PoolDrainState::Accepting) is None,
        lease_directive_of(PoolDrainState::Drained) is None,
        known_version(Some(pool)) == Some((pool.version, pool.published_at)),
        known_version(None) is None,
{
}

/// Each drain state of a pool is stored under its own name.
pub proof fn drain_states_are_stored_by_name()
    ensures
        drain_state_text(PoolDrainState::Accepting) == "accepting"@,
        drain_state_text(PoolDrainState::GracefulDrain) == "graceful_drain"@,
        drain_state_text(PoolDrainState::ForcedDrain) == "forced_drain"@,
        drain_state_text(PoolDrainState::Drained) == "drained"@,
{
}

/// Each fairness policy is stored under its own name.
pub proof fn fairness_policies_are_stored_by_name()
    ensures
        fairness_policy_text(PoolFairnessPolicy::PriorityFifo) == "priority_fifo"@,
        fairness_policy_text(PoolFairnessPolicy::ConfigurationFair) == "configuration_fair"@,
{
}

/// A pool is read exactly from a row whose identity is set, whose version counts from one, whose states are known and
/// whose policy and limits are valid, and a page of pools exactly where each of them is.
pub proof fn sound_pools_are_read(row: PoolRow, rows: Seq<PoolRow>)
    ensures
        is_readable(row) <==> row.id != 0 && row.version > 0 && row.published_at_millis >= 0 && row.is_valid
            && row.admission_policy is Some && is_limit(row.concurrency_limit) && is_limit(row.static_capacity_limit) && (
        row.drain_state@ == "accepting"@ || row.drain_state@ == "graceful_drain"@ || row.drain_state@ == "forced_drain"@
            || row.drain_state@ == "drained"@) && (row.fairness_policy@ == "priority_fifo"@ || row.fairness_policy@
            == "configuration_fair"@),
        are_readable(rows) <==> forall|i: int| 0 <= i < rows.len() ==> is_readable(#[trigger] rows[i]),
{
    assert(drain_state_text(PoolDrainState::Accepting) == "accepting"@);
    assert(drain_state_text(PoolDrainState::GracefulDrain) == "graceful_drain"@);
    assert(drain_state_text(PoolDrainState::ForcedDrain) == "forced_drain"@);
    assert(drain_state_text(PoolDrainState::Drained) == "drained"@);
    assert(fairness_policy_text(PoolFairnessPolicy::PriorityFifo) == "priority_fifo"@);
    assert(fairness_policy_text(PoolFairnessPolicy::ConfigurationFair) == "configuration_fair"@);
}

/// Pools are told one for each row, in the order of the rows.
pub proof fn pools_are_told_in_order(pools: Seq<PublishedAgentPool>, rows: Seq<PoolRow>)
    requires
        are_pools_of(pools, rows),
    ensures
        pools.len() <= rows.len(),
        forall|i: int| 0 <= i < pools.len() ==> (#[trigger] pools[i]).id == rows[i].id,
{
    assert forall|i: int| 0 <= i < pools.len() implies (#[trigger] pools[i]).id == rows[i].id by {
        assert(is_pool_of(pools[i], rows[i]));
    }
}

/// The last version that can be counted is not counted on.
pub proof fn versions_of_pools_run_out(published_at: i64, since: i64)
    requires
        since <= published_at,
    ensures
        publication(Some((u64::MAX, since)), u64::MAX, published_at, Ok(())) == Err::<i64, StoreError>(
            StoreError::Unavailable,
        ),
{
}

/// A page may tell every pool there is a row for.
pub proof fn whole_pages_are_told(pools: Seq<PublishedAgentPool>, rows: Seq<PoolRow>)
    requires
        pools.len() == rows.len(),
        forall|i: int| 0 <= i < pools.len() ==> is_pool_of(#[trigger] pools[i], rows[i]),
    ensures
        are_pools_of(pools, rows),
{
}

} // verus!
