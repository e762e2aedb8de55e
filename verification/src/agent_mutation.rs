//! Draining an agent, and moving it to another pool.

use vstd::prelude::*;

use crate::database::{fits_column, number, out_of_range};
use crate::domain::{is_identity, is_version, EntityKind, StoreError, StoreOperation};
use crate::identity_text::{hyphenated, identity_text};
use crate::mutation::{FactValue, Member, MutationFacts};
use crate::ordered::{is_ascending, ordered};
use crate::pool::{
    accepts_platform, drain_state_text, drain_state_text_names_one_value, fairness_policy_text, is_limit,
    parse_drain_state, parse_fairness_policy, takes, AgentPlatform, AgentPoolDefinition, PoolAdmissionPolicy,
    PoolDrainState, PoolFairnessPolicy, same_platform_as,
};
use crate::text::same_text;

verus! {

/// How an agent is drained.
#[derive(Clone, Copy, Debug, PartialEq, Eq, Structural)]
pub enum AgentDrainMode {
    /// It finishes its job.
    Graceful,
    /// Its job is cancelled.
    Forced,
}

/// The state an agent's active leases are put in.
pub open spec fn lease_state_of(mode: AgentDrainMode) -> &'static str {
    match mode {
        AgentDrainMode::Graceful => "drain_requested",
        AgentDrainMode::Forced => "cancellation_requested",
    }
}

/// What draining an agent comes to.
pub open spec fn drained(current: Option<(i64, Seq<char>)>, expected_version: u64) -> Result<(), StoreError> {
    match current {
        None => Err(StoreError::NotFound { entity: EntityKind::Agent }),
        Some((version, status)) => if !fits_column(expected_version) {
            Err(out_of_range(StoreOperation::DrainAgent))
        } else if version != expected_version || status == "draining"@ {
            Err(StoreError::Conflict { entity: EntityKind::Agent })
        } else {
            Ok(())
        },
    }
}

/// Decides whether an agent may be drained, and what is asked of its active leases: the caller has to
/// know the current version, and an agent is drained once.
pub fn drain(current: &Option<(i64, String)>, expected_version: u64, mode: AgentDrainMode) -> (result: Result<
    &'static str,
    StoreError,
>)
    ensures
        match drained(
            match *current {
                Some((version, status)) => Some((version, status@)),
                None => None,
            },
            expected_version,
        ) {
            Ok(()) => result == Ok::<&'static str, StoreError>(lease_state_of(mode)),
            Err(error) => result == Err::<&'static str, StoreError>(error),
        },
{
    match current {
        None => Err(StoreError::NotFound { entity: EntityKind::Agent }),
        Some((version, status)) => {
            let expected: i64 = number(expected_version, StoreOperation::DrainAgent)?;
            if *version != expected || same_text(status.as_str(), "draining") {
                return Err(StoreError::Conflict { entity: EntityKind::Agent });
            }
            match mode {
                AgentDrainMode::Graceful => Ok("drain_requested"),
                AgentDrainMode::Forced => Ok("cancellation_requested"),
            }
        },
    }
}

/// What the audit trail and the outbox are told of a drain.
pub fn drain_facts(agent_id: u128, mode: AgentDrainMode) -> (facts: MutationFacts)
    ensures
        facts.actor_kind@ == "unauthenticated_management"@,
        facts.actor_identity is None,
        facts.target_identity@ == hyphenated(agent_id),
        facts.safe_metadata@ == seq![(Member { name: "mode", value: FactValue::Word(mode_word(mode)) })],
        facts.outbox_payload@ == seq![
            (Member { name: "agent_id", value: FactValue::Identity(agent_id) }),
            (Member { name: "mode", value: FactValue::Word(mode_word(mode)) }),
        ],
{
    let word: &'static str = match mode {
        AgentDrainMode::Graceful => "graceful",
        AgentDrainMode::Forced => "forced",
    };
    MutationFacts {
        actor_kind: "unauthenticated_management",
        actor_identity: None,
        target_identity: identity_text(agent_id),
        safe_metadata: vec![Member { name: "mode", value: FactValue::Word(word) }],
        outbox_payload: vec![
            Member { name: "agent_id", value: FactValue::Identity(agent_id) },
            Member { name: "mode", value: FactValue::Word(word) },
        ],
    }
}

/// The word by which a mode is recorded.
pub open spec fn mode_word(mode: AgentDrainMode) -> &'static str {
    match mode {
        AgentDrainMode::Graceful => "graceful",
        AgentDrainMode::Forced => "forced",
    }
}

/// An agent as it was locked.
pub struct AgentLockRow {
    /// Its pool.
    pub pool_id: u128,
    /// Its version.
    pub version: i64,
    /// Its operating system.
    pub operating_system: Option<String>,
    /// Its architecture.
    pub architecture: Option<String>,
    /// Whether the two make up a platform.
    pub platform_is_valid: bool,
}

/// The current version of a pool.
pub struct CurrentPoolRow {
    /// The version.
    pub version: i64,
    /// Whether it is enabled.
    pub enabled: bool,
    /// Whether it takes jobs.
    pub drain_state: String,
    /// Which agents it takes, where that can be read.
    pub admission_policy: Option<PoolAdmissionPolicy>,
    /// Number of jobs it may run at once.
    pub concurrency_limit: i64,
    /// In which order it gives out jobs.
    pub fairness_policy: String,
    /// Number of agents it may hold.
    pub static_capacity_limit: i64,
}

/// The current version of a pool.
pub struct CurrentPool {
    /// The version.
    pub version: u64,
    /// How it works.
    pub definition: AgentPoolDefinition,
}

/// Whether the current version of a pool can be read.
pub open spec fn is_readable_pool(row: CurrentPoolRow) -> bool {
    &&& is_version(row.version)
    &&& row.admission_policy is Some
    &&& exists|state: PoolDrainState| row.drain_state@ == #[trigger] drain_state_text(state)
    &&& exists|policy: PoolFairnessPolicy| row.fairness_policy@ == #[trigger] fairness_policy_text(policy)
    &&& is_limit(row.concurrency_limit)
    &&& is_limit(row.static_capacity_limit)
}

/// Reads the current version of a pool.
pub fn current_pool(row: Option<CurrentPoolRow>) -> (result: Result<CurrentPool, StoreError>)
    ensures
        match row {
            None => result matches Err(error) && error == (StoreError::NotFound { entity: EntityKind::Pool }),
            Some(row) => match result {
                Ok(pool) => {
                    &&& is_readable_pool(row)
                    &&& pool.version == row.version
                    &&& pool.definition.enabled == row.enabled
                    &&& row.drain_state@ == drain_state_text(pool.definition.drain_state)
                    &&& row.admission_policy == Some(pool.definition.admission_policy)
                    &&& pool.definition.concurrency_limit == row.concurrency_limit
                    &&& row.fairness_policy@ == fairness_policy_text(pool.definition.fairness_policy)
                    &&& pool.definition.static_capacity_limit == row.static_capacity_limit
                },
                Err(error) => error == StoreError::Unavailable && !is_readable_pool(row),
            },
        },
{
    let row = match row {
        Some(row) => row,
        None => {
            return Err(StoreError::NotFound { entity: EntityKind::Pool });
        },
    };
    let drain_state = parse_drain_state(row.drain_state.as_str())?;
    assert(row.drain_state@ == drain_state_text(drain_state));
    let fairness_policy = parse_fairness_policy(row.fairness_policy.as_str())?;
    assert(row.fairness_policy@ == fairness_policy_text(fairness_policy));
    if row.version <= 0 {
        return Err(StoreError::Unavailable);
    }
    match (row.admission_policy, u32::try_from(row.concurrency_limit), u32::try_from(row.static_capacity_limit)) {
        (Some(admission_policy), Ok(concurrency_limit), Ok(static_capacity_limit)) => Ok(
            CurrentPool {
                version: row.version as u64,
                definition: AgentPoolDefinition {
                    enabled: row.enabled,
                    drain_state,
                    admission_policy,
                    concurrency_limit,
                    fairness_policy,
                    static_capacity_limit,
                },
            },
        ),
        _ => Err(StoreError::Unavailable),
    }
}

/// Whether a pool takes one more agent of a platform.
pub open spec fn is_compatible(definition: AgentPoolDefinition, platform: Option<AgentPlatform>, assigned: i64) -> bool {
    &&& definition.enabled
    &&& definition.drain_state == PoolDrainState::Accepting
    &&& takes(definition.admission_policy, platform)
    &&& assigned < definition.static_capacity_limit
}

/// Requires that a pool takes one more agent: it has to be enabled and accepting, take the platform, and
/// have room.
pub fn ensure_compatible(definition: &AgentPoolDefinition, platform: &Option<AgentPlatform>, assigned: i64) -> (result:
    Result<(), StoreError>)
    ensures
        result == (if is_compatible(*definition, *platform, assigned) {
            Ok::<(), StoreError>(())
        } else {
            Err(StoreError::Conflict { entity: EntityKind::Pool })
        }),
{
    if !definition.enabled || definition.drain_state != PoolDrainState::Accepting || !accepts_platform(
        &definition.admission_policy,
        platform,
    ) || assigned >= definition.static_capacity_limit as i64 {
        return Err(StoreError::Conflict { entity: EntityKind::Pool });
    }
    Ok(())
}

/// The pools to lock for a move, in ascending order: both, or one where they are the same.
pub fn pools_to_lock(source: u128, target: u128) -> (pools: Vec<u128>)
    ensures
        is_ascending(pools@),
        forall|pool: u128| #[trigger] pools@.contains(pool) <==> pool == source || pool == target,
{
    let both: Vec<u128> = vec![source, target];
    assert(both@[0] == source && both@[1] == target);
    ordered(&both)
}

/// Two moves lock the pools they share in the same order, so they never wait for each other in a
/// circle: whichever way round the pools are given, the order is the same.
pub proof fn lock_order_is_symmetric(first: Seq<u128>, second: Seq<u128>, source: u128, target: u128)
    requires
        is_ascending(first),
        is_ascending(second),
        forall|pool: u128| #[trigger] first.contains(pool) <==> pool == source || pool == target,
        forall|pool: u128| #[trigger] second.contains(pool) <==> pool == target || pool == source,
    ensures
        first == second,
{
    let low = if source <= target {
        source
    } else {
        target
    };
    let high = if source <= target {
        target
    } else {
        source
    };
    two_element_order(first, low, high);
    two_element_order(second, low, high);
    assert(first =~= second);
}

proof fn two_element_order(pools: Seq<u128>, low: u128, high: u128)
    requires
        is_ascending(pools),
        low <= high,
        forall|pool: u128| #[trigger] pools.contains(pool) <==> pool == low || pool == high,
    ensures
        pools.len() == (if low == high {
            1nat
        } else {
            2nat
        }),
        pools[0] == low,
        low != high ==> pools[1] == high,
{
    assert(pools.contains(low));
    assert(pools.contains(high));
    let i = choose|i: int| 0 <= i < pools.len() && pools[i] == low;
    let j = choose|j: int| 0 <= j < pools.len() && pools[j] == high;
    if i > 0 {
        assert(pools[0] < pools[i]);
        assert(pools.contains(pools[0]));
    }
    if low == high {
        if pools.len() > 1 {
            assert(pools[0] < pools[1]);
            assert(pools.contains(pools[1]));
        }
    } else {
        if j < i {
            assert(pools[j] < pools[i]);
        }
        if j > 1 {
            assert(pools[0] < pools[1]);
            assert(pools[1] < pools[j]);
            assert(pools.contains(pools[1]));
        }
        if pools.len() > 2 {
            assert(pools[1] < pools[2]);
            assert(pools.contains(pools[2]));
        }
    }
}

/// An agent that may be moved, and the pool it leaves.
pub struct MovableAgent {
    /// The pool it leaves.
    pub source_pool_id: u128,
    /// Its platform.
    pub platform: Option<AgentPlatform>,
}

/// What moving an agent comes to before its target is looked at. `source_pool` is the pool it was in
/// when the locks were taken.
pub open spec fn movable(
    source_pool: Option<u128>,
    agent: Option<AgentLockRow>,
    expected_version: u64,
    target_pool_id: u128,
    active_lease: bool,
) -> Result<(), StoreError> {
    match (source_pool, agent) {
        (None, _) => Err(StoreError::NotFound { entity: EntityKind::Agent }),
        (Some(source), _) if !is_identity(source) => Err(StoreError::Unavailable),
        (Some(_), None) => Err(StoreError::NotFound { entity: EntityKind::Agent }),
        (Some(source), Some(agent)) => if (agent.operating_system is Some) != (agent.architecture is Some) || (
        agent.operating_system is Some && !agent.platform_is_valid) {
            Err(StoreError::Unavailable)
        } else if agent.pool_id != source {
            Err(StoreError::Conflict { entity: EntityKind::Agent })
        } else if !fits_column(expected_version) {
            Err(out_of_range(StoreOperation::ReassignAgentPool))
        } else if agent.version != expected_version || source == target_pool_id {
            Err(StoreError::Conflict { entity: EntityKind::Agent })
        } else if active_lease {
            Err(StoreError::Conflict { entity: EntityKind::Lease })
        } else {
            Ok(())
        },
    }
}

/// Decides whether an agent may be moved: it has to be where it was when the locks were taken, the
/// caller has to know its current version, it has to leave its pool, and it must hold no lease.
pub fn require_movable(
    source_pool: Option<u128>,
    agent: Option<AgentLockRow>,
    expected_version: u64,
    target_pool_id: u128,
    active_lease: bool,
) -> (result: Result<MovableAgent, StoreError>)
    ensures
        match movable(source_pool, agent, expected_version, target_pool_id, active_lease) {
            Err(error) => result matches Err(reported) && reported == error,
            Ok(()) => result matches Ok(movable) && Some(movable.source_pool_id) == source_pool && match (
                movable.platform,
                agent->Some_0.operating_system,
            ) {
                (Some(platform), Some(operating_system)) => platform.operating_system == operating_system && Some(
                    platform.architecture,
                ) == agent->Some_0.architecture,
                (None, None) => true,
                _ => false,
            },
        },
{
    let source: u128 = match source_pool {
        Some(source) => source,
        None => {
            return Err(StoreError::NotFound { entity: EntityKind::Agent });
        },
    };
    if source == 0 {
        return Err(StoreError::Unavailable);
    }
    let agent = match agent {
        Some(agent) => agent,
        None => {
            return Err(StoreError::NotFound { entity: EntityKind::Agent });
        },
    };
    let pool_id: u128 = agent.pool_id;
    let agent_version: i64 = agent.version;
    let platform: Option<AgentPlatform> = match (agent.operating_system, agent.architecture) {
        (Some(operating_system), Some(architecture)) => {
            if !agent.platform_is_valid {
                return Err(StoreError::Unavailable);
            }
            Some(AgentPlatform { operating_system, architecture })
        },
        (None, None) => None,
        _ => {
            return Err(StoreError::Unavailable);
        },
    };
    if pool_id != source {
        return Err(StoreError::Conflict { entity: EntityKind::Agent });
    }
    let expected: i64 = number(expected_version, StoreOperation::ReassignAgentPool)?;
    if agent_version != expected || source == target_pool_id {
        return Err(StoreError::Conflict { entity: EntityKind::Agent });
    }
    if active_lease {
        return Err(StoreError::Conflict { entity: EntityKind::Lease });
    }
    Ok(MovableAgent { source_pool_id: source, platform })
}

/// The platform of a locked agent, where it is known.
pub open spec fn platform_in(agent: AgentLockRow) -> Option<AgentPlatform> {
    match (agent.operating_system, agent.architecture) {
        (Some(operating_system), Some(architecture)) => Some(AgentPlatform { operating_system, architecture }),
        _ => None,
    }
}

/// Whether a pool, as the database holds it, takes one more agent of a platform.
pub open spec fn has_room_for(row: CurrentPoolRow, platform: Option<AgentPlatform>, assigned: i64) -> bool {
    &&& row.enabled
    &&& row.drain_state@ == drain_state_text(PoolDrainState::Accepting)
    &&& takes(row.admission_policy->Some_0, platform)
    &&& assigned < row.static_capacity_limit
}

/// What moving an agent comes to: the version of the pool that it goes to. `assigned` is the number of agents
/// that are there.
pub open spec fn move_verdict(
    source_pool: Option<u128>,
    agent: Option<AgentLockRow>,
    expected_version: u64,
    target_pool_id: u128,
    active_lease: bool,
    target: Option<CurrentPoolRow>,
    assigned: i64,
) -> Result<i64, StoreError> {
    match movable(source_pool, agent, expected_version, target_pool_id, active_lease) {
        Err(error) => Err(error),
        Ok(()) => match target {
            None => Err(StoreError::NotFound { entity: EntityKind::Pool }),
            Some(row) => if !is_readable_pool(row) {
                Err(StoreError::Unavailable)
            } else if !has_room_for(row, platform_in(agent->Some_0), assigned) {
                Err(StoreError::Conflict { entity: EntityKind::Pool })
            } else {
                Ok(row.version)
            },
        },
    }
}

/// An agent that moves.
#[derive(Clone, Copy, Debug, PartialEq, Eq, Structural)]
pub struct AgentMove {
    /// The pool it leaves.
    pub source_pool_id: u128,
    /// The pool it goes to.
    pub target_pool_id: u128,
    /// The version of that pool, as the database holds it.
    pub target_version: i64,
}

/// Moves an agent to another pool: it has to be free to leave its own, and the other has to take it.
pub fn reassign(
    source_pool: Option<u128>,
    agent: Option<AgentLockRow>,
    expected_version: u64,
    target_pool_id: u128,
    active_lease: bool,
    target: Option<CurrentPoolRow>,
    assigned: i64,
) -> (result: Result<AgentMove, StoreError>)
    ensures
        result == (match move_verdict(
            source_pool,
            agent,
            expected_version,
            target_pool_id,
            active_lease,
            target,
            assigned,
        ) {
            Err(error) => Err::<AgentMove, StoreError>(error),
            Ok(target_version) => Ok(
                AgentMove { source_pool_id: source_pool->Some_0, target_pool_id, target_version },
            ),
        }),
{
    let leaving = match require_movable(source_pool, agent, expected_version, target_pool_id, active_lease) {
        Ok(leaving) => leaving,
        Err(error) => {
            return Err(error);
        },
    };
    let pool = match current_pool(target) {
        Ok(pool) => pool,
        Err(error) => {
            return Err(error);
        },
    };
    proof {
        drain_state_text_names_one_value(PoolDrainState::Accepting, pool.definition.drain_state);
    }
    match ensure_compatible(&pool.definition, &leaving.platform, assigned) {
        Ok(()) => {},
        Err(error) => {
            return Err(error);
        },
    }
    let target_version: i64 = number(pool.version, StoreOperation::ReassignAgentPool)?;
    Ok(AgentMove { source_pool_id: leaving.source_pool_id, target_pool_id, target_version })
}

/// An agent moves only without a lease, only to a pool that takes its platform and has room, and never to the
/// pool that it is in.
pub proof fn moved_agents_are_taken(
    source_pool: Option<u128>,
    agent: Option<AgentLockRow>,
    expected_version: u64,
    target_pool_id: u128,
    active_lease: bool,
    target: Option<CurrentPoolRow>,
    assigned: i64,
)
    requires
        move_verdict(source_pool, agent, expected_version, target_pool_id, active_lease, target, assigned) is Ok,
    ensures
        !active_lease,
        source_pool != Some(target_pool_id),
        agent->Some_0.version == expected_version,
        target->Some_0.enabled,
        takes(target->Some_0.admission_policy->Some_0, platform_in(agent->Some_0)),
        assigned < target->Some_0.static_capacity_limit,
{
}

/// What the audit trail and the outbox are told of a move.
pub fn reassign_facts(agent_id: u128, source_pool_id: u128, target_pool_id: u128, target_version: u64) -> (facts:
    MutationFacts)
    ensures
        facts.actor_kind@ == "unauthenticated_management"@,
        facts.actor_identity is None,
        facts.target_identity@ == hyphenated(agent_id),
        facts.safe_metadata@ == seq![
            (Member { name: "source_pool_id", value: FactValue::Identity(source_pool_id) }),
            (Member { name: "target_pool_id", value: FactValue::Identity(target_pool_id) }),
        ],
        facts.outbox_payload@ == seq![
            (Member { name: "agent_id", value: FactValue::Identity(agent_id) }),
            (Member { name: "pool_id", value: FactValue::Identity(target_pool_id) }),
            (Member { name: "pool_version", value: FactValue::Number(target_version) }),
        ],
{
    MutationFacts {
        actor_kind: "unauthenticated_management",
        actor_identity: None,
        target_identity: identity_text(agent_id),
        safe_metadata: vec![
            Member { name: "source_pool_id", value: FactValue::Identity(source_pool_id) },
            Member { name: "target_pool_id", value: FactValue::Identity(target_pool_id) },
        ],
        outbox_payload: vec![
            Member { name: "agent_id", value: FactValue::Identity(agent_id) },
            Member { name: "pool_id", value: FactValue::Identity(target_pool_id) },
            Member { name: "pool_version", value: FactValue::Number(target_version) },
        ],
    }
}

/// An agent is drained exactly in the version that was expected and where it is not being drained; its leases are then
/// asked to finish, or to stop where the drain is forced.
pub proof fn agents_are_drained_once(version: i64, status: Seq<char>, expected_version: u64)
    requires
        expected_version <= i64::MAX,
    ensures
        drained(Some((version, status)), expected_version) == (if version == expected_version && status != "draining"@ {
            Ok::<(), StoreError>(())
        } else {
            Err(StoreError::Conflict { entity: EntityKind::Agent })
        }),
        drained(None, expected_version) == Err::<(), StoreError>(StoreError::NotFound { entity: EntityKind::Agent }),
        lease_state_of(AgentDrainMode::Graceful) == "drain_requested",
        lease_state_of(AgentDrainMode::Forced) == "cancellation_requested",
{
}

/// A pool takes an agent exactly where it is enabled, accepts agents, admits the agent's platform and has room.
pub proof fn open_pools_with_room_take_agents(definition: AgentPoolDefinition, platform: Option<AgentPlatform>, assigned: i64)
    ensures
        is_compatible(definition, platform, assigned) <==> definition.enabled && definition.drain_state
            == PoolDrainState::Accepting && assigned < definition.static_capacity_limit && match definition.admission_policy {
            PoolAdmissionPolicy::Any => true,
            PoolAdmissionPolicy::Allowlist { platforms } => platform is Some && exists|i: int|
                0 <= i < platforms@.len() && (#[trigger] platforms@[i]).operating_system@
                    == platform->Some_0.operating_system@ && platforms@[i].architecture@ == platform->Some_0.architecture@,
        },
{
    if let PoolAdmissionPolicy::Allowlist { platforms } = definition.admission_policy {
        if platform is Some {
            assert(forall|i: int|
                0 <= i < platforms@.len() ==> (same_platform_as(#[trigger] platforms@[i], platform->Some_0) <==> (
                platforms@[i].operating_system@ == platform->Some_0.operating_system@ && platforms@[i].architecture@
                    == platform->Some_0.architecture@)));
        }
    }
}

/// An agent can be moved exactly from the pool it is in, in the version that was expected, to another pool, and while
/// it runs nothing.
pub proof fn idle_agents_can_be_moved(
    source: u128,
    agent: AgentLockRow,
    expected_version: u64,
    target_pool_id: u128,
    active_lease: bool,
)
    requires
        source != 0,
        (agent.operating_system is Some) == (agent.architecture is Some),
        agent.operating_system is Some ==> agent.platform_is_valid,
        expected_version <= i64::MAX,
    ensures
        movable(Some(source), Some(agent), expected_version, target_pool_id, active_lease) == (if agent.pool_id != source
            || agent.version != expected_version || source == target_pool_id {
            Err::<(), StoreError>(StoreError::Conflict { entity: EntityKind::Agent })
        } else if active_lease {
            Err(StoreError::Conflict { entity: EntityKind::Lease })
        } else {
            Ok(())
        }),
        movable(None, Some(agent), expected_version, target_pool_id, active_lease) == Err::<(), StoreError>(
            StoreError::NotFound { entity: EntityKind::Agent },
        ),
        movable(Some(source), None, expected_version, target_pool_id, active_lease) == Err::<(), StoreError>(
            StoreError::NotFound { entity: EntityKind::Agent },
        ),
{
}

/// An agent that can be moved is moved exactly where the target takes it: that is enabled, accepts agents, admits its
/// platform and has room. It then belongs to the target's current version.
pub proof fn movable_agents_are_moved(
    source_pool: Option<u128>,
    agent: AgentLockRow,
    expected_version: u64,
    target_pool_id: u128,
    active_lease: bool,
    target: CurrentPoolRow,
    assigned: i64,
)
    requires
        movable(source_pool, Some(agent), expected_version, target_pool_id, active_lease) is Ok,
        is_readable_pool(target),
    ensures
        ({
            let platform = match (agent.operating_system, agent.architecture) {
                (Some(operating_system), Some(architecture)) => Some(AgentPlatform { operating_system, architecture }),
                _ => None,
            };
            move_verdict(
                source_pool,
                Some(agent),
                expected_version,
                target_pool_id,
                active_lease,
                Some(target),
                assigned,
            ) == (if target.enabled && target.drain_state@ == "accepting"@ && takes(
                target.admission_policy->Some_0,
                platform,
            ) && assigned < target.static_capacity_limit {
                Ok::<i64, StoreError>(target.version)
            } else {
                Err(StoreError::Conflict { entity: EntityKind::Pool })
            })
        }),
        move_verdict(source_pool, Some(agent), expected_version, target_pool_id, active_lease, None, assigned) == Err::<
            i64,
            StoreError,
        >(StoreError::NotFound { entity: EntityKind::Pool }),
{
}

/// The pool an agent belongs to is read exactly where its version counts from one, its states are known and its policy
/// and limits are valid.
pub proof fn sound_pools_are_read(row: CurrentPoolRow)
    ensures
        is_readable_pool(row) <==> row.version > 0 && row.admission_policy is Some && is_limit(row.concurrency_limit)
            && is_limit(row.static_capacity_limit) && (row.drain_state@ == "accepting"@ || row.drain_state@
            == "graceful_drain"@ || row.drain_state@ == "forced_drain"@ || row.drain_state@ == "drained"@) && (
        row.fairness_policy@ == "priority_fifo"@ || row.fairness_policy@ == "configuration_fair"@),
{
    assert(drain_state_text(PoolDrainState::Accepting) == "accepting"@);
    assert(drain_state_text(PoolDrainState::GracefulDrain) == "graceful_drain"@);
    assert(drain_state_text(PoolDrainState::ForcedDrain) == "forced_drain"@);
    assert(drain_state_text(PoolDrainState::Drained) == "drained"@);
    assert(fairness_policy_text(PoolFairnessPolicy::PriorityFifo) == "priority_fifo"@);
    assert(fairness_policy_text(PoolFairnessPolicy::ConfigurationFair) == "configuration_fair"@);
}

/// What is stored of an agent or of the pool it would move to and cannot be read is reported as unavailable: a pool
/// without an identity, half a platform or one that is not valid, or a pool whose row is not sound.
pub proof fn damaged_agents_are_unavailable(
    source: u128,
    agent: AgentLockRow,
    expected_version: u64,
    target_pool_id: u128,
    active_lease: bool,
    target: CurrentPoolRow,
    assigned: i64,
)
    ensures
        source == 0 ==> movable(Some(source), Some(agent), expected_version, target_pool_id, active_lease) == Err::<
            (),
            StoreError,
        >(StoreError::Unavailable),
        source != 0 && (agent.operating_system is Some && agent.architecture is None || agent.operating_system is None
            && agent.architecture is Some || agent.operating_system is Some && !agent.platform_is_valid) ==> movable(
            Some(source),
            Some(agent),
            expected_version,
            target_pool_id,
            active_lease,
        ) == Err::<(), StoreError>(StoreError::Unavailable),
        movable(Some(source), Some(agent), expected_version, target_pool_id, active_lease) is Ok && !is_readable_pool(
            target,
        ) ==> move_verdict(
            Some(source),
            Some(agent),
            expected_version,
            target_pool_id,
            active_lease,
            Some(target),
            assigned,
        ) == Err::<i64, StoreError>(StoreError::Unavailable),
{
}

/// The modes of a drain are known by their names.
pub proof fn modes_of_drains_are_named()
    ensures
        mode_word(AgentDrainMode::Graceful) == "graceful",
        mode_word(AgentDrainMode::Forced) == "forced",
{
}

} // verus!
