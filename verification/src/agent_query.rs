//! Reading agents.

use vstd::prelude::*;

use crate::domain::{
    identity, is_identity, is_timestamp, is_version, timestamp, version, EntityKind, StoreError,
};
use crate::page::cut;
use crate::text::same_text;

verus! {

/// Whether an agent takes jobs.
#[derive(Clone, Copy, Debug, PartialEq, Eq, Structural)]
pub enum AgentStatus {
    /// Stored as `online`.
    Online,
    /// Stored as `offline`.
    Offline,
    /// Stored as `draining`.
    Draining,
}

/// The stored name of the status of an agent.
pub open spec fn agent_status_text(value: AgentStatus) -> Seq<char> {
    match value {
        AgentStatus::Online => "online"@,
        AgentStatus::Offline => "offline"@,
        AgentStatus::Draining => "draining"@,
    }
}

/// No two values share a stored name.
pub proof fn agent_status_text_names_one_value(a: AgentStatus, b: AgentStatus)
    ensures
        agent_status_text(a) == agent_status_text(b) ==> a == b,
{
    reveal_strlit("online");
    reveal_strlit("offline");
    reveal_strlit("draining");
    assert("online"@.len() == 6);
    assert("offline"@.len() == 7);
    assert("draining"@.len() == 8);
}

/// Names the status of an agent as the database stores it.
pub fn agent_status(value: AgentStatus) -> (text: &'static str)
    ensures
        text@ == agent_status_text(value),
{
    match value {
        AgentStatus::Online => "online",
        AgentStatus::Offline => "offline",
        AgentStatus::Draining => "draining",
    }
}

/// Reads the status of an agent back from its stored name; any other text is unreadable.
pub fn parse_agent_status(text: &str) -> (result: Result<AgentStatus, StoreError>)
    ensures
        forall|value: AgentStatus|
            result == Ok::<AgentStatus, StoreError>(value)
                <==> text@ == #[trigger] agent_status_text(value),
        result is Err ==> result == Err::<AgentStatus, StoreError>(StoreError::Unavailable),
{
    proof {
        assert forall|a: AgentStatus, b: AgentStatus|
            #[trigger] agent_status_text(a) == #[trigger] agent_status_text(b)
            implies a == b by {
            agent_status_text_names_one_value(a, b);
        }
    }
    let result = if same_text(text, "online") {
        Ok(AgentStatus::Online)
    } else if same_text(text, "offline") {
        Ok(AgentStatus::Offline)
    } else if same_text(text, "draining") {
        Ok(AgentStatus::Draining)
    } else {
        Err(StoreError::Unavailable)
    };
    assert(result matches Ok(value) ==> text@ == agent_status_text(value));
    result
}

/// An agent.
pub struct AgentRow {
    /// The agent.
    pub id: u128,
    /// Its name.
    pub name: String,
    /// Its version.
    pub version: i64,
    /// Its pool.
    pub pool_id: u128,
    /// Version of that pool.
    pub pool_version: i64,
    /// What it offers.
    pub inventory: String,
    /// Its status.
    pub state: String,
    /// When it was seen last.
    pub last_seen_at_millis: i64,
    /// When it was created.
    pub created_at_millis: i64,
    /// When it changed last.
    pub updated_at_millis: i64,
    /// Whether name and inventory are valid by their own rules.
    pub is_valid: bool,
}

/// An agent.
pub struct EnrolledAgent {
    /// The agent.
    pub id: u128,
    /// Its name.
    pub name: String,
    /// Its version.
    pub version: u64,
    /// Its pool.
    pub pool_id: u128,
    /// Version of that pool.
    pub pool_version: u64,
    /// What it offers.
    pub inventory: String,
    /// Its status.
    pub status: AgentStatus,
    /// When it was seen last.
    pub last_seen_at: i64,
    /// When it was created.
    pub created_at: i64,
    /// When it changed last.
    pub updated_at: i64,
}

/// Whether an agent can be read.
pub open spec fn is_readable(row: AgentRow) -> bool {
    &&& row.is_valid
    &&& is_identity(row.id) && is_identity(row.pool_id)
    &&& is_version(row.version) && is_version(row.pool_version)
    &&& exists|status: AgentStatus| row.state@ == #[trigger] agent_status_text(status)
    &&& is_timestamp(row.last_seen_at_millis) && is_timestamp(row.created_at_millis)
    &&& is_timestamp(row.updated_at_millis)
}

/// Whether an agent is what its row says.
pub open spec fn is_agent_of(agent: EnrolledAgent, row: AgentRow) -> bool {
    &&& agent.id == row.id
    &&& agent.name@ == row.name@
    &&& agent.version == row.version
    &&& agent.pool_id == row.pool_id
    &&& agent.pool_version == row.pool_version
    &&& agent.inventory@ == row.inventory@
    &&& row.state@ == agent_status_text(agent.status)
    &&& agent.last_seen_at == row.last_seen_at_millis
    &&& agent.created_at == row.created_at_millis
    &&& agent.updated_at == row.updated_at_millis
}

/// Reads an agent.
pub fn decode(row: AgentRow) -> (result: Result<EnrolledAgent, StoreError>)
    ensures
        match result {
            Ok(agent) => is_readable(row) && is_agent_of(agent, row),
            Err(error) => error == StoreError::Unavailable && !is_readable(row),
        },
{
    if !row.is_valid {
        return Err(StoreError::Unavailable);
    }
    let status = parse_agent_status(row.state.as_str())?;
    assert(row.state@ == agent_status_text(status));
    Ok(
        EnrolledAgent {
            id: identity(row.id)?,
            name: row.name,
            version: version(row.version)?,
            pool_id: identity(row.pool_id)?,
            pool_version: version(row.pool_version)?,
            inventory: row.inventory,
            status,
            last_seen_at: timestamp(row.last_seen_at_millis)?,
            created_at: timestamp(row.created_at_millis)?,
            updated_at: timestamp(row.updated_at_millis)?,
        },
    )
}

/// A page of agents.
pub struct AgentPage {
    /// The agents.
    pub agents: Vec<EnrolledAgent>,
    /// Where the next page starts.
    pub next_cursor: Option<u128>,
}

/// Reads an agent, where there is one.
pub fn read(row: Option<AgentRow>) -> (result: Result<EnrolledAgent, StoreError>)
    ensures
        match row {
            None => result matches Err(error) && error == (StoreError::NotFound { entity: EntityKind::Agent }),
            Some(row) => match result {
                Ok(agent) => is_readable(row) && is_agent_of(agent, row),
                Err(error) => error == StoreError::Unavailable && !is_readable(row),
            },
        },
{
    match row {
        Some(row) => decode(row),
        None => Err(StoreError::NotFound { entity: EntityKind::Agent }),
    }
}

/// Whether every agent can be read.
pub open spec fn are_readable(rows: Seq<AgentRow>) -> bool {
    forall|i: int| 0 <= i < rows.len() ==> is_readable(#[trigger] rows[i])
}

/// Whether agents are what the first of the rows say, in order.
pub open spec fn are_agents_of(agents: Seq<EnrolledAgent>, rows: Seq<AgentRow>) -> bool {
    agents.len() <= rows.len() && forall|i: int|
        0 <= i < agents.len() ==> is_agent_of(#[trigger] agents[i], rows[i])
}

fn decode_all(rows: Vec<AgentRow>) -> (result: Result<Vec<EnrolledAgent>, StoreError>)
    ensures
        match result {
            Ok(agents) => are_readable(rows@) && agents@.len() == rows@.len() && are_agents_of(agents@, rows@),
            Err(error) => error == StoreError::Unavailable && !are_readable(rows@),
        },
{
    let ghost fetched = rows@;
    let mut remaining = rows;
    let mut agents: Vec<EnrolledAgent> = Vec::new();
    while remaining.len() > 0
        invariant
            fetched == rows@,
            agents@.len() + remaining@.len() == fetched.len(),
            remaining@ == fetched.skip(agents@.len() as int),
            forall|i: int| 0 <= i < agents@.len() ==> is_readable(#[trigger] fetched[i]),
            are_agents_of(agents@, fetched),
        decreases remaining@.len(),
    {
        let ghost at = agents@.len() as int;
        let row = remaining.remove(0);
        assert(row == fetched[at]);
        match decode(row) {
            Ok(agent) => {
                agents.push(agent);
            },
            Err(error) => {
                assert(!is_readable(rows@[at]));
                return Err(error);
            },
        }
        assert(remaining@ =~= fetched.skip(agents@.len() as int));
    }
    Ok(agents)
}

/// Reads a page of agents out of the rows that were fetched; one that cannot be read fails the page, even where it
/// is past the page's end.
pub fn list(rows: Vec<AgentRow>, limit: u16) -> (result: Result<AgentPage, StoreError>)
    requires
        limit > 0,
    ensures
        match result {
            Ok(page) => {
                &&& are_readable(rows@)
                &&& page.agents@.len() == (if rows@.len() > limit {
                    limit as nat
                } else {
                    rows@.len()
                })
                &&& are_agents_of(page.agents@, rows@)
                &&& page.next_cursor == (if rows@.len() > limit {
                    Some(rows@[limit - 1].id)
                } else {
                    None
                })
            },
            Err(error) => error == StoreError::Unavailable && !are_readable(rows@),
        },
{
    let all = decode_all(rows)?;
    let ghost decoded = all@;
    let (agents, has_more) = cut(all, limit);
    assert forall|i: int| 0 <= i < agents@.len() implies is_agent_of(#[trigger] agents@[i], rows@[i]) by {
        assert(is_agent_of(decoded[i], rows@[i]));
    }
    let next_cursor: Option<u128> = if has_more {
        Some(agents[agents.len() - 1].id)
    } else {
        None
    };
    Ok(AgentPage { agents, next_cursor })
}

/// An agent is read as it is on record: under its name, in its pool and in the state it is in.
pub proof fn agents_are_read_as_recorded(agent: EnrolledAgent, row: AgentRow)
    requires
        is_agent_of(agent, row),
    ensures
        agent.id == row.id && agent.name@ == row.name@ && agent.version == row.version,
        agent.pool_id == row.pool_id && agent.pool_version == row.pool_version,
        agent.inventory@ == row.inventory@,
        agent.status == AgentStatus::Online <==> row.state@ == "online"@,
        agent.status == AgentStatus::Offline <==> row.state@ == "offline"@,
        agent.status == AgentStatus::Draining <==> row.state@ == "draining"@,
        agent.last_seen_at == row.last_seen_at_millis,
        agent.created_at == row.created_at_millis && agent.updated_at == row.updated_at_millis,
{
    agent_status_text_names_one_value(agent.status, AgentStatus::Online);
    agent_status_text_names_one_value(agent.status, AgentStatus::Offline);
    agent_status_text_names_one_value(agent.status, AgentStatus::Draining);
}

/// An agent is read exactly from a row whose identities are set, whose versions count from one, whose status is known
/// and whose times are no earlier than the Unix epoch, and a page of agents exactly where each of them is.
pub proof fn sound_agents_are_read(row: AgentRow, rows: Seq<AgentRow>)
    ensures
        is_readable(row) <==> row.is_valid && row.id != 0 && row.pool_id != 0 && row.version > 0 && row.pool_version > 0
            && (row.state@ == "online"@ || row.state@ == "offline"@ || row.state@ == "draining"@)
            && row.last_seen_at_millis >= 0 && row.created_at_millis >= 0 && row.updated_at_millis >= 0,
        are_readable(rows) <==> forall|i: int| 0 <= i < rows.len() ==> is_readable(#[trigger] rows[i]),
{
    assert(agent_status_text(AgentStatus::Online) == "online"@);
    assert(agent_status_text(AgentStatus::Offline) == "offline"@);
    assert(agent_status_text(AgentStatus::Draining) == "draining"@);
}

/// Agents are told one for each row, in the order of the rows.
pub proof fn agents_are_told_in_order(agents: Seq<EnrolledAgent>, rows: Seq<AgentRow>)
    requires
        are_agents_of(agents, rows),
    ensures
        agents.len() <= rows.len(),
        forall|i: int| 0 <= i < agents.len() ==> (#[trigger] agents[i]).id == rows[i].id,
{
    assert forall|i: int| 0 <= i < agents.len() implies (#[trigger] agents[i]).id == rows[i].id by {
        assert(is_agent_of(agents[i], rows[i]));
    }
}

} // verus!
