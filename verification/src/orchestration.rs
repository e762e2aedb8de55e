//! The job graph of an attempt: reading it, and applying what its reconciliation decides.

use vstd::prelude::*;

use crate::domain::{is_identity, StoreError};
use crate::state::{job_state_text, parse_job_state, JobState};

verus! {

/// One dependency of one job; a job without dependencies has one row without one.
pub struct GraphRow {
    /// The job.
    pub job_id: u128,
    /// State of the job.
    pub job_state: String,
    /// A job it depends on.
    pub dependency_job_id: Option<u128>,
    /// How the job treats its dependencies, as a number that tells policies apart.
    pub dependency_policy: u32,
}

/// One job of the graph.
pub struct GraphNode {
    /// The job.
    pub job_id: u128,
    /// Its state.
    pub state: JobState,
    /// The jobs it depends on.
    pub dependencies: Vec<u128>,
    /// How it treats them.
    pub dependency_policy: u32,
}

/// The dependencies of a job, in the order of the rows.
pub open spec fn dependencies_of(rows: Seq<GraphRow>, job_id: u128) -> Seq<u128>
    decreases rows.len(),
{
    if rows.len() == 0 {
        Seq::empty()
    } else {
        let before = dependencies_of(rows.drop_last(), job_id);
        match rows.last().dependency_job_id {
            Some(dependency) if rows.last().job_id == job_id => before.push(dependency),
            _ => before,
        }
    }
}

/// Whether a node says of its job what the rows say.
#[verifier::opaque]
pub open spec fn is_node_of(node: GraphNode, rows: Seq<GraphRow>) -> bool {
    &&& node.dependencies@ == dependencies_of(rows, node.job_id)
    &&& exists|i: int| 0 <= i < rows.len() && (#[trigger] rows[i]).job_id == node.job_id
    &&& forall|i: int|
        0 <= i < rows.len() && (#[trigger] rows[i]).job_id == node.job_id ==> rows[i].job_state@ == job_state_text(
            node.state,
        ) && rows[i].dependency_policy == node.dependency_policy
}

/// Whether a job has a node.
#[verifier::opaque]
pub open spec fn has_node(nodes: Seq<GraphNode>, job_id: u128) -> bool {
    exists|k: int| 0 <= k < nodes.len() && (#[trigger] nodes[k]).job_id == job_id
}

/// Whether nodes are the rows grouped by job, in ascending order of the jobs.
pub open spec fn is_graph_of(nodes: Seq<GraphNode>, rows: Seq<GraphRow>) -> bool {
    &&& forall|i: int, j: int| 0 <= i < j < nodes.len() ==> (#[trigger] nodes[i]).job_id < (#[trigger] nodes[j]).job_id
    &&& forall|k: int| 0 <= k < nodes.len() ==> is_node_of(#[trigger] nodes[k], rows)
    &&& forall|i: int|
        0 <= i < rows.len() ==> has_node(nodes, (#[trigger] rows[i]).job_id)
}

/// Whether a row can be read.
pub open spec fn is_readable_row(row: GraphRow) -> bool {
    &&& exists|state: JobState| row.job_state@ == #[trigger] job_state_text(state)
    &&& is_identity(row.job_id)
    &&& row.dependency_job_id matches Some(dependency) ==> is_identity(dependency)
}

/// Whether every row can be read and rows of one job agree on its state and its policy.
pub open spec fn is_consistent(rows: Seq<GraphRow>) -> bool {
    &&& forall|i: int| 0 <= i < rows.len() ==> is_readable_row(#[trigger] rows[i])
    &&& forall|i: int, j: int|
        0 <= i < j < rows.len() && (#[trigger] rows[i]).job_id == (#[trigger] rows[j]).job_id ==> rows[i].job_state@
            == rows[j].job_state@ && rows[i].dependency_policy == rows[j].dependency_policy
}

fn place(nodes: &Vec<GraphNode>, job_id: u128) -> (position: usize)
    requires
        forall|i: int, j: int|
            0 <= i < j < nodes@.len() ==> (#[trigger] nodes@[i]).job_id < (#[trigger] nodes@[j]).job_id,
    ensures
        position <= nodes@.len(),
        forall|i: int| 0 <= i < position ==> (#[trigger] nodes@[i]).job_id < job_id,
        forall|i: int| position <= i < nodes@.len() ==> (#[trigger] nodes@[i]).job_id >= job_id,
{
    let mut position: usize = 0;
    while position < nodes.len() && nodes[position].job_id < job_id
        invariant
            position <= nodes@.len(),
            forall|i: int| 0 <= i < position ==> (#[trigger] nodes@[i]).job_id < job_id,
        decreases nodes@.len() - position,
    {
        position += 1;
    }
    position
}

/// Groups the rows of a graph by job. Rows that cannot be read, or that disagree on a job, make the
/// graph unreadable.
pub fn graph(rows: &Vec<GraphRow>) -> (result: Result<Vec<GraphNode>, StoreError>)
    ensures
        match result {
            Ok(nodes) => is_consistent(rows@) && is_graph_of(nodes@, rows@),
            Err(error) => error == StoreError::Unavailable && !is_consistent(rows@),
        },
{
    let mut nodes: Vec<GraphNode> = Vec::new();
    let mut i: usize = 0;
    while i < rows.len()
        invariant
            i <= rows@.len(),
            is_graph_of(nodes@, rows@.subrange(0, i as int)),
            is_consistent(rows@.subrange(0, i as int)),
        decreases rows@.len() - i,
    {
        let row = &rows[i];
        let ghost before = rows@.subrange(0, i as int);
        let ghost after = rows@.subrange(0, i + 1);
        let ghost old_nodes = nodes@;
        assert(after =~= before.push(*row));
        let state = match parse_job_state(row.job_state.as_str()) {
            Ok(state) => state,
            Err(_) => {
                assert(!is_readable_row(rows@[i as int]));
                return Err(StoreError::Unavailable);
            },
        };
        assert(row.job_state@ == job_state_text(state));
        let dependency_is_known = match row.dependency_job_id {
            Some(dependency) => dependency != 0,
            None => true,
        };
        if row.job_id == 0 || !dependency_is_known {
            assert(!is_readable_row(rows@[i as int]));
            return Err(StoreError::Unavailable);
        }
        assert(is_readable_row(*row));
        let position = place(&nodes, row.job_id);
        if position < nodes.len() && nodes[position].job_id == row.job_id {
            if nodes[position].state != state || nodes[position].dependency_policy != row.dependency_policy {
                proof {
                    rows_disagree(nodes@[position as int], rows@, i as int, state);
                }
                return Err(StoreError::Unavailable);
            }
            match row.dependency_job_id {
                Some(dependency) => {
                    nodes[position].dependencies.push(dependency);
                },
                None => {},
            }
            proof {
                graph_extends_by_row(old_nodes, nodes@, before, *row, after, position as int);
            }
        } else {
            let mut dependencies: Vec<u128> = Vec::new();
            match row.dependency_job_id {
                Some(dependency) => {
                    dependencies.push(dependency);
                },
                None => {},
            }
            assert(dependencies@ =~= (match row.dependency_job_id {
                Some(dependency) => seq![dependency],
                None => Seq::<u128>::empty(),
            }));
            assert forall|k: int| position <= k < nodes@.len() implies (#[trigger] nodes@[k]).job_id
                > row.job_id by {
                if k > position {
                    assert(nodes@[position as int].job_id < nodes@[k].job_id);
                }
            }
            nodes.insert(
                position,
                GraphNode { job_id: row.job_id, state, dependencies, dependency_policy: row.dependency_policy },
            );
            proof {
                graph_extends_by_node(old_nodes, nodes@, before, *row, after, position as int);
            }
        }
        i += 1;
    }
    assert(rows@.subrange(0, i as int) =~= rows@);
    Ok(nodes)
}

proof fn rows_disagree(node: GraphNode, rows: Seq<GraphRow>, at: int, state: JobState)
    requires
        0 <= at < rows.len(),
        is_node_of(node, rows.subrange(0, at)),
        rows[at].job_id == node.job_id,
        rows[at].job_state@ == job_state_text(state),
        node.state != state || node.dependency_policy != rows[at].dependency_policy,
    ensures
        !is_consistent(rows),
{
    reveal(is_node_of);
    let before = rows.subrange(0, at);
    let witness = choose|k: int| 0 <= k < before.len() && (#[trigger] before[k]).job_id == node.job_id;
    assert(rows[witness] == before[witness]);
    crate::state::job_state_text_names_one_value(node.state, state);
}

proof fn graph_extends_by_row(
    old_nodes: Seq<GraphNode>,
    nodes: Seq<GraphNode>,
    before: Seq<GraphRow>,
    row: GraphRow,
    after: Seq<GraphRow>,
    position: int,
)
    requires
        is_graph_of(old_nodes, before),
        is_consistent(before),
        after == before.push(row),
        is_readable_row(row),
        0 <= position < old_nodes.len(),
        old_nodes[position].job_id == row.job_id,
        row.job_state@ == job_state_text(old_nodes[position].state),
        row.dependency_policy == old_nodes[position].dependency_policy,
        nodes.len() == old_nodes.len(),
        forall|k: int| 0 <= k < nodes.len() && k != position ==> #[trigger] nodes[k] == old_nodes[k],
        nodes[position].job_id == row.job_id,
        nodes[position].state == old_nodes[position].state,
        nodes[position].dependency_policy == old_nodes[position].dependency_policy,
        nodes[position].dependencies@ == (match row.dependency_job_id {
            Some(dependency) => old_nodes[position].dependencies@.push(dependency),
            None => old_nodes[position].dependencies@,
        }),
    ensures
        is_graph_of(nodes, after),
        is_consistent(after),
{
    assert(after.drop_last() =~= before);
    assert forall|a: int, b: int| 0 <= a < b < nodes.len() implies (#[trigger] nodes[a]).job_id < (
    #[trigger] nodes[b]).job_id by {
        assert(old_nodes[a].job_id < old_nodes[b].job_id);
    }
    assert forall|k: int| 0 <= k < nodes.len() implies is_node_of(#[trigger] nodes[k], after) by {
        assert(is_node_of(old_nodes[k], before));
        if k < position {
            assert(old_nodes[k].job_id < old_nodes[position].job_id);
        } else if position < k {
            assert(old_nodes[position].job_id < old_nodes[k].job_id);
        }
        node_extends(old_nodes[k], nodes[k], before, row, after);
    }
    assert forall|r: int| 0 <= r < after.len() implies has_node(nodes, (#[trigger] after[r]).job_id) by {
        reveal(has_node);
        if r < before.len() {
            assert(has_node(old_nodes, before[r].job_id));
            let k = choose|k: int| 0 <= k < old_nodes.len() && (#[trigger] old_nodes[k]).job_id == before[r].job_id;
            assert(nodes[k].job_id == after[r].job_id);
        } else {
            assert(nodes[position].job_id == after[r].job_id);
        }
    }
    assert forall|r: int| 0 <= r < after.len() implies is_readable_row(#[trigger] after[r]) by {
        if r < before.len() {
            assert(after[r] == before[r]);
        }
    }
    assert forall|a: int, b: int|
        0 <= a < b < after.len() && (#[trigger] after[a]).job_id == (#[trigger] after[b]).job_id implies after[a].job_state@
        == after[b].job_state@ && after[a].dependency_policy == after[b].dependency_policy by {
        assert(after[a] == before[a]);
        if b < before.len() {
            assert(after[b] == before[b]);
        } else {
            reveal(is_node_of);
            assert(is_node_of(old_nodes[position], before));
            assert(before[a].job_id == old_nodes[position].job_id);
        }
    }
}

proof fn node_extends(old_node: GraphNode, node: GraphNode, before: Seq<GraphRow>, row: GraphRow, after: Seq<GraphRow>)
    requires
        is_node_of(old_node, before),
        after == before.push(row),
        node.job_id == old_node.job_id,
        node.state == old_node.state,
        node.dependency_policy == old_node.dependency_policy,
        row.job_id == node.job_id ==> row.job_state@ == job_state_text(node.state) && row.dependency_policy
            == node.dependency_policy,
        node.dependencies@ == (match row.dependency_job_id {
            Some(dependency) if row.job_id == node.job_id => old_node.dependencies@.push(dependency),
            _ => old_node.dependencies@,
        }),
    ensures
        is_node_of(node, after),
{
    reveal(is_node_of);
    assert(after.drop_last() =~= before);
    let witness = choose|r: int| 0 <= r < before.len() && (#[trigger] before[r]).job_id == old_node.job_id;
    assert(after[witness].job_id == node.job_id);
    assert forall|r: int| 0 <= r < after.len() && (#[trigger] after[r]).job_id == node.job_id implies after[r].job_state@
        == job_state_text(node.state) && after[r].dependency_policy == node.dependency_policy by {
        if r < before.len() {
            assert(after[r] == before[r]);
        }
    }
}

proof fn graph_extends_by_node(
    old_nodes: Seq<GraphNode>,
    nodes: Seq<GraphNode>,
    before: Seq<GraphRow>,
    row: GraphRow,
    after: Seq<GraphRow>,
    position: int,
)
    requires
        is_graph_of(old_nodes, before),
        is_consistent(before),
        after == before.push(row),
        is_readable_row(row),
        0 <= position <= old_nodes.len(),
        forall|k: int| 0 <= k < position ==> (#[trigger] old_nodes[k]).job_id < row.job_id,
        forall|k: int| position <= k < old_nodes.len() ==> (#[trigger] old_nodes[k]).job_id > row.job_id,
        nodes.len() == old_nodes.len() + 1,
        nodes == old_nodes.insert(position, nodes[position]),
        nodes[position].job_id == row.job_id,
        row.job_state@ == job_state_text(nodes[position].state),
        row.dependency_policy == nodes[position].dependency_policy,
        nodes[position].dependencies@ == (match row.dependency_job_id {
            Some(dependency) => seq![dependency],
            None => Seq::<u128>::empty(),
        }),
    ensures
        is_graph_of(nodes, after),
        is_consistent(after),
{
    assert(after.drop_last() =~= before);
    assert forall|r: int| 0 <= r < before.len() implies (#[trigger] before[r]).job_id != row.job_id by {
        reveal(has_node);
        assert(has_node(old_nodes, before[r].job_id));
        let k = choose|k: int| 0 <= k < old_nodes.len() && (#[trigger] old_nodes[k]).job_id == before[r].job_id;
        assert(old_nodes[k].job_id != row.job_id);
    }
    absent_jobs_have_no_dependencies(before, row.job_id);
    assert(nodes[position].dependencies@ =~= dependencies_of(after, row.job_id));
    assert forall|k: int| 0 <= k < nodes.len() implies is_node_of(#[trigger] nodes[k], after) by {
        if k == position {
            reveal(is_node_of);
            assert(after[before.len() as int].job_id == nodes[k].job_id);
            assert forall|r: int|
                0 <= r < after.len() && (#[trigger] after[r]).job_id == nodes[k].job_id implies after[r].job_state@
                == job_state_text(nodes[k].state) && after[r].dependency_policy == nodes[k].dependency_policy by {
                if r < before.len() {
                    assert(after[r] == before[r]);
                }
            }
        } else {
            let o = if k < position {
                k
            } else {
                k - 1
            };
            assert(nodes[k] == old_nodes[o]);
            assert(is_node_of(old_nodes[o], before));
            assert(old_nodes[o].job_id != row.job_id);
            node_extends(old_nodes[o], nodes[k], before, row, after);
        }
    }
    assert forall|r: int| 0 <= r < after.len() implies is_readable_row(#[trigger] after[r]) by {
        if r < before.len() {
            assert(after[r] == before[r]);
        }
    }
    assert forall|r: int| 0 <= r < after.len() implies has_node(nodes, (#[trigger] after[r]).job_id) by {
        reveal(has_node);
        if r < before.len() {
            assert(after[r] == before[r]);
            assert(has_node(old_nodes, before[r].job_id));
            let o = choose|k: int| 0 <= k < old_nodes.len() && (#[trigger] old_nodes[k]).job_id == before[r].job_id;
            let k = if o < position {
                o
            } else {
                o + 1
            };
            assert(nodes[k] == old_nodes[o]);
        } else {
            assert(nodes[position].job_id == after[r].job_id);
        }
    }
    assert forall|a: int, b: int| 0 <= a < b < nodes.len() implies (#[trigger] nodes[a]).job_id < (
    #[trigger] nodes[b]).job_id by {
        let x = if a < position {
            a
        } else {
            a - 1
        };
        let y = if b < position {
            b
        } else {
            b - 1
        };
        if a == position {
            assert(nodes[b] == old_nodes[y]);
            assert(old_nodes[y].job_id > row.job_id);
        } else if b == position {
            assert(nodes[a] == old_nodes[x]);
            assert(old_nodes[x].job_id < row.job_id);
        } else {
            assert(nodes[a] == old_nodes[x] && nodes[b] == old_nodes[y]);
            assert(old_nodes[x].job_id < old_nodes[y].job_id);
        }
    }
    assert forall|a: int, b: int|
        0 <= a < b < after.len() && (#[trigger] after[a]).job_id == (#[trigger] after[b]).job_id implies after[a].job_state@
        == after[b].job_state@ && after[a].dependency_policy == after[b].dependency_policy by {
        assert(after[a] == before[a]);
        if b < before.len() {
            assert(after[b] == before[b]);
        }
    }
}

proof fn absent_jobs_have_no_dependencies(rows: Seq<GraphRow>, job_id: u128)
    requires
        forall|r: int| 0 <= r < rows.len() ==> (#[trigger] rows[r]).job_id != job_id,
    ensures
        dependencies_of(rows, job_id) == Seq::<u128>::empty(),
    decreases rows.len(),
{
    if rows.len() > 0 {
        assert(rows.last() == rows[rows.len() - 1]);
        assert forall|r: int| 0 <= r < rows.drop_last().len() implies (#[trigger] rows.drop_last()[r]).job_id
            != job_id by {
            assert(rows.drop_last()[r] == rows[r]);
        }
        absent_jobs_have_no_dependencies(rows.drop_last(), job_id);
    }
}

/// A change of one job's state.
#[derive(Clone, Copy, Debug, PartialEq, Eq, Structural)]
pub struct JobTransition {
    /// The job.
    pub job_id: u128,
    /// The state it goes to.
    pub state: JobState,
}

/// The jobs that go to a state, in order.
pub open spec fn moved_to(transitions: Seq<JobTransition>, state: JobState) -> Seq<u128>
    decreases transitions.len(),
{
    if transitions.len() == 0 {
        Seq::empty()
    } else if transitions.last().state == state {
        moved_to(transitions.drop_last(), state).push(transitions.last().job_id)
    } else {
        moved_to(transitions.drop_last(), state)
    }
}

/// Selects the jobs that go to a state, in order.
pub fn jobs_moved_to(transitions: &Vec<JobTransition>, state: JobState) -> (jobs: Vec<u128>)
    ensures
        jobs@ == moved_to(transitions@, state),
{
    let mut jobs: Vec<u128> = Vec::new();
    let mut i: usize = 0;
    assert(transitions@.subrange(0, 0) =~= Seq::empty());
    while i < transitions.len()
        invariant
            i <= transitions@.len(),
            jobs@ == moved_to(transitions@.subrange(0, i as int), state),
        decreases transitions@.len() - i,
    {
        assert(transitions@.subrange(0, i + 1).drop_last() =~= transitions@.subrange(0, i as int));
        if transitions[i].state == state {
            jobs.push(transitions[i].job_id);
        }
        i += 1;
    }
    assert(transitions@.subrange(0, i as int) =~= transitions@);
    jobs
}

/// Splits a reconciliation into the jobs that become ready and the jobs that are skipped.
pub fn apply_job_transitions(transitions: &Vec<JobTransition>) -> (split: (Vec<u128>, Vec<u128>))
    ensures
        split.0@ == moved_to(transitions@, JobState::Ready),
        split.1@ == moved_to(transitions@, JobState::Skipped),
{
    (jobs_moved_to(transitions, JobState::Ready), jobs_moved_to(transitions, JobState::Skipped))
}

/// A job that becomes ready is not skipped by the same reconciliation, where it lists every job once.
pub proof fn ready_jobs_are_not_skipped(transitions: Seq<JobTransition>, job_id: u128)
    requires
        forall|i: int, j: int|
            0 <= i < j < transitions.len() ==> (#[trigger] transitions[i]).job_id != (#[trigger] transitions[j]).job_id,
    ensures
        !(moved_to(transitions, JobState::Ready).contains(job_id) && moved_to(transitions, JobState::Skipped).contains(
            job_id,
        )),
{
    if moved_to(transitions, JobState::Ready).contains(job_id) && moved_to(transitions, JobState::Skipped).contains(
        job_id,
    ) {
        let a = moved_jobs_are_listed(transitions, JobState::Ready, job_id);
        let b = moved_jobs_are_listed(transitions, JobState::Skipped, job_id);
        if a < b {
            assert(transitions[a].job_id != transitions[b].job_id);
        } else if b < a {
            assert(transitions[b].job_id != transitions[a].job_id);
        }
    }
}

proof fn moved_jobs_are_listed(transitions: Seq<JobTransition>, state: JobState, job_id: u128) -> (index: int)
    requires
        moved_to(transitions, state).contains(job_id),
    ensures
        0 <= index < transitions.len(),
        transitions[index].job_id == job_id,
        transitions[index].state == state,
    decreases transitions.len(),
{
    let shorter = transitions.drop_last();
    if transitions.last().state == state && transitions.last().job_id == job_id {
        transitions.len() - 1
    } else {
        let moved = moved_to(transitions, state);
        let at = choose|k: int| 0 <= k < moved.len() && moved[k] == job_id;
        assert(moved_to(shorter, state)[at] == job_id);
        let index = moved_jobs_are_listed(shorter, state, job_id);
        assert(transitions[index] == shorter[index]);
        index
    }
}

/// The jobs that are moved to a state are exactly those that a transition moves there.
pub proof fn moved_jobs_are_those_of_the_transitions(transitions: Seq<JobTransition>, state: JobState, job_id: u128)
    ensures
        moved_to(transitions, state).contains(job_id) <==> exists|i: int|
            0 <= i < transitions.len() && (#[trigger] transitions[i]).job_id == job_id && transitions[i].state == state,
    decreases transitions.len(),
{
    if transitions.len() > 0 {
        let before = transitions.drop_last();
        let last = transitions.last();
        moved_jobs_are_those_of_the_transitions(before, state, job_id);
        let earlier = moved_to(before, state);
        if moved_to(transitions, state).contains(job_id) {
            let index = moved_jobs_are_listed(transitions, state, job_id);
            assert(transitions[index].job_id == job_id);
        }
        if exists|i: int|
            0 <= i < transitions.len() && (#[trigger] transitions[i]).job_id == job_id && transitions[i].state == state {
            let index = choose|i: int|
                0 <= i < transitions.len() && (#[trigger] transitions[i]).job_id == job_id && transitions[i].state
                    == state;
            if index == transitions.len() - 1 {
                assert(earlier.push(job_id)[earlier.len() as int] == job_id);
            } else {
                assert(before[index] == transitions[index]);
                let at = choose|k: int| 0 <= k < earlier.len() && earlier[k] == job_id;
                if last.state == state {
                    assert(earlier.push(last.job_id)[at] == job_id);
                }
            }
        }
    }
}

/// Jobs are moved in the order of their transitions: what comes first among the transitions comes first among the
/// jobs.
pub proof fn moved_jobs_keep_their_order(first: Seq<JobTransition>, second: Seq<JobTransition>, state: JobState)
    ensures
        moved_to(first + second, state) == moved_to(first, state) + moved_to(second, state),
    decreases second.len(),
{
    if second.len() == 0 {
        assert(first + second =~= first);
        assert(moved_to(first, state) + moved_to(second, state) =~= moved_to(first, state));
    } else {
        moved_jobs_keep_their_order(first, second.drop_last(), state);
        assert((first + second).drop_last() =~= first + second.drop_last());
        assert((first + second).last() == second.last());
        assert(moved_to(first + second, state) =~= moved_to(first, state) + moved_to(second, state));
    }
}

/// A job waits exactly for those jobs that a row of its own names.
pub proof fn dependencies_are_those_of_the_rows(rows: Seq<GraphRow>, job_id: u128, dependency: u128)
    ensures
        dependencies_of(rows, job_id).contains(dependency) <==> exists|i: int|
            0 <= i < rows.len() && (#[trigger] rows[i]).job_id == job_id && rows[i].dependency_job_id == Some(dependency),
    decreases rows.len(),
{
    if rows.len() > 0 {
        let before = rows.drop_last();
        let earlier = dependencies_of(before, job_id);
        dependencies_are_those_of_the_rows(before, job_id, dependency);
        let all = dependencies_of(rows, job_id);
        if all.contains(dependency) {
            let at = choose|k: int| 0 <= k < all.len() && all[k] == dependency;
            if at < earlier.len() {
                assert(earlier[at] == dependency);
                let i = choose|i: int|
                    0 <= i < before.len() && (#[trigger] before[i]).job_id == job_id && before[i].dependency_job_id
                        == Some(dependency);
                assert(rows[i] == before[i]);
            } else {
                assert(rows[rows.len() - 1].job_id == job_id);
            }
        }
        if exists|i: int|
            0 <= i < rows.len() && (#[trigger] rows[i]).job_id == job_id && rows[i].dependency_job_id == Some(dependency) {
            let i = choose|i: int|
                0 <= i < rows.len() && (#[trigger] rows[i]).job_id == job_id && rows[i].dependency_job_id == Some(
                    dependency,
                );
            if i == rows.len() - 1 {
                assert(all[earlier.len() as int] == dependency);
            } else {
                assert(before[i] == rows[i]);
                let at = choose|k: int| 0 <= k < earlier.len() && earlier[k] == dependency;
                assert(all[at] == dependency);
            }
        }
    }
}

/// A graph holds every job of its rows once, in the state that the rows say, and no other job.
pub proof fn graphs_hold_each_job_once(nodes: Seq<GraphNode>, rows: Seq<GraphRow>, at: int, other: int, row: int)
    requires
        is_graph_of(nodes, rows),
        0 <= at < nodes.len(),
        0 <= other < nodes.len(),
        0 <= row < rows.len(),
    ensures
        nodes[at].job_id == nodes[other].job_id ==> at == other,
        exists|k: int| 0 <= k < nodes.len() && (#[trigger] nodes[k]).job_id == rows[row].job_id,
        exists|i: int| 0 <= i < rows.len() && (#[trigger] rows[i]).job_id == nodes[at].job_id,
        rows[row].job_id == nodes[at].job_id ==> rows[row].job_state@ == job_state_text(nodes[at].state)
            && rows[row].dependency_policy == nodes[at].dependency_policy,
        rows[row].job_id == nodes[at].job_id && rows[row].dependency_job_id is Some ==> nodes[at].dependencies@.contains(
            rows[row].dependency_job_id->Some_0,
        ),
{
    reveal(is_node_of);
    reveal(has_node);
    assert(is_node_of(nodes[at], rows));
    assert(has_node(nodes, rows[row].job_id));
    if rows[row].job_id == nodes[at].job_id && rows[row].dependency_job_id is Some {
        dependencies_are_those_of_the_rows(rows, nodes[at].job_id, rows[row].dependency_job_id->Some_0);
    }
}

/// A job of a graph is read exactly where its state is known, and it and the job it waits for are set.
pub proof fn sound_jobs_are_read(row: GraphRow)
    ensures
        is_readable_row(row) <==> row.job_id != 0 && (row.dependency_job_id is None || row.dependency_job_id->Some_0 != 0)
            && exists|state: JobState| row.job_state@ == #[trigger] job_state_text(state),
{
}

/// Rows of one job agree exactly where each can be read and any two of them tell the same state and policy.
pub proof fn rows_of_one_job_agree(rows: Seq<GraphRow>, i: int, j: int)
    requires
        is_consistent(rows),
        0 <= i < rows.len(),
        0 <= j < rows.len(),
    ensures
        is_readable_row(rows[i]),
        rows[i].job_id == rows[j].job_id ==> rows[i].job_state@ == rows[j].job_state@ && rows[i].dependency_policy
            == rows[j].dependency_policy,
{
    if i < j {
        assert(rows[i].job_id == rows[j].job_id ==> rows[i].job_state@ == rows[j].job_state@);
    } else if j < i {
        assert(rows[j].job_id == rows[i].job_id ==> rows[j].job_state@ == rows[i].job_state@);
    }
}

/// Rows of different jobs agree whatever they say.
pub proof fn rows_of_different_jobs_agree(rows: Seq<GraphRow>)
    requires
        forall|i: int| 0 <= i < rows.len() ==> is_readable_row(#[trigger] rows[i]),
        forall|i: int, j: int|
            0 <= i < j < rows.len() ==> (#[trigger] rows[i]).job_id != (#[trigger] rows[j]).job_id,
    ensures
        is_consistent(rows),
{
}

} // verus!
