//! Ordered sets of identities.

use vstd::prelude::*;

verus! {

/// Whether a list is strictly ascending.
pub open spec fn is_ascending(ids: Seq<u128>) -> bool {
    forall|i: int, j: int| 0 <= i < j < ids.len() ==> #[trigger] ids[i] < #[trigger] ids[j]
}

/// Adds an identity to an ascending list, unless the list holds it.
pub fn insert_ordered(ids: &mut Vec<u128>, id: u128)
    requires
        is_ascending(old(ids)@),
    ensures
        is_ascending(final(ids)@),
        final(ids)@.contains(id),
        forall|other: u128| other != id ==> (#[trigger] final(ids)@.contains(other) <==> old(ids)@.contains(other)),
{
    let mut position: usize = 0;
    while position < ids.len() && ids[position] < id
        invariant
            ids@ == old(ids)@,
            position <= ids@.len(),
            forall|i: int| 0 <= i < position ==> #[trigger] ids@[i] < id,
        decreases ids@.len() - position,
    {
        position += 1;
    }
    if position < ids.len() && ids[position] == id {
        assert(ids@[position as int] == id);
        return ;
    }
    let ghost before = ids@;
    assert forall|i: int| position <= i < before.len() implies #[trigger] before[i] > id by {
        if i > position {
            assert(before[position as int] < before[i]);
        }
    }
    ids.insert(position, id);
    let ghost after = ids@;
    proof {
        assert(after == before.insert(position as int, id));
        assert(after[position as int] == id);
        assert forall|i: int, j: int| 0 <= i < j < after.len() implies #[trigger] after[i] < #[trigger] after[j] by {
            let x = if i < position {
                i
            } else {
                i - 1
            };
            let y = if j < position {
                j
            } else {
                j - 1
            };
            if i == position {
                assert(after[j] == before[y]);
            } else if j == position {
                assert(after[i] == before[x]);
            } else {
                assert(after[i] == before[x] && after[j] == before[y]);
                assert(before[x] < before[y]);
            }
        }
        assert forall|other: u128| other != id implies (#[trigger] after.contains(other) <==> before.contains(other)) by {
            if after.contains(other) {
                let i = choose|i: int| 0 <= i < after.len() && after[i] == other;
                let x = if i < position {
                    i
                } else {
                    i - 1
                };
                assert(before[x] == other);
            }
            if before.contains(other) {
                let x = choose|x: int| 0 <= x < before.len() && before[x] == other;
                let i = if x < position {
                    x
                } else {
                    x + 1
                };
                assert(after[i] == other);
            }
        }
    }
}

/// Orders a list and drops repetitions.
pub fn ordered(ids: &Vec<u128>) -> (set: Vec<u128>)
    ensures
        is_ascending(set@),
        forall|id: u128| #[trigger] set@.contains(id) <==> ids@.contains(id),
{
    let mut set: Vec<u128> = Vec::new();
    extend_ordered(&mut set, ids);
    set
}

/// Adds every identity of a list to an ascending list.
pub fn extend_ordered(set: &mut Vec<u128>, ids: &Vec<u128>)
    requires
        is_ascending(old(set)@),
    ensures
        is_ascending(final(set)@),
        forall|id: u128| #[trigger]
            final(set)@.contains(id) <==> old(set)@.contains(id) || ids@.contains(id),
{
    let mut i: usize = 0;
    while i < ids.len()
        invariant
            i <= ids@.len(),
            is_ascending(set@),
            forall|id: u128| #[trigger]
                set@.contains(id) <==> old(set)@.contains(id) || ids@.subrange(0, i as int).contains(id),
        decreases ids@.len() - i,
    {
        let ghost before = set@;
        insert_ordered(set, ids[i]);
        i += 1;
        proof {
            let seen = ids@.subrange(0, i - 1);
            let now = ids@.subrange(0, i as int);
            assert(now =~= seen.push(ids@[i - 1]));
            assert forall|id: u128| #[trigger] set@.contains(id) <==> old(set)@.contains(id) || now.contains(id) by {
                if id == ids@[i - 1] {
                    assert(now[i - 1] == id);
                } else {
                    assert(set@.contains(id) <==> before.contains(id));
                    if now.contains(id) {
                        let k = choose|k: int| 0 <= k < now.len() && now[k] == id;
                        assert(seen[k] == id);
                    }
                    if seen.contains(id) {
                        let k = choose|k: int| 0 <= k < seen.len() && seen[k] == id;
                        assert(now[k] == id);
                    }
                }
            }
        }
    }
    assert(ids@.subrange(0, i as int) =~= ids@);
}

/// Identities are ascending exactly where each is smaller than the next, so that none is there twice.
pub proof fn ascending_identities_are_distinct(ids: Seq<u128>)
    ensures
        is_ascending(ids) <==> forall|i: int| 0 <= i < ids.len() - 1 ==> #[trigger] ids[i] < ids[i + 1],
        is_ascending(ids) ==> ids.no_duplicates(),
{
    if is_ascending(ids) {
        assert forall|i: int| 0 <= i < ids.len() - 1 implies #[trigger] ids[i] < ids[i + 1] by {
            assert(0 <= i < i + 1 < ids.len());
        }
    }
    if forall|i: int| 0 <= i < ids.len() - 1 ==> #[trigger] ids[i] < ids[i + 1] {
        assert forall|i: int, j: int| 0 <= i < j < ids.len() implies #[trigger] ids[i] < #[trigger] ids[j] by {
            neighbours_ascend(ids, i, j);
        }
    }
}

proof fn neighbours_ascend(ids: Seq<u128>, i: int, j: int)
    requires
        0 <= i < j < ids.len(),
        forall|k: int| 0 <= k < ids.len() - 1 ==> #[trigger] ids[k] < ids[k + 1],
    ensures
        ids[i] < ids[j],
    decreases j - i,
{
    assert(ids[i] < ids[i + 1]);
    if i + 1 < j {
        neighbours_ascend(ids, i + 1, j);
    }
}

} // verus!
