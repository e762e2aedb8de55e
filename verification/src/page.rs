//! Lists that are read page by page: one row more than a page is fetched, to learn whether there is
//! another page.

use vstd::prelude::*;

verus! {

/// Number of rows to fetch for a page.
pub fn fetch_limit(limit: u16) -> (rows: i64)
    ensures
        rows == limit + 1,
{
    limit as i64 + 1
}

/// Cuts fetched rows to a page, and says whether there are more.
pub fn cut<T>(rows: Vec<T>, limit: u16) -> (page: (Vec<T>, bool))
    ensures
        page.1 == (rows@.len() > limit),
        page.0@ == (if rows@.len() > limit {
            rows@.subrange(0, limit as int)
        } else {
            rows@
        }),
{
    let limit: usize = limit as usize;
    let mut rows = rows;
    let has_more = rows.len() > limit;
    if has_more {
        rows.truncate(limit);
    }
    (rows, has_more)
}

/// Whether a list is in ascending order of its keys.
pub open spec fn is_ordered(keys: Seq<u128>) -> bool {
    forall|i: int, j: int| 0 <= i < j < keys.len() ==> #[trigger] keys[i] < #[trigger] keys[j]
}

/// The part of an ordered list past a key.
pub open spec fn past(keys: Seq<u128>, key: u128) -> Seq<u128>
    decreases keys.len(),
{
    if keys.len() == 0 {
        keys
    } else if keys[0] <= key {
        past(keys.drop_first(), key)
    } else {
        keys
    }
}

/// Reading on past the last key of a page gives what follows the page: no entry is read twice and none
/// is left out.
pub proof fn pages_join(keys: Seq<u128>, limit: int)
    requires
        is_ordered(keys),
        0 < limit < keys.len(),
    ensures
        past(keys, keys[limit - 1]) == keys.subrange(limit, keys.len() as int),
        keys.subrange(0, limit) + past(keys, keys[limit - 1]) == keys,
    decreases limit,
{
    let rest = keys.drop_first();
    assert(keys[0] <= keys[limit - 1]) by {
        if limit > 1 {
            assert(keys[0] < keys[limit - 1]);
        }
    }
    if limit == 1 {
        assert(rest[0] == keys[1]);
        assert(keys[0] < keys[1]);
        assert(past(rest, keys[0]) == rest);
        assert(rest =~= keys.subrange(1, keys.len() as int));
    } else {
        assert forall|i: int, j: int| 0 <= i < j < rest.len() implies #[trigger] rest[i] < #[trigger] rest[j] by {
            assert(keys[i + 1] < keys[j + 1]);
        }
        pages_join(rest, limit - 1);
        assert(rest[limit - 2] == keys[limit - 1]);
        assert(rest.subrange(limit - 1, rest.len() as int) =~= keys.subrange(limit, keys.len() as int));
    }
    assert(keys.subrange(0, limit) + keys.subrange(limit, keys.len() as int) =~= keys);
}

} // verus!
