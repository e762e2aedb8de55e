//! Lists that are read entry by entry: the first entry that fails decides the error.

use vstd::prelude::*;

use crate::domain::StoreError;

verus! {

/// The reason for which a list fails, given that of each entry: the first there is.
pub open spec fn first_refusal(refusals: Seq<Option<StoreError>>) -> Option<StoreError>
    decreases refusals.len(),
{
    if refusals.len() == 0 {
        None
    } else if refusals[0] is Some {
        refusals[0]
    } else {
        first_refusal(refusals.drop_first())
    }
}

/// An entry that fails after none before it did decides the error of its list.
pub proof fn first_refusal_decides(refusals: Seq<Option<StoreError>>, at: int)
    requires
        0 <= at < refusals.len(),
        forall|i: int| 0 <= i < at ==> (#[trigger] refusals[i]) is None,
        refusals[at] is Some,
    ensures
        first_refusal(refusals) == refusals[at],
    decreases at,
{
    if at > 0 {
        let rest = refusals.drop_first();
        assert forall|i: int| 0 <= i < at - 1 implies (#[trigger] rest[i]) is None by {
            assert(rest[i] == refusals[i + 1]);
        }
        first_refusal_decides(rest, at - 1);
        assert(refusals[0] is None);
    }
}

/// A list none of whose entries fails does not fail.
pub proof fn no_refusal_remains(refusals: Seq<Option<StoreError>>)
    requires
        forall|i: int| 0 <= i < refusals.len() ==> (#[trigger] refusals[i]) is None,
    ensures
        first_refusal(refusals) is None,
    decreases refusals.len(),
{
    if refusals.len() > 0 {
        let rest = refusals.drop_first();
        assert forall|i: int| 0 <= i < rest.len() implies (#[trigger] rest[i]) is None by {
            assert(rest[i] == refusals[i + 1]);
        }
        no_refusal_remains(rest);
        assert(refusals[0] is None);
    }
}

/// Where something is refused there is a first refusal: the one before which there is none.
pub proof fn a_refusal_is_found(refusals: Seq<Option<StoreError>>, at: int)
    requires
        0 <= at < refusals.len(),
        refusals[at] is Some,
    ensures
        first_refusal(refusals) is Some,
        exists|i: int|
            0 <= i <= at && #[trigger] refusals[i] == first_refusal(refusals) && forall|j: int|
                0 <= j < i ==> (#[trigger] refusals[j]) is None,
{
    let first = earliest(refusals, at);
    first_refusal_decides(refusals, first);
    assert(refusals[first] == first_refusal(refusals));
}

proof fn earliest(refusals: Seq<Option<StoreError>>, at: int) -> (first: int)
    requires
        0 <= at < refusals.len(),
        refusals[at] is Some,
    ensures
        0 <= first <= at,
        refusals[first] is Some,
        forall|j: int| 0 <= j < first ==> (#[trigger] refusals[j]) is None,
    decreases at,
{
    if exists|j: int| 0 <= j < at && (#[trigger] refusals[j]) is Some {
        let j = choose|j: int| 0 <= j < at && (#[trigger] refusals[j]) is Some;
        earliest(refusals, j)
    } else {
        at
    }
}

} // verus!
