//! Walking a chain of handles that the foreign library links and ends with
//! the null handle.

use vstd::prelude::*;

verus! {

/// One step on a chain: the handle that is yielded, if any, and the cursor
/// afterwards. At the end of the chain nothing is yielded and the cursor
/// stays; elsewhere the cursor is yielded and moves on to its successor.
pub open spec fn chain_step(cursor: usize, successor: usize) -> (Option<usize>, usize) {
    if cursor == crate::NULL_HANDLE {
        (None, cursor)
    } else {
        (Some(cursor), successor)
    }
}

/// The handles that a walk yields, in order, when it starts at `cursor` and
/// the foreign library answers the steps with `successors` in turn.
pub open spec fn chain_items(cursor: usize, successors: Seq<usize>) -> Seq<usize>
    decreases successors.len(),
{
    if successors.len() == 0 {
        Seq::empty()
    } else {
        match chain_step(cursor, successors[0]).0 {
            Some(item) => seq![item] + chain_items(
                chain_step(cursor, successors[0]).1,
                successors.skip(1),
            ),
            None => chain_items(chain_step(cursor, successors[0]).1, successors.skip(1)),
        }
    }
}

/// The cursor after the steps that `successors` answer.
pub open spec fn chain_cursor(cursor: usize, successors: Seq<usize>) -> usize
    decreases successors.len(),
{
    if successors.len() == 0 {
        cursor
    } else {
        chain_cursor(chain_step(cursor, successors[0]).1, successors.skip(1))
    }
}

/// The first handle of a chain, as the foreign library gives it for a parent:
/// the first member, or the null handle for an empty chain.
pub open spec fn chain_first(members: Seq<usize>) -> usize {
    if members.len() == 0 {
        crate::NULL_HANDLE
    } else {
        members[0]
    }
}

/// The successors that the foreign library gives on a walk over a chain:
/// for each member the one after it, and the null handle for the last.
pub open spec fn chain_successors(members: Seq<usize>) -> Seq<usize> {
    if members.len() == 0 {
        Seq::empty()
    } else {
        members.skip(1).push(crate::NULL_HANDLE)
    }
}

/// Whether none of the handles is the null handle.
pub open spec fn all_present(members: Seq<usize>) -> bool {
    forall|i: int| 0 <= i < members.len() ==> members[i] != crate::NULL_HANDLE
}

/// Takes one step with the cursor.
pub fn step(cursor: &mut usize, successor: usize) -> (r: Option<usize>)
    ensures
        r == chain_step(*old(cursor), successor).0,
        *final(cursor) == chain_step(*old(cursor), successor).1,
{
    if *cursor == crate::NULL_HANDLE {
        return None;
    }
    let cur: usize = *cursor;
    *cursor = successor;
    Some(cur)
}

/// A walk over a chain of k members yields exactly those k, in the order of
/// the chain, and ends with the cursor at the null handle.
pub proof fn lemma_walk_yields_members(members: Seq<usize>)
    requires
        all_present(members),
    ensures
        chain_items(chain_first(members), chain_successors(members)) == members,
        chain_items(chain_first(members), chain_successors(members)).len() == members.len(),
        chain_cursor(chain_first(members), chain_successors(members)) == crate::NULL_HANDLE,
    decreases members.len(),
{
    if members.len() == 0 {
        assert(chain_items(chain_first(members), chain_successors(members)) =~= members);
    } else {
        let rest = members.skip(1);
        let succ = chain_successors(members);
        assert(all_present(rest)) by {
            assert forall|i: int| 0 <= i < rest.len() implies rest[i] != crate::NULL_HANDLE by {
                assert(rest[i] == members[i + 1]);
            }
        }
        lemma_walk_yields_members(rest);
        assert(members[0] != crate::NULL_HANDLE);
        assert(succ[0] == chain_first(rest));
        assert(succ.skip(1) =~= chain_successors(rest)) by {
            if rest.len() == 0 {
            } else {
                assert(succ.skip(1) =~= rest.skip(1).push(crate::NULL_HANDLE));
            }
        }
        if rest.len() == 0 {
            assert(chain_successors(rest) =~= Seq::<usize>::empty());
            assert(succ.skip(1).len() == 0);
        }
        assert(seq![members[0]] + rest =~= members);
    }
}

/// Once the cursor is at the null handle it stays there: whatever the
/// answers, further steps yield nothing and do not move it.
pub proof fn lemma_exhausted_stays(successors: Seq<usize>)
    ensures
        chain_items(crate::NULL_HANDLE, successors) == Seq::<usize>::empty(),
        chain_cursor(crate::NULL_HANDLE, successors) == crate::NULL_HANDLE,
    decreases successors.len(),
{
    if successors.len() > 0 {
        lemma_exhausted_stays(successors.skip(1));
    }
}

} // verus!
