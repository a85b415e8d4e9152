use vstd::prelude::*;
use crate::dao::Dao;
use crate::proposals::BasicProposal;

verus! {

/// Along a run of successful creations from a fresh module, after `k` of
/// them the counter is `k` and the proposals are those with ids below `k`,
/// each without votes.
proof fn lemma_state_after_creations(states: Seq<Dao>, ids: Seq<u32>, k: int)
    requires
        states.len() == ids.len() + 1,
        0 <= k <= ids.len(),
        states[0].counter() == 0,
        states[0].proposals() == Map::<u32, BasicProposal>::empty(),
        forall|i: int| 0 <= i < ids.len() ==> Dao::proposal_created(#[trigger] states[i], states[i + 1], ids[i]),
    ensures
        states[k].counter() == k,
        forall|id: u32| #[trigger] states[k].proposals().contains_key(id) <==> (id as int) < k,
        forall|id: u32| #[trigger] states[k].proposals().contains_key(id)
            ==> states[k].proposals()[id] == (BasicProposal { vote_count: 0 }),
    decreases k,
{
    if k > 0 {
        lemma_state_after_creations(states, ids, k - 1);
        assert(Dao::proposal_created(states[k - 1], states[k], ids[k - 1]));
    }
}

/// Proposal ids are allocated one after another: on a fresh module, a run
/// of successful creations of any length gets the ids 0, 1, 2, and so on;
/// after `k` of them the counter is `k` and the proposals are exactly the
/// ids below `k`, none with a vote.
pub proof fn lemma_successive_ids(states: Seq<Dao>, ids: Seq<u32>)
    requires
        states.len() == ids.len() + 1,
        states[0].counter() == 0,
        states[0].proposals() == Map::<u32, BasicProposal>::empty(),
        forall|i: int| 0 <= i < ids.len() ==> Dao::proposal_created(#[trigger] states[i], states[i + 1], ids[i]),
    ensures
        forall|i: int| 0 <= i < ids.len() ==> ids[i] == i,
        states.last().counter() == ids.len(),
        forall|id: u32| #[trigger] states.last().proposals().contains_key(id) <==> (id as int) < ids.len(),
        forall|id: u32| #[trigger] states.last().proposals().contains_key(id)
            ==> states.last().proposals()[id] == (BasicProposal { vote_count: 0 }),
{
    assert forall|i: int| 0 <= i < ids.len() implies ids[i] == i by {
        lemma_state_after_creations(states, ids, i);
        assert(Dao::proposal_created(states[i], states[i + 1], ids[i]));
    }
    lemma_state_after_creations(states, ids, ids.len() as int);
}

/// How many entries of `marks` are set.
pub open spec fn count_marked(marks: Seq<bool>) -> nat
    decreases marks.len(),
{
    if marks.len() == 0 {
        0
    } else {
        count_marked(marks.drop_last()) + if marks.last() { 1nat } else { 0nat }
    }
}

/// A member's tally counts exactly that member's successful votes. Take a
/// run of operations in which the marked steps are successful votes by
/// `who`, on any proposals, and every other step keeps `who`'s tally, as
/// the contracts of all other operations state (votes by other members,
/// failed calls, registrations, creations and removals). Then the tally
/// has grown by the number of marked steps: N after N votes on a fresh
/// module.
pub proof fn lemma_votes_counted(states: Seq<Dao>, who: Seq<u8>, marks: Seq<bool>, ids: Seq<u32>)
    requires
        states.len() == marks.len() + 1,
        ids.len() == marks.len(),
        forall|i: int| 0 <= i < marks.len() && #[trigger] marks[i] ==> Dao::vote_cast(states[i], states[i + 1], who, ids[i]),
        forall|i: int| 0 <= i < marks.len() && !#[trigger] marks[i] ==> states[i + 1].tally(who) == states[i].tally(who),
    ensures
        states.last().tally(who) == states[0].tally(who) + count_marked(marks),
    decreases marks.len(),
{
    if marks.len() > 0 {
        let n = marks.len() - 1;
        let head = states.take(n + 1);
        assert forall|i: int| 0 <= i < n && #[trigger] marks.take(n)[i]
            implies Dao::vote_cast(head[i], head[i + 1], who, ids.take(n)[i]) by {
            assert(marks[i]);
        }
        assert forall|i: int| 0 <= i < n && !#[trigger] marks.take(n)[i]
            implies head[i + 1].tally(who) == head[i].tally(who) by {
            assert(!marks[i]);
        }
        lemma_votes_counted(head, who, marks.take(n), ids.take(n));
        assert(marks.drop_last() =~= marks.take(n));
        if marks[n] {
            assert(Dao::vote_cast(states[n], states[n + 1], who, ids[n]));
        }
    }
}

} // verus!
