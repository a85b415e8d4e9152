use vstd::prelude::*;
use crate::error::DaoError;

verus! {

/// A local proposal: how many votes it has received.
#[derive(Clone, Copy, Debug, PartialEq, Eq, Structural)]
pub struct BasicProposal {
    pub vote_count: u32,
}

/// Number of occupied slots.
pub open spec fn live(s: Seq<Option<BasicProposal>>) -> nat
    decreases s.len(),
{
    if s.len() == 0 {
        0
    } else {
        live(s.drop_last()) + if s.last() is Some { 1nat } else { 0nat }
    }
}

proof fn lemma_live_push(s: Seq<Option<BasicProposal>>, v: Option<BasicProposal>)
    ensures
        live(s.push(v)) == live(s) + if v is Some { 1nat } else { 0nat },
{
    assert(s.push(v).drop_last() =~= s);
}

proof fn lemma_live_update(s: Seq<Option<BasicProposal>>, i: int, v: Option<BasicProposal>)
    requires
        0 <= i < s.len(),
    ensures
        live(s.update(i, v)) + (if s[i] is Some { 1nat } else { 0nat })
            == live(s) + (if v is Some { 1nat } else { 0nat }),
    decreases s.len(),
{
    let t = s.update(i, v);
    if i == s.len() - 1 {
        assert(t.drop_last() =~= s.drop_last());
    } else {
        assert(t.drop_last() =~= s.drop_last().update(i, v));
        lemma_live_update(s.drop_last(), i, v);
    }
}

/// The proposals, indexed by id, and the counter that allocates ids.
/// Creating takes the counter as the new id and increments it; removing
/// decrements it.
#[derive(Clone)]
pub struct ProposalStore {
    slots: Vec<Option<BasicProposal>>,
    count: u32,
}

impl ProposalStore {
    pub closed spec fn wf(&self) -> bool {
        &&& self.count as int <= self.slots@.len()
        &&& live(self.slots@) <= self.count as nat
    }

    /// The existing proposals by id.
    pub closed spec fn proposals(&self) -> Map<u32, BasicProposal> {
        Map::new(
            |id: u32| (id as int) < self.slots@.len() && self.slots@[id as int] is Some,
            |id: u32| self.slots@[id as int]->Some_0,
        )
    }

    /// The id that the next creation allocates.
    pub closed spec fn counter(&self) -> u32 {
        self.count
    }

    pub fn new() -> (r: ProposalStore)
        ensures
            r.wf(),
            r.proposals() == Map::<u32, BasicProposal>::empty(),
            r.counter() == 0,
    {
        let r = ProposalStore { slots: Vec::new(), count: 0 };
        assert(r.proposals() =~= Map::<u32, BasicProposal>::empty());
        r
    }

    pub fn proposal_count(&self) -> (r: u32)
        ensures
            r == self.counter(),
    {
        self.count
    }

    /// Inserts a proposal with no votes under id `counter()`.
    pub fn create(&mut self) -> (r: u32)
        requires
            old(self).wf(),
            old(self).counter() < u32::MAX,
        ensures
            final(self).wf(),
            r == old(self).counter(),
            final(self).counter() == old(self).counter() + 1,
            final(self).proposals() == old(self).proposals().insert(r, BasicProposal { vote_count: 0 }),
    {
        let id = self.count;
        let fresh = Some(BasicProposal { vote_count: 0 });
        proof {
            if (id as int) < self.slots@.len() {
                lemma_live_update(self.slots@, id as int, fresh);
            } else {
                lemma_live_push(self.slots@, fresh);
            }
        }
        if (id as usize) < self.slots.len() {
            self.slots.set(id as usize, fresh);
        } else {
            self.slots.push(fresh);
        }
        self.count = id + 1;
        assert(self.proposals() =~= old(self).proposals().insert(id, BasicProposal { vote_count: 0 }));
        id
    }

    /// The proposal under `id`, if there is one.
    pub fn get(&self, id: u32) -> (r: Option<BasicProposal>)
        ensures
            r == (if self.proposals().contains_key(id) { Some(self.proposals()[id]) } else { None::<BasicProposal> }),
    {
        if (id as usize) < self.slots.len() {
            self.slots[id as usize]
        } else {
            None
        }
    }

    /// Deletes the proposal under `id` and decrements the counter.
    pub fn remove(&mut self, id: u32) -> (r: Result<(), DaoError>)
        requires
            old(self).wf(),
        ensures
            final(self).wf(),
            !old(self).proposals().contains_key(id) ==> r == Err::<(), DaoError>(DaoError::ProposalDoesNotExist)
                && *final(self) == *old(self),
            old(self).proposals().contains_key(id) ==> r is Ok
                && final(self).proposals() == old(self).proposals().remove(id)
                && final(self).counter() == old(self).counter() - 1,
    {
        if (id as usize) >= self.slots.len() || self.slots[id as usize].is_none() {
            return Err(DaoError::ProposalDoesNotExist);
        }
        proof {
            lemma_live_update(self.slots@, id as int, None);
        }
        self.slots.set(id as usize, None);
        self.count = self.count - 1;
        assert(self.proposals() =~= old(self).proposals().remove(id));
        Ok(())
    }

    /// Adds one vote to the proposal under `id`.
    pub fn add_vote(&mut self, id: u32) -> (r: Result<(), DaoError>)
        requires
            old(self).wf(),
            old(self).proposals().contains_key(id) ==> old(self).proposals()[id].vote_count < u32::MAX,
        ensures
            final(self).wf(),
            !old(self).proposals().contains_key(id) ==> r == Err::<(), DaoError>(DaoError::ProposalDoesNotExist)
                && *final(self) == *old(self),
            old(self).proposals().contains_key(id) ==> r is Ok
                && final(self).proposals() == old(self).proposals().insert(
                    id,
                    BasicProposal { vote_count: (old(self).proposals()[id].vote_count + 1) as u32 },
                ),
            final(self).counter() == old(self).counter(),
    {
        if (id as usize) >= self.slots.len() {
            return Err(DaoError::ProposalDoesNotExist);
        }
        match self.slots[id as usize] {
            None => Err(DaoError::ProposalDoesNotExist),
            Some(p) => {
                let next = Some(BasicProposal { vote_count: p.vote_count + 1 });
                proof {
                    lemma_live_update(self.slots@, id as int, next);
                }
                self.slots.set(id as usize, next);
                assert(self.proposals() =~= old(self).proposals().insert(
                    id,
                    BasicProposal { vote_count: (p.vote_count + 1) as u32 },
                ));
                Ok(())
            },
        }
    }
}

} // verus!
