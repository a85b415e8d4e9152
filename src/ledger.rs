use vstd::prelude::*;
use crate::identity::AccountId;

verus! {

/// Cumulative votes cast by each member, over all proposals.
#[derive(Clone)]
pub struct VoteLedger {
    entries: Vec<(AccountId, u32)>,
}

impl VoteLedger {
    /// At most one entry per identity.
    pub closed spec fn wf(&self) -> bool {
        forall|i: int, j: int|
            0 <= i < j < self.entries@.len() ==> (#[trigger] self.entries@[i]).0.id() != (#[trigger] self.entries@[j]).0.id()
    }

    /// The votes cast by `who`; zero for an identity that never voted.
    pub closed spec fn tally(&self, who: Seq<u8>) -> u32 {
        if exists|i: int| 0 <= i < self.entries@.len() && (#[trigger] self.entries@[i]).0.id() == who {
            self.entries@[choose|i: int| 0 <= i < self.entries@.len() && (#[trigger] self.entries@[i]).0.id() == who].1
        } else {
            0
        }
    }

    pub fn new() -> (r: VoteLedger)
        ensures
            r.wf(),
            forall|w: Seq<u8>| r.tally(w) == 0,
    {
        VoteLedger { entries: Vec::new() }
    }

    fn find(&self, who: &AccountId) -> (r: Option<usize>)
        requires
            self.wf(),
        ensures
            r matches Some(i) ==> i < self.entries@.len() && self.entries@[i as int].0.id() == who.id()
                && self.tally(who.id()) == self.entries@[i as int].1,
            r is None ==> forall|i: int| 0 <= i < self.entries@.len() ==> (#[trigger] self.entries@[i]).0.id() != who.id(),
            r is None ==> self.tally(who.id()) == 0,
    {
        let mut i: usize = 0;
        while i < self.entries.len()
            invariant
                self.wf(),
                i <= self.entries@.len(),
                forall|j: int| 0 <= j < i ==> (#[trigger] self.entries@[j]).0.id() != who.id(),
            decreases self.entries@.len() - i,
        {
            if self.entries[i].0.same(who) {
                proof {
                    assert(self.entries@[i as int].0.id() == who.id());
                    let j = choose|j: int| 0 <= j < self.entries@.len() && (#[trigger] self.entries@[j]).0.id() == who.id();
                    if j < i {
                        assert(self.entries@[j].0.id() != self.entries@[i as int].0.id());
                    } else if j > i {
                        assert(self.entries@[i as int].0.id() != self.entries@[j].0.id());
                    }
                }
                return Some(i);
            }
            i = i + 1;
        }
        None
    }

    /// The votes cast by `who`.
    pub fn tally_of(&self, who: &AccountId) -> (r: u32)
        requires
            self.wf(),
        ensures
            r == self.tally(who.id()),
    {
        match self.find(who) {
            Some(i) => self.entries[i].1,
            None => 0,
        }
    }

    /// Counts one more vote for `who`.
    pub fn record(&mut self, who: AccountId)
        requires
            old(self).wf(),
            old(self).tally(who.id()) < u32::MAX,
        ensures
            final(self).wf(),
            final(self).tally(who.id()) == old(self).tally(who.id()) + 1,
            forall|w: Seq<u8>| w != who.id() ==> #[trigger] final(self).tally(w) == old(self).tally(w),
    {
        let ghost before = self.entries@;
        match self.find(&who) {
            Some(i) => {
                let n = self.entries[i].1;
                self.entries.set(i, (who, n + 1));
                assert(self.entries@[i as int].0.id() == who.id());
            },
            None => {
                self.entries.push((who, 1));
                assert(self.entries@[before.len() as int].0.id() == who.id());
            },
        }
        assert forall|w: Seq<u8>| w != who.id() implies #[trigger] self.tally(w) == old(self).tally(w) by {
            assert forall|k: int| 0 <= k < self.entries@.len() && (#[trigger] self.entries@[k]).0.id() == w
                implies k < before.len() && self.entries@[k] == before[k] by {}
            if exists|k: int| 0 <= k < before.len() && (#[trigger] before[k]).0.id() == w {
                let k = choose|k: int| 0 <= k < before.len() && (#[trigger] before[k]).0.id() == w;
                assert(self.entries@[k] == before[k]);
            }
        }
    }
}

} // verus!
