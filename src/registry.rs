use vstd::prelude::*;
use crate::error::DaoError;
use crate::identity::AccountId;

verus! {

/// Whether a slot of the registry holds the identity `m`.
pub open spec fn slot_holds(slot: Option<AccountId>, m: Seq<u8>) -> bool {
    match slot {
        Some(a) => a.id() == m,
        None => false,
    }
}

/// The registered voters, kept in an index-stable sequence of slots.
/// Removing a member clears its slot instead of shifting the others.
#[derive(Clone)]
pub struct MemberRegistry {
    slots: Vec<Option<AccountId>>,
}

/// The slot `s` after `who` has been removed: cleared if it held `who`,
/// kept otherwise.
pub open spec fn cleared_of(s: Option<AccountId>, who: Seq<u8>) -> Option<AccountId> {
    if slot_holds(s, who) {
        None
    } else {
        s
    }
}

impl MemberRegistry {
    /// The slots, in the order members were added; a cleared slot is `None`.
    pub closed spec fn slots(&self) -> Seq<Option<AccountId>> {
        self.slots@
    }

    /// The set of registered identities.
    pub closed spec fn members(&self) -> Set<Seq<u8>> {
        Set::new(|m: Seq<u8>| exists|i: int| 0 <= i < self.slots@.len() && slot_holds(#[trigger] self.slots@[i], m))
    }

    pub fn new() -> (r: MemberRegistry)
        ensures
            r.members() == Set::<Seq<u8>>::empty(),
    {
        let r = MemberRegistry { slots: Vec::new() };
        assert(r.members() =~= Set::<Seq<u8>>::empty());
        r
    }

    /// Whether `who` is registered; a scan over the live slots.
    pub fn contains(&self, who: &AccountId) -> (r: bool)
        ensures
            r == self.members().contains(who.id()),
    {
        let mut i: usize = 0;
        while i < self.slots.len()
            invariant
                i <= self.slots@.len(),
                forall|j: int| 0 <= j < i ==> !slot_holds(#[trigger] self.slots@[j], who.id()),
            decreases self.slots@.len() - i,
        {
            match &self.slots[i] {
                Some(a) => {
                    if a.same(who) {
                        assert(slot_holds(self.slots@[i as int], who.id()));
                        return true;
                    }
                },
                None => {},
            }
            i = i + 1;
        }
        false
    }

    /// Adds `who`, unless it is registered already.
    pub fn register(&mut self, who: AccountId) -> (r: Result<(), DaoError>)
        ensures
            old(self).members().contains(who.id()) ==> r == Err::<(), DaoError>(DaoError::VoterAlreadyRegistered)
                && *final(self) == *old(self),
            !old(self).members().contains(who.id()) ==> r is Ok
                && final(self).members() == old(self).members().insert(who.id())
                && final(self).slots() == old(self).slots().push(Some(who)),
    {
        if self.contains(&who) {
            return Err(DaoError::VoterAlreadyRegistered);
        }
        let ghost before = self.slots@;
        self.slots.push(Some(who));
        assert(slot_holds(self.slots@[before.len() as int], who.id()));
        assert forall|m: Seq<u8>| #[trigger] self.members().contains(m) == old(self).members().insert(who.id()).contains(m) by {
            if old(self).members().contains(m) {
                let i = choose|i: int| 0 <= i < before.len() && slot_holds(#[trigger] before[i], m);
                assert(self.slots@[i] == before[i]);
            }
            if self.members().contains(m) {
                let i = choose|i: int| 0 <= i < self.slots@.len() && slot_holds(#[trigger] self.slots@[i], m);
                if i < before.len() {
                    assert(before[i] == self.slots@[i]);
                }
            }
        }
        assert(self.members() =~= old(self).members().insert(who.id()));
        Ok(())
    }

    /// Removes `who`, and no one else, if it is registered: the slots that
    /// hold `who` are cleared in place, the others keep their positions.
    pub fn deregister(&mut self, who: &AccountId) -> (r: Result<(), DaoError>)
        ensures
            !old(self).members().contains(who.id()) ==> r == Err::<(), DaoError>(DaoError::VoterNotRegistered)
                && *final(self) == *old(self),
            old(self).members().contains(who.id()) ==> r is Ok
                && final(self).members() == old(self).members().remove(who.id())
                && final(self).slots().len() == old(self).slots().len()
                && forall|i: int| 0 <= i < old(self).slots().len()
                    ==> #[trigger] final(self).slots()[i] == cleared_of(old(self).slots()[i], who.id()),
    {
        if !self.contains(who) {
            return Err(DaoError::VoterNotRegistered);
        }
        let ghost before = self.slots@;
        let mut i: usize = 0;
        while i < self.slots.len()
            invariant
                i <= self.slots@.len(),
                self.slots@.len() == before.len(),
                forall|j: int| 0 <= j < i ==> #[trigger] self.slots@[j] == cleared_of(before[j], who.id()),
                forall|j: int| i <= j < self.slots@.len() ==> #[trigger] self.slots@[j] == before[j],
            decreases self.slots@.len() - i,
        {
            let clear = match &self.slots[i] {
                Some(a) => a.same(who),
                None => false,
            };
            if clear {
                self.slots.set(i, None);
            }
            i = i + 1;
        }
        assert forall|m: Seq<u8>| #[trigger] self.members().contains(m) == old(self).members().remove(who.id()).contains(m) by {
            if old(self).members().contains(m) && m != who.id() {
                let k = choose|k: int| 0 <= k < before.len() && slot_holds(#[trigger] before[k], m);
                assert(self.slots@[k] == cleared_of(before[k], who.id()));
            }
            if self.members().contains(m) {
                let k = choose|k: int| 0 <= k < self.slots@.len() && slot_holds(#[trigger] self.slots@[k], m);
                assert(self.slots@[k] == cleared_of(before[k], who.id()));
            }
        }
        assert(self.members() =~= old(self).members().remove(who.id()));
        Ok(())
    }
}

} // verus!
