use vstd::prelude::*;

verus! {

/// Identity of an account: its 32 raw bytes.
#[derive(Clone, Copy, Debug)]
pub struct AccountId {
    pub bytes: [u8; 32],
}

impl AccountId {
    /// The identity as a sequence of bytes.
    pub open spec fn id(&self) -> Seq<u8> {
        self.bytes@
    }

    pub fn from_bytes(bytes: [u8; 32]) -> (r: AccountId)
        ensures
            r.id() == bytes@,
    {
        AccountId { bytes }
    }

    /// Byte-wise comparison of two identities.
    pub fn same(&self, other: &AccountId) -> (r: bool)
        ensures
            r == (self.id() == other.id()),
    {
        let mut i: usize = 0;
        while i < 32
            invariant
                i <= 32,
                self.bytes@.len() == 32,
                other.bytes@.len() == 32,
                forall|j: int| 0 <= j < i ==> self.bytes@[j] == other.bytes@[j],
            decreases 32 - i,
        {
            if self.bytes[i] != other.bytes[i] {
                return false;
            }
            i = i + 1;
        }
        assert(self.bytes@ =~= other.bytes@);
        true
    }
}

} // verus!
