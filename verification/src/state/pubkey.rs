//! Addresses of accounts.

use vstd::prelude::*;

verus! {

/// The address of an account: 32 bytes.
#[derive(Clone, Copy, Debug)]
pub struct Pubkey {
    /// The bytes of the address.
    pub bytes: [u8; 32],
}

impl View for Pubkey {
    type V = Seq<u8>;

    /// The 32 bytes in order.
    open spec fn view(&self) -> Seq<u8> {
        self.bytes@
    }
}

/// `a` comes strictly before `b` in lexicographic order: at the first
/// place where the two differ, `a` holds the smaller byte.
pub open spec fn precedes(a: Seq<u8>, b: Seq<u8>) -> bool
    recommends
        a.len() == b.len(),
{
    exists|i: int|
        0 <= i < a.len() && #[trigger] a[i] < b[i] && forall|j: int|
            0 <= j < i ==> #[trigger] a[j] == b[j]
}

impl Pubkey {
    /// An address from its bytes.
    pub fn new_from_array(bytes: [u8; 32]) -> (key: Pubkey)
        ensures
            key@ == bytes@,
    {
        Pubkey { bytes }
    }

    /// Whether two addresses are the same.
    pub fn same_as(&self, other: &Pubkey) -> (same: bool)
        ensures
            same == (self@ == other@),
    {
        let mut i: usize = 0;
        while i < 32
            invariant
                0 <= i <= 32,
                forall|j: int| 0 <= j < i ==> self.bytes[j] == other.bytes[j],
            decreases 32 - i,
        {
            if self.bytes[i] != other.bytes[i] {
                assert(self@[i as int] != other@[i as int]);
                return false;
            }
            i += 1;
        }
        assert(self@ =~= other@);
        true
    }

    /// Whether this address comes strictly before `other` in
    /// lexicographic order of the bytes.
    pub fn is_before(&self, other: &Pubkey) -> (before: bool)
        ensures
            before == precedes(self@, other@),
    {
        let mut i: usize = 0;
        while i < 32
            invariant
                0 <= i <= 32,
                forall|j: int| 0 <= j < i ==> self.bytes[j] == other.bytes[j],
            decreases 32 - i,
        {
            if self.bytes[i] < other.bytes[i] {
                assert(self@[i as int] < other@[i as int]);
                return true;
            }
            if self.bytes[i] > other.bytes[i] {
                assert forall|k: int|
                    0 <= k < 32 && #[trigger] self@[k] < other@[k] implies !(forall|j: int|
                    0 <= j < k ==> #[trigger] self@[j] == other@[j]) by {
                    if k < i {
                        assert(self@[k] == other@[k]);
                    } else {
                        assert(self@[i as int] != other@[i as int]);
                    }
                }
                return false;
            }
            i += 1;
        }
        assert forall|k: int| 0 <= k < 32 implies !(#[trigger] self@[k] < other@[k]) by {
            assert(self.bytes[k] == other.bytes[k]);
        }
        false
    }
}

} // verus!
