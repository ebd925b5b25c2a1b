//! Account addresses as plain 32-byte values.
use vstd::prelude::*;

verus! {

/// A 32-byte account address.
#[derive(Clone, Copy, Debug, PartialEq, Eq, Hash)]
pub struct Pubkey {
    pub bytes: [u8; 32],
}

impl View for Pubkey {
    type V = Seq<u8>;

    open spec fn view(&self) -> Seq<u8> {
        self.bytes@
    }
}

/// The all-zero address that stands for "no key".
pub open spec fn default_key() -> Seq<u8> {
    Seq::new(32, |i: int| 0u8)
}

/// `a` sorts strictly before `b` bytewise: at the first byte where they differ, `a`'s is smaller.
pub open spec fn key_precedes(a: Seq<u8>, b: Seq<u8>) -> bool {
    exists|i: int|
        0 <= i < a.len() && i < b.len() && a.subrange(0, i) =~= b.subrange(0, i) && #[trigger] a[i]
            < b[i]
}

impl Pubkey {
    pub fn new(bytes: [u8; 32]) -> (key: Pubkey)
        ensures
            key@ == bytes@,
    {
        Pubkey { bytes }
    }

    /// The default (all-zero) address.
    pub fn default_key() -> (key: Pubkey)
        ensures
            key@ == default_key(),
    {
        let key = Pubkey { bytes: [0u8; 32] };
        assert(key@ =~= default_key());
        key
    }

    pub fn to_bytes(&self) -> (bytes: [u8; 32])
        ensures
            bytes@ == self@,
    {
        self.bytes
    }

    /// Bytewise equality of two addresses.
    pub fn same_as(&self, other: &Pubkey) -> (same: bool)
        ensures
            same == (self@ == other@),
    {
        let mut i: usize = 0;
        while i < 32
            invariant
                0 <= i <= 32,
                self@.len() == 32,
                other@.len() == 32,
                forall|j: int| 0 <= j < i ==> self@[j] == other@[j],
            decreases 32 - i,
        {
            if self.bytes[i] != other.bytes[i] {
                return false;
            }
            i += 1;
        }
        assert(self@ =~= other@);
        true
    }

    /// This is the default (all-zero) address.
    pub fn is_default(&self) -> (zero: bool)
        ensures
            zero == (self@ == default_key()),
    {
        let mut i: usize = 0;
        while i < 32
            invariant
                0 <= i <= 32,
                self@.len() == 32,
                forall|j: int| 0 <= j < i ==> self@[j] == 0u8,
            decreases 32 - i,
        {
            if self.bytes[i] != 0 {
                assert(default_key()[i as int] == 0u8);
                return false;
            }
            i += 1;
        }
        assert(self@ =~= default_key());
        true
    }

    /// This address sorts strictly before `other`, comparing bytes left to right.
    pub fn precedes(&self, other: &Pubkey) -> (before: bool)
        ensures
            before == key_precedes(self@, other@),
    {
        let mut i: usize = 0;
        while i < 32
            invariant
                0 <= i <= 32,
                self@.len() == 32,
                other@.len() == 32,
                forall|j: int| 0 <= j < i ==> self@[j] == other@[j],
            decreases 32 - i,
        {
            if self.bytes[i] < other.bytes[i] {
                assert(self@.subrange(0, i as int) =~= other@.subrange(0, i as int));
                assert(self@[i as int] < other@[i as int]);
                return true;
            }
            if self.bytes[i] > other.bytes[i] {
                assert forall|j: int|
                    0 <= j < self@.len() && j < other@.len() && self@.subrange(0, j) =~= other@.subrange(
                        0,
                        j,
                    ) implies !(#[trigger] self@[j] < other@[j]) by {
                    if j > i {
                        assert(self@.subrange(0, j)[i as int] == other@.subrange(0, j)[i as int]);
                    }
                }
                return false;
            }
            i += 1;
        }
        false
    }
}

} // verus!
