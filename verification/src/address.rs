//! Identities of parties, assets and accounts.

use vstd::prelude::*;

verus! {

/// A 32-byte identity. The all-zero value is the null sentinel: it names no
/// party.
#[derive(Clone, Copy, Debug, PartialEq, Eq, Hash)]
pub struct Address {
    pub bytes: [u8; 32],
}

impl View for Address {
    type V = Seq<u8>;

    open spec fn view(&self) -> Seq<u8> {
        self.bytes@
    }
}

impl Default for Address {
    /// The null sentinel.
    fn default() -> (r: Address)
        ensures
            r.is_null(),
    {
        Address::null()
    }
}

impl Address {
    /// The view of the null sentinel: thirty-two zero bytes.
    pub open spec fn null_view() -> Seq<u8> {
        Seq::new(32, |i: int| 0u8)
    }

    /// Whether this identity is the null sentinel.
    pub open spec fn is_null(self) -> bool {
        self@ == Self::null_view()
    }

    /// Two identities with the same bytes are the same identity.
    pub proof fn lemma_view_injective(a: Address, b: Address)
        requires
            a@ == b@,
        ensures
            a == b,
    {
        assert(a.bytes@ == b.bytes@);
        assert(a.bytes =~= b.bytes);
    }

    /// The null sentinel.
    pub fn null() -> (r: Address)
        ensures
            r.is_null(),
    {
        let r = Address { bytes: [0u8; 32] };
        assert(r@ =~= Self::null_view());
        r
    }

    /// An identity from its bytes.
    pub fn new(bytes: [u8; 32]) -> (r: Address)
        ensures
            r.bytes == bytes,
    {
        Address { bytes }
    }

    /// Whether `self` and `other` are the same identity.
    pub fn same(&self, other: &Address) -> (r: bool)
        ensures
            r == (*self == *other),
    {
        let mut i: usize = 0;
        while i < 32
            invariant
                i <= 32,
                forall|j: int| 0 <= j < i ==> self.bytes[j] == other.bytes[j],
            decreases 32 - i,
        {
            if self.bytes[i] != other.bytes[i] {
                return false;
            }
            i += 1;
        }
        proof {
            assert(self@ =~= other@);
            Self::lemma_view_injective(*self, *other);
        }
        true
    }

    /// Whether this identity is the null sentinel.
    pub fn is_default(&self) -> (r: bool)
        ensures
            r == self.is_null(),
    {
        let mut i: usize = 0;
        while i < 32
            invariant
                i <= 32,
                forall|j: int| 0 <= j < i ==> self.bytes[j] == 0,
            decreases 32 - i,
        {
            if self.bytes[i] != 0 {
                assert(Self::null_view()[i as int] == 0u8);
                return false;
            }
            i += 1;
        }
        assert(self@ =~= Self::null_view());
        true
    }
}

} // verus!
