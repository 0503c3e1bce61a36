//! Twenty-byte account addresses.

use vstd::prelude::*;

verus! {

/// The twenty bytes of an account address.
#[derive(Clone, Copy, Debug, Eq, Hash)]
pub struct Address(pub [u8; 20]);

impl View for Address {
    type V = Seq<u8>;

    open spec fn view(&self) -> Seq<u8> {
        self.0@
    }
}

/// Every byte of `s` is zero.
pub open spec fn all_zero(s: Seq<u8>) -> bool {
    forall|i: int| 0 <= i < s.len() ==> s[i] == 0u8
}

/// Tells whether every byte of a 32-byte word is zero.
pub fn is_zero_word(w: &[u8; 32]) -> (r: bool)
    ensures
        r == all_zero(w@),
{
    let mut i: usize = 0;
    while i < 32
        invariant
            i <= 32,
            w@.len() == 32,
            forall|j: int| 0 <= j < i ==> w@[j] == 0u8,
        decreases 32 - i,
    {
        if w[i] != 0 {
            return false;
        }
        i = i + 1;
    }
    true
}

impl Address {
    /// The zero address.
    pub fn zero() -> (r: Address)
        ensures
            all_zero(r@),
            r@.len() == 20,
    {
        Address([0u8; 20])
    }

    /// Tells whether this is the zero address.
    pub fn is_zero(&self) -> (r: bool)
        ensures
            r == all_zero(self@),
    {
        let mut i: usize = 0;
        while i < 20
            invariant
                i <= 20,
                self@.len() == 20,
                forall|j: int| 0 <= j < i ==> self@[j] == 0u8,
            decreases 20 - i,
        {
            if self.0[i] != 0 {
                return false;
            }
            i = i + 1;
        }
        true
    }
}

impl PartialEq for Address {
    fn eq(&self, other: &Address) -> (r: bool)
        ensures
            r == (self@ == other@),
    {
        let mut i: usize = 0;
        while i < 20
            invariant
                i <= 20,
                self@.len() == 20,
                other@.len() == 20,
                forall|j: int| 0 <= j < i ==> self@[j] == other@[j],
            decreases 20 - i,
        {
            if self.0[i] != other.0[i] {
                return false;
            }
            i = i + 1;
        }
        proof {
            assert(self@ =~= other@);
        }
        true
    }
}

impl vstd::std_specs::cmp::PartialEqSpecImpl for Address {
    open spec fn obeys_eq_spec() -> bool {
        true
    }

    open spec fn eq_spec(&self, other: &Address) -> bool {
        self@ == other@
    }
}

} // verus!
