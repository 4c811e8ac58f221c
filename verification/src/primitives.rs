//! The two fixed-width values of the ledger: 160-bit addresses and 256-bit words.

use vstd::prelude::*;

verus! {

/// 2^128, the weight of the high half of an address or a word.
pub open spec fn pow2_128() -> nat {
    0x1_0000_0000_0000_0000_0000_0000_0000_0000nat
}

/// A 160-bit account identifier, held as its high 32 bits and low 128 bits.
#[derive(Clone, Copy, Debug, PartialEq, Eq, Structural, Hash)]
pub struct Address {
    pub hi: u32,
    pub lo: u128,
}

/// A 256-bit unsigned value (balance, nonce, storage key or storage value),
/// held as its high and low 128 bits.
#[derive(Clone, Copy, Debug, PartialEq, Eq, Structural, Hash)]
pub struct Word {
    pub hi: u128,
    pub lo: u128,
}

impl View for Address {
    type V = nat;

    /// The address as a number below 2^160.
    open spec fn view(&self) -> nat {
        self.hi as nat * pow2_128() + self.lo as nat
    }
}

impl View for Word {
    type V = nat;

    /// The word as a number below 2^256.
    open spec fn view(&self) -> nat {
        self.hi as nat * pow2_128() + self.lo as nat
    }
}

impl Address {
    /// The address whose number is `value`.
    pub fn from_low_u64(value: u64) -> (a: Address)
        ensures
            a@ == value,
            a == (Address { hi: 0, lo: value as u128 }),
    {
        Address { hi: 0, lo: value as u128 }
    }

    /// The all-zero address.
    pub fn zero() -> (a: Address)
        ensures
            a@ == 0,
            a == (Address { hi: 0, lo: 0 }),
    {
        Address { hi: 0, lo: 0 }
    }
}

impl Word {
    /// The word 0.
    pub fn zero() -> (w: Word)
        ensures
            w@ == 0,
            w == (Word { hi: 0, lo: 0 }),
    {
        Word { hi: 0, lo: 0 }
    }

    /// The largest word, 2^256 - 1.
    pub fn max_value() -> (w: Word)
        ensures
            w@ == pow2_128() * pow2_128() - 1,
            w == (Word { hi: u128::MAX, lo: u128::MAX }),
    {
        Word { hi: u128::MAX, lo: u128::MAX }
    }

    /// The word whose number is `value`.
    pub fn from_u64(value: u64) -> (w: Word)
        ensures
            w@ == value,
            w == (Word { hi: 0, lo: value as u128 }),
    {
        Word { hi: 0, lo: value as u128 }
    }

    /// The word whose number is `value`.
    pub fn from_u128(value: u128) -> (w: Word)
        ensures
            w@ == value,
            w == (Word { hi: 0, lo: value }),
    {
        Word { hi: 0, lo: value }
    }

    /// Whether the word is 0.
    pub fn is_zero(&self) -> (z: bool)
        ensures
            z == (self@ == 0),
            z == (*self == Word { hi: 0, lo: 0 }),
    {
        proof {
            if self.hi > 0 {
                assert(self.hi as nat * pow2_128() >= pow2_128()) by (nonlinear_arith)
                    requires
                        self.hi > 0,
                ;
            }
        }
        self.hi == 0 && self.lo == 0
    }

    /// Whether `self` is numerically below `other`.
    pub fn lt(&self, other: &Word) -> (b: bool)
        ensures
            b == (self@ < other@),
    {
        proof {
            Self::lemma_order(*self, *other);
        }
        self.hi < other.hi || (self.hi == other.hi && self.lo < other.lo)
    }

    /// The numeric order of words is the lexicographic order of their halves.
    pub proof fn lemma_order(a: Word, b: Word)
        ensures
            a@ < b@ <==> (a.hi < b.hi || (a.hi == b.hi && a.lo < b.lo)),
            a@ == b@ <==> a == b,
    {
        assert(a.lo < pow2_128() && b.lo < pow2_128());
        if a.hi < b.hi {
            assert(b.hi as nat * pow2_128() >= (a.hi as nat + 1) * pow2_128()) by (nonlinear_arith)
                requires
                    a.hi < b.hi,
            ;
        } else if b.hi < a.hi {
            assert(a.hi as nat * pow2_128() >= (b.hi as nat + 1) * pow2_128()) by (nonlinear_arith)
                requires
                    b.hi < a.hi,
            ;
        }
    }
}

} // verus!
