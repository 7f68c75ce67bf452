//! A 256-bit word, as the execution traces use for stack operands.
//!
//! The word is held as four 64-bit limbs, least significant first; its
//! mathematical value is the limbs combined in base 2^64.

use vstd::prelude::*;

verus! {

/// One 256-bit word: four 64-bit limbs, least significant first.
#[derive(Clone, Copy, Debug, PartialEq, Eq, Structural)]
pub struct Word {
    pub limb0: u64,
    pub limb1: u64,
    pub limb2: u64,
    pub limb3: u64,
}

/// The base a limb counts in: 2^64.
pub open spec fn limb_base() -> nat {
    0x1_0000_0000_0000_0000
}

impl Word {
    /// The value of the word: its limbs combined in base 2^64.
    pub open spec fn value(self) -> nat {
        (self.limb0 + limb_base() * (self.limb1 + limb_base() * (self.limb2 + limb_base() * self.limb3))) as nat
    }

    /// The word holding a 64-bit value.
    pub fn from_u64(v: u64) -> (w: Word)
        ensures
            w.value() == v,
            w == (Word { limb0: v, limb1: 0, limb2: 0, limb3: 0 }),
    {
        Word { limb0: v, limb1: 0, limb2: 0, limb3: 0 }
    }

    /// The low 64 bits; for a word below 2^64 this is the whole value.
    pub fn low_u64(&self) -> (r: u64)
        requires
            self.value() < limb_base(),
        ensures
            r == self.value(),
    {
        proof {
            let rest: nat = (self.limb1 + limb_base() * (self.limb2 + limb_base() * self.limb3)) as nat;
            if rest >= 1 {
                assert(limb_base() * rest >= limb_base() * 1) by (nonlinear_arith)
                    requires rest >= 1;
            }
        }
        self.limb0
    }
}

} // verus!
