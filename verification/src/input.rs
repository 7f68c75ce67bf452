//! Randomized input shapes shared by the case generators.
//!
//! Each shape declares its domain up front (a length bound, a value range)
//! and draws uniformly inside it; `wf` states what holds of every value a
//! draw can produce.

use vstd::prelude::*;
use crate::rng::{rand_bytes, rand_range_u64, rand_u64, rand_usize};
use crate::word::{limb_base, Word};

verus! {

/// A value drawn from a source of randomness. `wf` is the domain the
/// implementation declares; every draw lands inside it.
pub trait FromRng: Sized {
    spec fn wf(&self) -> bool;

    fn from_rng(rng: &mut rand::rngs::StdRng) -> (r: Self)
        ensures
            r.wf(),
    ;
}

/// A random byte blob of bounded length: under `MAX` bytes when the bound is
/// positive, empty when the bound is zero.
#[derive(Debug, Clone)]
pub struct RandomBytes<const MAX: usize>(pub Vec<u8>);

impl<const MAX: usize> FromRng for RandomBytes<MAX> {
    /// The declared domain: the blob never reaches `MAX` bytes.
    open spec fn wf(&self) -> bool {
        &&& self.0@.len() <= MAX
        &&& MAX > 0 ==> self.0@.len() < MAX
    }

    /// Draw a blob: a uniform length under the bound, then that many bytes.
    fn from_rng(rng: &mut rand::rngs::StdRng) -> (r: Self) {
        if MAX == 0 {
            RandomBytes(Vec::new())
        } else {
            let length: usize = rand_usize(rng) % MAX;
            RandomBytes(rand_bytes(rng, length))
        }
    }
}

impl FromRng for Word {
    open spec fn wf(&self) -> bool {
        true
    }

    fn from_rng(rng: &mut rand::rngs::StdRng) -> (r: Self) {
        Word {
            limb0: rand_u64(rng),
            limb1: rand_u64(rng),
            limb2: rand_u64(rng),
            limb3: rand_u64(rng),
        }
    }
}

/// A random word drawn from the half-open range `MIN..MAX`; the word always
/// fits in 64 bits, and when the range is non-empty its value lies inside it.
#[derive(Debug, Clone, Copy)]
pub struct RandomWord<const MIN: u64, const MAX: u64>(pub Word);

impl<const MIN: u64, const MAX: u64> FromRng for RandomWord<MIN, MAX> {
    /// The declared domain: a 64-bit value, inside `MIN..MAX` when that
    /// range is non-empty, pinned to `MIN` when it is not.
    open spec fn wf(&self) -> bool {
        &&& self.0.value() < limb_base()
        &&& MIN < MAX ==> MIN <= self.0.value() < MAX
        &&& MIN >= MAX ==> self.0.value() == MIN
    }

    /// Draw a word uniformly from the declared range.
    fn from_rng(rng: &mut rand::rngs::StdRng) -> (r: Self) {
        if MIN < MAX {
            let v = rand_range_u64(rng, MIN, MAX);
            RandomWord(Word::from_u64(v))
        } else {
            RandomWord(Word::from_u64(MIN))
        }
    }
}

impl<const MIN: u64, const MAX: u64> RandomWord<MIN, MAX> {
    /// The drawn value, as the 64 bits it fits in.
    pub fn low_u64(&self) -> (r: u64)
        requires
            self.wf(),
        ensures
            r == self.0.value(),
    {
        self.0.low_u64()
    }
}

} // verus!
