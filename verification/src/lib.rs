use vstd::prelude::*;

pub mod calldatacopy;
pub mod calldatacopy_root;
pub mod engine;
pub mod fuzzer;
pub mod input;
pub mod pipeline;
pub mod registry;
pub mod rng;
pub mod word;

verus! {

/// A byte vector whose length is kept under a declared bound `MAX`.
///
/// The raw material for one value is an unstructured length draw plus a pool
/// of available bytes; the length draw is reduced modulo `MAX` and at most
/// that many bytes are taken from the front of the pool.
#[derive(Debug)]
pub struct ArbitraryVec<const MAX: usize>(pub Vec<u8>);

impl<const MAX: usize> ArbitraryVec<MAX> {
    /// The number of bytes kept: the reduced length draw, clipped to the pool.
    pub open spec fn spec_kept_len(len_raw: usize, pool: Seq<u8>) -> int {
        let reduced = len_raw as int % (MAX as int);
        if reduced <= pool.len() {
            reduced
        } else {
            pool.len() as int
        }
    }

    /// Build a bounded vector from a raw length draw and a pool of bytes.
    pub fn from_unstructured(len_raw: usize, pool: &Vec<u8>) -> (r: Self)
        requires
            MAX > 0,
        ensures
            r.0@ == pool@.take(Self::spec_kept_len(len_raw, pool@)),
            r.0@.len() < MAX,
    {
        let reduced: usize = len_raw % MAX;
        let target: usize = if reduced <= pool.len() {
            reduced
        } else {
            pool.len()
        };
        let mut out: Vec<u8> = Vec::new();
        let mut i: usize = 0;
        while i < target
            invariant
                i <= target,
                target as int == Self::spec_kept_len(len_raw, pool@),
                target <= pool@.len(),
                target < MAX,
                out@ == pool@.take(i as int),
            decreases target - i,
        {
            out.push(pool[i]);
            assert(out@ == pool@.take(i + 1 as int));
            i = i + 1;
        }
        assert(out@ == pool@.take(target as int));
        ArbitraryVec(out)
    }

    /// The size hint for one value: at least one machine word for the length
    /// draw, at most the bound plus that word.
    pub fn size_hint() -> (r: (usize, Option<usize>))
        requires
            MAX <= usize::MAX - 8,
        ensures
            r.0 == 8,
            r.1 == Some((MAX + 8) as usize),
    {
        (8, Some(MAX + 8))
    }
}

} // verus!
