//! The randomized arguments of the calldata-copy fuzz target, and the
//! canonical byte encoding under which a failing trial is reported and can
//! later be replayed.

use vstd::prelude::*;
use crate::input::{FromRng, RandomBytes, RandomWord};
use crate::word::Word;

verus! {

/// The byte-length bound the calldata blob is declared with.
pub const MAX_CALLDATA_LENGTH: usize = 64;

/// The bound on the drawn words: twice the calldata bound.
pub const MAX_CALLDATA_WORD: u64 = 128;

/// The randomized parameters of one calldata-copy trial: the transaction
/// calldata, and the three stack operands of the copy instruction.
#[derive(Debug, Clone)]
pub struct CalldataCopyRootArgs {
    pub calldata: RandomBytes<MAX_CALLDATA_LENGTH>,
    pub length: RandomWord<0, MAX_CALLDATA_WORD>,
    pub data_offset: RandomWord<0, MAX_CALLDATA_WORD>,
    pub memory_offset: RandomWord<0, MAX_CALLDATA_WORD>,
}

/// What one set of arguments means: the calldata bytes and the three
/// operand values.
pub struct ArgsModel {
    pub calldata: Seq<u8>,
    pub length: u64,
    pub data_offset: u64,
    pub memory_offset: u64,
}

impl FromRng for CalldataCopyRootArgs {
    open spec fn wf(&self) -> bool {
        &&& self.calldata.wf()
        &&& self.length.wf()
        &&& self.data_offset.wf()
        &&& self.memory_offset.wf()
    }

    fn from_rng(rng: &mut rand::rngs::StdRng) -> (r: Self) {
        CalldataCopyRootArgs {
            calldata: RandomBytes::from_rng(rng),
            length: RandomWord::from_rng(rng),
            data_offset: RandomWord::from_rng(rng),
            memory_offset: RandomWord::from_rng(rng),
        }
    }
}

impl CalldataCopyRootArgs {
    /// The meaning of the arguments, with each operand as its 64-bit value.
    pub open spec fn model(self) -> ArgsModel {
        ArgsModel {
            calldata: self.calldata.0@,
            length: self.length.0.value() as u64,
            data_offset: self.data_offset.0.value() as u64,
            memory_offset: self.memory_offset.0.value() as u64,
        }
    }
}

/// Byte `i` of a 64-bit value, least significant first.
pub open spec fn le_byte(v: u64, i: int) -> u8 {
    ((v >> ((8 * i) as u64)) & 0xff) as u8
}

/// The eight bytes of a 64-bit value, least significant first.
pub open spec fn spec_u64_le(v: u64) -> Seq<u8> {
    Seq::new(8, |i: int| le_byte(v, i))
}

/// Append the eight little-endian bytes of `v`.
fn push_u64_le(out: &mut Vec<u8>, v: u64)
    ensures
        final(out)@ == old(out)@ + spec_u64_le(v),
{
    out.push((v & 0xff) as u8);
    out.push(((v >> 8) & 0xff) as u8);
    out.push(((v >> 16) & 0xff) as u8);
    out.push(((v >> 24) & 0xff) as u8);
    out.push(((v >> 32) & 0xff) as u8);
    out.push(((v >> 40) & 0xff) as u8);
    out.push(((v >> 48) & 0xff) as u8);
    out.push(((v >> 56) & 0xff) as u8);
    proof {
        assert(((v >> 0) & 0xff) as u8 == (v & 0xff) as u8) by (bit_vector);
        assert(out@ =~= old(out)@ + spec_u64_le(v));
    }
}

/// Read eight little-endian bytes as a 64-bit value.
fn read_u64_le(b: &Vec<u8>, off: usize) -> (r: u64)
    requires
        off + 8 <= b@.len(),
        b@.len() <= usize::MAX,
    ensures
        spec_u64_le(r) == b@.subrange(off as int, off as int + 8),
{
    let r: u64 = (b[off] as u64)
        | ((b[off + 1] as u64) << 8)
        | ((b[off + 2] as u64) << 16)
        | ((b[off + 3] as u64) << 24)
        | ((b[off + 4] as u64) << 32)
        | ((b[off + 5] as u64) << 40)
        | ((b[off + 6] as u64) << 48)
        | ((b[off + 7] as u64) << 56);
    proof {
        let b0 = b@[off as int];
        let b1 = b@[off as int + 1];
        let b2 = b@[off as int + 2];
        let b3 = b@[off as int + 3];
        let b4 = b@[off as int + 4];
        let b5 = b@[off as int + 5];
        let b6 = b@[off as int + 6];
        let b7 = b@[off as int + 7];
        assert({
            let w = (b0 as u64) | ((b1 as u64) << 8) | ((b2 as u64) << 16) | ((b3 as u64) << 24)
                | ((b4 as u64) << 32) | ((b5 as u64) << 40) | ((b6 as u64) << 48)
                | ((b7 as u64) << 56);
            &&& ((w >> 0) & 0xff) as u8 == b0
            &&& ((w >> 8) & 0xff) as u8 == b1
            &&& ((w >> 16) & 0xff) as u8 == b2
            &&& ((w >> 24) & 0xff) as u8 == b3
            &&& ((w >> 32) & 0xff) as u8 == b4
            &&& ((w >> 40) & 0xff) as u8 == b5
            &&& ((w >> 48) & 0xff) as u8 == b6
            &&& ((w >> 56) & 0xff) as u8 == b7
        }) by (bit_vector);
        assert(spec_u64_le(r) =~= b@.subrange(off as int, off as int + 8));
    }
    r
}

/// The two 64-bit values behind equal little-endian byte runs are equal.
pub proof fn lemma_u64_le_injective(a: u64, b: u64)
    requires
        spec_u64_le(a) == spec_u64_le(b),
    ensures
        a == b,
{
    assert forall|i: int| 0 <= i < 8 implies le_byte(a, i) == le_byte(b, i) by {
        assert(spec_u64_le(a)[i] == le_byte(a, i));
        assert(spec_u64_le(b)[i] == le_byte(b, i));
        assert(spec_u64_le(a)[i] == spec_u64_le(b)[i]);
    }
    assert(le_byte(a, 0) == le_byte(b, 0));
    assert(le_byte(a, 1) == le_byte(b, 1));
    assert(le_byte(a, 2) == le_byte(b, 2));
    assert(le_byte(a, 3) == le_byte(b, 3));
    assert(le_byte(a, 4) == le_byte(b, 4));
    assert(le_byte(a, 5) == le_byte(b, 5));
    assert(le_byte(a, 6) == le_byte(b, 6));
    assert(le_byte(a, 7) == le_byte(b, 7));
    assert(a == b) by (bit_vector)
        requires
            ((a >> 0) & 0xff) as u8 == ((b >> 0) & 0xff) as u8,
            ((a >> 8) & 0xff) as u8 == ((b >> 8) & 0xff) as u8,
            ((a >> 16) & 0xff) as u8 == ((b >> 16) & 0xff) as u8,
            ((a >> 24) & 0xff) as u8 == ((b >> 24) & 0xff) as u8,
            ((a >> 32) & 0xff) as u8 == ((b >> 32) & 0xff) as u8,
            ((a >> 40) & 0xff) as u8 == ((b >> 40) & 0xff) as u8,
            ((a >> 48) & 0xff) as u8 == ((b >> 48) & 0xff) as u8,
            ((a >> 56) & 0xff) as u8 == ((b >> 56) & 0xff) as u8,
    ;
}

/// The canonical encoding of one set of arguments: a length byte, the
/// calldata bytes, then the three operands in little-endian order.
pub open spec fn spec_encode(a: CalldataCopyRootArgs) -> Seq<u8> {
    seq![a.calldata.0@.len() as u8] + a.calldata.0@ + spec_u64_le(a.length.0.value() as u64)
        + spec_u64_le(a.data_offset.0.value() as u64)
        + spec_u64_le(a.memory_offset.0.value() as u64)
}

/// Whether `b` is the encoding of some well-formed set of arguments.
pub open spec fn valid_encoding(b: Seq<u8>) -> bool {
    &&& b.len() >= 1
    &&& (b[0] as int) < MAX_CALLDATA_LENGTH as int
    &&& b.len() == 25 + b[0]
    &&& exists|v: u64|
        v < MAX_CALLDATA_WORD && spec_u64_le(v) == b.subrange(1 + b[0], 9 + b[0])
    &&& exists|v: u64|
        v < MAX_CALLDATA_WORD && spec_u64_le(v) == b.subrange(9 + b[0], 17 + b[0])
    &&& exists|v: u64|
        v < MAX_CALLDATA_WORD && spec_u64_le(v) == b.subrange(17 + b[0], 25 + b[0])
}

impl CalldataCopyRootArgs {
    /// Serialize the arguments for a failure record.
    pub fn encode(&self) -> (r: Vec<u8>)
        requires
            self.wf(),
        ensures
            r@ == spec_encode(*self),
            valid_encoding(r@),
    {
        let mut out: Vec<u8> = Vec::new();
        out.push(self.calldata.0.len() as u8);
        let n = self.calldata.0.len();
        let mut i: usize = 0;
        while i < n
            invariant
                i <= n,
                n == self.calldata.0@.len(),
                out@ == seq![(n as u8)] + self.calldata.0@.take(i as int),
            decreases n - i,
        {
            out.push(self.calldata.0[i]);
            assert(out@ =~= seq![(n as u8)] + self.calldata.0@.take(i + 1 as int));
            i = i + 1;
        }
        assert(out@ =~= seq![(n as u8)] + self.calldata.0@);
        push_u64_le(&mut out, self.length.low_u64());
        push_u64_le(&mut out, self.data_offset.low_u64());
        push_u64_le(&mut out, self.memory_offset.low_u64());
        proof {
            assert(out@ =~= spec_encode(*self));
            let e = spec_encode(*self);
            assert(e[0] == n as u8);
            assert(e.subrange(1 + e[0], 9 + e[0]) =~= spec_u64_le(self.length.0.value() as u64));
            assert(e.subrange(9 + e[0], 17 + e[0]) =~= spec_u64_le(
                self.data_offset.0.value() as u64,
            ));
            assert(e.subrange(17 + e[0], 25 + e[0]) =~= spec_u64_le(
                self.memory_offset.0.value() as u64,
            ));
        }
        out
    }

    /// Recover arguments from a failure record. Returns `Some` exactly on
    /// the byte strings that encode a well-formed set of arguments.
    pub fn decode(b: &Vec<u8>) -> (r: Option<CalldataCopyRootArgs>)
        ensures
            match r {
                Some(a) => a.wf() && spec_encode(a) == b@ && valid_encoding(b@),
                None => !valid_encoding(b@),
            },
    {
        if b.len() == 0 {
            return None;
        }
        let n = b[0] as usize;
        if n >= MAX_CALLDATA_LENGTH {
            return None;
        }
        if b.len() != 25 + n {
            return None;
        }
        let mut calldata: Vec<u8> = Vec::new();
        let mut i: usize = 0;
        while i < n
            invariant
                i <= n,
                n == b@[0],
                b@.len() == 25 + n,
                calldata@ == b@.subrange(1, 1 + i as int),
            decreases n - i,
        {
            calldata.push(b[1 + i]);
            assert(calldata@ =~= b@.subrange(1, 1 + (i + 1)));
            i = i + 1;
        }
        let lv = read_u64_le(b, 1 + n);
        if lv >= MAX_CALLDATA_WORD {
            proof {
                if valid_encoding(b@) {
                    let v = choose|v: u64|
                        v < MAX_CALLDATA_WORD && spec_u64_le(v) == b@.subrange(
                            1 + b@[0],
                            9 + b@[0],
                        );
                    lemma_u64_le_injective(v, lv);
                }
            }
            return None;
        }
        let dv = read_u64_le(b, 9 + n);
        if dv >= MAX_CALLDATA_WORD {
            proof {
                if valid_encoding(b@) {
                    let v = choose|v: u64|
                        v < MAX_CALLDATA_WORD && spec_u64_le(v) == b@.subrange(
                            9 + b@[0],
                            17 + b@[0],
                        );
                    lemma_u64_le_injective(v, dv);
                }
            }
            return None;
        }
        let mv = read_u64_le(b, 17 + n);
        if mv >= MAX_CALLDATA_WORD {
            proof {
                if valid_encoding(b@) {
                    let v = choose|v: u64|
                        v < MAX_CALLDATA_WORD && spec_u64_le(v) == b@.subrange(
                            17 + b@[0],
                            25 + b@[0],
                        );
                    lemma_u64_le_injective(v, mv);
                }
            }
            return None;
        }
        let a = CalldataCopyRootArgs {
            calldata: RandomBytes(calldata),
            length: RandomWord(Word::from_u64(lv)),
            data_offset: RandomWord(Word::from_u64(dv)),
            memory_offset: RandomWord(Word::from_u64(mv)),
        };
        proof {
            assert(spec_encode(a) =~= b@);
        }
        Some(a)
    }
}

/// Equal encodings carry equal argument models: the failure record pins the
/// trial it came from.
pub proof fn lemma_encode_determines_model(a: CalldataCopyRootArgs, b: CalldataCopyRootArgs)
    requires
        a.wf(),
        b.wf(),
        spec_encode(a) == spec_encode(b),
    ensures
        a.model() == b.model(),
{
    let ea = spec_encode(a);
    let eb = spec_encode(b);
    let na = a.calldata.0@.len() as int;
    let nb = b.calldata.0@.len() as int;
    assert(ea[0] == (na as u8));
    assert(eb[0] == (nb as u8));
    assert(na == nb);
    assert(a.calldata.0@ =~= ea.subrange(1, 1 + na));
    assert(b.calldata.0@ =~= eb.subrange(1, 1 + nb));
    assert(spec_u64_le(a.length.0.value() as u64) =~= ea.subrange(1 + na, 9 + na));
    assert(spec_u64_le(b.length.0.value() as u64) =~= eb.subrange(1 + nb, 9 + nb));
    lemma_u64_le_injective(a.length.0.value() as u64, b.length.0.value() as u64);
    assert(spec_u64_le(a.data_offset.0.value() as u64) =~= ea.subrange(9 + na, 17 + na));
    assert(spec_u64_le(b.data_offset.0.value() as u64) =~= eb.subrange(9 + nb, 17 + nb));
    lemma_u64_le_injective(a.data_offset.0.value() as u64, b.data_offset.0.value() as u64);
    assert(spec_u64_le(a.memory_offset.0.value() as u64) =~= ea.subrange(17 + na, 25 + na));
    assert(spec_u64_le(b.memory_offset.0.value() as u64) =~= eb.subrange(17 + nb, 25 + nb));
    lemma_u64_le_injective(a.memory_offset.0.value() as u64, b.memory_offset.0.value() as u64);
}

} // verus!
