//! The pluggable case generators and the registry the engine drives them
//! through.
//!
//! A generator turns randomness into one runnable trial: a serializable
//! input plus a verification job. The heterogeneous inputs are erased
//! behind a closed tagged union, so the engine handles every generator the
//! same way and can still report a failing input byte for byte. The
//! registry is the name-keyed, read-only set of compiled-in generators,
//! built explicitly at startup.

use vstd::prelude::*;
use crate::calldatacopy::{spec_encode, CalldataCopyRootArgs};
use crate::input::FromRng;
use crate::pipeline::{Block, ErasedCircuitTestBuilder};

verus! {

/// The input of one trial, type-erased: one variant per compiled-in kind,
/// each serializable for the failure record.
#[derive(Debug, Clone)]
pub enum CaseInput {
    /// The randomized arguments of a calldata-copy trial.
    CalldataCopyRoot(CalldataCopyRootArgs),
    /// A scripted trial carries no randomized input.
    Scripted,
}

impl CaseInput {
    pub open spec fn wf(&self) -> bool {
        match self {
            CaseInput::CalldataCopyRoot(args) => args.wf(),
            CaseInput::Scripted => true,
        }
    }

    /// The bytes a failure record carries for this input.
    pub open spec fn spec_serialized(&self) -> Seq<u8> {
        match self {
            CaseInput::CalldataCopyRoot(args) => spec_encode(*args),
            CaseInput::Scripted => Seq::empty(),
        }
    }

    /// Serialize the input for a failure record.
    pub fn serialize(&self) -> (r: Vec<u8>)
        requires
            self.wf(),
        ensures
            r@ == self.spec_serialized(),
    {
        match self {
            CaseInput::CalldataCopyRoot(args) => args.encode(),
            CaseInput::Scripted => {
                let r: Vec<u8> = Vec::new();
                proof {
                    assert(r@ =~= Seq::<u8>::empty());
                }
                r
            },
        }
    }
}

/// One runnable trial: the input that built it and the job that verifies
/// it. Running the job consumes it; the input stays inspectable for the
/// failure record.
#[derive(Debug)]
pub struct FuzzerCase {
    pub input: CaseInput,
    pub test_builder: ErasedCircuitTestBuilder,
}

impl FuzzerCase {
    /// A case is sound when its input is inside its declared domain and its
    /// job has something to run on.
    pub open spec fn wf(self) -> bool {
        &&& self.input.wf()
        &&& self.test_builder.runnable()
    }

    pub fn new(input: CaseInput, test_builder: ErasedCircuitTestBuilder) -> (r: Self)
        ensures
            r.input == input,
            r.test_builder == test_builder,
    {
        FuzzerCase { input, test_builder }
    }
}

/// What every case generator provides: a stable name for the registry and
/// the reports, and the production of one runnable trial from a source of
/// randomness.
pub trait FuzzerCaseGenerator {
    spec fn spec_name(&self) -> Seq<char>;

    fn name(&self) -> (r: String)
        ensures
            r@ == self.spec_name(),
    ;

    fn gen_test_case(&self, rng: &mut rand::rngs::StdRng) -> (r: FuzzerCase)
        ensures
            r.wf(),
    ;
}

/// A deterministic generator: every trial replays the same witness block.
/// It exercises the engine's failure reporting against a synthetic
/// pipeline whose verdict the block fixes in advance.
#[derive(Debug)]
pub struct ScriptedFuzzer {
    pub label: String,
    pub block: Block,
}

impl FuzzerCaseGenerator for ScriptedFuzzer {
    open spec fn spec_name(&self) -> Seq<char> {
        self.label@
    }

    fn name(&self) -> (r: String) {
        self.label.as_str().to_owned()
    }

    /// Every case replays the scripted block, so the job's outcome is the
    /// pipeline's verdict on it.
    fn gen_test_case(&self, rng: &mut rand::rngs::StdRng) -> (r: FuzzerCase)
        ensures
            r.input == CaseInput::Scripted,
            r.test_builder.spec_outcome() == crate::pipeline::spec_pipeline(
                self.block@,
                self.block@.circuits_params,
                crate::pipeline::CheckFunction::VerifyAtRows,
                crate::pipeline::CheckFunction::VerifyAtRows,
                crate::pipeline::CheckFunction::VerifyAtRows,
            ),
    {
        let b = clone_block(&self.block);
        let builder = ErasedCircuitTestBuilder::new_from_block(b);
        FuzzerCase::new(CaseInput::Scripted, builder)
    }
}

/// A field-by-field copy of a witness block.
fn clone_block(b: &Block) -> (r: Block)
    ensures
        r@ == b@,
{
    let r = Block {
        circuits_params: b.circuits_params,
        gate_rows: crate::pipeline::copy_vec(&b.gate_rows),
        lookup_rows: crate::pipeline::copy_vec(&b.lookup_rows),
        non_start_rw_rows: b.non_start_rw_rows,
        copy_active_rows: b.copy_active_rows,
        flaws: crate::pipeline::copy_vec(&b.flaws),
    };
    proof {
        assert(r@ =~= b@);
    }
    r
}

} // verus!
