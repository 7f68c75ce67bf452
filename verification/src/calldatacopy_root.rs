//! The calldata-copy fuzz target: random stack operands and calldata for a
//! copy instruction run in a root-level call, verified by the full
//! pipeline.
//!
//! The produced witness is a pure function of the drawn arguments, so a
//! trial captured in a failure record can be replayed byte for byte.

use vstd::prelude::*;
use crate::calldatacopy::{
    lemma_encode_determines_model, spec_encode, valid_encoding, ArgsModel, CalldataCopyRootArgs,
};
use crate::fuzzer::{CaseInput, FuzzerCase, FuzzerCaseGenerator};
use crate::input::FromRng;
use crate::pipeline::{
    block_view_of_geth, copy_vec, result_view, spec_pipeline, CapacityParams, CheckFunction,
    ErasedCircuitTestBuilder, GethDataView, TestContext, TestContextType, TraceSummary,
    TraceSummaryView, VerifyFailure,
};

verus! {

/// The generator for the calldata-copy target.
#[derive(Debug, Clone, Copy)]
pub struct CalldataCopyRootFuzzer;

/// The capacity every calldata-copy job is declared with.
pub open spec fn spec_case_params() -> CapacityParams {
    CapacityParams {
        max_rws: 64,
        max_copy_rows: 512,
        max_calldata: 64,
        max_bytecode: 128,
        max_rlp_rows: 64,
        max_inner_blocks: 0,
        max_exp_steps: 0,
        max_mpt_rows: 0,
    }
}

/// The trace a set of arguments produces: five execution steps (three
/// pushes, the copy, the stop), six stack operations plus one per copied
/// word, and two data-movement rows per copied byte. The witness holds no
/// violations.
pub open spec fn spec_trace_of(m: ArgsModel) -> TraceSummaryView {
    TraceSummaryView {
        evm_rows: 5,
        rw_ops: (6 + ((m.length + 31) / 32)) as usize,
        copy_rows: (2 * m.length) as usize,
        flaws: Seq::empty(),
    }
}

/// The execution context a set of arguments produces: the mock chain, a
/// fixed block number, the drawn calldata and the computed trace.
pub open spec fn spec_ctx_of(m: ArgsModel) -> GethDataView {
    GethDataView {
        chain_id: 1337,
        block_number: 0xcafe,
        calldata: m.calldata,
        trace: spec_trace_of(m),
    }
}

/// What verifying a calldata-copy trial returns, as a function of the
/// arguments alone.
pub open spec fn spec_case_outcome(m: ArgsModel) -> Result<(), Seq<VerifyFailure>> {
    spec_pipeline(
        block_view_of_geth(spec_ctx_of(m), spec_case_params()),
        spec_case_params(),
        CheckFunction::VerifyAtRows,
        CheckFunction::VerifyAtRows,
        CheckFunction::VerifyAtRows,
    )
}

/// The job builder for a given set of arguments.
fn case_builder(args: &CalldataCopyRootArgs) -> (r: ErasedCircuitTestBuilder)
    requires
        args.wf(),
    ensures
        r.runnable(),
        r.spec_outcome() == spec_case_outcome(args.model()),
{
    let len_v: u64 = args.length.low_u64();
    let rw_ops: usize = (6 + ((len_v + 31) / 32)) as usize;
    let copy_rows: usize = (2 * len_v) as usize;
    let ctx = TestContext {
        chain_id: 1337,
        block_number: 0xcafe,
        calldata: copy_vec(&args.calldata.0),
        trace: TraceSummary { evm_rows: 5, rw_ops, copy_rows, flaws: Vec::new() },
    };
    proof {
        assert(ctx.spec_geth_data() =~= spec_ctx_of(args.model())) by {
            assert(ctx.trace@ =~= spec_trace_of(args.model()));
        }
    }
    let params = CapacityParams {
        max_rws: 64,
        max_copy_rows: 512,
        max_calldata: 64,
        max_bytecode: 128,
        max_rlp_rows: 64,
        max_inner_blocks: 0,
        max_exp_steps: 0,
        max_mpt_rows: 0,
    };
    ErasedCircuitTestBuilder::new_from_test_ctx(ctx).params(params)
}

impl FuzzerCaseGenerator for CalldataCopyRootFuzzer {
    open spec fn spec_name(&self) -> Seq<char> {
        "calldatacopy-root"@
    }

    fn name(&self) -> (r: String) {
        "calldatacopy-root".to_owned()
    }

    /// Draw one set of arguments and build the matching job. The job's
    /// outcome is a function of the drawn arguments alone, the input kept
    /// in the case is exactly what the failure record serializes, and a
    /// witness drawn inside the declared domain verifies cleanly.
    fn gen_test_case(&self, rng: &mut rand::rngs::StdRng) -> (r: FuzzerCase)
        ensures
            r.input matches CaseInput::CalldataCopyRoot(args) && args.wf()
                && r.test_builder.spec_outcome() == spec_case_outcome(args.model()),
            r.test_builder.spec_outcome() == Ok::<(), Seq<VerifyFailure>>(()),
    {
        let args = CalldataCopyRootArgs::from_rng(rng);
        let builder = case_builder(&args);
        proof {
            lemma_generated_case_passes(args.model());
        }
        FuzzerCase::new(CaseInput::CalldataCopyRoot(args), builder)
    }
}

/// Replay a captured failure record: decode the serialized input, rebuild
/// the job it came from and run it. Returns the verification outcome
/// exactly on the byte strings that encode a trial, and that outcome is
/// the one the original trial had.
pub fn replay(encoded: &Vec<u8>) -> (r: Option<Result<(), Vec<VerifyFailure>>>)
    ensures
        r is Some <==> valid_encoding(encoded@),
        match r {
            Some(out) => forall|a: CalldataCopyRootArgs|
                a.wf() && spec_encode(a) == encoded@ ==> result_view(out) == spec_case_outcome(
                    a.model(),
                ),
            None => true,
        },
{
    match CalldataCopyRootArgs::decode(encoded) {
        None => None,
        Some(args) => {
            let builder = case_builder(&args);
            let out = builder.run_catch();
            proof {
                assert forall|a: CalldataCopyRootArgs|
                    a.wf() && spec_encode(a) == encoded@ implies result_view(out)
                    == spec_case_outcome(a.model()) by {
                    lemma_encode_determines_model(a, args);
                }
            }
            Some(out)
        },
    }
}

/// Deterministic replay: trials whose failure records hold the same bytes
/// have the same verification outcome — the randomness lives only in
/// generation, never in verification.
pub proof fn lemma_deterministic_replay(a: CalldataCopyRootArgs, b: CalldataCopyRootArgs)
    requires
        a.wf(),
        b.wf(),
        spec_encode(a) == spec_encode(b),
    ensures
        spec_case_outcome(a.model()) == spec_case_outcome(b.model()),
{
    lemma_encode_determines_model(a, b);
}

/// A witness generated inside the declared domain holds no violations and
/// fits the declared capacity, so its verification passes.
pub proof fn lemma_generated_case_passes(m: ArgsModel)
    requires
        m.length < crate::calldatacopy::MAX_CALLDATA_WORD,
    ensures
        spec_case_outcome(m) == Ok::<(), Seq<VerifyFailure>>(()),
{
    let v = block_view_of_geth(spec_ctx_of(m), spec_case_params());
    assert(v.flaws =~= Seq::<VerifyFailure>::empty());
    assert(v.non_start_rw_rows <= 10);
}

} // verus!
