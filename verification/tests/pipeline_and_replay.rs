use rand::SeedableRng;
use zkevm_fuzzer::calldatacopy::CalldataCopyRootArgs;
use zkevm_fuzzer::calldatacopy_root::{replay, CalldataCopyRootFuzzer};
use zkevm_fuzzer::fuzzer::{CaseInput, FuzzerCase, FuzzerCaseGenerator};
use zkevm_fuzzer::input::{FromRng, RandomBytes, RandomWord};
use zkevm_fuzzer::pipeline::{
    log2_ceil, Block, BlockModifier, CapacityParams, CheckFunction, ErasedCircuitTestBuilder,
    Stage, TestContext, TestContextType, TraceSummary, VerifyFailure,
};
use zkevm_fuzzer::word::Word;
use zkevm_fuzzer::ArbitraryVec;

fn small_params(max_rws: usize) -> CapacityParams {
    CapacityParams {
        max_rws,
        max_copy_rows: 0,
        max_calldata: 0,
        max_bytecode: 0,
        max_rlp_rows: 0,
        max_inner_blocks: 0,
        max_exp_steps: 0,
        max_mpt_rows: 0,
    }
}

fn block_with_flaws(flaws: Vec<VerifyFailure>) -> Block {
    Block {
        circuits_params: small_params(10),
        gate_rows: vec![0, 1, 2],
        lookup_rows: vec![],
        non_start_rw_rows: 4,
        copy_active_rows: 5,
        flaws,
    }
}

#[test]
fn stage_short_circuit_returns_only_first_stage() {
    // Every stage has a flaw inside its window; only the first stage's
    // failures come back.
    let flaws = vec![
        VerifyFailure { stage: Stage::Evm, row: 1 },
        VerifyFailure { stage: Stage::State, row: 8 },
        VerifyFailure { stage: Stage::Copy, row: 2 },
    ];
    let result = ErasedCircuitTestBuilder::new_from_block(block_with_flaws(flaws)).run_catch();
    let failures = result.unwrap_err();
    assert_eq!(failures, vec![VerifyFailure { stage: Stage::Evm, row: 1 }]);
    for failure in &failures {
        assert_eq!(failure.stage, Stage::Evm);
    }
}

#[test]
fn later_stages_run_when_earlier_ones_pass() {
    let flaws = vec![
        VerifyFailure { stage: Stage::State, row: 8 },
        VerifyFailure { stage: Stage::Copy, row: 2 },
    ];
    let result = ErasedCircuitTestBuilder::new_from_block(block_with_flaws(flaws)).run_catch();
    assert_eq!(
        result.unwrap_err(),
        vec![VerifyFailure { stage: Stage::State, row: 8 }]
    );

    let flaws = vec![VerifyFailure { stage: Stage::Copy, row: 2 }];
    let result = ErasedCircuitTestBuilder::new_from_block(block_with_flaws(flaws)).run_catch();
    assert_eq!(
        result.unwrap_err(),
        vec![VerifyFailure { stage: Stage::Copy, row: 2 }]
    );

    let result = ErasedCircuitTestBuilder::new_from_block(block_with_flaws(vec![])).run_catch();
    assert!(result.is_ok());
}

#[test]
fn flaws_outside_the_checked_windows_are_not_reported() {
    // Row 9 is not an active gate row, state row 3 sits in the padding
    // before the trailing window [6, 10), and copy row 7 is past the five
    // active rows.
    let flaws = vec![
        VerifyFailure { stage: Stage::Evm, row: 9 },
        VerifyFailure { stage: Stage::State, row: 3 },
        VerifyFailure { stage: Stage::Copy, row: 7 },
    ];
    let result = ErasedCircuitTestBuilder::new_from_block(block_with_flaws(flaws)).run_catch();
    assert!(result.is_ok());
}

#[test]
fn accept_all_checks_mask_a_stage() {
    let flaws = vec![VerifyFailure { stage: Stage::Evm, row: 1 }];
    let result = ErasedCircuitTestBuilder::new_from_block(block_with_flaws(flaws))
        .evm_checks(CheckFunction::AcceptAll)
        .run_catch();
    assert!(result.is_ok());
}

fn quiet_ctx(rw_ops: usize) -> TestContext {
    TestContext {
        chain_id: 1337,
        block_number: 0xcafe,
        calldata: vec![],
        trace: TraceSummary { evm_rows: 2, rw_ops, copy_rows: 0, flaws: vec![] },
    }
}

#[test]
fn undersized_capacity_reports_the_boundary() {
    // Twenty used state rows against a declared capacity of ten.
    let result = ErasedCircuitTestBuilder::new_from_test_ctx(quiet_ctx(20))
        .params(small_params(10))
        .run_catch();
    assert_eq!(
        result.unwrap_err(),
        vec![VerifyFailure { stage: Stage::State, row: 10 }]
    );
}

#[test]
fn block_modifiers_apply_in_order() {
    let injected = VerifyFailure { stage: Stage::Evm, row: 0 };
    let result = ErasedCircuitTestBuilder::new_from_test_ctx(quiet_ctx(2))
        .params(small_params(10))
        .block_modifier(BlockModifier::InjectFlaw(injected))
        .run_catch();
    assert_eq!(result.unwrap_err(), vec![injected]);

    let result = ErasedCircuitTestBuilder::new_from_test_ctx(quiet_ctx(2))
        .params(small_params(10))
        .block_modifier(BlockModifier::InjectFlaw(injected))
        .block_modifier(BlockModifier::ClearFlaws)
        .run_catch();
    assert!(result.is_ok());
}

#[test]
fn to_geth_data_carries_the_context_over() {
    let ctx = TestContext {
        chain_id: 1337,
        block_number: 0xcafe,
        calldata: vec![1, 2, 3],
        trace: TraceSummary { evm_rows: 5, rw_ops: 7, copy_rows: 6, flaws: vec![] },
    };
    let gd = ctx.to_geth_data();
    assert_eq!(gd.chain_id, 1337);
    assert_eq!(gd.block_number, 0xcafe);
    assert_eq!(gd.calldata, vec![1, 2, 3]);
    assert_eq!(gd.trace.evm_rows, 5);
    assert_eq!(gd.trace.rw_ops, 7);
    assert_eq!(gd.trace.copy_rows, 6);
    assert!(gd.trace.flaws.is_empty());
}

#[test]
fn generated_blob_respects_the_declared_bound() {
    // The calldata bound is 64 bytes; a fixed seed reproduces the draw.
    let mut rng = rand::rngs::StdRng::seed_from_u64(42);
    let args = CalldataCopyRootArgs::from_rng(&mut rng);
    assert!(args.calldata.0.len() <= 64);
    assert!(args.length.0.limb0 < 128);
    assert!(args.data_offset.0.limb0 < 128);
    assert!(args.memory_offset.0.limb0 < 128);

    let mut rng_again = rand::rngs::StdRng::seed_from_u64(42);
    let again = CalldataCopyRootArgs::from_rng(&mut rng_again);
    assert_eq!(args.calldata.0, again.calldata.0);
    assert_eq!(args.length.0, again.length.0);
    assert_eq!(args.data_offset.0, again.data_offset.0);
    assert_eq!(args.memory_offset.0, again.memory_offset.0);
}

#[test]
fn generated_case_passes_and_replays() {
    let mut rng = rand::rngs::StdRng::seed_from_u64(11);
    let case = CalldataCopyRootFuzzer.gen_test_case(&mut rng);
    let encoded = case.input.serialize();

    // Running the job consumes it: `run_catch` takes the builder by value,
    // so a second run of the same job does not compile.
    let original_outcome = case.test_builder.run_catch();
    let replayed_outcome = replay(&encoded).expect("a captured record always replays");
    assert_eq!(original_outcome, replayed_outcome);
    assert!(replayed_outcome.is_ok());
}

#[test]
fn replay_rejects_bytes_that_are_no_record() {
    assert!(replay(&vec![]).is_none());
    assert!(replay(&vec![200]).is_none());
    assert!(replay(&vec![0; 10]).is_none());
}

#[test]
fn encoding_is_exact_and_round_trips() {
    let args = CalldataCopyRootArgs {
        calldata: RandomBytes(vec![9, 8, 7]),
        length: RandomWord(Word::from_u64(5)),
        data_offset: RandomWord(Word::from_u64(64)),
        memory_offset: RandomWord(Word::from_u64(127)),
    };
    let encoded = args.encode();
    let mut expected = vec![3u8, 9, 8, 7];
    expected.extend_from_slice(&5u64.to_le_bytes());
    expected.extend_from_slice(&64u64.to_le_bytes());
    expected.extend_from_slice(&127u64.to_le_bytes());
    assert_eq!(encoded, expected);

    let decoded = CalldataCopyRootArgs::decode(&encoded).unwrap();
    assert_eq!(decoded.calldata.0, vec![9, 8, 7]);
    assert_eq!(decoded.length.0, Word::from_u64(5));
    assert_eq!(decoded.data_offset.0, Word::from_u64(64));
    assert_eq!(decoded.memory_offset.0, Word::from_u64(127));

    // An operand outside the declared range is rejected.
    let mut oversized = encoded.clone();
    oversized[4] = 200;
    assert!(CalldataCopyRootArgs::decode(&oversized).is_none());
}

#[test]
fn scripted_case_input_serializes_empty() {
    let case = FuzzerCase::new(
        CaseInput::Scripted,
        ErasedCircuitTestBuilder::new_from_block(block_with_flaws(vec![])),
    );
    assert!(case.input.serialize().is_empty());
}

#[test]
fn word_low_bits_round_trip() {
    let w = Word::from_u64(0xdead_beef);
    assert_eq!(w.limb0, 0xdead_beef);
    assert_eq!(w.limb1, 0);
    assert_eq!(w.low_u64(), 0xdead_beef);
}

#[test]
fn log2_ceil_exact_values() {
    assert_eq!(log2_ceil(0), 0);
    assert_eq!(log2_ceil(1), 0);
    assert_eq!(log2_ceil(2), 1);
    assert_eq!(log2_ceil(3), 2);
    assert_eq!(log2_ceil(64), 6);
    assert_eq!(log2_ceil(65), 7);
}

#[test]
fn degree_covers_active_and_blinding_rows() {
    let block = block_with_flaws(vec![]);
    // Three active rows plus sixty-four blinding rows need degree seven.
    assert_eq!(block.get_test_degree(), 7);
}

#[test]
fn arbitrary_vec_takes_a_bounded_prefix() {
    let pool = vec![1u8, 2, 3];
    let v: ArbitraryVec<4> = ArbitraryVec::from_unstructured(5, &pool);
    assert_eq!(v.0, vec![1]);
    let v: ArbitraryVec<4> = ArbitraryVec::from_unstructured(3, &pool);
    assert_eq!(v.0, vec![1, 2, 3]);
    let v: ArbitraryVec<64> = ArbitraryVec::from_unstructured(10, &pool);
    assert_eq!(v.0, vec![1, 2, 3]);
    assert_eq!(ArbitraryVec::<64>::size_hint(), (8, Some(72)));
}
