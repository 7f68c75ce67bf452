use rand::SeedableRng;
use zkevm_fuzzer::engine::{
    next_period_boundary, snapshot, worker_count, FuzzerCounters, FuzzerWorker,
};
use zkevm_fuzzer::fuzzer::{FuzzerCaseGenerator, ScriptedFuzzer};
use zkevm_fuzzer::pipeline::{Block, CapacityParams, Stage, VerifyFailure};
use zkevm_fuzzer::registry::{AnyGenerator, FuzzerRegistry};

fn small_params(max_rws: usize) -> CapacityParams {
    CapacityParams {
        max_rws,
        max_copy_rows: 0,
        max_calldata: 0,
        max_bytecode: 0,
        max_rlp_rows: 0,
        max_inner_blocks: 0,
        max_exp_steps: 0,
        max_mpt_rows: 0,
    }
}

fn failing_block() -> Block {
    Block {
        circuits_params: small_params(10),
        gate_rows: vec![0, 1],
        lookup_rows: vec![],
        non_start_rw_rows: 2,
        copy_active_rows: 3,
        flaws: vec![VerifyFailure { stage: Stage::Evm, row: 1 }],
    }
}

fn passing_block() -> Block {
    Block {
        circuits_params: small_params(10),
        gate_rows: vec![0, 1],
        lookup_rows: vec![],
        non_start_rw_rows: 2,
        copy_active_rows: 3,
        flaws: vec![],
    }
}

fn scripted(label: &str, block: Block) -> AnyGenerator {
    AnyGenerator::Scripted(ScriptedFuzzer { label: label.to_owned(), block })
}

#[test]
fn registry_names_are_unique() {
    let registry = FuzzerRegistry::compiled_in();
    let names = registry.names();
    assert_eq!(names, vec!["calldatacopy-root".to_owned()]);

    let mut registry = FuzzerRegistry::compiled_in();
    let duplicate = scripted("calldatacopy-root", passing_block());
    assert!(registry.register(duplicate).is_err());
    assert_eq!(registry.len(), 1);

    let fresh = scripted("scripted-pass", passing_block());
    assert!(registry.register(fresh).is_ok());
    assert_eq!(registry.len(), 2);
    let second_copy = scripted("scripted-pass", failing_block());
    assert!(registry.register(second_copy).is_err());
    assert_eq!(registry.len(), 2);
}

#[test]
fn registry_lookup_by_name() {
    let mut registry = FuzzerRegistry::compiled_in();
    registry
        .register(scripted("scripted-pass", passing_block()))
        .unwrap();
    let found = registry.get(&"calldatacopy-root".to_owned()).unwrap();
    assert_eq!(found.name(), "calldatacopy-root".to_owned());
    let found = registry.get(&"scripted-pass".to_owned()).unwrap();
    assert_eq!(found.name(), "scripted-pass".to_owned());
    assert!(registry.get(&"no-such-generator".to_owned()).is_none());
}

#[test]
fn counters_stay_monotonic() {
    let mut counters = FuzzerCounters::new(2);
    assert_eq!(counters.failed, vec![0, 0]);
    assert_eq!(counters.total, vec![0, 0]);

    counters.record_trial(0, false);
    assert_eq!(counters.failed, vec![0, 0]);
    assert_eq!(counters.total, vec![1, 0]);

    counters.record_trial(0, true);
    counters.record_trial(1, true);
    assert_eq!(counters.failed, vec![1, 1]);
    assert_eq!(counters.total, vec![2, 1]);

    for i in 0..counters.failed.len() {
        assert!(counters.failed[i] <= counters.total[i]);
    }
}

#[test]
fn one_failure_record_per_failing_trial() {
    let mut registry = FuzzerRegistry::new();
    registry
        .register(scripted("scripted-fail", failing_block()))
        .unwrap();
    let mut counters = FuzzerCounters::new(1);
    let mut rng = rand::rngs::StdRng::seed_from_u64(7);

    let reports = FuzzerWorker::run_trials(&registry, &mut counters, &mut rng, false, 10);
    assert_eq!(reports.len(), 10);
    assert_eq!(counters.failed, vec![10]);
    assert_eq!(counters.total, vec![10]);
    for report in &reports {
        assert_eq!(report.fuzzer_name, "scripted-fail".to_owned());
    }
}

#[test]
fn passing_trials_leave_no_record() {
    let mut registry = FuzzerRegistry::new();
    registry
        .register(scripted("scripted-pass", passing_block()))
        .unwrap();
    let mut counters = FuzzerCounters::new(1);
    let mut rng = rand::rngs::StdRng::seed_from_u64(7);

    let reports = FuzzerWorker::run_trials(&registry, &mut counters, &mut rng, false, 10);
    assert_eq!(reports.len(), 0);
    assert_eq!(counters.failed, vec![0]);
    assert_eq!(counters.total, vec![10]);
}

#[test]
fn stop_flag_set_before_start_runs_nothing() {
    let registry = FuzzerRegistry::compiled_in();
    let mut counters = FuzzerCounters::new(1);
    let mut rng = rand::rngs::StdRng::seed_from_u64(7);

    let reports = FuzzerWorker::run_trials(&registry, &mut counters, &mut rng, true, 10);
    assert_eq!(reports.len(), 0);
    assert_eq!(counters.failed, vec![0]);
    assert_eq!(counters.total, vec![0]);
}

#[test]
fn single_step_accounts_one_trial() {
    let registry = FuzzerRegistry::compiled_in();
    let mut counters = FuzzerCounters::new(1);
    let mut rng = rand::rngs::StdRng::seed_from_u64(1);

    let report = FuzzerWorker::step(&registry, &mut counters, &mut rng);
    assert!(report.is_none());
    assert_eq!(counters.failed, vec![0]);
    assert_eq!(counters.total, vec![1]);
}

#[test]
fn snapshot_mirrors_counters() {
    let mut registry = FuzzerRegistry::compiled_in();
    registry
        .register(scripted("scripted-fail", failing_block()))
        .unwrap();
    let mut counters = FuzzerCounters::new(2);
    counters.record_trial(1, true);
    counters.record_trial(1, false);

    let lines = snapshot(&registry, &counters);
    assert_eq!(lines.len(), 2);
    assert_eq!(lines[0].fuzzer_name, "calldatacopy-root".to_owned());
    assert_eq!(lines[0].failed, 0);
    assert_eq!(lines[0].total, 0);
    assert_eq!(lines[1].fuzzer_name, "scripted-fail".to_owned());
    assert_eq!(lines[1].failed, 1);
    assert_eq!(lines[1].total, 2);
}

#[test]
fn worker_count_reserves_one_unit() {
    assert_eq!(worker_count(1), 1);
    assert_eq!(worker_count(2), 1);
    assert_eq!(worker_count(8), 7);
}

#[test]
fn period_boundaries_do_not_drift() {
    assert_eq!(next_period_boundary(0, 10, 0), 10);
    assert_eq!(next_period_boundary(0, 10, 9), 10);
    assert_eq!(next_period_boundary(0, 10, 10), 20);
    assert_eq!(next_period_boundary(0, 10, 25), 30);
    assert_eq!(next_period_boundary(5, 10, 25), 35);
}

#[test]
fn mixed_registry_accounts_failures_per_generator() {
    let mut registry = FuzzerRegistry::new();
    registry
        .register(scripted("scripted-fail", failing_block()))
        .unwrap();
    registry
        .register(scripted("scripted-pass", passing_block()))
        .unwrap();
    let mut counters = FuzzerCounters::new(2);
    let mut rng = rand::rngs::StdRng::seed_from_u64(3);

    let reports = FuzzerWorker::run_trials(&registry, &mut counters, &mut rng, false, 50);
    let failing_records = reports
        .iter()
        .filter(|r| r.fuzzer_name == "scripted-fail")
        .count();
    assert_eq!(failing_records, reports.len());
    assert_eq!(counters.failed[0] as usize, reports.len());
    assert_eq!(counters.failed[1], 0);
    assert_eq!(counters.total[0] + counters.total[1], 50);
}
