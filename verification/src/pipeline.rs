//! The verification pipeline a job runs against.
//!
//! A job carries a witness: the rows each of the three circuits would look
//! at, together with the constraint violations ("flaws") present in it. The
//! three stages check, in order, the execution trace, the trailing window of
//! state rows actually used, and the active data-movement rows; the run
//! stops at the first stage that reports failures. A stage whose witness
//! does not fit the declared capacity reports one failure at the capacity
//! boundary, surfaced the same way as a genuine violation.

use vstd::prelude::*;

verus! {

/// The three independent verification stages, in the order they run.
#[derive(Clone, Copy, Debug, PartialEq, Eq, Structural)]
pub enum Stage {
    Evm,
    State,
    Copy,
}

/// One located failure: the stage that reported it and the row it sits on.
#[derive(Clone, Copy, Debug, PartialEq, Eq, Structural)]
pub struct VerifyFailure {
    pub stage: Stage,
    pub row: usize,
}

/// The declared capacity a job is built against.
#[derive(Clone, Copy, Debug, PartialEq, Eq, Structural)]
pub struct CapacityParams {
    pub max_rws: usize,
    pub max_copy_rows: usize,
    pub max_calldata: usize,
    pub max_bytecode: usize,
    pub max_rlp_rows: usize,
    pub max_inner_blocks: usize,
    pub max_exp_steps: usize,
    pub max_mpt_rows: usize,
}

impl CapacityParams {
    /// The capacity a job falls back to when none is declared: everything
    /// zero, so any non-empty witness is reported as out of capacity.
    pub open spec fn spec_default() -> CapacityParams {
        CapacityParams {
            max_rws: 0,
            max_copy_rows: 0,
            max_calldata: 0,
            max_bytecode: 0,
            max_rlp_rows: 0,
            max_inner_blocks: 0,
            max_exp_steps: 0,
            max_mpt_rows: 0,
        }
    }
}

impl Default for CapacityParams {
    fn default() -> (r: Self)
        ensures
            r == CapacityParams::spec_default(),
    {
        CapacityParams {
            max_rws: 0,
            max_copy_rows: 0,
            max_calldata: 0,
            max_bytecode: 0,
            max_rlp_rows: 0,
            max_inner_blocks: 0,
            max_exp_steps: 0,
            max_mpt_rows: 0,
        }
    }
}

/// How a stage judges its prover rows: the usual row-by-row verification,
/// or a stand-in that accepts everything.
#[derive(Clone, Copy, Debug, PartialEq, Eq, Structural)]
pub enum CheckFunction {
    VerifyAtRows,
    AcceptAll,
}

/// A change applied to the witness block before the stages run.
#[derive(Clone, Copy, Debug, PartialEq, Eq, Structural)]
pub enum BlockModifier {
    InjectFlaw(VerifyFailure),
    ClearFlaws,
}

/// The witness block the stages read.
#[derive(Debug, Clone)]
pub struct Block {
    pub circuits_params: CapacityParams,
    /// Active gate rows of the execution-trace circuit.
    pub gate_rows: Vec<usize>,
    /// Active lookup rows of the execution-trace circuit.
    pub lookup_rows: Vec<usize>,
    /// State rows actually used, i.e. not padding.
    pub non_start_rw_rows: usize,
    /// Active rows of the data-movement circuit.
    pub copy_active_rows: usize,
    /// The constraint violations present in the witness.
    pub flaws: Vec<VerifyFailure>,
}

/// The mathematical content of a witness block.
#[verifier::ext_equal]
pub struct BlockView {
    pub circuits_params: CapacityParams,
    pub gate_rows: Seq<usize>,
    pub lookup_rows: Seq<usize>,
    pub non_start_rw_rows: usize,
    pub copy_active_rows: usize,
    pub flaws: Seq<VerifyFailure>,
}

impl View for Block {
    type V = BlockView;

    open spec fn view(&self) -> BlockView {
        BlockView {
            circuits_params: self.circuits_params,
            gate_rows: self.gate_rows@,
            lookup_rows: self.lookup_rows@,
            non_start_rw_rows: self.non_start_rw_rows,
            copy_active_rows: self.copy_active_rows,
            flaws: self.flaws@,
        }
    }
}

/// Whether `row` lies inside the window `stage` verifies.
pub open spec fn row_checked(v: BlockView, params: CapacityParams, stage: Stage, row: usize) -> bool {
    match stage {
        Stage::Evm => v.gate_rows.contains(row) || v.lookup_rows.contains(row),
        Stage::State => params.max_rws - v.non_start_rw_rows <= (row as int) && (row as int)
            < params.max_rws as int,
        Stage::Copy => (row as int) < v.copy_active_rows as int,
    }
}

/// Whether the witness outgrows the capacity `stage` was declared with:
/// only the state stage sizes its window from the declared capacity.
pub open spec fn stage_undersized(v: BlockView, params: CapacityParams, stage: Stage) -> bool {
    stage == Stage::State && v.non_start_rw_rows > params.max_rws
}

/// The one failure an out-of-capacity stage reports, at the capacity
/// boundary.
pub open spec fn capacity_failure(params: CapacityParams, stage: Stage) -> VerifyFailure {
    VerifyFailure { stage, row: params.max_rws }
}

/// The flaws of `stage` that lie inside its verified window, in witness
/// order.
pub open spec fn matching_flaws(
    flaws: Seq<VerifyFailure>,
    v: BlockView,
    params: CapacityParams,
    stage: Stage,
) -> Seq<VerifyFailure>
    decreases flaws.len(),
{
    if flaws.len() == 0 {
        Seq::empty()
    } else {
        let rest = matching_flaws(flaws.drop_last(), v, params, stage);
        let f = flaws.last();
        if f.stage == stage && row_checked(v, params, stage, f.row) {
            rest.push(f)
        } else {
            rest
        }
    }
}

/// What one stage reports on a witness.
pub open spec fn stage_report(
    v: BlockView,
    params: CapacityParams,
    stage: Stage,
    check: CheckFunction,
) -> Seq<VerifyFailure> {
    match check {
        CheckFunction::AcceptAll => Seq::empty(),
        CheckFunction::VerifyAtRows => if stage_undersized(v, params, stage) {
            seq![capacity_failure(params, stage)]
        } else {
            matching_flaws(v.flaws, v, params, stage)
        },
    }
}

/// The whole pipeline: the stages in order, stopping at the first one that
/// reports failures.
pub open spec fn spec_pipeline(
    v: BlockView,
    params: CapacityParams,
    evm_checks: CheckFunction,
    state_checks: CheckFunction,
    copy_checks: CheckFunction,
) -> Result<(), Seq<VerifyFailure>> {
    let evm = stage_report(v, params, Stage::Evm, evm_checks);
    let state = stage_report(v, params, Stage::State, state_checks);
    let copy = stage_report(v, params, Stage::Copy, copy_checks);
    if evm.len() > 0 {
        Err(evm)
    } else if state.len() > 0 {
        Err(state)
    } else if copy.len() > 0 {
        Err(copy)
    } else {
        Ok(())
    }
}

/// Every failure a stage reports carries that stage's tag.
pub proof fn lemma_matching_flaws_tagged(
    flaws: Seq<VerifyFailure>,
    v: BlockView,
    params: CapacityParams,
    stage: Stage,
)
    ensures
        forall|k: int|
            0 <= k < matching_flaws(flaws, v, params, stage).len() ==> matching_flaws(
                flaws,
                v,
                params,
                stage,
            )[k].stage == stage,
    decreases flaws.len(),
{
    if flaws.len() > 0 {
        lemma_matching_flaws_tagged(flaws.drop_last(), v, params, stage);
    }
}

/// Stage short-circuit: when the first stage reports failures, the pipeline
/// returns exactly that report, and every entry in it carries the first
/// stage's tag — the later stages contribute nothing.
pub proof fn lemma_stage_short_circuit(
    v: BlockView,
    params: CapacityParams,
    evm_checks: CheckFunction,
    state_checks: CheckFunction,
    copy_checks: CheckFunction,
)
    requires
        stage_report(v, params, Stage::Evm, evm_checks).len() > 0,
    ensures
        spec_pipeline(v, params, evm_checks, state_checks, copy_checks) == Err::<
            (),
            Seq<VerifyFailure>,
        >(stage_report(v, params, Stage::Evm, evm_checks)),
        forall|k: int|
            0 <= k < stage_report(v, params, Stage::Evm, evm_checks).len() ==> stage_report(
                v,
                params,
                Stage::Evm,
                evm_checks,
            )[k].stage == Stage::Evm,
{
    lemma_matching_flaws_tagged(v.flaws, v, params, Stage::Evm);
}

/// The summary of one traced execution: how many rows each circuit needs
/// and which violations the witness holds.
#[derive(Debug, Clone)]
pub struct TraceSummary {
    /// Active rows of the execution-trace circuit.
    pub evm_rows: usize,
    /// State rows actually used, i.e. not padding.
    pub rw_ops: usize,
    /// Active rows of the data-movement circuit.
    pub copy_rows: usize,
    /// The constraint violations present in the witness.
    pub flaws: Vec<VerifyFailure>,
}

/// The mathematical content of a trace summary.
#[verifier::ext_equal]
pub struct TraceSummaryView {
    pub evm_rows: usize,
    pub rw_ops: usize,
    pub copy_rows: usize,
    pub flaws: Seq<VerifyFailure>,
}

impl View for TraceSummary {
    type V = TraceSummaryView;

    open spec fn view(&self) -> TraceSummaryView {
        TraceSummaryView {
            evm_rows: self.evm_rows,
            rw_ops: self.rw_ops,
            copy_rows: self.copy_rows,
            flaws: self.flaws@,
        }
    }
}

/// The execution context one trial is built in.
#[derive(Debug, Clone)]
pub struct TestContext {
    pub chain_id: u64,
    pub block_number: u64,
    pub calldata: Vec<u8>,
    pub trace: TraceSummary,
}

/// The block data handed to the witness builder.
#[derive(Debug, Clone)]
pub struct GethData {
    pub chain_id: u64,
    pub block_number: u64,
    pub calldata: Vec<u8>,
    pub trace: TraceSummary,
}

/// The mathematical content of the block data.
#[verifier::ext_equal]
pub struct GethDataView {
    pub chain_id: u64,
    pub block_number: u64,
    pub calldata: Seq<u8>,
    pub trace: TraceSummaryView,
}

impl View for GethData {
    type V = GethDataView;

    open spec fn view(&self) -> GethDataView {
        GethDataView {
            chain_id: self.chain_id,
            block_number: self.block_number,
            calldata: self.calldata@,
            trace: self.trace@,
        }
    }
}

/// A context that can hand out its block data.
pub trait TestContextType {
    spec fn spec_geth_data(&self) -> GethDataView;

    fn to_geth_data(&self) -> (r: GethData)
        ensures
            r@ == self.spec_geth_data(),
    ;
}

/// A copy of a vector of plain values.
pub(crate) fn copy_vec<T: Copy>(v: &Vec<T>) -> (r: Vec<T>)
    ensures
        r@ == v@,
{
    let mut out: Vec<T> = Vec::new();
    let mut i: usize = 0;
    while i < v.len()
        invariant
            i <= v@.len(),
            out@ == v@.take(i as int),
        decreases v@.len() - i,
    {
        out.push(v[i]);
        assert(out@ =~= v@.take(i + 1 as int));
        i = i + 1;
    }
    assert(out@ =~= v@);
    out
}

impl TestContextType for TestContext {
    open spec fn spec_geth_data(&self) -> GethDataView {
        GethDataView {
            chain_id: self.chain_id,
            block_number: self.block_number,
            calldata: self.calldata@,
            trace: self.trace@,
        }
    }

    fn to_geth_data(&self) -> (r: GethData) {
        GethData {
            chain_id: self.chain_id,
            block_number: self.block_number,
            calldata: copy_vec(&self.calldata),
            trace: TraceSummary {
                evm_rows: self.trace.evm_rows,
                rw_ops: self.trace.rw_ops,
                copy_rows: self.trace.copy_rows,
                flaws: copy_vec(&self.trace.flaws),
            },
        }
    }
}

/// A context of any concrete shape, kept only for its block data.
#[derive(Debug, Clone)]
pub struct ErasedTestContext(pub TestContext);

impl View for ErasedTestContext {
    type V = GethDataView;

    open spec fn view(&self) -> GethDataView {
        self.0.spec_geth_data()
    }
}

impl From<TestContext> for ErasedTestContext {
    fn from(ctx: TestContext) -> (r: Self) {
        ErasedTestContext(ctx)
    }
}

impl vstd::std_specs::convert::FromSpecImpl<TestContext> for ErasedTestContext {
    open spec fn obeys_from_spec() -> bool {
        true
    }

    open spec fn from_spec(ctx: TestContext) -> Self {
        ErasedTestContext(ctx)
    }
}

impl ErasedTestContext {
    pub fn to_geth_data(&self) -> (r: GethData)
        ensures
            r@ == self@,
    {
        self.0.to_geth_data()
    }
}

/// The witness block a given block data and capacity produce: both
/// execution-trace row lists cover the active rows in order, and the counts
/// and flaws are carried over.
pub open spec fn block_view_of_geth(g: GethDataView, params: CapacityParams) -> BlockView {
    BlockView {
        circuits_params: params,
        gate_rows: Seq::new(g.trace.evm_rows as nat, |i: int| i as usize),
        lookup_rows: Seq::new(g.trace.evm_rows as nat, |i: int| i as usize),
        non_start_rw_rows: g.trace.rw_ops,
        copy_active_rows: g.trace.copy_rows,
        flaws: g.trace.flaws,
    }
}

/// One modifier applied to a witness block.
pub open spec fn apply_modifier(v: BlockView, m: BlockModifier) -> BlockView {
    match m {
        BlockModifier::InjectFlaw(f) => BlockView { flaws: v.flaws.push(f), ..v },
        BlockModifier::ClearFlaws => BlockView { flaws: Seq::empty(), ..v },
    }
}

/// All modifiers applied in order.
pub open spec fn apply_modifiers(v: BlockView, ms: Seq<BlockModifier>) -> BlockView
    decreases ms.len(),
{
    if ms.len() == 0 {
        v
    } else {
        apply_modifier(apply_modifiers(v, ms.drop_last()), ms.last())
    }
}

/// The exec result seen as its mathematical content.
pub open spec fn result_view(r: Result<(), Vec<VerifyFailure>>) -> Result<(), Seq<VerifyFailure>> {
    match r {
        Ok(_) => Ok(()),
        Err(v) => Err(v@),
    }
}

/// Linear membership test over a row list.
fn vec_contains(v: &Vec<usize>, x: usize) -> (r: bool)
    ensures
        r == v@.contains(x),
{
    let mut i: usize = 0;
    while i < v.len()
        invariant
            i <= v@.len(),
            forall|k: int| 0 <= k < i ==> v@[k] != x,
        decreases v@.len() - i,
    {
        if v[i] == x {
            return true;
        }
        i = i + 1;
    }
    assert(!v@.contains(x));
    false
}

/// Whether `row` lies inside the window `stage` verifies.
fn row_checked_exec(block: &Block, params: CapacityParams, stage: Stage, row: usize) -> (r: bool)
    ensures
        r == row_checked(block@, params, stage, row),
{
    match stage {
        Stage::Evm => vec_contains(&block.gate_rows, row) || vec_contains(&block.lookup_rows, row),
        Stage::State => (row as u128) + (block.non_start_rw_rows as u128) >= (params.max_rws
            as u128) && row < params.max_rws,
        Stage::Copy => row < block.copy_active_rows,
    }
}

/// Run one stage on the witness; the result is exactly the stage's report.
fn run_stage(block: &Block, params: CapacityParams, stage: Stage, check: CheckFunction) -> (r: Vec<
    VerifyFailure,
>)
    ensures
        r@ == stage_report(block@, params, stage, check),
{
    match check {
        CheckFunction::AcceptAll => Vec::new(),
        CheckFunction::VerifyAtRows => {
            if stage == Stage::State && block.non_start_rw_rows > params.max_rws {
                let mut out: Vec<VerifyFailure> = Vec::new();
                out.push(VerifyFailure { stage, row: params.max_rws });
                assert(out@ =~= seq![capacity_failure(params, stage)]);
                out
            } else {
                let mut out: Vec<VerifyFailure> = Vec::new();
                let n = block.flaws.len();
                let mut i: usize = 0;
                while i < n
                    invariant
                        i <= n,
                        n == block@.flaws.len(),
                        out@ == matching_flaws(block@.flaws.take(i as int), block@, params, stage),
                    decreases n - i,
                {
                    let f = block.flaws[i];
                    proof {
                        assert(block@.flaws.take(i + 1 as int).drop_last() =~= block@.flaws.take(
                            i as int,
                        ));
                        assert(block@.flaws.take(i + 1 as int).last() == block@.flaws[i as int]);
                    }
                    if f.stage == stage && row_checked_exec(block, params, stage, f.row) {
                        out.push(f);
                    }
                    i = i + 1;
                }
                assert(block@.flaws.take(n as int) =~= block@.flaws);
                out
            }
        },
    }
}

/// A job builder over an erased execution context: the context or a ready
/// witness block, the declared capacity, the per-stage check functions and
/// the queued witness modifiers.
#[derive(Debug)]
pub struct ErasedCircuitTestBuilder {
    pub test_ctx: Option<ErasedTestContext>,
    pub circuits_params: Option<CapacityParams>,
    pub block: Option<Block>,
    pub evm_checks: CheckFunction,
    pub state_checks: CheckFunction,
    pub copy_checks: CheckFunction,
    pub block_modifiers: Vec<BlockModifier>,
}

impl ErasedCircuitTestBuilder {
    /// A job can run when it has a context or a ready block to build from.
    pub open spec fn runnable(self) -> bool {
        self.block is Some || self.test_ctx is Some
    }

    /// The capacity the run uses: the ready block's own, else the declared
    /// one, else the default.
    pub open spec fn spec_params(self) -> CapacityParams {
        if self.block is Some {
            self.block.unwrap().circuits_params
        } else if self.circuits_params is Some {
            self.circuits_params.unwrap()
        } else {
            CapacityParams::spec_default()
        }
    }

    /// The witness the stages read: the ready block as it stands, or the
    /// context's block with the queued modifiers applied.
    pub open spec fn spec_witness(self) -> BlockView {
        if self.block is Some {
            self.block.unwrap()@
        } else {
            apply_modifiers(
                block_view_of_geth(self.test_ctx.unwrap()@, self.spec_params()),
                self.block_modifiers@,
            )
        }
    }

    /// What running the job returns.
    pub open spec fn spec_outcome(self) -> Result<(), Seq<VerifyFailure>> {
        spec_pipeline(
            self.spec_witness(),
            self.spec_params(),
            self.evm_checks,
            self.state_checks,
            self.copy_checks,
        )
    }

    /// A builder with nothing set: no context, no capacity, no block, the
    /// row-by-row checks for every stage, no modifiers.
    pub fn empty() -> (r: Self)
        ensures
            r.test_ctx is None,
            r.circuits_params is None,
            r.block is None,
            r.evm_checks == CheckFunction::VerifyAtRows,
            r.state_checks == CheckFunction::VerifyAtRows,
            r.copy_checks == CheckFunction::VerifyAtRows,
            r.block_modifiers@ == Seq::<BlockModifier>::empty(),
    {
        ErasedCircuitTestBuilder {
            test_ctx: None,
            circuits_params: None,
            block: None,
            evm_checks: CheckFunction::VerifyAtRows,
            state_checks: CheckFunction::VerifyAtRows,
            copy_checks: CheckFunction::VerifyAtRows,
            block_modifiers: Vec::new(),
        }
    }

    /// A builder over a context, everything else as `empty` leaves it.
    pub fn new_from_test_ctx(ctx: TestContext) -> (r: Self)
        ensures
            r.test_ctx == Some(ErasedTestContext(ctx)),
            r.circuits_params is None,
            r.block is None,
            r.evm_checks == CheckFunction::VerifyAtRows,
            r.state_checks == CheckFunction::VerifyAtRows,
            r.copy_checks == CheckFunction::VerifyAtRows,
            r.block_modifiers@ == Seq::<BlockModifier>::empty(),
    {
        Self::empty().test_ctx(ctx)
    }

    /// A builder over a ready block, everything else as `empty` leaves it.
    pub fn new_from_block(block: Block) -> (r: Self)
        ensures
            r.test_ctx is None,
            r.circuits_params is None,
            r.block == Some(block),
            r.evm_checks == CheckFunction::VerifyAtRows,
            r.state_checks == CheckFunction::VerifyAtRows,
            r.copy_checks == CheckFunction::VerifyAtRows,
            r.block_modifiers@ == Seq::<BlockModifier>::empty(),
    {
        Self::empty().block(block)
    }

    /// Set the context the witness block is produced from.
    pub fn test_ctx(self, ctx: TestContext) -> (r: Self)
        ensures
            r == (ErasedCircuitTestBuilder { test_ctx: Some(ErasedTestContext(ctx)), ..self }),
    {
        ErasedCircuitTestBuilder { test_ctx: Some(ErasedTestContext::from(ctx)), ..self }
    }

    /// Declare the capacity the job is built against. A ready block brings
    /// its own capacity, so this cannot follow `block`.
    pub fn params(self, params: CapacityParams) -> (r: Self)
        requires
            self.block is None,
        ensures
            r == (ErasedCircuitTestBuilder { circuits_params: Some(params), ..self }),
    {
        ErasedCircuitTestBuilder { circuits_params: Some(params), ..self }
    }

    /// Hand the builder a ready witness block.
    pub fn block(self, block: Block) -> (r: Self)
        ensures
            r == (ErasedCircuitTestBuilder { block: Some(block), ..self }),
    {
        ErasedCircuitTestBuilder { block: Some(block), ..self }
    }

    /// Replace the state stage's check function.
    pub fn state_checks(self, state_checks: CheckFunction) -> (r: Self)
        ensures
            r == (ErasedCircuitTestBuilder { state_checks, ..self }),
    {
        ErasedCircuitTestBuilder { state_checks, ..self }
    }

    /// Replace the execution-trace stage's check function.
    pub fn evm_checks(self, evm_checks: CheckFunction) -> (r: Self)
        ensures
            r == (ErasedCircuitTestBuilder { evm_checks, ..self }),
    {
        ErasedCircuitTestBuilder { evm_checks, ..self }
    }

    /// Queue one witness modifier; they apply in the order queued, and only
    /// when the witness is built from a context.
    pub fn block_modifier(self, modifier: BlockModifier) -> (r: Self)
        ensures
            r.test_ctx == self.test_ctx,
            r.circuits_params == self.circuits_params,
            r.block == self.block,
            r.evm_checks == self.evm_checks,
            r.state_checks == self.state_checks,
            r.copy_checks == self.copy_checks,
            r.block_modifiers@ == self.block_modifiers@.push(modifier),
    {
        let mut r = self;
        r.block_modifiers.push(modifier);
        r
    }

    /// Run the pipeline. Consumes the job: a job runs at most once. The
    /// result is exactly what the pipeline's specification returns on the
    /// job's witness and capacity.
    pub fn run_catch(self) -> (r: Result<(), Vec<VerifyFailure>>)
        requires
            self.runnable(),
        ensures
            result_view(r) == self.spec_outcome(),
    {
        let ErasedCircuitTestBuilder {
            test_ctx,
            circuits_params,
            block,
            evm_checks,
            state_checks,
            copy_checks,
            block_modifiers,
        } = self;
        let params: CapacityParams = match (&block, &circuits_params) {
            (Some(b), _) => b.circuits_params,
            (None, Some(p)) => *p,
            (None, None) => CapacityParams::default(),
        };
        let witness: Block = match block {
            Some(b) => b,
            None => {
                let ctx = test_ctx.unwrap();
                let gd = ctx.to_geth_data();
                let mut b = build_block(&gd, params);
                let ghost base = block_view_of_geth(gd@, params);
                let mut j: usize = 0;
                while j < block_modifiers.len()
                    invariant
                        j <= block_modifiers@.len(),
                        b@ == apply_modifiers(base, block_modifiers@.take(j as int)),
                    decreases block_modifiers@.len() - j,
                {
                    proof {
                        assert(block_modifiers@.take(j + 1 as int).drop_last()
                            =~= block_modifiers@.take(j as int));
                        assert(block_modifiers@.take(j + 1 as int).last() == block_modifiers@[
                            j as int
                        ]);
                    }
                    match block_modifiers[j] {
                        BlockModifier::InjectFlaw(f) => {
                            b.flaws.push(f);
                        },
                        BlockModifier::ClearFlaws => {
                            b.flaws = Vec::new();
                        },
                    }
                    proof {
                        assert(b@ =~= apply_modifiers(base, block_modifiers@.take(j + 1 as int)));
                    }
                    j = j + 1;
                }
                proof {
                    assert(block_modifiers@.take(block_modifiers@.len() as int)
                        =~= block_modifiers@);
                }
                b
            },
        };
        let evm_failures = run_stage(&witness, params, Stage::Evm, evm_checks);
        if evm_failures.len() > 0 {
            return Err(evm_failures);
        }
        let state_failures = run_stage(&witness, params, Stage::State, state_checks);
        if state_failures.len() > 0 {
            return Err(state_failures);
        }
        let copy_failures = run_stage(&witness, params, Stage::Copy, copy_checks);
        if copy_failures.len() > 0 {
            return Err(copy_failures);
        }
        Ok(())
    }
}

/// Build the witness block for given block data and capacity.
fn build_block(gd: &GethData, params: CapacityParams) -> (r: Block)
    ensures
        r@ == block_view_of_geth(gd@, params),
{
    let n = gd.trace.evm_rows;
    let mut gate_rows: Vec<usize> = Vec::new();
    let mut i: usize = 0;
    while i < n
        invariant
            i <= n,
            gate_rows@ =~= Seq::new(i as nat, |k: int| k as usize),
        decreases n - i,
    {
        gate_rows.push(i);
        assert(gate_rows@ =~= Seq::new((i + 1) as nat, |k: int| k as usize));
        i = i + 1;
    }
    let lookup_rows = copy_vec(&gate_rows);
    let r = Block {
        circuits_params: params,
        gate_rows,
        lookup_rows,
        non_start_rw_rows: gd.trace.rw_ops,
        copy_active_rows: gd.trace.copy_rows,
        flaws: copy_vec(&gd.trace.flaws),
    };
    proof {
        assert(r@ =~= block_view_of_geth(gd@, params));
    }
    r
}

/// 2 to the power `k`.
pub open spec fn pow2n(k: nat) -> nat
    decreases k,
{
    if k == 0 {
        1
    } else {
        2 * pow2n((k - 1) as nat)
    }
}

/// The number of blinding rows every prover adds to a circuit.
pub const NUM_BLINDING_ROWS: usize = 64;

/// The smallest degree `k` with `2^k >= n`: the size parameter a prover
/// needs for `n` rows.
pub fn log2_ceil(n: usize) -> (r: usize)
    ensures
        pow2n(r as nat) >= n,
        r > 0 ==> pow2n((r - 1) as nat) < n,
{
    let mut k: usize = 0;
    let mut p: u128 = 1;
    while p < n as u128
        invariant
            p == pow2n(k as nat),
            k > 0 ==> pow2n((k - 1) as nat) < n,
            p >= k + 1,
        decreases 2 * (n as int) - p as int,
    {
        proof {
            assert(pow2n((k + 1) as nat) == 2 * pow2n(k as nat));
        }
        p = p * 2;
        k = k + 1;
    }
    k
}

impl Block {
    /// The degree the execution-trace prover runs at: enough for the
    /// active rows plus the blinding rows.
    pub fn get_test_degree(&self) -> (r: usize)
        requires
            self.gate_rows@.len() + NUM_BLINDING_ROWS <= usize::MAX,
        ensures
            pow2n(r as nat) >= self.gate_rows@.len() + NUM_BLINDING_ROWS,
            r > 0 ==> pow2n((r - 1) as nat) < self.gate_rows@.len() + NUM_BLINDING_ROWS,
    {
        log2_ceil(self.gate_rows.len() + NUM_BLINDING_ROWS)
    }
}

} // verus!
