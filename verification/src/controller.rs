//! The rate-gated controller core: configuration, tracking error, sample-rate
//! gate, and output clamping.
//!
//! Scalars are IEEE 754 binary64 bit patterns in `u64`; durations are
//! nanosecond counts. The host backend owns the floating-point work: it forms
//! the tracking error `setpoint - measurement`, runs the constrained solver
//! on the stored error when a tick reports that a solve is due, and hands the
//! raw solver iterate back to [`MPCController::apply_solution`], which clamps
//! it into the configured per-axis output limits and commits the new state.

use vstd::prelude::*;

use crate::scalar::{
    clamp_scalar, scalar_le, scalar_le_exec, scalar_positive, scalar_positive_exec, spec_clamp,
};
use crate::MpcError;

verus! {

/// Iteration budget handed to the constrained solver each invocation; the
/// sole bound on per-tick solve latency.
pub const SOLVER_ITERATION_CAP: usize = 20;

/// Length of the quasi-Newton memory the solver cache is built with.
pub const LBFGS_MEMORY_LENGTH: usize = 20;

/// Output of the controller.
#[derive(Debug)]
pub struct MPCControlOutputPayload {
    /// Final output, one binary64 bit pattern per control axis; empty when
    /// no output has been produced yet.
    pub output: Vec<u64>,
}

/// Mathematical model of a controller: configuration fixed at construction
/// and the mutable state the ticks evolve.
#[verifier::ext_equal]
pub struct CtrlView {
    pub setpoint: Seq<u64>,
    pub output_limits: Seq<(u64, u64)>,
    pub sample_period: u64,
    pub tolerance: u64,
    pub has_state_cost: bool,
    pub has_terminal_cost: bool,
    pub last_error: Seq<u64>,
    pub warm_start: Seq<u64>,
    pub elapsed: u64,
    pub last_output: Seq<u64>,
}

/// What a tick reports to the host.
#[derive(Debug, Clone, Copy, PartialEq, Eq, Structural)]
pub enum GateDecision {
    /// Not enough time has elapsed: the previous output stands unchanged.
    Hold,
    /// A solve is due: run the solver on the stored tracking error and hand
    /// the raw iterate to `apply_solution`.
    SolveDue,
}

/// The dimension of a controller: the number of control axes.
pub open spec fn dim(c: CtrlView) -> nat {
    c.setpoint.len()
}

/// Every limit pair is ordered low-to-high.
pub open spec fn limits_ordered(limits: Seq<(u64, u64)>) -> bool {
    forall|i: int| 0 <= i < limits.len() ==> scalar_le(#[trigger] limits[i].0, limits[i].1)
}

/// `out` has one component per limit pair and each lies within its pair.
pub open spec fn within_limits(out: Seq<u64>, limits: Seq<(u64, u64)>) -> bool {
    &&& out.len() == limits.len()
    &&& forall|i: int|
        0 <= i < out.len() ==> scalar_le(limits[i].0, #[trigger] out[i]) && scalar_le(
            out[i],
            limits[i].1,
        )
}

/// An all-zero error vector (the bit pattern of positive zero per axis).
pub open spec fn zero_seq(n: nat) -> Seq<u64> {
    Seq::new(n, |i: int| 0u64)
}

/// Well-formedness of a controller: configured vectors share one dimension,
/// the sample period and tolerance are positive, at least one cost function
/// is present, the limit pairs are ordered, and any produced output respects
/// them.
pub open spec fn wf(c: CtrlView) -> bool {
    &&& c.output_limits.len() == dim(c)
    &&& c.last_error.len() == dim(c)
    &&& c.warm_start.len() == dim(c)
    &&& c.sample_period > 0
    &&& scalar_positive(c.tolerance)
    &&& (c.has_state_cost || c.has_terminal_cost)
    &&& limits_ordered(c.output_limits)
    &&& (c.last_output.len() == 0 || within_limits(c.last_output, c.output_limits))
}

/// The state a controller is constructed in.
pub open spec fn fresh_view(
    setpoint: Seq<u64>,
    output_limits: Seq<(u64, u64)>,
    sample_period: u64,
    tolerance: u64,
    has_state_cost: bool,
    has_terminal_cost: bool,
) -> CtrlView {
    CtrlView {
        setpoint,
        output_limits,
        sample_period,
        tolerance,
        has_state_cost,
        has_terminal_cost,
        last_error: zero_seq(setpoint.len()),
        warm_start: zero_seq(setpoint.len()),
        elapsed: 0,
        last_output: Seq::empty(),
    }
}

/// `reset` clears the tracking error and discards the warm-start history;
/// configuration, accumulator and last output are kept.
pub open spec fn reset_view(c: CtrlView) -> CtrlView {
    CtrlView { last_error: zero_seq(dim(c)), warm_start: zero_seq(dim(c)), ..c }
}

/// Seeding installs a tracking error and forces the accumulator to the
/// sample period, so the next tick always solves.
pub open spec fn seed_view(c: CtrlView, error: Seq<u64>) -> CtrlView {
    CtrlView { last_error: error, elapsed: c.sample_period, ..c }
}

/// The elapsed-time accumulator after a tick of `dt`, saturating at the
/// largest representable duration.
pub open spec fn accum(elapsed: u64, dt: u64) -> u64 {
    if elapsed + dt <= u64::MAX {
        (elapsed + dt) as u64
    } else {
        u64::MAX
    }
}

/// The sample-rate gate lets a solve through when the accumulated elapsed time reaches
/// the sample period.
pub open spec fn gate_due(c: CtrlView, dt: u64) -> bool {
    accum(c.elapsed, dt) >= c.sample_period
}

/// State transition of a tick: the accumulator always advances; the tracking
/// error is recomputed only when the sample-rate gate lets the solve through.
pub open spec fn tick_view(c: CtrlView, error: Seq<u64>, dt: u64) -> CtrlView {
    if accum(c.elapsed, dt) < c.sample_period {
        CtrlView { elapsed: accum(c.elapsed, dt), ..c }
    } else {
        CtrlView { elapsed: accum(c.elapsed, dt), last_error: error, ..c }
    }
}

/// Each raw solver component pulled into its limit pair.
pub open spec fn clamped_seq(raw: Seq<u64>, limits: Seq<(u64, u64)>) -> Seq<u64> {
    Seq::new(limits.len(), |i: int| spec_clamp(raw[i], limits[i].0, limits[i].1))
}

/// State transition of a completed solve: the raw iterate becomes the next
/// solve's warm start, its clamped form becomes the output, and the
/// accumulator restarts from zero.
pub open spec fn solve_view(c: CtrlView, raw: Seq<u64>) -> CtrlView {
    CtrlView {
        elapsed: 0,
        warm_start: raw,
        last_output: clamped_seq(raw, c.output_limits),
        ..c
    }
}

/// State transition of a restore: a checkpointed accumulator, tracking
/// error, warm start and output are installed over the unchanged
/// configuration.
pub open spec fn restore_ctrl_view(
    c: CtrlView,
    elapsed: u64,
    last_error: Seq<u64>,
    warm_start: Seq<u64>,
    last_output: Seq<u64>,
) -> CtrlView {
    CtrlView { elapsed, last_error, warm_start, last_output, ..c }
}

/// A clamped solver iterate of the right dimension respects the limits.
pub proof fn lemma_clamped_within_limits(raw: Seq<u64>, limits: Seq<(u64, u64)>)
    requires
        limits_ordered(limits),
    ensures
        within_limits(clamped_seq(raw, limits), limits),
{
}

/// `reset` followed by seeding leaves the sample-rate gate, the tracking
/// error and the warm-start iterate in the same state as a freshly
/// constructed controller seeded the same way: the next tick solves in both,
/// the solver is handed the same error and the same cleared warm start, and
/// the same raw iterate then leaves the two controllers in identical states
/// with identical outputs.
pub proof fn lemma_reset_seed_matches_fresh(c: CtrlView, error: Seq<u64>, dt: u64, raw: Seq<u64>)
    requires
        wf(c),
    ensures
        seed_view(reset_view(c), error).warm_start == zero_seq(dim(c)),
        gate_due(seed_view(reset_view(c), error), dt),
        gate_due(
            seed_view(
                fresh_view(
                    c.setpoint,
                    c.output_limits,
                    c.sample_period,
                    c.tolerance,
                    c.has_state_cost,
                    c.has_terminal_cost,
                ),
                error,
            ),
            dt,
        ),
        tick_view(seed_view(reset_view(c), error), error, dt).last_error == error,
        solve_view(tick_view(seed_view(reset_view(c), error), error, dt), raw) == solve_view(
            tick_view(
                seed_view(
                    fresh_view(
                        c.setpoint,
                        c.output_limits,
                        c.sample_period,
                        c.tolerance,
                        c.has_state_cost,
                        c.has_terminal_cost,
                    ),
                    error,
                ),
                error,
                dt,
            ),
            raw,
        ),
{
    let f = fresh_view(
        c.setpoint,
        c.output_limits,
        c.sample_period,
        c.tolerance,
        c.has_state_cost,
        c.has_terminal_cost,
    );
    let a = solve_view(tick_view(seed_view(reset_view(c), error), error, dt), raw);
    let b = solve_view(tick_view(seed_view(f, error), error, dt), raw);
    assert(a =~= b);
}

impl View for MPCControlOutputPayload {
    type V = Seq<u64>;

    open spec fn view(&self) -> Seq<u64> {
        self.output@
    }
}

impl Default for MPCControlOutputPayload {
    /// An empty payload: no output produced yet.
    fn default() -> (r: MPCControlOutputPayload)
        ensures
            r@ == Seq::<u64>::empty(),
    {
        MPCControlOutputPayload { output: Vec::new() }
    }
}

impl Clone for MPCControlOutputPayload {
    fn clone(&self) -> (r: MPCControlOutputPayload)
        ensures
            r@ == self@,
    {
        MPCControlOutputPayload { output: copy_vector(&self.output) }
    }
}

/// Copies a vector of scalars.
pub(crate) fn copy_vector(src: &Vec<u64>) -> (v: Vec<u64>)
    ensures
        v@ == src@,
{
    let mut v: Vec<u64> = Vec::new();
    let mut i: usize = 0;
    while i < src.len()
        invariant
            i <= src@.len(),
            v@ =~= src@.subrange(0, i as int),
        decreases src@.len() - i,
    {
        v.push(src[i]);
        i += 1;
    }
    proof {
        assert(v@ =~= src@);
    }
    v
}

/// Builds an all-zero vector of scalars.
fn zero_vector(n: usize) -> (v: Vec<u64>)
    ensures
        v@ == zero_seq(n as nat),
{
    let mut v: Vec<u64> = Vec::new();
    let mut i: usize = 0;
    while i < n
        invariant
            i <= n,
            v@.len() == i,
            forall|j: int| 0 <= j < i ==> v@[j] == 0u64,
        decreases n - i,
    {
        v.push(0u64);
        i += 1;
    }
    proof {
        assert(v@ =~= zero_seq(n as nat));
    }
    v
}

/// Checks that every limit pair is ordered low-to-high.
fn limits_well_ordered(limits: &Vec<(u64, u64)>) -> (r: bool)
    ensures
        r == limits_ordered(limits@),
{
    let mut i: usize = 0;
    while i < limits.len()
        invariant
            i <= limits@.len(),
            forall|j: int| 0 <= j < i ==> scalar_le(#[trigger] limits@[j].0, limits@[j].1),
        decreases limits@.len() - i,
    {
        let (lo, hi) = limits[i];
        if !scalar_le_exec(lo, hi) {
            proof {
                assert(!scalar_le(limits@[i as int].0, limits@[i as int].1));
            }
            return false;
        }
        i += 1;
    }
    true
}

/// Checks that `out` has one component per limit pair, each within its pair.
fn check_within_limits(out: &Vec<u64>, limits: &Vec<(u64, u64)>) -> (r: bool)
    ensures
        r == within_limits(out@, limits@),
{
    if out.len() != limits.len() {
        return false;
    }
    let mut i: usize = 0;
    while i < limits.len()
        invariant
            i <= limits@.len(),
            out@.len() == limits@.len(),
            forall|j: int|
                0 <= j < i ==> scalar_le(limits@[j].0, #[trigger] out@[j]) && scalar_le(
                    out@[j],
                    limits@[j].1,
                ),
        decreases limits@.len() - i,
    {
        let (lo, hi) = limits[i];
        if !scalar_le_exec(lo, out[i]) || !scalar_le_exec(out[i], hi) {
            proof {
                assert(!(scalar_le(limits@[i as int].0, out@[i as int]) && scalar_le(
                    out@[i as int],
                    limits@[i as int].1,
                )));
            }
            return false;
        }
        i += 1;
    }
    true
}

/// Clamps each raw solver component into its limit pair.
fn clamp_vector(raw: &Vec<u64>, limits: &Vec<(u64, u64)>) -> (out: Vec<u64>)
    requires
        raw@.len() == limits@.len(),
        limits_ordered(limits@),
    ensures
        out@ == clamped_seq(raw@, limits@),
        within_limits(out@, limits@),
{
    let mut out: Vec<u64> = Vec::new();
    let mut i: usize = 0;
    while i < limits.len()
        invariant
            i <= limits@.len(),
            raw@.len() == limits@.len(),
            limits_ordered(limits@),
            out@.len() == i,
            forall|j: int|
                0 <= j < i ==> out@[j] == spec_clamp(raw@[j], limits@[j].0, limits@[j].1),
        decreases limits@.len() - i,
    {
        let (lo, hi) = limits[i];
        out.push(clamp_scalar(raw[i], lo, hi));
        i += 1;
    }
    proof {
        assert(out@ =~= clamped_seq(raw@, limits@));
        lemma_clamped_within_limits(raw@, limits@);
    }
    out
}

/// The underlying rate-gated controller.
pub struct MPCController {
    setpoint: Vec<u64>,
    output_limits: Vec<(u64, u64)>,
    sample_period: u64,
    tolerance: u64,
    has_state_cost: bool,
    has_terminal_cost: bool,
    last_error: Vec<u64>,
    warm_start: Vec<u64>,
    elapsed: u64,
    last_output: MPCControlOutputPayload,
}

impl View for MPCController {
    type V = CtrlView;

    closed spec fn view(&self) -> CtrlView {
        CtrlView {
            setpoint: self.setpoint@,
            output_limits: self.output_limits@,
            sample_period: self.sample_period,
            tolerance: self.tolerance,
            has_state_cost: self.has_state_cost,
            has_terminal_cost: self.has_terminal_cost,
            last_error: self.last_error@,
            warm_start: self.warm_start@,
            elapsed: self.elapsed,
            last_output: self.last_output@,
        }
    }
}

impl MPCController {
    /// Builds a controller from its configuration. Fails with
    /// `ConfigurationError` when neither cost function is present, the limit
    /// vector does not match the setpoint's dimension, the sample period is
    /// zero, the solver tolerance is not a positive value, or a limit pair
    /// is inverted.
    pub fn new(
        setpoint: Vec<u64>,
        output_limits: Vec<(u64, u64)>,
        sample_period: u64,
        tolerance: u64,
        has_state_cost: bool,
        has_terminal_cost: bool,
    ) -> (r: Result<MPCController, MpcError>)
        ensures
            r is Ok <==> {
                &&& has_state_cost || has_terminal_cost
                &&& output_limits@.len() == setpoint@.len()
                &&& sample_period > 0
                &&& scalar_positive(tolerance)
                &&& limits_ordered(output_limits@)
            },
            r is Ok ==> r->Ok_0@ == fresh_view(
                setpoint@,
                output_limits@,
                sample_period,
                tolerance,
                has_state_cost,
                has_terminal_cost,
            ) && wf(r->Ok_0@),
            r is Err ==> r->Err_0 == MpcError::ConfigurationError,
    {
        if !(has_state_cost || has_terminal_cost) {
            return Err(MpcError::ConfigurationError);
        }
        if output_limits.len() != setpoint.len() {
            return Err(MpcError::ConfigurationError);
        }
        if sample_period == 0 {
            return Err(MpcError::ConfigurationError);
        }
        if !scalar_positive_exec(tolerance) {
            return Err(MpcError::ConfigurationError);
        }
        if !limits_well_ordered(&output_limits) {
            return Err(MpcError::ConfigurationError);
        }
        let n = setpoint.len();
        let c = MPCController {
            setpoint,
            output_limits,
            sample_period,
            tolerance,
            has_state_cost,
            has_terminal_cost,
            last_error: zero_vector(n),
            warm_start: zero_vector(n),
            elapsed: 0,
            last_output: MPCControlOutputPayload { output: Vec::new() },
        };
        proof {
            assert(c@ =~= fresh_view(
                c.setpoint@,
                c.output_limits@,
                c.sample_period,
                c.tolerance,
                c.has_state_cost,
                c.has_terminal_cost,
            ));
        }
        Ok(c)
    }

    /// Reinitializes the mutable solver-facing state: the tracking error is
    /// cleared and the warm-start history discarded (the host likewise
    /// rebuilds its solver cache from the construction parameters).
    /// Configuration, accumulator and last output are kept.
    pub fn reset(&mut self)
        requires
            wf(old(self)@),
        ensures
            final(self)@ == reset_view(old(self)@),
            wf(final(self)@),
    {
        let n = self.setpoint.len();
        self.last_error = zero_vector(n);
        self.warm_start = zero_vector(n);
        proof {
            assert(self@ =~= reset_view(old(self)@));
        }
    }

    /// Seeds the tracking error from the first measurement — the host hands
    /// the already-formed error `setpoint - measurement`, the subtraction
    /// being the host backend's floating-point work — and forces the
    /// accumulator to the sample period so the next tick always solves.
    pub fn init_measurement(&mut self, error: &Vec<u64>) -> (r: Result<(), MpcError>)
        requires
            wf(old(self)@),
        ensures
            r is Ok <==> error@.len() == dim(old(self)@),
            r is Ok ==> final(self)@ == seed_view(old(self)@, error@) && wf(final(self)@),
            r is Err ==> final(self)@ == old(self)@ && r->Err_0 == MpcError::DimensionMismatch,
    {
        if error.len() != self.setpoint.len() {
            return Err(MpcError::DimensionMismatch);
        }
        self.last_error = copy_vector(error);
        self.elapsed = self.sample_period;
        proof {
            assert(self@ =~= seed_view(old(self)@, error@));
        }
        Ok(())
    }

    /// One tick: adds `dt` to the accumulator and decides whether a solve is
    /// due. Below the sample period the previous output stands and the
    /// tracking error is left untouched; at or above it the handed error is
    /// installed and the host must run the solver and call
    /// `apply_solution`. A wrong-dimension error vector aborts the tick with
    /// `DimensionMismatch` and changes nothing.
    pub fn next_control_output(&mut self, error: &Vec<u64>, dt: u64) -> (r: Result<
        GateDecision,
        MpcError,
    >)
        requires
            wf(old(self)@),
        ensures
            r is Ok <==> error@.len() == dim(old(self)@),
            r is Err ==> final(self)@ == old(self)@ && r->Err_0 == MpcError::DimensionMismatch,
            r is Ok ==> final(self)@ == tick_view(old(self)@, error@, dt) && wf(final(self)@),
            r is Ok ==> (r->Ok_0 == GateDecision::Hold <==> !gate_due(old(self)@, dt)),
            r is Ok && !gate_due(old(self)@, dt) ==> final(self)@.last_error == old(
                self,
            )@.last_error && final(self)@.last_output == old(self)@.last_output,
    {
        if error.len() != self.setpoint.len() {
            return Err(MpcError::DimensionMismatch);
        }
        let room = u64::MAX - self.elapsed;
        self.elapsed = if dt <= room {
            self.elapsed + dt
        } else {
            u64::MAX
        };
        if self.elapsed < self.sample_period {
            proof {
                assert(self@ =~= tick_view(old(self)@, error@, dt));
            }
            Ok(GateDecision::Hold)
        } else {
            self.last_error = copy_vector(error);
            proof {
                assert(self@ =~= tick_view(old(self)@, error@, dt));
            }
            Ok(GateDecision::SolveDue)
        }
    }

    /// Commits a raw solver iterate: it becomes the warm start of the next
    /// solve, each component clamped into its limit pair becomes the output,
    /// and the accumulator restarts from zero. A wrong-dimension iterate
    /// aborts with `DimensionMismatch`, retaining the previous output.
    pub fn apply_solution(&mut self, raw: &Vec<u64>) -> (r: Result<
        MPCControlOutputPayload,
        MpcError,
    >)
        requires
            wf(old(self)@),
        ensures
            r is Ok <==> raw@.len() == dim(old(self)@),
            r is Err ==> final(self)@ == old(self)@ && r->Err_0 == MpcError::DimensionMismatch,
            r is Ok ==> r->Ok_0@ == clamped_seq(raw@, old(self)@.output_limits) && within_limits(
                r->Ok_0@,
                old(self)@.output_limits,
            ) && final(self)@ == solve_view(old(self)@, raw@) && final(self)@.elapsed == 0 && wf(
                final(self)@,
            ),
    {
        if raw.len() != self.output_limits.len() {
            proof {
                assert(dim(old(self)@) == self.output_limits@.len());
            }
            return Err(MpcError::DimensionMismatch);
        }
        let out = clamp_vector(raw, &self.output_limits);
        let payload = MPCControlOutputPayload { output: out };
        self.last_output = payload.clone();
        self.warm_start = copy_vector(raw);
        self.elapsed = 0;
        proof {
            assert(self@ =~= solve_view(old(self)@, raw@));
            lemma_clamped_within_limits(raw@, old(self)@.output_limits);
        }
        Ok(payload)
    }

    /// Installs checkpointed mutable state over the unchanged configuration.
    /// Rejects with `SerializationError` a tracking error or warm-start
    /// iterate of the wrong dimension, or an output that does not respect
    /// the configured limits — a well-formed checkpoint of a controller with
    /// this configuration is always accepted.
    pub fn restore(
        &mut self,
        elapsed: u64,
        last_error: &Vec<u64>,
        warm_start: &Vec<u64>,
        last_output: &Vec<u64>,
    ) -> (r: Result<(), MpcError>)
        requires
            wf(old(self)@),
        ensures
            r is Ok <==> {
                &&& last_error@.len() == dim(old(self)@)
                &&& warm_start@.len() == dim(old(self)@)
                &&& (last_output@.len() == 0 || within_limits(
                    last_output@,
                    old(self)@.output_limits,
                ))
            },
            r is Ok ==> final(self)@ == restore_ctrl_view(
                old(self)@,
                elapsed,
                last_error@,
                warm_start@,
                last_output@,
            ) && wf(final(self)@),
            r is Err ==> final(self)@ == old(self)@ && r->Err_0 == MpcError::SerializationError,
    {
        if last_error.len() != self.setpoint.len() {
            return Err(MpcError::SerializationError);
        }
        if warm_start.len() != self.setpoint.len() {
            return Err(MpcError::SerializationError);
        }
        if last_output.len() != 0 && !check_within_limits(last_output, &self.output_limits) {
            return Err(MpcError::SerializationError);
        }
        self.elapsed = elapsed;
        self.last_error = copy_vector(last_error);
        self.warm_start = copy_vector(warm_start);
        self.last_output = MPCControlOutputPayload { output: copy_vector(last_output) };
        proof {
            assert(self@ =~= restore_ctrl_view(
                old(self)@,
                elapsed,
                last_error@,
                warm_start@,
                last_output@,
            ));
        }
        Ok(())
    }

    /// The number of control axes.
    pub fn dimension(&self) -> (r: usize)
        ensures
            r == dim(self@),
    {
        self.setpoint.len()
    }

    /// The configured target state, per axis.
    pub fn setpoint(&self) -> (r: &Vec<u64>)
        ensures
            r@ == self@.setpoint,
    {
        &self.setpoint
    }

    /// The stored tracking error the solver is run on.
    pub fn last_error(&self) -> (r: &Vec<u64>)
        ensures
            r@ == self@.last_error,
    {
        &self.last_error
    }

    /// The warm-start iterate the next solve should start from: the previous
    /// solve's raw result, or all zeros after construction or `reset`.
    pub fn warm_start(&self) -> (r: &Vec<u64>)
        ensures
            r@ == self@.warm_start,
    {
        &self.warm_start
    }

    /// The most recently produced output (empty before the first solve).
    pub fn last_output(&self) -> (r: MPCControlOutputPayload)
        ensures
            r@ == self@.last_output,
    {
        self.last_output.clone()
    }

    /// The configured minimum interval between two solves, in nanoseconds.
    pub fn sample_period(&self) -> (r: u64)
        ensures
            r == self@.sample_period,
    {
        self.sample_period
    }

    /// The solver tolerance the cache is built with, as a binary64 pattern.
    pub fn tolerance(&self) -> (r: u64)
        ensures
            r == self@.tolerance,
    {
        self.tolerance
    }

    /// Time accumulated since the last completed solve, in nanoseconds.
    pub fn elapsed(&self) -> (r: u64)
        ensures
            r == self@.elapsed,
    {
        self.elapsed
    }
}

} // verus!
