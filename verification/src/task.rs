//! The periodic task around the controller: lifecycle, first-measurement
//! seeding, and checkpoint persistence.
//!
//! The host framework owns message routing, payload conversion and the
//! floating-point backend. Per tick it hands this adapter the tracking error
//! formed from the converted measurement (or nothing, when no measurement
//! arrived) together with the elapsed time, performs the constrained solve
//! when told one is due, and hands the raw iterate back through
//! [`GenericMPCTask::apply_solution`].

use vstd::prelude::*;

use crate::codec::{
    decode_state, encode_state, spec_decode, spec_encode, PersistedState, StateView,
};
use crate::controller::{
    copy_vector, dim, fresh_view, gate_due, limits_ordered, reset_view, restore_ctrl_view,
    seed_view, solve_view, tick_view, within_limits, wf, clamped_seq, CtrlView, GateDecision,
    MPCControlOutputPayload, MPCController,
};
use crate::scalar::scalar_positive;
use crate::MpcError;

verus! {

/// The configuration record a task is constructed from; scalars are binary64
/// bit patterns, the sample period is in nanoseconds.
#[derive(Debug)]
pub struct TaskConfig {
    pub setpoint: Vec<u64>,
    pub output_limits: Vec<(u64, u64)>,
    pub sample_period: u64,
    pub tolerance: u64,
    pub has_state_cost: bool,
    pub has_terminal_cost: bool,
}

/// Mathematical model of a task: the controller plus the first-run flag.
#[verifier::ext_equal]
pub struct TaskView {
    pub ctrl: CtrlView,
    pub first_run: bool,
}

/// Well-formedness of a task: its controller is well formed.
pub open spec fn task_wf(t: TaskView) -> bool {
    wf(t.ctrl)
}

/// The mutable state a task persists across a checkpoint.
pub open spec fn persist_view(t: TaskView) -> StateView {
    StateView {
        first_run: t.first_run,
        elapsed: t.ctrl.elapsed,
        last_error: t.ctrl.last_error,
        warm_start: t.ctrl.warm_start,
        last_output: t.ctrl.last_output,
    }
}

/// A decoded image fits a controller when its tracking error and warm-start
/// iterate have the controller's dimension and its output respects the
/// configured limits.
pub open spec fn restorable(v: StateView, c: CtrlView) -> bool {
    &&& v.last_error.len() == dim(c)
    &&& v.warm_start.len() == dim(c)
    &&& (v.last_output.len() == 0 || within_limits(v.last_output, c.output_limits))
}

/// State transition of a thaw: the image's mutable state is installed over
/// the task's unchanged configuration.
pub open spec fn restore_view(t: TaskView, v: StateView) -> TaskView {
    TaskView {
        ctrl: restore_ctrl_view(t.ctrl, v.elapsed, v.last_error, v.warm_start, v.last_output),
        first_run: v.first_run,
    }
}

/// Two controllers share their static configuration.
pub open spec fn same_config(a: CtrlView, b: CtrlView) -> bool {
    &&& a.setpoint == b.setpoint
    &&& a.output_limits == b.output_limits
    &&& a.sample_period == b.sample_period
    &&& a.tolerance == b.tolerance
    &&& a.has_state_cost == b.has_state_cost
    &&& a.has_terminal_cost == b.has_terminal_cost
}

/// The controller a seeding tick starts from: on the first measurement the
/// error is seeded and the accumulator forced to the sample period.
pub open spec fn seeded_if_first(t: TaskView, error: Seq<u64>) -> CtrlView {
    if t.first_run {
        seed_view(t.ctrl, error)
    } else {
        t.ctrl
    }
}

/// State transition of a stop: the controller is reset and the next
/// measurement will seed again.
pub open spec fn stop_view(t: TaskView) -> TaskView {
    TaskView { ctrl: reset_view(t.ctrl), first_run: true }
}

/// A stopped-and-restarted adapter reproduces a freshly constructed one:
/// both seed the next measurement's error, both solve on that tick, the
/// solver is handed the same error, and the same raw iterate — which a
/// solver rebuilt from the same fresh cache returns — leaves both in
/// identical states with identical outputs.
pub proof fn lemma_stop_restart_matches_fresh(t: TaskView, error: Seq<u64>, dt: u64, raw: Seq<u64>)
    requires
        task_wf(t),
    ensures
        ({
            let f = TaskView {
                ctrl: fresh_view(
                    t.ctrl.setpoint,
                    t.ctrl.output_limits,
                    t.ctrl.sample_period,
                    t.ctrl.tolerance,
                    t.ctrl.has_state_cost,
                    t.ctrl.has_terminal_cost,
                ),
                first_run: true,
            };
            &&& gate_due(seeded_if_first(stop_view(t), error), dt)
            &&& gate_due(seeded_if_first(f, error), dt)
            &&& solve_view(tick_view(seeded_if_first(stop_view(t), error), error, dt), raw)
                == solve_view(tick_view(seeded_if_first(f, error), error, dt), raw)
        }),
{
    crate::controller::lemma_reset_seed_matches_fresh(t.ctrl, error, dt, raw);
}

/// Freeze-then-thaw: the image of a task's persisted state — first-run
/// flag, accumulator, tracking error, warm-start iterate and output —
/// decodes back to exactly that state, the state fits any task sharing the
/// static configuration, and installing it there reproduces the frozen
/// task's view in full — so identical subsequent inputs evolve both through
/// identical states, the restored solver starting from the same warm-start
/// iterate.
pub proof fn lemma_freeze_thaw_restores(t: TaskView, u: TaskView)
    requires
        task_wf(t),
        task_wf(u),
        same_config(t.ctrl, u.ctrl),
        t.ctrl.last_error.len() <= u64::MAX,
        t.ctrl.warm_start.len() <= u64::MAX,
        t.ctrl.last_output.len() <= u64::MAX,
    ensures
        spec_decode(spec_encode(persist_view(t))) == Some(persist_view(t)),
        restorable(persist_view(t), u.ctrl),
        restore_view(u, persist_view(t)) == t,
{
    crate::codec::lemma_codec_round_trip(persist_view(t));
    assert(restore_view(u, persist_view(t)) =~= t);
}

/// What a processed tick asks of the host.
#[derive(Debug, Clone, Copy, PartialEq, Eq, Structural)]
pub enum ProcessOutcome {
    /// No measurement arrived: emit an empty, cleared output; nothing was
    /// recomputed.
    Cleared,
    /// The sample-rate gate suppressed the solve: emit the previous output unchanged.
    Hold,
    /// A solve is due: run the solver on the stored tracking error and hand
    /// the raw iterate to `apply_solution`.
    SolveDue,
}

/// The periodic task encapsulating the controller.
pub struct GenericMPCTask {
    mpc: MPCController,
    first_run: bool,
}

impl View for GenericMPCTask {
    type V = TaskView;

    closed spec fn view(&self) -> TaskView {
        TaskView { ctrl: self.mpc@, first_run: self.first_run }
    }
}

impl GenericMPCTask {
    /// Builds a task from an optional configuration record. Fails with
    /// `ConfigurationError` when the record is absent or unusable.
    pub fn new(config: Option<TaskConfig>) -> (r: Result<GenericMPCTask, MpcError>)
        ensures
            config is None ==> r is Err,
            config matches Some(cfg) ==> ((r is Ok <==> {
                &&& cfg.has_state_cost || cfg.has_terminal_cost
                &&& cfg.output_limits@.len() == cfg.setpoint@.len()
                &&& cfg.sample_period > 0
                &&& scalar_positive(cfg.tolerance)
                &&& limits_ordered(cfg.output_limits@)
            }) && (r is Ok ==> r->Ok_0@.ctrl == fresh_view(
                cfg.setpoint@,
                cfg.output_limits@,
                cfg.sample_period,
                cfg.tolerance,
                cfg.has_state_cost,
                cfg.has_terminal_cost,
            ) && r->Ok_0@.first_run == true && task_wf(r->Ok_0@))),
            r is Err ==> r->Err_0 == MpcError::ConfigurationError,
    {
        match config {
            None => Err(MpcError::ConfigurationError),
            Some(cfg) => match MPCController::new(
                cfg.setpoint,
                cfg.output_limits,
                cfg.sample_period,
                cfg.tolerance,
                cfg.has_state_cost,
                cfg.has_terminal_cost,
            ) {
                Ok(mpc) => Ok(GenericMPCTask { mpc, first_run: true }),
                Err(e) => Err(e),
            },
        }
    }

    /// One tick. Without a measurement the task emits a cleared output and
    /// changes nothing. With one, the first measurement since start or stop
    /// seeds the tracking error and forces a solve; every measurement then
    /// runs the sample-rate gate: below the sample period the previous output stands, at
    /// or above it the handed error is installed and the host must solve. A
    /// wrong-dimension error aborts the tick, retaining all state.
    pub fn process(&mut self, error: Option<&Vec<u64>>, dt: u64) -> (r: Result<
        ProcessOutcome,
        MpcError,
    >)
        requires
            task_wf(old(self)@),
        ensures
            task_wf(final(self)@),
            error is None ==> r is Ok && r->Ok_0 == ProcessOutcome::Cleared && final(self)@ == old(
                self,
            )@,
            error matches Some(e) ==> {
                &&& (r is Ok <==> e@.len() == dim(old(self)@.ctrl))
                &&& (r is Err ==> final(self)@ == old(self)@ && r->Err_0
                    == MpcError::DimensionMismatch)
                &&& (r is Ok ==> final(self)@.first_run == false && final(self)@.ctrl == tick_view(
                    seeded_if_first(old(self)@, e@),
                    e@,
                    dt,
                ) && (r->Ok_0 == ProcessOutcome::Hold <==> !gate_due(
                    seeded_if_first(old(self)@, e@),
                    dt,
                )) && (r->Ok_0 == ProcessOutcome::SolveDue <==> gate_due(
                    seeded_if_first(old(self)@, e@),
                    dt,
                )))
            },
    {
        match error {
            None => Ok(ProcessOutcome::Cleared),
            Some(e) => {
                if self.first_run {
                    match self.mpc.init_measurement(e) {
                        Ok(_) => {
                            self.first_run = false;
                        },
                        Err(err) => {
                            return Err(err);
                        },
                    }
                }
                match self.mpc.next_control_output(e, dt) {
                    Ok(GateDecision::Hold) => Ok(ProcessOutcome::Hold),
                    Ok(GateDecision::SolveDue) => Ok(ProcessOutcome::SolveDue),
                    Err(err) => Err(err),
                }
            },
        }
    }

    /// Commits a raw solver iterate; see `MPCController::apply_solution`.
    pub fn apply_solution(&mut self, raw: &Vec<u64>) -> (r: Result<
        MPCControlOutputPayload,
        MpcError,
    >)
        requires
            task_wf(old(self)@),
        ensures
            task_wf(final(self)@),
            final(self)@.first_run == old(self)@.first_run,
            r is Ok <==> raw@.len() == dim(old(self)@.ctrl),
            r is Err ==> final(self)@ == old(self)@ && r->Err_0 == MpcError::DimensionMismatch,
            r is Ok ==> r->Ok_0@ == clamped_seq(raw@, old(self)@.ctrl.output_limits)
                && within_limits(r->Ok_0@, old(self)@.ctrl.output_limits) && final(self)@.ctrl
                == solve_view(old(self)@.ctrl, raw@),
    {
        self.mpc.apply_solution(raw)
    }

    /// Stops the task: the controller is reset and the next measurement will
    /// seed again.
    pub fn stop(&mut self)
        requires
            task_wf(old(self)@),
        ensures
            task_wf(final(self)@),
            final(self)@ == stop_view(old(self)@),
            final(self)@.ctrl == reset_view(old(self)@.ctrl),
            final(self)@.first_run == true,
    {
        self.mpc.reset();
        self.first_run = true;
        proof {
            assert(self@ =~= stop_view(old(self)@));
        }
    }

    /// Serializes the persisted state into its word image.
    pub fn freeze(&self) -> (w: Vec<u64>)
        ensures
            w@ == spec_encode(persist_view(self@)),
    {
        let out_payload = self.mpc.last_output();
        let s = PersistedState {
            first_run: self.first_run,
            elapsed: self.mpc.elapsed(),
            last_error: copy_vector(self.mpc.last_error()),
            warm_start: copy_vector(self.mpc.warm_start()),
            last_output: out_payload.output,
        };
        proof {
            assert(s@ =~= persist_view(self@));
        }
        encode_state(&s)
    }

    /// Restores the persisted state from a word image. Rejects with
    /// `SerializationError` an image that decodes to nothing or to a state
    /// that does not fit the adapter's configuration; an accepted image
    /// reproduces the frozen mutable state in full.
    pub fn thaw(&mut self, w: &Vec<u64>) -> (r: Result<(), MpcError>)
        requires
            task_wf(old(self)@),
        ensures
            task_wf(final(self)@),
            r is Ok <==> (spec_decode(w@) matches Some(v) && restorable(v, old(self)@.ctrl)),
            r is Ok ==> final(self)@ == restore_view(old(self)@, spec_decode(w@)->Some_0),
            r is Err ==> final(self)@ == old(self)@ && r->Err_0 == MpcError::SerializationError,
    {
        match decode_state(w) {
            Err(e) => Err(e),
            Ok(s) => {
                match self.mpc.restore(s.elapsed, &s.last_error, &s.warm_start, &s.last_output) {
                    Ok(_) => {
                        self.first_run = s.first_run;
                        proof {
                            assert(self@ =~= restore_view(old(self)@, spec_decode(w@)->Some_0));
                        }
                        Ok(())
                    },
                    Err(e) => Err(e),
                }
            },
        }
    }

    /// The number of control axes.
    pub fn dimension(&self) -> (r: usize)
        ensures
            r == dim(self@.ctrl),
    {
        self.mpc.dimension()
    }

    /// The configured target state, per axis.
    pub fn setpoint(&self) -> (r: &Vec<u64>)
        ensures
            r@ == self@.ctrl.setpoint,
    {
        self.mpc.setpoint()
    }

    /// The stored tracking error the solver is run on.
    pub fn last_error(&self) -> (r: &Vec<u64>)
        ensures
            r@ == self@.ctrl.last_error,
    {
        self.mpc.last_error()
    }

    /// The warm-start iterate the next solve should start from.
    pub fn warm_start(&self) -> (r: &Vec<u64>)
        ensures
            r@ == self@.ctrl.warm_start,
    {
        self.mpc.warm_start()
    }

    /// The most recently produced output (empty before the first solve).
    pub fn last_output(&self) -> (r: MPCControlOutputPayload)
        ensures
            r@ == self@.ctrl.last_output,
    {
        self.mpc.last_output()
    }

    /// The solver tolerance, as a binary64 bit pattern.
    pub fn tolerance(&self) -> (r: u64)
        ensures
            r == self@.ctrl.tolerance,
    {
        self.mpc.tolerance()
    }

    /// Time accumulated since the last completed solve, in nanoseconds.
    pub fn elapsed(&self) -> (r: u64)
        ensures
            r == self@.ctrl.elapsed,
    {
        self.mpc.elapsed()
    }
}

} // verus!
