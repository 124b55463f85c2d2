use vstd::prelude::*;

use core::sync::atomic::{AtomicBool, Ordering};
use std::sync::Arc;

use crate::errors::LocalSearchError;
use crate::result::LocalSearchSolution;
use crate::solver::{spec_decision, Solver};
use crate::state::State;
use crate::termination::{Reason, Status};

verus! {

/// The run-loop driver: owns the problem and the policy, and threads the
/// iteration state through them.
///
/// The state slot is single-use: `configure` and `run` each take it, and a
/// second `run` on the same executor reports `NotInitialized`.
///
/// Cancellation is cooperative: an installed interrupt flag is polled once
/// per loop boundary, never mid-step, so it takes effect only between
/// completed iterations.
pub struct Executor<O, S, I> {
    pub solver: S,
    pub problem: O,
    pub state: Option<I>,
    pub duration: u64,
    pub interrupt: Option<Arc<AtomicBool>>,
}

impl<O, S, I> Executor<O, S, I> where S: Solver<O, I>, I: State {
    pub fn new(problem: O, solver: S) -> (r: Self)
        ensures
            r.solver == solver,
            r.problem == problem,
            r.duration == 0u64,
            r.interrupt is None,
            r.state matches Some(s) && s.spec_param() is None && s.spec_best_param() is None
                && s.spec_cost() == crate::cost::Cost::PosInf && s.spec_best_cost()
                == crate::cost::Cost::PosInf && s.spec_target_cost() == crate::cost::Cost::NegInf
                && s.spec_iter() == 0 && s.spec_last_best_iter() == 0 && s.spec_max_iters()
                == u32::MAX && s.spec_status() == Status::NotTerminated,
    {
        Executor { solver, problem, state: Some(I::new()), duration: 0, interrupt: None }
    }

    /// Install the shared flag that requests a cooperative stop.
    #[must_use]
    pub fn with_interrupt(self, flag: Arc<AtomicBool>) -> (r: Self)
        ensures
            r == (Executor { interrupt: Some(flag), ..self }),
    {
        let mut me = self;
        me.interrupt = Some(flag);
        me
    }

    /// Configure the state once before the run (initial parameter, target
    /// cost, bounds).  A state slot already consumed reports
    /// `NotInitialized`.
    pub fn configure<F: FnOnce(I) -> I>(self, init: F) -> (r: Result<Self, LocalSearchError>)
        requires
            self.state matches Some(s) ==> call_requires(init, (s,)),
        ensures
            self.state is None ==> r == Err::<Self, LocalSearchError>(
                LocalSearchError::NotInitialized,
            ),
            self.state matches Some(s) ==> r matches Ok(e2) && e2.solver == self.solver
                && e2.problem == self.problem && e2.duration == self.duration && e2.interrupt
                == self.interrupt && (e2.state matches Some(s2) && call_ensures(init, (s,), s2)),
    {
        let mut me = self;
        match me.state.take() {
            None => Err(LocalSearchError::NotInitialized),
            Some(state) => {
                me.state = Some(init(state));
                Ok(me)
            },
        }
    }

    /// Drive the run to termination.
    ///
    /// A consumed state slot, or one configured without a parameter,
    /// reports `NotInitialized`.  A fresh run (iteration zero) is
    /// bootstrapped: the policy's `init` runs once, then one `update`
    /// seeds the best pair.  A run resumed from a checkpointed state
    /// (iteration above zero) skips `init` entirely — running it again
    /// could clobber policy memory restored with the checkpoint — and its
    /// iteration counter carries on rather than restarting.  Each loop
    /// pass polls the interrupt flag (a set flag stops the run with
    /// `KeyboardInterrupt`, keeping an earlier reason if one is already
    /// recorded), evaluates the stop decision (policy verdict first, then
    /// the iteration bound, then the target cost), steps the policy,
    /// applies the best-tracking `update`, and advances the counter; the
    /// best cost never rises along the way.  Any policy or problem
    /// failure aborts the run with that error and no partial result.
    #[verifier::loop_isolation(false)]
    pub fn run(self) -> (r: Result<LocalSearchSolution<O, S, I>, LocalSearchError>)
        requires
            self.solver.wf(),
        ensures
            self.state is None ==> r == Err::<LocalSearchSolution<O, S, I>, LocalSearchError>(
                LocalSearchError::NotInitialized,
            ),
            self.state matches Some(s0) && s0.spec_param() is None ==> r == Err::<
                LocalSearchSolution<O, S, I>,
                LocalSearchError,
            >(LocalSearchError::NotInitialized),
            self.state matches Some(s0) && s0.spec_param() is Some && s0.spec_iter() > 0 && (
            s0.spec_status() is Terminated || spec_decision(
                self.solver.terminate_spec(),
                s0.spec_iter(),
                s0.spec_max_iters(),
                s0.spec_best_cost(),
                s0.spec_target_cost(),
            ) is Terminated) ==> r is Ok,
            r matches Ok(sol) ==> self.state matches Some(s0) && s0.spec_param() is Some
                && sol.state.spec_param() is Some && sol.state.spec_status() is Terminated
                && sol.state.spec_best_cost().spec_le(s0.spec_best_cost())
                && sol.state.spec_iter() >= s0.spec_iter(),
            r matches Ok(sol) ==> {
                ||| sol.state.spec_status() == Status::Terminated(Reason::KeyboardInterrupt)
                ||| (self.state matches Some(s0) && sol.state.spec_status() == s0.spec_status())
                ||| sol.state.spec_status() == spec_decision(
                    sol.solver.terminate_spec(),
                    sol.state.spec_iter(),
                    sol.state.spec_max_iters(),
                    sol.state.spec_best_cost(),
                    sol.state.spec_target_cost(),
                )
            },
            self.state matches Some(s0) ==> (r matches Ok(sol) ==> (s0.spec_iter()
                <= s0.spec_max_iters() ==> sol.state.spec_iter() <= sol.state.spec_max_iters())),
    {
        let mut me = self;
        let ghost solver0 = me.solver;
        let taken = me.state.take();
        let mut state = match taken {
            None => {
                return Err(LocalSearchError::NotInitialized);
            },
            Some(s) => s,
        };
        let ghost s0 = state;

        let configured = match state.get_param() {
            Some(_) => true,
            None => false,
        };
        if !configured {
            return Err(LocalSearchError::NotInitialized);
        }

        if state.get_iter() == 0 {
            state = match me.solver.init(&mut me.problem, state) {
                Ok(s) => s,
                Err(e) => {
                    return Err(e);
                },
            };
            state.update();
            proof {
                crate::cost::lemma_cost_le_trans(
                    state.spec_best_cost(),
                    s0.spec_best_cost(),
                    s0.spec_best_cost(),
                );
            }
        }

        loop
            invariant
                me.solver.wf(),
                state.spec_param() is Some,
                state.spec_best_cost().spec_le(s0.spec_best_cost()),
                state.spec_iter() >= s0.spec_iter(),
                state.spec_max_iters() == s0.spec_max_iters(),
                s0.spec_iter() <= s0.spec_max_iters() ==> state.spec_iter()
                    <= state.spec_max_iters(),
                state.spec_status() is Terminated ==> state.spec_status() == s0.spec_status(),
                s0.spec_param() is Some && s0.spec_iter() > 0 && (s0.spec_status() is Terminated
                    || spec_decision(
                    solver0.terminate_spec(),
                    s0.spec_iter(),
                    s0.spec_max_iters(),
                    s0.spec_best_cost(),
                    s0.spec_target_cost(),
                ) is Terminated) ==> (state.spec_status() is Terminated || spec_decision(
                    me.solver.terminate_spec(),
                    state.spec_iter(),
                    state.spec_max_iters(),
                    state.spec_best_cost(),
                    state.spec_target_cost(),
                ) is Terminated),
            decreases state.spec_max_iters() - state.spec_iter(),
        {
            let interrupted = match &me.interrupt {
                Some(flag) => flag.load(Ordering::Relaxed),
                None => false,
            };
            if interrupted {
                let stopped = if state.terminated() {
                    state
                } else {
                    state.terminate_with(Reason::KeyboardInterrupt)
                };
                return Ok(LocalSearchSolution::new(me.problem, me.solver, stopped));
            }

            if !state.terminated() {
                let decision = me.solver.terminate_internal(&state);
                match decision {
                    Status::Terminated(reason) => {
                        state = state.terminate_with(reason);
                    },
                    Status::NotTerminated => {},
                }
            }
            if state.terminated() {
                return Ok(LocalSearchSolution::new(me.problem, me.solver, state));
            }

            // Reaching here, the decision was `NotTerminated`, so the
            // iteration counter is strictly under its bound and may move.
            let ghost best_before = state.spec_best_cost();
            state = match me.solver.next_iter(&mut me.problem, state) {
                Ok(s) => s,
                Err(e) => {
                    return Err(e);
                },
            };
            state.update();
            proof {
                crate::cost::lemma_cost_le_trans(
                    state.spec_best_cost(),
                    best_before,
                    s0.spec_best_cost(),
                );
            }
            state.increment_iter();

            if state.terminated() {
                return Ok(LocalSearchSolution::new(me.problem, me.solver, state));
            }
        }
    }
}

} // verus!
