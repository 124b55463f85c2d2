use vstd::prelude::*;

use crate::cost::{is_improving, spec_improving, Cost};
use crate::errors::LocalSearchError;
use crate::problem::RandomSource;
use crate::state::State;
use crate::termination::{Reason, Status};

pub mod guided_local_search;
pub mod tabu_search;
pub mod variable_neighborhood;

pub use guided_local_search::GuidedLocalSearch;
pub use tabu_search::TabuSearch;
pub use variable_neighborhood::VariableNeighborhood;

verus! {

/// A stall counter one step higher, stopping at the top of `u32`.
pub open spec fn bump32(x: u32) -> u32 {
    if x == u32::MAX {
        x
    } else {
        (x + 1) as u32
    }
}

/// The shared acceptance rule: a strictly improving delta is always
/// accepted; otherwise the random source's annealing draw decides, and
/// nothing is promised of that draw.
pub fn decide_acceptance<R: RandomSource>(
    rng: &mut R,
    delta: &Cost,
    iter: u32,
    init_temp: i64,
) -> (r: bool)
    ensures
        spec_improving(*delta) ==> r,
{
    if is_improving(delta) {
        true
    } else {
        rng.accept_worse(delta, iter, init_temp)
    }
}

/// The lowest-index minimum of a list of deltas; `None` exactly when the
/// list is empty.  Ties among equal minimal deltas are broken
/// deterministically toward the lowest candidate index.
pub fn select_min(deltas: &Vec<Cost>) -> (r: Option<usize>)
    ensures
        match r {
            Some(i) => {
                &&& 0 <= i < deltas@.len()
                &&& forall|j: int|
                    0 <= j < deltas@.len() ==> deltas@[i as int].spec_le(#[trigger] deltas@[j])
                &&& forall|j: int| 0 <= j < i ==> deltas@[i as int].spec_lt(#[trigger] deltas@[j])
            },
            None => deltas@.len() == 0,
        },
{
    let n = deltas.len();
    if n == 0 {
        return None;
    }
    let mut best: usize = 0;
    let mut j: usize = 1;
    while j < n
        invariant
            n == deltas@.len(),
            0 <= best < j <= n,
            forall|k: int| 0 <= k < j ==> deltas@[best as int].spec_le(#[trigger] deltas@[k]),
            forall|k: int| 0 <= k < best ==> deltas@[best as int].spec_lt(#[trigger] deltas@[k]),
        decreases n - j,
    {
        if deltas[j].lt(&deltas[best]) {
            proof {
                assert forall|k: int| 0 <= k < j implies deltas@[j as int].spec_lt(
                    #[trigger] deltas@[k],
                ) by {
                    crate::cost::lemma_cost_lt_le_trans(
                        deltas@[j as int],
                        deltas@[best as int],
                        deltas@[k],
                    );
                }
            }
            best = j;
        } else {
            proof {
                crate::cost::lemma_cost_total(deltas@[j as int], deltas@[best as int]);
            }
        }
        j += 1;
    }
    Some(best)
}

/// The engine's stop decision, from the policy's own verdict and the
/// state, in fixed priority: the policy's verdict wins; otherwise a passed
/// iteration bound stops with `MaxItersReached`; otherwise a best cost at
/// or under the target stops with `TargetCostReached`; otherwise the run
/// goes on.
pub open spec fn spec_decision(
    solver_status: Status,
    iter: u32,
    max_iters: u32,
    best: Cost,
    target: Cost,
) -> Status {
    if solver_status is Terminated {
        solver_status
    } else if max_iters <= iter {
        Status::Terminated(Reason::MaxItersReached)
    } else if best.spec_le(target) {
        Status::Terminated(Reason::TargetCostReached)
    } else {
        Status::NotTerminated
    }
}

/// The fixed-priority termination check, first matching condition winning.
pub fn termination_decision(
    solver_status: Status,
    iter: u32,
    max_iters: u32,
    best: &Cost,
    target: &Cost,
) -> (r: Status)
    ensures
        r == spec_decision(solver_status, iter, max_iters, *best, *target),
{
    if solver_status.terminated() {
        return solver_status;
    }
    if max_iters <= iter {
        return Status::Terminated(Reason::MaxItersReached);
    }
    if best.le(target) {
        return Status::Terminated(Reason::TargetCostReached);
    }
    Status::NotTerminated
}

/// A policy that has already decided to stop reports its own reason, even
/// for a state simultaneously past the iteration bound and at or under the
/// target cost.
pub proof fn lemma_policy_priority(
    solver_status: Status,
    iter: u32,
    max_iters: u32,
    best: Cost,
    target: Cost,
)
    requires
        solver_status is Terminated,
    ensures
        spec_decision(solver_status, iter, max_iters, best, target) == solver_status,
{
}

/// Without a policy verdict, a passed iteration bound wins over a reached
/// target cost.
pub proof fn lemma_max_iters_priority(iter: u32, max_iters: u32, best: Cost, target: Cost)
    requires
        max_iters <= iter,
    ensures
        spec_decision(Status::NotTerminated, iter, max_iters, best, target) == Status::Terminated(
            Reason::MaxItersReached,
        ),
{
}

/// The uniform capability of a search policy: prepare a configured state
/// (`init`), produce the next state (`next_iter`), and report a
/// policy-specific extra stop condition (`terminate`).
///
/// Neither `init` nor `next_iter` moves the iteration counter, the best
/// pair or the stop thresholds: that bookkeeping belongs to the executor.
/// Both expect a live parameter and leave one live.
pub trait Solver<O, I: State>: Sized {
    /// The policy's well-formedness, preserved by every call.
    spec fn wf(&self) -> bool;

    /// The policy's own stop verdict, as a function of its fields.
    spec fn terminate_spec(&self) -> Status;

    /// The policy's display name.
    fn name(&self) -> &'static str;

    /// Prepare the state before the first iteration; the default keeps it
    /// as it is.
    fn init(&mut self, _problem: &mut O, state: I) -> (r: Result<I, LocalSearchError>)
        requires
            old(self).wf(),
            state.spec_param() is Some,
        ensures
            final(self).wf(),
            r matches Ok(s) ==> {
                &&& s.spec_param() is Some
                &&& s.spec_iter() == state.spec_iter()
                &&& s.spec_best_cost() == state.spec_best_cost()
                &&& s.spec_best_param() == state.spec_best_param()
                &&& s.spec_last_best_iter() == state.spec_last_best_iter()
                &&& s.spec_max_iters() == state.spec_max_iters()
                &&& s.spec_target_cost() == state.spec_target_cost()
                &&& s.spec_status() == state.spec_status()
            },
    {
        Ok(state)
    }

    /// Produce the next state from the current one.
    fn next_iter(&mut self, problem: &mut O, state: I) -> (r: Result<I, LocalSearchError>)
        requires
            old(self).wf(),
            state.spec_param() is Some,
        ensures
            final(self).wf(),
            r matches Ok(s) ==> {
                &&& s.spec_param() is Some
                &&& s.spec_iter() == state.spec_iter()
                &&& s.spec_best_cost() == state.spec_best_cost()
                &&& s.spec_best_param() == state.spec_best_param()
                &&& s.spec_last_best_iter() == state.spec_last_best_iter()
                &&& s.spec_max_iters() == state.spec_max_iters()
                &&& s.spec_target_cost() == state.spec_target_cost()
                &&& s.spec_status() == state.spec_status()
            },
    ;

    /// The policy-specific extra stop condition.
    fn terminate(&mut self) -> (r: Status)
        requires
            old(self).wf(),
        ensures
            *final(self) == *old(self),
            r == old(self).terminate_spec(),
    ;

    /// The engine's stop decision for the given state (priority order:
    /// policy verdict, iteration bound, target cost).
    fn terminate_internal(&mut self, state: &I) -> (r: Status)
        requires
            old(self).wf(),
        ensures
            *final(self) == *old(self),
            r == spec_decision(
                old(self).terminate_spec(),
                state.spec_iter(),
                state.spec_max_iters(),
                state.spec_best_cost(),
                state.spec_target_cost(),
            ),
    {
        let solver_status = self.terminate();
        let best = state.get_best_cost();
        let target = state.get_target_cost();
        termination_decision(solver_status, state.get_iter(), state.get_max_iters(), &best, &target)
    }
}

} // verus!
