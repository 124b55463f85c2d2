use vstd::prelude::*;

use core::cmp::Ordering;

use crate::state::State;

verus! {

/// What a finished run hands back: the problem, the policy and the final
/// state, bundled for reporting.
#[derive(Clone, Debug)]
pub struct LocalSearchSolution<O, S, I> {
    pub problem: O,
    pub solver: S,
    pub state: I,
}

impl<O, S, I> LocalSearchSolution<O, S, I> {
    pub fn new(problem: O, solver: S, state: I) -> (r: Self)
        ensures
            r.problem == problem,
            r.solver == solver,
            r.state == state,
    {
        LocalSearchSolution { problem, solver, state }
    }

    pub fn problem(&self) -> (r: &O)
        ensures
            *r == self.problem,
    {
        &self.problem
    }

    pub fn solver(&self) -> (r: &S)
        ensures
            *r == self.solver,
    {
        &self.solver
    }

    pub fn state(&self) -> (r: &I)
        ensures
            *r == self.state,
    {
        &self.state
    }

    pub fn take_result(self) -> (r: (O, S, I))
        ensures
            r == (self.problem, self.solver, self.state),
    {
        (self.problem, self.solver, self.state)
    }
}

/// Two solutions compare by their best cost alone (costs are exact
/// integers, so equality is plain equality).
impl<O, S, I: State> PartialEq for LocalSearchSolution<O, S, I> {
    fn eq(&self, other: &Self) -> (r: bool) {
        let a = self.state.get_best_cost();
        let b = other.state.get_best_cost();
        a == b
    }
}

impl<O, S, I: State> vstd::std_specs::cmp::PartialEqSpecImpl for LocalSearchSolution<O, S, I> {
    open spec fn obeys_eq_spec() -> bool {
        true
    }

    open spec fn eq_spec(&self, other: &Self) -> bool {
        self.state.spec_best_cost() == other.state.spec_best_cost()
    }
}

impl<O, S, I: State> Eq for LocalSearchSolution<O, S, I> {

}

impl<O, S, I: State> PartialOrd for LocalSearchSolution<O, S, I> {
    fn partial_cmp(&self, other: &Self) -> (r: Option<Ordering>) {
        let a = self.state.get_best_cost();
        let b = other.state.get_best_cost();
        if a == b {
            Some(Ordering::Equal)
        } else if a.lt(&b) {
            Some(Ordering::Less)
        } else {
            Some(Ordering::Greater)
        }
    }
}

impl<O, S, I: State> vstd::std_specs::cmp::PartialOrdSpecImpl for LocalSearchSolution<O, S, I> {
    open spec fn obeys_partial_cmp_spec() -> bool {
        true
    }

    open spec fn partial_cmp_spec(&self, other: &Self) -> Option<Ordering> {
        if self.state.spec_best_cost() == other.state.spec_best_cost() {
            Some(Ordering::Equal)
        } else if self.state.spec_best_cost().spec_lt(other.state.spec_best_cost()) {
            Some(Ordering::Less)
        } else {
            Some(Ordering::Greater)
        }
    }
}

} // verus!
