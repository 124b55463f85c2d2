use vstd::prelude::*;

use crate::cost::Cost;
use crate::errors::LocalSearchError;
use crate::parallel::eval_candidate_deltas;
use crate::problem::{CostFunction, Neighborhood, Param, RandomSource};
use crate::solver::{bump32, decide_acceptance, select_min, Solver};
use crate::state::{Iteration, State};
use crate::termination::{Reason, Status};

verus! {

/// Variable-neighborhood search: a buffer of not-yet-evaluated neighbors
/// persists across iterations.  Each call drains up to the configured cap
/// from the buffer (fetching a fresh batch when it is empty), scores the
/// drained candidates' cheap deltas in parallel, applies the
/// minimum-delta move, and accepts by the annealing rule.  Acceptance
/// resets the neighborhood around the new point by discarding the rest of
/// the buffer; rejection keeps it, so the same neighborhood is swept
/// further before giving up.
pub struct VariableNeighborhood<R, N> {
    pub num_neighbors: Option<u32>,
    pub cur_neighbors: Option<Vec<N>>,
    pub init_temp: i64,
    pub stall_iter_best: u32,
    pub stall_iter_best_limit: u32,
    pub rng: R,
}

impl<R: RandomSource, N> VariableNeighborhood<R, N> {
    /// A fresh policy: no buffered neighbors, the stall counter at zero
    /// with no limit, and the customary initial temperature of one
    /// hundred cost units.
    pub fn new(num_neighbors: Option<u32>, rng: R) -> (r: Self)
        ensures
            r.num_neighbors == num_neighbors,
            r.cur_neighbors is None,
            r.init_temp == 100i64,
            r.stall_iter_best == 0u32,
            r.stall_iter_best_limit == u32::MAX,
            r.rng == rng,
    {
        VariableNeighborhood {
            num_neighbors,
            cur_neighbors: None,
            init_temp: 100,
            stall_iter_best: 0,
            stall_iter_best_limit: u32::MAX,
            rng,
        }
    }

    /// Bound the run of iterations without a new best; past it the policy
    /// reports `MaxStallBestReached`.
    #[must_use]
    pub fn with_stall_best(self, iter: u32) -> (r: Self)
        ensures
            r == (VariableNeighborhood { stall_iter_best_limit: iter, ..self }),
    {
        let mut s = self;
        s.stall_iter_best_limit = iter;
        s
    }

    /// Set the initial temperature of the annealing acceptance rule, in
    /// cost units.
    #[must_use]
    pub fn with_init_temp(self, init_temp: i64) -> (r: Self)
        ensures
            r == (VariableNeighborhood { init_temp, ..self }),
    {
        let mut s = self;
        s.init_temp = init_temp;
        s
    }

    /// The stall counter resets on a new best and climbs otherwise.
    fn update_stall_iter(&mut self, new_best: bool)
        ensures
            *final(self) == (VariableNeighborhood {
                stall_iter_best: if new_best {
                    0u32
                } else {
                    bump32(old(self).stall_iter_best)
                },
                ..*old(self)
            }),
    {
        self.stall_iter_best = if new_best {
            0
        } else if self.stall_iter_best == u32::MAX {
            self.stall_iter_best
        } else {
            self.stall_iter_best + 1
        };
    }
}

impl<O, P, R, N> Solver<O, Iteration<P>> for VariableNeighborhood<R, N> where
    O: CostFunction<Param = P> + Neighborhood<Param = P, Neighbor = N> + Send + Sync,
    P: Param + Send + Sync,
    R: RandomSource,
    N: Send + Sync,
 {
    /// The policy carries no invariant of its own.
    open spec fn wf(&self) -> bool {
        true
    }

    open spec fn terminate_spec(&self) -> Status {
        if self.stall_iter_best_limit < self.stall_iter_best {
            Status::Terminated(Reason::MaxStallBestReached)
        } else {
            Status::NotTerminated
        }
    }

    fn name(&self) -> &'static str {
        "VariableNeighborhood"
    }

    /// Score the configured parameter.
    fn init(&mut self, problem: &mut O, state: Iteration<P>) -> (r: Result<
        Iteration<P>,
        LocalSearchError,
    >)
        ensures
            *final(self) == *old(self),
            r matches Ok(s) ==> {
                &&& s.param == state.param
                &&& s.prev_param is None
                &&& s.prev_cost == state.cost
                &&& s.prev_best_param == state.prev_best_param
                &&& s.prev_best_cost == state.prev_best_cost
                &&& s.time == state.time
                &&& s.max_time == state.max_time
            },
    {
        let mut state = state;
        let param = state.take_param().unwrap();
        let cost = match problem.cost(&param) {
            Ok(c) => c,
            Err(e) => {
                return Err(e);
            },
        };
        Ok(state.param(param).cost(cost))
    }

    /// One sweep step: up to the cap is drained from the front of the
    /// buffer (a fresh batch is fetched when it is empty), the
    /// minimum-delta candidate is applied, and the annealing rule
    /// decides; acceptance discards the rest of the buffer, rejection
    /// keeps it for the next call.
    fn next_iter(&mut self, problem: &mut O, state: Iteration<P>) -> (r: Result<
        Iteration<P>,
        LocalSearchError,
    >)
        ensures
            final(self).num_neighbors == old(self).num_neighbors,
            final(self).init_temp == old(self).init_temp,
            final(self).stall_iter_best_limit == old(self).stall_iter_best_limit,
            final(self).cur_neighbors matches Some(v) ==> v@.len() > 0,
            old(self).cur_neighbors matches Some(b)
                ==> (final(self).cur_neighbors matches Some(v)
                ==> v@.len() <= b@.len() && v@ == b@.subrange(b@.len() - v@.len(), b@.len() as int)),
            r matches Ok(s) ==> {
                &&& s.prev_param is None
                &&& s.prev_cost == state.cost
                &&& s.prev_best_param == state.prev_best_param
                &&& s.prev_best_cost == state.prev_best_cost
                &&& s.time == state.time
                &&& s.max_time == state.max_time
                &&& (s.param == state.param || final(self).cur_neighbors is None)
            },
    {
        let mut state = state;
        let prev_param = state.take_param().unwrap();
        let prev_cost = state.get_cost();

        let mut neighbors = match self.cur_neighbors.take() {
            Some(n) => n,
            None => match problem.get_neighbor_moves(&mut self.rng, &prev_param) {
                Ok(n) => n,
                Err(e) => {
                    return Err(e);
                },
            },
        };

        let count = match self.num_neighbors {
            Some(v) => {
                if (v as usize) <= neighbors.len() {
                    v as usize
                } else {
                    neighbors.len()
                }
            },
            None => neighbors.len(),
        };

        let deltas = match eval_candidate_deltas(&*problem, &prev_param, &neighbors, count) {
            Ok(d) => d,
            Err(e) => {
                return Err(e);
            },
        };

        let picked = select_min(&deltas);
        let (chosen, delta) = match picked {
            Some(i) => {
                let d = deltas[i];
                (Some(i), d)
            },
            None => (None, Cost::Fin(0)),
        };

        let new_param = match chosen {
            Some(i) => match problem.make_move(&prev_param, &neighbors[i]) {
                Ok(p) => p,
                Err(e) => {
                    return Err(e);
                },
            },
            None => prev_param.duplicate(),
        };

        let accepted = decide_acceptance(&mut self.rng, &delta, state.get_iter(), self.init_temp);

        let new_cost = prev_cost.plus(&delta);
        let new_best_found = new_cost.lt(&state.get_best_cost());
        self.update_stall_iter(new_best_found);

        if accepted {
            self.cur_neighbors = None;
            Ok(state.param(new_param).cost(new_cost))
        } else {
            let rest = neighbors.split_off(count);
            if rest.is_empty() {
                self.cur_neighbors = None;
            } else {
                self.cur_neighbors = Some(rest);
            }
            Ok(state.param(prev_param).cost(prev_cost))
        }
    }

    fn terminate(&mut self) -> (r: Status) {
        if self.stall_iter_best_limit < self.stall_iter_best {
            return Status::Terminated(Reason::MaxStallBestReached);
        }
        Status::NotTerminated
    }
}

} // verus!
