use vstd::prelude::*;

use crate::cost::{is_improving, sat64, Cost, Ratio};
use crate::errors::LocalSearchError;
use crate::parallel::eval_candidate_augmented_deltas;
use crate::problem::{
    bump64, AugmentedNeighborhood, CostFunction, Neighborhood, Param, Penalty, RandomSource,
};
use crate::solver::{bump32, select_min, Solver};
use crate::state::{Iteration, State};
use crate::termination::{Reason, Status};

verus! {

/// The integer units an infinite cost stands in for when the rescaled
/// coefficient is computed: the nearest representable bound.
pub open spec fn spec_cost_units(c: Cost) -> int {
    match c {
        Cost::Fin(v) => v as int,
        Cost::PosInf => i64::MAX as int,
        Cost::NegInf => i64::MIN as int,
    }
}

/// Clamp a product of positive factors into the range of `u64`.
pub open spec fn sat64u(v: int) -> int {
    if v > u64::MAX {
        u64::MAX as int
    } else {
        v
    }
}

/// The escape step's coefficient `lambda = alpha * cost / featureCount`,
/// cost and feature count both of the param whose sweep was exhausted, as
/// an exact fraction with saturating integer products; a feature count of
/// zero is read as one so the fraction stays well-formed.
pub open spec fn spec_lambda(alpha: Ratio, cost: Cost, nfeat: u32) -> Ratio {
    let f: int = if nfeat == 0 {
        1
    } else {
        nfeat as int
    };
    Ratio {
        num: sat64(spec_cost_units(cost) * alpha.num) as i64,
        den: sat64u(alpha.den * f) as u64,
    }
}

/// Compute `spec_lambda` exactly.
pub fn lambda_value(alpha: Ratio, cost: &Cost, nfeat: u32) -> (r: Ratio)
    requires
        alpha.wf(),
    ensures
        r == spec_lambda(alpha, *cost, nfeat),
        r.wf(),
{
    let units: i64 = match cost {
        Cost::Fin(v) => *v,
        Cost::PosInf => i64::MAX,
        Cost::NegInf => i64::MIN,
    };
    proof {
        assert((units > 0 && alpha.num > 0) ==> (units as int * alpha.num as int) > 0)
            by (nonlinear_arith);
        assert((units < 0 && alpha.num < 0) ==> (units as int * alpha.num as int) > 0)
            by (nonlinear_arith);
        assert((units > 0 && alpha.num < 0) ==> (units as int * alpha.num as int) < 0)
            by (nonlinear_arith);
        assert((units < 0 && alpha.num > 0) ==> (units as int * alpha.num as int) < 0)
            by (nonlinear_arith);
        assert(units == 0 ==> (units as int * alpha.num as int) == 0) by (nonlinear_arith);
        assert(alpha.num == 0 ==> (units as int * alpha.num as int) == 0) by (nonlinear_arith);
    }
    let num = match units.checked_mul(alpha.num) {
        Some(x) => x,
        None => {
            if (units > 0) == (alpha.num > 0) {
                i64::MAX
            } else {
                i64::MIN
            }
        },
    };
    let f: u64 = if nfeat == 0 {
        1
    } else {
        nfeat as u64
    };
    proof {
        assert(alpha.den >= 1 && f >= 1 ==> (alpha.den as int * f as int) >= 1)
            by (nonlinear_arith);
    }
    let den = match alpha.den.checked_mul(f) {
        Some(x) => x,
        None => u64::MAX,
    };
    Ratio { num, den }
}

/// Guided local search: the same persisted-buffer batching as
/// variable-neighborhood search, but candidates are ranked by augmented
/// delta (true delta plus the penalty contribution) and only strict
/// improvement is accepted.  A full sweep of the buffer without one
/// acceptance triggers the escape step: every feature present in the
/// current param is penalized one step, `lambda` is recomputed, and the
/// evaluated candidate move is forced through regardless of its augmented
/// cost — the canonical way out of an augmented local optimum.
pub struct GuidedLocalSearch<R, N> {
    pub num_neighbors: Option<u32>,
    pub cur_neighbors: Option<Vec<N>>,
    pub penalty: Penalty,
    pub stall_iter_best: u32,
    pub stall_iter_best_limit: u32,
    pub rng: R,
}

impl<R: RandomSource, N> GuidedLocalSearch<R, N> {
    /// A fresh policy: no buffered neighbors, empty penalty memory with
    /// the given `alpha`, and the stall counter at zero with no limit.
    pub fn new(num_neighbors: Option<u32>, alpha: Ratio, rng: R) -> (r: Self)
        requires
            alpha.wf(),
        ensures
            r.num_neighbors == num_neighbors,
            r.cur_neighbors is None,
            r.penalty.wf(),
            r.penalty.alpha == alpha,
            r.penalty.lambda == Ratio::spec_zero(),
            forall|f: u64| r.penalty.spec_weight(f) == 0,
            r.stall_iter_best == 0u32,
            r.stall_iter_best_limit == u32::MAX,
            r.rng == rng,
    {
        GuidedLocalSearch {
            num_neighbors,
            cur_neighbors: None,
            penalty: Penalty::new(alpha),
            stall_iter_best: 0,
            stall_iter_best_limit: u32::MAX,
            rng,
        }
    }

    /// Install penalty memory restored from elsewhere (a checkpoint).
    #[must_use]
    pub fn replace_penalty(self, penalty: Penalty) -> (r: Self)
        requires
            penalty.wf(),
        ensures
            r == (GuidedLocalSearch { penalty, ..self }),
    {
        let mut s = self;
        s.penalty = penalty;
        s
    }

    pub fn get_penalty(&self) -> (r: &Penalty)
        ensures
            *r == self.penalty,
    {
        &self.penalty
    }

    /// Set every accumulated penalty weight to the given value.
    pub fn calibrate_penalty(&mut self, ratio: u64)
        requires
            old(self).penalty.wf(),
        ensures
            final(self).penalty.wf(),
            final(self).penalty.alpha == old(self).penalty.alpha,
            final(self).penalty.lambda == old(self).penalty.lambda,
            forall|f: u64|
                final(self).penalty.spec_weight(f) == if old(self).penalty.spec_has(f) {
                    ratio
                } else {
                    0u64
                },
            final(self).num_neighbors == old(self).num_neighbors,
            final(self).cur_neighbors == old(self).cur_neighbors,
            final(self).stall_iter_best == old(self).stall_iter_best,
            final(self).stall_iter_best_limit == old(self).stall_iter_best_limit,
    {
        self.penalty.calibrate(ratio);
    }

    /// Bound the run of iterations without a new best; past it the policy
    /// reports `MaxStallBestReached`.  The counter itself restarts.
    #[must_use]
    pub fn with_stall_best(self, iter: u32) -> (r: Self)
        ensures
            r == (GuidedLocalSearch { stall_iter_best: 0u32, stall_iter_best_limit: iter, ..self }),
    {
        let mut s = self;
        s.stall_iter_best = 0;
        s.stall_iter_best_limit = iter;
        s
    }

    /// The stall counter resets on a new best and climbs otherwise.
    fn update_stall_iter(&mut self, new_best: bool)
        ensures
            *final(self) == (GuidedLocalSearch {
                stall_iter_best: if new_best {
                    0u32
                } else {
                    bump32(old(self).stall_iter_best)
                },
                ..*old(self)
            }),
    {
        self.stall_iter_best = if new_best {
            0
        } else if self.stall_iter_best == u32::MAX {
            self.stall_iter_best
        } else {
            self.stall_iter_best + 1
        };
    }
}

impl<R: RandomSource, N> GuidedLocalSearch<R, N> {
    /// The escape step, taken when a full sweep of the buffer was drained
    /// with zero acceptances: every feature present in the current param
    /// has its penalty weight raised by exactly one step, and the
    /// coefficient is recomputed as `lambda = alpha * cost / featureCount`
    /// with both factors — the true cost and the feature count — taken
    /// from that same current param, whose neighborhood was exhausted.
    /// The cost and count the problem reported come back to the caller.
    fn escape_step<O, P>(&mut self, problem: &O, prev_param: &P) -> (r: Result<
        (Cost, u32),
        LocalSearchError,
    >) where
        O: CostFunction<Param = P> + AugmentedNeighborhood<Param = P, Neighbor = N>,

        requires
            old(self).penalty.wf(),
        ensures
            final(self).penalty.wf(),
            final(self).num_neighbors == old(self).num_neighbors,
            final(self).cur_neighbors == old(self).cur_neighbors,
            final(self).stall_iter_best == old(self).stall_iter_best,
            final(self).stall_iter_best_limit == old(self).stall_iter_best_limit,
            r matches Ok(cn) ==> {
                &&& final(self).penalty.alpha == old(self).penalty.alpha
                &&& forall|f: u64|
                    final(self).penalty.spec_weight(f) == if problem.spec_features(
                        *prev_param,
                    ).contains(f) {
                        bump64(old(self).penalty.spec_weight(f))
                    } else {
                        old(self).penalty.spec_weight(f)
                    }
                &&& final(self).penalty.lambda == spec_lambda(
                    old(self).penalty.alpha,
                    cn.0,
                    cn.1,
                )
            },
    {
        let upd = problem.update_penalty(prev_param, &mut self.penalty);
        match upd {
            Ok(_) => {},
            Err(e) => {
                return Err(e);
            },
        }
        // the weights as the bookkeeping call left them, before the
        // coefficient write below
        let ghost mid = self.penalty;
        proof {
            assert(forall|f: u64|
                mid.spec_weight(f) == if problem.spec_features(*prev_param).contains(f) {
                    crate::problem::bump64(old(self).penalty.spec_weight(f))
                } else {
                    old(self).penalty.spec_weight(f)
                });
        }
        let own_cost = match problem.cost(prev_param) {
            Ok(c) => c,
            Err(e) => {
                return Err(e);
            },
        };
        let nfeat = match problem.number_of_features(prev_param) {
            Ok(n) => n,
            Err(e) => {
                return Err(e);
            },
        };
        let alpha = self.penalty.alpha;
        self.penalty.lambda = lambda_value(alpha, &own_cost, nfeat);
        // only the coefficient changed: every weight reads as before
        proof {
            assert(self.penalty.values@ == mid.values@);
            assert forall|f: u64|
                self.penalty.spec_weight(f) == (if problem.spec_features(*prev_param).contains(
                    f,
                ) {
                    crate::problem::bump64(old(self).penalty.spec_weight(f))
                } else {
                    old(self).penalty.spec_weight(f)
                }) by {
                if mid.spec_has(f) {
                    let k = choose|k: int| 0 <= k < mid.values@.len() && mid.values@[k].0 == f;
                    assert(self.penalty.values@[k].0 == f);
                    assert(self.penalty.spec_has(f));
                    let k2 = choose|k2: int|
                        0 <= k2 < self.penalty.values@.len() && self.penalty.values@[k2].0 == f;
                    assert(k2 == k);
                } else {
                    if self.penalty.spec_has(f) {
                        let k2 = choose|k2: int|
                            0 <= k2 < self.penalty.values@.len() && self.penalty.values@[k2].0
                                == f;
                        assert(mid.values@[k2].0 == f);
                        assert(false);
                    }
                }
                assert(self.penalty.spec_weight(f) == mid.spec_weight(f));
            }
        }
        Ok((own_cost, nfeat))
    }
}

impl<O, P, R, N> Solver<O, Iteration<P>> for GuidedLocalSearch<R, N> where
    O: CostFunction<Param = P> + Neighborhood<Param = P, Neighbor = N> + AugmentedNeighborhood<
        Param = P,
        Neighbor = N,
    > + Send + Sync,
    P: Param + Send + Sync,
    R: RandomSource,
    N: Send + Sync,
 {
    open spec fn wf(&self) -> bool {
        self.penalty.wf()
    }

    open spec fn terminate_spec(&self) -> Status {
        if self.stall_iter_best_limit < self.stall_iter_best {
            Status::Terminated(Reason::MaxStallBestReached)
        } else {
            Status::NotTerminated
        }
    }

    fn name(&self) -> &'static str {
        "GuidedLocalSearch"
    }

    /// Score the configured parameter.
    fn init(&mut self, problem: &mut O, state: Iteration<P>) -> (r: Result<
        Iteration<P>,
        LocalSearchError,
    >)
        ensures
            *final(self) == *old(self),
            r matches Ok(s) ==> {
                &&& s.param == state.param
                &&& s.prev_param is None
                &&& s.prev_cost == state.cost
                &&& s.prev_best_param == state.prev_best_param
                &&& s.prev_best_cost == state.prev_best_cost
                &&& s.time == state.time
                &&& s.max_time == state.max_time
            },
    {
        let mut state = state;
        let param = state.take_param().unwrap();
        let cost = match problem.cost(&param) {
            Ok(c) => c,
            Err(e) => {
                return Err(e);
            },
        };
        Ok(state.param(param).cost(cost))
    }

    /// One sweep step over augmented deltas: up to the cap is drained
    /// from the front of the buffer, the minimum-augmented-delta move is
    /// applied, and only strict improvement is accepted.  A kept buffer
    /// means the sweep was rejected: the previous param is repeated and,
    /// as this engine has always done, the cost installed is the one from
    /// the previous slot (recorded two installs back).  A fully drained
    /// sweep with no acceptance triggers the escape step and the move is
    /// forced through.
    fn next_iter(&mut self, problem: &mut O, state: Iteration<P>) -> (r: Result<
        Iteration<P>,
        LocalSearchError,
    >)
        ensures
            final(self).num_neighbors == old(self).num_neighbors,
            final(self).stall_iter_best_limit == old(self).stall_iter_best_limit,
            final(self).cur_neighbors matches Some(v) ==> v@.len() > 0,
            old(self).cur_neighbors matches Some(b)
                ==> (final(self).cur_neighbors matches Some(v)
                ==> v@.len() <= b@.len() && v@ == b@.subrange(b@.len() - v@.len(), b@.len() as int)),
            r matches Ok(s) ==> {
                &&& final(self).penalty.alpha == old(self).penalty.alpha
                &&& s.prev_param is None
                &&& s.prev_cost == state.cost
                &&& s.prev_best_param == state.prev_best_param
                &&& s.prev_best_cost == state.prev_best_cost
                &&& s.time == state.time
                &&& s.max_time == state.max_time
                &&& (final(self).cur_neighbors is Some ==> s.param == state.param && s.cost
                    == state.prev_cost)
            },
    {
        let mut state = state;
        let prev_param = state.take_param().unwrap();

        let mut neighbors = match self.cur_neighbors.take() {
            Some(n) => n,
            None => match problem.get_neighbor_moves(&mut self.rng, &prev_param) {
                Ok(n) => n,
                Err(e) => {
                    return Err(e);
                },
            },
        };

        let count = match self.num_neighbors {
            Some(v) => {
                if (v as usize) <= neighbors.len() {
                    v as usize
                } else {
                    neighbors.len()
                }
            },
            None => neighbors.len(),
        };

        let deltas = match eval_candidate_augmented_deltas(
            &*problem,
            &prev_param,
            &neighbors,
            &self.penalty,
            count,
        ) {
            Ok(d) => d,
            Err(e) => {
                return Err(e);
            },
        };

        let picked = select_min(&deltas);
        let (chosen, delta) = match picked {
            Some(i) => {
                let d = deltas[i];
                (Some(i), d)
            },
            None => (None, Cost::Fin(0)),
        };

        let new_param = match chosen {
            Some(i) => match problem.make_move(&prev_param, &neighbors[i]) {
                Ok(p) => p,
                Err(e) => {
                    return Err(e);
                },
            },
            None => prev_param.duplicate(),
        };

        let mut accepted = is_improving(&delta);

        let true_cost = match problem.cost(&new_param) {
            Ok(c) => c,
            Err(e) => {
                return Err(e);
            },
        };
        let new_best_found = true_cost.lt(&state.get_best_cost());
        self.update_stall_iter(new_best_found);

        let rest = neighbors.split_off(count);
        let drained = rest.is_empty();
        if drained {
            self.cur_neighbors = None;
        } else {
            self.cur_neighbors = Some(rest);
        }

        if drained && !accepted {
            match self.escape_step(&*problem, &prev_param) {
                Ok(_) => {},
                Err(e) => {
                    return Err(e);
                },
            }
            accepted = true;
        }

        if accepted {
            self.cur_neighbors = None;
            Ok(state.param(new_param).cost(true_cost))
        } else {
            let prev_cost = state.get_prev_cost();
            Ok(state.param(prev_param).cost(prev_cost))
        }
    }

    fn terminate(&mut self) -> (r: Status) {
        if self.stall_iter_best_limit < self.stall_iter_best {
            return Status::Terminated(Reason::MaxStallBestReached);
        }
        Status::NotTerminated
    }
}

} // verus!
