use vstd::prelude::*;

use crate::cost::Cost;
use crate::errors::LocalSearchError;
use crate::parallel::eval_candidate_costs;
use crate::problem::{CostFunction, Neighborhood, Param, RandomSource};
use crate::solver::{bump32, decide_acceptance, Solver};
use crate::state::{Iteration, State};
use crate::termination::{Reason, Status};

verus! {

/// What one insertion does to the model of the tabu list: at capacity the
/// oldest entry leaves, and the new one joins at the young end.
pub open spec fn spec_tabu_insert<P>(s: Seq<P>, cap: int, p: P) -> Seq<P> {
    if cap <= 0 {
        s
    } else if s.len() >= cap {
        s.drop_first().push(p)
    } else {
        s.push(p)
    }
}

pub open spec fn spec_tabu_insert_all<P>(s: Seq<P>, cap: int, ps: Seq<P>) -> Seq<P>
    decreases ps.len(),
{
    if ps.len() == 0 {
        s
    } else {
        spec_tabu_insert_all(spec_tabu_insert(s, cap, ps[0]), cap, ps.drop_first())
    }
}

/// An entry at position `i` of a list within capacity survives any run of
/// further insertions shorter than `i + cap - len + 1` (each insertion
/// moves it one step closer to the old end, no faster).
proof fn lemma_tabu_retention_at<P>(s: Seq<P>, cap: int, p: P, i: int, later: Seq<P>)
    requires
        cap >= 1,
        s.len() <= cap,
        0 <= i < s.len(),
        s[i] == p,
        later.len() < i + cap - s.len() + 1,
    ensures
        spec_tabu_insert_all(s, cap, later).contains(p),
    decreases later.len(),
{
    if later.len() == 0 {
        assert(spec_tabu_insert_all(s, cap, later) == s);
        assert(s.contains(p)) by {
            assert(s[i] == p);
        }
    } else {
        let s1 = spec_tabu_insert(s, cap, later[0]);
        if s.len() >= cap {
            assert(s1 == s.drop_first().push(later[0]));
            assert(i >= 1);
            assert(s1[i - 1] == s[i]);
            lemma_tabu_retention_at(s1, cap, p, i - 1, later.drop_first());
        } else {
            assert(s1 == s.push(later[0]));
            assert(s1[i] == s[i]);
            lemma_tabu_retention_at(s1, cap, p, i, later.drop_first());
        }
        assert(spec_tabu_insert_all(s, cap, later) == spec_tabu_insert_all(
            s1,
            cap,
            later.drop_first(),
        ));
    }
}

/// A param just inserted into a tabu list of capacity `cap` is still in
/// the list after any fewer than `cap` further insertions — so, with the
/// selection rule never choosing a listed param, it cannot be re-selected
/// as the winning candidate until `cap` further insertions have occurred.
pub proof fn lemma_tabu_retention<P>(s: Seq<P>, cap: int, p: P, later: Seq<P>)
    requires
        cap >= 1,
        s.len() <= cap,
        later.len() < cap,
    ensures
        spec_tabu_insert_all(spec_tabu_insert(s, cap, p), cap, later).contains(p),
{
    let s1 = spec_tabu_insert(s, cap, p);
    if s.len() >= cap {
        assert(s1 == s.drop_first().push(p));
        assert(s1[s1.len() - 1] == p);
        lemma_tabu_retention_at(s1, cap, p, s1.len() - 1, later);
    } else {
        assert(s1 == s.push(p));
        assert(s1[s1.len() - 1] == p);
        lemma_tabu_retention_at(s1, cap, p, s1.len() - 1, later);
    }
}

/// The bounded FIFO of recently produced params: fixed capacity set at
/// construction, oldest entry evicted on overflow.  A list of capacity
/// zero stays empty.
pub struct TabuList<P> {
    items: Vec<P>,
    capacity: usize,
}

impl<P: Param> TabuList<P> {
    pub closed spec fn spec_items(&self) -> Seq<P> {
        self.items@
    }

    pub closed spec fn spec_cap(&self) -> int {
        self.capacity as int
    }

    pub open spec fn wf(&self) -> bool {
        self.spec_items().len() <= self.spec_cap()
    }

    pub open spec fn spec_contains(&self, p: P) -> bool {
        self.spec_items().contains(p)
    }

    pub fn new(capacity: usize) -> (r: Self)
        ensures
            r.spec_items() == Seq::<P>::empty(),
            r.spec_cap() == capacity,
            r.wf(),
    {
        TabuList { items: Vec::new(), capacity }
    }

    pub fn contains(&self, p: &P) -> (r: bool)
        ensures
            r == self.spec_contains(*p),
    {
        let n = self.items.len();
        let mut i: usize = 0;
        while i < n
            invariant
                n == self.items@.len(),
                0 <= i <= n,
                forall|j: int| 0 <= j < i ==> self.items@[j] != *p,
            decreases n - i,
        {
            if self.items[i].same_as(p) {
                proof {
                    assert(self.spec_items()[i as int] == *p);
                }
                return true;
            }
            i += 1;
        }
        proof {
            if self.spec_contains(*p) {
                let k = choose|k: int| 0 <= k < self.items@.len() && self.items@[k] == *p;
                assert(false);
            }
        }
        false
    }

    /// Put a param in, evicting the oldest entry when at capacity.
    pub fn insert(&mut self, p: P)
        requires
            old(self).wf(),
        ensures
            final(self).wf(),
            final(self).spec_cap() == old(self).spec_cap(),
            final(self).spec_items() == spec_tabu_insert(
                old(self).spec_items(),
                old(self).spec_cap(),
                p,
            ),
    {
        if self.capacity == 0 {
            return ;
        }
        if self.items.len() >= self.capacity {
            self.items.remove(0);
            proof {
                assert(self.items@ =~= old(self).items@.drop_first());
            }
        }
        self.items.push(p);
    }
}

/// The lowest-index minimum-cost candidate whose param is not in the tabu
/// list; `None` exactly when every candidate is listed.  Ties among equal
/// minimal costs are broken deterministically toward the lowest candidate
/// index.
pub fn select_non_tabu<P: Param>(cands: &Vec<(P, Cost)>, tabu: &TabuList<P>) -> (r: Option<usize>)
    ensures
        match r {
            Some(i) => {
                &&& 0 <= i < cands@.len()
                &&& !tabu.spec_contains(cands@[i as int].0)
                &&& forall|j: int|
                    0 <= j < cands@.len() && !tabu.spec_contains(#[trigger] cands@[j].0)
                        ==> cands@[i as int].1.spec_le(cands@[j].1)
                &&& forall|j: int|
                    0 <= j < i && !tabu.spec_contains(#[trigger] cands@[j].0)
                        ==> cands@[i as int].1.spec_lt(cands@[j].1)
            },
            None => forall|j: int|
                0 <= j < cands@.len() ==> tabu.spec_contains(#[trigger] cands@[j].0),
        },
{
    let n = cands.len();
    let mut best: Option<usize> = None;
    let mut j: usize = 0;
    while j < n
        invariant
            n == cands@.len(),
            0 <= j <= n,
            match best {
                Some(i) => {
                    &&& 0 <= i < j
                    &&& !tabu.spec_contains(cands@[i as int].0)
                    &&& forall|k: int|
                        0 <= k < j && !tabu.spec_contains(#[trigger] cands@[k].0)
                            ==> cands@[i as int].1.spec_le(cands@[k].1)
                    &&& forall|k: int|
                        0 <= k < i && !tabu.spec_contains(#[trigger] cands@[k].0)
                            ==> cands@[i as int].1.spec_lt(cands@[k].1)
                },
                None => forall|k: int|
                    0 <= k < j ==> tabu.spec_contains(#[trigger] cands@[k].0),
            },
        decreases n - j,
    {
        let listed = tabu.contains(&cands[j].0);
        if !listed {
            best = match best {
                Some(i) => {
                    if cands[j].1.lt(&cands[i].1) {
                        proof {
                            assert forall|k: int|
                                0 <= k < j && !tabu.spec_contains(#[trigger] cands@[k].0) implies
                                cands@[j as int].1.spec_lt(cands@[k].1) by {
                                crate::cost::lemma_cost_lt_le_trans(
                                    cands@[j as int].1,
                                    cands@[i as int].1,
                                    cands@[k].1,
                                );
                            }
                        }
                        Some(j)
                    } else {
                        proof {
                            crate::cost::lemma_cost_total(
                                cands@[j as int].1,
                                cands@[i as int].1,
                            );
                        }
                        Some(i)
                    }
                },
                None => Some(j),
            };
        }
        j += 1;
    }
    best
}

/// Tabu search: each iteration draws a capped batch of candidate
/// neighbors, scores every candidate's resulting param in parallel,
/// selects the cheapest candidate not in the tabu list (repeating the
/// previous param when all are listed), always records the selected param
/// in the list, and accepts the move when it strictly improves or when the
/// annealing draw of the random source says so.
pub struct TabuSearch<R, P> {
    pub num_neighbors: Option<u32>,
    pub tabu_list: TabuList<P>,
    pub stall_iter_accepted: u32,
    pub stall_iter_accepted_limit: u32,
    pub stall_iter_best: u32,
    pub stall_iter_best_limit: u32,
    pub init_temp: i64,
    pub rng: R,
}

impl<R: RandomSource, P: Param> TabuSearch<R, P> {
    /// A fresh policy: an empty tabu list of the given capacity, stall
    /// counters at zero with no limits, and the customary initial
    /// temperature of one hundred cost units.
    pub fn new(num_neighbors: Option<u32>, capacity: usize, rng: R) -> (r: Self)
        ensures
            r.tabu_list.spec_items() == Seq::<P>::empty(),
            r.tabu_list.spec_cap() == capacity,
            r.num_neighbors == num_neighbors,
            r.stall_iter_accepted == 0u32,
            r.stall_iter_accepted_limit == u32::MAX,
            r.stall_iter_best == 0u32,
            r.stall_iter_best_limit == u32::MAX,
            r.init_temp == 100i64,
            r.rng == rng,
            r.tabu_list.wf(),
    {
        TabuSearch {
            num_neighbors,
            tabu_list: TabuList::new(capacity),
            stall_iter_accepted: 0,
            stall_iter_accepted_limit: u32::MAX,
            stall_iter_best: 0,
            stall_iter_best_limit: u32::MAX,
            init_temp: 100,
            rng,
        }
    }

    /// Bound the run of iterations without an accepted move.  The counter
    /// is tracked but wired into no stop condition.
    #[must_use]
    pub fn with_stall_accepted(self, iter: u32) -> (r: Self)
        ensures
            r == (TabuSearch { stall_iter_accepted_limit: iter, ..self }),
    {
        let mut s = self;
        s.stall_iter_accepted_limit = iter;
        s
    }

    /// Bound the run of iterations without a new best; past it the policy
    /// reports `MaxStallBestReached`.
    #[must_use]
    pub fn with_stall_best(self, iter: u32) -> (r: Self)
        ensures
            r == (TabuSearch { stall_iter_best_limit: iter, ..self }),
    {
        let mut s = self;
        s.stall_iter_best_limit = iter;
        s
    }

    /// Set the initial temperature of the annealing acceptance rule, in
    /// cost units.
    #[must_use]
    pub fn with_init_temp(self, init_temp: i64) -> (r: Self)
        ensures
            r == (TabuSearch { init_temp, ..self }),
    {
        let mut s = self;
        s.init_temp = init_temp;
        s
    }

    /// Each stall counter resets on its event and climbs otherwise.
    fn update_stall_iter(&mut self, accepted: bool, new_best: bool)
        ensures
            *final(self) == (TabuSearch {
                stall_iter_accepted: if accepted {
                    0u32
                } else {
                    bump32(old(self).stall_iter_accepted)
                },
                stall_iter_best: if new_best {
                    0u32
                } else {
                    bump32(old(self).stall_iter_best)
                },
                ..*old(self)
            }),
    {
        self.stall_iter_accepted = if accepted {
            0
        } else if self.stall_iter_accepted == u32::MAX {
            self.stall_iter_accepted
        } else {
            self.stall_iter_accepted + 1
        };
        self.stall_iter_best = if new_best {
            0
        } else if self.stall_iter_best == u32::MAX {
            self.stall_iter_best
        } else {
            self.stall_iter_best + 1
        };
    }
}

impl<O, P, R, N> Solver<O, Iteration<P>> for TabuSearch<R, P> where
    O: CostFunction<Param = P> + Neighborhood<Param = P, Neighbor = N> + Send + Sync,
    P: Param + Send + Sync,
    R: RandomSource,
    N: Send + Sync,
 {
    open spec fn wf(&self) -> bool {
        self.tabu_list.wf()
    }

    open spec fn terminate_spec(&self) -> Status {
        if self.stall_iter_best_limit < self.stall_iter_best {
            Status::Terminated(Reason::MaxStallBestReached)
        } else {
            Status::NotTerminated
        }
    }

    fn name(&self) -> &'static str {
        "TabuSearch"
    }

    /// Score the configured parameter when no finite cost is recorded
    /// yet; a state that already carries a finite cost keeps it, with no
    /// fallible call made.
    fn init(&mut self, problem: &mut O, state: Iteration<P>) -> (r: Result<
        Iteration<P>,
        LocalSearchError,
    >)
        ensures
            *final(self) == *old(self),
            !state.spec_cost().is_infinite() ==> r is Ok,
            r is Err ==> state.spec_cost().is_infinite(),
            r matches Ok(s) ==> {
                &&& s.param == state.param
                &&& s.prev_param is None
                &&& s.prev_cost == state.cost
                &&& s.prev_best_param == state.prev_best_param
                &&& s.prev_best_cost == state.prev_best_cost
                &&& s.time == state.time
                &&& s.max_time == state.max_time
                &&& (!state.spec_cost().is_infinite() ==> s.cost == state.cost)
            },
    {
        let mut state = state;
        let param = state.take_param().unwrap();
        let recorded = state.get_cost();
        let cost = if recorded.infinite() {
            match problem.cost(&param) {
                Ok(c) => c,
                Err(e) => {
                    return Err(e);
                },
            }
        } else {
            recorded
        };
        Ok(state.param(param).cost(cost))
    }

    /// One step: a capped batch of candidates, scored in parallel; the
    /// cheapest one not in the tabu list wins (the previous pair is
    /// repeated when all are listed); the selected param is recorded in
    /// the list either way; the move is accepted when strictly improving
    /// or when the annealing draw says so.
    fn next_iter(&mut self, problem: &mut O, state: Iteration<P>) -> (r: Result<
        Iteration<P>,
        LocalSearchError,
    >)
        ensures
            final(self).num_neighbors == old(self).num_neighbors,
            final(self).init_temp == old(self).init_temp,
            final(self).stall_iter_accepted_limit == old(self).stall_iter_accepted_limit,
            final(self).stall_iter_best_limit == old(self).stall_iter_best_limit,
            final(self).tabu_list.spec_cap() == old(self).tabu_list.spec_cap(),
            r matches Ok(s) ==> {
                &&& s.prev_param is None
                &&& s.prev_cost == state.cost
                &&& s.prev_best_param == state.prev_best_param
                &&& s.prev_best_cost == state.prev_best_cost
                &&& s.time == state.time
                &&& s.max_time == state.max_time
                &&& ((s.param == state.param && s.cost == state.cost) || (
                s.param matches Some(p) && !old(self).tabu_list.spec_contains(p)))
                &&& exists|q: P|
                    final(self).tabu_list.spec_items() == spec_tabu_insert(
                        old(self).tabu_list.spec_items(),
                        old(self).tabu_list.spec_cap(),
                        q,
                    )
            },
    {
        let mut state = state;
        let prev_param = state.take_param().unwrap();
        let prev_cost = state.get_cost();

        let mut neighbors = match problem.get_neighbor_moves(&mut self.rng, &prev_param) {
            Ok(n) => n,
            Err(e) => {
                return Err(e);
            },
        };
        match self.num_neighbors {
            Some(cap) => {
                if (cap as usize) < neighbors.len() {
                    neighbors.truncate(cap as usize);
                }
            },
            None => {},
        }

        let mut evaluated = match eval_candidate_costs(&*problem, &prev_param, neighbors) {
            Ok(v) => v,
            Err(e) => {
                return Err(e);
            },
        };

        let picked = select_non_tabu(&evaluated, &self.tabu_list);
        let (new_param, new_cost) = match picked {
            Some(i) => evaluated.swap_remove(i),
            None => (prev_param.duplicate(), prev_cost),
        };

        // The selected param is recorded whether or not it is accepted.
        self.tabu_list.insert(new_param.duplicate());

        let delta = new_cost.minus(&prev_cost);
        let accepted = decide_acceptance(&mut self.rng, &delta, state.get_iter(), self.init_temp);

        let new_best_found = new_cost.lt(&state.get_best_cost());
        self.update_stall_iter(accepted, new_best_found);

        Ok(
            if accepted {
                state.param(new_param).cost(new_cost)
            } else {
                state.param(prev_param).cost(prev_cost)
            },
        )
    }

    fn terminate(&mut self) -> (r: Status) {
        if self.stall_iter_best_limit < self.stall_iter_best {
            return Status::Terminated(Reason::MaxStallBestReached);
        }
        Status::NotTerminated
    }
}

} // verus!
