use vstd::prelude::*;

use crate::cost::{Cost, Ratio};
use crate::errors::LocalSearchError;

verus! {

/// Operations every candidate-solution representation must support.
///
/// Verus cannot read the impls that `derive` writes for `Clone` and
/// `PartialEq` on a caller's type, so the two operations the engine needs —
/// duplication and value equality — are stated here as contracts that the
/// caller's impl is trusted to meet, just as generic `Clone` and
/// `PartialEq` bounds would trust it.
pub trait Param: Sized {
    /// Produce a value equal to this one.
    fn duplicate(&self) -> (r: Self)
        ensures
            r == *self,
    ;

    /// Decide value equality.
    fn same_as(&self, other: &Self) -> (r: bool)
        ensures
            r == (*self == *other),
    ;
}

impl Param for u64 {
    fn duplicate(&self) -> (r: u64)
        ensures
            r == *self,
    {
        *self
    }

    fn same_as(&self, other: &u64) -> (r: bool)
        ensures
            r == (*self == *other),
    {
        *self == *other
    }
}

/// The injectable random source a policy draws from for the run's lifetime.
///
/// It supplies bounded integer draws for neighbor generation, and the one
/// probabilistic decision of the annealing acceptance rule: whether a
/// non-improving move of difference `delta` is taken at iteration `iter`
/// under initial temperature `init_temp`.  The customary rule accepts with
/// probability `1 / (1 + (iter + 1)^(delta / init_temp))` against a uniform
/// draw; nothing is promised of the outcome, so every verified caller
/// states what holds whichever way the draw goes.
pub trait RandomSource {
    /// A draw in `[0, bound)`.
    fn next_index(&mut self, bound: u64) -> (r: u64)
        requires
            bound > 0,
        ensures
            r < bound,
    ;

    /// The probabilistic arm of the acceptance rule.
    fn accept_worse(&mut self, delta: &Cost, iter: u32, init_temp: i64) -> bool;
}

/// Given a parameter, the problem knows that parameter's cost.
pub trait CostFunction {
    type Param;

    fn cost(&self, param: &Self::Param) -> Result<Cost, LocalSearchError>;
}

/// A problem knows how to reach the neighbors of a parameter.
pub trait Neighborhood {
    type Param;

    type Neighbor;

    fn get_neighbor_moves<R: RandomSource>(
        &self,
        rng: &mut R,
        param: &Self::Param,
    ) -> Result<Vec<Self::Neighbor>, LocalSearchError>;

    /// The cost difference of moving from a parameter to one neighbor,
    /// cheaper than a full re-evaluation.
    fn get_neighbor_delta(
        &self,
        param: &Self::Param,
        neighbor: &Self::Neighbor,
    ) -> Result<Cost, LocalSearchError>;

    fn make_move(
        &self,
        param: &Self::Param,
        neighbor: &Self::Neighbor,
    ) -> Result<Self::Param, LocalSearchError>;
}

/// A weight one step higher, stopping at the top of `u64`.
pub open spec fn bump64(w: u64) -> u64 {
    if w == u64::MAX {
        w
    } else {
        (w + 1) as u64
    }
}

/// Penalty memory for guided search: a mapping from feature (an integer
/// identifier chosen by the problem) to accumulated usage weight, plus the
/// fixed coefficient `alpha` and the rescaled coefficient `lambda`.
#[derive(Clone, Debug)]
pub struct Penalty {
    pub alpha: Ratio,
    pub lambda: Ratio,
    pub values: Vec<(u64, u64)>,
}

impl Penalty {
    /// Each feature holds at most one entry, and the coefficients are
    /// well-formed fractions.
    pub open spec fn wf(&self) -> bool {
        &&& self.alpha.wf()
        &&& self.lambda.wf()
        &&& forall|i: int, j: int|
            0 <= i < j < self.values@.len() ==> self.values@[i].0 != self.values@[j].0
    }

    pub open spec fn spec_has(&self, feature: u64) -> bool {
        exists|i: int| 0 <= i < self.values@.len() && self.values@[i].0 == feature
    }

    /// The accumulated weight of a feature; zero when never penalized.
    pub open spec fn spec_weight(&self, feature: u64) -> u64 {
        if self.spec_has(feature) {
            let i = choose|i: int| 0 <= i < self.values@.len() && self.values@[i].0 == feature;
            self.values@[i].1
        } else {
            0
        }
    }

    pub fn new(alpha: Ratio) -> (r: Penalty)
        requires
            alpha.wf(),
        ensures
            r.wf(),
            r.alpha == alpha,
            r.lambda == Ratio::spec_zero(),
            r.values@.len() == 0,
            forall|f: u64| r.spec_weight(f) == 0,
            forall|f: u64| !r.spec_has(f),
    {
        Penalty { alpha, lambda: Ratio::zero(), values: Vec::new() }
    }

    /// The weight accumulated against a feature, zero when none is stored.
    pub fn get(&self, feature: &u64) -> (r: u64)
        requires
            self.wf(),
        ensures
            r == self.spec_weight(*feature),
    {
        let n = self.values.len();
        let mut i: usize = 0;
        while i < n
            invariant
                n == self.values@.len(),
                0 <= i <= n,
                self.wf(),
                forall|j: int| 0 <= j < i ==> self.values@[j].0 != *feature,
            decreases n - i,
        {
            if self.values[i].0 == *feature {
                proof {
                    assert(self.spec_has(*feature));
                    let k = choose|k: int|
                        0 <= k < self.values@.len() && self.values@[k].0 == *feature;
                    assert(k == i as int);
                }
                return self.values[i].1;
            }
            i += 1;
        }
        proof {
            if self.spec_has(*feature) {
                let k = choose|k: int| 0 <= k < self.values@.len() && self.values@[k].0 == *feature;
                assert(false);
            }
        }
        0
    }

    /// Set every stored weight to the given value (explicit calibration).
    pub fn calibrate(&mut self, ratio: u64)
        requires
            old(self).wf(),
        ensures
            final(self).wf(),
            final(self).alpha == old(self).alpha,
            final(self).lambda == old(self).lambda,
            final(self).values@.len() == old(self).values@.len(),
            forall|j: int|
                0 <= j < old(self).values@.len() ==> final(self).values@[j] == (
                old(self).values@[j].0,
                ratio,
                ),
            forall|f: u64| final(self).spec_has(f) == old(self).spec_has(f),
            forall|f: u64|
                final(self).spec_weight(f) == if old(self).spec_has(f) {
                    ratio
                } else {
                    0u64
                },
    {
        let n = self.values.len();
        let mut i: usize = 0;
        while i < n
            invariant
                n == self.values@.len(),
                0 <= i <= n,
                self.alpha == old(self).alpha,
                self.lambda == old(self).lambda,
                self.values@.len() == old(self).values@.len(),
                forall|j: int| 0 <= j < i ==> self.values@[j] == (old(self).values@[j].0, ratio),
                forall|j: int| i <= j < n ==> self.values@[j] == old(self).values@[j],
            decreases n - i,
        {
            let key = self.values[i].0;
            self.values[i] = (key, ratio);
            i += 1;
        }
        proof {
            assert(forall|f: u64| self.spec_has(f) == old(self).spec_has(f)) by {
                assert forall|f: u64| self.spec_has(f) == old(self).spec_has(f) by {
                    assert(forall|j: int|
                        0 <= j < self.values@.len() ==> self.values@[j].0 == old(
                            self,
                        ).values@[j].0);
                }
            }
            assert forall|f: u64|
                final(self).spec_weight(f) == if old(self).spec_has(f) {
                    ratio
                } else {
                    0u64
                } by {
                if self.spec_has(f) {
                    let k = choose|k: int| 0 <= k < self.values@.len() && self.values@[k].0 == f;
                    assert(self.values@[k] == (old(self).values@[k].0, ratio));
                }
            }
        }
    }

    /// Raise the weight of one feature by exactly one step (saturating only
    /// at the top of `u64`); a feature never seen before starts at one.
    pub fn update(&mut self, feature: u64)
        requires
            old(self).wf(),
        ensures
            final(self).wf(),
            final(self).alpha == old(self).alpha,
            final(self).lambda == old(self).lambda,
            final(self).spec_weight(feature) == bump64(old(self).spec_weight(feature)),
            forall|g: u64| g != feature ==> final(self).spec_weight(g) == old(self).spec_weight(g),
            forall|g: u64| final(self).spec_has(g) == (old(self).spec_has(g) || g == feature),
    {
        let n = self.values.len();
        let mut i: usize = 0;
        while i < n
            invariant
                n == self.values@.len(),
                0 <= i <= n,
                self.alpha == old(self).alpha,
                self.lambda == old(self).lambda,
                self.values@ == old(self).values@,
                self.wf(),
                forall|j: int| 0 <= j < i ==> self.values@[j].0 != feature,
            decreases n - i,
        {
            if self.values[i].0 == feature {
                let w = self.values[i].1;
                let bumped = if w == u64::MAX {
                    w
                } else {
                    w + 1
                };
                self.values[i] = (feature, bumped);
                proof {
                    assert(old(self).values@[i as int].0 == feature);
                    assert(old(self).spec_has(feature));
                    let k = choose|k: int|
                        0 <= k < old(self).values@.len() && old(self).values@[k].0 == feature;
                    assert(k == i as int);
                    assert(self.values@ == old(self).values@.update(i as int, (feature, bumped)));
                    assert(self.values@[i as int].0 == feature);
                    assert(self.spec_has(feature));
                    let k2 = choose|k2: int|
                        0 <= k2 < self.values@.len() && self.values@[k2].0 == feature;
                    assert(k2 == i as int);
                    assert forall|g: u64| g != feature implies self.spec_weight(g) == old(
                        self,
                    ).spec_weight(g) by {
                        assert(forall|j: int|
                            0 <= j < self.values@.len() && j != i ==> self.values@[j] == old(
                                self,
                            ).values@[j]);
                        if self.spec_has(g) {
                            let m = choose|m: int|
                                0 <= m < self.values@.len() && self.values@[m].0 == g;
                            assert(m != i as int);
                            assert(old(self).spec_has(g));
                            let m2 = choose|m2: int|
                                0 <= m2 < old(self).values@.len() && old(self).values@[m2].0 == g;
                            assert(m2 == m);
                        } else {
                            if old(self).spec_has(g) {
                                let m2 = choose|m2: int|
                                    0 <= m2 < old(self).values@.len() && old(self).values@[m2].0
                                        == g;
                                assert(m2 != i as int);
                                assert(self.values@[m2].0 == g);
                                assert(false);
                            }
                        }
                    }
                    assert forall|g: u64| self.spec_has(g) == (old(self).spec_has(g) || g
                        == feature) by {
                        if self.spec_has(g) && g != feature {
                            let m = choose|m: int|
                                0 <= m < self.values@.len() && self.values@[m].0 == g;
                            assert(m != i as int);
                            assert(old(self).values@[m].0 == g);
                        }
                        if old(self).spec_has(g) && g != feature {
                            let m = choose|m: int|
                                0 <= m < old(self).values@.len() && old(self).values@[m].0 == g;
                            assert(m != i as int);
                            assert(self.values@[m].0 == g);
                        }
                    }
                }
                return ;
            }
            i += 1;
        }
        proof {
            if old(self).spec_has(feature) {
                let k = choose|k: int|
                    0 <= k < old(self).values@.len() && old(self).values@[k].0 == feature;
                assert(false);
            }
        }
        self.values.push((feature, 1));
        proof {
            let len = self.values@.len();
            assert(self.values@[len - 1] == (feature, 1u64));
            assert(self.values@[len - 1].0 == feature);
            assert(forall|j: int| 0 <= j < len - 1 ==> self.values@[j] == old(self).values@[j]);
            assert(self.spec_has(feature));
            let k = choose|k: int| 0 <= k < self.values@.len() && self.values@[k].0 == feature;
            assert(k == len - 1) by {
                if k < len - 1 {
                    assert(old(self).values@[k].0 == feature);
                }
            }
            assert(self.spec_weight(feature) == 1);
            assert(bump64(old(self).spec_weight(feature)) == 1);
            assert forall|g: u64| g != feature implies self.spec_weight(g) == old(
                self,
            ).spec_weight(g) by {
                if self.spec_has(g) {
                    let m = choose|m: int| 0 <= m < self.values@.len() && self.values@[m].0 == g;
                    assert(m != len - 1);
                    assert(old(self).values@[m].0 == g);
                    assert(old(self).spec_has(g));
                    let m2 = choose|m2: int|
                        0 <= m2 < old(self).values@.len() && old(self).values@[m2].0 == g;
                    assert(m2 == m);
                } else {
                    if old(self).spec_has(g) {
                        let m2 = choose|m2: int|
                            0 <= m2 < old(self).values@.len() && old(self).values@[m2].0 == g;
                        assert(self.values@[m2].0 == g);
                        assert(false);
                    }
                }
            }
            assert forall|g: u64| self.spec_has(g) == (old(self).spec_has(g) || g == feature)
                by {
                if self.spec_has(g) && g != feature {
                    let m = choose|m: int| 0 <= m < self.values@.len() && self.values@[m].0 == g;
                    assert(m != len - 1);
                    assert(old(self).values@[m].0 == g);
                }
                if old(self).spec_has(g) {
                    let m = choose|m: int|
                        0 <= m < old(self).values@.len() && old(self).values@[m].0 == g;
                    assert(self.values@[m].0 == g);
                }
            }
        }
    }

    /// The utility of penalizing a feature: its cost share divided by one
    /// more than its current weight, kept as an exact fraction.
    pub fn utility(&self, feature: &u64, cost: i64) -> (r: Ratio)
        requires
            self.wf(),
        ensures
            r.num == cost,
            r.den == bump64(self.spec_weight(*feature)),
            r.wf(),
    {
        let w = self.get(feature);
        let den = if w == u64::MAX {
            w
        } else {
            w + 1
        };
        Ratio { num: cost, den }
    }
}

/// The extra operations guided search needs from a problem, on top of
/// `Neighborhood`: deltas augmented with the penalty contribution, the
/// penalty bookkeeping of the escape step, and the feature count.
///
/// `spec_features` is the set of feature identifiers present in a
/// parameter; the contract of `update_penalty` — one weight step for every
/// present feature, nothing else touched — is trusted of the caller's impl,
/// which discharges it by calling `Penalty::update` once per feature.
pub trait AugmentedNeighborhood {
    type Param;

    type Neighbor;

    spec fn spec_features(&self, param: Self::Param) -> Set<u64>;

    fn get_neighbor_augmented_delta(
        &self,
        param: &Self::Param,
        neighbor: &Self::Neighbor,
        penalty: &Penalty,
    ) -> Result<Cost, LocalSearchError>;

    fn update_penalty(&self, param: &Self::Param, penalty: &mut Penalty) -> (r: Result<
        (),
        LocalSearchError,
    >)
        requires
            old(penalty).wf(),
        ensures
            final(penalty).wf(),
            r is Ok ==> {
                &&& final(penalty).alpha == old(penalty).alpha
                &&& final(penalty).lambda == old(penalty).lambda
                &&& forall|f: u64|
                    final(penalty).spec_weight(f) == if self.spec_features(*param).contains(f) {
                        bump64(old(penalty).spec_weight(f))
                    } else {
                        old(penalty).spec_weight(f)
                    }
            },
    ;

    /// The number of features present in a parameter.
    fn number_of_features(&self, param: &Self::Param) -> Result<u32, LocalSearchError>;
}

} // verus!
