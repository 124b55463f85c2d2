use vstd::prelude::*;

verus! {

/// An exact cost value.
///
/// The engine compares and subtracts costs; it never needs fractional
/// values of its own, so a cost is a finite number of integer units or an
/// infinite sentinel.  `PosInf` is the "never scored" sentinel that a fresh
/// iteration state starts from, `NegInf` the default target ("no target").
///
/// Because finite costs are whole units, a strictly negative delta is a
/// genuine improvement and a delta of zero never is: the epsilon guard of
/// the acceptance rule collapses to strict negativity.
#[derive(Clone, Copy, Debug, PartialEq, Eq, Structural)]
pub enum Cost {
    NegInf,
    Fin(i64),
    PosInf,
}

/// Clamp a mathematical integer into the range of `i64`.
pub open spec fn sat64(v: int) -> int {
    if v > i64::MAX {
        i64::MAX as int
    } else if v < i64::MIN {
        i64::MIN as int
    } else {
        v
    }
}

impl Cost {
    /// Total order: `NegInf` below every finite value, `PosInf` above.
    pub open spec fn spec_lt(self, other: Cost) -> bool {
        match (self, other) {
            (Cost::NegInf, Cost::NegInf) => false,
            (Cost::NegInf, _) => true,
            (Cost::Fin(a), Cost::Fin(b)) => a < b,
            (Cost::Fin(_), Cost::PosInf) => true,
            (Cost::Fin(_), Cost::NegInf) => false,
            (Cost::PosInf, _) => false,
        }
    }

    pub open spec fn spec_le(self, other: Cost) -> bool {
        self.spec_lt(other) || self == other
    }

    pub open spec fn is_infinite(self) -> bool {
        self is NegInf || self is PosInf
    }

    /// Difference of two costs.  Finite differences saturate at the `i64`
    /// range.  An infinity minus anything smaller stays that infinity; the
    /// difference of two like-signed infinities is `PosInf`, so that such a
    /// delta is never read as an improvement (floats would give a NaN
    /// there, which no acceptance rule treats as improving either).
    pub open spec fn spec_minus(self, other: Cost) -> Cost {
        match (self, other) {
            (Cost::Fin(a), Cost::Fin(b)) => Cost::Fin(sat64(a - b) as i64),
            (Cost::PosInf, Cost::PosInf) => Cost::PosInf,
            (Cost::NegInf, Cost::NegInf) => Cost::PosInf,
            (Cost::PosInf, _) => Cost::PosInf,
            (Cost::NegInf, _) => Cost::NegInf,
            (Cost::Fin(_), Cost::PosInf) => Cost::NegInf,
            (Cost::Fin(_), Cost::NegInf) => Cost::PosInf,
        }
    }

    /// Sum of two costs, the dual convention: opposite infinities give
    /// `PosInf`, never an improvement (where floats would give a NaN).
    pub open spec fn spec_plus(self, other: Cost) -> Cost {
        match (self, other) {
            (Cost::Fin(a), Cost::Fin(b)) => Cost::Fin(sat64(a + b) as i64),
            (Cost::PosInf, Cost::NegInf) => Cost::PosInf,
            (Cost::NegInf, Cost::PosInf) => Cost::PosInf,
            (Cost::PosInf, _) => Cost::PosInf,
            (Cost::NegInf, _) => Cost::NegInf,
            (Cost::Fin(_), Cost::PosInf) => Cost::PosInf,
            (Cost::Fin(_), Cost::NegInf) => Cost::NegInf,
        }
    }

    pub fn infinite(&self) -> (r: bool)
        ensures
            r == self.is_infinite(),
    {
        matches!(self, Cost::NegInf | Cost::PosInf)
    }

    pub fn lt(&self, other: &Cost) -> (r: bool)
        ensures
            r == self.spec_lt(*other),
    {
        match (self, other) {
            (Cost::NegInf, Cost::NegInf) => false,
            (Cost::NegInf, _) => true,
            (Cost::Fin(a), Cost::Fin(b)) => *a < *b,
            (Cost::Fin(_), Cost::PosInf) => true,
            (Cost::Fin(_), Cost::NegInf) => false,
            (Cost::PosInf, _) => false,
        }
    }

    pub fn le(&self, other: &Cost) -> (r: bool)
        ensures
            r == self.spec_le(*other),
    {
        !other.lt(self)
    }

    pub fn minus(&self, other: &Cost) -> (r: Cost)
        ensures
            r == self.spec_minus(*other),
    {
        match (self, other) {
            (Cost::Fin(a), Cost::Fin(b)) => match a.checked_sub(*b) {
                Some(d) => Cost::Fin(d),
                None => if *b < 0 {
                    Cost::Fin(i64::MAX)
                } else {
                    Cost::Fin(i64::MIN)
                },
            },
            (Cost::PosInf, Cost::PosInf) => Cost::PosInf,
            (Cost::NegInf, Cost::NegInf) => Cost::PosInf,
            (Cost::PosInf, _) => Cost::PosInf,
            (Cost::NegInf, _) => Cost::NegInf,
            (Cost::Fin(_), Cost::PosInf) => Cost::NegInf,
            (Cost::Fin(_), Cost::NegInf) => Cost::PosInf,
        }
    }

    pub fn plus(&self, other: &Cost) -> (r: Cost)
        ensures
            r == self.spec_plus(*other),
    {
        match (self, other) {
            (Cost::Fin(a), Cost::Fin(b)) => match a.checked_add(*b) {
                Some(s) => Cost::Fin(s),
                None => if *b > 0 {
                    Cost::Fin(i64::MAX)
                } else {
                    Cost::Fin(i64::MIN)
                },
            },
            (Cost::PosInf, Cost::NegInf) => Cost::PosInf,
            (Cost::NegInf, Cost::PosInf) => Cost::PosInf,
            (Cost::PosInf, _) => Cost::PosInf,
            (Cost::NegInf, _) => Cost::NegInf,
            (Cost::Fin(_), Cost::PosInf) => Cost::PosInf,
            (Cost::Fin(_), Cost::NegInf) => Cost::NegInf,
        }
    }
}

/// An exact fraction `num / den`, the penalty coefficients' representation:
/// the engine only ever builds and hands these around, so it keeps them as
/// unreduced numerator and denominator instead of an inexact quotient.
#[derive(Clone, Copy, Debug, PartialEq, Eq, Structural)]
pub struct Ratio {
    pub num: i64,
    pub den: u64,
}

impl Ratio {
    pub open spec fn wf(self) -> bool {
        self.den > 0
    }

    pub open spec fn spec_zero() -> Ratio {
        Ratio { num: 0, den: 1 }
    }

    pub fn new(num: i64, den: u64) -> (r: Ratio)
        requires
            den > 0,
        ensures
            r == (Ratio { num, den }),
            r.wf(),
    {
        Ratio { num, den }
    }

    pub fn zero() -> (r: Ratio)
        ensures
            r == Ratio::spec_zero(),
            r.wf(),
    {
        Ratio { num: 0, den: 1 }
    }
}

/// The bootstrap-or-improvement test of the best-tracking rule: the current
/// cost improves on the best when it is strictly below it, or when both are
/// the same infinity (so the very first unscored attempt can seed "best").
pub open spec fn spec_improves(cost: Cost, best: Cost) -> bool {
    cost.spec_lt(best) || (cost.is_infinite() && best.is_infinite() && cost == best)
}

pub fn improves(cost: &Cost, best: &Cost) -> (r: bool)
    ensures
        r == spec_improves(*cost, *best),
{
    if cost.lt(best) {
        true
    } else {
        match (cost, best) {
            (Cost::PosInf, Cost::PosInf) => true,
            (Cost::NegInf, Cost::NegInf) => true,
            _ => false,
        }
    }
}

/// The shared acceptance guard: a move improves exactly when its delta is
/// strictly below zero.  A delta of zero is never an improvement.
pub open spec fn spec_improving(delta: Cost) -> bool {
    delta.spec_lt(Cost::Fin(0))
}

pub fn is_improving(delta: &Cost) -> (r: bool)
    ensures
        r == spec_improving(*delta),
{
    delta.lt(&Cost::Fin(0))
}

/// `spec_le` is transitive.
pub proof fn lemma_cost_le_trans(a: Cost, b: Cost, c: Cost)
    requires
        a.spec_le(b),
        b.spec_le(c),
    ensures
        a.spec_le(c),
{
}

/// A strict bound composed with a loose one stays strict.
pub proof fn lemma_cost_lt_le_trans(a: Cost, b: Cost, c: Cost)
    requires
        a.spec_lt(b),
        b.spec_le(c),
    ensures
        a.spec_lt(c),
{
}

/// The order is total: of two costs, one is at or under the other.
pub proof fn lemma_cost_total(a: Cost, b: Cost)
    ensures
        a.spec_le(b) || b.spec_le(a),
        !a.spec_lt(b) ==> b.spec_le(a),
{
}

/// The zero delta is classified as non-improving, for every policy: all
/// three acceptance rules go through `spec_improving`.
pub proof fn lemma_zero_delta_never_improves()
    ensures
        !spec_improving(Cost::Fin(0)),
{
}

} // verus!
