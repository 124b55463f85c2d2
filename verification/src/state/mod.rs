use vstd::prelude::*;

use crate::cost::{spec_improves, Cost};
use crate::termination::{Reason, Status};

pub mod iteration;

pub use iteration::Iteration;
pub use iteration::IterState;

verus! {

/// The record of a run that the executor threads through every iteration.
///
/// The spec functions are the abstract view the contracts speak of; the
/// executor drives any implementor through them.  `update` is the
/// best-tracking rule: the current cost displaces the best exactly when it
/// improves on it (strictly below, or the infinite-tie bootstrap), and the
/// best cost never rises.
pub trait State: Sized {
    type Param;

    spec fn spec_param(&self) -> Option<Self::Param>;

    spec fn spec_prev_param(&self) -> Option<Self::Param>;

    spec fn spec_best_param(&self) -> Option<Self::Param>;

    spec fn spec_prev_best_param(&self) -> Option<Self::Param>;

    spec fn spec_cost(&self) -> Cost;

    spec fn spec_prev_cost(&self) -> Cost;

    spec fn spec_best_cost(&self) -> Cost;

    spec fn spec_prev_best_cost(&self) -> Cost;

    spec fn spec_target_cost(&self) -> Cost;

    spec fn spec_iter(&self) -> u32;

    spec fn spec_last_best_iter(&self) -> u32;

    spec fn spec_max_iters(&self) -> u32;

    spec fn spec_status(&self) -> Status;

    spec fn spec_time(&self) -> Option<u64>;

    spec fn spec_max_time(&self) -> Option<u64>;

    /// The value `update` leaves behind, as a function of the value before.
    spec fn spec_updated(&self) -> Self;

    /// A fresh, unconfigured state: no parameters, unscored sentinels
    /// (cost and best at `PosInf`, target at `NegInf`), counters at zero,
    /// no iteration bound, not terminated.
    fn new() -> (s: Self)
        ensures
            s.spec_param() is None,
            s.spec_prev_param() is None,
            s.spec_best_param() is None,
            s.spec_prev_best_param() is None,
            s.spec_cost() == Cost::PosInf,
            s.spec_prev_cost() == Cost::PosInf,
            s.spec_best_cost() == Cost::PosInf,
            s.spec_prev_best_cost() == Cost::PosInf,
            s.spec_target_cost() == Cost::NegInf,
            s.spec_iter() == 0,
            s.spec_last_best_iter() == 0,
            s.spec_max_iters() == u32::MAX,
            s.spec_status() == Status::NotTerminated,
            s.spec_time() == Some(0u64),
            s.spec_max_time() == Some(u64::MAX),
    ;

    /// Adopt the current cost (and parameter) as the new best exactly when
    /// it improves on the best so far; the iteration of the last best then
    /// reads the current iteration.  The best cost never rises.
    fn update(&mut self)
        ensures
            *final(self) == old(self).spec_updated(),
            final(self).spec_param() == old(self).spec_param(),
            final(self).spec_prev_param() == old(self).spec_prev_param(),
            final(self).spec_cost() == old(self).spec_cost(),
            final(self).spec_prev_cost() == old(self).spec_prev_cost(),
            final(self).spec_target_cost() == old(self).spec_target_cost(),
            final(self).spec_iter() == old(self).spec_iter(),
            final(self).spec_max_iters() == old(self).spec_max_iters(),
            final(self).spec_status() == old(self).spec_status(),
            final(self).spec_time() == old(self).spec_time(),
            final(self).spec_max_time() == old(self).spec_max_time(),
            spec_improves(old(self).spec_cost(), old(self).spec_best_cost()) ==> {
                &&& final(self).spec_best_cost() == old(self).spec_cost()
                &&& final(self).spec_prev_best_cost() == old(self).spec_best_cost()
                &&& final(self).spec_last_best_iter() == old(self).spec_iter()
                &&& (old(self).spec_param() is Some ==> final(self).spec_best_param() == old(
                    self,
                ).spec_param() && final(self).spec_prev_best_param() == old(
                    self,
                ).spec_best_param())
                &&& (old(self).spec_param() is None ==> final(self).spec_best_param() == old(
                    self,
                ).spec_best_param() && final(self).spec_prev_best_param() == old(
                    self,
                ).spec_prev_best_param())
            },
            !spec_improves(old(self).spec_cost(), old(self).spec_best_cost()) ==> {
                &&& final(self).spec_best_cost() == old(self).spec_best_cost()
                &&& final(self).spec_prev_best_cost() == old(self).spec_prev_best_cost()
                &&& final(self).spec_last_best_iter() == old(self).spec_last_best_iter()
                &&& final(self).spec_best_param() == old(self).spec_best_param()
                &&& final(self).spec_prev_best_param() == old(self).spec_prev_best_param()
            },
            final(self).spec_best_cost().spec_le(old(self).spec_best_cost()),
    ;

    fn get_param(&self) -> (r: Option<&Self::Param>)
        ensures
            match r {
                Some(p) => self.spec_param() == Some(*p),
                None => self.spec_param() is None,
            },
    ;

    fn get_best_param(&self) -> (r: Option<&Self::Param>)
        ensures
            match r {
                Some(p) => self.spec_best_param() == Some(*p),
                None => self.spec_best_param() is None,
            },
    ;

    fn get_max_iters(&self) -> (r: u32)
        ensures
            r == self.spec_max_iters(),
    ;

    fn increment_iter(&mut self)
        requires
            old(self).spec_iter() < u32::MAX,
        ensures
            final(self).spec_iter() == old(self).spec_iter() + 1,
            final(self).spec_param() == old(self).spec_param(),
            final(self).spec_best_param() == old(self).spec_best_param(),
            final(self).spec_cost() == old(self).spec_cost(),
            final(self).spec_best_cost() == old(self).spec_best_cost(),
            final(self).spec_target_cost() == old(self).spec_target_cost(),
            final(self).spec_last_best_iter() == old(self).spec_last_best_iter(),
            final(self).spec_max_iters() == old(self).spec_max_iters(),
            final(self).spec_status() == old(self).spec_status(),
            final(self).spec_time() == old(self).spec_time(),
            final(self).spec_prev_param() == old(self).spec_prev_param(),
            final(self).spec_prev_best_param() == old(self).spec_prev_best_param(),
            final(self).spec_prev_cost() == old(self).spec_prev_cost(),
            final(self).spec_prev_best_cost() == old(self).spec_prev_best_cost(),
            final(self).spec_max_time() == old(self).spec_max_time(),
    ;

    fn get_iter(&self) -> (r: u32)
        ensures
            r == self.spec_iter(),
    ;

    fn get_cost(&self) -> (r: Cost)
        ensures
            r == self.spec_cost(),
    ;

    fn get_best_cost(&self) -> (r: Cost)
        ensures
            r == self.spec_best_cost(),
    ;

    fn get_target_cost(&self) -> (r: Cost)
        ensures
            r == self.spec_target_cost(),
    ;

    /// Record the time passed since the beginning of the run, in
    /// milliseconds.
    fn time(&mut self, time: Option<u64>)
        ensures
            final(self).spec_time() == time,
            final(self).spec_param() == old(self).spec_param(),
            final(self).spec_best_param() == old(self).spec_best_param(),
            final(self).spec_cost() == old(self).spec_cost(),
            final(self).spec_best_cost() == old(self).spec_best_cost(),
            final(self).spec_target_cost() == old(self).spec_target_cost(),
            final(self).spec_iter() == old(self).spec_iter(),
            final(self).spec_last_best_iter() == old(self).spec_last_best_iter(),
            final(self).spec_max_iters() == old(self).spec_max_iters(),
            final(self).spec_status() == old(self).spec_status(),
            final(self).spec_prev_param() == old(self).spec_prev_param(),
            final(self).spec_prev_best_param() == old(self).spec_prev_best_param(),
            final(self).spec_prev_cost() == old(self).spec_prev_cost(),
            final(self).spec_prev_best_cost() == old(self).spec_prev_best_cost(),
            final(self).spec_max_time() == old(self).spec_max_time(),
    ;

    /// The time passed since the beginning of the run, in milliseconds.
    fn get_time(&self) -> (r: Option<u64>)
        ensures
            r == self.spec_time(),
    ;

    fn get_last_best_iter(&self) -> (r: u32)
        ensures
            r == self.spec_last_best_iter(),
    ;

    /// Whether the most recent `update` improved the best at the current
    /// iteration count.
    fn is_best(&self) -> (r: bool)
        ensures
            r == (self.spec_last_best_iter() == self.spec_iter()),
    ;

    /// Transition to `Terminated`; every other part of the state is kept.
    #[must_use]
    fn terminate_with(self, termination_reason: Reason) -> (r: Self)
        ensures
            r.spec_status() == Status::Terminated(termination_reason),
            r.spec_param() == self.spec_param(),
            r.spec_prev_param() == self.spec_prev_param(),
            r.spec_best_param() == self.spec_best_param(),
            r.spec_prev_best_param() == self.spec_prev_best_param(),
            r.spec_cost() == self.spec_cost(),
            r.spec_prev_cost() == self.spec_prev_cost(),
            r.spec_best_cost() == self.spec_best_cost(),
            r.spec_prev_best_cost() == self.spec_prev_best_cost(),
            r.spec_target_cost() == self.spec_target_cost(),
            r.spec_iter() == self.spec_iter(),
            r.spec_last_best_iter() == self.spec_last_best_iter(),
            r.spec_max_iters() == self.spec_max_iters(),
            r.spec_time() == self.spec_time(),
            r.spec_max_time() == self.spec_max_time(),
    ;

    fn get_termination_status(&self) -> (r: &Status)
        ensures
            *r == self.spec_status(),
    ;

    fn get_termination_reason(&self) -> (r: Option<&Reason>)
        ensures
            match r {
                Some(reason) => self.spec_status() == Status::Terminated(*reason),
                None => self.spec_status() is NotTerminated,
            },
    ;

    fn terminated(&self) -> (r: bool)
        ensures
            r == (self.spec_status() is Terminated),
    {
        self.get_termination_status().terminated()
    }
}

} // verus!
