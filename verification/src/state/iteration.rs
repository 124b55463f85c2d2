use vstd::prelude::*;

use crate::cost::{spec_improves, Cost};
use crate::problem::Param;
use crate::state::State;
use crate::termination::{Reason, Status};

verus! {

/// The concrete iteration state: double-buffered current/previous slots for
/// parameter and cost, the best pair with its previous values, the stop
/// thresholds, the counters, optional timing, and the termination status.
///
/// Exactly one of the current/previous parameter slots is live between
/// edits: installing a new parameter moves the old current one into the
/// previous slot rather than copying it.
#[derive(Debug)]
pub struct Iteration<P> {
    pub param: Option<P>,
    pub prev_param: Option<P>,
    pub best_param: Option<P>,
    pub prev_best_param: Option<P>,
    pub cost: Cost,
    pub prev_cost: Cost,
    pub best_cost: Cost,
    pub prev_best_cost: Cost,
    pub target_cost: Cost,
    pub iter: u32,
    pub last_best_iter: u32,
    pub max_iters: u32,
    pub time: Option<u64>,
    pub max_time: Option<u64>,
    pub termination_status: Status,
}

pub type IterState<P> = Iteration<P>;

/// One edit of the iteration state, for stating laws over whole edit
/// sequences.
pub enum StateOp<P> {
    SetParam(P),
    SetCost(Cost),
    Update,
}

/// What installing a parameter does: the live parameter moves to the
/// previous slot.
pub open spec fn spec_set_param<P>(s: Iteration<P>, p: P) -> Iteration<P> {
    Iteration { param: Some(p), prev_param: s.param, ..s }
}

/// What installing a cost does: the current cost moves to the previous
/// slot.
pub open spec fn spec_set_cost<P>(s: Iteration<P>, c: Cost) -> Iteration<P> {
    Iteration { cost: c, prev_cost: s.cost, ..s }
}

/// The best-tracking rule: when the current cost improves on the best
/// (strictly below it, or the infinite-tie bootstrap), the best pair is
/// displaced into the previous-best slots and the current cost (and
/// parameter, when one is live) becomes the best; otherwise nothing moves.
pub open spec fn spec_update<P>(s: Iteration<P>) -> Iteration<P> {
    if spec_improves(s.cost, s.best_cost) {
        Iteration {
            best_param: if s.param is Some {
                s.param
            } else {
                s.best_param
            },
            prev_best_param: if s.param is Some {
                s.best_param
            } else {
                s.prev_best_param
            },
            best_cost: s.cost,
            prev_best_cost: s.best_cost,
            last_best_iter: s.iter,
            ..s
        }
    } else {
        s
    }
}

pub open spec fn spec_step<P>(s: Iteration<P>, op: StateOp<P>) -> Iteration<P> {
    match op {
        StateOp::SetParam(p) => spec_set_param(s, p),
        StateOp::SetCost(c) => spec_set_cost(s, c),
        StateOp::Update => spec_update(s),
    }
}

pub open spec fn spec_apply_ops<P>(s: Iteration<P>, ops: Seq<StateOp<P>>) -> Iteration<P>
    decreases ops.len(),
{
    if ops.len() == 0 {
        s
    } else {
        spec_apply_ops(spec_step(s, ops[0]), ops.drop_first())
    }
}

/// No single edit raises the best cost.
pub proof fn lemma_step_best_monotone<P>(s: Iteration<P>, op: StateOp<P>)
    ensures
        spec_step(s, op).best_cost.spec_le(s.best_cost),
{
}

/// The best cost is non-increasing across any sequence of parameter
/// installs, cost installs and `update` calls.  The infinite-tie bootstrap
/// needs no exception here: re-seeding the best at an equal infinity keeps
/// the best cost equal, never larger.
pub proof fn lemma_best_cost_monotone<P>(s: Iteration<P>, ops: Seq<StateOp<P>>)
    ensures
        spec_apply_ops(s, ops).best_cost.spec_le(s.best_cost),
    decreases ops.len(),
{
    if ops.len() == 0 {
    } else {
        let s1 = spec_step(s, ops[0]);
        lemma_step_best_monotone(s, ops[0]);
        lemma_best_cost_monotone(s1, ops.drop_first());
        crate::cost::lemma_cost_le_trans(
            spec_apply_ops(s1, ops.drop_first()).best_cost,
            s1.best_cost,
            s.best_cost,
        );
    }
}

/// Whether the most recent `update` improved the best at this iteration
/// count.
pub open spec fn spec_is_best<P>(s: Iteration<P>) -> bool {
    s.last_best_iter == s.iter
}

/// What advancing the iteration counter does.
pub open spec fn spec_inc<P>(s: Iteration<P>) -> Iteration<P>
    recommends
        s.iter < u32::MAX,
{
    Iteration { iter: (s.iter + 1) as u32, ..s }
}

/// `isBest` tracks improvement exactly: an improving `update` makes it
/// hold, a non-improving one leaves it as it was, and advancing the
/// iteration counter afterwards withdraws it until the next improvement.
pub proof fn lemma_is_best_tracks_improvement<P>(s: Iteration<P>)
    ensures
        spec_improves(s.cost, s.best_cost) ==> spec_is_best(spec_update(s)),
        !spec_improves(s.cost, s.best_cost) ==> spec_is_best(spec_update(s)) == spec_is_best(s),
        s.last_best_iter <= s.iter && s.iter < u32::MAX ==> !spec_is_best(spec_inc(s)),
{
}

impl<P> Iteration<P> {
    /// Install the initial or next parameter; the live one moves to the
    /// previous slot.
    #[must_use]
    pub fn param(self, param: P) -> (r: Self)
        ensures
            r == spec_set_param(self, param),
    {
        let mut s = self;
        s.prev_param = s.param.take();
        s.param = Some(param);
        s
    }

    /// Install the current cost; the one before moves to the previous slot.
    #[must_use]
    pub fn cost(self, cost: Cost) -> (r: Self)
        ensures
            r == spec_set_cost(self, cost),
    {
        let mut s = self;
        s.prev_cost = s.cost;
        s.cost = cost;
        s
    }

    /// Set the cost at which the run may stop.
    #[must_use]
    pub fn target_cost(self, target_cost: Cost) -> (r: Self)
        ensures
            r == (Iteration { target_cost, ..self }),
    {
        let mut s = self;
        s.target_cost = target_cost;
        s
    }

    /// Bound the number of iterations.
    #[must_use]
    pub fn max_iters(self, iters: u32) -> (r: Self)
        ensures
            r == (Iteration { max_iters: iters, ..self }),
    {
        let mut s = self;
        s.max_iters = iters;
        s
    }

    /// Record a wall-clock bound, in milliseconds.  The generic
    /// termination check does not enforce it; a policy's own `terminate`
    /// may.
    #[must_use]
    pub fn max_time(self, time: u64) -> (r: Self)
        ensures
            r == (Iteration { max_time: Some(time), ..self }),
    {
        let mut s = self;
        s.max_time = Some(time);
        s
    }

    pub fn get_prev_cost(&self) -> (r: Cost)
        ensures
            r == self.prev_cost,
    {
        self.prev_cost
    }

    pub fn get_prev_best_cost(&self) -> (r: Cost)
        ensures
            r == self.prev_best_cost,
    {
        self.prev_best_cost
    }

    pub fn take_param(&mut self) -> (r: Option<P>)
        ensures
            r == old(self).param,
            *final(self) == (Iteration { param: None, ..*old(self) }),
    {
        self.param.take()
    }

    pub fn get_prev_param(&self) -> (r: Option<&P>)
        ensures
            match r {
                Some(p) => self.prev_param == Some(*p),
                None => self.prev_param is None,
            },
    {
        self.prev_param.as_ref()
    }

    pub fn take_prev_param(&mut self) -> (r: Option<P>)
        ensures
            r == old(self).prev_param,
            *final(self) == (Iteration { prev_param: None, ..*old(self) }),
    {
        self.prev_param.take()
    }

    pub fn get_prev_best_param(&self) -> (r: Option<&P>)
        ensures
            match r {
                Some(p) => self.prev_best_param == Some(*p),
                None => self.prev_best_param is None,
            },
    {
        self.prev_best_param.as_ref()
    }

    pub fn take_best_param(&mut self) -> (r: Option<P>)
        ensures
            r == old(self).best_param,
            *final(self) == (Iteration { best_param: None, ..*old(self) }),
    {
        self.best_param.take()
    }

    pub fn take_prev_best_param(&mut self) -> (r: Option<P>)
        ensures
            r == old(self).prev_best_param,
            *final(self) == (Iteration { prev_best_param: None, ..*old(self) }),
    {
        self.prev_best_param.take()
    }
}

impl<P: Param> State for Iteration<P> {
    type Param = P;

    open spec fn spec_param(&self) -> Option<P> {
        self.param
    }

    open spec fn spec_prev_param(&self) -> Option<P> {
        self.prev_param
    }

    open spec fn spec_best_param(&self) -> Option<P> {
        self.best_param
    }

    open spec fn spec_prev_best_param(&self) -> Option<P> {
        self.prev_best_param
    }

    open spec fn spec_cost(&self) -> Cost {
        self.cost
    }

    open spec fn spec_prev_cost(&self) -> Cost {
        self.prev_cost
    }

    open spec fn spec_best_cost(&self) -> Cost {
        self.best_cost
    }

    open spec fn spec_prev_best_cost(&self) -> Cost {
        self.prev_best_cost
    }

    open spec fn spec_target_cost(&self) -> Cost {
        self.target_cost
    }

    open spec fn spec_iter(&self) -> u32 {
        self.iter
    }

    open spec fn spec_last_best_iter(&self) -> u32 {
        self.last_best_iter
    }

    open spec fn spec_max_iters(&self) -> u32 {
        self.max_iters
    }

    open spec fn spec_status(&self) -> Status {
        self.termination_status
    }

    open spec fn spec_time(&self) -> Option<u64> {
        self.time
    }

    open spec fn spec_max_time(&self) -> Option<u64> {
        self.max_time
    }

    open spec fn spec_updated(&self) -> Self {
        spec_update(*self)
    }

    fn new() -> (s: Self) {
        Iteration {
            param: None,
            prev_param: None,
            best_param: None,
            prev_best_param: None,
            cost: Cost::PosInf,
            prev_cost: Cost::PosInf,
            best_cost: Cost::PosInf,
            prev_best_cost: Cost::PosInf,
            target_cost: Cost::NegInf,
            iter: 0,
            last_best_iter: 0,
            max_iters: u32::MAX,
            time: Some(0),
            max_time: Some(u64::MAX),
            termination_status: Status::NotTerminated,
        }
    }

    fn update(&mut self) {
        let improved = crate::cost::improves(&self.cost, &self.best_cost);
        if improved {
            // Without a live parameter, the best parameter is left alone.
            match self.param.as_ref() {
                Some(p) => {
                    let d = p.duplicate();
                    core::mem::swap(&mut self.prev_best_param, &mut self.best_param);
                    self.best_param = Some(d);
                },
                None => {},
            }
            self.prev_best_cost = self.best_cost;
            self.best_cost = self.cost;
            self.last_best_iter = self.iter;
        }
    }

    fn get_param(&self) -> (r: Option<&P>) {
        self.param.as_ref()
    }

    fn get_best_param(&self) -> (r: Option<&P>) {
        self.best_param.as_ref()
    }

    fn get_max_iters(&self) -> (r: u32) {
        self.max_iters
    }

    fn increment_iter(&mut self) {
        self.iter = self.iter + 1;
    }

    fn get_iter(&self) -> (r: u32) {
        self.iter
    }

    fn get_cost(&self) -> (r: Cost) {
        self.cost
    }

    fn get_best_cost(&self) -> (r: Cost) {
        self.best_cost
    }

    fn get_target_cost(&self) -> (r: Cost) {
        self.target_cost
    }

    fn time(&mut self, time: Option<u64>) {
        self.time = time;
    }

    fn get_time(&self) -> (r: Option<u64>) {
        self.time
    }

    fn get_last_best_iter(&self) -> (r: u32) {
        self.last_best_iter
    }

    fn is_best(&self) -> (r: bool) {
        self.last_best_iter == self.iter
    }

    fn terminate_with(self, termination_reason: Reason) -> (r: Self) {
        let mut s = self;
        s.termination_status = Status::Terminated(termination_reason);
        s
    }

    fn get_termination_status(&self) -> (r: &Status) {
        &self.termination_status
    }

    fn get_termination_reason(&self) -> (r: Option<&Reason>) {
        match &self.termination_status {
            Status::Terminated(reason) => Some(reason),
            Status::NotTerminated => None,
        }
    }
}

} // verus!
