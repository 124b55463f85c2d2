use vstd::prelude::*;

use rayon::iter::{IntoParallelIterator, IntoParallelRefIterator, ParallelIterator};

use crate::cost::Cost;
use crate::errors::LocalSearchError;
use crate::problem::{AugmentedNeighborhood, CostFunction, Neighborhood, Penalty};

verus! {

/// Relies on rayon's `into_par_iter` / `map` / `collect` into a
/// `Result`-wrapped `Vec`: the closure — which only calls the problem
/// adapter's `make_move` and `cost` — runs once per candidate, all `Ok`
/// results are collected (one per candidate), and any `Err` makes the
/// whole call that error (which one, when several fail, is not promised).
#[verifier::external_body]
pub(crate) fn eval_candidate_costs<O, P, N>(
    problem: &O,
    prev: &P,
    neighbors: Vec<N>,
) -> (r: Result<Vec<(P, Cost)>, LocalSearchError>) where
    O: CostFunction<Param = P> + Neighborhood<Param = P, Neighbor = N> + Sync,
    P: Send + Sync,
    N: Send,

    ensures
        r matches Ok(v) ==> v@.len() == neighbors@.len(),
{
    neighbors.into_par_iter().map(
        |neighbor| {
            let param = problem.make_move(prev, &neighbor)?;
            let cost = problem.cost(&param)?;
            Ok((param, cost))
        },
    ).collect()
}

/// Relies on rayon's `par_iter` over the first `count` candidates with
/// `map` / `collect` into a `Result`-wrapped `Vec`: the closure — which
/// only calls the problem adapter's `get_neighbor_delta` — runs once per
/// candidate, all `Ok` results are collected (one per candidate), and any
/// `Err` makes the whole call that error.
#[verifier::external_body]
pub(crate) fn eval_candidate_deltas<O, P, N>(
    problem: &O,
    prev: &P,
    neighbors: &Vec<N>,
    count: usize,
) -> (r: Result<Vec<Cost>, LocalSearchError>) where
    O: CostFunction<Param = P> + Neighborhood<Param = P, Neighbor = N> + Sync,
    P: Sync,
    N: Sync,

    requires
        count <= neighbors@.len(),
    ensures
        r matches Ok(v) ==> v@.len() == count,
{
    neighbors[..count].par_iter().map(
        |neighbor| problem.get_neighbor_delta(prev, neighbor),
    ).collect()
}

/// Relies on rayon's `par_iter` over the first `count` candidates with
/// `map` / `collect` into a `Result`-wrapped `Vec`: the closure — which
/// only calls the problem adapter's `get_neighbor_augmented_delta` — runs
/// once per candidate, all `Ok` results are collected (one per candidate),
/// and any `Err` makes the whole call that error.
#[verifier::external_body]
pub(crate) fn eval_candidate_augmented_deltas<O, P, N>(
    problem: &O,
    prev: &P,
    neighbors: &Vec<N>,
    penalty: &Penalty,
    count: usize,
) -> (r: Result<Vec<Cost>, LocalSearchError>) where
    O: Neighborhood<Param = P, Neighbor = N> + AugmentedNeighborhood<Param = P, Neighbor = N>
        + Sync,
    P: Sync,
    N: Sync,

    requires
        count <= neighbors@.len(),
    ensures
        r matches Ok(v) ==> v@.len() == count,
{
    neighbors[..count].par_iter().map(
        |neighbor| problem.get_neighbor_augmented_delta(prev, neighbor, penalty),
    ).collect()
}

} // verus!
