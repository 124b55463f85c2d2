use localsearch_rs::{
    AugmentedNeighborhood, Cost, CostFunction, GuidedLocalSearch, IterState, LocalSearchError,
    Neighborhood, Penalty, RandomSource, Ratio, Solver, State,
};

/// A flat landscape over integer params: every cost is eight, every
/// augmented delta zero, and every param presents the features 1, 2, 3.
struct Flat;

impl CostFunction for Flat {
    type Param = u64;

    fn cost(&self, _param: &u64) -> Result<Cost, LocalSearchError> {
        Ok(Cost::Fin(8))
    }
}

impl Neighborhood for Flat {
    type Param = u64;
    type Neighbor = u64;

    fn get_neighbor_moves<R: RandomSource>(
        &self,
        _rng: &mut R,
        _param: &u64,
    ) -> Result<Vec<u64>, LocalSearchError> {
        Ok(vec![1, 2])
    }

    fn get_neighbor_delta(&self, _param: &u64, _neighbor: &u64) -> Result<Cost, LocalSearchError> {
        Ok(Cost::Fin(0))
    }

    fn make_move(&self, param: &u64, neighbor: &u64) -> Result<u64, LocalSearchError> {
        Ok(param.wrapping_add(*neighbor))
    }
}

impl AugmentedNeighborhood for Flat {
    type Param = u64;
    type Neighbor = u64;

    // the ghost view of the features; never called at run time
    fn spec_features(&self, _param: u64) -> vstd::set::Set<u64> {
        panic!()
    }

    fn get_neighbor_augmented_delta(
        &self,
        _param: &u64,
        _neighbor: &u64,
        _penalty: &Penalty,
    ) -> Result<Cost, LocalSearchError> {
        Ok(Cost::Fin(0))
    }

    fn update_penalty(
        &self,
        _param: &u64,
        penalty: &mut Penalty,
    ) -> Result<(), LocalSearchError> {
        penalty.update(1);
        penalty.update(2);
        penalty.update(3);
        Ok(())
    }

    fn number_of_features(&self, _param: &u64) -> Result<u32, LocalSearchError> {
        Ok(3)
    }
}

/// A source that never accepts a worsening move.
struct NeverAccept;

impl RandomSource for NeverAccept {
    fn next_index(&mut self, bound: u64) -> u64 {
        bound - 1
    }

    fn accept_worse(&mut self, _delta: &Cost, _iter: u32, _init_temp: i64) -> bool {
        false
    }
}

#[test]
fn full_drain_without_acceptance_penalizes_every_feature_once() {
    let mut solver: GuidedLocalSearch<NeverAccept, u64> =
        GuidedLocalSearch::new(Some(10), Ratio::new(1, 2), NeverAccept);
    let mut problem = Flat;
    let state: IterState<u64> = <IterState<u64> as State>::new().param(5).cost(Cost::Fin(8));
    let after = solver.next_iter(&mut problem, state).unwrap();
    // the two-neighbor buffer was fully drained with zero acceptances:
    // every feature of the current param is one step heavier, exactly once
    let p = solver.get_penalty();
    assert_eq!(p.get(&1), 1);
    assert_eq!(p.get(&2), 1);
    assert_eq!(p.get(&3), 1);
    assert_eq!(p.get(&4), 0);
    // lambda = alpha * cost / featureCount, cost and count both of the
    // drained param: (1/2) * 8 / 3, kept exact
    assert_eq!(p.lambda, Ratio::new(8, 6));
    // the evaluated candidate move was force-accepted
    assert_eq!(after.get_cost(), Cost::Fin(8));
    assert_eq!(after.get_param().copied(), Some(6));
}

#[test]
fn partial_sweep_keeps_buffer_and_penalties_untouched() {
    let mut solver: GuidedLocalSearch<NeverAccept, u64> =
        GuidedLocalSearch::new(Some(1), Ratio::new(1, 2), NeverAccept);
    let mut problem = Flat;
    let state: IterState<u64> = <IterState<u64> as State>::new().param(5).cost(Cost::Fin(8));
    let after = solver.next_iter(&mut problem, state).unwrap();
    // only one of the two buffered neighbors was drained: no escape yet
    let p = solver.get_penalty();
    assert_eq!(p.get(&1), 0);
    assert_eq!(p.lambda, Ratio::new(0, 1));
    // the rejected sweep repeats the previous param
    assert_eq!(after.get_param().copied(), Some(5));
}

#[test]
fn calibrate_penalty_levels_stored_weights() {
    let mut solver: GuidedLocalSearch<NeverAccept, u64> =
        GuidedLocalSearch::new(None, Ratio::new(1, 2), NeverAccept);
    let penalty = {
        let mut p = Penalty::new(Ratio::new(1, 2));
        p.update(4);
        p.update(4);
        p.update(9);
        p
    };
    solver = solver.replace_penalty(penalty);
    solver.calibrate_penalty(7);
    assert_eq!(solver.get_penalty().get(&4), 7);
    assert_eq!(solver.get_penalty().get(&9), 7);
    assert_eq!(solver.get_penalty().get(&1), 0);
}
