use localsearch_rs::{
    Cost, CostFunction, Executor, IterState, LocalSearchError, Neighborhood, RandomSource,
    VariableNeighborhood,
};

/// A problem whose neighbor generation always fails.
struct NoNeighbors;

impl CostFunction for NoNeighbors {
    type Param = u64;

    fn cost(&self, _param: &u64) -> Result<Cost, LocalSearchError> {
        Ok(Cost::Fin(1))
    }
}

impl Neighborhood for NoNeighbors {
    type Param = u64;
    type Neighbor = u64;

    fn get_neighbor_moves<R: RandomSource>(
        &self,
        _rng: &mut R,
        _param: &u64,
    ) -> Result<Vec<u64>, LocalSearchError> {
        Err(LocalSearchError::FailGenRandomState)
    }

    fn get_neighbor_delta(&self, _param: &u64, _neighbor: &u64) -> Result<Cost, LocalSearchError> {
        Ok(Cost::Fin(0))
    }

    fn make_move(&self, _param: &u64, neighbor: &u64) -> Result<u64, LocalSearchError> {
        Ok(*neighbor)
    }
}

/// A problem whose delta evaluation always fails.
struct NoDeltas;

impl CostFunction for NoDeltas {
    type Param = u64;

    fn cost(&self, _param: &u64) -> Result<Cost, LocalSearchError> {
        Ok(Cost::Fin(1))
    }
}

impl Neighborhood for NoDeltas {
    type Param = u64;
    type Neighbor = u64;

    fn get_neighbor_moves<R: RandomSource>(
        &self,
        _rng: &mut R,
        _param: &u64,
    ) -> Result<Vec<u64>, LocalSearchError> {
        Ok(vec![1, 2, 3])
    }

    fn get_neighbor_delta(&self, _param: &u64, _neighbor: &u64) -> Result<Cost, LocalSearchError> {
        Err(LocalSearchError::FailGenCandidateState)
    }

    fn make_move(&self, _param: &u64, neighbor: &u64) -> Result<u64, LocalSearchError> {
        Ok(*neighbor)
    }
}

struct NeverWorse;

impl RandomSource for NeverWorse {
    fn next_index(&mut self, bound: u64) -> u64 {
        bound - 1
    }

    fn accept_worse(&mut self, _delta: &Cost, _iter: u32, _init_temp: i64) -> bool {
        false
    }
}

#[test]
fn failed_neighbor_generation_aborts_the_run() {
    let solver = VariableNeighborhood::new(Some(2), NeverWorse);
    let r = Executor::new(NoNeighbors, solver)
        .configure(|s: IterState<u64>| s.param(1))
        .unwrap()
        .run();
    assert!(matches!(r, Err(LocalSearchError::FailGenRandomState)));
}

#[test]
fn failed_delta_evaluation_aborts_the_run() {
    let solver = VariableNeighborhood::new(Some(2), NeverWorse);
    let r = Executor::new(NoDeltas, solver)
        .configure(|s: IterState<u64>| s.param(1))
        .unwrap()
        .run();
    assert!(matches!(r, Err(LocalSearchError::FailGenCandidateState)));
}
