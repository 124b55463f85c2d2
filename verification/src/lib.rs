//! A generic local-search optimization engine: given a caller-supplied
//! cost evaluator and neighbor-generation policy over an arbitrary
//! parameter representation, it iteratively searches for a parameter
//! minimizing cost, with controlled acceptance of non-improving moves to
//! escape local optima.
//!
//! The run-loop driver ([`Executor`]), the per-iteration state with its
//! best-tracking rule ([`Iteration`]), the termination state machine
//! ([`Status`], [`Reason`]) and the three search policies ([`TabuSearch`],
//! [`VariableNeighborhood`], [`GuidedLocalSearch`]) carry contracts; costs
//! are exact integer units ([`Cost`]) and coefficients exact fractions
//! ([`Ratio`]), so every acceptance rule and bookkeeping step is stated
//! and proved precisely.

pub mod cost;
pub mod errors;
pub mod executor;
mod parallel;
pub mod problem;
pub mod result;
pub mod solver;
pub mod state;
pub mod termination;

pub use cost::{Cost, Ratio};
pub use errors::LocalSearchError;
pub use executor::Executor;
pub use problem::{AugmentedNeighborhood, CostFunction, Neighborhood, Param, Penalty, RandomSource};
pub use result::LocalSearchSolution;
pub use solver::{GuidedLocalSearch, Solver, TabuSearch, VariableNeighborhood};
pub use state::{IterState, Iteration, State};
pub use termination::{Reason, Status};
