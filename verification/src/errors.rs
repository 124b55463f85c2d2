use vstd::prelude::*;

verus! {

/// A terminal failure of a run.
///
/// `NotInitialized` guards the single-use state slot of the executor (and a
/// run started without a configured parameter).  The two `FailGen` kinds
/// report a failed problem-adapter operation.  `Bug` is a defensive
/// placeholder that no path of this crate produces.
#[derive(Clone, Debug, PartialEq, Eq, Structural)]
pub enum LocalSearchError {
    NotInitialized,
    FailGenRandomState,
    FailGenCandidateState,
    Bug,
}

impl LocalSearchError {
    /// The human-readable description of the failure.
    pub fn text(&self) -> (r: &'static str)
        ensures
            r@ == match self {
                LocalSearchError::NotInitialized => "Fail to initialize state parameters"@,
                LocalSearchError::FailGenRandomState => "Fail to generate a random state"@,
                LocalSearchError::FailGenCandidateState => "Fail to generate a candidate state"@,
                LocalSearchError::Bug => "Bug"@,
            },
    {
        match self {
            LocalSearchError::NotInitialized => "Fail to initialize state parameters",
            LocalSearchError::FailGenRandomState => "Fail to generate a random state",
            LocalSearchError::FailGenCandidateState => "Fail to generate a candidate state",
            LocalSearchError::Bug => "Bug",
        }
    }
}

} // verus!
