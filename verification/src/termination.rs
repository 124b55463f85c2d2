use vstd::prelude::*;

verus! {

/// Why a run stopped.  Created once when the run loop decides to stop and
/// immutable thereafter.
#[derive(Clone, Debug, PartialEq, Eq, Hash)]
pub enum Reason {
    MaxItersReached,
    MaxTimeReached,
    MaxStallBestReached,
    TargetCostReached,
    KeyboardInterrupt,
    SolverConverged,
    SolverExit(String),
}

impl Reason {
    /// The human-readable description of the stop cause.
    pub fn text(&self) -> (r: &str)
        ensures
            r@ == match self {
                Reason::MaxItersReached => "Maximum number of iterations reached"@,
                Reason::MaxTimeReached => "Maximum time reached"@,
                Reason::MaxStallBestReached => "Maximum stall best reached"@,
                Reason::TargetCostReached => "Target cost value reached"@,
                Reason::KeyboardInterrupt => "Keyboard interrupt"@,
                Reason::SolverConverged => "Solver converged"@,
                Reason::SolverExit(m) => m@,
            },
    {
        match self {
            Reason::MaxItersReached => "Maximum number of iterations reached",
            Reason::MaxTimeReached => "Maximum time reached",
            Reason::MaxStallBestReached => "Maximum stall best reached",
            Reason::TargetCostReached => "Target cost value reached",
            Reason::KeyboardInterrupt => "Keyboard interrupt",
            Reason::SolverConverged => "Solver converged",
            Reason::SolverExit(m) => m.as_str(),
        }
    }
}

impl Default for Reason {
    fn default() -> (r: Self)
        ensures
            r matches Reason::SolverExit(m) && m@ == "Undefined"@,
    {
        Reason::SolverExit("Undefined".to_owned())
    }
}

/// The termination state machine of a run: still going, or stopped for a
/// recorded `Reason`.
#[derive(Clone, Debug, PartialEq, Eq, Hash)]
pub enum Status {
    Terminated(Reason),
    NotTerminated,
}

impl Status {
    #[must_use]
    pub fn terminated(&self) -> (r: bool)
        ensures
            r == (self is Terminated),
    {
        matches!(self, Status::Terminated(_))
    }

    /// The human-readable description of the status.
    pub fn text(&self) -> (r: &str)
        ensures
            r@ == match self {
                Status::Terminated(reason) => match reason {
                    Reason::MaxItersReached => "Maximum number of iterations reached"@,
                    Reason::MaxTimeReached => "Maximum time reached"@,
                    Reason::MaxStallBestReached => "Maximum stall best reached"@,
                    Reason::TargetCostReached => "Target cost value reached"@,
                    Reason::KeyboardInterrupt => "Keyboard interrupt"@,
                    Reason::SolverConverged => "Solver converged"@,
                    Reason::SolverExit(m) => m@,
                },
                Status::NotTerminated => "Running"@,
            },
    {
        match self {
            Status::Terminated(reason) => reason.text(),
            Status::NotTerminated => "Running",
        }
    }
}

impl Default for Status {
    fn default() -> (r: Self)
        ensures
            r == Status::NotTerminated,
    {
        Status::NotTerminated
    }
}

} // verus!
