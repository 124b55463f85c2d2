use localsearch_rs::{
    Cost, IterState, LocalSearchError, LocalSearchSolution, Reason, State, Status,
};

#[test]
fn error_texts() {
    assert_eq!(
        LocalSearchError::NotInitialized.text(),
        "Fail to initialize state parameters"
    );
    assert_eq!(
        LocalSearchError::FailGenRandomState.text(),
        "Fail to generate a random state"
    );
    assert_eq!(
        LocalSearchError::FailGenCandidateState.text(),
        "Fail to generate a candidate state"
    );
    assert_eq!(LocalSearchError::Bug.text(), "Bug");
}

#[test]
fn status_and_reason_texts() {
    assert_eq!(Status::NotTerminated.text(), "Running");
    assert_eq!(
        Status::Terminated(Reason::MaxItersReached).text(),
        "Maximum number of iterations reached"
    );
    assert_eq!(Reason::MaxTimeReached.text(), "Maximum time reached");
    assert_eq!(Reason::MaxStallBestReached.text(), "Maximum stall best reached");
    assert_eq!(Reason::TargetCostReached.text(), "Target cost value reached");
    assert_eq!(Reason::KeyboardInterrupt.text(), "Keyboard interrupt");
    assert_eq!(Reason::SolverConverged.text(), "Solver converged");
    assert_eq!(Reason::SolverExit("done".to_owned()).text(), "done");
    assert_eq!(Reason::default().text(), "Undefined");
    assert!(Status::Terminated(Reason::SolverConverged).terminated());
    assert!(!Status::NotTerminated.terminated());
}

fn state_with_best(best: i64) -> IterState<u64> {
    let mut s: IterState<u64> = <IterState<u64> as State>::new();
    s = s.param(1).cost(Cost::Fin(best));
    s.update();
    s
}

#[test]
fn solutions_compare_by_best_cost() {
    let a = LocalSearchSolution::new((), (), state_with_best(3));
    let b = LocalSearchSolution::new((), (), state_with_best(3));
    let c = LocalSearchSolution::new((), (), state_with_best(9));
    assert!(a == b);
    assert!(a != c);
    assert!(a < c);
    assert!(c > b);
    let (_problem, _solver, state) = c.take_result();
    assert_eq!(state.get_best_cost(), Cost::Fin(9));
}
