use std::sync::atomic::{AtomicBool, Ordering};
use std::sync::Arc;

use localsearch_rs::solver::termination_decision;
use localsearch_rs::{
    Cost, Executor, IterState, LocalSearchError, Reason, Solver, State, Status,
};

#[test]
fn policy_reason_wins_over_bounds() {
    let d = termination_decision(
        Status::Terminated(Reason::SolverConverged),
        10,
        5,
        &Cost::Fin(0),
        &Cost::Fin(0),
    );
    assert_eq!(d, Status::Terminated(Reason::SolverConverged));
}

#[test]
fn max_iters_wins_over_target() {
    let d = termination_decision(Status::NotTerminated, 5, 5, &Cost::Fin(0), &Cost::Fin(0));
    assert_eq!(d, Status::Terminated(Reason::MaxItersReached));
    let d2 = termination_decision(Status::NotTerminated, 1, 5, &Cost::Fin(0), &Cost::Fin(0));
    assert_eq!(d2, Status::Terminated(Reason::TargetCostReached));
    let d3 = termination_decision(Status::NotTerminated, 1, 5, &Cost::Fin(1), &Cost::Fin(0));
    assert_eq!(d3, Status::NotTerminated);
}

/// A policy that always reports its own stop verdict, to watch the
/// priority order end to end.
struct AlwaysStop;

impl Solver<(), IterState<u64>> for AlwaysStop {
    fn wf(&self) -> bool {
        true
    }

    fn terminate_spec(&self) -> Status {
        Status::Terminated(Reason::SolverConverged)
    }

    fn name(&self) -> &'static str {
        "AlwaysStop"
    }

    fn next_iter(
        &mut self,
        _problem: &mut (),
        state: IterState<u64>,
    ) -> Result<IterState<u64>, LocalSearchError> {
        Ok(state)
    }

    fn terminate(&mut self) -> Status {
        Status::Terminated(Reason::SolverConverged)
    }
}

#[test]
fn policy_termination_beats_bounds_in_run() {
    // the state is past the iteration bound and at the target cost at once
    let exec = Executor::new((), AlwaysStop);
    let res = exec
        .configure(|s: IterState<u64>| {
            let mut s = s.param(1).cost(Cost::Fin(0)).target_cost(Cost::Fin(0)).max_iters(2);
            s.increment_iter();
            s.increment_iter();
            s.increment_iter();
            s
        })
        .unwrap()
        .run()
        .unwrap();
    assert_eq!(
        res.state().get_termination_reason(),
        Some(&Reason::SolverConverged)
    );
}

/// A policy that counts how often `init` runs, to watch resumption.
struct Counting {
    init_calls: u32,
}

impl Solver<(), IterState<u64>> for Counting {
    fn wf(&self) -> bool {
        true
    }

    fn terminate_spec(&self) -> Status {
        Status::NotTerminated
    }

    fn name(&self) -> &'static str {
        "Counting"
    }

    fn init(
        &mut self,
        _problem: &mut (),
        state: IterState<u64>,
    ) -> Result<IterState<u64>, LocalSearchError> {
        self.init_calls += 1;
        Ok(state)
    }

    fn next_iter(
        &mut self,
        _problem: &mut (),
        state: IterState<u64>,
    ) -> Result<IterState<u64>, LocalSearchError> {
        Ok(state)
    }

    fn terminate(&mut self) -> Status {
        Status::NotTerminated
    }
}

#[test]
fn fresh_run_bootstraps_once() {
    let res = Executor::new((), Counting { init_calls: 0 })
        .configure(|s: IterState<u64>| s.param(1).cost(Cost::Fin(9)).max_iters(3))
        .unwrap()
        .run()
        .unwrap();
    assert_eq!(res.solver().init_calls, 1);
    assert_eq!(res.state().get_iter(), 3);
}

#[test]
fn resumed_run_skips_init_and_continues_counting() {
    let first = Executor::new((), Counting { init_calls: 0 })
        .configure(|s: IterState<u64>| s.param(1).cost(Cost::Fin(9)).max_iters(3))
        .unwrap()
        .run()
        .unwrap();
    let (problem, solver, state) = first.take_result();
    assert_eq!(state.get_iter(), 3);
    // hand the captured state to a fresh executor: init is skipped and the
    // counter stays where the first run left it
    let second = Executor::new(problem, solver)
        .configure(move |_s: IterState<u64>| state)
        .unwrap()
        .run()
        .unwrap();
    assert_eq!(second.solver().init_calls, 1);
    assert_eq!(second.state().get_iter(), 3);
    // a running checkpoint at iteration 3 with a higher bound carries on
    // from 3, with init still skipped
    let (problem, solver, _state) = second.take_result();
    let mut checkpoint: IterState<u64> = <IterState<u64> as State>::new();
    checkpoint = checkpoint.param(1).cost(Cost::Fin(9)).max_iters(5);
    checkpoint.increment_iter();
    checkpoint.increment_iter();
    checkpoint.increment_iter();
    let third = Executor::new(problem, solver)
        .configure(move |_s: IterState<u64>| checkpoint)
        .unwrap()
        .run()
        .unwrap();
    assert_eq!(third.solver().init_calls, 1);
    assert_eq!(third.state().get_iter(), 5);
}

#[test]
fn set_interrupt_flag_stops_between_iterations() {
    let flag = Arc::new(AtomicBool::new(false));
    flag.store(true, Ordering::Relaxed);
    let res = Executor::new((), Counting { init_calls: 0 })
        .with_interrupt(Arc::clone(&flag))
        .configure(|s: IterState<u64>| s.param(1).cost(Cost::Fin(9)).max_iters(100))
        .unwrap()
        .run()
        .unwrap();
    // the flag is polled at the loop boundary: the bootstrap ran, no
    // iteration did
    assert_eq!(res.solver().init_calls, 1);
    assert_eq!(res.state().get_iter(), 0);
    assert_eq!(
        res.state().get_termination_reason(),
        Some(&Reason::KeyboardInterrupt)
    );
}

#[test]
fn clear_interrupt_flag_changes_nothing() {
    let flag = Arc::new(AtomicBool::new(false));
    let res = Executor::new((), Counting { init_calls: 0 })
        .with_interrupt(flag)
        .configure(|s: IterState<u64>| s.param(1).cost(Cost::Fin(9)).max_iters(4))
        .unwrap()
        .run()
        .unwrap();
    assert_eq!(res.state().get_iter(), 4);
    assert_eq!(
        res.state().get_termination_reason(),
        Some(&Reason::MaxItersReached)
    );
}

#[test]
fn run_without_configured_param_is_not_initialized() {
    let r = Executor::new((), Counting { init_calls: 0 }).run();
    assert!(matches!(r, Err(LocalSearchError::NotInitialized)));
}

#[test]
fn consumed_state_slot_is_not_initialized() {
    let exec: Executor<(), Counting, IterState<u64>> = Executor {
        solver: Counting { init_calls: 0 },
        problem: (),
        state: None,
        duration: 0,
        interrupt: None,
    };
    let r = exec.configure(|s: IterState<u64>| s);
    assert!(matches!(r, Err(LocalSearchError::NotInitialized)));
}
