use localsearch_rs::cost::is_improving;
use localsearch_rs::{Cost, IterState, State};

#[test]
fn best_cost_never_rises() {
    let mut s: IterState<u64> = <IterState<u64> as State>::new();
    assert_eq!(s.get_best_cost(), Cost::PosInf);
    s = s.param(1).cost(Cost::Fin(10));
    s.update();
    assert_eq!(s.get_best_cost(), Cost::Fin(10));
    s = s.cost(Cost::Fin(20));
    s.update();
    assert_eq!(s.get_best_cost(), Cost::Fin(10));
    s = s.cost(Cost::Fin(5));
    s.update();
    assert_eq!(s.get_best_cost(), Cost::Fin(5));
    assert_eq!(s.get_prev_best_cost(), Cost::Fin(10));
}

#[test]
fn infinite_tie_seeds_best() {
    let mut s: IterState<u64> = <IterState<u64> as State>::new();
    s = s.param(3);
    s.update();
    assert!(s.is_best());
    assert_eq!(s.get_best_cost(), Cost::PosInf);
    assert_eq!(s.get_best_param().copied(), Some(3));
}

#[test]
fn is_best_tracks_most_recent_improvement() {
    let mut s: IterState<u64> = <IterState<u64> as State>::new().param(1).cost(Cost::Fin(4));
    s.update();
    assert!(s.is_best());
    s.increment_iter();
    assert!(!s.is_best());
    s = s.cost(Cost::Fin(9));
    s.update();
    assert!(!s.is_best());
    s = s.cost(Cost::Fin(1));
    s.update();
    assert!(s.is_best());
    assert_eq!(s.get_last_best_iter(), 1);
}

#[test]
fn param_and_cost_slots_swap() {
    let mut s: IterState<u64> = <IterState<u64> as State>::new();
    s = s.param(7).cost(Cost::Fin(3));
    s = s.param(8).cost(Cost::Fin(2));
    assert_eq!(s.get_param().copied(), Some(8));
    assert_eq!(s.get_prev_param().copied(), Some(7));
    assert_eq!(s.get_cost(), Cost::Fin(2));
    assert_eq!(s.get_prev_cost(), Cost::Fin(3));
    let taken = s.take_param();
    assert_eq!(taken, Some(8));
    assert!(s.get_param().is_none());
}

#[test]
fn zero_delta_is_never_improving() {
    assert!(!is_improving(&Cost::Fin(0)));
    assert!(is_improving(&Cost::Fin(-1)));
    assert!(!is_improving(&Cost::Fin(1)));
    assert!(is_improving(&Cost::NegInf));
    assert!(!is_improving(&Cost::PosInf));
}

#[test]
fn cost_arithmetic_is_exact_and_saturating() {
    assert_eq!(Cost::Fin(5).minus(&Cost::Fin(7)), Cost::Fin(-2));
    assert_eq!(Cost::Fin(i64::MIN).minus(&Cost::Fin(1)), Cost::Fin(i64::MIN));
    assert_eq!(Cost::Fin(i64::MAX).plus(&Cost::Fin(1)), Cost::Fin(i64::MAX));
    assert_eq!(Cost::Fin(3).minus(&Cost::NegInf), Cost::PosInf);
    assert_eq!(Cost::PosInf.minus(&Cost::PosInf), Cost::PosInf);
    assert_eq!(Cost::NegInf.plus(&Cost::Fin(9)), Cost::NegInf);
    assert!(Cost::NegInf.lt(&Cost::Fin(i64::MIN)));
    assert!(Cost::Fin(i64::MAX).lt(&Cost::PosInf));
    assert!(Cost::Fin(2).le(&Cost::Fin(2)));
}
