use localsearch_rs::{Penalty, Ratio};

#[test]
fn test_penalty_new() {
    let penalty = Penalty::new(Ratio::new(1, 2));
    assert_eq!(penalty.alpha, Ratio::new(1, 2));
    assert_eq!(penalty.lambda, Ratio::new(0, 1));
    assert!(penalty.values.is_empty());
}

#[test]
fn test_penalty_get() {
    let mut penalty = Penalty::new(Ratio::new(1, 2));
    penalty.values.push((1, 2));
    assert_eq!(penalty.get(&1), 2);
    assert_eq!(penalty.get(&2), 0);
}

#[test]
fn test_penalty_calibrate() {
    let mut penalty = Penalty::new(Ratio::new(1, 2));
    penalty.values.push((1, 2));
    penalty.values.push((2, 3));
    penalty.calibrate(1);
    assert_eq!(penalty.get(&1), 1);
    assert_eq!(penalty.get(&2), 1);
}

#[test]
fn test_penalty_update() {
    let mut penalty = Penalty::new(Ratio::new(1, 2));
    penalty.update(1);
    assert_eq!(penalty.get(&1), 1);
    penalty.update(1);
    assert_eq!(penalty.get(&1), 2);
}

#[test]
fn test_penalty_utility() {
    let mut penalty = Penalty::new(Ratio::new(1, 2));
    penalty.values.push((1, 2));
    assert_eq!(penalty.utility(&1, 10), Ratio::new(10, 3));
}

#[test]
fn penalty_update_touches_one_feature() {
    let mut penalty = Penalty::new(Ratio::new(3, 4));
    penalty.update(9);
    penalty.update(9);
    penalty.update(4);
    assert_eq!(penalty.get(&9), 2);
    assert_eq!(penalty.get(&4), 1);
    assert_eq!(penalty.get(&1), 0);
    assert_eq!(penalty.alpha, Ratio::new(3, 4));
}
