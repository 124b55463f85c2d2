use localsearch_rs::solver::select_min;
use localsearch_rs::solver::tabu_search::{select_non_tabu, TabuList};
use localsearch_rs::Cost;

#[test]
fn tabu_entry_survives_until_capacity_insertions() {
    let mut t: TabuList<u64> = TabuList::new(3);
    t.insert(42);
    t.insert(1);
    t.insert(2);
    // two further insertions: still listed
    assert!(t.contains(&42));
    // the third one evicts the oldest entry
    t.insert(3);
    assert!(!t.contains(&42));
}

#[test]
fn tabu_capacity_zero_stays_empty() {
    let mut t: TabuList<u64> = TabuList::new(0);
    t.insert(5);
    assert!(!t.contains(&5));
}

#[test]
fn listed_param_is_never_selected() {
    let mut t: TabuList<u64> = TabuList::new(2);
    t.insert(7);
    let cands: Vec<(u64, Cost)> = vec![
        (7, Cost::Fin(0)),
        (8, Cost::Fin(5)),
        (9, Cost::Fin(5)),
    ];
    // the cheapest candidate is listed, so the next one wins; the tie with
    // the third is broken toward the lower index
    assert_eq!(select_non_tabu(&cands, &t), Some(1));
    let empty: TabuList<u64> = TabuList::new(2);
    assert_eq!(select_non_tabu(&cands, &empty), Some(0));
    let mut all: TabuList<u64> = TabuList::new(3);
    all.insert(7);
    all.insert(8);
    all.insert(9);
    assert_eq!(select_non_tabu(&cands, &all), None);
}

#[test]
fn select_min_breaks_ties_toward_lowest_index() {
    let d = vec![Cost::Fin(3), Cost::Fin(1), Cost::Fin(1)];
    assert_eq!(select_min(&d), Some(1));
    let e: Vec<Cost> = Vec::new();
    assert_eq!(select_min(&e), None);
    let f = vec![Cost::PosInf, Cost::NegInf, Cost::Fin(0)];
    assert_eq!(select_min(&f), Some(1));
}
