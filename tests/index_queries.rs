use chemapp::query::{
    constituents_for, index_is_valid, is_compound_model, is_solution_model, starts_with, status_matches,
    ConstituentCountCache, KeyCheck, PhaseStatus,
};

fn valid_of(candidates: impl Iterator<Item = usize>, count: usize) -> Vec<usize> {
    candidates.filter(|i| index_is_valid(*i, count)).collect()
}

#[test]
fn validity_filter_over_dense_range() {
    assert_eq!(valid_of(0..100, 3), vec![1, 2, 3]);
    assert_eq!(valid_of(1..5, 4), vec![1, 2, 3, 4]);
}

#[test]
fn validity_filter_of_empty_space() {
    assert_eq!(valid_of(0..100, 0), Vec::<usize>::new());
}

#[test]
fn validity_filter_keeps_order_and_repeats() {
    assert_eq!(valid_of(vec![3, 0, 2, 3, 9, 1].into_iter(), 3), vec![3, 2, 3, 1]);
}

#[test]
fn constituent_keys_of_phase() {
    assert_eq!(constituents_for(4, 3), vec![(4, 1), (4, 2), (4, 3)]);
    assert_eq!(constituents_for(2, 0), Vec::<(usize, usize)>::new());
}

fn keys_valid(keys: &[(usize, usize)], nphases: usize, ncons: &dyn Fn(usize) -> usize, asked: &mut Vec<usize>) -> Vec<(usize, usize)> {
    let mut cache = ConstituentCountCache::new(nphases);
    let mut kept = Vec::new();
    for key in keys {
        let verdict = match cache.check(*key) {
            KeyCheck::CountNeeded(p) => {
                asked.push(p);
                cache.record(p, ncons(p));
                cache.check(*key)
            }
            other => other,
        };
        assert!(!matches!(verdict, KeyCheck::CountNeeded(_)));
        if verdict == KeyCheck::Valid {
            kept.push(*key);
        }
    }
    kept
}

#[test]
fn constituent_validity_filter() {
    let ncons = |p: usize| if p == 1 { 2 } else { 1 };
    let keys: Vec<(usize, usize)> = (0..4).flat_map(|p| (0..4).map(move |c| (p, c))).collect();
    let mut asked = Vec::new();
    let kept = keys_valid(&keys, 2, &ncons, &mut asked);
    assert_eq!(kept, vec![(1, 1), (1, 2), (2, 1)]);
    assert_eq!(asked, vec![1, 2]);
}

#[test]
fn constituent_cache_decisions() {
    let mut cache = ConstituentCountCache::new(3);
    assert_eq!(cache.check((0, 1)), KeyCheck::Invalid);
    assert_eq!(cache.check((4, 1)), KeyCheck::Invalid);
    assert_eq!(cache.check((2, 1)), KeyCheck::CountNeeded(2));
    cache.record(2, 5);
    assert_eq!(cache.check((2, 5)), KeyCheck::Valid);
    assert_eq!(cache.check((2, 6)), KeyCheck::Invalid);
    assert_eq!(cache.check((2, 0)), KeyCheck::Invalid);
    assert_eq!(cache.check((3, 1)), KeyCheck::CountNeeded(3));
}

#[test]
fn status_codes() {
    assert!(status_matches("ENTERED", PhaseStatus::Entered));
    assert!(status_matches("DORMANT", PhaseStatus::Dormant));
    assert!(status_matches("ELIMINATED", PhaseStatus::Eliminated));
    assert!(!status_matches("ENTERED", PhaseStatus::Eliminated));
    assert!(!status_matches("ENT", PhaseStatus::Entered));
    assert!(!status_matches("entered", PhaseStatus::Entered));
}

#[test]
fn model_classification() {
    assert!(is_compound_model("PURE"));
    assert!(is_compound_model("PURE    "));
    assert!(!is_solution_model("PURE"));
    assert!(is_solution_model("RKMP"));
    assert!(is_solution_model("PUR"));
    assert!(is_solution_model("pure"));
    assert!(is_solution_model(""));
    assert!(!is_compound_model("QKTO"));
}

#[test]
fn prefix_test() {
    assert!(starts_with("abc", ""));
    assert!(starts_with("abc", "ab"));
    assert!(!starts_with("ab", "abc"));
}
