use chemapp::search::{BoundarySearch, SearchStep, SegmentPoint, MAX_ITERATIONS};
use chemapp::ChemAppError;

/// Runs a search whose stable phases at a point come from `phases`;
/// returns the outcome and the number of points evaluated.
fn run(target: usize, phases: &dyn Fn(f64) -> Vec<usize>) -> (Result<SegmentPoint, ChemAppError>, usize) {
    let (mut search, mut step) = BoundarySearch::start(target);
    let mut evaluated = 0;
    loop {
        match step {
            SearchStep::Evaluate(p) => {
                evaluated += 1;
                let t = p.numerator as f64 / p.denominator as f64;
                match search.observe(&phases(t)) {
                    Ok(next) => step = next,
                    Err(e) => return (Err(e), evaluated),
                }
            }
            SearchStep::Converged(p) => return (Ok(p), evaluated),
        }
    }
}

#[test]
fn first_midpoint_is_half_way() {
    let (_, step) = BoundarySearch::start(3);
    assert_eq!(step, SearchStep::Evaluate(SegmentPoint { numerator: 1, denominator: 2 }));
}

#[test]
fn converges_where_target_alone_is_stable() {
    // Phase 1 alone near x1, both phases in the middle, phase 2 alone near x2.
    let phases = |t: f64| if t < 0.3 { vec![1] } else if t < 0.7 { vec![1, 2] } else { vec![2] };
    let (result, evaluated) = run(2, &phases);
    let p = result.unwrap();
    assert_eq!(p, SegmentPoint { numerator: 3, denominator: 4 });
    let t = p.numerator as f64 / p.denominator as f64;
    assert_eq!(phases(t), vec![2]);
    assert!(evaluated <= MAX_ITERATIONS);
}

#[test]
fn midpoints_follow_the_reports() {
    let (mut search, _) = BoundarySearch::start(5);
    // Target stable with another phase: next midpoint toward x2.
    assert_eq!(search.observe(&vec![5, 1]), Ok(SearchStep::Evaluate(SegmentPoint { numerator: 3, denominator: 4 })));
    // Target absent: toward x1.
    assert_eq!(search.observe(&vec![1]), Ok(SearchStep::Evaluate(SegmentPoint { numerator: 3, denominator: 8 })));
    // Target alone.
    assert_eq!(search.observe(&vec![5]), Ok(SearchStep::Converged(SegmentPoint { numerator: 3, denominator: 8 })));
}

#[test]
fn fails_after_exactly_ten_evaluations() {
    let phases = |_: f64| vec![1, 2];
    let (result, evaluated) = run(2, &phases);
    assert!(matches!(result, Err(ChemAppError::ConvergenceError(_))));
    assert_eq!(evaluated, 10);
}

#[test]
fn no_stable_phase_never_converges() {
    let phases = |_: f64| Vec::new();
    let (result, evaluated) = run(2, &phases);
    assert_eq!(result, Err(ChemAppError::ConvergenceError("Cannot converge composition target".to_string())));
    assert_eq!(evaluated, MAX_ITERATIONS);
}
