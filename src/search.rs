//! Bisection along a composition segment for a point where a target phase is
//! the only stable phase.
//!
//! A point of the segment from `x1` to `x2` is held exactly as the fraction
//! `numerator / denominator` of the way from `x1` to `x2`; the denominator is
//! a power of two. The search starts at `x1` with `x2` as the other end; each
//! iteration moves to the midpoint between the current point and the other
//! end, has the stable phases there evaluated, and then either stops or picks
//! the other end for the next midpoint.

use vstd::prelude::*;

use crate::error::ChemAppError;

verus! {

/// Number of midpoints the search evaluates at most.
pub const MAX_ITERATIONS: usize = 10;

/// A point of the segment from `x1` to `x2`: the composition
/// `x1 + (numerator / denominator) * (x2 - x1)`.
#[derive(Debug, Clone, Copy, PartialEq, Eq)]
pub struct SegmentPoint {
    pub numerator: u64,
    pub denominator: u64,
}

/// What to do next in the search.
#[derive(Debug, Clone, PartialEq, Eq)]
pub enum SearchStep {
    /// Run an isothermal calculation at this point and report its stable phases.
    Evaluate(SegmentPoint),
    /// The target phase is the only stable phase at this point.
    Converged(SegmentPoint),
}

/// Where a search stands.
#[derive(Debug, Clone, Copy, PartialEq, Eq)]
pub struct BoundarySearch {
    /// The phase sought.
    pub target: usize,
    /// Midpoints handed out so far.
    pub iterations: usize,
    /// The point handed out last.
    pub point: SegmentPoint,
    /// The next midpoint is taken toward `x2` (else toward `x1`).
    pub toward_second: bool,
    /// The search has converged or failed.
    pub finished: bool,
}

/// `2` to the power `k`.
pub open spec fn pow2(k: nat) -> nat
    decreases k,
{
    if k == 0 { 1 } else { 2 * pow2((k - 1) as nat) }
}

/// True where the stable phases are the target phase alone.
pub open spec fn only_target(stable: Seq<usize>, target: usize) -> bool {
    stable.len() > 0 && forall|i: int| 0 <= i < stable.len() ==> stable[i] == target
}

/// True of the error of a search that ran out of iterations.
pub open spec fn is_convergence_failure(e: ChemAppError) -> bool {
    e matches ChemAppError::ConvergenceError(m) && m@ == "Cannot converge composition target"@
}

/// The midpoint between `p` and the end of the segment it is taken toward.
pub open spec fn midpoint(p: SegmentPoint, toward_second: bool) -> SegmentPoint {
    SegmentPoint {
        numerator: (p.numerator + if toward_second { p.denominator } else { 0 }) as u64,
        denominator: (2 * p.denominator) as u64,
    }
}

/// The search for `target` once it has handed out its first midpoint.
pub open spec fn initial_search(target: usize) -> BoundarySearch {
    BoundarySearch {
        target,
        iterations: 1,
        point: SegmentPoint { numerator: 1, denominator: 2 },
        toward_second: true,
        finished: false,
    }
}

/// The search after the stable phases at its last point were reported.
pub open spec fn search_after(s: BoundarySearch, stable: Seq<usize>) -> BoundarySearch {
    if s.finished {
        s
    } else if only_target(stable, s.target) || s.iterations >= MAX_ITERATIONS {
        BoundarySearch { finished: true, ..s }
    } else {
        let toward = stable.contains(s.target);
        BoundarySearch {
            iterations: (s.iterations + 1) as usize,
            point: midpoint(s.point, toward),
            toward_second: toward,
            ..s
        }
    }
}

/// The step that follows the report of the stable phases at the last point;
/// none where the search has run out of iterations.
pub open spec fn search_step(s: BoundarySearch, stable: Seq<usize>) -> Option<SearchStep> {
    if only_target(stable, s.target) {
        Some(SearchStep::Converged(s.point))
    } else if s.iterations >= MAX_ITERATIONS {
        None
    } else {
        Some(SearchStep::Evaluate(search_after(s, stable).point))
    }
}

/// The search for `target` after the stable phase sets `reports`, in order.
pub open spec fn search_state_after(target: usize, reports: Seq<Seq<usize>>) -> BoundarySearch
    decreases reports.len(),
{
    if reports.len() == 0 {
        initial_search(target)
    } else {
        search_after(search_state_after(target, reports.drop_last()), reports.last())
    }
}

impl BoundarySearch {
    /// The invariant of a search: its point lies on the segment, with the
    /// denominator the power of two of its iteration count.
    pub open spec fn wf(&self) -> bool {
        &&& 1 <= self.iterations <= MAX_ITERATIONS
        &&& self.point.denominator == pow2(self.iterations as nat)
        &&& self.point.numerator <= self.point.denominator
    }

    /// Starts a search for `target`; its first step evaluates the midpoint of
    /// the segment.
    pub fn start(target: usize) -> (r: (BoundarySearch, SearchStep))
        ensures
            r.0 == initial_search(target),
            r.0.wf(),
            r.1 == SearchStep::Evaluate(r.0.point),
    {
        let point = SegmentPoint { numerator: 1, denominator: 2 };
        let s = BoundarySearch { target, iterations: 1, point, toward_second: true, finished: false };
        assert(pow2(1) == 2) by { assert(pow2(0) == 1); }
        (s, SearchStep::Evaluate(point))
    }

    /// Takes the stable phases at the last point handed out and gives the
    /// next step: convergence where the target is the only stable phase, a
    /// convergence error after the last iteration, else the next midpoint,
    /// taken toward `x2` where the target was among the stable phases and
    /// toward `x1` where it was not.
    pub fn observe(&mut self, stable: &Vec<usize>) -> (r: Result<SearchStep, ChemAppError>)
        requires
            old(self).wf(),
            !old(self).finished,
        ensures
            *final(self) == search_after(*old(self), stable@),
            final(self).wf(),
            match search_step(*old(self), stable@) {
                Some(step) => r == Ok::<SearchStep, ChemAppError>(step),
                None => r matches Err(e) && is_convergence_failure(e),
            },
    {
        if stable.len() > 0 && all_equal(stable, self.target) {
            self.finished = true;
            return Ok(SearchStep::Converged(self.point));
        }
        if self.iterations >= MAX_ITERATIONS {
            self.finished = true;
            let message = String::from_str("Cannot converge composition target");
            return Err(ChemAppError::ConvergenceError(message));
        }
        let toward = contains(stable, self.target);
        let step: u64 = if toward { self.point.denominator } else { 0 };
        proof {
            lemma_pow2_bound(self.iterations as nat);
        }
        self.point = SegmentPoint {
            numerator: self.point.numerator + step,
            denominator: 2 * self.point.denominator,
        };
        self.iterations = self.iterations + 1;
        self.toward_second = toward;
        Ok(SearchStep::Evaluate(self.point))
    }
}

proof fn lemma_pow2_monotonic(k: nat, m: nat)
    requires
        k <= m,
    ensures
        1 <= pow2(k) <= pow2(m),
    decreases m,
{
    if m > k {
        lemma_pow2_monotonic(k, (m - 1) as nat);
    } else if m > 0 {
        lemma_pow2_monotonic((m - 1) as nat, (m - 1) as nat);
    }
}

proof fn lemma_pow2_bound(k: nat)
    requires
        k < MAX_ITERATIONS,
    ensures
        1 <= pow2(k) <= 512,
{
    lemma_pow2_monotonic(k, 9);
    reveal_with_fuel(pow2, 10);
}

fn all_equal(v: &Vec<usize>, x: usize) -> (r: bool)
    ensures
        r == forall|i: int| 0 <= i < v@.len() ==> v@[i] == x,
{
    let mut i: usize = 0;
    while i < v.len()
        invariant
            i <= v@.len(),
            forall|j: int| 0 <= j < i ==> v@[j] == x,
        decreases v@.len() - i,
    {
        if v[i] != x {
            return false;
        }
        i = i + 1;
    }
    true
}

fn contains(v: &Vec<usize>, x: usize) -> (r: bool)
    ensures
        r == v@.contains(x),
{
    let mut i: usize = 0;
    while i < v.len()
        invariant
            i <= v@.len(),
            forall|j: int| 0 <= j < i ==> v@[j] != x,
        decreases v@.len() - i,
    {
        if v[i] == x {
            return true;
        }
        i = i + 1;
    }
    false
}

proof fn lemma_search_progress(target: usize, reports: Seq<Seq<usize>>)
    ensures
        search_state_after(target, reports).wf(),
        search_state_after(target, reports).target == target,
        search_state_after(target, reports).finished
            || search_state_after(target, reports).iterations == reports.len() + 1,
        !search_state_after(target, reports).finished ==> forall|k: int| 0 <= k < reports.len() ==> !only_target(reports[k], target),
        (forall|k: int| 0 <= k < reports.len() ==> !only_target(reports[k], target)) && reports.len() < MAX_ITERATIONS
            ==> !search_state_after(target, reports).finished,
    decreases reports.len(),
{
    if reports.len() == 0 {
        assert(pow2(1) == 2) by {
            reveal_with_fuel(pow2, 2);
        }
    } else {
        let prev = reports.drop_last();
        let last = reports[reports.len() - 1];
        lemma_search_progress(target, prev);
        let s = search_state_after(target, prev);
        let r = search_state_after(target, reports);
        assert(r == search_after(s, last));
        assert forall|k: int| 0 <= k < prev.len() implies prev[k] == reports[k] by {}
        if !s.finished && !only_target(last, target) && s.iterations < MAX_ITERATIONS {
            lemma_pow2_bound(s.iterations as nat);
            assert(pow2((s.iterations + 1) as nat) == 2 * pow2(s.iterations as nat));
            assert(r.wf());
        }
        if !r.finished {
            assert(!s.finished);
            assert(!only_target(last, target));
            assert forall|k: int| 0 <= k < reports.len() implies !only_target(reports[k], target) by {
                if k < prev.len() {
                    assert(prev[k] == reports[k]);
                }
            }
        }
        if (forall|k: int| 0 <= k < reports.len() ==> !only_target(reports[k], target)) && reports.len() < MAX_ITERATIONS {
            assert(!only_target(reports[reports.len() - 1], target));
            assert forall|k: int| 0 <= k < prev.len() implies !only_target(prev[k], target) by {
                assert(prev[k] == reports[k]);
            }
            assert(!s.finished);
            assert(s.iterations == prev.len() + 1);
            assert(!r.finished);
        }
    }
}

/// The search ends after at most ten reports of stable phases, however the
/// phases fall: it has then converged or failed.
pub proof fn lemma_search_ends_within_limit(target: usize, reports: Seq<Seq<usize>>)
    requires
        reports.len() == MAX_ITERATIONS,
    ensures
        search_state_after(target, reports).finished,
{
    lemma_search_progress(target, reports);
}

/// The search converges only at a point where the target phase is the only
/// stable phase, and that point is the one evaluated last.
pub proof fn lemma_converges_only_on_target(s: BoundarySearch, stable: Seq<usize>, p: SegmentPoint)
    requires
        search_step(s, stable) == Some(SearchStep::Converged(p)),
    ensures
        only_target(stable, s.target),
        stable.to_set() == set![s.target],
        p == s.point,
{
    assert(stable.to_set() =~= set![s.target]) by {
        assert(stable[0] == s.target);
        assert(stable.contains(s.target));
    }
}

/// Where no evaluated point makes the target the only stable phase, the
/// search asks for the next midpoint after each of the first nine reports
/// and has no step but failure after the tenth.
pub proof fn lemma_fails_after_limit(target: usize, reports: Seq<Seq<usize>>)
    requires
        reports.len() == MAX_ITERATIONS,
        forall|k: int| 0 <= k < reports.len() ==> !only_target(reports[k], target),
    ensures
        forall|k: int| 0 <= k < MAX_ITERATIONS - 1
            ==> #[trigger] search_step(search_state_after(target, reports.take(k)), reports[k]) matches Some(SearchStep::Evaluate(_)),
        search_step(search_state_after(target, reports.take(9)), reports[9]).is_none(),
{
    assert forall|k: int| 0 <= k < MAX_ITERATIONS - 1
        implies #[trigger] search_step(search_state_after(target, reports.take(k)), reports[k]) matches Some(SearchStep::Evaluate(_)) by {
        let prefix = reports.take(k);
        lemma_search_progress(target, prefix);
    }
    lemma_search_progress(target, reports.take(9));
}

} // verus!
