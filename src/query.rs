//! Decisions of the index-space queries: which component, phase and
//! constituent indices are valid, how a phase expands into its constituent
//! keys, and how a phase is classified by its status and model name.
//!
//! Every decision here is a function of one index and of what the solver
//! reported for it, so a query that applies them one element at a time keeps
//! the order of its input, drops nothing but what a decision rejects, and
//! repeats what the input repeats.

use vstd::prelude::*;
use std::collections::HashMap;

verus! {

broadcast use vstd::std_specs::hash::group_hash_axioms;

/// True where `index` is a valid 1-based index into a space of `count` entries.
pub open spec fn index_in_range(index: int, count: int) -> bool {
    1 <= index <= count
}

/// What the validity filter of a component or phase query keeps of `indices`,
/// where the solver reports `count` entries.
pub open spec fn valid_indices(indices: Seq<usize>, count: int) -> Seq<usize> {
    indices.filter(|i: usize| index_in_range(i as int, count))
}

/// The dense sequence `lo, lo + 1, ..., hi - 1`.
pub open spec fn index_range(lo: int, hi: int) -> Seq<usize> {
    Seq::new((hi - lo) as nat, |k: int| (lo + k) as usize)
}

/// True where a (phase, constituent) key is valid: the phase is one of
/// `nphases`, and the constituent is one of those `ncons` gives for that phase.
pub open spec fn key_in_range(key: (usize, usize), nphases: int, ncons: spec_fn(usize) -> int) -> bool {
    index_in_range(key.0 as int, nphases) && index_in_range(key.1 as int, ncons(key.0))
}

/// What the validity filter of a constituent query keeps of `keys`.
pub open spec fn valid_keys(keys: Seq<(usize, usize)>, nphases: int, ncons: spec_fn(usize) -> int) -> Seq<(usize, usize)> {
    keys.filter(|k: (usize, usize)| key_in_range(k, nphases, ncons))
}

/// The keys of all constituents of a phase that has `count` of them, in order.
pub open spec fn phase_keys(phase: usize, count: nat) -> Seq<(usize, usize)> {
    Seq::new(count, |k: int| (phase, (k + 1) as usize))
}

/// Decides whether `index` is valid in a space of `count` entries.
pub fn index_is_valid(index: usize, count: usize) -> (r: bool)
    ensures
        r == index_in_range(index as int, count as int),
{
    index > 0 && index <= count
}

/// Expands a phase into the keys of its `count` constituents, numbered from 1.
pub fn constituents_for(phase: usize, count: usize) -> (r: Vec<(usize, usize)>)
    ensures
        r@ == phase_keys(phase, count as nat),
{
    let mut keys: Vec<(usize, usize)> = Vec::new();
    let mut c: usize = 0;
    while c < count
        invariant
            c <= count,
            keys@ =~= phase_keys(phase, c as nat),
        decreases count - c,
    {
        keys.push((phase, c + 1));
        c = c + 1;
    }
    keys
}

proof fn lemma_filter_counts<A>(s: Seq<A>, p: spec_fn(A) -> bool, x: A)
    ensures
        s.filter(p).to_multiset().count(x) == if p(x) { s.to_multiset().count(x) } else { 0 },
    decreases s.len(),
{
    broadcast use vstd::seq_lib::group_to_multiset_ensures;
    reveal(Seq::filter);
    if s.len() > 0 {
        lemma_filter_counts(s.drop_last(), p, x);
        s.drop_last().to_multiset_ensures();
        assert(s.drop_last().push(s.last()) =~= s);
        if p(s.last()) {
            s.drop_last().filter(p).to_multiset_ensures();
        }
    }
}

/// The validity filter of a component or phase query keeps each valid index
/// exactly as often as its input holds it, and no invalid index.
pub proof fn lemma_valid_indices_counts(indices: Seq<usize>, count: int, x: usize)
    ensures
        valid_indices(indices, count).to_multiset().count(x) == if index_in_range(x as int, count) {
            indices.to_multiset().count(x)
        } else {
            0
        },
{
    lemma_filter_counts(indices, |i: usize| index_in_range(i as int, count), x);
}

/// The validity filter of a constituent query keeps each valid key exactly as
/// often as its input holds it, and no invalid key.
pub proof fn lemma_valid_keys_counts(
    keys: Seq<(usize, usize)>,
    nphases: int,
    ncons: spec_fn(usize) -> int,
    x: (usize, usize),
)
    ensures
        valid_keys(keys, nphases, ncons).to_multiset().count(x) == if key_in_range(x, nphases, ncons) {
            keys.to_multiset().count(x)
        } else {
            0
        },
{
    lemma_filter_counts(keys, |k: (usize, usize)| key_in_range(k, nphases, ncons), x);
}

proof fn lemma_valid_prefix(lo: int, h: int, count: int)
    requires
        0 <= lo <= 1,
        lo <= h <= usize::MAX + 1,
        0 <= count < usize::MAX,
    ensures
        valid_indices(index_range(lo, h), count) =~= index_range(1, if h < 1 { 1 } else if h > count + 1 { count + 1 } else { h }),
    decreases h - lo,
{
    reveal(Seq::filter);
    if h > lo {
        lemma_valid_prefix(lo, h - 1, count);
        assert(index_range(lo, h).drop_last() =~= index_range(lo, h - 1));
    }
}

/// Over a dense range of candidates that covers `[1, count]`, the validity
/// filter of a component or phase query gives `1, 2, ..., count`: every
/// valid index once, in order, and nothing else.
pub proof fn lemma_valid_indices_of_range(lo: usize, hi: usize, count: usize)
    requires
        lo <= 1,
        count < hi,
    ensures
        valid_indices(index_range(lo as int, hi as int), count as int) == index_range(1, count + 1),
{
    lemma_valid_prefix(lo as int, hi as int, count as int);
}

/// What the validity filter of a constituent query decides for one key.
#[derive(Debug, Clone, Copy, PartialEq, Eq)]
pub enum KeyCheck {
    /// The key is valid: keep it.
    Valid,
    /// The key is not valid: drop it.
    Invalid,
    /// The constituent count of this phase is not known yet: ask the solver
    /// for it, record it, and check again.
    CountNeeded(usize),
}

/// The constituent counts that one evaluation of a constituent query has
/// learnt from the solver, so that each phase is asked for at most once.
pub struct ConstituentCountCache {
    nphases: usize,
    counts: HashMap<usize, usize>,
}

impl ConstituentCountCache {
    /// Number of phases the solver reported when the query began.
    pub closed spec fn phase_count(&self) -> usize {
        self.nphases
    }

    /// Constituent count of each phase learnt so far.
    pub closed spec fn known(&self) -> Map<usize, usize> {
        self.counts@
    }

    /// An empty cache for a system of `nphases` phases.
    pub fn new(nphases: usize) -> (r: ConstituentCountCache)
        ensures
            r.phase_count() == nphases,
            r.known() == Map::<usize, usize>::empty(),
    {
        ConstituentCountCache { nphases, counts: HashMap::new() }
    }

    /// Decides a key from what is known: a phase out of range is invalid; a
    /// phase whose count is known decides by that count; for another phase the
    /// count is needed first.
    pub fn check(&self, key: (usize, usize)) -> (r: KeyCheck)
        ensures
            !index_in_range(key.0 as int, self.phase_count() as int) ==> r == KeyCheck::Invalid,
            index_in_range(key.0 as int, self.phase_count() as int) && self.known().contains_key(key.0)
                ==> r == if index_in_range(key.1 as int, self.known()[key.0] as int) {
                    KeyCheck::Valid
                } else {
                    KeyCheck::Invalid
                },
            index_in_range(key.0 as int, self.phase_count() as int) && !self.known().contains_key(key.0)
                ==> r == KeyCheck::CountNeeded(key.0),
    {
        let (phase, constituent) = key;
        if !index_is_valid(phase, self.nphases) {
            return KeyCheck::Invalid;
        }
        match self.counts.get(&phase) {
            Some(count) => {
                if index_is_valid(constituent, *count) {
                    KeyCheck::Valid
                } else {
                    KeyCheck::Invalid
                }
            },
            None => KeyCheck::CountNeeded(phase),
        }
    }

    /// Records the constituent count the solver reported for `phase`.
    pub fn record(&mut self, phase: usize, count: usize)
        ensures
            final(self).phase_count() == old(self).phase_count(),
            final(self).known() == old(self).known().insert(phase, count),
    {
        self.counts.insert(phase, count);
    }
}

/// The status a phase can have in the solver.
#[derive(Debug, Clone, Copy, PartialEq, Eq)]
pub enum PhaseStatus {
    Entered,
    Dormant,
    Eliminated,
}

/// The four characters that open the solver's text for a status.
pub open spec fn status_code(status: PhaseStatus) -> Seq<char> {
    match status {
        PhaseStatus::Entered => "ENTE"@,
        PhaseStatus::Dormant => "DORM"@,
        PhaseStatus::Eliminated => "ELIM"@,
    }
}

/// The model-name prefix of a stoichiometric single-species phase.
pub open spec fn compound_model_code() -> Seq<char> {
    "PURE"@
}

/// True where `text` begins with `prefix`.
pub open spec fn has_prefix(text: Seq<char>, prefix: Seq<char>) -> bool {
    prefix.len() <= text.len() && text.take(prefix.len() as int) == prefix
}

/// Decides whether `text` begins with `prefix`.
pub fn starts_with(text: &str, prefix: &str) -> (r: bool)
    ensures
        r == has_prefix(text@, prefix@),
{
    let n = prefix.unicode_len();
    if text.unicode_len() < n {
        return false;
    }
    let mut i: usize = 0;
    while i < n
        invariant
            n == prefix@.len(),
            n <= text@.len(),
            i <= n,
            forall|j: int| 0 <= j < i ==> text@[j] == prefix@[j],
        decreases n - i,
    {
        if text.get_char(i) != prefix.get_char(i) {
            assert(text@.take(n as int)[i as int] != prefix@[i as int]);
            return false;
        }
        i = i + 1;
    }
    assert(text@.take(n as int) =~= prefix@);
    true
}

/// Decides whether the status text the solver gave for a phase is `wanted`:
/// its first four characters are that status's code.
pub fn status_matches(status_text: &str, wanted: PhaseStatus) -> (r: bool)
    ensures
        r == has_prefix(status_text@, status_code(wanted)),
{
    match wanted {
        PhaseStatus::Entered => starts_with(status_text, "ENTE"),
        PhaseStatus::Dormant => starts_with(status_text, "DORM"),
        PhaseStatus::Eliminated => starts_with(status_text, "ELIM"),
    }
}

/// Decides whether a phase with this model name is a compound: its first four
/// characters are "PURE".
pub fn is_compound_model(model: &str) -> (r: bool)
    ensures
        r == has_prefix(model@, compound_model_code()),
{
    starts_with(model, "PURE")
}

/// Decides whether a phase with this model name is a solution: any model
/// that is not a compound's.
pub fn is_solution_model(model: &str) -> (r: bool)
    ensures
        r == !has_prefix(model@, compound_model_code()),
{
    !starts_with(model, "PURE")
}

/// A phase is a compound exactly where the first four characters of its
/// model name are "PURE", and a solution exactly where they are not.
pub proof fn lemma_model_classes_partition(model: Seq<char>)
    ensures
        has_prefix(model, compound_model_code()) <==> (model.len() >= 4 && model.take(4) == "PURE"@),
        !has_prefix(model, compound_model_code()) <==> !(model.len() >= 4 && model.take(4) == "PURE"@),
{
    reveal_strlit("PURE");
}

} // verus!
