//! The order in which the lower and upper limits of a target search are set.
//!
//! The solver accepts the two limit-setting calls in one order or the other
//! depending on its configuration. The protocol tries one order, and where
//! the solver rejects a call of it, tries the opposite order once; a rejection
//! in that second attempt is the outcome.

use vstd::prelude::*;

use crate::error::ChemAppError;

verus! {

/// One of the two limits of a target search.
#[derive(Debug, Clone, Copy, PartialEq, Eq)]
pub enum BracketLimit {
    Low,
    High,
}

/// What to do next while setting the limits.
#[derive(Debug, Clone, PartialEq, Eq)]
pub enum BracketStep {
    /// Set this limit and report how the solver answered.
    Place(BracketLimit),
    /// Both limits are set.
    Done,
    /// The solver rejected both orders; this is its last answer.
    Failed(ChemAppError),
}

/// Where a negotiation of the limit order stands.
#[derive(Debug, Clone, Copy, PartialEq, Eq)]
pub struct BracketNegotiation {
    /// The current attempt sets the upper limit first.
    pub high_first: bool,
    /// The current attempt is the second one.
    pub retried: bool,
    /// The first call of the current attempt was accepted.
    pub placed: bool,
    /// Both limits are set or the negotiation has failed.
    pub finished: bool,
}

/// The limit an attempt sets first.
pub open spec fn first_limit(high_first: bool) -> BracketLimit {
    if high_first { BracketLimit::High } else { BracketLimit::Low }
}

/// The limit an attempt sets second.
pub open spec fn second_limit(high_first: bool) -> BracketLimit {
    if high_first { BracketLimit::Low } else { BracketLimit::High }
}

/// The negotiation at its start.
pub open spec fn initial_negotiation(prefer_high_first: bool) -> BracketNegotiation {
    BracketNegotiation { high_first: prefer_high_first, retried: false, placed: false, finished: false }
}

/// The negotiation after the solver answered the pending call.
pub open spec fn negotiation_after(s: BracketNegotiation, accepted: bool) -> BracketNegotiation {
    if accepted {
        if s.placed {
            BracketNegotiation { finished: true, ..s }
        } else {
            BracketNegotiation { placed: true, ..s }
        }
    } else if s.retried {
        BracketNegotiation { finished: true, ..s }
    } else {
        BracketNegotiation { high_first: !s.high_first, retried: true, placed: false, finished: false }
    }
}

/// The step that follows the solver's answer to the pending call.
pub open spec fn step_after(s: BracketNegotiation, answer: Result<(), ChemAppError>) -> BracketStep {
    match answer {
        Ok(_) => if s.placed {
            BracketStep::Done
        } else {
            BracketStep::Place(second_limit(s.high_first))
        },
        Err(e) => if s.retried {
            BracketStep::Failed(e)
        } else {
            BracketStep::Place(first_limit(!s.high_first))
        },
    }
}

impl BracketNegotiation {
    /// Starts a negotiation; the first step sets the upper limit where
    /// `prefer_high_first`, else the lower one.
    pub fn start(prefer_high_first: bool) -> (r: (BracketNegotiation, BracketStep))
        ensures
            r.0 == initial_negotiation(prefer_high_first),
            r.1 == BracketStep::Place(first_limit(prefer_high_first)),
    {
        let s = BracketNegotiation { high_first: prefer_high_first, retried: false, placed: false, finished: false };
        let first = if prefer_high_first { BracketLimit::High } else { BracketLimit::Low };
        (s, BracketStep::Place(first))
    }

    /// Takes the solver's answer to the pending call and gives the next step.
    pub fn answer(&mut self, answer: Result<(), ChemAppError>) -> (r: BracketStep)
        requires
            !old(self).finished,
        ensures
            *final(self) == negotiation_after(*old(self), answer is Ok),
            r == step_after(*old(self), answer),
    {
        match answer {
            Ok(_) => {
                if self.placed {
                    self.finished = true;
                    BracketStep::Done
                } else {
                    self.placed = true;
                    if self.high_first {
                        BracketStep::Place(BracketLimit::Low)
                    } else {
                        BracketStep::Place(BracketLimit::High)
                    }
                }
            },
            Err(e) => {
                if self.retried {
                    self.finished = true;
                    BracketStep::Failed(e)
                } else {
                    self.high_first = !self.high_first;
                    self.retried = true;
                    self.placed = false;
                    if self.high_first {
                        BracketStep::Place(BracketLimit::High)
                    } else {
                        BracketStep::Place(BracketLimit::Low)
                    }
                }
            },
        }
    }
}

/// A solver that rejects the upper limit set first and then accepts the
/// opposite order: the limits are set low then high, and only after that one
/// rejected call.
pub proof fn lemma_fallback_order(rejection: ChemAppError)
    ensures
        ({
            let s0 = initial_negotiation(true);
            let s1 = negotiation_after(s0, false);
            let s2 = negotiation_after(s1, true);
            &&& first_limit(true) == BracketLimit::High
            &&& step_after(s0, Err(rejection)) == BracketStep::Place(BracketLimit::Low)
            &&& step_after(s1, Ok(())) == BracketStep::Place(BracketLimit::High)
            &&& step_after(s2, Ok(())) == BracketStep::Done
            &&& !s2.finished
            &&& negotiation_after(s2, true).finished
        }),
{
}

/// Whatever the solver answers, the negotiation makes at most two attempts:
/// it is finished after at most four answers, and a rejection in the second
/// attempt ends it with that rejection.
pub proof fn lemma_at_most_two_attempts(prefer_high_first: bool, accepted: Seq<bool>)
    requires
        accepted.len() == 4,
    ensures
        ({
            let s1 = negotiation_after(initial_negotiation(prefer_high_first), accepted[0]);
            let s2 = if s1.finished { s1 } else { negotiation_after(s1, accepted[1]) };
            let s3 = if s2.finished { s2 } else { negotiation_after(s2, accepted[2]) };
            let s4 = if s3.finished { s3 } else { negotiation_after(s3, accepted[3]) };
            s4.finished
        }),
        forall|s: BracketNegotiation, e: ChemAppError| s.retried ==> step_after(s, Err(e)) == BracketStep::Failed(e),
{
}

} // verus!
