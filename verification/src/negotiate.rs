//! Ordered trial-and-error negotiation.
//!
//! The remote peer's accepted URL form and payload shape are unknown, so a
//! logical operation is issued against an ordered list of candidates; the
//! first candidate producing a successful status wins and nothing after it
//! is attempted.  The state machine here centralizes that rule; the driver
//! only performs one request per `Try` action and reports the outcome.

use vstd::prelude::*;

verus! {

/// The position of the first accepted candidate, if any.
pub open spec fn spec_first_accepted(accepts: Seq<bool>) -> Option<int>
    decreases accepts.len(),
{
    if accepts.len() == 0 {
        None
    } else if accepts.first() {
        Some(0)
    } else {
        match spec_first_accepted(accepts.drop_first()) {
            Some(i) => Some(i + 1),
            None => None,
        }
    }
}

/// How many candidates a run attempts: everything up to and including the
/// first accepted one, or the whole list when none is accepted.
pub open spec fn spec_attempt_count(accepts: Seq<bool>) -> int {
    match spec_first_accepted(accepts) {
        Some(i) => i + 1,
        None => accepts.len() as int,
    }
}

/// The first accepted position is an accepted candidate preceded only by
/// rejected ones; absence means every candidate is rejected.
pub proof fn lemma_first_accepted(accepts: Seq<bool>)
    ensures
        match spec_first_accepted(accepts) {
            Some(i) => 0 <= i < accepts.len() && accepts[i] && forall|j: int|
                0 <= j < i ==> !accepts[j],
            None => forall|j: int| 0 <= j < accepts.len() ==> !accepts[j],
        },
    decreases accepts.len(),
{
    if accepts.len() > 0 && !accepts.first() {
        lemma_first_accepted(accepts.drop_first());
        assert(forall|j: int| 0 < j < accepts.len() ==> accepts[j] == accepts.drop_first()[j - 1]);
    }
}

/// What the driver of a negotiation must do next.
#[derive(Clone, Copy, Debug, PartialEq, Eq, Structural)]
pub enum NegotiationAction {
    /// Issue the candidate with this position and report its outcome.
    Try(usize),
    /// The candidate with this position succeeded; stop attempting.
    Accepted(usize),
    /// Every candidate was attempted and rejected.
    Exhausted,
}

/// A run over an ordered candidate list, first success wins.
#[derive(Clone, Copy, Debug, PartialEq, Eq, Structural)]
pub struct Negotiation {
    /// How many candidates the list holds.
    pub total: usize,
    /// The position of the next candidate to attempt.
    pub next: usize,
    /// The accepted position, once one candidate has succeeded.
    pub accepted: Option<usize>,
}

impl Negotiation {
    /// The states the machine moves through.
    pub open spec fn wf(self) -> bool {
        &&& self.next <= self.total
        &&& match self.accepted {
            Some(i) => i < self.total && i == self.next,
            None => true,
        }
    }

    /// Starts a run over `total` candidates.
    pub fn begin(total: usize) -> (n: Self)
        ensures
            n.wf(),
            n.total == total,
            n.next == 0,
            n.accepted is None,
    {
        Negotiation { total, next: 0, accepted: None }
    }

    /// What to do next: try the next untried candidate, or stop because
    /// one was accepted or all were rejected.
    pub fn current_action(&self) -> (a: NegotiationAction)
        requires
            self.wf(),
        ensures
            a == (match self.accepted {
                Some(i) => NegotiationAction::Accepted(i),
                None => {
                    if self.next < self.total {
                        NegotiationAction::Try(self.next)
                    } else {
                        NegotiationAction::Exhausted
                    }
                },
            }),
    {
        match self.accepted {
            Some(i) => NegotiationAction::Accepted(i),
            None => {
                if self.next < self.total {
                    NegotiationAction::Try(self.next)
                } else {
                    NegotiationAction::Exhausted
                }
            },
        }
    }

    /// Records the outcome of the candidate just attempted: success pins
    /// it as accepted, failure moves on to the following candidate.
    pub fn record(&mut self, ok: bool)
        requires
            old(self).wf(),
            old(self).accepted is None,
            old(self).next < old(self).total,
        ensures
            final(self).wf(),
            final(self).total == old(self).total,
            ok ==> final(self).accepted == Some(old(self).next) && final(self).next == old(
                self,
            ).next,
            !ok ==> final(self).accepted is None && final(self).next == old(self).next + 1,
    {
        if ok {
            self.accepted = Some(self.next);
        } else {
            self.next = self.next + 1;
        }
    }
}

/// Runs a whole negotiation against a given answer per candidate, and
/// returns how many candidates were attempted and which one won.  The
/// winner is the first accepted candidate; exactly the candidates before
/// it are attempted and rejected, and nothing after it is attempted.
pub fn run_negotiation(accepts: &Vec<bool>) -> (r: (usize, Option<usize>))
    ensures
        r.0 == spec_attempt_count(accepts@),
        match r.1 {
            Some(i) => i < accepts@.len() && accepts@[i as int] && (forall|j: int|
                0 <= j < i ==> !accepts@[j]) && r.0 == i + 1,
            None => (forall|j: int| 0 <= j < accepts@.len() ==> !accepts@[j]) && r.0
                == accepts@.len(),
        },
{
    proof {
        lemma_first_accepted(accepts@);
    }
    let mut st = Negotiation::begin(accepts.len());
    let mut attempts: usize = 0;
    loop
        invariant
            st.wf(),
            st.total == accepts@.len(),
            st.accepted is None ==> attempts == st.next,
            st.accepted is Some ==> attempts == st.next + 1,
            forall|j: int| 0 <= j < st.next ==> !accepts@[j],
            st.accepted matches Some(i) ==> accepts@[i as int],
        decreases st.total - st.next, (if st.accepted is None {
            1int
        } else {
            0int
        }),
    {
        match st.current_action() {
            NegotiationAction::Try(i) => {
                let ok = accepts[i];
                st.record(ok);
                attempts += 1;
            },
            NegotiationAction::Accepted(i) => {
                proof {
                    lemma_first_accepted(accepts@);
                    match spec_first_accepted(accepts@) {
                        Some(f) => {
                            assert(f == i);
                        },
                        None => {
                            assert(false);
                        },
                    }
                }
                return (attempts, Some(i));
            },
            NegotiationAction::Exhausted => {
                proof {
                    lemma_first_accepted(accepts@);
                    match spec_first_accepted(accepts@) {
                        Some(f) => {
                            assert(!accepts@[f]);
                            assert(false);
                        },
                        None => {},
                    }
                }
                return (attempts, None);
            },
        }
    }
}

} // verus!
