//! The relay connection plan.
//!
//! When relay addresses were configured, each is processed strictly in
//! order: dial it, and on success register the derived circuit-relay
//! listening address. Failures are logged per relay and never block the
//! remaining relays.

use vstd::prelude::*;
use vstd::string::StringExecFns;

verus! {

/// The circuit-relay listening address derived from a relay's address:
/// the relay's own address with the circuit path segment appended.
pub fn circuit_address(relay: &str) -> (r: String)
    ensures
        r@ == relay@ + "/p2p-circuit"@,
{
    String::from_str(relay).concat("/p2p-circuit")
}

/// Walks the configured relays in order, one attempt each, whatever became
/// of the previous attempts.
pub struct RelayConnector {
    relays: Vec<String>,
    next: usize,
}

/// The addresses a connector at position `next` still attempts, in order.
pub open spec fn spec_remaining(relays: Seq<Seq<char>>, next: int) -> Seq<Seq<char>> {
    if 0 <= next <= relays.len() {
        relays.subrange(next, relays.len() as int)
    } else {
        Seq::empty()
    }
}

/// The addresses attempted when the connector is driven with one step per
/// recorded outcome: each step attempts the next relay and moves on, the
/// outcome itself deciding nothing.
pub open spec fn spec_attempts(relays: Seq<Seq<char>>, next: int, outcomes: Seq<bool>) -> Seq<
    Seq<char>,
>
    decreases outcomes.len(),
{
    if outcomes.len() == 0 || !(0 <= next < relays.len()) {
        Seq::empty()
    } else {
        seq![relays[next]] + spec_attempts(relays, next + 1, outcomes.drop_first())
    }
}

impl RelayConnector {
    /// The relay addresses this connector was configured with.
    pub closed spec fn spec_relays(self) -> Seq<Seq<char>> {
        Seq::new(self.relays@.len(), |i: int| self.relays@[i]@)
    }

    /// The position of the next attempt.
    pub closed spec fn spec_next(self) -> int {
        self.next as int
    }

    pub fn new(relays: Vec<String>) -> (r: Self)
        ensures
            r.spec_relays() == Seq::new(relays@.len(), |i: int| relays@[i]@),
            r.spec_next() == 0,
    {
        RelayConnector { relays, next: 0 }
    }

    /// Hands out the next relay address to attempt, or `None` when all were
    /// attempted. The previous attempt's failure is acknowledged and
    /// otherwise ignored: it neither stops nor reorders the walk.
    pub fn next_relay(&mut self, prev_failed: bool) -> (r: Option<String>)
        ensures
            final(self).spec_relays() == old(self).spec_relays(),
            old(self).spec_next() < old(self).spec_relays().len() ==> {
                &&& final(self).spec_next() == old(self).spec_next() + 1
                &&& r matches Some(a) && a@ == old(self).spec_relays()[old(self).spec_next()]
            },
            old(self).spec_next() >= old(self).spec_relays().len() ==> {
                &&& final(self).spec_next() == old(self).spec_next()
                &&& r is None
            },
    {
        let _ = prev_failed;
        if self.next < self.relays.len() {
            let addr = String::from_str(self.relays[self.next].as_str());
            self.next = self.next + 1;
            Some(addr)
        } else {
            None
        }
    }
}

/// Law: one relay's dial failure does not prevent attempts on the
/// remaining relays — under any two outcome histories of equal length the
/// connector attempts the same addresses in the same order, and given at
/// least one step per relay it attempts every configured relay.
pub proof fn lemma_relay_failure_isolated(
    relays: Seq<Seq<char>>,
    outcomes_a: Seq<bool>,
    outcomes_b: Seq<bool>,
)
    requires
        outcomes_a.len() == outcomes_b.len(),
    ensures
        spec_attempts(relays, 0, outcomes_a) == spec_attempts(relays, 0, outcomes_b),
        outcomes_a.len() >= relays.len() ==> spec_attempts(relays, 0, outcomes_a) == relays,
{
    lemma_attempts_outcome_blind(relays, 0, outcomes_a, outcomes_b);
    if outcomes_a.len() >= relays.len() {
        lemma_attempts_complete(relays, 0, outcomes_a);
        assert(spec_remaining(relays, 0) =~= relays);
    }
}

/// The attempted addresses depend only on how many steps were driven,
/// never on the outcomes recorded along the way.
pub proof fn lemma_attempts_outcome_blind(
    relays: Seq<Seq<char>>,
    next: int,
    outcomes_a: Seq<bool>,
    outcomes_b: Seq<bool>,
)
    requires
        outcomes_a.len() == outcomes_b.len(),
    ensures
        spec_attempts(relays, next, outcomes_a) == spec_attempts(relays, next, outcomes_b),
    decreases outcomes_a.len(),
{
    if outcomes_a.len() > 0 && 0 <= next < relays.len() {
        lemma_attempts_outcome_blind(
            relays,
            next + 1,
            outcomes_a.drop_first(),
            outcomes_b.drop_first(),
        );
    }
}

/// Driven for at least as many steps as relays remain, the connector
/// attempts exactly the remaining relays, in order.
pub proof fn lemma_attempts_complete(relays: Seq<Seq<char>>, next: int, outcomes: Seq<bool>)
    requires
        0 <= next <= relays.len(),
        outcomes.len() + next >= relays.len(),
    ensures
        spec_attempts(relays, next, outcomes) == spec_remaining(relays, next),
    decreases outcomes.len(),
{
    if outcomes.len() == 0 || next >= relays.len() {
        assert(spec_remaining(relays, next) =~= Seq::empty());
    } else {
        lemma_attempts_complete(relays, next + 1, outcomes.drop_first());
        assert(spec_attempts(relays, next, outcomes) =~= spec_remaining(relays, next));
    }
}

} // verus!
