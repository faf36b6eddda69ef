//! The bootstrap policy and the periodic maintenance loop.
//!
//! At startup the policy decides whether bootstrap runs at all and whether
//! the well-known default set or the explicit peers are registered. With a
//! non-empty bootstrap peer set a detached maintainer then alternates, for
//! the process lifetime, a bootstrap run and a fixed-interval sleep — it
//! reschedules after a failed run rather than stopping silently.

use vstd::prelude::*;

verus! {

/// Seconds between two bootstrap runs.
pub const BOOTSTRAP_INTERVAL_SECS: u64 = 300;

/// Seconds the startup settles after initial bootstrap registration,
/// before the identity and listen-address summary is read.
pub const SETTLE_DELAY_SECS: u64 = 1;

/// What the startup registers with the distributed hash table.
#[derive(Debug, PartialEq, Eq, Structural, Clone, Copy)]
pub enum BootstrapPlan {
    /// Bootstrapping is disabled by flag: never run.
    Disabled,
    /// Register the well-known default bootstrap set once.
    RegisterDefaults,
    /// Register the explicit bootstrap peers once.
    RegisterExplicit,
}

/// Decides the bootstrap registration: the disable flag wins; the default
/// set is registered where it is forced or no explicit peers were given;
/// otherwise the explicit peers are registered.
pub fn bootstrap_plan(disable: bool, force_default: bool, explicit_count: usize) -> (r:
    BootstrapPlan)
    ensures
        disable ==> r == BootstrapPlan::Disabled,
        !disable && (force_default || explicit_count == 0) ==> r == BootstrapPlan::RegisterDefaults,
        !disable && !force_default && explicit_count > 0 ==> r == BootstrapPlan::RegisterExplicit,
{
    if disable {
        BootstrapPlan::Disabled
    } else if force_default || explicit_count == 0 {
        BootstrapPlan::RegisterDefaults
    } else {
        BootstrapPlan::RegisterExplicit
    }
}

/// What the maintenance loop does next.
#[derive(Debug, PartialEq, Eq, Structural, Clone, Copy)]
pub enum MaintainAction {
    /// Invoke the bootstrap operation and await its completion.
    RunBootstrap,
    /// Sleep for this many seconds.
    Sleep(u64),
}

/// The maintenance loop's state: whether a bootstrap run is due, or the
/// interval sleep that paces it.
pub struct BootstrapMaintainer {
    due: bool,
}

/// The action the maintainer takes when a run is due (or not).
pub open spec fn spec_maintain_action(due: bool) -> MaintainAction {
    if due {
        MaintainAction::RunBootstrap
    } else {
        MaintainAction::Sleep(BOOTSTRAP_INTERVAL_SECS)
    }
}

/// Whether a run is due at step `i` of a loop that starts with one due.
pub open spec fn spec_due_at(i: nat) -> bool {
    i % 2 == 0
}

impl BootstrapMaintainer {
    /// Whether the next action is a bootstrap run.
    pub closed spec fn spec_due(self) -> bool {
        self.due
    }

    /// A maintainer whose first action is a bootstrap run.
    pub fn new() -> (r: Self)
        ensures
            r.spec_due(),
    {
        BootstrapMaintainer { due: true }
    }

    /// Hands out the next action: a due run, else the fixed-interval sleep.
    /// The previous run's failure is acknowledged and otherwise ignored:
    /// the loop reschedules at the fixed interval regardless of the prior
    /// outcome, for the process lifetime.
    pub fn next_action(&mut self, prev_failed: bool) -> (a: MaintainAction)
        ensures
            a == spec_maintain_action(old(self).spec_due()),
            final(self).spec_due() == !old(self).spec_due(),
    {
        let _ = prev_failed;
        if self.due {
            self.due = false;
            MaintainAction::RunBootstrap
        } else {
            self.due = true;
            MaintainAction::Sleep(BOOTSTRAP_INTERVAL_SECS)
        }
    }
}

/// Law: two consecutive bootstrap runs are separated by no less than the
/// configured interval — in the loop's action sequence, the step after
/// every bootstrap run is a sleep of exactly that interval, so the next
/// run starts no earlier.
pub proof fn lemma_bootstrap_interval(i: nat)
    requires
        spec_maintain_action(spec_due_at(i)) == MaintainAction::RunBootstrap,
    ensures
        spec_maintain_action(spec_due_at(i + 1)) == MaintainAction::Sleep(BOOTSTRAP_INTERVAL_SECS),
{
    assert(spec_due_at(i));
    assert((i + 1) % 2 == 1) by {
        assert(i % 2 == 0);
    };
}

} // verus!
