//! The lifecycle controller's one decision: what the main path blocks on
//! before graceful shutdown.

use vstd::prelude::*;

verus! {

/// What ends the session.
#[derive(Debug, PartialEq, Eq, Structural, Clone, Copy)]
pub enum TerminationTrigger {
    /// A supplied command ran to completion.
    CommandCompletion,
    /// No command was supplied: the process blocks until an interrupt
    /// signal arrives.
    InterruptSignal,
}

/// Decides the termination trigger: with a command the session ends when
/// the dispatch returns, without one it waits for an interrupt. Shutdown
/// is requested from the node service either way.
pub fn termination_trigger(has_command: bool) -> (r: TerminationTrigger)
    ensures
        has_command <==> r == TerminationTrigger::CommandCompletion,
        !has_command <==> r == TerminationTrigger::InterruptSignal,
{
    if has_command {
        TerminationTrigger::CommandCompletion
    } else {
        TerminationTrigger::InterruptSignal
    }
}

} // verus!
