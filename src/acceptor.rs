//! The decisions of the connection acceptor.
//!
//! The acceptor binds a listener, then waits for either an interrupt or a new
//! connection. Each connection is handed to a handler of its own, and the
//! acceptor goes back to waiting; an interrupt ends the loop. The caller
//! performs the I/O and reports what happened as an event; `step` says what to
//! do next.

use vstd::prelude::*;

verus! {

#[derive(PartialEq, Eq, Structural, Clone, Copy, Debug)]
pub enum AcceptorState {
    /// The listener is not bound yet.
    Binding,
    /// Waiting for an interrupt or a connection.
    Listening,
    /// Shut down after an interrupt.
    Stopped,
    /// The listener could not be bound.
    Failed,
}

#[derive(PartialEq, Eq, Structural, Clone, Copy, Debug)]
pub enum AcceptorEvent {
    Bound,
    BindFailed,
    Interrupted,
    Accepted,
    AcceptFailed,
}

#[derive(PartialEq, Eq, Structural, Clone, Copy, Debug)]
pub enum AcceptorAction {
    /// Report the bound address and start waiting.
    Announce,
    /// Serve the accepted connection on a handler of its own, then wait again.
    Dispatch,
    /// Nothing to do for this event; wait again.
    Skip,
    /// Leave the loop and end the process, successfully or not.
    Exit { success: bool },
}

/// The acceptor's transition table.
pub open spec fn step_of(state: AcceptorState, event: AcceptorEvent) -> (
    AcceptorState,
    AcceptorAction,
) {
    match (state, event) {
        (AcceptorState::Binding, AcceptorEvent::Bound) => (
            AcceptorState::Listening,
            AcceptorAction::Announce,
        ),
        (AcceptorState::Binding, AcceptorEvent::BindFailed) => (
            AcceptorState::Failed,
            AcceptorAction::Exit { success: false },
        ),
        (AcceptorState::Listening, AcceptorEvent::Interrupted) => (
            AcceptorState::Stopped,
            AcceptorAction::Exit { success: true },
        ),
        (AcceptorState::Listening, AcceptorEvent::Accepted) => (
            AcceptorState::Listening,
            AcceptorAction::Dispatch,
        ),
        _ => (state, AcceptorAction::Skip),
    }
}

/// The next state and the action to take on `event`.
pub fn step(state: AcceptorState, event: AcceptorEvent) -> (r: (AcceptorState, AcceptorAction))
    ensures
        r == step_of(state, event),
{
    match (state, event) {
        (AcceptorState::Binding, AcceptorEvent::Bound) => (
            AcceptorState::Listening,
            AcceptorAction::Announce,
        ),
        (AcceptorState::Binding, AcceptorEvent::BindFailed) => (
            AcceptorState::Failed,
            AcceptorAction::Exit { success: false },
        ),
        (AcceptorState::Listening, AcceptorEvent::Interrupted) => (
            AcceptorState::Stopped,
            AcceptorAction::Exit { success: true },
        ),
        (AcceptorState::Listening, AcceptorEvent::Accepted) => (
            AcceptorState::Listening,
            AcceptorAction::Dispatch,
        ),
        _ => (state, AcceptorAction::Skip),
    }
}

/// A failed accept is not fatal: the acceptor keeps listening and does
/// nothing else.
pub proof fn lemma_accept_failure_is_contained()
    ensures
        step_of(AcceptorState::Listening, AcceptorEvent::AcceptFailed) == (
            AcceptorState::Listening,
            AcceptorAction::Skip,
        ),
{
}

/// An interrupt while listening ends the loop, and the process exits with
/// success; after that no event dispatches another connection.
pub proof fn lemma_interrupt_exits_successfully(event: AcceptorEvent)
    ensures
        step_of(AcceptorState::Listening, AcceptorEvent::Interrupted) == (
            AcceptorState::Stopped,
            AcceptorAction::Exit { success: true },
        ),
        step_of(AcceptorState::Stopped, event) == (AcceptorState::Stopped, AcceptorAction::Skip),
{
}

/// A listener that cannot be bound ends the process with failure at once,
/// and nothing is ever announced or dispatched afterwards.
pub proof fn lemma_bind_failure_exits_with_failure(event: AcceptorEvent)
    ensures
        step_of(AcceptorState::Binding, AcceptorEvent::BindFailed) == (
            AcceptorState::Failed,
            AcceptorAction::Exit { success: false },
        ),
        step_of(AcceptorState::Failed, event) == (AcceptorState::Failed, AcceptorAction::Skip),
{
}

} // verus!
