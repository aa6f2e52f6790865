//! The update loop: polling the platform's stream of updates until it ends.
//!
//! Updates are handled strictly one after the other. The loop has two states.
//! It stays polling through every update and through every command, however
//! the command ended, and it terminates when the stream ends or fails; from
//! there it does not come back.

use crate::dispatch::Outcome;
use crate::message::{InboundMessage, InboundMessageView};
use vstd::prelude::*;

verus! {

/// Why the stream of updates is over.
#[derive(Debug, Clone, Copy, PartialEq, Eq, Structural)]
pub enum Termination {
    /// The stream yielded its last update.
    Ended,
    /// The stream yielded an error.
    Failed,
}

/// The state of the loop.
#[derive(Debug, Clone, Copy, PartialEq, Eq, Structural)]
pub enum LoopState {
    Polling,
    Terminated(Termination),
}

/// What the loop's driver reports.
#[derive(Debug, Clone, PartialEq, Eq)]
pub enum LoopEvent {
    /// The loop is about to start.
    Started,
    /// The stream yielded a message.
    Update { message: InboundMessage },
    /// The stream yielded an update of another kind.
    Skipped,
    /// The last message's command was handled.
    Handled { outcome: Outcome },
    /// The stream is exhausted.
    StreamEnded,
    /// The stream yielded an error.
    StreamFailed,
}

/// A [`LoopEvent`] as the contracts see it.
pub enum LoopEventView {
    Started,
    Update { message: InboundMessageView },
    Skipped,
    Handled { outcome: Outcome },
    StreamEnded,
    StreamFailed,
}

impl View for LoopEvent {
    type V = LoopEventView;

    open spec fn view(&self) -> LoopEventView {
        match self {
            LoopEvent::Started => LoopEventView::Started,
            LoopEvent::Update { message } => LoopEventView::Update { message: message@ },
            LoopEvent::Skipped => LoopEventView::Skipped,
            LoopEvent::Handled { outcome } => LoopEventView::Handled { outcome: *outcome },
            LoopEvent::StreamEnded => LoopEventView::StreamEnded,
            LoopEvent::StreamFailed => LoopEventView::StreamFailed,
        }
    }
}

/// What the loop's driver is to do next.
#[derive(Debug, Clone, PartialEq, Eq)]
pub enum LoopAction {
    /// Take the next update from the stream.
    Poll,
    /// Classify this message and handle its command.
    Dispatch { message: InboundMessage },
    /// Leave the loop: the stream is over.
    Stop { cause: Termination },
}

/// A [`LoopAction`] as the contracts see it.
pub enum LoopActionView {
    Poll,
    Dispatch { message: InboundMessageView },
    Stop { cause: Termination },
}

impl View for LoopAction {
    type V = LoopActionView;

    open spec fn view(&self) -> LoopActionView {
        match self {
            LoopAction::Poll => LoopActionView::Poll,
            LoopAction::Dispatch { message } => LoopActionView::Dispatch { message: message@ },
            LoopAction::Stop { cause } => LoopActionView::Stop { cause: *cause },
        }
    }
}

/// One step of the loop: the state after `event` and the action named.
pub open spec fn advanced(state: LoopState, event: LoopEventView) -> (LoopState, LoopActionView) {
    match state {
        LoopState::Terminated(cause) => (state, LoopActionView::Stop { cause }),
        LoopState::Polling => match event {
            LoopEventView::Update { message } => (
                LoopState::Polling,
                LoopActionView::Dispatch { message },
            ),
            LoopEventView::StreamEnded => (
                LoopState::Terminated(Termination::Ended),
                LoopActionView::Stop { cause: Termination::Ended },
            ),
            LoopEventView::StreamFailed => (
                LoopState::Terminated(Termination::Failed),
                LoopActionView::Stop { cause: Termination::Failed },
            ),
            _ => (LoopState::Polling, LoopActionView::Poll),
        },
    }
}

/// The loop leaves polling exactly when the stream ends or fails, it stays
/// terminated, and a command that was aborted does not stop it.
pub proof fn loop_stops_only_with_the_stream(event: LoopEventView, cause: Termination)
    ensures
        advanced(LoopState::Polling, event).0 != LoopState::Polling <==> (event
            is StreamEnded || event is StreamFailed),
        advanced(LoopState::Terminated(cause), event) == (
            LoopState::Terminated(cause),
            (LoopActionView::Stop { cause }),
        ),
        event is Handled ==> advanced(LoopState::Polling, event) == (
            LoopState::Polling,
            LoopActionView::Poll,
        ),
{
}

/// Takes what the driver reports and names the next action.
pub fn advance(state: LoopState, event: LoopEvent) -> (next: (LoopState, LoopAction))
    ensures
        (next.0, next.1@) == advanced(state, event@),
{
    match state {
        LoopState::Terminated(cause) => (state, LoopAction::Stop { cause }),
        LoopState::Polling => match event {
            LoopEvent::Update { message } => (LoopState::Polling, LoopAction::Dispatch { message }),
            LoopEvent::StreamEnded => (
                LoopState::Terminated(Termination::Ended),
                LoopAction::Stop { cause: Termination::Ended },
            ),
            LoopEvent::StreamFailed => (
                LoopState::Terminated(Termination::Failed),
                LoopAction::Stop { cause: Termination::Failed },
            ),
            _ => (LoopState::Polling, LoopAction::Poll),
        },
    }
}

} // verus!
