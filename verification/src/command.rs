//! Classifying an inbound message into the command it stands for.

use crate::message::{InboundMessage, InboundMessageView};
use crate::text::same_text;
use vstd::prelude::*;

verus! {

/// The text that subscribes the sending chat.
pub const START: &'static str = "/start";

/// The text that asks for the latest posts of the content feed.
pub const LATEST: &'static str = "/latest";

/// What an inbound message asks the relay to do.
#[derive(Debug, Clone, PartialEq, Eq)]
pub enum Command {
    /// Add the sending chat to the subscribers.
    Subscribe,
    /// The operator's message: send its text, where it has one, to every
    /// subscriber.
    BroadcastAnnounce { payload: Option<String> },
    /// Fetch the content feed and show it to the sending chat.
    FetchAndBroadcast,
    /// Nothing to do.
    Ignore,
}

/// A [`Command`] as the contracts see it.
pub enum CommandView {
    Subscribe,
    BroadcastAnnounce { payload: Option<Seq<char>> },
    FetchAndBroadcast,
    Ignore,
}

impl View for Command {
    type V = CommandView;

    open spec fn view(&self) -> CommandView {
        match self {
            Command::Subscribe => CommandView::Subscribe,
            Command::BroadcastAnnounce { payload } => CommandView::BroadcastAnnounce {
                payload: payload.deep_view(),
            },
            Command::FetchAndBroadcast => CommandView::FetchAndBroadcast,
            Command::Ignore => CommandView::Ignore,
        }
    }
}

/// The sender is the operator: a username is present and equals `admin`.
pub open spec fn from_admin(message: InboundMessageView, admin: Seq<char>) -> bool {
    message.username == Some(admin)
}

/// The command of a message. The rules apply in this order: the text `/start`
/// subscribes, the text `/latest` asks for the feed, any other message of the
/// operator is an announcement that carries the message's text, and everything
/// else is ignored.
pub open spec fn classified(message: InboundMessageView, admin: Seq<char>) -> CommandView {
    if message.text == Some(START@) {
        CommandView::Subscribe
    } else if message.text == Some(LATEST@) {
        CommandView::FetchAndBroadcast
    } else if from_admin(message, admin) {
        CommandView::BroadcastAnnounce { payload: message.text }
    } else {
        CommandView::Ignore
    }
}

/// Whether `value` is present and holds exactly `expected`.
fn holds(value: &Option<String>, expected: &str) -> (yes: bool)
    ensures
        yes == (value.deep_view() == Some(expected@)),
{
    match value {
        Some(found) => same_text(found.as_str(), expected),
        None => false,
    }
}

/// Classifies one inbound message against the operator's username.
///
/// Every message has a command: a missing text or a missing username is no
/// error, it only rules out the commands that need one.
pub fn classify(message: &InboundMessage, admin: &str) -> (command: Command)
    ensures
        command@ == classified(message@, admin@),
{
    if holds(&message.text, START) {
        Command::Subscribe
    } else if holds(&message.text, LATEST) {
        Command::FetchAndBroadcast
    } else if holds(&message.username, admin) {
        Command::BroadcastAnnounce { payload: message.text.clone() }
    } else {
        Command::Ignore
    }
}

} // verus!
