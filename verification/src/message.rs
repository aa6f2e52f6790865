//! Messages that enter and leave the relay.

use vstd::prelude::*;

verus! {

/// One update from the chat platform, reduced to what the relay reads.
///
/// It is consumed once and never stored.
#[derive(Debug, Clone, PartialEq, Eq)]
pub struct InboundMessage {
    /// The chat the message came from.
    pub chat: i64,
    /// The sender's username, where the sender has one.
    pub username: Option<String>,
    /// The text body, where the message has one.
    pub text: Option<String>,
}

/// An [`InboundMessage`] as the contracts see it.
pub struct InboundMessageView {
    pub chat: i64,
    pub username: Option<Seq<char>>,
    pub text: Option<Seq<char>>,
}

impl View for InboundMessage {
    type V = InboundMessageView;

    open spec fn view(&self) -> InboundMessageView {
        InboundMessageView {
            chat: self.chat,
            username: self.username.deep_view(),
            text: self.text.deep_view(),
        }
    }
}

/// One message for the platform to deliver: the chat and the text.
#[derive(Debug, Clone, PartialEq, Eq)]
pub struct Outbound {
    pub chat: i64,
    pub text: String,
}

/// An [`Outbound`] as the contracts see it.
pub struct OutboundView {
    pub chat: i64,
    pub text: Seq<char>,
}

/// The message with `text` for `chat`.
pub open spec fn outbound(chat: i64, text: Seq<char>) -> OutboundView {
    OutboundView { chat, text }
}

impl View for Outbound {
    type V = OutboundView;

    open spec fn view(&self) -> OutboundView {
        OutboundView { chat: self.chat, text: self.text@ }
    }
}

impl DeepView for Outbound {
    type V = OutboundView;

    open spec fn deep_view(&self) -> OutboundView {
        self@
    }
}

impl Outbound {
    /// A message with a copy of `text` for `chat`.
    pub fn to(chat: i64, text: &str) -> (message: Outbound)
        ensures
            message@ == outbound(chat, text@),
    {
        Outbound { chat, text: text.to_owned() }
    }

    /// A second message with the same chat and text.
    pub fn duplicate(&self) -> (message: Outbound)
        ensures
            message@ == self@,
    {
        Outbound { chat: self.chat, text: self.text.clone() }
    }
}

} // verus!
