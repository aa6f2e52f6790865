//! The dispatcher: what the relay does for one command, step by step.
//!
//! Storing a subscriber, reading the subscribers, fetching the feed and
//! delivering a message are done by whoever drives the dispatcher. The
//! dispatcher decides: [`Dispatcher::step`] takes what the last action brought
//! and names the next action, until it names [`Action::Finish`]. It keeps
//! nothing from one command to the next.

use crate::command::{classified, classify, Command, CommandView};
use crate::decimal::{render_i64, rendered};
use crate::fanout::{broadcast, fan_out};
use crate::feed::{preview, preview_of, ExternalPost, ExternalPostView};
use crate::message::{outbound, InboundMessage, Outbound, OutboundView};
use vstd::prelude::*;

verus! {

/// The reply to a chat that subscribed.
pub const CONFIRMATION: &'static str = "Thank you for subscribing!";

/// The reply to the operator before an announcement goes out.
pub const ACKNOWLEDGMENT: &'static str = "Sending to all!";

/// Which collaborator let a command down.
#[derive(Debug, Clone, Copy, PartialEq, Eq, Structural)]
pub enum Failure {
    /// The subscriber table could not be written or read.
    Store,
    /// The content feed could not be fetched.
    Feed,
    /// A reply that the command waits for could not be delivered.
    Send,
}

/// How the handling of a command ended. Neither outcome stops the relay: it
/// goes on with the next update.
#[derive(Debug, Clone, Copy, PartialEq, Eq, Structural)]
pub enum Outcome {
    /// Every step was taken.
    Completed,
    /// A step failed, and the steps after it were not taken.
    Aborted(Failure),
}

/// What the driver is to do next.
#[derive(Debug, Clone, PartialEq, Eq)]
pub enum Action {
    /// Add this identity to the subscriber table unless it is there.
    AddSubscriber { chat_id: String },
    /// Read every identity of the subscriber table.
    ListSubscribers,
    /// Fetch the posts of the content feed.
    FetchFeed,
    /// Deliver the message and report how it went.
    Send { message: Outbound },
    /// Hand the message over for delivery without waiting for it. How the
    /// delivery goes is of no consequence to the dispatcher.
    Spawn { message: Outbound },
    /// Nothing more: the command is handled.
    Finish { outcome: Outcome },
}

/// An [`Action`] as the contracts see it.
pub enum ActionView {
    AddSubscriber { chat_id: Seq<char> },
    ListSubscribers,
    FetchFeed,
    Send { message: OutboundView },
    Spawn { message: OutboundView },
    Finish { outcome: Outcome },
}

impl View for Action {
    type V = ActionView;

    open spec fn view(&self) -> ActionView {
        match self {
            Action::AddSubscriber { chat_id } => ActionView::AddSubscriber { chat_id: chat_id@ },
            Action::ListSubscribers => ActionView::ListSubscribers,
            Action::FetchFeed => ActionView::FetchFeed,
            Action::Send { message } => ActionView::Send { message: message@ },
            Action::Spawn { message } => ActionView::Spawn { message: message@ },
            Action::Finish { outcome } => ActionView::Finish { outcome: *outcome },
        }
    }
}

/// What the last action brought.
#[derive(Debug, Clone, PartialEq, Eq)]
pub enum Event {
    /// Nothing yet: the command is about to be handled.
    Begin,
    /// The action succeeded and brought no data.
    Done,
    /// The identities read from the subscriber table.
    Subscribers { rows: Vec<String> },
    /// The posts fetched from the content feed, in feed order.
    Feed { posts: Vec<ExternalPost> },
    /// The action failed.
    Failed,
}

/// An [`Event`] as the contracts see it.
pub enum EventView {
    Begin,
    Done,
    Subscribers { rows: Seq<Seq<char>> },
    Feed { posts: Seq<ExternalPostView> },
    Failed,
}

impl View for Event {
    type V = EventView;

    open spec fn view(&self) -> EventView {
        match self {
            Event::Begin => EventView::Begin,
            Event::Done => EventView::Done,
            Event::Subscribers { rows } => EventView::Subscribers { rows: rows.deep_view() },
            Event::Feed { posts } => EventView::Feed { posts: posts.deep_view() },
            Event::Failed => EventView::Failed,
        }
    }
}

/// Where the handling of a command stands.
#[derive(Debug, Clone, Copy, PartialEq, Eq, Structural)]
pub enum Phase {
    /// No action was named yet.
    Start,
    /// The subscriber is being stored.
    Storing,
    /// The operator is being told that the announcement starts.
    Acknowledging,
    /// The subscribers are being read.
    Listing,
    /// The feed is being fetched.
    Fetching,
    /// Queued replies are delivered one after the other, each awaited.
    Replying,
    /// Queued deliveries are handed over one after the other, none awaited.
    FanningOut,
    /// The command is handled.
    Finished(Outcome),
}

/// A [`Dispatcher`] as the contracts see it.
pub struct DispatcherView {
    /// The command being handled.
    pub command: CommandView,
    /// The chat the command came from.
    pub origin: i64,
    pub phase: Phase,
    /// The messages planned for the current phase.
    pub queue: Seq<OutboundView>,
    /// How many of them were named in an action.
    pub cursor: int,
}

/// The dispatcher before its first step.
pub open spec fn started(command: CommandView, origin: i64) -> DispatcherView {
    DispatcherView { command, origin, phase: Phase::Start, queue: Seq::empty(), cursor: 0 }
}

/// The end of a command's handling.
pub open spec fn finished(d: DispatcherView, outcome: Outcome) -> (DispatcherView, ActionView) {
    (DispatcherView { phase: Phase::Finished(outcome), ..d }, ActionView::Finish { outcome })
}

/// The next queued message, as an awaited reply or as a detached delivery, or
/// the end of the handling once the queue is used up.
pub open spec fn next_in_queue(d: DispatcherView) -> (DispatcherView, ActionView) {
    if 0 <= d.cursor < d.queue.len() {
        let message = d.queue[d.cursor];
        (
            DispatcherView { cursor: d.cursor + 1, ..d },
            if d.phase == Phase::FanningOut {
                ActionView::Spawn { message }
            } else {
                ActionView::Send { message }
            },
        )
    } else {
        finished(d, Outcome::Completed)
    }
}

/// Entering `phase` with `queue`, and its first message.
pub open spec fn queued(d: DispatcherView, phase: Phase, queue: Seq<OutboundView>) -> (
    DispatcherView,
    ActionView,
) {
    next_in_queue(DispatcherView { phase, queue, cursor: 0, ..d })
}

/// The deliveries of an announcement to the subscribers in `rows`: the
/// operator's text for each, or none where the operator's message had no text.
pub open spec fn announcement(command: CommandView, rows: Seq<Seq<char>>) -> Seq<OutboundView> {
    match command {
        CommandView::BroadcastAnnounce { payload: Some(text) } => fan_out(rows, text),
        _ => Seq::empty(),
    }
}

/// One step of the dispatcher: the state after `event` and the action named.
///
/// * A subscription stores the origin chat's identity and, once that is done,
///   replies with the confirmation.
/// * An announcement first tells the operator that it starts, then reads the
///   subscribers, then hands over one delivery for each. These deliveries are
///   not awaited: whatever is reported of one, the next one follows.
/// * A request for the latest posts fetches the feed and then replies to the
///   origin chat, and to no other, with the intro and one line for each post.
/// * An ignored message ends at once.
///
/// While an awaited action is pending, any event other than the one that
/// reports its success counts as its failure and ends the handling.
pub open spec fn stepped(d: DispatcherView, event: EventView) -> (DispatcherView, ActionView) {
    match d.phase {
        Phase::Start => match d.command {
            CommandView::Subscribe => (
                DispatcherView { phase: Phase::Storing, ..d },
                ActionView::AddSubscriber { chat_id: rendered(d.origin as int) },
            ),
            CommandView::BroadcastAnnounce { .. } => (
                DispatcherView { phase: Phase::Acknowledging, ..d },
                ActionView::Send { message: outbound(d.origin, ACKNOWLEDGMENT@) },
            ),
            CommandView::FetchAndBroadcast => (
                DispatcherView { phase: Phase::Fetching, ..d },
                ActionView::FetchFeed,
            ),
            CommandView::Ignore => finished(d, Outcome::Completed),
        },
        Phase::Storing => match event {
            EventView::Done => queued(d, Phase::Replying, seq![outbound(d.origin, CONFIRMATION@)]),
            _ => finished(d, Outcome::Aborted(Failure::Store)),
        },
        Phase::Acknowledging => match event {
            EventView::Done => (
                DispatcherView { phase: Phase::Listing, ..d },
                ActionView::ListSubscribers,
            ),
            _ => finished(d, Outcome::Aborted(Failure::Send)),
        },
        Phase::Listing => match event {
            EventView::Subscribers { rows } => queued(
                d,
                Phase::FanningOut,
                announcement(d.command, rows),
            ),
            _ => finished(d, Outcome::Aborted(Failure::Store)),
        },
        Phase::Fetching => match event {
            EventView::Feed { posts } => queued(d, Phase::Replying, preview_of(d.origin, posts)),
            _ => finished(d, Outcome::Aborted(Failure::Feed)),
        },
        Phase::Replying => match event {
            EventView::Done => next_in_queue(d),
            _ => finished(d, Outcome::Aborted(Failure::Send)),
        },
        Phase::FanningOut => next_in_queue(d),
        Phase::Finished(outcome) => (d, ActionView::Finish { outcome }),
    }
}

/// How many phases lie ahead of `phase` at most.
pub open spec fn phases_ahead(phase: Phase) -> nat {
    match phase {
        Phase::Start => 4,
        Phase::Storing | Phase::Acknowledging | Phase::Fetching => 3,
        Phase::Listing => 2,
        Phase::Replying | Phase::FanningOut => 1,
        Phase::Finished(_) => 0,
    }
}

/// How many queued messages are still to be named.
pub open spec fn queued_ahead(d: DispatcherView) -> nat {
    if 0 <= d.cursor < d.queue.len() {
        (d.queue.len() - d.cursor) as nat
    } else {
        0
    }
}

/// The handling of one command.
pub struct Dispatcher {
    command: Command,
    origin: i64,
    phase: Phase,
    queue: Vec<Outbound>,
    cursor: usize,
}

impl View for Dispatcher {
    type V = DispatcherView;

    closed spec fn view(&self) -> DispatcherView {
        DispatcherView {
            command: self.command@,
            origin: self.origin,
            phase: self.phase,
            queue: self.queue.deep_view(),
            cursor: self.cursor as int,
        }
    }
}

impl Dispatcher {
    /// A dispatcher for `command`, which came from the chat `origin`.
    pub fn new(command: Command, origin: i64) -> (dispatcher: Dispatcher)
        ensures
            dispatcher@ == started(command@, origin),
    {
        let dispatcher = Dispatcher {
            command,
            origin,
            phase: Phase::Start,
            queue: Vec::new(),
            cursor: 0,
        };
        assert(dispatcher.queue.deep_view() =~= Seq::<OutboundView>::empty());
        dispatcher
    }

    /// A dispatcher for the command that `message` stands for, given the
    /// operator's username.
    pub fn for_message(message: &InboundMessage, admin: &str) -> (dispatcher: Dispatcher)
        ensures
            dispatcher@ == started(classified(message@, admin@), message.chat),
    {
        Dispatcher::new(classify(message, admin), message.chat)
    }

    /// How the handling ended, once it has.
    pub fn outcome(&self) -> (outcome: Option<Outcome>)
        ensures
            outcome == match self@.phase {
                Phase::Finished(reached) => Some(reached),
                _ => None,
            },
    {
        match self.phase {
            Phase::Finished(reached) => Some(reached),
            _ => None,
        }
    }

    fn finish(&mut self, outcome: Outcome) -> (action: Action)
        ensures
            (final(self)@, action@) == finished(old(self)@, outcome),
    {
        self.phase = Phase::Finished(outcome);
        Action::Finish { outcome }
    }

    fn next_in_queue(&mut self) -> (action: Action)
        ensures
            (final(self)@, action@) == next_in_queue(old(self)@),
    {
        if self.cursor < self.queue.len() {
            let message = self.queue[self.cursor].duplicate();
            self.cursor = self.cursor + 1;
            match self.phase {
                Phase::FanningOut => Action::Spawn { message },
                _ => Action::Send { message },
            }
        } else {
            self.finish(Outcome::Completed)
        }
    }

    fn enter(&mut self, phase: Phase, queue: Vec<Outbound>) -> (action: Action)
        ensures
            (final(self)@, action@) == queued(old(self)@, phase, queue.deep_view()),
    {
        self.phase = phase;
        self.queue = queue;
        self.cursor = 0;
        self.next_in_queue()
    }

    /// Takes what the last action brought and names the next action.
    ///
    /// The first call takes [`Event::Begin`]. After [`Action::Finish`] every
    /// further call names it again.
    pub fn step(&mut self, event: Event) -> (action: Action)
        ensures
            (final(self)@, action@) == stepped(old(self)@, event@),
    {
        match self.phase {
            Phase::Start => match &self.command {
                Command::Subscribe => {
                    self.phase = Phase::Storing;
                    Action::AddSubscriber { chat_id: render_i64(self.origin) }
                },
                Command::BroadcastAnnounce { .. } => {
                    self.phase = Phase::Acknowledging;
                    Action::Send { message: Outbound::to(self.origin, ACKNOWLEDGMENT) }
                },
                Command::FetchAndBroadcast => {
                    self.phase = Phase::Fetching;
                    Action::FetchFeed
                },
                Command::Ignore => self.finish(Outcome::Completed),
            },
            Phase::Storing => match event {
                Event::Done => {
                    let mut queue: Vec<Outbound> = Vec::new();
                    queue.push(Outbound::to(self.origin, CONFIRMATION));
                    assert(queue.deep_view() =~= seq![outbound(self.origin, CONFIRMATION@)]);
                    self.enter(Phase::Replying, queue)
                },
                _ => self.finish(Outcome::Aborted(Failure::Store)),
            },
            Phase::Acknowledging => match event {
                Event::Done => {
                    self.phase = Phase::Listing;
                    Action::ListSubscribers
                },
                _ => self.finish(Outcome::Aborted(Failure::Send)),
            },
            Phase::Listing => match event {
                Event::Subscribers { rows } => {
                    let queue = match &self.command {
                        Command::BroadcastAnnounce { payload: Some(text) } => broadcast(
                            &rows,
                            text.as_str(),
                        ),
                        _ => Vec::new(),
                    };
                    assert(queue.deep_view() =~= announcement(self.command@, rows.deep_view()));
                    self.enter(Phase::FanningOut, queue)
                },
                _ => self.finish(Outcome::Aborted(Failure::Store)),
            },
            Phase::Fetching => match event {
                Event::Feed { posts } => {
                    let queue = preview(self.origin, &posts);
                    self.enter(Phase::Replying, queue)
                },
                _ => self.finish(Outcome::Aborted(Failure::Feed)),
            },
            Phase::Replying => match event {
                Event::Done => self.next_in_queue(),
                _ => self.finish(Outcome::Aborted(Failure::Send)),
            },
            Phase::FanningOut => self.next_in_queue(),
            Phase::Finished(outcome) => Action::Finish { outcome },
        }
    }
}

} // verus!
