//! The relay in one process: a message handled from its classification to
//! its last delivery, against a subscriber set held in memory.
//!
//! Here nothing outside can fail but the feed, so what a message does is a
//! function of the message, the subscribers and the feed: [`handled`].

use crate::command::{classified, CommandView};
use crate::decimal::{parse_inverts_render, rendered};
use crate::dispatch::{
    announcement, phases_ahead, queued_ahead, Action, Dispatcher, DispatcherView, Event,
    EventView, Failure, Outcome, Phase, ACKNOWLEDGMENT, CONFIRMATION,
};
use crate::feed::{preview_of, ExternalPost, ExternalPostView};
use crate::message::{outbound, InboundMessage, Outbound, OutboundView};
use crate::fanout::{delivery, fan_out, fan_out_serves_the_rows};
use crate::runs::announce;
use crate::store::{add_is_idempotent, added, SubscriberStore};
use vstd::prelude::*;

verus! {

/// What handling a message came to.
#[derive(Debug, Clone, PartialEq, Eq)]
pub struct Handled {
    /// How the handling ended.
    pub outcome: Outcome,
    /// The messages handed to the platform, in order.
    pub sent: Vec<Outbound>,
}

/// The effect of a command: the rows of the subscriber set afterwards, the
/// messages handed to the platform, and the outcome.
pub struct Effect {
    pub rows: Seq<Seq<char>>,
    pub sent: Seq<OutboundView>,
    pub outcome: Outcome,
}

/// The effect of `command` from the chat `origin`, on a subscriber set with
/// `rows`, where `feed` is what the content feed holds, if it can be had.
///
/// * A subscription adds the origin's identity unless it is there, and
///   confirms to the origin, the first time and every time after.
/// * An announcement acknowledges to the origin and then delivers the
///   operator's text to every subscriber that names a chat.
/// * A request for the latest posts shows the origin the preview of the feed,
///   or nothing at all where the feed cannot be had.
/// * An ignored message writes nothing and sends nothing.
pub open spec fn handled(
    command: CommandView,
    origin: i64,
    rows: Seq<Seq<char>>,
    feed: Option<Seq<ExternalPostView>>,
) -> Effect {
    match command {
        CommandView::Subscribe => Effect {
            rows: added(rows, rendered(origin as int)),
            sent: seq![outbound(origin, CONFIRMATION@)],
            outcome: Outcome::Completed,
        },
        CommandView::BroadcastAnnounce { .. } => Effect {
            rows,
            sent: seq![outbound(origin, ACKNOWLEDGMENT@)] + announcement(command, rows),
            outcome: Outcome::Completed,
        },
        CommandView::FetchAndBroadcast => match feed {
            Some(posts) => Effect {
                rows,
                sent: preview_of(origin, posts),
                outcome: Outcome::Completed,
            },
            None => Effect {
                rows,
                sent: Seq::empty(),
                outcome: Outcome::Aborted(Failure::Feed),
            },
        },
        CommandView::Ignore => Effect { rows, sent: Seq::empty(), outcome: Outcome::Completed },
    }
}

/// Subscribing again changes nothing and is confirmed all the same: a second
/// `/start` from a chat leaves the rows as the first one left them, completes,
/// and sends the confirmation once more.
pub proof fn repeated_subscription_changes_nothing(rows: Seq<Seq<char>>, chat: i64)
    ensures
        handled(
            CommandView::Subscribe,
            chat,
            handled(CommandView::Subscribe, chat, rows, None).rows,
            None,
        ) == handled(CommandView::Subscribe, chat, rows, None),
{
    add_is_idempotent(rows, rendered(chat as int));
}

/// Who subscribed is reached: after a chat's subscription, whatever the
/// subscriber set held before, an announcement delivers its payload to
/// that chat.
pub proof fn subscriber_receives_announcements(
    rows: Seq<Seq<char>>,
    chat: i64,
    operator: i64,
    payload: Seq<char>,
)
    ensures
        handled(
            announce(payload),
            operator,
            handled(CommandView::Subscribe, chat, rows, None).rows,
            None,
        ).sent.contains(outbound(chat, payload)),
{
    let joined = handled(CommandView::Subscribe, chat, rows, None).rows;
    let plan = fan_out(joined, payload);
    let sent = handled(announce(payload), operator, joined, None).sent;
    add_is_idempotent(rows, rendered(chat as int));
    parse_inverts_render(chat);
    fan_out_serves_the_rows(joined, payload);
    let row = choose|row: int| 0 <= row < joined.len() && joined[row] == rendered(chat as int);
    assert(delivery(joined[row], payload) == Some(outbound(chat, payload)));
    let at = choose|at: int| 0 <= at < plan.len() && plan[at] == outbound(chat, payload);
    assert(sent[at + 1] == outbound(chat, payload));
}

/// What holds between two steps of a handling that started on `rows` with
/// `feed`: the dispatcher `d` is about to take `event`, `sent` was handed to
/// the platform and the subscriber set holds `now`.
spec fn on_track(
    d: DispatcherView,
    event: EventView,
    sent: Seq<OutboundView>,
    now: Seq<Seq<char>>,
    rows: Seq<Seq<char>>,
    feed: Option<Seq<ExternalPostView>>,
) -> bool {
    let goal = handled(d.command, d.origin, rows, feed);
    match d.phase {
        Phase::Start => sent == Seq::<OutboundView>::empty() && now == rows,
        Phase::Storing => {
            &&& d.command == CommandView::Subscribe
            &&& event == EventView::Done
            &&& now == goal.rows
            &&& sent == Seq::<OutboundView>::empty()
        },
        Phase::Acknowledging => {
            &&& d.command is BroadcastAnnounce
            &&& event == EventView::Done
            &&& now == rows
            &&& sent == seq![outbound(d.origin, ACKNOWLEDGMENT@)]
        },
        Phase::Listing => {
            &&& d.command is BroadcastAnnounce
            &&& event == EventView::Subscribers { rows }
            &&& now == rows
            &&& sent == seq![outbound(d.origin, ACKNOWLEDGMENT@)]
        },
        Phase::Fetching => {
            &&& d.command == CommandView::FetchAndBroadcast
            &&& event == match feed {
                Some(posts) => EventView::Feed { posts },
                None => EventView::Failed,
            }
            &&& now == rows
            &&& sent == Seq::<OutboundView>::empty()
        },
        Phase::Replying => {
            &&& d.command == CommandView::Subscribe || d.command == CommandView::FetchAndBroadcast
            &&& event == EventView::Done
            &&& goal.outcome == Outcome::Completed
            &&& now == goal.rows
            &&& d.queue == goal.sent
            &&& 0 <= d.cursor <= d.queue.len()
            &&& sent == d.queue.take(d.cursor)
        },
        Phase::FanningOut => {
            &&& d.command is BroadcastAnnounce
            &&& now == rows
            &&& d.queue == announcement(d.command, rows)
            &&& 0 <= d.cursor <= d.queue.len()
            &&& sent == seq![outbound(d.origin, ACKNOWLEDGMENT@)] + d.queue.take(d.cursor)
        },
        Phase::Finished(_) => false,
    }
}

/// Handles one message to its end against `store`, with every delivery
/// counted as handed over. `feed` is what the content feed holds, or nothing
/// where it cannot be had.
pub fn handle(
    message: &InboundMessage,
    admin: &str,
    store: &mut SubscriberStore,
    feed: Option<Vec<ExternalPost>>,
) -> (done: Handled)
    ensures
        final(store)@ == handled(
            classified(message@, admin@),
            message.chat,
            old(store)@,
            feed.deep_view(),
        ).rows,
        done.sent.deep_view() == handled(
            classified(message@, admin@),
            message.chat,
            old(store)@,
            feed.deep_view(),
        ).sent,
        done.outcome == handled(
            classified(message@, admin@),
            message.chat,
            old(store)@,
            feed.deep_view(),
        ).outcome,
{
    let ghost rows = store@;
    let ghost posts = feed.deep_view();
    let mut dispatcher = Dispatcher::for_message(message, admin);
    let mut sent: Vec<Outbound> = Vec::new();
    let mut event = Event::Begin;
    let mut source = feed;
    assert(sent.deep_view() =~= Seq::<OutboundView>::empty());
    loop
        invariant
            rows == old(store)@,
            posts == feed.deep_view(),
            dispatcher@.command == classified(message@, admin@),
            dispatcher@.origin == message.chat,
            on_track(dispatcher@, event@, sent.deep_view(), store@, rows, posts),
            dispatcher@.phase is Start ==> source.deep_view() == posts,
        decreases phases_ahead(dispatcher@.phase), queued_ahead(dispatcher@),
    {
        let ghost handed = sent.deep_view();
        let action = dispatcher.step(event);
        match action {
            Action::Finish { outcome } => {
                return Handled { outcome, sent };
            },
            Action::AddSubscriber { chat_id } => {
                store.add(chat_id.as_str());
                event = Event::Done;
            },
            Action::ListSubscribers => {
                event = Event::Subscribers { rows: store.list_all() };
            },
            Action::FetchFeed => {
                event =
                match source {
                    Some(posts) => Event::Feed { posts },
                    None => Event::Failed,
                };
                source = None;
            },
            Action::Send { message } => {
                sent.push(message);
                event = Event::Done;
                proof {
                    let after = dispatcher@;
                    assert(sent.deep_view() =~= handed.push(message@));
                    if after.phase is Replying {
                        assert(after.queue.take(after.cursor) =~= after.queue.take(
                            after.cursor - 1,
                        ).push(after.queue[after.cursor - 1]));
                        assert(after.queue.take(0) =~= Seq::<OutboundView>::empty());
                    }
                }
            },
            Action::Spawn { message } => {
                sent.push(message);
                event = Event::Done;
                proof {
                    let after = dispatcher@;
                    assert(sent.deep_view() =~= handed.push(message@));
                    assert(seq![outbound(after.origin, ACKNOWLEDGMENT@)] + after.queue.take(
                        after.cursor,
                    ) =~= (seq![outbound(after.origin, ACKNOWLEDGMENT@)] + after.queue.take(
                        after.cursor - 1,
                    )).push(message@));
                }
            },
        }
    }
}

} // verus!
