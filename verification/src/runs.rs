//! What a whole handling does: the actions that a dispatcher names from its
//! first step to its last, for each command.

use crate::command::{classified, from_admin, CommandView, LATEST, START};
use crate::decimal::rendered;
use crate::dispatch::{
    next_in_queue, phases_ahead, queued_ahead, started, stepped, ActionView, DispatcherView,
    EventView, Failure, Outcome, Phase, ACKNOWLEDGMENT, CONFIRMATION,
};
use crate::fanout::fan_out;
use crate::feed::{preview_of, ExternalPostView};
use crate::message::{outbound, InboundMessageView, OutboundView};
use vstd::prelude::*;

verus! {

/// The actions that the dispatcher names while `events` come in, in order.
pub open spec fn run(d: DispatcherView, events: Seq<EventView>) -> Seq<ActionView>
    decreases events.len(),
{
    if events.len() == 0 {
        Seq::empty()
    } else {
        seq![stepped(d, events[0]).1] + run(stepped(d, events[0]).0, events.drop_first())
    }
}

/// The action that stores `chat_id`.
pub open spec fn add_subscriber(chat_id: Seq<char>) -> ActionView {
    ActionView::AddSubscriber { chat_id }
}

/// The action that delivers `message` and waits for it.
pub open spec fn send(message: OutboundView) -> ActionView {
    ActionView::Send { message }
}

/// The action that hands `message` over without waiting for it.
pub open spec fn spawn(message: OutboundView) -> ActionView {
    ActionView::Spawn { message }
}

/// The action that ends a handling with `outcome`.
pub open spec fn finish(outcome: Outcome) -> ActionView {
    ActionView::Finish { outcome }
}

/// The event that brings the subscribers.
pub open spec fn listed(rows: Seq<Seq<char>>) -> EventView {
    EventView::Subscribers { rows }
}

/// The event that brings the feed.
pub open spec fn fetched(posts: Seq<ExternalPostView>) -> EventView {
    EventView::Feed { posts }
}

/// One awaited reply for each message of `queue`.
pub open spec fn send_each(queue: Seq<OutboundView>) -> Seq<ActionView> {
    queue.map_values(|message: OutboundView| send(message))
}

/// One detached delivery for each message of `queue`.
pub open spec fn spawn_each(queue: Seq<OutboundView>) -> Seq<ActionView> {
    queue.map_values(|message: OutboundView| spawn(message))
}

/// The operator's announcement of `payload`.
pub open spec fn announce(payload: Seq<char>) -> CommandView {
    CommandView::BroadcastAnnounce { payload: Some(payload) }
}

/// `count` reports of success.
pub open spec fn all_done(count: nat) -> Seq<EventView> {
    Seq::new(count, |i: int| EventView::Done)
}

/// The action leaves the subscriber table and the platform alone.
pub open spec fn is_silent(action: ActionView) -> bool {
    action is Finish
}

proof fn lemma_run_first(d: DispatcherView, event: EventView, rest: Seq<EventView>)
    ensures
        run(d, seq![event] + rest) == seq![stepped(d, event).1] + run(stepped(d, event).0, rest),
{
    let events = seq![event] + rest;
    assert(events.drop_first() =~= rest);
}

proof fn lemma_run_one(d: DispatcherView, event: EventView)
    ensures
        run(d, seq![event]) == seq![stepped(d, event).1],
{
    let events = seq![event];
    assert(run(stepped(d, event).0, events.drop_first()) =~= Seq::<ActionView>::empty());
}

/// Once a handling is finished, every further step names the same end.
proof fn lemma_finished_stays(d: DispatcherView, outcome: Outcome, events: Seq<EventView>)
    requires
        d.phase == Phase::Finished(outcome),
    ensures
        run(d, events).len() == events.len(),
        forall|i: int| 0 <= i < events.len() ==> run(d, events)[i] == finish(outcome),
    decreases events.len(),
{
    if events.len() > 0 {
        lemma_finished_stays(d, outcome, events.drop_first());
    }
}

/// Detached deliveries follow one another to the end of the queue, whatever
/// is reported in between.
proof fn lemma_fan_out_drains(d: DispatcherView, events: Seq<EventView>)
    requires
        d.phase == Phase::FanningOut,
        0 <= d.cursor <= d.queue.len(),
        events.len() == d.queue.len() - d.cursor + 1,
    ensures
        run(d, events) == spawn_each(d.queue.skip(d.cursor)) + seq![finish(Outcome::Completed)],
    decreases events.len(),
{
    let rest = events.drop_first();
    let next = stepped(d, events[0]).0;
    if d.cursor < d.queue.len() {
        lemma_fan_out_drains(next, rest);
    } else {
        assert(run(next, rest) =~= Seq::<ActionView>::empty());
    }
}

/// Awaited replies follow one another to the end of the queue as long as
/// each is reported done.
proof fn lemma_replies_drain(d: DispatcherView, count: nat)
    requires
        d.phase == Phase::Replying,
        0 <= d.cursor <= d.queue.len(),
        count == d.queue.len() - d.cursor + 1,
    ensures
        run(d, all_done(count)) == send_each(d.queue.skip(d.cursor)) + seq![
            finish(Outcome::Completed),
        ],
    decreases count,
{
    let events = all_done(count);
    let rest = events.drop_first();
    let next = stepped(d, events[0]).0;
    if d.cursor < d.queue.len() {
        assert(rest =~= all_done((count - 1) as nat));
        lemma_replies_drain(next, (count - 1) as nat);
    } else {
        assert(run(next, rest) =~= Seq::<ActionView>::empty());
    }
}

/// Every handling ends. Whatever an unfinished dispatcher is told, its step
/// either moves it to a later phase or names one more of the queued messages,
/// and neither can go on forever.
pub proof fn every_step_makes_progress(d: DispatcherView, event: EventView)
    requires
        !(d.phase is Finished),
    ensures
        phases_ahead(stepped(d, event).0.phase) < phases_ahead(d.phase) || (phases_ahead(
            stepped(d, event).0.phase,
        ) == phases_ahead(d.phase) && queued_ahead(stepped(d, event).0) < queued_ahead(d)),
{
}

/// An ignored message touches nothing: however long its dispatcher is
/// driven and whatever it is told, it names no action but the end of the
/// handling, so nothing is stored and nothing is sent.
pub proof fn ignored_message_touches_nothing(origin: i64, events: Seq<EventView>)
    ensures
        run(started(CommandView::Ignore, origin), events).len() == events.len(),
        forall|i: int|
            0 <= i < events.len() ==> is_silent(
                #[trigger] run(started(CommandView::Ignore, origin), events)[i],
            ),
{
    let d = started(CommandView::Ignore, origin);
    if events.len() > 0 {
        let next = stepped(d, events[0]).0;
        lemma_finished_stays(next, Outcome::Completed, events.drop_first());
    }
}

/// A message that is neither `/start` nor `/latest` and does not come from
/// the operator is ignored, and its handling touches nothing.
pub proof fn others_are_ignored(
    message: InboundMessageView,
    admin: Seq<char>,
    events: Seq<EventView>,
)
    requires
        message.text != Some(START@),
        message.text != Some(LATEST@),
        !from_admin(message, admin),
    ensures
        classified(message, admin) == CommandView::Ignore,
        forall|i: int|
            0 <= i < events.len() ==> is_silent(
                #[trigger] run(started(classified(message, admin), message.chat), events)[i],
            ),
{
    ignored_message_touches_nothing(message.chat, events);
}

/// A subscription stores the origin chat's identity in canonical decimal
/// text and then confirms to that chat.
pub proof fn subscription_stores_then_confirms(origin: i64)
    ensures
        run(
            started(CommandView::Subscribe, origin),
            seq![EventView::Begin, EventView::Done, EventView::Done],
        ) == seq![
            add_subscriber(rendered(origin as int)),
            send(outbound(origin, CONFIRMATION@)),
            finish(Outcome::Completed),
        ],
{
    let d0 = started(CommandView::Subscribe, origin);
    let d1 = stepped(d0, EventView::Begin).0;
    let d2 = stepped(d1, EventView::Done).0;
    lemma_run_first(d0, EventView::Begin, seq![EventView::Done, EventView::Done]);
    lemma_run_first(d1, EventView::Done, seq![EventView::Done]);
    lemma_run_one(d2, EventView::Done);
    assert(seq![EventView::Begin, EventView::Done, EventView::Done] =~= seq![EventView::Begin]
        + seq![EventView::Done, EventView::Done]);
    assert(seq![EventView::Done, EventView::Done] =~= seq![EventView::Done] + seq![
        EventView::Done,
    ]);
}

/// Where the identity cannot be stored, the subscription ends there: no
/// confirmation is sent.
pub proof fn failed_subscription_sends_nothing(origin: i64)
    ensures
        run(started(CommandView::Subscribe, origin), seq![EventView::Begin, EventView::Failed])
            == seq![
            add_subscriber(rendered(origin as int)),
            finish(Outcome::Aborted(Failure::Store)),
        ],
{
    let d0 = started(CommandView::Subscribe, origin);
    let d1 = stepped(d0, EventView::Begin).0;
    lemma_run_first(d0, EventView::Begin, seq![EventView::Failed]);
    lemma_run_one(d1, EventView::Failed);
    assert(seq![EventView::Begin, EventView::Failed] =~= seq![EventView::Begin] + seq![
        EventView::Failed,
    ]);
}

/// Fan-out is isolated: during an announcement's deliveries the next step
/// does not depend on what is reported of the last one.
pub proof fn fan_out_ignores_reports(d: DispatcherView, one: EventView, other: EventView)
    requires
        d.phase == Phase::FanningOut,
    ensures
        stepped(d, one) == stepped(d, other),
{
}

/// An announcement acknowledges to the operator, reads the subscribers, and
/// hands over one delivery of the payload for each subscriber that names a
/// chat, in the order of the rows. Every one of them is handed over whatever
/// `reports` says of the others: a failed delivery holds up none.
pub proof fn announcement_reaches_every_subscriber(
    payload: Seq<char>,
    origin: i64,
    rows: Seq<Seq<char>>,
    reports: Seq<EventView>,
)
    requires
        reports.len() == fan_out(rows, payload).len(),
    ensures
        run(
            started(announce(payload), origin),
            seq![EventView::Begin, EventView::Done, listed(rows)] + reports,
        ) == seq![
            send(outbound(origin, ACKNOWLEDGMENT@)),
            ActionView::ListSubscribers,
        ] + spawn_each(fan_out(rows, payload)) + seq![finish(Outcome::Completed)],
{
    let command = announce(payload);
    let listed = listed(rows);
    let d0 = started(command, origin);
    let d1 = stepped(d0, EventView::Begin).0;
    let d2 = stepped(d1, EventView::Done).0;
    let entered = DispatcherView {
        phase: Phase::FanningOut,
        queue: fan_out(rows, payload),
        cursor: 0,
        ..d2
    };
    let events = seq![EventView::Begin, EventView::Done, listed] + reports;
    assert(events =~= seq![EventView::Begin] + (seq![EventView::Done] + (seq![listed]
        + reports)));
    lemma_run_first(d0, EventView::Begin, seq![EventView::Done] + (seq![listed] + reports));
    lemma_run_first(d1, EventView::Done, seq![listed] + reports);
    lemma_fan_out_drains(entered, seq![listed] + reports);
    // Reading the subscribers and naming the first delivery are one step. It
    // is the step that the fan-out takes once it is entered.
    assert(stepped(d2, listed) == next_in_queue(entered));
    lemma_run_first(d2, listed, reports);
    lemma_run_first(entered, listed, reports);
}

/// A request for the latest posts fetches the feed and replies to the origin
/// chat only: the intro, then one line for each post in feed order.
pub proof fn latest_previews_to_requester(origin: i64, posts: Seq<ExternalPostView>)
    ensures
        run(
            started(CommandView::FetchAndBroadcast, origin),
            seq![EventView::Begin, fetched(posts)] + all_done(posts.len() + 1),
        ) == seq![ActionView::FetchFeed] + send_each(preview_of(origin, posts)) + seq![
            finish(Outcome::Completed),
        ],
        forall|i: int|
            0 <= i < preview_of(origin, posts).len() ==> (#[trigger] preview_of(
                origin,
                posts,
            )[i]).chat == origin,
{
    let fetched = fetched(posts);
    let d0 = started(CommandView::FetchAndBroadcast, origin);
    let d1 = stepped(d0, EventView::Begin).0;
    let entered = DispatcherView {
        phase: Phase::Replying,
        queue: preview_of(origin, posts),
        cursor: 0,
        ..d1
    };
    let count = posts.len() + 1;
    let events = seq![EventView::Begin, fetched] + all_done(count);
    assert(events =~= seq![EventView::Begin] + (seq![fetched] + all_done(count)));
    lemma_run_first(d0, EventView::Begin, seq![fetched] + all_done(count));
    lemma_run_first(d1, fetched, all_done(count));
    assert(all_done(count + 1) =~= seq![EventView::Done] + all_done(count));
    lemma_replies_drain(entered, count + 1);
    // Taking the feed and naming the intro are one step. It is the step that
    // the replies take once they are entered.
    assert(stepped(d1, fetched) == next_in_queue(entered));
    lemma_run_first(entered, EventView::Done, all_done(count));
}

/// Where the feed cannot be fetched, nothing is sent.
pub proof fn failed_fetch_sends_nothing(origin: i64)
    ensures
        run(
            started(CommandView::FetchAndBroadcast, origin),
            seq![EventView::Begin, EventView::Failed],
        ) == seq![ActionView::FetchFeed, finish(Outcome::Aborted(Failure::Feed))],
{
    let d0 = started(CommandView::FetchAndBroadcast, origin);
    let d1 = stepped(d0, EventView::Begin).0;
    lemma_run_first(d0, EventView::Begin, seq![EventView::Failed]);
    lemma_run_one(d1, EventView::Failed);
    assert(seq![EventView::Begin, EventView::Failed] =~= seq![EventView::Begin] + seq![
        EventView::Failed,
    ]);
}

} // verus!
