//! Fan-out: one payload, one delivery for each subscriber.
//!
//! The subscriber table holds identities as text. A row that is not the
//! decimal text of a 64-bit integer names no chat: it is skipped, and the rows
//! around it are served as if it were not there.

use crate::decimal::{parse_i64, parse_inverts_render, parsed, rendered};
use crate::message::{outbound, Outbound, OutboundView};
use vstd::prelude::*;

verus! {

/// The delivery that a stored identity gets: `payload` for the chat it names,
/// or nothing where it names none.
pub open spec fn delivery(recipient: Seq<char>, payload: Seq<char>) -> Option<OutboundView> {
    match parsed(recipient) {
        Some(chat) => Some(outbound(chat, payload)),
        None => None,
    }
}

/// The deliveries of a broadcast: in the order of `recipients`, one for each
/// that names a chat.
pub open spec fn fan_out(recipients: Seq<Seq<char>>, payload: Seq<char>) -> Seq<OutboundView> {
    recipients.filter_map(|recipient: Seq<char>| delivery(recipient, payload))
}

/// No recipient gets more than one delivery.
pub proof fn fan_out_is_bounded(recipients: Seq<Seq<char>>, payload: Seq<char>)
    ensures
        fan_out(recipients, payload).len() <= recipients.len(),
    decreases recipients.len(),
{
    if recipients.len() > 0 {
        fan_out_is_bounded(recipients.drop_last(), payload);
    }
}

/// `message` is the delivery of one of `recipients`.
pub open spec fn serves_a_row(
    recipients: Seq<Seq<char>>,
    payload: Seq<char>,
    message: OutboundView,
) -> bool {
    exists|i: int|
        0 <= i < recipients.len() && delivery(#[trigger] recipients[i], payload) == Some(message)
}

/// A broadcast serves the rows and nobody else: every recipient that names a
/// chat has a delivery of the payload, and every delivery is the one of some
/// recipient.
pub proof fn fan_out_serves_the_rows(recipients: Seq<Seq<char>>, payload: Seq<char>)
    ensures
        forall|i: int|
            0 <= i < recipients.len() && delivery(#[trigger] recipients[i], payload) is Some
                ==> fan_out(recipients, payload).contains(delivery(recipients[i], payload)->0),
        forall|j: int|
            0 <= j < fan_out(recipients, payload).len() ==> serves_a_row(
                recipients,
                payload,
                #[trigger] fan_out(recipients, payload)[j],
            ),
    decreases recipients.len(),
{
    let plan = fan_out(recipients, payload);
    if recipients.len() > 0 {
        let earlier = recipients.drop_last();
        let last = recipients.last();
        let before = fan_out(earlier, payload);
        fan_out_serves_the_rows(earlier, payload);
        assert forall|i: int|
            0 <= i < recipients.len() && delivery(
                #[trigger] recipients[i],
                payload,
            ) is Some implies plan.contains(delivery(recipients[i], payload)->0) by {
            if i < earlier.len() {
                let served = delivery(earlier[i], payload)->0;
                let at = choose|at: int| 0 <= at < before.len() && before[at] == served;
                assert(plan[at] == served);
            } else {
                assert(plan[plan.len() - 1] == delivery(last, payload)->0);
            }
        }
        assert forall|j: int| 0 <= j < plan.len() implies serves_a_row(
            recipients,
            payload,
            #[trigger] plan[j],
        ) by {
            if j < before.len() {
                let i = choose|i: int|
                    0 <= i < earlier.len() && delivery(#[trigger] earlier[i], payload) == Some(
                        before[j],
                    );
                assert(recipients[i] == earlier[i]);
            } else {
                assert(delivery(recipients[recipients.len() - 1], payload) == Some(plan[j]));
            }
        }
    }
}

/// Chats whose identities were stored in canonical decimal text are all
/// reached: each gets the payload once, in the order of the rows.
pub proof fn fan_out_reaches_stored_chats(chats: Seq<i64>, payload: Seq<char>)
    ensures
        fan_out(chats.map_values(|chat: i64| rendered(chat as int)), payload)
            == chats.map_values(|chat: i64| outbound(chat, payload)),
    decreases chats.len(),
{
    let rows = chats.map_values(|chat: i64| rendered(chat as int));
    let sent = chats.map_values(|chat: i64| outbound(chat, payload));
    if chats.len() > 0 {
        let earlier = chats.drop_last();
        fan_out_reaches_stored_chats(earlier, payload);
        parse_inverts_render(chats.last());
        assert(rows.drop_last() =~= earlier.map_values(|chat: i64| rendered(chat as int)));
    }
    assert(fan_out(rows, payload) =~= sent);
}

/// Plans a broadcast of `payload` to `recipients`.
///
/// Each recipient that names a chat gets one delivery of the payload, in the
/// order given. A recipient that names none is skipped; it neither stops the
/// broadcast nor changes what the others get.
pub fn broadcast(recipients: &Vec<String>, payload: &str) -> (plan: Vec<Outbound>)
    ensures
        plan.deep_view() == fan_out(recipients.deep_view(), payload@),
{
    let ghost rows = recipients.deep_view();
    let ghost pick = |recipient: Seq<char>| delivery(recipient, payload@);
    let mut plan: Vec<Outbound> = Vec::new();
    let mut i: usize = 0;
    while i < recipients.len()
        invariant
            0 <= i <= recipients.len(),
            rows == recipients.deep_view(),
            pick == |recipient: Seq<char>| delivery(recipient, payload@),
            plan.deep_view() == rows.take(i as int).filter_map(pick),
        decreases recipients.len() - i,
    {
        assert(rows.take(i + 1).drop_last() =~= rows.take(i as int));
        match parse_i64(recipients[i].as_str()) {
            Some(chat) => {
                plan.push(Outbound::to(chat, payload));
            },
            None => {},
        }
        i = i + 1;
    }
    assert(rows.take(i as int) =~= rows);
    plan
}

} // verus!
