use broadcast_relay::dispatch::{Failure, Outcome};
use broadcast_relay::feed::ExternalPost;
use broadcast_relay::message::{InboundMessage, Outbound};
use broadcast_relay::relay::{handle, Handled};
use broadcast_relay::store::SubscriberStore;

fn inbound(chat: i64, username: Option<&str>, text: Option<&str>) -> InboundMessage {
    InboundMessage {
        chat,
        username: username.map(|s| s.to_string()),
        text: text.map(|s| s.to_string()),
    }
}

fn to(chat: i64, text: &str) -> Outbound {
    Outbound { chat, text: text.to_string() }
}

fn post(title: &str, slug: &str) -> ExternalPost {
    ExternalPost { title: title.to_string(), slug: slug.to_string() }
}

#[test]
fn end_to_end_start_from_chat_42() {
    let mut store = SubscriberStore::new();
    let done = handle(&inbound(42, Some("alice"), Some("/start")), "boss", &mut store, None);
    assert_eq!(
        done,
        Handled { outcome: Outcome::Completed, sent: vec![to(42, "Thank you for subscribing!")] }
    );
    assert!(store.contains("42"));
    assert_eq!(store.list_all(), vec!["42".to_string()]);
}

#[test]
fn end_to_end_repeated_start_confirms_again_and_keeps_one_row() {
    let mut store = SubscriberStore::new();
    for _ in 0..3 {
        let done = handle(&inbound(42, None, Some("/start")), "boss", &mut store, None);
        assert_eq!(done.outcome, Outcome::Completed);
        assert_eq!(done.sent, vec![to(42, "Thank you for subscribing!")]);
    }
    assert_eq!(store.list_all(), vec!["42".to_string()]);
}

#[test]
fn end_to_end_admin_says_hello() {
    let mut store = SubscriberStore::new();
    store.add("1");
    store.add("2");
    let done = handle(&inbound(9, Some("boss"), Some("Hello")), "boss", &mut store, None);
    assert_eq!(done.outcome, Outcome::Completed);
    assert_eq!(done.sent, vec![to(9, "Sending to all!"), to(1, "Hello"), to(2, "Hello")]);
    assert_eq!(store.list_all(), vec!["1".to_string(), "2".to_string()]);
}

#[test]
fn end_to_end_latest_with_two_posts() {
    let mut store = SubscriberStore::new();
    store.add("1");
    let feed = Some(vec![post("A", "a"), post("B", "b")]);
    let done = handle(&inbound(5, Some("eve"), Some("/latest")), "boss", &mut store, feed);
    assert_eq!(done.outcome, Outcome::Completed);
    assert_eq!(
        done.sent,
        vec![
            to(5, "Here are 3 the latest:"),
            to(5, "A https://killerrabb.it/a"),
            to(5, "B https://killerrabb.it/b"),
        ]
    );
    assert_eq!(store.list_all(), vec!["1".to_string()]);
}

#[test]
fn end_to_end_latest_without_feed() {
    let mut store = SubscriberStore::new();
    store.add("1");
    let done = handle(&inbound(5, Some("eve"), Some("/latest")), "boss", &mut store, None);
    assert_eq!(done, Handled { outcome: Outcome::Aborted(Failure::Feed), sent: vec![] });
    assert_eq!(store.list_all(), vec!["1".to_string()]);
}

#[test]
fn end_to_end_others_send_nothing_and_store_nothing() {
    let mut store = SubscriberStore::new();
    store.add("1");
    let strangers = [
        inbound(3, Some("eve"), Some("Hello")),
        inbound(3, None, Some("Hello")),
        inbound(3, Some("eve"), None),
        inbound(3, None, None),
        inbound(3, Some("Boss"), Some("/Start")),
    ];
    for message in strangers.iter() {
        let feed = Some(vec![post("A", "a")]);
        let done = handle(message, "boss", &mut store, feed);
        assert_eq!(done, Handled { outcome: Outcome::Completed, sent: vec![] });
        assert_eq!(store.list_all(), vec!["1".to_string()]);
    }
}

#[test]
fn end_to_end_subscribers_get_the_announcement() {
    let mut store = SubscriberStore::new();
    for chat in [11, -22, 33] {
        handle(&inbound(chat, None, Some("/start")), "boss", &mut store, None);
    }
    let done = handle(&inbound(9, Some("boss"), Some("News")), "boss", &mut store, None);
    assert_eq!(
        done.sent,
        vec![to(9, "Sending to all!"), to(11, "News"), to(-22, "News"), to(33, "News")]
    );
}

#[test]
fn end_to_end_announcement_without_text() {
    let mut store = SubscriberStore::new();
    store.add("1");
    let done = handle(&inbound(9, Some("boss"), None), "boss", &mut store, None);
    assert_eq!(done, Handled { outcome: Outcome::Completed, sent: vec![to(9, "Sending to all!")] });
}

#[test]
fn end_to_end_announcement_skips_a_malformed_row() {
    let mut store = SubscriberStore::new();
    store.add("1");
    store.add("not-a-number");
    store.add("2");
    let done = handle(&inbound(9, Some("boss"), Some("Hello")), "boss", &mut store, None);
    assert_eq!(done.outcome, Outcome::Completed);
    assert_eq!(done.sent, vec![to(9, "Sending to all!"), to(1, "Hello"), to(2, "Hello")]);
    assert_eq!(store.len(), 3);
}
