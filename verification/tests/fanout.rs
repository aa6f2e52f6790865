use broadcast_relay::fanout::broadcast;
use broadcast_relay::message::Outbound;

fn rows(ids: &[&str]) -> Vec<String> {
    ids.iter().map(|s| s.to_string()).collect()
}

fn to(chat: i64, text: &str) -> Outbound {
    Outbound { chat, text: text.to_string() }
}

#[test]
fn outbound_to_copies_the_text() {
    let message = Outbound::to(5, "hi");
    assert_eq!(message, to(5, "hi"));
    assert_eq!(message.duplicate(), message);
}

#[test]
fn broadcast_to_nobody_plans_nothing() {
    assert_eq!(broadcast(&rows(&[]), "Hello"), vec![]);
}

#[test]
fn broadcast_plans_one_delivery_for_each_recipient() {
    assert_eq!(
        broadcast(&rows(&["1", "2", "3"]), "Hello"),
        vec![to(1, "Hello"), to(2, "Hello"), to(3, "Hello")]
    );
}

#[test]
fn broadcast_keeps_the_order_of_the_rows() {
    assert_eq!(
        broadcast(&rows(&["30", "-1001234567890", "2"]), "x"),
        vec![to(30, "x"), to(-1001234567890, "x"), to(2, "x")]
    );
}

#[test]
fn broadcast_delivers_an_empty_payload_too() {
    assert_eq!(broadcast(&rows(&["1"]), ""), vec![to(1, "")]);
}

#[test]
fn a_malformed_identity_is_skipped_and_the_rest_is_served() {
    assert_eq!(
        broadcast(&rows(&["1", "not-a-number", "2"]), "Hello"),
        vec![to(1, "Hello"), to(2, "Hello")]
    );
}

#[test]
fn malformed_identities_at_the_ends_are_skipped() {
    assert_eq!(
        broadcast(&rows(&["", "7", " 8", "9", "99999999999999999999"]), "Hello"),
        vec![to(7, "Hello"), to(9, "Hello")]
    );
}

#[test]
fn only_malformed_identities_plan_nothing() {
    assert_eq!(broadcast(&rows(&["not-a-number", "-", "4 2"]), "Hello"), vec![]);
}

#[test]
fn a_recipient_stored_twice_is_served_twice() {
    assert_eq!(broadcast(&rows(&["4", "04"]), "p"), vec![to(4, "p"), to(4, "p")]);
}

#[test]
fn a_plan_is_never_longer_than_the_rows() {
    let cases: [&[&str]; 4] = [&[], &["1"], &["x", "1", "y"], &["1", "2", "3", ""]];
    for case in cases {
        assert!(broadcast(&rows(case), "p").len() <= case.len());
    }
}

#[test]
fn chats_stored_in_canonical_text_are_all_reached() {
    let chats = [42i64, -1001234567890, 0, i64::MAX, i64::MIN, 7];
    let stored: Vec<String> = chats.iter().map(|c| broadcast_relay::decimal::render_i64(*c)).collect();
    let plan = broadcast(&stored, "News");
    let expected: Vec<Outbound> = chats.iter().map(|c| to(*c, "News")).collect();
    assert_eq!(plan, expected);
}
