use broadcast_relay::feed::{format_post, preview, ExternalPost, INTRO, LINK_BASE};
use broadcast_relay::message::Outbound;

fn post(title: &str, slug: &str) -> ExternalPost {
    ExternalPost { title: title.to_string(), slug: slug.to_string() }
}

fn to(chat: i64, text: &str) -> Outbound {
    Outbound { chat, text: text.to_string() }
}

#[test]
fn the_preview_texts_are_fixed() {
    assert_eq!(INTRO, "Here are 3 the latest:");
    assert_eq!(LINK_BASE, "https://killerrabb.it");
}

#[test]
fn a_post_line_is_title_blank_link() {
    assert_eq!(format_post(&post("A", "a")), "A https://killerrabb.it/a");
    assert_eq!(
        format_post(&post("Rabbits of note", "rabbits-of-note")),
        "Rabbits of note https://killerrabb.it/rabbits-of-note"
    );
}

#[test]
fn a_post_line_takes_title_and_slug_as_they_are() {
    assert_eq!(format_post(&post("", "")), " https://killerrabb.it/");
    assert_eq!(format_post(&post("a b", "c/d e")), "a b https://killerrabb.it/c/d e");
    assert_eq!(format_post(&post("Gr\u{fc}\u{df}e", "x")), "Gr\u{fc}\u{df}e https://killerrabb.it/x");
}

#[test]
fn a_preview_of_nothing_is_the_intro() {
    assert_eq!(preview(42, &vec![]), vec![to(42, "Here are 3 the latest:")]);
}

#[test]
fn a_preview_lists_the_posts_in_feed_order() {
    assert_eq!(
        preview(42, &vec![post("A", "a"), post("B", "b")]),
        vec![
            to(42, "Here are 3 the latest:"),
            to(42, "A https://killerrabb.it/a"),
            to(42, "B https://killerrabb.it/b"),
        ]
    );
}

#[test]
fn a_preview_shows_every_post_of_a_longer_feed() {
    let posts: Vec<ExternalPost> =
        (0..7).map(|i| post(&format!("T{}", i), &format!("s{}", i))).collect();
    let plan = preview(-3, &posts);
    assert_eq!(plan.len(), 8);
    for (i, message) in plan.iter().skip(1).enumerate() {
        assert_eq!(message.chat, -3);
        assert_eq!(message.text, format!("T{} https://killerrabb.it/s{}", i, i));
    }
}
