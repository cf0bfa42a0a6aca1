use myrss::content::construct_message_at;
use myrss::feed::{feed_event, preview, StreamItem};

#[test]
fn short_contents_are_their_own_preview() {
    assert_eq!(preview(""), "");
    assert_eq!(preview("hello"), "hello");
    let forty = "a".repeat(40);
    assert_eq!(preview(&forty), forty);
}

#[test]
fn long_contents_are_cut_to_thirty_seven_characters() {
    let long = "abcdefghijklmnopqrstuvwxyz0123456789ABCDE";
    assert_eq!(long.len(), 41);
    assert_eq!(preview(long), "abcdefghijklmnopqrstuvwxyz0123456789A...");
}

#[test]
fn preview_is_measured_in_bytes_and_cut_in_characters() {
    let wide = "é".repeat(21);
    assert_eq!(wide.len(), 42);
    assert_eq!(preview(&wide), format!("{}...", wide));
    let twenty = "é".repeat(20);
    assert_eq!(preview(&twenty), twenty);
    let many = "語".repeat(50);
    assert_eq!(preview(&many), format!("{}...", "語".repeat(37)));
}

#[test]
fn a_message_becomes_an_event() {
    let m = construct_message_at("hello", "ann", true, 5);
    let event = feed_event(StreamItem::Delivered(m)).expect("an event");
    assert_eq!(event.sender, "ann");
    assert_eq!(event.preview, "<p>hello</p>");
    assert!(event.notify);
    assert_eq!(event.message.contents, "<p>hello</p>");
    assert_eq!(event.message.sent_date, 5);
}

#[test]
fn lag_becomes_nothing() {
    assert!(feed_event(StreamItem::Lagged(3)).is_none());
    assert!(feed_event(StreamItem::Lagged(0)).is_none());
}

#[test]
fn every_message_is_passed_on_in_order() {
    let items = vec![
        StreamItem::Delivered(construct_message_at("one", "ann", true, 1)),
        StreamItem::Lagged(2),
        StreamItem::Delivered(construct_message_at("two", "bob", false, 2)),
        StreamItem::Delivered(construct_message_at("three", "ann", true, 3)),
    ];
    let mut dates = Vec::new();
    for item in items {
        if let Some(event) = feed_event(item) {
            dates.push(event.message.sent_date);
        }
    }
    assert_eq!(dates, vec![1, 2, 3]);
}
