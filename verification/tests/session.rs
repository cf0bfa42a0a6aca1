use myrss::content::{construct_message_at, Message};
use myrss::hub::publish;
use myrss::session::{join_announcement, leave_announcement, Session};
use tokio::sync::broadcast::channel;
use tokio::sync::broadcast::error::TryRecvError;

#[test]
fn join_announcement_gives_name_and_count() {
    let m = join_announcement("ann", 3);
    assert_eq!(m.sender, "System");
    assert_eq!(m.contents, "<p>ann joined. Users currently online: 3</p>");
    assert!(m.should_notify);
}

#[test]
fn leave_announcement_counts_who_stays() {
    let m = leave_announcement("ann", 3);
    assert_eq!(m.sender, "System");
    assert_eq!(m.contents, "<p>ann left. Users currently online: 2</p>");
    assert!(!m.should_notify);
    assert_eq!(leave_announcement("ann", 1).contents, "<p>ann left. Users currently online: 0</p>");
    assert_eq!(leave_announcement("ann", 0).contents, "<p>ann left. Users currently online: 0</p>");
}

#[test]
fn publishing_without_subscribers_drops_the_message() {
    let (hub, first) = channel::<Message>(10);
    drop(first);
    assert!(!publish(&hub, construct_message_at("x", "ann", true, 0)));
}

#[test]
fn publishing_reaches_every_subscriber_in_order() {
    let (hub, mut one) = channel::<Message>(10);
    let mut two = hub.subscribe();
    assert!(publish(&hub, construct_message_at("first", "ann", true, 1)));
    assert!(publish(&hub, construct_message_at("second", "bob", true, 2)));
    for rx in [&mut one, &mut two] {
        let a = rx.try_recv().expect("first");
        let b = rx.try_recv().expect("second");
        assert_eq!((a.sender.as_str(), a.sent_date), ("ann", 1));
        assert_eq!((b.sender.as_str(), b.sent_date), ("bob", 2));
        assert_eq!(a.contents, "<p>first</p>");
        assert!(matches!(rx.try_recv(), Err(TryRecvError::Empty)));
    }
}

#[test]
fn a_session_announces_join_and_leave_once_each() {
    let (hub, mut watcher) = channel::<Message>(10);
    let (mut session, mut subscriber, joined) = Session::acquire("ann".to_string(), hub.clone());
    assert_eq!(session.name(), "ann");
    assert!(session.is_active());
    assert_eq!(joined.contents, "<p>ann joined. Users currently online: 2</p>");
    assert_eq!(joined.sender, "System");
    assert!(joined.should_notify);

    let seen = watcher.try_recv().expect("the join");
    assert_eq!(seen.contents, joined.contents);
    let own = subscriber.try_recv().expect("the join, to the one who joined");
    assert_eq!(own.contents, joined.contents);

    let left = session.release().expect("the leave");
    assert!(!session.is_active());
    assert_eq!(left.contents, "<p>ann left. Users currently online: 1</p>");
    assert_eq!(left.sender, "System");
    assert!(!left.should_notify);
    assert!(session.release().is_none());
    assert!(session.release().is_none());

    let seen = watcher.try_recv().expect("the leave");
    assert_eq!(seen.contents, left.contents);
    assert!(matches!(watcher.try_recv(), Err(TryRecvError::Empty)));
}

#[test]
fn the_leave_counts_who_is_subscribed_then() {
    let (hub, _watcher) = channel::<Message>(10);
    let (mut ann, _ann_rx, ann_joined) = Session::acquire("ann".to_string(), hub.clone());
    let (mut bob, bob_rx, bob_joined) = Session::acquire("bob".to_string(), hub.clone());
    assert_eq!(ann_joined.contents, "<p>ann joined. Users currently online: 2</p>");
    assert_eq!(bob_joined.contents, "<p>bob joined. Users currently online: 3</p>");
    let bob_left = bob.release().expect("the leave");
    assert_eq!(bob_left.contents, "<p>bob left. Users currently online: 2</p>");
    drop(bob_rx);
    let ann_left = ann.release().expect("the leave");
    assert_eq!(ann_left.contents, "<p>ann left. Users currently online: 1</p>");
}
