use futures::channel::mpsc::TryRecvError;
use futures::channel::mpsc::UnboundedReceiver;
use vessels_chat_demo::hub::Hub;
use vessels_chat_demo::message::Message;

fn message(text: &str) -> Message {
    Message::new(text.to_string())
}

fn contents(messages: &[Message]) -> Vec<String> {
    messages.iter().map(|m| m.content.clone()).collect()
}

fn drain(inbox: &mut UnboundedReceiver<String>) -> Vec<String> {
    let mut seen = Vec::new();
    while let Ok(text) = inbox.try_recv() {
        seen.push(text);
    }
    seen
}

#[test]
fn fresh_hub_is_empty() {
    let hub = Hub::new();
    assert!(hub.snapshot().is_empty());
    assert_eq!(hub.subscriber_count(), 0);
    assert_eq!(hub.next_id(), 0);
}

#[test]
fn publish_then_subscribe_gives_the_message_as_backlog() {
    let mut hub = Hub::new();
    let refused = hub.publish(message("hello"));
    assert!(refused.is_empty());
    let mut subscription = hub.subscribe();
    assert_eq!(contents(&subscription.backlog), vec!["hello"]);
    assert_eq!(subscription.inbox.try_recv(), Err(TryRecvError::Empty));
}

#[test]
fn subscriber_gets_what_is_published_after_it_subscribed() {
    let mut hub = Hub::new();
    hub.publish(message("a"));
    hub.publish(message("b"));
    let mut s1 = hub.subscribe();
    assert_eq!(contents(&s1.backlog), vec!["a", "b"]);
    let refused = hub.publish(message("c"));
    assert!(refused.is_empty());
    assert_eq!(s1.inbox.try_recv(), Ok("c".to_string()));
    assert_eq!(s1.inbox.try_recv(), Err(TryRecvError::Empty));
    assert_eq!(contents(&hub.snapshot()), vec!["a", "b", "c"]);
}

#[test]
fn one_hundred_and_one_publishes_leave_out_the_first() {
    let mut hub = Hub::new();
    for i in 0..101 {
        hub.publish(message(&format!("m{}", i)));
    }
    let snapshot = contents(&hub.snapshot());
    assert_eq!(snapshot.len(), 100);
    assert!(!snapshot.contains(&"m0".to_string()));
    assert_eq!(snapshot[0], "m1");
    assert_eq!(snapshot[99], "m100");
}

#[test]
fn unsubscribed_queue_does_not_disturb_the_other() {
    let mut hub = Hub::new();
    let mut s1 = hub.subscribe();
    let mut s2 = hub.subscribe();
    assert!(hub.unsubscribe(s1.id));
    let refused = hub.publish(message("x"));
    assert!(refused.is_empty());
    assert_eq!(s2.inbox.try_recv(), Ok("x".to_string()));
    assert_eq!(s1.inbox.try_recv(), Err(TryRecvError::Closed));
    assert_eq!(hub.subscriber_count(), 1);
}

#[test]
fn two_publishers_are_seen_in_one_order_by_all() {
    for first in ["left", "right"] {
        let second = if first == "left" { "right" } else { "left" };
        let mut hub = Hub::new();
        let mut s1 = hub.subscribe();
        let mut s2 = hub.subscribe();
        let mut s3 = hub.subscribe();
        hub.publish(message(first));
        hub.publish(message(second));
        let seen1 = drain(&mut s1.inbox);
        let seen2 = drain(&mut s2.inbox);
        let seen3 = drain(&mut s3.inbox);
        assert_eq!(seen1, vec![first.to_string(), second.to_string()]);
        assert_eq!(seen1, seen2);
        assert_eq!(seen2, seen3);
        assert_eq!(contents(&hub.snapshot()), seen1);
    }
}

#[test]
fn history_is_the_last_min_of_count_and_capacity() {
    for count in [0usize, 1, 99, 100, 101, 250] {
        let mut hub = Hub::new();
        for i in 0..count {
            hub.publish(message(&format!("m{}", i)));
        }
        let kept = count.min(100);
        let expected: Vec<String> = (count - kept..count).map(|i| format!("m{}", i)).collect();
        assert_eq!(contents(&hub.snapshot()), expected);
    }
}

#[test]
fn backlog_and_queue_meet_without_gap_or_duplicate() {
    let mut hub = Hub::new();
    for i in 0..5 {
        hub.publish(message(&format!("old{}", i)));
    }
    let mut subscription = hub.subscribe();
    for i in 0..4 {
        hub.publish(message(&format!("new{}", i)));
    }
    assert_eq!(contents(&subscription.backlog), vec!["old0", "old1", "old2", "old3", "old4"]);
    assert_eq!(drain(&mut subscription.inbox), vec!["new0", "new1", "new2", "new3"]);
}

#[test]
fn later_subscriber_sees_the_common_part_in_the_same_order() {
    let mut hub = Hub::new();
    let mut early = hub.subscribe();
    hub.publish(message("one"));
    let mut late = hub.subscribe();
    hub.publish(message("two"));
    hub.publish(message("three"));
    assert_eq!(contents(&late.backlog), vec!["one"]);
    let seen_early = drain(&mut early.inbox);
    let seen_late = drain(&mut late.inbox);
    assert_eq!(seen_early, vec!["one", "two", "three"]);
    assert_eq!(seen_late, vec!["two", "three"]);
    assert_eq!(&seen_early[1..], &seen_late[..]);
}

#[test]
fn removing_a_subscriber_leaves_the_sequence_of_the_rest() {
    let mut with_removal = Hub::new();
    let mut kept_a = with_removal.subscribe();
    let going = with_removal.subscribe();
    let mut kept_b = with_removal.subscribe();
    let mut without_removal = Hub::new();
    let mut plain_a = without_removal.subscribe();
    let _staying = without_removal.subscribe();
    let mut plain_b = without_removal.subscribe();

    with_removal.publish(message("1"));
    without_removal.publish(message("1"));
    assert!(with_removal.unsubscribe(going.id));
    for text in ["2", "3"] {
        with_removal.publish(message(text));
        without_removal.publish(message(text));
    }
    assert_eq!(drain(&mut kept_a.inbox), drain(&mut plain_a.inbox));
    assert_eq!(drain(&mut kept_b.inbox), drain(&mut plain_b.inbox));
    assert_eq!(contents(&with_removal.snapshot()), contents(&without_removal.snapshot()));
}

#[test]
fn gone_reader_is_reported_and_stops_nobody() {
    let mut hub = Hub::new();
    let mut s0 = hub.subscribe();
    let s1 = hub.subscribe();
    let mut s2 = hub.subscribe();
    let gone_id = s1.id;
    drop(s1);
    let refused = hub.publish(message("still here"));
    assert_eq!(refused, vec![gone_id]);
    assert_eq!(s0.inbox.try_recv(), Ok("still here".to_string()));
    assert_eq!(s2.inbox.try_recv(), Ok("still here".to_string()));
    assert_eq!(contents(&hub.snapshot()), vec!["still here"]);
    assert_eq!(hub.subscriber_count(), 3);
}

#[test]
fn several_gone_readers_are_reported_in_registry_order() {
    let mut hub = Hub::new();
    let a = hub.subscribe();
    let mut b = hub.subscribe();
    let c = hub.subscribe();
    let (a_id, c_id) = (a.id, c.id);
    drop(c);
    drop(a);
    assert_eq!(hub.publish(message("m")), vec![a_id, c_id]);
    assert_eq!(b.inbox.try_recv(), Ok("m".to_string()));
}

#[test]
fn handles_are_given_out_in_sequence_and_never_again() {
    let mut hub = Hub::new();
    let a = hub.subscribe();
    let b = hub.subscribe();
    assert_eq!((a.id, b.id), (0, 1));
    assert!(hub.unsubscribe(a.id));
    let c = hub.subscribe();
    assert_eq!(c.id, 2);
    assert_eq!(hub.next_id(), 3);
}

#[test]
fn unsubscribing_an_unknown_handle_changes_nothing() {
    let mut hub = Hub::new();
    let mut a = hub.subscribe();
    assert!(!hub.unsubscribe(17));
    assert!(hub.unsubscribe(a.id));
    assert!(!hub.unsubscribe(a.id));
    assert_eq!(hub.subscriber_count(), 0);
    hub.publish(message("late"));
    assert_eq!(a.inbox.try_recv(), Err(TryRecvError::Closed));
}

#[test]
fn publish_with_nobody_subscribed_only_stores() {
    let mut hub = Hub::new();
    assert!(hub.publish(message("alone")).is_empty());
    assert_eq!(contents(&hub.snapshot()), vec!["alone"]);
}

#[test]
fn backlog_is_a_copy() {
    let mut hub = Hub::new();
    hub.publish(message("a"));
    let subscription = hub.subscribe();
    hub.publish(message("b"));
    assert_eq!(contents(&subscription.backlog), vec!["a"]);
}

#[test]
fn full_hub_store_evicts_only_the_oldest() {
    let mut hub = Hub::new();
    for i in 0..100 {
        hub.publish(message(&format!("m{}", i)));
    }
    let before = contents(&hub.snapshot());
    hub.publish(message("extra"));
    let after = contents(&hub.snapshot());
    assert_eq!(after.len(), 100);
    assert_eq!(&after[..99], &before[1..]);
    assert_eq!(after[99], "extra");
}

#[test]
fn interleaved_publishers_keep_their_own_order() {
    let mut hub = Hub::new();
    let mut watcher = hub.subscribe();
    let calls = ["a1", "b1", "a2", "c1", "b2", "a3", "c2"];
    for text in calls {
        hub.publish(message(text));
    }
    let stored = contents(&hub.snapshot());
    assert_eq!(stored, calls);
    assert_eq!(drain(&mut watcher.inbox), calls);
    for session in ["a", "b", "c"] {
        let own: Vec<&String> = stored.iter().filter(|t| t.starts_with(session)).collect();
        let sent: Vec<&str> = calls.iter().copied().filter(|t| t.starts_with(session)).collect();
        assert_eq!(own, sent);
    }
}

#[test]
fn others_coming_and_going_change_nothing_for_one_who_stays() {
    let mut hub = Hub::new();
    let mut stayer = hub.subscribe();
    hub.publish(message("1"));
    let guest = hub.subscribe();
    hub.publish(message("2"));
    let dropped = hub.subscribe();
    drop(dropped.inbox);
    hub.publish(message("3"));
    assert!(hub.unsubscribe(guest.id));
    hub.publish(message("4"));
    assert_eq!(drain(&mut stayer.inbox), vec!["1", "2", "3", "4"]);
    assert_eq!(contents(&hub.snapshot()), vec!["1", "2", "3", "4"]);
}

#[test]
fn publications_far_apart_sit_as_far_from_the_end_of_the_store() {
    let mut hub = Hub::new();
    for i in 0..150 {
        hub.publish(message(&format!("m{}", i)));
    }
    let stored = contents(&hub.snapshot());
    assert_eq!(stored[stored.len() - (150 - 60)], "m60");
    assert_eq!(stored[stored.len() - (150 - 149)], "m149");
}
