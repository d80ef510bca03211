use slide_sync::hub::{Hub, PollOutcome};

fn expect_message(outcome: PollOutcome) -> String {
    match outcome {
        PollOutcome::Message(m) => m,
        PollOutcome::Empty => panic!("expected a message, subscriber was empty"),
        PollOutcome::Lagged(n) => panic!("expected a message, subscriber lagged by {}", n),
    }
}

#[test]
fn late_subscriber_gets_no_replay() {
    let mut hub = Hub::new(100);
    hub.publish("first".to_string());
    hub.publish("second".to_string());
    let mut sub = hub.subscribe();
    assert!(matches!(hub.poll(&mut sub), PollOutcome::Empty));
    hub.publish("third".to_string());
    assert_eq!(expect_message(hub.poll(&mut sub)), "third");
    assert!(matches!(hub.poll(&mut sub), PollOutcome::Empty));
}

#[test]
fn messages_arrive_in_publish_order() {
    let mut hub = Hub::new(100);
    let mut sub = hub.subscribe();
    hub.publish("a".to_string());
    hub.publish("b".to_string());
    hub.publish("c".to_string());
    assert_eq!(expect_message(hub.poll(&mut sub)), "a");
    assert_eq!(expect_message(hub.poll(&mut sub)), "b");
    assert_eq!(expect_message(hub.poll(&mut sub)), "c");
    assert!(matches!(hub.poll(&mut sub), PollOutcome::Empty));
}

#[test]
fn lagging_subscriber_is_not_dropped() {
    let mut hub = Hub::new(2);
    let mut sub = hub.subscribe();
    hub.publish("m1".to_string());
    hub.publish("m2".to_string());
    hub.publish("m3".to_string());
    hub.publish("m4".to_string());
    hub.publish("m5".to_string());
    match hub.poll(&mut sub) {
        PollOutcome::Lagged(skipped) => assert_eq!(skipped, 3),
        _ => panic!("expected a lag report"),
    }
    assert_eq!(expect_message(hub.poll(&mut sub)), "m4");
    assert_eq!(expect_message(hub.poll(&mut sub)), "m5");
    assert!(matches!(hub.poll(&mut sub), PollOutcome::Empty));
}

#[test]
fn independent_subscribers() {
    let mut hub = Hub::new(100);
    let mut early = hub.subscribe();
    hub.publish("one".to_string());
    let mut late = hub.subscribe();
    hub.publish("two".to_string());
    assert_eq!(expect_message(hub.poll(&mut early)), "one");
    assert_eq!(expect_message(hub.poll(&mut early)), "two");
    assert_eq!(expect_message(hub.poll(&mut late)), "two");
    assert!(matches!(hub.poll(&mut late), PollOutcome::Empty));
}
