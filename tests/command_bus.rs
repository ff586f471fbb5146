use bgm_controller::bus::{Bus, Received};

fn message(r: Received) -> String {
    match r {
        Received::Message(m) => m,
        other => panic!("expected a message, got {:?}", other),
    }
}

#[test]
fn fan_out_to_subscribers_present_at_publish() {
    let mut bus = Bus::new(100);
    let ids = [bus.subscribe(), bus.subscribe(), bus.subscribe()];
    bus.publish("one".to_string());
    bus.publish("two".to_string());
    let late = bus.subscribe();
    for id in ids {
        assert_eq!(message(bus.recv(id)), "one");
        assert_eq!(message(bus.recv(id)), "two");
        assert!(matches!(bus.recv(id), Received::Empty));
    }
    assert!(matches!(bus.recv(late), Received::Empty));
    bus.publish("three".to_string());
    assert_eq!(message(bus.recv(late)), "three");
}

#[test]
fn publish_without_subscribers_is_fine() {
    let mut bus = Bus::new(2);
    for i in 0..10 {
        bus.publish(i.to_string());
    }
    let id = bus.subscribe();
    assert!(matches!(bus.recv(id), Received::Empty));
}

#[test]
fn lagging_subscriber_resumes_at_oldest_kept() {
    let mut bus = Bus::new(100);
    let slow = bus.subscribe();
    for i in 0..150 {
        bus.publish(format!("m{}", i));
    }
    assert!(matches!(bus.recv(slow), Received::Lagged(50)));
    for i in 50..150 {
        assert_eq!(message(bus.recv(slow)), format!("m{}", i));
    }
    assert!(matches!(bus.recv(slow), Received::Empty));
}

#[test]
fn unknown_or_departed_subscriber_is_closed() {
    let mut bus = Bus::new(4);
    let id = bus.subscribe();
    assert!(matches!(bus.recv(id + 1), Received::Closed));
    bus.unsubscribe(id);
    bus.publish("x".to_string());
    assert!(matches!(bus.recv(id), Received::Closed));
    assert_eq!(bus.subscriber_count(), 1);
}
