use pulsar_core::bus::{Bus, BusError, ModuleSender, OverflowPolicy, Payload};

fn alert(text: &str) -> Payload {
    Payload::Alert { message: text.to_string() }
}

fn alert_text(p: &Payload) -> String {
    match p {
        Payload::Alert { message } => message.clone(),
        _ => panic!("expected an alert payload"),
    }
}

#[test]
fn every_consumer_observes_all_events_in_publish_order() {
    let mut bus = Bus::new(16, OverflowPolicy::Backpressure);
    let consumers = [
        bus.subscribe("monitor"),
        bus.subscribe("logger"),
        bus.subscribe("auditor"),
    ];
    let sender = ModuleSender::new("producer");
    let published = ["one", "two", "three", "four"];
    for text in published {
        bus.publish(&sender, alert(text), false).unwrap();
    }
    for consumer in &consumers {
        for text in published {
            let event = bus.try_recv(consumer).unwrap();
            assert_eq!(alert_text(&event.payload), text);
            assert_eq!(event.header.source, "producer");
            assert!(!event.header.is_threat);
        }
        assert!(bus.try_recv(consumer).is_none());
    }
}

#[test]
fn late_subscriber_starts_with_nothing_pending() {
    let mut bus = Bus::new(4, OverflowPolicy::Backpressure);
    let sender = ModuleSender::new("producer");
    let early = bus.subscribe("early");
    bus.publish(&sender, alert("before"), false).unwrap();
    let late = bus.subscribe("late");
    assert!(bus.try_recv(&late).is_none());
    assert!(bus.try_recv(&early).is_some());
}

#[test]
fn backpressure_refuses_publish_when_a_consumer_is_at_capacity() {
    let mut bus = Bus::new(2, OverflowPolicy::Backpressure);
    let sender = ModuleSender::new("producer");
    let slow = bus.subscribe("slow");
    bus.publish(&sender, alert("a"), false).unwrap();
    bus.publish(&sender, alert("b"), false).unwrap();
    assert_eq!(bus.publish(&sender, alert("c"), false), Err(BusError::Full));
    // Reading one event makes room again, and nothing was lost.
    let event = bus.try_recv(&slow).unwrap();
    assert_eq!(alert_text(&event.payload), "a");
    bus.publish(&sender, alert("c"), false).unwrap();
    assert_eq!(bus.drops(&slow), 0);
}

#[test]
fn drop_oldest_keeps_the_newest_events_and_counts_the_loss() {
    let mut bus = Bus::new(1, OverflowPolicy::DropOldest);
    let sender = ModuleSender::new("producer");
    let slow = bus.subscribe("slow");
    bus.publish(&sender, alert("a"), false).unwrap();
    bus.publish(&sender, alert("b"), false).unwrap();
    bus.publish(&sender, alert("c"), false).unwrap();
    assert_eq!(bus.drops(&slow), 2);
    let event = bus.try_recv(&slow).unwrap();
    assert_eq!(alert_text(&event.payload), "c");
    assert!(bus.try_recv(&slow).is_none());
}

#[test]
fn threat_flag_and_identity_are_stamped_on_the_event() {
    let mut bus = Bus::new(4, OverflowPolicy::Backpressure);
    let sender = ModuleSender::new("process-monitor");
    let consumer = bus.subscribe("logger");
    bus.publish(&sender, alert("suspicious"), true).unwrap();
    let event = bus.try_recv(&consumer).unwrap();
    assert!(event.header.is_threat);
    assert_eq!(event.header.source, "process-monitor");
}
