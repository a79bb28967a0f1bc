use event_bus::bus::{BusError, ConnectionId, DeliveryFailed, EventBus, Sink};
use event_bus::message::Message;
use event_bus::subscriber::Subscriber;

fn msg(text: &str) -> Message {
    Message::new(text.to_owned())
}

fn shown(bus: &EventBus<Subscriber>, id: ConnectionId) -> String {
    bus.sink(id).expect("registered").message().to_owned()
}

/// A sink that records what it gets and fails on every message it is told to.
struct Recorder {
    got: Vec<String>,
    fail_on: Option<String>,
}

impl Sink for Recorder {
    fn deliver(&mut self, m: &Message) -> Result<(), DeliveryFailed> {
        self.got.push(m.text().to_owned());
        if self.fail_on.as_deref() == Some(m.text()) {
            Err(DeliveryFailed)
        } else {
            Ok(())
        }
    }
}

fn recorder(fail_on: Option<&str>) -> Recorder {
    Recorder { got: Vec::new(), fail_on: fail_on.map(|s| s.to_owned()) }
}

#[test]
fn publish_reaches_both_subscribers() {
    let mut bus = EventBus::new();
    let a = bus.register(recorder(None)).unwrap();
    let b = bus.register(recorder(None)).unwrap();
    let failed = bus.publish(&msg("hello"));
    assert!(failed.is_empty());
    assert_eq!(bus.sink(a).unwrap().got, vec!["hello".to_owned()]);
    assert_eq!(bus.sink(b).unwrap().got, vec!["hello".to_owned()]);
}

#[test]
fn publish_updates_subscriber_display() {
    let mut bus = EventBus::new();
    let a = bus.register(Subscriber::new()).unwrap();
    let b = bus.register(Subscriber::new()).unwrap();
    assert_eq!(shown(&bus, a), "No message yet.");
    bus.publish(&msg("hello"));
    assert_eq!(shown(&bus, a), "hello");
    assert_eq!(shown(&bus, b), "hello");
}

#[test]
fn unregistered_subscriber_receives_nothing() {
    let mut bus = EventBus::new();
    let a = bus.register(recorder(None)).unwrap();
    bus.unregister(a);
    assert!(!bus.contains(a));
    assert!(bus.sink(a).is_none());
    let failed = bus.publish(&msg("hello"));
    assert!(failed.is_empty());
    assert!(bus.is_empty());
}

#[test]
fn messages_arrive_in_publish_order() {
    let mut bus = EventBus::new();
    let a = bus.register(recorder(None)).unwrap();
    bus.publish(&msg("x"));
    bus.publish(&msg("y"));
    assert_eq!(bus.sink(a).unwrap().got, vec!["x".to_owned(), "y".to_owned()]);
}

#[test]
fn last_message_wins_on_display() {
    let mut bus = EventBus::new();
    let a = bus.register(Subscriber::new()).unwrap();
    bus.publish(&msg("x"));
    bus.publish(&msg("y"));
    assert_eq!(shown(&bus, a), "y");
}

#[test]
fn publish_with_no_subscribers_is_a_no_op() {
    let mut bus: EventBus<Subscriber> = EventBus::new();
    let failed = bus.publish(&msg("z"));
    assert!(failed.is_empty());
    assert!(bus.is_empty());
    assert_eq!(bus.len(), 0);
}

#[test]
fn same_logic_twice_gets_two_ids() {
    let mut bus = EventBus::new();
    let a = bus.register(Subscriber::new()).unwrap();
    let b = bus.register(Subscriber::new()).unwrap();
    assert_ne!(a, b);
    bus.unregister(a);
    bus.publish(&msg("still here"));
    assert!(!bus.contains(a));
    assert_eq!(shown(&bus, b), "still here");
    assert_eq!(bus.len(), 1);
}

#[test]
fn unregister_twice_is_harmless() {
    let mut bus = EventBus::new();
    let a = bus.register(recorder(None)).unwrap();
    let b = bus.register(recorder(None)).unwrap();
    bus.unregister(a);
    bus.unregister(a);
    assert_eq!(bus.len(), 1);
    assert!(bus.contains(b));
    bus.publish(&msg("m"));
    assert_eq!(bus.sink(b).unwrap().got, vec!["m".to_owned()]);
}

#[test]
fn unregister_unknown_id_is_a_no_op() {
    let mut bus = EventBus::new();
    let a = bus.register(recorder(None)).unwrap();
    bus.unregister(ConnectionId { value: 99 });
    assert_eq!(bus.len(), 1);
    assert!(bus.contains(a));
}

#[test]
fn failing_sink_does_not_stop_the_others() {
    let mut bus = EventBus::new();
    let a = bus.register(recorder(None)).unwrap();
    let b = bus.register(recorder(Some("boom"))).unwrap();
    let c = bus.register(recorder(None)).unwrap();
    let failed = bus.publish(&msg("boom"));
    assert_eq!(failed, vec![b]);
    assert_eq!(bus.sink(a).unwrap().got, vec!["boom".to_owned()]);
    assert_eq!(bus.sink(b).unwrap().got, vec!["boom".to_owned()]);
    assert_eq!(bus.sink(c).unwrap().got, vec!["boom".to_owned()]);
    let failed = bus.publish(&msg("calm"));
    assert!(failed.is_empty());
    assert_eq!(bus.sink(b).unwrap().got, vec!["boom".to_owned(), "calm".to_owned()]);
}

#[test]
fn ids_are_issued_in_increasing_order() {
    let mut bus = EventBus::new();
    let a = bus.register(recorder(None)).unwrap();
    bus.unregister(a);
    let b = bus.register(recorder(None)).unwrap();
    assert_eq!(a.value, 0);
    assert_eq!(b.value, 1);
    assert_ne!(a, b);
}

#[test]
fn full_bus_refuses_registration() {
    let mut bus = EventBus::with_capacity_limit(1);
    let a = bus.register(recorder(None)).unwrap();
    assert_eq!(bus.register(recorder(None)).err(), Some(BusError::CapacityExceeded));
    assert_eq!(bus.len(), 1);
    bus.unregister(a);
    assert!(bus.register(recorder(None)).is_ok());
}

#[test]
fn zero_capacity_bus_refuses_everyone() {
    let mut bus: EventBus<Subscriber> = EventBus::with_capacity_limit(0);
    assert_eq!(bus.register(Subscriber::new()).err(), Some(BusError::CapacityExceeded));
    assert!(bus.is_empty());
}

#[test]
fn late_subscriber_misses_earlier_messages() {
    let mut bus = EventBus::new();
    let a = bus.register(recorder(None)).unwrap();
    bus.publish(&msg("early"));
    let b = bus.register(recorder(None)).unwrap();
    bus.publish(&msg("late"));
    assert_eq!(bus.sink(a).unwrap().got, vec!["early".to_owned(), "late".to_owned()]);
    assert_eq!(bus.sink(b).unwrap().got, vec!["late".to_owned()]);
}
