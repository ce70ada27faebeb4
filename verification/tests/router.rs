use futures::sync::mpsc::channel;
use futures::Stream;
use libvirt_proto::router::SendOutcome;
use libvirt_proto::transport::event_outcome;
use libvirt_proto::{
    Delivery, Domain, DomainEvent, EventRegistry, EventStream, EventTable, LibvirtStream,
    TransportError,
};

fn event(name: &str, kind: i32) -> DomainEvent {
    DomainEvent { domain: Domain { name: name.to_string(), uuid: [7; 16], id: 1 }, event: kind, detail: 0 }
}

#[test]
fn table_starts_empty() {
    let table = EventTable::new();
    assert!(!table.contains(0));
    assert!(!table.contains(1));
    assert!(!table.contains(-1));
}

#[test]
fn table_insert_and_remove_track_registrations() {
    let mut table = EventTable::new();
    let (tx1, _rx1) = channel::<DomainEvent>(1);
    let (tx2, _rx2) = channel::<DomainEvent>(1);
    assert!(table.insert(5, tx1).is_none());
    assert!(table.contains(5));
    assert!(!table.contains(6));
    assert!(table.insert(5, tx2).is_some());
    assert!(table.contains(5));
    assert!(table.remove(6).is_none());
    assert!(table.remove(5).is_some());
    assert!(!table.contains(5));
    assert!(table.remove(5).is_none());
}

#[test]
fn deliver_to_a_registered_callback_reaches_its_channel_once() {
    let mut table = EventTable::new();
    let (tx, rx) = channel::<DomainEvent>(4);
    table.insert(3, tx);
    assert_eq!(table.deliver(3, event("vm", 2)), Delivery::Delivered);
    assert!(table.contains(3));
    drop(table);
    let got: Vec<DomainEvent> = rx.wait().map(|r| r.unwrap()).collect();
    assert_eq!(got, vec![event("vm", 2)]);
}

#[test]
fn deliver_to_an_unknown_callback_is_dropped() {
    let mut table = EventTable::new();
    let (tx, rx) = channel::<DomainEvent>(4);
    table.insert(3, tx);
    assert_eq!(table.deliver(4, event("vm", 2)), Delivery::NotSubscribed);
    assert!(table.contains(3));
    assert!(!table.contains(4));
    drop(table);
    let got: Vec<DomainEvent> = rx.wait().map(|r| r.unwrap()).collect();
    assert!(got.is_empty());
}

#[test]
fn deliver_keeps_events_in_order() {
    let mut table = EventTable::new();
    let (tx, rx) = channel::<DomainEvent>(8);
    table.insert(1, tx);
    for kind in 0..5 {
        assert_eq!(table.deliver(1, event("vm", kind)), Delivery::Delivered);
    }
    drop(table);
    let got: Vec<i32> = rx.wait().map(|r| r.unwrap().event).collect();
    assert_eq!(got, vec![0, 1, 2, 3, 4]);
}

#[test]
fn deliver_to_a_closed_channel_reports_it() {
    let mut table = EventTable::new();
    let (tx, rx) = channel::<DomainEvent>(4);
    table.insert(3, tx);
    drop(rx);
    assert_eq!(table.deliver(3, event("vm", 2)), Delivery::Closed);
    assert!(table.contains(3));
}

#[test]
fn deliver_to_a_full_channel_is_rejected() {
    let mut table = EventTable::new();
    let (tx, rx) = channel::<DomainEvent>(0);
    table.insert(3, tx);
    assert_eq!(table.deliver(3, event("vm", 1)), Delivery::Delivered);
    assert_eq!(table.deliver(3, event("vm", 2)), Delivery::Rejected);
    drop(table);
    let got: Vec<i32> = rx.wait().map(|r| r.unwrap().event).collect();
    assert_eq!(got, vec![1]);
}

#[test]
fn delivery_outcomes_decide_whether_reading_goes_on() {
    assert_eq!(event_outcome(Delivery::Delivered), Ok(true));
    assert_eq!(event_outcome(Delivery::NotSubscribed), Ok(true));
    assert_eq!(event_outcome(Delivery::Rejected), Err(TransportError::EventDelivery));
    assert_eq!(event_outcome(Delivery::Closed), Err(TransportError::EventDelivery));
}

#[test]
fn registry_handles_share_one_table() {
    let registry = EventRegistry::new();
    let other = registry.handle();
    let (tx, rx) = channel::<DomainEvent>(4);
    assert!(!other.is_registered(11));
    assert!(registry.register(11, tx).is_none());
    assert!(other.is_registered(11));
    assert_eq!(other.dispatch(11, event("shared", 6)), Delivery::Delivered);
    assert_eq!(other.dispatch(12, event("shared", 6)), Delivery::NotSubscribed);
    assert!(other.unregister(11).is_some());
    assert!(!registry.is_registered(11));
    assert_eq!(registry.dispatch(11, event("shared", 7)), Delivery::NotSubscribed);
    drop(registry);
    drop(other);
    let got: Vec<DomainEvent> = rx.wait().map(|r| r.unwrap()).collect();
    assert_eq!(got, vec![event("shared", 6)]);
}

#[test]
fn stream_wrappers_hold_the_receiver_they_were_given() {
    let (mut tx, rx) = channel::<u32>(2);
    tx.try_send(10).unwrap();
    tx.try_send(20).unwrap();
    drop(tx);
    let stream = EventStream::new(rx);
    let got: Vec<u32> = stream.inner.wait().map(|r| r.unwrap()).collect();
    assert_eq!(got, vec![10, 20]);

    let (mut tx, rx) = channel::<u8>(1);
    tx.try_send(1).unwrap();
    drop(tx);
    let stream = LibvirtStream::new(rx);
    let got: Vec<u8> = stream.inner.wait().map(|r| r.unwrap()).collect();
    assert_eq!(got, vec![1]);
}

#[test]
fn send_outcomes_map_to_deliveries() {
    assert_eq!(Delivery::from_send(SendOutcome::Sent), Delivery::Delivered);
    assert_eq!(Delivery::from_send(SendOutcome::Full), Delivery::Rejected);
    assert_eq!(Delivery::from_send(SendOutcome::Closed), Delivery::Closed);
}
