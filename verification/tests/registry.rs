use iris::clients::{Client, Clients};
use iris::outgoing_event::{OutgoingEvent, OutgoingEventType};

#[test]
fn test_register_creates_a_placeholder() {
    let mut clients = Clients::new();
    let id = clients.register();
    // A fresh id is a 32-digit simple UUID rendering.
    assert_eq!(id.len(), 32);
    assert!(clients.contains_client(&id));
    // The placeholder has no channel, so nothing is planned for it.
    assert!(clients.send_event_to(OutgoingEvent::lock(), &id).is_none());
    // And a broadcast skips it.
    assert!(clients.send_to_all(OutgoingEvent::lock()).is_empty());
}

#[test]
fn test_two_registrations_get_distinct_ids() {
    let mut clients = Clients::new();
    let a = clients.register();
    let b = clients.register();
    assert_ne!(a, b);
}

#[test]
fn test_attach_then_send() {
    let mut clients = Clients::new();
    let id = clients.register();
    assert!(clients.attach(&id, 7));
    let delivery = clients.send_event_to(OutgoingEvent::unlock(), &id).unwrap();
    assert_eq!(delivery.channel, 7);
    assert_eq!(delivery.event.response_type, OutgoingEventType::Unlock);
    // Attaching to an unknown id changes nothing.
    assert!(!clients.attach("nobody", 9));
    assert!(clients.send_event_to(OutgoingEvent::unlock(), "nobody").is_none());
}

#[test]
fn test_register_then_disconnect_forgets_the_client() {
    let mut clients = Clients::new();
    let id = clients.register();
    assert!(clients.attach(&id, 3));
    // The read loop ended: the connection is reaped.
    clients.remove_client(&id);
    assert!(!clients.contains_client(&id));
    assert!(clients.send_event_to(OutgoingEvent::lock(), &id).is_none());
    // Removing again is harmless.
    clients.remove_client(&id);
    assert!(!clients.contains_client(&id));
}

#[test]
fn test_broadcast_reaches_every_attached_client() {
    let mut clients = Clients::new();
    let a = clients.register();
    let b = clients.register();
    let lurker = clients.register();
    assert!(clients.attach(&a, 1));
    assert!(clients.attach(&b, 2));
    // `lurker` registered but never finished the upgrade: no channel.
    let _ = lurker;
    let result = OutgoingEvent::new(
        OutgoingEventType::DeviceEnactResult,
        Some(String::from("1 devices enacted successfully")),
        iris::outgoing_event::OutgoingData::Empty,
    );
    let deliveries = clients.send_to_all(result);
    // Both attached clients get the same result; the placeholder gets nothing.
    assert_eq!(deliveries.len(), 2);
    let channels: Vec<u64> = deliveries.iter().map(|d| d.channel).collect();
    assert!(channels.contains(&1));
    assert!(channels.contains(&2));
    for d in &deliveries {
        assert_eq!(d.event.response_type, OutgoingEventType::DeviceEnactResult);
        assert_eq!(
            d.event.message.as_deref(),
            Some("1 devices enacted successfully")
        );
    }
}

#[test]
fn test_add_client_replaces_by_id() {
    let mut clients = Clients::new();
    let id = clients.register();
    clients.add_client(
        id.clone(),
        Client { client_id: id.clone(), sender: Some(5) },
    );
    let delivery = clients.send_event_to(OutgoingEvent::lock(), &id).unwrap();
    assert_eq!(delivery.channel, 5);
    // Still a single entry.
    assert_eq!(clients.send_to_all(OutgoingEvent::lock()).len(), 1);
}
