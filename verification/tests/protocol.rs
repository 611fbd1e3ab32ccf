use iris::defaults;
use iris::error::{ErrorJson, RequestError};
use iris::model::{AnyState, BinaryState, Controller, Device, Ipv4, RTU, RTUError};
use iris::outgoing_event::{OutgoingData, OutgoingEvent, OutgoingEventType};
use iris::poller::{poll_begin, poll_finish};
use iris::text::{port_is_dev_path, str_has_whitespace, u64_to_string};
use iris::ws::{Audience, ConnState, Connection};

fn device(id: &str) -> Device {
    Device {
        id: String::from(id),
        name: String::from("Device"),
        port: String::from("/dev/ttyUSB0"),
        addr: 0,
        controller: Controller::Waveshare,
        controller_addr: 254,
        state: AnyState::BinaryState(BinaryState::On),
        pv: None,
        sv: None,
    }
}

fn rtu() -> RTU {
    RTU {
        name: String::from("Testing RTU"),
        id: String::from("testing-id"),
        ip_addr: Ipv4(127, 0, 0, 1),
        devices: vec![device("a")],
    }
}

#[test]
fn test_defaults() {
    assert_eq!(defaults::default_time_between(), 300);
    assert!(!defaults::halt_events_if_error());
    assert_eq!(defaults::client_update_interval(), 25);
    assert_eq!(
        defaults::default_rtu_state_config_file(),
        "/etc/NavasotaBrewing/default.yaml"
    );
    assert_eq!(iris::CONFIG_FILE, "/etc/NavasotaBrewing/rtu_conf.yaml");
}

#[test]
fn test_decimal_rendering() {
    assert_eq!(u64_to_string(0), "0");
    assert_eq!(u64_to_string(7), "7");
    assert_eq!(u64_to_string(300), "300");
    assert_eq!(u64_to_string(12345), "12345");
}

#[test]
fn test_whitespace_and_port_checks() {
    assert!(str_has_whitespace("a b"));
    assert!(str_has_whitespace("tab\there"));
    assert!(!str_has_whitespace("no-whitespace"));
    assert!(port_is_dev_path("/dev/ttyUSB0"));
    assert!(port_is_dev_path("/dev"));
    assert!(!port_is_dev_path("/device"));
    assert!(!port_is_dev_path("/etc/different"));
    assert!(!port_is_dev_path("dev/ttyUSB0"));
}

#[test]
fn test_poll_cycle_order() {
    // One iteration: Lock before the refresh; Unlock, then the snapshot, after.
    let store = rtu();
    let lead = poll_begin();
    assert_eq!(lead.response_type, OutgoingEventType::Lock);
    let tail = poll_finish(&store);
    assert_eq!(tail.len(), 2);
    assert_eq!(tail[0].response_type, OutgoingEventType::Unlock);
    assert_eq!(tail[1].response_type, OutgoingEventType::RTUSnapshot);
    match &tail[1].data {
        OutgoingData::RTU(r) => assert_eq!(*r, store),
        _ => panic!("expected the snapshot payload"),
    }
}

#[test]
fn test_connection_lifecycle() {
    let mut conn = Connection::new(String::from("abc"));
    assert_eq!(conn.state, ConnState::Registered);
    conn.begin_handshake();
    assert_eq!(conn.state, ConnState::Handshaking);
    conn.start_streaming();
    assert_eq!(conn.state, ConnState::Streaming);
    conn.terminate();
    assert_eq!(conn.state, ConnState::Terminated);
    assert_eq!(conn.client_id, "abc");
}

#[test]
fn test_handshake_sends_snapshot_to_joiner_only() {
    let store = rtu();
    let mut conn = Connection::new(String::from("abc"));
    conn.begin_handshake();
    let events = conn.handshake_events(&store, None);
    assert_eq!(events.len(), 3);
    assert_eq!(events[0].audience, Audience::AllClients);
    assert_eq!(events[0].event.response_type, OutgoingEventType::Lock);
    assert_eq!(events[1].audience, Audience::ThisClient);
    assert_eq!(events[1].event.response_type, OutgoingEventType::RTUSnapshot);
    assert_eq!(events[2].audience, Audience::AllClients);
    assert_eq!(events[2].event.response_type, OutgoingEventType::Unlock);
}

#[test]
fn test_handshake_failure_carries_last_known_snapshot() {
    let store = rtu();
    let mut conn = Connection::new(String::from("abc"));
    conn.begin_handshake();
    let events = conn.handshake_events(&store, Some(String::from("bus unreachable")));
    assert_eq!(events[1].audience, Audience::ThisClient);
    assert_eq!(events[1].event.response_type, OutgoingEventType::Error);
    assert_eq!(
        events[1].event.message.as_deref(),
        Some("Couldn't update RTU when initializing: bus unreachable")
    );
    match &events[1].event.data {
        OutgoingData::RTU(r) => assert_eq!(*r, store),
        _ => panic!("expected the last-known snapshot"),
    }
}

#[test]
fn test_stepped_state_is_invalid_for_binary_controllers() {
    let mut d = device("a");
    assert!(d.state_ok());
    d.state = AnyState::SteppedState(3);
    assert!(!d.state_ok());
}

#[test]
fn test_error_messages() {
    let not_found = RequestError::DeviceNotFound(String::from("omega1"));
    assert_eq!(
        not_found.message(),
        "Device with ID `omega1` not found on this RTU"
    );
    assert!(not_found.message().contains("not found"));
    let instrument = RequestError::InstrumentError(String::from("timed out"));
    assert_eq!(instrument.message(), "Instrument error: timed out");
    let wrapped = ErrorJson::from(&instrument);
    assert_eq!(wrapped.message(), "Instrument error: timed out");
}

#[test]
fn test_rtu_error_messages() {
    assert_eq!(
        RTUError::FileNotFound.message(),
        "Configuration file not found at /etc/NavasotaBrewing/rtu_conf.yaml"
    );
    assert_eq!(
        RTUError::IOError(String::from("broken pipe")).message(),
        "IO error: broken pipe"
    );
    assert_eq!(
        RTUError::PermissionError.message(),
        "Permission error, cannot access /etc/NavasotaBrewing/rtu_conf.yaml"
    );
    assert_eq!(
        RTUError::SerdeParseError(String::from("bad yaml")).message(),
        "Serde parse error: bad yaml"
    );
    assert_eq!(
        RTUError::validation_error(("port", ""), "serial port cannot be empty").message(),
        "Validation Error for (k,v) = (`port`,``): serial port cannot be empty"
    );
}

#[test]
fn test_find_device() {
    let mut store = rtu();
    store.devices.push(device("b"));
    assert_eq!(store.find_device("a"), Some(0));
    assert_eq!(store.find_device("b"), Some(1));
    assert_eq!(store.find_device("definitely_not_a_device_id"), None);
}

#[test]
fn test_outgoing_event_constructors() {
    let lock = OutgoingEvent::lock();
    assert_eq!(lock.response_type, OutgoingEventType::Lock);
    assert_eq!(lock.message, None);
    assert_eq!(lock.data, OutgoingData::Empty);
    let unlock = OutgoingEvent::unlock();
    assert_eq!(unlock.response_type, OutgoingEventType::Unlock);
    let snapshot = OutgoingEvent::rtu(&rtu());
    assert_eq!(snapshot.response_type, OutgoingEventType::RTUSnapshot);
    let error = OutgoingEvent::error(String::from("boom"), OutgoingData::Empty);
    assert_eq!(error.response_type, OutgoingEventType::Error);
    assert_eq!(error.message.as_deref(), Some("boom"));
}
