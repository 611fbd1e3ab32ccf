use iris::event::{Event, EventType};
use iris::incoming_event::{IncomingEvent, IncomingEventType};
use iris::model::{AnyState, BinaryState, Controller, Device, Ipv4, RTU};
use iris::outgoing_event::{OutgoingData, OutgoingEventType};
use iris::ws_handlers::{DeviceBatch, DispatchAction, handle_event, rtu_enact_batch,
    rtu_enact_response, rtu_reset_batch};

fn device(id: &str) -> Device {
    Device {
        id: String::from(id),
        name: String::from("Device"),
        port: String::from("/dev/ttyUSB0"),
        addr: 0,
        controller: Controller::STR1,
        controller_addr: 254,
        state: AnyState::BinaryState(BinaryState::On),
        pv: None,
        sv: None,
    }
}

fn rtu(devices: Vec<Device>) -> RTU {
    RTU {
        name: String::from("Testing RTU"),
        id: String::from("testing-id"),
        ip_addr: Ipv4(0, 0, 0, 0),
        devices,
    }
}

fn incoming(event_type: IncomingEventType, devices: Vec<Device>) -> IncomingEvent {
    IncomingEvent {
        event_type,
        devices,
        RTU: None,
        time_between: 300,
        halt_if_error: false,
    }
}

#[test]
fn test_empty_device_update_is_an_error() {
    let event = incoming(IncomingEventType::DeviceUpdate, vec![]);
    let action = handle_event(event);
    let batch = match action {
        DispatchAction::RunBatch(b) => b,
        _ => panic!("expected a batch"),
    };
    // No hardware call is ever asked for.
    assert!(batch.next_device().is_none());
    assert!(batch.done());
    let response = batch.response();
    assert_eq!(response.response_type, OutgoingEventType::Error);
    assert_eq!(
        response.message.as_deref(),
        Some("Got DeviceUpdate event with 0 devices")
    );
    match response.data {
        OutgoingData::Devices(d) => assert!(d.is_empty()),
        _ => panic!("expected a device payload"),
    }
}

#[test]
fn test_empty_device_enact_is_an_error() {
    let event = incoming(IncomingEventType::DeviceEnact, vec![]);
    let batch = match handle_event(event) {
        DispatchAction::RunBatch(b) => b,
        _ => panic!("expected a batch"),
    };
    let response = batch.response();
    assert_eq!(
        response.message.as_deref(),
        Some("Got DeviceEnact event with 0 devices")
    );
}

#[test]
fn test_enact_batch_accounts_for_every_device() {
    // halt_if_error = false: a failure in the middle drops nothing.
    let mut batch = DeviceBatch::new(
        EventType::DeviceEnact,
        vec![device("a"), device("b"), device("c")],
        300,
        false,
    );
    let d0 = batch.next_device().unwrap();
    assert_eq!(d0.id, "a");
    batch.record_success(d0);
    let d1 = batch.next_device().unwrap();
    assert_eq!(d1.id, "b");
    batch.record_failure(d1);
    let d2 = batch.next_device().unwrap();
    assert_eq!(d2.id, "c");
    batch.record_success(d2);
    assert!(batch.done());
    assert_eq!(batch.succeeded_count() + batch.failed_count(), batch.device_count());
    let response = batch.response();
    assert_eq!(response.response_type, OutgoingEventType::Error);
    assert_eq!(
        response.message.as_deref(),
        Some("1 devices encountered errors. See logs for more details.")
    );
    match response.data {
        OutgoingData::Devices(d) => {
            assert_eq!(d.len(), 1);
            assert_eq!(d[0].id, "b");
        }
        _ => panic!("expected a device payload"),
    }
}

#[test]
fn test_enact_batch_halts_after_first_failure() {
    // halt_if_error = true: after a failure, no further device is handed out.
    let mut batch = DeviceBatch::new(
        EventType::DeviceEnact,
        vec![device("a"), device("b"), device("c")],
        300,
        true,
    );
    let d0 = batch.next_device().unwrap();
    batch.record_failure(d0);
    assert!(batch.done());
    assert!(batch.next_device().is_none());
    assert_eq!(batch.succeeded_count(), 0);
    assert_eq!(batch.failed_count(), 1);
}

#[test]
fn test_update_batch_never_halts() {
    // An update is read-only; halt_if_error has no effect on it.
    let mut batch = DeviceBatch::new(
        EventType::DeviceUpdate,
        vec![device("a"), device("b")],
        300,
        true,
    );
    let d0 = batch.next_device().unwrap();
    batch.record_failure(d0);
    assert!(!batch.done());
    assert_eq!(batch.next_device().unwrap().id, "b");
}

#[test]
fn test_delay_only_between_writes() {
    let mut batch = DeviceBatch::new(
        EventType::DeviceEnact,
        vec![device("a"), device("b")],
        250,
        false,
    );
    // Nothing before the first write.
    assert_eq!(batch.delay_before_next(), 0);
    let d0 = batch.next_device().unwrap();
    batch.record_success(d0);
    // The pacing delay stands between the two writes.
    assert_eq!(batch.delay_before_next(), 250);
    let d1 = batch.next_device().unwrap();
    batch.record_success(d1);
    // Nothing after the last write.
    assert_eq!(batch.delay_before_next(), 0);
}

#[test]
fn test_no_delay_for_updates() {
    let mut batch = DeviceBatch::new(
        EventType::DeviceUpdate,
        vec![device("a"), device("b")],
        250,
        false,
    );
    let d0 = batch.next_device().unwrap();
    batch.record_success(d0);
    assert_eq!(batch.delay_before_next(), 0);
}

#[test]
fn test_successful_batches_report_counts() {
    let mut enact = DeviceBatch::new(
        EventType::DeviceEnact,
        vec![device("a"), device("b")],
        300,
        false,
    );
    let d0 = enact.next_device().unwrap();
    enact.record_success(d0);
    let d1 = enact.next_device().unwrap();
    enact.record_success(d1);
    let response = enact.response();
    assert_eq!(response.response_type, OutgoingEventType::DeviceEnactResult);
    assert_eq!(response.message.as_deref(), Some("2 devices enacted successfully"));

    let mut update = DeviceBatch::new(EventType::DeviceUpdate, vec![device("a")], 300, false);
    let mut refreshed = update.next_device().unwrap();
    refreshed.state = AnyState::BinaryState(BinaryState::Off);
    update.record_success(refreshed);
    let response = update.response();
    assert_eq!(response.response_type, OutgoingEventType::DeviceUpdateResult);
    assert_eq!(response.message.as_deref(), Some("1 devices updated successfully"));
    match response.data {
        OutgoingData::Devices(d) => {
            assert_eq!(d[0].state, AnyState::BinaryState(BinaryState::Off));
        }
        _ => panic!("expected a device payload"),
    }
}

#[test]
fn test_rtu_enact_without_snapshot_is_an_error() {
    let event = incoming(IncomingEventType::RTUEnact, vec![device("a")]);
    match handle_event(event) {
        DispatchAction::Respond(e) => {
            assert_eq!(e.response_type, OutgoingEventType::Error);
            assert_eq!(
                e.message.as_deref(),
                Some("Got RTUEnact event with no RTU attached")
            );
        }
        _ => panic!("expected an immediate reply"),
    }
}

#[test]
fn test_rtu_enact_runs_the_snapshot() {
    let snapshot = rtu(vec![device("a"), device("b")]);
    let mut event = incoming(IncomingEventType::RTUEnact, vec![]);
    event.RTU = Some(snapshot);
    let attached = match handle_event(event) {
        DispatchAction::EnactRtu(r) => r,
        _ => panic!("expected the attached snapshot"),
    };
    let mut batch = rtu_enact_batch(attached);
    assert_eq!(batch.device_count(), 2);
    let d0 = batch.next_device().unwrap();
    batch.record_success(d0);
    let d1 = batch.next_device().unwrap();
    batch.record_success(d1);
    let response = rtu_enact_response(&batch);
    assert_eq!(response.response_type, OutgoingEventType::RTUEnactResult);
    assert_eq!(response.message.as_deref(), Some("RTU enacted successfully"));
    assert_eq!(response.data, OutgoingData::Empty);
}

#[test]
fn test_rtu_enact_halts_and_reports_tersely() {
    let snapshot = rtu(vec![device("a"), device("b")]);
    let mut batch = rtu_enact_batch(snapshot);
    let d0 = batch.next_device().unwrap();
    batch.record_failure(d0);
    // A whole-RTU enact aborts on the first failure.
    assert!(batch.done());
    assert!(batch.next_device().is_none());
    let response = rtu_enact_response(&batch);
    assert_eq!(response.response_type, OutgoingEventType::Error);
    assert_eq!(
        response.message.as_deref(),
        Some("1 devices encountered errors. See logs for more details.")
    );
    assert_eq!(response.data, OutgoingData::Empty);
}

#[test]
fn test_rtu_reset_is_repeatable() {
    // A reset derives everything from the configuration snapshot, so two
    // resets from the same configuration plan the same writes and end in
    // the same device state.
    let config = rtu(vec![device("a"), device("b")]);
    let mut outcomes: Vec<Vec<Device>> = Vec::new();
    for _ in 0..2 {
        let mut batch = rtu_reset_batch(config.clone());
        let mut finished: Vec<Device> = Vec::new();
        while let Some(d) = batch.next_device() {
            finished.push(d.clone());
            batch.record_success(d);
        }
        let response = batch.response();
        assert_eq!(response.response_type, OutgoingEventType::DeviceEnactResult);
        match response.data {
            OutgoingData::Devices(d) => assert_eq!(d, config.devices),
            _ => panic!("expected a device payload"),
        }
        outcomes.push(finished);
    }
    assert_eq!(outcomes[0], outcomes[1]);
}

#[test]
fn test_batch_from_device_command() {
    let command = Event {
        event_type: EventType::DeviceEnact,
        devices: vec![device("a")],
        time_between: 150,
        halt_if_error: true,
    };
    let mut batch = DeviceBatch::from_event(command);
    assert_eq!(batch.device_count(), 1);
    assert_eq!(batch.kind(), EventType::DeviceEnact);
    let d = batch.next_device().unwrap();
    batch.record_success(d);
    let response = batch.response();
    assert_eq!(response.message.as_deref(), Some("1 devices enacted successfully"));
}

#[test]
fn test_rtu_reset_dispatch() {
    let event = incoming(IncomingEventType::RTUReset, vec![]);
    assert!(matches!(handle_event(event), DispatchAction::ResetRtu));
}
