use iris::differ::{commit_snapshot, devices_to_enact, diff_batch};
use iris::model::{AnyState, BinaryState, Controller, Device, Ipv4, RTU};

fn device(id: &str, state: AnyState) -> Device {
    Device {
        id: String::from(id),
        name: String::from("Device"),
        port: String::from("/dev/ttyUSB0"),
        addr: 0,
        controller: Controller::STR1,
        controller_addr: 254,
        state,
        pv: None,
        sv: None,
    }
}

fn rtu(devices: Vec<Device>) -> RTU {
    RTU {
        name: String::from("Testing RTU"),
        id: String::from("testing-id"),
        ip_addr: Ipv4(0, 0, 0, 0),
        devices,
    }
}

fn on() -> AnyState {
    AnyState::BinaryState(BinaryState::On)
}

fn off() -> AnyState {
    AnyState::BinaryState(BinaryState::Off)
}

#[test]
fn test_identical_snapshots_plan_no_writes() {
    let current = rtu(vec![device("a", on()), device("b", off())]);
    let incoming = current.clone();
    assert!(devices_to_enact(&incoming, &current).is_empty());
    // The diff batch hands out no device at all.
    let batch = diff_batch(&incoming, &current);
    assert!(batch.next_device().is_none());
    assert!(batch.done());
}

#[test]
fn test_single_state_change_plans_one_write() {
    let current = rtu(vec![device("a", on()), device("b", off()), device("c", on())]);
    let mut incoming = current.clone();
    incoming.devices[1].state = on();
    let planned = devices_to_enact(&incoming, &current);
    assert_eq!(planned.len(), 1);
    assert_eq!(planned[0].id, "b");
    assert_eq!(planned[0].state, on());
}

#[test]
fn test_unknown_device_is_written() {
    let current = rtu(vec![device("a", on())]);
    let mut incoming = current.clone();
    incoming.devices.push(device("new", off()));
    let planned = devices_to_enact(&incoming, &current);
    assert_eq!(planned.len(), 1);
    assert_eq!(planned[0].id, "new");
}

#[test]
fn test_writes_keep_incoming_order() {
    let current = rtu(vec![device("a", on()), device("b", on()), device("c", on())]);
    let mut incoming = current.clone();
    incoming.devices[0].state = off();
    incoming.devices[2].state = off();
    let planned = devices_to_enact(&incoming, &current);
    assert_eq!(planned.len(), 2);
    assert_eq!(planned[0].id, "a");
    assert_eq!(planned[1].id, "c");
}

#[test]
fn test_commit_replaces_only_on_full_success() {
    let mut current = rtu(vec![device("a", on())]);
    let mut incoming = current.clone();
    incoming.devices[0].state = off();

    // All planned writes succeed: the store becomes the incoming snapshot.
    let mut batch = diff_batch(&incoming, &current);
    let d = batch.next_device().unwrap();
    batch.record_success(d);
    assert!(commit_snapshot(&mut current, incoming.clone(), &batch));
    assert_eq!(current, incoming);

    // A write fails: the store keeps its value.
    let mut incoming2 = current.clone();
    incoming2.devices[0].state = on();
    let before = current.clone();
    let mut batch2 = diff_batch(&incoming2, &current);
    let d2 = batch2.next_device().unwrap();
    batch2.record_failure(d2);
    assert!(!commit_snapshot(&mut current, incoming2, &batch2));
    assert_eq!(current, before);
}
