//! A device-batch command: the part of an inbound event that names devices
//! and the policies for working through them.

use vstd::prelude::*;

use crate::model::{Device, DeviceView, device_views};

verus! {

/// What a device batch asks for.
#[derive(Debug, Clone, Copy, PartialEq, Eq, Structural)]
pub enum EventType {
    /// Write each named device's desired state to hardware.
    DeviceEnact,
    /// Read each named device's state from hardware into the model.
    DeviceUpdate,
}

/// Mathematical model of an [`Event`].
pub struct EventView {
    pub event_type: EventType,
    pub devices: Seq<DeviceView>,
    pub time_between: u64,
    pub halt_if_error: bool,
}

/// A command over a list of devices.
///
/// Usually the list holds one device, but it is a list so that a client can
/// operate on several devices at once.
#[derive(Debug)]
pub struct Event {
    pub event_type: EventType,
    /// The devices to work through, in order; the order is kept.
    pub devices: Vec<Device>,
    /// Time in milliseconds to wait between two device writes.  The wait is
    /// added neither before the first write nor after the last.
    pub time_between: u64,
    /// Whether a device failure stops the rest of the batch.
    pub halt_if_error: bool,
}

impl View for Event {
    type V = EventView;

    open spec fn view(&self) -> EventView {
        EventView {
            event_type: self.event_type,
            devices: device_views(self.devices@),
            time_between: self.time_between,
            halt_if_error: self.halt_if_error,
        }
    }
}

} // verus!
