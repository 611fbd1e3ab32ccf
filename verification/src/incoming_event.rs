//! Inbound events: the messages a client sends through its channel.
//! The opposite of an outgoing event.

use vstd::prelude::*;

use crate::model::{Device, DeviceView, RTU, RtuView, device_views};

verus! {

/// The kinds of inbound event.
#[derive(Debug, Clone, Copy, PartialEq, Eq, Structural)]
pub enum IncomingEventType {
    /// Enacts all the devices sent.
    DeviceEnact,
    /// Enacts all devices on the attached RTU snapshot.
    RTUEnact,
    /// Updates all the devices sent.
    DeviceUpdate,
    /// Requests that the RTU is reset to its base configuration.
    RTUReset,
}

/// Mathematical model of an [`IncomingEvent`].
pub struct IncomingEventView {
    pub event_type: IncomingEventType,
    pub devices: Seq<DeviceView>,
    pub rtu: Option<RtuView>,
    pub time_between: u64,
    pub halt_if_error: bool,
}

/// An inbound event.
#[allow(non_snake_case)]
#[derive(Debug)]
pub struct IncomingEvent {
    pub event_type: IncomingEventType,
    /// The devices the event operates on; possibly empty.
    pub devices: Vec<Device>,
    /// An entire RTU snapshot; used for setting scenes.  Only `RTUEnact`
    /// carries one.
    pub RTU: Option<RTU>,
    /// Time in milliseconds to wait between two device writes.  The wait is
    /// added neither before the first write nor after the last.
    pub time_between: u64,
    /// Whether a device failure stops the rest of the batch.
    pub halt_if_error: bool,
}

impl View for IncomingEvent {
    type V = IncomingEventView;

    open spec fn view(&self) -> IncomingEventView {
        IncomingEventView {
            event_type: self.event_type,
            devices: device_views(self.devices@),
            rtu: match self.RTU {
                Some(r) => Some(r@),
                None => None,
            },
            time_between: self.time_between,
            halt_if_error: self.halt_if_error,
        }
    }
}

} // verus!
