//! Outbound events: the replies and broadcasts the hub sends to clients.

use vstd::prelude::*;

use crate::model::{Device, DeviceView, RTU, RtuView, device_views};

verus! {

/// The kinds of outbound event.
#[derive(Debug, Clone, Copy, PartialEq, Eq, Structural)]
pub enum OutgoingEventType {
    /// Something went wrong; the message says what.
    Error,
    /// Clients should suspend UI interaction: the store is being mutated.
    Lock,
    /// Clients may resume UI interaction.
    Unlock,
    /// The outcome of a device update batch.
    DeviceUpdateResult,
    /// The outcome of a device enact batch.
    DeviceEnactResult,
    /// The terse outcome of enacting a whole RTU snapshot.
    RTUEnactResult,
    /// The full current RTU state.
    RTUSnapshot,
}

/// Mathematical model of [`OutgoingData`].
pub enum OutgoingDataView {
    Devices(Seq<DeviceView>),
    Rtu(RtuView),
    Empty,
}

/// The payload attached to an outbound event.
#[derive(Debug, PartialEq)]
pub enum OutgoingData {
    /// A list of devices.
    Devices(Vec<Device>),
    /// A full RTU snapshot.
    RTU(RTU),
    /// No payload.
    Empty,
}

impl View for OutgoingData {
    type V = OutgoingDataView;

    open spec fn view(&self) -> OutgoingDataView {
        match self {
            OutgoingData::Devices(d) => OutgoingDataView::Devices(device_views(d@)),
            OutgoingData::RTU(r) => OutgoingDataView::Rtu(r@),
            OutgoingData::Empty => OutgoingDataView::Empty,
        }
    }
}

impl Clone for OutgoingData {
    /// A clone carries exactly the same model.
    fn clone(&self) -> (r: Self)
        ensures
            r@ == self@,
    {
        match self {
            OutgoingData::Devices(d) => OutgoingData::Devices(crate::model::clone_devices(d)),
            OutgoingData::RTU(r) => OutgoingData::RTU(r.clone()),
            OutgoingData::Empty => OutgoingData::Empty,
        }
    }
}

/// Mathematical model of an [`OutgoingEvent`].
pub struct OutgoingEventView {
    pub response_type: OutgoingEventType,
    pub message: Option<Seq<char>>,
    pub data: OutgoingDataView,
}

/// An outbound event: a response type, an optional human-readable message,
/// and an optional payload.
#[derive(Debug, PartialEq)]
pub struct OutgoingEvent {
    pub response_type: OutgoingEventType,
    pub message: Option<String>,
    pub data: OutgoingData,
}

/// The model of an optional message string.
pub open spec fn opt_str_view(m: Option<String>) -> Option<Seq<char>> {
    match m {
        Some(s) => Some(s@),
        None => None,
    }
}

impl View for OutgoingEvent {
    type V = OutgoingEventView;

    open spec fn view(&self) -> OutgoingEventView {
        OutgoingEventView {
            response_type: self.response_type,
            message: opt_str_view(self.message),
            data: self.data@,
        }
    }
}

impl Clone for OutgoingEvent {
    /// A clone carries exactly the same model.
    fn clone(&self) -> (r: Self)
        ensures
            r@ == self@,
    {
        OutgoingEvent {
            response_type: self.response_type,
            message: match &self.message {
                Some(m) => Some(m.clone()),
                None => None,
            },
            data: self.data.clone(),
        }
    }
}

/// The model of a `Lock` broadcast.
pub open spec fn spec_lock() -> OutgoingEventView {
    OutgoingEventView {
        response_type: OutgoingEventType::Lock,
        message: None,
        data: OutgoingDataView::Empty,
    }
}

/// The model of an `Unlock` broadcast.
pub open spec fn spec_unlock() -> OutgoingEventView {
    OutgoingEventView {
        response_type: OutgoingEventType::Unlock,
        message: None,
        data: OutgoingDataView::Empty,
    }
}

/// The model of a snapshot broadcast carrying the RTU `r`.
pub open spec fn spec_rtu_snapshot(r: RtuView) -> OutgoingEventView {
    OutgoingEventView {
        response_type: OutgoingEventType::RTUSnapshot,
        message: None,
        data: OutgoingDataView::Rtu(r),
    }
}

/// The model of an error event with message `m` and payload `d`.
pub open spec fn spec_error(m: Seq<char>, d: OutgoingDataView) -> OutgoingEventView {
    OutgoingEventView {
        response_type: OutgoingEventType::Error,
        message: Some(m),
        data: d,
    }
}

/// How many events of the sequence have the given response type.
pub open spec fn count_events(s: Seq<OutgoingEventView>, t: OutgoingEventType) -> nat
    decreases s.len(),
{
    if s.len() == 0 {
        0
    } else {
        count_events(s.drop_last(), t) + (if s.last().response_type == t {
            1nat
        } else {
            0nat
        })
    }
}

impl OutgoingEvent {
    /// Creates a new outbound event.
    pub fn new(response_type: OutgoingEventType, message: Option<String>, data: OutgoingData) -> (r:
        Self)
        ensures
            r@ == (OutgoingEventView {
                response_type,
                message: opt_str_view(message),
                data: data@,
            }),
    {
        Self { response_type, message, data }
    }

    /// Creates a new outbound event, marked as an error.
    pub fn error(message: String, data: OutgoingData) -> (r: Self)
        ensures
            r@ == spec_error(message@, data@),
    {
        Self { response_type: OutgoingEventType::Error, message: Some(message), data }
    }

    /// Creates a snapshot event holding an RTU.
    pub fn rtu(rtu: &RTU) -> (r: Self)
        ensures
            r@ == spec_rtu_snapshot(rtu@),
    {
        Self {
            response_type: OutgoingEventType::RTUSnapshot,
            message: None,
            data: OutgoingData::RTU(rtu.clone()),
        }
    }

    /// Creates a `Lock` event.
    pub fn lock() -> (r: Self)
        ensures
            r@ == spec_lock(),
    {
        Self { response_type: OutgoingEventType::Lock, message: None, data: OutgoingData::Empty }
    }

    /// Creates an `Unlock` event.
    pub fn unlock() -> (r: Self)
        ensures
            r@ == spec_unlock(),
    {
        Self { response_type: OutgoingEventType::Unlock, message: None, data: OutgoingData::Empty }
    }
}

} // verus!
