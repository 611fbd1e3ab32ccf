//! The event dispatcher: interprets one inbound event and decides, step by
//! step, which device the hardware driver must touch next and what the
//! outbound result is.
//!
//! Hardware access happens outside the hub, one device at a time.  A
//! [`DeviceBatch`] holds the dispatcher's whole decision state for one
//! batch: the caller asks [`DeviceBatch::next_device`] which device to
//! touch, performs the read or write, records the outcome, and repeats
//! until [`DeviceBatch::done`]; [`DeviceBatch::response`] then builds the
//! outbound event.  Every policy — order kept, partial failure, pacing,
//! halting — is decided here and proved.

use vstd::prelude::*;

use crate::event::{Event, EventType};
use crate::incoming_event::{IncomingEvent, IncomingEventType};
use crate::model::{Device, DeviceView, RTU, RtuView, clone_devices, device_views};
use crate::outgoing_event::{
    OutgoingData, OutgoingDataView, OutgoingEvent, OutgoingEventType, OutgoingEventView,
    spec_error,
};
use crate::text::{dec_rep, u64_to_string};

verus! {

use vstd::string::StringExecFns;

broadcast use crate::model::lemma_device_views_index;

/// The message reporting a batch that named no devices.
pub open spec fn spec_got_event_msg(kind: EventType, n: nat) -> Seq<char> {
    (match kind {
        EventType::DeviceUpdate => "Got DeviceUpdate event with "@,
        EventType::DeviceEnact => "Got DeviceEnact event with "@,
    }) + dec_rep(n) + " devices"@
}

/// The message reporting how many devices of a batch failed.
pub open spec fn spec_errors_msg(n: nat) -> Seq<char> {
    dec_rep(n) + " devices encountered errors. See logs for more details."@
}

/// The message reporting a fully successful batch.
pub open spec fn spec_success_msg(kind: EventType, n: nat) -> Seq<char> {
    dec_rep(n) + (match kind {
        EventType::DeviceUpdate => " devices updated successfully"@,
        EventType::DeviceEnact => " devices enacted successfully"@,
    })
}

/// The response type of a fully successful batch.
pub open spec fn spec_result_type(kind: EventType) -> OutgoingEventType {
    match kind {
        EventType::DeviceUpdate => OutgoingEventType::DeviceUpdateResult,
        EventType::DeviceEnact => OutgoingEventType::DeviceEnactResult,
    }
}

/// Mathematical model of a [`DeviceBatch`].
pub struct BatchView {
    /// Whether the batch reads from or writes to hardware.
    pub kind: EventType,
    /// The requested devices, in request order.
    pub devices: Seq<DeviceView>,
    /// Milliseconds to wait between two writes.
    pub time_between: u64,
    /// Whether a failure stops the rest of the batch.
    pub halt_if_error: bool,
    /// How many devices have been attempted.
    pub idx: int,
    /// Whether a failure stopped the batch early.
    pub halted: bool,
    /// The devices whose hardware call succeeded, in attempt order.
    pub succeeded: Seq<DeviceView>,
    /// The devices whose hardware call failed, in attempt order.
    pub failed: Seq<DeviceView>,
}

/// What every reachable batch state satisfies.
pub open spec fn batch_wf(b: BatchView) -> bool {
    &&& 0 <= b.idx <= b.devices.len()
    &&& b.succeeded.len() + b.failed.len() == b.idx
    &&& (b.halted ==> b.halt_if_error && b.kind == EventType::DeviceEnact && b.failed.len() > 0)
    &&& (b.failed.len() == 0 ==> b.succeeded.len() == b.idx && (forall|k: int|
        0 <= k < b.idx ==> (#[trigger] b.succeeded[k]).id == b.devices[k].id))
    &&& (b.kind == EventType::DeviceEnact && b.failed.len() == 0 ==> (forall|k: int|
        0 <= k < b.idx ==> #[trigger] b.succeeded[k] == b.devices[k]))
}

/// Whether the batch has finished: every device attempted, or halted early.
pub open spec fn spec_done(b: BatchView) -> bool {
    b.halted || b.idx == b.devices.len()
}

/// The device the hardware driver must touch next, if any.
pub open spec fn spec_next(b: BatchView) -> Option<DeviceView> {
    if spec_done(b) {
        None
    } else {
        Some(b.devices[b.idx])
    }
}

/// The wait owed before the next write: the pacing delay stands between
/// two writes, neither before the first nor after the last.
pub open spec fn spec_delay_before_next(b: BatchView) -> u64 {
    if b.kind == EventType::DeviceEnact && !spec_done(b) && b.idx > 0 {
        b.time_between
    } else {
        0
    }
}

/// The outbound event a finished batch reports.
pub open spec fn spec_batch_response(b: BatchView) -> OutgoingEventView {
    if b.devices.len() == 0 {
        spec_error(
            spec_got_event_msg(b.kind, b.devices.len()),
            OutgoingDataView::Devices(b.devices),
        )
    } else if b.failed.len() > 0 {
        spec_error(spec_errors_msg(b.failed.len()), OutgoingDataView::Devices(b.failed))
    } else {
        OutgoingEventView {
            response_type: spec_result_type(b.kind),
            message: Some(spec_success_msg(b.kind, b.succeeded.len())),
            data: OutgoingDataView::Devices(b.succeeded),
        }
    }
}

/// The decision state of one device batch.
///
/// The caller owns the hardware loop; this type owns every decision in it.
pub struct DeviceBatch {
    kind: EventType,
    devices: Vec<Device>,
    time_between: u64,
    halt_if_error: bool,
    idx: usize,
    halted: bool,
    succeeded: Vec<Device>,
    failed: Vec<Device>,
}

impl View for DeviceBatch {
    type V = BatchView;

    closed spec fn view(&self) -> BatchView {
        BatchView {
            kind: self.kind,
            devices: device_views(self.devices@),
            time_between: self.time_between,
            halt_if_error: self.halt_if_error,
            idx: self.idx as int,
            halted: self.halted,
            succeeded: device_views(self.succeeded@),
            failed: device_views(self.failed@),
        }
    }
}

impl DeviceBatch {
    /// Starts a batch over the given devices with the given policies.
    pub fn new(kind: EventType, devices: Vec<Device>, time_between: u64, halt_if_error: bool) -> (b:
        Self)
        ensures
            b@ == (BatchView {
                kind,
                devices: device_views(devices@),
                time_between,
                halt_if_error,
                idx: 0,
                halted: false,
                succeeded: Seq::<DeviceView>::empty(),
                failed: Seq::<DeviceView>::empty(),
            }),
            batch_wf(b@),
    {
        let b = DeviceBatch {
            kind,
            devices,
            time_between,
            halt_if_error,
            idx: 0,
            halted: false,
            succeeded: Vec::new(),
            failed: Vec::new(),
        };
        proof {
            assert(device_views(Seq::<Device>::empty()) =~= Seq::<DeviceView>::empty());
        }
        b
    }

    /// Starts the batch a device-batch command asks for.
    pub fn from_event(event: Event) -> (b: Self)
        ensures
            b@ == (BatchView {
                kind: event@.event_type,
                devices: event@.devices,
                time_between: event@.time_between,
                halt_if_error: event@.halt_if_error,
                idx: 0,
                halted: false,
                succeeded: Seq::<DeviceView>::empty(),
                failed: Seq::<DeviceView>::empty(),
            }),
            batch_wf(b@),
    {
        Self::new(event.event_type, event.devices, event.time_between, event.halt_if_error)
    }

    /// Whether every device has been dealt with.
    pub fn done(&self) -> (r: bool)
        ensures
            r == spec_done(self@),
    {
        self.halted || self.idx == self.devices.len()
    }

    /// The device the hardware driver must touch next; nothing once the
    /// batch is done.
    pub fn next_device(&self) -> (r: Option<Device>)
        requires
            batch_wf(self@),
        ensures
            match r {
                Some(d) => spec_next(self@) == Some(d@),
                None => spec_next(self@) is None,
            },
    {
        if self.halted || self.idx == self.devices.len() {
            None
        } else {
            Some(self.devices[self.idx].clone())
        }
    }

    /// How many milliseconds the caller owes the bus before the next write.
    pub fn delay_before_next(&self) -> (r: u64)
        requires
            batch_wf(self@),
        ensures
            r == spec_delay_before_next(self@),
    {
        if matches!(self.kind, EventType::DeviceEnact) && !(self.halted || self.idx
            == self.devices.len()) && self.idx > 0 {
            self.time_between
        } else {
            0
        }
    }

    /// Records that the hardware call for the current device succeeded,
    /// carrying the device as the driver left it.  A write hands the device
    /// back unchanged; a read hands back the refreshed device, which keeps
    /// its id.
    pub fn record_success(&mut self, device: Device)
        requires
            batch_wf(old(self)@),
            !spec_done(old(self)@),
            device@.id == old(self)@.devices[old(self)@.idx].id,
            old(self)@.kind == EventType::DeviceEnact ==> device@ == old(self)@.devices[old(
                self,
            )@.idx],
        ensures
            final(self)@ == (BatchView {
                idx: old(self)@.idx + 1,
                succeeded: old(self)@.succeeded.push(device@),
                ..old(self)@
            }),
            batch_wf(final(self)@),
    {
        self.succeeded.push(device);
        let n = self.devices.len();
        proof {
            assert(self.idx < n);
        }
        self.idx = self.idx + 1;
        proof {
            assert(device_views(self.succeeded@) =~= device_views(old(self).succeeded@).push(
                self.succeeded@.last()@,
            ));
        }
    }

    /// Records that the hardware call for the current device failed.  When
    /// the batch halts on error and is a write batch, no further device
    /// will be handed out.
    pub fn record_failure(&mut self, device: Device)
        requires
            batch_wf(old(self)@),
            !spec_done(old(self)@),
            device@.id == old(self)@.devices[old(self)@.idx].id,
        ensures
            final(self)@ == (BatchView {
                idx: old(self)@.idx + 1,
                failed: old(self)@.failed.push(device@),
                halted: old(self)@.halt_if_error && old(self)@.kind == EventType::DeviceEnact,
                ..old(self)@
            }),
            batch_wf(final(self)@),
    {
        self.failed.push(device);
        let n = self.devices.len();
        proof {
            assert(self.idx < n);
        }
        self.idx = self.idx + 1;
        if self.halt_if_error && matches!(self.kind, EventType::DeviceEnact) {
            self.halted = true;
        }
        proof {
            assert(device_views(self.failed@) =~= device_views(old(self).failed@).push(
                self.failed@.last()@,
            ));
        }
    }

    /// Whether the batch reads from or writes to hardware.
    pub fn kind(&self) -> (r: EventType)
        ensures
            r == self@.kind,
    {
        self.kind
    }

    /// How many devices the batch was asked to work through.
    pub fn device_count(&self) -> (r: usize)
        ensures
            r == self@.devices.len(),
    {
        self.devices.len()
    }

    /// How many devices have succeeded so far.
    pub fn succeeded_count(&self) -> (r: usize)
        ensures
            r == self@.succeeded.len(),
    {
        self.succeeded.len()
    }

    /// How many devices have failed so far.
    pub fn failed_count(&self) -> (r: usize)
        ensures
            r == self@.failed.len(),
    {
        self.failed.len()
    }

    /// Builds the outbound event a finished batch reports: an error naming
    /// the failed devices if any call failed, an error if the batch named
    /// no devices at all, and otherwise the result carrying the devices
    /// worked through.
    pub fn response(&self) -> (r: OutgoingEvent)
        requires
            batch_wf(self@),
            spec_done(self@),
        ensures
            r@ == spec_batch_response(self@),
    {
        if self.devices.len() == 0 {
            let prefix: &str = match self.kind {
                EventType::DeviceUpdate => "Got DeviceUpdate event with ",
                EventType::DeviceEnact => "Got DeviceEnact event with ",
            };
            let count = u64_to_string(self.devices.len() as u64);
            let message = prefix.to_owned().concat(count.as_str()).concat(" devices");
            OutgoingEvent::error(message, OutgoingData::Devices(clone_devices(&self.devices)))
        } else if self.failed.len() > 0 {
            let count = u64_to_string(self.failed.len() as u64);
            let message = count.concat(" devices encountered errors. See logs for more details.");
            OutgoingEvent::error(message, OutgoingData::Devices(clone_devices(&self.failed)))
        } else {
            let count = u64_to_string(self.succeeded.len() as u64);
            let message = count.concat(
                match self.kind {
                    EventType::DeviceUpdate => " devices updated successfully",
                    EventType::DeviceEnact => " devices enacted successfully",
                },
            );
            let response_type = match self.kind {
                EventType::DeviceUpdate => OutgoingEventType::DeviceUpdateResult,
                EventType::DeviceEnact => OutgoingEventType::DeviceEnactResult,
            };
            OutgoingEvent::new(
                response_type,
                Some(message),
                OutgoingData::Devices(clone_devices(&self.succeeded)),
            )
        }
    }
}

/// What the dispatcher asks the caller to do for one inbound event.
pub enum DispatchAction {
    /// Work through a device batch against the hardware.
    RunBatch(DeviceBatch),
    /// Enact every device of the attached RTU snapshot, then answer tersely.
    EnactRtu(RTU),
    /// Regenerate the RTU from configuration, then enact it in full.
    ResetRtu,
    /// Nothing to do against hardware: broadcast this reply at once.
    Respond(OutgoingEvent),
}

/// The message reporting an `RTUEnact` event that carried no snapshot.
pub open spec fn spec_missing_rtu_msg() -> Seq<char> {
    "Got RTUEnact event with no RTU attached"@
}

/// Interprets one inbound event: device batches for `DeviceUpdate` and
/// `DeviceEnact`, the attached snapshot for `RTUEnact` (an immediate error
/// when none is attached), and a reset request for `RTUReset`.
pub fn handle_event(event: IncomingEvent) -> (a: DispatchAction)
    ensures
        match event@.event_type {
            IncomingEventType::DeviceUpdate => a matches DispatchAction::RunBatch(b) && b@
                == (BatchView {
                kind: EventType::DeviceUpdate,
                devices: event@.devices,
                time_between: event@.time_between,
                halt_if_error: event@.halt_if_error,
                idx: 0,
                halted: false,
                succeeded: Seq::<DeviceView>::empty(),
                failed: Seq::<DeviceView>::empty(),
            }),
            IncomingEventType::DeviceEnact => a matches DispatchAction::RunBatch(b) && b@
                == (BatchView {
                kind: EventType::DeviceEnact,
                devices: event@.devices,
                time_between: event@.time_between,
                halt_if_error: event@.halt_if_error,
                idx: 0,
                halted: false,
                succeeded: Seq::<DeviceView>::empty(),
                failed: Seq::<DeviceView>::empty(),
            }),
            IncomingEventType::RTUEnact => match event@.rtu {
                Some(rv) => a matches DispatchAction::EnactRtu(r) && r@ == rv,
                None => a matches DispatchAction::Respond(e) && e@ == spec_error(
                    spec_missing_rtu_msg(),
                    OutgoingDataView::Empty,
                ),
            },
            IncomingEventType::RTUReset => a is ResetRtu,
        },
{
    match event.event_type {
        IncomingEventType::DeviceUpdate => DispatchAction::RunBatch(
            DeviceBatch::new(
                EventType::DeviceUpdate,
                event.devices,
                event.time_between,
                event.halt_if_error,
            ),
        ),
        IncomingEventType::DeviceEnact => DispatchAction::RunBatch(
            DeviceBatch::new(
                EventType::DeviceEnact,
                event.devices,
                event.time_between,
                event.halt_if_error,
            ),
        ),
        IncomingEventType::RTUEnact => match event.RTU {
            Some(r) => DispatchAction::EnactRtu(r),
            None => DispatchAction::Respond(
                OutgoingEvent::error(
                    "Got RTUEnact event with no RTU attached".to_owned(),
                    OutgoingData::Empty,
                ),
            ),
        },
        IncomingEventType::RTUReset => DispatchAction::ResetRtu,
    }
}

/// The batch that enacts a whole RTU snapshot: every device in snapshot
/// order, no pacing, and halting on the first failure.
pub fn rtu_enact_batch(rtu: RTU) -> (b: DeviceBatch)
    ensures
        b@ == (BatchView {
            kind: EventType::DeviceEnact,
            devices: rtu@.devices,
            time_between: 0,
            halt_if_error: true,
            idx: 0,
            halted: false,
            succeeded: Seq::<DeviceView>::empty(),
            failed: Seq::<DeviceView>::empty(),
        }),
        batch_wf(b@),
{
    DeviceBatch::new(EventType::DeviceEnact, rtu.devices, 0, true)
}

/// The terse reply of a whole-RTU enact: no per-device payload.
pub open spec fn spec_rtu_enact_response(b: BatchView) -> OutgoingEventView {
    if b.failed.len() > 0 {
        spec_error(spec_errors_msg(b.failed.len()), OutgoingDataView::Empty)
    } else {
        OutgoingEventView {
            response_type: OutgoingEventType::RTUEnactResult,
            message: Some("RTU enacted successfully"@),
            data: OutgoingDataView::Empty,
        }
    }
}

/// Builds the terse outbound event of a finished whole-RTU enact.
pub fn rtu_enact_response(b: &DeviceBatch) -> (r: OutgoingEvent)
    requires
        batch_wf(b@),
        spec_done(b@),
    ensures
        r@ == spec_rtu_enact_response(b@),
{
    let failed = b.failed_count();
    if failed > 0 {
        let count = u64_to_string(failed as u64);
        let message = count.concat(" devices encountered errors. See logs for more details.");
        OutgoingEvent::error(message, OutgoingData::Empty)
    } else {
        OutgoingEvent::new(
            OutgoingEventType::RTUEnactResult,
            Some("RTU enacted successfully".to_owned()),
            OutgoingData::Empty,
        )
    }
}

/// The batch that resets the RTU: the freshly generated configuration is
/// enacted in full, with the default pacing and without halting, and its
/// outcome is reported as a device enact result.
pub fn rtu_reset_batch(generated: RTU) -> (b: DeviceBatch)
    ensures
        b@ == (BatchView {
            kind: EventType::DeviceEnact,
            devices: generated@.devices,
            time_between: 300,
            halt_if_error: false,
            idx: 0,
            halted: false,
            succeeded: Seq::<DeviceView>::empty(),
            failed: Seq::<DeviceView>::empty(),
        }),
        batch_wf(b@),
{
    let time_between = crate::defaults::default_time_between();
    let halt_if_error = crate::defaults::halt_events_if_error();
    DeviceBatch::new(EventType::DeviceEnact, generated.devices, time_between, halt_if_error)
}

/// Law: a reset derives everything from the configuration snapshot alone,
/// so two resets from the same configuration plan the same write sequence,
/// and two runs in which every write succeeds leave the same desired
/// device state — the configured one.  (What hardware reads back afterward
/// may of course differ between runs.)
pub proof fn lemma_rtu_reset_idempotent(c: RtuView, b1: BatchView, b2: BatchView)
    requires
        batch_wf(b1),
        batch_wf(b2),
        b1.kind == EventType::DeviceEnact,
        b2.kind == EventType::DeviceEnact,
        b1.devices == c.devices,
        b2.devices == c.devices,
        !b1.halt_if_error,
        !b2.halt_if_error,
        spec_done(b1),
        spec_done(b2),
        b1.failed.len() == 0,
        b2.failed.len() == 0,
    ensures
        b1.succeeded =~= c.devices,
        b2.succeeded =~= c.devices,
        b1.succeeded =~= b2.succeeded,
{
}

/// Law: a batch that does not halt on error accounts for every requested
/// device — each one lands in the success list or in the failure list,
/// nothing is silently dropped.
pub proof fn lemma_batch_nothing_dropped(b: BatchView)
    requires
        batch_wf(b),
        !b.halt_if_error,
        spec_done(b),
    ensures
        b.succeeded.len() + b.failed.len() == b.devices.len(),
{
}

/// Law: in a write batch that halts on error, recording a failure finishes
/// the batch at once — the devices after the failed one are never handed
/// out for a hardware call.
pub proof fn lemma_enact_halts_after_failure(b: BatchView, d: DeviceView)
    requires
        batch_wf(b),
        !spec_done(b),
        b.halt_if_error,
        b.kind == EventType::DeviceEnact,
    ensures
        ({
            let after = BatchView { idx: b.idx + 1, failed: b.failed.push(d), halted: true, ..b };
            spec_done(after) && spec_next(after) is None
        }),
{
}

} // verus!
