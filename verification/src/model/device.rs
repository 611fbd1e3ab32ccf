//! One controllable or readable hardware point, addressed through a
//! controller on the RTU's serial bus.

use vstd::prelude::*;

verus! {

/// The kind of controller a device runs on.
#[derive(Debug, Clone, Copy, PartialEq, Eq, Structural)]
pub enum Controller {
    /// An STR1-type relay board.
    STR1,
    /// A Waveshare relay board.
    Waveshare,
    /// A CN7500 PID controller.
    CN7500,
}

/// An on/off state: a relay's position, or a PID controller's run flag.
#[derive(Debug, Clone, Copy, PartialEq, Eq, Structural)]
pub enum BinaryState {
    On,
    Off,
}

/// The state of a device.  Relay boards and PID run flags use the binary
/// variant; a stepped device holds one step out of many.  A device whose
/// controller kind requires binary state must never be enacted with a
/// stepped state: the dispatcher treats that as invalid input.
#[derive(Debug, Clone, Copy, PartialEq, Eq, Structural)]
pub enum AnyState {
    BinaryState(BinaryState),
    SteppedState(u16),
}

/// Mathematical model of a [`Device`].
pub struct DeviceView {
    pub id: Seq<char>,
    pub name: Seq<char>,
    pub port: Seq<char>,
    pub addr: u8,
    pub controller: Controller,
    pub controller_addr: u8,
    pub state: AnyState,
    pub pv: Option<u64>,
    pub sv: Option<u64>,
}

/// A digital representation of a device.
///
/// Devices are not controllers: they operate on controllers, and often many
/// devices share one controller (each relay of a relay board is its own
/// device).  The hub mutates a device only while holding the store lock.
#[derive(Debug, PartialEq)]
pub struct Device {
    /// The ID of the device; must be unique among all devices on the RTU.
    pub id: String,
    /// A pretty name, for display purposes.
    pub name: String,
    /// The serial port the device runs on, e.g. `/dev/ttyUSB0`.
    pub port: String,
    /// The device's address within its controller (relay number and the
    /// like); 0 when the controller gives it no own address.
    pub addr: u8,
    /// The kind of controller the device runs on.
    pub controller: Controller,
    /// The address of the controller on the serial bus.
    pub controller_addr: u8,
    /// The desired (and, after a refresh, last-known) state of the device.
    pub state: AnyState,
    /// The process value a PID controller last measured, as the raw 64-bit
    /// encoding the driver reports.  The hub carries it opaquely.
    pub pv: Option<u64>,
    /// The setpoint value of a PID controller, encoded as `pv` is.
    pub sv: Option<u64>,
}

impl View for Device {
    type V = DeviceView;

    open spec fn view(&self) -> DeviceView {
        DeviceView {
            id: self.id@,
            name: self.name@,
            port: self.port@,
            addr: self.addr,
            controller: self.controller,
            controller_addr: self.controller_addr,
            state: self.state,
            pv: self.pv,
            sv: self.sv,
        }
    }
}

impl Clone for Device {
    /// A clone carries exactly the same model.
    fn clone(&self) -> (r: Self)
        ensures
            r@ == self@,
    {
        Device {
            id: self.id.clone(),
            name: self.name.clone(),
            port: self.port.clone(),
            addr: self.addr,
            controller: self.controller,
            controller_addr: self.controller_addr,
            state: self.state,
            pv: self.pv,
            sv: self.sv,
        }
    }
}

/// Whether a state fits a controller kind.  Every controller in the fleet
/// — the relay boards and the PID's run flag — drives a binary state;
/// handing any of them a stepped state is invalid input, and the driver
/// must refuse to enact it.
pub open spec fn spec_state_ok(controller: Controller, state: AnyState) -> bool {
    match state {
        AnyState::BinaryState(_) => true,
        AnyState::SteppedState(_) => false,
    }
}

impl Device {
    /// Whether this device's state can be enacted on its controller.
    pub fn state_ok(&self) -> (r: bool)
        ensures
            r == spec_state_ok(self.controller, self.state),
    {
        match self.state {
            AnyState::BinaryState(_) => true,
            AnyState::SteppedState(_) => false,
        }
    }
}

/// The models of a sequence of devices.
pub open spec fn device_views(s: Seq<Device>) -> Seq<DeviceView> {
    s.map_values(|d: Device| d@)
}

/// Taking the model of a device sequence commutes with indexing.
pub broadcast proof fn lemma_device_views_index(s: Seq<Device>, i: int)
    requires
        0 <= i < s.len(),
    ensures
        #[trigger] device_views(s)[i] == s[i]@,
{
}

/// Clones a device list; the model is unchanged.
pub fn clone_devices(v: &Vec<Device>) -> (r: Vec<Device>)
    ensures
        device_views(r@) == device_views(v@),
{
    let mut out: Vec<Device> = Vec::new();
    let mut i: usize = 0;
    while i < v.len()
        invariant
            i <= v.len(),
            out@.len() == i,
            forall|k: int| 0 <= k < i ==> (#[trigger] out@[k])@ == v@[k]@,
        decreases v.len() - i,
    {
        out.push(v[i].clone());
        i += 1;
    }
    proof {
        broadcast use lemma_device_views_index;

        assert(device_views(out@) =~= device_views(v@));
    }
    out
}

} // verus!
