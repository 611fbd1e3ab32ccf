//! The digital representation of one RTU: its identity, its address, and
//! the ordered list of devices attached to it.

use vstd::prelude::*;

use crate::model::device::{Device, DeviceView, device_views};
use crate::model::rtu_error::RTUError;
use crate::model::validators;
use crate::text::str_eq;

verus! {

/// An IPv4 address, as its four octets.
#[derive(Debug, Clone, Copy, PartialEq, Eq, Structural)]
pub struct Ipv4(pub u8, pub u8, pub u8, pub u8);

/// Mathematical model of an [`RTU`].
pub struct RtuView {
    pub name: Seq<char>,
    pub id: Seq<char>,
    pub ip_addr: Ipv4,
    pub devices: Seq<DeviceView>,
}

/// A digital representation of an RTU.
///
/// This is deserialized from a configuration file at startup, and is also
/// the snapshot exchanged between the hub and its clients.  It is the single
/// source of truth for desired and last-known hardware state.
#[derive(Debug, PartialEq)]
pub struct RTU {
    /// The RTU name, for display purposes.
    pub name: String,
    /// The RTU id; unique among all RTUs, and free of whitespace.
    pub id: String,
    /// The IP address of the RTU.
    pub ip_addr: Ipv4,
    /// The devices connected to the RTU, in configuration order.
    pub devices: Vec<Device>,
}

impl View for RTU {
    type V = RtuView;

    open spec fn view(&self) -> RtuView {
        RtuView {
            name: self.name@,
            id: self.id@,
            ip_addr: self.ip_addr,
            devices: device_views(self.devices@),
        }
    }
}

impl Clone for RTU {
    /// A clone carries exactly the same model.
    fn clone(&self) -> (r: Self)
        ensures
            r@ == self@,
    {
        RTU {
            name: self.name.clone(),
            id: self.id.clone(),
            ip_addr: self.ip_addr,
            devices: crate::model::device::clone_devices(&self.devices),
        }
    }
}

/// The first device of `s` whose id is `id`, if any.
pub open spec fn find_by_id(s: Seq<DeviceView>, id: Seq<char>) -> Option<DeviceView>
    decreases s.len(),
{
    if s.len() == 0 {
        None
    } else if s.first().id == id {
        Some(s.first())
    } else {
        find_by_id(s.drop_first(), id)
    }
}

/// `find_by_id` returns the element at the first position carrying `id`.
pub proof fn lemma_find_by_id_first(s: Seq<DeviceView>, id: Seq<char>, k: int)
    requires
        0 <= k < s.len(),
        s[k].id == id,
        forall|j: int| 0 <= j < k ==> s[j].id != id,
    ensures
        find_by_id(s, id) == Some(s[k]),
    decreases k,
{
    if k == 0 {
    } else {
        lemma_find_by_id_first(s.drop_first(), id, k - 1);
    }
}

/// When no element carries `id`, `find_by_id` returns nothing.
pub proof fn lemma_find_by_id_none(s: Seq<DeviceView>, id: Seq<char>)
    requires
        forall|j: int| 0 <= j < s.len() ==> s[j].id != id,
    ensures
        find_by_id(s, id) is None,
    decreases s.len(),
{
    if s.len() > 0 {
        lemma_find_by_id_none(s.drop_first(), id);
    }
}

impl RTU {
    /// Looks a device up by id, returning the position of the first match.
    pub fn find_device(&self, id: &str) -> (r: Option<usize>)
        ensures
            match r {
                Some(i) => i < self@.devices.len() && self@.devices[i as int].id == id@
                    && (forall|j: int| 0 <= j < i ==> self@.devices[j].id != id@)
                    && find_by_id(self@.devices, id@) == Some(self@.devices[i as int]),
                None => find_by_id(self@.devices, id@) is None,
            },
    {
        let mut i: usize = 0;
        while i < self.devices.len()
            invariant
                i <= self.devices.len(),
                forall|j: int| 0 <= j < i ==> self@.devices[j].id != id@,
            decreases self.devices.len() - i,
        {
            if str_eq(self.devices[i].id.as_str(), id) {
                proof {
                    lemma_find_by_id_first(self@.devices, id@, i as int);
                }
                return Some(i);
            }
            i += 1;
        }
        proof {
            lemma_find_by_id_none(self@.devices, id@);
        }
        None
    }

    /// Runs all the topology validators; the RTU is accepted exactly when
    /// every one of them passes.
    pub fn validate(&self) -> (r: Result<(), RTUError>)
        ensures
            r is Ok <==> validators::spec_rtu_valid(self@),
            r matches Err(e) ==> e is ValidationError,
    {
        if let Err(e) = validators::devices_have_unique_ids(self) {
            return Err(e);
        }
        if let Err(e) = validators::id_has_no_whitespace(self) {
            return Err(e);
        }
        if let Err(e) = validators::serial_port_is_valid(self) {
            return Err(e);
        }
        Ok(())
    }
}

} // verus!
