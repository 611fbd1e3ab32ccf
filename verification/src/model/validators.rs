//! Topology rules checked after an RTU is deserialized from the
//! configuration file.
//!
//! Deserialization only guarantees well-formed syntax; these validators
//! guarantee that the values themselves are usable: device ids unique, ids
//! free of whitespace, serial ports under `/dev`.  Each returns the
//! offending key/value pair when the RTU breaks its rule.

use vstd::prelude::*;

use crate::model::device::DeviceView;
use crate::model::rtu::RTU;
use crate::model::rtu_error::RTUError;
use crate::text::{has_whitespace, is_dev_path, port_is_dev_path, str_has_whitespace};
use crate::text::str_eq;

verus! {

use vstd::string::StrSliceExecFns;

broadcast use crate::model::device::lemma_device_views_index;

/// Some earlier device shares the id of the device at position `j`.
pub open spec fn dup_at(s: Seq<DeviceView>, j: int) -> bool {
    exists|i: int| 0 <= i < j && s[i].id == s[j].id
}

/// No two devices share an id.
pub open spec fn unique_ids(s: Seq<DeviceView>) -> bool {
    forall|i: int, j: int| 0 <= i < j < s.len() ==> s[i].id != s[j].id
}

/// A usable serial port path: non-empty and under `/dev`.
pub open spec fn port_ok(p: Seq<char>) -> bool {
    p.len() > 0 && is_dev_path(p)
}

/// The conjunction of all the topology rules.
pub open spec fn spec_rtu_valid(v: crate::model::rtu::RtuView) -> bool {
    &&& unique_ids(v.devices)
    &&& !has_whitespace(v.id)
    &&& forall|j: int| 0 <= j < v.devices.len() ==> !has_whitespace(#[trigger] v.devices[j].id)
    &&& forall|j: int| 0 <= j < v.devices.len() ==> port_ok(#[trigger] v.devices[j].port)
}

/// Accepts the RTU exactly when each of its devices has a unique id; on the
/// first duplicate, reports that id.
pub fn devices_have_unique_ids(rtu: &RTU) -> (r: Result<(), RTUError>)
    ensures
        r is Ok <==> unique_ids(rtu@.devices),
        r matches Err(e) ==> e matches RTUError::ValidationError { key, value, msg }
            && key@ == "id"@ && msg@ == "duplicate id"@ && exists|j: int|
            0 <= j < rtu@.devices.len() && #[trigger] dup_at(rtu@.devices, j) && (forall|j2: int|
                0 <= j2 < j ==> !dup_at(rtu@.devices, j2)) && value@ == rtu@.devices[j].id,
{
    let ghost s = rtu@.devices;
    let n = rtu.devices.len();
    let mut j: usize = 0;
    while j < n
        invariant
            j <= n,
            n == s.len(),
            s == rtu@.devices,
            forall|j2: int| 0 <= j2 < j ==> !dup_at(s, j2),
        decreases n - j,
    {
        let mut i: usize = 0;
        while i < j
            invariant
                i <= j < n,
                n == s.len(),
                s == rtu@.devices,
                forall|j2: int| 0 <= j2 < j ==> !dup_at(s, j2),
                forall|i2: int| 0 <= i2 < i ==> s[i2].id != s[j as int].id,
            decreases j - i,
        {
            if str_eq(rtu.devices[i].id.as_str(), rtu.devices[j].id.as_str()) {
                proof {
                    let iw = i as int;
                    let jw = j as int;
                    assert(s[iw].id == s[jw].id);
                    assert(dup_at(rtu@.devices, jw));
                    assert(forall|j2: int| 0 <= j2 < jw ==> !dup_at(rtu@.devices, j2));
                }
                return Err(
                    RTUError::validation_error(("id", rtu.devices[j].id.as_str()), "duplicate id"),
                );
            }
            i += 1;
        }
        proof {
            assert(!dup_at(s, j as int));
        }
        j += 1;
    }
    proof {
        assert forall|i: int, j2: int| 0 <= i < j2 < s.len() implies s[i].id != s[j2].id by {
            assert(!dup_at(s, j2));
        }
    }
    Ok(())
}

/// Accepts the RTU exactly when neither its own id nor any device id holds
/// whitespace; reports the first offender.
pub fn id_has_no_whitespace(rtu: &RTU) -> (r: Result<(), RTUError>)
    ensures
        r is Ok <==> !has_whitespace(rtu@.id) && (forall|j: int|
            0 <= j < rtu@.devices.len() ==> !has_whitespace(#[trigger] rtu@.devices[j].id)),
        r matches Err(e) ==> e matches RTUError::ValidationError { key, value, msg }
            && key@ == "id"@ && if has_whitespace(rtu@.id) {
                value@ == rtu@.id && msg@ == "rtu ID cannot contain whitespace"@
            } else {
                msg@ == "device ID cannot contain whitespace"@ && exists|j: int|
                    0 <= j < rtu@.devices.len() && has_whitespace(#[trigger] rtu@.devices[j].id)
                        && (forall|j2: int|
                        0 <= j2 < j ==> !has_whitespace(#[trigger] rtu@.devices[j2].id))
                        && value@ == rtu@.devices[j].id
            },
{
    if str_has_whitespace(rtu.id.as_str()) {
        return Err(
            RTUError::validation_error(("id", rtu.id.as_str()), "rtu ID cannot contain whitespace"),
        );
    }
    let n = rtu.devices.len();
    let mut j: usize = 0;
    while j < n
        invariant
            j <= n,
            n == rtu@.devices.len(),
            !has_whitespace(rtu@.id),
            forall|j2: int| 0 <= j2 < j ==> !has_whitespace(#[trigger] rtu@.devices[j2].id),
        decreases n - j,
    {
        if str_has_whitespace(rtu.devices[j].id.as_str()) {
            proof {
                assert(has_whitespace(rtu@.devices[j as int].id));
            }
            return Err(
                RTUError::validation_error(
                    ("id", rtu.devices[j].id.as_str()),
                    "device ID cannot contain whitespace",
                ),
            );
        }
        j += 1;
    }
    Ok(())
}

/// Accepts the RTU exactly when every device names a serial port under
/// `/dev`; reports the first offender.  The port need not currently exist:
/// a cable may be unplugged without making the configuration wrong.
pub fn serial_port_is_valid(rtu: &RTU) -> (r: Result<(), RTUError>)
    ensures
        r is Ok <==> (forall|j: int|
            0 <= j < rtu@.devices.len() ==> port_ok(#[trigger] rtu@.devices[j].port)),
        r matches Err(e) ==> e matches RTUError::ValidationError { key, value, msg }
            && key@ == "port"@ && exists|j: int|
            0 <= j < rtu@.devices.len() && !port_ok(#[trigger] rtu@.devices[j].port)
                && (forall|j2: int|
                0 <= j2 < j ==> port_ok(#[trigger] rtu@.devices[j2].port)) && value@
                == rtu@.devices[j].port && msg@ == if rtu@.devices[j].port.len() == 0 {
                "serial port cannot be empty"@
            } else {
                "port path must be in /dev/*"@
            },
{
    let n = rtu.devices.len();
    let mut j: usize = 0;
    while j < n
        invariant
            j <= n,
            n == rtu@.devices.len(),
            forall|j2: int| 0 <= j2 < j ==> port_ok(#[trigger] rtu@.devices[j2].port),
        decreases n - j,
    {
        let port = &rtu.devices[j].port;
        if port.as_str().unicode_len() == 0 {
            proof {
                assert(!port_ok(rtu@.devices[j as int].port));
            }
            return Err(
                RTUError::validation_error(("port", port.as_str()), "serial port cannot be empty"),
            );
        }
        if !port_is_dev_path(port.as_str()) {
            proof {
                assert(!port_ok(rtu@.devices[j as int].port));
            }
            return Err(
                RTUError::validation_error(("port", port.as_str()), "port path must be in /dev/*"),
            );
        }
        j += 1;
    }
    Ok(())
}

} // verus!
