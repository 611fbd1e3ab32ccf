//! State-synchronization hub for a fleet of brewing control devices.
//!
//! One control unit ("RTU") carries a set of relays and PID controllers on a
//! shared serial bus.  Several UI clients connect over a duplex channel and
//! must all see the same snapshot of device state; any client may push state
//! changes, which are written to hardware with as few redundant writes as
//! possible.
//!
//! This crate holds the hub's logic: the client registry, the inbound and
//! outbound event protocol, the per-connection handshake, the event
//! dispatcher with its partial-failure policies, the snapshot differ, and the
//! schedule of the background poller.  Everything that touches a socket, a
//! file, or the serial bus itself lives outside, and hands the hub plain
//! values.

use vstd::prelude::*;

pub mod clients;
pub mod defaults;
pub mod differ;
pub mod error;
pub mod event;
pub mod incoming_event;
pub mod model;
pub mod outgoing_event;
pub mod poller;
pub mod text;
pub mod ws;
pub mod ws_handlers;

verus! {

/// Location of the configuration file that describes the device topology.
///
/// This is shared across the whole installation and should remain constant.
pub const CONFIG_FILE: &'static str = "/etc/NavasotaBrewing/rtu_conf.yaml";

} // verus!
