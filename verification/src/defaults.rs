//! Default values for the wire protocol and the background poller.

use vstd::prelude::*;

verus! {

/// Default time in milliseconds to wait between two device writes in a batch.
pub fn default_time_between() -> (r: u64)
    ensures
        r == 300u64,
{
    300
}

/// Default halting policy for a batch: keep going after a device fails.
pub fn halt_events_if_error() -> (r: bool)
    ensures
        r == false,
{
    false
}

/// Seconds between two background refreshes of the shared store.
pub fn client_update_interval() -> (r: u64)
    ensures
        r == 25u64,
{
    25
}

/// Location of the configuration file holding the default device states.
pub fn default_rtu_state_config_file() -> (r: &'static str)
    ensures
        r@ == "/etc/NavasotaBrewing/default.yaml"@,
{
    "/etc/NavasotaBrewing/default.yaml"
}

} // verus!
