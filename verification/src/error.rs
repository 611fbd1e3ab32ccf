//! Errors returned from device and RTU requests, and their JSON-friendly
//! wrapper.

use vstd::prelude::*;

verus! {

use vstd::string::StringExecFns;

/// Why a device or RTU request failed.
#[derive(Debug, PartialEq)]
pub enum RequestError {
    /// No device with the given ID exists on this RTU.
    DeviceNotFound(String),
    /// The hardware driver reported a failure; its message is carried along.
    InstrumentError(String),
}

impl RequestError {
    /// The human-readable rendering of this error.
    pub open spec fn spec_message(&self) -> Seq<char> {
        match self {
            RequestError::DeviceNotFound(id) => "Device with ID `"@ + id@
                + "` not found on this RTU"@,
            RequestError::InstrumentError(e) => "Instrument error: "@ + e@,
        }
    }

    /// Renders the error for logs and replies.
    pub fn message(&self) -> (r: String)
        ensures
            r@ == self.spec_message(),
    {
        match self {
            RequestError::DeviceNotFound(id) => "Device with ID `".to_owned().concat(
                id.as_str(),
            ).concat("` not found on this RTU"),
            RequestError::InstrumentError(e) => "Instrument error: ".to_owned().concat(e.as_str()),
        }
    }
}

/// A wrapper that carries one error message, shaped for a JSON reply.
#[derive(Debug)]
pub struct ErrorJson {
    error: String,
}

impl View for ErrorJson {
    type V = Seq<char>;

    closed spec fn view(&self) -> Seq<char> {
        self.error@
    }
}

impl ErrorJson {
    /// Wraps a given error in this type.
    pub fn from(error: &RequestError) -> (r: Self)
        ensures
            r@ == error.spec_message(),
    {
        ErrorJson { error: error.message() }
    }

    /// The wrapped message.
    pub fn message(&self) -> (r: &String)
        ensures
            r@ == self@,
    {
        &self.error
    }
}

} // verus!
