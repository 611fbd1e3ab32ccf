//! Errors raised while generating or validating the RTU model.

use vstd::prelude::*;

verus! {

use vstd::string::StringExecFns;

/// Why an RTU could not be generated from the configuration file, or why a
/// generated one was rejected.  I/O and parse failures reach the hub as the
/// reporting layer's message text.
#[derive(Debug, PartialEq)]
pub enum RTUError {
    /// The configuration file is missing.
    FileNotFound,
    /// Reading the configuration file failed.
    IOError(String),
    /// The configuration file is present but not readable.
    PermissionError,
    /// The configuration file does not parse as an RTU.
    SerdeParseError(String),
    /// The parsed RTU breaks one of the topology rules.
    ValidationError { key: String, value: String, msg: String },
}

impl RTUError {
    /// The human-readable rendering of this error.
    pub open spec fn spec_message(&self) -> Seq<char> {
        match self {
            RTUError::FileNotFound => "Configuration file not found at /etc/NavasotaBrewing/rtu_conf.yaml"@,
            RTUError::IOError(e) => "IO error: "@ + e@,
            RTUError::PermissionError => "Permission error, cannot access /etc/NavasotaBrewing/rtu_conf.yaml"@,
            RTUError::SerdeParseError(e) => "Serde parse error: "@ + e@,
            RTUError::ValidationError { key, value, msg } => "Validation Error for (k,v) = (`"@
                + key@ + "`,`"@ + value@ + "`): "@ + msg@,
        }
    }

    /// Renders the error for logs and replies.
    pub fn message(&self) -> (r: String)
        ensures
            r@ == self.spec_message(),
    {
        match self {
            RTUError::FileNotFound => "Configuration file not found at /etc/NavasotaBrewing/rtu_conf.yaml".to_owned(),
            RTUError::IOError(e) => "IO error: ".to_owned().concat(e.as_str()),
            RTUError::PermissionError => "Permission error, cannot access /etc/NavasotaBrewing/rtu_conf.yaml".to_owned(),
            RTUError::SerdeParseError(e) => "Serde parse error: ".to_owned().concat(e.as_str()),
            RTUError::ValidationError { key, value, msg } => "Validation Error for (k,v) = (`"
                .to_owned()
                .concat(key.as_str())
                .concat("`,`")
                .concat(value.as_str())
                .concat("`): ")
                .concat(msg.as_str()),
        }
    }

    /// Constructs a `RTUError::ValidationError` from the offending key/value
    /// pair and a description of the rule it breaks.
    pub fn validation_error(key_value: (&str, &str), message: &str) -> (e: RTUError)
        ensures
            e matches RTUError::ValidationError { key, value, msg } && key@ == key_value.0@
                && value@ == key_value.1@ && msg@ == message@,
    {
        RTUError::ValidationError {
            key: key_value.0.to_owned(),
            value: key_value.1.to_owned(),
            msg: message.to_owned(),
        }
    }
}

} // verus!
