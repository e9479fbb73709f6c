//! The UI's handle on an enumerated device: just its URI.

use vstd::prelude::*;
use vstd::string::StringExecFns;

verus! {

/// A device as listed by enumeration. The URI is the only thing the UI needs
/// to ask for a connection; everything else is learned over the event stream.
#[derive(Debug, Clone, PartialEq, Eq)]
pub struct Device {
    pub uri: String,
}

impl Device {
    /// Builds a device entry from its URI.
    pub fn from_uri(uri: &str) -> (r: Device)
        ensures
            r.uri@ == uri@,
    {
        Device { uri: String::from_str(uri) }
    }
}

} // verus!
