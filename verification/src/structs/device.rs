use vstd::prelude::*;

verus! {

/// A device as the fingerprint describes it.
pub struct ParsedDevice {
    /// the fingerprint's visitor id
    pub id: String,
    /// the platform component
    pub os: Option<String>,
    /// the user agent component
    pub browser: Option<String>,
    /// the device kind told by the user agent
    pub device_type: Option<String>,
}

} // verus!
