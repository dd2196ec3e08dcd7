//! The error taxonomy of configuration resolution.
//!
//! Every error is terminal for the run: the caller reports one diagnostic
//! line and stops, since an invalid invocation must be corrected before
//! any traffic is sent.

use vstd::prelude::*;

verus! {

/// One value for every way the resolution of a configuration can fail.
#[derive(Clone, Copy, Debug, PartialEq, Eq, Structural)]
pub enum ArgsError {
    /// The profile token names no known scan profile.
    InvalidProfile,
    /// A network range is malformed, or two network sources were supplied.
    InvalidNetworkRange,
    /// The network range file could not be read.
    IoError,
    /// An IPv4 or MAC literal is malformed.
    InvalidAddress,
    /// The VLAN id is not an unsigned 16-bit number.
    InvalidVlan,
    /// A timeout or interval expression is malformed or too large.
    InvalidDuration,
    /// The retry count is not an unsigned number.
    InvalidRetryCount,
    /// The output format token names no known format.
    InvalidOutputFormat,
    /// A custom ARP header field is non-numeric or out of range.
    InvalidNumericHeaderField,
}

/// The fixed diagnostic line for each error kind, naming the expected
/// valid form.
pub fn diagnostic_message(e: &ArgsError) -> (m: &'static str)
    ensures
        e is InvalidProfile ==> m@ == "Expected correct profile name (default/fast/stealth/chaos)"@,
        e is InvalidNetworkRange ==> m@ == "Expected valid IPv4 network range"@,
        e is IoError ==> m@ == "Could not open network range file"@,
        e is InvalidAddress ==> m@ == "Expected valid IPv4 or MAC address"@,
        e is InvalidVlan ==> m@ == "Expected valid VLAN identifier"@,
        e is InvalidDuration ==> m@ == "Expected correct duration"@,
        e is InvalidRetryCount ==> m@ == "Expected positive number for host retry count"@,
        e is InvalidOutputFormat ==> m@ == "Expected correct output format (json/yaml/plain)"@,
        e is InvalidNumericHeaderField ==> m@ == "Expected valid ARP header field number"@,
{
    match e {
        ArgsError::InvalidProfile => "Expected correct profile name (default/fast/stealth/chaos)",
        ArgsError::InvalidNetworkRange => "Expected valid IPv4 network range",
        ArgsError::IoError => "Could not open network range file",
        ArgsError::InvalidAddress => "Expected valid IPv4 or MAC address",
        ArgsError::InvalidVlan => "Expected valid VLAN identifier",
        ArgsError::InvalidDuration => "Expected correct duration",
        ArgsError::InvalidRetryCount => "Expected positive number for host retry count",
        ArgsError::InvalidOutputFormat => "Expected correct output format (json/yaml/plain)",
        ArgsError::InvalidNumericHeaderField => "Expected valid ARP header field number",
    }
}

} // verus!
