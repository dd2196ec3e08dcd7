//! A plain MAC address value, parsed from text by the pnet crate.
//!
//! The logic only carries the six octets; what exactly pnet's textual
//! MAC grammar accepts is left to pnet and named, not restated.

use vstd::prelude::*;

use crate::errors::ArgsError;

verus! {

/// A MAC address as six plain octets.
#[derive(Clone, Copy, Debug, PartialEq, Eq, Structural)]
pub struct MacAddress {
    pub b0: u8,
    pub b1: u8,
    pub b2: u8,
    pub b3: u8,
    pub b4: u8,
    pub b5: u8,
}

impl View for MacAddress {
    type V = Seq<u8>;

    open spec fn view(&self) -> Seq<u8> {
        seq![self.b0, self.b1, self.b2, self.b3, self.b4, self.b5]
    }
}

#[verifier::external_type_specification]
#[verifier::external_body]
pub struct ExParseMacAddrErr(pnet::util::ParseMacAddrErr);

/// The octets that pnet's MAC address grammar reads from `s`, or
/// nothing when `s` is not a MAC literal of that grammar. The result
/// depends on the characters of `s` alone.
pub uninterp spec fn mac_parse(s: Seq<char>) -> Option<Seq<u8>>;

/// Relies on pnet's `MacAddr` `FromStr`: colon-separated hex components,
/// six octets out, the result a function of the text alone.
#[verifier::external_body]
fn mac_from_str(s: &str) -> (r: Result<MacAddress, pnet::util::ParseMacAddrErr>)
    ensures
        (r is Ok) == (mac_parse(s@) is Some),
        r matches Ok(m) ==> Some(m@) == mac_parse(s@),
{
    match s.parse::<pnet::util::MacAddr>() {
        Ok(m) => Ok(MacAddress { b0: m.0, b1: m.1, b2: m.2, b3: m.3, b4: m.4, b5: m.5 }),
        Err(e) => Err(e),
    }
}

/// Parse `s` as a MAC address literal, mapping a parse failure to the
/// library's own error.
pub fn parse_mac(s: &str) -> (r: Result<MacAddress, ArgsError>)
    ensures
        (r is Ok) == (mac_parse(s@) is Some),
        r matches Ok(m) ==> Some(m@) == mac_parse(s@),
        r matches Err(e) ==> e == ArgsError::InvalidAddress,
{
    match mac_from_str(s) {
        Ok(m) => Ok(m),
        Err(_) => Err(ArgsError::InvalidAddress),
    }
}

} // verus!
