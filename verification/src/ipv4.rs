//! A plain IPv4 address value and the verified parser of its standard
//! dotted-quad text form.
//!
//! The grammar is the strict one: four decimal octets separated by
//! `'.'`, each one to three digits, each at most 255, with no leading
//! zero (the octet `0` itself is written as one digit).

use vstd::prelude::*;

use crate::numbers::{all_dec_digits, dec_value, parse_u8};
use crate::text::{split_on, split_indices};

verus! {

/// An IPv4 address as four plain octets.
#[derive(Clone, Copy, Debug, PartialEq, Eq, Structural)]
pub struct Ipv4Address {
    pub a: u8,
    pub b: u8,
    pub c: u8,
    pub d: u8,
}

/// `p` is a valid dotted-quad octet: one to three digits, at most 255,
/// no leading zero.
pub open spec fn valid_octet(p: Seq<char>) -> bool {
    1 <= p.len() <= 3 && all_dec_digits(p) && dec_value(p) <= 255 && (p.len() > 1 ==> p[0]
        != '0')
}

/// `s` is a valid dotted-quad IPv4 literal.
pub open spec fn ipv4_ok(s: Seq<char>) -> bool {
    let parts = split_on(s, '.');
    parts.len() == 4 && valid_octet(parts[0]) && valid_octet(parts[1]) && valid_octet(parts[2])
        && valid_octet(parts[3])
}

/// The address a valid dotted-quad IPv4 literal denotes.
pub open spec fn ipv4_value(s: Seq<char>) -> Ipv4Address {
    let parts = split_on(s, '.');
    Ipv4Address {
        a: dec_value(parts[0]) as u8,
        b: dec_value(parts[1]) as u8,
        c: dec_value(parts[2]) as u8,
        d: dec_value(parts[3]) as u8,
    }
}

/// Parse one dotted-quad octet.
fn parse_octet(p: &str) -> (r: Option<u8>)
    ensures
        r is Some <==> valid_octet(p@),
        r matches Some(v) ==> v == dec_value(p@),
{
    let n = p.unicode_len();
    if n == 0 || n > 3 {
        return None;
    }
    if n > 1 && p.get_char(0) == '0' {
        return None;
    }
    parse_u8(p)
}

/// Parse `s` as a dotted-quad IPv4 literal.
pub fn parse_ipv4(s: &str) -> (r: Option<Ipv4Address>)
    ensures
        r is Some <==> ipv4_ok(s@),
        r matches Some(v) ==> v == ipv4_value(s@),
{
    let parts = split_indices(s, '.');
    if parts.len() != 4 {
        return None;
    }
    let (a0, b0) = parts[0];
    let o0 = parse_octet(s.substring_char(a0, b0));
    let (a1, b1) = parts[1];
    let o1 = parse_octet(s.substring_char(a1, b1));
    let (a2, b2) = parts[2];
    let o2 = parse_octet(s.substring_char(a2, b2));
    let (a3, b3) = parts[3];
    let o3 = parse_octet(s.substring_char(a3, b3));
    match (o0, o1, o2, o3) {
        (Some(a), Some(b), Some(c), Some(d)) => Some(Ipv4Address { a, b, c, d }),
        _ => None,
    }
}

} // verus!
