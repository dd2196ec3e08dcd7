//! Network range resolution: CIDR entries parsed by the ipnetwork
//! crate, collected all-or-nothing.
//!
//! An entry list comes either from inline comma-separated text or from
//! the lines of a range file. One malformed entry rejects the whole
//! list: no partial acceptance.

use vstd::prelude::*;

use crate::errors::ArgsError;
use crate::text::{line_indices, spec_lines, split_indices, split_on};

verus! {

#[verifier::external_type_specification]
#[verifier::external_body]
pub struct ExIpNetwork(ipnetwork::IpNetwork);

#[verifier::external_type_specification]
#[verifier::external_body]
pub struct ExIpNetworkError(ipnetwork::IpNetworkError);

/// The network that ipnetwork's `IpNetwork` `FromStr` reads from `s`,
/// or nothing when it accepts no part of `s`. The result depends on
/// the characters of `s` alone.
pub uninterp spec fn network_parse(s: Seq<char>) -> Option<ipnetwork::IpNetwork>;

/// Every entry of `entries` is an accepted CIDR network expression.
pub open spec fn all_networks_ok(entries: Seq<Seq<char>>) -> bool {
    forall|k: int| 0 <= k < entries.len() ==> network_parse(#[trigger] entries[k]) is Some
}

/// Each element of `nets` is the network its entry denotes, in entry
/// order.
pub open spec fn networks_match(entries: Seq<Seq<char>>, nets: Seq<ipnetwork::IpNetwork>) -> bool {
    nets.len() == entries.len() && forall|k: int|
        0 <= k < entries.len() ==> Some(#[trigger] nets[k]) == network_parse(entries[k])
}

/// Relies on ipnetwork's `IpNetwork` `FromStr`: parses a CIDR network
/// expression, first as IPv4 and then as IPv6, a function of the text
/// alone.
#[verifier::external_body]
fn network_from_str(s: &str) -> (r: Result<ipnetwork::IpNetwork, ipnetwork::IpNetworkError>)
    ensures
        (r is Ok) == (network_parse(s@) is Some),
        r matches Ok(n) ==> Some(n) == network_parse(s@),
{
    <ipnetwork::IpNetwork as core::str::FromStr>::from_str(s)
}

/// Parse the segments of `s` named by `bounds` as CIDR networks,
/// all-or-nothing.
fn parse_segments(s: &str, bounds: &Vec<(usize, usize)>, Ghost(entries): Ghost<Seq<Seq<char>>>) -> (r:
    Result<Vec<ipnetwork::IpNetwork>, ArgsError>)
    requires
        bounds@.len() == entries.len(),
        forall|k: int|
            0 <= k < bounds@.len() ==> (#[trigger] bounds@[k]).0 <= bounds@[k].1 <= s@.len()
                && s@.subrange(bounds@[k].0 as int, bounds@[k].1 as int) == entries[k],
    ensures
        r is Ok <==> all_networks_ok(entries),
        r matches Ok(v) ==> networks_match(entries, v@),
        r matches Err(e) ==> e == ArgsError::InvalidNetworkRange,
{
    let mut out: Vec<ipnetwork::IpNetwork> = Vec::new();
    let n = bounds.len();
    let mut k: usize = 0;
    while k < n
        invariant
            n == bounds@.len(),
            n == entries.len(),
            k <= n,
            out@.len() == k,
            forall|j: int|
                0 <= j < n ==> (#[trigger] bounds@[j]).0 <= bounds@[j].1 <= s@.len()
                    && s@.subrange(bounds@[j].0 as int, bounds@[j].1 as int) == entries[j],
            forall|j: int| 0 <= j < k ==> Some(#[trigger] out@[j]) == network_parse(entries[j]),
        decreases n - k,
    {
        let (a, b) = bounds[k];
        let seg = s.substring_char(a, b);
        match network_from_str(seg) {
            Ok(net) => {
                out.push(net);
            },
            Err(_) => {
                return Err(ArgsError::InvalidNetworkRange);
            },
        }
        k = k + 1;
    }
    proof {
        assert forall|j: int| 0 <= j < entries.len() implies network_parse(
            #[trigger] entries[j],
        ) is Some by {
            assert(Some(out@[j]) == network_parse(entries[j]));
        }
    }
    Ok(out)
}

/// Parse inline comma-separated network range text, all-or-nothing.
pub fn networks_from_inline(s: &str) -> (r: Result<Vec<ipnetwork::IpNetwork>, ArgsError>)
    ensures
        r is Ok <==> all_networks_ok(split_on(s@, ',')),
        r matches Ok(v) ==> networks_match(split_on(s@, ','), v@),
        r matches Err(e) ==> e == ArgsError::InvalidNetworkRange,
{
    let bounds = split_indices(s, ',');
    parse_segments(s, &bounds, Ghost(split_on(s@, ',')))
}

/// Parse the text of a network range file, one CIDR expression per
/// line, all-or-nothing: one malformed line rejects every line.
pub fn networks_from_file_text(s: &str) -> (r: Result<Vec<ipnetwork::IpNetwork>, ArgsError>)
    ensures
        r is Ok <==> all_networks_ok(spec_lines(s@)),
        r matches Ok(v) ==> networks_match(spec_lines(s@), v@),
        r matches Err(e) ==> e == ArgsError::InvalidNetworkRange,
{
    let bounds = line_indices(s);
    parse_segments(s, &bounds, Ghost(spec_lines(s@)))
}

} // verus!
