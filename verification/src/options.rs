//! The configuration assembler: raw textual flags in, one fully
//! validated, internally consistent scan configuration out.
//!
//! Resolution happens in a fixed order: the profile first, then every
//! field that may consult it for a default, then the derived boolean
//! fields. The first failure anywhere ends resolution with its typed
//! error; no partially valid configuration is ever observable.

use vstd::prelude::*;

use crate::duration::{duration_ms, parse_duration_ms};
use crate::errors::ArgsError;
use crate::ipv4::{ipv4_ok, ipv4_value, parse_ipv4, Ipv4Address};
use crate::mac::{mac_parse, parse_mac, MacAddress};
use crate::network::{
    all_networks_ok, networks_from_file_text, networks_from_inline, networks_match,
};
use crate::numbers::{dec_value, parse_u16, parse_u8, parse_usize, parses_as_dec};
use crate::output::{resolve_output, spec_output, OutputFormat};
use crate::profile::{
    profile_interval_ms, profile_retry_count, profile_timeout_ms, resolve_profile, spec_profile,
    ProfileType,
};
use crate::text::{spec_lines, split_on};

verus! {

/// The raw textual command-line input: one optional token per valued
/// flag, one boolean per switch. What the CLI grammar hands over.
pub struct RawOptions {
    pub profile: Option<String>,
    pub interface: Option<String>,
    pub network: Option<String>,
    pub file: Option<String>,
    pub timeout: Option<String>,
    pub source_ip: Option<String>,
    pub destination_mac: Option<String>,
    pub source_mac: Option<String>,
    pub numeric: bool,
    pub vlan: Option<String>,
    pub retry_count: Option<String>,
    pub random: bool,
    pub interval: Option<String>,
    pub oui_file: Option<String>,
    pub output: Option<String>,
    pub hw_type: Option<String>,
    pub hw_addr: Option<String>,
    pub proto_type: Option<String>,
    pub proto_addr: Option<String>,
    pub arp_operation: Option<String>,
}

impl RawOptions {
    /// Raw input with every flag absent and every switch off.
    pub fn empty() -> (r: RawOptions)
        ensures
            r.profile is None,
            r.interface is None,
            r.network is None,
            r.file is None,
            r.timeout is None,
            r.source_ip is None,
            r.destination_mac is None,
            r.source_mac is None,
            !r.numeric,
            r.vlan is None,
            r.retry_count is None,
            !r.random,
            r.interval is None,
            r.oui_file is None,
            r.output is None,
            r.hw_type is None,
            r.hw_addr is None,
            r.proto_type is None,
            r.proto_addr is None,
            r.arp_operation is None,
    {
        RawOptions {
            profile: None,
            interface: None,
            network: None,
            file: None,
            timeout: None,
            source_ip: None,
            destination_mac: None,
            source_mac: None,
            numeric: false,
            vlan: None,
            retry_count: None,
            random: false,
            interval: None,
            oui_file: None,
            output: None,
            hw_type: None,
            hw_addr: None,
            proto_type: None,
            proto_addr: None,
            arp_operation: None,
        }
    }
}

/// The resolved scan configuration: immutable once built, shared
/// read-only with every downstream consumer.
#[derive(Debug)]
pub struct ScanOptions {
    pub profile: ProfileType,
    pub interface_name: Option<String>,
    pub network_range: Option<Vec<ipnetwork::IpNetwork>>,
    pub timeout_ms: u64,
    pub resolve_hostname: bool,
    pub source_ipv4: Option<Ipv4Address>,
    pub source_mac: Option<MacAddress>,
    pub destination_mac: Option<MacAddress>,
    pub vlan_id: Option<u16>,
    pub retry_count: usize,
    pub interval_ms: u64,
    pub randomize_targets: bool,
    pub output: OutputFormat,
    pub oui_file: String,
    pub hw_type: Option<u16>,
    pub hw_addr: Option<u8>,
    pub proto_type: Option<u16>,
    pub proto_addr: Option<u8>,
    pub arp_operation: Option<u16>,
}

/// The characters of an optional borrowed text.
pub open spec fn text_view(t: Option<&String>) -> Option<Seq<char>> {
    match t {
        Some(s) => Some(s@),
        None => None,
    }
}

/// The resolved timeout: an explicit duration always overrides, an
/// absent one falls back to the profile default.
pub open spec fn spec_timeout_ms(tok: Option<Seq<char>>, p: ProfileType) -> Option<u64> {
    match tok {
        Some(s) => match duration_ms(s) {
            Some(v) => if v <= u64::MAX {
                Some(v as u64)
            } else {
                None
            },
            None => None,
        },
        None => Some(profile_timeout_ms(p)),
    }
}

/// The resolved interval: an explicit duration always overrides, an
/// absent one falls back to the profile default.
pub open spec fn spec_interval_ms(tok: Option<Seq<char>>, p: ProfileType) -> Option<u64> {
    match tok {
        Some(s) => match duration_ms(s) {
            Some(v) => if v <= u64::MAX {
                Some(v as u64)
            } else {
                None
            },
            None => None,
        },
        None => Some(profile_interval_ms(p)),
    }
}

/// The resolved retry count: an explicit number always overrides, an
/// absent one falls back to the profile default.
pub open spec fn spec_retry(tok: Option<Seq<char>>, p: ProfileType) -> Option<usize> {
    match tok {
        Some(s) => if parses_as_dec(s, usize::MAX as int) {
            Some(dec_value(s) as usize)
        } else {
            None
        },
        None => Some(profile_retry_count(p)),
    }
}

/// An optional 16-bit field: absent yields no value, present text must
/// be an unsigned 16-bit decimal.
pub open spec fn spec_opt_u16(tok: Option<Seq<char>>) -> Option<Option<u16>> {
    match tok {
        Some(s) => if parses_as_dec(s, u16::MAX as int) {
            Some(Some(dec_value(s) as u16))
        } else {
            None
        },
        None => Some(None),
    }
}

/// An optional 8-bit field: absent yields no value, present text must
/// be an unsigned 8-bit decimal.
pub open spec fn spec_opt_u8(tok: Option<Seq<char>>) -> Option<Option<u8>> {
    match tok {
        Some(s) => if parses_as_dec(s, u8::MAX as int) {
            Some(Some(dec_value(s) as u8))
        } else {
            None
        },
        None => Some(None),
    }
}

/// Hostnames are resolved unless numeric mode is set or the profile is
/// Stealth, whatever the other flags say.
pub open spec fn spec_resolve_hostname(numeric: bool, p: ProfileType) -> bool {
    !numeric && !(p is Stealth)
}

/// Targets are randomized when asked for explicitly, and always under
/// Stealth or Chaos.
pub open spec fn spec_randomize(random: bool, p: ProfileType) -> bool {
    random || p is Stealth || p is Chaos
}

/// An optional IPv4 field resolves to the parsed literal, or to no
/// value when absent.
pub open spec fn ipv4_field_matches(tok: Option<Seq<char>>, f: Option<Ipv4Address>) -> bool {
    match tok {
        Some(s) => ipv4_ok(s) && f == Some(ipv4_value(s)),
        None => f is None,
    }
}

/// A present IPv4 field must be a valid dotted-quad literal.
pub open spec fn ipv4_field_ok(tok: Option<Seq<char>>) -> bool {
    match tok {
        Some(s) => ipv4_ok(s),
        None => true,
    }
}

/// An optional MAC field resolves to the octets pnet's grammar reads,
/// or to no value when absent.
pub open spec fn mac_field_matches(tok: Option<Seq<char>>, f: Option<MacAddress>) -> bool {
    match tok {
        Some(s) => f matches Some(m) && Some(m@) == mac_parse(s),
        None => f is None,
    }
}

/// A present MAC field must be a literal that pnet's grammar accepts.
pub open spec fn mac_field_ok(tok: Option<Seq<char>>) -> bool {
    match tok {
        Some(s) => mac_parse(s) is Some,
        None => true,
    }
}

/// The first failure of network source selection and parsing, if any:
/// two sources at once are rejected before any parsing, an unreadable
/// file is an I/O failure, a malformed entry rejects the whole list.
pub open spec fn network_source_error(raw: RawOptions, ft: Option<Seq<char>>) -> Option<
    ArgsError,
> {
    if raw.file is Some && raw.network is Some {
        Some(ArgsError::InvalidNetworkRange)
    } else if raw.file is Some {
        if ft is None {
            Some(ArgsError::IoError)
        } else if !all_networks_ok(spec_lines(ft.unwrap())) {
            Some(ArgsError::InvalidNetworkRange)
        } else {
            None
        }
    } else if raw.network is Some {
        if !all_networks_ok(split_on(raw.network.unwrap()@, ',')) {
            Some(ArgsError::InvalidNetworkRange)
        } else {
            None
        }
    } else {
        None
    }
}

/// The resolved network range: one entry per file line or inline
/// entry, or absent when neither source was given.
pub open spec fn network_field_matches(
    raw: RawOptions,
    ft: Option<Seq<char>>,
    f: Option<Vec<ipnetwork::IpNetwork>>,
) -> bool {
    if raw.file is Some {
        f matches Some(v) && ft matches Some(t) && networks_match(spec_lines(t), v@)
    } else if raw.network is Some {
        f matches Some(v) && networks_match(split_on(raw.network.unwrap()@, ','), v@)
    } else {
        f is None
    }
}

/// The resolved OUI database path: the explicit path, or the packaged
/// default.
pub open spec fn oui_matches(tok: Option<Seq<char>>, f: Seq<char>) -> bool {
    match tok {
        Some(s) => f == s,
        None => f == "/usr/share/arp-scan/ieee-oui.csv"@,
    }
}

/// The error the first failing resolver reports, in resolution order,
/// or nothing when every field resolves.
pub open spec fn spec_first_error(raw: RawOptions, ft: Option<Seq<char>>) -> Option<ArgsError> {
    let prof = spec_profile(raw.profile.deep_view());
    if prof is None {
        Some(ArgsError::InvalidProfile)
    } else if network_source_error(raw, ft) is Some {
        network_source_error(raw, ft)
    } else if spec_timeout_ms(raw.timeout.deep_view(), prof.unwrap()) is None {
        Some(ArgsError::InvalidDuration)
    } else if !ipv4_field_ok(raw.source_ip.deep_view()) {
        Some(ArgsError::InvalidAddress)
    } else if !mac_field_ok(raw.destination_mac.deep_view()) {
        Some(ArgsError::InvalidAddress)
    } else if !mac_field_ok(raw.source_mac.deep_view()) {
        Some(ArgsError::InvalidAddress)
    } else if spec_opt_u16(raw.vlan.deep_view()) is None {
        Some(ArgsError::InvalidVlan)
    } else if spec_retry(raw.retry_count.deep_view(), prof.unwrap()) is None {
        Some(ArgsError::InvalidRetryCount)
    } else if spec_interval_ms(raw.interval.deep_view(), prof.unwrap()) is None {
        Some(ArgsError::InvalidDuration)
    } else if spec_output(raw.output.deep_view()) is None {
        Some(ArgsError::InvalidOutputFormat)
    } else if spec_opt_u16(raw.hw_type.deep_view()) is None {
        Some(ArgsError::InvalidNumericHeaderField)
    } else if spec_opt_u8(raw.hw_addr.deep_view()) is None {
        Some(ArgsError::InvalidNumericHeaderField)
    } else if spec_opt_u16(raw.proto_type.deep_view()) is None {
        Some(ArgsError::InvalidNumericHeaderField)
    } else if spec_opt_u8(raw.proto_addr.deep_view()) is None {
        Some(ArgsError::InvalidNumericHeaderField)
    } else if spec_opt_u16(raw.arp_operation.deep_view()) is None {
        Some(ArgsError::InvalidNumericHeaderField)
    } else {
        None
    }
}

/// Every field of a resolved configuration, pinned to the raw input it
/// came from.
pub open spec fn resolved_matches(raw: RawOptions, ft: Option<Seq<char>>, c: ScanOptions) -> bool {
    &&& Some(c.profile) == spec_profile(raw.profile.deep_view())
    &&& c.interface_name.deep_view() == raw.interface.deep_view()
    &&& network_field_matches(raw, ft, c.network_range)
    &&& Some(c.timeout_ms) == spec_timeout_ms(raw.timeout.deep_view(), c.profile)
    &&& c.resolve_hostname == spec_resolve_hostname(raw.numeric, c.profile)
    &&& ipv4_field_matches(raw.source_ip.deep_view(), c.source_ipv4)
    &&& mac_field_matches(raw.destination_mac.deep_view(), c.destination_mac)
    &&& mac_field_matches(raw.source_mac.deep_view(), c.source_mac)
    &&& Some(c.vlan_id) == spec_opt_u16(raw.vlan.deep_view())
    &&& Some(c.retry_count) == spec_retry(raw.retry_count.deep_view(), c.profile)
    &&& Some(c.interval_ms) == spec_interval_ms(raw.interval.deep_view(), c.profile)
    &&& c.randomize_targets == spec_randomize(raw.random, c.profile)
    &&& Some(c.output) == spec_output(raw.output.deep_view())
    &&& oui_matches(raw.oui_file.deep_view(), c.oui_file@)
    &&& Some(c.hw_type) == spec_opt_u16(raw.hw_type.deep_view())
    &&& Some(c.hw_addr) == spec_opt_u8(raw.hw_addr.deep_view())
    &&& Some(c.proto_type) == spec_opt_u16(raw.proto_type.deep_view())
    &&& Some(c.proto_addr) == spec_opt_u8(raw.proto_addr.deep_view())
    &&& Some(c.arp_operation) == spec_opt_u16(raw.arp_operation.deep_view())
}

/// Resolve one optional unsigned 16-bit field, reporting `e` on bad
/// text.
fn opt_u16_field(tok: &Option<String>, e: ArgsError) -> (r: Result<Option<u16>, ArgsError>)
    ensures
        r is Ok <==> spec_opt_u16(tok.deep_view()) is Some,
        r matches Ok(v) ==> Some(v) == spec_opt_u16(tok.deep_view()),
        r matches Err(x) ==> x == e,
{
    match tok {
        Some(t) => match parse_u16(t.as_str()) {
            Some(v) => Ok(Some(v)),
            None => Err(e),
        },
        None => Ok(None),
    }
}

/// Resolve one optional unsigned 8-bit field, reporting `e` on bad
/// text.
fn opt_u8_field(tok: &Option<String>, e: ArgsError) -> (r: Result<Option<u8>, ArgsError>)
    ensures
        r is Ok <==> spec_opt_u8(tok.deep_view()) is Some,
        r matches Ok(v) ==> Some(v) == spec_opt_u8(tok.deep_view()),
        r matches Err(x) ==> x == e,
{
    match tok {
        Some(t) => match parse_u8(t.as_str()) {
            Some(v) => Ok(Some(v)),
            None => Err(e),
        },
        None => Ok(None),
    }
}

impl ScanOptions {
    /// Resolve the raw command-line input into one validated scan
    /// configuration.
    ///
    /// `file_text` is the text of the network range file when that flag
    /// was given and the file could be read; the caller reads the file,
    /// since this resolution itself performs no I/O.
    pub fn new(raw: &RawOptions, file_text: Option<&String>) -> (r: Result<ScanOptions, ArgsError>)
        ensures
            r is Ok <==> spec_first_error(*raw, text_view(file_text)) is None,
            r matches Err(e) ==> Some(e) == spec_first_error(*raw, text_view(file_text)),
            r matches Ok(c) ==> resolved_matches(*raw, text_view(file_text), c),
            spec_profile(raw.profile.deep_view()) is Some && raw.file is Some && raw.network
                is Some ==> r == Err::<ScanOptions, ArgsError>(ArgsError::InvalidNetworkRange),
    {
        let profile = match resolve_profile(&raw.profile) {
            Some(p) => p,
            None => {
                return Err(ArgsError::InvalidProfile);
            },
        };

        let network_range: Option<Vec<ipnetwork::IpNetwork>> = if raw.file.is_some()
            && raw.network.is_some() {
            return Err(ArgsError::InvalidNetworkRange);
        } else if raw.file.is_some() {
            match file_text {
                Some(t) => match networks_from_file_text(t.as_str()) {
                    Ok(v) => Some(v),
                    Err(e) => {
                        return Err(e);
                    },
                },
                None => {
                    return Err(ArgsError::IoError);
                },
            }
        } else {
            match &raw.network {
                Some(nt) => match networks_from_inline(nt.as_str()) {
                    Ok(v) => Some(v),
                    Err(e) => {
                        return Err(e);
                    },
                },
                None => None,
            }
        };

        let timeout_ms: u64 = match &raw.timeout {
            Some(t) => match parse_duration_ms(t.as_str()) {
                Some(v) => v,
                None => {
                    return Err(ArgsError::InvalidDuration);
                },
            },
            None => match profile {
                ProfileType::Fast => 800,
                _ => 2000,
            },
        };

        let resolve_hostname = !raw.numeric && !(match profile {
            ProfileType::Stealth => true,
            _ => false,
        });

        let source_ipv4: Option<Ipv4Address> = match &raw.source_ip {
            Some(t) => match parse_ipv4(t.as_str()) {
                Some(a) => Some(a),
                None => {
                    return Err(ArgsError::InvalidAddress);
                },
            },
            None => None,
        };

        let destination_mac: Option<MacAddress> = match &raw.destination_mac {
            Some(t) => match parse_mac(t.as_str()) {
                Ok(m) => Some(m),
                Err(e) => {
                    return Err(e);
                },
            },
            None => None,
        };

        let source_mac: Option<MacAddress> = match &raw.source_mac {
            Some(t) => match parse_mac(t.as_str()) {
                Ok(m) => Some(m),
                Err(e) => {
                    return Err(e);
                },
            },
            None => None,
        };

        let vlan_id = match opt_u16_field(&raw.vlan, ArgsError::InvalidVlan) {
            Ok(v) => v,
            Err(e) => {
                return Err(e);
            },
        };

        let retry_count: usize = match &raw.retry_count {
            Some(t) => match parse_usize(t.as_str()) {
                Some(v) => v,
                None => {
                    return Err(ArgsError::InvalidRetryCount);
                },
            },
            None => match profile {
                ProfileType::Chaos => 2,
                _ => 1,
            },
        };

        let interval_ms: u64 = match &raw.interval {
            Some(t) => match parse_duration_ms(t.as_str()) {
                Some(v) => v,
                None => {
                    return Err(ArgsError::InvalidDuration);
                },
            },
            None => match profile {
                ProfileType::Stealth => 20,
                ProfileType::Fast => 0,
                _ => 10,
            },
        };

        let output = match resolve_output(&raw.output) {
            Some(o) => o,
            None => {
                return Err(ArgsError::InvalidOutputFormat);
            },
        };

        let randomize_targets = raw.random || (match profile {
            ProfileType::Stealth | ProfileType::Chaos => true,
            _ => false,
        });

        let oui_file: String = match &raw.oui_file {
            Some(f) => f.clone(),
            None => "/usr/share/arp-scan/ieee-oui.csv".to_owned(),
        };

        let hw_type = match opt_u16_field(&raw.hw_type, ArgsError::InvalidNumericHeaderField) {
            Ok(v) => v,
            Err(e) => {
                return Err(e);
            },
        };

        let hw_addr = match opt_u8_field(&raw.hw_addr, ArgsError::InvalidNumericHeaderField) {
            Ok(v) => v,
            Err(e) => {
                return Err(e);
            },
        };

        let proto_type = match opt_u16_field(&raw.proto_type, ArgsError::InvalidNumericHeaderField) {
            Ok(v) => v,
            Err(e) => {
                return Err(e);
            },
        };

        let proto_addr = match opt_u8_field(&raw.proto_addr, ArgsError::InvalidNumericHeaderField) {
            Ok(v) => v,
            Err(e) => {
                return Err(e);
            },
        };

        let arp_operation = match opt_u16_field(
            &raw.arp_operation,
            ArgsError::InvalidNumericHeaderField,
        ) {
            Ok(v) => v,
            Err(e) => {
                return Err(e);
            },
        };

        let interface_name = match &raw.interface {
            Some(i) => Some(i.clone()),
            None => None,
        };

        Ok(
            ScanOptions {
                profile,
                interface_name,
                network_range,
                timeout_ms,
                resolve_hostname,
                source_ipv4,
                source_mac,
                destination_mac,
                vlan_id,
                retry_count,
                interval_ms,
                randomize_targets,
                output,
                oui_file,
                hw_type,
                hw_addr,
                proto_type,
                proto_addr,
                arp_operation,
            },
        )
    }

    /// The renderer is asked for plain text output.
    pub fn is_plain_output(&self) -> (r: bool)
        ensures
            r == (self.output is Plain),
    {
        match self.output {
            OutputFormat::Plain => true,
            _ => false,
        }
    }

    /// A VLAN tag was requested for outgoing probes.
    pub fn has_vlan(&self) -> (r: bool)
        ensures
            r == (self.vlan_id is Some),
    {
        match self.vlan_id {
            Some(_) => true,
            None => false,
        }
    }
}

/// Hostname resolution law: numeric mode or the Stealth profile force
/// it off, independent of every other flag; otherwise it is on.
pub proof fn lemma_hostname_forcing(numeric: bool, p: ProfileType)
    ensures
        numeric ==> !spec_resolve_hostname(numeric, p),
        p is Stealth ==> !spec_resolve_hostname(numeric, p),
        !numeric && !(p is Stealth) ==> spec_resolve_hostname(numeric, p),
{
}

/// Target randomization law: Stealth and Chaos force it on regardless
/// of the explicit flag; under Default and Fast it equals the flag.
pub proof fn lemma_randomize_forcing(random: bool, p: ProfileType)
    ensures
        p is Stealth || p is Chaos ==> spec_randomize(random, p),
        p is Default || p is Fast ==> spec_randomize(random, p) == random,
{
}

/// Override law: an explicit timeout, interval or retry value resolves
/// the same under every profile.
pub proof fn lemma_explicit_overrides_profile(tok: Seq<char>, p1: ProfileType, p2: ProfileType)
    ensures
        spec_timeout_ms(Some(tok), p1) == spec_timeout_ms(Some(tok), p2),
        spec_interval_ms(Some(tok), p1) == spec_interval_ms(Some(tok), p2),
        spec_retry(Some(tok), p1) == spec_retry(Some(tok), p2),
{
}

/// Defaulting law: an absent timeout, interval or retry value resolves
/// to exactly the profile table entry.
pub proof fn lemma_absent_uses_profile_default(p: ProfileType)
    ensures
        spec_timeout_ms(None, p) == Some(profile_timeout_ms(p)),
        spec_interval_ms(None, p) == Some(profile_interval_ms(p)),
        spec_retry(None, p) == Some(profile_retry_count(p)),
{
}

} // verus!
