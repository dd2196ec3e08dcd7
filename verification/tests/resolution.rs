use arp_scan_config::errors::ArgsError;
use arp_scan_config::options::{RawOptions, ScanOptions};
use arp_scan_config::output::OutputFormat;
use arp_scan_config::profile::ProfileType;

fn raw() -> RawOptions {
    RawOptions::empty()
}

fn resolve(r: &RawOptions) -> Result<ScanOptions, ArgsError> {
    ScanOptions::new(r, None)
}

#[test]
fn profile_tokens_resolve_to_matching_variants() {
    for (tok, expected) in [
        ("default", ProfileType::Default),
        ("d", ProfileType::Default),
        ("fast", ProfileType::Fast),
        ("f", ProfileType::Fast),
        ("stealth", ProfileType::Stealth),
        ("s", ProfileType::Stealth),
        ("chaos", ProfileType::Chaos),
        ("c", ProfileType::Chaos),
    ] {
        let mut r = raw();
        r.profile = Some(tok.to_string());
        let c = resolve(&r).unwrap();
        assert_eq!(c.profile, expected);
    }
}

#[test]
fn unknown_profile_token_yields_invalid_profile() {
    for tok in ["", "quick", "Default", "fastest", "x"] {
        let mut r = raw();
        r.profile = Some(tok.to_string());
        assert_eq!(resolve(&r).unwrap_err(), ArgsError::InvalidProfile);
    }
}

#[test]
fn absent_profile_resolves_to_default() {
    let c = resolve(&raw()).unwrap();
    assert_eq!(c.profile, ProfileType::Default);
}

#[test]
fn timeout_defaults_follow_profile() {
    for (tok, expected) in [
        (None, 2000),
        (Some("fast"), 800),
        (Some("f"), 800),
        (Some("default"), 2000),
        (Some("stealth"), 2000),
        (Some("chaos"), 2000),
    ] {
        let mut r = raw();
        r.profile = tok.map(|t| t.to_string());
        let c = resolve(&r).unwrap();
        assert_eq!(c.timeout_ms, expected);
    }
}

#[test]
fn explicit_timeout_overrides_every_profile() {
    for tok in [None, Some("fast"), Some("stealth"), Some("chaos")] {
        let mut r = raw();
        r.profile = tok.map(|t| t.to_string());
        r.timeout = Some("1500ms".to_string());
        let c = resolve(&r).unwrap();
        assert_eq!(c.timeout_ms, 1500);
    }
}

#[test]
fn retry_defaults_follow_profile() {
    for (tok, expected) in [
        (None, 1),
        (Some("fast"), 1),
        (Some("stealth"), 1),
        (Some("chaos"), 2),
        (Some("c"), 2),
    ] {
        let mut r = raw();
        r.profile = tok.map(|t| t.to_string());
        let c = resolve(&r).unwrap();
        assert_eq!(c.retry_count, expected);
    }
}

#[test]
fn explicit_retry_overrides_every_profile() {
    for tok in [None, Some("chaos"), Some("stealth")] {
        let mut r = raw();
        r.profile = tok.map(|t| t.to_string());
        r.retry_count = Some("7".to_string());
        let c = resolve(&r).unwrap();
        assert_eq!(c.retry_count, 7);
    }
}

#[test]
fn bad_retry_yields_invalid_retry_count() {
    let mut r = raw();
    r.retry_count = Some("three".to_string());
    assert_eq!(resolve(&r).unwrap_err(), ArgsError::InvalidRetryCount);
}

#[test]
fn both_network_sources_are_rejected() {
    let mut r = raw();
    r.network = Some("192.168.1.0/24".to_string());
    r.file = Some("/tmp/ranges.txt".to_string());
    let text = "192.168.1.0/24".to_string();
    let res = ScanOptions::new(&r, Some(&text));
    assert_eq!(res.unwrap_err(), ArgsError::InvalidNetworkRange);
}

#[test]
fn file_without_text_is_io_error() {
    let mut r = raw();
    r.file = Some("/nonexistent".to_string());
    assert_eq!(resolve(&r).unwrap_err(), ArgsError::IoError);
}

#[test]
fn one_malformed_file_line_rejects_all() {
    let mut r = raw();
    r.file = Some("/tmp/ranges.txt".to_string());
    let text = "192.168.1.0/24\n10.0.0.0/8\nnot-a-network\n".to_string();
    let res = ScanOptions::new(&r, Some(&text));
    assert_eq!(res.unwrap_err(), ArgsError::InvalidNetworkRange);
}

#[test]
fn valid_file_lines_all_parse() {
    let mut r = raw();
    r.file = Some("/tmp/ranges.txt".to_string());
    let text = "192.168.1.0/24\r\n10.0.0.0/8\n".to_string();
    let c = ScanOptions::new(&r, Some(&text)).unwrap();
    let nets = c.network_range.unwrap();
    assert_eq!(nets.len(), 2);
    assert_eq!(nets[0].to_string(), "192.168.1.0/24");
    assert_eq!(nets[1].to_string(), "10.0.0.0/8");
}

#[test]
fn inline_networks_parse_in_order() {
    let mut r = raw();
    r.network = Some("192.168.1.0/24,10.0.0.0/8".to_string());
    let c = resolve(&r).unwrap();
    let nets = c.network_range.unwrap();
    assert_eq!(nets.len(), 2);
    assert_eq!(nets[0].to_string(), "192.168.1.0/24");
    assert_eq!(nets[1].to_string(), "10.0.0.0/8");
}

#[test]
fn one_malformed_inline_entry_rejects_all() {
    let mut r = raw();
    r.network = Some("192.168.1.0/24,bogus".to_string());
    assert_eq!(resolve(&r).unwrap_err(), ArgsError::InvalidNetworkRange);
}

#[test]
fn blank_file_line_is_a_malformed_entry() {
    let mut r = raw();
    r.file = Some("/tmp/ranges.txt".to_string());
    let text = "192.168.1.0/24\n\n10.0.0.0/8\n".to_string();
    let res = ScanOptions::new(&r, Some(&text));
    assert_eq!(res.unwrap_err(), ArgsError::InvalidNetworkRange);
}

#[test]
fn empty_file_text_yields_empty_range_list() {
    let mut r = raw();
    r.file = Some("/tmp/ranges.txt".to_string());
    let text = String::new();
    let c = ScanOptions::new(&r, Some(&text)).unwrap();
    assert_eq!(c.network_range.unwrap().len(), 0);
}

#[test]
fn empty_inline_text_is_one_malformed_entry() {
    let mut r = raw();
    r.network = Some(String::new());
    assert_eq!(resolve(&r).unwrap_err(), ArgsError::InvalidNetworkRange);
}

#[test]
fn absent_network_sources_leave_range_absent() {
    let c = resolve(&raw()).unwrap();
    assert!(c.network_range.is_none());
}

#[test]
fn hostname_resolution_forced_off_by_numeric_or_stealth() {
    for (profile, numeric, expected) in [
        (None, false, true),
        (None, true, false),
        (Some("fast"), false, true),
        (Some("chaos"), false, true),
        (Some("stealth"), false, false),
        (Some("stealth"), true, false),
        (Some("fast"), true, false),
    ] {
        let mut r = raw();
        r.profile = profile.map(|t| t.to_string());
        r.numeric = numeric;
        let c = resolve(&r).unwrap();
        assert_eq!(c.resolve_hostname, expected, "profile {profile:?} numeric {numeric}");
    }
}

#[test]
fn randomize_forced_on_by_stealth_or_chaos() {
    for (profile, random, expected) in [
        (Some("stealth"), false, true),
        (Some("chaos"), false, true),
        (Some("stealth"), true, true),
        (None, false, false),
        (None, true, true),
        (Some("fast"), false, false),
        (Some("fast"), true, true),
    ] {
        let mut r = raw();
        r.profile = profile.map(|t| t.to_string());
        r.random = random;
        let c = resolve(&r).unwrap();
        assert_eq!(c.randomize_targets, expected, "profile {profile:?} random {random}");
    }
}

#[test]
fn output_text_and_plain_resolve_identically() {
    for tok in ["text", "plain"] {
        let mut r = raw();
        r.output = Some(tok.to_string());
        let c = resolve(&r).unwrap();
        assert_eq!(c.output, OutputFormat::Plain);
        assert!(c.is_plain_output());
    }
}

#[test]
fn output_tokens_resolve_and_others_fail() {
    let mut r = raw();
    r.output = Some("json".to_string());
    assert_eq!(resolve(&r).unwrap().output, OutputFormat::Json);
    r.output = Some("yaml".to_string());
    assert_eq!(resolve(&r).unwrap().output, OutputFormat::Yaml);
    for tok in ["xml", "JSON", "", "txt"] {
        r.output = Some(tok.to_string());
        assert_eq!(resolve(&r).unwrap_err(), ArgsError::InvalidOutputFormat);
    }
    assert_eq!(resolve(&raw()).unwrap().output, OutputFormat::Plain);
}

#[test]
fn end_to_end_fast_profile() {
    let mut r = raw();
    r.profile = Some("fast".to_string());
    let c = resolve(&r).unwrap();
    assert_eq!(c.timeout_ms, 800);
    assert_eq!(c.interval_ms, 0);
    assert_eq!(c.retry_count, 1);
    assert!(c.resolve_hostname);
    assert!(!c.randomize_targets);
}

#[test]
fn end_to_end_stealth_profile() {
    let mut r = raw();
    r.profile = Some("stealth".to_string());
    let c = resolve(&r).unwrap();
    assert_eq!(c.timeout_ms, 2000);
    assert_eq!(c.interval_ms, 20);
    assert_eq!(c.retry_count, 1);
    assert!(!c.resolve_hostname);
    assert!(c.randomize_targets);
}

#[test]
fn interval_defaults_follow_profile() {
    for (tok, expected) in [(None, 10), (Some("fast"), 0), (Some("stealth"), 20), (Some("chaos"), 10)]
    {
        let mut r = raw();
        r.profile = tok.map(|t| t.to_string());
        let c = resolve(&r).unwrap();
        assert_eq!(c.interval_ms, expected);
    }
}

#[test]
fn oui_file_defaults_to_packaged_path() {
    let c = resolve(&raw()).unwrap();
    assert_eq!(c.oui_file, "/usr/share/arp-scan/ieee-oui.csv");
    let mut r = raw();
    r.oui_file = Some("/opt/oui.csv".to_string());
    assert_eq!(resolve(&r).unwrap().oui_file, "/opt/oui.csv");
}
