use arp_scan_config::duration::parse_duration_ms;
use arp_scan_config::errors::{diagnostic_message, ArgsError};
use arp_scan_config::ipv4::{parse_ipv4, Ipv4Address};
use arp_scan_config::numbers::{parse_u16, parse_u64, parse_u8};
use arp_scan_config::options::{RawOptions, ScanOptions};

fn raw() -> RawOptions {
    RawOptions::empty()
}

fn resolve(r: &RawOptions) -> Result<ScanOptions, ArgsError> {
    ScanOptions::new(r, None)
}

#[test]
fn decimal_parsing_is_exact() {
    assert_eq!(parse_u64("0"), Some(0));
    assert_eq!(parse_u64("18446744073709551615"), Some(u64::MAX));
    assert_eq!(parse_u64("18446744073709551616"), None);
    assert_eq!(parse_u64(""), None);
    assert_eq!(parse_u64("+3"), None);
    assert_eq!(parse_u64("12a"), None);
    assert_eq!(parse_u16("65535"), Some(65535));
    assert_eq!(parse_u16("65536"), None);
    assert_eq!(parse_u8("255"), Some(255));
    assert_eq!(parse_u8("256"), None);
}

#[test]
fn durations_scale_to_milliseconds() {
    assert_eq!(parse_duration_ms("800ms"), Some(800));
    assert_eq!(parse_duration_ms("2s"), Some(2000));
    assert_eq!(parse_duration_ms("3m"), Some(180000));
    assert_eq!(parse_duration_ms("1h"), Some(3600000));
    assert_eq!(parse_duration_ms("42"), Some(42));
    assert_eq!(parse_duration_ms("ms"), None);
    assert_eq!(parse_duration_ms("s"), None);
    assert_eq!(parse_duration_ms(""), None);
    assert_eq!(parse_duration_ms("4x"), None);
    assert_eq!(parse_duration_ms("18446744073709551615ms"), Some(u64::MAX));
    assert_eq!(parse_duration_ms("18446744073709551615s"), None);
}

#[test]
fn ipv4_literals_parse_strictly() {
    assert_eq!(
        parse_ipv4("192.168.0.42"),
        Some(Ipv4Address { a: 192, b: 168, c: 0, d: 42 })
    );
    assert_eq!(parse_ipv4("0.0.0.0"), Some(Ipv4Address { a: 0, b: 0, c: 0, d: 0 }));
    assert_eq!(parse_ipv4("255.255.255.255"), Some(Ipv4Address { a: 255, b: 255, c: 255, d: 255 }));
    assert_eq!(parse_ipv4("256.1.1.1"), None);
    assert_eq!(parse_ipv4("01.2.3.4"), None);
    assert_eq!(parse_ipv4("1.2.3"), None);
    assert_eq!(parse_ipv4("1.2.3.4.5"), None);
    assert_eq!(parse_ipv4("1.2.3."), None);
    assert_eq!(parse_ipv4("a.b.c.d"), None);
}

#[test]
fn source_ip_field_resolves_or_fails() {
    let mut r = raw();
    r.source_ip = Some("192.168.0.42".to_string());
    let c = resolve(&r).unwrap();
    assert_eq!(c.source_ipv4, Some(Ipv4Address { a: 192, b: 168, c: 0, d: 42 }));
    r.source_ip = Some("999.0.0.1".to_string());
    assert_eq!(resolve(&r).unwrap_err(), ArgsError::InvalidAddress);
}

#[test]
fn mac_fields_resolve_through_pnet_grammar() {
    let mut r = raw();
    r.source_mac = Some("aa:bb:cc:dd:ee:ff".to_string());
    r.destination_mac = Some("00:11:22:33:44:55".to_string());
    let c = resolve(&r).unwrap();
    let s = c.source_mac.unwrap();
    assert_eq!(
        (s.b0, s.b1, s.b2, s.b3, s.b4, s.b5),
        (0xaa, 0xbb, 0xcc, 0xdd, 0xee, 0xff)
    );
    let d = c.destination_mac.unwrap();
    assert_eq!((d.b0, d.b1, d.b2, d.b3, d.b4, d.b5), (0x00, 0x11, 0x22, 0x33, 0x44, 0x55));
}

#[test]
fn bad_mac_fields_fail() {
    for bad in ["aa:bb:cc:dd:ee", "aa:bb:cc:dd:ee:ff:00", "zz:bb:cc:dd:ee:ff", "aabbccddeeff"] {
        let mut r = raw();
        r.source_mac = Some(bad.to_string());
        assert_eq!(resolve(&r).unwrap_err(), ArgsError::InvalidAddress);
    }
}

#[test]
fn vlan_is_sixteen_bit() {
    let mut r = raw();
    r.vlan = Some("45".to_string());
    let c = resolve(&r).unwrap();
    assert_eq!(c.vlan_id, Some(45));
    assert!(c.has_vlan());
    assert!(!resolve(&raw()).unwrap().has_vlan());
    for bad in ["65536", "-1", "4q"] {
        r.vlan = Some(bad.to_string());
        assert_eq!(resolve(&r).unwrap_err(), ArgsError::InvalidVlan);
    }
}

#[test]
fn arp_header_overrides_resolve() {
    let mut r = raw();
    r.hw_type = Some("1".to_string());
    r.hw_addr = Some("6".to_string());
    r.proto_type = Some("2048".to_string());
    r.proto_addr = Some("4".to_string());
    r.arp_operation = Some("2".to_string());
    let c = resolve(&r).unwrap();
    assert_eq!(c.hw_type, Some(1));
    assert_eq!(c.hw_addr, Some(6));
    assert_eq!(c.proto_type, Some(2048));
    assert_eq!(c.proto_addr, Some(4));
    assert_eq!(c.arp_operation, Some(2));
    let c = resolve(&raw()).unwrap();
    assert_eq!(c.hw_type, None);
    assert_eq!(c.arp_operation, None);
}

#[test]
fn arp_header_overrides_are_range_checked() {
    let mut r = raw();
    r.hw_addr = Some("256".to_string());
    assert_eq!(resolve(&r).unwrap_err(), ArgsError::InvalidNumericHeaderField);
    let mut r = raw();
    r.hw_type = Some("65536".to_string());
    assert_eq!(resolve(&r).unwrap_err(), ArgsError::InvalidNumericHeaderField);
    let mut r = raw();
    r.arp_operation = Some("x".to_string());
    assert_eq!(resolve(&r).unwrap_err(), ArgsError::InvalidNumericHeaderField);
}

#[test]
fn bad_timeout_and_interval_are_invalid_durations() {
    let mut r = raw();
    r.timeout = Some("soon".to_string());
    assert_eq!(resolve(&r).unwrap_err(), ArgsError::InvalidDuration);
    let mut r = raw();
    r.interval = Some("2x".to_string());
    assert_eq!(resolve(&r).unwrap_err(), ArgsError::InvalidDuration);
    let mut r = raw();
    r.interval = Some("20ms".to_string());
    assert_eq!(resolve(&r).unwrap().interval_ms, 20);
}

#[test]
fn interface_name_is_kept() {
    let mut r = raw();
    r.interface = Some("wlp1s0".to_string());
    let c = resolve(&r).unwrap();
    assert_eq!(c.interface_name.as_deref(), Some("wlp1s0"));
}

#[test]
fn each_error_has_its_diagnostic() {
    assert_eq!(
        diagnostic_message(&ArgsError::InvalidProfile),
        "Expected correct profile name (default/fast/stealth/chaos)"
    );
    assert_eq!(
        diagnostic_message(&ArgsError::InvalidOutputFormat),
        "Expected correct output format (json/yaml/plain)"
    );
    assert_eq!(
        diagnostic_message(&ArgsError::InvalidRetryCount),
        "Expected positive number for host retry count"
    );
}
