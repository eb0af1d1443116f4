use proxy_agent::redirector::{
    close, get_status, ip_to_string, is_started, lookup_audit, string_to_ip, AuditEntry,
    Redirector, RedirectorError,
};
use proxy_agent::status::ModuleState;

#[test]
fn ip_to_string_test() {
    let ip = 0x10813FA8u32;
    let ip_str = ip_to_string(ip);
    assert_eq!("168.63.129.16", ip_str, "ip_str mismatch.");
    let new_ip = string_to_ip(&ip_str);
    assert_eq!(ip, new_ip, "ip mismatch.");

    let ip = 0x100007Fu32;
    let ip_str = ip_to_string(ip);
    assert_eq!("127.0.0.1", ip_str, "ip_str mismatch.");

    let new_ip = string_to_ip("1270.0.0.1");
    assert_eq!(0, new_ip, "ip must be 0 since the 1270.0.0.1 is invalid.");
    let new_ip = string_to_ip("1270.0.1");
    assert_eq!(0, new_ip, "ip must be 0 since the 1270.0.1 is invalid.");
}

#[test]
fn ip_round_trip_on_edge_values() {
    for ip in [0u32, 1, 255, 256, 0xFFFF_FFFF, 0x0A00_0001, 0xFEA9_FEA9, 0x8000_0000] {
        assert_eq!(ip, string_to_ip(&ip_to_string(ip)));
    }
    assert_eq!("255.255.255.255", ip_to_string(u32::MAX));
    assert_eq!("0.0.0.0", ip_to_string(0));
    assert_eq!("169.254.169.254", ip_to_string(0xFEA9_FEA9));
}

#[test]
fn string_to_ip_rejects_malformed_text() {
    assert_eq!(0, string_to_ip("256.0.0.1"));
    assert_eq!(0, string_to_ip("1.2.3"));
    assert_eq!(0, string_to_ip("1.2.3.4.5"));
    assert_eq!(0, string_to_ip("1.2..4"));
    assert_eq!(0, string_to_ip("a.b.c.d"));
    assert_eq!(0, string_to_ip(""));
    assert_eq!(0, string_to_ip("-1.2.3.4"));
    assert_eq!(0x0403_0201, string_to_ip("1.2.3.4"));
    assert_eq!(0x0403_0201, string_to_ip("+1.02.003.4"));
}

#[test]
fn audit_entry_accessors() {
    let mut entry = AuditEntry::empty();
    assert_eq!(0, entry.logon_id);
    assert_eq!(0, entry.destination_port);
    entry.destination_port = 0x5000;
    entry.destination_ipv4 = 0x10813FA8;
    assert_eq!(80, entry.destination_port_in_host_byte_order());
    assert_eq!("168.63.129.16", entry.destination_ipv4_addr());
}

#[test]
fn audit_lookup_by_source_port() {
    let mut redirector = Redirector::new();
    assert!(!is_started(&redirector));
    assert!(matches!(
        lookup_audit(5000, &redirector),
        Err(RedirectorError::AuditNotFound(5000))
    ));
    let mut entry = AuditEntry::empty();
    entry.logon_id = 42;
    entry.process_id = 7;
    redirector.record_audit(5000, entry);
    let found = lookup_audit(5000, &redirector).ok().unwrap();
    assert_eq!(42, found.logon_id);
    assert_eq!(7, found.process_id);
    assert!(lookup_audit(5001, &redirector).is_err());
    redirector.evict_audit(5000);
    assert!(lookup_audit(5000, &redirector).is_err());
}

#[test]
fn redirector_status_truncates_long_message() {
    let mut redirector = Redirector::new();
    redirector.set_started(true, "x".repeat(1030));
    let status = get_status(&redirector);
    assert!(matches!(status.status, ModuleState::Running));
    assert_eq!(format!("{}...", "x".repeat(1024)), status.message);

    redirector.set_started(true, "y".repeat(1024));
    assert_eq!("y".repeat(1024), get_status(&redirector).message);

    redirector.record_audit(1, AuditEntry::empty());
    close(&mut redirector);
    assert!(!is_started(&redirector));
    assert!(matches!(get_status(&redirector).status, ModuleState::Stopped));
    assert!(lookup_audit(1, &redirector).is_err());
}
