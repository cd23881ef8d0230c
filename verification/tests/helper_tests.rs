use watcher_rs::helper::{
    bytes_to_str, clock_pattern, extract_ipv4_bytes, flags_to_op, format_timestamp_ns, is_root_only_path,
    is_sensitive_path, parse_addr, uptime_text, wallclock_parts,
};

#[test]
fn socket_address_text() {
    let mut a = [0u8; 16];
    a[0] = 192;
    a[1] = 168;
    a[2] = 1;
    a[3] = 10;
    assert_eq!(parse_addr(2, &a), "192.168.1.10");
    let mut b = [0u8; 16];
    b[0] = 0x20;
    b[1] = 0x01;
    b[15] = 0x01;
    assert_eq!(parse_addr(10, &b), "2001:0000:0000:0000:0000:0000:0000:0001");
    let c = [1u8; 16];
    assert_eq!(parse_addr(1, &c), "[1, 1, 1, 1, 1, 1, 1, 1, 1, 1, 1, 1, 1, 1, 1, 1]");
}

#[test]
fn ipv4_bytes_only_for_inet() {
    let mut a = [0u8; 16];
    a[0] = 10;
    a[3] = 7;
    assert_eq!(extract_ipv4_bytes(2, &a), Some(&[10u8, 0, 0, 7][..]));
    assert_eq!(extract_ipv4_bytes(10, &a), None);
}

#[test]
fn nul_terminated_buffers() {
    let mut raw = [0u8; 256];
    raw[..9].copy_from_slice(b"/bin/bash");
    raw[10] = b'x';
    assert_eq!(bytes_to_str(&raw), "/bin/bash");
    let full = [b'a'; 256];
    assert_eq!(bytes_to_str(&full).len(), 256);
    let mut bad = [0u8; 256];
    bad[0] = 0xff;
    bad[1] = b'z';
    assert_eq!(bytes_to_str(&bad), "\u{fffd}z");
    let mut ls = [0u8; 256];
    ls[0] = b'l';
    ls[1] = b's';
    ls[3] = b'x';
    assert_eq!(bytes_to_str(&ls), "ls");
    assert!(!bytes_to_str(&ls).contains('\0'));
}

#[test]
fn open_modes() {
    assert_eq!(flags_to_op(0), "R");
    assert_eq!(flags_to_op(1), "W");
    assert_eq!(flags_to_op(2), "RW");
    assert_eq!(flags_to_op(3), "R");
    assert_eq!(flags_to_op(0o101), "W");
    assert_eq!(flags_to_op(-1), "R");
}

#[test]
fn sensitive_and_root_only_paths() {
    assert!(is_sensitive_path("/etc/passwd"));
    assert!(is_sensitive_path("/etc/cron.d/job"));
    assert!(is_sensitive_path("/home/u/.ssh/id_rsa") == false);
    assert!(is_sensitive_path("/.ssh/config"));
    assert!(!is_sensitive_path("/tmp/x"));
    assert!(is_root_only_path("/etc/shadow"));
    assert!(is_root_only_path("/proc/kcore"));
    assert!(!is_root_only_path("/etc/passwd"));
}

#[test]
fn uptime_as_clock() {
    assert_eq!(uptime_text("3725.42 1000.00\n"), Some("1:2:5".to_string()));
    assert_eq!(uptime_text("59"), Some("0:0:59".to_string()));
    assert_eq!(uptime_text("abc.1"), None);
}

#[test]
fn wall_clock_parts_and_patterns() {
    assert_eq!(wallclock_parts(1_500_000_000, 2_000_000_000), (3, 500_000_000));
    assert_eq!(clock_pattern(true), "%H:%M:%S%.3f");
    assert_eq!(clock_pattern(false), "%I:%M:%S%.3f %p");
    let t = format_timestamp_ns(0, true, 1_700_000_000_123_000_000);
    assert_eq!(t.len(), 12);
    assert!(t.ends_with(".123"));
    assert_eq!((&t[2..3], &t[5..6]), (":", ":"));
    let t12 = format_timestamp_ns(7_000_000, false, 1_700_000_000_000_000_000);
    assert_eq!(t12.len(), 15);
    assert_eq!(&t12[8..12], ".007");
    assert!(t12.ends_with(" AM") || t12.ends_with(" PM"));
}
