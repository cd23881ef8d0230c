use watcher_rs::net::{classify, ip_to_string, IpAddress, IpKind};
use watcher_rs::path::{file_name, join_path, path_starts_with};
use watcher_rs::text::{dec_string, pad_right, str_contains, str_starts_with, take_chars, trim_text, str_all_digits};

#[test]
fn contains_finds_inner_text() {
    assert!(str_contains("open: /etc/passwd", "passwd"));
    assert!(str_contains("abc", ""));
    assert!(!str_contains("abc", "abcd"));
    assert!(!str_contains("abc", "ac"));
}

#[test]
fn trim_drops_outer_whitespace() {
    assert_eq!(trim_text("  ProcessStart  "), "ProcessStart");
    assert_eq!(trim_text("\t\n x y \r\n"), "x y");
    assert_eq!(trim_text("   "), "");
}

#[test]
fn pad_right_fills_to_width() {
    assert_eq!(pad_right("ab", 5), "ab   ");
    assert_eq!(pad_right("abcdef", 3), "abcdef");
    assert_eq!(take_chars("12:34:56.789 PM", 11), "12:34:56.78");
    assert_eq!(take_chars("abc", 11), "abc");
}

#[test]
fn decimal_and_digit_checks() {
    assert_eq!(dec_string(0), "0");
    assert_eq!(dec_string(18446744073709551615), "18446744073709551615");
    assert!(str_all_digits("0123"));
    assert!(str_all_digits(""));
    assert!(!str_all_digits("12a"));
    assert!(str_starts_with("/etc/shadow", "/etc/"));
}

#[test]
fn ip_text_matches_std_display() {
    let v4 = IpAddress::V4(0x7f00_0001);
    assert_eq!(ip_to_string(v4), "127.0.0.1");
    let cases: [(u128, &str); 5] = [
        (0, "::"),
        (1, "::1"),
        (0x2001_0db8_0000_0000_0000_0000_0000_0001, "2001:db8::1"),
        (0x0000_0000_0000_0000_0000_ffff_c000_0280, "::ffff:192.0.2.128"),
        (0x2001_0db8_0000_0001_0000_0000_0000_0001, "2001:db8:0:1::1"),
    ];
    for (bits, text) in cases {
        assert_eq!(ip_to_string(IpAddress::V6(bits)), text);
    }
}

#[test]
fn address_kinds() {
    assert_eq!(classify(IpAddress::V4(0x7f00_0001)), IpKind::Loopback);
    assert_eq!(classify(IpAddress::V4(0x0a00_0001)), IpKind::Private);
    assert_eq!(classify(IpAddress::V4(0xa9fe_0001)), IpKind::LinkLocal);
    assert_eq!(classify(IpAddress::V4(0xe000_0001)), IpKind::Multicast);
    assert_eq!(classify(IpAddress::V4(0xffff_ffff)), IpKind::Broadcast);
    assert_eq!(classify(IpAddress::V4(0)), IpKind::Unspecified);
    assert_eq!(classify(IpAddress::V4(0xc000_0201)), IpKind::Documentation);
    assert_eq!(classify(IpAddress::V4(0x0808_0808)), IpKind::Public);
    assert_eq!(classify(IpAddress::V6(1)), IpKind::Loopback);
    assert_eq!(classify(IpAddress::V6(0xfd00 << 112)), IpKind::Private);
    assert_eq!(classify(IpAddress::V6(0xfe80 << 112)), IpKind::LinkLocal);
    assert_eq!(classify(IpAddress::V6(0xff02 << 112)), IpKind::Multicast);
    assert_eq!(classify(IpAddress::V6(0)), IpKind::Unspecified);
    assert_eq!(classify(IpAddress::V6(0x2606_4700 << 96)), IpKind::Public);
}

#[test]
fn path_components_and_names() {
    assert!(path_starts_with("/tmp/x/y", "/tmp"));
    assert!(!path_starts_with("/tmpfoo/y", "/tmp"));
    assert!(path_starts_with("/tmp//x", "/tmp/"));
    assert_eq!(join_path("/var/state", "events.bin.3"), "/var/state/events.bin.3");
    assert_eq!(join_path("/var/state/", "x"), "/var/state/x");
    assert_eq!(join_path("/var", "/abs"), "/abs");
    assert_eq!(file_name("/etc/passwd"), "passwd");
    assert_eq!(file_name("/etc/ssh/"), "ssh");
    assert_eq!(file_name("/"), "");
    assert_eq!(file_name("a/.."), "");
    assert_eq!(file_name("foo/."), "foo");
}
