use watcher_rs::common::EventType;
use watcher_rs::probe::{
    close_record, connect_record, count_dropped, exec_record, exit_record, open_record, pid_of, uid_of,
};

fn name(s: &str) -> [u8; 256] {
    let mut buf = [0u8; 256];
    buf[..s.len()].copy_from_slice(s.as_bytes());
    buf
}

#[test]
fn kind_codes_follow_declaration_order() {
    assert_eq!(EventType::ExecEvent.code(), 0);
    assert_eq!(EventType::ExecExit.code(), 1);
    assert_eq!(EventType::FileOpen.code(), 2);
    assert_eq!(EventType::FileClose.code(), 3);
    assert_eq!(EventType::Network.code(), 4);
}

#[test]
fn packed_words_split() {
    assert_eq!(pid_of(0x0000_0005_0000_0007), 5);
    assert_eq!(pid_of(0xffff_ffff_0000_0000), 0xffff_ffff);
    assert_eq!(uid_of(0x0000_03e8_0000_03e9), 0x3e9);
    assert_eq!(uid_of(7), 7);
}

#[test]
fn drop_counter_wraps() {
    assert_eq!(count_dropped(0), 1);
    assert_eq!(count_dropped(41), 42);
    assert_eq!(count_dropped(u32::MAX), 0);
}

#[test]
fn exec_open_exit_close_records() {
    let pt: u64 = (1234u64 << 32) | 1234;
    let ug: u64 = (100u64 << 32) | 1000;
    let e = exec_record(pt, ug, 99, name("/bin/ls"));
    assert_eq!((e.kind, e.pid, e.uid, e.timestamp), (0, 1234, 1000, 99));
    assert_eq!(&e.filename[..7], b"/bin/ls");
    let f = open_record(pt, ug, 5, -100, name("/etc/passwd"), 0o101, 0o644);
    assert_eq!((f.kind, f.pid, f.uid, f.dir_fd, f.flags, f.mode, f.timestamp), (2, 1234, 1000, -100, 0o101, 0o644, 5));
    assert_eq!(&f.filename[..11], b"/etc/passwd");
    let x = exit_record(pt, 7);
    assert_eq!((x.kind, x.pid, x.timestamp), (1, 1234, 7));
    let c = close_record(pt, 8, name("a.txt"));
    assert_eq!((c.kind, c.pid, c.timestamp), (3, 1234, 8));
    assert_eq!(&c.file_name[..5], b"a.txt");
}

#[test]
fn connect_ipv4_port_is_network_order() {
    // family 2 (native order), port 443 = 0x01bb, address 93.184.216.34
    let sa: [u8; 16] = [2, 0, 0x01, 0xbb, 93, 184, 216, 34, 0, 0, 0, 0, 0, 0, 0, 0];
    let ev = connect_record(42u64 << 32, 11, 3, 2, &sa).unwrap();
    assert_eq!((ev.kind, ev.pid, ev.sockfd, ev.family, ev.port, ev.timestamp), (4, 42, 3, 2, 443, 11));
    assert_eq!(ev.addr, [93, 184, 216, 34, 0, 0, 0, 0, 0, 0, 0, 0, 0, 0, 0, 0]);
}

#[test]
fn connect_ipv6_takes_sixteen_address_bytes() {
    let mut sa = [0u8; 28];
    sa[0] = 10;
    sa[2] = 0x00;
    sa[3] = 0x50;
    for i in 0..16 {
        sa[8 + i] = i as u8 + 1;
    }
    sa[24] = 0xee;
    let ev = connect_record(7u64 << 32, 1, 9, 10, &sa).unwrap();
    assert_eq!((ev.family, ev.port), (10, 80));
    let want: Vec<u8> = (1..=16).collect();
    assert_eq!(ev.addr.to_vec(), want);
}

#[test]
fn connect_other_families_or_short_reads_are_dropped() {
    let sa = [0u8; 28];
    assert!(connect_record(0, 0, 0, 1, &sa).is_none());
    assert!(connect_record(0, 0, 0, 17, &sa).is_none());
    assert!(connect_record(0, 0, 0, 2, &sa[..15]).is_none());
    assert!(connect_record(0, 0, 0, 10, &sa[..16]).is_none());
    assert!(connect_record(0, 0, 0, 2, &[]).is_none());
    assert!(connect_record(0, 0, 0, 2, &sa[..16]).is_some());
}
