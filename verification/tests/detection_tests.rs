use watcher_rs::config::default_rules;
use watcher_rs::detection::{flag_text_severity, input_device_path_severity, is_write, lookup_reputation, score_to_severity, Classifier};
use watcher_rs::gen_db::{EntryV4, EntryV6, IpsumDb};
use watcher_rs::model::{
    ConnectEvent, EventHeader, FileOpenEvent, FileType, ProcessStartEvent, Protocol, Severity, SocketEndpoints,
};
use watcher_rs::net::IpAddress;

fn header(pid: u32, uid: u32, comm: &str) -> EventHeader {
    EventHeader { timestamp_ns: 10, pid, tid: pid, ppid: 1, uid, gid: uid, comm: comm.to_string() }
}

fn open(pid: u32, uid: u32, path: &str, flags: u32) -> FileOpenEvent {
    FileOpenEvent { header: header(pid, uid, "vim"), file_path: path.to_string(), file_type: FileType::Regular, inode: 7, retval: 3, flags }
}

#[test]
fn flag_and_device_tables() {
    assert_eq!(flag_text_severity("RDONLY"), Some(Severity::Low));
    assert_eq!(flag_text_severity("WRONLY"), Some(Severity::Medium));
    assert_eq!(flag_text_severity("TRUNC"), Some(Severity::High));
    assert_eq!(flag_text_severity("WRONLY|CREAT"), None);
    assert_eq!(input_device_path_severity("/dev/input/event3"), Some(Severity::High));
    assert_eq!(input_device_path_severity("/dev/tty1"), Some(Severity::Medium));
    assert_eq!(input_device_path_severity("/dev/null"), None);
    assert!(is_write(1) && is_write(2) && !is_write(0) && !is_write(3));
    assert_eq!(score_to_severity(2), Severity::Medium);
    assert_eq!(score_to_severity(4), Severity::High);
    assert_eq!(score_to_severity(9), Severity::Critical);
    assert_eq!(score_to_severity(0), Severity::Critical);
}

#[test]
fn reputation_lookup() {
    let db = IpsumDb::from_entries(
        vec![EntryV4 { ip: 0x0505_0505, score: 4 }, EntryV4 { ip: 0x0101_0101, score: 1 }],
        vec![EntryV6 { ip: 7, score: 8 }],
    );
    assert_eq!(db.v4[0].ip, 0x0101_0101);
    assert_eq!(lookup_reputation(&db, IpAddress::V4(0x0505_0505)), Some(Severity::High));
    assert_eq!(lookup_reputation(&db, IpAddress::V4(0x0101_0101)), Some(Severity::Medium));
    assert_eq!(lookup_reputation(&db, IpAddress::V4(0x0202_0202)), None);
    assert_eq!(lookup_reputation(&db, IpAddress::V6(7)), Some(Severity::Critical));
}

#[test]
fn root_write_to_shadow_is_critical() {
    let mut c = Classifier::new();
    c.rules = Some(default_rules());
    let out = c.classify_open(open(100, 0, "/etc/shadow", 0o101), "/usr/bin/vim");
    assert_eq!(out.severity, Severity::Critical);
    assert_eq!(out.matched_rules, vec!["RootWrite".to_string(), "SensitivePath".to_string()]);
}

#[test]
fn plain_read_is_low() {
    let c = Classifier::new();
    let out = c.classify_open(open(100, 1000, "/home/u/notes", 0), "/usr/bin/cat");
    assert_eq!(out.severity, Severity::Low);
    assert_eq!(out.matched_rules, vec!["SensitiveFlag".to_string()]);
}

#[test]
fn root_process_from_tmp() {
    let mut c = Classifier::new();
    c.rules = Some(default_rules());
    let ev = ProcessStartEvent { header: header(5, 0, "x"), filename: "/tmp/x".to_string() };
    let out = c.classify_process_start(ev, "/tmp/x");
    assert_eq!(out.severity, Severity::Medium);
    assert_eq!(out.matched_rules, vec!["ProcessRunningAsRoot".to_string(), "SuspiciousExecPath".to_string()]);
}

#[test]
fn connect_to_known_bad_port_and_address() {
    let mut c = Classifier::new();
    c.rules = Some(default_rules());
    c.ipsum = Some(IpsumDb::from_entries(vec![EntryV4 { ip: 0x0808_0808, score: 3 }], vec![]));
    let ev = ConnectEvent {
        header: header(9, 1000, "nc"),
        protocol: Protocol::Tcp,
        endpoints: SocketEndpoints {
            local_ip: IpAddress::V4(0x0a00_0002),
            local_port: 50000,
            remote_ip: IpAddress::V4(0x0808_0808),
            remote_port: 4444,
        },
        retval: 0,
    };
    let out = c.classify_connect(ev, "/usr/bin/nc");
    assert_eq!(out.severity, Severity::High);
    assert_eq!(
        out.matched_rules,
        vec!["SuspiciousPort".to_string(), "SuspiciousIp".to_string(), "IpClassification".to_string()]
    );
}

#[test]
fn passwd_read_is_high_and_shadow_read_is_critical() {
    let mut c = Classifier::new();
    c.rules = Some(default_rules());
    let passwd = c.classify_open(open(200, 1000, "/etc/passwd", 0), "/usr/bin/cat");
    assert_eq!(passwd.severity, Severity::High);
    assert!(passwd.matched_rules.contains(&"SensitivePath".to_string()));
    let shadow = c.classify_open(open(200, 1000, "/etc/shadow", 0), "/usr/bin/cat");
    assert_eq!(shadow.severity, Severity::Critical);
    let plain = c.classify_open(open(200, 1000, "/usr/share/doc/x", 0), "/usr/bin/cat");
    assert_eq!(plain.severity, Severity::Low);
}

#[test]
fn most_specific_sensitive_prefix_wins() {
    let mut c = Classifier::new();
    c.rules = Some(default_rules());
    let keys = c.classify_open(open(200, 1000, "/root/.ssh/authorized_keys", 0), "/usr/bin/cat");
    assert_eq!(keys.severity, Severity::Critical);
    let home = c.classify_open(open(200, 1000, "/root/notes.txt", 0), "/usr/bin/cat");
    assert_eq!(home.severity, Severity::Medium);
    let units = c.classify_open(open(200, 1000, "/etc/systemd/system/x.service", 0), "/usr/bin/cat");
    assert_eq!(units.severity, Severity::Critical);
}
