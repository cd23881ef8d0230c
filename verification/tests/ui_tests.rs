use watcher_rs::app::{ConfigState, UpdateDbState};
use watcher_rs::model::{
    AppEvent, Classified, ConnectEvent, EventHeader, FileOpenEvent, FileType, ProcessStartEvent, Protocol, Severity,
    SocketEndpoints, UiEvent,
};
use watcher_rs::net::IpAddress;
use watcher_rs::ui::{
    build_detail_lines, config_message, count_width, db_message, detail_lines, family_label, filter_marker,
    notification_area, port_tone, scrollbar_pos, sev_tone, status_mode, stream_row, stream_title, uid_label, DetailLine,
    Shade, Tone,
};

fn header(pid: u32, uid: u32) -> EventHeader {
    EventHeader { timestamp_ns: 1, pid, tid: pid + 1, ppid: 1, uid, gid: 4, comm: "bash".into() }
}

fn field(key: &str, value: &str, tone: Tone) -> DetailLine {
    DetailLine::Field { key: key.into(), value: value.into(), tone }
}

#[test]
fn labels_and_tones() {
    assert_eq!(uid_label(0), "0 (root)");
    assert_eq!(uid_label(1000), "1000");
    assert_eq!(family_label(2), "AF_INET");
    assert_eq!(family_label(10), "AF_INET6");
    assert_eq!(family_label(1), "unknown");
    assert_eq!(sev_tone(Severity::High), Tone::Orange);
    assert_eq!(port_tone(443), Tone::Green);
    assert_eq!(port_tone(1337), Tone::Red);
    assert_eq!(port_tone(8080), Tone::Text);
    assert_eq!(filter_marker(true), "\u{25b6}");
    assert_eq!(stream_title(true, "ssh"), " search: ssh ");
    assert_eq!(stream_title(false, "ssh"), " stream  [filter: ssh] ");
    assert_eq!(stream_title(false, ""), " stream ");
    assert_eq!(status_mode(false, true, true), ("PAUSED", Tone::Red));
    assert_eq!(status_mode(false, false, true).0, "STREAM \u{2022} FOLLOWING");
    assert_eq!(config_message(ConfigState::ConfigReloadFailed), "\u{2717}  Configuration reload failed");
    assert_eq!(db_message(UpdateDbState::Updated), "\u{2713}  IP reputation database updated");
}

#[test]
fn geometry() {
    let a = notification_area(100, 40, 20);
    assert_eq!((a.x, a.y, a.width, a.height), (76, 35, 22, 3));
    let b = notification_area(10, 2, 20);
    assert_eq!((b.x, b.y), (0, 0));
    assert_eq!(scrollbar_pos(5, 10, 20), 2);
    assert_eq!(scrollbar_pos(5, 10, 0), 50);
    assert_eq!(count_width(&[3, 12345, 0, 7, 99]), 5);
    assert_eq!(count_width(&[0, 0, 0, 0, 0]), 1);
}

#[test]
fn detail_of_a_file_open() {
    let ev = UiEvent::new(AppEvent::FileOpen(Classified {
        event: FileOpenEvent { header: header(42, 0), file_path: "/etc/shadow".into(), file_type: FileType::Regular, inode: 9, retval: -13, flags: 0 },
        severity: Severity::Critical,
        matched_rules: vec!["SensitivePath".into()],
    }));
    let lines = detail_lines(&ev, "12:00:00.000".into());
    let expected = vec![
        DetailLine::Heading { severity: Severity::Critical, kind: "FileOpen".into() },
        DetailLine::Time("12:00:00.000".into()),
        DetailLine::Blank,
        DetailLine::Title("FileOpen".into()),
        DetailLine::Underline(8),
        field("name ", "bash", Tone::Text),
        field("pid  ", "42", Tone::Text),
        field("ppid ", "1", Tone::Muted),
        field("uid  ", "0 (root)", Tone::Red),
        field("gid  ", "4", Tone::Muted),
        DetailLine::Blank,
        DetailLine::Title("FILE".into()),
        DetailLine::Underline(4),
        field("filepath ", "/etc/shadow", Tone::Red),
        field("filename ", "shadow", Tone::Text),
        field("op       ", "Regular", Tone::Text),
        field("flags    ", "RDONLY", Tone::Muted),
        field("mode     ", "Regular", Tone::Muted),
        field("retval   ", "-13 (failed )", Tone::Red),
        field("inode    ", "9", Tone::Muted),
        DetailLine::Blank,
        DetailLine::Title("RULES".into()),
        DetailLine::Underline(5),
        DetailLine::Matched("SensitivePath".into()),
    ];
    assert_eq!(lines, expected);
}

#[test]
fn detail_of_a_connection() {
    let ev = UiEvent::new(AppEvent::NetworkConnect(Classified {
        event: ConnectEvent {
            header: header(7, 1000),
            protocol: Protocol::Udp,
            endpoints: SocketEndpoints {
                local_ip: IpAddress::V4(0x7f00_0001),
                local_port: 5353,
                remote_ip: IpAddress::V6(1),
                remote_port: 53,
            },
            retval: 0,
        },
        severity: Severity::Info,
        matched_rules: vec![],
    }));
    let lines = detail_lines(&ev, "t".into());
    assert_eq!(lines.len(), 3 + 2 + 7 + 2 + 3);
    assert_eq!(lines[3], DetailLine::Title("Connect".into()));
    assert_eq!(lines[5], field("comm ", "bash", Tone::Green));
    assert_eq!(lines[7], field("tid ", "8", Tone::Text));
    assert_eq!(lines[14], field("protocol ", "UDP", Tone::Blue));
    assert_eq!(lines[15], field("source ", "127.0.0.1:5353", Tone::Green));
    assert_eq!(lines[16], field("destination ", "::1:53", Tone::Blue));
}

#[test]
fn detail_with_local_time() {
    let ev = UiEvent::new(AppEvent::ProcessStart(Classified {
        event: ProcessStartEvent { header: header(1, 0), filename: "/sbin/init".into() },
        severity: Severity::Low,
        matched_rules: vec![],
    }));
    let lines = build_detail_lines(&ev, true, 0);
    assert_eq!(lines.len(), 3 + 2 + 5);
    assert_eq!(lines[8], field("filename ", "/sbin/init", Tone::Path));
    assert!(matches!(&lines[1], DetailLine::Time(t) if t.len() == 12));
}

#[test]
fn stream_row_cells() {
    let ev = UiEvent::new(AppEvent::ProcessStart(Classified {
        event: ProcessStartEvent { header: header(314, 0), filename: "/bin/ls".into() },
        severity: Severity::High,
        matched_rules: vec![],
    }));
    let row = stream_row(&ev, "01:02:03.456 PM", 3, 3);
    assert_eq!(row.accent, "\u{258c}");
    assert_eq!(row.time, " 01:02:03.45    ");
    assert_eq!(row.severity, "HIGH      ");
    assert_eq!(row.pid, "314          ");
    assert_eq!(row.kind, "ProcessStart   ");
    assert_eq!(row.detail, "exec: /bin/ls");
    assert_eq!(row.shade, Shade::Selected);
    assert_eq!(row.severity_tone, Tone::Orange);
    assert_eq!(row.detail_tone, Tone::Salmon);
    assert_eq!(stream_row(&ev, "x", 1, 0).shade, Shade::Odd);
    assert_eq!(stream_row(&ev, "x", 2, 0).shade, Shade::Even);
}

#[test]
fn open_flags_are_named_in_order() {
    let flags_of = |flags: u32| {
        let ev = UiEvent::new(AppEvent::FileOpen(Classified {
            event: FileOpenEvent { header: header(1, 1000), file_path: "/tmp/a".into(), file_type: FileType::Regular, inode: 1, retval: 3, flags },
            severity: Severity::Low,
            matched_rules: vec![],
        }));
        detail_lines(&ev, "00:00:00.000".into())
            .into_iter()
            .find_map(|l| match l {
                DetailLine::Field { key, value, .. } if key == "flags    " => Some(value),
                _ => None,
            })
            .unwrap()
    };
    assert_eq!(flags_of(0o101), "WRONLY|CREAT");
    assert_eq!(flags_of(0x80042), "RDWR|CLOEXEC|CREAT");
    assert_eq!(flags_of(0x101000), "RDONLY|DSYNC|SYNC");
    assert_eq!(flags_of(0x410002), "RDWR|DIRECTORY|TMPFILE");
    assert_eq!(flags_of(3), "");
}
