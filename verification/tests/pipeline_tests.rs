use watcher_rs::config::default_rules;
use watcher_rs::detection::Classifier;
use watcher_rs::filter::{FileEventFilter, FileKey, KeyVal, DEDUP_WINDOW_NS};
use watcher_rs::model::{
    AppEvent, EventHeader, FileDeleteEvent, FileEvent, FileEventKey, FileOpenEvent, FileType, ProcessEvent,
    ProcessExitEvent, ProcessStartEvent,
};
use watcher_rs::pipeline::is_ignored;
use watcher_rs::rules::{IgnoreCommName, IgnoreExePath, IgnorePidsConfig, Rules};

fn header(pid: u32, comm: &str) -> EventHeader {
    EventHeader { timestamp_ns: 1, pid, tid: pid + 1, ppid: 1, uid: 1000, gid: 1000, comm: comm.to_string() }
}

fn open_event(pid: u32, inode: u64) -> FileEvent {
    FileEvent::Open(FileOpenEvent { header: header(pid, "cat"), file_path: "/etc/hosts".into(), file_type: FileType::Regular, inode, retval: 3, flags: 0 })
}

#[test]
fn repeats_within_a_second_are_dropped() {
    let mut f = FileEventFilter::new();
    let ev = open_event(10, 5);
    let key = || FileKey { pid: 10, tid: 11, key: KeyVal::Inode(5), event_type: FileEventKey::Open { inode: 5, flags: 0 } };
    assert!(!f.should_drop(&ev, key(), 1, 1_000));
    assert!(f.should_drop(&ev, key(), 1, 1_000 + DEDUP_WINDOW_NS - 1));
    assert!(!f.should_drop(&ev, key(), 1, 1_000 + DEDUP_WINDOW_NS));
    assert!(f.should_drop(&ev, key(), 1, 1_000 + DEDUP_WINDOW_NS + 5));
    assert!(f.should_drop(&ev, key(), 10, 0));
}

#[test]
fn ignore_lists() {
    let mut r = default_rules();
    r.ignore_pids = Some(IgnorePidsConfig { enabled: true, pids: vec![7, 8] });
    r.ignore_comm_name = Some(IgnoreCommName { enabled: true, names: vec!["kworker".into()] });
    r.ignore_exe_path = Some(IgnoreExePath { enabled: false, paths: vec!["/usr".into()] });
    assert!(is_ignored(&r, 8, "bash", "/bin/bash"));
    assert!(is_ignored(&r, 1, "kworker/0:1", "/"));
    assert!(!is_ignored(&r, 1, "bash", "/usr/bin/bash"));
    r.ignore_exe_path = Some(IgnoreExePath { enabled: true, paths: vec!["/usr".into()] });
    assert!(is_ignored(&r, 1, "bash", "/usr/bin/bash"));
    assert!(!is_ignored(&r, 1, "bash", "/usrx/bin/bash"));
    let empty = Rules { sensitive_path: None, suspicious_exec_path: None, suspicious_ports: None, ignore_pids: None, ignore_comm_name: None, ignore_exe_path: None };
    assert!(!is_ignored(&empty, 7, "kworker", "/usr"));
}

#[test]
fn process_events_update_the_table() {
    let mut c = Classifier::new();
    let start = ProcessEvent::Start(ProcessStartEvent { header: header(20, "sh"), filename: "/bin/sh".into() });
    let out = c.on_process_event(start, "/bin/sh").unwrap();
    assert!(matches!(out, AppEvent::ProcessStart(_)));
    assert_eq!(c.process_map.get(&20).unwrap().exe, "/bin/sh");
    let exit = ProcessEvent::Exit(ProcessExitEvent { header: header(20, "sh"), exit_code: 0 });
    assert!(c.on_process_event(exit, "/bin/sh").is_some());
    assert!(c.process_map.get(&20).is_none());
}

#[test]
fn ignored_and_repeated_file_events() {
    let mut c = Classifier::new();
    let mut r = default_rules();
    r.ignore_pids = Some(IgnorePidsConfig { enabled: true, pids: vec![30] });
    c.rules = Some(r);
    let mut f = FileEventFilter::new();
    assert!(c.on_file_event(&mut f, open_event(30, 1), "/bin/cat", 1, 0).is_none());
    assert!(c.process_map.is_empty());
    assert!(c.on_file_event(&mut f, open_event(31, 1), "/bin/cat", 1, 0).is_some());
    assert!(c.on_file_event(&mut f, open_event(31, 1), "/bin/cat", 1, 10).is_none());
    let del = FileEvent::Delete(FileDeleteEvent { header: header(31, "rm"), filename: "/tmp/a".into(), file_type: FileType::Regular, retval: 0 });
    assert!(c.on_file_event(&mut f, del, "/bin/rm", 1, 10).is_some());
}

#[test]
fn table_is_emptied_at_its_limit() {
    let mut c = Classifier::new();
    for pid in 0..4999u32 {
        let ev = ProcessEvent::Start(ProcessStartEvent { header: header(pid, "p"), filename: "/bin/p".into() });
        c.on_process_event(ev, "/bin/p");
    }
    assert_eq!(c.process_map.len(), 4999);
    let ev = ProcessEvent::Start(ProcessStartEvent { header: header(5000, "p"), filename: "/bin/p".into() });
    c.on_process_event(ev, "/bin/p");
    assert!(c.process_map.is_empty());
}

#[test]
fn filter_forgets_the_oldest_key_beyond_its_capacity() {
    let mut f = FileEventFilter::new();
    let ev = open_event(10, 5);
    let key = |i: u64| FileKey { pid: 10, tid: 11, key: KeyVal::Inode(i), event_type: FileEventKey::Open { inode: i, flags: 0 } };
    for i in 0..4096u64 {
        assert!(!f.should_drop(&ev, key(i), 1, 100));
    }
    // all 4096 keys are still remembered
    assert!(f.should_drop(&ev, key(4095), 1, 200));
    // one more key pushes out the least recently used one (key 0)
    assert!(!f.should_drop(&ev, key(4096), 1, 300));
    assert!(!f.should_drop(&ev, key(0), 1, 400));
}
