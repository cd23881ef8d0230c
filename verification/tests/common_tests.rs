use watcher_rs::common::{
    parse_status, strip_nul, AppEvent, ExecEvent, FileEvent, NetworkEvent, PrivilegeEvent, ProcessEvent,
    ProcessExitEvent, ProcessInfo, Severity, SuspiciousEvent, FileCloseEvent,
};

fn lines(v: &[&str]) -> Vec<String> {
    v.iter().map(|s| s.to_string()).collect()
}

#[test]
fn status_file_fields() {
    let l = lines(&["Name:\tbash", "Umask:\t0022", "State:\tS (sleeping)", "Pid:\t4242", "PPid:\t1", "Uid:\t1000\t1000"]);
    let (pid, ppid, name) = parse_status(&l);
    assert_eq!((pid, ppid, name.as_str()), (4242, 1, "bash"));
    let bad = lines(&["Pid: x", "Name: a:b", "Name:c", "PPid: +7"]);
    assert_eq!(parse_status(&bad), (0, 7, "ac".to_string()));
    assert_eq!(parse_status(&lines(&["nothing here", ""])), (0, 0, String::new()));
}

#[test]
fn cmdline_without_nuls() {
    assert_eq!(strip_nul("ls\0-l\0/tmp\0"), "ls-l/tmp");
    let p = ProcessInfo::from_proc_files(&lines(&["Pid: 3", "PPid: 2", "Name: sh"]), "sh\0-c\0");
    assert_eq!(p, ProcessInfo { pid: 3, ppid: 2, name: "sh".into(), cmdline: "sh-c".into() });
}

fn buf(s: &str) -> [u8; 256] {
    let mut b = [0u8; 256];
    b[..s.len()].copy_from_slice(s.as_bytes());
    b
}

#[test]
fn first_generation_details() {
    let exec = AppEvent::Exec(ExecEvent { kind: 0, pid: 5, uid: 0, timestamp: 9, filename: buf("/bin/ls") });
    assert_eq!(exec.detail(), "exec /bin/ls");
    assert_eq!(exec.kind_label(), "ExecEvent ");
    assert_eq!(exec.severity(), Severity::Low);
    assert_eq!((exec.pid(), exec.timestamp()), (5, 9));
    let exit = AppEvent::ExecExit(ProcessExitEvent { kind: 1, pid: 77, timestamp: 1 });
    assert_eq!(exit.detail(), "pid 77 exited");
    assert_eq!(exit.severity(), Severity::Info);
    let file = AppEvent::File(FileEvent { kind: 2, pid: 1, uid: 0, dir_fd: -100, filename: buf("/etc/hosts"), mode: 0o644, flags: 1, timestamp: 2 });
    assert_eq!(file.detail(), "W /etc/hosts  mode=644");
    let neg = AppEvent::File(FileEvent { kind: 2, pid: 1, uid: 0, dir_fd: 0, filename: buf("x"), mode: -1, flags: 0, timestamp: 2 });
    assert_eq!(neg.detail(), format!("R x  mode={:o}", -1i32));
    let close = AppEvent::FileClose(FileCloseEvent { kind: 3, file_name: buf("/tmp/a"), pid: 4, timestamp: 3 });
    assert_eq!(close.detail(), "close /tmp/a");
    let mut addr = [0u8; 16];
    addr[..4].copy_from_slice(&[1, 2, 3, 4]);
    let net = AppEvent::Network(NetworkEvent { kind: 4, pid: 8, sockfd: -3, family: 2, port: 40000, addr, timestamp: 4 });
    assert_eq!(net.detail(), "\u{2192} 1.2.3.4  fd=-3");
    assert_eq!(net.severity(), Severity::Medium);
    let proc_ev = AppEvent::Process(ProcessEvent {
        info: ProcessInfo { pid: 10, ppid: 1, name: "init".into(), cmdline: "/sbin/init".into() },
        uid: 0,
        timestamp: 5,
    });
    assert_eq!(proc_ev.detail(), "init (ppid=1)  /sbin/init");
    assert_eq!(proc_ev.pid(), 10);
    let privilege = AppEvent::Privilege(PrivilegeEvent { pid: 2, uid: 0, binary: "/usr/bin/sudo".into(), is_setuid: true, timestamp: 6 });
    assert_eq!(privilege.detail(), "setuid exec /usr/bin/sudo");
    assert_eq!(privilege.severity(), Severity::High);
    let sus = AppEvent::Suspicious(SuspiciousEvent { pid: 3, file: "/x".into(), reason: "odd".into(), severity: Severity::Critical, timestamp: 7 });
    assert_eq!(sus.detail(), "[/x] odd");
    assert_eq!(sus.severity(), Severity::Critical);
    assert_eq!(Severity::Medium.label(), "MED ");
    assert_eq!(Severity::Info.label(), "INFO");
}
