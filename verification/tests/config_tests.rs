use watcher_rs::config::{default_rules, is_blank, path_severity, suspicious_exec_paths, suspicious_ports};
use watcher_rs::model::Severity;

#[test]
fn default_rules_group_tables() {
    let r = default_rules();
    let sp = r.sensitive_path.unwrap();
    assert!(sp.enabled);
    let crit = sp.paths.critical.unwrap();
    assert_eq!(crit.len(), 13);
    assert_eq!(crit[0], "/etc/shadow");
    assert_eq!(crit[12], "/root/.gnupg/");
    assert_eq!(sp.paths.high.unwrap().len(), 21);
    assert_eq!(sp.paths.low.unwrap()[0], "/proc/");
    assert!(sp.paths.info.is_none());
    let ex = r.suspicious_exec_path.unwrap();
    assert_eq!(ex.paths.medium.unwrap(), vec!["/tmp", "/var/tmp", "/dev/shm"]);
    assert_eq!(ex.paths.low.unwrap(), vec!["/run/user", "/var/run"]);
    assert!(ex.paths.high.is_none());
    let ports = r.suspicious_ports.unwrap();
    assert_eq!(ports.ports.high.unwrap(), vec![512, 513, 514, 4444, 5554, 12345, 27374, 31337, 54321, 9051]);
    assert_eq!(ports.ports.medium.unwrap().len(), 17);
    assert!(r.ignore_pids.is_none() && r.ignore_comm_name.is_none() && r.ignore_exe_path.is_none());
}

#[test]
fn tables_have_all_entries() {
    let paths = path_severity();
    assert_eq!(paths.len(), 52);
    assert_eq!(paths[13], ("/etc/passwd", Severity::High));
    assert_eq!(suspicious_exec_paths().len(), 5);
    let ports = suspicious_ports();
    assert_eq!(ports.len(), 27);
    assert_eq!(ports[0], (23, Severity::Medium));
    let total: usize = [Severity::Info, Severity::Low, Severity::Medium, Severity::High, Severity::Critical]
        .iter()
        .map(|s| paths.iter().filter(|(_, t)| t == s).count())
        .sum();
    assert_eq!(total, paths.len());
}

#[test]
fn blank_files() {
    assert!(is_blank(""));
    assert!(is_blank("  \n\t "));
    assert!(!is_blank(" [sensitive_path]\n"));
}
