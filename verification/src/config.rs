//! The default rules file: the built-in tables of sensitive paths,
//! suspicious executable locations and suspicious ports, grouped by severity.
use vstd::prelude::*;
use crate::model::Severity;
use crate::rules::{Rules, SensitivePathConfig, SeverityMap, SuspiciousExecPathConfig, SuspiciousPortsConfig};
use crate::text::{trimmed, trim_text};

verus! {

/// The built-in sensitive paths and their severities.
pub open spec fn path_severity_spec() -> Seq<(Seq<char>, Severity)> {
    seq![
        ("/etc/shadow"@, Severity::Critical),
        ("/etc/gshadow"@, Severity::Critical),
        ("/etc/sudoers"@, Severity::Critical),
        ("/etc/sudoers.d/"@, Severity::Critical),
        ("/etc/ssh/sshd_config"@, Severity::Critical),
        ("/etc/ld.so.preload"@, Severity::Critical),
        ("/etc/crontab"@, Severity::Critical),
        ("/etc/systemd/system/"@, Severity::Critical),
        ("/etc/systemd/user/"@, Severity::Critical),
        ("/boot/"@, Severity::Critical),
        ("/boot/efi/"@, Severity::Critical),
        ("/root/.ssh/"@, Severity::Critical),
        ("/root/.gnupg/"@, Severity::Critical),
        ("/etc/passwd"@, Severity::High),
        ("/etc/group"@, Severity::High),
        ("/etc/hosts"@, Severity::High),
        ("/etc/resolv.conf"@, Severity::High),
        ("/etc/fstab"@, Severity::High),
        ("/etc/pam.d/"@, Severity::High),
        ("/etc/profile"@, Severity::High),
        ("/etc/profile.d/"@, Severity::High),
        ("/etc/environment"@, Severity::High),
        ("/etc/bash.bashrc"@, Severity::High),
        ("/etc/zsh/"@, Severity::High),
        ("/usr/bin/"@, Severity::High),
        ("/usr/sbin/"@, Severity::High),
        ("/bin/"@, Severity::High),
        ("/sbin/"@, Severity::High),
        ("/lib/"@, Severity::High),
        ("/lib64/"@, Severity::High),
        ("/usr/lib/"@, Severity::High),
        ("/usr/lib64/"@, Severity::High),
        ("/var/spool/cron/"@, Severity::High),
        ("/var/lib/systemd/"@, Severity::High),
        ("/home/"@, Severity::Medium),
        ("/root/"@, Severity::Medium),
        ("/.ssh/"@, Severity::Medium),
        ("/.gnupg/"@, Severity::Medium),
        ("/.config/autostart/"@, Severity::Medium),
        ("/tmp/"@, Severity::Medium),
        ("/var/tmp/"@, Severity::Medium),
        ("/dev/shm/"@, Severity::Medium),
        ("/run/user/"@, Severity::Medium),
        ("/opt/"@, Severity::Medium),
        ("/srv/"@, Severity::Medium),
        ("/proc/"@, Severity::Low),
        ("/sys/"@, Severity::Low),
        ("/dev/"@, Severity::Low),
        ("/run/"@, Severity::Low),
        ("/var/cache/"@, Severity::Low),
        ("/var/log/"@, Severity::Low),
        ("/var/lib/"@, Severity::Low)
    ]
}

/// The built-in suspicious executable locations and their severities.
pub open spec fn exec_path_spec() -> Seq<(Seq<char>, Severity)> {
    seq![
        ("/tmp"@, Severity::Medium),
        ("/var/tmp"@, Severity::Medium),
        ("/dev/shm"@, Severity::Medium),
        ("/run/user"@, Severity::Low),
        ("/var/run"@, Severity::Low)
    ]
}

/// The built-in suspicious ports and their severities.
pub open spec fn port_spec() -> Seq<(u16, Severity)> {
    seq![
        (23u16, Severity::Medium),
        (512u16, Severity::High),
        (513u16, Severity::High),
        (514u16, Severity::High),
        (4444u16, Severity::High),
        (5554u16, Severity::High),
        (12345u16, Severity::High),
        (27374u16, Severity::High),
        (31337u16, Severity::High),
        (54321u16, Severity::High),
        (6660u16, Severity::Medium),
        (6661u16, Severity::Medium),
        (6662u16, Severity::Medium),
        (6663u16, Severity::Medium),
        (6664u16, Severity::Medium),
        (6665u16, Severity::Medium),
        (6666u16, Severity::Medium),
        (6667u16, Severity::Medium),
        (6668u16, Severity::Medium),
        (6669u16, Severity::Medium),
        (6697u16, Severity::Medium),
        (1080u16, Severity::Medium),
        (9001u16, Severity::Medium),
        (9030u16, Severity::Medium),
        (9050u16, Severity::Medium),
        (9051u16, Severity::High),
        (9150u16, Severity::Medium)
    ]
}

/// The table of texts, by their characters.
pub open spec fn text_table(t: Seq<(&str, Severity)>) -> Seq<(Seq<char>, Severity)> {
    Seq::new(t.len(), |i: int| (t[i].0@, t[i].1))
}

/// The built-in sensitive paths and their severities.
pub fn path_severity() -> (res: Vec<(&'static str, Severity)>)
    ensures
        text_table(res@) == path_severity_spec(),
{
    let v = vec![
        ("/etc/shadow", Severity::Critical),
        ("/etc/gshadow", Severity::Critical),
        ("/etc/sudoers", Severity::Critical),
        ("/etc/sudoers.d/", Severity::Critical),
        ("/etc/ssh/sshd_config", Severity::Critical),
        ("/etc/ld.so.preload", Severity::Critical),
        ("/etc/crontab", Severity::Critical),
        ("/etc/systemd/system/", Severity::Critical),
        ("/etc/systemd/user/", Severity::Critical),
        ("/boot/", Severity::Critical),
        ("/boot/efi/", Severity::Critical),
        ("/root/.ssh/", Severity::Critical),
        ("/root/.gnupg/", Severity::Critical),
        ("/etc/passwd", Severity::High),
        ("/etc/group", Severity::High),
        ("/etc/hosts", Severity::High),
        ("/etc/resolv.conf", Severity::High),
        ("/etc/fstab", Severity::High),
        ("/etc/pam.d/", Severity::High),
        ("/etc/profile", Severity::High),
        ("/etc/profile.d/", Severity::High),
        ("/etc/environment", Severity::High),
        ("/etc/bash.bashrc", Severity::High),
        ("/etc/zsh/", Severity::High),
        ("/usr/bin/", Severity::High),
        ("/usr/sbin/", Severity::High),
        ("/bin/", Severity::High),
        ("/sbin/", Severity::High),
        ("/lib/", Severity::High),
        ("/lib64/", Severity::High),
        ("/usr/lib/", Severity::High),
        ("/usr/lib64/", Severity::High),
        ("/var/spool/cron/", Severity::High),
        ("/var/lib/systemd/", Severity::High),
        ("/home/", Severity::Medium),
        ("/root/", Severity::Medium),
        ("/.ssh/", Severity::Medium),
        ("/.gnupg/", Severity::Medium),
        ("/.config/autostart/", Severity::Medium),
        ("/tmp/", Severity::Medium),
        ("/var/tmp/", Severity::Medium),
        ("/dev/shm/", Severity::Medium),
        ("/run/user/", Severity::Medium),
        ("/opt/", Severity::Medium),
        ("/srv/", Severity::Medium),
        ("/proc/", Severity::Low),
        ("/sys/", Severity::Low),
        ("/dev/", Severity::Low),
        ("/run/", Severity::Low),
        ("/var/cache/", Severity::Low),
        ("/var/log/", Severity::Low),
        ("/var/lib/", Severity::Low)
    ];
    assert(text_table(v@) =~= path_severity_spec());
    v
}

/// The built-in suspicious executable locations and their severities.
pub fn suspicious_exec_paths() -> (res: Vec<(&'static str, Severity)>)
    ensures
        text_table(res@) == exec_path_spec(),
{
    let v = vec![
        ("/tmp", Severity::Medium),
        ("/var/tmp", Severity::Medium),
        ("/dev/shm", Severity::Medium),
        ("/run/user", Severity::Low),
        ("/var/run", Severity::Low)
    ];
    assert(text_table(v@) =~= exec_path_spec());
    v
}

/// The built-in suspicious ports and their severities.
pub fn suspicious_ports() -> (res: Vec<(u16, Severity)>)
    ensures
        res@ == port_spec(),
{
    let v = vec![
        (23u16, Severity::Medium),
        (512u16, Severity::High),
        (513u16, Severity::High),
        (514u16, Severity::High),
        (4444u16, Severity::High),
        (5554u16, Severity::High),
        (12345u16, Severity::High),
        (27374u16, Severity::High),
        (31337u16, Severity::High),
        (54321u16, Severity::High),
        (6660u16, Severity::Medium),
        (6661u16, Severity::Medium),
        (6662u16, Severity::Medium),
        (6663u16, Severity::Medium),
        (6664u16, Severity::Medium),
        (6665u16, Severity::Medium),
        (6666u16, Severity::Medium),
        (6667u16, Severity::Medium),
        (6668u16, Severity::Medium),
        (6669u16, Severity::Medium),
        (6697u16, Severity::Medium),
        (1080u16, Severity::Medium),
        (9001u16, Severity::Medium),
        (9030u16, Severity::Medium),
        (9050u16, Severity::Medium),
        (9051u16, Severity::High),
        (9150u16, Severity::Medium)
    ];
    assert(v@ =~= port_spec());
    v
}


/// The items of the table that have severity `s`, in table order.
pub open spec fn items_of<T>(t: Seq<(T, Severity)>, s: Severity) -> Seq<T>
    decreases t.len(),
{
    if t.len() == 0 {
        Seq::empty()
    } else if t.last().1 == s {
        items_of(t.drop_last(), s).push(t.last().0)
    } else {
        items_of(t.drop_last(), s)
    }
}

/// The strings, by their characters.
pub open spec fn texts(v: Seq<String>) -> Seq<Seq<char>> {
    Seq::new(v.len(), |i: int| v[i]@)
}

/// Each severity's list holds that severity's texts of the table, in order,
/// and is absent when there are none.
pub open spec fn groups_texts(m: SeverityMap<String>, t: Seq<(Seq<char>, Severity)>) -> bool {
    forall|s: Severity| match #[trigger] m.spec_list(s) {
        None => items_of(t, s).len() == 0,
        Some(v) => items_of(t, s).len() > 0 && texts(v@) == items_of(t, s),
    }
}

/// Each severity's list holds that severity's ports of the table, in order,
/// and is absent when there are none.
pub open spec fn groups_ports(m: SeverityMap<u16>, t: Seq<(u16, Severity)>) -> bool {
    forall|s: Severity| match #[trigger] m.spec_list(s) {
        None => items_of(t, s).len() == 0,
        Some(v) => items_of(t, s).len() > 0 && v@ == items_of(t, s),
    }
}

/// Groups a table of texts by severity.
pub fn group_texts(table: &Vec<(&str, Severity)>) -> (m: SeverityMap<String>)
    ensures
        groups_texts(m, text_table(table@)),
{
    let mut m: SeverityMap<String> = SeverityMap::new();
    let mut i: usize = 0;
    assert(text_table(table@).take(0) =~= Seq::<(Seq<char>, Severity)>::empty());
    while i < table.len()
        invariant
            i <= table@.len(),
            groups_texts(m, text_table(table@).take(i as int)),
        decreases table.len() - i,
    {
        let (path, sev) = table[i];
        let ghost before = m;
        m.push_item(sev, path.to_owned());
        let ghost t = text_table(table@).take(i + 1);
        assert(t.drop_last() =~= text_table(table@).take(i as int));
        assert(t.last() == (path@, sev));
        assert forall|s: Severity| match #[trigger] m.spec_list(s) {
            None => items_of(t, s).len() == 0,
            Some(v) => items_of(t, s).len() > 0 && texts(v@) == items_of(t, s),
        } by {
            if s == sev {
                let prev = before.spec_list(s);
                match prev {
                    Some(w) => {
                        assert(texts(m.spec_list(s)->0@) =~= texts(w@).push(path@));
                    },
                    None => {
                        assert(texts(m.spec_list(s)->0@) =~= seq![path@]);
                        assert(items_of(text_table(table@).take(i as int), s) =~= Seq::<Seq<char>>::empty());
                    },
                }
            } else {
                assert(m.spec_list(s) == before.spec_list(s));
            }
        }
        i = i + 1;
    }
    assert(text_table(table@).take(table@.len() as int) =~= text_table(table@));
    m
}

/// Groups a table of ports by severity.
pub fn group_ports(table: &Vec<(u16, Severity)>) -> (m: SeverityMap<u16>)
    ensures
        groups_ports(m, table@),
{
    let mut m: SeverityMap<u16> = SeverityMap::new();
    let mut i: usize = 0;
    assert(table@.take(0) =~= Seq::<(u16, Severity)>::empty());
    while i < table.len()
        invariant
            i <= table@.len(),
            groups_ports(m, table@.take(i as int)),
        decreases table.len() - i,
    {
        let (port, sev) = table[i];
        let ghost before = m;
        m.push_item(sev, port);
        let ghost t = table@.take(i + 1);
        assert(t.drop_last() =~= table@.take(i as int));
        assert(t.last() == (port, sev));
        assert forall|s: Severity| match #[trigger] m.spec_list(s) {
            None => items_of(t, s).len() == 0,
            Some(v) => items_of(t, s).len() > 0 && v@ == items_of(t, s),
        } by {
            if s == sev {
                match before.spec_list(s) {
                    Some(w) => {},
                    None => {
                        assert(items_of(table@.take(i as int), s) =~= Seq::<u16>::empty());
                        assert(m.spec_list(s)->0@ =~= seq![port]);
                    },
                }
            } else {
                assert(m.spec_list(s) == before.spec_list(s));
            }
        }
        i = i + 1;
    }
    assert(table@.take(table@.len() as int) =~= table@);
    m
}

/// The rules written to an empty rules file: the sensitive paths, suspicious
/// executable locations and suspicious ports of the built-in tables, grouped
/// by severity and enabled; no ignore lists.
pub fn default_rules() -> (r: Rules)
    ensures
        r.sensitive_path matches Some(c) && c.enabled && groups_texts(c.paths, path_severity_spec()),
        r.suspicious_exec_path matches Some(c) && c.enabled && groups_texts(c.paths, exec_path_spec()),
        r.suspicious_ports matches Some(c) && c.enabled && groups_ports(c.ports, port_spec()),
        r.ignore_pids is None,
        r.ignore_comm_name is None,
        r.ignore_exe_path is None,
{
    let paths = group_texts(&path_severity());
    let exec_paths = group_texts(&suspicious_exec_paths());
    let ports = group_ports(&suspicious_ports());
    Rules {
        sensitive_path: Some(SensitivePathConfig { enabled: true, paths }),
        suspicious_exec_path: Some(SuspiciousExecPathConfig { enabled: true, paths: exec_paths }),
        suspicious_ports: Some(SuspiciousPortsConfig { enabled: true, ports }),
        ignore_pids: None,
        ignore_comm_name: None,
        ignore_exe_path: None,
    }
}

/// A rules or configuration file holds nothing but whitespace (it is then
/// filled with the defaults).
pub fn is_blank(buf: &str) -> (res: bool)
    ensures
        res == (trimmed(buf@).len() == 0),
{
    trim_text(buf).as_str().is_empty()
}

/// Grouping by severity loses and adds nothing: the groups' sizes add up to
/// the table's size.
pub proof fn lemma_groups_partition<T>(t: Seq<(T, Severity)>)
    ensures
        items_of(t, Severity::Info).len() + items_of(t, Severity::Low).len() + items_of(t, Severity::Medium).len()
            + items_of(t, Severity::High).len() + items_of(t, Severity::Critical).len() == t.len(),
    decreases t.len(),
{
    if t.len() > 0 {
        lemma_groups_partition(t.drop_last());
    }
}
} // verus!
