//! Rule configuration: per-severity lists and the rules file's sections.
use vstd::prelude::*;
use crate::model::Severity;
use crate::path::{path_has_prefix, path_starts_with};
use crate::text::{has_prefix, str_starts_with};

verus! {

/// A list of items for each severity that has one (what the rules file
/// writes as a table keyed by severity).
#[derive(Clone, Debug, PartialEq)]
pub struct SeverityMap<T> {
    pub info: Option<Vec<T>>,
    pub low: Option<Vec<T>>,
    pub medium: Option<Vec<T>>,
    pub high: Option<Vec<T>>,
    pub critical: Option<Vec<T>>,
}

/// The lowest severity, going from `Info` up, whose flag is set.
pub open spec fn first_flagged(info: bool, low: bool, medium: bool, high: bool, critical: bool) -> Option<Severity> {
    if info {
        Some(Severity::Info)
    } else if low {
        Some(Severity::Low)
    } else if medium {
        Some(Severity::Medium)
    } else if high {
        Some(Severity::High)
    } else if critical {
        Some(Severity::Critical)
    } else {
        None
    }
}

/// The highest severity, going from `Critical` down, whose flag is set.
pub open spec fn last_flagged(info: bool, low: bool, medium: bool, high: bool, critical: bool) -> Option<Severity> {
    if critical {
        Some(Severity::Critical)
    } else if high {
        Some(Severity::High)
    } else if medium {
        Some(Severity::Medium)
    } else if low {
        Some(Severity::Low)
    } else if info {
        Some(Severity::Info)
    } else {
        None
    }
}

/// The (present) list holds a text prefix of `path`.
pub open spec fn text_hit(l: Option<Vec<String>>, path: Seq<char>) -> bool {
    match l {
        Some(v) => exists|i: int| 0 <= i < v@.len() && has_prefix(path, #[trigger] v@[i]@),
        None => false,
    }
}

/// The (present) list holds a leading part, in whole components, of the path `path`.
pub open spec fn path_hit(l: Option<Vec<String>>, path: Seq<char>) -> bool {
    match l {
        Some(v) => exists|i: int| 0 <= i < v@.len() && path_has_prefix(path, #[trigger] v@[i]@),
        None => false,
    }
}

/// The (present) list holds port `a` or port `b`.
pub open spec fn port_hit(l: Option<Vec<u16>>, a: u16, b: u16) -> bool {
    match l {
        Some(v) => exists|i: int| 0 <= i < v@.len() && (#[trigger] v@[i] == a || v@[i] == b),
        None => false,
    }
}

impl SeverityMap<String> {
    /// The highest severity whose list holds a text prefix of `path`: a more
    /// specific prefix listed under a higher severity is not shadowed by a
    /// shorter one listed lower.
    pub open spec fn highest_text_hit(&self, path: Seq<char>) -> Option<Severity> {
        last_flagged(text_hit(self.info, path), text_hit(self.low, path), text_hit(self.medium, path),
            text_hit(self.high, path), text_hit(self.critical, path))
    }

    /// The lowest severity whose list holds a leading part of the path `path`.
    pub open spec fn first_path_hit(&self, path: Seq<char>) -> Option<Severity> {
        first_flagged(path_hit(self.info, path), path_hit(self.low, path), path_hit(self.medium, path),
            path_hit(self.high, path), path_hit(self.critical, path))
    }
}

impl SeverityMap<u16> {
    /// The lowest severity whose list holds port `a` or `b`.
    pub open spec fn first_port_hit(&self, a: u16, b: u16) -> Option<Severity> {
        first_flagged(port_hit(self.info, a, b), port_hit(self.low, a, b), port_hit(self.medium, a, b),
            port_hit(self.high, a, b), port_hit(self.critical, a, b))
    }
}

impl<T> SeverityMap<T> {
    /// A map with no lists.
    pub fn new() -> (m: Self)
        ensures
            m.info is None && m.low is None && m.medium is None && m.high is None && m.critical is None,
    {
        SeverityMap { info: None, low: None, medium: None, high: None, critical: None }
    }

    /// The list of a severity.
    pub open spec fn spec_list(&self, sev: Severity) -> Option<Vec<T>> {
        match sev {
            Severity::Info => self.info,
            Severity::Low => self.low,
            Severity::Medium => self.medium,
            Severity::High => self.high,
            Severity::Critical => self.critical,
        }
    }

    /// The list of a severity.
    pub fn list(&self, sev: Severity) -> (res: &Option<Vec<T>>)
        ensures
            *res == self.spec_list(sev),
    {
        match sev {
            Severity::Info => &self.info,
            Severity::Low => &self.low,
            Severity::Medium => &self.medium,
            Severity::High => &self.high,
            Severity::Critical => &self.critical,
        }
    }

    /// Appends an item to the list of a severity, creating the list when absent.
    pub fn push_item(&mut self, sev: Severity, item: T)
        ensures
            forall|s: Severity| s != sev ==> #[trigger] final(self).spec_list(s) == old(self).spec_list(s),
            final(self).spec_list(sev) matches Some(v) && v@ == (match old(self).spec_list(sev) {
                Some(w) => w@,
                None => Seq::empty(),
            }).push(item),
    {
        let slot = match sev {
            Severity::Info => &mut self.info,
            Severity::Low => &mut self.low,
            Severity::Medium => &mut self.medium,
            Severity::High => &mut self.high,
            Severity::Critical => &mut self.critical,
        };
        match slot {
            Some(v) => v.push(item),
            None => {
                let mut v = Vec::new();
                v.push(item);
                *slot = Some(v);
            },
        }
    }
}

fn list_has_text_prefix(l: &Option<Vec<String>>, path: &str) -> (res: bool)
    ensures
        res == text_hit(*l, path@),
{
    match l {
        Some(v) => {
            let mut i: usize = 0;
            while i < v.len()
                invariant
                    *l == Some(*v),
                    i <= v@.len(),
                    forall|j: int| 0 <= j < i ==> !has_prefix(path@, #[trigger] v@[j]@),
                decreases v.len() - i,
            {
                if str_starts_with(path, v[i].as_str()) {
                    let ghost w: Vec<String> = (*l)->0;
                    assert(0 <= i < w@.len() && has_prefix(path@, w@[i as int]@));
                    return true;
                }
                i = i + 1;
            }
            false
        },
        None => false,
    }
}

fn list_has_path_prefix(l: &Option<Vec<String>>, path: &str) -> (res: bool)
    ensures
        res == path_hit(*l, path@),
{
    match l {
        Some(v) => {
            let mut i: usize = 0;
            while i < v.len()
                invariant
                    *l == Some(*v),
                    i <= v@.len(),
                    forall|j: int| 0 <= j < i ==> !path_has_prefix(path@, #[trigger] v@[j]@),
                decreases v.len() - i,
            {
                if path_starts_with(path, v[i].as_str()) {
                    let ghost w: Vec<String> = (*l)->0;
                    assert(0 <= i < w@.len() && path_has_prefix(path@, w@[i as int]@));
                    return true;
                }
                i = i + 1;
            }
            false
        },
        None => false,
    }
}

fn list_has_port(l: &Option<Vec<u16>>, a: u16, b: u16) -> (res: bool)
    ensures
        res == port_hit(*l, a, b),
{
    match l {
        Some(v) => {
            let mut i: usize = 0;
            while i < v.len()
                invariant
                    *l == Some(*v),
                    i <= v@.len(),
                    forall|j: int| 0 <= j < i ==> !(#[trigger] v@[j] == a || v@[j] == b),
                decreases v.len() - i,
            {
                if v[i] == a || v[i] == b {
                    let ghost w: Vec<u16> = (*l)->0;
                    assert(0 <= i < w@.len() && (w@[i as int] == a || w@[i as int] == b));
                    return true;
                }
                i = i + 1;
            }
            false
        },
        None => false,
    }
}

/// The highest severity whose list holds a text prefix of `path`.
pub fn highest_text_prefix(m: &SeverityMap<String>, path: &str) -> (res: Option<Severity>)
    ensures
        res == m.highest_text_hit(path@),
{
    if list_has_text_prefix(&m.critical, path) {
        Some(Severity::Critical)
    } else if list_has_text_prefix(&m.high, path) {
        Some(Severity::High)
    } else if list_has_text_prefix(&m.medium, path) {
        Some(Severity::Medium)
    } else if list_has_text_prefix(&m.low, path) {
        Some(Severity::Low)
    } else if list_has_text_prefix(&m.info, path) {
        Some(Severity::Info)
    } else {
        None
    }
}

/// The lowest severity whose list holds a leading part of the path `path`.
pub fn first_path_prefix(m: &SeverityMap<String>, path: &str) -> (res: Option<Severity>)
    ensures
        res == m.first_path_hit(path@),
{
    if list_has_path_prefix(&m.info, path) {
        Some(Severity::Info)
    } else if list_has_path_prefix(&m.low, path) {
        Some(Severity::Low)
    } else if list_has_path_prefix(&m.medium, path) {
        Some(Severity::Medium)
    } else if list_has_path_prefix(&m.high, path) {
        Some(Severity::High)
    } else if list_has_path_prefix(&m.critical, path) {
        Some(Severity::Critical)
    } else {
        None
    }
}

/// The lowest severity whose list holds one of two ports.
pub fn first_port(m: &SeverityMap<u16>, a: u16, b: u16) -> (res: Option<Severity>)
    ensures
        res == m.first_port_hit(a, b),
{
    if list_has_port(&m.info, a, b) {
        Some(Severity::Info)
    } else if list_has_port(&m.low, a, b) {
        Some(Severity::Low)
    } else if list_has_port(&m.medium, a, b) {
        Some(Severity::Medium)
    } else if list_has_port(&m.high, a, b) {
        Some(Severity::High)
    } else if list_has_port(&m.critical, a, b) {
        Some(Severity::Critical)
    } else {
        None
    }
}

/// Severity by the path a file event touches.
#[derive(Clone, Debug, PartialEq)]
pub struct SensitivePathConfig {
    pub enabled: bool,
    pub paths: SeverityMap<String>,
}

/// Severity by the directory a process runs its executable from.
#[derive(Clone, Debug, PartialEq)]
pub struct SuspiciousExecPathConfig {
    pub enabled: bool,
    pub paths: SeverityMap<String>,
}

/// Severity by the ports of a connection.
#[derive(Clone, Debug, PartialEq)]
pub struct SuspiciousPortsConfig {
    pub enabled: bool,
    pub ports: SeverityMap<u16>,
}

/// Events of these processes are dropped.
#[derive(Clone, Debug, PartialEq)]
pub struct IgnorePidsConfig {
    pub enabled: bool,
    pub pids: Vec<u32>,
}

/// Events of processes whose name starts with one of these are dropped.
#[derive(Clone, Debug, PartialEq)]
pub struct IgnoreCommName {
    pub enabled: bool,
    pub names: Vec<String>,
}

/// Events of processes whose executable lies under one of these paths are dropped.
#[derive(Clone, Debug, PartialEq)]
pub struct IgnoreExePath {
    pub enabled: bool,
    pub paths: Vec<String>,
}

/// The rules file.
#[derive(Clone, Debug, PartialEq)]
pub struct Rules {
    pub sensitive_path: Option<SensitivePathConfig>,
    pub suspicious_exec_path: Option<SuspiciousExecPathConfig>,
    pub suspicious_ports: Option<SuspiciousPortsConfig>,
    pub ignore_pids: Option<IgnorePidsConfig>,
    pub ignore_comm_name: Option<IgnoreCommName>,
    pub ignore_exe_path: Option<IgnoreExePath>,
}

} // verus!
