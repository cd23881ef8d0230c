//! Classification rules and the engine that applies them to events.
use vstd::prelude::*;
use std::collections::HashMap;
use bpfx::file::FileInfo;
use crate::gen_db::{IpsumDb, find_v4, find_v6, search_v4, search_v6};
use crate::model::{
    AcceptEvent, BindEvent, Classified, CloseEvent, ConnectEvent, EventHeader, FileCloseEvent,
    FileDeleteEvent, FileOpenEvent, FileReadEvent, FileRenameEvent, FileWriteEvent, ListenEvent,
    ProcessExitEvent, ProcessForkEvent, ProcessInfo, ProcessStartEvent, Severity, SocketEndpoints, max_severity,
    severity_max,
};
use crate::helper::op_label;
use crate::net::{IpAddress, IpKind, ip_is_unspecified, ip_kind, classify};
use crate::path::{path_has_prefix, path_starts_with};
use crate::rules::{
    Rules, SensitivePathConfig, SeverityMap, SuspiciousExecPathConfig, SuspiciousPortsConfig,
    first_path_prefix, first_port, highest_text_prefix, port_hit, text_hit,
};
use crate::text::{dec, dec_string, has_prefix, str_eq, str_starts_with};

verus! {

broadcast use vstd::std_specs::hash::group_hash_axioms;

/// A borrowed event of any kind, as the rules see it.
pub enum Event<'a> {
    FileOpen(&'a FileOpenEvent),
    FileClose(&'a FileCloseEvent),
    FileRead(&'a FileReadEvent),
    FileRename(&'a FileRenameEvent),
    FileWrite(&'a FileWriteEvent),
    FileDelete(&'a FileDeleteEvent),
    ProcessStart(&'a ProcessStartEvent),
    ProcessExit(&'a ProcessExitEvent),
    ProcessFork(&'a ProcessForkEvent),
    NetworkAccept(&'a AcceptEvent),
    NetworkConnect(&'a ConnectEvent),
    NetworkBind(&'a BindEvent),
    NetworkListen(&'a ListenEvent),
    NetworkClose(&'a CloseEvent),
}

/// What rules may consult besides the event.
pub struct RuleContext<'a> {
    /// Known processes by pid.
    pub process_cache: &'a HashMap<u32, ProcessInfo>,
    /// The reputation database, when one could be read.
    pub ipsum: Option<&'a IpsumDb>,
    /// The rules file, when one could be read.
    pub rules_config: Option<&'a Rules>,
    /// Where the executable of the event's process lies ("" when unknown).
    pub exe: &'a str,
}

/// What rules may consult besides the event, as plain values.
pub struct CtxView {
    /// Executable path of each known process.
    pub cache: Map<u32, Seq<char>>,
    pub ipsum: Option<IpsumDb>,
    pub rules: Option<Rules>,
    pub exe: Seq<char>,
}

/// The executable path of each known process.
pub open spec fn exe_view(m: Map<u32, ProcessInfo>) -> Map<u32, Seq<char>> {
    m.map_values(|p: ProcessInfo| p.exe@)
}

impl CtxView {
    /// The same context with another table of executables.
    pub open spec fn with_cache(self, cache: Map<u32, Seq<char>>) -> CtxView {
        CtxView { cache, ..self }
    }
}

impl<'a> View for RuleContext<'a> {
    type V = CtxView;

    open spec fn view(&self) -> CtxView {
        CtxView {
            cache: exe_view(self.process_cache@),
            ipsum: match self.ipsum { Some(d) => Some(*d), None => None },
            rules: match self.rules_config { Some(r) => Some(*r), None => None },
            exe: self.exe@,
        }
    }
}

/// `name` as a one-element list when `set`, else nothing.
pub open spec fn flag_if(set: bool, name: Seq<char>) -> Seq<Seq<char>> {
    if set { seq![name] } else { Seq::empty() }
}

/// The flag names bpfx reports for raw open flags: the access mode (none for
/// the undefined mode 3), then each set status flag in a fixed order, then
/// TMPFILE when all of its bits are set.
pub open spec fn open_flag_names(f: u32) -> Seq<Seq<char>> {
    let mode = f & 3u32;
    flag_if(mode == 0, seq!['R', 'D', 'O', 'N', 'L', 'Y'])
        + flag_if(mode == 1, seq!['W', 'R', 'O', 'N', 'L', 'Y'])
        + flag_if(mode == 2, seq!['R', 'D', 'W', 'R'])
        + flag_if(f & 0x400u32 != 0, seq!['A', 'P', 'P', 'E', 'N', 'D'])
        + flag_if(f & 0x2000u32 != 0, seq!['A', 'S', 'Y', 'N', 'C'])
        + flag_if(f & 0x80000u32 != 0, seq!['C', 'L', 'O', 'E', 'X', 'E', 'C'])
        + flag_if(f & 0x40u32 != 0, seq!['C', 'R', 'E', 'A', 'T'])
        + flag_if(f & 0x4000u32 != 0, seq!['D', 'I', 'R', 'E', 'C', 'T'])
        + flag_if(f & 0x10000u32 != 0, seq!['D', 'I', 'R', 'E', 'C', 'T', 'O', 'R', 'Y'])
        + flag_if(f & 0x1000u32 != 0, seq!['D', 'S', 'Y', 'N', 'C'])
        + flag_if(f & 0x80u32 != 0, seq!['E', 'X', 'C', 'L'])
        + flag_if(f & 0x40000u32 != 0, seq!['N', 'O', 'A', 'T', 'I', 'M', 'E'])
        + flag_if(f & 0x100u32 != 0, seq!['N', 'O', 'C', 'T', 'T', 'Y'])
        + flag_if(f & 0x20000u32 != 0, seq!['N', 'O', 'F', 'O', 'L', 'L', 'O', 'W'])
        + flag_if(f & 0x800u32 != 0, seq!['N', 'O', 'N', 'B', 'L', 'O', 'C', 'K'])
        + flag_if(f & 0x200000u32 != 0, seq!['P', 'A', 'T', 'H'])
        + flag_if(f & 0x101000u32 != 0, seq!['S', 'Y', 'N', 'C'])
        + flag_if(f & 0x200u32 != 0, seq!['T', 'R', 'U', 'N', 'C'])
        + flag_if(f & 0x410000u32 == 0x410000u32, seq!['T', 'M', 'P', 'F', 'I', 'L', 'E'])
}

/// The texts joined by '|'.
pub open spec fn join_bar(parts: Seq<Seq<char>>) -> Seq<char>
    decreases parts.len(),
{
    if parts.len() == 0 {
        Seq::empty()
    } else if parts.len() == 1 {
        parts[0]
    } else {
        join_bar(parts.drop_last()) + seq!['|'] + parts.last()
    }
}

/// The text `FileInfo::flags` of bpfx gives for raw open flags: the access
/// mode, then the names of the set status flags, joined by '|'.
pub open spec fn open_flags_text(flags: u32) -> Seq<char> {
    join_bar(open_flag_names(flags))
}

/// Renders raw open flags with bpfx's `FileInfo::flags` (bpfx-common's flag
/// constants: O_APPEND 0x400, O_ASYNC 0x2000, O_CLOEXEC 0x80000, O_CREAT 0x40,
/// O_DIRECT 0x4000, O_DIRECTORY 0x10000, O_DSYNC 0x1000, O_EXCL 0x80,
/// O_NOATIME 0x40000, O_NOCTTY 0x100, O_NOFOLLOW 0x20000, O_NONBLOCK 0x800,
/// O_PATH 0x200000, O_SYNC 0x101000, O_TRUNC 0x200, O_TMPFILE 0x410000).
#[verifier::external_body]
pub(crate) fn flags_text(flags: u32) -> (res: String)
    ensures
        res@ == open_flags_text(flags),
{
    let header = bpfx::EventHeader { timestamp_ns: 0, pid: 0, tid: 0, ppid: 0, uid: 0, gid: 0, comm: String::new() };
    bpfx::file::FileOpenEvent {
        header, file_path: String::new(), file_type: bpfx::FileType::Unknown, inode: 0, retval: 0, flags,
    }.flags()
}

/// The file was opened for writing (access mode write-only or read-write).
pub open spec fn opened_for_write(flags: u32) -> bool {
    flags % 4 == 1 || flags % 4 == 2
}

/// Whether raw open flags grant writing (`FileInfo::is_write`).
pub fn is_write(flags: u32) -> (res: bool)
    ensures
        res == opened_for_write(flags),
{
    flags % 4 == 1 || flags % 4 == 2
}

/// Severity by the flag text of a file event.
pub open spec fn flag_severity(t: Seq<char>) -> Option<Severity> {
    if t == "RDONLY"@ {
        Some(Severity::Low)
    } else if t == "WRONLY"@ {
        Some(Severity::Medium)
    } else if t == "RDWR"@ {
        Some(Severity::Medium)
    } else if t == "CREAT"@ {
        Some(Severity::Medium)
    } else if t == "TRUNC"@ {
        Some(Severity::High)
    } else {
        None
    }
}

/// Severity by the flag text of a file event.
pub fn flag_text_severity(t: &str) -> (res: Option<Severity>)
    ensures
        res == flag_severity(t@),
{
    if str_eq(t, "RDONLY") {
        Some(Severity::Low)
    } else if str_eq(t, "WRONLY") {
        Some(Severity::Medium)
    } else if str_eq(t, "RDWR") {
        Some(Severity::Medium)
    } else if str_eq(t, "CREAT") {
        Some(Severity::Medium)
    } else if str_eq(t, "TRUNC") {
        Some(Severity::High)
    } else {
        None
    }
}

/// Severity by the device a file event touches: the first of these prefixes
/// that the path has decides.
pub open spec fn input_device_severity(path: Seq<char>) -> Option<Severity> {
    if has_prefix(path, "/dev/input/"@) {
        Some(Severity::High)
    } else if has_prefix(path, "/dev/tty"@) {
        Some(Severity::Medium)
    } else if has_prefix(path, "/dev/pts/"@) {
        Some(Severity::Medium)
    } else if has_prefix(path, "/dev/hidraw"@) {
        Some(Severity::High)
    } else if has_prefix(path, "/dev/uinput"@) {
        Some(Severity::High)
    } else if has_prefix(path, "/dev/input/mice"@) {
        Some(Severity::Medium)
    } else if has_prefix(path, "/dev/input/mouse"@) {
        Some(Severity::Medium)
    } else if has_prefix(path, "/dev/input/event"@) {
        Some(Severity::High)
    } else {
        None
    }
}

/// Severity by the device a file event touches.
pub fn input_device_path_severity(path: &str) -> (res: Option<Severity>)
    ensures
        res == input_device_severity(path@),
{
    if str_starts_with(path, "/dev/input/") {
        Some(Severity::High)
    } else if str_starts_with(path, "/dev/tty") {
        Some(Severity::Medium)
    } else if str_starts_with(path, "/dev/pts/") {
        Some(Severity::Medium)
    } else if str_starts_with(path, "/dev/hidraw") {
        Some(Severity::High)
    } else if str_starts_with(path, "/dev/uinput") {
        Some(Severity::High)
    } else if str_starts_with(path, "/dev/input/mice") {
        Some(Severity::Medium)
    } else if str_starts_with(path, "/dev/input/mouse") {
        Some(Severity::Medium)
    } else if str_starts_with(path, "/dev/input/event") {
        Some(Severity::High)
    } else {
        None
    }
}

/// Severity by the reputation score of an address: 1 to 3 lists give
/// `Medium`, 4 lists `High`, any other count `Critical`.
pub open spec fn score_severity(score: u8) -> Severity {
    if score == 1 || score == 2 || score == 3 {
        Severity::Medium
    } else if score == 4 {
        Severity::High
    } else {
        Severity::Critical
    }
}

/// Severity by the reputation score of an address.
pub fn score_to_severity(score: u8) -> (res: Severity)
    ensures
        res == score_severity(score),
{
    match score {
        1 | 2 | 3 => Severity::Medium,
        4 => Severity::High,
        _ => Severity::Critical,
    }
}

/// Severity by the reputation of an address in the database: the score of
/// the entry that the binary search finds, or `None` when it finds none.
pub open spec fn reputation_severity(db: IpsumDb, ip: IpAddress) -> Option<Severity> {
    match ip {
        IpAddress::V4(a) => match search_v4(db.v4@, a, 0, db.v4@.len() as int) {
            Some(i) => Some(score_severity(db.v4@[i].score)),
            None => None,
        },
        IpAddress::V6(a) => match search_v6(db.v6@, a, 0, db.v6@.len() as int) {
            Some(i) => Some(score_severity(db.v6@[i].score)),
            None => None,
        },
    }
}

/// Reads the reputation of an address.
pub fn lookup_reputation(db: &IpsumDb, ip: IpAddress) -> (res: Option<Severity>)
    ensures
        res == reputation_severity(*db, ip),
{
    match ip {
        IpAddress::V4(a) => match find_v4(&db.v4, a) {
            Some(i) => Some(score_to_severity(db.v4[i].score)),
            None => None,
        },
        IpAddress::V6(a) => match find_v6(&db.v6, a) {
            Some(i) => Some(score_to_severity(db.v6[i].score)),
            None => None,
        },
    }
}

/// Access to a file event touching the device of an input or a terminal.
pub struct SuspiciousInputDeviceAccessRule;

/// A file event with an unusual open mode.
pub struct FlagRule;

/// A file opened for writing by root.
pub struct RootWriteRule;

/// A file event of a process running from a temporary directory.
pub struct TempExecutableRule;

/// The reputation of the remote address of a connection.
pub struct SuspiciousIpRule;

/// The kind of the remote address of a connection.
pub struct IpClassificationRule;

/// A connection or listening socket of a root process.
pub struct RunAsRootRule;

/// A bind to the unspecified address or to a privileged port.
pub struct BindConnRules;

/// A process event of a root process.
pub struct RunAsRootProcessRule;

/// Outcome of the input-device rule.
pub open spec fn input_device_outcome(ev: Event) -> Option<Severity> {
    match ev {
        Event::FileOpen(e) => input_device_severity(e.file_path@),
        Event::FileClose(e) => input_device_severity(e.file_path@),
        Event::FileRead(e) => input_device_severity(e.file_path@),
        Event::FileWrite(e) => input_device_severity(e.file_path@),
        _ => None,
    }
}

/// Outcome of the sensitive-path rule: the highest severity whose list in the
/// rules file holds a text prefix of the path (so `/root/.ssh/` under
/// Critical wins over `/root/` under Medium), when that section is present
/// and enabled.
pub open spec fn sensitive_path_outcome(ev: Event, ctx: CtxView) -> Option<Severity> {
    let path = match ev {
        Event::FileOpen(e) => Some(e.file_path@),
        Event::FileClose(e) => Some(e.file_path@),
        _ => None,
    };
    match (path, ctx.rules) {
        (Some(p), Some(r)) => match r.sensitive_path {
            Some(c) => if c.enabled { c.paths.highest_text_hit(p) } else { None },
            None => None,
        },
        _ => None,
    }
}

/// Outcome of the flag rule.
pub open spec fn flag_outcome(ev: Event) -> Option<Severity> {
    match ev {
        Event::FileOpen(e) => flag_severity(open_flags_text(e.flags)),
        Event::FileClose(e) => flag_severity(open_flags_text(e.flags)),
        Event::FileRead(e) => flag_severity(open_flags_text(e.flags)),
        Event::FileWrite(e) => flag_severity(open_flags_text(e.flags)),
        Event::FileRename(e) => flag_severity(dec(e.flags as nat)),
        _ => None,
    }
}

/// Outcome of the root-write rule.
pub open spec fn root_write_outcome(ev: Event) -> Option<Severity> {
    match ev {
        Event::FileOpen(e) => if e.header.uid == 0 && opened_for_write(e.flags) { Some(Severity::High) } else { None },
        Event::FileClose(e) => if e.header.uid == 0 && opened_for_write(e.flags) { Some(Severity::High) } else { None },
        _ => None,
    }
}

/// The known process `pid` runs from under `/tmp` or `/dev/shm`.
pub open spec fn runs_from_temp(cache: Map<u32, Seq<char>>, pid: u32) -> bool {
    cache.contains_key(pid) && (path_has_prefix(cache[pid], "/tmp"@)
        || path_has_prefix(cache[pid], "/dev/shm"@))
}

/// Outcome of the temporary-executable rule.
pub open spec fn temp_exec_outcome(ev: Event, ctx: CtxView) -> Option<Severity> {
    match ev {
        Event::FileOpen(e) => if runs_from_temp(ctx.cache, e.header.pid) { Some(Severity::High) } else { None },
        Event::FileClose(e) => if runs_from_temp(ctx.cache, e.header.pid) { Some(Severity::High) } else { None },
        _ => None,
    }
}

/// Outcome of the suspicious-port rule: the lowest severity whose list in the
/// rules file holds the remote or the local port.
pub open spec fn ports_outcome(ev: Event, ctx: CtxView) -> Option<Severity> {
    let ep = match ev {
        Event::NetworkAccept(e) => Some(e.endpoints),
        Event::NetworkConnect(e) => Some(e.endpoints),
        _ => None,
    };
    match (ep, ctx.rules) {
        (Some(x), Some(r)) => match r.suspicious_ports {
            Some(c) => if c.enabled { c.ports.first_port_hit(x.remote_port, x.local_port) } else { None },
            None => None,
        },
        _ => None,
    }
}

/// Outcome of the reputation rule.
pub open spec fn ip_reputation_outcome(ev: Event, ctx: CtxView) -> Option<Severity> {
    let ep = match ev {
        Event::NetworkAccept(e) => Some(e.endpoints),
        Event::NetworkConnect(e) => Some(e.endpoints),
        Event::NetworkBind(e) => Some(e.endpoints),
        Event::NetworkListen(e) => Some(e.endpoints),
        Event::NetworkClose(e) => Some(e.endpoints),
        _ => None,
    };
    match (ep, ctx.ipsum) {
        (Some(x), Some(db)) => reputation_severity(db, x.remote_ip),
        _ => None,
    }
}

/// Severity by the kind of a remote address: public addresses `Low`,
/// private and loopback ones `Info`, others none.
pub open spec fn kind_severity(k: IpKind) -> Option<Severity> {
    match k {
        IpKind::Public => Some(Severity::Low),
        IpKind::Private => Some(Severity::Info),
        IpKind::Loopback => Some(Severity::Info),
        _ => None,
    }
}

/// Outcome of the address-kind rule.
pub open spec fn ip_class_outcome(ev: Event) -> Option<Severity> {
    match ev {
        Event::NetworkBind(e) => kind_severity(ip_kind(e.endpoints.remote_ip)),
        Event::NetworkListen(e) => kind_severity(ip_kind(e.endpoints.remote_ip)),
        Event::NetworkConnect(e) => kind_severity(ip_kind(e.endpoints.remote_ip)),
        Event::NetworkAccept(e) => kind_severity(ip_kind(e.endpoints.remote_ip)),
        _ => None,
    }
}

/// Outcome of the root-connection rule.
pub open spec fn run_as_root_outcome(ev: Event) -> Option<Severity> {
    match ev {
        Event::NetworkListen(e) => if e.header.uid == 0 { Some(Severity::Low) } else { None },
        Event::NetworkConnect(e) => if e.header.uid == 0 { Some(Severity::Low) } else { None },
        _ => None,
    }
}

/// Outcome of the bind rule.
pub open spec fn bind_outcome(ev: Event) -> Option<Severity> {
    match ev {
        Event::NetworkBind(e) => if ip_is_unspecified(e.endpoints.local_ip) || e.endpoints.local_port < 1024 {
            Some(Severity::Low)
        } else {
            None
        },
        _ => None,
    }
}

/// The header of a process event (the parent's for a fork).
pub open spec fn process_header(ev: Event) -> Option<EventHeader> {
    match ev {
        Event::ProcessStart(e) => Some(e.header),
        Event::ProcessExit(e) => Some(e.header),
        Event::ProcessFork(e) => Some(e.parent),
        _ => None,
    }
}

/// Outcome of the root-process rule.
pub open spec fn root_process_outcome(ev: Event) -> Option<Severity> {
    match process_header(ev) {
        Some(h) => if h.uid == 0 { Some(Severity::Low) } else { None },
        None => None,
    }
}

/// Outcome of the suspicious-executable-path rule: the lowest severity whose
/// list in the rules file holds a leading part of the process's executable path.
pub open spec fn exec_path_outcome(ev: Event, ctx: CtxView) -> Option<Severity> {
    match (process_header(ev), ctx.rules) {
        (Some(_), Some(r)) => match r.suspicious_exec_path {
            Some(c) => if c.enabled { c.paths.first_path_hit(ctx.exe) } else { None },
            None => None,
        },
        _ => None,
    }
}

impl SuspiciousInputDeviceAccessRule {
    pub fn name(&self) -> (res: &'static str)
        ensures res@ == "SuspiciousInputDeviceAccessRule"@,
    {
        "SuspiciousInputDeviceAccessRule"
    }

    pub fn check(&self, event: &Event, _ctx: &RuleContext) -> (res: Option<Severity>)
        ensures res == input_device_outcome(*event),
    {
        match event {
            Event::FileOpen(e) => input_device_path_severity(e.file_path.as_str()),
            Event::FileClose(e) => input_device_path_severity(e.file_path.as_str()),
            Event::FileRead(e) => input_device_path_severity(e.file_path.as_str()),
            Event::FileWrite(e) => input_device_path_severity(e.file_path.as_str()),
            _ => None,
        }
    }
}

impl SensitivePathConfig {
    pub fn name(&self) -> (res: &'static str)
        ensures res@ == "SensitivePath"@,
    {
        "SensitivePath"
    }

    /// Consults the section of the rules file in the context (not `self`).
    pub fn check(&self, event: &Event, ctx: &RuleContext) -> (res: Option<Severity>)
        ensures res == sensitive_path_outcome(*event, ctx@),
    {
        let path: &str = match event {
            Event::FileOpen(e) => e.file_path.as_str(),
            Event::FileClose(e) => e.file_path.as_str(),
            _ => { return None; },
        };
        match ctx.rules_config {
            Some(r) => match &r.sensitive_path {
                Some(c) => if c.enabled { highest_text_prefix(&c.paths, path) } else { None },
                None => None,
            },
            None => None,
        }
    }
}

impl FlagRule {
    pub fn name(&self) -> (res: &'static str)
        ensures res@ == "SensitiveFlag"@,
    {
        "SensitiveFlag"
    }

    pub fn check(&self, event: &Event, _ctx: &RuleContext) -> (res: Option<Severity>)
        ensures res == flag_outcome(*event),
    {
        let text = match event {
            Event::FileOpen(e) => flags_text(e.flags),
            Event::FileClose(e) => flags_text(e.flags),
            Event::FileRead(e) => flags_text(e.flags),
            Event::FileWrite(e) => flags_text(e.flags),
            Event::FileRename(e) => dec_string(e.flags as u64),
            _ => { return None; },
        };
        flag_text_severity(text.as_str())
    }
}

impl RootWriteRule {
    pub fn name(&self) -> (res: &'static str)
        ensures res@ == "RootWrite"@,
    {
        "RootWrite"
    }

    pub fn check(&self, event: &Event, _ctx: &RuleContext) -> (res: Option<Severity>)
        ensures res == root_write_outcome(*event),
    {
        let (uid, flags) = match event {
            Event::FileOpen(e) => (e.header.uid, e.flags),
            Event::FileClose(e) => (e.header.uid, e.flags),
            _ => { return None; },
        };
        if uid == 0 && is_write(flags) { Some(Severity::High) } else { None }
    }
}

impl TempExecutableRule {
    pub fn name(&self) -> (res: &'static str)
        ensures res@ == "TempExecutable"@,
    {
        "TempExecutable"
    }

    pub fn check(&self, event: &Event, ctx: &RuleContext) -> (res: Option<Severity>)
        ensures res == temp_exec_outcome(*event, ctx@),
    {
        let pid = match event {
            Event::FileOpen(e) => e.header.pid,
            Event::FileClose(e) => e.header.pid,
            _ => { return None; },
        };
        match ctx.process_cache.get(&pid) {
            Some(p) => {
                if path_starts_with(p.exe.as_str(), "/tmp") || path_starts_with(p.exe.as_str(), "/dev/shm") {
                    Some(Severity::High)
                } else {
                    None
                }
            },
            None => None,
        }
    }
}

impl SuspiciousPortsConfig {
    pub fn name(&self) -> (res: &'static str)
        ensures res@ == "SuspiciousPort"@,
    {
        "SuspiciousPort"
    }

    /// Consults the section of the rules file in the context (not `self`).
    pub fn check(&self, event: &Event, ctx: &RuleContext) -> (res: Option<Severity>)
        ensures res == ports_outcome(*event, ctx@),
    {
        let ep = match event {
            Event::NetworkAccept(e) => e.endpoints,
            Event::NetworkConnect(e) => e.endpoints,
            _ => { return None; },
        };
        match ctx.rules_config {
            Some(r) => match &r.suspicious_ports {
                Some(c) => if c.enabled { first_port(&c.ports, ep.remote_port, ep.local_port) } else { None },
                None => None,
            },
            None => None,
        }
    }
}

impl SuspiciousIpRule {
    pub fn name(&self) -> (res: &'static str)
        ensures res@ == "SuspiciousIp"@,
    {
        "SuspiciousIp"
    }

    pub fn check(&self, event: &Event, ctx: &RuleContext) -> (res: Option<Severity>)
        ensures res == ip_reputation_outcome(*event, ctx@),
    {
        match ctx.ipsum {
            Some(db) => {
                let ep = match event {
                    Event::NetworkAccept(e) => e.endpoints,
                    Event::NetworkConnect(e) => e.endpoints,
                    Event::NetworkBind(e) => e.endpoints,
                    Event::NetworkListen(e) => e.endpoints,
                    Event::NetworkClose(e) => e.endpoints,
                    _ => { return None; },
                };
                lookup_reputation(db, ep.remote_ip)
            },
            None => None,
        }
    }
}

impl IpClassificationRule {
    pub fn name(&self) -> (res: &'static str)
        ensures res@ == "IpClassification"@,
    {
        "IpClassification"
    }

    pub fn check(&self, event: &Event, _ctx: &RuleContext) -> (res: Option<Severity>)
        ensures res == ip_class_outcome(*event),
    {
        let ip = match event {
            Event::NetworkBind(e) => e.endpoints.remote_ip,
            Event::NetworkListen(e) => e.endpoints.remote_ip,
            Event::NetworkConnect(e) => e.endpoints.remote_ip,
            Event::NetworkAccept(e) => e.endpoints.remote_ip,
            _ => { return None; },
        };
        match classify(ip) {
            IpKind::Public => Some(Severity::Low),
            IpKind::Private | IpKind::Loopback => Some(Severity::Info),
            _ => None,
        }
    }
}

impl RunAsRootRule {
    pub fn name(&self) -> (res: &'static str)
        ensures res@ == "RunAsRoot"@,
    {
        "RunAsRoot"
    }

    pub fn check(&self, event: &Event, _ctx: &RuleContext) -> (res: Option<Severity>)
        ensures res == run_as_root_outcome(*event),
    {
        let uid = match event {
            Event::NetworkListen(e) => e.header.uid,
            Event::NetworkConnect(e) => e.header.uid,
            _ => { return None; },
        };
        if uid == 0 { Some(Severity::Low) } else { None }
    }
}

impl BindConnRules {
    pub fn name(&self) -> (res: &'static str)
        ensures res@ == "GenericBindRule"@,
    {
        "GenericBindRule"
    }

    pub fn check(&self, event: &Event, _ctx: &RuleContext) -> (res: Option<Severity>)
        ensures res == bind_outcome(*event),
    {
        match event {
            Event::NetworkBind(e) => {
                if e.endpoints.local_ip.is_unspecified() || e.endpoints.local_port < 1024 {
                    Some(Severity::Low)
                } else {
                    None
                }
            },
            _ => None,
        }
    }
}

fn process_uid(event: &Event) -> (res: Option<u32>)
    ensures
        match process_header(*event) {
            Some(h) => res == Some(h.uid),
            None => res is None,
        },
{
    match event {
        Event::ProcessStart(e) => Some(e.header.uid),
        Event::ProcessExit(e) => Some(e.header.uid),
        Event::ProcessFork(e) => Some(e.parent.uid),
        _ => None,
    }
}

impl RunAsRootProcessRule {
    pub fn name(&self) -> (res: &'static str)
        ensures res@ == "ProcessRunningAsRoot"@,
    {
        "ProcessRunningAsRoot"
    }

    pub fn check(&self, event: &Event, _ctx: &RuleContext) -> (res: Option<Severity>)
        ensures res == root_process_outcome(*event),
    {
        match process_uid(event) {
            Some(uid) => if uid == 0 { Some(Severity::Low) } else { None },
            None => None,
        }
    }
}

impl SuspiciousExecPathConfig {
    pub fn name(&self) -> (res: &'static str)
        ensures res@ == "SuspiciousExecPath"@,
    {
        "SuspiciousExecPath"
    }

    /// Consults the section of the rules file in the context (not `self`),
    /// against the executable path in the context.
    pub fn check(&self, event: &Event, ctx: &RuleContext) -> (res: Option<Severity>)
        ensures res == exec_path_outcome(*event, ctx@),
    {
        if process_uid(event).is_none() {
            return None;
        }
        match ctx.rules_config {
            Some(r) => match &r.suspicious_exec_path {
                Some(c) => if c.enabled { first_path_prefix(&c.paths, ctx.exe) } else { None },
                None => None,
            },
            None => None,
        }
    }
}

/// One of the classification rules.
pub enum RuleKind {
    TempExecutable(TempExecutableRule),
    RootWrite(RootWriteRule),
    SensitivePath(SensitivePathConfig),
    Flag(FlagRule),
    SuspiciousPorts(SuspiciousPortsConfig),
    SuspiciousIp(SuspiciousIpRule),
    IpClassification(IpClassificationRule),
    RunAsRoot(RunAsRootRule),
    BindConn(BindConnRules),
    RunAsRootProcess(RunAsRootProcessRule),
    SuspiciousExecPath(SuspiciousExecPathConfig),
    SuspiciousInputDevice(SuspiciousInputDeviceAccessRule),
}

/// The name a rule reports when it matches.
pub open spec fn rule_label(r: RuleKind) -> Seq<char> {
    match r {
        RuleKind::TempExecutable(_) => "TempExecutable"@,
        RuleKind::RootWrite(_) => "RootWrite"@,
        RuleKind::SensitivePath(_) => "SensitivePath"@,
        RuleKind::Flag(_) => "SensitiveFlag"@,
        RuleKind::SuspiciousPorts(_) => "SuspiciousPort"@,
        RuleKind::SuspiciousIp(_) => "SuspiciousIp"@,
        RuleKind::IpClassification(_) => "IpClassification"@,
        RuleKind::RunAsRoot(_) => "RunAsRoot"@,
        RuleKind::BindConn(_) => "GenericBindRule"@,
        RuleKind::RunAsRootProcess(_) => "ProcessRunningAsRoot"@,
        RuleKind::SuspiciousExecPath(_) => "SuspiciousExecPath"@,
        RuleKind::SuspiciousInputDevice(_) => "SuspiciousInputDeviceAccessRule"@,
    }
}

/// The severity a rule gives an event, or `None` when it does not match.
pub open spec fn rule_outcome(r: RuleKind, ev: Event, ctx: CtxView) -> Option<Severity> {
    match r {
        RuleKind::TempExecutable(_) => temp_exec_outcome(ev, ctx),
        RuleKind::RootWrite(_) => root_write_outcome(ev),
        RuleKind::SensitivePath(_) => sensitive_path_outcome(ev, ctx),
        RuleKind::Flag(_) => flag_outcome(ev),
        RuleKind::SuspiciousPorts(_) => ports_outcome(ev, ctx),
        RuleKind::SuspiciousIp(_) => ip_reputation_outcome(ev, ctx),
        RuleKind::IpClassification(_) => ip_class_outcome(ev),
        RuleKind::RunAsRoot(_) => run_as_root_outcome(ev),
        RuleKind::BindConn(_) => bind_outcome(ev),
        RuleKind::RunAsRootProcess(_) => root_process_outcome(ev),
        RuleKind::SuspiciousExecPath(_) => exec_path_outcome(ev, ctx),
        RuleKind::SuspiciousInputDevice(_) => input_device_outcome(ev),
    }
}

impl RuleKind {
    /// The name the rule reports when it matches.
    pub fn name(&self) -> (res: &'static str)
        ensures
            res@ == rule_label(*self),
    {
        match self {
            RuleKind::TempExecutable(r) => r.name(),
            RuleKind::RootWrite(r) => r.name(),
            RuleKind::SensitivePath(r) => r.name(),
            RuleKind::Flag(r) => r.name(),
            RuleKind::SuspiciousPorts(r) => r.name(),
            RuleKind::SuspiciousIp(r) => r.name(),
            RuleKind::IpClassification(r) => r.name(),
            RuleKind::RunAsRoot(r) => r.name(),
            RuleKind::BindConn(r) => r.name(),
            RuleKind::RunAsRootProcess(r) => r.name(),
            RuleKind::SuspiciousExecPath(r) => r.name(),
            RuleKind::SuspiciousInputDevice(r) => r.name(),
        }
    }

    /// The severity the rule gives the event, or `None`.
    pub fn check(&self, event: &Event, ctx: &RuleContext) -> (res: Option<Severity>)
        ensures
            res == rule_outcome(*self, *event, ctx@),
    {
        match self {
            RuleKind::TempExecutable(r) => r.check(event, ctx),
            RuleKind::RootWrite(r) => r.check(event, ctx),
            RuleKind::SensitivePath(r) => r.check(event, ctx),
            RuleKind::Flag(r) => r.check(event, ctx),
            RuleKind::SuspiciousPorts(r) => r.check(event, ctx),
            RuleKind::SuspiciousIp(r) => r.check(event, ctx),
            RuleKind::IpClassification(r) => r.check(event, ctx),
            RuleKind::RunAsRoot(r) => r.check(event, ctx),
            RuleKind::BindConn(r) => r.check(event, ctx),
            RuleKind::RunAsRootProcess(r) => r.check(event, ctx),
            RuleKind::SuspiciousExecPath(r) => r.check(event, ctx),
            RuleKind::SuspiciousInputDevice(r) => r.check(event, ctx),
        }
    }
}

/// The character sequences of a list of strings.
pub open spec fn names_view(v: Seq<String>) -> Seq<Seq<char>> {
    v.map_values(|s: String| s@)
}

/// The severity after applying `rules` in order: `Low`, raised to the
/// severity of each rule that matches.
pub open spec fn folded_severity(rules: Seq<RuleKind>, ev: Event, ctx: CtxView) -> Severity
    decreases rules.len(),
{
    if rules.len() == 0 {
        Severity::Low
    } else {
        match rule_outcome(rules.last(), ev, ctx) {
            Some(x) => max_severity(folded_severity(rules.drop_last(), ev, ctx), x),
            None => folded_severity(rules.drop_last(), ev, ctx),
        }
    }
}

/// The names of the rules among `rules` that match, in order.
pub open spec fn matched_names(rules: Seq<RuleKind>, ev: Event, ctx: CtxView) -> Seq<Seq<char>>
    decreases rules.len(),
{
    if rules.len() == 0 {
        Seq::empty()
    } else {
        match rule_outcome(rules.last(), ev, ctx) {
            Some(_) => matched_names(rules.drop_last(), ev, ctx).push(rule_label(rules.last())),
            None => matched_names(rules.drop_last(), ev, ctx),
        }
    }
}

/// An ordered list of rules.
pub struct RuleEngine {
    pub rules: Vec<RuleKind>,
}

impl RuleEngine {
    /// Applies every rule in order: the severity starts at `Low` and rises to
    /// that of each matching rule; the names of the matching rules are kept.
    pub fn evaluate(&self, event: &Event, ctx: &RuleContext) -> (res: (Severity, Vec<String>))
        ensures
            res.0 == folded_severity(self.rules@, *event, ctx@),
            names_view(res.1@) == matched_names(self.rules@, *event, ctx@),
    {
        let mut severity = Severity::Low;
        let mut matched: Vec<String> = Vec::new();
        let mut i: usize = 0;
        while i < self.rules.len()
            invariant
                i <= self.rules@.len(),
                severity == folded_severity(self.rules@.take(i as int), *event, ctx@),
                names_view(matched@) == matched_names(self.rules@.take(i as int), *event, ctx@),
            decreases self.rules.len() - i,
        {
            let rule = &self.rules[i];
            assert(self.rules@.take(i + 1).drop_last() =~= self.rules@.take(i as int));
            assert(self.rules@.take(i + 1).last() == self.rules@[i as int]);
            match rule.check(event, ctx) {
                Some(sev) => {
                    severity = severity_max(severity, sev);
                    let name = rule.name().to_owned();
                    let ghost before = matched@;
                    matched.push(name);
                    assert(names_view(matched@) =~= names_view(before).push(rule_label(*rule)));
                },
                None => {},
            }
            i = i + 1;
        }
        assert(self.rules@.take(self.rules@.len() as int) =~= self.rules@);
        (severity, matched)
    }
}

impl RuleEngine {
    /// Classifies a FileOpen event.
    pub fn classify_open(&self, event: FileOpenEvent, ctx: RuleContext) -> (res: Classified<FileOpenEvent>)
        ensures
            res.event == event,
            res.severity == folded_severity(self.rules@, Event::FileOpen(&event), ctx@),
            names_view(res.matched_rules@) == matched_names(self.rules@, Event::FileOpen(&event), ctx@),
    {
        let (severity, matched_rules) = self.evaluate(&Event::FileOpen(&event), &ctx);
        Classified { event, severity, matched_rules }
    }

    /// Classifies a FileClose event.
    pub fn classify_close(&self, event: FileCloseEvent, ctx: RuleContext) -> (res: Classified<FileCloseEvent>)
        ensures
            res.event == event,
            res.severity == folded_severity(self.rules@, Event::FileClose(&event), ctx@),
            names_view(res.matched_rules@) == matched_names(self.rules@, Event::FileClose(&event), ctx@),
    {
        let (severity, matched_rules) = self.evaluate(&Event::FileClose(&event), &ctx);
        Classified { event, severity, matched_rules }
    }

    /// Classifies a FileRead event.
    pub fn classify_read(&self, event: FileReadEvent, ctx: RuleContext) -> (res: Classified<FileReadEvent>)
        ensures
            res.event == event,
            res.severity == folded_severity(self.rules@, Event::FileRead(&event), ctx@),
            names_view(res.matched_rules@) == matched_names(self.rules@, Event::FileRead(&event), ctx@),
    {
        let (severity, matched_rules) = self.evaluate(&Event::FileRead(&event), &ctx);
        Classified { event, severity, matched_rules }
    }

    /// Classifies a FileRename event.
    pub fn classify_rename(&self, event: FileRenameEvent, ctx: RuleContext) -> (res: Classified<FileRenameEvent>)
        ensures
            res.event == event,
            res.severity == folded_severity(self.rules@, Event::FileRename(&event), ctx@),
            names_view(res.matched_rules@) == matched_names(self.rules@, Event::FileRename(&event), ctx@),
    {
        let (severity, matched_rules) = self.evaluate(&Event::FileRename(&event), &ctx);
        Classified { event, severity, matched_rules }
    }

    /// Classifies a FileWrite event.
    pub fn classify_write(&self, event: FileWriteEvent, ctx: RuleContext) -> (res: Classified<FileWriteEvent>)
        ensures
            res.event == event,
            res.severity == folded_severity(self.rules@, Event::FileWrite(&event), ctx@),
            names_view(res.matched_rules@) == matched_names(self.rules@, Event::FileWrite(&event), ctx@),
    {
        let (severity, matched_rules) = self.evaluate(&Event::FileWrite(&event), &ctx);
        Classified { event, severity, matched_rules }
    }

    /// Classifies a FileDelete event.
    pub fn classify_delete(&self, event: FileDeleteEvent, ctx: RuleContext) -> (res: Classified<FileDeleteEvent>)
        ensures
            res.event == event,
            res.severity == folded_severity(self.rules@, Event::FileDelete(&event), ctx@),
            names_view(res.matched_rules@) == matched_names(self.rules@, Event::FileDelete(&event), ctx@),
    {
        let (severity, matched_rules) = self.evaluate(&Event::FileDelete(&event), &ctx);
        Classified { event, severity, matched_rules }
    }

    /// Classifies a ProcessStart event.
    pub fn classify_process_start(&self, event: ProcessStartEvent, ctx: RuleContext) -> (res: Classified<ProcessStartEvent>)
        ensures
            res.event == event,
            res.severity == folded_severity(self.rules@, Event::ProcessStart(&event), ctx@),
            names_view(res.matched_rules@) == matched_names(self.rules@, Event::ProcessStart(&event), ctx@),
    {
        let (severity, matched_rules) = self.evaluate(&Event::ProcessStart(&event), &ctx);
        Classified { event, severity, matched_rules }
    }

    /// Classifies a ProcessExit event.
    pub fn classify_process_exit(&self, event: ProcessExitEvent, ctx: RuleContext) -> (res: Classified<ProcessExitEvent>)
        ensures
            res.event == event,
            res.severity == folded_severity(self.rules@, Event::ProcessExit(&event), ctx@),
            names_view(res.matched_rules@) == matched_names(self.rules@, Event::ProcessExit(&event), ctx@),
    {
        let (severity, matched_rules) = self.evaluate(&Event::ProcessExit(&event), &ctx);
        Classified { event, severity, matched_rules }
    }

    /// Classifies a ProcessFork event.
    pub fn classify_process_fork(&self, event: ProcessForkEvent, ctx: RuleContext) -> (res: Classified<ProcessForkEvent>)
        ensures
            res.event == event,
            res.severity == folded_severity(self.rules@, Event::ProcessFork(&event), ctx@),
            names_view(res.matched_rules@) == matched_names(self.rules@, Event::ProcessFork(&event), ctx@),
    {
        let (severity, matched_rules) = self.evaluate(&Event::ProcessFork(&event), &ctx);
        Classified { event, severity, matched_rules }
    }

    /// Classifies a NetworkAccept event.
    pub fn classify_accept(&self, event: AcceptEvent, ctx: RuleContext) -> (res: Classified<AcceptEvent>)
        ensures
            res.event == event,
            res.severity == folded_severity(self.rules@, Event::NetworkAccept(&event), ctx@),
            names_view(res.matched_rules@) == matched_names(self.rules@, Event::NetworkAccept(&event), ctx@),
    {
        let (severity, matched_rules) = self.evaluate(&Event::NetworkAccept(&event), &ctx);
        Classified { event, severity, matched_rules }
    }

    /// Classifies a NetworkConnect event.
    pub fn classify_connect(&self, event: ConnectEvent, ctx: RuleContext) -> (res: Classified<ConnectEvent>)
        ensures
            res.event == event,
            res.severity == folded_severity(self.rules@, Event::NetworkConnect(&event), ctx@),
            names_view(res.matched_rules@) == matched_names(self.rules@, Event::NetworkConnect(&event), ctx@),
    {
        let (severity, matched_rules) = self.evaluate(&Event::NetworkConnect(&event), &ctx);
        Classified { event, severity, matched_rules }
    }

    /// Classifies a NetworkBind event.
    pub fn classify_bind(&self, event: BindEvent, ctx: RuleContext) -> (res: Classified<BindEvent>)
        ensures
            res.event == event,
            res.severity == folded_severity(self.rules@, Event::NetworkBind(&event), ctx@),
            names_view(res.matched_rules@) == matched_names(self.rules@, Event::NetworkBind(&event), ctx@),
    {
        let (severity, matched_rules) = self.evaluate(&Event::NetworkBind(&event), &ctx);
        Classified { event, severity, matched_rules }
    }

    /// Classifies a NetworkListen event.
    pub fn classify_listen(&self, event: ListenEvent, ctx: RuleContext) -> (res: Classified<ListenEvent>)
        ensures
            res.event == event,
            res.severity == folded_severity(self.rules@, Event::NetworkListen(&event), ctx@),
            names_view(res.matched_rules@) == matched_names(self.rules@, Event::NetworkListen(&event), ctx@),
    {
        let (severity, matched_rules) = self.evaluate(&Event::NetworkListen(&event), &ctx);
        Classified { event, severity, matched_rules }
    }

    /// Classifies a NetworkClose event.
    pub fn classify_network_close(&self, event: CloseEvent, ctx: RuleContext) -> (res: Classified<CloseEvent>)
        ensures
            res.event == event,
            res.severity == folded_severity(self.rules@, Event::NetworkClose(&event), ctx@),
            names_view(res.matched_rules@) == matched_names(self.rules@, Event::NetworkClose(&event), ctx@),
    {
        let (severity, matched_rules) = self.evaluate(&Event::NetworkClose(&event), &ctx);
        Classified { event, severity, matched_rules }
    }
}

/// The labels of the built-in rules, in the order they are applied.
pub open spec fn default_labels() -> Seq<Seq<char>> {
    seq![
        "TempExecutable"@, "RootWrite"@, "SensitivePath"@, "SensitiveFlag"@, "SuspiciousPort"@,
        "SuspiciousIp"@, "IpClassification"@, "RunAsRoot"@, "GenericBindRule"@,
        "ProcessRunningAsRoot"@, "SuspiciousExecPath"@, "SuspiciousInputDeviceAccessRule"@,
    ]
}

/// The labels of a list of rules.
pub open spec fn labels(rules: Seq<RuleKind>) -> Seq<Seq<char>> {
    rules.map_values(|r: RuleKind| rule_label(r))
}

/// The classification state: known processes, the reputation database, the
/// rules file and the rule engine.
pub struct Classifier {
    pub ipsum: Option<IpsumDb>,
    pub process_map: HashMap<u32, ProcessInfo>,
    pub engine: RuleEngine,
    pub rules: Option<Rules>,
}

impl Classifier {
    /// What the rules see for an event whose executable is `exe`.
    pub open spec fn context(&self, exe: Seq<char>) -> CtxView {
        CtxView { cache: exe_view(self.process_map@), ipsum: self.ipsum, rules: self.rules, exe }
    }

    /// A classifier with the built-in rules, no known process, no database and
    /// no rules file.
    pub fn new() -> (c: Classifier)
        ensures
            labels(c.engine.rules@) == default_labels(),
            c.process_map@ == Map::<u32, ProcessInfo>::empty(),
            c.ipsum is None,
            c.rules is None,
    {
        let mut rules: Vec<RuleKind> = Vec::new();
        rules.push(RuleKind::TempExecutable(TempExecutableRule));
        rules.push(RuleKind::RootWrite(RootWriteRule));
        rules.push(RuleKind::SensitivePath(SensitivePathConfig { enabled: true, paths: SeverityMap::new() }));
        rules.push(RuleKind::Flag(FlagRule));
        rules.push(RuleKind::SuspiciousPorts(SuspiciousPortsConfig { enabled: true, ports: SeverityMap::new() }));
        rules.push(RuleKind::SuspiciousIp(SuspiciousIpRule));
        rules.push(RuleKind::IpClassification(IpClassificationRule));
        rules.push(RuleKind::RunAsRoot(RunAsRootRule));
        rules.push(RuleKind::BindConn(BindConnRules));
        rules.push(RuleKind::RunAsRootProcess(RunAsRootProcessRule));
        rules.push(RuleKind::SuspiciousExecPath(SuspiciousExecPathConfig { enabled: true, paths: SeverityMap::new() }));
        rules.push(RuleKind::SuspiciousInputDevice(SuspiciousInputDeviceAccessRule));
        assert(labels(rules@) =~= default_labels());
        Classifier { ipsum: None, process_map: HashMap::new(), engine: RuleEngine { rules }, rules: None }
    }

    /// Classifies a FileOpen event; `exe` is where the executable of its process lies.
    pub fn classify_open(&self, event: FileOpenEvent, exe: &str) -> (res: Classified<FileOpenEvent>)
        ensures
            res.event == event,
            res.severity == folded_severity(self.engine.rules@, Event::FileOpen(&event), self.context(exe@)),
            names_view(res.matched_rules@) == matched_names(self.engine.rules@, Event::FileOpen(&event), self.context(exe@)),
    {
        let ctx = RuleContext {
            process_cache: &self.process_map,
            ipsum: self.ipsum.as_ref(),
            rules_config: self.rules.as_ref(),
            exe,
        };
        self.engine.classify_open(event, ctx)
    }

    /// Classifies a FileClose event; `exe` is where the executable of its process lies.
    pub fn classify_close(&self, event: FileCloseEvent, exe: &str) -> (res: Classified<FileCloseEvent>)
        ensures
            res.event == event,
            res.severity == folded_severity(self.engine.rules@, Event::FileClose(&event), self.context(exe@)),
            names_view(res.matched_rules@) == matched_names(self.engine.rules@, Event::FileClose(&event), self.context(exe@)),
    {
        let ctx = RuleContext {
            process_cache: &self.process_map,
            ipsum: self.ipsum.as_ref(),
            rules_config: self.rules.as_ref(),
            exe,
        };
        self.engine.classify_close(event, ctx)
    }

    /// Classifies a FileRead event; `exe` is where the executable of its process lies.
    pub fn classify_read(&self, event: FileReadEvent, exe: &str) -> (res: Classified<FileReadEvent>)
        ensures
            res.event == event,
            res.severity == folded_severity(self.engine.rules@, Event::FileRead(&event), self.context(exe@)),
            names_view(res.matched_rules@) == matched_names(self.engine.rules@, Event::FileRead(&event), self.context(exe@)),
    {
        let ctx = RuleContext {
            process_cache: &self.process_map,
            ipsum: self.ipsum.as_ref(),
            rules_config: self.rules.as_ref(),
            exe,
        };
        self.engine.classify_read(event, ctx)
    }

    /// Classifies a FileRename event; `exe` is where the executable of its process lies.
    pub fn classify_rename(&self, event: FileRenameEvent, exe: &str) -> (res: Classified<FileRenameEvent>)
        ensures
            res.event == event,
            res.severity == folded_severity(self.engine.rules@, Event::FileRename(&event), self.context(exe@)),
            names_view(res.matched_rules@) == matched_names(self.engine.rules@, Event::FileRename(&event), self.context(exe@)),
    {
        let ctx = RuleContext {
            process_cache: &self.process_map,
            ipsum: self.ipsum.as_ref(),
            rules_config: self.rules.as_ref(),
            exe,
        };
        self.engine.classify_rename(event, ctx)
    }

    /// Classifies a FileWrite event; `exe` is where the executable of its process lies.
    pub fn classify_write(&self, event: FileWriteEvent, exe: &str) -> (res: Classified<FileWriteEvent>)
        ensures
            res.event == event,
            res.severity == folded_severity(self.engine.rules@, Event::FileWrite(&event), self.context(exe@)),
            names_view(res.matched_rules@) == matched_names(self.engine.rules@, Event::FileWrite(&event), self.context(exe@)),
    {
        let ctx = RuleContext {
            process_cache: &self.process_map,
            ipsum: self.ipsum.as_ref(),
            rules_config: self.rules.as_ref(),
            exe,
        };
        self.engine.classify_write(event, ctx)
    }

    /// Classifies a FileDelete event; `exe` is where the executable of its process lies.
    pub fn classify_delete(&self, event: FileDeleteEvent, exe: &str) -> (res: Classified<FileDeleteEvent>)
        ensures
            res.event == event,
            res.severity == folded_severity(self.engine.rules@, Event::FileDelete(&event), self.context(exe@)),
            names_view(res.matched_rules@) == matched_names(self.engine.rules@, Event::FileDelete(&event), self.context(exe@)),
    {
        let ctx = RuleContext {
            process_cache: &self.process_map,
            ipsum: self.ipsum.as_ref(),
            rules_config: self.rules.as_ref(),
            exe,
        };
        self.engine.classify_delete(event, ctx)
    }

    /// Classifies a ProcessStart event; `exe` is where the executable of its process lies.
    pub fn classify_process_start(&self, event: ProcessStartEvent, exe: &str) -> (res: Classified<ProcessStartEvent>)
        ensures
            res.event == event,
            res.severity == folded_severity(self.engine.rules@, Event::ProcessStart(&event), self.context(exe@)),
            names_view(res.matched_rules@) == matched_names(self.engine.rules@, Event::ProcessStart(&event), self.context(exe@)),
    {
        let ctx = RuleContext {
            process_cache: &self.process_map,
            ipsum: self.ipsum.as_ref(),
            rules_config: self.rules.as_ref(),
            exe,
        };
        self.engine.classify_process_start(event, ctx)
    }

    /// Classifies a ProcessExit event; `exe` is where the executable of its process lies.
    pub fn classify_process_exit(&self, event: ProcessExitEvent, exe: &str) -> (res: Classified<ProcessExitEvent>)
        ensures
            res.event == event,
            res.severity == folded_severity(self.engine.rules@, Event::ProcessExit(&event), self.context(exe@)),
            names_view(res.matched_rules@) == matched_names(self.engine.rules@, Event::ProcessExit(&event), self.context(exe@)),
    {
        let ctx = RuleContext {
            process_cache: &self.process_map,
            ipsum: self.ipsum.as_ref(),
            rules_config: self.rules.as_ref(),
            exe,
        };
        self.engine.classify_process_exit(event, ctx)
    }

    /// Classifies a ProcessFork event; `exe` is where the executable of its process lies.
    pub fn classify_process_fork(&self, event: ProcessForkEvent, exe: &str) -> (res: Classified<ProcessForkEvent>)
        ensures
            res.event == event,
            res.severity == folded_severity(self.engine.rules@, Event::ProcessFork(&event), self.context(exe@)),
            names_view(res.matched_rules@) == matched_names(self.engine.rules@, Event::ProcessFork(&event), self.context(exe@)),
    {
        let ctx = RuleContext {
            process_cache: &self.process_map,
            ipsum: self.ipsum.as_ref(),
            rules_config: self.rules.as_ref(),
            exe,
        };
        self.engine.classify_process_fork(event, ctx)
    }

    /// Classifies a NetworkAccept event; `exe` is where the executable of its process lies.
    pub fn classify_accept(&self, event: AcceptEvent, exe: &str) -> (res: Classified<AcceptEvent>)
        ensures
            res.event == event,
            res.severity == folded_severity(self.engine.rules@, Event::NetworkAccept(&event), self.context(exe@)),
            names_view(res.matched_rules@) == matched_names(self.engine.rules@, Event::NetworkAccept(&event), self.context(exe@)),
    {
        let ctx = RuleContext {
            process_cache: &self.process_map,
            ipsum: self.ipsum.as_ref(),
            rules_config: self.rules.as_ref(),
            exe,
        };
        self.engine.classify_accept(event, ctx)
    }

    /// Classifies a NetworkConnect event; `exe` is where the executable of its process lies.
    pub fn classify_connect(&self, event: ConnectEvent, exe: &str) -> (res: Classified<ConnectEvent>)
        ensures
            res.event == event,
            res.severity == folded_severity(self.engine.rules@, Event::NetworkConnect(&event), self.context(exe@)),
            names_view(res.matched_rules@) == matched_names(self.engine.rules@, Event::NetworkConnect(&event), self.context(exe@)),
    {
        let ctx = RuleContext {
            process_cache: &self.process_map,
            ipsum: self.ipsum.as_ref(),
            rules_config: self.rules.as_ref(),
            exe,
        };
        self.engine.classify_connect(event, ctx)
    }

    /// Classifies a NetworkBind event; `exe` is where the executable of its process lies.
    pub fn classify_bind(&self, event: BindEvent, exe: &str) -> (res: Classified<BindEvent>)
        ensures
            res.event == event,
            res.severity == folded_severity(self.engine.rules@, Event::NetworkBind(&event), self.context(exe@)),
            names_view(res.matched_rules@) == matched_names(self.engine.rules@, Event::NetworkBind(&event), self.context(exe@)),
    {
        let ctx = RuleContext {
            process_cache: &self.process_map,
            ipsum: self.ipsum.as_ref(),
            rules_config: self.rules.as_ref(),
            exe,
        };
        self.engine.classify_bind(event, ctx)
    }

    /// Classifies a NetworkListen event; `exe` is where the executable of its process lies.
    pub fn classify_listen(&self, event: ListenEvent, exe: &str) -> (res: Classified<ListenEvent>)
        ensures
            res.event == event,
            res.severity == folded_severity(self.engine.rules@, Event::NetworkListen(&event), self.context(exe@)),
            names_view(res.matched_rules@) == matched_names(self.engine.rules@, Event::NetworkListen(&event), self.context(exe@)),
    {
        let ctx = RuleContext {
            process_cache: &self.process_map,
            ipsum: self.ipsum.as_ref(),
            rules_config: self.rules.as_ref(),
            exe,
        };
        self.engine.classify_listen(event, ctx)
    }

    /// Classifies a NetworkClose event; `exe` is where the executable of its process lies.
    pub fn classify_network_close(&self, event: CloseEvent, exe: &str) -> (res: Classified<CloseEvent>)
        ensures
            res.event == event,
            res.severity == folded_severity(self.engine.rules@, Event::NetworkClose(&event), self.context(exe@)),
            names_view(res.matched_rules@) == matched_names(self.engine.rules@, Event::NetworkClose(&event), self.context(exe@)),
    {
        let ctx = RuleContext {
            process_cache: &self.process_map,
            ipsum: self.ipsum.as_ref(),
            rules_config: self.rules.as_ref(),
            exe,
        };
        self.engine.classify_network_close(event, ctx)
    }
}


/// The engine's severity starts at `Low` and is the greatest outcome of the
/// rules that match: at least `Low`, at least each match, and either `Low` or
/// the outcome of one matching rule; with no match it is `Low`.
pub proof fn lemma_severity_is_greatest_match(rules: Seq<RuleKind>, ev: Event, ctx: CtxView)
    ensures
        folded_severity(rules, ev, ctx).rank() >= Severity::Low.rank(),
        forall|i: int| 0 <= i < rules.len() ==> (#[trigger] rule_outcome(rules[i], ev, ctx) matches Some(x)
            ==> folded_severity(rules, ev, ctx).rank() >= x.rank()),
        folded_severity(rules, ev, ctx) == Severity::Low || exists|i: int| 0 <= i < rules.len()
            && #[trigger] rule_outcome(rules[i], ev, ctx) == Some(folded_severity(rules, ev, ctx)),
        matched_names(rules, ev, ctx).len() == 0 ==> folded_severity(rules, ev, ctx) == Severity::Low,
    decreases rules.len(),
{
    if rules.len() > 0 {
        let init = rules.drop_last();
        lemma_severity_is_greatest_match(init, ev, ctx);
        assert forall|i: int| 0 <= i < rules.len() implies (#[trigger] rule_outcome(rules[i], ev, ctx) matches Some(x)
            ==> folded_severity(rules, ev, ctx).rank() >= x.rank()) by {
            if i < rules.len() - 1 {
                assert(rules[i] == init[i]);
            }
        }
        let f = folded_severity(rules, ev, ctx);
        if f != Severity::Low {
            match rule_outcome(rules.last(), ev, ctx) {
                Some(x) => {
                    if f == x {
                        assert(rule_outcome(rules[rules.len() - 1], ev, ctx) == Some(f));
                    } else {
                        let j = choose|j: int| 0 <= j < init.len() && #[trigger] rule_outcome(init[j], ev, ctx) == Some(folded_severity(init, ev, ctx));
                        assert(rules[j] == init[j]);
                    }
                },
                None => {
                    let j = choose|j: int| 0 <= j < init.len() && #[trigger] rule_outcome(init[j], ev, ctx) == Some(folded_severity(init, ev, ctx));
                    assert(rules[j] == init[j]);
                },
            }
        }
    }
}

/// In a database built sorted, an address has a reputation exactly when it
/// is listed, and then the score of a listing of it decides.
pub proof fn lemma_reputation_iff_listed(db: IpsumDb, ip: IpAddress)
    requires
        db.well_formed(),
    ensures
        ip matches IpAddress::V4(a) ==> (reputation_severity(db, ip) is Some <==> exists|i: int| 0 <= i < db.v4@.len() && #[trigger] db.v4@[i].ip == a),
        ip matches IpAddress::V6(a) ==> (reputation_severity(db, ip) is Some <==> exists|i: int| 0 <= i < db.v6@.len() && #[trigger] db.v6@[i].ip == a),
        reputation_severity(db, ip) matches Some(s) ==> exists|sc: u8| s == score_severity(sc),
{
    match ip {
        IpAddress::V4(a) => {
            crate::gen_db::lemma_search_v4_complete(db.v4@, a, 0, db.v4@.len() as int);
        },
        IpAddress::V6(a) => {
            crate::gen_db::lemma_search_v6_complete(db.v6@, a, 0, db.v6@.len() as int);
        },
    }
}
/// Reputation scores map to severities in bands: an address on one to three
/// lists is Medium, on four lists High, and on five or more (or with a zero
/// score) Critical; more lists never give a lower severity.
pub proof fn lemma_score_bands(score: u8, other: u8)
    ensures
        1 <= score <= 3 ==> score_severity(score) == Severity::Medium,
        score == 4 ==> score_severity(score) == Severity::High,
        score >= 5 || score == 0 ==> score_severity(score) == Severity::Critical,
        1 <= score <= other ==> score_severity(score).rank() <= score_severity(other).rank(),
{
}

/// A listed address has the severity of the band of its entry's score (the
/// entry of that address the lookup finds, where an address is listed twice).
pub proof fn lemma_listed_address_band(db: IpsumDb, i: int)
    requires
        db.well_formed(),
        0 <= i < db.v4@.len(),
    ensures
        reputation_severity(db, IpAddress::V4(db.v4@[i].ip)) matches Some(s) && exists|j: int| {
            &&& 0 <= j < db.v4@.len()
            &&& #[trigger] db.v4@[j].ip == db.v4@[i].ip
            &&& 1 <= db.v4@[j].score <= 3 ==> s == Severity::Medium
            &&& db.v4@[j].score == 4 ==> s == Severity::High
            &&& (db.v4@[j].score == 0 || db.v4@[j].score >= 5) ==> s == Severity::Critical
        },
{
    let a = db.v4@[i].ip;
    lemma_reputation_iff_listed(db, IpAddress::V4(a));
    crate::gen_db::lemma_search_v4_complete(db.v4@, a, 0, db.v4@.len() as int);
    let j = search_v4(db.v4@, a, 0, db.v4@.len() as int)->0;
    lemma_score_bands(db.v4@[j].score, 0);
    assert(db.v4@[j].ip == a);
}

/// The list of severity `s` holds port `p`.
pub open spec fn lists_port(m: SeverityMap<u16>, s: Severity, p: u16) -> bool {
    m.spec_list(s) matches Some(v) && v@.contains(p)
}

/// The suspicious-port rule looks at both ends of a connection: it matches an
/// accept or connect exactly when its local or its remote port is listed
/// under some severity, the severity it gives lists one of the two ports, and
/// it is no higher than any severity listing either port.
pub proof fn lemma_port_rule_either_port(ev: Event, ctx: CtxView, x: SocketEndpoints, c: SuspiciousPortsConfig)
    requires
        (ev matches Event::NetworkAccept(e) && e.endpoints == x) || (ev matches Event::NetworkConnect(e) && e.endpoints == x),
        ctx.rules matches Some(r) && r.suspicious_ports == Some(c),
        c.enabled,
    ensures
        ports_outcome(ev, ctx) is Some <==> exists|s: Severity|
            #[trigger] lists_port(c.ports, s, x.local_port) || lists_port(c.ports, s, x.remote_port),
        ports_outcome(ev, ctx) matches Some(t) ==> lists_port(c.ports, t, x.local_port) || lists_port(c.ports, t, x.remote_port),
        forall|s: Severity| #[trigger] lists_port(c.ports, s, x.local_port) || lists_port(c.ports, s, x.remote_port)
            ==> (ports_outcome(ev, ctx) matches Some(t) && t.rank() <= s.rank()),
{
    let m = c.ports;
    let a = x.remote_port;
    let b = x.local_port;
    assert forall|s: Severity| lists_port(m, s, b) || lists_port(m, s, a) <==> #[trigger] port_hit(m.spec_list(s), a, b) by {
        if let Some(v) = m.spec_list(s) {
            if port_hit(m.spec_list(s), a, b) {
                let i = choose|i: int| 0 <= i < v@.len() && (#[trigger] v@[i] == a || v@[i] == b);
                if v@[i] == a { assert(v@.contains(a)); } else { assert(v@.contains(b)); }
            }
            if v@.contains(a) {
                let i = choose|i: int| 0 <= i < v@.len() && v@[i] == a;
                assert(v@[i] == a || v@[i] == b);
            }
            if v@.contains(b) {
                let i = choose|i: int| 0 <= i < v@.len() && v@[i] == b;
                assert(v@[i] == a || v@[i] == b);
            }
        }
    }
    assert(m.info == m.spec_list(Severity::Info));
    assert(m.low == m.spec_list(Severity::Low));
    assert(m.medium == m.spec_list(Severity::Medium));
    assert(m.high == m.spec_list(Severity::High));
    assert(m.critical == m.spec_list(Severity::Critical));
    if ports_outcome(ev, ctx) is None {
        assert forall|s: Severity| !(#[trigger] lists_port(m, s, b) || lists_port(m, s, a)) by {
            assert(!port_hit(m.spec_list(s), a, b));
        }
    } else {
        let t = ports_outcome(ev, ctx)->0;
        assert(port_hit(m.spec_list(t), a, b));
        assert(lists_port(m, t, b) || lists_port(m, t, a));
    }
    assert forall|s: Severity| #[trigger] lists_port(m, s, b) || lists_port(m, s, a)
        implies (ports_outcome(ev, ctx) matches Some(t) && t.rank() <= s.rank()) by {
        assert(port_hit(m.spec_list(s), a, b));
    }
}

/// Every rule that matches an event is named among the matched rules.
pub proof fn lemma_matching_rule_named(rules: Seq<RuleKind>, ev: Event, ctx: CtxView, i: int)
    requires
        0 <= i < rules.len(),
        rule_outcome(rules[i], ev, ctx) is Some,
    ensures
        matched_names(rules, ev, ctx).contains(rule_label(rules[i])),
    decreases rules.len(),
{
    let init = rules.drop_last();
    if i == rules.len() - 1 {
        let m = matched_names(rules, ev, ctx);
        assert(m[m.len() - 1] == rule_label(rules[i]));
    } else {
        assert(init[i] == rules[i]);
        lemma_matching_rule_named(init, ev, ctx, i);
        let m0 = matched_names(init, ev, ctx);
        let k = choose|k: int| 0 <= k < m0.len() && m0[k] == rule_label(rules[i]);
        match rule_outcome(rules.last(), ev, ctx) {
            Some(_) => {
                assert(matched_names(rules, ev, ctx)[k] == rule_label(rules[i]));
            },
            None => {},
        }
    }
}
/// The per-event rules, stated by what they look at:
/// - a file open or close by root for writing (write-only or read-write) is
///   High, and no open or close by another user or read-only matches;
/// - a file open or close by a process known to run from under `/tmp` or
///   `/dev/shm` is High;
/// - a path under `/dev/input/` is High and one under `/dev/tty` or
///   `/dev/pts/` Medium;
/// - a remote address that is public is Low, private or loopback Info;
/// - a listen or connect by root is Low, by another user nothing;
/// - a bind to a port below 1024 is Low;
/// - a process event of root is Low, of another user nothing.
pub proof fn lemma_rule_meanings(ev: Event, ctx: CtxView)
    ensures
        ev matches Event::FileOpen(e) ==> (root_write_outcome(ev) is Some
            <==> e.header.uid == 0 && (e.flags % 4 == 1 || e.flags % 4 == 2)),
        ev matches Event::FileClose(e) ==> (root_write_outcome(ev) is Some
            <==> e.header.uid == 0 && (e.flags % 4 == 1 || e.flags % 4 == 2)),
        root_write_outcome(ev) matches Some(s) ==> s == Severity::High,
        ev matches Event::FileOpen(e) ==> (ctx.cache.contains_key(e.header.pid)
            && path_has_prefix(ctx.cache[e.header.pid], "/tmp"@) ==> temp_exec_outcome(ev, ctx) == Some(Severity::High)),
        ev matches Event::FileOpen(e) ==> (ctx.cache.contains_key(e.header.pid)
            && path_has_prefix(ctx.cache[e.header.pid], "/dev/shm"@) ==> temp_exec_outcome(ev, ctx) == Some(Severity::High)),
        ev matches Event::FileOpen(e) ==> (!ctx.cache.contains_key(e.header.pid) ==> temp_exec_outcome(ev, ctx) is None),
        ev matches Event::FileOpen(e) ==> (has_prefix(e.file_path@, "/dev/input/"@) ==> input_device_outcome(ev) == Some(Severity::High)),
        ev matches Event::FileOpen(e) ==> (has_prefix(e.file_path@, "/dev/tty"@) ==> input_device_outcome(ev) == Some(Severity::Medium)),
        ev matches Event::FileOpen(e) ==> (has_prefix(e.file_path@, "/dev/pts/"@) ==> input_device_outcome(ev) == Some(Severity::Medium)),
        ev matches Event::NetworkConnect(e) ==> (ip_kind(e.endpoints.remote_ip) == IpKind::Public
            ==> ip_class_outcome(ev) == Some(Severity::Low)),
        ev matches Event::NetworkConnect(e) ==> (ip_kind(e.endpoints.remote_ip) == IpKind::Private
            ==> ip_class_outcome(ev) == Some(Severity::Info)),
        ev matches Event::NetworkConnect(e) ==> (ip_kind(e.endpoints.remote_ip) == IpKind::Loopback
            ==> ip_class_outcome(ev) == Some(Severity::Info)),
        ev matches Event::NetworkConnect(e) ==> (run_as_root_outcome(ev) is Some <==> e.header.uid == 0),
        ev matches Event::NetworkListen(e) ==> (run_as_root_outcome(ev) is Some <==> e.header.uid == 0),
        run_as_root_outcome(ev) matches Some(s) ==> s == Severity::Low,
        ev matches Event::NetworkBind(e) ==> (e.endpoints.local_port < 1024 ==> bind_outcome(ev) == Some(Severity::Low)),
        ev matches Event::ProcessStart(e) ==> (root_process_outcome(ev) is Some <==> e.header.uid == 0),
        ev matches Event::ProcessExit(e) ==> (root_process_outcome(ev) is Some <==> e.header.uid == 0),
        root_process_outcome(ev) matches Some(s) ==> s == Severity::Low,
{
    if let Event::FileOpen(e) = ev {
        let p = e.file_path@;
        reveal_strlit("/dev/input/");
        reveal_strlit("/dev/tty");
        reveal_strlit("/dev/pts/");
        if has_prefix(p, "/dev/tty"@) {
            assert(p.take(8)[5] == 't');
            assert(!has_prefix(p, "/dev/input/"@)) by {
                if has_prefix(p, "/dev/input/"@) { assert(p.take(11)[5] == 'i'); }
            }
        }
        if has_prefix(p, "/dev/pts/"@) {
            assert(p.take(9)[5] == 'p');
            assert(!has_prefix(p, "/dev/input/"@)) by {
                if has_prefix(p, "/dev/input/"@) { assert(p.take(11)[5] == 'i'); }
            }
            assert(!has_prefix(p, "/dev/tty"@)) by {
                if has_prefix(p, "/dev/tty"@) { assert(p.take(8)[5] == 't'); }
            }
        }
    }
}

/// The sensitive-path rule gives the highest severity whose list holds a
/// prefix of the path: the severity it gives lists a prefix of the path, it
/// is no lower than any severity listing one, and it matches whenever some
/// list holds a prefix.
pub proof fn lemma_sensitive_path_highest(m: SeverityMap<String>, path: Seq<char>)
    ensures
        m.highest_text_hit(path) matches Some(t) ==> text_hit(m.spec_list(t), path),
        forall|s: Severity| #[trigger] text_hit(m.spec_list(s), path)
            ==> (m.highest_text_hit(path) matches Some(t) && t.rank() >= s.rank()),
{
    assert(m.info == m.spec_list(Severity::Info));
    assert(m.low == m.spec_list(Severity::Low));
    assert(m.medium == m.spec_list(Severity::Medium));
    assert(m.high == m.spec_list(Severity::High));
    assert(m.critical == m.spec_list(Severity::Critical));
}
/// The access label the views show and the write test of the rules agree:
/// a file opened for writing is labelled "W" (write-only) or "RW"
/// (read-write), any other open "R".
pub proof fn lemma_op_label_agrees_with_write(flags: i32)
    ensures
        op_label(flags) == "W"@ <==> (flags as u32) % 4 == 1,
        op_label(flags) == "RW"@ <==> (flags as u32) % 4 == 2,
        op_label(flags) == "R"@ <==> !opened_for_write(flags as u32),
{
    reveal_strlit("W");
    reveal_strlit("RW");
    reveal_strlit("R");
    assert("W"@ != "RW"@ && "W"@ != "R"@ && "RW"@ != "R"@) by {
        assert("W"@.len() == 1 && "RW"@.len() == 2 && "R"@.len() == 1);
        assert("W"@[0] != "R"@[0]);
    }
}
} // verus!
