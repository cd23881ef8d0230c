//! The events the library classifies, stores and shows, held as plain values.
use vstd::prelude::*;
use crate::net::{IpAddress, ip_text, push_ip};
use crate::text::{dec, lemma_trim_trailing_spaces, push_dec, push_str, trimmed};

verus! {

/// How interesting an event is, from `Info` up to `Critical`.
#[derive(Clone, Copy, Debug, PartialEq, Eq, Structural, Hash, PartialOrd, Ord)]
pub enum Severity {
    Info,
    Low,
    Medium,
    High,
    Critical,
}

impl Severity {
    /// Position in the order `Info < Low < Medium < High < Critical`.
    pub open spec fn rank(self) -> nat {
        match self {
            Severity::Info => 0,
            Severity::Low => 1,
            Severity::Medium => 2,
            Severity::High => 3,
            Severity::Critical => 4,
        }
    }

    /// The label shown in the event stream.
    pub open spec fn label_text(self) -> Seq<char> {
        match self {
            Severity::Info => "INFO "@,
            Severity::Low => "LOW "@,
            Severity::Medium => "MED "@,
            Severity::High => "HIGH "@,
            Severity::Critical => "CRIT "@,
        }
    }

    /// The label shown in the event stream.
    pub fn label(&self) -> (res: &'static str)
        ensures
            res@ == self.label_text(),
    {
        match self {
            Severity::Info => "INFO ",
            Severity::Low => "LOW ",
            Severity::Medium => "MED ",
            Severity::High => "HIGH ",
            Severity::Critical => "CRIT ",
        }
    }
}

/// The greater of two severities.
pub open spec fn max_severity(a: Severity, b: Severity) -> Severity {
    if a.rank() >= b.rank() { a } else { b }
}

/// The greater of two severities.
pub fn severity_max(a: Severity, b: Severity) -> (res: Severity)
    ensures
        res == max_severity(a, b),
        res.rank() >= a.rank(),
        res.rank() >= b.rank(),
{
    let ra: u8 = match a {
        Severity::Info => 0,
        Severity::Low => 1,
        Severity::Medium => 2,
        Severity::High => 3,
        Severity::Critical => 4,
    };
    let rb: u8 = match b {
        Severity::Info => 0,
        Severity::Low => 1,
        Severity::Medium => 2,
        Severity::High => 3,
        Severity::Critical => 4,
    };
    if ra >= rb { a } else { b }
}

/// Event categories.
#[derive(Clone, Copy, Debug, PartialEq, Eq, Structural, Hash, PartialOrd, Ord)]
pub enum EventType {
    ProcessStart,
    ProcessExit,
    ProcessFork,
    FileOpen,
    FileClose,
    FileDelete,
    FileRead,
    FileRename,
    FileWrite,
    NetworkAccept,
    NetworkConnect,
    NetworkBind,
    NetworkClose,
    NetworkListen,
}

/// Identity, credentials and time of the task behind an event.
#[derive(Clone, Debug, PartialEq, Eq, Hash)]
pub struct EventHeader {
    pub timestamp_ns: u64,
    pub pid: u32,
    pub tid: u32,
    pub ppid: u32,
    pub uid: u32,
    pub gid: u32,
    pub comm: String,
}

/// Type of a filesystem object.
#[derive(Clone, Copy, Debug, PartialEq, Eq, Structural, Hash)]
pub enum FileType {
    Regular,
    Directory,
    CharDevice,
    BlockDevice,
    Fifo,
    Symlink,
    Socket,
    Unknown,
}

#[derive(Clone, Debug, PartialEq, Eq, Hash)]
pub struct FileOpenEvent {
    pub header: EventHeader,
    pub file_path: String,
    pub file_type: FileType,
    pub inode: u64,
    pub retval: i32,
    pub flags: u32,
}

#[derive(Clone, Debug, PartialEq, Eq, Hash)]
pub struct FileCloseEvent {
    pub header: EventHeader,
    pub file_path: String,
    pub file_type: FileType,
    pub inode: u64,
    pub retval: i32,
    pub flags: u32,
}

#[derive(Clone, Debug, PartialEq, Eq, Hash)]
pub struct FileReadEvent {
    pub header: EventHeader,
    pub file_path: String,
    pub file_type: FileType,
    pub inode: u64,
    pub retval: i64,
    pub flags: u32,
}

#[derive(Clone, Debug, PartialEq, Eq, Hash)]
pub struct FileWriteEvent {
    pub header: EventHeader,
    pub file_path: String,
    pub file_type: FileType,
    pub inode: u64,
    pub retval: i64,
    pub flags: u32,
}

#[derive(Clone, Debug, PartialEq, Eq, Hash)]
pub struct FileDeleteEvent {
    pub header: EventHeader,
    pub filename: String,
    pub file_type: FileType,
    pub retval: i32,
}

#[derive(Clone, Debug, PartialEq, Eq, Hash)]
pub struct FileRenameEvent {
    pub header: EventHeader,
    pub old_filename: String,
    pub new_filename: String,
    pub file_type: FileType,
    pub flags: u32,
    pub retval: i32,
}

#[derive(Clone, Debug, PartialEq, Eq, Hash)]
pub struct ProcessStartEvent {
    pub header: EventHeader,
    pub filename: String,
}

#[derive(Clone, Debug, PartialEq, Eq, Hash)]
pub struct ProcessExitEvent {
    pub header: EventHeader,
    pub exit_code: i32,
}

#[derive(Clone, Debug, PartialEq, Eq, Hash)]
pub struct ProcessForkEvent {
    pub parent: EventHeader,
    pub child_pid: u32,
    pub child_comm: String,
}

/// Transport protocol of a socket.
#[derive(Clone, Copy, Debug, PartialEq, Eq, Structural, Hash)]
pub enum Protocol {
    Tcp,
    Udp,
}

/// Local and remote address and port of a socket.
#[derive(Clone, Copy, Debug, PartialEq, Eq, Structural, Hash)]
pub struct SocketEndpoints {
    pub local_ip: IpAddress,
    pub local_port: u16,
    pub remote_ip: IpAddress,
    pub remote_port: u16,
}

#[derive(Clone, Debug, PartialEq, Eq, Hash)]
pub struct ConnectEvent {
    pub header: EventHeader,
    pub protocol: Protocol,
    pub endpoints: SocketEndpoints,
    pub retval: i32,
}

#[derive(Clone, Debug, PartialEq, Eq, Hash)]
pub struct AcceptEvent {
    pub header: EventHeader,
    pub protocol: Protocol,
    pub endpoints: SocketEndpoints,
}

#[derive(Clone, Debug, PartialEq, Eq, Hash)]
pub struct CloseEvent {
    pub header: EventHeader,
    pub protocol: Protocol,
    pub endpoints: SocketEndpoints,
}

#[derive(Clone, Debug, PartialEq, Eq, Hash)]
pub struct BindEvent {
    pub header: EventHeader,
    pub protocol: Protocol,
    pub endpoints: SocketEndpoints,
    pub retval: i32,
}

#[derive(Clone, Debug, PartialEq, Eq, Hash)]
pub struct ListenEvent {
    pub header: EventHeader,
    pub protocol: Protocol,
    pub endpoints: SocketEndpoints,
    pub retval: i32,
}

/// An event together with the outcome of classifying it.
#[derive(Clone, Debug, PartialEq)]
pub struct Classified<T> {
    pub event: T,
    pub severity: Severity,
    pub matched_rules: Vec<String>,
}

/// A classified event of any kind.
#[derive(Clone, Debug, PartialEq)]
pub enum AppEvent {
    ProcessStart(Classified<ProcessStartEvent>),
    ProcessExit(Classified<ProcessExitEvent>),
    ProcessFork(Classified<ProcessForkEvent>),
    FileOpen(Classified<FileOpenEvent>),
    FileClose(Classified<FileCloseEvent>),
    FileDelete(Classified<FileDeleteEvent>),
    FileRead(Classified<FileReadEvent>),
    FileRename(Classified<FileRenameEvent>),
    FileWrite(Classified<FileWriteEvent>),
    NetworkAccept(Classified<AcceptEvent>),
    NetworkConnect(Classified<ConnectEvent>),
    NetworkBind(Classified<BindEvent>),
    NetworkClose(Classified<CloseEvent>),
    NetworkListen(Classified<ListenEvent>),
}

/// A process known to the classifier.
#[derive(Clone, Debug, PartialEq)]
pub struct ProcessInfo {
    pub uid: u32,
    pub exe: String,
    pub comm: String,
}

/// Names of the event kinds in the order of the filter list of the view.
pub open spec fn filter_name(idx: int) -> Seq<char> {
    if idx == 0 { "ProcessStart"@ }
    else if idx == 1 { "ProcessExit"@ }
    else if idx == 2 { "ProcessFork"@ }
    else if idx == 3 { "FileOpen"@ }
    else if idx == 4 { "FileClose"@ }
    else if idx == 5 { "FileRead"@ }
    else if idx == 6 { "FileDelete"@ }
    else if idx == 7 { "FileRename"@ }
    else if idx == 8 { "FileWrite"@ }
    else if idx == 9 { "NetworkAccept"@ }
    else if idx == 10 { "NetworkConnect"@ }
    else if idx == 11 { "NetworkBind"@ }
    else if idx == 12 { "NetworkListen"@ }
    else { "NetworkClose"@ }
}

/// Number of entries in the filter list.
pub const FILTER_COUNT: usize = 14;

/// The event kinds the view can filter on, in display order.
pub fn filter_events() -> (res: Vec<&'static str>)
    ensures
        res@.len() == FILTER_COUNT,
        forall|i: int| 0 <= i < FILTER_COUNT ==> #[trigger] res@[i]@ == filter_name(i),
{
    let v: Vec<&'static str> = vec![
        "ProcessStart", "ProcessExit", "ProcessFork", "FileOpen", "FileClose", "FileRead",
        "FileDelete", "FileRename", "FileWrite", "NetworkAccept", "NetworkConnect", "NetworkBind",
        "NetworkListen", "NetworkClose",
    ];
    assert forall|i: int| 0 <= i < FILTER_COUNT implies #[trigger] v@[i]@ == filter_name(i) by {
        if i == 0 {} else if i == 1 {} else if i == 2 {} else if i == 3 {} else if i == 4 {}
        else if i == 5 {} else if i == 6 {} else if i == 7 {} else if i == 8 {} else if i == 9 {}
        else if i == 10 {} else if i == 11 {} else if i == 12 {} else {}
    }
    v
}

impl AppEvent {
    /// Position of the event's kind in the filter list.
    pub open spec fn filter_index(self) -> int {
        match self {
            AppEvent::ProcessStart(_) => 0,
            AppEvent::ProcessExit(_) => 1,
            AppEvent::ProcessFork(_) => 2,
            AppEvent::FileOpen(_) => 3,
            AppEvent::FileClose(_) => 4,
            AppEvent::FileRead(_) => 5,
            AppEvent::FileDelete(_) => 6,
            AppEvent::FileRename(_) => 7,
            AppEvent::FileWrite(_) => 8,
            AppEvent::NetworkAccept(_) => 9,
            AppEvent::NetworkConnect(_) => 10,
            AppEvent::NetworkBind(_) => 11,
            AppEvent::NetworkListen(_) => 12,
            AppEvent::NetworkClose(_) => 13,
        }
    }

    /// The header that identifies the task behind the event (the parent's for a fork).
    pub open spec fn spec_header(self) -> EventHeader {
        match self {
            AppEvent::ProcessStart(e) => e.event.header,
            AppEvent::ProcessExit(e) => e.event.header,
            AppEvent::ProcessFork(e) => e.event.parent,
            AppEvent::FileOpen(e) => e.event.header,
            AppEvent::FileClose(e) => e.event.header,
            AppEvent::FileDelete(e) => e.event.header,
            AppEvent::FileRead(e) => e.event.header,
            AppEvent::FileRename(e) => e.event.header,
            AppEvent::FileWrite(e) => e.event.header,
            AppEvent::NetworkAccept(e) => e.event.header,
            AppEvent::NetworkConnect(e) => e.event.header,
            AppEvent::NetworkBind(e) => e.event.header,
            AppEvent::NetworkClose(e) => e.event.header,
            AppEvent::NetworkListen(e) => e.event.header,
        }
    }

    /// The severity the classifier gave the event.
    pub open spec fn spec_severity(self) -> Severity {
        match self {
            AppEvent::ProcessStart(e) => e.severity,
            AppEvent::ProcessExit(e) => e.severity,
            AppEvent::ProcessFork(e) => e.severity,
            AppEvent::FileOpen(e) => e.severity,
            AppEvent::FileClose(e) => e.severity,
            AppEvent::FileDelete(e) => e.severity,
            AppEvent::FileRead(e) => e.severity,
            AppEvent::FileRename(e) => e.severity,
            AppEvent::FileWrite(e) => e.severity,
            AppEvent::NetworkAccept(e) => e.severity,
            AppEvent::NetworkConnect(e) => e.severity,
            AppEvent::NetworkBind(e) => e.severity,
            AppEvent::NetworkClose(e) => e.severity,
            AppEvent::NetworkListen(e) => e.severity,
        }
    }

    /// The names of the rules that matched the event.
    pub open spec fn spec_rules(self) -> Seq<String> {
        match self {
            AppEvent::ProcessStart(e) => e.matched_rules@,
            AppEvent::ProcessExit(e) => e.matched_rules@,
            AppEvent::ProcessFork(e) => e.matched_rules@,
            AppEvent::FileOpen(e) => e.matched_rules@,
            AppEvent::FileClose(e) => e.matched_rules@,
            AppEvent::FileDelete(e) => e.matched_rules@,
            AppEvent::FileRead(e) => e.matched_rules@,
            AppEvent::FileRename(e) => e.matched_rules@,
            AppEvent::FileWrite(e) => e.matched_rules@,
            AppEvent::NetworkAccept(e) => e.matched_rules@,
            AppEvent::NetworkConnect(e) => e.matched_rules@,
            AppEvent::NetworkBind(e) => e.matched_rules@,
            AppEvent::NetworkClose(e) => e.matched_rules@,
            AppEvent::NetworkListen(e) => e.matched_rules@,
        }
    }

    /// The category of the event; deletes, reads and renames count as closes.
    pub open spec fn spec_event_type(self) -> EventType {
        match self {
            AppEvent::ProcessStart(_) => EventType::ProcessStart,
            AppEvent::ProcessExit(_) => EventType::ProcessExit,
            AppEvent::ProcessFork(_) => EventType::ProcessFork,
            AppEvent::FileOpen(_) => EventType::FileOpen,
            AppEvent::FileClose(_) => EventType::FileClose,
            AppEvent::FileDelete(_) => EventType::FileClose,
            AppEvent::FileRead(_) => EventType::FileClose,
            AppEvent::FileRename(_) => EventType::FileClose,
            AppEvent::FileWrite(_) => EventType::FileWrite,
            AppEvent::NetworkAccept(_) => EventType::NetworkAccept,
            AppEvent::NetworkConnect(_) => EventType::NetworkConnect,
            AppEvent::NetworkBind(_) => EventType::NetworkBind,
            AppEvent::NetworkClose(_) => EventType::NetworkClose,
            AppEvent::NetworkListen(_) => EventType::NetworkListen,
        }
    }

    /// The kind label shown in the event stream.
    pub open spec fn spec_kind_label(self) -> Seq<char> {
        match self {
            AppEvent::ProcessStart(_) => "ProcessStart "@,
            AppEvent::ProcessExit(_) => "ProcessExit  "@,
            AppEvent::ProcessFork(_) => "ProcessFork  "@,
            AppEvent::FileOpen(_) => "FileOpen "@,
            AppEvent::FileClose(_) => "FileClose "@,
            AppEvent::FileDelete(_) => "FileDelete "@,
            AppEvent::FileRead(_) => "FileRead "@,
            AppEvent::FileRename(_) => "FileRename "@,
            AppEvent::FileWrite(_) => "FileWrite "@,
            AppEvent::NetworkAccept(_) => "NetworkAccept  "@,
            AppEvent::NetworkConnect(_) => "NetworkConnect  "@,
            AppEvent::NetworkBind(_) => "NetworkBind  "@,
            AppEvent::NetworkClose(_) => "NetworkClose  "@,
            AppEvent::NetworkListen(_) => "NetworkListen  "@,
        }
    }

    /// The one-line summary shown in the event stream.
    pub open spec fn spec_detail(self) -> Seq<char> {
        match self {
            AppEvent::ProcessStart(e) => "exec: "@ + e.event.filename@,
            AppEvent::ProcessExit(e) => "exit: pid "@ + dec(e.event.header.pid as nat),
            AppEvent::ProcessFork(e) => "fork: "@ + dec(e.event.parent.pid as nat) + " -> "@
                + dec(e.event.child_pid as nat),
            AppEvent::FileOpen(e) => "open: "@ + e.event.file_path@,
            AppEvent::FileClose(e) => "close: "@ + e.event.header.comm@,
            AppEvent::FileDelete(e) => "delete: "@ + e.event.filename@,
            AppEvent::FileRead(e) => "read: "@ + e.event.file_path@,
            AppEvent::FileRename(e) => "rename: "@ + e.event.old_filename@ + " -> "@
                + e.event.new_filename@,
            AppEvent::FileWrite(e) => "write: "@ + e.event.file_path@,
            AppEvent::NetworkAccept(e) => "accept: "@ + ip_text(e.event.endpoints.remote_ip),
            AppEvent::NetworkConnect(e) => "connect: "@ + ip_text(e.event.endpoints.remote_ip),
            AppEvent::NetworkBind(e) => "bind: "@ + ip_text(e.event.endpoints.remote_ip),
            AppEvent::NetworkClose(e) => "close: "@ + ip_text(e.event.endpoints.remote_ip),
            AppEvent::NetworkListen(e) => "listen: "@ + ip_text(e.event.endpoints.remote_ip),
        }
    }

    /// The names of the rules that matched the event.
    pub fn rule_name(&self) -> (res: &[String])
        ensures
            res@ == self.spec_rules(),
    {
        match self {
            AppEvent::ProcessStart(e) => e.matched_rules.as_slice(),
            AppEvent::ProcessExit(e) => e.matched_rules.as_slice(),
            AppEvent::ProcessFork(e) => e.matched_rules.as_slice(),
            AppEvent::FileOpen(e) => e.matched_rules.as_slice(),
            AppEvent::FileClose(e) => e.matched_rules.as_slice(),
            AppEvent::FileDelete(e) => e.matched_rules.as_slice(),
            AppEvent::FileRead(e) => e.matched_rules.as_slice(),
            AppEvent::FileRename(e) => e.matched_rules.as_slice(),
            AppEvent::FileWrite(e) => e.matched_rules.as_slice(),
            AppEvent::NetworkAccept(e) => e.matched_rules.as_slice(),
            AppEvent::NetworkConnect(e) => e.matched_rules.as_slice(),
            AppEvent::NetworkBind(e) => e.matched_rules.as_slice(),
            AppEvent::NetworkClose(e) => e.matched_rules.as_slice(),
            AppEvent::NetworkListen(e) => e.matched_rules.as_slice(),
        }
    }

    /// The category of the event; deletes, reads and renames count as closes.
    pub fn event_type(&mut self) -> (res: EventType)
        ensures
            res == old(self).spec_event_type(),
            *final(self) == *old(self),
    {
        match self {
            AppEvent::ProcessStart(_) => EventType::ProcessStart,
            AppEvent::ProcessExit(_) => EventType::ProcessExit,
            AppEvent::ProcessFork(_) => EventType::ProcessFork,
            AppEvent::FileOpen(_) => EventType::FileOpen,
            AppEvent::FileClose(_) => EventType::FileClose,
            AppEvent::FileDelete(_) => EventType::FileClose,
            AppEvent::FileRead(_) => EventType::FileClose,
            AppEvent::FileRename(_) => EventType::FileClose,
            AppEvent::FileWrite(_) => EventType::FileWrite,
            AppEvent::NetworkAccept(_) => EventType::NetworkAccept,
            AppEvent::NetworkConnect(_) => EventType::NetworkConnect,
            AppEvent::NetworkBind(_) => EventType::NetworkBind,
            AppEvent::NetworkClose(_) => EventType::NetworkClose,
            AppEvent::NetworkListen(_) => EventType::NetworkListen,
        }
    }

    /// Whether the event's kind is the `filter_idx`-th entry of the filter list.
    pub fn matches_filter(&self, filter_idx: usize) -> (res: bool)
        requires
            filter_idx < FILTER_COUNT,
        ensures
            res == (self.filter_index() == filter_idx),
    {
        let mine: usize = match self {
            AppEvent::ProcessStart(_) => 0,
            AppEvent::ProcessExit(_) => 1,
            AppEvent::ProcessFork(_) => 2,
            AppEvent::FileOpen(_) => 3,
            AppEvent::FileClose(_) => 4,
            AppEvent::FileRead(_) => 5,
            AppEvent::FileDelete(_) => 6,
            AppEvent::FileRename(_) => 7,
            AppEvent::FileWrite(_) => 8,
            AppEvent::NetworkAccept(_) => 9,
            AppEvent::NetworkConnect(_) => 10,
            AppEvent::NetworkBind(_) => 11,
            AppEvent::NetworkListen(_) => 12,
            AppEvent::NetworkClose(_) => 13,
        };
        mine == filter_idx
    }

    /// Time of the event in nanoseconds (the parent's for a fork).
    pub fn timestamp(&self) -> (res: u64)
        ensures
            res == self.spec_header().timestamp_ns,
    {
        self.header().timestamp_ns
    }

    /// Process id of the event (the parent's for a fork).
    pub fn pid(&self) -> (res: u32)
        ensures
            res == self.spec_header().pid,
    {
        self.header().pid
    }

    /// The header of the event (the parent's for a fork).
    pub fn header(&self) -> (res: &EventHeader)
        ensures
            *res == self.spec_header(),
    {
        match self {
            AppEvent::ProcessStart(e) => &e.event.header,
            AppEvent::ProcessExit(e) => &e.event.header,
            AppEvent::ProcessFork(e) => &e.event.parent,
            AppEvent::FileOpen(e) => &e.event.header,
            AppEvent::FileClose(e) => &e.event.header,
            AppEvent::FileDelete(e) => &e.event.header,
            AppEvent::FileRead(e) => &e.event.header,
            AppEvent::FileRename(e) => &e.event.header,
            AppEvent::FileWrite(e) => &e.event.header,
            AppEvent::NetworkAccept(e) => &e.event.header,
            AppEvent::NetworkConnect(e) => &e.event.header,
            AppEvent::NetworkBind(e) => &e.event.header,
            AppEvent::NetworkClose(e) => &e.event.header,
            AppEvent::NetworkListen(e) => &e.event.header,
        }
    }

    /// The kind label shown in the event stream.
    pub fn kind_label(&self) -> (res: &'static str)
        ensures
            res@ == self.spec_kind_label(),
    {
        match self {
            AppEvent::ProcessStart(_) => "ProcessStart ",
            AppEvent::ProcessExit(_) => "ProcessExit  ",
            AppEvent::ProcessFork(_) => "ProcessFork  ",
            AppEvent::FileOpen(_) => "FileOpen ",
            AppEvent::FileClose(_) => "FileClose ",
            AppEvent::FileDelete(_) => "FileDelete ",
            AppEvent::FileRead(_) => "FileRead ",
            AppEvent::FileRename(_) => "FileRename ",
            AppEvent::FileWrite(_) => "FileWrite ",
            AppEvent::NetworkAccept(_) => "NetworkAccept  ",
            AppEvent::NetworkConnect(_) => "NetworkConnect  ",
            AppEvent::NetworkBind(_) => "NetworkBind  ",
            AppEvent::NetworkClose(_) => "NetworkClose  ",
            AppEvent::NetworkListen(_) => "NetworkListen  ",
        }
    }

    /// The severity the classifier gave the event.
    pub fn severity(&self) -> (res: Severity)
        ensures
            res == self.spec_severity(),
    {
        match self {
            AppEvent::FileOpen(e) => e.severity,
            AppEvent::FileClose(e) => e.severity,
            AppEvent::FileDelete(e) => e.severity,
            AppEvent::FileRead(e) => e.severity,
            AppEvent::FileRename(e) => e.severity,
            AppEvent::FileWrite(e) => e.severity,
            AppEvent::ProcessStart(e) => e.severity,
            AppEvent::ProcessExit(e) => e.severity,
            AppEvent::ProcessFork(e) => e.severity,
            AppEvent::NetworkAccept(e) => e.severity,
            AppEvent::NetworkConnect(e) => e.severity,
            AppEvent::NetworkBind(e) => e.severity,
            AppEvent::NetworkClose(e) => e.severity,
            AppEvent::NetworkListen(e) => e.severity,
        }
    }

    /// The one-line summary shown in the event stream.
    pub fn detail(&self) -> (res: String)
        ensures
            res@ == self.spec_detail(),
    {
        let mut s = String::new();
        match self {
            AppEvent::ProcessStart(e) => {
                push_str(&mut s, "exec: ");
                push_str(&mut s, e.event.filename.as_str());
            },
            AppEvent::ProcessExit(e) => {
                push_str(&mut s, "exit: pid ");
                push_dec(&mut s, e.event.header.pid as u64);
            },
            AppEvent::ProcessFork(e) => {
                push_str(&mut s, "fork: ");
                push_dec(&mut s, e.event.parent.pid as u64);
                push_str(&mut s, " -> ");
                push_dec(&mut s, e.event.child_pid as u64);
            },
            AppEvent::FileOpen(e) => {
                push_str(&mut s, "open: ");
                push_str(&mut s, e.event.file_path.as_str());
            },
            AppEvent::FileClose(e) => {
                push_str(&mut s, "close: ");
                push_str(&mut s, e.event.header.comm.as_str());
            },
            AppEvent::FileDelete(e) => {
                push_str(&mut s, "delete: ");
                push_str(&mut s, e.event.filename.as_str());
            },
            AppEvent::FileRead(e) => {
                push_str(&mut s, "read: ");
                push_str(&mut s, e.event.file_path.as_str());
            },
            AppEvent::FileRename(e) => {
                push_str(&mut s, "rename: ");
                push_str(&mut s, e.event.old_filename.as_str());
                push_str(&mut s, " -> ");
                push_str(&mut s, e.event.new_filename.as_str());
            },
            AppEvent::FileWrite(e) => {
                push_str(&mut s, "write: ");
                push_str(&mut s, e.event.file_path.as_str());
            },
            AppEvent::NetworkAccept(e) => {
                push_str(&mut s, "accept: ");
                push_ip(&mut s, e.event.endpoints.remote_ip);
            },
            AppEvent::NetworkConnect(e) => {
                push_str(&mut s, "connect: ");
                push_ip(&mut s, e.event.endpoints.remote_ip);
            },
            AppEvent::NetworkBind(e) => {
                push_str(&mut s, "bind: ");
                push_ip(&mut s, e.event.endpoints.remote_ip);
            },
            AppEvent::NetworkClose(e) => {
                push_str(&mut s, "close: ");
                push_ip(&mut s, e.event.endpoints.remote_ip);
            },
            AppEvent::NetworkListen(e) => {
                push_str(&mut s, "listen: ");
                push_ip(&mut s, e.event.endpoints.remote_ip);
            },
        }
        assert(s@ =~= self.spec_detail());
        s
    }
}

/// An event as kept by the view, with its severity at hand.
#[derive(Clone, Debug, PartialEq)]
pub struct UiEvent {
    pub event: AppEvent,
    pub severity: Severity,
}

impl UiEvent {
    /// Wraps an event, copying its severity.
    pub fn new(ev: AppEvent) -> (res: UiEvent)
        ensures
            res.event == ev,
            res.severity == ev.spec_severity(),
    {
        let severity = ev.severity();
        UiEvent { event: ev, severity }
    }
}

/// A process lifecycle event.
#[derive(Clone, Debug, PartialEq)]
pub enum ProcessEvent {
    Start(ProcessStartEvent),
    Fork(ProcessForkEvent),
    Exit(ProcessExitEvent),
}

impl ProcessEvent {
    pub open spec fn spec_header(self) -> EventHeader {
        match self {
            ProcessEvent::Start(e) => e.header,
            ProcessEvent::Fork(e) => e.parent,
            ProcessEvent::Exit(e) => e.header,
        }
    }

    /// The header of the event (the parent's for a fork).
    pub fn header(&self) -> (res: &EventHeader)
        ensures
            *res == self.spec_header(),
    {
        match self {
            ProcessEvent::Start(e) => &e.header,
            ProcessEvent::Fork(e) => &e.parent,
            ProcessEvent::Exit(e) => &e.header,
        }
    }
}

/// A file system event.
#[derive(Clone, Debug, PartialEq)]
pub enum FileEvent {
    Open(FileOpenEvent),
    Read(FileReadEvent),
    Close(FileCloseEvent),
    Write(FileWriteEvent),
    Delete(FileDeleteEvent),
    Rename(FileRenameEvent),
}

/// Identifies a file event for deduplication, by the fields that matter for
/// its kind.
#[derive(Clone, Copy, Debug, PartialEq, Eq, Structural, Hash)]
pub enum FileEventKey {
    Read { inode: u64, retval: i64 },
    Write { inode: u64, retval: i64 },
    Open { inode: u64, flags: u32 },
    Close { inode: u64, retval: i32 },
    Rename { retval: i32 },
    Delete { retval: i32 },
}

impl FileEvent {
    pub open spec fn spec_header(self) -> EventHeader {
        match self {
            FileEvent::Open(e) => e.header,
            FileEvent::Read(e) => e.header,
            FileEvent::Close(e) => e.header,
            FileEvent::Write(e) => e.header,
            FileEvent::Delete(e) => e.header,
            FileEvent::Rename(e) => e.header,
        }
    }

    /// The header of the event.
    pub fn header(&self) -> (res: &EventHeader)
        ensures
            *res == self.spec_header(),
    {
        match self {
            FileEvent::Open(e) => &e.header,
            FileEvent::Read(e) => &e.header,
            FileEvent::Close(e) => &e.header,
            FileEvent::Write(e) => &e.header,
            FileEvent::Delete(e) => &e.header,
            FileEvent::Rename(e) => &e.header,
        }
    }

    pub open spec fn spec_inode(self) -> Option<u64> {
        match self {
            FileEvent::Open(e) => Some(e.inode),
            FileEvent::Read(e) => Some(e.inode),
            FileEvent::Close(e) => Some(e.inode),
            FileEvent::Write(e) => Some(e.inode),
            _ => None,
        }
    }

    /// The inode, for opens, reads, closes and writes.
    pub fn inode(&self) -> (res: Option<u64>)
        ensures
            res == self.spec_inode(),
    {
        match self {
            FileEvent::Open(e) => Some(e.inode),
            FileEvent::Read(e) => Some(e.inode),
            FileEvent::Close(e) => Some(e.inode),
            FileEvent::Write(e) => Some(e.inode),
            _ => None,
        }
    }

    pub open spec fn spec_file_path(self) -> Option<Seq<char>> {
        match self {
            FileEvent::Open(e) => Some(e.file_path@),
            FileEvent::Read(e) => Some(e.file_path@),
            FileEvent::Close(e) => Some(e.file_path@),
            FileEvent::Write(e) => Some(e.file_path@),
            _ => None,
        }
    }

    /// The path, for opens, reads, closes and writes.
    pub fn file_path(&self) -> (res: Option<&str>)
        ensures
            match self.spec_file_path() {
                Some(p) => res matches Some(r) && r@ == p,
                None => res is None,
            },
    {
        match self {
            FileEvent::Open(e) => Some(e.file_path.as_str()),
            FileEvent::Read(e) => Some(e.file_path.as_str()),
            FileEvent::Close(e) => Some(e.file_path.as_str()),
            FileEvent::Write(e) => Some(e.file_path.as_str()),
            _ => None,
        }
    }

    pub open spec fn spec_dedup_key(self) -> FileEventKey {
        match self {
            FileEvent::Read(e) => FileEventKey::Read { inode: e.inode, retval: e.retval },
            FileEvent::Open(e) => FileEventKey::Open { inode: e.inode, flags: e.flags },
            FileEvent::Write(e) => FileEventKey::Write { inode: e.inode, retval: e.retval },
            FileEvent::Close(e) => FileEventKey::Close { inode: e.inode, retval: e.retval },
            FileEvent::Rename(e) => FileEventKey::Rename { retval: e.retval },
            FileEvent::Delete(e) => FileEventKey::Delete { retval: e.retval },
        }
    }

    /// The deduplication key of the event.
    pub fn dedup_key(&self) -> (res: FileEventKey)
        ensures
            res == self.spec_dedup_key(),
    {
        match self {
            FileEvent::Read(e) => FileEventKey::Read { inode: e.inode, retval: e.retval },
            FileEvent::Open(e) => FileEventKey::Open { inode: e.inode, flags: e.flags },
            FileEvent::Write(e) => FileEventKey::Write { inode: e.inode, retval: e.retval },
            FileEvent::Close(e) => FileEventKey::Close { inode: e.inode, retval: e.retval },
            FileEvent::Rename(e) => FileEventKey::Rename { retval: e.retval },
            FileEvent::Delete(e) => FileEventKey::Delete { retval: e.retval },
        }
    }
}

/// A network event.
#[derive(Clone, Debug, PartialEq)]
pub enum NetworkEvent {
    Connect(ConnectEvent),
    Accept(AcceptEvent),
    Close(CloseEvent),
    Bind(BindEvent),
    Listen(ListenEvent),
}

impl NetworkEvent {
    pub open spec fn spec_header(self) -> EventHeader {
        match self {
            NetworkEvent::Connect(e) => e.header,
            NetworkEvent::Accept(e) => e.header,
            NetworkEvent::Close(e) => e.header,
            NetworkEvent::Bind(e) => e.header,
            NetworkEvent::Listen(e) => e.header,
        }
    }

    /// The header of the event.
    pub fn header(&self) -> (res: &EventHeader)
        ensures
            *res == self.spec_header(),
    {
        match self {
            NetworkEvent::Connect(e) => &e.header,
            NetworkEvent::Accept(e) => &e.header,
            NetworkEvent::Close(e) => &e.header,
            NetworkEvent::Bind(e) => &e.header,
            NetworkEvent::Listen(e) => &e.header,
        }
    }
}


/// An exact copy of a list of strings.
pub fn copy_strings(v: &Vec<String>) -> (res: Vec<String>)
    ensures
        res@ == v@,
{
    let mut out: Vec<String> = Vec::new();
    let mut i: usize = 0;
    while i < v.len()
        invariant
            i <= v.len(),
            out@ == v@.take(i as int),
        decreases v.len() - i,
    {
        out.push(v[i].clone());
        assert(out@ =~= v@.take(i + 1));
        i = i + 1;
    }
    assert(v@.take(v.len() as int) =~= v@);
    out
}

impl EventHeader {
    /// An exact copy.
    pub fn copy(&self) -> (res: EventHeader)
        ensures
            res == *self,
    {
        EventHeader {
            timestamp_ns: self.timestamp_ns,
            pid: self.pid,
            tid: self.tid,
            ppid: self.ppid,
            uid: self.uid,
            gid: self.gid,
            comm: self.comm.clone(),
        }
    }
}

impl<T> Classified<T> {
    /// The same event, severity and rule names (the lists compared by content).
    pub open spec fn same_as(self, o: Classified<T>) -> bool {
        self.event == o.event && self.severity == o.severity && self.matched_rules@ == o.matched_rules@
    }
}

impl AppEvent {
    /// The same kind of event with the same contents (rule lists compared by content).
    pub open spec fn same_as(self, o: AppEvent) -> bool {
        match (self, o) {
            (AppEvent::ProcessStart(a), AppEvent::ProcessStart(b)) => a.same_as(b),
            (AppEvent::ProcessExit(a), AppEvent::ProcessExit(b)) => a.same_as(b),
            (AppEvent::ProcessFork(a), AppEvent::ProcessFork(b)) => a.same_as(b),
            (AppEvent::FileOpen(a), AppEvent::FileOpen(b)) => a.same_as(b),
            (AppEvent::FileClose(a), AppEvent::FileClose(b)) => a.same_as(b),
            (AppEvent::FileDelete(a), AppEvent::FileDelete(b)) => a.same_as(b),
            (AppEvent::FileRead(a), AppEvent::FileRead(b)) => a.same_as(b),
            (AppEvent::FileRename(a), AppEvent::FileRename(b)) => a.same_as(b),
            (AppEvent::FileWrite(a), AppEvent::FileWrite(b)) => a.same_as(b),
            (AppEvent::NetworkAccept(a), AppEvent::NetworkAccept(b)) => a.same_as(b),
            (AppEvent::NetworkConnect(a), AppEvent::NetworkConnect(b)) => a.same_as(b),
            (AppEvent::NetworkBind(a), AppEvent::NetworkBind(b)) => a.same_as(b),
            (AppEvent::NetworkClose(a), AppEvent::NetworkClose(b)) => a.same_as(b),
            (AppEvent::NetworkListen(a), AppEvent::NetworkListen(b)) => a.same_as(b),
            _ => false,
        }
    }

    /// A copy with the same contents.
    pub fn copy(&self) -> (res: AppEvent)
        ensures
            res.same_as(*self),
    {
        match self {
            AppEvent::ProcessStart(c) => AppEvent::ProcessStart(Classified {
                event: ProcessStartEvent { header: c.event.header.copy(), filename: c.event.filename.clone() },
                severity: c.severity,
                matched_rules: copy_strings(&c.matched_rules),
            }),
            AppEvent::ProcessExit(c) => AppEvent::ProcessExit(Classified {
                event: ProcessExitEvent { header: c.event.header.copy(), exit_code: c.event.exit_code },
                severity: c.severity,
                matched_rules: copy_strings(&c.matched_rules),
            }),
            AppEvent::ProcessFork(c) => AppEvent::ProcessFork(Classified {
                event: ProcessForkEvent {
                    parent: c.event.parent.copy(),
                    child_pid: c.event.child_pid,
                    child_comm: c.event.child_comm.clone(),
                },
                severity: c.severity,
                matched_rules: copy_strings(&c.matched_rules),
            }),
            AppEvent::FileOpen(c) => AppEvent::FileOpen(Classified {
                event: FileOpenEvent {
                    header: c.event.header.copy(),
                    file_path: c.event.file_path.clone(),
                    file_type: c.event.file_type,
                    inode: c.event.inode,
                    retval: c.event.retval,
                    flags: c.event.flags,
                },
                severity: c.severity,
                matched_rules: copy_strings(&c.matched_rules),
            }),
            AppEvent::FileClose(c) => AppEvent::FileClose(Classified {
                event: FileCloseEvent {
                    header: c.event.header.copy(),
                    file_path: c.event.file_path.clone(),
                    file_type: c.event.file_type,
                    inode: c.event.inode,
                    retval: c.event.retval,
                    flags: c.event.flags,
                },
                severity: c.severity,
                matched_rules: copy_strings(&c.matched_rules),
            }),
            AppEvent::FileDelete(c) => AppEvent::FileDelete(Classified {
                event: FileDeleteEvent {
                    header: c.event.header.copy(),
                    filename: c.event.filename.clone(),
                    file_type: c.event.file_type,
                    retval: c.event.retval,
                },
                severity: c.severity,
                matched_rules: copy_strings(&c.matched_rules),
            }),
            AppEvent::FileRead(c) => AppEvent::FileRead(Classified {
                event: FileReadEvent {
                    header: c.event.header.copy(),
                    file_path: c.event.file_path.clone(),
                    file_type: c.event.file_type,
                    inode: c.event.inode,
                    retval: c.event.retval,
                    flags: c.event.flags,
                },
                severity: c.severity,
                matched_rules: copy_strings(&c.matched_rules),
            }),
            AppEvent::FileRename(c) => AppEvent::FileRename(Classified {
                event: FileRenameEvent {
                    header: c.event.header.copy(),
                    old_filename: c.event.old_filename.clone(),
                    new_filename: c.event.new_filename.clone(),
                    file_type: c.event.file_type,
                    flags: c.event.flags,
                    retval: c.event.retval,
                },
                severity: c.severity,
                matched_rules: copy_strings(&c.matched_rules),
            }),
            AppEvent::FileWrite(c) => AppEvent::FileWrite(Classified {
                event: FileWriteEvent {
                    header: c.event.header.copy(),
                    file_path: c.event.file_path.clone(),
                    file_type: c.event.file_type,
                    inode: c.event.inode,
                    retval: c.event.retval,
                    flags: c.event.flags,
                },
                severity: c.severity,
                matched_rules: copy_strings(&c.matched_rules),
            }),
            AppEvent::NetworkAccept(c) => AppEvent::NetworkAccept(Classified {
                event: AcceptEvent {
                    header: c.event.header.copy(),
                    protocol: c.event.protocol,
                    endpoints: c.event.endpoints,
                },
                severity: c.severity,
                matched_rules: copy_strings(&c.matched_rules),
            }),
            AppEvent::NetworkConnect(c) => AppEvent::NetworkConnect(Classified {
                event: ConnectEvent {
                    header: c.event.header.copy(),
                    protocol: c.event.protocol,
                    endpoints: c.event.endpoints,
                    retval: c.event.retval,
                },
                severity: c.severity,
                matched_rules: copy_strings(&c.matched_rules),
            }),
            AppEvent::NetworkBind(c) => AppEvent::NetworkBind(Classified {
                event: BindEvent {
                    header: c.event.header.copy(),
                    protocol: c.event.protocol,
                    endpoints: c.event.endpoints,
                    retval: c.event.retval,
                },
                severity: c.severity,
                matched_rules: copy_strings(&c.matched_rules),
            }),
            AppEvent::NetworkClose(c) => AppEvent::NetworkClose(Classified {
                event: CloseEvent {
                    header: c.event.header.copy(),
                    protocol: c.event.protocol,
                    endpoints: c.event.endpoints,
                },
                severity: c.severity,
                matched_rules: copy_strings(&c.matched_rules),
            }),
            AppEvent::NetworkListen(c) => AppEvent::NetworkListen(Classified {
                event: ListenEvent {
                    header: c.event.header.copy(),
                    protocol: c.event.protocol,
                    endpoints: c.event.endpoints,
                    retval: c.event.retval,
                },
                severity: c.severity,
                matched_rules: copy_strings(&c.matched_rules),
            }),
        }
    }
}

impl UiEvent {
    /// The same event and severity.
    pub open spec fn same_as(self, o: UiEvent) -> bool {
        self.event.same_as(o.event) && self.severity == o.severity
    }

    /// A copy with the same contents.
    pub fn copy(&self) -> (res: UiEvent)
        ensures
            res.same_as(*self),
    {
        UiEvent { event: self.event.copy(), severity: self.severity }
    }
}

/// No two entries of the filter list have the same name.
proof fn lemma_filter_names_distinct(i: int, j: int)
    requires
        0 <= i < FILTER_COUNT,
        0 <= j < FILTER_COUNT,
        i != j,
    ensures
        filter_name(i) != filter_name(j),
{
    reveal_strlit("ProcessStart");
    reveal_strlit("ProcessExit");
    reveal_strlit("ProcessFork");
    reveal_strlit("FileOpen");
    reveal_strlit("FileClose");
    reveal_strlit("FileRead");
    reveal_strlit("FileDelete");
    reveal_strlit("FileRename");
    reveal_strlit("FileWrite");
    reveal_strlit("NetworkAccept");
    reveal_strlit("NetworkConnect");
    reveal_strlit("NetworkBind");
    reveal_strlit("NetworkListen");
    reveal_strlit("NetworkClose");
    let a = filter_name(i);
    let b = filter_name(j);
    if a.len() == b.len() {
        if a[0] != b[0] {
        } else if a[4] != b[4] {
        } else if a[7] != b[7] {
        } else {
            assert(a[8] != b[8]);
        }
    }
}

/// The kind label of an event, trimmed, is the name of its filter entry.
proof fn lemma_kind_label_trims_to_filter_name(e: AppEvent)
    ensures
        trimmed(e.spec_kind_label()) == filter_name(e.filter_index()),
{
    let name = filter_name(e.filter_index());
    let label = e.spec_kind_label();
    reveal_strlit("ProcessStart");
    reveal_strlit("ProcessExit");
    reveal_strlit("ProcessFork");
    reveal_strlit("FileOpen");
    reveal_strlit("FileClose");
    reveal_strlit("FileRead");
    reveal_strlit("FileDelete");
    reveal_strlit("FileRename");
    reveal_strlit("FileWrite");
    reveal_strlit("NetworkAccept");
    reveal_strlit("NetworkConnect");
    reveal_strlit("NetworkBind");
    reveal_strlit("NetworkListen");
    reveal_strlit("NetworkClose");
    reveal_strlit("ProcessStart ");
    reveal_strlit("ProcessExit  ");
    reveal_strlit("ProcessFork  ");
    reveal_strlit("FileOpen ");
    reveal_strlit("FileClose ");
    reveal_strlit("FileDelete ");
    reveal_strlit("FileRead ");
    reveal_strlit("FileRename ");
    reveal_strlit("FileWrite ");
    reveal_strlit("NetworkAccept  ");
    reveal_strlit("NetworkConnect  ");
    reveal_strlit("NetworkBind  ");
    reveal_strlit("NetworkClose  ");
    reveal_strlit("NetworkListen  ");
    let k: nat = (label.len() - name.len()) as nat;
    assert(label =~= name + Seq::new(k, |i: int| ' '));
    lemma_trim_trailing_spaces(name, k);
}


/// Every event matches exactly one entry of the filter list: the one named
/// after its kind (its kind label, trimmed), whose name no other entry has.
pub proof fn lemma_one_filter_per_event(e: AppEvent)
    ensures
        0 <= e.filter_index() < FILTER_COUNT,
        trimmed(e.spec_kind_label()) == filter_name(e.filter_index()),
        forall|i: int| 0 <= i < FILTER_COUNT ==> (#[trigger] filter_name(i) == filter_name(e.filter_index()) <==> i == e.filter_index()),
{
    lemma_kind_label_trims_to_filter_name(e);
    assert forall|i: int| 0 <= i < FILTER_COUNT implies (#[trigger] filter_name(i) == filter_name(e.filter_index()) <==> i == e.filter_index()) by {
        if i != e.filter_index() {
            lemma_filter_names_distinct(i, e.filter_index());
        }
    }
}
/// The summary of a rename names the old file first, then the new one:
/// "rename: ", the old name, " -> ", the new name.
pub proof fn lemma_rename_summary(c: Classified<FileRenameEvent>)
    ensures
        AppEvent::FileRename(c).spec_detail()
            == seq!['r', 'e', 'n', 'a', 'm', 'e', ':', ' '] + c.event.old_filename@ + seq![' ', '-', '>', ' ']
                + c.event.new_filename@,
{
    reveal_strlit("rename: ");
    reveal_strlit(" -> ");
    assert("rename: "@ =~= seq!['r', 'e', 'n', 'a', 'm', 'e', ':', ' ']);
    assert(" -> "@ =~= seq![' ', '-', '>', ' ']);
}
/// Each one-line summary is the event's verb, a colon and a space, then what
/// it is about: the program started, the exiting pid, the parent and child
/// pids of a fork, the path of a file open, read or write, the process name
/// of a file close, the deleted name, or the remote address of a
/// connection event.
pub proof fn lemma_summary_subjects(e: AppEvent)
    ensures
        e matches AppEvent::ProcessStart(c) ==> e.spec_detail() == "exec: "@ + c.event.filename@,
        e matches AppEvent::ProcessExit(c) ==> e.spec_detail() == "exit: pid "@ + dec(c.event.header.pid as nat),
        e matches AppEvent::ProcessFork(c) ==> e.spec_detail()
            == "fork: "@ + dec(c.event.parent.pid as nat) + " -> "@ + dec(c.event.child_pid as nat),
        e matches AppEvent::FileOpen(c) ==> e.spec_detail() == "open: "@ + c.event.file_path@,
        e matches AppEvent::FileClose(c) ==> e.spec_detail() == "close: "@ + c.event.header.comm@,
        e matches AppEvent::FileDelete(c) ==> e.spec_detail() == "delete: "@ + c.event.filename@,
        e matches AppEvent::FileRead(c) ==> e.spec_detail() == "read: "@ + c.event.file_path@,
        e matches AppEvent::FileWrite(c) ==> e.spec_detail() == "write: "@ + c.event.file_path@,
        e matches AppEvent::NetworkAccept(c) ==> e.spec_detail() == "accept: "@ + ip_text(c.event.endpoints.remote_ip),
        e matches AppEvent::NetworkConnect(c) ==> e.spec_detail() == "connect: "@ + ip_text(c.event.endpoints.remote_ip),
        e matches AppEvent::NetworkBind(c) ==> e.spec_detail() == "bind: "@ + ip_text(c.event.endpoints.remote_ip),
        e matches AppEvent::NetworkClose(c) ==> e.spec_detail() == "close: "@ + ip_text(c.event.endpoints.remote_ip),
        e matches AppEvent::NetworkListen(c) ==> e.spec_detail() == "listen: "@ + ip_text(c.event.endpoints.remote_ip),
{
}

/// The severity labels: the level's short name followed by a space ("MED"
/// for Medium, "CRIT" for Critical); no two levels share a rank.
pub proof fn lemma_severity_labels()
    ensures
        Severity::Info.label_text() == "INFO "@,
        Severity::Low.label_text() == "LOW "@,
        Severity::Medium.label_text() == "MED "@,
        Severity::High.label_text() == "HIGH "@,
        Severity::Critical.label_text() == "CRIT "@,
        forall|a: Severity, b: Severity| a.rank() == b.rank() ==> a == b,
{
}
} // verus!
