//! The first generation of kernel event records (fixed-size C layouts with
//! raw byte buffers), their one-line descriptions, and the reading of a
//! process's `status` and `cmdline` files.
use vstd::prelude::*;
use crate::helper::{addr_text, bytes_to_str, flags_to_op, nul_position, op_label, parse_addr, utf8_lossy};
use crate::scan::{parse_unsigned, parse_unsigned_range};
use crate::text::{chars_of, dec, numeral, push_dec, push_numeral, push_signed_dec, push_str, signed_dec, str_eq, trim_text, trimmed};

verus! {

/// A process as read from `/proc`.
#[derive(Clone, Debug, PartialEq)]
pub struct ProcessInfo {
    pub pid: u32,
    pub ppid: u32,
    pub name: String,
    pub cmdline: String,
}

/// Position of the first ':' in `s`, or its length when there is none.
pub open spec fn colon_position(s: Seq<char>) -> int
    decreases s.len(),
{
    if s.len() == 0 || s[0] == ':' { 0 } else { 1 + colon_position(s.drop_first()) }
}

/// The text before the first ':' (all of it when there is none).
pub open spec fn before_colon(s: Seq<char>) -> Seq<char> {
    s.take(colon_position(s))
}

/// The text after the first ':'.
pub open spec fn after_colon(s: Seq<char>) -> Seq<char> {
    s.skip(colon_position(s) + 1)
}

/// A number as `parse().unwrap_or_default()` reads it: 0 when it is not one.
pub open spec fn number_or_zero(s: Seq<char>) -> u32 {
    match parse_unsigned(s, u32::MAX as int) {
        Some(v) => v as u32,
        None => 0,
    }
}

/// What one line of a `status` file adds: with a ':' in the trimmed line,
/// its key (before the first ':') `Pid` or `PPid` sets that number, and `Name`
/// appends to the name; the value is the trimmed text up to the next ':'.
pub open spec fn status_step(acc: (u32, u32, Seq<char>), line: Seq<char>) -> (u32, u32, Seq<char>) {
    let t = trimmed(line);
    if colon_position(t) >= t.len() {
        acc
    } else {
        let key = before_colon(t);
        let value = trimmed(before_colon(after_colon(t)));
        if key == "Pid"@ {
            (number_or_zero(value), acc.1, acc.2)
        } else if key == "PPid"@ {
            (acc.0, number_or_zero(value), acc.2)
        } else if key == "Name"@ {
            (acc.0, acc.1, acc.2 + value)
        } else {
            acc
        }
    }
}

/// Process id, parent id and name read from the lines of a `status` file.
pub open spec fn status_fields(lines: Seq<Seq<char>>) -> (u32, u32, Seq<char>)
    decreases lines.len(),
{
    if lines.len() == 0 {
        (0, 0, Seq::empty())
    } else {
        status_step(status_fields(lines.drop_last()), lines.last())
    }
}

/// The text without its NUL characters.
pub open spec fn without_nul(s: Seq<char>) -> Seq<char>
    decreases s.len(),
{
    if s.len() == 0 {
        Seq::empty()
    } else if s.last() == '\0' {
        without_nul(s.drop_last())
    } else {
        without_nul(s.drop_last()).push(s.last())
    }
}

/// The lines, by their characters.
pub open spec fn line_texts(v: Seq<String>) -> Seq<Seq<char>> {
    Seq::new(v.len(), |i: int| v[i]@)
}

/// The position of the first ':' of a character vector.
fn colon_at(cs: &Vec<char>) -> (res: usize)
    ensures
        res == colon_position(cs@),
        res <= cs@.len(),
{
    let n = cs.len();
    let mut i: usize = 0;
    assert(cs@.skip(0) =~= cs@);
    while i < n && cs[i] != ':'
        invariant
            n == cs@.len(),
            i <= n,
            colon_position(cs@) == i + colon_position(cs@.skip(i as int)),
        decreases n - i,
    {
        assert(cs@.skip(i as int).drop_first() =~= cs@.skip(i + 1));
        i = i + 1;
    }
    proof {
        if i < n {
            assert(cs@.skip(i as int)[0] == cs@[i as int]);
        } else {
            assert(cs@.skip(i as int).len() == 0);
        }
    }
    i
}

/// A string of the characters `cs[lo..hi]`.
fn string_range(cs: &Vec<char>, lo: usize, hi: usize) -> (res: String)
    requires
        lo <= hi <= cs@.len(),
    ensures
        res@ == cs@.subrange(lo as int, hi as int),
{
    let mut s = String::new();
    let mut i: usize = lo;
    while i < hi
        invariant
            lo <= i <= hi <= cs@.len(),
            s@ == cs@.subrange(lo as int, i as int),
        decreases hi - i,
    {
        s.push(cs[i]);
        assert(s@ =~= cs@.subrange(lo as int, i + 1));
        i = i + 1;
    }
    s
}

/// A number, or 0 when the text is not one.
fn number_or_zero_of(s: &str) -> (res: u32)
    ensures
        res == number_or_zero(s@),
{
    let cs = chars_of(s);
    match parse_unsigned_range(&cs, 0, cs.len(), u32::MAX as u64) {
        Some(v) => {
            assert(cs@.subrange(0, cs@.len() as int) =~= s@);
            v as u32
        },
        None => {
            assert(cs@.subrange(0, cs@.len() as int) =~= s@);
            0
        },
    }
}

/// Process id, parent id and name from the lines of a `status` file.
pub fn parse_status(lines: &Vec<String>) -> (res: (u32, u32, String))
    ensures
        (res.0, res.1, res.2@) == status_fields(line_texts(lines@)),
{
    let mut pid: u32 = 0;
    let mut ppid: u32 = 0;
    let mut name = String::new();
    let mut i: usize = 0;
    assert(line_texts(lines@).take(0) =~= Seq::<Seq<char>>::empty());
    while i < lines.len()
        invariant
            i <= lines@.len(),
            (pid, ppid, name@) == status_fields(line_texts(lines@).take(i as int)),
        decreases lines.len() - i,
    {
        let ghost acc = (pid, ppid, name@);
        let t = trim_text(lines[i].as_str());
        let cs = chars_of(t.as_str());
        let c = colon_at(&cs);
        if c < cs.len() {
            let key = string_range(&cs, 0, c);
            let rest = string_range(&cs, c + 1, cs.len());
            let rcs = chars_of(rest.as_str());
            let c2 = colon_at(&rcs);
            let piece = string_range(&rcs, 0, c2);
            let value = trim_text(piece.as_str());
            assert(key@ =~= before_colon(t@));
            assert(rest@ =~= after_colon(t@));
            assert(piece@ =~= before_colon(after_colon(t@)));
            if str_eq(key.as_str(), "Pid") {
                pid = number_or_zero_of(value.as_str());
            } else if str_eq(key.as_str(), "PPid") {
                ppid = number_or_zero_of(value.as_str());
            } else if str_eq(key.as_str(), "Name") {
                push_str(&mut name, value.as_str());
            }
        }
        assert(line_texts(lines@).take(i + 1).drop_last() =~= line_texts(lines@).take(i as int));
        assert(line_texts(lines@).take(i + 1).last() == lines@[i as int]@);
        assert((pid, ppid, name@) == status_step(acc, lines@[i as int]@));
        i = i + 1;
    }
    assert(line_texts(lines@).take(lines@.len() as int) =~= line_texts(lines@));
    (pid, ppid, name)
}

/// The text with its NUL characters removed (`replace('\0', "")`).
pub fn strip_nul(s: &str) -> (res: String)
    ensures
        res@ == without_nul(s@),
{
    let cs = chars_of(s);
    let mut out = String::new();
    let mut i: usize = 0;
    while i < cs.len()
        invariant
            cs@ == s@,
            i <= cs@.len(),
            out@ == without_nul(cs@.take(i as int)),
        decreases cs.len() - i,
    {
        assert(cs@.take(i + 1).drop_last() =~= cs@.take(i as int));
        if cs[i] != '\0' {
            out.push(cs[i]);
        }
        i = i + 1;
    }
    assert(cs@.take(cs@.len() as int) =~= cs@);
    out
}

impl ProcessInfo {
    /// A process from the lines of its `status` file and the text of its
    /// `cmdline` file (NUL separators removed).
    pub fn from_proc_files(status_lines: &Vec<String>, cmdline: &str) -> (res: ProcessInfo)
        ensures
            (res.pid, res.ppid, res.name@) == status_fields(line_texts(status_lines@)),
            res.cmdline@ == without_nul(cmdline@),
    {
        let (pid, ppid, name) = parse_status(status_lines);
        ProcessInfo { pid, ppid, name, cmdline: strip_nul(cmdline) }
    }
}

/// A process seen starting, with its user and time.
#[derive(Clone, Debug, PartialEq)]
pub struct ProcessEvent {
    pub info: ProcessInfo,
    pub uid: u32,
    pub timestamp: u64,
}

/// A set-user-id or set-group-id program started.
#[derive(Clone, Debug, PartialEq)]
pub struct PrivilegeEvent {
    pub pid: u32,
    pub uid: u32,
    pub binary: String,
    pub is_setuid: bool,
    pub timestamp: u64,
}

/// Something flagged about a file.
#[derive(Clone, Debug, PartialEq)]
pub struct SuspiciousEvent {
    pub pid: u32,
    pub file: String,
    pub reason: String,
    pub severity: Severity,
    pub timestamp: u64,
}

/// How interesting a first-generation event is.
#[derive(Clone, Copy, Debug, PartialEq, Eq, Structural)]
pub enum Severity {
    Info,
    Low,
    Medium,
    High,
    Critical,
}

impl Severity {
    /// The four-character label of the severity.
    pub fn label(&self) -> (res: &'static str)
        ensures
            *self == Severity::Info ==> res@ == "INFO"@,
            *self == Severity::Low ==> res@ == "LOW "@,
            *self == Severity::Medium ==> res@ == "MED "@,
            *self == Severity::High ==> res@ == "HIGH"@,
            *self == Severity::Critical ==> res@ == "CRIT"@,
    {
        match self {
            Severity::Info => "INFO",
            Severity::Low => "LOW ",
            Severity::Medium => "MED ",
            Severity::High => "HIGH",
            Severity::Critical => "CRIT",
        }
    }
}

/// A program started.
#[derive(Clone, Debug, PartialEq)]
pub struct ExecEvent {
    pub kind: u32,
    pub pid: u32,
    pub uid: u32,
    pub timestamp: u64,
    pub filename: [u8; 256],
}

/// The kinds of first-generation records.
#[derive(Clone, Copy, Debug, PartialEq, Eq, Structural)]
pub enum EventType {
    ExecEvent,
    ExecExit,
    FileOpen,
    FileClose,
    Network,
}

/// The kind field in front of every record.
#[derive(Clone, Copy, Debug, PartialEq, Eq, Structural)]
pub struct EventHeader {
    pub kind: u32,
}

/// A file was opened.
#[derive(Clone, Debug, PartialEq)]
pub struct FileEvent {
    pub kind: u32,
    pub pid: u32,
    pub uid: u32,
    pub dir_fd: i32,
    pub filename: [u8; 256],
    pub mode: i32,
    pub flags: i32,
    pub timestamp: u64,
}

/// An IPv4 socket address.
#[derive(Clone, Debug, PartialEq)]
pub struct SockAddrIn {
    pub sin_family: u16,
    pub sin_port: u16,
    pub sin_addr: [u8; 4],
    pub _pad: [u8; 8],
}

/// An IPv6 socket address.
#[derive(Clone, Debug, PartialEq)]
pub struct SockaddrIn6 {
    pub sin6_family: u16,
    pub sin6_port: u16,
    pub sin6_flowinfo: u32,
    pub sin6_addr: [u8; 16],
    pub sin6_scope_id: u32,
}

/// A connection was made.
#[derive(Clone, Debug, PartialEq)]
pub struct NetworkEvent {
    pub kind: u32,
    pub pid: u32,
    pub sockfd: i32,
    pub family: u16,
    pub port: u16,
    pub addr: [u8; 16],
    pub timestamp: u64,
}

/// A process exited.
#[derive(Clone, Debug, PartialEq)]
pub struct ProcessExitEvent {
    pub kind: u32,
    pub pid: u32,
    pub timestamp: u64,
}

/// A file was closed.
#[derive(Clone, Debug, PartialEq)]
pub struct FileCloseEvent {
    pub kind: u32,
    pub file_name: [u8; 256],
    pub pid: u32,
    pub timestamp: u64,
}

/// A first-generation event of any kind.
#[derive(Clone, Debug, PartialEq)]
pub enum AppEvent {
    Exec(ExecEvent),
    ExecExit(ProcessExitEvent),
    File(FileEvent),
    FileClose(FileCloseEvent),
    Network(NetworkEvent),
    Process(ProcessEvent),
    Privilege(PrivilegeEvent),
    Suspicious(SuspiciousEvent),
}

/// The text of a NUL-terminated buffer.
pub open spec fn buffer_text(raw: Seq<u8>) -> Seq<char> {
    utf8_lossy(raw.take(nul_position(raw)))
}

/// The octal numeral of a mode's bits (`{:o}` of an `i32`).
pub open spec fn octal_mode(mode: i32) -> Seq<char> {
    numeral((mode as u32) as nat, 8)
}

impl AppEvent {
    /// When the event happened.
    pub open spec fn spec_timestamp(self) -> u64 {
        match self {
            AppEvent::Exec(e) => e.timestamp,
            AppEvent::ExecExit(e) => e.timestamp,
            AppEvent::File(e) => e.timestamp,
            AppEvent::FileClose(e) => e.timestamp,
            AppEvent::Network(e) => e.timestamp,
            AppEvent::Process(e) => e.timestamp,
            AppEvent::Privilege(e) => e.timestamp,
            AppEvent::Suspicious(e) => e.timestamp,
        }
    }

    /// When the event happened.
    pub fn timestamp(&self) -> (res: u64)
        ensures
            res == self.spec_timestamp(),
    {
        match self {
            AppEvent::Exec(e) => e.timestamp,
            AppEvent::ExecExit(e) => e.timestamp,
            AppEvent::File(e) => e.timestamp,
            AppEvent::FileClose(e) => e.timestamp,
            AppEvent::Network(e) => e.timestamp,
            AppEvent::Process(e) => e.timestamp,
            AppEvent::Privilege(e) => e.timestamp,
            AppEvent::Suspicious(e) => e.timestamp,
        }
    }

    /// The process the event is about.
    pub open spec fn spec_pid(self) -> u32 {
        match self {
            AppEvent::Exec(e) => e.pid,
            AppEvent::ExecExit(e) => e.pid,
            AppEvent::File(e) => e.pid,
            AppEvent::FileClose(e) => e.pid,
            AppEvent::Network(e) => e.pid,
            AppEvent::Process(e) => e.info.pid,
            AppEvent::Privilege(e) => e.pid,
            AppEvent::Suspicious(e) => e.pid,
        }
    }

    /// The process the event is about.
    pub fn pid(&self) -> (res: u32)
        ensures
            res == self.spec_pid(),
    {
        match self {
            AppEvent::Exec(e) => e.pid,
            AppEvent::ExecExit(e) => e.pid,
            AppEvent::File(e) => e.pid,
            AppEvent::FileClose(e) => e.pid,
            AppEvent::Network(e) => e.pid,
            AppEvent::Process(e) => e.info.pid,
            AppEvent::Privilege(e) => e.pid,
            AppEvent::Suspicious(e) => e.pid,
        }
    }

    /// The ten-character label of the event's kind.
    pub open spec fn spec_kind_label(self) -> Seq<char> {
        match self {
            AppEvent::Exec(_) => "ExecEvent "@,
            AppEvent::ExecExit(_) => "ExecExit  "@,
            AppEvent::File(_) => "FileEvent "@,
            AppEvent::FileClose(_) => "FileClose "@,
            AppEvent::Network(_) => "NetEvent  "@,
            AppEvent::Process(_) => "ProcEvent "@,
            AppEvent::Privilege(_) => "PrivEvent "@,
            AppEvent::Suspicious(_) => "Suspicious"@,
        }
    }

    /// The ten-character label of the event's kind.
    pub fn kind_label(&self) -> (res: &'static str)
        ensures
            res@ == self.spec_kind_label(),
    {
        match self {
            AppEvent::Exec(_) => "ExecEvent ",
            AppEvent::ExecExit(_) => "ExecExit  ",
            AppEvent::File(_) => "FileEvent ",
            AppEvent::FileClose(_) => "FileClose ",
            AppEvent::Network(_) => "NetEvent  ",
            AppEvent::Process(_) => "ProcEvent ",
            AppEvent::Privilege(_) => "PrivEvent ",
            AppEvent::Suspicious(_) => "Suspicious",
        }
    }

    /// How interesting the event is: as flagged for suspicious events;
    /// set-user-id starts high, set-group-id medium; connections to ports
    /// above 30000 medium, other connections, file opens and program starts
    /// low; exits, closes and process records informational.
    pub open spec fn spec_severity(self) -> Severity {
        match self {
            AppEvent::Suspicious(e) => e.severity,
            AppEvent::Privilege(e) => if e.is_setuid { Severity::High } else { Severity::Medium },
            AppEvent::File(_) => Severity::Low,
            AppEvent::Network(e) => if e.port > 30000 { Severity::Medium } else { Severity::Low },
            AppEvent::Exec(_) => Severity::Low,
            AppEvent::ExecExit(_) => Severity::Info,
            AppEvent::FileClose(_) => Severity::Info,
            AppEvent::Process(_) => Severity::Info,
        }
    }

    /// How interesting the event is.
    pub fn severity(&self) -> (res: Severity)
        ensures
            res == self.spec_severity(),
    {
        match self {
            AppEvent::Suspicious(e) => e.severity,
            AppEvent::Privilege(e) => if e.is_setuid { Severity::High } else { Severity::Medium },
            AppEvent::File(_) => Severity::Low,
            AppEvent::Network(e) => if e.port > 30000 { Severity::Medium } else { Severity::Low },
            AppEvent::Exec(_) => Severity::Low,
            AppEvent::ExecExit(_) => Severity::Info,
            AppEvent::FileClose(_) => Severity::Info,
            AppEvent::Process(_) => Severity::Info,
        }
    }

    /// The one-line description of the event.
    pub open spec fn spec_detail(self) -> Seq<char> {
        match self {
            AppEvent::Exec(e) => "exec "@ + buffer_text(e.filename@),
            AppEvent::ExecExit(e) => "pid "@ + dec(e.pid as nat) + " exited"@,
            AppEvent::File(e) => op_label(e.flags) + " "@ + buffer_text(e.filename@) + "  mode="@ + octal_mode(e.mode),
            AppEvent::FileClose(e) => "close "@ + buffer_text(e.file_name@),
            AppEvent::Network(e) => "\u{2192} "@ + addr_text(e.family, e.addr@) + "  fd="@ + signed_dec(e.sockfd as int),
            AppEvent::Process(e) => e.info.name@ + " (ppid="@ + dec(e.info.ppid as nat) + ")  "@ + e.info.cmdline@,
            AppEvent::Privilege(e) => (if e.is_setuid { "setuid"@ } else { "setgid"@ }) + " exec "@ + e.binary@,
            AppEvent::Suspicious(e) => "["@ + e.file@ + "] "@ + e.reason@,
        }
    }

    /// The one-line description of the event.
    pub fn detail(&self) -> (res: String)
        ensures
            res@ == self.spec_detail(),
    {
        let mut s = String::new();
        match self {
            AppEvent::Exec(e) => {
                push_str(&mut s, "exec ");
                let name = bytes_to_str(&e.filename);
                push_str(&mut s, name.as_str());
            },
            AppEvent::ExecExit(e) => {
                push_str(&mut s, "pid ");
                push_dec(&mut s, e.pid as u64);
                push_str(&mut s, " exited");
            },
            AppEvent::File(e) => {
                push_str(&mut s, flags_to_op(e.flags));
                push_str(&mut s, " ");
                let name = bytes_to_str(&e.filename);
                push_str(&mut s, name.as_str());
                push_str(&mut s, "  mode=");
                push_numeral(&mut s, (e.mode as u32) as u64, 8);
            },
            AppEvent::FileClose(e) => {
                push_str(&mut s, "close ");
                let name = bytes_to_str(&e.file_name);
                push_str(&mut s, name.as_str());
            },
            AppEvent::Network(e) => {
                push_str(&mut s, "\u{2192} ");
                let addr = parse_addr(e.family, &e.addr);
                push_str(&mut s, addr.as_str());
                push_str(&mut s, "  fd=");
                push_signed_dec(&mut s, e.sockfd as i64);
            },
            AppEvent::Process(e) => {
                push_str(&mut s, e.info.name.as_str());
                push_str(&mut s, " (ppid=");
                push_dec(&mut s, e.info.ppid as u64);
                push_str(&mut s, ")  ");
                push_str(&mut s, e.info.cmdline.as_str());
            },
            AppEvent::Privilege(e) => {
                push_str(&mut s, if e.is_setuid { "setuid" } else { "setgid" });
                push_str(&mut s, " exec ");
                push_str(&mut s, e.binary.as_str());
            },
            AppEvent::Suspicious(e) => {
                push_str(&mut s, "[");
                push_str(&mut s, e.file.as_str());
                push_str(&mut s, "] ");
                push_str(&mut s, e.reason.as_str());
            },
        }
        assert(s@ =~= self.spec_detail());
        s
    }
}

} // verus!
