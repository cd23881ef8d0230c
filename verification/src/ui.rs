//! What the screen shows, as plain values: colour roles, labels, titles,
//! the rows of the event stream and the lines of the detail pane. Drawing
//! them is left to the caller.
use vstd::prelude::*;
use crate::app::{App, ConfigState, UpdateDbState};
use crate::model::{Severity, FileType, Protocol, SocketEndpoints, EventHeader, AppEvent, UiEvent};
use crate::net::{ip_text, push_ip};
use crate::text::{dec, signed_dec, push_dec, push_signed_dec, push_str, dec_string, trimmed, trim_text, padded, pad_right, take_chars};
use crate::helper::{sensitive, is_sensitive_path};
use crate::path::{file_name_of, file_name};
use crate::detection::{open_flags_text, flags_text};
use crate::helper::{clock_face, format_timestamp_ns};

verus! {

/// The colour role of a piece of text.
#[derive(Clone, Copy, Debug, PartialEq, Eq, Structural)]
pub enum Tone {
    Text,
    Muted,
    Border,
    Blue,
    Green,
    Purple,
    Yellow,
    Orange,
    Red,
    Path,
    Faint,
    Salmon,
}

/// The colour of a severity.
pub open spec fn sev_tone_spec(s: Severity) -> Tone {
    match s {
        Severity::Info => Tone::Muted,
        Severity::Low => Tone::Blue,
        Severity::Medium => Tone::Yellow,
        Severity::High => Tone::Orange,
        Severity::Critical => Tone::Red,
    }
}

/// The colour of a severity.
pub fn sev_tone(s: Severity) -> (res: Tone)
    ensures
        res == sev_tone_spec(s),
{
    match s {
        Severity::Info => Tone::Muted,
        Severity::Low => Tone::Blue,
        Severity::Medium => Tone::Yellow,
        Severity::High => Tone::Orange,
        Severity::Critical => Tone::Red,
    }
}

/// The colour of an event's detail text in the stream.
pub fn detail_tone(s: Severity) -> (res: Tone)
    ensures
        res == (match s {
            Severity::Critical => Tone::Red,
            Severity::High => Tone::Salmon,
            _ => Tone::Text,
        }),
{
    match s {
        Severity::Critical => Tone::Red,
        Severity::High => Tone::Salmon,
        _ => Tone::Text,
    }
}

/// The colours of the severity filter rows, in display order.
pub open spec fn filter_row_tone(idx: int) -> Tone {
    if idx == 0 {
        Tone::Red
    } else if idx == 1 {
        Tone::Orange
    } else if idx == 2 {
        Tone::Yellow
    } else if idx == 3 {
        Tone::Blue
    } else {
        Tone::Faint
    }
}

/// The label of a severity filter row, in display order.
pub open spec fn filter_row_label(idx: int) -> Seq<char> {
    if idx == 0 {
        "Critical"@
    } else if idx == 1 {
        "High"@
    } else if idx == 2 {
        "Medium"@
    } else if idx == 3 {
        "Low"@
    } else {
        "Info"@
    }
}

/// Label and colour of a row of the severity filter list.
pub fn severity_row(idx: usize) -> (res: (&'static str, Tone))
    requires
        idx < 5,
    ensures
        res.0@ == filter_row_label(idx as int),
        res.1 == filter_row_tone(idx as int),
{
    if idx == 0 {
        ("Critical", Tone::Red)
    } else if idx == 1 {
        ("High", Tone::Orange)
    } else if idx == 2 {
        ("Medium", Tone::Yellow)
    } else if idx == 3 {
        ("Low", Tone::Blue)
    } else {
        ("Info", Tone::Faint)
    }
}

/// The marker in front of a filter row.
pub fn filter_marker(selected: bool) -> (res: &'static str)
    ensures
        selected ==> res@ == "\u{25b6}"@,
        !selected ==> res@ == "\u{25b8}"@,
{
    if selected { "\u{25b6}" } else { "\u{25b8}" }
}

/// A user id as shown: `0 (root)` for root, the decimal number otherwise.
pub open spec fn uid_text(uid: u32) -> Seq<char> {
    if uid == 0 { "0 (root)"@ } else { dec(uid as nat) }
}

/// A user id as shown.
pub fn uid_label(uid: u32) -> (res: String)
    ensures
        res@ == uid_text(uid),
{
    if uid == 0 {
        "0 (root)".to_owned()
    } else {
        dec_string(uid as u64)
    }
}

/// Root is shown in red.
pub open spec fn uid_tone_spec(uid: u32) -> Tone {
    if uid == 0 { Tone::Red } else { Tone::Text }
}

/// The colour of a user id.
pub fn uid_tone(uid: u32) -> (res: Tone)
    ensures
        res == uid_tone_spec(uid),
{
    if uid == 0 { Tone::Red } else { Tone::Text }
}

/// The colour of a port: green for ssh and web, red for well-known backdoors.
pub fn port_tone(port: u16) -> (res: Tone)
    ensures
        res == (if port == 22 || port == 443 || port == 80 {
            Tone::Green
        } else if port == 4444 || port == 1337 {
            Tone::Red
        } else {
            Tone::Text
        }),
{
    if port == 22 || port == 443 || port == 80 {
        Tone::Green
    } else if port == 4444 || port == 1337 {
        Tone::Red
    } else {
        Tone::Text
    }
}

/// The name of an address family.
pub fn family_label(family: u16) -> (res: &'static str)
    ensures
        family == 2 ==> res@ == "AF_INET"@,
        family == 10 ==> res@ == "AF_INET6"@,
        family != 2 && family != 10 ==> res@ == "unknown"@,
{
    if family == 2 {
        "AF_INET"
    } else if family == 10 {
        "AF_INET6"
    } else {
        "unknown"
    }
}

/// The title of the stream pane: the search text while searching, the
/// active filter text, or the plain title.
pub open spec fn stream_title_text(searching: bool, query: Seq<char>) -> Seq<char> {
    if searching {
        " search: "@ + query + " "@
    } else if query.len() > 0 {
        " stream  [filter: "@ + query + "] "@
    } else {
        " stream "@
    }
}

/// The title of the stream pane.
pub fn stream_title(searching: bool, query: &str) -> (res: String)
    ensures
        res@ == stream_title_text(searching, query@),
{
    let mut s = String::new();
    if searching {
        push_str(&mut s, " search: ");
        push_str(&mut s, query);
        push_str(&mut s, " ");
    } else if !query.is_empty() {
        push_str(&mut s, " stream  [filter: ");
        push_str(&mut s, query);
        push_str(&mut s, "] ");
    } else {
        push_str(&mut s, " stream ");
    }
    s
}

/// The mode shown in the status bar, and its colour.
pub fn status_mode(searching: bool, pause: bool, follow_tail: bool) -> (res: (&'static str, Tone))
    ensures
        searching ==> res.0@ == "SEARCHING"@ && res.1 == Tone::Purple,
        !searching && pause ==> res.0@ == "PAUSED"@ && res.1 == Tone::Red,
        !searching && !pause && follow_tail ==> res.0@ == "STREAM \u{2022} FOLLOWING"@ && res.1 == Tone::Blue,
        !searching && !pause && !follow_tail ==> res.0@ == "STREAM"@ && res.1 == Tone::Blue,
{
    if searching {
        ("SEARCHING", Tone::Purple)
    } else if pause {
        ("PAUSED", Tone::Red)
    } else if follow_tail {
        ("STREAM \u{2022} FOLLOWING", Tone::Blue)
    } else {
        ("STREAM", Tone::Blue)
    }
}

/// The hint of the pause key.
pub fn pause_hint(pause: bool) -> (res: &'static str)
    ensures
        pause ==> res@ == " resume"@,
        !pause ==> res@ == " pause"@,
{
    if pause { " resume" } else { " pause" }
}

/// The message of a configuration notification.
pub fn config_message(state: ConfigState) -> (res: &'static str)
    ensures
        state == ConfigState::ConfigReloaded ==> res@ == "\u{2713}  Configuration reloaded"@,
        state == ConfigState::ConfigReloadFailed ==> res@ == "\u{2717}  Configuration reload failed"@,
{
    match state {
        ConfigState::ConfigReloaded => "\u{2713}  Configuration reloaded",
        ConfigState::ConfigReloadFailed => "\u{2717}  Configuration reload failed",
    }
}

/// The message of a database notification.
pub fn db_message(state: UpdateDbState) -> (res: &'static str)
    ensures
        state == UpdateDbState::Updating ==> res@ == "\u{2193}  Updating IP reputation database..."@,
        state == UpdateDbState::Updated ==> res@ == "\u{2713}  IP reputation database updated"@,
        state == UpdateDbState::UpdateFailed ==> res@ == "\u{2717}  IP reputation database update failed"@,
{
    match state {
        UpdateDbState::Updating => "\u{2193}  Updating IP reputation database...",
        UpdateDbState::Updated => "\u{2713}  IP reputation database updated",
        UpdateDbState::UpdateFailed => "\u{2717}  IP reputation database update failed",
    }
}

/// Where a notification box goes: three rows high, two cells wider than
/// its message (counted in bytes), near the bottom-right corner.
pub fn notification_area(frame_width: u16, frame_height: u16, message_bytes: usize) -> (res: crate::app::Area)
    requires
        message_bytes + 4 <= u16::MAX,
    ensures
        res.width == message_bytes + 2,
        res.height == 3,
        res.x == (if frame_width >= message_bytes + 4 { frame_width - (message_bytes + 4) } else { 0 }),
        res.y == (if frame_height >= 5 { frame_height - 5 } else { 0 }),
{
    let width = message_bytes as u16 + 2;
    crate::app::Area { x: frame_width.saturating_sub(width + 2), y: frame_height.saturating_sub(5), width, height: 3 }
}

/// The row of the scroll bar's thumb: the selected row scaled to the bar's height.
pub fn scrollbar_pos(selected: usize, h: usize, total: usize) -> (res: usize)
    requires
        selected * h <= usize::MAX,
    ensures
        res == (selected * h) / (if total > 1 { total as int } else { 1int }),
{
    let d = if total > 1 { total } else { 1 };
    (selected * h) / d
}

/// The width of the counter column: the digits of the largest counter.
pub fn count_width(counts: &[usize; 5]) -> (res: u16)
    ensures
        exists|i: int| 0 <= i < 5 && res == (dec(counts@[i] as nat).len() as u16) && forall|j: int| 0 <= j < 5 ==> counts@[j] <= counts@[i],
{
    let mut best: usize = 0;
    let mut i: usize = 1;
    while i < 5
        invariant
            1 <= i <= 5,
            best < i,
            forall|j: int| 0 <= j < i ==> counts@[j] <= counts@[best as int],
        decreases 5 - i,
    {
        if counts[i] > counts[best] {
            best = i;
        }
        i = i + 1;
    }
    let digits = dec_string(counts[best] as u64);
    let w = crate::text::chars_of(digits.as_str()).len();
    w as u16
}


/// A line of the detail pane.
#[derive(Clone, Debug, PartialEq)]
pub enum DetailLine {
    /// Severity marker and label, then the event kind.
    Heading { severity: Severity, kind: String },
    /// When the event happened.
    Time(String),
    Blank,
    /// A section title.
    Title(String),
    /// A rule under a section title, this many cells wide.
    Underline(usize),
    /// A key and its value in a colour.
    Field { key: String, value: String, tone: Tone },
    /// The name of a matched rule.
    Matched(String),
}

/// A line of the detail pane, by its text.
pub enum LineView {
    Heading(Severity, Seq<char>),
    Time(Seq<char>),
    Blank,
    Title(Seq<char>),
    Underline(nat),
    Field(Seq<char>, Seq<char>, Tone),
    Matched(Seq<char>),
}

impl View for DetailLine {
    type V = LineView;

    open spec fn view(&self) -> LineView {
        match self {
            DetailLine::Heading { severity, kind } => LineView::Heading(*severity, kind@),
            DetailLine::Time(t) => LineView::Time(t@),
            DetailLine::Blank => LineView::Blank,
            DetailLine::Title(t) => LineView::Title(t@),
            DetailLine::Underline(n) => LineView::Underline(*n as nat),
            DetailLine::Field { key, value, tone } => LineView::Field(key@, value@, *tone),
            DetailLine::Matched(r) => LineView::Matched(r@),
        }
    }
}

/// The lines, by their text.
pub open spec fn views(v: Seq<DetailLine>) -> Seq<LineView> {
    Seq::new(v.len(), |i: int| v[i]@)
}

/// A section title and the rule under it.
pub open spec fn section_lines(title: Seq<char>) -> Seq<LineView> {
    seq![LineView::Title(title), LineView::Underline(title.len())]
}

/// The text of a result code: the number, then `(ok)` for zero and up, else the failure word in brackets.
pub open spec fn retval_text(r: int, failed: Seq<char>) -> Seq<char> {
    signed_dec(r) + " ("@ + (if r >= 0 { "ok"@ } else { failed }) + ")"@
}

/// Failed return values are red.
pub open spec fn retval_tone(r: int) -> Tone {
    if r >= 0 { Tone::Text } else { Tone::Red }
}

/// The name of a file type (as its `Debug` text).
pub open spec fn file_type_name(t: FileType) -> Seq<char> {
    match t {
        FileType::Regular => "Regular"@,
        FileType::Directory => "Directory"@,
        FileType::CharDevice => "CharDevice"@,
        FileType::BlockDevice => "BlockDevice"@,
        FileType::Fifo => "Fifo"@,
        FileType::Symlink => "Symlink"@,
        FileType::Socket => "Socket"@,
        FileType::Unknown => "Unknown"@,
    }
}

/// An address and port as `address:port`.
pub open spec fn ip_port(ip: crate::net::IpAddress, port: u16) -> Seq<char> {
    ip_text(ip) + seq![':'] + dec(port as nat)
}

/// The identity lines common to the file events (keys padded wider for renames).
pub open spec fn file_ids(h: EventHeader, wide: bool) -> Seq<LineView> {
    if wide {
        seq![
            LineView::Field("pid           "@, dec(h.pid as nat), Tone::Text),
            LineView::Field("ppid          "@, dec(h.ppid as nat), Tone::Muted),
            LineView::Field("uid           "@, uid_text(h.uid), uid_tone_spec(h.uid)),
            LineView::Field("gid           "@, dec(h.gid as nat), Tone::Muted),
        ]
    } else {
        seq![
            LineView::Field("pid      "@, dec(h.pid as nat), Tone::Text),
            LineView::Field("ppid     "@, dec(h.ppid as nat), Tone::Muted),
            LineView::Field("uid      "@, uid_text(h.uid), uid_tone_spec(h.uid)),
            LineView::Field("gid      "@, dec(h.gid as nat), Tone::Muted),
        ]
    }
}

/// The lines of a network event under `title`.
pub open spec fn network_view(title: Seq<char>, h: EventHeader, p: Protocol, ep: SocketEndpoints) -> Seq<LineView> {
    section_lines(title) + seq![
        LineView::Field("comm "@, h.comm@, Tone::Green),
        LineView::Field("pid "@, dec(h.pid as nat), Tone::Text),
        LineView::Field("tid "@, dec(h.tid as nat), Tone::Text),
        LineView::Field("ppid "@, dec(h.ppid as nat), Tone::Text),
        LineView::Field("uid "@, dec(h.uid as nat), Tone::Text),
        LineView::Field("gid "@, dec(h.gid as nat), Tone::Text),
        LineView::Blank,
    ] + section_lines("NETWORK"@) + seq![
        LineView::Field("protocol "@, if p == Protocol::Tcp { "TCP"@ } else { "UDP"@ }, Tone::Blue),
        LineView::Field("source "@, ip_port(ep.local_ip, ep.local_port), Tone::Green),
        LineView::Field("destination "@, ip_port(ep.remote_ip, ep.remote_port), Tone::Blue),
    ]
}

/// The lines that describe an event, by kind.
pub open spec fn event_view(e: AppEvent) -> Seq<LineView> {
    match e {
        AppEvent::ProcessStart(c) => section_lines("ProcessStart"@) + seq![
            LineView::Field("pid      "@, dec(c.event.header.pid as nat), Tone::Text),
            LineView::Field("ppid     "@, dec(c.event.header.ppid as nat), Tone::Text),
            LineView::Field("uid      "@, uid_text(c.event.header.uid), uid_tone_spec(c.event.header.uid)),
            LineView::Field("filename "@, c.event.filename@, Tone::Path),
            LineView::Field("comm     "@, c.event.header.comm@, Tone::Path),
        ],
        AppEvent::ProcessExit(c) => section_lines("ProcessExit"@) + seq![
            LineView::Field("pid    "@, dec(c.event.header.pid as nat), Tone::Text),
            LineView::Field("ppid   "@, dec(c.event.header.ppid as nat), Tone::Text),
            LineView::Field("comm   "@, c.event.header.comm@, Tone::Path),
            LineView::Field("retval "@, retval_text(c.event.exit_code as int, "failed"@), retval_tone(c.event.exit_code as int)),
        ],
        AppEvent::ProcessFork(c) => section_lines("ProcessFork"@) + seq![
            LineView::Field("child pid   "@, dec(c.event.child_pid as nat), Tone::Text),
            LineView::Field("child comm  "@, c.event.child_comm@, Tone::Path),
            LineView::Field("parent pid  "@, dec(c.event.parent.pid as nat), Tone::Text),
            LineView::Field("parent comm "@, c.event.parent.comm@, Tone::Path),
            LineView::Field("ppid        "@, dec(c.event.parent.ppid as nat), Tone::Text),
        ],
        AppEvent::FileOpen(c) => section_lines("FileOpen"@) + seq![
            LineView::Field("name "@, c.event.header.comm@, Tone::Text),
            LineView::Field("pid  "@, dec(c.event.header.pid as nat), Tone::Text),
            LineView::Field("ppid "@, dec(c.event.header.ppid as nat), Tone::Muted),
            LineView::Field("uid  "@, uid_text(c.event.header.uid), uid_tone_spec(c.event.header.uid)),
            LineView::Field("gid  "@, dec(c.event.header.gid as nat), Tone::Muted),
            LineView::Blank,
        ] + section_lines("FILE"@) + seq![
            LineView::Field("filepath "@, c.event.file_path@, if sensitive(c.event.file_path@) { Tone::Red } else { Tone::Path }),
            LineView::Field("filename "@, file_name_of(c.event.file_path@), Tone::Text),
            LineView::Field("op       "@, file_type_name(c.event.file_type), Tone::Text),
            LineView::Field("flags    "@, open_flags_text(c.event.flags), Tone::Muted),
            LineView::Field("mode     "@, file_type_name(c.event.file_type), Tone::Muted),
            LineView::Field("retval   "@, retval_text(c.event.retval as int, "failed "@), retval_tone(c.event.retval as int)),
            LineView::Field("inode    "@, dec(c.event.inode as nat), Tone::Muted),
        ],
        AppEvent::FileClose(c) => section_lines("FileClose"@) + file_ids(c.event.header, false) + seq![
            LineView::Field("filepath "@, c.event.file_path@, Tone::Path),
            LineView::Field("flags    "@, open_flags_text(c.event.flags), Tone::Muted),
            LineView::Field("retval   "@, retval_text(c.event.retval as int, "failed"@), retval_tone(c.event.retval as int)),
            LineView::Field("mode     "@, file_type_name(c.event.file_type), Tone::Muted),
        ],
        AppEvent::FileWrite(c) => section_lines("FileWrite"@) + file_ids(c.event.header, false) + seq![
            LineView::Field("filepath "@, c.event.file_path@, Tone::Path),
            LineView::Field("flags    "@, open_flags_text(c.event.flags), Tone::Muted),
            LineView::Field("retval   "@, retval_text(c.event.retval as int, "failed"@), retval_tone(c.event.retval as int)),
            LineView::Field("mode     "@, file_type_name(c.event.file_type), Tone::Muted),
        ],
        AppEvent::FileRead(c) => section_lines("FileRead"@) + file_ids(c.event.header, false) + seq![
            LineView::Field("filepath "@, c.event.file_path@, Tone::Path),
            LineView::Field("flags    "@, open_flags_text(c.event.flags), Tone::Muted),
            LineView::Field("retval   "@, retval_text(c.event.retval as int, "failed"@), retval_tone(c.event.retval as int)),
            LineView::Field("mode     "@, file_type_name(c.event.file_type), Tone::Muted),
        ],
        AppEvent::FileRename(c) => section_lines("FileRename"@) + file_ids(c.event.header, true) + seq![
            LineView::Field("old_filename  "@, c.event.old_filename@, Tone::Path),
            LineView::Field("new_filename  "@, c.event.new_filename@, Tone::Path),
            LineView::Field("flags    "@, open_flags_text(c.event.flags), Tone::Muted),
            LineView::Field("retval        "@, retval_text(c.event.retval as int, "failed"@), retval_tone(c.event.retval as int)),
            LineView::Field("mode          "@, file_type_name(c.event.file_type), Tone::Muted),
        ],
        AppEvent::FileDelete(c) => section_lines("FileDelete"@) + file_ids(c.event.header, false) + seq![
            LineView::Field("filename "@, c.event.filename@, Tone::Path),
            LineView::Field("retval   "@, retval_text(c.event.retval as int, "failed"@), retval_tone(c.event.retval as int)),
            LineView::Field("mode     "@, file_type_name(c.event.file_type), Tone::Muted),
        ],
        AppEvent::NetworkAccept(c) => network_view("Accept"@, c.event.header, c.event.protocol, c.event.endpoints),
        AppEvent::NetworkConnect(c) => network_view("Connect"@, c.event.header, c.event.protocol, c.event.endpoints),
        AppEvent::NetworkBind(c) => network_view("Bind"@, c.event.header, c.event.protocol, c.event.endpoints),
        AppEvent::NetworkClose(c) => network_view("Close"@, c.event.header, c.event.protocol, c.event.endpoints),
        AppEvent::NetworkListen(c) => network_view("Listen"@, c.event.header, c.event.protocol, c.event.endpoints),
    }
}

/// The names of the matched rules, one line each.
pub open spec fn rule_lines(rules: Seq<String>) -> Seq<LineView> {
    Seq::new(rules.len(), |i: int| LineView::Matched(rules[i]@))
}

/// The detail pane of an event shown at time `time`: the heading, the time,
/// a blank line, the event's own lines, then (when rules matched) a blank
/// line and the `RULES` section listing them.
pub open spec fn detail_view(u: UiEvent, time: Seq<char>) -> Seq<LineView> {
    seq![LineView::Heading(u.severity, trimmed(u.event.spec_kind_label())), LineView::Time(time), LineView::Blank]
        + event_view(u.event) + (if u.event.spec_rules().len() == 0 {
        Seq::empty()
    } else {
        seq![LineView::Blank] + section_lines("RULES"@) + rule_lines(u.event.spec_rules())
    })
}

fn push_line(lines: &mut Vec<DetailLine>, l: DetailLine)
    ensures
        views(final(lines)@) == views(old(lines)@).push(l@),
{
    lines.push(l);
    assert(views(final(lines)@) =~= views(old(lines)@).push(l@));
}

fn push_field(lines: &mut Vec<DetailLine>, key: &str, value: String, tone: Tone)
    ensures
        views(final(lines)@) == views(old(lines)@).push(LineView::Field(key@, value@, tone)),
{
    push_line(lines, DetailLine::Field { key: key.to_owned(), value, tone });
}

fn push_section(lines: &mut Vec<DetailLine>, title: &str)
    ensures
        views(final(lines)@) == views(old(lines)@) + section_lines(title@),
{
    let n = crate::text::chars_of(title).len();
    push_line(lines, DetailLine::Title(title.to_owned()));
    push_line(lines, DetailLine::Underline(n));
    assert(views(final(lines)@) =~= views(old(lines)@) + section_lines(title@));
}

fn retval_string(r: i64, failed: &str) -> (res: String)
    ensures
        res@ == retval_text(r as int, failed@),
{
    let mut s = String::new();
    push_signed_dec(&mut s, r);
    push_str(&mut s, " (");
    if r >= 0 {
        push_str(&mut s, "ok");
    } else {
        push_str(&mut s, failed);
    }
    push_str(&mut s, ")");
    s
}

fn retval_tone_of(r: i64) -> (res: Tone)
    ensures
        res == retval_tone(r as int),
{
    if r >= 0 { Tone::Text } else { Tone::Red }
}

/// The name of a file type.
pub fn file_type_label(t: FileType) -> (res: &'static str)
    ensures
        res@ == file_type_name(t),
{
    match t {
        FileType::Regular => "Regular",
        FileType::Directory => "Directory",
        FileType::CharDevice => "CharDevice",
        FileType::BlockDevice => "BlockDevice",
        FileType::Fifo => "Fifo",
        FileType::Symlink => "Symlink",
        FileType::Socket => "Socket",
        FileType::Unknown => "Unknown",
    }
}

fn ip_port_string(ip: crate::net::IpAddress, port: u16) -> (res: String)
    ensures
        res@ == ip_port(ip, port),
{
    let mut s = String::new();
    push_ip(&mut s, ip);
    s.push(':');
    push_dec(&mut s, port as u64);
    assert(s@ =~= ip_port(ip, port));
    s
}

fn push_file_ids(lines: &mut Vec<DetailLine>, h: &EventHeader, wide: bool)
    ensures
        views(final(lines)@) == views(old(lines)@) + file_ids(*h, wide),
{
    if wide {
        push_field(lines, "pid           ", dec_string(h.pid as u64), Tone::Text);
        push_field(lines, "ppid          ", dec_string(h.ppid as u64), Tone::Muted);
        push_field(lines, "uid           ", uid_label(h.uid), uid_tone(h.uid));
        push_field(lines, "gid           ", dec_string(h.gid as u64), Tone::Muted);
    } else {
        push_field(lines, "pid      ", dec_string(h.pid as u64), Tone::Text);
        push_field(lines, "ppid     ", dec_string(h.ppid as u64), Tone::Muted);
        push_field(lines, "uid      ", uid_label(h.uid), uid_tone(h.uid));
        push_field(lines, "gid      ", dec_string(h.gid as u64), Tone::Muted);
    }
    assert(views(final(lines)@) =~= views(old(lines)@) + file_ids(*h, wide));
}

fn push_network(lines: &mut Vec<DetailLine>, title: &str, h: &EventHeader, p: Protocol, ep: SocketEndpoints)
    ensures
        views(final(lines)@) == views(old(lines)@) + network_view(title@, *h, p, ep),
{
    let ghost start = views(lines@);
    push_section(lines, title);
    push_field(lines, "comm ", h.comm.clone(), Tone::Green);
    push_field(lines, "pid ", dec_string(h.pid as u64), Tone::Text);
    push_field(lines, "tid ", dec_string(h.tid as u64), Tone::Text);
    push_field(lines, "ppid ", dec_string(h.ppid as u64), Tone::Text);
    push_field(lines, "uid ", dec_string(h.uid as u64), Tone::Text);
    push_field(lines, "gid ", dec_string(h.gid as u64), Tone::Text);
    push_line(lines, DetailLine::Blank);
    push_section(lines, "NETWORK");
    let proto = match p {
        Protocol::Tcp => "TCP",
        Protocol::Udp => "UDP",
    };
    push_field(lines, "protocol ", proto.to_owned(), Tone::Blue);
    push_field(lines, "source ", ip_port_string(ep.local_ip, ep.local_port), Tone::Green);
    push_field(lines, "destination ", ip_port_string(ep.remote_ip, ep.remote_port), Tone::Blue);
    assert(views(lines@) =~= start + network_view(title@, *h, p, ep));
}

fn push_process_start(lines: &mut Vec<DetailLine>, e: &AppEvent)
    requires
        e is ProcessStart,
    ensures
        views(final(lines)@) == views(old(lines)@) + event_view(*e),
{
    let ghost start = views(lines@);
    if let AppEvent::ProcessStart(c) = e {
        push_section(lines, "ProcessStart");
        push_field(lines, "pid      ", dec_string(c.event.header.pid as u64), Tone::Text);
        push_field(lines, "ppid     ", dec_string(c.event.header.ppid as u64), Tone::Text);
        push_field(lines, "uid      ", uid_label(c.event.header.uid), uid_tone(c.event.header.uid));
        push_field(lines, "filename ", c.event.filename.clone(), Tone::Path);
        push_field(lines, "comm     ", c.event.header.comm.clone(), Tone::Path);
    }
    assert(views(lines@) =~= start + event_view(*e));
}

fn push_process_exit(lines: &mut Vec<DetailLine>, e: &AppEvent)
    requires
        e is ProcessExit,
    ensures
        views(final(lines)@) == views(old(lines)@) + event_view(*e),
{
    let ghost start = views(lines@);
    if let AppEvent::ProcessExit(c) = e {
        push_section(lines, "ProcessExit");
        push_field(lines, "pid    ", dec_string(c.event.header.pid as u64), Tone::Text);
        push_field(lines, "ppid   ", dec_string(c.event.header.ppid as u64), Tone::Text);
        push_field(lines, "comm   ", c.event.header.comm.clone(), Tone::Path);
        let r = c.event.exit_code as i64;
        push_field(lines, "retval ", retval_string(r, "failed"), retval_tone_of(r));
    }
    assert(views(lines@) =~= start + event_view(*e));
}

fn push_process_fork(lines: &mut Vec<DetailLine>, e: &AppEvent)
    requires
        e is ProcessFork,
    ensures
        views(final(lines)@) == views(old(lines)@) + event_view(*e),
{
    let ghost start = views(lines@);
    if let AppEvent::ProcessFork(c) = e {
        push_section(lines, "ProcessFork");
        push_field(lines, "child pid   ", dec_string(c.event.child_pid as u64), Tone::Text);
        push_field(lines, "child comm  ", c.event.child_comm.clone(), Tone::Path);
        push_field(lines, "parent pid  ", dec_string(c.event.parent.pid as u64), Tone::Text);
        push_field(lines, "parent comm ", c.event.parent.comm.clone(), Tone::Path);
        push_field(lines, "ppid        ", dec_string(c.event.parent.ppid as u64), Tone::Text);
    }
    assert(views(lines@) =~= start + event_view(*e));
}

fn push_file_open(lines: &mut Vec<DetailLine>, e: &AppEvent)
    requires
        e is FileOpen,
    ensures
        views(final(lines)@) == views(old(lines)@) + event_view(*e),
{
    let ghost start = views(lines@);
    if let AppEvent::FileOpen(c) = e {
        push_section(lines, "FileOpen");
        push_field(lines, "name ", c.event.header.comm.clone(), Tone::Text);
        push_field(lines, "pid  ", dec_string(c.event.header.pid as u64), Tone::Text);
        push_field(lines, "ppid ", dec_string(c.event.header.ppid as u64), Tone::Muted);
        push_field(lines, "uid  ", uid_label(c.event.header.uid), uid_tone(c.event.header.uid));
        push_field(lines, "gid  ", dec_string(c.event.header.gid as u64), Tone::Muted);
        push_line(lines, DetailLine::Blank);
        push_section(lines, "FILE");
        let path_tone = if is_sensitive_path(c.event.file_path.as_str()) { Tone::Red } else { Tone::Path };
        push_field(lines, "filepath ", c.event.file_path.clone(), path_tone);
        push_field(lines, "filename ", file_name(c.event.file_path.as_str()), Tone::Text);
        push_field(lines, "op       ", file_type_label(c.event.file_type).to_owned(), Tone::Text);
        push_field(lines, "flags    ", flags_text(c.event.flags), Tone::Muted);
        push_field(lines, "mode     ", file_type_label(c.event.file_type).to_owned(), Tone::Muted);
        let r = c.event.retval as i64;
        push_field(lines, "retval   ", retval_string(r, "failed "), retval_tone_of(r));
        push_field(lines, "inode    ", dec_string(c.event.inode), Tone::Muted);
    }
    assert(views(lines@) =~= start + event_view(*e));
}

fn push_file_close(lines: &mut Vec<DetailLine>, e: &AppEvent)
    requires
        e is FileClose,
    ensures
        views(final(lines)@) == views(old(lines)@) + event_view(*e),
{
    let ghost start = views(lines@);
    if let AppEvent::FileClose(c) = e {
        push_section(lines, "FileClose");
        push_file_ids(lines, &c.event.header, false);
        push_field(lines, "filepath ", c.event.file_path.clone(), Tone::Path);
        push_field(lines, "flags    ", flags_text(c.event.flags), Tone::Muted);
        let r = c.event.retval as i64;
        push_field(lines, "retval   ", retval_string(r, "failed"), retval_tone_of(r));
        push_field(lines, "mode     ", file_type_label(c.event.file_type).to_owned(), Tone::Muted);
    }
    assert(views(lines@) =~= start + event_view(*e));
}

fn push_file_write(lines: &mut Vec<DetailLine>, e: &AppEvent)
    requires
        e is FileWrite,
    ensures
        views(final(lines)@) == views(old(lines)@) + event_view(*e),
{
    let ghost start = views(lines@);
    if let AppEvent::FileWrite(c) = e {
        push_section(lines, "FileWrite");
        push_file_ids(lines, &c.event.header, false);
        push_field(lines, "filepath ", c.event.file_path.clone(), Tone::Path);
        push_field(lines, "flags    ", flags_text(c.event.flags), Tone::Muted);
        let r = c.event.retval;
        push_field(lines, "retval   ", retval_string(r, "failed"), retval_tone_of(r));
        push_field(lines, "mode     ", file_type_label(c.event.file_type).to_owned(), Tone::Muted);
    }
    assert(views(lines@) =~= start + event_view(*e));
}

fn push_file_read(lines: &mut Vec<DetailLine>, e: &AppEvent)
    requires
        e is FileRead,
    ensures
        views(final(lines)@) == views(old(lines)@) + event_view(*e),
{
    let ghost start = views(lines@);
    if let AppEvent::FileRead(c) = e {
        push_section(lines, "FileRead");
        push_file_ids(lines, &c.event.header, false);
        push_field(lines, "filepath ", c.event.file_path.clone(), Tone::Path);
        push_field(lines, "flags    ", flags_text(c.event.flags), Tone::Muted);
        let r = c.event.retval;
        push_field(lines, "retval   ", retval_string(r, "failed"), retval_tone_of(r));
        push_field(lines, "mode     ", file_type_label(c.event.file_type).to_owned(), Tone::Muted);
    }
    assert(views(lines@) =~= start + event_view(*e));
}

fn push_file_rename(lines: &mut Vec<DetailLine>, e: &AppEvent)
    requires
        e is FileRename,
    ensures
        views(final(lines)@) == views(old(lines)@) + event_view(*e),
{
    let ghost start = views(lines@);
    if let AppEvent::FileRename(c) = e {
        push_section(lines, "FileRename");
        push_file_ids(lines, &c.event.header, true);
        push_field(lines, "old_filename  ", c.event.old_filename.clone(), Tone::Path);
        push_field(lines, "new_filename  ", c.event.new_filename.clone(), Tone::Path);
        push_field(lines, "flags    ", flags_text(c.event.flags), Tone::Muted);
        let r = c.event.retval as i64;
        push_field(lines, "retval        ", retval_string(r, "failed"), retval_tone_of(r));
        push_field(lines, "mode          ", file_type_label(c.event.file_type).to_owned(), Tone::Muted);
    }
    assert(views(lines@) =~= start + event_view(*e));
}

fn push_file_delete(lines: &mut Vec<DetailLine>, e: &AppEvent)
    requires
        e is FileDelete,
    ensures
        views(final(lines)@) == views(old(lines)@) + event_view(*e),
{
    let ghost start = views(lines@);
    if let AppEvent::FileDelete(c) = e {
        push_section(lines, "FileDelete");
        push_file_ids(lines, &c.event.header, false);
        push_field(lines, "filename ", c.event.filename.clone(), Tone::Path);
        let r = c.event.retval as i64;
        push_field(lines, "retval   ", retval_string(r, "failed"), retval_tone_of(r));
        push_field(lines, "mode     ", file_type_label(c.event.file_type).to_owned(), Tone::Muted);
    }
    assert(views(lines@) =~= start + event_view(*e));
}

fn push_network_accept(lines: &mut Vec<DetailLine>, e: &AppEvent)
    requires
        e is NetworkAccept,
    ensures
        views(final(lines)@) == views(old(lines)@) + event_view(*e),
{
    let ghost start = views(lines@);
    if let AppEvent::NetworkAccept(c) = e {
        push_network(lines, "Accept", &c.event.header, c.event.protocol, c.event.endpoints);
    }
    assert(views(lines@) =~= start + event_view(*e));
}

fn push_network_connect(lines: &mut Vec<DetailLine>, e: &AppEvent)
    requires
        e is NetworkConnect,
    ensures
        views(final(lines)@) == views(old(lines)@) + event_view(*e),
{
    let ghost start = views(lines@);
    if let AppEvent::NetworkConnect(c) = e {
        push_network(lines, "Connect", &c.event.header, c.event.protocol, c.event.endpoints);
    }
    assert(views(lines@) =~= start + event_view(*e));
}

fn push_network_bind(lines: &mut Vec<DetailLine>, e: &AppEvent)
    requires
        e is NetworkBind,
    ensures
        views(final(lines)@) == views(old(lines)@) + event_view(*e),
{
    let ghost start = views(lines@);
    if let AppEvent::NetworkBind(c) = e {
        push_network(lines, "Bind", &c.event.header, c.event.protocol, c.event.endpoints);
    }
    assert(views(lines@) =~= start + event_view(*e));
}

fn push_network_close(lines: &mut Vec<DetailLine>, e: &AppEvent)
    requires
        e is NetworkClose,
    ensures
        views(final(lines)@) == views(old(lines)@) + event_view(*e),
{
    let ghost start = views(lines@);
    if let AppEvent::NetworkClose(c) = e {
        push_network(lines, "Close", &c.event.header, c.event.protocol, c.event.endpoints);
    }
    assert(views(lines@) =~= start + event_view(*e));
}

fn push_network_listen(lines: &mut Vec<DetailLine>, e: &AppEvent)
    requires
        e is NetworkListen,
    ensures
        views(final(lines)@) == views(old(lines)@) + event_view(*e),
{
    let ghost start = views(lines@);
    if let AppEvent::NetworkListen(c) = e {
        push_network(lines, "Listen", &c.event.header, c.event.protocol, c.event.endpoints);
    }
    assert(views(lines@) =~= start + event_view(*e));
}

fn push_event_lines(lines: &mut Vec<DetailLine>, e: &AppEvent)
    ensures
        views(final(lines)@) == views(old(lines)@) + event_view(*e),
{
    match e {
        AppEvent::ProcessStart(_) => push_process_start(lines, e),
        AppEvent::ProcessExit(_) => push_process_exit(lines, e),
        AppEvent::ProcessFork(_) => push_process_fork(lines, e),
        AppEvent::FileOpen(_) => push_file_open(lines, e),
        AppEvent::FileClose(_) => push_file_close(lines, e),
        AppEvent::FileWrite(_) => push_file_write(lines, e),
        AppEvent::FileRead(_) => push_file_read(lines, e),
        AppEvent::FileRename(_) => push_file_rename(lines, e),
        AppEvent::FileDelete(_) => push_file_delete(lines, e),
        AppEvent::NetworkAccept(_) => push_network_accept(lines, e),
        AppEvent::NetworkConnect(_) => push_network_connect(lines, e),
        AppEvent::NetworkBind(_) => push_network_bind(lines, e),
        AppEvent::NetworkClose(_) => push_network_close(lines, e),
        AppEvent::NetworkListen(_) => push_network_listen(lines, e),
    }
}

/// The lines of the detail pane of an event, given the text of its time.
pub fn detail_lines(event: &UiEvent, time: String) -> (res: Vec<DetailLine>)
    ensures
        views(res@) == detail_view(*event, time@),
{
    let mut lines: Vec<DetailLine> = Vec::new();
    let rules = event.event.rule_name();
    let kind = trim_text(event.event.kind_label());
    push_line(&mut lines, DetailLine::Heading { severity: event.severity, kind });
    push_line(&mut lines, DetailLine::Time(time));
    push_line(&mut lines, DetailLine::Blank);
    push_event_lines(&mut lines, &event.event);
    let ghost before = views(lines@);
    if rules.len() > 0 {
        push_line(&mut lines, DetailLine::Blank);
        push_section(&mut lines, "RULES");
        let ghost head = views(lines@);
        let mut i: usize = 0;
        while i < rules.len()
            invariant
                i <= rules@.len(),
                views(lines@) == head + rule_lines(rules@.take(i as int)),
            decreases rules.len() - i,
        {
            push_line(&mut lines, DetailLine::Matched(rules[i].clone()));
            assert(rule_lines(rules@.take(i + 1)) =~= rule_lines(rules@.take(i as int)).push(LineView::Matched(rules@[i as int]@)));
            i = i + 1;
        }
        assert(rules@.take(rules@.len() as int) =~= rules@);
    }
    assert(views(lines@) =~= detail_view(*event, time@));
    lines
}

/// The detail pane of an event at the wall-clock time of its timestamp. The
/// time text comes from the local time zone: only its shape and its
/// milliseconds are fixed.
pub fn build_detail_lines(event: &UiEvent, use_24hr: bool, wallclock_offset_ns: u64) -> (res: Vec<DetailLine>)
    requires
        event.event.spec_header().timestamp_ns + wallclock_offset_ns <= u64::MAX,
    ensures
        exists|t: Seq<char>| #![trigger detail_view(*event, t)]
            clock_face(t, use_24hr, ((event.event.spec_header().timestamp_ns + wallclock_offset_ns) % 1_000_000_000) as nat)
            && views(res@) == detail_view(*event, t),
{
    let time = format_timestamp_ns(event.event.timestamp(), use_24hr, wallclock_offset_ns);
    let ghost t = time@;
    let res = detail_lines(event, time);
    assert(views(res@) == detail_view(*event, t));
    res
}

/// Background of a stream row: the selected row, then alternate rows.
#[derive(Clone, Copy, Debug, PartialEq, Eq, Structural)]
pub enum Shade {
    Selected,
    Odd,
    Even,
}

/// The cells of a row of the event stream.
#[derive(Clone, Debug, PartialEq)]
pub struct StreamRow {
    /// A bar in front of the selected row, a space otherwise.
    pub accent: String,
    pub time: String,
    pub severity: String,
    pub pid: String,
    pub kind: String,
    pub detail: String,
    pub shade: Shade,
    pub severity_tone: Tone,
    pub detail_tone: Tone,
}

/// The cells of stream row `i` (the selected one when `i == selected`) for an
/// event with time text `ts`: the first eleven characters of the time, the
/// severity label, process id and trimmed kind each padded to its column, and
/// the one-line detail.
pub fn stream_row(event: &UiEvent, ts: &str, i: usize, selected: usize) -> (res: StreamRow)
    ensures
        res.accent@ == (if i == selected { "\u{258c}"@ } else { " "@ }),
        res.time@ == seq![' '] + padded(ts@.take(if 11 < ts@.len() { 11 } else { ts@.len() as int }), 15),
        res.severity@ == padded(event.severity.label_text(), 8) + seq![' ', ' '],
        res.pid@ == padded(dec(event.event.spec_header().pid as nat), 13),
        res.kind@ == padded(trimmed(event.event.spec_kind_label()), 15),
        res.detail@ == event.event.spec_detail(),
        res.shade == (if i == selected { Shade::Selected } else if i % 2 == 1 { Shade::Odd } else { Shade::Even }),
        res.severity_tone == sev_tone_spec(event.severity),
        res.detail_tone == (match event.severity {
            Severity::Critical => Tone::Red,
            Severity::High => Tone::Salmon,
            _ => Tone::Text,
        }),
{
    let is_sel = i == selected;
    let accent = if is_sel { "\u{258c}".to_owned() } else { " ".to_owned() };
    let head = take_chars(ts, 11);
    let mut time = String::new();
    time.push(' ');
    let cell = pad_right(head.as_str(), 15);
    push_str(&mut time, cell.as_str());
    let mut severity = pad_right(event.severity.label(), 8);
    severity.push(' ');
    severity.push(' ');
    let pid_text = dec_string(event.event.pid() as u64);
    let pid = pad_right(pid_text.as_str(), 13);
    let kind_text = trim_text(event.event.kind_label());
    let kind = pad_right(kind_text.as_str(), 15);
    let shade = if is_sel { Shade::Selected } else if i % 2 == 1 { Shade::Odd } else { Shade::Even };
    assert(time@ =~= seq![' '] + padded(ts@.take(if 11 < ts@.len() { 11 } else { ts@.len() as int }), 15));
    assert(severity@ =~= padded(event.severity.label_text(), 8) + seq![' ', ' ']);
    StreamRow {
        accent,
        time,
        severity,
        pid,
        kind,
        detail: event.event.detail(),
        shade,
        severity_tone: sev_tone(event.severity),
        detail_tone: detail_tone(event.severity),
    }
}
/// The severity filter rows and the severities agree: the row at a
/// severity's filter position is labelled with that severity's name, and,
/// but for Info (drawn faint), has that severity's colour; no two levels
/// share a colour; root is shown as "0 (root)" in red, other users by number.
pub proof fn lemma_filter_rows_match_severities(s: Severity, t: Severity)
    ensures
        filter_row_label(crate::app::severity_position(s)) == (match s {
            Severity::Critical => "Critical"@,
            Severity::High => "High"@,
            Severity::Medium => "Medium"@,
            Severity::Low => "Low"@,
            Severity::Info => "Info"@,
        }),
        s != Severity::Info ==> filter_row_tone(crate::app::severity_position(s)) == sev_tone_spec(s),
        s != t ==> sev_tone_spec(s) != sev_tone_spec(t),
        sev_tone_spec(Severity::Critical) == Tone::Red,
        uid_tone_spec(0) == Tone::Red,
        uid_text(0) == "0 (root)"@,
        forall|u: u32| u != 0 ==> #[trigger] uid_text(u) == dec(u as nat),
{
}
} // verus!
