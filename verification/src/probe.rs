//! Assembly of the first-generation records that the kernel probes emit:
//! what each probe takes from the raw values it reads (the packed pid/tgid
//! and uid/gid words, a socket address as it lies in user memory) and which
//! reads make it drop the record.
use vstd::prelude::*;
use crate::common::{EventType, ExecEvent, FileCloseEvent, FileEvent, NetworkEvent, ProcessExitEvent};

verus! {

/// Address family of IPv4 socket addresses.
pub const AF_INET: u16 = 2;

/// Address family of IPv6 socket addresses.
pub const AF_INET6: u16 = 10;

/// Size in bytes of an IPv4 socket address record.
pub const SOCKADDR_IN_LEN: usize = 16;

/// Size in bytes of an IPv6 socket address record.
pub const SOCKADDR_IN6_LEN: usize = 28;

impl EventType {
    /// The number that a record's `kind` field holds for this kind.
    pub open spec fn spec_code(self) -> u32 {
        match self {
            EventType::ExecEvent => 0,
            EventType::ExecExit => 1,
            EventType::FileOpen => 2,
            EventType::FileClose => 3,
            EventType::Network => 4,
        }
    }

    /// The number that a record's `kind` field holds for this kind.
    pub fn code(&self) -> (res: u32)
        ensures
            res == self.spec_code(),
    {
        match self {
            EventType::ExecEvent => 0,
            EventType::ExecExit => 1,
            EventType::FileOpen => 2,
            EventType::FileClose => 3,
            EventType::Network => 4,
        }
    }
}

/// The process id: the upper half of the packed pid/tgid word.
pub fn pid_of(pid_tgid: u64) -> (res: u32)
    ensures
        res == pid_tgid / 0x1_0000_0000,
{
    assert((pid_tgid >> 32u64) == pid_tgid / 0x1_0000_0000) by (bit_vector);
    (pid_tgid >> 32u64) as u32
}

/// The user id: the lower half of the packed uid/gid word.
pub fn uid_of(uid_gid: u64) -> (res: u32)
    ensures
        res == uid_gid % 0x1_0000_0000,
{
    assert((uid_gid as u32) == uid_gid % 0x1_0000_0000) by (bit_vector);
    uid_gid as u32
}

/// The drop counter after one more record found the ring buffer full.
pub fn count_dropped(count: u32) -> (res: u32)
    ensures
        res == (count + 1) % 0x1_0000_0000,
{
    count.wrapping_add(1)
}

/// The record of a program start.
pub fn exec_record(pid_tgid: u64, uid_gid: u64, timestamp: u64, filename: [u8; 256]) -> (res: ExecEvent)
    ensures
        res.kind == EventType::ExecEvent.spec_code(),
        res.pid == pid_tgid / 0x1_0000_0000,
        res.uid == uid_gid % 0x1_0000_0000,
        res.timestamp == timestamp,
        res.filename@ == filename@,
{
    ExecEvent {
        kind: EventType::ExecEvent.code(),
        pid: pid_of(pid_tgid),
        uid: uid_of(uid_gid),
        timestamp,
        filename,
    }
}

/// The record of a file open.
pub fn open_record(
    pid_tgid: u64,
    uid_gid: u64,
    timestamp: u64,
    dir_fd: i32,
    filename: [u8; 256],
    flags: i32,
    mode: i32,
) -> (res: FileEvent)
    ensures
        res.kind == EventType::FileOpen.spec_code(),
        res.pid == pid_tgid / 0x1_0000_0000,
        res.uid == uid_gid % 0x1_0000_0000,
        res.dir_fd == dir_fd,
        res.filename@ == filename@,
        res.mode == mode,
        res.flags == flags,
        res.timestamp == timestamp,
{
    FileEvent {
        kind: EventType::FileOpen.code(),
        pid: pid_of(pid_tgid),
        uid: uid_of(uid_gid),
        dir_fd,
        filename,
        mode,
        flags,
        timestamp,
    }
}

/// The record of a process exit.
pub fn exit_record(pid_tgid: u64, timestamp: u64) -> (res: ProcessExitEvent)
    ensures
        res.kind == EventType::ExecExit.spec_code(),
        res.pid == pid_tgid / 0x1_0000_0000,
        res.timestamp == timestamp,
{
    ProcessExitEvent { kind: EventType::ExecExit.code(), pid: pid_of(pid_tgid), timestamp }
}

/// The record of a file close.
pub fn close_record(pid_tgid: u64, timestamp: u64, file_name: [u8; 256]) -> (res: FileCloseEvent)
    ensures
        res.kind == EventType::FileClose.spec_code(),
        res.pid == pid_tgid / 0x1_0000_0000,
        res.timestamp == timestamp,
        res.file_name@ == file_name@,
{
    FileCloseEvent {
        kind: EventType::FileClose.code(),
        file_name,
        pid: pid_of(pid_tgid),
        timestamp,
    }
}

/// Whether a connection of this address family is recorded.
pub open spec fn watched_family(family: u16) -> bool {
    family == AF_INET || family == AF_INET6
}

/// How many bytes of user memory the socket address of this family takes.
pub open spec fn sockaddr_len(family: u16) -> nat {
    if family == AF_INET {
        SOCKADDR_IN_LEN as nat
    } else {
        SOCKADDR_IN6_LEN as nat
    }
}

/// The port of a socket address: bytes 2 and 3, in network byte order.
pub open spec fn sockaddr_port(sockaddr: Seq<u8>) -> u16 {
    (sockaddr[2] as int * 256 + sockaddr[3] as int) as u16
}

/// The sixteen address bytes of the record: the four bytes of an IPv4
/// address followed by zeros, or the sixteen bytes of an IPv6 address.
pub open spec fn sockaddr_addr(family: u16, sockaddr: Seq<u8>) -> Seq<u8> {
    if family == AF_INET {
        sockaddr.subrange(4, 8) + Seq::new(12, |i: int| 0u8)
    } else {
        sockaddr.subrange(8, 24)
    }
}

/// The record of a connection attempt, from the family word and the bytes of
/// the socket address read from user memory (empty where the address pointer
/// was null or the read failed). Families other than IPv4 and IPv6, and
/// addresses shorter than their family's layout, give no record.
pub fn connect_record(
    pid_tgid: u64,
    timestamp: u64,
    sock_fd: i32,
    family: u16,
    sockaddr: &[u8],
) -> (res: Option<NetworkEvent>)
    ensures
        res is Some <==> watched_family(family) && sockaddr@.len() >= sockaddr_len(family),
        res matches Some(ev) ==> {
            &&& ev.kind == EventType::Network.spec_code()
            &&& ev.pid == pid_tgid / 0x1_0000_0000
            &&& ev.sockfd == sock_fd
            &&& ev.family == family
            &&& ev.port == sockaddr_port(sockaddr@)
            &&& ev.addr@ == sockaddr_addr(family, sockaddr@)
            &&& ev.timestamp == timestamp
        },
{
    if family != AF_INET && family != AF_INET6 {
        return None;
    }
    if family == AF_INET && sockaddr.len() < SOCKADDR_IN_LEN {
        return None;
    }
    if family == AF_INET6 && sockaddr.len() < SOCKADDR_IN6_LEN {
        return None;
    }
    let s = sockaddr;
    let port: u16 = (s[2] as u16) * 256 + (s[3] as u16);
    let addr: [u8; 16] = if family == AF_INET {
        [s[4], s[5], s[6], s[7], 0, 0, 0, 0, 0, 0, 0, 0, 0, 0, 0, 0]
    } else {
        [s[8], s[9], s[10], s[11], s[12], s[13], s[14], s[15],
         s[16], s[17], s[18], s[19], s[20], s[21], s[22], s[23]]
    };
    proof {
        assert(addr@ =~= sockaddr_addr(family, sockaddr@));
    }
    Some(NetworkEvent {
        kind: EventType::Network.code(),
        pid: pid_of(pid_tgid),
        sockfd: sock_fd,
        family,
        port,
        addr,
        timestamp,
    })
}

} // verus!
