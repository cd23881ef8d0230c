//! IP addresses as plain integers, their classification and their text form.
use vstd::prelude::*;
use crate::text::{dec, numeral, push_dec, push_numeral};

verus! {

/// An IP address: IPv4 as its 32-bit big-endian value, IPv6 as its 128-bit value
/// (the values `u32::from(Ipv4Addr)` and `u128::from(Ipv6Addr)` give).
#[derive(Clone, Copy, Debug, PartialEq, Eq, Structural, Hash)]
pub enum IpAddress {
    V4(u32),
    V6(u128),
}

/// The `i`-th octet (0 = most significant) of an IPv4 value.
pub open spec fn octet(ip: u32, i: int) -> nat {
    if i == 0 {
        (ip as nat) / 16777216
    } else if i == 1 {
        ((ip as nat) / 65536) % 256
    } else if i == 2 {
        ((ip as nat) / 256) % 256
    } else {
        (ip as nat) % 256
    }
}

pub open spec fn v4_is_unspecified(ip: u32) -> bool { ip == 0 }
pub open spec fn v4_is_loopback(ip: u32) -> bool { octet(ip, 0) == 127 }
pub open spec fn v4_is_private(ip: u32) -> bool {
    ||| octet(ip, 0) == 10
    ||| octet(ip, 0) == 172 && 16 <= octet(ip, 1) <= 31
    ||| octet(ip, 0) == 192 && octet(ip, 1) == 168
}
pub open spec fn v4_is_link_local(ip: u32) -> bool { octet(ip, 0) == 169 && octet(ip, 1) == 254 }
pub open spec fn v4_is_multicast(ip: u32) -> bool { 224 <= octet(ip, 0) <= 239 }
pub open spec fn v4_is_broadcast(ip: u32) -> bool { ip == 0xffff_ffff }
pub open spec fn v4_is_documentation(ip: u32) -> bool {
    ||| octet(ip, 0) == 192 && octet(ip, 1) == 0 && octet(ip, 2) == 2
    ||| octet(ip, 0) == 198 && octet(ip, 1) == 51 && octet(ip, 2) == 100
    ||| octet(ip, 0) == 203 && octet(ip, 1) == 0 && octet(ip, 2) == 113
}

pub open spec fn v6_is_unspecified(ip: u128) -> bool { ip == 0 }
pub open spec fn v6_is_loopback(ip: u128) -> bool { ip == 1 }
/// fc00::/7
pub open spec fn v6_is_unique_local(ip: u128) -> bool {
    (ip as nat) / 0x200_0000_0000_0000_0000_0000_0000_0000 == 0x7e
}
/// fe80::/10
pub open spec fn v6_is_unicast_link_local(ip: u128) -> bool {
    (ip as nat) / 0x40_0000_0000_0000_0000_0000_0000_0000 == 0x3fa
}
/// ff00::/8
pub open spec fn v6_is_multicast(ip: u128) -> bool {
    (ip as nat) / 0x100_0000_0000_0000_0000_0000_0000_0000 == 0xff
}

/// Whether the address is the unspecified address of its family.
pub open spec fn ip_is_unspecified(ip: IpAddress) -> bool {
    match ip {
        IpAddress::V4(a) => v4_is_unspecified(a),
        IpAddress::V6(a) => v6_is_unspecified(a),
    }
}

impl IpAddress {
    /// `IpAddr::is_unspecified`.
    pub fn is_unspecified(&self) -> (res: bool)
        ensures
            res == ip_is_unspecified(*self),
    {
        match self {
            IpAddress::V4(a) => *a == 0,
            IpAddress::V6(a) => *a == 0,
        }
    }
}

/// Kinds of addresses that the classification distinguishes.
#[derive(Clone, Copy, Debug, PartialEq, Eq, Structural)]
pub enum IpKind {
    Loopback,
    Private,
    LinkLocal,
    Multicast,
    Broadcast,
    Unspecified,
    Documentation,
    Public,
}

/// The kind of an address: the first property that holds, in the order
/// loopback, private, link-local, multicast, broadcast, unspecified,
/// documentation (IPv4), and loopback, unique-local, unicast link-local,
/// multicast, unspecified (IPv6); otherwise public.
pub open spec fn ip_kind(ip: IpAddress) -> IpKind {
    match ip {
        IpAddress::V4(a) => {
            if v4_is_loopback(a) { IpKind::Loopback }
            else if v4_is_private(a) { IpKind::Private }
            else if v4_is_link_local(a) { IpKind::LinkLocal }
            else if v4_is_multicast(a) { IpKind::Multicast }
            else if v4_is_broadcast(a) { IpKind::Broadcast }
            else if v4_is_unspecified(a) { IpKind::Unspecified }
            else if v4_is_documentation(a) { IpKind::Documentation }
            else { IpKind::Public }
        },
        IpAddress::V6(a) => {
            if v6_is_loopback(a) { IpKind::Loopback }
            else if v6_is_unique_local(a) { IpKind::Private }
            else if v6_is_unicast_link_local(a) { IpKind::LinkLocal }
            else if v6_is_multicast(a) { IpKind::Multicast }
            else if v6_is_unspecified(a) { IpKind::Unspecified }
            else { IpKind::Public }
        },
    }
}

fn octets(ip: u32) -> (res: (u32, u32, u32, u32))
    ensures
        res.0 == octet(ip, 0),
        res.1 == octet(ip, 1),
        res.2 == octet(ip, 2),
        res.3 == octet(ip, 3),
        res.0 < 256 && res.1 < 256 && res.2 < 256 && res.3 < 256,
{
    (ip / 16777216, (ip / 65536) % 256, (ip / 256) % 256, ip % 256)
}

/// Classifies an address.
pub fn classify(ip: IpAddress) -> (kind: IpKind)
    ensures
        kind == ip_kind(ip),
{
    match ip {
        IpAddress::V4(a) => {
            let (o0, o1, o2, _o3) = octets(a);
            if o0 == 127 {
                IpKind::Loopback
            } else if o0 == 10 || (o0 == 172 && 16 <= o1 && o1 <= 31) || (o0 == 192 && o1 == 168) {
                IpKind::Private
            } else if o0 == 169 && o1 == 254 {
                IpKind::LinkLocal
            } else if 224 <= o0 && o0 <= 239 {
                IpKind::Multicast
            } else if a == 0xffff_ffff {
                IpKind::Broadcast
            } else if a == 0 {
                IpKind::Unspecified
            } else if (o0 == 192 && o1 == 0 && o2 == 2) || (o0 == 198 && o1 == 51 && o2 == 100)
                || (o0 == 203 && o1 == 0 && o2 == 113) {
                IpKind::Documentation
            } else {
                IpKind::Public
            }
        },
        IpAddress::V6(a) => {
            if a == 1 {
                IpKind::Loopback
            } else if a / 0x200_0000_0000_0000_0000_0000_0000_0000 == 0x7e {
                IpKind::Private
            } else if a / 0x40_0000_0000_0000_0000_0000_0000_0000 == 0x3fa {
                IpKind::LinkLocal
            } else if a / 0x100_0000_0000_0000_0000_0000_0000_0000 == 0xff {
                IpKind::Multicast
            } else if a == 0 {
                IpKind::Unspecified
            } else {
                IpKind::Public
            }
        },
    }
}

/// Dotted-decimal text of an IPv4 value.
pub open spec fn v4_text(ip: u32) -> Seq<char> {
    dec(octet(ip, 0)) + seq!['.'] + dec(octet(ip, 1)) + seq!['.'] + dec(octet(ip, 2)) + seq!['.']
        + dec(octet(ip, 3))
}

/// The `i`-th 16-bit group (0 = most significant) of an IPv6 value.
pub open spec fn group(ip: u128, i: int) -> nat
    recommends
        0 <= i < 8,
{
    ((ip as nat) / pow16(7 - i)) % 65536
}

/// 65536 to the power `k` (0 <= k <= 7).
pub open spec fn pow16(k: int) -> nat {
    if k <= 0 { 1 }
    else if k == 1 { 0x1_0000 }
    else if k == 2 { 0x1_0000_0000 }
    else if k == 3 { 0x1_0000_0000_0000 }
    else if k == 4 { 0x1_0000_0000_0000_0000 }
    else if k == 5 { 0x1_0000_0000_0000_0000_0000 }
    else if k == 6 { 0x1_0000_0000_0000_0000_0000_0000 }
    else { 0x1_0000_0000_0000_0000_0000_0000_0000 }
}

/// Number of consecutive zero groups starting at group `i`.
pub open spec fn zero_run(ip: u128, i: int) -> nat
    decreases 8 - i,
{
    if 0 <= i < 8 && group(ip, i) == 0 { 1 + zero_run(ip, i + 1) } else { 0 }
}

/// Group `i` starts the leftmost longest run of zero groups.
pub open spec fn is_best_run(ip: u128, i: int) -> bool {
    &&& 0 <= i < 8
    &&& forall|j: int| 0 <= j < 8 ==> #[trigger] zero_run(ip, j) <= zero_run(ip, i)
    &&& forall|j: int| 0 <= j < i ==> #[trigger] zero_run(ip, j) < zero_run(ip, i)
}

/// Lower-case hexadecimal groups `lo..hi`, separated by ':'.
pub open spec fn groups_text(ip: u128, lo: int, hi: int) -> Seq<char>
    decreases hi - lo,
{
    if hi <= lo {
        Seq::empty()
    } else if hi == lo + 1 {
        numeral(group(ip, lo), 16)
    } else {
        groups_text(ip, lo, hi - 1) + seq![':'] + numeral(group(ip, hi - 1), 16)
    }
}

/// The value is an IPv4-mapped address `::ffff:a.b.c.d`.
pub open spec fn v6_is_v4_mapped(ip: u128) -> bool {
    (ip as nat) / 0x1_0000_0000 == 0xffff
}

/// The text of an IPv6 value in the canonical style of RFC 5952, as `Display`
/// for `Ipv6Addr` writes it: an IPv4-mapped address as `::ffff:` and the dotted
/// IPv4 form; otherwise the groups in lower-case hexadecimal without leading
/// zeros, the leftmost longest run of two or more zero groups written as `::`.
pub open spec fn ipv6_display(ip: u128) -> Seq<char> {
    if v6_is_v4_mapped(ip) {
        seq![':', ':', 'f', 'f', 'f', 'f', ':'] + v4_text((ip as nat % 0x1_0000_0000) as u32)
    } else {
        let best = choose|i: int| is_best_run(ip, i);
        if zero_run(ip, best) > 1 {
            groups_text(ip, 0, best) + seq![':', ':'] + groups_text(ip, best + zero_run(ip, best) as int, 8)
        } else {
            groups_text(ip, 0, 8)
        }
    }
}

/// The text of an address, as `Display` for `IpAddr` writes it.
pub open spec fn ip_text(ip: IpAddress) -> Seq<char> {
    match ip {
        IpAddress::V4(a) => v4_text(a),
        IpAddress::V6(a) => ipv6_display(a),
    }
}

fn pow16_exec(k: usize) -> (r: u128)
    requires
        k <= 7,
    ensures
        r == pow16(k as int),
{
    if k == 0 { 1 }
    else if k == 1 { 0x1_0000 }
    else if k == 2 { 0x1_0000_0000 }
    else if k == 3 { 0x1_0000_0000_0000 }
    else if k == 4 { 0x1_0000_0000_0000_0000 }
    else if k == 5 { 0x1_0000_0000_0000_0000_0000 }
    else if k == 6 { 0x1_0000_0000_0000_0000_0000_0000 }
    else { 0x1_0000_0000_0000_0000_0000_0000_0000 }
}

/// The eight groups of an IPv6 value, most significant first.
pub fn groups_of(ip: u128) -> (g: Vec<u64>)
    ensures
        g@.len() == 8,
        forall|i: int| 0 <= i < 8 ==> g@[i] == group(ip, i),
{
    let mut g: Vec<u64> = Vec::new();
    let mut i: usize = 0;
    while i < 8
        invariant
            i <= 8,
            g@.len() == i,
            forall|j: int| 0 <= j < i ==> g@[j] == group(ip, j),
        decreases 8 - i,
    {
        let p = pow16_exec(7 - i);
        let v = (ip / p) % 65536;
        g.push(v as u64);
        i = i + 1;
    }
    g
}

proof fn lemma_zero_run_bound(ip: u128, k: int)
    requires
        0 <= k <= 8,
    ensures
        zero_run(ip, k) <= 8 - k,
    decreases 8 - k,
{
    if k < 8 {
        lemma_zero_run_bound(ip, k + 1);
    }
}

proof fn lemma_best_run_unique(ip: u128, i: int, j: int)
    requires
        is_best_run(ip, i),
        is_best_run(ip, j),
    ensures
        i == j,
{
    if i < j {
        assert(zero_run(ip, i) < zero_run(ip, j));
        assert(zero_run(ip, j) <= zero_run(ip, i));
    } else if j < i {
        assert(zero_run(ip, j) < zero_run(ip, i));
        assert(zero_run(ip, i) <= zero_run(ip, j));
    }
}

fn push_groups(s: &mut String, ip: u128, g: &Vec<u64>, lo: usize, hi: usize)
    requires
        g@.len() == 8,
        forall|i: int| 0 <= i < 8 ==> g@[i] == group(ip, i),
        lo <= hi <= 8,
    ensures
        final(s)@ == old(s)@ + groups_text(ip, lo as int, hi as int),
{
    let mut k: usize = lo;
    while k < hi
        invariant
            g@.len() == 8,
            forall|i: int| 0 <= i < 8 ==> g@[i] == group(ip, i),
            lo <= k <= hi <= 8,
            s@ == old(s)@ + groups_text(ip, lo as int, k as int),
        decreases hi - k,
    {
        let ghost before = s@;
        if k > lo {
            s.push(':');
        }
        push_numeral(s, g[k], 16);
        proof {
            if k > lo {
                assert(s@ =~= old(s)@ + groups_text(ip, lo as int, (k + 1) as int));
            } else {
                assert(groups_text(ip, lo as int, k as int) =~= Seq::<char>::empty());
                assert(s@ =~= old(s)@ + groups_text(ip, lo as int, (k + 1) as int));
            }
        }
        k = k + 1;
    }
}

/// Appends the RFC 5952 text of an IPv6 value to `s`.
pub fn push_ipv6(s: &mut String, ip: u128)
    ensures
        final(s)@ == old(s)@ + ipv6_display(ip),
{
    if ip / 0x1_0000_0000 == 0xffff {
        s.push(':');
        s.push(':');
        s.push('f');
        s.push('f');
        s.push('f');
        s.push('f');
        s.push(':');
        push_ipv4(s, (ip % 0x1_0000_0000) as u32);
        assert(final(s)@ =~= old(s)@ + ipv6_display(ip));
        return;
    }
    let g = groups_of(ip);
    // run[i] = number of consecutive zero groups starting at i
    let mut run: Vec<u64> = Vec::new();
    let mut t: usize = 0;
    while t < 9
        invariant
            t <= 9,
            run@.len() == t,
            forall|j: int| 0 <= j < t ==> run@[j] == 0,
        decreases 9 - t,
    {
        run.push(0);
        t = t + 1;
    }
    let mut i: usize = 8;
    assert(zero_run(ip, 8) == 0);
    while i > 0
        invariant
            i <= 8,
            run@.len() == 9,
            g@.len() == 8,
            forall|k: int| 0 <= k < 8 ==> g@[k] == group(ip, k),
            forall|k: int| i <= k <= 8 ==> run@[k] == zero_run(ip, k),
            forall|k: int| 0 <= k <= 8 ==> run@[k] <= 8 - k,
        decreases i,
    {
        i = i - 1;
        proof {
            lemma_zero_run_bound(ip, i as int + 1);
        }
        if g[i] == 0 {
            let v = run[i + 1] + 1;
            run.set(i, v);
        } else {
            run.set(i, 0);
        }
        assert(run@[i as int] == zero_run(ip, i as int));
    }
    let mut best: usize = 0;
    let mut k: usize = 1;
    while k < 8
        invariant
            1 <= k <= 8,
            best < k,
            run@.len() == 9,
            forall|j: int| 0 <= j <= 8 ==> run@[j] == zero_run(ip, j),
            forall|j: int| 0 <= j < k ==> zero_run(ip, j) <= zero_run(ip, best as int),
            forall|j: int| 0 <= j < best ==> zero_run(ip, j) < zero_run(ip, best as int),
        decreases 8 - k,
    {
        if run[k] > run[best] {
            best = k;
        }
        k = k + 1;
    }
    proof {
        assert(is_best_run(ip, best as int));
        let c = choose|i: int| is_best_run(ip, i);
        lemma_best_run_unique(ip, c, best as int);
    }
    proof {
        lemma_zero_run_bound(ip, best as int);
    }
    let len = run[best];
    if len > 1 {
        push_groups(s, ip, &g, 0, best);
        s.push(':');
        s.push(':');
        let ghost mid = s@;
        push_groups(s, ip, &g, best + len as usize, 8);
        assert(final(s)@ =~= old(s)@ + ipv6_display(ip));
    } else {
        push_groups(s, ip, &g, 0, 8);
    }
}

/// Appends the dotted-decimal text of an IPv4 value to `s`.
pub fn push_ipv4(s: &mut String, a: u32)
    ensures
        final(s)@ == old(s)@ + v4_text(a),
{
    let (o0, o1, o2, o3) = octets(a);
    push_dec(s, o0 as u64);
    s.push('.');
    push_dec(s, o1 as u64);
    s.push('.');
    push_dec(s, o2 as u64);
    s.push('.');
    push_dec(s, o3 as u64);
    assert(final(s)@ =~= old(s)@ + v4_text(a));
}

/// Appends the text of an address to `s`.
pub fn push_ip(s: &mut String, ip: IpAddress)
    ensures
        final(s)@ == old(s)@ + ip_text(ip),
{
    match ip {
        IpAddress::V4(a) => push_ipv4(s, a),
        IpAddress::V6(a) => push_ipv6(s, a),
    }
}

/// The text of an address as a new string.
pub fn ip_to_string(ip: IpAddress) -> (res: String)
    ensures
        res@ == ip_text(ip),
{
    let mut s = String::new();
    push_ip(&mut s, ip);
    assert(s@ =~= ip_text(ip));
    s
}

/// The address kinds by address range: 127.0.0.0/8 is loopback; 10.0.0.0/8,
/// 172.16.0.0/12 and 192.168.0.0/16 private; 169.254.0.0/16 link-local;
/// 224.0.0.0/4 multicast; 255.255.255.255 broadcast; 0.0.0.0 unspecified;
/// an address outside all special ranges (such as 8.8.8.8) public; and for
/// IPv6, ::1 loopback, :: unspecified, fc00::/7 private, fe80::/10
/// link-local and ff00::/8 multicast.
pub proof fn lemma_kind_ranges(a: u32, b: u128)
    ensures
        0x7f00_0000 <= a <= 0x7fff_ffff ==> ip_kind(IpAddress::V4(a)) == IpKind::Loopback,
        0x0a00_0000 <= a <= 0x0aff_ffff ==> ip_kind(IpAddress::V4(a)) == IpKind::Private,
        0xac10_0000 <= a <= 0xac1f_ffff ==> ip_kind(IpAddress::V4(a)) == IpKind::Private,
        0xc0a8_0000 <= a <= 0xc0a8_ffff ==> ip_kind(IpAddress::V4(a)) == IpKind::Private,
        0xa9fe_0000 <= a <= 0xa9fe_ffff ==> ip_kind(IpAddress::V4(a)) == IpKind::LinkLocal,
        0xe000_0000 <= a <= 0xefff_ffff ==> ip_kind(IpAddress::V4(a)) == IpKind::Multicast,
        a == 0xffff_ffff ==> ip_kind(IpAddress::V4(a)) == IpKind::Broadcast,
        a == 0 ==> ip_kind(IpAddress::V4(a)) == IpKind::Unspecified,
        ip_kind(IpAddress::V4(0x0808_0808)) == IpKind::Public,
        0xac00_0000 <= a < 0xac10_0000 ==> ip_kind(IpAddress::V4(a)) == IpKind::Public,
        0xac20_0000 <= a <= 0xacff_ffff ==> ip_kind(IpAddress::V4(a)) == IpKind::Public,
        b == 1 ==> ip_kind(IpAddress::V6(b)) == IpKind::Loopback,
        b == 0 ==> ip_kind(IpAddress::V6(b)) == IpKind::Unspecified,
        0xfc00_0000_0000_0000_0000_0000_0000_0000 <= b <= 0xfdff_ffff_ffff_ffff_ffff_ffff_ffff_ffff
            ==> ip_kind(IpAddress::V6(b)) == IpKind::Private,
        0xfe80_0000_0000_0000_0000_0000_0000_0000 <= b <= 0xfebf_ffff_ffff_ffff_ffff_ffff_ffff_ffff
            ==> ip_kind(IpAddress::V6(b)) == IpKind::LinkLocal,
        0xff00_0000_0000_0000_0000_0000_0000_0000 <= b ==> ip_kind(IpAddress::V6(b)) == IpKind::Multicast,
{
}
} // verus!
