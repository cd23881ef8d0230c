//! Small formatting and classification helpers used by the views.
use vstd::prelude::*;
use vstd::utf8::{decode_utf8, valid_utf8};
use crate::net::{octet, v4_text};
use crate::scan::{parse_unsigned, parse_unsigned_range};
use crate::text::{all_digits, chars_of, dec, digit_char, has_prefix, hex_char, push_dec, push_numeral, push_str, str_starts_with};

verus! {

/// Two lower-case hexadecimal digits of a byte.
pub open spec fn hex2(b: u8) -> Seq<char> {
    seq![hex_char((b / 16) as nat), hex_char((b % 16) as nat)]
}

/// `Debug` text of a list of bytes: `[a, b, c]`.
pub open spec fn debug_bytes(s: Seq<u8>) -> Seq<char>
    decreases s.len(),
{
    seq!['['] + debug_items(s) + seq![']']
}

/// The bytes in decimal, separated by ", ".
pub open spec fn debug_items(s: Seq<u8>) -> Seq<char>
    decreases s.len(),
{
    if s.len() == 0 {
        Seq::empty()
    } else if s.len() == 1 {
        dec(s[0] as nat)
    } else {
        debug_items(s.drop_last()) + seq![',', ' '] + dec(s.last() as nat)
    }
}

/// The text of a socket address: dotted decimal of the first four bytes for
/// family 2 (IPv4); eight colon-separated groups of four hexadecimal digits for
/// family 10 (IPv6); the bytes as a list otherwise.
pub open spec fn addr_text(family: u16, a: Seq<u8>) -> Seq<char> {
    if family == 2 {
        dec(a[0] as nat) + seq!['.'] + dec(a[1] as nat) + seq!['.'] + dec(a[2] as nat) + seq!['.'] + dec(a[3] as nat)
    } else if family == 10 {
        hex2(a[0]) + hex2(a[1]) + seq![':'] + hex2(a[2]) + hex2(a[3]) + seq![':'] + hex2(a[4]) + hex2(a[5])
            + seq![':'] + hex2(a[6]) + hex2(a[7]) + seq![':'] + hex2(a[8]) + hex2(a[9]) + seq![':']
            + hex2(a[10]) + hex2(a[11]) + seq![':'] + hex2(a[12]) + hex2(a[13]) + seq![':']
            + hex2(a[14]) + hex2(a[15])
    } else {
        debug_bytes(a)
    }
}

fn push_hex2(s: &mut String, b: u8)
    ensures
        final(s)@ == old(s)@ + hex2(b),
{
    push_numeral(s, (b / 16) as u64, 16);
    push_numeral(s, (b % 16) as u64, 16);
    assert(final(s)@ =~= old(s)@ + hex2(b));
}

/// Formats a raw socket address of the given family.
pub fn parse_addr(family: u16, addr: &[u8; 16]) -> (res: String)
    ensures
        res@ == addr_text(family, addr@),
{
    let mut s = String::new();
    if family == 2 {
        push_dec(&mut s, addr[0] as u64);
        s.push('.');
        push_dec(&mut s, addr[1] as u64);
        s.push('.');
        push_dec(&mut s, addr[2] as u64);
        s.push('.');
        push_dec(&mut s, addr[3] as u64);
    } else if family == 10 {
        let mut i: usize = 0;
        while i < 16
            invariant
                i <= 16,
                i % 2 == 0,
                s@ == group_hex(addr@, i as int),
            decreases 16 - i,
        {
            if i > 0 {
                s.push(':');
            }
            push_hex2(&mut s, addr[i]);
            push_hex2(&mut s, addr[i + 1]);
            assert(s@ =~= group_hex(addr@, i + 2));
            i = i + 2;
        }
        proof {
            reveal_with_fuel(group_hex, 9);
            assert(s@ =~= addr_text(family, addr@));
        }
        return s;
    } else {
        s.push('[');
        let mut i: usize = 0;
        while i < 16
            invariant
                i <= 16,
                s@ == seq!['['] + debug_items(addr@.take(i as int)),
            decreases 16 - i,
        {
            if i > 0 {
                s.push(',');
                s.push(' ');
            }
            push_dec(&mut s, addr[i] as u64);
            assert(addr@.take(i + 1).drop_last() =~= addr@.take(i as int));
            assert(s@ =~= seq!['['] + debug_items(addr@.take(i + 1)));
            i = i + 1;
        }
        s.push(']');
        assert(addr@.take(16) =~= addr@);
    }
    assert(s@ =~= addr_text(family, addr@));
    s
}

/// The colon-separated hexadecimal groups of the first `n` bytes (n even).
pub open spec fn group_hex(a: Seq<u8>, n: int) -> Seq<char>
    decreases n,
{
    if n <= 0 {
        Seq::empty()
    } else if n <= 2 {
        hex2(a[0]) + hex2(a[1])
    } else {
        group_hex(a, n - 2) + seq![':'] + hex2(a[n - 2]) + hex2(a[n - 1])
    }
}

/// The first four bytes of an IPv4 address (family 2); `None` for other families.
pub fn extract_ipv4_bytes(family: u16, addr: &[u8; 16]) -> (res: Option<&[u8]>)
    ensures
        family == 2 ==> (res matches Some(b) && b@ == addr@.take(4)),
        family != 2 ==> res is None,
{
    if family == 2 {
        let b = vstd::slice::slice_subrange(addr.as_slice(), 0, 4);
        assert(b@ =~= addr@.take(4));
        Some(b)
    } else {
        None
    }
}

/// The text `String::from_utf8_lossy` makes of some bytes: the decoded text,
/// each invalid sequence replaced by U+FFFD.
pub uninterp spec fn utf8_lossy(bytes: Seq<u8>) -> Seq<char>;

/// Decodes bytes with `String::from_utf8_lossy`; the result is named
/// `utf8_lossy` of the bytes. Stated of it: valid UTF-8 is decoded unchanged,
/// as its documentation says, and since only invalid sequences are replaced
/// (by U+FFFD), a NUL character comes only from a zero byte.
#[verifier::external_body]
fn lossy_string(bytes: &[u8]) -> (res: String)
    ensures
        res@ == utf8_lossy(bytes@),
        valid_utf8(bytes@) ==> res@ == decode_utf8(bytes@),
        !bytes@.contains(0u8) ==> !res@.contains('\0'),
{
    String::from_utf8_lossy(bytes).to_string()
}

/// Position of the first zero byte, or the length when there is none.
pub open spec fn nul_position(s: Seq<u8>) -> int
    decreases s.len(),
{
    if s.len() == 0 || s[0] == 0 { 0 } else { 1 + nul_position(s.drop_first()) }
}

/// The bytes before the first zero hold no zero.
proof fn lemma_no_nul_before(s: Seq<u8>)
    ensures
        0 <= nul_position(s) <= s.len(),
        !s.take(nul_position(s)).contains(0u8),
    decreases s.len(),
{
    if s.len() > 0 && s[0] != 0 {
        lemma_no_nul_before(s.drop_first());
        let t = s.take(nul_position(s));
        let u = s.drop_first().take(nul_position(s.drop_first()));
        assert(t =~= seq![s[0]] + u);
        if t.contains(0u8) {
            let k = choose|k: int| 0 <= k < t.len() && t[k] == 0u8;
            assert(u[k - 1] == 0u8);
        }
    } else {
        assert(s.take(nul_position(s)) =~= Seq::<u8>::empty());
    }
}

/// The text of a NUL-terminated byte buffer: the bytes before the first zero,
/// decoded with replacement of invalid sequences (valid UTF-8 unchanged); it
/// holds no NUL.
pub fn bytes_to_str(raw: &[u8; 256]) -> (res: String)
    ensures
        res@ == utf8_lossy(raw@.take(nul_position(raw@))),
        valid_utf8(raw@.take(nul_position(raw@))) ==> res@ == decode_utf8(raw@.take(nul_position(raw@))),
        !res@.contains('\0'),
{
    proof {
        lemma_no_nul_before(raw@);
    }
    let mut end: usize = 0;
    assert(raw@.skip(0) =~= raw@);
    while end < 256 && raw[end] != 0
        invariant
            end <= 256,
            nul_position(raw@) == end + nul_position(raw@.skip(end as int)),
        decreases 256 - end,
    {
        assert(raw@.skip(end as int).drop_first() =~= raw@.skip(end + 1));
        end = end + 1;
    }
    proof {
        if end < 256 {
            assert(raw@.skip(end as int)[0] == 0);
        } else {
            assert(raw@.skip(256) =~= Seq::<u8>::empty());
        }
    }
    let part = vstd::slice::slice_subrange(raw.as_slice(), 0, end);
    assert(part@ =~= raw@.take(end as int));
    lossy_string(part)
}

/// The access-mode label of raw open flags: "W" write-only, "RW" read-write,
/// "R" otherwise.
pub open spec fn op_label(flags: i32) -> Seq<char> {
    let mode = (flags as u32) % 4;
    if mode == 1 { "W"@ } else if mode == 2 { "RW"@ } else { "R"@ }
}

/// The access-mode label of raw open flags.
pub fn flags_to_op(flags: i32) -> (res: &'static str)
    ensures
        res@ == op_label(flags),
{
    let bits = flags as u32;
    let mode = bits & 3;
    assert(bits & 3 == bits % 4) by (bit_vector);
    if mode == 1 {
        "W"
    } else if mode == 2 {
        "RW"
    } else {
        "R"
    }
}

/// The path lies under one of the locations shown as sensitive.
pub open spec fn sensitive(path: Seq<char>) -> bool {
    ||| has_prefix(path, "/etc/passwd"@)
    ||| has_prefix(path, "/etc/shadow"@)
    ||| has_prefix(path, "/etc/sudoers"@)
    ||| has_prefix(path, "/etc/crontab"@)
    ||| has_prefix(path, "/etc/cron"@)
    ||| has_prefix(path, "/root/"@)
    ||| has_prefix(path, "/proc/"@)
    ||| has_prefix(path, "/sys/"@)
    ||| has_prefix(path, "/.ssh/"@)
}

/// Whether a path starts with one of the locations shown as sensitive.
pub fn is_sensitive_path(path: &str) -> (res: bool)
    ensures
        res == sensitive(path@),
{
    str_starts_with(path, "/etc/passwd") || str_starts_with(path, "/etc/shadow")
        || str_starts_with(path, "/etc/sudoers") || str_starts_with(path, "/etc/crontab")
        || str_starts_with(path, "/etc/cron") || str_starts_with(path, "/root/")
        || str_starts_with(path, "/proc/") || str_starts_with(path, "/sys/")
        || str_starts_with(path, "/.ssh/")
}

/// The path lies under one of the locations only root may read.
pub open spec fn root_only(path: Seq<char>) -> bool {
    ||| has_prefix(path, "/etc/shadow"@)
    ||| has_prefix(path, "/etc/sudoers"@)
    ||| has_prefix(path, "/root/"@)
    ||| has_prefix(path, "/boot/"@)
    ||| has_prefix(path, "/sys/kernel/security/"@)
    ||| has_prefix(path, "/proc/kcore"@)
}

/// Whether a path starts with one of the locations only root may read.
pub fn is_root_only_path(filename: &str) -> (res: bool)
    ensures
        res == root_only(filename@),
{
    str_starts_with(filename, "/etc/shadow") || str_starts_with(filename, "/etc/sudoers")
        || str_starts_with(filename, "/root/") || str_starts_with(filename, "/boot/")
        || str_starts_with(filename, "/sys/kernel/security/") || str_starts_with(filename, "/proc/kcore")
}

/// Position of the first '.', or the length when there is none.
pub open spec fn dot_position(s: Seq<char>) -> int
    decreases s.len(),
{
    if s.len() == 0 || s[0] == '.' { 0 } else { 1 + dot_position(s.drop_first()) }
}

/// `hours:minutes:seconds` of a number of seconds, without padding.
pub open spec fn hms_text(secs: nat) -> Seq<char> {
    dec(secs / 3600) + seq![':'] + dec((secs % 3600) / 60) + seq![':'] + dec(secs % 60)
}

/// The uptime text of the contents of `/proc/uptime`: the whole seconds
/// before the first '.', as `hours:minutes:seconds`; `None` when they are not
/// an unsigned 64-bit number.
pub fn uptime_text(contents: &str) -> (res: Option<String>)
    ensures
        match parse_unsigned(contents@.take(dot_position(contents@)), u64::MAX as int) {
            Some(v) => res matches Some(t) && t@ == hms_text(v as nat),
            None => res is None,
        },
{
    let cs = chars_of(contents);
    let n = cs.len();
    let mut end: usize = 0;
    assert(cs@.skip(0) =~= cs@);
    while end < n && cs[end] != '.'
        invariant
            n == cs@.len(),
            cs@ == contents@,
            end <= n,
            dot_position(cs@) == end + dot_position(cs@.skip(end as int)),
        decreases n - end,
    {
        assert(cs@.skip(end as int).drop_first() =~= cs@.skip(end + 1));
        end = end + 1;
    }
    proof {
        if end < n {
            assert(cs@.skip(end as int)[0] == '.');
        } else {
            assert(cs@.skip(end as int) =~= Seq::<char>::empty());
        }
    }
    assert(cs@.subrange(0, end as int) =~= contents@.take(dot_position(contents@)));
    match parse_unsigned_range(&cs, 0, end, u64::MAX) {
        Some(secs) => {
            let mut s = String::new();
            push_dec(&mut s, secs / 3600);
            s.push(':');
            push_dec(&mut s, secs % 3600 / 60);
            s.push(':');
            push_dec(&mut s, secs % 60);
            assert(s@ =~= hms_text(secs as nat));
            Some(s)
        },
        None => None,
    }
}

/// Wall-clock seconds and nanoseconds of a monotonic timestamp, given the
/// offset between the two clocks.
pub fn wallclock_parts(ns: u64, offset_ns: u64) -> (res: (i64, u32))
    requires
        ns + offset_ns <= u64::MAX,
    ensures
        res.0 == (ns + offset_ns) / 1_000_000_000,
        res.1 == (ns + offset_ns) % 1_000_000_000,
{
    let wall = offset_ns + ns;
    ((wall / 1_000_000_000) as i64, (wall % 1_000_000_000) as u32)
}

/// The three digits of the milliseconds in a fraction of a second of
/// `nanos` nanoseconds.
pub open spec fn millis_text(nanos: nat) -> Seq<char> {
    let m = nanos / 1_000_000 % 1000;
    seq![digit_char(m / 100), digit_char(m / 10 % 10), digit_char(m % 10)]
}

/// The shape of a clock face for a time whose fraction of a second is `nanos`
/// nanoseconds: two-digit hours, minutes and seconds separated by ':', a '.'
/// and the milliseconds; in 12-hour form followed by " AM" or " PM".
pub open spec fn clock_face(t: Seq<char>, use_24hr: bool, nanos: nat) -> bool {
    &&& t.len() == (if use_24hr { 12int } else { 15int })
    &&& all_digits(t.subrange(0, 2)) && t[2] == ':'
    &&& all_digits(t.subrange(3, 5)) && t[5] == ':'
    &&& all_digits(t.subrange(6, 8)) && t[8] == '.'
    &&& t.subrange(9, 12) == millis_text(nanos)
    &&& !use_24hr ==> t[12] == ' ' && (t.subrange(13, 15) == seq!['A', 'M'] || t.subrange(13, 15) == seq!['P', 'M'])
}

/// Formats a wall-clock time (`chrono::DateTime::from_timestamp`, moved to
/// `chrono::Local`, then `format`) in the machine's time zone. Which hour,
/// minute and second it shows depends on that time zone and is not stated;
/// the shape of the text and the milliseconds (which no whole-second zone
/// offset changes) are. `from_timestamp` accepts every time in the range that
/// `requires` admits, and `requires` admits only the two clock patterns
/// (`format` fails on an unknown specifier).
#[verifier::external_body]
fn local_time_text(secs: i64, nanos: u32, pattern: &str) -> (res: String)
    requires
        0 <= secs <= 8_000_000_000_000,
        nanos < 1_000_000_000,
        pattern@ == "%H:%M:%S%.3f"@ || pattern@ == "%I:%M:%S%.3f %p"@,
    ensures
        pattern@ == "%H:%M:%S%.3f"@ ==> clock_face(res@, true, nanos as nat),
        pattern@ == "%I:%M:%S%.3f %p"@ ==> clock_face(res@, false, nanos as nat),
{
    let dt = chrono::DateTime::from_timestamp(secs, nanos).unwrap().with_timezone(&chrono::Local);
    dt.format(pattern).to_string()
}

/// The chrono pattern of a clock face: `%H:%M:%S%.3f` in 24-hour form,
/// `%I:%M:%S%.3f %p` otherwise.
pub fn clock_pattern(use_24hr: bool) -> (res: &'static str)
    ensures
        use_24hr ==> res@ == "%H:%M:%S%.3f"@,
        !use_24hr ==> res@ == "%I:%M:%S%.3f %p"@,
{
    if use_24hr { "%H:%M:%S%.3f" } else { "%I:%M:%S%.3f %p" }
}

/// The wall-clock time of a monotonic timestamp, in the local time zone, as a
/// clock face whose milliseconds are those of the timestamp plus the offset.
pub fn format_timestamp_ns(ns: u64, use_24hr: bool, offset_ns: u64) -> (res: String)
    requires
        ns + offset_ns <= u64::MAX,
    ensures
        clock_face(res@, use_24hr, ((ns + offset_ns) % 1_000_000_000) as nat),
{
    let (secs, nanos) = wallclock_parts(ns, offset_ns);
    local_time_text(secs, nanos, clock_pattern(use_24hr))
}

/// An IPv4 socket address reads as the dotted text of the address whose
/// octets are its first four bytes, most significant first (the same text
/// the events show for that address).
pub proof fn lemma_ipv4_bytes_text(a: Seq<u8>)
    requires
        a.len() >= 4,
    ensures
        addr_text(2, a) == v4_text((a[0] as nat * 16777216 + a[1] as nat * 65536 + a[2] as nat * 256 + a[3] as nat) as u32),
{
    let v: nat = a[0] as nat * 16777216 + a[1] as nat * 65536 + a[2] as nat * 256 + a[3] as nat;
    let (b0, b1, b2, b3) = (a[0] as nat, a[1] as nat, a[2] as nat, a[3] as nat);
    assert(v < 0x1_0000_0000);
    let w = v as u32;
    assert(w as nat == v);
    assert(v / 16777216 == b0 && (v / 65536) % 256 == b1 && (v / 256) % 256 == b2 && v % 256 == b3) by (nonlinear_arith)
        requires
            v == b0 * 16777216 + b1 * 65536 + b2 * 256 + b3,
            b0 < 256, b1 < 256, b2 < 256, b3 < 256,
    ;
    assert(octet(w, 0) == b0 && octet(w, 1) == b1 && octet(w, 2) == b2 && octet(w, 3) == b3);
}

/// The sensitive and root-only locations are prefixes: a path inside one is
/// in it however it goes on; and the root-only locations `/etc/shadow`,
/// `/etc/sudoers` and `/root/` are also sensitive.
pub proof fn lemma_locations_are_prefixes(p: Seq<char>, rest: Seq<char>)
    ensures
        sensitive(p) ==> sensitive(p + rest),
        root_only(p) ==> root_only(p + rest),
        has_prefix(p, "/etc/shadow"@) || has_prefix(p, "/etc/sudoers"@) || has_prefix(p, "/root/"@)
            ==> sensitive(p) && root_only(p),
{
    assert forall|q: Seq<char>| #[trigger] has_prefix(p, q) implies has_prefix(p + rest, q) by {
        assert((p + rest).take(q.len() as int) =~= p.take(q.len() as int));
    }
}
} // verus!
