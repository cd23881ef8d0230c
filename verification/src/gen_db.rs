//! The IP reputation database: reading the IPsum list and looking addresses up.
use vstd::prelude::*;
use vstd::multiset::Multiset;
use crate::scan::{
    after_first_word, digits_value, first_word, is_digit, lemma_dec_value, line_end, line_len, parse_unsigned,
    parse_unsigned_range, skip_ws_range, unsigned_digits, word_end, skip_ws, word_len,
};
use crate::text::{chars_of, dec, digit_char, hex_char, is_ws, numeral};

verus! {

/// A listed IPv4 address and the number of blacklists naming it.
#[derive(Clone, Copy, Debug, PartialEq, Eq, Structural)]
pub struct EntryV4 {
    pub ip: u32,
    pub score: u8,
}

/// A listed IPv6 address and the number of blacklists naming it.
#[derive(Clone, Copy, Debug, PartialEq, Eq, Structural)]
pub struct EntryV6 {
    pub ip: u128,
    pub score: u8,
}

/// The reputation database: the listed addresses of each family.
#[derive(Clone, Debug, PartialEq)]
pub struct IpsumDb {
    pub v4: Vec<EntryV4>,
    pub v6: Vec<EntryV6>,
}

/// One usable line of the IPsum list: its address text and its score.
#[derive(Clone, Debug, PartialEq)]
pub struct IpsumRecord {
    pub ip: String,
    pub score: u8,
}

/// The record a line gives: none for a comment line (starting with '#'),
/// none unless the second word is a number from 0 to 255; otherwise the
/// first word and that number.
pub open spec fn line_record(line: Seq<char>) -> Seq<(Seq<char>, u8)> {
    if line.len() > 0 && line[0] == '#' {
        Seq::empty()
    } else if first_word(line).len() > 0 && first_word(after_first_word(line)).len() > 0
        && parse_unsigned(first_word(after_first_word(line)), 255) is Some {
        seq![(first_word(line), parse_unsigned(first_word(after_first_word(line)), 255)->0 as u8)]
    } else {
        Seq::empty()
    }
}

/// The records of all lines of a text, in order.
pub open spec fn text_records(s: Seq<char>) -> Seq<(Seq<char>, u8)>
    decreases s.len(),
{
    if s.len() == 0 {
        Seq::empty()
    } else if line_len(s) < s.len() {
        line_record(s.take(line_len(s) as int)) + text_records(s.skip(line_len(s) + 1int))
    } else {
        line_record(s)
    }
}

/// The records as text and score.
pub open spec fn records_view(v: Seq<IpsumRecord>) -> Seq<(Seq<char>, u8)> {
    v.map_values(|r: IpsumRecord| (r.ip@, r.score))
}

fn string_of(cs: &Vec<char>, lo: usize, hi: usize) -> (res: String)
    requires
        lo <= hi <= cs@.len(),
    ensures
        res@ == cs@.subrange(lo as int, hi as int),
{
    let mut s = String::new();
    let mut k = lo;
    while k < hi
        invariant
            lo <= k <= hi <= cs@.len(),
            s@ == cs@.subrange(lo as int, k as int),
        decreases hi - k,
    {
        s.push(cs[k]);
        assert(s@ =~= cs@.subrange(lo as int, k + 1));
        k = k + 1;
    }
    s
}

fn record_of_line(cs: &Vec<char>, lo: usize, hi: usize) -> (res: Option<IpsumRecord>)
    requires
        lo <= hi <= cs@.len(),
    ensures
        match res {
            Some(r) => line_record(cs@.subrange(lo as int, hi as int)) == seq![(r.ip@, r.score)],
            None => line_record(cs@.subrange(lo as int, hi as int)) == Seq::<(Seq<char>, u8)>::empty(),
        },
{
    let ghost line = cs@.subrange(lo as int, hi as int);
    if lo < hi && cs[lo] == '#' {
        return None;
    }
    let a = skip_ws_range(cs, lo, hi);
    let b = word_end(cs, a, hi);
    let c = skip_ws_range(cs, b, hi);
    let d = word_end(cs, c, hi);
    proof {
        assert(skip_ws(line) == cs@.subrange(a as int, hi as int));
        assert(first_word(line) =~= cs@.subrange(a as int, b as int));
        assert(after_first_word(line) =~= cs@.subrange(b as int, hi as int));
        assert(skip_ws(after_first_word(line)) == cs@.subrange(c as int, hi as int));
        assert(first_word(after_first_word(line)) =~= cs@.subrange(c as int, d as int));
    }
    if a < b && c < d {
        match parse_unsigned_range(cs, c, d, 255) {
            Some(v) => {
                let ip = string_of(cs, a, b);
                Some(IpsumRecord { ip, score: v as u8 })
            },
            None => None,
        }
    } else {
        None
    }
}

/// The usable lines of an IPsum list, in order: for each line that is not a
/// comment and whose second word is a number from 0 to 255, its first word
/// and that number.
pub fn ipsum_records(text: &str) -> (res: Vec<IpsumRecord>)
    ensures
        records_view(res@) == text_records(text@),
{
    let cs = chars_of(text);
    let n = cs.len();
    let mut out: Vec<IpsumRecord> = Vec::new();
    let mut pos: usize = 0;
    assert(cs@.subrange(0, n as int) =~= text@);
    while pos < n
        invariant
            n == cs@.len(),
            cs@ == text@,
            pos <= n,
            records_view(out@) + text_records(cs@.subrange(pos as int, n as int)) == text_records(text@),
        decreases n - pos,
    {
        let ghost rest = cs@.subrange(pos as int, n as int);
        let le = line_end(&cs, pos);
        let r = record_of_line(&cs, pos, le);
        let ghost old_out = out@;
        match r {
            Some(rec) => {
                out.push(rec);
            },
            None => {},
        }
        proof {
            assert(rest.take(line_len(rest) as int) =~= cs@.subrange(pos as int, le as int));
            assert(records_view(out@) =~= records_view(old_out) + line_record(cs@.subrange(pos as int, le as int)));
        }
        if le < n {
            assert(rest.skip(line_len(rest) + 1int) =~= cs@.subrange(le + 1, n as int));
            pos = le + 1;
        } else {
            assert(rest =~= cs@.subrange(pos as int, le as int));
            pos = n;
            assert(cs@.subrange(pos as int, n as int) =~= Seq::<char>::empty());
        }
        assert(records_view(out@) + text_records(cs@.subrange(pos as int, n as int)) =~= text_records(text@));
    }
    assert(records_view(out@) =~= records_view(out@) + text_records(cs@.subrange(pos as int, n as int)));
    out
}

/// The IPv4 entries are in ascending order of address.
pub open spec fn sorted_v4(v: Seq<EntryV4>) -> bool {
    forall|i: int, j: int| 0 <= i <= j < v.len() ==> v[i].ip <= v[j].ip
}

/// The IPv6 entries are in ascending order of address.
pub open spec fn sorted_v6(v: Seq<EntryV6>) -> bool {
    forall|i: int, j: int| 0 <= i <= j < v.len() ==> v[i].ip <= v[j].ip
}

/// Sorts IPv4 entries by address with `slice::sort_unstable_by_key`, which
/// leaves the same entries in ascending order of the key (which of two entries
/// with equal addresses comes first is not stated).
#[verifier::external_body]
fn sort_entries_v4(v: &mut Vec<EntryV4>)
    ensures
        final(v)@.to_multiset() == old(v)@.to_multiset(),
        sorted_v4(final(v)@),
{
    v.sort_unstable_by_key(|e| e.ip);
}

/// Sorts IPv6 entries by address with `slice::sort_unstable_by_key`, which
/// leaves the same entries in ascending order of the key (which of two entries
/// with equal addresses comes first is not stated).
#[verifier::external_body]
fn sort_entries_v6(v: &mut Vec<EntryV6>)
    ensures
        final(v)@.to_multiset() == old(v)@.to_multiset(),
        sorted_v6(final(v)@),
{
    v.sort_unstable_by_key(|e| e.ip);
}

impl IpsumDb {
    /// The database of the given entries, each family sorted by address.
    pub fn from_entries(v4: Vec<EntryV4>, v6: Vec<EntryV6>) -> (db: IpsumDb)
        ensures
            db.v4@.to_multiset() == v4@.to_multiset(),
            db.v6@.to_multiset() == v6@.to_multiset(),
            sorted_v4(db.v4@),
            sorted_v6(db.v6@),
    {
        let mut a = v4;
        let mut b = v6;
        sort_entries_v4(&mut a);
        sort_entries_v6(&mut b);
        IpsumDb { v4: a, v6: b }
    }

    /// The database is ordered as the lookups need.
    pub open spec fn well_formed(&self) -> bool {
        sorted_v4(self.v4@) && sorted_v6(self.v6@)
    }
}

/// Position that the binary search over `v[lo..hi]` reports for `key`.
pub open spec fn search_v4(v: Seq<EntryV4>, key: u32, lo: int, hi: int) -> Option<int>
    decreases hi - lo,
{
    if lo >= hi || lo < 0 || hi > v.len() {
        None
    } else {
        let mid = lo + (hi - lo) / 2;
        if v[mid].ip == key {
            Some(mid)
        } else if v[mid].ip < key {
            search_v4(v, key, mid + 1, hi)
        } else {
            search_v4(v, key, lo, mid)
        }
    }
}

/// Position that the binary search over `v[lo..hi]` reports for `key`.
pub open spec fn search_v6(v: Seq<EntryV6>, key: u128, lo: int, hi: int) -> Option<int>
    decreases hi - lo,
{
    if lo >= hi || lo < 0 || hi > v.len() {
        None
    } else {
        let mid = lo + (hi - lo) / 2;
        if v[mid].ip == key {
            Some(mid)
        } else if v[mid].ip < key {
            search_v6(v, key, mid + 1, hi)
        } else {
            search_v6(v, key, lo, mid)
        }
    }
}

/// Binary search for an IPv4 address: the position of an entry with that
/// address, or `None`. On entries sorted by address, `None` means that no
/// entry has it.
pub fn find_v4(v: &Vec<EntryV4>, key: u32) -> (res: Option<usize>)
    ensures
        res matches Some(i) ==> i < v@.len() && v@[i as int].ip == key,
        match res {
            Some(i) => search_v4(v@, key, 0, v@.len() as int) == Some(i as int),
            None => search_v4(v@, key, 0, v@.len() as int) is None,
        },
        res is None && sorted_v4(v@) ==> forall|i: int| 0 <= i < v@.len() ==> v@[i].ip != key,
{
    let mut lo: usize = 0;
    let mut hi: usize = v.len();
    while lo < hi
        invariant
            lo <= hi <= v@.len(),
            search_v4(v@, key, lo as int, hi as int) == search_v4(v@, key, 0, v@.len() as int),
            sorted_v4(v@) ==> forall|i: int| 0 <= i < lo ==> v@[i].ip < key,
            sorted_v4(v@) ==> forall|i: int| hi <= i < v@.len() ==> v@[i].ip > key,
        decreases hi - lo,
    {
        let mid = lo + (hi - lo) / 2;
        let m = v[mid].ip;
        if m == key {
            return Some(mid);
        } else if m < key {
            lo = mid + 1;
        } else {
            hi = mid;
        }
    }
    None
}

/// Binary search for an IPv6 address: the position of an entry with that
/// address, or `None`. On entries sorted by address, `None` means that no
/// entry has it.
pub fn find_v6(v: &Vec<EntryV6>, key: u128) -> (res: Option<usize>)
    ensures
        res matches Some(i) ==> i < v@.len() && v@[i as int].ip == key,
        match res {
            Some(i) => search_v6(v@, key, 0, v@.len() as int) == Some(i as int),
            None => search_v6(v@, key, 0, v@.len() as int) is None,
        },
        res is None && sorted_v6(v@) ==> forall|i: int| 0 <= i < v@.len() ==> v@[i].ip != key,
{
    let mut lo: usize = 0;
    let mut hi: usize = v.len();
    while lo < hi
        invariant
            lo <= hi <= v@.len(),
            search_v6(v@, key, lo as int, hi as int) == search_v6(v@, key, 0, v@.len() as int),
            sorted_v6(v@) ==> forall|i: int| 0 <= i < lo ==> v@[i].ip < key,
            sorted_v6(v@) ==> forall|i: int| hi <= i < v@.len() ==> v@[i].ip > key,
        decreases hi - lo,
    {
        let mid = lo + (hi - lo) / 2;
        let m = v[mid].ip;
        if m == key {
            return Some(mid);
        } else if m < key {
            lo = mid + 1;
        } else {
            hi = mid;
        }
    }
    None
}


/// On entries sorted by address, the binary search over `v[lo..hi]` finds an
/// entry with the address exactly when one of them has it.
pub proof fn lemma_search_v4_complete(v: Seq<EntryV4>, key: u32, lo: int, hi: int)
    requires
        sorted_v4(v),
        0 <= lo <= hi <= v.len(),
    ensures
        search_v4(v, key, lo, hi) matches Some(i) ==> lo <= i < hi && v[i].ip == key,
        search_v4(v, key, lo, hi) is None <==> forall|i: int| lo <= i < hi ==> v[i].ip != key,
    decreases hi - lo,
{
    if lo < hi {
        let mid = lo + (hi - lo) / 2;
        if v[mid].ip < key {
            lemma_search_v4_complete(v, key, mid + 1, hi);
        } else if v[mid].ip > key {
            lemma_search_v4_complete(v, key, lo, mid);
        }
    }
}

/// On entries sorted by address, the binary search over `v[lo..hi]` finds an
/// entry with the address exactly when one of them has it.
pub proof fn lemma_search_v6_complete(v: Seq<EntryV6>, key: u128, lo: int, hi: int)
    requires
        sorted_v6(v),
        0 <= lo <= hi <= v.len(),
    ensures
        search_v6(v, key, lo, hi) matches Some(i) ==> lo <= i < hi && v[i].ip == key,
        search_v6(v, key, lo, hi) is None <==> forall|i: int| lo <= i < hi ==> v[i].ip != key,
    decreases hi - lo,
{
    if lo < hi {
        let mid = lo + (hi - lo) / 2;
        if v[mid].ip < key {
            lemma_search_v6_complete(v, key, mid + 1, hi);
        } else if v[mid].ip > key {
            lemma_search_v6_complete(v, key, lo, mid);
        }
    }
}
proof fn lemma_dec_digits(n: nat)
    ensures
        dec(n).len() > 0,
        forall|i: int| 0 <= i < dec(n).len() ==> is_digit(#[trigger] dec(n)[i]),
    decreases n,
{
    if n >= 10 {
        lemma_dec_digits(n / 10);
        let s = dec(n);
        assert(s == numeral(n / 10, 10).push(hex_char(n % 10)));
        assert forall|i: int| 0 <= i < s.len() implies is_digit(#[trigger] s[i]) by {
            if i < s.len() - 1 {
                assert(s[i] == dec(n / 10)[i]);
            } else {
                assert(is_digit(digit_char(n % 10)));
            }
        }
    } else {
        assert(dec(n) == seq![digit_char(n)]);
        assert(is_digit(digit_char(n)));
    }
}

proof fn lemma_word_len_of(w: Seq<char>, r: Seq<char>)
    requires
        forall|i: int| 0 <= i < w.len() ==> !is_ws(#[trigger] w[i]),
        r.len() == 0 || is_ws(r[0]),
    ensures
        word_len(w + r) == w.len(),
    decreases w.len(),
{
    if w.len() == 0 {
        assert(w + r =~= r);
    } else {
        let t = w.drop_first();
        assert forall|i: int| 0 <= i < t.len() implies !is_ws(#[trigger] t[i]) by {
            assert(t[i] == w[i + 1]);
        }
        lemma_word_len_of(t, r);
        assert((w + r).drop_first() =~= t + r);
        assert((w + r)[0] == w[0]);
    }
}

/// How a line of an IPsum list is read: a comment line (starting with '#')
/// gives no record; a line holding an address, a tab and a count of lists
/// gives that address with that count.
pub proof fn lemma_ipsum_line(ip: Seq<char>, n: u8, rest: Seq<char>)
    requires
        ip.len() > 0,
        ip[0] != '#',
        forall|i: int| 0 <= i < ip.len() ==> !is_ws(#[trigger] ip[i]),
    ensures
        line_record(seq!['#'] + rest).len() == 0,
        line_record(ip + seq!['\t'] + dec(n as nat)) == seq![(ip, n)],
{
    assert((seq!['#'] + rest)[0] == '#');
    let d = dec(n as nat);
    lemma_dec_digits(n as nat);
    lemma_dec_value(n as nat);
    let line = ip + seq!['\t'] + d;
    let tail = seq!['\t'] + d;
    assert(line =~= ip + tail);
    assert(line[0] == ip[0]);
    assert(!is_ws(ip[0]));
    assert(skip_ws(line) == line);
    assert(is_ws('\t'));
    assert(tail[0] == '\t');
    lemma_word_len_of(ip, tail);
    assert(first_word(line) =~= ip);
    assert(after_first_word(line) =~= tail);
    assert(tail.drop_first() =~= d);
    assert(!is_ws(d[0]));
    assert(skip_ws(d) == d);
    assert(skip_ws(tail) == d);
    assert forall|i: int| 0 <= i < d.len() implies !is_ws(#[trigger] d[i]) by {
        assert(is_digit(d[i]));
    }
    lemma_word_len_of(d, Seq::empty());
    assert(d + Seq::<char>::empty() =~= d);
    assert(first_word(tail) =~= d);
    assert(d[0] != '+');
    assert(unsigned_digits(d) == d);
    assert(parse_unsigned(d, 255) == Some(n as int));
}
} // verus!
