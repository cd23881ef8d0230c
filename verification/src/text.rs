//! Character-level helpers shared by the rest of the library.
use vstd::prelude::*;
use vstd::std_specs::iter::IteratorSpec;

verus! {

/// Appending one character to a `String` (`String::push`).
pub assume_specification[ String::push ](s: &mut String, ch: char)
    ensures
        final(s)@ == old(s)@.push(ch),
;

/// The characters of a string slice, in order.
pub fn chars_of(s: &str) -> (v: Vec<char>)
    ensures
        v@ == s@,
{
    broadcast use vstd::string::group_string_axioms;
    let mut v: Vec<char> = Vec::new();
    for c in it: s.chars()
        invariant
            v@ == it.seq().take(it.index() as int),
    {
        v.push(c);
    }
    assert(v@ =~= s@);
    v
}

/// `p` is a prefix of `s`.
pub open spec fn has_prefix(s: Seq<char>, p: Seq<char>) -> bool {
    p.len() <= s.len() && s.take(p.len() as int) == p
}

/// Prefix test on character vectors.
pub fn chars_start_with(s: &Vec<char>, p: &Vec<char>) -> (res: bool)
    ensures
        res == has_prefix(s@, p@),
{
    if p.len() > s.len() {
        return false;
    }
    let mut i: usize = 0;
    while i < p.len()
        invariant
            p.len() <= s.len(),
            i <= p.len(),
            forall|j: int| 0 <= j < i ==> s@[j] == p@[j],
        decreases p.len() - i,
    {
        if s[i] != p[i] {
            assert(s@.take(p.len() as int)[i as int] != p@[i as int]);
            return false;
        }
        i = i + 1;
    }
    assert(s@.take(p.len() as int) =~= p@);
    true
}

/// `str::starts_with` with a string-slice pattern.
pub fn str_starts_with(s: &str, p: &str) -> (res: bool)
    ensures
        res == has_prefix(s@, p@),
{
    let sv = chars_of(s);
    let pv = chars_of(p);
    chars_start_with(&sv, &pv)
}

/// The character for a decimal digit.
pub open spec fn digit_char(d: nat) -> char {
    if d == 0 { '0' } else if d == 1 { '1' } else if d == 2 { '2' } else if d == 3 { '3' }
    else if d == 4 { '4' } else if d == 5 { '5' } else if d == 6 { '6' } else if d == 7 { '7' }
    else if d == 8 { '8' } else { '9' }
}

/// The character for a hexadecimal digit, lower case.
pub open spec fn hex_char(d: nat) -> char {
    if d < 10 { digit_char(d) } else if d == 10 { 'a' } else if d == 11 { 'b' } else if d == 12 { 'c' }
    else if d == 13 { 'd' } else if d == 14 { 'e' } else { 'f' }
}

/// The numeral of `n` in base `b` (2 <= b <= 16), most significant digit first,
/// without leading zeros ("0" for zero).
pub open spec fn numeral(n: nat, b: nat) -> Seq<char>
    decreases n,
{
    if b < 2 || n < b {
        seq![hex_char(n)]
    } else {
        proof {
            assert(n / b < n) by (nonlinear_arith)
                requires
                    b >= 2,
                    n >= b,
            ;
        }
        numeral(n / b, b).push(hex_char(n % b))
    }
}

/// Decimal numeral of `n`.
pub open spec fn dec(n: nat) -> Seq<char> {
    numeral(n, 10)
}

/// Decimal numeral of a signed integer, with a leading '-' when negative.
pub open spec fn signed_dec(i: int) -> Seq<char> {
    if i < 0 { seq!['-'] + dec((-i) as nat) } else { dec(i as nat) }
}

fn digit_of(d: u64) -> (c: char)
    requires
        d < 16,
    ensures
        c == hex_char(d as nat),
{
    if d == 0 { '0' } else if d == 1 { '1' } else if d == 2 { '2' } else if d == 3 { '3' }
    else if d == 4 { '4' } else if d == 5 { '5' } else if d == 6 { '6' } else if d == 7 { '7' }
    else if d == 8 { '8' } else if d == 9 { '9' } else if d == 10 { 'a' } else if d == 11 { 'b' }
    else if d == 12 { 'c' } else if d == 13 { 'd' } else if d == 14 { 'e' } else { 'f' }
}

/// Appends the base-`b` numeral of `n` to `s`.
pub fn push_numeral(s: &mut String, n: u64, b: u64)
    requires
        2 <= b <= 16,
    ensures
        final(s)@ == old(s)@ + numeral(n as nat, b as nat),
    decreases n,
{
    if n < b {
        s.push(digit_of(n));
        assert(numeral(n as nat, b as nat) =~= seq![hex_char(n as nat)]);
    } else {
        assert(n / b < n) by (nonlinear_arith)
            requires
                b >= 2,
                n >= b,
        ;
        push_numeral(s, n / b, b);
        s.push(digit_of(n % b));
        assert(old(s)@ + numeral(n as nat, b as nat) =~= old(s)@ + numeral((n / b) as nat, b as nat) + seq![hex_char((n % b) as nat)]);
    }
}

/// Appends the decimal numeral of `n` to `s`.
pub fn push_dec(s: &mut String, n: u64)
    ensures
        final(s)@ == old(s)@ + dec(n as nat),
{
    push_numeral(s, n, 10);
}

/// Appends the signed decimal numeral of `i` to `s`.
pub fn push_signed_dec(s: &mut String, i: i64)
    ensures
        final(s)@ == old(s)@ + signed_dec(i as int),
{
    if i < 0 {
        s.push('-');
        let m: u64 = if i == i64::MIN { 9223372036854775808u64 } else { (-i) as u64 };
        push_dec(s, m);
        assert(old(s)@ + signed_dec(i as int) =~= old(s)@.push('-') + dec(m as nat));
    } else {
        push_dec(s, i as u64);
    }
}

/// The decimal numeral of `n` as a new string.
pub fn dec_string(n: u64) -> (res: String)
    ensures
        res@ == dec(n as nat),
{
    let mut s = String::new();
    push_dec(&mut s, n);
    assert(s@ =~= dec(n as nat));
    s
}

/// Appends a string slice to `s`.
pub fn push_str(s: &mut String, t: &str)
    ensures
        final(s)@ == old(s)@ + t@,
{
    s.append(t);
}

/// Unicode `White_Space` (what `char::is_whitespace` tests).
pub open spec fn is_ws(c: char) -> bool {
    ||| '\u{9}' <= c <= '\u{d}'
    ||| c == ' '
    ||| c == '\u{85}'
    ||| c == '\u{a0}'
    ||| c == '\u{1680}'
    ||| '\u{2000}' <= c <= '\u{200a}'
    ||| c == '\u{2028}'
    ||| c == '\u{2029}'
    ||| c == '\u{202f}'
    ||| c == '\u{205f}'
    ||| c == '\u{3000}'
}

/// `char::is_whitespace`.
pub fn is_whitespace(c: char) -> (res: bool)
    ensures
        res == is_ws(c),
{
    ('\u{9}' <= c && c <= '\u{d}') || c == ' ' || c == '\u{85}' || c == '\u{a0}' || c == '\u{1680}'
        || ('\u{2000}' <= c && c <= '\u{200a}') || c == '\u{2028}' || c == '\u{2029}'
        || c == '\u{202f}' || c == '\u{205f}' || c == '\u{3000}'
}

/// Character-wise equality of two string slices.
pub fn str_eq(a: &str, b: &str) -> (res: bool)
    ensures
        res == (a@ == b@),
{
    let av = chars_of(a);
    let bv = chars_of(b);
    if av.len() != bv.len() {
        return false;
    }
    let mut i: usize = 0;
    while i < av.len()
        invariant
            av@ == a@,
            bv@ == b@,
            av@.len() == bv@.len(),
            i <= av@.len(),
            forall|j: int| 0 <= j < i ==> av@[j] == bv@[j],
        decreases av.len() - i,
    {
        if av[i] != bv[i] {
            return false;
        }
        i = i + 1;
    }
    assert(av@ =~= bv@);
    true
}


/// `n` occurs in `h` starting at position `i`.
pub open spec fn occurs_at(h: Seq<char>, n: Seq<char>, i: int) -> bool {
    0 <= i && i + n.len() <= h.len() && h.subrange(i, i + n.len()) == n
}

/// `n` occurs somewhere in `h` (`str::contains` with a string pattern).
pub open spec fn contains_text(h: Seq<char>, n: Seq<char>) -> bool {
    exists|i: int| occurs_at(h, n, i)
}

/// Whether `n` occurs in `h` at position `i`.
fn occurs_at_exec(h: &Vec<char>, n: &Vec<char>, i: usize) -> (res: bool)
    requires
        i + n@.len() <= h@.len(),
    ensures
        res == occurs_at(h@, n@, i as int),
{
    let hl = h.len();
    let mut j: usize = 0;
    while j < n.len()
        invariant
            hl == h@.len(),
            i + n@.len() <= h@.len(),
            j <= n.len(),
            forall|k: int| 0 <= k < j ==> h@[i + k] == n@[k],
        decreases n.len() - j,
    {
        if h[i + j] != n[j] {
            assert(h@.subrange(i as int, i + n@.len())[j as int] != n@[j as int]);
            return false;
        }
        j = j + 1;
    }
    assert(h@.subrange(i as int, i + n@.len()) =~= n@);
    true
}

/// Whether `n` occurs in `h`.
pub fn chars_contain(h: &Vec<char>, n: &Vec<char>) -> (res: bool)
    ensures
        res == contains_text(h@, n@),
{
    if n.len() > h.len() {
        assert(forall|i: int| !occurs_at(h@, n@, i));
        return false;
    }
    let last = h.len() - n.len();
    let mut i: usize = 0;
    loop
        invariant
            last + n@.len() == h@.len(),
            i <= last,
            forall|k: int| 0 <= k < i ==> !occurs_at(h@, n@, k),
        ensures
            forall|k: int| 0 <= k <= last ==> !occurs_at(h@, n@, k),
        decreases last - i,
    {
        if occurs_at_exec(h, n, i) {
            return true;
        }
        if i == last {
            break;
        }
        i = i + 1;
    }
    false
}

/// `str::contains` with a string-slice pattern.
pub fn str_contains(h: &str, n: &str) -> (res: bool)
    ensures
        res == contains_text(h@, n@),
{
    let hv = chars_of(h);
    let nv = chars_of(n);
    chars_contain(&hv, &nv)
}

/// Every character is an ASCII digit.
pub open spec fn all_digits(s: Seq<char>) -> bool {
    forall|i: int| 0 <= i < s.len() ==> '0' <= #[trigger] s[i] <= '9'
}

/// Whether every character is an ASCII digit.
pub fn str_all_digits(s: &str) -> (res: bool)
    ensures
        res == all_digits(s@),
{
    let cs = chars_of(s);
    let mut i: usize = 0;
    while i < cs.len()
        invariant
            cs@ == s@,
            i <= cs.len(),
            forall|k: int| 0 <= k < i ==> '0' <= #[trigger] cs@[k] <= '9',
        decreases cs.len() - i,
    {
        if cs[i] < '0' || cs[i] > '9' {
            return false;
        }
        i = i + 1;
    }
    true
}

/// Number of whitespace characters at the start of `s`.
pub open spec fn lead_ws(s: Seq<char>) -> nat
    decreases s.len(),
{
    if s.len() > 0 && is_ws(s[0]) { 1 + lead_ws(s.drop_first()) } else { 0 }
}

/// Number of whitespace characters at the end of `s`.
pub open spec fn trail_ws(s: Seq<char>) -> nat
    decreases s.len(),
{
    if s.len() > 0 && is_ws(s.last()) { 1 + trail_ws(s.drop_last()) } else { 0 }
}

/// `s` without leading and trailing whitespace (`str::trim`).
pub open spec fn trimmed(s: Seq<char>) -> Seq<char> {
    let t = s.skip(lead_ws(s) as int);
    t.take(t.len() - trail_ws(t))
}

/// `str::trim`.
pub fn trim_text(s: &str) -> (res: String)
    ensures
        res@ == trimmed(s@),
{
    let cs = chars_of(s);
    let n = cs.len();
    let mut lo: usize = 0;
    assert(cs@.skip(0) =~= cs@);
    while lo < n && is_whitespace(cs[lo])
        invariant
            n == cs@.len(),
            lo <= n,
            lead_ws(cs@) == lo + lead_ws(cs@.skip(lo as int)),
        decreases n - lo,
    {
        assert(cs@.skip(lo as int).drop_first() =~= cs@.skip(lo + 1));
        lo = lo + 1;
    }
    proof {
        if lo < n {
            assert(cs@.skip(lo as int)[0] == cs@[lo as int]);
        } else {
            assert(cs@.skip(lo as int).len() == 0);
        }
    }
    let ghost t = cs@.skip(lo as int);
    let mut hi: usize = n;
    assert(t.take(t.len() as int) =~= t);
    while hi > lo && is_whitespace(cs[hi - 1])
        invariant
            n == cs@.len(),
            lo <= hi <= n,
            t == cs@.skip(lo as int),
            trail_ws(t) == (n - hi) + trail_ws(t.take(hi - lo)),
        decreases hi - lo,
    {
        assert(t.take(hi - lo).drop_last() =~= t.take(hi - lo - 1));
        assert(t.take(hi - lo).last() == cs@[hi - 1]);
        hi = hi - 1;
    }
    proof {
        if hi > lo {
            assert(t.take(hi - lo).last() == cs@[hi - 1]);
        } else {
            assert(t.take(hi - lo).len() == 0);
        }
    }
    let mut out = String::new();
    let mut i: usize = lo;
    while i < hi
        invariant
            lo <= i <= hi <= n,
            n == cs@.len(),
            out@ == cs@.subrange(lo as int, i as int),
        decreases hi - i,
    {
        out.push(cs[i]);
        assert(out@ =~= cs@.subrange(lo as int, i + 1));
        i = i + 1;
    }
    assert(out@ =~= t.take(t.len() - trail_ws(t)));
    out
}

/// `s` padded with spaces on the right to `w` characters (`{:<w$}`).
pub open spec fn padded(s: Seq<char>, w: int) -> Seq<char> {
    if s.len() >= w { s } else { s + Seq::new((w - s.len()) as nat, |i: int| ' ') }
}

/// Pads with spaces on the right to `w` characters.
pub fn pad_right(s: &str, w: usize) -> (res: String)
    ensures
        res@ == padded(s@, w as int),
{
    let n = chars_of(s).len();
    let mut out = s.to_owned();
    let mut k: usize = n;
    while k < w
        invariant
            n == s@.len(),
            n <= k,
            n < w ==> k <= w,
            n >= w ==> k == n,
            out@ == s@ + Seq::new((k - n) as nat, |i: int| ' '),
        decreases w - k,
    {
        out.push(' ');
        assert(out@ =~= s@ + Seq::new((k + 1 - n) as nat, |i: int| ' '));
        k = k + 1;
    }
    proof {
        if n >= w {
            assert(out@ =~= s@);
        } else {
            assert(out@ =~= padded(s@, w as int));
        }
    }
    out
}

/// The first `n` characters of `s` (all of it when shorter).
pub fn take_chars(s: &str, n: usize) -> (res: String)
    ensures
        res@ == s@.take(if n < s@.len() { n as int } else { s@.len() as int }),
{
    let cs = chars_of(s);
    let m = if n < cs.len() { n } else { cs.len() };
    let mut out = String::new();
    let mut i: usize = 0;
    while i < m
        invariant
            m <= cs@.len(),
            cs@ == s@,
            i <= m,
            out@ == cs@.take(i as int),
        decreases m - i,
    {
        out.push(cs[i]);
        assert(out@ =~= cs@.take(i + 1));
        i = i + 1;
    }
    out
}
/// Trimming a word followed by spaces gives the word back.
pub proof fn lemma_trim_trailing_spaces(word: Seq<char>, k: nat)
    requires
        word.len() > 0,
        !is_ws(word[0]),
        !is_ws(word.last()),
    ensures
        trimmed(word + Seq::new(k, |i: int| ' ')) == word,
{
    let s = word + Seq::new(k, |i: int| ' ');
    assert(s[0] == word[0]);
    assert(lead_ws(s) == 0);
    assert(s.skip(0) =~= s);
    lemma_trail_spaces(word, k);
    assert(s.take(s.len() - k) =~= word);
}

proof fn lemma_trail_spaces(word: Seq<char>, k: nat)
    requires
        word.len() > 0,
        !is_ws(word.last()),
    ensures
        trail_ws(word + Seq::new(k, |i: int| ' ')) == k,
    decreases k,
{
    let s = word + Seq::new(k, |i: int| ' ');
    if k == 0 {
        assert(s =~= word);
    } else {
        lemma_trail_spaces(word, (k - 1) as nat);
        assert(s.last() == ' ');
        assert(s.drop_last() =~= word + Seq::new((k - 1) as nat, |i: int| ' '));
    }
}
/// Padding to a width keeps the text in front, fills with spaces, and gives
/// exactly the width unless the text is already wider (then it is unchanged).
pub proof fn lemma_padding(s: Seq<char>, w: int)
    ensures
        padded(s, w).len() == (if s.len() >= w { s.len() as int } else { w }),
        padded(s, w).take(s.len() as int) == s,
        forall|i: int| s.len() <= i < padded(s, w).len() ==> #[trigger] padded(s, w)[i] == ' ',
{
    assert(padded(s, w).take(s.len() as int) =~= s);
}

/// Trimming keeps a contiguous part of the text that neither starts nor ends
/// with white space, dropping only white space around it.
pub proof fn lemma_trimming(s: Seq<char>)
    ensures
        trimmed(s).len() > 0 ==> !is_ws(trimmed(s)[0]) && !is_ws(trimmed(s).last()),
        exists|a: int, b: int| 0 <= a <= b <= s.len() && #[trigger] s.subrange(a, b) == trimmed(s)
            && (forall|i: int| 0 <= i < a ==> is_ws(#[trigger] s[i]))
            && (forall|i: int| b <= i < s.len() ==> is_ws(#[trigger] s[i])),
{
    lemma_lead_ws(s);
    let a = lead_ws(s) as int;
    let t = s.skip(a);
    lemma_trail_ws(t);
    let b = a + t.len() - trail_ws(t);
    assert(s.subrange(a, b) =~= trimmed(s));
    assert forall|i: int| b <= i < s.len() implies is_ws(#[trigger] s[i]) by {
        assert(s[i] == t[i - a]);
    }
    if trimmed(s).len() > 0 {
        assert(trimmed(s)[0] == t[0]);
        assert(trimmed(s).last() == t[t.len() - trail_ws(t) - 1]);
    }
}

proof fn lemma_lead_ws(s: Seq<char>)
    ensures
        lead_ws(s) <= s.len(),
        forall|i: int| 0 <= i < lead_ws(s) ==> is_ws(#[trigger] s[i]),
        lead_ws(s) < s.len() ==> !is_ws(s[lead_ws(s) as int]),
    decreases s.len(),
{
    if s.len() > 0 && is_ws(s[0]) {
        lemma_lead_ws(s.drop_first());
        assert forall|i: int| 0 <= i < lead_ws(s) implies is_ws(#[trigger] s[i]) by {
            if i > 0 { assert(s[i] == s.drop_first()[i - 1]); }
        }
        if lead_ws(s) < s.len() {
            assert(s[lead_ws(s) as int] == s.drop_first()[lead_ws(s.drop_first()) as int]);
        }
    }
}

proof fn lemma_trail_ws(s: Seq<char>)
    ensures
        trail_ws(s) <= s.len(),
        forall|i: int| s.len() - trail_ws(s) <= i < s.len() ==> is_ws(#[trigger] s[i]),
        trail_ws(s) < s.len() ==> !is_ws(s[s.len() - trail_ws(s) - 1]),
    decreases s.len(),
{
    if s.len() > 0 && is_ws(s.last()) {
        lemma_trail_ws(s.drop_last());
        assert forall|i: int| s.len() - trail_ws(s) <= i < s.len() implies is_ws(#[trigger] s[i]) by {
            if i < s.len() - 1 { assert(s[i] == s.drop_last()[i]); }
        }
        if trail_ws(s) < s.len() {
            assert(s[s.len() - trail_ws(s) - 1] == s.drop_last()[s.drop_last().len() - trail_ws(s.drop_last()) - 1]);
        }
    }
}
} // verus!
