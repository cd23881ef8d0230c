//! Lines, whitespace-separated words and unsigned decimal numbers in text.
use vstd::prelude::*;
use crate::text::{dec, digit_char, hex_char, is_ws, is_whitespace, numeral};

verus! {

/// `s` without its leading white space.
pub open spec fn skip_ws(s: Seq<char>) -> Seq<char>
    decreases s.len(),
{
    if s.len() > 0 && is_ws(s[0]) { skip_ws(s.drop_first()) } else { s }
}

/// Length of the run of non-white-space characters that `s` starts with.
pub open spec fn word_len(s: Seq<char>) -> nat
    decreases s.len(),
{
    if s.len() > 0 && !is_ws(s[0]) { 1 + word_len(s.drop_first()) } else { 0 }
}

/// The first whitespace-separated word of `s` (empty when there is none).
pub open spec fn first_word(s: Seq<char>) -> Seq<char> {
    skip_ws(s).take(word_len(skip_ws(s)) as int)
}

/// What follows the first whitespace-separated word of `s`.
pub open spec fn after_first_word(s: Seq<char>) -> Seq<char> {
    skip_ws(s).skip(word_len(skip_ws(s)) as int)
}

/// Length of the first line of `s`: the position of the first '\n', or the
/// whole length when there is none.
pub open spec fn line_len(s: Seq<char>) -> nat
    decreases s.len(),
{
    if s.len() == 0 || s[0] == '\n' { 0 } else { 1 + line_len(s.drop_first()) }
}

/// Value of a digit character.
pub open spec fn digit_value(c: char) -> int {
    c as int - '0' as int
}

pub open spec fn is_digit(c: char) -> bool {
    '0' <= c <= '9'
}

/// Value of a numeral of decimal digits.
pub open spec fn digits_value(s: Seq<char>) -> int
    decreases s.len(),
{
    if s.len() == 0 { 0 } else { digits_value(s.drop_last()) * 10 + digit_value(s.last()) }
}

/// What `FromStr` for an unsigned integer type with largest value `max`
/// accepts: an optional '+', then one or more decimal digits, of value at most
/// `max`; `None` for anything else.
pub open spec fn parse_unsigned(s: Seq<char>, max: int) -> Option<int> {
    let d = unsigned_digits(s);
    if d.len() > 0 && (forall|i: int| 0 <= i < d.len() ==> is_digit(#[trigger] d[i]))
        && digits_value(d) <= max {
        Some(digits_value(d))
    } else {
        None
    }
}

/// The digits part of a numeral: without a leading '+'.
pub open spec fn unsigned_digits(s: Seq<char>) -> Seq<char> {
    if s.len() > 0 && s[0] == '+' { s.drop_first() } else { s }
}

proof fn lemma_parse_none_at(s: Seq<char>, max: int, j: int)
    requires
        0 <= j < unsigned_digits(s).len(),
        !is_digit(unsigned_digits(s)[j]),
    ensures
        parse_unsigned(s, max) is None,
{
    let d = unsigned_digits(s);
    assert(!is_digit(d[j]));
}

proof fn lemma_digits_value_mono(s: Seq<char>, i: int)
    requires
        0 <= i <= s.len(),
        forall|k: int| 0 <= k < s.len() ==> is_digit(#[trigger] s[k]),
    ensures
        digits_value(s.take(i)) <= digits_value(s),
        0 <= digits_value(s.take(i)),
    decreases s.len() - i,
{
    if i < s.len() {
        lemma_digits_value_mono(s, i + 1);
        assert(s.take(i + 1).drop_last() =~= s.take(i));
        assert(s.take(i + 1).last() == s[i]);
    } else {
        assert(s.take(i) =~= s);
    }
    lemma_digits_nonneg(s.take(i));
}

proof fn lemma_digits_nonneg(s: Seq<char>)
    requires
        forall|k: int| 0 <= k < s.len() ==> is_digit(#[trigger] s[k]),
    ensures
        0 <= digits_value(s),
    decreases s.len(),
{
    if s.len() > 0 {
        lemma_digits_nonneg(s.drop_last());
        assert(is_digit(s[s.len() - 1]));
    }
}

/// Parses `cs[lo..hi]` as an unsigned number of at most `max`.
pub fn parse_unsigned_range(cs: &Vec<char>, lo: usize, hi: usize, max: u64) -> (res: Option<u64>)
    requires
        lo <= hi <= cs@.len(),
    ensures
        match res {
            Some(v) => parse_unsigned(cs@.subrange(lo as int, hi as int), max as int) == Some(v as int),
            None => parse_unsigned(cs@.subrange(lo as int, hi as int), max as int) is None,
        },
{
    let ghost s = cs@.subrange(lo as int, hi as int);
    let mut start = lo;
    if start < hi && cs[start] == '+' {
        start = start + 1;
    }
    let ghost d = cs@.subrange(start as int, hi as int);
    assert(d =~= unsigned_digits(s));
    if start == hi {
        return None;
    }
    let mut v: u64 = 0;
    let mut k = start;
    while k < hi
        invariant
            lo <= start < hi <= cs@.len(),
            start <= k <= hi,
            d == cs@.subrange(start as int, hi as int),
            s == cs@.subrange(lo as int, hi as int),
            d == unsigned_digits(s),
            forall|j: int| 0 <= j < k - start ==> is_digit(#[trigger] d[j]),
            v as int == digits_value(d.take(k - start)),
            v <= max,
        decreases hi - k,
    {
        let c = cs[k];
        if !('0' <= c && c <= '9') {
            assert(d[k - start] == c);
            assert(!is_digit(d[k - start]));
            proof {
                lemma_parse_none_at(s, max as int, k - start);
            }
            return None;
        }
        let dv = (c as u32 - '0' as u32) as u64;
        assert(d.take(k - start + 1).drop_last() =~= d.take(k - start));
        assert(d.take(k - start + 1).last() == c);
        let nv: u128 = (v as u128) * 10 + (dv as u128);
        if nv > max as u128 {
            // the value only grows with further digits
            let ghost j = k - start + 1;
            proof {
                if forall|i: int| 0 <= i < d.len() ==> is_digit(#[trigger] d[i]) {
                    lemma_digits_value_mono(d, j);
                }
            }
            return None;
        }
        v = nv as u64;
        k = k + 1;
    }
    assert(d.take(hi - start) =~= d);
    Some(v)
}

/// Skips white space in `cs[lo..hi]`; the position of the first other character, or `hi`.
pub fn skip_ws_range(cs: &Vec<char>, lo: usize, hi: usize) -> (res: usize)
    requires
        lo <= hi <= cs@.len(),
    ensures
        lo <= res <= hi,
        cs@.subrange(res as int, hi as int) == skip_ws(cs@.subrange(lo as int, hi as int)),
{
    let mut k = lo;
    while k < hi && is_whitespace(cs[k])
        invariant
            lo <= k <= hi <= cs@.len(),
            skip_ws(cs@.subrange(k as int, hi as int)) == skip_ws(cs@.subrange(lo as int, hi as int)),
        decreases hi - k,
    {
        assert(cs@.subrange(k as int, hi as int).drop_first() =~= cs@.subrange(k + 1, hi as int));
        k = k + 1;
    }
    k
}

/// The end of the word that starts at `lo` in `cs[lo..hi]`.
pub fn word_end(cs: &Vec<char>, lo: usize, hi: usize) -> (res: usize)
    requires
        lo <= hi <= cs@.len(),
    ensures
        lo <= res <= hi,
        res - lo == word_len(cs@.subrange(lo as int, hi as int)),
{
    let mut k = lo;
    while k < hi && !is_whitespace(cs[k])
        invariant
            lo <= k <= hi <= cs@.len(),
            word_len(cs@.subrange(lo as int, hi as int)) == (k - lo) + word_len(cs@.subrange(k as int, hi as int)),
        decreases hi - k,
    {
        assert(cs@.subrange(k as int, hi as int).drop_first() =~= cs@.subrange(k + 1, hi as int));
        k = k + 1;
    }
    k
}

/// The end of the line that starts at `lo`: the position of the next '\n', or the end.
pub fn line_end(cs: &Vec<char>, lo: usize) -> (res: usize)
    requires
        lo <= cs@.len(),
    ensures
        lo <= res <= cs@.len(),
        res - lo == line_len(cs@.subrange(lo as int, cs@.len() as int)),
{
    let n = cs.len();
    let mut k = lo;
    while k < n && cs[k] != '\n'
        invariant
            n == cs@.len(),
            lo <= k <= n,
            line_len(cs@.subrange(lo as int, n as int)) == (k - lo) + line_len(cs@.subrange(k as int, n as int)),
        decreases n - k,
    {
        assert(cs@.subrange(k as int, n as int).drop_first() =~= cs@.subrange(k + 1, n as int));
        k = k + 1;
    }
    k
}

/// Reading back the decimal numeral of `n` gives `n`.
pub proof fn lemma_dec_value(n: nat)
    ensures
        digits_value(dec(n)) == n,
    decreases n,
{
    if n >= 10 {
        lemma_dec_value(n / 10);
        let s = dec(n);
        assert(s == numeral(n / 10, 10).push(hex_char(n % 10)));
        assert(s.drop_last() =~= dec(n / 10));
        let d = n % 10;
        assert(s.last() == digit_char(d));
        assert(digit_value(digit_char(d)) == d);
        assert(digits_value(s) == digits_value(dec(n / 10)) * 10 + digit_value(s.last()));
        assert((n / 10) * 10 + n % 10 == n);
    } else {
        let s = dec(n);
        assert(s == seq![digit_char(n)]);
        assert(s.drop_last() =~= Seq::<char>::empty());
        assert(digit_value(digit_char(n)) == n);
        assert(digits_value(s) == digits_value(s.drop_last()) * 10 + digit_value(s.last()));
    }
}

/// Distinct numbers have distinct decimal numerals.
pub proof fn lemma_dec_injective(a: nat, b: nat)
    ensures
        dec(a) == dec(b) <==> a == b,
{
    lemma_dec_value(a);
    lemma_dec_value(b);
}
} // verus!
