//! Small verified string utilities shared by the rest of the library:
//! trimming, prefix/suffix tests, equality, concatenation and decimal
//! formatting, each specified over the character-sequence view.

use vstd::prelude::*;

verus! {

/// Characters treated as blank when trimming surrounding whitespace.
pub open spec fn is_blank_char(c: char) -> bool {
    c == ' ' || c == '\t' || c == '\n' || c == '\r'
}

/// The sequence with every trailing `/` removed.
pub open spec fn trimmed_end_slashes(s: Seq<char>) -> Seq<char>
    decreases s.len(),
{
    if s.len() > 0 && s.last() == '/' {
        trimmed_end_slashes(s.drop_last())
    } else {
        s
    }
}

/// The sequence with every leading `/` removed.
pub open spec fn trimmed_start_slashes(s: Seq<char>) -> Seq<char>
    decreases s.len(),
{
    if s.len() > 0 && s.first() == '/' {
        trimmed_start_slashes(s.drop_first())
    } else {
        s
    }
}

/// The sequence with trailing blank characters removed.
pub open spec fn trimmed_end_blank(s: Seq<char>) -> Seq<char>
    decreases s.len(),
{
    if s.len() > 0 && is_blank_char(s.last()) {
        trimmed_end_blank(s.drop_last())
    } else {
        s
    }
}

/// The sequence with leading blank characters removed.
pub open spec fn trimmed_start_blank(s: Seq<char>) -> Seq<char>
    decreases s.len(),
{
    if s.len() > 0 && is_blank_char(s.first()) {
        trimmed_start_blank(s.drop_first())
    } else {
        s
    }
}

/// Blank characters removed from both ends.
pub open spec fn trimmed_blank(s: Seq<char>) -> Seq<char> {
    trimmed_start_blank(trimmed_end_blank(s))
}

/// `t` is a suffix of `s`.
pub open spec fn is_suffix_of(t: Seq<char>, s: Seq<char>) -> bool {
    t.len() <= s.len() && s.subrange(s.len() - t.len(), s.len() as int) == t
}

/// `t` is a prefix of `s`.
pub open spec fn is_prefix_of(t: Seq<char>, s: Seq<char>) -> bool {
    t.len() <= s.len() && s.subrange(0, t.len() as int) == t
}

/// Character-wise equality of two string slices.
pub fn str_eq(a: &str, b: &str) -> (r: bool)
    ensures
        r == (a@ == b@),
{
    let alen = a.unicode_len();
    let blen = b.unicode_len();
    if alen != blen {
        assert(a@ != b@);
        return false;
    }
    let mut i: usize = 0;
    while i < alen
        invariant
            alen == a@.len(),
            alen == b@.len(),
            i <= alen,
            forall|j: int| 0 <= j < i ==> a@[j] == b@[j],
        decreases alen - i,
    {
        if a.get_char(i) != b.get_char(i) {
            assert(a@ != b@);
            return false;
        }
        i += 1;
    }
    proof {
        assert(a@ =~= b@);
    }
    true
}

/// The concatenation `a + b` as a fresh `String`.
pub fn concat2(a: &str, b: &str) -> (r: String)
    ensures
        r@ == a@ + b@,
{
    let mut s = a.to_owned();
    s.append(b);
    s
}

/// The concatenation `a + b + c` as a fresh `String`.
pub fn concat3(a: &str, b: &str, c: &str) -> (r: String)
    ensures
        r@ == a@ + b@ + c@,
{
    let mut s = a.to_owned();
    s.append(b);
    s.append(c);
    s
}

/// The concatenation `a + b + c + d` as a fresh `String`.
pub fn concat4(a: &str, b: &str, c: &str, d: &str) -> (r: String)
    ensures
        r@ == a@ + b@ + c@ + d@,
{
    let mut s = a.to_owned();
    s.append(b);
    s.append(c);
    s.append(d);
    s
}

/// Trailing `/` characters removed.
pub fn trim_end_slashes<'a>(s: &'a str) -> (r: &'a str)
    ensures
        r@ == trimmed_end_slashes(s@),
{
    let len = s.unicode_len();
    proof {
        assert(s@.subrange(0, len as int) =~= s@);
    }
    let mut i = len;
    while i > 0 && s.get_char(i - 1) == '/'
        invariant
            i <= len,
            len == s@.len(),
            trimmed_end_slashes(s@) == trimmed_end_slashes(s@.subrange(0, i as int)),
        decreases i,
    {
        proof {
            assert(s@.subrange(0, i as int).drop_last() =~= s@.subrange(0, i - 1));
        }
        i -= 1;
    }
    proof {
        if i > 0 {
            assert(s@.subrange(0, i as int).last() == s@[i - 1]);
        }
        assert(trimmed_end_slashes(s@.subrange(0, i as int)) == s@.subrange(0, i as int));
    }
    s.substring_char(0, i)
}

/// Leading `/` characters removed.
pub fn trim_start_slashes<'a>(s: &'a str) -> (r: &'a str)
    ensures
        r@ == trimmed_start_slashes(s@),
{
    let len = s.unicode_len();
    proof {
        assert(s@.subrange(0, len as int) =~= s@);
    }
    let mut i: usize = 0;
    while i < len && s.get_char(i) == '/'
        invariant
            i <= len,
            len == s@.len(),
            trimmed_start_slashes(s@) == trimmed_start_slashes(s@.subrange(i as int, len as int)),
        decreases len - i,
    {
        proof {
            assert(s@.subrange(i as int, len as int).drop_first() =~= s@.subrange(
                i + 1,
                len as int,
            ));
        }
        i += 1;
    }
    proof {
        assert(trimmed_start_slashes(s@.subrange(i as int, len as int)) == s@.subrange(
            i as int,
            len as int,
        ));
    }
    s.substring_char(i, len)
}

fn is_blank(c: char) -> (r: bool)
    ensures
        r == is_blank_char(c),
{
    c == ' ' || c == '\t' || c == '\n' || c == '\r'
}

/// Blank characters removed from both ends.
pub fn trim_blank<'a>(s: &'a str) -> (r: &'a str)
    ensures
        r@ == trimmed_blank(s@),
{
    let len = s.unicode_len();
    proof {
        assert(s@.subrange(0, len as int) =~= s@);
    }
    let mut hi = len;
    while hi > 0 && is_blank(s.get_char(hi - 1))
        invariant
            hi <= len,
            len == s@.len(),
            trimmed_end_blank(s@) == trimmed_end_blank(s@.subrange(0, hi as int)),
        decreases hi,
    {
        proof {
            assert(s@.subrange(0, hi as int).drop_last() =~= s@.subrange(0, hi - 1));
        }
        hi -= 1;
    }
    proof {
        if hi > 0 {
            assert(s@.subrange(0, hi as int).last() == s@[hi - 1]);
        }
        assert(trimmed_end_blank(s@.subrange(0, hi as int)) == s@.subrange(0, hi as int));
    }
    let mut lo: usize = 0;
    while lo < hi && is_blank(s.get_char(lo))
        invariant
            lo <= hi <= len,
            len == s@.len(),
            trimmed_end_blank(s@) == s@.subrange(0, hi as int),
            trimmed_start_blank(s@.subrange(0, hi as int)) == trimmed_start_blank(
                s@.subrange(lo as int, hi as int),
            ),
        decreases hi - lo,
    {
        proof {
            assert(s@.subrange(lo as int, hi as int).drop_first() =~= s@.subrange(
                lo + 1,
                hi as int,
            ));
        }
        lo += 1;
    }
    proof {
        assert(trimmed_start_blank(s@.subrange(lo as int, hi as int)) == s@.subrange(
            lo as int,
            hi as int,
        ));
    }
    s.substring_char(lo, hi)
}

/// Suffix test, specified over the views.
pub fn str_ends_with(s: &str, suffix: &str) -> (r: bool)
    ensures
        r == is_suffix_of(suffix@, s@),
{
    let slen = s.unicode_len();
    let tlen = suffix.unicode_len();
    if tlen > slen {
        return false;
    }
    let tail = s.substring_char(slen - tlen, slen);
    str_eq(tail, suffix)
}

/// Prefix test, specified over the views.
pub fn str_starts_with(s: &str, prefix: &str) -> (r: bool)
    ensures
        r == is_prefix_of(prefix@, s@),
{
    let slen = s.unicode_len();
    let tlen = prefix.unicode_len();
    if tlen > slen {
        return false;
    }
    let head = s.substring_char(0, tlen);
    str_eq(head, prefix)
}

/// The decimal digit character for `d` (`d < 10`).
pub open spec fn digit_char(d: int) -> char {
    if d == 0 {
        '0'
    } else if d == 1 {
        '1'
    } else if d == 2 {
        '2'
    } else if d == 3 {
        '3'
    } else if d == 4 {
        '4'
    } else if d == 5 {
        '5'
    } else if d == 6 {
        '6'
    } else if d == 7 {
        '7'
    } else if d == 8 {
        '8'
    } else {
        '9'
    }
}

/// The usual decimal rendering of `n`, without sign or leading zeros.
pub open spec fn decimal_of(n: nat) -> Seq<char>
    decreases n,
{
    if n < 10 {
        seq![digit_char(n as int)]
    } else {
        decimal_of(n / 10) + seq![digit_char((n % 10) as int)]
    }
}

fn digit_str(d: u64) -> (r: &'static str)
    requires
        d < 10,
    ensures
        r@ =~= seq![digit_char(d as int)],
{
    proof {
        reveal_strlit("0");
        reveal_strlit("1");
        reveal_strlit("2");
        reveal_strlit("3");
        reveal_strlit("4");
        reveal_strlit("5");
        reveal_strlit("6");
        reveal_strlit("7");
        reveal_strlit("8");
        reveal_strlit("9");
    }
    if d == 0 {
        "0"
    } else if d == 1 {
        "1"
    } else if d == 2 {
        "2"
    } else if d == 3 {
        "3"
    } else if d == 4 {
        "4"
    } else if d == 5 {
        "5"
    } else if d == 6 {
        "6"
    } else if d == 7 {
        "7"
    } else if d == 8 {
        "8"
    } else {
        "9"
    }
}

/// A decimal digit.
pub open spec fn is_digit_char(c: char) -> bool {
    '0' <= c && c <= '9'
}

/// The value of a decimal digit.
pub open spec fn digit_val(c: char) -> int {
    c as int - '0' as int
}

/// Every character of `s` is a decimal digit.
pub open spec fn all_digits(s: Seq<char>) -> bool {
    forall|i: int| 0 <= i < s.len() ==> is_digit_char(s[i])
}

/// Exec mirror of [`is_digit_char`].
pub fn is_digit(c: char) -> (r: bool)
    ensures
        r == is_digit_char(c),
{
    '0' <= c && c <= '9'
}

/// Exec mirror of [`digit_val`].
pub fn digit_value(c: char) -> (r: u32)
    requires
        is_digit_char(c),
    ensures
        r == digit_val(c),
{
    (c as u32) - ('0' as u32)
}

/// The number a digit string denotes, most significant digit first.
pub open spec fn dec_val(s: Seq<char>) -> int
    decreases s.len(),
{
    if s.len() == 0 {
        0
    } else {
        dec_val(s.drop_last()) * 10 + digit_val(s.last())
    }
}

/// Parsing a decimal string, as the string-number coercion needs it: an
/// optional leading `+`, then one or more digits denoting a value that
/// fits in a `u64`; anything else fails.
pub open spec fn spec_parse_u64(s: Seq<char>) -> Option<u64> {
    let digits = if s.len() > 0 && s[0] == '+' {
        s.subrange(1, s.len() as int)
    } else {
        s
    };
    if digits.len() > 0 && all_digits(digits) && dec_val(digits) <= u64::MAX {
        Some(dec_val(digits) as u64)
    } else {
        None
    }
}

/// Parses a decimal string, failing on empty or malformed input and on
/// values that do not fit.
pub fn parse_u64(s: &str) -> (r: Option<u64>)
    ensures
        r == spec_parse_u64(s@),
{
    let len = s.unicode_len();
    let start: usize = if len > 0 && s.get_char(0) == '+' {
        1
    } else {
        0
    };
    let ghost digits = if s@.len() > 0 && s@[0] == '+' {
        s@.subrange(1, s@.len() as int)
    } else {
        s@
    };
    proof {
        assert(digits =~= s@.subrange(start as int, len as int));
    }
    if start == len {
        return None;
    }
    let mut acc: u64 = 0;
    let mut i = start;
    while i < len
        invariant
            start <= i <= len,
            start < len,
            len == s@.len(),
            start == 0 || start == 1,
            digits == (if s@.len() > 0 && s@[0] == '+' {
                s@.subrange(1, s@.len() as int)
            } else {
                s@
            }),
            digits == s@.subrange(start as int, len as int),
            all_digits(digits.take(i - start)),
            acc == dec_val(digits.take(i - start)),
        decreases len - i,
    {
        let c = s.get_char(i);
        proof {
            assert(digits[i - start] == s@[i as int]);
        }
        if !is_digit(c) {
            assert(!all_digits(digits));
            return None;
        }
        let d = digit_value(c) as u64;
        proof {
            assert(digits.take(i + 1 - start).drop_last() =~= digits.take(i - start));
            assert(digits.take(i + 1 - start).last() == digits[i - start]);
        }
        let next = match acc.checked_mul(10) {
            Some(x) => x.checked_add(d),
            None => None,
        };
        match next {
            Some(v) => {
                acc = v;
            },
            None => {
                proof {
                    assert(dec_val(digits.take(i + 1 - start)) == acc * 10 + d);
                    assert(acc * 10 + d > u64::MAX);
                    if all_digits(digits) {
                        lemma_dec_val_monotone(digits, i + 1 - start);
                        assert(dec_val(digits) > u64::MAX);
                    }
                }
                return None;
            },
        }
        i += 1;
    }
    proof {
        assert(digits.take(len - start) =~= digits);
    }
    Some(acc)
}

/// Appending digits never lowers a digit string's value: the value of a
/// prefix bounds the value of the whole from below.
pub proof fn lemma_dec_val_monotone(s: Seq<char>, i: int)
    requires
        0 <= i <= s.len(),
        all_digits(s),
    ensures
        dec_val(s.take(i)) <= dec_val(s),
        dec_val(s.take(i)) >= 0,
    decreases s.len() - i,
{
    lemma_dec_val_nonneg(s.take(i));
    if i < s.len() {
        lemma_dec_val_monotone(s, i + 1);
        assert(s.take(i + 1).drop_last() =~= s.take(i));
        assert(s.take(i + 1).last() == s[i]);
        lemma_dec_val_nonneg(s.take(i));
        assert(dec_val(s.take(i + 1)) == dec_val(s.take(i)) * 10 + digit_val(s[i]));
        assert(dec_val(s.take(i)) * 10 >= dec_val(s.take(i)));
        assert(digit_val(s[i]) >= 0);
    } else {
        assert(s.take(i) =~= s);
    }
}

/// A digit string's value is non-negative.
pub proof fn lemma_dec_val_nonneg(s: Seq<char>)
    requires
        all_digits(s),
    ensures
        dec_val(s) >= 0,
    decreases s.len(),
{
    if s.len() > 0 {
        assert(all_digits(s.drop_last())) by {
            assert(forall|k: int| 0 <= k < s.len() - 1 ==> s.drop_last()[k] == s[k]);
        }
        lemma_dec_val_nonneg(s.drop_last());
        assert(digit_val(s.last()) >= 0);
        assert(dec_val(s.drop_last()) * 10 >= 0);
    }
}

/// `now - then`, clamped into the `i64` range.
pub open spec fn spec_clamped_diff(now: i64, then_val: i64) -> i64 {
    if now - then_val > i64::MAX {
        i64::MAX
    } else if now - then_val < i64::MIN {
        i64::MIN
    } else {
        (now - then_val) as i64
    }
}

/// Computes `now - then` saturating at the `i64` bounds.
pub fn clamped_diff(now: i64, then_val: i64) -> (r: i64)
    ensures
        r == spec_clamped_diff(now, then_val),
{
    match now.checked_sub(then_val) {
        Some(d) => d,
        None => {
            if then_val < 0 {
                i64::MAX
            } else {
                i64::MIN
            }
        },
    }
}

/// Renders `n` in decimal.
pub fn u64_to_string(n: u64) -> (r: String)
    ensures
        r@ == decimal_of(n as nat),
    decreases n,
{
    if n < 10 {
        digit_str(n).to_owned()
    } else {
        let mut s = u64_to_string(n / 10);
        s.append(digit_str(n % 10));
        s
    }
}

} // verus!
