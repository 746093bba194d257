//! Small text helpers shared by the handlers.

use vstd::prelude::*;
use vstd::string::{StrSliceExecFns, StringExecFns, StringSliceAdditionalSpecFns};
use vstd::utf8::{
    decode_utf8, encode_utf8, encode_utf8_decode_utf8, is_ascii_chars, is_ascii_chars_encode_utf8,
    valid_utf8,
};

verus! {

/// Appends one character to a string (`String::push`).
#[verifier::external_body]
pub fn push_char(s: &mut String, c: char)
    ensures
        final(s)@ == old(s)@.push(c),
{
    s.push(c);
}

/// Appends a string slice to a string.
pub fn push_str(s: &mut String, t: &str)
    ensures
        final(s)@ == old(s)@ + t@,
{
    s.append(t);
}

/// The upper-case hexadecimal digit of a value below sixteen.
pub open spec fn hex_digit_upper(n: u8) -> char
    recommends
        n < 16,
{
    if n < 10 {
        (('0' as u8) + n) as char
    } else {
        (('A' as u8) + (n - 10)) as char
    }
}

pub fn hex_digit_upper_exec(n: u8) -> (c: char)
    requires
        n < 16,
    ensures
        c == hex_digit_upper(n),
{
    if n < 10 {
        ((48u8) + n) as char
    } else {
        ((65u8) + (n - 10)) as char
    }
}

/// Whether two strings are equal, compared byte by byte.
pub fn str_eq(a: &str, b: &str) -> (r: bool)
    ensures
        r == (a@ == b@),
{
    let x = a.as_bytes();
    let y = b.as_bytes();
    proof {
        encode_utf8_decode_utf8(a@);
        encode_utf8_decode_utf8(b@);
    }
    if x.len() != y.len() {
        return false;
    }
    let mut i: usize = 0;
    while i < x.len()
        invariant
            x@ == a.spec_bytes(),
            y@ == b.spec_bytes(),
            x@.len() == y@.len(),
            i <= x@.len(),
            forall|j: int| 0 <= j < i ==> x@[j] == y@[j],
        decreases x@.len() - i,
    {
        if x[i] != y[i] {
            return false;
        }
        i = i + 1;
    }
    assert(x@ =~= y@);
    true
}

/// Unicode `White_Space`, the characters that `char::is_whitespace` accepts.
pub open spec fn is_whitespace(c: char) -> bool {
    ||| ('\u{9}' <= c && c <= '\u{d}')
    ||| c == ' '
    ||| c == '\u{85}'
    ||| c == '\u{a0}'
    ||| c == '\u{1680}'
    ||| ('\u{2000}' <= c && c <= '\u{200a}')
    ||| c == '\u{2028}'
    ||| c == '\u{2029}'
    ||| c == '\u{202f}'
    ||| c == '\u{205f}'
    ||| c == '\u{3000}'
}

pub fn is_whitespace_exec(c: char) -> (r: bool)
    ensures
        r == is_whitespace(c),
{
    ('\u{9}' <= c && c <= '\u{d}') || c == ' ' || c == '\u{85}' || c == '\u{a0}' || c
        == '\u{1680}' || ('\u{2000}' <= c && c <= '\u{200a}') || c == '\u{2028}' || c
        == '\u{2029}' || c == '\u{202f}' || c == '\u{205f}' || c == '\u{3000}'
}

/// Number of leading whitespace characters.
pub open spec fn leading_whitespace(s: Seq<char>) -> nat
    decreases s.len(),
{
    if s.len() > 0 && is_whitespace(s[0]) {
        1 + leading_whitespace(s.drop_first())
    } else {
        0
    }
}

/// Number of trailing whitespace characters.
pub open spec fn trailing_whitespace(s: Seq<char>) -> nat
    decreases s.len(),
{
    if s.len() > 0 && is_whitespace(s.last()) {
        1 + trailing_whitespace(s.drop_last())
    } else {
        0
    }
}

/// `str::trim`: the text without its leading and trailing whitespace.
pub open spec fn spec_trim(s: Seq<char>) -> Seq<char> {
    let front = s.skip(leading_whitespace(s) as int);
    front.take(front.len() - trailing_whitespace(front))
}

proof fn lemma_leading_whitespace(s: Seq<char>, i: int)
    requires
        0 <= i <= s.len(),
        forall|j: int| 0 <= j < i ==> is_whitespace(#[trigger] s[j]),
        i == s.len() || !is_whitespace(s[i]),
    ensures
        leading_whitespace(s) == i,
    decreases i,
{
    if i > 0 {
        assert forall|j: int| 0 <= j < i - 1 implies is_whitespace(#[trigger] s.drop_first()[j]) by {
            assert(s.drop_first()[j] == s[j + 1]);
        }
        if i < s.len() {
            assert(s.drop_first()[i - 1] == s[i]);
        }
        lemma_leading_whitespace(s.drop_first(), i - 1);
    }
}

proof fn lemma_trailing_whitespace(s: Seq<char>, e: int)
    requires
        0 <= e <= s.len(),
        forall|j: int| e <= j < s.len() ==> is_whitespace(#[trigger] s[j]),
        e == 0 || !is_whitespace(s[e - 1]),
    ensures
        trailing_whitespace(s) == s.len() - e,
    decreases s.len() - e,
{
    if e < s.len() {
        assert forall|j: int| e <= j < s.len() - 1 implies is_whitespace(#[trigger] s.drop_last()[j]) by {
            assert(s.drop_last()[j] == s[j]);
        }
        if e > 0 {
            assert(s.drop_last()[e - 1] == s[e - 1]);
        }
        lemma_trailing_whitespace(s.drop_last(), e);
    }
}

/// `str::trim`, into a new string.
pub fn trim(s: &str) -> (r: String)
    ensures
        r@ == spec_trim(s@),
{
    let n = s.unicode_len();
    let mut i: usize = 0;
    while i < n && is_whitespace_exec(s.get_char(i))
        invariant
            n == s@.len(),
            i <= n,
            forall|j: int| 0 <= j < i ==> is_whitespace(#[trigger] s@[j]),
        decreases n - i,
    {
        i = i + 1;
    }
    proof {
        lemma_leading_whitespace(s@, i as int);
    }
    let mut e: usize = n;
    while e > i && is_whitespace_exec(s.get_char(e - 1))
        invariant
            n == s@.len(),
            i <= e <= n,
            forall|j: int| e <= j < n ==> is_whitespace(#[trigger] s@[j]),
        decreases e - i,
    {
        e = e - 1;
    }
    let ghost front = s@.skip(i as int);
    proof {
        if e > i {
            assert(front[e - i - 1] == s@[e - 1]);
        }
        assert forall|j: int| e - i <= j < front.len() implies is_whitespace(#[trigger] front[j]) by {
            assert(front[j] == s@[j + i]);
        }
        lemma_trailing_whitespace(front, e - i);
    }
    let mut out = String::new();
    let mut k: usize = i;
    while k < e
        invariant
            n == s@.len(),
            i <= k <= e <= n,
            out@ == s@.subrange(i as int, k as int),
        decreases e - k,
    {
        push_char(&mut out, s.get_char(k));
        k = k + 1;
        assert(out@ =~= s@.subrange(i as int, k as int));
    }
    assert(out@ =~= spec_trim(s@));
    out
}

/// What `i64::from_str` gives for a text.
pub open spec fn text_i64(s: Seq<char>) -> Option<i64> {
    spec_parse_i64(encode_utf8(s))
}

/// The message with which `String::from_utf8` refuses bytes that are not UTF-8
/// (the `Display` text of its `FromUtf8Error`).
pub uninterp spec fn utf8_error_text(bytes: Seq<u8>) -> Seq<char>;

/// `String::from_utf8`: the text that the bytes encode in UTF-8, or, when they are
/// not valid UTF-8, the error's message, which is named and not stated.
#[verifier::external_body]
pub(crate) fn string_from_utf8(bytes: Vec<u8>) -> (r: Result<String, String>)
    ensures
        r is Ok <==> valid_utf8(bytes@),
        r matches Ok(s) ==> s@ == decode_utf8(bytes@),
        r matches Err(t) ==> t@ == utf8_error_text(bytes@),
{
    match String::from_utf8(bytes) {
        Ok(s) => Ok(s),
        Err(e) => Err(e.to_string()),
    }
}

/// A copy of a list of strings.
pub fn clone_strings(v: &Vec<String>) -> (r: Vec<String>)
    ensures
        r@ == v@,
{
    let mut r: Vec<String> = Vec::new();
    let mut i: usize = 0;
    while i < v.len()
        invariant
            i <= v@.len(),
            r@ == v@.take(i as int),
        decreases v@.len() - i,
    {
        r.push(v[i].clone());
        i = i + 1;
        assert(r@ =~= v@.take(i as int));
    }
    assert(v@.take(v@.len() as int) =~= v@);
    r
}

/// ASCII decimal digit byte.
pub open spec fn is_digit_byte(b: u8) -> bool {
    48 <= b && b <= 57
}

pub open spec fn all_digit_bytes(d: Seq<u8>) -> bool {
    forall|i: int| 0 <= i < d.len() ==> is_digit_byte(#[trigger] d[i])
}

/// The number that a string of decimal digit bytes denotes.
pub open spec fn digits_value(d: Seq<u8>) -> nat
    decreases d.len(),
{
    if d.len() == 0 {
        0
    } else {
        digits_value(d.drop_last()) * 10 + (d.last() - 48) as nat
    }
}

/// What `i64::from_str` gives for a string with these UTF-8 bytes: an optional `+`
/// or `-`, then one or more ASCII digits and nothing else, denoting a value that fits
/// in an `i64`.
pub open spec fn spec_parse_i64(b: Seq<u8>) -> Option<i64> {
    let signed = b.len() > 0 && (b[0] == 45 || b[0] == 43);
    let digits = if signed { b.drop_first() } else { b };
    let magnitude = digits_value(digits) as int;
    let v = if b.len() > 0 && b[0] == 45 { -magnitude } else { magnitude };
    if digits.len() > 0 && all_digit_bytes(digits) && i64::MIN <= v && v <= i64::MAX {
        Some(v as i64)
    } else {
        None
    }
}

proof fn lemma_digits_value_prefix(d: Seq<u8>, k: int)
    requires
        0 <= k <= d.len(),
    ensures
        digits_value(d) >= digits_value(d.take(k)),
    decreases d.len(),
{
    if k < d.len() {
        assert(d.drop_last().take(k) =~= d.take(k));
        lemma_digits_value_prefix(d.drop_last(), k);
    } else {
        assert(d.take(k) =~= d);
    }
}

/// Parses a decimal `i64` the way `i64::from_str` does.
pub fn parse_i64(s: &str) -> (r: Option<i64>)
    ensures
        r == text_i64(s@),
{
    let b = s.as_bytes();
    let n = b.len();
    if n == 0 {
        return None;
    }
    let negative = b[0] == 45;
    let start: usize = if b[0] == 45 || b[0] == 43 { 1 } else { 0 };
    let ghost digits = if start == 1 { b@.drop_first() } else { b@ };
    assert(digits =~= b@.subrange(start as int, n as int));
    if start == n {
        return None;
    }
    let mut acc: u64 = 0;
    let mut i: usize = start;
    while i < n
        invariant
            b@ == s.spec_bytes(),
            n == b@.len(),
            start <= i <= n,
            start < n,
            start == 1 <==> (b@[0] == 45 || b@[0] == 43),
            digits == (if b@[0] == 45 || b@[0] == 43 { b@.drop_first() } else { b@ }),
            digits == b@.subrange(start as int, n as int),
            all_digit_bytes(digits.take(i - start)),
            acc as nat == digits_value(digits.take(i - start)),
        decreases n - i,
    {
        let c = b[i];
        let ghost k = i - start;
        assert(digits[k] == c);
        if c < 48 || c > 57 {
            assert(!all_digit_bytes(digits));
            return None;
        }
        assert(digits.take(k + 1).drop_last() =~= digits.take(k));
        assert(all_digit_bytes(digits.take(k + 1)));
        let next = match acc.checked_mul(10) {
            Some(t) => t.checked_add((c - 48) as u64),
            None => None,
        };
        match next {
            Some(v) => {
                acc = v;
            },
            None => {
                proof {
                    assert(digits.take(k + 1).last() == c);
                    assert(digits_value(digits.take(k + 1)) == acc * 10 + (c - 48));
                    assert(digits_value(digits.take(k + 1)) > u64::MAX);
                    if all_digit_bytes(digits) {
                        lemma_digits_value_prefix(digits, k + 1);
                    }
                }
                return None;
            },
        }
        i = i + 1;
    }
    assert(digits.take(n - start) =~= digits);
    if negative {
        if acc <= 9223372036854775808u64 {
            if acc == 9223372036854775808u64 {
                Some(i64::MIN)
            } else {
                Some(-(acc as i64))
            }
        } else {
            None
        }
    } else if acc <= 9223372036854775807u64 {
        Some(acc as i64)
    } else {
        None
    }
}

/// The character of a decimal digit.
pub open spec fn digit_char(d: nat) -> char
    recommends
        d < 10,
{
    (48 + d) as char
}

/// Decimal digits of a natural number, without leading zeros.
pub open spec fn spec_digits(m: nat) -> Seq<char>
    decreases m,
{
    if m < 10 {
        seq![digit_char(m)]
    } else {
        spec_digits(m / 10).push(digit_char(m % 10))
    }
}

/// `i64`'s `Display`: a `-` for negative values, then the decimal digits.
pub open spec fn spec_i64_decimal(n: i64) -> Seq<char> {
    if n < 0 {
        seq!['-'] + spec_digits((-n) as nat)
    } else {
        spec_digits(n as nat)
    }
}

/// Appends the decimal digits of `m`.
pub fn push_digits(s: &mut String, m: u64)
    ensures
        final(s)@ == old(s)@ + spec_digits(m as nat),
    decreases m,
{
    if m >= 10 {
        push_digits(s, m / 10);
    }
    let d = (m % 10) as u8;
    push_char(s, (48u8 + d) as char);
    proof {
        if m >= 10 {
            assert(old(s)@ + spec_digits(m as nat) =~= old(s)@ + spec_digits((m / 10) as nat) + seq![digit_char((m % 10) as nat)]);
        } else {
            assert(old(s)@ + spec_digits(m as nat) =~= old(s)@.push(digit_char(m as nat)));
        }
    }
}

/// Appends `n` in decimal, as `i64`'s `Display` writes it.
pub fn push_i64(s: &mut String, n: i64)
    ensures
        final(s)@ == old(s)@ + spec_i64_decimal(n),
{
    if n < 0 {
        push_char(s, '-');
        let magnitude: u64 = if n == i64::MIN { 9223372036854775808u64 } else { (-n) as u64 };
        push_digits(s, magnitude);
        assert(old(s)@ + spec_i64_decimal(n) =~= old(s)@.push('-') + spec_digits(magnitude as nat));
    } else {
        push_digits(s, n as u64);
    }
}

/// `n` in decimal, as `i64`'s `Display` writes it.
pub fn i64_to_decimal(n: i64) -> (r: String)
    ensures
        r@ == spec_i64_decimal(n),
{
    let mut s = String::new();
    push_i64(&mut s, n);
    assert(s@ =~= spec_i64_decimal(n));
    s
}

/// The byte of each character of an ASCII text.
pub open spec fn ascii_bytes(c: Seq<char>) -> Seq<u8> {
    c.map_values(|ch: char| ch as u8)
}

proof fn lemma_encode_ascii(c: Seq<char>)
    requires
        is_ascii_chars(c),
    ensures
        encode_utf8(c) == ascii_bytes(c),
{
    is_ascii_chars_encode_utf8(c);
    assert(encode_utf8(c) =~= ascii_bytes(c));
}

proof fn lemma_digits(m: nat)
    ensures
        spec_digits(m).len() >= 1,
        is_ascii_chars(spec_digits(m)),
        '0' <= spec_digits(m)[0] <= '9',
        all_digit_bytes(ascii_bytes(spec_digits(m))),
        digits_value(ascii_bytes(spec_digits(m))) == m,
    decreases m,
{
    let c = digit_char(m % 10);
    assert((c as u8) == 48 + m % 10);
    let bytes = ascii_bytes(spec_digits(m));
    assert(bytes.last() == c as u8);
    if m < 10 {
        assert(bytes.drop_last() =~= Seq::<u8>::empty());
        assert(digits_value(bytes.drop_last()) == 0);
    } else {
        lemma_digits(m / 10);
        let prev = spec_digits(m / 10);
        assert(bytes.drop_last() =~= ascii_bytes(prev));
        assert(m == (m / 10) * 10 + m % 10);
        assert(spec_digits(m)[0] == prev[0]);
        assert forall|i: int| 0 <= i < spec_digits(m).len() implies '\0' <= #[trigger] spec_digits(m)[i] <= '\u{7f}' by {
            if i < prev.len() {
                assert(spec_digits(m)[i] == prev[i]);
            }
        }
        assert forall|i: int| 0 <= i < ascii_bytes(spec_digits(m)).len() implies is_digit_byte(#[trigger] ascii_bytes(spec_digits(m))[i]) by {
            if i < prev.len() {
                assert(ascii_bytes(spec_digits(m))[i] == ascii_bytes(prev)[i]);
            }
        }
    }
}

/// Parsing undoes printing: the decimal text of any `i64` parses back to it.
pub proof fn parse_i64_of_decimal(n: i64)
    ensures
        spec_parse_i64(encode_utf8(spec_i64_decimal(n))) == Some(n),
{
    if n < 0 {
        let m = (-n) as nat;
        lemma_digits(m);
        let text = spec_i64_decimal(n);
        assert(is_ascii_chars(text)) by {
            assert forall|i: int| 0 <= i < text.len() implies '\0' <= #[trigger] text[i] <= '\u{7f}' by {
                if i > 0 {
                    assert(text[i] == spec_digits(m)[i - 1]);
                }
            }
        }
        lemma_encode_ascii(text);
        assert(ascii_bytes(text).drop_first() =~= ascii_bytes(spec_digits(m)));
        assert(ascii_bytes(text)[0] == 45);
    } else {
        let m = n as nat;
        lemma_digits(m);
        lemma_encode_ascii(spec_digits(m));
        assert(ascii_bytes(spec_digits(m))[0] != 45 && ascii_bytes(spec_digits(m))[0] != 43);
    }
}

} // verus!


