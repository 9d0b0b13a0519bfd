//! Text as it arrives: decoding bytes, trimming whitespace, reading numbers.

use vstd::prelude::*;
use vstd::string::StrSliceExecFns;
use vstd::utf8::{decode_utf8, valid_utf8};

verus! {

/// The characters with the Unicode property `White_Space`.
pub open spec fn is_white_space(c: char) -> bool {
    let n = c as u32;
    ||| 0x09 <= n <= 0x0D
    ||| n == 0x20
    ||| n == 0x85
    ||| n == 0xA0
    ||| n == 0x1680
    ||| 0x2000 <= n <= 0x200A
    ||| n == 0x2028
    ||| n == 0x2029
    ||| n == 0x202F
    ||| n == 0x205F
    ||| n == 0x3000
}

/// `s` without its leading run of whitespace.
pub open spec fn skip_leading(s: Seq<char>) -> Seq<char>
    decreases s.len(),
{
    if s.len() > 0 && is_white_space(s[0]) {
        skip_leading(s.drop_first())
    } else {
        s
    }
}

/// `s` without its trailing run of whitespace.
pub open spec fn skip_trailing(s: Seq<char>) -> Seq<char>
    decreases s.len(),
{
    if s.len() > 0 && is_white_space(s.last()) {
        skip_trailing(s.drop_last())
    } else {
        s
    }
}

/// `s` with whitespace removed from both ends.
pub open spec fn trimmed(s: Seq<char>) -> Seq<char> {
    skip_trailing(skip_leading(s))
}

/// Trusted: `str::trim`. The standard library documents that it returns the
/// slice with leading and trailing whitespace removed, where whitespace is
/// the Unicode property `White_Space`; the contract says exactly that.
#[verifier::external_body]
pub(crate) fn trim<'a>(raw: &'a str) -> (r: &'a str)
    ensures
        r@ == trimmed(raw@),
{
    raw.trim()
}

/// Trusted: `std::str::from_utf8`. The standard library documents that it
/// returns the bytes as a string slice if and only if they are valid UTF-8;
/// the text is then what the bytes decode to.
#[verifier::external_body]
pub(crate) fn decode<'a>(bytes: &'a [u8]) -> (text: Option<&'a str>)
    ensures
        text is Some <==> valid_utf8(bytes@),
        text matches Some(s) ==> s@ == decode_utf8(bytes@),
{
    std::str::from_utf8(bytes).ok()
}

/// Trimming leaves nothing to trim: what is left is no longer than what was
/// given, and neither begins nor ends with whitespace.
pub proof fn lemma_trimmed_is_trimmed(s: Seq<char>)
    ensures
        trimmed(trimmed(s)) == trimmed(s),
        trimmed(s).len() <= s.len(),
        trimmed(s).len() > 0 ==> !is_white_space(trimmed(s)[0]) && !is_white_space(
            trimmed(s).last(),
        ),
{
    lemma_skip_leading(s);
    lemma_skip_trailing(skip_leading(s));
    let t = trimmed(s);
    if t.len() > 0 {
        lemma_trailing_keeps_head(skip_leading(s));
    }
}

proof fn lemma_skip_leading(s: Seq<char>)
    ensures
        skip_leading(s).len() <= s.len(),
        skip_leading(s).len() > 0 ==> !is_white_space(skip_leading(s)[0]),
        skip_leading(skip_leading(s)) == skip_leading(s),
    decreases s.len(),
{
    if s.len() > 0 && is_white_space(s[0]) {
        lemma_skip_leading(s.drop_first());
    }
}

proof fn lemma_skip_trailing(s: Seq<char>)
    ensures
        skip_trailing(s).len() <= s.len(),
        skip_trailing(s).len() > 0 ==> !is_white_space(skip_trailing(s).last()),
        skip_trailing(skip_trailing(s)) == skip_trailing(s),
    decreases s.len(),
{
    if s.len() > 0 && is_white_space(s.last()) {
        lemma_skip_trailing(s.drop_last());
    }
}

proof fn lemma_trailing_keeps_head(s: Seq<char>)
    ensures
        skip_trailing(s).len() > 0 ==> skip_trailing(s)[0] == s[0],
    decreases s.len(),
{
    if s.len() > 0 && is_white_space(s.last()) {
        lemma_trailing_keeps_head(s.drop_last());
    }
}

/// Whether `c` is one of the digits `0` to `9`.
pub open spec fn is_digit(c: char) -> bool {
    0x30 <= c as u32 <= 0x39
}

/// Whether `s` holds digits only.
pub open spec fn all_digits(s: Seq<char>) -> bool {
    forall|i: int| 0 <= i < s.len() ==> is_digit(#[trigger] s[i])
}

/// The number that the digits of `s` write in base ten; 0 for no digits.
pub open spec fn digits_value(s: Seq<char>) -> int
    decreases s.len(),
{
    if s.len() == 0 {
        0
    } else {
        digits_value(s.drop_last()) * 10 + (s.last() as u32 - 0x30)
    }
}

/// `s` without the sign that it begins with, if it begins with one.
pub open spec fn unsigned_part(s: Seq<char>) -> Seq<char> {
    if s.len() > 0 && (s[0] == '-' || s[0] == '+') {
        s.drop_first()
    } else {
        s
    }
}

/// The integer that `s` writes: an optional sign and then one digit or more,
/// with nothing before, between or behind.
pub open spec fn integer(s: Seq<char>) -> Option<int> {
    let body = unsigned_part(s);
    if body.len() == 0 || !all_digits(body) {
        None
    } else if s[0] == '-' {
        Some(-digits_value(body))
    } else {
        Some(digits_value(body))
    }
}

/// The integer that `s` writes, if it writes one that 64 bits hold.
pub open spec fn parsed_i64(s: Seq<char>) -> Option<i64> {
    match integer(s) {
        Some(v) => if i64::MIN <= v <= i64::MAX {
            Some(v as i64)
        } else {
            None
        },
        None => None,
    }
}

/// Reads a 64-bit integer in base ten.
pub fn parse_i64(text: &str) -> (number: Option<i64>)
    ensures
        number == parsed_i64(text@),
{
    let len = text.unicode_len();
    if len == 0 {
        return None;
    }
    let first = text.get_char(0);
    let negative = first == '-';
    let start: usize = if first == '-' || first == '+' {
        1
    } else {
        0
    };
    let ghost body = unsigned_part(text@);
    assert(body =~= text@.subrange(start as int, len as int));
    if start == len {
        return None;
    }
    let limit: u128 = 9223372036854775808;
    let mut magnitude: u128 = 0;
    let mut over = false;
    let mut i: usize = start;
    assert(body.take(0) =~= Seq::<char>::empty());
    while i < len
        invariant
            start <= i <= len,
            len == text@.len(),
            body == text@.subrange(start as int, len as int),
            body == unsigned_part(text@),
            limit == 9223372036854775808,
            all_digits(body.take(i - start)),
            digits_value(body.take(i - start)) >= 0,
            !over ==> magnitude == digits_value(body.take(i - start)) && magnitude <= limit,
            over ==> digits_value(body.take(i - start)) > limit,
        decreases len - i,
    {
        let c = text.get_char(i);
        let code: u32 = c as u32;
        let ghost k = i - start;
        assert(body[k] == c);
        if code < 0x30 || code > 0x39 {
            assert(0 <= k < body.len() && !is_digit(body[k]));
            assert(!all_digits(body));
            return None;
        }
        let digit: u128 = (code - 0x30) as u128;
        proof {
            let next = body.take(k + 1);
            assert(next.drop_last() =~= body.take(k));
            assert(next.last() == c);
            assert(digits_value(next) == digits_value(body.take(k)) * 10 + digit);
            assert forall|j: int| 0 <= j < next.len() implies is_digit(#[trigger] next[j]) by {
                if j < k {
                    assert(next[j] == body.take(k)[j]);
                }
            }
        }
        if !over {
            magnitude = magnitude * 10 + digit;
            if magnitude > limit {
                over = true;
            }
        }
        i += 1;
    }
    assert(body.take(len - start) =~= body);
    if over {
        None
    } else if negative {
        let value: i128 = 0 - (magnitude as i128);
        Some(value as i64)
    } else if magnitude < limit {
        Some(magnitude as i64)
    } else {
        None
    }
}

} // verus!
