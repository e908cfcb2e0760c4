//! Reading the device's API level out of the value of the system property.
//!
//! The property is read into a buffer of C characters. The level is the
//! decimal integer that the buffer holds as a NUL-terminated string; whatever
//! else the buffer holds leaves the level unknown.

use vstd::prelude::*;
use vstd::slice::slice_subrange;

verus! {

/// The level that stands for "library absent or version undeterminable".
pub const UNKNOWN_LEVEL: i32 = -1;

/// The bytes of a buffer of C characters, each one reinterpreted as unsigned.
pub open spec fn chars_as_bytes(chars: Seq<libc::c_char>) -> Seq<u8> {
    chars.map_values(|c: libc::c_char| c as u8)
}

/// `n` is the place of the first NUL in `buffer`.
pub open spec fn is_text_end(buffer: Seq<u8>, n: int) -> bool {
    &&& 0 <= n < buffer.len()
    &&& buffer[n] == 0
    &&& forall|i: int| 0 <= i < n ==> buffer[i] != 0
}

/// The string that a buffer holds: the bytes before its first NUL. A buffer
/// without a NUL holds no string.
pub open spec fn terminated_text(buffer: Seq<u8>) -> Option<Seq<u8>> {
    if exists|n: int| is_text_end(buffer, n) {
        Some(buffer.take(choose|n: int| is_text_end(buffer, n)))
    } else {
        None
    }
}

/// An ASCII decimal digit.
pub open spec fn is_digit(b: u8) -> bool {
    48 <= b <= 57
}

/// Every byte is a decimal digit.
pub open spec fn all_digits(s: Seq<u8>) -> bool {
    forall|i: int| 0 <= i < s.len() ==> is_digit(#[trigger] s[i])
}

/// The number that a string of decimal digits writes, most significant first.
pub open spec fn digits_value(s: Seq<u8>) -> int
    decreases s.len(),
{
    if s.len() == 0 {
        0
    } else {
        10 * digits_value(s.drop_last()) + (s.last() - 48)
    }
}

/// The text starts with a sign, `+` or `-`.
pub open spec fn has_sign(text: Seq<u8>) -> bool {
    text.len() > 0 && (text[0] == 43 || text[0] == 45)
}

/// The integer that a text writes in decimal: an optional sign, then one or
/// more digits and nothing else. Any other text writes none.
pub open spec fn decimal_value(text: Seq<u8>) -> Option<int> {
    let digits = if has_sign(text) { text.skip(1) } else { text };
    if digits.len() > 0 && all_digits(digits) {
        if text[0] == 45 {
            Some(-digits_value(digits))
        } else {
            Some(digits_value(digits))
        }
    } else {
        None
    }
}

/// The level that a text writes: its decimal value where that fits the
/// level's type.
pub open spec fn level_of_text(text: Seq<u8>) -> Option<i32> {
    match decimal_value(text) {
        Some(v) => if i32::MIN <= v <= i32::MAX { Some(v as i32) } else { None },
        None => None,
    }
}

/// The level that a read of the property gives. `returned` is what the
/// property function returned, the length of the value; `value` is the buffer
/// it filled. A read that returned less than one, an unterminated buffer and a
/// text that writes no level all leave the level unknown.
pub open spec fn property_level(returned: i32, value: Seq<u8>) -> i32 {
    if returned >= 1 {
        match terminated_text(value) {
            Some(text) => match level_of_text(text) {
                Some(level) => level,
                None => UNKNOWN_LEVEL,
            },
            None => UNKNOWN_LEVEL,
        }
    } else {
        UNKNOWN_LEVEL
    }
}

/// A buffer has at most one first NUL.
pub proof fn lemma_text_end_unique(buffer: Seq<u8>, n: int, m: int)
    requires
        is_text_end(buffer, n),
        is_text_end(buffer, m),
    ensures
        n == m,
{
    if n < m {
        assert(buffer[n] != 0);
    } else if m < n {
        assert(buffer[m] != 0);
    }
}

/// A string of digits writes a number that is at least the number that any
/// of its prefixes writes, and is not negative.
pub proof fn lemma_digits_value_grows(s: Seq<u8>, k: int)
    requires
        all_digits(s),
        0 <= k <= s.len(),
    ensures
        0 <= digits_value(s.take(k)) <= digits_value(s),
    decreases s.len(),
{
    if k == s.len() {
        assert(s.take(k) =~= s);
        if s.len() > 0 {
            assert(is_digit(s[s.len() - 1]));
            lemma_digits_value_grows(s.drop_last(), k - 1);
        }
    } else {
        assert(is_digit(s[s.len() - 1]));
        lemma_digits_value_grows(s.drop_last(), k);
        assert(s.drop_last().take(k) =~= s.take(k));
    }
}

/// `bytemuck::cast_slice` from C characters to bytes. Both element types are
/// one byte wide and aligned to one, so the cast cannot fail: the result has
/// the length of the argument and holds the same bytes in the same order.
#[verifier::external_body]
fn cast_chars(chars: &[libc::c_char]) -> (bytes: &[u8])
    ensures
        bytes@ == chars_as_bytes(chars@),
{
    bytemuck::cast_slice(chars)
}

/// The string that `buffer` holds, without its terminator.
pub fn text_before_nul(buffer: &[u8]) -> (text: Option<&[u8]>)
    ensures
        match text {
            Some(t) => terminated_text(buffer@) == Some(t@),
            None => terminated_text(buffer@) is None,
        },
{
    let n: usize = buffer.len();
    let mut i: usize = 0;
    while i < n
        invariant
            i <= n,
            n == buffer@.len(),
            forall|j: int| 0 <= j < i ==> buffer@[j] != 0,
        decreases n - i,
    {
        if buffer[i] == 0 {
            proof {
                assert(is_text_end(buffer@, i as int));
                let m = choose|m: int| is_text_end(buffer@, m);
                lemma_text_end_unique(buffer@, i as int, m);
            }
            return Some(slice_subrange(buffer, 0, i));
        }
        i += 1;
    }
    None
}

/// The level that `text` writes in decimal.
///
/// A sign may come first. Digits must follow, up to the end, and the number
/// must fit the level's type.
pub fn parse_level(text: &[u8]) -> (level: Option<i32>)
    ensures
        level == level_of_text(text@),
{
    let n: usize = text.len();
    if n == 0 {
        return None;
    }
    let negative: bool = text[0] == 45;
    let start: usize = if text[0] == 43 || text[0] == 45 { 1 } else { 0 };
    if start == n {
        return None;
    }
    let ghost digits: Seq<u8> = text@.skip(start as int);
    assert(!has_sign(text@) ==> digits =~= text@);
    let mut value: i64 = 0;
    let mut i: usize = start;
    while i < n
        invariant
            start <= i <= n,
            start < n,
            n == text@.len(),
            start == (if has_sign(text@) { 1int } else { 0int }),
            negative == (text@[0] == 45),
            digits == text@.skip(start as int),
            !has_sign(text@) ==> digits == text@,
            all_digits(digits.take(i - start)),
            value == digits_value(digits.take(i - start)),
            0 <= value <= 2147483648,
        decreases n - i,
    {
        let b: u8 = text[i];
        if b < 48 || b > 57 {
            assert(!is_digit(digits[i - start]));
            return None;
        }
        let digit: i64 = (b - 48) as i64;
        value = value * 10 + digit;
        proof {
            let longer = digits.take(i + 1 - start);
            assert(longer.drop_last() =~= digits.take(i - start));
            assert(longer.last() == b);
            assert(all_digits(longer)) by {
                assert forall|j: int| 0 <= j < longer.len() implies is_digit(#[trigger] longer[j]) by {
                    if j < i - start {
                        assert(longer[j] == digits.take(i - start)[j]);
                    }
                }
            }
        }
        if value > 2147483648 {
            proof {
                if all_digits(digits) {
                    lemma_digits_value_grows(digits, i + 1 - start);
                }
            }
            return None;
        }
        i += 1;
    }
    assert(digits.take(n - start) =~= digits);
    if negative {
        Some((-value) as i32)
    } else if value == 2147483648 {
        None
    } else {
        Some(value as i32)
    }
}

/// The device's API level, from what a read of the property gave.
pub fn level_from_property(returned: i32, value: &[libc::c_char]) -> (level: i32)
    ensures
        level == property_level(returned, chars_as_bytes(value@)),
{
    if returned < 1 {
        return UNKNOWN_LEVEL;
    }
    match text_before_nul(cast_chars(value)) {
        Some(text) => match parse_level(text) {
            Some(level) => level,
            None => UNKNOWN_LEVEL,
        },
        None => UNKNOWN_LEVEL,
    }
}

} // verus!
