//! Unsigned decimal numbers as they are written on a command line.
//!
//! A number is an optional `+` followed by one or more ASCII digits. Leading
//! zeros are allowed; anything else, a value above the limit included, is not a
//! number.

use vstd::prelude::*;
use vstd::string::*;

verus! {

/// `c` is one of `0` to `9`.
pub open spec fn is_digit(c: char) -> bool {
    '0' <= c && c <= '9'
}

/// What the digit `c` counts for; zero for any other character.
pub open spec fn digit_value(c: char) -> nat {
    if is_digit(c) {
        (c as nat - 48) as nat
    } else {
        0
    }
}

/// Every character of `s` is a digit.
pub open spec fn all_digits(s: Seq<char>) -> bool {
    forall|i: int| 0 <= i < s.len() ==> is_digit(#[trigger] s[i])
}

/// The number that the digits of `s` spell in base ten, most significant first.
pub open spec fn digits_value(s: Seq<char>) -> nat
    decreases s.len(),
{
    if s.len() == 0 {
        0
    } else {
        digits_value(s.drop_last()) * 10 + digit_value(s.last())
    }
}

/// `s` without its leading `+`, if it has one.
pub open spec fn without_plus(s: Seq<char>) -> Seq<char> {
    if s.len() > 0 && s[0] == '+' {
        s.drop_first()
    } else {
        s
    }
}

/// The number that `s` denotes, if `s` is a number no greater than `max`.
pub open spec fn decimal_within(s: Seq<char>, max: nat) -> Option<nat> {
    let digits = without_plus(s);
    if digits.len() > 0 && all_digits(digits) && digits_value(digits) <= max {
        Some(digits_value(digits))
    } else {
        None
    }
}

/// The 16-bit number that `s` denotes, if any.
pub open spec fn decimal_u16(s: Seq<char>) -> Option<u16> {
    match decimal_within(s, 0xffff) {
        Some(n) => Some(n as u16),
        None => None,
    }
}

/// The 32-bit number that `s` denotes, if any.
pub open spec fn decimal_u32(s: Seq<char>) -> Option<u32> {
    match decimal_within(s, 0xffff_ffff) {
        Some(n) => Some(n as u32),
        None => None,
    }
}

/// Reading more digits never makes the number smaller.
pub proof fn lemma_prefix_value(s: Seq<char>, k: int)
    requires
        0 <= k <= s.len(),
    ensures
        digits_value(s.subrange(0, k)) <= digits_value(s),
    decreases s.len(),
{
    if k == s.len() {
        assert(s.subrange(0, k) =~= s);
    } else {
        lemma_prefix_value(s.drop_last(), k);
        assert(s.drop_last().subrange(0, k) =~= s.subrange(0, k));
    }
}

/// A text with a character beyond ASCII is not a number.
proof fn lemma_not_ascii_not_decimal(s: Seq<char>, max: nat)
    requires
        !vstd::utf8::is_ascii_chars(s),
    ensures
        decimal_within(s, max) is None,
{
    let i = choose|i: int| 0 <= i < s.len() && !('\0' <= #[trigger] s[i] <= '\u{7f}');
    let digits = without_plus(s);
    if digits.len() == s.len() {
        assert(!is_digit(digits[i]));
    } else {
        assert(i > 0);
        assert(digits[i - 1] == s[i]);
        assert(!is_digit(digits[i - 1]));
    }
}

/// Reads `text` as a decimal number no greater than `max`.
pub fn parse_unsigned(text: &str, max: u64) -> (value: Option<u64>)
    ensures
        match value {
            Some(n) => decimal_within(text@, max as nat) == Some(n as nat),
            None => decimal_within(text@, max as nat) is None,
        },
{
    if !text.is_ascii() {
        proof {
            lemma_not_ascii_not_decimal(text@, max as nat);
        }
        return None;
    }
    let bytes = text.as_bytes();
    proof {
        is_ascii_spec_bytes(text);
    }
    let len = bytes.len();
    let start: usize = if len > 0 && bytes[0] == 43 {
        1
    } else {
        0
    };
    let ghost digits = without_plus(text@);
    assert(digits =~= text@.subrange(start as int, len as int));
    if start == len {
        return None;
    }
    let mut value: u64 = 0;
    let mut i: usize = start;
    while i < len
        invariant
            start <= i <= len,
            len == text@.len(),
            bytes@.len() == len,
            vstd::utf8::is_ascii_chars(text@),
            forall|j: int| 0 <= j < len ==> #[trigger] bytes@[j] == text@[j] as u8,
            digits == without_plus(text@),
            digits == text@.subrange(start as int, len as int),
            all_digits(digits.subrange(0, i - start)),
            value == digits_value(digits.subrange(0, i - start)),
            value <= max,
        decreases len - i,
    {
        let byte = bytes[i];
        let ghost c = text@[i as int];
        assert(digits[i - start] == c);
        assert('\0' <= c <= '\u{7f}' && byte == c as u8);
        if byte < 48 || byte > 57 {
            assert(!is_digit(digits[i - start]));
            return None;
        }
        assert(is_digit(c));
        let digit: u64 = (byte - 48) as u64;
        assert(digit == digit_value(c));
        let ghost longer = digits.subrange(0, i - start + 1);
        assert(longer.drop_last() =~= digits.subrange(0, i - start));
        assert(longer.last() == c);
        assert(digits_value(longer) == value * 10 + digit);
        if value > max / 10 || (value == max / 10 && digit > max % 10) {
            proof {
                lemma_prefix_value(digits, i - start + 1);
            }
            return None;
        }
        value = value * 10 + digit;
        i += 1;
        assert(all_digits(digits.subrange(0, i - start))) by {
            assert forall|j: int| 0 <= j < i - start implies is_digit(
                #[trigger] digits.subrange(0, i - start)[j],
            ) by {
                if j < i - start - 1 {
                    assert(digits.subrange(0, i - start - 1)[j] == digits[j]);
                }
            }
        }
    }
    assert(digits.subrange(0, len - start) =~= digits);
    Some(value)
}

/// Reads `text` as a 16-bit decimal number.
pub fn parse_u16(text: &str) -> (value: Option<u16>)
    ensures
        value == decimal_u16(text@),
{
    match parse_unsigned(text, 0xffff) {
        Some(n) => Some(n as u16),
        None => None,
    }
}

/// Reads `text` as a 32-bit decimal number.
pub fn parse_u32(text: &str) -> (value: Option<u32>)
    ensures
        value == decimal_u32(text@),
{
    match parse_unsigned(text, 0xffff_ffff) {
        Some(n) => Some(n as u32),
        None => None,
    }
}

} // verus!
