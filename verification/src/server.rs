//! The port that the server listens on, as the `PORT` setting gives it.

use vstd::prelude::*;
use vstd::string::StrSliceExecFns;

verus! {

/// The port where nothing is set.
pub const DEFAULT_PORT: u16 = 8080;

/// The character is a decimal digit.
pub open spec fn is_digit(c: char) -> bool {
    '0' <= c <= '9'
}

/// The number that a decimal digit stands for; 0 for any other character.
pub open spec fn digit_value(c: char) -> nat {
    if is_digit(c) {
        (c as int - '0' as int) as nat
    } else {
        0
    }
}

/// The number that a text of decimal digits stands for.
pub open spec fn digits_value(text: Seq<char>) -> nat
    decreases text.len(),
{
    if text.len() == 0 {
        0
    } else {
        digits_value(text.drop_last()) * 10 + digit_value(text.last())
    }
}

/// Every character is a decimal digit.
pub open spec fn all_digits(text: Seq<char>) -> bool {
    forall|i: int| 0 <= i < text.len() ==> is_digit(#[trigger] text[i])
}

/// The text without the plus sign that may stand in front.
pub open spec fn unsigned_part(text: Seq<char>) -> Seq<char> {
    if text.len() > 0 && text[0] == '+' {
        text.drop_first()
    } else {
        text
    }
}

/// The port that a text stands for: one or more decimal digits, with or
/// without a plus sign in front, that give a number of 16 bits. Any other
/// text stands for none.
pub open spec fn port_number(text: Seq<char>) -> Option<u16> {
    let digits = unsigned_part(text);
    if digits.len() > 0 && all_digits(digits) && digits_value(digits) <= u16::MAX {
        Some(digits_value(digits) as u16)
    } else {
        None
    }
}

/// The port for a setting: the default where there is none, else the port
/// that its text stands for.
pub open spec fn port_for(setting: Option<Seq<char>>) -> Option<u16> {
    match setting {
        Some(text) => port_number(text),
        None => Some(DEFAULT_PORT),
    }
}

/// A longer run of digits stands for no smaller a number.
proof fn lemma_value_grows(text: Seq<char>, shorter: int)
    requires
        0 <= shorter <= text.len(),
    ensures
        digits_value(text.take(shorter)) <= digits_value(text),
    decreases text.len(),
{
    if shorter == text.len() {
        assert(text.take(shorter) =~= text);
    } else {
        lemma_value_grows(text.drop_last(), shorter);
        assert(text.drop_last().take(shorter) =~= text.take(shorter));
    }
}

/// The port that a text stands for, if it stands for one.
pub fn parse_port(text: &str) -> (port: Option<u16>)
    ensures
        port == port_number(text@),
{
    let len = text.unicode_len();
    let start: usize = if len > 0 && text.get_char(0) == '+' {
        1
    } else {
        0
    };
    let ghost digits = unsigned_part(text@);
    assert(digits =~= text@.subrange(start as int, len as int));
    if start == len {
        return None;
    }
    let mut value: u32 = 0;
    let mut at: usize = start;
    while at < len
        invariant
            start <= at <= len,
            len == text@.len(),
            digits == unsigned_part(text@),
            digits == text@.subrange(start as int, len as int),
            all_digits(digits.take(at - start)),
            value == digits_value(digits.take(at - start)),
            value <= u16::MAX,
        decreases len - at,
    {
        let c = text.get_char(at);
        let ghost seen = digits.take(at - start + 1);
        proof {
            assert(seen.drop_last() =~= digits.take(at - start));
            assert(seen.last() == c);
            lemma_value_grows(digits, at - start + 1);
        }
        if c < '0' || c > '9' {
            assert(!is_digit(digits[at - start]));
            return None;
        }
        let digit: u32 = c as u32 - '0' as u32;
        value = value * 10 + digit;
        if value > 65535 {
            return None;
        }
        at += 1;
    }
    assert(digits.take(at - start) =~= digits);
    Some(value as u16)
}

/// The port to listen on: the default where `PORT` is not set, else the port
/// that the setting stands for, or `None` where it stands for none.
pub fn listen_port(setting: Option<&str>) -> (port: Option<u16>)
    ensures
        port == port_for(
            match setting {
                Some(text) => Some(text@),
                None => None,
            },
        ),
{
    match setting {
        Some(text) => parse_port(text),
        None => Some(DEFAULT_PORT),
    }
}

} // verus!
