//! Port numbers written in decimal.
use vstd::prelude::*;
use vstd::string::*;

verus! {

/// The largest port number.
pub const MAX_PORT: u32 = 65535;

/// Whether a character is one of the ten decimal digits.
pub open spec fn is_digit(c: char) -> bool {
    '0' <= c <= '9'
}

/// Whether a text is made of decimal digits, at least one.
pub open spec fn is_decimal(digits: Seq<char>) -> bool {
    &&& digits.len() > 0
    &&& forall|at: int| 0 <= at < digits.len() ==> is_digit(#[trigger] digits[at])
}

/// The number that a text of decimal digits denotes.
pub open spec fn decimal_value(digits: Seq<char>) -> nat
    decreases digits.len(),
{
    if digits.len() == 0 {
        0
    } else {
        decimal_value(digits.drop_last()) * 10 + (digits.last() as nat - '0' as nat) as nat
    }
}

/// The text without the plus sign that may stand at its head.
pub open spec fn unsigned_part(text: Seq<char>) -> Seq<char> {
    if text.len() > 0 && text[0] == '+' {
        text.skip(1)
    } else {
        text
    }
}

/// The port number that a text denotes: decimal digits, with leading zeros
/// or one plus sign before them if one likes, that name a number up to
/// 65535. Any other text denotes none.
pub open spec fn port_of(text: Seq<char>) -> Option<u16> {
    let digits = unsigned_part(text);
    if is_decimal(digits) && decimal_value(digits) <= MAX_PORT {
        Some(decimal_value(digits) as u16)
    } else {
        None
    }
}

/// A text of digits denotes at least what any of its beginnings denotes.
pub proof fn lemma_value_grows(digits: Seq<char>, upto: int)
    requires
        0 <= upto <= digits.len(),
    ensures
        decimal_value(digits.take(upto)) <= decimal_value(digits),
    decreases digits.len() - upto,
{
    if upto < digits.len() {
        lemma_value_grows(digits, upto + 1);
        assert(digits.take(upto + 1).drop_last() =~= digits.take(upto));
    } else {
        assert(digits.take(upto) =~= digits);
    }
}

/// Reads a port number.
pub fn parse_port(text: &str) -> (port: Option<u16>)
    ensures
        port == port_of(text@),
{
    let len: usize = text.unicode_len();
    let mut at: usize = 0;
    if len > 0 && text.get_char(0) == '+' {
        at = 1;
    }
    let start: usize = at;
    let ghost digits = unsigned_part(text@);
    assert(digits =~= text@.skip(start as int));
    if at == len {
        return None;
    }
    let mut value: u32 = 0;
    while at < len
        invariant
            start <= at <= len,
            len == text@.len(),
            digits == text@.skip(start as int),
            digits == unsigned_part(text@),
            forall|seen: int| 0 <= seen < at - start ==> is_digit(#[trigger] digits[seen]),
            value == decimal_value(digits.take(at - start)),
            value <= MAX_PORT,
        decreases len - at,
    {
        let c: char = text.get_char(at);
        assert(c == digits[at - start]);
        if c < '0' || c > '9' {
            assert(!is_digit(digits[at - start]));
            return None;
        }
        let digit: u32 = c as u32 - '0' as u32;
        proof {
            let longer = digits.take(at - start + 1);
            assert(longer.drop_last() =~= digits.take(at - start));
            assert(longer.last() == c);
            assert(decimal_value(longer) == value * 10 + digit);
        }
        value = value * 10 + digit;
        if value > MAX_PORT {
            proof {
                if is_decimal(digits) {
                    lemma_value_grows(digits, at - start + 1);
                }
            }
            return None;
        }
        at = at + 1;
    }
    assert(digits.take(at - start) =~= digits);
    Some(value as u16)
}

} // verus!
