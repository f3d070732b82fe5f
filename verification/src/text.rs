//! Numbers and byte strings as text.
use vstd::prelude::*;
use vstd::string::*;

verus! {

/// The character of a decimal digit.
pub open spec fn digit_char(digit: nat) -> char {
    if digit == 0 {
        '0'
    } else if digit == 1 {
        '1'
    } else if digit == 2 {
        '2'
    } else if digit == 3 {
        '3'
    } else if digit == 4 {
        '4'
    } else if digit == 5 {
        '5'
    } else if digit == 6 {
        '6'
    } else if digit == 7 {
        '7'
    } else if digit == 8 {
        '8'
    } else {
        '9'
    }
}

/// A number in decimal notation, without sign or leading zeros.
pub open spec fn decimal(n: nat) -> Seq<char>
    decreases n,
{
    if n < 10 {
        seq![digit_char(n)]
    } else {
        decimal(n / 10).push(digit_char(n % 10))
    }
}

/// The numbers of a byte string in decimal notation, with a comma and a
/// space between each two.
pub open spec fn byte_list(bytes: Seq<u8>) -> Seq<char>
    decreases bytes.len(),
{
    if bytes.len() == 0 {
        Seq::empty()
    } else if bytes.len() == 1 {
        decimal(bytes[0] as nat)
    } else {
        byte_list(bytes.drop_last()) + ", "@ + decimal(bytes.last() as nat)
    }
}

/// How a binary message is described in a transcript: the word `Binary` and,
/// in round and square brackets, the list of its bytes.
pub open spec fn binary_description(bytes: Seq<u8>) -> Seq<char> {
    "Binary(["@ + byte_list(bytes) + "])"@
}

/// The text of one decimal digit.
fn digit_text(digit: u8) -> (text: &'static str)
    requires
        digit < 10,
    ensures
        text@ == seq![digit_char(digit as nat)],
{
    proof {
        reveal_strlit("0");
        reveal_strlit("1");
        reveal_strlit("2");
        reveal_strlit("3");
        reveal_strlit("4");
        reveal_strlit("5");
        reveal_strlit("6");
        reveal_strlit("7");
        reveal_strlit("8");
        reveal_strlit("9");
    }
    let text = match digit {
        0 => "0",
        1 => "1",
        2 => "2",
        3 => "3",
        4 => "4",
        5 => "5",
        6 => "6",
        7 => "7",
        8 => "8",
        _ => "9",
    };
    assert(text@ =~= seq![digit_char(digit as nat)]);
    text
}

/// Appends a number in decimal notation to a text.
pub fn append_decimal(out: &mut String, n: u32)
    ensures
        final(out)@ == old(out)@ + decimal(n as nat),
    decreases n,
{
    if n >= 10 {
        append_decimal(out, n / 10);
    }
    let last: u8 = (n % 10) as u8;
    out.append(digit_text(last));
    assert(final(out)@ =~= old(out)@ + decimal(n as nat));
}

/// A number in decimal notation.
pub fn decimal_text(n: u32) -> (text: String)
    ensures
        text@ == decimal(n as nat),
{
    let mut text = String::new();
    append_decimal(&mut text, n);
    assert(text@ =~= decimal(n as nat));
    text
}

/// The description of a binary message for a transcript.
pub fn describe_binary(bytes: &Vec<u8>) -> (text: String)
    ensures
        text@ == binary_description(bytes@),
{
    let mut text = String::from_str("Binary([");
    let mut at: usize = 0;
    while at < bytes.len()
        invariant
            at <= bytes.len(),
            text@ == "Binary(["@ + byte_list(bytes@.take(at as int)),
        decreases bytes.len() - at,
    {
        let ghost before = text@;
        if at > 0 {
            text.append(", ");
        }
        append_decimal(&mut text, bytes[at] as u32);
        proof {
            let done = bytes@.take(at as int);
            let next = bytes@.take(at + 1);
            assert(next.drop_last() =~= done);
            assert(next.last() == bytes@[at as int]);
            assert(text@ =~= "Binary(["@ + byte_list(next));
        }
        at = at + 1;
    }
    assert(bytes@.take(at as int) =~= bytes@);
    text.append("])");
    text
}

} // verus!
