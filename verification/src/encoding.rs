//! Numbers as text. Lowercase hexadecimal: what it is for a byte string, how
//! it is read back, and that the two are inverse to each other. Decimal: the
//! digits of an unsigned integer.

use vstd::prelude::*;

verus! {

/// The digit for a value from 0 to 15, in lowercase from ten on.
pub open spec fn digit_of(value: int) -> char {
    if value == 0 {
        '0'
    } else if value == 1 {
        '1'
    } else if value == 2 {
        '2'
    } else if value == 3 {
        '3'
    } else if value == 4 {
        '4'
    } else if value == 5 {
        '5'
    } else if value == 6 {
        '6'
    } else if value == 7 {
        '7'
    } else if value == 8 {
        '8'
    } else if value == 9 {
        '9'
    } else if value == 10 {
        'a'
    } else if value == 11 {
        'b'
    } else if value == 12 {
        'c'
    } else if value == 13 {
        'd'
    } else if value == 14 {
        'e'
    } else {
        'f'
    }
}

/// The value of a lowercase hexadecimal digit, or -1 for any other character.
pub open spec fn digit_value(digit: char) -> int {
    if digit == '0' {
        0
    } else if digit == '1' {
        1
    } else if digit == '2' {
        2
    } else if digit == '3' {
        3
    } else if digit == '4' {
        4
    } else if digit == '5' {
        5
    } else if digit == '6' {
        6
    } else if digit == '7' {
        7
    } else if digit == '8' {
        8
    } else if digit == '9' {
        9
    } else if digit == 'a' {
        10
    } else if digit == 'b' {
        11
    } else if digit == 'c' {
        12
    } else if digit == 'd' {
        13
    } else if digit == 'e' {
        14
    } else if digit == 'f' {
        15
    } else {
        -1
    }
}

/// The hexadecimal text of a byte string: two lowercase digits for each
/// byte, the high half first.
pub open spec fn hex_text(bytes: Seq<u8>) -> Seq<char> {
    Seq::new(
        2 * bytes.len(),
        |i: int|
            if i % 2 == 0 {
                digit_of(bytes[i / 2] as int / 16)
            } else {
                digit_of(bytes[i / 2] as int % 16)
            },
    )
}

/// Whether `text` is the hexadecimal text of some byte string.
pub open spec fn is_hex_text(text: Seq<char>) -> bool {
    text.len() % 2 == 0 && forall|i: int| 0 <= i < text.len() ==> digit_value(#[trigger] text[i]) >= 0
}

/// The byte string that hexadecimal text stands for.
pub open spec fn hex_bytes(text: Seq<char>) -> Seq<u8>
    recommends
        is_hex_text(text),
{
    Seq::new(
        text.len() / 2,
        |i: int| (16 * digit_value(text[2 * i]) + digit_value(text[2 * i + 1])) as u8,
    )
}

/// The decimal digits of `value`, most significant first, without leading
/// zeros.
pub open spec fn decimal_text(value: nat) -> Seq<char>
    decreases value,
{
    if value < 10 {
        seq![digit_of(value as int)]
    } else {
        decimal_text(value / 10).push(digit_of((value % 10) as int))
    }
}

/// The digits of `digits` as text, last digit first.
pub open spec fn reversed_text(digits: Seq<u8>) -> Seq<char> {
    Seq::new(digits.len(), |i: int| digit_of(digits[digits.len() - 1 - i] as int))
}

/// The one-character text of a decimal digit.
fn digit_text(value: u8) -> (text: &'static str)
    requires
        value < 10,
    ensures
        text@ == seq![digit_of(value as int)],
{
    proof {
        reveal_strlit("0");
        reveal_strlit("1");
        reveal_strlit("2");
        reveal_strlit("3");
        reveal_strlit("4");
        reveal_strlit("5");
        reveal_strlit("6");
        reveal_strlit("7");
        reveal_strlit("8");
        reveal_strlit("9");
    }
    let text: &'static str = match value {
        0 => "0",
        1 => "1",
        2 => "2",
        3 => "3",
        4 => "4",
        5 => "5",
        6 => "6",
        7 => "7",
        8 => "8",
        _ => "9",
    };
    assert(text@ =~= seq![digit_of(value as int)]);
    text
}

/// Writes `value` in decimal.
pub(crate) fn decimal(value: u128) -> (text: String)
    ensures
        text@ == decimal_text(value as nat),
{
    let mut low: Vec<u8> = Vec::new();
    let mut rest: u128 = value;
    while rest >= 10
        invariant
            forall|i: int| 0 <= i < low@.len() ==> low@[i] < 10,
            decimal_text(value as nat) == decimal_text(rest as nat) + reversed_text(low@),
        decreases rest,
    {
        let last: u8 = (rest % 10) as u8;
        proof {
            assert(reversed_text(low@.push(last)) =~= seq![digit_of(last as int)] + reversed_text(
                low@,
            ));
            assert(decimal_text(rest as nat) =~= decimal_text((rest / 10) as nat) + seq![
                digit_of(last as int),
            ]);
        }
        low.push(last);
        rest = rest / 10;
    }
    let mut text: String = String::from_str(digit_text(rest as u8));
    let mut left: usize = low.len();
    while left > 0
        invariant
            left <= low@.len(),
            forall|i: int| 0 <= i < low@.len() ==> low@[i] < 10,
            text@ == decimal_text(rest as nat) + reversed_text(low@).subrange(
                0,
                low@.len() - left,
            ),
        decreases left,
    {
        left = left - 1;
        text.append(digit_text(low[left]));
        assert(text@ =~= decimal_text(rest as nat) + reversed_text(low@).subrange(
            0,
            low@.len() - left,
        ));
    }
    assert(reversed_text(low@).subrange(0, low@.len() as int) =~= reversed_text(low@));
    text
}

/// Calls `hex::encode`.
///
/// Trusted: the result holds, for each byte in order, the character of
/// `0123456789abcdef` at the byte's high four bits and then the one at its
/// low four bits.
#[verifier::external_body]
pub(crate) fn encode(bytes: &[u8]) -> (text: String)
    ensures
        text@ == hex_text(bytes@),
{
    hex::encode(bytes)
}

/// A digit's value is the value it was chosen for.
pub proof fn lemma_digit_round_trip(value: int)
    requires
        0 <= value < 16,
    ensures
        digit_value(digit_of(value)) == value,
{
}

/// A value's digit is the digit it was read from.
pub proof fn lemma_value_round_trip(digit: char)
    requires
        digit_value(digit) >= 0,
    ensures
        0 <= digit_value(digit) < 16,
        digit_of(digit_value(digit)) == digit,
{
}

/// Bytes to text and back gives the bytes again.
pub proof fn lemma_hex_round_trip(bytes: Seq<u8>)
    ensures
        is_hex_text(hex_text(bytes)),
        hex_bytes(hex_text(bytes)) == bytes,
{
    let text: Seq<char> = hex_text(bytes);
    assert forall|i: int| 0 <= i < text.len() implies digit_value(#[trigger] text[i]) >= 0 by {
        let byte: int = bytes[i / 2] as int;
        lemma_digit_round_trip(byte / 16);
        lemma_digit_round_trip(byte % 16);
    }
    assert forall|k: int| 0 <= k < bytes.len() implies #[trigger] hex_bytes(text)[k] == bytes[k] by {
        let byte: int = bytes[k] as int;
        lemma_digit_round_trip(byte / 16);
        lemma_digit_round_trip(byte % 16);
    }
}

/// Text to bytes and back gives the text again.
pub proof fn lemma_text_round_trip(text: Seq<char>)
    requires
        is_hex_text(text),
    ensures
        hex_text(hex_bytes(text)) == text,
{
    let bytes: Seq<u8> = hex_bytes(text);
    assert forall|i: int| 0 <= i < text.len() implies #[trigger] hex_text(bytes)[i] == text[i] by {
        let k: int = i / 2;
        lemma_value_round_trip(text[2 * k]);
        lemma_value_round_trip(text[2 * k + 1]);
    }
}

} // verus!
