//! Text in small: what an optional string holds, ASCII read byte by byte,
//! and numbers in decimal digits.

use vstd::prelude::*;
use vstd::string::*;

verus! {

/// What an optional string holds.
pub open spec fn option_text(text: Option<String>) -> Option<Seq<char>> {
    match text {
        Some(t) => Some(t@),
        None => None,
    }
}

/// The character that an ASCII byte encodes.
pub open spec fn ascii_char(byte: u8) -> char {
    byte as char
}

/// `bytes` are ASCII codes, and `chars` are the characters they encode.
pub open spec fn spells(bytes: Seq<u8>, chars: Seq<char>) -> bool {
    &&& bytes.len() == chars.len()
    &&& forall|i: int|
        0 <= i < bytes.len() ==> (#[trigger] bytes[i]) < 128 && chars[i] == ascii_char(bytes[i])
}

/// In an ASCII string every byte is one character.
pub proof fn lemma_ascii_bytes_are_chars(text: &str)
    requires
        is_ascii(text),
    ensures
        spells(text.spec_bytes(), text@),
{
    broadcast use is_ascii_spec_bytes;

    assert forall|i: int| 0 <= i < text@.len() implies (#[trigger] text.spec_bytes()[i]) < 128
        && text@[i] == ascii_char(text.spec_bytes()[i]) by {
        assert('\0' <= text@[i] <= '\u{7f}');
    }
}

/// Whether `text` begins with `prefix`, both ASCII.
pub(crate) fn ascii_starts_with(text: &str, prefix: &str) -> (found: bool)
    requires
        is_ascii(text),
        is_ascii(prefix),
    ensures
        found == prefix@.is_prefix_of(text@),
{
    let text_bytes = text.as_bytes();
    let prefix_bytes = prefix.as_bytes();
    proof {
        lemma_ascii_bytes_are_chars(text);
        lemma_ascii_bytes_are_chars(prefix);
    }
    if prefix_bytes.len() > text_bytes.len() {
        return false;
    }
    let mut i: usize = 0;
    while i < prefix_bytes.len()
        invariant
            i <= prefix_bytes@.len() <= text_bytes@.len(),
            spells(text_bytes@, text@),
            spells(prefix_bytes@, prefix@),
            forall|k: int| 0 <= k < i ==> prefix@[k] == text@[k],
        decreases prefix_bytes@.len() - i,
    {
        if prefix_bytes[i] != text_bytes[i] {
            return false;
        }
        i += 1;
    }
    true
}

/// `String::push` of std: the character is appended at the end.
#[verifier::external_body]
pub(crate) fn push_char(text: &mut String, c: char)
    ensures
        final(text)@ == old(text)@.push(c),
{
    text.push(c);
}

/// ASCII code of the digit `0`.
pub(crate) const ASCII_ZERO: u8 = 48;

/// ASCII code of the digit `9`.
pub(crate) const ASCII_NINE: u8 = 57;

/// One of the ten ASCII digits.
pub open spec fn is_decimal_digit(c: char) -> bool {
    '0' <= c && c <= '9'
}

/// Every character is one of the ten ASCII digits.
pub open spec fn all_decimal_digits(text: Seq<char>) -> bool {
    forall|i: int| 0 <= i < text.len() ==> is_decimal_digit(#[trigger] text[i])
}

/// The number that a digit stands for.
pub open spec fn digit_value(c: char) -> nat {
    (c as int - '0' as int) as nat
}

/// The digit that stands for a number below ten.
pub open spec fn digit_of(value: nat) -> char {
    ('0' as int + value) as char
}

/// The number written by a run of decimal digits, leading zeros allowed.
pub open spec fn decimal_value(digits: Seq<char>) -> nat
    decreases digits.len(),
{
    if digits.len() == 0 {
        0
    } else {
        decimal_value(digits.drop_last()) * 10 + digit_value(digits.last())
    }
}

/// A number written in decimal digits, without leading zeros.
pub open spec fn decimal_text_of(value: nat) -> Seq<char>
    decreases value,
{
    if value < 10 {
        seq![digit_of(value)]
    } else {
        decimal_text_of(value / 10).push(digit_of(value % 10))
    }
}

pub(crate) proof fn lemma_decimal_value_push(digits: Seq<char>, next: char)
    ensures
        decimal_value(digits.push(next)) == decimal_value(digits) * 10 + digit_value(next),
{
    assert(digits.push(next).drop_last() =~= digits);
}

/// What is written is what is read: the digits of a number are digits,
/// there is at least one of them, and their value is the number.
pub proof fn lemma_decimal_text_reads_back(value: nat)
    ensures
        decimal_text_of(value).len() > 0,
        all_decimal_digits(decimal_text_of(value)),
        decimal_value(decimal_text_of(value)) == value,
    decreases value,
{
    if value < 10 {
        assert(decimal_value(decimal_text_of(value).drop_last()) == 0);
    } else {
        lemma_decimal_text_reads_back(value / 10);
        lemma_decimal_value_push(decimal_text_of(value / 10), digit_of(value % 10));
    }
}

/// Appends `value` in decimal digits.
fn push_decimal(text: &mut String, value: u16)
    ensures
        final(text)@ == old(text)@ + decimal_text_of(value as nat),
    decreases value,
{
    if value >= 10 {
        push_decimal(text, value / 10);
    }
    let digit = (value % 10) as u8;
    push_char(text, (ASCII_ZERO + digit) as char);
}

/// Writes `value` in decimal digits, without leading zeros.
pub fn decimal_text(value: u16) -> (text: String)
    ensures
        text@ == decimal_text_of(value as nat),
{
    let mut text = String::new();
    push_decimal(&mut text, value);
    proof {
        assert(Seq::<char>::empty() + decimal_text_of(value as nat) =~= decimal_text_of(
            value as nat,
        ));
    }
    text
}

} // verus!
