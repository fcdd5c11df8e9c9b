//! Small pieces of text: decimal numbers and the bytes of a header value.

use vstd::prelude::*;

verus! {

/// `String::push` of the standard library: the character is added at the end
/// and nothing else changes.
pub assume_specification[ String::push ](text: &mut String, c: char)
    ensures
        final(text)@ == old(text)@.push(c),
;

/// The character that stands for one decimal digit.
pub open spec fn digit_char(digit: nat) -> char
    recommends
        digit < 10,
{
    ((48 + digit) as u8) as char
}

/// A number written in decimal, without sign and without leading zeros.
pub open spec fn decimal(n: nat) -> Seq<char>
    decreases n,
{
    if n < 10 {
        seq![digit_char(n)]
    } else {
        decimal(n / 10).push(digit_char(n % 10))
    }
}

/// A byte that may stand in a header value that is read as text: a printable
/// ASCII character or a tab.
pub open spec fn is_visible_ascii(byte: u8) -> bool {
    32 <= byte < 127 || byte == 9
}

/// Whether every byte of a header value can be read as text.
pub open spec fn all_visible_ascii(bytes: Seq<u8>) -> bool {
    forall|i: int| 0 <= i < bytes.len() ==> is_visible_ascii(#[trigger] bytes[i])
}

/// The bytes of a header value, each read as one character.
pub open spec fn ascii_text(bytes: Seq<u8>) -> Seq<char> {
    Seq::new(bytes.len(), |i: int| bytes[i] as char)
}

/// What a header value says when it is read as text: its characters where
/// every byte is visible ASCII, and nothing otherwise.
pub open spec fn header_text(bytes: Seq<u8>) -> Seq<char> {
    if all_visible_ascii(bytes) {
        ascii_text(bytes)
    } else {
        Seq::empty()
    }
}

/// Writes a status code, or any other 16-bit number, in decimal.
pub fn decimal_string(n: u16) -> (text: String)
    ensures
        text@ == decimal(n as nat),
    decreases n,
{
    if n < 10 {
        let mut text = String::new();
        text.push((48u8 + n as u8) as char);
        text
    } else {
        let mut text = decimal_string(n / 10);
        text.push((48u8 + (n % 10) as u8) as char);
        text
    }
}

/// Reads a header value as text. A value that holds a byte that is not
/// visible ASCII reads as the empty string.
pub fn header_value_text(bytes: &Vec<u8>) -> (text: String)
    ensures
        text@ == header_text(bytes@),
{
    let mut text = String::new();
    let mut i: usize = 0;
    while i < bytes.len()
        invariant
            i <= bytes.len(),
            text@ == ascii_text(bytes@.take(i as int)),
            all_visible_ascii(bytes@.take(i as int)),
        decreases bytes.len() - i,
    {
        let byte = bytes[i];
        if !(32 <= byte && byte < 127 || byte == 9) {
            assert(!is_visible_ascii(bytes@[i as int]));
            return String::new();
        }
        text.push(byte as char);
        assert(bytes@.take(i + 1) == bytes@.take(i as int).push(byte));
        i += 1;
    }
    assert(bytes@.take(i as int) == bytes@);
    text
}

} // verus!
