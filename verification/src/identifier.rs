//! Identifiers of history entries: UUIDs, held as the 128-bit number that
//! they are and written in the hyphenated form.

use uuid::Uuid;
use vstd::prelude::*;

verus! {

/// The lower-case hexadecimal digit for a number below sixteen.
pub open spec fn hex_digit(nibble: nat) -> char
    recommends
        nibble < 16,
{
    if nibble < 10 {
        ((48 + nibble) as u8) as char
    } else {
        ((87 + nibble) as u8) as char
    }
}

/// The `k`-th group of four bits of an identifier, counted from the most
/// significant one.
pub open spec fn nibble(id: u128, k: nat) -> nat
    recommends
        k < 32,
{
    ((id >> ((4 * (31 - k)) as u128)) & 0xf) as nat
}

/// Which of the thirty-two digits stands at a place of the hyphenated form
/// that holds no hyphen.
pub open spec fn digit_index(place: int) -> nat {
    if place < 8 {
        place as nat
    } else if place < 13 {
        (place - 1) as nat
    } else if place < 18 {
        (place - 2) as nat
    } else if place < 23 {
        (place - 3) as nat
    } else {
        (place - 4) as nat
    }
}

/// The hyphenated form of an identifier: thirty-two lower-case hexadecimal
/// digits, most significant first, in groups of 8, 4, 4, 4 and 12.
pub open spec fn hyphenated(id: u128) -> Seq<char> {
    Seq::new(
        36,
        |place: int|
            if place == 8 || place == 13 || place == 18 || place == 23 {
                '-'
            } else {
                hex_digit(nibble(id, digit_index(place)))
            },
    )
}

/// The identifier that `Uuid::parse_str` of the uuid crate reads from a text,
/// as a 128-bit number, or `None` where it reads none.
pub uninterp spec fn parsed_uuid(text: Seq<char>) -> Option<u128>;

/// `Uuid::new_v4` of the uuid crate: a random identifier. All that is known
/// of it is that it is marked as version 4 in the variant of RFC 4122. The
/// uuid crate stops the program where the system has no random bytes to give.
#[verifier::external_body]
pub(crate) fn random_id() -> (id: u128)
    ensures
        id & 0xf000_c000_0000_0000_0000 == 0x4000_8000_0000_0000_0000,
{
    Uuid::new_v4().as_u128()
}

/// The `Display` form of a `Uuid` of the uuid crate, which is the hyphenated
/// lower-case form, and which `Uuid::parse_str` reads back as the same
/// identifier.
#[verifier::external_body]
pub(crate) fn id_to_text(id: u128) -> (text: String)
    ensures
        text@ == hyphenated(id),
        parsed_uuid(text@) == Some(id),
{
    Uuid::from_u128(id).to_string()
}

/// `Uuid::parse_str` of the uuid crate. What it accepts is not spelled out
/// here: the result is `parsed_uuid` of the text.
#[verifier::external_body]
pub(crate) fn id_from_text(text: &str) -> (id: Option<u128>)
    ensures
        id == parsed_uuid(text@),
{
    Uuid::parse_str(text).ok().map(|uuid| uuid.as_u128())
}

/// Two digits are the same character only if they stand for the same number.
pub proof fn lemma_hex_digit_is_injective(m: nat, n: nat)
    requires
        m < 16,
        n < 16,
        hex_digit(m) == hex_digit(n),
    ensures
        m == n,
{
    assert(hex_digit(m) as u32 == hex_digit(n) as u32);
}

/// Where two identifiers have the same hyphenated form, they agree in the
/// digit that stands at any one place.
proof fn lemma_same_digit(a: u128, b: u128, k: nat, place: int)
    requires
        hyphenated(a) == hyphenated(b),
        k < 32,
        0 <= place < 36,
        place != 8 && place != 13 && place != 18 && place != 23,
        digit_index(place) == k,
    ensures
        (a >> ((4 * (31 - k)) as u128)) & 0xf == (b >> ((4 * (31 - k)) as u128)) & 0xf,
{
    assert(hyphenated(a)[place] == hex_digit(nibble(a, k)));
    assert(hyphenated(b)[place] == hex_digit(nibble(b, k)));
    lemma_nibble_is_small(a, k);
    lemma_nibble_is_small(b, k);
    lemma_hex_digit_is_injective(nibble(a, k), nibble(b, k));
}

/// Two identifiers with the same hyphenated form are the same identifier: a
/// table that is keyed by the text keeps distinct identifiers apart.
pub proof fn lemma_hyphenated_is_injective(a: u128, b: u128)
    requires
        hyphenated(a) == hyphenated(b),
    ensures
        a == b,
{
    lemma_same_digit(a, b, 0, 0);
    lemma_same_digit(a, b, 1, 1);
    lemma_same_digit(a, b, 2, 2);
    lemma_same_digit(a, b, 3, 3);
    lemma_same_digit(a, b, 4, 4);
    lemma_same_digit(a, b, 5, 5);
    lemma_same_digit(a, b, 6, 6);
    lemma_same_digit(a, b, 7, 7);
    lemma_same_digit(a, b, 8, 9);
    lemma_same_digit(a, b, 9, 10);
    lemma_same_digit(a, b, 10, 11);
    lemma_same_digit(a, b, 11, 12);
    lemma_same_digit(a, b, 12, 14);
    lemma_same_digit(a, b, 13, 15);
    lemma_same_digit(a, b, 14, 16);
    lemma_same_digit(a, b, 15, 17);
    lemma_same_digit(a, b, 16, 19);
    lemma_same_digit(a, b, 17, 20);
    lemma_same_digit(a, b, 18, 21);
    lemma_same_digit(a, b, 19, 22);
    lemma_same_digit(a, b, 20, 24);
    lemma_same_digit(a, b, 21, 25);
    lemma_same_digit(a, b, 22, 26);
    lemma_same_digit(a, b, 23, 27);
    lemma_same_digit(a, b, 24, 28);
    lemma_same_digit(a, b, 25, 29);
    lemma_same_digit(a, b, 26, 30);
    lemma_same_digit(a, b, 27, 31);
    lemma_same_digit(a, b, 28, 32);
    lemma_same_digit(a, b, 29, 33);
    lemma_same_digit(a, b, 30, 34);
    lemma_same_digit(a, b, 31, 35);
    assert(a == b) by (bit_vector)
        requires
            (a >> 124u128) & 0xf == (b >> 124u128) & 0xf,
            (a >> 120u128) & 0xf == (b >> 120u128) & 0xf,
            (a >> 116u128) & 0xf == (b >> 116u128) & 0xf,
            (a >> 112u128) & 0xf == (b >> 112u128) & 0xf,
            (a >> 108u128) & 0xf == (b >> 108u128) & 0xf,
            (a >> 104u128) & 0xf == (b >> 104u128) & 0xf,
            (a >> 100u128) & 0xf == (b >> 100u128) & 0xf,
            (a >> 96u128) & 0xf == (b >> 96u128) & 0xf,
            (a >> 92u128) & 0xf == (b >> 92u128) & 0xf,
            (a >> 88u128) & 0xf == (b >> 88u128) & 0xf,
            (a >> 84u128) & 0xf == (b >> 84u128) & 0xf,
            (a >> 80u128) & 0xf == (b >> 80u128) & 0xf,
            (a >> 76u128) & 0xf == (b >> 76u128) & 0xf,
            (a >> 72u128) & 0xf == (b >> 72u128) & 0xf,
            (a >> 68u128) & 0xf == (b >> 68u128) & 0xf,
            (a >> 64u128) & 0xf == (b >> 64u128) & 0xf,
            (a >> 60u128) & 0xf == (b >> 60u128) & 0xf,
            (a >> 56u128) & 0xf == (b >> 56u128) & 0xf,
            (a >> 52u128) & 0xf == (b >> 52u128) & 0xf,
            (a >> 48u128) & 0xf == (b >> 48u128) & 0xf,
            (a >> 44u128) & 0xf == (b >> 44u128) & 0xf,
            (a >> 40u128) & 0xf == (b >> 40u128) & 0xf,
            (a >> 36u128) & 0xf == (b >> 36u128) & 0xf,
            (a >> 32u128) & 0xf == (b >> 32u128) & 0xf,
            (a >> 28u128) & 0xf == (b >> 28u128) & 0xf,
            (a >> 24u128) & 0xf == (b >> 24u128) & 0xf,
            (a >> 20u128) & 0xf == (b >> 20u128) & 0xf,
            (a >> 16u128) & 0xf == (b >> 16u128) & 0xf,
            (a >> 12u128) & 0xf == (b >> 12u128) & 0xf,
            (a >> 8u128) & 0xf == (b >> 8u128) & 0xf,
            (a >> 4u128) & 0xf == (b >> 4u128) & 0xf,
            (a >> 0u128) & 0xf == (b >> 0u128) & 0xf,
    ;
}

/// A group of four bits is a number below sixteen.
pub proof fn lemma_nibble_is_small(id: u128, k: nat)
    requires
        k < 32,
    ensures
        nibble(id, k) < 16,
{
    let shift = (4 * (31 - k)) as u128;
    assert((id >> shift) & 0xf < 16) by (bit_vector);
}

} // verus!
