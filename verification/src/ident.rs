//! Record identifiers.
//!
//! An identifier is a 128-bit value. It is drawn at random when a record is
//! created, read from the last segment of a request path, and written into
//! response bodies in its canonical text form: 32 lower-case hexadecimal digits
//! in groups of 8, 4, 4, 4 and 12, separated by hyphens. Drawing, reading and
//! writing are done by the `uuid` crate; the functions that call it are the
//! only unverified code of this module.

use uuid::Uuid;
use vstd::arithmetic::power::pow;
use vstd::prelude::*;

verus! {

/// The number of characters of an identifier's canonical text.
pub open spec fn canonical_len() -> int {
    36
}

/// The sixteen lower-case hexadecimal digits, in order of their value.
pub open spec fn lower_hex_digits() -> Seq<char> {
    seq!['0', '1', '2', '3', '4', '5', '6', '7', '8', '9', 'a', 'b', 'c', 'd', 'e', 'f']
}

/// The `k`-th hexadecimal digit of `id`, as a number below 16. Digit 0 is the
/// most significant one, digit 31 the least significant one.
pub open spec fn hex_digit_value(id: u128, k: int) -> int {
    (id as int / pow(16, (31 - k) as nat)) % 16
}

/// True at the four positions of the canonical text that hold a hyphen.
pub open spec fn is_hyphen_position(i: int) -> bool {
    i == 8 || i == 13 || i == 18 || i == 23
}

/// Which hexadecimal digit stands at position `i` of the canonical text, for a
/// position that holds no hyphen.
pub open spec fn digit_at_position(i: int) -> int {
    if i < 8 {
        i
    } else if i < 13 {
        i - 1
    } else if i < 18 {
        i - 2
    } else if i < 23 {
        i - 3
    } else {
        i - 4
    }
}

/// The character at position `i` of the canonical text of `id`.
pub open spec fn canonical_char(id: u128, i: int) -> char {
    if is_hyphen_position(i) {
        '-'
    } else {
        lower_hex_digits()[hex_digit_value(id, digit_at_position(i))]
    }
}

/// The canonical text of `id`.
pub open spec fn canonical_text(id: u128) -> Seq<char> {
    Seq::new(canonical_len() as nat, |i: int| canonical_char(id, i))
}

/// True of the identifiers that carry the marks of a randomly drawn one:
/// digit 12 is the version number 4, and the two highest bits of digit 16 are
/// one and zero.
pub open spec fn is_random_id(id: u128) -> bool {
    &&& hex_digit_value(id, 12) == 4
    &&& 8 <= hex_digit_value(id, 16) <= 11
}

/// The identifier that `uuid::Uuid::parse_str` reads from `text`, as the
/// 128-bit value of the `Uuid`, or `None` where it rejects `text`.
///
/// The parser takes the lower-case and upper-case forms of the canonical text,
/// the same without hyphens, in braces, or behind `urn:uuid:`. Its full
/// grammar is the `uuid` crate's to state; this name stands for it.
pub uninterp spec fn uuid_from_text(text: Seq<char>) -> Option<u128>;

/// Draws a new identifier: the 128-bit value of `uuid::Uuid::new_v4()`.
///
/// Nothing is proved of this function. Its contract claims only what holds of
/// every draw: `new_v4` takes 128 random bits and overwrites six of them with
/// the marks of a version 4 identifier of the RFC variant. Nothing is claimed
/// of the other bits, and two draws may be equal. `new_v4` panics if the
/// operating system's source of random bytes fails.
#[verifier::external_body]
pub(crate) fn random_id() -> (id: u128)
    ensures
        is_random_id(id),
{
    Uuid::new_v4().as_u128()
}

/// Reads an identifier from text: the 128-bit value of the `Uuid` that
/// `uuid::Uuid::parse_str` returns, or `None` where it returns an error.
///
/// Nothing is proved of this function. Its contract names the result, which
/// depends on the text alone, and claims one fact of it: the hyphenated
/// lower-case form is among the forms that the parser takes, so the canonical
/// text of an identifier is read back as that identifier.
#[verifier::external_body]
pub(crate) fn parse_id(text: &str) -> (r: Option<u128>)
    ensures
        r == uuid_from_text(text@),
        forall|id: u128| text@ == canonical_text(id) ==> r == Some(id),
{
    match Uuid::parse_str(text) {
        Ok(uuid) => Some(uuid.as_u128()),
        Err(_) => None,
    }
}

/// Writes an identifier in its canonical text form: `to_string` on the
/// `uuid::fmt::Hyphenated` of `uuid::Uuid::from_u128(id)`.
///
/// Nothing is proved of this function. Its contract claims that the text is
/// the lower-case hyphenated form of the 128-bit value, most significant digit
/// first: 36 characters, with hyphens behind the digits 8, 12, 16 and 20.
#[verifier::external_body]
pub(crate) fn id_text(id: u128) -> (r: String)
    ensures
        r@ == canonical_text(id),
{
    Uuid::from_u128(id).hyphenated().to_string()
}

/// The canonical text of an identifier has 36 characters, each a hyphen or a
/// lower-case hexadecimal digit; in particular none is a slash.
pub proof fn lemma_canonical_text_shape(id: u128)
    ensures
        canonical_text(id).len() == canonical_len(),
        forall|i: int|
            0 <= i < canonical_len() ==> #[trigger] canonical_text(id)[i] == '-'
                || lower_hex_digits().contains(canonical_text(id)[i]),
        !canonical_text(id).contains('/'),
{
    let text = canonical_text(id);
    assert forall|i: int| 0 <= i < canonical_len() implies #[trigger] text[i] == '-'
        || lower_hex_digits().contains(text[i]) by {
        if !is_hyphen_position(i) {
            let v = hex_digit_value(id, digit_at_position(i));
            assert(0 <= v < 16);
            assert(text[i] == lower_hex_digits()[v]);
        }
    }
    assert forall|i: int| 0 <= i < text.len() implies text[i] != '/' by {
        if !is_hyphen_position(i) {
            let v = hex_digit_value(id, digit_at_position(i));
            assert(0 <= v < 16);
            assert(text[i] == lower_hex_digits()[v]);
        }
    }
}

} // verus!
