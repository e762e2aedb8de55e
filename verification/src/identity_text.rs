//! Identities as texts and as byte strings, by the `uuid` crate.

use vstd::prelude::*;

verus! {

/// The lower-case hexadecimal digit of a number below sixteen.
pub open spec fn hex_digit(value: int) -> char {
    if value < 10 {
        (48 + value) as char
    } else {
        (87 + value) as char
    }
}

/// The last `digits` hexadecimal digits of a number.
pub open spec fn hex_text(value: nat, digits: nat) -> Seq<char>
    decreases digits,
{
    if digits == 0 {
        Seq::empty()
    } else {
        hex_text(value / 16, (digits - 1) as nat).push(hex_digit((value % 16) as int))
    }
}

/// An identity in hyphenated form: thirty-two hexadecimal digits in groups of eight, four, four,
/// four and twelve.
pub open spec fn hyphenated(id: u128) -> Seq<char> {
    let digits = hex_text(id as nat, 32);
    digits.subrange(0, 8).push('-') + digits.subrange(8, 12).push('-') + digits.subrange(12, 16).push('-')
        + digits.subrange(16, 20).push('-') + digits.subrange(20, 32)
}

/// Writes an identity with `uuid::Uuid`'s `Display`, which is the lower-case hyphenated form.
#[verifier::external_body]
pub(crate) fn identity_text(id: u128) -> (text: String)
    ensures
        text@ == hyphenated(id),
{
    uuid::Uuid::from_u128(id).to_string()
}

/// The number a byte string spells, most significant byte first.
pub open spec fn big_endian(bytes: Seq<u8>) -> nat
    decreases bytes.len(),
{
    if bytes.len() == 0 {
        0
    } else {
        big_endian(bytes.drop_last()) * 256 + bytes.last() as nat
    }
}

/// Reads sixteen bytes as an identity with `uuid::Uuid::from_bytes` and `uuid::Uuid::as_u128`:
/// the number the bytes spell, most significant first.
#[verifier::external_body]
pub(crate) fn identity_of_bytes(bytes: [u8; 16]) -> (id: u128)
    ensures
        id as nat == big_endian(bytes@),
{
    uuid::Uuid::from_bytes(bytes).as_u128()
}

/// The name-based identity that version 5 of the UUID scheme gives `name` under `namespace`.
pub uninterp spec fn name_based_identity(namespace: u128, name: Seq<u8>) -> u128;

/// Derives a name-based identity with `uuid::Uuid::new_v5`, which hashes the namespace and the
/// name. The result depends on these two alone; nothing else is claimed of its value.
#[verifier::external_body]
pub(crate) fn derive_identity(namespace: u128, name: &[u8]) -> (id: u128)
    ensures
        id == name_based_identity(namespace, name@),
{
    uuid::Uuid::new_v5(&uuid::Uuid::from_u128(namespace), name).as_u128()
}

/// The identity a text spells in one of the forms of a UUID, where it spells one.
pub uninterp spec fn spelled_identity(text: Seq<char>) -> Option<u128>;

/// Reads an identity with `uuid::Uuid::parse_str`, which takes the simple, hyphenated, braced and URN forms
/// in either case and refuses anything else. Of the hyphenated form in lower case it is claimed which identity
/// comes out; of the other texts only that the result depends on the text alone.
#[verifier::external_body]
pub(crate) fn parse_identity(text: &str) -> (result: Option<u128>)
    ensures
        result == spelled_identity(text@),
        forall|id: u128| text@ == #[trigger] hyphenated(id) ==> result == Some(id),
{
    uuid::Uuid::parse_str(text).ok().map(|id| id.as_u128())
}

/// An identity is written with as many digits as asked for.
pub proof fn hexadecimal_texts_have_their_length(value: nat, digits: nat)
    ensures
        hex_text(value, digits).len() == digits,
    decreases digits,
{
    if digits > 0 {
        hexadecimal_texts_have_their_length(value / 16, (digits - 1) as nat);
    }
}

/// An identity is written in five groups of eight, four, four, four and twelve digits, with a hyphen between them.
pub proof fn identities_are_written_in_five_groups(id: u128)
    ensures
        hyphenated(id).len() == 36,
        hyphenated(id)[8] == '-' && hyphenated(id)[13] == '-' && hyphenated(id)[18] == '-' && hyphenated(id)[23] == '-',
        hyphenated(id).subrange(0, 8) + hyphenated(id).subrange(9, 13) + hyphenated(id).subrange(14, 18) + hyphenated(
            id,
        ).subrange(19, 23) + hyphenated(id).subrange(24, 36) == hex_text(id as nat, 32),
{
    hexadecimal_texts_have_their_length(id as nat, 32);
    assert(hyphenated(id).subrange(0, 8) + hyphenated(id).subrange(9, 13) + hyphenated(id).subrange(14, 18) + hyphenated(
        id,
    ).subrange(19, 23) + hyphenated(id).subrange(24, 36) =~= hex_text(id as nat, 32));
}

/// The last digit that is written is what remains of a number after division by sixteen, and the digits before it are
/// those of the quotient.
pub proof fn digits_are_those_of_the_number(value: nat, digits: nat)
    requires
        digits > 0,
    ensures
        hex_text(value, digits).last() == hex_digit((value % 16) as int),
        hex_text(value, digits).drop_last() == hex_text(value / 16, (digits - 1) as nat),
        hex_digit(0) == '0' && hex_digit(9) == '9' && hex_digit(10) == 'a' && hex_digit(15) == 'f',
{
    assert(hex_text(value, digits).drop_last() =~= hex_text(value / 16, (digits - 1) as nat));
}

/// Bytes are read from the most significant on: one more byte counts the ones before it two hundred and fifty-six
/// times.
pub proof fn bytes_are_read_from_the_most_significant_on(bytes: Seq<u8>, byte: u8)
    ensures
        big_endian(bytes.push(byte)) == big_endian(bytes) * 256 + byte,
        big_endian(Seq::empty()) == 0,
{
    assert(bytes.push(byte).drop_last() =~= bytes);
}

} // verus!
