//! Fresh identifiers.

use vstd::prelude::*;

verus! {

/// Characters of Crockford's base 32 in upper case.
pub open spec fn is_crockford(c: char) -> bool {
    ||| '0' <= c <= '9'
    ||| ('A' <= c <= 'Z' && c != 'I' && c != 'L' && c != 'O' && c != 'U')
}

/// The textual form of a ULID: 26 characters of Crockford's base 32.
pub open spec fn is_ulid(text: Seq<char>) -> bool {
    &&& text.len() == 26
    &&& forall|i: int| 0 <= i < text.len() ==> is_crockford(#[trigger] text[i])
}

/// `ulid::Ulid::new` and its text: a ULID of the current time and fresh random
/// bits. Which one it is, is not determined.
#[verifier::external_body]
pub(crate) fn new_ulid() -> (text: String)
    ensures
        is_ulid(text@),
{
    ulid::Ulid::new().to_string()
}

/// Digits of a lower-case hexadecimal numeral.
pub open spec fn is_lower_hex(c: char) -> bool {
    '0' <= c <= '9' || 'a' <= c <= 'f'
}

/// The hyphenated textual form of a random UUID: version 4 of the RFC variant,
/// in lower case.
pub open spec fn is_uuid_v4(text: Seq<char>) -> bool {
    &&& text.len() == 36
    &&& forall|i: int|
        0 <= i < 36 ==> if i == 8 || i == 13 || i == 18 || i == 23 {
            #[trigger] text[i] == '-'
        } else {
            is_lower_hex(text[i])
        }
    &&& text[14] == '4'
    &&& (text[19] == '8' || text[19] == '9' || text[19] == 'a' || text[19] == 'b')
}

/// `uuid::Uuid::new_v4` and its text: a random UUID. Which one it is, is not
/// determined.
#[verifier::external_body]
pub(crate) fn new_uuid() -> (text: String)
    ensures
        is_uuid_v4(text@),
{
    uuid::Uuid::new_v4().to_string()
}

/// Identifiers of the two kinds are told apart, by their lengths and by the hyphens
/// that only one kind has.
pub proof fn law_identifiers_are_told_apart(text: Seq<char>)
    ensures
        is_ulid(text) ==> text.len() == 26 && !is_uuid_v4(text) && !text.contains('-'),
        is_uuid_v4(text) ==> text.len() == 36 && text[8] == '-' && text[13] == '-' && text[18]
            == '-' && text[23] == '-' && text[14] == '4',
{
    if is_ulid(text) && text.contains('-') {
        let i = choose|i: int| 0 <= i < text.len() && text[i] == '-';
        assert(is_crockford(text[i]));
    }
}

} // verus!
