//! Fresh identifiers and the time of day.
use vstd::prelude::*;

verus! {

/// Whether `c` is a lower-case hexadecimal digit.
pub open spec fn is_hex_digit(c: char) -> bool {
    '0' <= c <= '9' || 'a' <= c <= 'f'
}

/// Whether `s` is thirty-two lower-case hexadecimal digits in hyphenated groups of
/// eight, four, four, four and twelve, the third of which starts with a seven.
pub open spec fn is_identifier(s: Seq<char>) -> bool {
    &&& s.len() == 36
    &&& s[14] == '7'
    &&& forall|i: int|
        0 <= i < 36 ==> if i == 8 || i == 13 || i == 18 || i == 23 {
            #[trigger] s[i] == '-'
        } else {
            is_hex_digit(s[i])
        }
}

/// A new identifier.
///
/// Trusted: `uuid::Uuid::now_v7` makes an identifier of version seven out of the current
/// time and random bytes, and its `to_string` writes it hyphenated in lower case. That no
/// two are equal is not said: it rests on chance.
#[verifier::external_body]
pub(crate) fn fresh_id() -> (r: String)
    ensures
        is_identifier(r@),
{
    uuid::Uuid::now_v7().to_string()
}

/// The current time.
///
/// Trusted: `chrono::Utc::now` reads the system clock, and `to_rfc3339` writes what it
/// read as text. Nothing is said of the text.
#[verifier::external_body]
pub(crate) fn timestamp() -> (r: String) {
    chrono::Utc::now().to_rfc3339()
}

} // verus!
