//! Message digests and their hexadecimal rendering.
use sha2::Digest;
use vstd::prelude::*;

verus! {

/// The SHA-256 digest of a byte sequence.
pub uninterp spec fn sha256_of(data: Seq<u8>) -> Seq<u8>;

/// The lower-case hexadecimal digit for `d`.
pub open spec fn hex_digit(d: int) -> char {
    if d < 10 {
        (('0' as int) + d) as char
    } else {
        (('a' as int) + d - 10) as char
    }
}

/// Two lower-case hexadecimal digits per byte, the high one first.
pub open spec fn hex_text(data: Seq<u8>) -> Seq<char> {
    Seq::new(
        2 * data.len(),
        |i: int|
            if i % 2 == 0 {
                hex_digit(data[i / 2] as int / 16)
            } else {
                hex_digit(data[i / 2] as int % 16)
            },
    )
}

/// Hexadecimal text has two digits for each byte, and nothing else.
pub proof fn lemma_hex_text(data: Seq<u8>)
    ensures
        hex_text(data).len() == 2 * data.len(),
        forall|i: int|
            0 <= i < hex_text(data).len() ==> crate::stamp::is_hex_digit(
                #[trigger] hex_text(data)[i],
            ),
{
}

/// Trusted: `sha2::Sha256::digest` hashes the whole of `data` and returns the 32 bytes
/// of the digest, which depend on `data` alone.
#[verifier::external_body]
pub(crate) fn sha256(data: &Vec<u8>) -> (out: Vec<u8>)
    ensures
        out@ == sha256_of(data@),
        out@.len() == 32,
{
    sha2::Sha256::digest(data).to_vec()
}

/// Trusted: `hex::encode` writes each byte as two lower-case hexadecimal digits, the
/// high one first.
#[verifier::external_body]
pub(crate) fn hex_encode(data: &Vec<u8>) -> (out: String)
    ensures
        out@ == hex_text(data@),
{
    hex::encode(data)
}

} // verus!
