//! SHA-256 digests of downloads and their lowercase hexadecimal text.
use sha2::Digest;
use vstd::prelude::*;

verus! {

/// What `sha2::Sha256` computes for a message: its 32-byte SHA-256 digest.
pub uninterp spec fn sha256_of(data: Seq<u8>) -> Seq<u8>;

/// The lowercase hexadecimal digit of a value below sixteen.
pub open spec fn hex_digit(n: nat) -> char {
    if n < 10 {
        ((n + 48) as u8) as char
    } else {
        ((n + 87) as u8) as char
    }
}

/// Lowercase hexadecimal text of bytes: two digits per byte, high nibble first.
pub open spec fn hex_lower(data: Seq<u8>) -> Seq<char>
    decreases data.len(),
{
    if data.len() == 0 {
        Seq::empty()
    } else {
        seq![hex_digit((data[0] / 16) as nat), hex_digit((data[0] % 16) as nat)] + hex_lower(
            data.subrange(1, data.len() as int),
        )
    }
}

/// `Sha256::new()`, `update(data)`, `finalize()`: the digest of `data`,
/// named `sha256_of`; it is 32 bytes long.
#[verifier::external_body]
pub(crate) fn sha256(data: &[u8]) -> (r: Vec<u8>)
    ensures
        r@ == sha256_of(data@),
        r@.len() == 32,
{
    let mut hasher = sha2::Sha256::new();
    hasher.update(data);
    hasher.finalize().to_vec()
}

/// `hex::encode`: every byte as two lowercase hexadecimal digits, high
/// nibble first (the crate's `HEX_CHARS_LOWER` table).
#[verifier::external_body]
pub(crate) fn hex_encode(data: &[u8]) -> (r: String)
    ensures
        r@ == hex_lower(data@),
{
    hex::encode(data)
}

/// The lowercase hexadecimal SHA-256 digest of `data`.
pub fn sha256_hex(data: &[u8]) -> (r: String)
    ensures
        r@ == hex_lower(sha256_of(data@)),
        r@.len() == 64,
{
    let d = sha256(data);
    proof {
        lemma_hex_lower_len(d@);
    }
    hex_encode(d.as_slice())
}

/// The hexadecimal text has two digits per byte.
pub proof fn lemma_hex_lower_len(data: Seq<u8>)
    ensures
        hex_lower(data).len() == 2 * data.len(),
    decreases data.len(),
{
    if data.len() > 0 {
        lemma_hex_lower_len(data.subrange(1, data.len() as int));
    }
}

} // verus!
