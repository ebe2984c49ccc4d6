//! SHA-256 digests rendered as lower-case hex: the fingerprint under which
//! clips are deduplicated.

use vstd::prelude::*;

verus! {

/// The SHA-256 digest of `data`.
pub uninterp spec fn spec_sha256(data: Seq<u8>) -> Seq<u8>;

/// The lower-case hex digit for a nibble `n` (`0 <= n < 16`).
pub open spec fn hex_digit(n: int) -> char {
    if n < 10 {
        (48 + n) as char
    } else {
        (87 + n) as char
    }
}

/// Lower-case hex rendering of `data`: two digits per byte, high nibble first.
pub open spec fn hex_lower(data: Seq<u8>) -> Seq<char>
    decreases data.len(),
{
    if data.len() == 0 {
        Seq::empty()
    } else {
        seq![hex_digit(data[0] as int / 16), hex_digit(data[0] as int % 16)] + hex_lower(data.drop_first())
    }
}

/// The hex rendering has two chars per byte.
pub proof fn lemma_hex_lower_len(data: Seq<u8>)
    ensures
        hex_lower(data).len() == 2 * data.len(),
    decreases data.len(),
{
    if data.len() > 0 {
        lemma_hex_lower_len(data.drop_first());
    }
}

/// Calls `sha2::Sha256::digest`. Trusted: the result is the SHA-256 digest
/// of `data` (named `spec_sha256`), which is 32 bytes long.
#[verifier::external_body]
fn sha256_digest(data: &[u8]) -> (r: Vec<u8>)
    ensures
        r@ == spec_sha256(data@),
        r@.len() == 32,
{
    <sha2::Sha256 as sha2::Digest>::digest(data).to_vec()
}

/// Calls `hex::encode`. Trusted: the result is `data` rendered as
/// lower-case hex, two digits per byte with the high nibble first
/// (the crate's `HEX_CHARS_LOWER` table).
#[verifier::external_body]
fn hex_encode(data: &[u8]) -> (r: String)
    ensures
        r@ == hex_lower(data@),
{
    hex::encode(data)
}

/// The hex fingerprint of `data`: SHA-256, then lower-case hex.
pub open spec fn spec_hex_sha256(data: Seq<u8>) -> Seq<char> {
    hex_lower(spec_sha256(data))
}

/// SHA-256 of `data` as 64 lower-case hex chars.
pub fn hex_sha256(data: &[u8]) -> (r: String)
    ensures
        r@ == spec_hex_sha256(data@),
        r@.len() == 64,
{
    let d = sha256_digest(data);
    let r = hex_encode(d.as_slice());
    proof {
        lemma_hex_lower_len(d@);
    }
    r
}

} // verus!
