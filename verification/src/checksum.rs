//! SHA-256 checksums in Harbor's textual form, `sha256:<lowercase hex>`.
//!
//! Hashing a file as a stream, or bytes as they are written, is the
//! caller's business; both must produce what [`sha256_hex`] produces for
//! the same bytes.

use vstd::prelude::*;

use sha2::Digest;

use crate::text::{chars_of, extend_str, string_of};

verus! {

/// The SHA-256 digest of `data` (FIPS 180-4), as computed by the `sha2`
/// crate.
pub uninterp spec fn spec_sha256(data: Seq<u8>) -> Seq<u8>;

/// `sha2::Sha256::digest`: the 32-byte SHA-256 digest of `bytes`. The
/// digest itself is named, not spelled out; its length is the one fact
/// stated of it.
#[verifier::external_body]
fn sha256_digest(bytes: &[u8]) -> (res: Vec<u8>)
    ensures
        res@ == spec_sha256(bytes@),
        res@.len() == 32,
{
    sha2::Sha256::digest(bytes).to_vec()
}

/// The lower-case hex digit for `d` (`0 <= d < 16`).
pub open spec fn hex_digit(d: int) -> char {
    if d < 10 {
        (d + 48) as char
    } else {
        (d + 87) as char
    }
}

/// Two lower-case hex digits per byte, high nibble first.
pub open spec fn lower_hex(bytes: Seq<u8>) -> Seq<char>
    decreases bytes.len(),
{
    if bytes.len() == 0 {
        Seq::empty()
    } else {
        seq![hex_digit(bytes[0] as int / 16), hex_digit(bytes[0] as int % 16)] + lower_hex(bytes.drop_first())
    }
}

/// `lower_hex` has two characters per byte.
pub proof fn lemma_lower_hex_len(bytes: Seq<u8>)
    ensures
        lower_hex(bytes).len() == 2 * bytes.len(),
    decreases bytes.len(),
{
    if bytes.len() > 0 {
        lemma_lower_hex_len(bytes.drop_first());
    }
}

/// Every character of `lower_hex` is a lower-case hex digit.
pub proof fn lemma_lower_hex_digits(bytes: Seq<u8>)
    ensures
        forall|i: int|
            0 <= i < lower_hex(bytes).len() ==> ('0' <= #[trigger] lower_hex(bytes)[i] <= '9' || 'a'
                <= lower_hex(bytes)[i] <= 'f'),
    decreases bytes.len(),
{
    if bytes.len() > 0 {
        lemma_lower_hex_digits(bytes.drop_first());
        let h = seq![hex_digit(bytes[0] as int / 16), hex_digit(bytes[0] as int % 16)];
        let t = lower_hex(bytes.drop_first());
        assert forall|i: int| 0 <= i < lower_hex(bytes).len() implies ('0' <= #[trigger] lower_hex(
            bytes,
        )[i] <= '9' || 'a' <= lower_hex(bytes)[i] <= 'f') by {
            if i >= 2 {
                assert(lower_hex(bytes)[i] == t[i - 2]);
            }
        }
    }
}

/// `hex::encode`: the bytes as lower-case hex, two digits per byte, high
/// nibble first (what the crate's source does with its
/// `0123456789abcdef` table).
#[verifier::external_body]
fn hex_encode(bytes: &[u8]) -> (res: String)
    ensures
        res@ == lower_hex(bytes@),
{
    hex::encode(bytes)
}

/// The checksum text of `data`.
pub open spec fn checksum_text(data: Seq<u8>) -> Seq<char> {
    "sha256:"@ + lower_hex(spec_sha256(data))
}

/// The SHA-256 checksum of `bytes` as `sha256:<64 lower-case hex digits>`.
pub fn sha256_hex(bytes: &[u8]) -> (res: String)
    ensures
        res@ == checksum_text(bytes@),
        res@.len() == 71,
{
    let digest = sha256_digest(bytes);
    let hex = hex_encode(digest.as_slice());
    let mut out = chars_of("sha256:");
    extend_str(&mut out, hex.as_str());
    proof {
        reveal_strlit("sha256:");
        lemma_lower_hex_len(digest@);
    }
    string_of(out.as_slice())
}

} // verus!
