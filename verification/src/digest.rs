//! SHA-256 digests in hexadecimal notation.

use sha2::Digest;
use vstd::prelude::*;

verus! {

/// The SHA-256 digest of the bytes, as `sha2::Sha256` computes it.
pub uninterp spec fn sha256_digest(bytes: Seq<u8>) -> Seq<u8>;

/// The digest by `sha2::Sha256`: `new`, one `update` with all bytes, `finalize`.
///
/// Claimed of the outside functions is that the digest is a function of the bytes, and
/// that it has 32 bytes.
#[verifier::external_body]
fn digest_of(bytes: &[u8]) -> (r: Vec<u8>)
    ensures
        r@ == sha256_digest(bytes@),
        r@.len() == 32,
{
    let mut hasher = sha2::Sha256::new();
    hasher.update(bytes);
    hasher.finalize().to_vec()
}

/// The hexadecimal digit of a value below 16.
pub open spec fn hex_digit(n: int) -> char {
    if n < 10 {
        (48 + n) as char
    } else {
        (87 + n) as char
    }
}

/// The bytes in lower-case hexadecimal notation, two digits for each, the higher first.
pub open spec fn hex(bytes: Seq<u8>) -> Seq<char> {
    Seq::new(
        2 * bytes.len(),
        |i: int|
            if i % 2 == 0 {
                hex_digit(bytes[i / 2] as int / 16)
            } else {
                hex_digit(bytes[i / 2] as int % 16)
            },
    )
}

/// The hexadecimal digit of a value below 16.
fn hex_char(n: u8) -> (r: char)
    requires
        n < 16,
    ensures
        r == hex_digit(n as int),
{
    if n < 10 {
        (48 + n) as char
    } else {
        (87 + n) as char
    }
}

/// The bytes in lower-case hexadecimal notation.
pub fn hex_text(bytes: &Vec<u8>) -> (r: String)
    ensures
        r@ == hex(bytes@),
{
    let mut out = String::new();
    let mut i: usize = 0;
    while i < bytes.len()
        invariant
            i <= bytes@.len(),
            out@ == hex(bytes@.take(i as int)),
        decreases bytes@.len() - i,
    {
        let ghost before = out@;
        out.push(hex_char(bytes[i] / 16));
        out.push(hex_char(bytes[i] % 16));
        proof {
            let n = bytes@.take(i + 1);
            assert(hex(n).len() == before.len() + 2);
            assert forall|k: int| 0 <= k < hex(n).len() implies out@[k] == hex(n)[k] by {
                if k < before.len() {
                    assert(n[k / 2] == bytes@.take(i as int)[k / 2]);
                }
            }
            assert(out@ == hex(n));
        }
        i = i + 1;
    }
    assert(bytes@.take(bytes@.len() as int) == bytes@);
    out
}

/// The SHA-256 digest of the bytes, in lower-case hexadecimal notation.
pub fn sha256(bytes: &[u8]) -> (r: String)
    ensures
        r@ == hex(sha256_digest(bytes@)),
        r@.len() == 64,
{
    hex_text(&digest_of(bytes))
}

} // verus!
