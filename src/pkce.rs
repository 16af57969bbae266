//! Proof Key for Code Exchange: the challenge stored for a code is the
//! lower-case hexadecimal SHA-256 digest of the verifier.
use vstd::prelude::*;
use vstd::utf8::encode_utf8;
use crate::text::push_char;
use sha2::Digest;

verus! {

/// The SHA-256 digest of a byte sequence.
pub uninterp spec fn sha256_of(data: Seq<u8>) -> Seq<u8>;

/// Relies on sha2's `Sha256::digest`: the 32-byte SHA-256 digest of the input.
#[verifier::external_body]
fn sha256_digest(data: &[u8]) -> (r: Vec<u8>)
    ensures
        r@ == sha256_of(data@),
        r@.len() == 32,
{
    sha2::Sha256::digest(data).to_vec()
}

/// The lower-case hexadecimal digit for a value below sixteen.
pub open spec fn hex_digit(d: u8) -> char
    recommends
        d < 16,
{
    if d < 10 {
        (48 + d) as u8 as char
    } else {
        (87 + d) as u8 as char
    }
}

/// Two lower-case hexadecimal digits per byte, high nibble first.
pub open spec fn hex_lower(bytes: Seq<u8>) -> Seq<char> {
    Seq::new(
        2 * bytes.len(),
        |i: int|
            if i % 2 == 0 {
                hex_digit(bytes[i / 2] / 16)
            } else {
                hex_digit(bytes[i / 2] % 16)
            },
    )
}

/// The challenge that a verifier must hash to.
pub open spec fn pkce_challenge(verifier: Seq<char>) -> Seq<char> {
    hex_lower(sha256_of(encode_utf8(verifier)))
}

fn digit_char(d: u8) -> (c: char)
    requires
        d < 16,
    ensures
        c == hex_digit(d),
{
    if d < 10 {
        (48 + d) as char
    } else {
        (87 + d) as char
    }
}

/// Lower-case hexadecimal rendering of a byte sequence.
pub fn to_hex_lower(bytes: &[u8]) -> (r: String)
    ensures
        r@ == hex_lower(bytes@),
{
    let mut r = String::new();
    let mut i: usize = 0;
    while i < bytes.len()
        invariant
            i <= bytes@.len(),
            r@ == hex_lower(bytes@.subrange(0, i as int)),
        decreases bytes@.len() - i,
    {
        let b = bytes[i];
        push_char(&mut r, digit_char(b / 16));
        push_char(&mut r, digit_char(b % 16));
        proof {
            let next = bytes@.subrange(0, i + 1);
            assert(next.subrange(0, i as int) =~= bytes@.subrange(0, i as int));
            assert(r@ =~= hex_lower(next));
        }
        i = i + 1;
    }
    assert(bytes@.subrange(0, bytes@.len() as int) =~= bytes@);
    r
}

/// The challenge for a PKCE verifier: the lower-case hexadecimal SHA-256
/// digest of its UTF-8 bytes.
pub fn challenge_of(verifier: &str) -> (r: String)
    ensures
        r@ == pkce_challenge(verifier@),
{
    let digest = sha256_digest(verifier.as_bytes());
    to_hex_lower(digest.as_slice())
}

} // verus!
