//! The signer: HMAC-SHA256 over the canonical parameter string, hex-encoded.

use vstd::prelude::*;
use vstd::utf8::encode_utf8;

use hmac::Mac;

verus! {

/// The HMAC-SHA256 digest of a message under a key. The algorithm is a pure
/// function of its two byte-string arguments; its definition is left to the
/// outside implementation and only named here.
pub uninterp spec fn hmac_sha256_of(key: Seq<u8>, message: Seq<u8>) -> Seq<u8>;

/// Relies on the `hmac` crate's `Hmac<Sha256>` (`new_from_slice`, `update`,
/// `finalize`): the digest depends only on the key and message bytes and is
/// 32 bytes long. `new_from_slice` accepts a key of any length for HMAC, so
/// the `unwrap` cannot fail.
#[verifier::external_body]
fn hmac_sha256(key: &[u8], message: &[u8]) -> (r: Vec<u8>)
    ensures
        r@ == hmac_sha256_of(key@, message@),
        r@.len() == 32,
{
    let mut mac = <hmac::Hmac<sha2::Sha256> as Mac>::new_from_slice(key).unwrap();
    mac.update(message);
    mac.finalize().into_bytes().to_vec()
}

/// The lower-case hex character for one value below sixteen.
pub open spec fn spec_hex_digit(d: u8) -> char
    recommends
        d < 16,
{
    if d < 10 {
        ((0x30 + d) as u8) as char
    } else {
        ((0x57 + d) as u8) as char
    }
}

/// The lower-case hex encoding of a byte string: two digits per byte, high
/// nibble first.
pub open spec fn spec_hex_string(bytes: Seq<u8>) -> Seq<char>
    decreases bytes.len(),
{
    if bytes.len() == 0 {
        Seq::empty()
    } else {
        seq![
            spec_hex_digit((bytes.first() / 16) as u8),
            spec_hex_digit((bytes.first() % 16) as u8),
        ] + spec_hex_string(bytes.drop_first())
    }
}

/// A hex encoding is twice as long as its input.
pub proof fn lemma_hex_string_len(bytes: Seq<u8>)
    ensures
        spec_hex_string(bytes).len() == 2 * bytes.len(),
    decreases bytes.len(),
{
    if bytes.len() > 0 {
        lemma_hex_string_len(bytes.drop_first());
    }
}

/// Relies on `hex::encode`: lower-case hex, two digits per byte, high nibble
/// first.
#[verifier::external_body]
fn hex_lower(bytes: &[u8]) -> (r: String)
    ensures
        r@ == spec_hex_string(bytes@),
{
    hex::encode(bytes)
}

/// The signature of a canonical parameter string under a secret key: the
/// lower-case hex encoding of the HMAC-SHA256 digest of the string's UTF-8
/// bytes, keyed by the secret's UTF-8 bytes.
pub open spec fn spec_signature(param: Seq<char>, secret: Seq<char>) -> Seq<char> {
    spec_hex_string(hmac_sha256_of(encode_utf8(secret), encode_utf8(param)))
}

/// Signs the canonical parameter string with the secret key. The result is
/// a pure function of the two arguments: 64 lower-case hex characters of
/// HMAC-SHA256. No input is rejected; HMAC accepts keys of any length.
pub fn get_signature(param: &String, secret: &String) -> (r: String)
    ensures
        r@ == spec_signature(param@, secret@),
        r@.len() == 64,
{
    let digest = hmac_sha256(secret.as_str().as_bytes(), param.as_str().as_bytes());
    let r = hex_lower(digest.as_slice());
    proof {
        lemma_hex_string_len(digest@);
    }
    r
}

/// Signature determinism: the signature is a function of the canonical
/// string and the secret alone, so any two results obtained from the same
/// inputs are identical.
pub proof fn lemma_signature_deterministic(
    param: Seq<char>,
    secret: Seq<char>,
    r1: Seq<char>,
    r2: Seq<char>,
)
    requires
        r1 == spec_signature(param, secret),
        r2 == spec_signature(param, secret),
    ensures
        r1 == r2,
{
}

} // verus!
