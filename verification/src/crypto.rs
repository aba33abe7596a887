//! Boundary to the cryptographic and encoding crates: message authentication,
//! the token's text encoding, and nonce generation.
//!
//! Each function here is a trusted wrapper around one call into an outside
//! crate; everything that uses them is verified against the contracts below.

use vstd::prelude::*;

verus! {

/// The HMAC-SHA-512 tag over `msg` under `key`. The tag is a deterministic
/// function of the key and the message alone.
pub uninterp spec fn mac_of(key: Seq<u8>, msg: Seq<u8>) -> Seq<u8>;

/// The URL-safe, unpadded base64 encoding of `bytes`.
pub uninterp spec fn b64_of(bytes: Seq<u8>) -> Seq<char>;

/// What decoding a string as URL-safe, unpadded base64 yields: the encoded
/// bytes, or `None` when the string is not a valid encoding.
pub uninterp spec fn b64_dec_of(text: Seq<char>) -> Option<Seq<u8>>;

/// True when no character of `s` is the `'.'` separator.
pub open spec fn dot_free(s: Seq<char>) -> bool {
    forall|i: int| 0 <= i < s.len() ==> s[i] != '.'
}

/// Relies on `hmac::Hmac<sha2::Sha512>`: the tag depends on key and message
/// alone and is 64 bytes long; `new_from_slice` accepts keys of any length.
#[verifier::external_body]
pub(crate) fn hmac_sha512(key: &[u8], msg: &[u8]) -> (r: Vec<u8>)
    ensures
        r@ == mac_of(key@, msg@),
        r@.len() == 64,
{
    let mut mac = <hmac::Hmac<sha2::Sha512> as hmac::KeyInit>::new_from_slice(key)
        .expect("HMAC accepts keys of any length");
    hmac::Mac::update(&mut mac, msg);
    hmac::Mac::finalize(mac).into_bytes().to_vec()
}

/// Relies on `base64::engine::general_purpose::URL_SAFE_NO_PAD.encode`: the
/// result is a function of the input bytes alone, drawn from an alphabet
/// (`A-Z a-z 0-9 - _`) that excludes `'.'`, and decoding it with the same
/// engine gives the input back.
#[verifier::external_body]
pub(crate) fn b64_encode(bytes: &[u8]) -> (r: String)
    ensures
        r@ == b64_of(bytes@),
        dot_free(r@),
        b64_dec_of(r@) == Some(bytes@),
{
    base64::Engine::encode(&base64::engine::general_purpose::URL_SAFE_NO_PAD, bytes)
}

/// Relies on `base64::engine::general_purpose::URL_SAFE_NO_PAD.decode`: the
/// result is a function of the input text alone.
#[verifier::external_body]
pub(crate) fn b64_decode(text: &str) -> (r: Option<Vec<u8>>)
    ensures
        match r {
            Some(v) => b64_dec_of(text@) == Some(v@),
            None => b64_dec_of(text@) is None,
        },
{
    base64::Engine::decode(&base64::engine::general_purpose::URL_SAFE_NO_PAD, text).ok()
}

/// Relies on `rand::fill` (backed by the thread-local generator) for 16 bytes
/// of fresh randomness. Nothing is promised of the values.
#[verifier::external_body]
pub(crate) fn random_nonce() -> (r: Vec<u8>)
    ensures
        r@.len() == 16,
{
    let mut bytes = [0u8; 16];
    rand::fill(&mut bytes);
    bytes.to_vec()
}

} // verus!
