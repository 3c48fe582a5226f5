//! Message authentication codes and their text encodings.
//!
//! The code itself and its base64 form are computed by outside crates; what
//! this module proves is how the exchanges' signatures are put together from
//! them.

use base64::engine::general_purpose::STANDARD;
use base64::Engine;
use hmac::{Hmac, Mac};
use sha2::Sha256;
use vstd::prelude::*;
use vstd::utf8::encode_utf8;

verus! {

/// The HMAC-SHA256 authentication code of `message` under `key`.
pub uninterp spec fn hmac_sha256(key: Seq<u8>, message: Seq<u8>) -> Seq<u8>;

/// The base64 encoding of `bytes` in the standard alphabet, with padding.
pub uninterp spec fn base64_standard(bytes: Seq<u8>) -> Seq<char>;

/// The character for a value below sixteen, in lower case.
pub open spec fn hex_digit(n: int) -> char
    recommends
        0 <= n < 16,
{
    seq!['0', '1', '2', '3', '4', '5', '6', '7', '8', '9', 'a', 'b', 'c', 'd', 'e', 'f'][n]
}

/// Two lower-case hexadecimal digits for each byte, the high half first.
pub open spec fn hex_lower(bytes: Seq<u8>) -> Seq<char>
    decreases bytes.len(),
{
    if bytes.len() == 0 {
        Seq::empty()
    } else {
        hex_lower(bytes.drop_last()) + seq![
            hex_digit(bytes.last() as int / 16),
            hex_digit(bytes.last() as int % 16),
        ]
    }
}

/// The signature of the query style: the authentication code of the text
/// under the secret, in hexadecimal.
pub open spec fn hex_signature(secret: Seq<char>, text: Seq<char>) -> Seq<char> {
    hex_lower(hmac_sha256(encode_utf8(secret), encode_utf8(text)))
}

/// The signature of the pre-hash style: the authentication code of the text
/// under the secret, in base64.
pub open spec fn base64_signature(secret: Seq<char>, text: Seq<char>) -> Seq<char> {
    base64_standard(hmac_sha256(encode_utf8(secret), encode_utf8(text)))
}

/// Calls `Hmac::<Sha256>::new_from_slice`, `update` and `finalize` of the
/// `hmac` crate. The contract names the code that they compute and gives its
/// length, the 32 bytes of a SHA-256 output; the crate accepts a key of any
/// length.
#[verifier::external_body]
fn hmac_sha256_code(key: &[u8], message: &[u8]) -> (code: Vec<u8>)
    ensures
        code@ == hmac_sha256(key@, message@),
        code@.len() == 32,
{
    let mut mac = Hmac::<Sha256>::new_from_slice(key).expect("a key of any length");
    mac.update(message);
    mac.finalize().into_bytes().to_vec()
}

/// Calls `hex::encode`, which writes each byte as two digits taken from
/// `0123456789abcdef`, the high half first.
#[verifier::external_body]
fn hex_encode(bytes: &[u8]) -> (text: String)
    ensures
        text@ == hex_lower(bytes@),
{
    hex::encode(bytes)
}

/// Calls `encode` of the `base64` crate's `STANDARD` engine. The contract
/// names its result and gives its length: four characters for every three
/// bytes, the last group padded. The crate fails only where that length does
/// not fit in `usize`, and no slice is long enough for that.
#[verifier::external_body]
fn base64_encode(bytes: &[u8]) -> (text: String)
    ensures
        text@ == base64_standard(bytes@),
        text@.len() == 4 * ((bytes@.len() + 2) / 3),
{
    STANDARD.encode(bytes)
}

/// The hexadecimal form of some bytes has two characters for each byte.
pub proof fn lemma_hex_lower_len(bytes: Seq<u8>)
    ensures
        hex_lower(bytes).len() == 2 * bytes.len(),
    decreases bytes.len(),
{
    if bytes.len() > 0 {
        lemma_hex_lower_len(bytes.drop_last());
    }
}

/// Signs `text` with `secret` in the query style. The signature has 64
/// characters.
pub fn sign_hex(secret: &str, text: &str) -> (signature: String)
    ensures
        signature@ == hex_signature(secret@, text@),
        signature@.len() == 64,
{
    let code = hmac_sha256_code(secret.as_bytes(), text.as_bytes());
    proof {
        lemma_hex_lower_len(code@);
    }
    hex_encode(code.as_slice())
}

/// Signs `text` with `secret` in the pre-hash style. The signature has 44
/// characters.
pub fn sign_base64(secret: &str, text: &str) -> (signature: String)
    ensures
        signature@ == base64_signature(secret@, text@),
        signature@.len() == 44,
{
    let code = hmac_sha256_code(secret.as_bytes(), text.as_bytes());
    base64_encode(code.as_slice())
}

/// The base64 encoding of the UTF-8 bytes of `text`.
pub fn base64_of_text(text: &str) -> (encoded: String)
    ensures
        encoded@ == base64_standard(encode_utf8(text@)),
        encoded@.len() == 4 * ((encode_utf8(text@).len() + 2) / 3),
{
    base64_encode(text.as_bytes())
}

} // verus!
