//! Keyed signatures over text, computed by the `jsonwebtoken` crate.

use vstd::prelude::*;

verus! {

/// The HMAC-SHA256 signature of a message under a secret, in URL-safe
/// base64 without padding: what `jsonwebtoken::crypto::sign` returns for
/// the algorithm HS256 and the message's UTF-8 bytes.
pub uninterp spec fn hs256_signature(secret: Seq<u8>, message: Seq<char>) -> Seq<char>;

/// The alphabet of URL-safe base64: letters, digits, `-` and `_`.
pub open spec fn is_base64url_char(c: char) -> bool {
    ||| 'A' <= c && c <= 'Z'
    ||| 'a' <= c && c <= 'z'
    ||| '0' <= c && c <= '9'
    ||| c == '-'
    ||| c == '_'
}

/// Whether a text is written in the URL-safe base64 alphabet alone.
pub open spec fn is_base64url(s: Seq<char>) -> bool {
    forall|i: int| 0 <= i < s.len() ==> is_base64url_char(#[trigger] s[i])
}

/// Calls `jsonwebtoken::crypto::sign` with the algorithm HS256 and a key
/// made by `EncodingKey::from_secret`. For that algorithm the call always
/// returns a signature; it is a function of the secret and the message
/// alone and is written in URL-safe base64 without padding.
#[verifier::external_body]
pub(crate) fn hs256_sign(secret: &[u8], message: &str) -> (signature: Option<String>)
    ensures
        signature is Some,
        signature matches Some(s) ==> s@ == hs256_signature(secret@, message@),
        signature matches Some(s) ==> is_base64url(s@),
{
    let key = jsonwebtoken::EncodingKey::from_secret(secret);
    jsonwebtoken::crypto::sign(message.as_bytes(), &key, jsonwebtoken::Algorithm::HS256).ok()
}

/// Calls `jsonwebtoken::crypto::verify` with the algorithm HS256 and a key
/// made by `DecodingKey::from_secret`. For that algorithm the call signs
/// the message again and compares the two signatures in constant time: the
/// answer is whether the signature given is the message's own.
#[verifier::external_body]
pub(crate) fn hs256_verify(secret: &[u8], message: &str, signature: &str) -> (genuine: bool)
    ensures
        genuine == (signature@ == hs256_signature(secret@, message@)),
{
    let key = jsonwebtoken::DecodingKey::from_secret(secret);
    let alg = jsonwebtoken::Algorithm::HS256;
    matches!(jsonwebtoken::crypto::verify(signature, message.as_bytes(), &key, alg), Ok(true))
}

} // verus!
