//! Signed claim sets, written and read by the `jsonwebtoken` crate.
//!
//! A claim set goes in as two lists of named claims, one of texts and one
//! of whole numbers. It comes out as one list, in which each claim says
//! itself whether it is a text or a whole number.

use jsonwebtoken::{decode, encode, Algorithm, DecodingKey, EncodingKey, Header, Validation};
use serde_json::Value;
use vstd::prelude::*;

verus! {

/// Named text claims, as plain values.
pub type TextClaims = Seq<(Seq<char>, Seq<char>)>;

/// Named number claims, as plain values.
pub type NumberClaims = Seq<(Seq<char>, int)>;

/// Claims as they are read: each with its name, its text where it is a
/// text, and its number where it is a whole number that fits 64 bits.
pub type ReadClaims = Seq<(Seq<char>, Option<Seq<char>>, Option<int>)>;

/// The plain value of a list of text claims.
pub open spec fn text_entries(claims: Seq<(String, String)>) -> TextClaims {
    Seq::new(claims.len(), |i: int| (claims[i].0@, claims[i].1@))
}

/// The plain value of a list of number claims.
pub open spec fn number_entries(claims: Seq<(String, i64)>) -> NumberClaims {
    Seq::new(claims.len(), |i: int| (claims[i].0@, claims[i].1 as int))
}

/// The plain value of a list of claims as they are read.
pub open spec fn read_entries(claims: Seq<(String, Option<String>, Option<i64>)>) -> ReadClaims {
    Seq::new(
        claims.len(),
        |i: int|
            (
                claims[i].0@,
                match claims[i].1 {
                    Some(text) => Some(text@),
                    None => None,
                },
                match claims[i].2 {
                    Some(number) => Some(number as int),
                    None => None,
                },
            ),
    )
}

/// The names of all claims of a set, texts first.
pub open spec fn claim_names(texts: TextClaims, numbers: NumberClaims) -> Seq<Seq<char>> {
    Seq::new(texts.len(), |i: int| texts[i].0) + Seq::new(numbers.len(), |i: int| numbers[i].0)
}

/// Whether no name is given to two claims of a set.
pub open spec fn distinct_names(texts: TextClaims, numbers: NumberClaims) -> bool {
    claim_names(texts, numbers).no_duplicates()
}

/// The token that `jsonwebtoken::encode` writes for a claim set under a
/// secret, with the crate's default header.
pub uninterp spec fn jwt_encoding(texts: Seq<(Seq<char>, Seq<char>)>, numbers: Seq<(Seq<char>, int)>, secret: Seq<u8>) -> Seq<char>;

/// The claims that `jsonwebtoken::decode` reads from a token under a
/// secret, with every check but that of the signature switched off. None
/// where the crate refuses the token.
pub uninterp spec fn jwt_decoding(token: Seq<char>, secret: Seq<u8>) -> Option<Seq<(Seq<char>, Option<Seq<char>>, Option<int>)>>;

/// Whether the claims read are those of a claim set, in whatever order:
/// each text claim is read as a text and as no number, each number claim
/// as a number and as no text, and nothing else is read.
pub open spec fn same_claims(read: ReadClaims, texts: TextClaims, numbers: NumberClaims) -> bool {
    &&& forall|e: (Seq<char>, Seq<char>)|
        #[trigger] texts.contains(e) ==> read.contains((e.0, Some(e.1), None::<int>))
    &&& forall|e: (Seq<char>, int)|
        #[trigger] numbers.contains(e) ==> read.contains((e.0, None::<Seq<char>>, Some(e.1)))
    &&& forall|e: (Seq<char>, Option<Seq<char>>, Option<int>)| #[trigger]
        read.contains(e) ==> {
            ||| (e.1 is Some && e.2 is None && texts.contains((e.0, e.1->0)))
            ||| (e.1 is None && e.2 is Some && numbers.contains((e.0, e.2->0)))
        }
}

/// Calls `jsonwebtoken::encode` with the default header (HS256), a JSON
/// object that holds each claim under its name, and a key made by
/// `EncodingKey::from_secret`. With these the call always returns a token:
/// the key is of the header's family, an object of texts and whole numbers
/// under text names gives the serialiser nothing to refuse, and signing
/// with HS256 cannot fail. The token is a function of the claims and the
/// secret alone. Where no name is used twice, `jsonwebtoken::decode`
/// accepts the token under the same secret and reads the same claims from
/// it: it finds the signature it would write itself, and the JSON object
/// comes back as it went in.
#[verifier::external_body]
pub(crate) fn jwt_encode(
    texts: &Vec<(String, String)>,
    numbers: &Vec<(String, i64)>,
    secret: &[u8],
) -> (token: Option<String>)
    ensures
        token is Some,
        token matches Some(t) ==> t@ == jwt_encoding(
            text_entries(texts@),
            number_entries(numbers@),
            secret@,
        ),
        token matches Some(t) ==> distinct_names(text_entries(texts@), number_entries(numbers@))
            ==> (jwt_decoding(t@, secret@) matches Some(read) && same_claims(
            read,
            text_entries(texts@),
            number_entries(numbers@),
        )),
{
    let mut object = serde_json::Map::new();
    for (name, value) in texts {
        object.insert(name.clone(), Value::from(value.as_str()));
    }
    for (name, value) in numbers {
        object.insert(name.clone(), Value::from(*value));
    }
    encode(&Header::default(), &object, &EncodingKey::from_secret(secret)).ok()
}

/// Calls `jsonwebtoken::decode` for a JSON object, with a key made by
/// `DecodingKey::from_secret` and a validation for HS256 that requires no
/// claim and checks neither expiry nor audience: the crate then checks the
/// token's form and signature and reads the claims, without looking at the
/// clock. Each claim is returned with what `Value::as_str` and
/// `Value::as_i64` say of it.
#[verifier::external_body]
pub(crate) fn jwt_decode(token: &str, secret: &[u8]) -> (read: Option<
    Vec<(String, Option<String>, Option<i64>)>,
>)
    ensures
        match read {
            Some(claims) => jwt_decoding(token@, secret@) == Some(read_entries(claims@)),
            None => jwt_decoding(token@, secret@) is None,
        },
{
    let mut validation = Validation::new(Algorithm::HS256);
    validation.validate_exp = false;
    validation.validate_aud = false;
    validation.required_spec_claims.clear();
    let key = DecodingKey::from_secret(secret);
    let data = decode::<serde_json::Map<String, Value>>(token, &key, &validation).ok()?;
    let mut claims = Vec::new();
    for (name, value) in data.claims {
        claims.push((name, value.as_str().map(String::from), value.as_i64()));
    }
    Some(claims)
}

} // verus!
