//! Signed token service: expiring, tamper-evident tokens for actions that
//! are confirmed out of band, such as an email address.
//!
//! A token is the payload, a dot, the time of issue in decimal, a dot, and
//! the signature of everything before that last dot. The payload may hold
//! dots of its own; the other two parts cannot.

use vstd::prelude::*;
use vstd::string::StringExecFns;
use crate::clock::{clock_time, current_timestamp};
use crate::decimal::{format_i64, int_text, lemma_int_text_chars, lemma_read_int_text, parse_i64, read_i64};
use crate::mac::{hs256_sign, hs256_signature, hs256_verify, is_base64url, is_base64url_char};
use crate::text::{find_last, from_chars, last_index_of, lemma_last_index_is, to_chars};

verus! {

/// Why a token was refused.
#[derive(Clone, Copy, Debug, PartialEq, Eq, Structural)]
pub enum TokenError {
    /// The token is not of the form above, or its signature is not that of
    /// its payload and time of issue under the service's secret.
    InvalidSignature,
    /// The signature is genuine, but the token was issued more than the
    /// validity window ago.
    Expired,
}

/// How long a token stays valid: one day, in seconds.
pub const VALIDITY_WINDOW: i64 = 86400;

/// The text that is signed: payload, dot, time of issue.
pub open spec fn signed_message(payload: Seq<char>, issued_at: int) -> Seq<char> {
    payload + seq!['.'] + int_text(issued_at)
}

/// The token for a payload issued at a given time under a secret.
pub open spec fn token_text(payload: Seq<char>, issued_at: int, secret: Seq<u8>) -> Seq<char> {
    signed_message(payload, issued_at) + seq!['.'] + hs256_signature(
        secret,
        signed_message(payload, issued_at),
    )
}

/// A text cut at its last dot: what stands before it and what stands
/// behind it. A text without a dot cannot be cut.
pub open spec fn split_at_last_dot(s: Seq<char>) -> Option<(Seq<char>, Seq<char>)> {
    let i = last_index_of(s, '.');
    if i < 0 {
        None
    } else {
        Some((s.take(i), s.skip(i + 1)))
    }
}

/// Whether a token issued at `issued_at` is past its validity at `now`.
pub open spec fn is_expired(issued_at: int, now: int) -> bool {
    now - issued_at > VALIDITY_WINDOW as int
}

/// What verifying a token at a given time under a secret comes to. The
/// signature is judged first: a token that fails it is never reported as
/// expired.
pub open spec fn verify_outcome(token: Seq<char>, now: int, secret: Seq<u8>) -> Result<
    Seq<char>,
    TokenError,
> {
    match split_at_last_dot(token) {
        None => Err(TokenError::InvalidSignature),
        Some((message, signature)) => {
            if signature != hs256_signature(secret, message) {
                Err(TokenError::InvalidSignature)
            } else {
                match split_at_last_dot(message) {
                    None => Err(TokenError::InvalidSignature),
                    Some((payload, stamp)) => match read_i64(stamp) {
                        None => Err(TokenError::InvalidSignature),
                        Some(issued_at) => if is_expired(issued_at as int, now) {
                            Err(TokenError::Expired)
                        } else {
                            Ok(payload)
                        },
                    },
                }
            }
        },
    }
}

/// Whether a text holds no dot.
pub open spec fn dot_free(s: Seq<char>) -> bool {
    forall|i: int| 0 <= i < s.len() ==> #[trigger] s[i] != '.'
}

/// Two texts joined by a dot are cut apart again at that dot, provided the
/// second holds none.
pub proof fn lemma_split_joined(head: Seq<char>, tail: Seq<char>)
    requires
        dot_free(tail),
    ensures
        split_at_last_dot(head + seq!['.'] + tail) == Some((head, tail)),
{
    let s = head + seq!['.'] + tail;
    let i = head.len() as int;
    assert(s[i] == '.');
    assert forall|j: int| i < j < s.len() implies s[j] != '.' by {
        assert(s[j] == tail[j - i - 1]);
    }
    lemma_last_index_is(s, '.', i);
    assert(s.take(i) =~= head);
    assert(s.skip(i + 1) =~= tail);
}

/// A text in the URL-safe base64 alphabet holds no dot.
pub proof fn lemma_base64url_dot_free(s: Seq<char>)
    requires
        is_base64url(s),
    ensures
        dot_free(s),
{
    assert forall|i: int| 0 <= i < s.len() implies #[trigger] s[i] != '.' by {
        assert(is_base64url_char(s[i]));
    }
}

/// The decimal text of a number holds no dot.
pub proof fn lemma_int_text_dot_free(v: int)
    ensures
        dot_free(int_text(v)),
{
    lemma_int_text_chars(v);
}

/// A token whose signature holds no dot verifies to its payload while it is
/// within its validity, and is reported as expired, and as nothing else,
/// once it is past it.
pub proof fn lemma_token_round_trip(payload: Seq<char>, issued_at: i64, secret: Seq<u8>, now: int)
    requires
        dot_free(hs256_signature(secret, signed_message(payload, issued_at as int))),
    ensures
        verify_outcome(token_text(payload, issued_at as int, secret), now, secret) == (if is_expired(
            issued_at as int,
            now,
        ) {
            Err::<Seq<char>, TokenError>(TokenError::Expired)
        } else {
            Ok::<Seq<char>, TokenError>(payload)
        }),
{
    let message = signed_message(payload, issued_at as int);
    lemma_split_joined(message, hs256_signature(secret, message));
    lemma_int_text_dot_free(issued_at as int);
    lemma_split_joined(payload, int_text(issued_at as int));
    lemma_read_int_text(issued_at as int);
}

/// A token put together from a signed part and a signature that is not the
/// signed part's own is refused for its signature, whatever the time: the
/// signed part of a genuine token cannot be altered unless the altered text
/// happens to have the same signature.
pub proof fn lemma_altered_token_refused(
    altered: Seq<char>,
    signature: Seq<char>,
    secret: Seq<u8>,
    now: int,
)
    requires
        dot_free(signature),
        signature != hs256_signature(secret, altered),
    ensures
        verify_outcome(altered + seq!['.'] + signature, now, secret) == Err::<
            Seq<char>,
            TokenError,
        >(TokenError::InvalidSignature),
{
    lemma_split_joined(altered, signature);
}

/// Whether `token` is the token for a payload issued at a given time under
/// a secret, and behaves as such a token must. Verifying it returns the
/// payload at every time within its validity. Once its validity is over,
/// verifying it reports that it has expired, and never that its signature
/// is wrong. And no other signed part is accepted under its signature, at
/// any time, unless that part has the very same signature: a change to the
/// payload or to the time of issue is refused for the signature.
pub open spec fn is_token_for(
    token: Seq<char>,
    payload: Seq<char>,
    issued_at: int,
    secret: Seq<u8>,
) -> bool {
    &&& token == token_text(payload, issued_at, secret)
    &&& forall|now: int|
        !is_expired(issued_at, now) ==> #[trigger] verify_outcome(token, now, secret) == Ok::<
            Seq<char>,
            TokenError,
        >(payload)
    &&& forall|now: int|
        is_expired(issued_at, now) ==> #[trigger] verify_outcome(token, now, secret) == Err::<
            Seq<char>,
            TokenError,
        >(TokenError::Expired)
    &&& forall|altered: Seq<char>, now: int|
        hs256_signature(secret, altered) != hs256_signature(
            secret,
            signed_message(payload, issued_at),
        ) ==> #[trigger] verify_outcome(
            altered + seq!['.'] + hs256_signature(secret, signed_message(payload, issued_at)),
            now,
            secret,
        ) == Err::<Seq<char>, TokenError>(TokenError::InvalidSignature)
}

/// The signed token service: holds the secret that tokens are signed with.
pub struct TokenService {
    secret: Vec<u8>,
}

impl TokenService {
    /// The secret this service signs with.
    pub closed spec fn secret(&self) -> Seq<u8> {
        self.secret@
    }

    /// A service that signs and verifies with `secret`.
    pub fn new(secret: Vec<u8>) -> (service: TokenService)
        ensures
            service.secret() == secret@,
    {
        TokenService { secret }
    }

    /// Signs `payload` as issued at `issued_at`. The token verifies to the
    /// payload while it is valid, is reported as expired afterwards, and
    /// no other signed part passes under its signature unless that part
    /// has the same signature.
    pub fn sign_at(&self, payload: &str, issued_at: i64) -> (token: String)
        ensures
            is_token_for(token@, payload@, issued_at as int, self.secret()),
    {
        let stamp: String = format_i64(issued_at);
        let mut message: String = String::from_str(payload);
        message.append(".");
        message.append(stamp.as_str());
        proof {
            reveal_strlit(".");
            assert("."@ =~= seq!['.']);
            assert(message@ =~= signed_message(payload@, issued_at as int));
        }
        let signature: String = match hs256_sign(self.secret.as_slice(), message.as_str()) {
            Some(s) => s,
            None => vstd::pervasive::unreached(),
        };
        let mut token: String = message;
        token.append(".");
        token.append(signature.as_str());
        proof {
            let signed = signed_message(payload@, issued_at as int);
            assert(token@ =~= token_text(payload@, issued_at as int, self.secret()));
            lemma_base64url_dot_free(signature@);
            assert forall|now: int|
                #[trigger] verify_outcome(token@, now, self.secret()) == (if is_expired(
                    issued_at as int,
                    now,
                ) {
                    Err::<Seq<char>, TokenError>(TokenError::Expired)
                } else {
                    Ok::<Seq<char>, TokenError>(payload@)
                }) by {
                lemma_token_round_trip(payload@, issued_at, self.secret(), now);
            }
            assert forall|altered: Seq<char>, now: int|
                hs256_signature(self.secret(), altered) != hs256_signature(
                    self.secret(),
                    signed,
                ) implies #[trigger] verify_outcome(
                altered + seq!['.'] + hs256_signature(self.secret(), signed),
                now,
                self.secret(),
            ) == Err::<Seq<char>, TokenError>(TokenError::InvalidSignature) by {
                lemma_altered_token_refused(altered, signature@, self.secret(), now);
            }
        }
        token
    }

    /// Signs `payload` as issued now. The time is read from the clock, so
    /// the contract speaks of some time that the clock can give.
    pub fn sign(&self, payload: &str) -> (token: String)
        ensures
            exists|issued_at: i64|
                clock_time(issued_at as int) && #[trigger] is_token_for(
                    token@,
                    payload@,
                    issued_at as int,
                    self.secret(),
                ),
    {
        let now: i64 = current_timestamp();
        self.sign_at(payload, now)
    }

    /// Verifies a token at the time `now`: the payload where the signature
    /// is genuine and the token within its validity, else the reason.
    pub fn verify_at(&self, token: &str, now: i64) -> (r: Result<String, TokenError>)
        ensures
            match r {
                Ok(payload) => verify_outcome(token@, now as int, self.secret()) == Ok::<
                    Seq<char>,
                    TokenError,
                >(payload@),
                Err(e) => verify_outcome(token@, now as int, self.secret()) == Err::<
                    Seq<char>,
                    TokenError,
                >(e),
            },
    {
        let chars: Vec<char> = to_chars(token);
        let n: usize = chars.len();
        assert(chars@.take(n as int) =~= token@);
        let cut: usize = match find_last(&chars, n, '.') {
            Some(i) => i,
            None => {
                return Err(TokenError::InvalidSignature);
            },
        };
        let message: String = from_chars(&chars, 0, cut);
        let signature: String = from_chars(&chars, cut + 1, n);
        assert(message@ =~= token@.take(cut as int));
        assert(signature@ =~= token@.skip(cut + 1));
        if !hs256_verify(self.secret.as_slice(), message.as_str(), signature.as_str()) {
            return Err(TokenError::InvalidSignature);
        }
        assert(chars@.take(cut as int) =~= message@);
        let inner: usize = match find_last(&chars, cut, '.') {
            Some(i) => i,
            None => {
                return Err(TokenError::InvalidSignature);
            },
        };
        let payload: String = from_chars(&chars, 0, inner);
        let stamp: String = from_chars(&chars, inner + 1, cut);
        assert(payload@ =~= message@.take(inner as int));
        assert(stamp@ =~= message@.skip(inner + 1));
        match parse_i64(stamp.as_str()) {
            None => Err(TokenError::InvalidSignature),
            Some(issued_at) => {
                if (now as i128) - (issued_at as i128) > (VALIDITY_WINDOW as i128) {
                    Err(TokenError::Expired)
                } else {
                    Ok(payload)
                }
            },
        }
    }

    /// Verifies a token now. The time is read from the clock, so the
    /// contract speaks of some time that the clock can give.
    pub fn verify(&self, token: &str) -> (r: Result<String, TokenError>)
        ensures
            exists|now: i64|
                clock_time(now as int) && match r {
                    Ok(payload) => #[trigger] verify_outcome(token@, now as int, self.secret())
                        == Ok::<Seq<char>, TokenError>(payload@),
                    Err(e) => verify_outcome(token@, now as int, self.secret()) == Err::<
                        Seq<char>,
                        TokenError,
                    >(e),
                },
    {
        let now: i64 = current_timestamp();
        self.verify_at(token, now)
    }
}

} // verus!
