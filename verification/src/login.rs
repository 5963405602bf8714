//! The login flow: who is let in, and with what.
//!
//! The caller looks the account up, checks the password against the stored
//! hash with whatever primitive it uses, and reports both here. Every
//! refusal looks the same from outside: an unknown account, an unverified
//! address and a wrong password cannot be told apart.

use vstd::prelude::*;
use vstd::string::StringExecFns;
use crate::clock::{clock_time, current_timestamp};
use crate::nonce::fresh_identifier;
use crate::session::{
    credential_for, issued_claims, session_window, ClaimsView, SessionCredential, SessionService,
};

verus! {

/// A user row, as far as login reads it.
#[derive(Debug)]
pub struct UserRecord {
    pub id: i64,
    pub username: String,
    pub email: String,
    pub password_hash: String,
    pub email_verified: bool,
    pub image_url: String,
}

/// The body of the answer to a login.
#[derive(Clone, Copy, Debug, PartialEq, Eq, Structural)]
pub struct LoginResponse {
    pub success: bool,
}

/// The cookie a session credential is handed to the client in.
#[derive(Debug)]
pub struct SessionCookie {
    pub name: String,
    pub value: String,
    pub domain: String,
    pub path: String,
    pub secure: bool,
    pub http_only: bool,
}

impl SessionCookie {
    /// Whether this is the session cookie for a token: named `jwt`, bound
    /// to the service's domain and to every path, sent over secure
    /// connections only and kept from scripts.
    pub open spec fn carries(self, token: Seq<char>) -> bool {
        &&& self.name@ == "jwt"@
        &&& self.value@ == token
        &&& self.domain@ == "localhost"@
        &&& self.path@ == "/"@
        &&& self.secure
        &&& self.http_only
    }

    /// The session cookie for a token.
    pub fn for_token(token: String) -> (cookie: SessionCookie)
        ensures
            cookie.carries(token@),
    {
        SessionCookie {
            name: String::from_str("jwt"),
            value: token,
            domain: String::from_str("localhost"),
            path: String::from_str("/"),
            secure: true,
            http_only: true,
        }
    }
}

/// How a login ends.
#[derive(Debug)]
pub enum LoginOutcome {
    /// Refused, for whatever reason.
    Unauthenticated,
    /// Let in: the session cookie and the body of the answer.
    Granted { cookie: SessionCookie, body: LoginResponse },
}

impl LoginOutcome {
    /// The status code each outcome is answered with.
    pub open spec fn status(self) -> int {
        match self {
            LoginOutcome::Unauthenticated => 401,
            LoginOutcome::Granted { .. } => 200,
        }
    }

    /// The status code this outcome is answered with.
    pub fn code(&self) -> (code: u16)
        ensures
            code == self.status(),
    {
        match self {
            LoginOutcome::Unauthenticated => 401,
            LoginOutcome::Granted { .. } => 200,
        }
    }
}

/// Whether an outcome lets the user in with a credential for the claims
/// given: the cookie carries the token written for them, and the body
/// reports success.
pub open spec fn grants(outcome: LoginOutcome, claims: ClaimsView, secret: Seq<u8>) -> bool {
    outcome matches LoginOutcome::Granted { cookie, body } && body.success && exists|
        credential: SessionCredential,
    |
        #[trigger] credential_for(credential, claims, secret) && cookie.carries(credential.token@)
}

/// Whether the password is worth checking: the account exists and its
/// address is verified. Where it is not, the login is refused without
/// looking at the password.
pub fn password_check_due(found: Option<&UserRecord>) -> (due: bool)
    ensures
        due == (found matches Some(user) && user.email_verified),
{
    match found {
        Some(user) => user.email_verified,
        None => false,
    }
}

/// How a login that is let in ends: granted, with the session cookie that
/// carries the credential's token and a body that reports success.
pub fn grant(credential: SessionCredential) -> (outcome: LoginOutcome)
    ensures
        outcome matches LoginOutcome::Granted { cookie, body } && body.success && cookie.carries(
            credential.token@,
        ),
{
    LoginOutcome::Granted {
        cookie: SessionCookie::for_token(credential.token),
        body: LoginResponse { success: true },
    }
}

/// Decides a login at the time `now`, with the anti-CSRF token given.
/// `email` is the address the user logged in with; `password_ok` is what
/// checking the password came to, and is not looked at where no check was
/// due. The login is let in where, and only where, the account exists, its
/// address is verified and the password matched: it is then granted with a
/// credential for exactly the session of that user. Every other login is
/// refused, and no credential is issued for it.
pub fn login_at(
    found: Option<&UserRecord>,
    email: &str,
    remember_me: bool,
    password_ok: bool,
    sessions: &SessionService,
    now: i64,
    anti_csrf_token: &str,
) -> (outcome: LoginOutcome)
    requires
        now + session_window(remember_me) <= i64::MAX,
    ensures
        match found {
            Some(user) if user.email_verified && password_ok => grants(
                outcome,
                issued_claims(
                    user.id as int,
                    user.username@,
                    email@,
                    user.image_url@,
                    remember_me,
                    now as int,
                    anti_csrf_token@,
                ),
                sessions.secret(),
            ),
            _ => outcome is Unauthenticated,
        },
{
    match found {
        Some(user) => {
            if !user.email_verified || !password_ok {
                return LoginOutcome::Unauthenticated;
            }
            let issued: SessionCredential = sessions.issue_at(
                user.id,
                user.username.as_str(),
                email,
                user.image_url.as_str(),
                remember_me,
                now,
                anti_csrf_token,
            );
            grant(issued)
        },
        None => LoginOutcome::Unauthenticated,
    }
}

/// Decides a login now, with a fresh anti-CSRF token. The time and the
/// token are drawn here, so for a login that is let in the contract speaks
/// of some time that the clock can give and of some token.
pub fn login(
    found: Option<&UserRecord>,
    email: &str,
    remember_me: bool,
    password_ok: bool,
    sessions: &SessionService,
) -> (outcome: LoginOutcome)
    ensures
        match found {
            Some(user) if user.email_verified && password_ok => exists|
                now: i64,
                anti_csrf_token: Seq<char>,
            |
                clock_time(now as int) && #[trigger] grants(
                    outcome,
                    issued_claims(
                        user.id as int,
                        user.username@,
                        email@,
                        user.image_url@,
                        remember_me,
                        now as int,
                        anti_csrf_token,
                    ),
                    sessions.secret(),
                ),
            _ => outcome is Unauthenticated,
        },
{
    let now: i64 = current_timestamp();
    let anti_csrf_token: String = fresh_identifier();
    login_at(found, email, remember_me, password_ok, sessions, now, anti_csrf_token.as_str())
}

} // verus!
