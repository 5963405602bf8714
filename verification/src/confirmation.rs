//! The email confirmation flow: a signed token from a confirmation link
//! marks the address it carries as verified.

use vstd::prelude::*;
use crate::clock::{clock_time, current_timestamp};
use crate::reply::{OutcomeKind, Reply};
use crate::token::{verify_outcome, TokenError, TokenService};

verus! {

/// What verifying the token of a confirmation link comes to.
#[derive(Debug)]
pub enum ConfirmationStart {
    /// The link is refused with this answer; nothing is marked.
    Rejected(Reply),
    /// The link is genuine and in time: mark this address as verified.
    MarkVerified(String),
}

/// Whether a step is the one that the outcome of verifying the token calls
/// for. A genuine token in time has its address marked. An expired one is
/// answered as expired, so that the client can offer to send a new link; a
/// token that is not genuine is answered as any failed authentication.
pub open spec fn follows(start: ConfirmationStart, verified: Result<Seq<char>, TokenError>) -> bool {
    match verified {
        Ok(email) => start matches ConfirmationStart::MarkVerified(address) && address@ == email,
        Err(TokenError::Expired) => start matches ConfirmationStart::Rejected(reply) && reply.says(
            400,
            OutcomeKind::Expired,
            "Bad request"@,
        ),
        Err(TokenError::InvalidSignature) => start matches ConfirmationStart::Rejected(reply)
            && reply.says(401, OutcomeKind::Unauthenticated, "Invalid confirmation link"@),
    }
}

/// The step that the outcome of verifying the token calls for.
pub fn confirmation_step(verified: Result<String, TokenError>) -> (start: ConfirmationStart)
    ensures
        match verified {
            Ok(email) => follows(start, Ok(email@)),
            Err(e) => follows(start, Err(e)),
        },
{
    match verified {
        Ok(email) => ConfirmationStart::MarkVerified(email),
        Err(TokenError::Expired) => ConfirmationStart::Rejected(
            Reply::new(400, OutcomeKind::Expired, "Bad request"),
        ),
        Err(TokenError::InvalidSignature) => ConfirmationStart::Rejected(
            Reply::new(401, OutcomeKind::Unauthenticated, "Invalid confirmation link"),
        ),
    }
}

/// Takes the token of a confirmation link at the time `now`.
pub fn begin_confirmation_at(token: &str, tokens: &TokenService, now: i64) -> (start:
    ConfirmationStart)
    ensures
        follows(start, verify_outcome(token@, now as int, tokens.secret())),
{
    confirmation_step(tokens.verify_at(token, now))
}

/// Takes the token of a confirmation link now. The time is read from the
/// clock, so the contract speaks of some time that the clock can give.
pub fn begin_confirmation(token: &str, tokens: &TokenService) -> (start: ConfirmationStart)
    ensures
        exists|now: i64|
            clock_time(now as int) && follows(
                start,
                #[trigger] verify_outcome(token@, now as int, tokens.secret()),
            ),
{
    let now: i64 = current_timestamp();
    begin_confirmation_at(token, tokens, now)
}

/// The answer once the storage was asked to mark the address. Marking an
/// address that is verified already succeeds like the first time. Where
/// the storage failed, the answer is a server error: it does not say that
/// the address is unknown, nor that the link has expired.
pub fn conclude_confirmation(marked: bool) -> (reply: Reply)
    ensures
        marked ==> reply.says(200, OutcomeKind::Success, "Email verified"@),
        !marked ==> reply.is_server_error(),
{
    if marked {
        Reply::new(200, OutcomeKind::Success, "Email verified")
    } else {
        Reply::server_error()
    }
}

} // verus!
