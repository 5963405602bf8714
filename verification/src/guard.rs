//! Authorization guard: a profile may be changed by its owner alone.

use vstd::prelude::*;
use crate::reply::{OutcomeKind, Reply};
use crate::session::SessionClaims;

verus! {

/// Whether the session's user owns the resource: the two ids are the same.
/// Nothing else about the session is looked at.
pub fn authorize_owner(claims: &SessionClaims, resource_owner_id: i64) -> (allowed: bool)
    ensures
        allowed == (claims@.user_id == resource_owner_id as int),
{
    claims.user_id == resource_owner_id
}

/// Whether a request on a profile may go ahead.
#[derive(Debug)]
pub enum OwnerGate {
    /// The session's user owns the profile: go ahead.
    Proceed,
    /// Refused with this answer; the storage is not to be touched.
    Rejected(Reply),
}

/// Guards a request on the profile of `owner_id`. The request goes ahead
/// where, and only where, the session's user is that owner; every other
/// request is refused before the storage is touched.
pub fn guard_owner(claims: &SessionClaims, owner_id: i64) -> (gate: OwnerGate)
    ensures
        claims@.user_id == owner_id as int ==> gate is Proceed,
        claims@.user_id != owner_id as int ==> (gate matches OwnerGate::Rejected(reply)
            && reply.says(401, OutcomeKind::Unauthorized, Seq::<char>::empty())),
{
    if authorize_owner(claims, owner_id) {
        OwnerGate::Proceed
    } else {
        OwnerGate::Rejected(Reply::bare(401, OutcomeKind::Unauthorized))
    }
}

} // verus!
