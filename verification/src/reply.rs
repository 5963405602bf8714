//! What every flow answers with: a status code, the kind of outcome, and a
//! message for the user.

use vstd::prelude::*;
use vstd::string::StringExecFns;

verus! {

/// The kinds of outcome a caller can tell apart.
#[derive(Clone, Copy, Debug, PartialEq, Eq, Structural)]
pub enum OutcomeKind {
    Success,
    InvalidInput,
    Conflict,
    Unauthenticated,
    Unauthorized,
    Expired,
    NotFound,
    StorageError,
    DeliveryError,
}

/// An answer: status code, kind of outcome, message.
#[derive(Debug)]
pub struct Reply {
    pub code: u16,
    pub kind: OutcomeKind,
    pub message: String,
}

impl Reply {
    /// Whether the answer has this code, kind and message.
    pub open spec fn says(self, code: int, kind: OutcomeKind, message: Seq<char>) -> bool {
        self.code == code && self.kind == kind && self.message@ == message
    }

    /// The answer with the code, kind and message given.
    pub fn new(code: u16, kind: OutcomeKind, message: &str) -> (reply: Reply)
        ensures
            reply.says(code as int, kind, message@),
    {
        Reply { code, kind, message: String::from_str(message) }
    }

    /// Whether the answer is the one given to a failure of the storage: a
    /// server error that says nothing of what failed.
    pub open spec fn is_server_error(self) -> bool {
        self.says(500, OutcomeKind::StorageError, "Internal server error"@)
    }

    /// The answer to a failure of the storage. It is the same whatever
    /// failed: the detail is for the server's log, not for the user.
    pub fn server_error() -> (reply: Reply)
        ensures
            reply.is_server_error(),
    {
        Reply::new(500, OutcomeKind::StorageError, "Internal server error")
    }

    /// The answer with the code and kind given, and no message.
    pub fn bare(code: u16, kind: OutcomeKind) -> (reply: Reply)
        ensures
            reply.says(code as int, kind, Seq::<char>::empty()),
    {
        Reply { code, kind, message: String::new() }
    }
}

} // verus!
