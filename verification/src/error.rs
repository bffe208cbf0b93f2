//! Errors surfaced by the identity protocol.

use vstd::prelude::*;

verus! {

/// The shape of a JSON-like session attribute that was found under the id key
/// in place of the expected string, kept for diagnosability.
#[derive(Clone, Copy, Debug, PartialEq, Eq, Structural)]
pub enum IdKind {
    Null,
    Bool,
    Number,
    Array,
    Object,
}

impl IdKind {
    /// The conventional lower-case name of the offending shape.
    pub fn as_str(&self) -> (r: &'static str)
        ensures
            r@ == self.name(),
    {
        proof {
            reveal_strlit("null");
            reveal_strlit("bool");
            reveal_strlit("number");
            reveal_strlit("array");
            reveal_strlit("object");
        }
        match self {
            IdKind::Null => "null",
            IdKind::Bool => "bool",
            IdKind::Number => "number",
            IdKind::Array => "array",
            IdKind::Object => "object",
        }
    }

    /// What `as_str` returns, as a sequence of characters.
    pub open spec fn name(self) -> Seq<char> {
        match self {
            IdKind::Null => "null"@,
            IdKind::Bool => "bool"@,
            IdKind::Number => "number"@,
            IdKind::Array => "array"@,
            IdKind::Object => "object"@,
        }
    }
}

/// A recoverable failure while reading the identity attached to a session.
#[derive(Debug)]
pub enum GetIdentityError {
    /// A stored deadline timestamp cannot be represented as a datetime.
    SessionExpiry,
    /// No subject id is stored in the session.
    MissingIdentity,
    /// The attribute under the id key is not a string; the observed shape is
    /// kept for diagnosability.
    InvalidIdType(IdKind),
    /// The id attribute vanished even though an identity handle exists.
    LostIdentity,
    /// The underlying session read failed; the backend's error is kept.
    SessionGet(actix_session::SessionGetError),
}

/// A failure to establish an identity: the session writes did not take
/// effect, so the login must not be reported as successful.
#[derive(Debug)]
pub enum LoginError {
    /// The session was already finalized/invalidated (purged), so the backend
    /// ignores every write: nothing can be recorded in it.
    SessionPurged,
    /// An underlying session write failed; the backend's error is kept.
    SessionInsert(actix_session::SessionInsertError),
}

} // verus!
