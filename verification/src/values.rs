//! Models of the session collaborator's observable state.
//!
//! A session attribute is stored by the backend as a JSON-encoded string. All
//! this crate ever observes of an attribute is how that string parses, so the
//! model classifies each stored attribute by its parse class: a JSON string
//! with its characters, an integer in `i64` range, some other JSON number, a
//! boolean, `null`, an array, an object, or text that does not parse as JSON
//! at all.

use vstd::prelude::*;

verus! {

/// The parse class of one stored session attribute (ghost model).
pub enum SessVal {
    /// Parses as a JSON string with these characters.
    VStr(Seq<char>),
    /// Parses as a JSON number representable as an `i64`.
    VInt(int),
    /// Parses as a JSON number outside the `i64` range (or not an integer).
    VNumOther,
    /// Parses as a JSON boolean.
    VBool(bool),
    /// Parses as JSON `null`.
    VNull,
    /// Parses as a JSON array.
    VArr,
    /// Parses as a JSON object.
    VObj,
    /// Does not parse as a JSON document.
    VJunk,
}

/// The lifecycle status of a session, mirroring the backend's own status flag:
/// a fresh session is `Unchanged`, writes mark it `Changed`, renewal marks it
/// `Renewed` (which survives later writes), and purging it is terminal.
#[derive(Clone, Copy, Debug, PartialEq, Eq, Structural)]
pub enum SessStatus {
    Unchanged,
    Changed,
    Renewed,
    Purged,
}

/// A session attribute as handed out by the backend, with payloads kept where
/// this crate can hold them as plain values.
pub enum SessionValue {
    Str(String),
    Null,
    Bool(bool),
    Number,
    Array,
    Object,
}

impl SessionValue {
    /// Whether this runtime value is what the model `m` describes.
    pub open spec fn abstracts(self, m: SessVal) -> bool {
        match self {
            SessionValue::Str(s) => m matches SessVal::VStr(q) && s@ == q,
            SessionValue::Null => m is VNull,
            SessionValue::Bool(b) => m matches SessVal::VBool(c) && b == c,
            SessionValue::Number => m is VInt || m is VNumOther,
            SessionValue::Array => m is VArr,
            SessionValue::Object => m is VObj,
        }
    }
}

/// The contents of a session that holds no attribute at all.
pub open spec fn no_attributes() -> Map<Seq<char>, SessVal> {
    Map::empty()
}

/// What the backend advances a non-purged session's status to when an
/// attribute is written or removed: renewal is sticky, anything else becomes
/// `Changed`.
pub open spec fn touched(st: SessStatus) -> SessStatus {
    if st is Renewed {
        SessStatus::Renewed
    } else {
        SessStatus::Changed
    }
}

} // verus!
