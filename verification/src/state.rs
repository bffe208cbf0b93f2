//! Per-request identity configuration and its ghost-level effects.

use vstd::prelude::*;

use actix_session::Session;

use crate::values::SessVal;

verus! {

/// What `Identity::logout` erases.
#[derive(Clone, Copy, Debug, PartialEq, Eq, Structural)]
pub enum LogoutBehaviour {
    /// Destroy the whole session, every attribute included.
    PurgeSession,
    /// Remove only the identity attributes, leaving unrelated session
    /// attributes untouched.
    DeleteIdentityKeys,
}

/// The per-request bundle an identity works over: a handle to the request's
/// session plus the configuration chosen by the surrounding middleware. It is
/// built once per request and not reconfigured afterwards; all identity state
/// proper lives in the session, never here.
pub struct IdentityState {
    /// The request's session store handle.
    pub session: Session,
    /// What `logout` erases.
    pub logout_behaviour: LogoutBehaviour,
    /// Whether login records the login timestamp.
    pub is_login_deadline_enabled: bool,
    /// Whether login and visit refreshes record the last-visit timestamp.
    pub is_visit_deadline_enabled: bool,
    /// Session attribute key holding the subject id.
    pub id_key: &'static str,
    /// Session attribute key holding the login unix timestamp.
    pub login_unix_timestamp_key: &'static str,
    /// Session attribute key holding the last-visit unix timestamp.
    pub last_visit_unix_timestamp_key: &'static str,
}

impl IdentityState {
    /// Configuration invariant: the three attribute keys are distinct, so a
    /// write under one never clobbers another.
    pub open spec fn wf(self) -> bool {
        &&& self.id_key@ != self.login_unix_timestamp_key@
        &&& self.id_key@ != self.last_visit_unix_timestamp_key@
        &&& self.login_unix_timestamp_key@ != self.last_visit_unix_timestamp_key@
    }

    /// Whether two states carry the same configuration (they may differ in the
    /// session value, which evolves as attributes are written).
    pub open spec fn same_config(self, other: IdentityState) -> bool {
        &&& self.logout_behaviour == other.logout_behaviour
        &&& self.is_login_deadline_enabled == other.is_login_deadline_enabled
        &&& self.is_visit_deadline_enabled == other.is_visit_deadline_enabled
        &&& self.id_key@ == other.id_key@
        &&& self.login_unix_timestamp_key@ == other.login_unix_timestamp_key@
        &&& self.last_visit_unix_timestamp_key@ == other.last_visit_unix_timestamp_key@
    }

    /// The session contents after a successful login on a live session: the
    /// subject id, then — for each enabled deadline — the timestamp, written
    /// in that order.
    pub open spec fn login_writes(
        self,
        m: Map<Seq<char>, SessVal>,
        id: Seq<char>,
        now: int,
    ) -> Map<Seq<char>, SessVal> {
        let with_id = m.insert(self.id_key@, SessVal::VStr(id));
        let with_login = if self.is_login_deadline_enabled {
            with_id.insert(self.login_unix_timestamp_key@, SessVal::VInt(now))
        } else {
            with_id
        };
        if self.is_visit_deadline_enabled {
            with_login.insert(self.last_visit_unix_timestamp_key@, SessVal::VInt(now))
        } else {
            with_login
        }
    }

    /// The session contents after a key-deleting logout on a live session: the
    /// id attribute is gone, and so is each deadline attribute whose tracking
    /// is enabled; everything else is kept.
    pub open spec fn logout_removes(self, m: Map<Seq<char>, SessVal>) -> Map<Seq<char>, SessVal> {
        let without_id = m.remove(self.id_key@);
        let without_login = if self.is_login_deadline_enabled {
            without_id.remove(self.login_unix_timestamp_key@)
        } else {
            without_id
        };
        if self.is_visit_deadline_enabled {
            without_login.remove(self.last_visit_unix_timestamp_key@)
        } else {
            without_login
        }
    }
}

/// Which non-string shape an id attribute was observed to have, if any: the
/// diagnosable mismatch between a stored value's model and the expected JSON
/// string.
pub open spec fn kind_of_non_string(m: SessVal) -> Option<crate::error::IdKind> {
    match m {
        SessVal::VStr(_) => None,
        SessVal::VInt(_) => Some(crate::error::IdKind::Number),
        SessVal::VNumOther => Some(crate::error::IdKind::Number),
        SessVal::VBool(_) => Some(crate::error::IdKind::Bool),
        SessVal::VNull => Some(crate::error::IdKind::Null),
        SessVal::VArr => Some(crate::error::IdKind::Array),
        SessVal::VObj => Some(crate::error::IdKind::Object),
        SessVal::VJunk => None,
    }
}

} // verus!
