//! The identity lifecycle protocol: create by login, validate by extraction,
//! query, refresh, and tear down.

use vstd::prelude::*;

use crate::error::{GetIdentityError, IdKind, LoginError};
use crate::sess::{
    fresh_session, now_unix, sess_contents, sess_status, session_get_i64, session_get_json,
    session_get_string, session_insert_i64, session_insert_string, session_purge, session_remove,
    session_renew, session_status, timestamp_representable, ts_representable,
};
use crate::state::{kind_of_non_string, IdentityState, LogoutBehaviour};
use crate::values::{no_attributes, touched, SessStatus, SessVal, SessionValue};

verus! {

/// A verified user identity, bound to the lifetime of the underlying session:
/// if the session is destroyed or expires, the identity is forgotten with it.
/// Holding a handle does not by itself guarantee the subject id is still
/// readable — the session may be purged or rotated concurrently — so every
/// accessor re-validates against the session.
pub struct Identity(IdentityState);

impl Identity {
    /// The wrapped per-request state.
    pub closed spec fn inner(self) -> IdentityState {
        self.0
    }

    /// Fabricate an identity bound to a fresh in-memory session holding `id`
    /// under a fixed id key, with both deadlines disabled — for unit tests of
    /// handler logic, bypassing any middleware wiring.
    pub fn mock(id: String) -> (r: Identity)
        ensures
            r.inner().logout_behaviour is PurgeSession,
            !r.inner().is_login_deadline_enabled,
            !r.inner().is_visit_deadline_enabled,
            r.inner().id_key@ == "nervemq-id"@,
            r.inner().login_unix_timestamp_key@ == "login-timestamp"@,
            r.inner().last_visit_unix_timestamp_key@ == "last-visit-timestamp"@,
            r.inner().wf(),
            sess_status(r.inner().session) == SessStatus::Changed,
            sess_contents(r.inner().session) == no_attributes().insert(
                "nervemq-id"@,
                SessVal::VStr(id@),
            ),
    {
        let mut session = fresh_session();
        let _ = session_insert_string(&mut session, "nervemq-id", id);
        proof {
            reveal_strlit("nervemq-id");
            reveal_strlit("login-timestamp");
            reveal_strlit("last-visit-timestamp");
            assert("nervemq-id"@.len() == 10);
            assert("login-timestamp"@.len() == 15);
            assert("last-visit-timestamp"@.len() == 20);
        }
        Identity(
            IdentityState {
                session,
                logout_behaviour: LogoutBehaviour::PurgeSession,
                is_login_deadline_enabled: false,
                is_visit_deadline_enabled: false,
                id_key: "nervemq-id",
                login_unix_timestamp_key: "login-timestamp",
                last_visit_unix_timestamp_key: "last-visit-timestamp",
            },
        )
    }

    /// Return the subject id associated to the current session.
    ///
    /// Even though this handle exists, the id attribute may have vanished
    /// (concurrent logout, session rotation): that is reported as
    /// `LostIdentity`. A stored value that is no longer a string is reported
    /// as the underlying session read failure.
    pub fn id(&self) -> (r: Result<String, GetIdentityError>)
        ensures
            ({
                let m = sess_contents(self.inner().session);
                let k = self.inner().id_key@;
                match r {
                    Ok(s) => m.dom().contains(k) && m[k] == SessVal::VStr(s@),
                    Err(e) => match e {
                        GetIdentityError::LostIdentity => !m.dom().contains(k),
                        GetIdentityError::SessionGet(_) => m.dom().contains(k) && !(m[k] is VStr),
                        _ => false,
                    },
                }
            }),
    {
        match session_get_string(&self.0.session, self.0.id_key) {
            Ok(Some(s)) => Ok(s),
            Ok(None) => Err(GetIdentityError::LostIdentity),
            Err(e) => Err(GetIdentityError::SessionGet(e)),
        }
    }

    /// Attach a valid user identity to the current session, taking the current
    /// wall-clock time for the deadline attributes. Equivalent to [`login_at`]
    /// at some clock reading.
    ///
    /// [`login_at`]: Identity::login_at
    pub fn login(state: IdentityState, id: String) -> (r: Result<Identity, LoginError>)
        requires
            state.wf(),
        ensures
            ({
                let m0 = sess_contents(state.session);
                let st0 = sess_status(state.session);
                match r {
                    Ok(ident) => !(st0 is Purged) && ident.inner().same_config(state)
                        && sess_status(ident.inner().session) is Renewed && exists|t: int|
                        sess_contents(ident.inner().session) == #[trigger] state.login_writes(
                            m0,
                            id@,
                            t,
                        ),
                    Err(e) => st0 is Purged && e is SessionPurged,
                }
            }),
    {
        let now = now_unix();
        Self::login_at(state, id, now)
    }

    /// Attach a valid user identity to the current session, recording `now` as
    /// the timestamp for each enabled deadline.
    ///
    /// This writes the id, then the enabled timestamps, then renews the
    /// session (rotating its identifier while keeping every attribute) to
    /// mitigate session fixation; renewal comes last so that all attributes
    /// survive the rotation.
    ///
    /// A login that records nothing must not be reported as successful, so on
    /// a session that was already finalized/invalidated — where the backend
    /// ignores every write — this fails up front, with nothing written; on a
    /// live session every write takes effect and the login succeeds.
    pub fn login_at(state: IdentityState, id: String, now: i64) -> (r: Result<Identity, LoginError>)
        requires
            state.wf(),
        ensures
            ({
                let m0 = sess_contents(state.session);
                let st0 = sess_status(state.session);
                match r {
                    Ok(ident) => !(st0 is Purged) && ident.inner().same_config(state)
                        && sess_contents(ident.inner().session) == state.login_writes(
                        m0,
                        id@,
                        now as int,
                    ) && sess_status(ident.inner().session) is Renewed,
                    Err(e) => st0 is Purged && e is SessionPurged,
                }
            }),
    {
        let mut state = state;
        if session_status(&state.session) == SessStatus::Purged {
            return Err(LoginError::SessionPurged);
        }
        match session_insert_string(&mut state.session, state.id_key, id) {
            Ok(()) => {},
            Err(e) => {
                return Err(LoginError::SessionInsert(e));
            },
        }
        if state.is_login_deadline_enabled {
            match session_insert_i64(&mut state.session, state.login_unix_timestamp_key, now) {
                Ok(()) => {},
                Err(e) => {
                    return Err(LoginError::SessionInsert(e));
                },
            }
        }
        if state.is_visit_deadline_enabled {
            match session_insert_i64(&mut state.session, state.last_visit_unix_timestamp_key, now) {
                Ok(()) => {},
                Err(e) => {
                    return Err(LoginError::SessionInsert(e));
                },
            }
        }
        session_renew(&mut state.session);
        Ok(Identity(state))
    }

    /// Remove the user identity from the current session, per the configured
    /// behaviour: purge the whole session, or delete only the identity keys
    /// (the id, and each deadline attribute whose tracking is enabled),
    /// keeping unrelated attributes.
    ///
    /// This is terminal and error-free: removing an already-absent attribute
    /// and purging are treated as successes.
    pub fn logout(&mut self)
        ensures
            final(self).inner().same_config(old(self).inner()),
            ({
                let m0 = sess_contents(old(self).inner().session);
                let st0 = sess_status(old(self).inner().session);
                let m1 = sess_contents(final(self).inner().session);
                let st1 = sess_status(final(self).inner().session);
                match old(self).inner().logout_behaviour {
                    LogoutBehaviour::PurgeSession => m1 == no_attributes()
                        && st1 is Purged,
                    LogoutBehaviour::DeleteIdentityKeys => if st0 is Purged {
                        m1 == m0 && st1 == st0
                    } else {
                        m1 == old(self).inner().logout_removes(m0) && st1 == touched(st0)
                    },
                }
            }),
    {
        match self.0.logout_behaviour {
            LogoutBehaviour::PurgeSession => {
                session_purge(&mut self.0.session);
            },
            LogoutBehaviour::DeleteIdentityKeys => {
                session_remove(&mut self.0.session, self.0.id_key);
                if self.0.is_login_deadline_enabled {
                    session_remove(&mut self.0.session, self.0.login_unix_timestamp_key);
                }
                if self.0.is_visit_deadline_enabled {
                    session_remove(&mut self.0.session, self.0.last_visit_unix_timestamp_key);
                }
            },
        }
    }

    /// Validating constructor: require that the id attribute is present and a
    /// well-typed string, and wrap the state unchanged. Absence is
    /// `MissingIdentity`; a present non-string is `InvalidIdType` with the
    /// observed shape; an unreadable attribute is the underlying read failure.
    pub fn extract(state: IdentityState) -> (r: Result<Identity, GetIdentityError>)
        ensures
            ({
                let m = sess_contents(state.session);
                let k = state.id_key@;
                match r {
                    Ok(ident) => ident.inner() == state && m.dom().contains(k) && m[k] is VStr,
                    Err(e) => match e {
                        GetIdentityError::MissingIdentity => !m.dom().contains(k),
                        GetIdentityError::InvalidIdType(kind) => m.dom().contains(k)
                            && kind_of_non_string(m[k]) == Some(kind),
                        GetIdentityError::SessionGet(_) => m.dom().contains(k) && m[k] is VJunk,
                        _ => false,
                    },
                }
            }),
    {
        match get_identity(&state) {
            Ok(_) => Ok(Identity(state)),
            Err(e) => Err(e),
        }
    }

    /// When the current identity logged in, as a unix timestamp. Empty when
    /// login deadline tracking is disabled or nothing was recorded. A recorded
    /// timestamp outside the representable datetime range is a session-expiry
    /// error; any other unreadable attribute is the underlying read failure.
    pub fn logged_at(&self) -> (r: Result<Option<i64>, GetIdentityError>)
        ensures
            timestamp_read_post(
                r,
                self.inner().is_login_deadline_enabled,
                sess_contents(self.inner().session),
                self.inner().login_unix_timestamp_key@,
            ),
    {
        read_timestamp(
            &self.0.session,
            self.0.login_unix_timestamp_key,
            self.0.is_login_deadline_enabled,
        )
    }

    /// When the current identity's session was last visited, as a unix
    /// timestamp. Empty when visit deadline tracking is disabled or nothing
    /// was recorded; errors as in [`logged_at`](Identity::logged_at).
    pub fn last_visited_at(&self) -> (r: Result<Option<i64>, GetIdentityError>)
        ensures
            timestamp_read_post(
                r,
                self.inner().is_visit_deadline_enabled,
                sess_contents(self.inner().session),
                self.inner().last_visit_unix_timestamp_key@,
            ),
    {
        read_timestamp(
            &self.0.session,
            self.0.last_visit_unix_timestamp_key,
            self.0.is_visit_deadline_enabled,
        )
    }

    /// Refresh the last-visit timestamp to the current wall-clock time, to
    /// support sliding-window expiry. Equivalent to
    /// [`set_last_visited_at_to`](Identity::set_last_visited_at_to) at some
    /// clock reading.
    pub fn set_last_visited_at(&mut self) -> (r: Result<(), LoginError>)
        ensures
            final (self).inner().same_config(old(self).inner()),
            ({
                let m0 = sess_contents(old(self).inner().session);
                let st0 = sess_status(old(self).inner().session);
                let m1 = sess_contents(final (self).inner().session);
                let st1 = sess_status(final (self).inner().session);
                let k = old(self).inner().last_visit_unix_timestamp_key@;
                r is Ok && if st0 is Purged {
                    m1 == m0 && st1 == st0
                } else {
                    st1 == touched(st0) && exists|t: int|
                        m1 == #[trigger] m0.insert(k, SessVal::VInt(t))
                }
            }),
    {
        let now = now_unix();
        self.set_last_visited_at_to(now)
    }

    /// Overwrite the last-visit timestamp with `now`. Writing an integer
    /// attribute always succeeds; on a purged session the backend ignores the
    /// write, so this succeeds without effect there. A failed write, should
    /// the backend ever produce one, would be reported, never swallowed.
    pub fn set_last_visited_at_to(&mut self, now: i64) -> (r: Result<(), LoginError>)
        ensures
            final (self).inner().same_config(old(self).inner()),
            ({
                let m0 = sess_contents(old(self).inner().session);
                let st0 = sess_status(old(self).inner().session);
                let m1 = sess_contents(final (self).inner().session);
                let st1 = sess_status(final (self).inner().session);
                let k = old(self).inner().last_visit_unix_timestamp_key@;
                r is Ok && if st0 is Purged {
                    m1 == m0 && st1 == st0
                } else {
                    st1 == touched(st0) && m1 == m0.insert(k, SessVal::VInt(now as int))
                }
            }),
    {
        match session_insert_i64(&mut self.0.session, self.0.last_visit_unix_timestamp_key, now) {
            Ok(()) => Ok(()),
            Err(e) => Err(LoginError::SessionInsert(e)),
        }
    }

    /// The current lifecycle status of the underlying session.
    pub fn session_status(&self) -> (r: SessStatus)
        ensures
            r == sess_status(self.inner().session),
    {
        session_status(&self.0.session)
    }
}

/// What a deadline query reports, given whether its tracking is enabled, the
/// session contents `m` and the attribute key `k` it reads: with tracking
/// disabled the deadline is not tracked, so the query is empty whatever the
/// session holds.
pub open spec fn timestamp_read_post(
    r: Result<Option<i64>, GetIdentityError>,
    enabled: bool,
    m: Map<Seq<char>, SessVal>,
    k: Seq<char>,
) -> bool {
    if !enabled {
        r matches Ok(opt) && opt is None
    } else {
        match r {
        Ok(opt) => match opt {
            None => !m.dom().contains(k),
            Some(t) => m.dom().contains(k) && m[k] == SessVal::VInt(t as int) && ts_representable(
                t as int,
            ),
        },
            Err(e) => match e {
                GetIdentityError::SessionExpiry => m.dom().contains(k) && (m[k] matches SessVal::VInt(
                    x,
                ) && !ts_representable(x)),
                GetIdentityError::SessionGet(_) => m.dom().contains(k) && !(m[k] is VInt),
                _ => false,
            },
        }
    }
}

/// Read a deadline attribute, when its tracking is enabled, and check it
/// against the representable datetime range.
fn read_timestamp(session: &actix_session::Session, key: &str, enabled: bool) -> (r: Result<
    Option<i64>,
    GetIdentityError,
>)
    ensures
        timestamp_read_post(r, enabled, sess_contents(*session), key@),
{
    if !enabled {
        return Ok(None);
    }
    match session_get_i64(session, key) {
        Ok(None) => Ok(None),
        Ok(Some(t)) => {
            if timestamp_representable(t) {
                Ok(Some(t))
            } else {
                Err(GetIdentityError::SessionExpiry)
            }
        },
        Err(e) => Err(GetIdentityError::SessionGet(e)),
    }
}

/// Retrieve and validate the subject id stored in the session: the exact
/// classification backing [`Identity::extract`].
pub(crate) fn get_identity(state: &IdentityState) -> (r: Result<String, GetIdentityError>)
    ensures
        ({
            let m = sess_contents(state.session);
            let k = state.id_key@;
            match r {
                Ok(s) => m.dom().contains(k) && m[k] == SessVal::VStr(s@),
                Err(e) => match e {
                    GetIdentityError::MissingIdentity => !m.dom().contains(k),
                    GetIdentityError::InvalidIdType(kind) => m.dom().contains(k)
                        && kind_of_non_string(m[k]) == Some(kind),
                    GetIdentityError::SessionGet(_) => m.dom().contains(k) && m[k] is VJunk,
                    _ => false,
                },
            }
        }),
{
    match session_get_json(&state.session, state.id_key) {
        Ok(None) => Err(GetIdentityError::MissingIdentity),
        Ok(Some(SessionValue::Str(s))) => Ok(s),
        Ok(Some(SessionValue::Null)) => Err(GetIdentityError::InvalidIdType(IdKind::Null)),
        Ok(Some(SessionValue::Bool(_))) => Err(GetIdentityError::InvalidIdType(IdKind::Bool)),
        Ok(Some(SessionValue::Number)) => Err(GetIdentityError::InvalidIdType(IdKind::Number)),
        Ok(Some(SessionValue::Array)) => Err(GetIdentityError::InvalidIdType(IdKind::Array)),
        Ok(Some(SessionValue::Object)) => Err(GetIdentityError::InvalidIdType(IdKind::Object)),
        Err(e) => Err(GetIdentityError::SessionGet(e)),
    }
}

} // verus!
