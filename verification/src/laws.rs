//! Laws of the identity protocol, proved over the same ghost models that the
//! executable functions' contracts are stated in: `login` and `logout` pin the
//! session contents down to [`IdentityState::login_writes`] /
//! [`IdentityState::logout_removes`] (and purging to [`no_attributes`]), and
//! the read operations are exact over those maps, so each law below composes
//! with those contracts.

use vstd::prelude::*;

use crate::state::IdentityState;
use crate::values::{no_attributes, SessVal};

verus! {

/// After a successful login on a live session, the id attribute holds exactly
/// the id that was logged in, whatever the session held before: a following
/// `id()` — whose contract returns `Ok(s)` exactly when the id key maps to the
/// string `s` — returns that same id.
pub proof fn lemma_login_then_id(
    cfg: IdentityState,
    m: Map<Seq<char>, SessVal>,
    id: Seq<char>,
    now: int,
)
    requires
        cfg.wf(),
    ensures
        cfg.login_writes(m, id, now).dom().contains(cfg.id_key@),
        cfg.login_writes(m, id, now)[cfg.id_key@] == SessVal::VStr(id),
{
}

/// Login and the login deadline: with login-deadline tracking enabled, a
/// successful login records `now` under the login-timestamp key, so
/// `logged_at()` — exact over that key — reports `now` (as long as it is
/// representable as a datetime). With tracking disabled, login leaves the
/// login-timestamp key exactly as it was — and `logged_at()` is empty by its
/// own contract, whatever the session stores.
pub proof fn lemma_login_sets_logged_at(
    cfg: IdentityState,
    m: Map<Seq<char>, SessVal>,
    id: Seq<char>,
    now: int,
)
    requires
        cfg.wf(),
    ensures
        cfg.is_login_deadline_enabled ==> cfg.login_writes(m, id, now).dom().contains(
            cfg.login_unix_timestamp_key@,
        ) && cfg.login_writes(m, id, now)[cfg.login_unix_timestamp_key@] == SessVal::VInt(now),
        !cfg.is_login_deadline_enabled ==> (cfg.login_writes(m, id, now).dom().contains(
            cfg.login_unix_timestamp_key@,
        ) <==> m.dom().contains(cfg.login_unix_timestamp_key@)),
        !cfg.is_login_deadline_enabled && m.dom().contains(cfg.login_unix_timestamp_key@)
            ==> cfg.login_writes(m, id, now)[cfg.login_unix_timestamp_key@]
            == m[cfg.login_unix_timestamp_key@],
{
}

/// Logout under the session-purging behaviour leaves a session with no
/// attributes at all, and a session without the id attribute is exactly the
/// one on which `extract` fails with `MissingIdentity`.
pub proof fn lemma_logout_purge_then_extract_misses(cfg: IdentityState)
    ensures
        !no_attributes().dom().contains(cfg.id_key@),
{
}

/// Logout under the key-deleting behaviour removes the id attribute and each
/// deadline attribute whose tracking is enabled — and nothing else: every
/// unrelated attribute survives with its value.
pub proof fn lemma_logout_delete_keeps_unrelated(
    cfg: IdentityState,
    m: Map<Seq<char>, SessVal>,
    k: Seq<char>,
)
    requires
        cfg.wf(),
        k != cfg.id_key@,
        k != cfg.login_unix_timestamp_key@,
        k != cfg.last_visit_unix_timestamp_key@,
    ensures
        !cfg.logout_removes(m).dom().contains(cfg.id_key@),
        cfg.is_login_deadline_enabled ==> !cfg.logout_removes(m).dom().contains(
            cfg.login_unix_timestamp_key@,
        ),
        cfg.is_visit_deadline_enabled ==> !cfg.logout_removes(m).dom().contains(
            cfg.last_visit_unix_timestamp_key@,
        ),
        cfg.logout_removes(m).dom().contains(k) <==> m.dom().contains(k),
        m.dom().contains(k) ==> cfg.logout_removes(m)[k] == m[k],
{
}

/// Renewal during login preserves what login wrote: the contents after a
/// successful login on a live session — which `login`'s contract states are
/// exactly `login_writes`, under a session whose identifier the backend has
/// rotated (`Renewed` status) — still hold the id and each enabled deadline
/// timestamp, readable afterwards.
pub proof fn lemma_login_attributes_survive_renewal(
    cfg: IdentityState,
    m: Map<Seq<char>, SessVal>,
    id: Seq<char>,
    now: int,
)
    requires
        cfg.wf(),
    ensures
        cfg.login_writes(m, id, now)[cfg.id_key@] == SessVal::VStr(id),
        cfg.is_login_deadline_enabled ==> cfg.login_writes(m, id, now)[
            cfg.login_unix_timestamp_key@
        ] == SessVal::VInt(now),
        cfg.is_visit_deadline_enabled ==> cfg.login_writes(m, id, now)[
            cfg.last_visit_unix_timestamp_key@
        ] == SessVal::VInt(now),
{
}

} // verus!
