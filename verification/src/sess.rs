//! Trusted boundary to the session backend and the clock.
//!
//! The session store, the clock and the datetime range check are external
//! collaborators. Each item here either declares one of their types or wraps
//! one of their calls behind a contract stated over the ghost names
//! [`sess_contents`] and [`sess_status`]; everything else in this crate is
//! verified against these contracts.

use vstd::prelude::*;

use actix_session::Session;
use actix_session::SessionExt;
use actix_session::SessionStatus;
use serde_json::Value;

use crate::values::{no_attributes, touched, SessStatus, SessVal, SessionValue};

verus! {

#[verifier::external_type_specification]
#[verifier::external_body]
pub struct ExSession(Session);

#[verifier::external_type_specification]
#[verifier::external_body]
pub struct ExSessionGetError(actix_session::SessionGetError);

#[verifier::external_type_specification]
#[verifier::external_body]
pub struct ExSessionInsertError(actix_session::SessionInsertError);

/// What a session holds: each present attribute key, mapped to the parse
/// class of the JSON text stored under it.
pub uninterp spec fn sess_contents(s: Session) -> Map<Seq<char>, SessVal>;

/// The session's lifecycle status flag.
pub uninterp spec fn sess_status(s: Session) -> SessStatus;

/// Whether a unix timestamp lies inside the range the datetime collaborator
/// can represent; a function of the timestamp alone.
pub uninterp spec fn ts_representable(t: int) -> bool;

/// Relies on `actix_session::Session::get::<serde_json::Value>`: an absent key
/// yields `None`, a present key yields the parsed JSON value, and a stored
/// text that does not parse as JSON yields an error. The session itself is not
/// touched.
#[verifier::external_body]
pub(crate) fn session_get_json(s: &Session, key: &str) -> (r: Result<
    Option<SessionValue>,
    actix_session::SessionGetError,
>)
    ensures
        match r {
            Ok(opt) => match opt {
                None => !sess_contents(*s).dom().contains(key@),
                Some(v) => sess_contents(*s).dom().contains(key@) && v.abstracts(
                    sess_contents(*s)[key@],
                ),
            },
            Err(_) => sess_contents(*s).dom().contains(key@) && sess_contents(*s)[key@]
                is VJunk,
        },
{
    match s.get::<Value>(key) {
        Ok(None) => Ok(None),
        Ok(Some(Value::String(x))) => Ok(Some(SessionValue::Str(x))),
        Ok(Some(Value::Null)) => Ok(Some(SessionValue::Null)),
        Ok(Some(Value::Bool(b))) => Ok(Some(SessionValue::Bool(b))),
        Ok(Some(Value::Number(_))) => Ok(Some(SessionValue::Number)),
        Ok(Some(Value::Array(_))) => Ok(Some(SessionValue::Array)),
        Ok(Some(Value::Object(_))) => Ok(Some(SessionValue::Object)),
        Err(e) => Err(e),
    }
}

/// Relies on `actix_session::Session::get::<String>`: an absent key yields
/// `None`, a stored JSON string yields its characters, and anything else
/// stored under the key yields an error. The session itself is not touched.
#[verifier::external_body]
pub(crate) fn session_get_string(s: &Session, key: &str) -> (r: Result<
    Option<String>,
    actix_session::SessionGetError,
>)
    ensures
        match r {
            Ok(opt) => match opt {
                None => !sess_contents(*s).dom().contains(key@),
                Some(v) => sess_contents(*s).dom().contains(key@) && sess_contents(*s)[key@]
                    == SessVal::VStr(v@),
            },
            Err(_) => sess_contents(*s).dom().contains(key@) && !(sess_contents(*s)[key@]
                is VStr),
        },
{
    s.get::<String>(key)
}

/// Relies on `actix_session::Session::get::<i64>`: an absent key yields
/// `None`, a stored JSON number in `i64` range yields that number, and
/// anything else stored under the key yields an error. The session itself is
/// not touched.
#[verifier::external_body]
pub(crate) fn session_get_i64(s: &Session, key: &str) -> (r: Result<
    Option<i64>,
    actix_session::SessionGetError,
>)
    ensures
        match r {
            Ok(opt) => match opt {
                None => !sess_contents(*s).dom().contains(key@),
                Some(v) => sess_contents(*s).dom().contains(key@) && sess_contents(*s)[key@]
                    == SessVal::VInt(v as int),
            },
            Err(_) => sess_contents(*s).dom().contains(key@) && !(sess_contents(*s)[key@]
                is VInt),
        },
{
    s.get::<i64>(key)
}

/// Relies on `actix_session::Session::insert::<String>`: on a purged session
/// the call is a no-op; otherwise the status is advanced and the value is
/// stored under the key as a JSON string that parses back to the same
/// characters. The call always succeeds: it can fail only if JSON
/// serialization of the value fails, and serializing a `String` writes it,
/// escaped, into an in-memory buffer, which cannot error.
#[verifier::external_body]
pub(crate) fn session_insert_string(s: &mut Session, key: &str, val: String) -> (r: Result<
    (),
    actix_session::SessionInsertError,
>)
    ensures
        r is Ok,
        sess_status(*old(s)) is Purged ==> *final(s) == *old(s),
        !(sess_status(*old(s)) is Purged) ==> {
            &&& sess_status(*final(s)) == touched(sess_status(*old(s)))
            &&& sess_contents(*final(s)) == sess_contents(*old(s)).insert(
                key@,
                SessVal::VStr(val@),
            )
        },
{
    s.insert(key, val)
}

/// Relies on `actix_session::Session::insert::<i64>`: on a purged session the
/// call is a no-op; otherwise the status is advanced and the value is stored
/// under the key as a JSON number that parses back to the same integer. The
/// call always succeeds: it can fail only if JSON serialization of the value
/// fails, and serializing an `i64` writes its digits into an in-memory
/// buffer, which cannot error.
#[verifier::external_body]
pub(crate) fn session_insert_i64(s: &mut Session, key: &str, val: i64) -> (r: Result<
    (),
    actix_session::SessionInsertError,
>)
    ensures
        r is Ok,
        sess_status(*old(s)) is Purged ==> *final(s) == *old(s),
        !(sess_status(*old(s)) is Purged) ==> {
            &&& sess_status(*final(s)) == touched(sess_status(*old(s)))
            &&& sess_contents(*final(s)) == sess_contents(*old(s)).insert(
                key@,
                SessVal::VInt(val as int),
            )
        },
{
    s.insert(key, val)
}

/// Relies on `actix_session::Session::remove`: on a purged session the call is
/// a no-op; otherwise the status is advanced and the key, if present, is
/// removed. The removed raw text is dropped.
#[verifier::external_body]
pub(crate) fn session_remove(s: &mut Session, key: &str)
    ensures
        sess_status(*old(s)) is Purged ==> *final(s) == *old(s),
        !(sess_status(*old(s)) is Purged) ==> {
            &&& sess_status(*final(s)) == touched(sess_status(*old(s)))
            &&& sess_contents(*final(s)) == sess_contents(*old(s)).remove(key@)
        },
{
    s.remove(key);
}

/// Relies on `actix_session::Session::renew`: on a purged session the call is
/// a no-op; otherwise the status becomes `Renewed` and every stored attribute
/// is kept.
#[verifier::external_body]
pub(crate) fn session_renew(s: &mut Session)
    ensures
        sess_status(*old(s)) is Purged ==> *final(s) == *old(s),
        !(sess_status(*old(s)) is Purged) ==> {
            &&& sess_status(*final(s)) is Renewed
            &&& sess_contents(*final(s)) == sess_contents(*old(s))
        },
{
    s.renew();
}

/// Relies on `actix_session::Session::purge`: the status becomes `Purged` and
/// every stored attribute is dropped.
#[verifier::external_body]
pub(crate) fn session_purge(s: &mut Session)
    ensures
        sess_status(*final(s)) == SessStatus::Purged,
        sess_contents(*final(s)) == no_attributes(),
{
    s.purge();
}

/// Relies on `actix_session::Session::status`: reports the session's status
/// flag without touching it.
#[verifier::external_body]
pub(crate) fn session_status(s: &Session) -> (r: SessStatus)
    ensures
        r == sess_status(*s),
{
    match s.status() {
        SessionStatus::Unchanged => SessStatus::Unchanged,
        SessionStatus::Changed => SessStatus::Changed,
        SessionStatus::Renewed => SessStatus::Renewed,
        SessionStatus::Purged => SessStatus::Purged,
    }
}

/// Relies on `actix_web::test::TestRequest::to_http_request` and
/// `actix_session::SessionExt::get_session`: a request built from scratch
/// carries no session, so a fresh one is created with default inner state:
/// no attributes and `Unchanged` status.
#[verifier::external_body]
pub(crate) fn fresh_session() -> (s: Session)
    ensures
        sess_contents(s) == no_attributes(),
        sess_status(s) == SessStatus::Unchanged,
{
    actix_web::test::TestRequest::default().to_http_request().get_session()
}

/// Relies on `time::OffsetDateTime::now_utc` and `unix_timestamp`: the current
/// wall-clock unix timestamp, about which nothing can be promised.
#[verifier::external_body]
pub(crate) fn now_unix() -> i64 {
    time::OffsetDateTime::now_utc().unix_timestamp()
}

/// Relies on `time::OffsetDateTime::from_unix_timestamp`: whether a unix
/// timestamp can be represented as a datetime is a function of the timestamp
/// alone, and the call errors exactly on the unrepresentable ones.
#[verifier::external_body]
pub(crate) fn timestamp_representable(t: i64) -> (r: bool)
    ensures
        r == ts_representable(t as int),
{
    time::OffsetDateTime::from_unix_timestamp(t).is_ok()
}

} // verus!
