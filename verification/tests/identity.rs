use actix_identity::error::{GetIdentityError, IdKind, LoginError};
use actix_identity::identity::Identity;
use actix_identity::state::{IdentityState, LogoutBehaviour};
use actix_identity::values::SessStatus;
use actix_session::{Session, SessionExt, SessionStatus};

fn fresh_session() -> Session {
    actix_web::test::TestRequest::default().to_http_request().get_session()
}

fn state_with(
    session: Session,
    logout_behaviour: LogoutBehaviour,
    login_deadline: bool,
    visit_deadline: bool,
) -> IdentityState {
    IdentityState {
        session,
        logout_behaviour,
        is_login_deadline_enabled: login_deadline,
        is_visit_deadline_enabled: visit_deadline,
        id_key: "user-id",
        login_unix_timestamp_key: "login-ts",
        last_visit_unix_timestamp_key: "visit-ts",
    }
}

fn now_unix() -> i64 {
    time::OffsetDateTime::now_utc().unix_timestamp()
}

fn login_or_panic(state: IdentityState, id: &str) -> Identity {
    match Identity::login(state, id.to_string()) {
        Ok(ident) => ident,
        Err(_) => panic!("login failed"),
    }
}

#[test]
fn login_then_id_returns_same_id() {
    let session = fresh_session();
    let state = state_with(session, LogoutBehaviour::PurgeSession, false, false);
    let ident = login_or_panic(state, "alice");
    assert_eq!(ident.id().unwrap(), "alice".to_string());
}

#[test]
fn login_then_id_other_id() {
    let session = fresh_session();
    let state = state_with(session, LogoutBehaviour::DeleteIdentityKeys, true, true);
    let ident = login_or_panic(state, "user w. spaces and ünïcode");
    assert_eq!(ident.id().unwrap(), "user w. spaces and ünïcode".to_string());
}

#[test]
fn login_deadline_enabled_sets_logged_at_in_window() {
    let session = fresh_session();
    let state = state_with(session, LogoutBehaviour::PurgeSession, true, false);
    let before = now_unix();
    let ident = login_or_panic(state, "alice");
    let after = now_unix();
    let t = ident.logged_at().unwrap().unwrap();
    assert!(before <= t && t <= after);
}

#[test]
fn login_deadline_disabled_leaves_logged_at_empty() {
    let session = fresh_session();
    let state = state_with(session, LogoutBehaviour::PurgeSession, false, true);
    let ident = login_or_panic(state, "alice");
    assert!(ident.logged_at().unwrap().is_none());
}

#[test]
fn visit_deadline_enabled_sets_last_visited_at_in_window() {
    let session = fresh_session();
    let state = state_with(session, LogoutBehaviour::PurgeSession, false, true);
    let before = now_unix();
    let ident = login_or_panic(state, "alice");
    let after = now_unix();
    let t = ident.last_visited_at().unwrap().unwrap();
    assert!(before <= t && t <= after);
}

#[test]
fn visit_deadline_disabled_leaves_last_visited_at_empty() {
    let session = fresh_session();
    let state = state_with(session, LogoutBehaviour::PurgeSession, true, false);
    let ident = login_or_panic(state, "alice");
    assert!(ident.last_visited_at().unwrap().is_none());
}

#[test]
fn logout_purge_makes_extract_miss() {
    let session = fresh_session();
    let state = state_with(session.clone(), LogoutBehaviour::PurgeSession, false, false);
    let mut ident = login_or_panic(state, "alice");
    ident.logout();
    assert_eq!(session.status(), SessionStatus::Purged);
    let again = state_with(session, LogoutBehaviour::PurgeSession, false, false);
    assert!(matches!(
        Identity::extract(again),
        Err(GetIdentityError::MissingIdentity)
    ));
}

#[test]
fn logout_delete_keys_keeps_unrelated_attributes() {
    let session = fresh_session();
    session.insert("cart", "three apples".to_string()).unwrap();
    let state = state_with(session.clone(), LogoutBehaviour::DeleteIdentityKeys, true, true);
    let mut ident = login_or_panic(state, "alice");
    assert!(session.contains_key("user-id"));
    assert!(session.contains_key("login-ts"));
    assert!(session.contains_key("visit-ts"));
    ident.logout();
    assert!(!session.contains_key("user-id"));
    assert!(!session.contains_key("login-ts"));
    assert!(!session.contains_key("visit-ts"));
    assert_eq!(
        session.get::<String>("cart").unwrap(),
        Some("three apples".to_string())
    );
    let again = state_with(session, LogoutBehaviour::DeleteIdentityKeys, true, true);
    assert!(matches!(
        Identity::extract(again),
        Err(GetIdentityError::MissingIdentity)
    ));
}

#[test]
fn logout_delete_keys_leaves_disabled_deadline_keys_alone() {
    let session = fresh_session();
    session.insert("login-ts", 123i64).unwrap();
    let state = state_with(session.clone(), LogoutBehaviour::DeleteIdentityKeys, false, false);
    let mut ident = login_or_panic(state, "alice");
    ident.logout();
    assert!(!session.contains_key("user-id"));
    assert_eq!(session.get::<i64>("login-ts").unwrap(), Some(123));
}

#[test]
fn extract_without_login_misses() {
    let session = fresh_session();
    let state = state_with(session, LogoutBehaviour::PurgeSession, false, false);
    match Identity::extract(state) {
        Err(GetIdentityError::MissingIdentity) => {}
        _ => panic!("expected a missing identity"),
    }
}

#[test]
fn extract_without_login_as_option_is_none() {
    let session = fresh_session();
    let state = state_with(session, LogoutBehaviour::PurgeSession, false, false);
    assert!(Identity::extract(state).ok().is_none());
}

#[test]
fn extract_after_login_succeeds() {
    let session = fresh_session();
    let state = state_with(session.clone(), LogoutBehaviour::PurgeSession, false, false);
    let _ = login_or_panic(state, "alice");
    let again = state_with(session, LogoutBehaviour::PurgeSession, false, false);
    let ident = match Identity::extract(again) {
        Ok(ident) => ident,
        Err(_) => panic!("extract failed after login"),
    };
    assert_eq!(ident.id().unwrap(), "alice".to_string());
}

#[test]
fn extract_of_number_id_is_invalid_id_type() {
    let session = fresh_session();
    session.insert("user-id", 42i64).unwrap();
    let state = state_with(session, LogoutBehaviour::PurgeSession, false, false);
    match Identity::extract(state) {
        Err(GetIdentityError::InvalidIdType(kind)) => {
            assert!(matches!(kind, IdKind::Number));
            assert_eq!(kind.as_str(), "number");
        }
        _ => panic!("expected an invalid id type"),
    }
}

#[test]
fn extract_of_other_shapes_names_each_kind() {
    let cases: Vec<(serde_json::Value, &str)> = vec![
        (serde_json::Value::Null, "null"),
        (serde_json::Value::Bool(true), "bool"),
        (serde_json::Value::Array(Vec::new()), "array"),
        (serde_json::Value::Object(serde_json::Map::new()), "object"),
    ];
    for (value, expected) in cases {
        let session = fresh_session();
        session.insert("user-id", value).unwrap();
        let state = state_with(session, LogoutBehaviour::PurgeSession, false, false);
        match Identity::extract(state) {
            Err(GetIdentityError::InvalidIdType(kind)) => assert_eq!(kind.as_str(), expected),
            _ => panic!("expected an invalid id type"),
        }
    }
}

#[test]
fn id_after_concurrent_removal_is_lost() {
    let session = fresh_session();
    let state = state_with(session.clone(), LogoutBehaviour::PurgeSession, false, false);
    let ident = login_or_panic(state, "alice");
    session.remove("user-id");
    assert!(matches!(ident.id(), Err(GetIdentityError::LostIdentity)));
}

#[test]
fn id_after_concurrent_type_change_is_a_read_failure() {
    let session = fresh_session();
    let state = state_with(session.clone(), LogoutBehaviour::PurgeSession, false, false);
    let ident = login_or_panic(state, "alice");
    session.insert("user-id", 7i64).unwrap();
    assert!(matches!(ident.id(), Err(GetIdentityError::SessionGet(_))));
}

#[test]
fn unrepresentable_timestamp_is_session_expiry() {
    let session = fresh_session();
    session.insert("user-id", "alice".to_string()).unwrap();
    session.insert("login-ts", i64::MAX).unwrap();
    let state = state_with(session, LogoutBehaviour::PurgeSession, true, false);
    let ident = match Identity::extract(state) {
        Ok(ident) => ident,
        Err(_) => panic!("extract failed"),
    };
    assert!(matches!(
        ident.logged_at(),
        Err(GetIdentityError::SessionExpiry)
    ));
}

#[test]
fn non_number_timestamp_is_a_read_failure() {
    let session = fresh_session();
    session.insert("user-id", "alice".to_string()).unwrap();
    session.insert("visit-ts", "yesterday".to_string()).unwrap();
    let state = state_with(session, LogoutBehaviour::PurgeSession, false, true);
    let ident = match Identity::extract(state) {
        Ok(ident) => ident,
        Err(_) => panic!("extract failed"),
    };
    assert!(matches!(
        ident.last_visited_at(),
        Err(GetIdentityError::SessionGet(_))
    ));
}

#[test]
fn set_last_visited_at_moves_forward_within_window() {
    let session = fresh_session();
    let state = state_with(session, LogoutBehaviour::PurgeSession, false, true);
    let mut ident = login_or_panic(state, "alice");
    let t0 = ident.last_visited_at().unwrap().unwrap();
    let before = now_unix();
    ident.set_last_visited_at().unwrap_or_else(|_| panic!("visit refresh failed"));
    let after = now_unix();
    let t1 = ident.last_visited_at().unwrap().unwrap();
    assert!(t0 <= t1);
    assert!(before <= t1 && t1 <= after);
}

#[test]
fn set_last_visited_at_to_writes_exactly() {
    let session = fresh_session();
    let state = state_with(session.clone(), LogoutBehaviour::PurgeSession, false, true);
    let mut ident = login_or_panic(state, "alice");
    ident.set_last_visited_at_to(777).unwrap_or_else(|_| panic!("visit refresh failed"));
    assert_eq!(ident.last_visited_at().unwrap(), Some(777));
    assert_eq!(session.get::<i64>("visit-ts").unwrap(), Some(777));
}

#[test]
fn login_renews_the_session_and_attributes_survive() {
    let session = fresh_session();
    assert_eq!(session.status(), SessionStatus::Unchanged);
    let state = state_with(session.clone(), LogoutBehaviour::PurgeSession, true, true);
    let ident = login_or_panic(state, "alice");
    assert_eq!(session.status(), SessionStatus::Renewed);
    assert_eq!(ident.session_status(), SessStatus::Renewed);
    assert_eq!(ident.id().unwrap(), "alice".to_string());
    assert!(ident.logged_at().unwrap().is_some());
    assert!(ident.last_visited_at().unwrap().is_some());
}

#[test]
fn login_at_records_the_given_timestamp() {
    let session = fresh_session();
    let state = state_with(session, LogoutBehaviour::PurgeSession, true, true);
    let ident = match Identity::login_at(state, "alice".to_string(), 1234) {
        Ok(ident) => ident,
        Err(_) => panic!("login failed"),
    };
    assert_eq!(ident.logged_at().unwrap(), Some(1234));
    assert_eq!(ident.last_visited_at().unwrap(), Some(1234));
}

#[test]
fn login_on_purged_session_fails() {
    let session = fresh_session();
    session.purge();
    let state = state_with(session.clone(), LogoutBehaviour::PurgeSession, true, true);
    assert!(matches!(
        Identity::login(state, "alice".to_string()),
        Err(LoginError::SessionPurged)
    ));
    assert_eq!(session.status(), SessionStatus::Purged);
    assert!(!session.contains_key("user-id"));
    assert!(!session.contains_key("login-ts"));
    assert!(!session.contains_key("visit-ts"));
}

#[test]
fn disabled_tracking_hides_a_stale_stored_timestamp() {
    let session = fresh_session();
    session.insert("user-id", "alice".to_string()).unwrap();
    session.insert("login-ts", 123i64).unwrap();
    session.insert("visit-ts", 456i64).unwrap();
    let state = state_with(session, LogoutBehaviour::PurgeSession, false, false);
    let ident = match Identity::extract(state) {
        Ok(ident) => ident,
        Err(_) => panic!("extract failed"),
    };
    assert_eq!(ident.logged_at().unwrap(), None);
    assert_eq!(ident.last_visited_at().unwrap(), None);
}

#[test]
fn mock_identity_serves_its_id() {
    let ident = Identity::mock("bob".to_string());
    assert_eq!(ident.id().unwrap(), "bob".to_string());
    assert!(ident.logged_at().unwrap().is_none());
    assert!(ident.last_visited_at().unwrap().is_none());
    assert_eq!(ident.session_status(), SessStatus::Changed);
}

#[test]
fn mock_logout_purges() {
    let mut ident = Identity::mock("bob".to_string());
    ident.logout();
    assert!(matches!(ident.id(), Err(GetIdentityError::LostIdentity)));
}
