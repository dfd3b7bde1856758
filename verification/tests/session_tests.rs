use realty::models::Session;
use realty::session::{SessionError, SessionStore, SESSION_TTL_SECONDS};
use realty::user::UserData;

fn sample_user(id: u128) -> UserData {
    UserData {
        user_id: id,
        full_name: "Ada Lovelace".to_string(),
        email_address: "ada@example.com".to_string(),
        address: "12 Analytical Row".to_string(),
    }
}

#[test]
fn establish_then_resolve_refreshes_last_active() {
    let mut store = SessionStore::new();
    let s = store.establish(7, sample_user(1), 1_000);
    assert_eq!(s.session_id, 7);
    assert_eq!(s.last_active, 1_000);

    let r = store.resolve(7, 1_500).expect("token should resolve");
    assert_eq!(r.session_id, 7);
    assert_eq!(r.user_data.user_id, 1);
    assert_eq!(r.last_active, 1_500);
}

#[test]
fn resolve_unknown_token_is_invalid() {
    let mut store = SessionStore::new();
    assert_eq!(store.resolve(42, 0).unwrap_err(), SessionError::Invalid);
}

#[test]
fn expired_after_49_hours_then_invalid() {
    let mut store = SessionStore::new();
    store.establish(7, sample_user(1), 0);
    let after_49_hours: i64 = 49 * 3600;
    assert_eq!(store.resolve(7, after_49_hours).unwrap_err(), SessionError::Expired);
    // The entry was evicted, so the same token now fails as invalid.
    assert_eq!(store.resolve(7, after_49_hours).unwrap_err(), SessionError::Invalid);
    assert!(!store.token_known(7));
}

#[test]
fn exactly_48_hours_is_expired() {
    let mut store = SessionStore::new();
    store.establish(7, sample_user(1), 100);
    assert_eq!(
        store.resolve(7, 100 + SESSION_TTL_SECONDS).unwrap_err(),
        SessionError::Expired
    );
}

#[test]
fn just_under_48_hours_still_resolves() {
    let mut store = SessionStore::new();
    store.establish(7, sample_user(1), 100);
    let r = store.resolve(7, 100 + SESSION_TTL_SECONDS - 1);
    assert!(r.is_ok());
}

#[test]
fn logout_is_idempotent() {
    let mut store = SessionStore::new();
    store.establish(7, sample_user(1), 0);
    store.logout(7);
    assert!(!store.token_known(7));
    store.logout(7);
    assert_eq!(store.resolve(7, 0).unwrap_err(), SessionError::Invalid);
}

#[test]
fn session_new_stamps_the_clock() {
    let s = Session::new(9, sample_user(2));
    assert_eq!(s.session_id, 9);
    assert_eq!(s.user_data.user_id, 2);
    // The wall clock is well past 2020 whenever this runs.
    assert!(s.last_active > 1_577_836_800);
}
