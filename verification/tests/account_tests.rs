use realty::errors::AppError;
use realty::session::SessionStore;
use realty::user::{login, User, UserData, UserStore};

#[test]
fn register_then_login_succeeds() {
    let mut users = UserStore::new();
    let mut sessions = SessionStore::new();
    let data = users
        .register(
            "Ada Lovelace".to_string(),
            "ada@example.com".to_string(),
            "12 Analytical Row".to_string(),
            "correct horse".to_string(),
        )
        .expect("registration should succeed");
    assert_eq!(data.full_name, "Ada Lovelace");
    assert_eq!(data.email_address, "ada@example.com");

    let email = "ada@example.com".to_string();
    let session = login(&users, &mut sessions, &email, "correct horse")
        .expect("login with the right password should succeed");
    assert_eq!(session.user_data.user_id, data.user_id);
    assert!(sessions.token_known(session.session_id));
}

#[test]
fn login_wrong_password_is_unauthorized() {
    let mut users = UserStore::new();
    let mut sessions = SessionStore::new();
    users
        .register(
            "Ada Lovelace".to_string(),
            "ada@example.com".to_string(),
            "12 Analytical Row".to_string(),
            "correct horse".to_string(),
        )
        .unwrap();
    let email = "ada@example.com".to_string();
    let r = login(&users, &mut sessions, &email, "wrong horse");
    assert_eq!(r.unwrap_err(), AppError::Unauthorized);
}

#[test]
fn login_unknown_email_is_unauthorized() {
    let users = UserStore::new();
    let mut sessions = SessionStore::new();
    let email = "nobody@example.com".to_string();
    let r = login(&users, &mut sessions, &email, "anything");
    assert_eq!(r.unwrap_err(), AppError::Unauthorized);
}

#[test]
fn duplicate_email_is_a_conflict_and_leaves_the_first_row_alone() {
    let mut users = UserStore::new();
    let first = users
        .register(
            "Ada Lovelace".to_string(),
            "ada@example.com".to_string(),
            "12 Analytical Row".to_string(),
            "correct horse".to_string(),
        )
        .unwrap();

    let second = users.register(
        "Imposter".to_string(),
        "ada@example.com".to_string(),
        "13 Other Street".to_string(),
        "another password".to_string(),
    );
    assert_eq!(second.unwrap_err(), AppError::Conflict);

    assert_eq!(users.users.len(), 1);
    assert_eq!(users.users[0].user_id, first.user_id);
    assert_eq!(users.users[0].full_name, "Ada Lovelace");
    assert_eq!(users.users[0].email_address, "ada@example.com");
    assert_eq!(users.users[0].address, "12 Analytical Row");
}

#[test]
fn stored_password_is_a_hash_not_the_password() {
    let mut users = UserStore::new();
    users
        .register(
            "Ada Lovelace".to_string(),
            "ada@example.com".to_string(),
            "12 Analytical Row".to_string(),
            "correct horse".to_string(),
        )
        .unwrap();
    assert_ne!(users.users[0].password, "correct horse");
    // A bcrypt hash carries its version, cost and salt in the string.
    assert!(users.users[0].password.starts_with('$'));
}

#[test]
fn user_data_from_drops_the_hash() {
    let user = User {
        user_id: 5,
        full_name: "Grace Hopper".to_string(),
        email_address: "grace@example.com".to_string(),
        address: "1 Compiler Way".to_string(),
        password: "$2b$12$abcdefghijklmnopqrstuv".to_string(),
    };
    let data = UserData::from(user);
    assert_eq!(data.user_id, 5);
    assert_eq!(data.full_name, "Grace Hopper");
    assert_eq!(data.email_address, "grace@example.com");
    assert_eq!(data.address, "1 Compiler Way");
}

#[test]
fn find_by_email_returns_the_matching_row() {
    let mut users = UserStore::new();
    users
        .register(
            "Ada Lovelace".to_string(),
            "ada@example.com".to_string(),
            "12 Analytical Row".to_string(),
            "pw one".to_string(),
        )
        .unwrap();
    users
        .register(
            "Grace Hopper".to_string(),
            "grace@example.com".to_string(),
            "1 Compiler Way".to_string(),
            "pw two".to_string(),
        )
        .unwrap();
    let email = "grace@example.com".to_string();
    let found = users.find_by_email(&email).expect("row should exist");
    assert_eq!(found.full_name, "Grace Hopper");
    let missing = "none@example.com".to_string();
    assert!(users.find_by_email(&missing).is_none());
}
