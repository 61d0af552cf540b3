use credauth::auth::{authenticate, login, register, signup};
use credauth::errors::AuthError;
use credauth::store::MemStore;
use credauth::user::{LoginInput, SignupInput};

const SECRET: &str = "test-signing-secret";

fn signup_input(name: &str, email: &str, password: &str) -> SignupInput {
    SignupInput {
        user_name: name.to_string(),
        email: email.to_string(),
        password: password.to_string(),
    }
}

fn login_input(email: &str, password: &str) -> LoginInput {
    LoginInput { email: email.to_string(), password: password.to_string() }
}

#[test]
fn duplicate_email_refused_and_store_holds_one_record() {
    let mut store = MemStore::new();
    let first = signup(&mut store, signup_input("ada", "ada@example.com", "pw-one"));
    assert!(first.is_ok());
    assert_eq!(store.len(), 1);

    let second = signup(&mut store, signup_input("eva", "ada@example.com", "pw-two"));
    assert_eq!(second, Err(AuthError::DuplicateIdentity));
    assert_eq!(store.len(), 1);
    let record = store.find_by_email("ada@example.com").unwrap();
    assert_eq!(record.id.as_deref(), Some("0"));
}

#[test]
fn store_assigned_ids_are_decimal_numerals() {
    assert_eq!(credauth::ids::u64_to_dec(0), "0");
    assert_eq!(credauth::ids::u64_to_dec(7), "7");
    assert_eq!(credauth::ids::u64_to_dec(1234567890), "1234567890");
    assert_eq!(credauth::ids::u64_to_dec(u64::MAX), "18446744073709551615");
}

#[test]
fn wrong_password_and_unknown_email_are_indistinguishable() {
    let mut store = MemStore::new();
    signup(&mut store, signup_input("ada", "ada@example.com", "right-pw")).unwrap();

    let wrong_pw = login(&store, &login_input("ada@example.com", "wrong-pw"), SECRET);
    let unknown = login(&store, &login_input("noone@example.com", "right-pw"), SECRET);
    assert_eq!(wrong_pw, Err(AuthError::InvalidCredentials));
    assert_eq!(unknown, Err(AuthError::InvalidCredentials));

    let e1 = wrong_pw.unwrap_err();
    let e2 = unknown.unwrap_err();
    assert_eq!(e1.status_code(), 401);
    assert_eq!(e2.status_code(), 401);
    assert_eq!(e1.message(), e2.message());
}

#[test]
fn login_returns_token_with_registered_identity() {
    let mut store = MemStore::new();
    signup(&mut store, signup_input("ada", "ada@example.com", "right-pw")).unwrap();

    let token = login(&store, &login_input("ada@example.com", "right-pw"), SECRET).unwrap();
    assert!(!token.is_empty());

    let claims = credauth::token::verify_token(&token, SECRET).unwrap();
    let stored = store.find_by_email("ada@example.com").unwrap();
    assert_eq!(Some(claims.id), stored.id.clone());
    assert_eq!(claims.email, "ada@example.com");
}

#[test]
fn racing_signups_for_one_email_have_one_winner() {
    let mut store = MemStore::new();
    let mut successes = 0;
    let mut duplicates = 0;
    for attempt in 0..5 {
        let name = format!("user{}", attempt);
        let pw = format!("pw{}", attempt);
        match signup(&mut store, signup_input(&name, "same@example.com", &pw)) {
            Ok(()) => successes += 1,
            Err(AuthError::DuplicateIdentity) => duplicates += 1,
            Err(other) => panic!("unexpected outcome: {:?}", other),
        }
    }
    assert_eq!(successes, 1);
    assert_eq!(duplicates, 4);
    assert_eq!(store.len(), 1);
}

#[test]
fn empty_fields_are_malformed() {
    let mut store = MemStore::new();
    let r = signup(&mut store, signup_input("", "a@example.com", "pw"));
    assert_eq!(r, Err(AuthError::MalformedRequest));
    let r = signup(&mut store, signup_input("ada", "", "pw"));
    assert_eq!(r, Err(AuthError::MalformedRequest));
    let r = signup(&mut store, signup_input("ada", "a@example.com", ""));
    assert_eq!(r, Err(AuthError::MalformedRequest));
    assert_eq!(store.len(), 0);
}

#[test]
fn register_decision_without_store() {
    let taken = register(signup_input("ada", "ada@example.com", "pw"), true);
    assert_eq!(taken, Err(AuthError::DuplicateIdentity));

    let fresh = register(signup_input("ada", "ada@example.com", "pw"), false).unwrap();
    assert_eq!(fresh.id, None);
    assert_eq!(fresh.user_name, "ada");
    assert_eq!(fresh.email, "ada@example.com");
    assert_ne!(fresh.password, "pw");
    assert!(credauth::hashing::verify_password("pw", &fresh.password));
}

#[test]
fn authenticate_unknown_user_denies() {
    let input = login_input("ghost@example.com", "pw");
    assert_eq!(authenticate(&input, None, SECRET), Err(AuthError::InvalidCredentials));
}
