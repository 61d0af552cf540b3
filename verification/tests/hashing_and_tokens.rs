use credauth::errors::AuthError;
use credauth::hashing::{hash_password_with_cost, verify_password, MIN_HASH_COST};
use credauth::token::{issue_token, verify_token, Claims};

#[test]
fn hash_verifies_its_own_password_and_no_other() {
    let h = hash_password_with_cost("correct horse", MIN_HASH_COST).unwrap();
    assert_eq!(h.len(), 60);
    assert!(verify_password("correct horse", &h));
    assert!(!verify_password("wrong horse", &h));
    assert!(!verify_password("", &h));
}

#[test]
fn two_hashes_of_one_password_are_salted_but_both_verify() {
    let h1 = hash_password_with_cost("secret", MIN_HASH_COST).unwrap();
    let h2 = hash_password_with_cost("secret", MIN_HASH_COST).unwrap();
    assert_ne!(h1, h2);
    assert!(verify_password("secret", &h1));
    assert!(verify_password("secret", &h2));
}

#[test]
fn hash_is_not_the_plaintext() {
    let h = hash_password_with_cost("plain", MIN_HASH_COST).unwrap();
    assert_ne!(h, "plain");
    assert!(!verify_password("plain", "plain"));
}

#[test]
fn malformed_stored_hash_denies_instead_of_erring() {
    assert!(!verify_password("anything", "not-a-bcrypt-hash"));
    assert!(!verify_password("anything", ""));
}

#[test]
fn token_round_trip_recovers_claims() {
    let claims = Claims { id: "42".to_string(), email: "ada@example.com".to_string() };
    let token = issue_token(&claims, "secret-a").unwrap();
    assert!(!token.is_empty());
    assert_ne!(token, claims.email);

    let back = verify_token(&token, "secret-a").unwrap();
    assert_eq!(back.id, "42");
    assert_eq!(back.email, "ada@example.com");
}

#[test]
fn token_with_wrong_secret_is_rejected() {
    let claims = Claims { id: "42".to_string(), email: "ada@example.com".to_string() };
    let token = issue_token(&claims, "secret-a").unwrap();
    assert_eq!(verify_token(&token, "secret-b"), Err(AuthError::InvalidCredentials));
}

#[test]
fn tampered_token_is_rejected() {
    let claims = Claims { id: "42".to_string(), email: "ada@example.com".to_string() };
    let token = issue_token(&claims, "secret-a").unwrap();
    let mut tampered = token.clone();
    tampered.push('x');
    assert_eq!(verify_token(&tampered, "secret-a"), Err(AuthError::InvalidCredentials));
    assert_eq!(verify_token("garbage", "secret-a"), Err(AuthError::InvalidCredentials));
}

#[test]
fn distinct_claims_give_distinct_tokens() {
    let a = issue_token(&Claims { id: "1".to_string(), email: "a@x.y".to_string() }, "s").unwrap();
    let b = issue_token(&Claims { id: "2".to_string(), email: "a@x.y".to_string() }, "s").unwrap();
    let c = issue_token(&Claims { id: "1".to_string(), email: "b@x.y".to_string() }, "s").unwrap();
    assert_ne!(a, b);
    assert_ne!(a, c);
}
