use credauth::auth::{login_response, signup_response};
use credauth::config::resolve_config;
use credauth::errors::AuthError;

#[test]
fn missing_store_url_or_secret_fails_startup() {
    let r = resolve_config(None, None, Some("s".to_string()));
    assert!(matches!(r, Err(AuthError::ConfigurationMissing)));

    let r = resolve_config(Some("mongodb://localhost".to_string()), None, None);
    assert!(matches!(r, Err(AuthError::ConfigurationMissing)));
}

#[test]
fn empty_secret_counts_as_missing() {
    let r = resolve_config(
        Some("mongodb://localhost".to_string()),
        None,
        Some("".to_string()),
    );
    assert!(matches!(r, Err(AuthError::ConfigurationMissing)));
}

#[test]
fn store_name_defaults_when_absent() {
    let c = resolve_config(
        Some("mongodb://localhost".to_string()),
        None,
        Some("s".to_string()),
    )
    .unwrap();
    assert_eq!(c.store_url, "mongodb://localhost");
    assert_eq!(c.store_name, "influ_db");
    assert_eq!(c.token_secret, "s");

    let c = resolve_config(
        Some("mongodb://localhost".to_string()),
        Some("other_db".to_string()),
        Some("s".to_string()),
    )
    .unwrap();
    assert_eq!(c.store_name, "other_db");
}

#[test]
fn statuses_and_messages_follow_the_error() {
    assert_eq!(AuthError::DuplicateIdentity.status_code(), 400);
    assert_eq!(AuthError::InvalidCredentials.status_code(), 401);
    assert_eq!(AuthError::MalformedRequest.status_code(), 400);
    assert_eq!(AuthError::StoreUnavailable.status_code(), 503);
    assert_eq!(AuthError::ConfigurationMissing.status_code(), 500);
    assert_eq!(AuthError::DuplicateIdentity.message(), "Email already exists");
    assert_eq!(AuthError::InvalidCredentials.message(), "Invalid email or password");
}

#[test]
fn responses_render_success_and_failure() {
    let (code, body) = signup_response(&Ok(()));
    assert_eq!(code, 201);
    assert_eq!(body, "Signup successful");

    let (code, body) = signup_response(&Err(AuthError::DuplicateIdentity));
    assert_eq!(code, 400);
    assert_eq!(body, "Email already exists");

    let (code, body) = login_response(Ok("tok".to_string()));
    assert_eq!(code, 200);
    assert_eq!(body, "tok");

    let (code, body) = login_response(Err(AuthError::InvalidCredentials));
    assert_eq!(code, 401);
    assert_eq!(body, "Invalid email or password");
}
