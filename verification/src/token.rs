use vstd::prelude::*;

use crate::errors::AuthError;

verus! {

/// The identity assertions embedded in a signed token: the user's
/// store-assigned id and email.
#[derive(Debug, PartialEq, Eq)]
pub struct Claims {
    pub id: String,
    pub email: String,
}

/// The compact signed token that HS256 signing produces over these
/// claims with this symmetric secret. Signing is deterministic in the
/// claims and the secret; what pins the token down is the relation
/// between issuing and verifying below.
pub uninterp spec fn jwt_token(id: Seq<char>, email: Seq<char>, secret: Seq<char>) -> Seq<char>;

/// The verdict HS256 decoding reaches for a token and a secret: the id
/// and email claims when the signature checks out and both claims are
/// present and well-typed, an error otherwise. With expiry validation
/// off the verdict is a pure function of these two arguments.
pub uninterp spec fn jwt_verdict(token: Seq<char>, secret: Seq<char>) -> Result<
    (Seq<char>, Seq<char>),
    (),
>;

/// Relies on jsonwebtoken::encode with the default header (HS256) and a
/// symmetric secret: for claims of this shape signing cannot fail, the
/// token depends on the claims and the secret alone, and it is never
/// empty (three dot-joined segments).
#[verifier::external_body]
fn jwt_encode(id: &str, email: &str, secret: &str) -> (r: Result<String, ()>)
    ensures
        r is Ok,
        r->Ok_0@ == jwt_token(id@, email@, secret@),
        r->Ok_0@.len() > 0,
{
    let mut claims = serde_json::Map::new();
    claims.insert("id".to_string(), serde_json::Value::from(id.to_string()));
    claims.insert("email".to_string(), serde_json::Value::from(email));
    let key = jsonwebtoken::EncodingKey::from_secret(secret.as_bytes());
    let header = jsonwebtoken::Header::default();
    match jsonwebtoken::encode(&header, &serde_json::Value::Object(claims), &key) {
        Ok(t) => Ok(t),
        Err(_) => Err(()),
    }
}

/// Relies on jsonwebtoken::decode with HS256: its verdict is a pure
/// function of the token and the secret, and a token signed over given
/// claims with the same secret passes signature validation and yields
/// back exactly those claims. Expiry is not demanded, since issued
/// tokens carry no expiry claim.
#[verifier::external_body]
fn jwt_decode(token: &str, secret: &str) -> (r: Result<(String, String), ()>)
    ensures
        r is Ok <==> jwt_verdict(token@, secret@) is Ok,
        r is Ok ==> r->Ok_0.0@ == jwt_verdict(token@, secret@)->Ok_0.0 && r->Ok_0.1@
            == jwt_verdict(token@, secret@)->Ok_0.1,
        forall|id: Seq<char>, email: Seq<char>|
            token@ == #[trigger] jwt_token(id, email, secret@) ==> r is Ok && r->Ok_0.0@ == id
                && r->Ok_0.1@ == email,
{
    let mut validation = jsonwebtoken::Validation::new(jsonwebtoken::Algorithm::HS256);
    validation.required_spec_claims = std::collections::HashSet::new();
    validation.validate_exp = false;
    let key = jsonwebtoken::DecodingKey::from_secret(secret.as_bytes());
    match jsonwebtoken::decode::<serde_json::Value>(token, &key, &validation) {
        Ok(d) => match (d.claims.get("id"), d.claims.get("email")) {
            (Some(i), Some(e)) => match (i.as_str(), e.as_str()) {
                (Some(id), Some(email)) => Ok((id.to_string(), email.to_string())),
                _ => Err(()),
            },
            _ => Err(()),
        },
        Err(_) => Err(()),
    }
}

/// Issues the bearer token asserting these claims, signed with the
/// symmetric secret. The token is never empty.
pub fn issue_token(claims: &Claims, secret: &str) -> (r: Result<String, AuthError>)
    ensures
        r matches Ok(t) && t@ == jwt_token(claims.id@, claims.email@, secret@) && t@.len() > 0,
{
    match jwt_encode(claims.id.as_str(), claims.email.as_str(), secret) {
        Ok(t) => Ok(t),
        Err(()) => Err(AuthError::StoreUnavailable),
    }
}

/// Verifies a bearer token: the claims are exactly decoding's verdict
/// for this token and secret — never fabricated — and in particular a
/// token issued over some claims with this same secret yields
/// identical claims back. A rejected token is reported as
/// `InvalidCredentials`.
pub fn verify_token(token: &str, secret: &str) -> (r: Result<Claims, AuthError>)
    ensures
        jwt_verdict(token@, secret@) matches Ok(v) ==> r matches Ok(c) && c.id@ == v.0 && c.email@
            == v.1,
        jwt_verdict(token@, secret@) is Err ==> r == Err::<Claims, AuthError>(
            AuthError::InvalidCredentials,
        ),
        forall|id: Seq<char>, email: Seq<char>|
            token@ == #[trigger] jwt_token(id, email, secret@) ==> (r matches Ok(c) && c.id@ == id
                && c.email@ == email),
{
    match jwt_decode(token, secret) {
        Ok(c) => Ok(Claims { id: c.0, email: c.1 }),
        Err(()) => Err(AuthError::InvalidCredentials),
    }
}

} // verus!
