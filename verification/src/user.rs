use vstd::prelude::*;

verus! {

/// A stored account record.
///
/// `id` is the store-assigned identifier, opaque to the service and
/// assigned exactly once on insertion; a record that was never
/// persisted carries `None`. `password` holds only the salted hash of
/// the secret, never the plaintext. `created_at` is an optional
/// timestamp in milliseconds since the epoch, set by the store or left
/// absent.
#[derive(Debug, PartialEq, Eq)]
pub struct User {
    pub id: Option<String>,
    pub user_name: String,
    pub email: String,
    pub password: String,
    pub created_at: Option<i64>,
}

/// The request body of a registration call.
#[derive(Debug)]
pub struct SignupInput {
    pub user_name: String,
    pub email: String,
    pub password: String,
}

/// The request body of a login call.
#[derive(Debug)]
pub struct LoginInput {
    pub email: String,
    pub password: String,
}

/// A registration request is well-formed when every field is present and
/// non-empty.
pub open spec fn valid_signup_input(input: SignupInput) -> bool {
    &&& input.user_name@.len() > 0
    &&& input.email@.len() > 0
    &&& input.password@.len() > 0
}

} // verus!
