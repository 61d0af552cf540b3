use vstd::prelude::*;

use crate::errors::AuthError;

verus! {

/// The verdict bcrypt reaches for a password and a stored hash string:
/// `Ok(true)` when the password matches, `Ok(false)` when it does not,
/// `Err` when the stored string is not a well-formed bcrypt hash. The
/// verdict is a pure function of these two arguments: bcrypt extracts
/// the salt and work factor from the hash string and recomputes.
pub uninterp spec fn bcrypt_check(password: Seq<char>, hashed: Seq<char>) -> Result<bool, ()>;

/// Whether `hashed` is a bcrypt hash of `password`.
pub open spec fn bcrypt_matches(password: Seq<char>, hashed: Seq<char>) -> bool {
    bcrypt_check(password, hashed) == Ok::<bool, ()>(true)
}

/// The smallest work factor bcrypt accepts.
pub const MIN_HASH_COST: u32 = 4;

/// The largest work factor bcrypt accepts.
pub const MAX_HASH_COST: u32 = 31;

/// The default work factor: bcrypt's own production-grade default, not a
/// test-grade shortcut.
pub const DEFAULT_HASH_COST: u32 = 12;

/// Relies on bcrypt::hash: with a work factor in the accepted range it
/// fails only if the system's randomness source does, and a returned
/// hash string is always sixty characters and one that bcrypt::verify
/// accepts for exactly the password it was derived from.
#[verifier::external_body]
fn bcrypt_hash(password: &str, cost: u32) -> (r: Result<String, ()>)
    requires
        MIN_HASH_COST <= cost <= MAX_HASH_COST,
    ensures
        r is Ok ==> bcrypt_matches(password@, r->Ok_0@),
        r is Ok ==> r->Ok_0@.len() == 60,
{
    match bcrypt::hash(password, cost) {
        Ok(h) => Ok(h),
        Err(_) => Err(()),
    }
}

/// Relies on bcrypt::verify: its verdict is a pure function of the
/// password and the hash string, and it returns rather than panics on
/// every input.
#[verifier::external_body]
fn bcrypt_verify(password: &str, hashed: &str) -> (r: Result<bool, ()>)
    ensures
        r == bcrypt_check(password@, hashed@),
{
    match bcrypt::verify(password, hashed) {
        Ok(b) => Ok(b),
        Err(_) => Err(()),
    }
}

/// One-way transform of a plaintext secret at the given work factor.
/// A returned hash verifies against exactly the given plaintext; the
/// only failure is infrastructure trouble (the randomness source),
/// reported as `StoreUnavailable`.
pub fn hash_password_with_cost(password: &str, cost: u32) -> (r: Result<String, AuthError>)
    requires
        MIN_HASH_COST <= cost <= MAX_HASH_COST,
    ensures
        r matches Ok(h) ==> bcrypt_matches(password@, h@) && h@.len() == 60,
        r is Err ==> r == Err::<String, AuthError>(AuthError::StoreUnavailable),
{
    match bcrypt_hash(password, cost) {
        Ok(h) => Ok(h),
        Err(()) => Err(AuthError::StoreUnavailable),
    }
}

/// `hash_password_with_cost` at the default work factor.
pub fn hash_password(password: &str) -> (r: Result<String, AuthError>)
    ensures
        r matches Ok(h) ==> bcrypt_matches(password@, h@) && h@.len() == 60,
        r is Err ==> r == Err::<String, AuthError>(AuthError::StoreUnavailable),
{
    hash_password_with_cost(password, DEFAULT_HASH_COST)
}

/// The verification predicate: whether `password` would hash to
/// `hashed`. It fails closed: a malformed stored hash denies instead of
/// surfacing an error on the login path.
pub fn verify_password(password: &str, hashed: &str) -> (r: bool)
    ensures
        r == bcrypt_matches(password@, hashed@),
{
    match bcrypt_verify(password, hashed) {
        Ok(b) => b,
        Err(()) => false,
    }
}

} // verus!
