use vstd::prelude::*;

use crate::errors::AuthError;
use crate::hashing::{bcrypt_matches, hash_password, verify_password};
use crate::store::{contains_email, record_for, MemStore};
use crate::token::{issue_token, jwt_token, Claims};
use crate::user::{valid_signup_input, LoginInput, SignupInput, User};

verus! {

/// What a successful registration stores: a fresh, not yet persisted
/// record whose password field holds the sixty-character bcrypt hash
/// of the request's secret — never the plaintext — and whose remaining
/// fields copy the request.
pub open spec fn registered_record(input: SignupInput, u: User) -> bool {
    &&& u.id is None
    &&& u.user_name@ == input.user_name@
    &&& u.email@ == input.email@
    &&& bcrypt_matches(input.password@, u.password@)
    &&& u.password@.len() == 60
    &&& u.created_at is None
}

/// The registration decision: a malformed request is refused, a taken
/// email is refused as a duplicate without hashing anything, and
/// otherwise the secret is hashed and the record to persist is built.
/// `email_taken` is the store's answer to the uniqueness lookup.
pub fn register(input: SignupInput, email_taken: bool) -> (r: Result<User, AuthError>)
    ensures
        !valid_signup_input(input) ==> r == Err::<User, AuthError>(AuthError::MalformedRequest),
        valid_signup_input(input) && email_taken ==> r == Err::<User, AuthError>(
            AuthError::DuplicateIdentity,
        ),
        valid_signup_input(input) && !email_taken ==> match r {
            Ok(u) => registered_record(input, u),
            Err(e) => e == AuthError::StoreUnavailable,
        },
{
    let malformed = input.user_name.as_str().unicode_len() == 0
        || input.email.as_str().unicode_len() == 0 || input.password.as_str().unicode_len() == 0;
    if malformed {
        return Err(AuthError::MalformedRequest);
    }
    if email_taken {
        return Err(AuthError::DuplicateIdentity);
    }
    let hashed = match hash_password(input.password.as_str()) {
        Ok(h) => h,
        Err(e) => {
            return Err(e);
        },
    };
    Ok(
        User {
            id: None,
            user_name: input.user_name,
            email: input.email,
            password: hashed,
            created_at: None,
        },
    )
}

/// The authentication decision over the store's lookup answer. An
/// unknown email and a wrong password collapse into one
/// `InvalidCredentials` outcome, so responses cannot be used to
/// enumerate accounts. On success the issued token asserts the stored
/// record's id and email; a stored record without an id is corrupt and
/// reported as infrastructure trouble.
pub fn authenticate(input: &LoginInput, stored: Option<&User>, secret: &str) -> (r: Result<
    String,
    AuthError,
>)
    ensures
        stored is None ==> r == Err::<String, AuthError>(AuthError::InvalidCredentials),
        stored matches Some(u) && !bcrypt_matches(input.password@, u.password@) ==> r == Err::<
            String,
            AuthError,
        >(AuthError::InvalidCredentials),
        stored matches Some(u) ==> bcrypt_matches(input.password@, u.password@) ==> match u.id {
            Some(id) => r matches Ok(t) && t@ == jwt_token(id@, u.email@, secret@),
            None => r == Err::<String, AuthError>(AuthError::StoreUnavailable),
        },
{
    let user = match stored {
        Some(u) => u,
        None => {
            return Err(AuthError::InvalidCredentials);
        },
    };
    if !verify_password(input.password.as_str(), user.password.as_str()) {
        return Err(AuthError::InvalidCredentials);
    }
    let id = match &user.id {
        Some(id) => id.clone(),
        None => {
            return Err(AuthError::StoreUnavailable);
        },
    };
    let claims = Claims { id: id, email: user.email.clone() };
    issue_token(&claims, secret)
}

/// The registration flow against a uniqueness-enforcing store: exactly
/// one store write on the success path, none on any failure, and never
/// a second record for an email the store already holds.
pub fn signup(store: &mut MemStore, input: SignupInput) -> (r: Result<(), AuthError>)
    requires
        old(store).wf(),
    ensures
        final (store).wf(),
        r is Err ==> final (store).view() == old(store).view(),
        !valid_signup_input(input) ==> r == Err::<(), AuthError>(AuthError::MalformedRequest),
        valid_signup_input(input) && contains_email(old(store).view(), input.email@) ==> r
            == Err::<(), AuthError>(AuthError::DuplicateIdentity),
        valid_signup_input(input) && !contains_email(old(store).view(), input.email@) && r is Err
            ==> r == Err::<(), AuthError>(AuthError::StoreUnavailable),
        r is Ok ==> {
            &&& valid_signup_input(input)
            &&& !contains_email(old(store).view(), input.email@)
            &&& contains_email(final (store).view(), input.email@)
            &&& final (store).view().len() == old(store).view().len() + 1
            &&& final (store).view().drop_last() == old(store).view()
            &&& final (store).view().last().id matches Some(id) && id@ == crate::ids::dec_rep(
                old(store).view().len() as nat,
            )
            &&& final (store).view().last().user_name@ == input.user_name@
            &&& final (store).view().last().email@ == input.email@
            &&& bcrypt_matches(input.password@, final (store).view().last().password@)
            &&& final (store).view().last().password@.len() == 60
            &&& final (store).view().last().created_at is None
        },
{
    let taken = store.find_by_email(input.email.as_str()).is_some();
    let user = match register(input, taken) {
        Ok(u) => u,
        Err(e) => {
            return Err(e);
        },
    };
    match store.insert_new(user.user_name, user.email, user.password) {
        Ok(_) => {
            proof {
                assert(store.view().drop_last() =~= old(store).view());
            }
            Ok(())
        },
        Err(e) => Err(e),
    }
}

/// The authentication flow against the store: read-only, a token on
/// success, and for an unknown email and a wrong password one and the
/// same failure.
pub fn login(store: &MemStore, input: &LoginInput, secret: &str) -> (r: Result<String, AuthError>)
    requires
        store.wf(),
    ensures
        !contains_email(store.view(), input.email@) ==> r == Err::<String, AuthError>(
            AuthError::InvalidCredentials,
        ),
        contains_email(store.view(), input.email@) ==> ({
            let u = record_for(store.view(), input.email@);
            &&& !bcrypt_matches(input.password@, u.password@) ==> r == Err::<String, AuthError>(
                AuthError::InvalidCredentials,
            )
            &&& bcrypt_matches(input.password@, u.password@) ==> match u.id {
                Some(id) => r matches Ok(t) && t@ == jwt_token(id@, u.email@, secret@),
                None => r == Err::<String, AuthError>(AuthError::StoreUnavailable),
            }
        }),
{
    let stored = store.find_by_email(input.email.as_str());
    authenticate(input, stored, secret)
}

/// The HTTP rendering of a registration outcome: 201 with a fixed
/// message on success, the error's status and message otherwise.
pub fn signup_response(r: &Result<(), AuthError>) -> (resp: (u16, String))
    ensures
        r is Ok ==> resp.0 == 201 && resp.1@ == "Signup successful"@,
        r matches Err(e) ==> resp.0 == e.spec_status_code() && resp.1@ == e.spec_message(),
{
    match r {
        Ok(_) => (201, String::from_str("Signup successful")),
        Err(e) => (e.status_code(), e.message()),
    }
}

/// The HTTP rendering of a login outcome: 200 with the token on
/// success; otherwise the error's status, with one and the same body
/// for every credential failure.
pub fn login_response(r: Result<String, AuthError>) -> (resp: (u16, String))
    ensures
        r matches Ok(t) ==> resp.0 == 200 && resp.1 == t,
        r matches Err(e) ==> resp.0 == e.spec_status_code() && resp.1@ == e.spec_message(),
{
    match r {
        Ok(t) => (200, t),
        Err(e) => (e.status_code(), e.message()),
    }
}

} // verus!
