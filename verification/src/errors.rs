use vstd::prelude::*;

verus! {

/// Every terminal failure of the credential service.
///
/// `DuplicateIdentity` and `InvalidCredentials` are expected business
/// outcomes, surfaced as client errors. `StoreUnavailable` stands for
/// transient infrastructure trouble, including hashing or signing library
/// failures. `ConfigurationMissing` is fatal at startup. `MalformedRequest`
/// is a request-body validation failure.
#[derive(Clone, Copy, Debug, PartialEq, Eq, Structural)]
pub enum AuthError {
    DuplicateIdentity,
    InvalidCredentials,
    StoreUnavailable,
    ConfigurationMissing,
    MalformedRequest,
}

impl AuthError {
    /// The HTTP status code under which this failure is reported:
    /// client errors as 400/401, infrastructure trouble as 5xx.
    pub fn status_code(&self) -> (code: u16)
        ensures
            code == self.spec_status_code(),
    {
        match self {
            AuthError::DuplicateIdentity => 400,
            AuthError::InvalidCredentials => 401,
            AuthError::StoreUnavailable => 503,
            AuthError::ConfigurationMissing => 500,
            AuthError::MalformedRequest => 400,
        }
    }

    pub open spec fn spec_status_code(self) -> u16 {
        match self {
            AuthError::DuplicateIdentity => 400u16,
            AuthError::InvalidCredentials => 401u16,
            AuthError::StoreUnavailable => 503u16,
            AuthError::ConfigurationMissing => 500u16,
            AuthError::MalformedRequest => 400u16,
        }
    }

    /// The response body sent for this failure. Unknown email and wrong
    /// password share one message, so a caller cannot enumerate accounts.
    pub fn message(&self) -> (msg: String)
        ensures
            msg@ == self.spec_message(),
    {
        match self {
            AuthError::DuplicateIdentity => String::from_str("Email already exists"),
            AuthError::InvalidCredentials => String::from_str("Invalid email or password"),
            AuthError::StoreUnavailable => String::from_str("Service temporarily unavailable"),
            AuthError::ConfigurationMissing => String::from_str("Server configuration error"),
            AuthError::MalformedRequest => String::from_str("Malformed request"),
        }
    }

    pub open spec fn spec_message(self) -> Seq<char> {
        match self {
            AuthError::DuplicateIdentity => "Email already exists"@,
            AuthError::InvalidCredentials => "Invalid email or password"@,
            AuthError::StoreUnavailable => "Service temporarily unavailable"@,
            AuthError::ConfigurationMissing => "Server configuration error"@,
            AuthError::MalformedRequest => "Malformed request"@,
        }
    }
}

} // verus!
