//! Failures of signing in.

use vstd::prelude::*;

verus! {

/// Why a sign-in did not succeed.
#[derive(Clone, Copy, Debug, PartialEq, Eq, Structural)]
pub enum AuthError {
    Unauthorized,
    InvalidCredentials,
    FailedToCreateToken,
    FailedToValidateToken,
    FailedToRequestToken,
    FailedToRequestUserInfo,
    InvalidProvider,
}

impl AuthError {
    /// The HTTP status that goes with the failure.
    pub open spec fn spec_status(self) -> u16 {
        match self {
            AuthError::Unauthorized => 401,
            AuthError::InvalidCredentials => 401,
            _ => 500,
        }
    }

    /// The stable machine-readable code of the failure.
    pub open spec fn spec_code(self) -> Seq<char> {
        match self {
            AuthError::Unauthorized => "unauthorized"@,
            AuthError::InvalidCredentials => "invalid_credentials"@,
            AuthError::FailedToCreateToken => "failed_to_create_token"@,
            AuthError::FailedToValidateToken => "failed_to_validate_token"@,
            AuthError::FailedToRequestToken => "failed_to_request_token"@,
            AuthError::FailedToRequestUserInfo => "failed_to_request_user_info"@,
            AuthError::InvalidProvider => "invalid_provider"@,
        }
    }

    /// The human-readable message of the failure.
    pub open spec fn spec_message(self) -> Seq<char> {
        match self {
            AuthError::Unauthorized => "Unauthorized"@,
            AuthError::InvalidCredentials => "Invalid credentials"@,
            AuthError::FailedToCreateToken => "Failed to create token"@,
            AuthError::FailedToValidateToken => "Failed to validate token"@,
            AuthError::FailedToRequestToken => "Failed to request token"@,
            AuthError::FailedToRequestUserInfo => "Failed to request users info"@,
            AuthError::InvalidProvider => "Invalid provider"@,
        }
    }

    /// The HTTP status and the machine-readable code of the failure.
    pub fn get_codes(&self) -> (r: (u16, &'static str))
        ensures
            r.0 == self.spec_status(),
            r.1@ == self.spec_code(),
    {
        match self {
            AuthError::Unauthorized => (401, "unauthorized"),
            AuthError::InvalidCredentials => (401, "invalid_credentials"),
            AuthError::FailedToCreateToken => (500, "failed_to_create_token"),
            AuthError::FailedToValidateToken => (500, "failed_to_validate_token"),
            AuthError::FailedToRequestToken => (500, "failed_to_request_token"),
            AuthError::FailedToRequestUserInfo => (500, "failed_to_request_user_info"),
            AuthError::InvalidProvider => (500, "invalid_provider"),
        }
    }

    /// The human-readable message of the failure.
    pub fn message(&self) -> (r: &'static str)
        ensures
            r@ == self.spec_message(),
    {
        match self {
            AuthError::Unauthorized => "Unauthorized",
            AuthError::InvalidCredentials => "Invalid credentials",
            AuthError::FailedToCreateToken => "Failed to create token",
            AuthError::FailedToValidateToken => "Failed to validate token",
            AuthError::FailedToRequestToken => "Failed to request token",
            AuthError::FailedToRequestUserInfo => "Failed to request users info",
            AuthError::InvalidProvider => "Invalid provider",
        }
    }
}

} // verus!
