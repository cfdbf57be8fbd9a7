//! The ways a sign-in can fail, and the status each one is answered with.

use vstd::prelude::*;

verus! {

/// The status code family a failed sign-in is answered with.
#[derive(Clone, Copy, Debug, PartialEq, Eq, Structural)]
pub enum StatusCode {
    InvalidArgument,
}

/// A refused sign-in.
#[derive(Clone, Copy, Debug, PartialEq, Eq, Structural)]
pub enum LoginError {
    /// The request to the provider's token endpoint could not be sent or answered.
    OauthRequest,
    /// A provider's answer was not the expected JSON, or it named no subject.
    OauthJson,
    /// The request to the token-information endpoint could not be sent or answered.
    TokeninfoRequest,
    /// The request names no supported identity provider.
    InvalidThirdParty,
    /// The user store failed for a reason other than an existing account.
    Database,
}

impl LoginError {
    /// The text a refusal is answered with.
    pub open spec fn spec_message(self) -> Seq<char> {
        match self {
            LoginError::OauthRequest => "oauth request error"@,
            LoginError::OauthJson => "oauth json error"@,
            LoginError::TokeninfoRequest => "tokeninfo request error"@,
            LoginError::InvalidThirdParty => "third party is invalid"@,
            LoginError::Database => "db error"@,
        }
    }

    /// The text this refusal is answered with.
    pub fn message(&self) -> (m: &'static str)
        ensures
            m@ == self.spec_message(),
    {
        match self {
            LoginError::OauthRequest => "oauth request error",
            LoginError::OauthJson => "oauth json error",
            LoginError::TokeninfoRequest => "tokeninfo request error",
            LoginError::InvalidThirdParty => "third party is invalid",
            LoginError::Database => "db error",
        }
    }

    /// The status code this refusal is answered with: every refusal is an invalid argument.
    pub fn code(&self) -> (c: StatusCode)
        ensures
            c == StatusCode::InvalidArgument,
    {
        StatusCode::InvalidArgument
    }
}

} // verus!
