//! Error taxonomy of the login handshake and of the data fetchers.

use vstd::prelude::*;

verus! {

/// Failures of the CAS login handshake.
#[derive(Clone, Copy, Debug, PartialEq, Eq, Structural)]
pub enum AuthError {
    /// A network request could not be sent or read.
    RequestFailed,
    /// The CAS login page could not be parsed.
    ParseFailed,
    /// The credentials were rejected: the success marker was absent.
    LoginFailed,
}

impl AuthError {
    pub open spec fn spec_message(self) -> Seq<char> {
        match self {
            AuthError::RequestFailed => "Unable to send request to cas page"@,
            AuthError::ParseFailed => "Unable to parse HTML to fragment"@,
            AuthError::LoginFailed => "Login Failed"@,
        }
    }

    /// The human-readable message the endpoints report for this error.
    pub fn message(&self) -> (r: String)
        ensures
            r@ == self.spec_message(),
    {
        match self {
            AuthError::RequestFailed => "Unable to send request to cas page".to_owned(),
            AuthError::ParseFailed => "Unable to parse HTML to fragment".to_owned(),
            AuthError::LoginFailed => "Login Failed".to_owned(),
        }
    }
}

/// Failures of the portal data fetchers.
#[derive(Clone, Copy, Debug, PartialEq, Eq, Structural)]
pub enum FetchError {
    /// A network request could not be sent or read.
    Transport,
    /// The response body was not a JSON document.
    Parse,
    /// The expected array field was absent or had the wrong type.
    MissingField,
}

impl FetchError {
    pub open spec fn spec_message(self) -> Seq<char> {
        match self {
            FetchError::Transport => "Unable to send the request to the portal"@,
            FetchError::Parse => "Unable to parse the response as JSON"@,
            FetchError::MissingField => "Missing field in the portal response"@,
        }
    }

    /// The human-readable message the endpoints report for this error.
    pub fn message(&self) -> (r: String)
        ensures
            r@ == self.spec_message(),
    {
        match self {
            FetchError::Transport => "Unable to send the request to the portal".to_owned(),
            FetchError::Parse => "Unable to parse the response as JSON".to_owned(),
            FetchError::MissingField => "Missing field in the portal response".to_owned(),
        }
    }
}

} // verus!
