//! The errors of the engine and the codes under which clients see them.

use vstd::prelude::*;

verus! {

/// Every way an operation of the engine can fail.
#[derive(Clone, Copy, Debug, PartialEq, Eq, Structural)]
pub enum Error {
    /// A parameter is missing or malformed.
    InvalidRequest,
    /// No client is registered under the given id.
    UnknownClient,
    /// A client is already registered under the given id.
    DuplicateClient,
    /// The redirect URI of a client to register does not parse.
    InvalidRedirectUri,
    /// The redirect URI supplied differs from the registered one.
    RedirectMismatch,
    /// The requested scope is not a subset of the registered scope.
    ScopeExceeded,
    /// PKCE is required and no challenge was supplied.
    MissingPkceChallenge,
    /// The challenge method is neither `plain` nor `S256`.
    UnsupportedTransform,
    /// The owner denied consent.
    AccessDenied,
    /// No authorization code of that value was issued.
    UnknownCode,
    /// The authorization code is past its lifetime.
    ExpiredCode,
    /// The authorization code was consumed before.
    CodeAlreadyUsed,
    /// The code is bad, expired or consumed, or the PKCE proof failed.
    InvalidGrant,
    /// The code was issued to another client.
    ClientMismatch,
    /// No token of that value is stored.
    UnknownToken,
    /// The token is at or past its expiry.
    ExpiredToken,
    /// An internal invariant did not hold, or no fresh token could be made.
    ServerError,
}

/// The error code that stands for `error` in a response to the client.
pub open spec fn error_code_of(error: Error) -> Seq<char> {
    match error {
        Error::InvalidRequest | Error::MissingPkceChallenge | Error::UnsupportedTransform
        | Error::RedirectMismatch | Error::InvalidRedirectUri => "invalid_request"@,
        Error::UnknownClient | Error::DuplicateClient | Error::ClientMismatch => "invalid_client"@,
        Error::ScopeExceeded => "invalid_scope"@,
        Error::AccessDenied => "access_denied"@,
        Error::UnknownCode | Error::ExpiredCode | Error::CodeAlreadyUsed | Error::InvalidGrant => {
            "invalid_grant"@
        },
        Error::UnknownToken | Error::ExpiredToken => "invalid_token"@,
        Error::ServerError => "server_error"@,
    }
}

impl Error {
    /// The error code sent to the client: internal failures of one family share a code.
    pub fn code(&self) -> (code: &'static str)
        ensures
            code@ == error_code_of(*self),
    {
        match self {
            Error::InvalidRequest | Error::MissingPkceChallenge | Error::UnsupportedTransform
            | Error::RedirectMismatch | Error::InvalidRedirectUri => "invalid_request",
            Error::UnknownClient | Error::DuplicateClient | Error::ClientMismatch => "invalid_client",
            Error::ScopeExceeded => "invalid_scope",
            Error::AccessDenied => "access_denied",
            Error::UnknownCode | Error::ExpiredCode | Error::CodeAlreadyUsed
            | Error::InvalidGrant => "invalid_grant",
            Error::UnknownToken | Error::ExpiredToken => "invalid_token",
            Error::ServerError => "server_error",
        }
    }
}

} // verus!
