//! The ways in which the login flow can fail.

use vstd::prelude::*;

verus! {

/// Errors that may stop an OAuth2 code grant or a session refresh.
pub enum Error {
    /// The provider's endpoints are not valid URLs (found at start).
    InvalidConfiguration { message: String },
    /// The caller asked to come back under an origin that is not allowed, or
    /// that cannot carry the callback path.
    InvalidRedirectOrigin,
    /// The flow-state token handed back by the caller does not decode.
    MalformedFlowState,
    /// The `state` returned through the provider is not the CSRF token of the flow.
    CsrfMismatch,
    /// The provider could not be reached.
    ProviderUnreachable,
    /// The provider refused the code or the refresh token; its answer is kept.
    TokenExchangeRejected { body: String },
    /// The provider answered with something that is not a token response.
    MalformedProviderResponse,
    /// No session cookie came with the request.
    NotAuthenticated,
}

pub type Result<T> = core::result::Result<T, Error>;

/// The HTTP status with which an error is answered.
pub open spec fn status_of(e: Error) -> u16 {
    match e {
        Error::InvalidConfiguration { .. } => 500,
        Error::InvalidRedirectOrigin => 400,
        Error::MalformedFlowState => 400,
        Error::CsrfMismatch => 400,
        Error::ProviderUnreachable => 502,
        Error::TokenExchangeRejected { .. } => 400,
        Error::MalformedProviderResponse => 502,
        Error::NotAuthenticated => 401,
    }
}

impl Error {
    /// The HTTP status with which this error is answered: client errors for
    /// what the caller sent, 401 without a session, server errors otherwise.
    pub fn status_code(&self) -> (r: u16)
        ensures
            r == status_of(*self),
    {
        match self {
            Error::InvalidConfiguration { .. } => 500,
            Error::InvalidRedirectOrigin => 400,
        Error::MalformedFlowState => 400,
            Error::CsrfMismatch => 400,
            Error::ProviderUnreachable => 502,
            Error::TokenExchangeRejected { .. } => 400,
            Error::MalformedProviderResponse => 502,
            Error::NotAuthenticated => 401,
        }
    }
}

} // verus!
