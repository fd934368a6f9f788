//! What can go wrong, from configuration to reading the profile.
use vstd::prelude::*;

verus! {

/// Why a request to the user-info endpoint produced no usable response.
#[derive(Debug)]
pub enum FetchFailure {
    /// The request could not be sent or its body could not be read.
    Transport { cause: String },
    /// The endpoint answered with a status outside the success range.
    Status { code: u16 },
}

/// The failures of this library, one variant per kind of failure.
#[derive(Debug)]
pub enum AuthError {
    /// A provider endpoint or the redirect URL does not parse as a URL.
    Configuration { url: String },
    /// The authorization code could not be exchanged for an access token.
    TokenExchange { cause: String },
    /// The user-info endpoint could not be reached or refused the request.
    ProfileFetch { failure: FetchFailure },
    /// The user-info body does not have the expected shape; `field` is the
    /// first member that is missing or of the wrong type.
    ProfileParse { field: String },
}

pub enum FetchFailureView {
    Transport { cause: Seq<char> },
    Status { code: u16 },
}

pub enum AuthErrorView {
    Configuration { url: Seq<char> },
    TokenExchange { cause: Seq<char> },
    ProfileFetch { failure: FetchFailureView },
    ProfileParse { field: Seq<char> },
}

impl View for FetchFailure {
    type V = FetchFailureView;

    open spec fn view(&self) -> FetchFailureView {
        match self {
            FetchFailure::Transport { cause } => FetchFailureView::Transport { cause: cause@ },
            FetchFailure::Status { code } => FetchFailureView::Status { code: *code },
        }
    }
}

impl View for AuthError {
    type V = AuthErrorView;

    open spec fn view(&self) -> AuthErrorView {
        match self {
            AuthError::Configuration { url } => AuthErrorView::Configuration { url: url@ },
            AuthError::TokenExchange { cause } => AuthErrorView::TokenExchange { cause: cause@ },
            AuthError::ProfileFetch { failure } => AuthErrorView::ProfileFetch { failure: failure@ },
            AuthError::ProfileParse { field } => AuthErrorView::ProfileParse { field: field@ },
        }
    }
}

} // verus!
