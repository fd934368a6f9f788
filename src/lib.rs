//! Sign-in with Google through the OAuth2 authorization-code flow: the
//! authorization URL to send a user to, and the decisions of the two-step
//! exchange of an authorization code for the user's profile.
pub mod error;
pub mod exchange;
pub mod profile;
pub mod provider;

pub use error::{AuthError, FetchFailure};
pub use exchange::{ExchangeAction, ExchangeEvent, ExchangePhase, TokenRequest};
pub use profile::UserInfo;
pub use provider::Google;
