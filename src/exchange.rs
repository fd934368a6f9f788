//! The exchange of an authorization code for a profile, as a state machine:
//! each network answer leads to the next phase and the next request to make.
use vstd::prelude::*;

use crate::error::{AuthError, AuthErrorView, FetchFailure, FetchFailureView};
use crate::profile::{expected_parse, parsed_view, UserInfo, UserInfoView};
use crate::provider::{Google, GoogleView, TOKEN_ENDPOINT};

verus! {

/// Google's user-info endpoint.
pub const USERINFO_ENDPOINT: &'static str = "https://www.googleapis.com/oauth2/v3/userinfo";

/// Where the exchange of an authorization code for a profile stands.
#[derive(Clone, Copy, Debug, PartialEq, Eq, Structural)]
pub enum ExchangePhase {
    /// The token request is out.
    Start,
    /// An access token came back; the user-info request is out.
    TokenAcquired,
    /// The user-info endpoint answered with success; its body is being read.
    ProfileFetched,
    /// The exchange is over.
    Done,
}

/// The form of the authorization-code grant sent to the token endpoint.
#[derive(Debug)]
pub struct TokenRequest {
    pub token_url: String,
    pub client_id: String,
    pub client_secret: String,
    pub redirect_url: String,
    pub code: String,
}

pub struct TokenRequestView {
    pub token_url: Seq<char>,
    pub client_id: Seq<char>,
    pub client_secret: Seq<char>,
    pub redirect_url: Seq<char>,
    pub code: Seq<char>,
}

impl View for TokenRequest {
    type V = TokenRequestView;

    open spec fn view(&self) -> TokenRequestView {
        TokenRequestView {
            token_url: self.token_url@,
            client_id: self.client_id@,
            client_secret: self.client_secret@,
            redirect_url: self.redirect_url@,
            code: self.code@,
        }
    }
}

/// What the network answered to the last action.
#[derive(Debug)]
pub enum ExchangeEvent {
    /// The token endpoint granted an access token.
    TokenGranted { access_token: String },
    /// The token request failed, in transport or at the endpoint.
    TokenRefused { cause: String },
    /// The user-info endpoint answered with this HTTP status.
    ProfileStatus { status: u16 },
    /// The user-info request or the reading of its body failed in transport.
    ProfileUnreachable { cause: String },
    /// The body of the user-info response.
    ProfileBody { body: Vec<u8> },
}

pub enum ExchangeEventView {
    TokenGranted { access_token: Seq<char> },
    TokenRefused { cause: Seq<char> },
    ProfileStatus { status: u16 },
    ProfileUnreachable { cause: Seq<char> },
    ProfileBody { body: Seq<u8> },
}

impl View for ExchangeEvent {
    type V = ExchangeEventView;

    open spec fn view(&self) -> ExchangeEventView {
        match self {
            ExchangeEvent::TokenGranted { access_token } => ExchangeEventView::TokenGranted {
                access_token: access_token@,
            },
            ExchangeEvent::TokenRefused { cause } => ExchangeEventView::TokenRefused {
                cause: cause@,
            },
            ExchangeEvent::ProfileStatus { status } => ExchangeEventView::ProfileStatus {
                status: *status,
            },
            ExchangeEvent::ProfileUnreachable { cause } => ExchangeEventView::ProfileUnreachable {
                cause: cause@,
            },
            ExchangeEvent::ProfileBody { body } => ExchangeEventView::ProfileBody { body: body@ },
        }
    }
}

/// What to do next.
#[derive(Debug)]
pub enum ExchangeAction {
    /// POST the authorization-code grant to the token endpoint.
    RequestToken { request: TokenRequest },
    /// GET the user-info endpoint with the access token as bearer credential.
    FetchProfile { url: String, access_token: String },
    /// Read the body of the user-info response.
    ReadBody,
    /// Stop with this outcome.
    Finish { outcome: Result<UserInfo, AuthError> },
}

pub enum ExchangeActionView {
    RequestToken { request: TokenRequestView },
    FetchProfile { url: Seq<char>, access_token: Seq<char> },
    ReadBody,
    Finish { outcome: Result<UserInfoView, AuthErrorView> },
}

impl View for ExchangeAction {
    type V = ExchangeActionView;

    open spec fn view(&self) -> ExchangeActionView {
        match self {
            ExchangeAction::RequestToken { request } => ExchangeActionView::RequestToken {
                request: request@,
            },
            ExchangeAction::FetchProfile { url, access_token } => ExchangeActionView::FetchProfile {
                url: url@,
                access_token: access_token@,
            },
            ExchangeAction::ReadBody => ExchangeActionView::ReadBody,
            ExchangeAction::Finish { outcome } => ExchangeActionView::Finish {
                outcome: parsed_view(*outcome),
            },
        }
    }
}

/// Whether an HTTP status is in the success range.
pub open spec fn is_success(status: u16) -> bool {
    200 <= status <= 299
}

/// The token request that exchanges `code` for a client configured as `g`.
pub open spec fn token_request_of(g: GoogleView, code: Seq<char>) -> TokenRequestView {
    TokenRequestView {
        token_url: TOKEN_ENDPOINT@,
        client_id: g.client_id,
        client_secret: g.client_secret,
        redirect_url: g.redirect_url,
        code,
    }
}

/// Whether `event` answers the action that led to `phase`.
pub open spec fn answers(phase: ExchangePhase, event: ExchangeEventView) -> bool {
    match phase {
        ExchangePhase::Start => event is TokenGranted || event is TokenRefused,
        ExchangePhase::TokenAcquired => event is ProfileStatus || event is ProfileUnreachable,
        ExchangePhase::ProfileFetched => event is ProfileBody || event is ProfileUnreachable,
        ExchangePhase::Done => false,
    }
}

/// The phase and action that follow `event` in `phase`.
pub open spec fn step(phase: ExchangePhase, event: ExchangeEventView) -> (
    ExchangePhase,
    ExchangeActionView,
) {
    match event {
        ExchangeEventView::TokenGranted { access_token } => (
            ExchangePhase::TokenAcquired,
            ExchangeActionView::FetchProfile { url: USERINFO_ENDPOINT@, access_token },
        ),
        ExchangeEventView::TokenRefused { cause } => (
            ExchangePhase::Done,
            ExchangeActionView::Finish { outcome: Err(AuthErrorView::TokenExchange { cause }) },
        ),
        ExchangeEventView::ProfileStatus { status } => if is_success(status) {
            (ExchangePhase::ProfileFetched, ExchangeActionView::ReadBody)
        } else {
            (
                ExchangePhase::Done,
                ExchangeActionView::Finish {
                    outcome: Err(
                        AuthErrorView::ProfileFetch {
                            failure: FetchFailureView::Status { code: status },
                        },
                    ),
                },
            )
        },
        ExchangeEventView::ProfileUnreachable { cause } => (
            ExchangePhase::Done,
            ExchangeActionView::Finish {
                outcome: Err(
                    AuthErrorView::ProfileFetch { failure: FetchFailureView::Transport { cause } },
                ),
            },
        ),
        ExchangeEventView::ProfileBody { body } => (
            ExchangePhase::Done,
            ExchangeActionView::Finish { outcome: expected_parse(body) },
        ),
    }
}

/// The position of a phase in the exchange.
pub open spec fn rank(phase: ExchangePhase) -> int {
    match phase {
        ExchangePhase::Start => 0,
        ExchangePhase::TokenAcquired => 1,
        ExchangePhase::ProfileFetched => 2,
        ExchangePhase::Done => 3,
    }
}

/// The exchange is linear: every answered event moves it forward, and it
/// finishes exactly when it reaches `Done`, where it accepts no more events.
pub proof fn lemma_exchange_moves_forward(phase: ExchangePhase, event: ExchangeEventView)
    requires
        answers(phase, event),
    ensures
        rank(step(phase, event).0) > rank(phase),
        step(phase, event).0 == ExchangePhase::Done <==> step(phase, event).1 is Finish,
        forall|e: ExchangeEventView| !answers(ExchangePhase::Done, e),
{
}

impl ExchangePhase {
    /// Whether `event` answers the action that led to this phase.
    pub fn answers(&self, event: &ExchangeEvent) -> (r: bool)
        ensures
            r == answers(*self, event@),
    {
        match self {
            ExchangePhase::Start => match event {
                ExchangeEvent::TokenGranted { .. } => true,
                ExchangeEvent::TokenRefused { .. } => true,
                _ => false,
            },
            ExchangePhase::TokenAcquired => match event {
                ExchangeEvent::ProfileStatus { .. } => true,
                ExchangeEvent::ProfileUnreachable { .. } => true,
                _ => false,
            },
            ExchangePhase::ProfileFetched => match event {
                ExchangeEvent::ProfileBody { .. } => true,
                ExchangeEvent::ProfileUnreachable { .. } => true,
                _ => false,
            },
            ExchangePhase::Done => false,
        }
    }

    /// The phase and action that follow `event`. Any failure ends the
    /// exchange at once; no partial profile is ever returned.
    pub fn advance(self, event: ExchangeEvent) -> (r: (ExchangePhase, ExchangeAction))
        requires
            answers(self, event@),
        ensures
            (r.0, r.1@) == step(self, event@),
    {
        match event {
            ExchangeEvent::TokenGranted { access_token } => (
                ExchangePhase::TokenAcquired,
                ExchangeAction::FetchProfile { url: USERINFO_ENDPOINT.to_owned(), access_token },
            ),
            ExchangeEvent::TokenRefused { cause } => (
                ExchangePhase::Done,
                ExchangeAction::Finish { outcome: Err(AuthError::TokenExchange { cause }) },
            ),
            ExchangeEvent::ProfileStatus { status } => if 200 <= status && status <= 299 {
                (ExchangePhase::ProfileFetched, ExchangeAction::ReadBody)
            } else {
                (
                    ExchangePhase::Done,
                    ExchangeAction::Finish {
                        outcome: Err(
                            AuthError::ProfileFetch {
                                failure: FetchFailure::Status { code: status },
                            },
                        ),
                    },
                )
            },
            ExchangeEvent::ProfileUnreachable { cause } => (
                ExchangePhase::Done,
                ExchangeAction::Finish {
                    outcome: Err(
                        AuthError::ProfileFetch {
                            failure: FetchFailure::Transport { cause },
                        },
                    ),
                },
            ),
            ExchangeEvent::ProfileBody { body } => (
                ExchangePhase::Done,
                ExchangeAction::Finish { outcome: UserInfo::from_json(body.as_slice()) },
            ),
        }
    }
}

impl Google {
    /// Starts the exchange of the authorization code `code` for the user's
    /// profile: the first action is the token request.
    pub fn begin_exchange(&self, code: String) -> (r: (ExchangePhase, ExchangeAction))
        ensures
            r.0 == ExchangePhase::Start,
            r.1@ == (ExchangeActionView::RequestToken { request: token_request_of(self@, code@) }),
    {
        let request = TokenRequest {
            token_url: TOKEN_ENDPOINT.to_owned(),
            client_id: self.client_id().to_owned(),
            client_secret: self.client_secret().to_owned(),
            redirect_url: self.callback_url().to_owned(),
            code,
        };
        (ExchangePhase::Start, ExchangeAction::RequestToken { request })
    }
}

} // verus!
