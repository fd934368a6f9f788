//! The client configuration and the authorization URL users are sent to.
use vstd::prelude::*;

use crate::error::{AuthError, AuthErrorView};
use oauth2::basic::BasicClient;
use oauth2::url::ParseError;
use oauth2::{AuthUrl, ClientId, CsrfToken, RedirectUrl, Scope, TokenUrl};

verus! {

/// Google's authorization endpoint.
pub const AUTH_ENDPOINT: &'static str = "https://accounts.google.com/o/oauth2/auth";

/// Google's token endpoint.
pub const TOKEN_ENDPOINT: &'static str = "https://accounts.google.com/o/oauth2/token";

#[verifier::external_type_specification]
#[verifier::external_body]
pub struct ExAuthUrl(AuthUrl);

#[verifier::external_type_specification]
#[verifier::external_body]
pub struct ExTokenUrl(TokenUrl);

#[verifier::external_type_specification]
#[verifier::external_body]
pub struct ExRedirectUrl(RedirectUrl);

#[verifier::external_type_specification]
#[verifier::external_body]
pub struct ExParseError(ParseError);

/// Whether oauth2's `AuthUrl::new` accepts the text.
pub uninterp spec fn auth_url_accepts(s: Seq<char>) -> bool;

/// Whether oauth2's `TokenUrl::new` accepts the text.
pub uninterp spec fn token_url_accepts(s: Seq<char>) -> bool;

/// Whether oauth2's `RedirectUrl::new` accepts the text.
pub uninterp spec fn redirect_url_accepts(s: Seq<char>) -> bool;

/// The URL that oauth2's `AuthorizationRequest::url` builds for a client with
/// the given authorization endpoint, client identifier and redirect URL, with
/// the given anti-forgery state and scopes.
pub uninterp spec fn authorization_url(
    endpoint: Seq<char>,
    client_id: Seq<char>,
    redirect_url: Seq<char>,
    state: Seq<char>,
    scopes: Seq<Seq<char>>,
) -> Seq<char>;

/// Relies on oauth2's `AuthUrl::new`: it fails exactly when the text does not
/// parse as a URL, which depends on the text alone.
#[verifier::external_body]
fn parse_auth_url(s: String) -> (r: Result<AuthUrl, ParseError>)
    ensures
        r is Ok <==> auth_url_accepts(s@),
{
    AuthUrl::new(s)
}

/// Relies on oauth2's `TokenUrl::new`: it fails exactly when the text does not
/// parse as a URL, which depends on the text alone.
#[verifier::external_body]
fn parse_token_url(s: String) -> (r: Result<TokenUrl, ParseError>)
    ensures
        r is Ok <==> token_url_accepts(s@),
{
    TokenUrl::new(s)
}

/// Relies on oauth2's `RedirectUrl::new`: it fails exactly when the text does
/// not parse as a URL, which depends on the text alone.
#[verifier::external_body]
fn parse_redirect_url(s: String) -> (r: Result<RedirectUrl, ParseError>)
    ensures
        r is Ok <==> redirect_url_accepts(s@),
{
    RedirectUrl::new(s)
}

/// Relies on oauth2's `CsrfToken::new_random`: 16 random bytes in URL-safe
/// base64 without padding, which is 22 characters.
#[verifier::external_body]
fn random_state() -> (r: String)
    ensures
        r@.len() == 22,
{
    CsrfToken::new_random().secret().clone()
}

/// Relies on oauth2's `Client::authorize_url` with `AuthorizationRequest::url`:
/// the URL depends on the endpoint, client identifier, redirect URL, state and
/// scopes alone; the client secret and token endpoint take no part, so the
/// client is made without them. `AuthUrl::new` and `RedirectUrl::new` succeed
/// on the two URLs, as `requires` states.
#[verifier::external_body]
fn request_url(
    endpoint: &str,
    client_id: &str,
    redirect_url: &str,
    state: &str,
    scopes: &Vec<String>,
) -> (r: String)
    requires
        auth_url_accepts(endpoint@),
        redirect_url_accepts(redirect_url@),
    ensures
        r@ == authorization_url(endpoint@, client_id@, redirect_url@, state@, texts(scopes@)),
{
    let auth_url = AuthUrl::new(endpoint.to_string()).expect("accepted endpoint");
    let redirect = RedirectUrl::new(redirect_url.to_string()).expect("accepted redirect URL");
    let client = BasicClient::new(ClientId::new(client_id.to_string()), None, auth_url, None)
        .set_redirect_uri(redirect);
    let state = CsrfToken::new(state.to_string());
    let scopes = scopes.iter().map(|s| Scope::new(s.clone()));
    let (url, _state) = client.authorize_url(move || state).add_scopes(scopes).url();
    url.to_string()
}

/// The texts of a sequence of strings.
pub open spec fn texts(v: Seq<String>) -> Seq<Seq<char>> {
    v.map_values(|s: String| s@)
}

/// The scopes requested from Google.
pub open spec fn google_scopes() -> Seq<Seq<char>> {
    seq!["openid"@, "email"@, "profile"@]
}

/// The first of the URLs a client is configured with that is refused, in the
/// order authorization endpoint, token endpoint, redirect URL.
pub open spec fn first_rejected_url(redirect_url: Seq<char>) -> Option<Seq<char>> {
    if !auth_url_accepts(AUTH_ENDPOINT@) {
        Some(AUTH_ENDPOINT@)
    } else if !token_url_accepts(TOKEN_ENDPOINT@) {
        Some(TOKEN_ENDPOINT@)
    } else if !redirect_url_accepts(redirect_url) {
        Some(redirect_url)
    } else {
        None
    }
}

/// What a `Google` client is configured with.
pub struct GoogleView {
    pub client_id: Seq<char>,
    pub client_secret: Seq<char>,
    pub redirect_url: Seq<char>,
}

/// The authorization URL for a client configured as `g`, with anti-forgery
/// state `state`.
pub open spec fn signin_url(g: GoogleView, state: Seq<char>) -> Seq<char> {
    authorization_url(AUTH_ENDPOINT@, g.client_id, g.redirect_url, state, google_scopes())
}

/// The authorization URL is made from the client identifier, the redirect URL,
/// the anti-forgery state and the scopes `openid`, `email` and `profile`
/// alone: two clients that differ only in their secret send users to the same
/// URL, so the secret takes no part in it.
pub proof fn lemma_signin_url_ignores_secret(a: GoogleView, b: GoogleView, state: Seq<char>)
    requires
        a.client_id == b.client_id,
        a.redirect_url == b.redirect_url,
    ensures
        signin_url(a, state) == signin_url(b, state),
        signin_url(a, state) == authorization_url(
            AUTH_ENDPOINT@,
            a.client_id,
            a.redirect_url,
            state,
            seq!["openid"@, "email"@, "profile"@],
        ),
{
}

/// An OAuth2 client for Google sign-in. Its endpoints and redirect URL all
/// parse as URLs.
pub struct Google {
    client_id: String,
    client_secret: String,
    redirect_url: String,
}

impl View for Google {
    type V = GoogleView;

    closed spec fn view(&self) -> GoogleView {
        GoogleView {
            client_id: self.client_id@,
            client_secret: self.client_secret@,
            redirect_url: self.redirect_url@,
        }
    }
}

impl Google {
    #[verifier::type_invariant]
    closed spec fn urls_parse(&self) -> bool {
        first_rejected_url(self.redirect_url@) is None
    }

    /// A client for the application registered with Google as `appid` and
    /// `app_secret`, whose users come back to `callback_url`.
    ///
    /// Fails with `AuthError::Configuration` naming the first URL that does
    /// not parse. Nothing is sent over the network.
    pub fn new(appid: String, app_secret: String, callback_url: String) -> (r: Result<
        Google,
        AuthError,
    >)
        ensures
            r is Ok <==> first_rejected_url(callback_url@) is None,
            r matches Ok(g) ==> g@ == (GoogleView {
                client_id: appid@,
                client_secret: app_secret@,
                redirect_url: callback_url@,
            }),
            r matches Err(e) ==> first_rejected_url(callback_url@) matches Some(url)
                && e@ == (AuthErrorView::Configuration { url }),
    {
        if parse_auth_url(AUTH_ENDPOINT.to_owned()).is_err() {
            return Err(AuthError::Configuration { url: AUTH_ENDPOINT.to_owned() });
        }
        if parse_token_url(TOKEN_ENDPOINT.to_owned()).is_err() {
            return Err(AuthError::Configuration { url: TOKEN_ENDPOINT.to_owned() });
        }
        if parse_redirect_url(callback_url.clone()).is_err() {
            return Err(AuthError::Configuration { url: callback_url });
        }
        Ok(Google { client_id: appid, client_secret: app_secret, redirect_url: callback_url })
    }

    /// The client identifier.
    pub fn client_id(&self) -> (r: &str)
        ensures
            r@ == self@.client_id,
    {
        self.client_id.as_str()
    }

    /// The client secret.
    pub fn client_secret(&self) -> (r: &str)
        ensures
            r@ == self@.client_secret,
    {
        self.client_secret.as_str()
    }

    /// The URL users come back to after signing in.
    pub fn callback_url(&self) -> (r: &str)
        ensures
            r@ == self@.redirect_url,
    {
        self.redirect_url.as_str()
    }

    /// The authorization URL with the given anti-forgery state.
    pub fn redirect_url_with_state(&self, state: String) -> (r: String)
        ensures
            r@ == signin_url(self@, state@),
    {
        proof {
            use_type_invariant(self);
        }
        let scopes = vec!["openid".to_owned(), "email".to_owned(), "profile".to_owned()];
        assert(texts(scopes@) =~= google_scopes());
        request_url(AUTH_ENDPOINT, self.client_id.as_str(), self.redirect_url.as_str(), state.as_str(), &scopes)
    }

    /// The URL to send a user to so that they sign in with Google and let
    /// this application read their identity, e-mail address and profile.
    ///
    /// Each call draws a fresh random anti-forgery state, which is not kept.
    pub fn get_redirect_url(&self) -> (r: String)
        ensures
            exists|state: Seq<char>| state.len() == 22 && r@ == signin_url(self@, state),
    {
        let state = random_state();
        self.redirect_url_with_state(state)
    }
}

} // verus!
