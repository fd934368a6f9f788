use google_oauth::exchange::USERINFO_ENDPOINT;
use google_oauth::provider::{AUTH_ENDPOINT, TOKEN_ENDPOINT};
use google_oauth::{
    AuthError, ExchangeAction, ExchangeEvent, ExchangePhase, FetchFailure, Google, UserInfo,
};

const CALLBACK: &str = "http://localhost:8080/callback";

fn client() -> Google {
    Google::new("my-client-id".to_string(), "top-secret-value".to_string(), CALLBACK.to_string())
        .unwrap()
}

fn query_value(url: &str, name: &str) -> Option<String> {
    let query = url.split_once('?')?.1;
    query.split('&').find_map(|pair| {
        let (k, v) = pair.split_once('=')?;
        if k == name {
            Some(v.to_string())
        } else {
            None
        }
    })
}

fn finish(action: ExchangeAction) -> Result<UserInfo, AuthError> {
    match action {
        ExchangeAction::Finish { outcome } => outcome,
        other => panic!("expected the exchange to finish, got {:?}", other),
    }
}

fn profile_after_body(body: &[u8]) -> Result<UserInfo, AuthError> {
    let (phase, action) = ExchangePhase::ProfileFetched
        .advance(ExchangeEvent::ProfileBody { body: body.to_vec() });
    assert_eq!(phase, ExchangePhase::Done);
    finish(action)
}

#[test]
fn new_keeps_configuration() {
    let g = client();
    assert_eq!(g.client_id(), "my-client-id");
    assert_eq!(g.client_secret(), "top-secret-value");
    assert_eq!(g.callback_url(), CALLBACK);
}

#[test]
fn malformed_redirect_url_is_configuration_error() {
    let r = Google::new("id".to_string(), "secret".to_string(), "not a url".to_string());
    match r {
        Err(AuthError::Configuration { url }) => assert_eq!(url, "not a url"),
        other => panic!("expected a configuration error, got {:?}", other.map(|_| ())),
    }
}

#[test]
fn empty_redirect_url_is_configuration_error() {
    let r = Google::new("id".to_string(), "secret".to_string(), String::new());
    assert!(matches!(r, Err(AuthError::Configuration { .. })));
}

#[test]
fn redirect_url_has_scopes_client_and_callback_but_no_secret() {
    let url = client().get_redirect_url();
    assert!(url.starts_with(AUTH_ENDPOINT));
    assert_eq!(query_value(&url, "response_type").as_deref(), Some("code"));
    assert_eq!(query_value(&url, "client_id").as_deref(), Some("my-client-id"));
    assert_eq!(
        query_value(&url, "redirect_uri").as_deref(),
        Some("http%3A%2F%2Flocalhost%3A8080%2Fcallback")
    );
    assert_eq!(query_value(&url, "scope").as_deref(), Some("openid+email+profile"));
    assert!(!url.contains("top-secret-value"));
}

#[test]
fn redirect_urls_carry_fresh_states() {
    let g = client();
    let a = query_value(&g.get_redirect_url(), "state").unwrap();
    let b = query_value(&g.get_redirect_url(), "state").unwrap();
    assert_eq!(a.len(), 22);
    assert_eq!(b.len(), 22);
    assert_ne!(a, b);
}

#[test]
fn redirect_url_with_state_uses_that_state() {
    let g = client();
    let url = g.redirect_url_with_state("abc123".to_string());
    assert_eq!(url, g.redirect_url_with_state("abc123".to_string()));
    assert_eq!(query_value(&url, "state").as_deref(), Some("abc123"));
}

#[test]
fn secret_does_not_change_redirect_url() {
    let a = client();
    let b = Google::new("my-client-id".to_string(), "other".to_string(), CALLBACK.to_string())
        .unwrap();
    assert_eq!(
        a.redirect_url_with_state("s".to_string()),
        b.redirect_url_with_state("s".to_string())
    );
}

#[test]
fn exchange_begins_with_token_request() {
    let (phase, action) = client().begin_exchange("auth-code".to_string());
    assert_eq!(phase, ExchangePhase::Start);
    match action {
        ExchangeAction::RequestToken { request } => {
            assert_eq!(request.token_url, TOKEN_ENDPOINT);
            assert_eq!(request.client_id, "my-client-id");
            assert_eq!(request.client_secret, "top-secret-value");
            assert_eq!(request.redirect_url, CALLBACK);
            assert_eq!(request.code, "auth-code");
        }
        other => panic!("expected a token request, got {:?}", other),
    }
}

#[test]
fn exchange_returns_profile() {
    let (phase, action) = ExchangePhase::Start
        .advance(ExchangeEvent::TokenGranted { access_token: "tok".to_string() });
    assert_eq!(phase, ExchangePhase::TokenAcquired);
    match action {
        ExchangeAction::FetchProfile { url, access_token } => {
            assert_eq!(url, USERINFO_ENDPOINT);
            assert_eq!(access_token, "tok");
        }
        other => panic!("expected a profile request, got {:?}", other),
    }
    let (phase, action) = phase.advance(ExchangeEvent::ProfileStatus { status: 200 });
    assert_eq!(phase, ExchangePhase::ProfileFetched);
    assert!(matches!(action, ExchangeAction::ReadBody));
    let body = br#"{"sub":"123","name":"Ada","picture":"http://x/p.png","email":"a@b.com","email_verified":true}"#;
    let (phase, action) = phase.advance(ExchangeEvent::ProfileBody { body: body.to_vec() });
    assert_eq!(phase, ExchangePhase::Done);
    let p = finish(action).unwrap();
    assert_eq!(p.open_id, "123");
    assert_eq!(p.username, "Ada");
    assert_eq!(p.profile_url, "http://x/p.png");
    assert_eq!(p.email, "a@b.com");
    assert!(p.email_verified);
    assert_eq!(p.given_name, None);
    assert_eq!(p.family_name, None);
    assert_eq!(p.locale, None);
}

#[test]
fn refused_token_ends_exchange() {
    let (phase, action) = ExchangePhase::Start
        .advance(ExchangeEvent::TokenRefused { cause: "400 invalid_grant".to_string() });
    assert_eq!(phase, ExchangePhase::Done);
    match finish(action) {
        Err(AuthError::TokenExchange { cause }) => assert_eq!(cause, "400 invalid_grant"),
        other => panic!("expected a token exchange error, got {:?}", other),
    }
}

#[test]
fn profile_error_status_is_fetch_error() {
    let (phase, action) =
        ExchangePhase::TokenAcquired.advance(ExchangeEvent::ProfileStatus { status: 500 });
    assert_eq!(phase, ExchangePhase::Done);
    assert!(matches!(
        finish(action),
        Err(AuthError::ProfileFetch { failure: FetchFailure::Status { code: 500 } })
    ));
}

#[test]
fn success_range_of_statuses() {
    for (status, ok) in [(199u16, false), (200, true), (204, true), (299, true), (300, false), (401, false)] {
        let (phase, _) = ExchangePhase::TokenAcquired.advance(ExchangeEvent::ProfileStatus { status });
        assert_eq!(phase == ExchangePhase::ProfileFetched, ok, "status {}", status);
    }
}

#[test]
fn unreachable_profile_is_fetch_error() {
    for phase in [ExchangePhase::TokenAcquired, ExchangePhase::ProfileFetched] {
        let (next, action) =
            phase.advance(ExchangeEvent::ProfileUnreachable { cause: "reset".to_string() });
        assert_eq!(next, ExchangePhase::Done);
        match finish(action) {
            Err(AuthError::ProfileFetch { failure: FetchFailure::Transport { cause } }) => {
                assert_eq!(cause, "reset")
            }
            other => panic!("expected a transport failure, got {:?}", other),
        }
    }
}

#[test]
fn missing_sub_is_parse_error() {
    let body = br#"{"name":"Ada","picture":"http://x/p.png","email":"a@b.com","email_verified":true}"#;
    match profile_after_body(body) {
        Err(AuthError::ProfileParse { field }) => assert_eq!(field, "sub"),
        other => panic!("expected a parse error, got {:?}", other),
    }
}

#[test]
fn wrong_type_is_parse_error() {
    let body = br#"{"sub":"1","name":"Ada","picture":"p","email":"a@b.com","email_verified":"yes"}"#;
    match profile_after_body(body) {
        Err(AuthError::ProfileParse { field }) => assert_eq!(field, "email_verified"),
        other => panic!("expected a parse error, got {:?}", other),
    }
    let body = br#"{"sub":"1","name":"Ada","picture":"p","email":"a@b.com","email_verified":false,"locale":7}"#;
    match profile_after_body(body) {
        Err(AuthError::ProfileParse { field }) => assert_eq!(field, "locale"),
        other => panic!("expected a parse error, got {:?}", other),
    }
}

#[test]
fn body_that_is_not_json_is_parse_error() {
    assert!(matches!(profile_after_body(b"<html>"), Err(AuthError::ProfileParse { .. })));
    assert!(matches!(profile_after_body(b"[1,2]"), Err(AuthError::ProfileParse { .. })));
}

#[test]
fn optional_members_are_read() {
    let body = br#"{"sub":"9","name":"Grace Hopper","given_name":"Grace","family_name":null,"picture":"p","email":"g@h.org","email_verified":false,"locale":"en"}"#;
    let p = UserInfo::from_json(body).unwrap();
    assert_eq!(p.open_id, "9");
    assert_eq!(p.given_name.as_deref(), Some("Grace"));
    assert_eq!(p.family_name, None);
    assert_eq!(p.locale.as_deref(), Some("en"));
    assert!(!p.email_verified);
}

#[test]
fn phases_answer_only_their_events() {
    let granted = ExchangeEvent::TokenGranted { access_token: "t".to_string() };
    let status = ExchangeEvent::ProfileStatus { status: 200 };
    let body = ExchangeEvent::ProfileBody { body: Vec::new() };
    assert!(ExchangePhase::Start.answers(&granted));
    assert!(!ExchangePhase::Start.answers(&status));
    assert!(ExchangePhase::TokenAcquired.answers(&status));
    assert!(!ExchangePhase::TokenAcquired.answers(&body));
    assert!(ExchangePhase::ProfileFetched.answers(&body));
    assert!(!ExchangePhase::Done.answers(&granted));
    assert!(!ExchangePhase::Done.answers(&body));
}
