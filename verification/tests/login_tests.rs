use codex_auth::AuthError;
use codex_auth::LoginRegistry;

#[test]
fn start_login_url_exact() {
    let mut reg = LoginRegistry::new();
    let url = codex_auth::start_oauth_login(&mut reg, 1455);
    let pending = reg.get_pending_login().clone().expect("a login must be pending");
    let expected = format!(
        "{}?response_type=code&client_id={}&redirect_uri=http://localhost:1455/auth/callback&scope=openid profile email offline_access&code_challenge={}&code_challenge_method=S256&id_token_add_organizations=true&codex_cli_simplified_flow=true&state={}&originator=codex_vscode",
        codex_auth::auth_url(),
        codex_auth::client_id(),
        pending.pkce.code_challenge,
        pending.state
    );
    assert_eq!(url, expected);
}

#[test]
fn state_is_present_in_url_and_regenerated_each_start() {
    let mut reg = LoginRegistry::new();
    let url1 = codex_auth::start_oauth_login(&mut reg, 1455);
    let state1 = reg.get_pending_login().clone().unwrap().state;
    assert!(url1.contains(&format!("&state={}&", state1)));

    let url2 = codex_auth::start_oauth_login(&mut reg, 1455);
    let state2 = reg.get_pending_login().clone().unwrap().state;
    assert!(url2.contains(&format!("&state={}&", state2)));
    assert_ne!(state1, state2);
}

#[test]
fn complete_login_consumes_the_entry_exactly_once() {
    let mut reg = LoginRegistry::new();
    let _url = codex_auth::start_oauth_login(&mut reg, 1455);
    let first = codex_auth::prepare_code_exchange(&mut reg, "abc123");
    assert!(first.is_ok());
    let second = codex_auth::prepare_code_exchange(&mut reg, "abc123");
    assert_eq!(second, Err(AuthError::LoginExpiredOrNotStarted));
}

#[test]
fn complete_login_without_start_fails() {
    let mut reg = LoginRegistry::new();
    let r = codex_auth::prepare_code_exchange(&mut reg, "abc123");
    assert_eq!(r, Err(AuthError::LoginExpiredOrNotStarted));
}

#[test]
fn exchange_body_uses_the_pending_verifier_and_port() {
    let mut reg = LoginRegistry::new();
    let _url = codex_auth::start_oauth_login(&mut reg, 1455);
    let pending = reg.get_pending_login().clone().unwrap();
    let body = codex_auth::prepare_code_exchange(&mut reg, "thecode").unwrap();
    let expected = codex_auth::build_exchange_body(
        "thecode",
        "http://localhost:1455/auth/callback",
        &pending.pkce.code_verifier,
    );
    assert_eq!(body, expected);
}

#[test]
fn second_start_discards_first_login() {
    let mut reg = LoginRegistry::new();
    let _url1 = codex_auth::start_oauth_login(&mut reg, 1455);
    let state1 = reg.get_pending_login().clone().unwrap().state;

    let _url2 = codex_auth::start_oauth_login(&mut reg, 1455);
    let pending = reg.get_pending_login().clone().unwrap();
    assert_ne!(pending.state, state1);

    // a callback carrying the first login's state no longer validates
    let request = format!(
        "GET /auth/callback?code=abc123&state={} HTTP/1.1\r\nHost: localhost\r\n\r\n",
        state1
    );
    let reply = codex_auth::handle_callback(&request, &pending.state);
    assert_eq!(reply.result, Err(AuthError::StateMismatch));
}

#[test]
fn redirect_uri_renders_the_port() {
    let s = codex_auth::redirect_uri_string(1455);
    assert_eq!(s, "http://localhost:1455/auth/callback");
    let s = codex_auth::redirect_uri_string(80);
    assert_eq!(s, "http://localhost:80/auth/callback");
}

#[test]
fn error_messages_are_nonempty() {
    let errors = vec![
        AuthError::NetworkError(String::from("timed out")),
        AuthError::ProviderRejected(String::from("bad grant")),
        AuthError::MalformedResponse(String::from("not json")),
        AuthError::StateMismatch,
        AuthError::MissingParameters,
        AuthError::LoginExpiredOrNotStarted,
        AuthError::PortBindFailure(String::from("in use")),
    ];
    for e in errors {
        assert!(!e.message().is_empty());
    }
}
