use codex_auth::AuthError;

#[test]
fn valid_callback_surfaces_code_and_responds_200() {
    let request =
        "GET /auth/callback?code=abc123&state=S_EXPECTED HTTP/1.1\r\nHost: localhost\r\n\r\n";
    let reply = codex_auth::handle_callback(request, "S_EXPECTED");
    assert_eq!(reply.result, Ok(String::from("abc123")));
    assert!(reply.http_response.starts_with("HTTP/1.1 200 OK"));
}

#[test]
fn wrong_state_is_rejected_with_400() {
    let request =
        "GET /auth/callback?code=abc123&state=S_WRONG HTTP/1.1\r\nHost: localhost\r\n\r\n";
    let reply = codex_auth::handle_callback(request, "S_EXPECTED");
    assert_eq!(reply.result, Err(AuthError::StateMismatch));
    assert!(reply.http_response.starts_with("HTTP/1.1 400 Bad Request"));
}

#[test]
fn missing_code_is_rejected() {
    let request = "GET /auth/callback?state=S_EXPECTED HTTP/1.1\r\nHost: localhost\r\n\r\n";
    let reply = codex_auth::handle_callback(request, "S_EXPECTED");
    assert_eq!(reply.result, Err(AuthError::MissingParameters));
    assert!(reply.http_response.starts_with("HTTP/1.1 400 Bad Request"));
}

#[test]
fn missing_state_is_rejected() {
    let request = "GET /auth/callback?code=abc123 HTTP/1.1\r\n\r\n";
    let reply = codex_auth::handle_callback(request, "S_EXPECTED");
    assert_eq!(reply.result, Err(AuthError::MissingParameters));
}

#[test]
fn request_without_path_is_rejected() {
    let reply = codex_auth::handle_callback("GARBAGE\r\n\r\n", "S_EXPECTED");
    assert_eq!(reply.result, Err(AuthError::MissingParameters));
}

#[test]
fn percent_encoded_code_is_decoded() {
    let request = "GET /auth/callback?code=a%20b%2Fc&state=S HTTP/1.1\r\n\r\n";
    let reply = codex_auth::handle_callback(request, "S");
    assert_eq!(reply.result, Ok(String::from("a b/c")));
}

#[test]
fn last_occurrence_of_a_parameter_wins() {
    let request = "GET /auth/callback?code=first&state=S&code=second HTTP/1.1\r\n\r\n";
    let reply = codex_auth::handle_callback(request, "S");
    assert_eq!(reply.result, Ok(String::from("second")));
}

#[test]
fn request_path_takes_second_token_of_first_line() {
    let p = codex_auth::request_path("GET /auth/callback?x=1 HTTP/1.1\r\nPOST /other\r\n");
    assert_eq!(p, Some(String::from("/auth/callback?x=1")));
    assert_eq!(codex_auth::request_path(""), None);
    assert_eq!(codex_auth::request_path("GET\r\n"), None);
}

#[test]
fn validate_callback_on_extracted_pairs() {
    let pairs = vec![
        (String::from("code"), String::from("abc123")),
        (String::from("state"), String::from("S")),
    ];
    assert_eq!(
        codex_auth::validate_callback(&pairs, "S"),
        Ok(String::from("abc123"))
    );
    assert_eq!(
        codex_auth::validate_callback(&pairs, "T"),
        Err(AuthError::StateMismatch)
    );
    let no_code = vec![(String::from("state"), String::from("S"))];
    assert_eq!(
        codex_auth::validate_callback(&no_code, "S"),
        Err(AuthError::MissingParameters)
    );
    assert_eq!(
        codex_auth::lookup_param(&pairs, "code"),
        Some(String::from("abc123"))
    );
    assert_eq!(codex_auth::lookup_param(&pairs, "missing"), None);
}
