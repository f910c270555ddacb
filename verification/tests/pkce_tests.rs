use base64::Engine;
use sha2::Digest;

#[test]
fn pkce_challenge_matches_sha256_of_verifier() {
    let p = codex_auth::generate_pkce();
    let digest = sha2::Sha256::digest(p.code_verifier.as_bytes());
    let expected = base64::engine::general_purpose::URL_SAFE_NO_PAD.encode(digest);
    assert_eq!(p.code_challenge, expected);
}

#[test]
fn pkce_verifier_decodes_to_64_bytes() {
    let p = codex_auth::generate_pkce();
    let decoded = base64::engine::general_purpose::URL_SAFE_NO_PAD
        .decode(p.code_verifier.as_bytes())
        .expect("verifier must be valid base64url");
    assert_eq!(decoded.len(), 64);
    assert_eq!(p.code_verifier.len(), 86);
}

#[test]
fn pkce_pairs_differ_between_calls() {
    let a = codex_auth::generate_pkce();
    let b = codex_auth::generate_pkce();
    assert_ne!(a.code_verifier, b.code_verifier);
}

#[test]
fn percent_encode_matches_urlencoding_crate() {
    let samples = [
        "abc123",
        "a b&c=d",
        "openid profile email offline_access",
        "~tilde-dash_underscore.dot",
        "percent%sign/slash:colon",
        "",
    ];
    for s in samples {
        let mine = codex_auth::percent_encode(s);
        let theirs = urlencoding::encode(s).into_owned();
        assert_eq!(String::from_utf8(mine).unwrap(), theirs);
    }
}

#[test]
fn exchange_body_exact() {
    let body = codex_auth::build_exchange_body(
        "a code",
        "http://localhost:1455/auth/callback",
        "ver_ifier",
    );
    let expected = format!(
        "grant_type=authorization_code&code=a%20code&redirect_uri=http%3A%2F%2Flocalhost%3A1455%2Fauth%2Fcallback&client_id={}&code_verifier=ver_ifier",
        codex_auth::client_id()
    );
    assert_eq!(String::from_utf8(body).unwrap(), expected);
}

#[test]
fn refresh_body_exact() {
    let body = codex_auth::build_refresh_body("rt/1+2");
    let expected = format!(
        "grant_type=refresh_token&client_id={}&refresh_token=rt%2F1%2B2&scope=openid%20profile%20email%20offline_access",
        codex_auth::client_id()
    );
    assert_eq!(String::from_utf8(body).unwrap(), expected);
}

#[test]
fn state_token_decodes_to_32_bytes() {
    let s = codex_auth::generate_state();
    let decoded = base64::engine::general_purpose::URL_SAFE_NO_PAD
        .decode(s.as_bytes())
        .expect("state must be valid base64url");
    assert_eq!(decoded.len(), 32);
    assert_ne!(s, codex_auth::generate_state());
}
