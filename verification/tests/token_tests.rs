use base64::Engine;
use codex_auth::AuthError;
use codex_auth::JsonValue;
use codex_auth::TokenResponse;

fn obj(entries: Vec<(&str, JsonValue)>) -> JsonValue {
    JsonValue::Obj(entries.into_iter().map(|(k, v)| (String::from(k), v)).collect())
}

#[test]
fn full_token_reply_parses() {
    let v = obj(vec![
        ("access_token", JsonValue::Str(String::from("at"))),
        ("refresh_token", JsonValue::Str(String::from("rt"))),
        ("id_token", JsonValue::Str(String::from("it"))),
        ("expires_in", JsonValue::Int(3600)),
        ("token_type", JsonValue::Str(String::from("Bearer"))),
    ]);
    let t = codex_auth::token_response_from_json(&v).unwrap();
    assert_eq!(
        t,
        TokenResponse {
            access_token: String::from("at"),
            refresh_token: Some(String::from("rt")),
            id_token: Some(String::from("it")),
            expires_in: Some(3600),
        }
    );
}

#[test]
fn optional_fields_may_be_missing_or_null() {
    let v = obj(vec![
        ("access_token", JsonValue::Str(String::from("at"))),
        ("refresh_token", JsonValue::Null),
    ]);
    let t = codex_auth::token_response_from_json(&v).unwrap();
    assert_eq!(t.refresh_token, None);
    assert_eq!(t.id_token, None);
    assert_eq!(t.expires_in, None);
}

#[test]
fn malformed_replies_are_rejected() {
    // not an object
    assert!(matches!(
        codex_auth::token_response_from_json(&JsonValue::Int(2)),
        Err(AuthError::MalformedResponse(_))
    ));
    // missing access_token
    let v = obj(vec![("refresh_token", JsonValue::Str(String::from("rt")))]);
    assert!(matches!(
        codex_auth::token_response_from_json(&v),
        Err(AuthError::MalformedResponse(_))
    ));
    // wrongly typed optional field
    let v = obj(vec![
        ("access_token", JsonValue::Str(String::from("at"))),
        ("expires_in", JsonValue::Str(String::from("soon"))),
    ]);
    assert!(matches!(
        codex_auth::token_response_from_json(&v),
        Err(AuthError::MalformedResponse(_))
    ));
    // negative lifetime
    let v = obj(vec![
        ("access_token", JsonValue::Str(String::from("at"))),
        ("expires_in", JsonValue::Int(-1)),
    ]);
    assert!(matches!(
        codex_auth::token_response_from_json(&v),
        Err(AuthError::MalformedResponse(_))
    ));
}

#[test]
fn provider_rejection_carries_the_body() {
    let r = codex_auth::evaluate_token_reply(
        false,
        String::from("{\"error\":\"invalid_grant\"}"),
        None,
    );
    assert_eq!(
        r,
        Err(AuthError::ProviderRejected(String::from("{\"error\":\"invalid_grant\"}")))
    );
}

#[test]
fn unparsable_body_is_malformed() {
    let r = codex_auth::evaluate_token_reply(true, String::from("not json"), None);
    assert!(matches!(r, Err(AuthError::MalformedResponse(_))));
}

#[test]
fn successful_reply_round_trips_through_serde_json() {
    let body = "{\"access_token\":\"at\",\"refresh_token\":\"rt\",\"expires_in\":7200}";
    let parsed: serde_json::Value = serde_json::from_str(body).unwrap();
    // convert as the caller would
    let mut entries = Vec::new();
    for (k, v) in parsed.as_object().unwrap() {
        let jv = match v {
            serde_json::Value::String(s) => JsonValue::Str(s.clone()),
            serde_json::Value::Number(n) => JsonValue::Int(n.as_i64().unwrap()),
            _ => JsonValue::Null,
        };
        entries.push((k.clone(), jv));
    }
    let r = codex_auth::evaluate_token_reply(
        true,
        String::from(body),
        Some(JsonValue::Obj(entries)),
    );
    let t = r.unwrap();
    assert_eq!(t.access_token, "at");
    assert_eq!(t.refresh_token, Some(String::from("rt")));
    assert_eq!(t.expires_in, Some(7200));
}

fn jwt_with_payload(payload: &str) -> String {
    let enc = base64::engine::general_purpose::URL_SAFE_NO_PAD;
    format!(
        "{}.{}.{}",
        enc.encode("{\"alg\":\"RS256\"}"),
        enc.encode(payload),
        enc.encode("sig")
    )
}

#[test]
fn jwt_payload_extracts_the_middle_segment() {
    let token = jwt_with_payload("{\"email\":\"a@b.c\"}");
    let payload = codex_auth::jwt_payload(&token).unwrap();
    assert_eq!(payload, b"{\"email\":\"a@b.c\"}".to_vec());
    // fewer than two segments: nothing to decode
    assert_eq!(codex_auth::jwt_payload("no-dots-here"), None);
}

#[test]
fn user_info_reads_email_and_nested_account_id() {
    let payload = obj(vec![
        ("email", JsonValue::Str(String::from("user@example.com"))),
        (
            "https://api.openai.com/auth",
            obj(vec![("chatgpt_account_id", JsonValue::Str(String::from("acct-42")))]),
        ),
    ]);
    let ui = codex_auth::user_info_from_json(&payload).unwrap();
    assert_eq!(ui.email, "user@example.com");
    assert_eq!(ui.account_id, Some(String::from("acct-42")));

    let plain = obj(vec![("email", JsonValue::Str(String::from("u@v.w")))]);
    let ui = codex_auth::user_info_from_json(&plain).unwrap();
    assert_eq!(ui.account_id, None);

    let no_email = obj(vec![("sub", JsonValue::Str(String::from("x")))]);
    assert_eq!(codex_auth::user_info_from_json(&no_email), None);
}
