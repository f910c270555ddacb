use codex_auth::Account;
use codex_auth::JsonValue;
use codex_auth::TokenResponse;

fn obj(entries: Vec<(&str, JsonValue)>) -> JsonValue {
    JsonValue::Obj(entries.into_iter().map(|(k, v)| (String::from(k), v)).collect())
}

fn lookup<'a>(v: &'a JsonValue, key: &str) -> Option<&'a JsonValue> {
    codex_auth::json_get(v, key)
}

fn ts(s: &str) -> i64 {
    chrono::DateTime::parse_from_rfc3339(s).unwrap().timestamp()
}

#[test]
fn rfc3339_five_minutes_ahead_is_expiring() {
    let now = ts("2026-01-01T12:00:00+00:00");
    let auth = obj(vec![(
        "tokens",
        obj(vec![("expires_at", JsonValue::Str(String::from("2026-01-01T12:05:00+00:00")))]),
    )]);
    assert!(codex_auth::is_token_expiring_soon(&auth, now));
}

#[test]
fn rfc3339_twenty_minutes_ahead_is_not_expiring() {
    let now = ts("2026-01-01T12:00:00+00:00");
    let auth = obj(vec![(
        "tokens",
        obj(vec![("expires_at", JsonValue::Str(String::from("2026-01-01T12:20:00+00:00")))]),
    )]);
    assert!(!codex_auth::is_token_expiring_soon(&auth, now));
}

#[test]
fn integer_epoch_expiry_and_top_level_fallback() {
    let now: i64 = 1_000_000;
    // top-level fallback, integer epoch seconds
    let auth = obj(vec![("expires_at", JsonValue::Int(now + 599))]);
    assert!(codex_auth::is_token_expiring_soon(&auth, now));
    let auth = obj(vec![("expires_at", JsonValue::Int(now + 600))]);
    assert!(!codex_auth::is_token_expiring_soon(&auth, now));
    // already expired still counts as expiring
    let auth = obj(vec![("expires_at", JsonValue::Int(now - 50))]);
    assert!(codex_auth::is_token_expiring_soon(&auth, now));
}

#[test]
fn unparsable_or_missing_expiry_never_expires() {
    let now: i64 = 1_000_000;
    let auth = obj(vec![("expires_at", JsonValue::Str(String::from("not a date")))]);
    assert!(!codex_auth::is_token_expiring_soon(&auth, now));
    let auth = obj(vec![("other", JsonValue::Bool(true))]);
    assert!(!codex_auth::is_token_expiring_soon(&auth, now));
    assert!(!codex_auth::is_token_expiring_soon(&JsonValue::Null, now));
}

fn sample_token() -> TokenResponse {
    TokenResponse {
        access_token: String::from("new_access"),
        refresh_token: Some(String::from("new_refresh")),
        id_token: None,
        expires_in: Some(7200),
    }
}

#[test]
fn merge_updates_tokens_and_keeps_unrelated_fields() {
    let now = ts("2026-01-01T12:00:00+00:00");
    let old = obj(vec![
        ("email", JsonValue::Str(String::from("a@b.c"))),
        (
            "tokens",
            obj(vec![
                ("access_token", JsonValue::Str(String::from("old_access"))),
                ("refresh_token", JsonValue::Str(String::from("old_refresh"))),
                ("account_id", JsonValue::Str(String::from("acct-1"))),
                ("expires_at", JsonValue::Str(String::from("2026-01-01T12:05:00+00:00"))),
            ]),
        ),
        ("plan", JsonValue::Str(String::from("pro"))),
    ]);
    let merged = codex_auth::merge_refreshed_auth(old, &sample_token(), now);

    // unrelated top-level fields untouched
    assert_eq!(lookup(&merged, "email"), Some(&JsonValue::Str(String::from("a@b.c"))));
    assert_eq!(lookup(&merged, "plan"), Some(&JsonValue::Str(String::from("pro"))));

    // a last_refresh stamp appears, formatted at `now`
    match lookup(&merged, "last_refresh") {
        Some(JsonValue::Str(s)) => assert_eq!(ts(s), now),
        other => panic!("last_refresh missing: {:?}", other),
    }

    let tokens = lookup(&merged, "tokens").unwrap();
    assert_eq!(
        lookup(tokens, "access_token"),
        Some(&JsonValue::Str(String::from("new_access")))
    );
    assert_eq!(
        lookup(tokens, "refresh_token"),
        Some(&JsonValue::Str(String::from("new_refresh")))
    );
    // id_token was not in the reply: the old record had none, still none
    assert_eq!(lookup(tokens, "id_token"), None);
    // unrelated nested field untouched
    assert_eq!(lookup(tokens, "account_id"), Some(&JsonValue::Str(String::from("acct-1"))));
    // recomputed expiry is now + expires_in
    match lookup(tokens, "expires_at") {
        Some(JsonValue::Str(s)) => assert_eq!(ts(s), now + 7200),
        other => panic!("expires_at missing: {:?}", other),
    }
}

#[test]
fn merge_rebuilds_tokens_when_the_old_shape_is_damaged() {
    let now = ts("2026-01-01T12:00:00+00:00");
    let old = obj(vec![("tokens", JsonValue::Str(String::from("damaged")))]);
    let merged = codex_auth::merge_refreshed_auth(old, &sample_token(), now);
    let tokens = lookup(&merged, "tokens").unwrap();
    assert_eq!(
        lookup(tokens, "access_token"),
        Some(&JsonValue::Str(String::from("new_access")))
    );
    // absent optional parts of the reply are recorded as null in a rebuilt record
    assert_eq!(lookup(tokens, "id_token"), Some(&JsonValue::Null));
}

#[test]
fn merge_leaves_a_non_object_record_unchanged() {
    let now: i64 = 1_000_000;
    let merged = codex_auth::merge_refreshed_auth(JsonValue::Int(5), &sample_token(), now);
    assert_eq!(merged, JsonValue::Int(5));
}

fn account(id: &str, refresh: Option<&str>, expires_at: i64) -> Account {
    Account {
        id: String::from(id),
        name: String::from(id),
        refresh_token: refresh.map(String::from),
        auth_json: obj(vec![(
            "tokens",
            obj(vec![("expires_at", JsonValue::Int(expires_at))]),
        )]),
    }
}

#[test]
fn plan_selects_expiring_accounts_with_refresh_tokens() {
    let now: i64 = 1_000_000;
    let accounts = vec![
        account("a", Some("rt-a"), now + 100),   // expiring, has token
        account("b", None, now + 100),           // expiring, no token
        account("c", Some("rt-c"), now + 7200),  // not expiring
        account("d", Some("rt-d"), now - 5),     // already expired
    ];
    let plan = codex_auth::plan_refreshes(&accounts, now);
    assert_eq!(plan, vec![0usize, 3usize]);
}

#[test]
fn one_failed_refresh_does_not_stop_the_others() {
    let now: i64 = 1_000_000;
    let accounts = vec![
        account("a", Some("rt-a"), now + 100),
        account("b", Some("rt-b"), now + 100),
    ];
    // account a's refresh failed (no outcome); account b's succeeded
    let outcomes = vec![None, Some(sample_token())];
    let (after, refreshed) = codex_auth::run_scan_tick(accounts, outcomes, now);
    assert_eq!(refreshed, 1);
    // a untouched
    let ta = lookup(&after[0].auth_json, "tokens").unwrap();
    assert_eq!(lookup(ta, "expires_at"), Some(&JsonValue::Int(now + 100)));
    // b refreshed
    let tb = lookup(&after[1].auth_json, "tokens").unwrap();
    assert_eq!(
        lookup(tb, "access_token"),
        Some(&JsonValue::Str(String::from("new_access")))
    );
}

#[test]
fn scan_does_not_refresh_accounts_that_are_not_due() {
    let now: i64 = 1_000_000;
    let accounts = vec![account("c", Some("rt-c"), now + 7200)];
    let outcomes = vec![Some(sample_token())];
    let (after, refreshed) = codex_auth::run_scan_tick(accounts, outcomes, now);
    assert_eq!(refreshed, 0);
    let tc = lookup(&after[0].auth_json, "tokens").unwrap();
    assert_eq!(lookup(tc, "access_token"), None);
}
