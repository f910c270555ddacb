use codex_auth::JsonValue;

fn entries(v: Vec<(&str, JsonValue)>) -> Vec<(String, JsonValue)> {
    v.into_iter().map(|(k, val)| (String::from(k), val)).collect()
}

#[test]
fn get_reads_fields_and_rejects_non_objects() {
    let v = JsonValue::Obj(entries(vec![
        ("a", JsonValue::Int(1)),
        ("b", JsonValue::Bool(true)),
    ]));
    assert_eq!(codex_auth::json_get(&v, "a"), Some(&JsonValue::Int(1)));
    assert_eq!(codex_auth::json_get(&v, "c"), None);
    assert_eq!(codex_auth::json_get(&JsonValue::Int(3), "a"), None);
}

#[test]
fn set_replaces_in_place_and_appends_new_keys() {
    let es = entries(vec![("a", JsonValue::Int(1)), ("b", JsonValue::Int(2))]);
    let es = codex_auth::obj_set(es, String::from("a"), JsonValue::Int(10));
    // replaced without moving: `a` still first
    assert_eq!(es[0], (String::from("a"), JsonValue::Int(10)));
    assert_eq!(es.len(), 2);
    let es = codex_auth::obj_set(es, String::from("c"), JsonValue::Null);
    assert_eq!(es[2], (String::from("c"), JsonValue::Null));
}

#[test]
fn lookup_reads_the_last_duplicate() {
    let v = JsonValue::Obj(entries(vec![("k", JsonValue::Int(1)), ("k", JsonValue::Int(2))]));
    assert_eq!(codex_auth::json_get(&v, "k"), Some(&JsonValue::Int(2)));
}

#[test]
fn expiry_boundary_is_strict() {
    // exactly the margin away: not expiring; one second less: expiring
    assert!(!codex_auth::is_expiring_at(10_600, 10_000));
    assert!(codex_auth::is_expiring_at(10_599, 10_000));
    // unknown (zero or negative) never expires
    assert!(!codex_auth::is_expiring_at(0, 10_000));
    assert!(!codex_auth::is_expiring_at(-5, 10_000));
}
