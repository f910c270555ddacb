use vstd::prelude::*;
use vstd::string::StringExecFns;

use crate::json::JsonValue;
use crate::json::json_get;
use crate::json::obj_lookup;
use crate::json::obj_set;
use crate::json::lemma_obj_lookup_absent;
use crate::json::lemma_obj_lookup_at;
use crate::json::lemma_obj_lookup_update;
use crate::oauth::TokenResponse;
use crate::text::str_eq;

verus! {

/// One stored account, as the refresh scheduler snapshots it out of the
/// shared store: identity, the refresh token if one is on file, and the
/// structured token record.
#[derive(Debug, PartialEq, Eq)]
pub struct Account {
    pub id: String,
    pub name: String,
    pub refresh_token: Option<String>,
    pub auth_json: JsonValue,
}

/// Tokens within ten minutes of expiry are renewed early.
pub const EXPIRY_MARGIN_SECS: i64 = 600;

/// The largest timestamp the scheduler will format, the last second of year
/// 9999; chrono represents every timestamp between zero and this bound.
pub const MAX_FORMATTED_TS: i64 = 253402300799;

// ---------------------------------------------------------------------------
// Timestamps, through the chrono crate
// ---------------------------------------------------------------------------

/// The epoch seconds an RFC 3339 string denotes, or nothing when it does
/// not parse.
pub uninterp spec fn rfc3339_ts_of(s: Seq<char>) -> Option<i64>;

/// The RFC 3339 rendering, in UTC, of an epoch timestamp.
pub uninterp spec fn rfc3339_utc_of(ts: i64) -> Seq<char>;

/// Relies on chrono's `DateTime::parse_from_rfc3339` and `timestamp`: the
/// result is determined by the string alone.
#[verifier::external_body]
fn parse_rfc3339_ts(s: &str) -> (r: Option<i64>)
    ensures
        r == rfc3339_ts_of(s@),
{
    match chrono::DateTime::parse_from_rfc3339(s) {
        Ok(dt) => Some(dt.timestamp()),
        Err(_) => None,
    }
}

/// Relies on chrono's `DateTime::from_timestamp` and `to_rfc3339`: within
/// the documented range the timestamp converts, and the rendering is
/// determined by the timestamp alone.
#[verifier::external_body]
fn rfc3339_from_ts(ts: i64) -> (r: String)
    requires
        0 <= ts <= MAX_FORMATTED_TS,
    ensures
        r@ == rfc3339_utc_of(ts),
{
    match chrono::DateTime::from_timestamp(ts, 0) {
        Some(dt) => dt.to_rfc3339(),
        None => String::new(),
    }
}

/// A timestamp clamped into the range the scheduler formats.
pub open spec fn clamp_ts(t: int) -> i64 {
    if t < 0 {
        0
    } else if t > 253402300799 {
        253402300799
    } else {
        t as i64
    }
}

fn clamp_ts_exec(t: i64) -> (r: i64)
    ensures
        r == clamp_ts(t as int),
{
    if t < 0 {
        0
    } else if t > MAX_FORMATTED_TS {
        MAX_FORMATTED_TS
    } else {
        t
    }
}

/// The new expiry: now plus the granted lifetime, an hour when none was
/// granted, clamped into formattable range.
pub open spec fn spec_expiry_ts(now: i64, expires_in: Option<u64>) -> i64 {
    clamp_ts(
        now + (match expires_in {
            Some(e) => e as int,
            None => 3600,
        }),
    )
}

fn expiry_ts(now: i64, expires_in: &Option<u64>) -> (r: i64)
    ensures
        r == spec_expiry_ts(now, *expires_in),
{
    let e: u64 = match expires_in {
        Some(e) => *e,
        None => 3600,
    };
    let sum = match now.checked_add_unsigned(e) {
        Some(v) => v,
        None => i64::MAX,
    };
    clamp_ts_exec(sum)
}

// ---------------------------------------------------------------------------
// Expiry detection
// ---------------------------------------------------------------------------

/// The `expires_at` value the scheduler reads: nested under `tokens` first,
/// then at the top level.
pub open spec fn spec_expires_at_value(auth: JsonValue) -> Option<JsonValue> {
    if auth is Obj {
        let nested = match obj_lookup(auth->Obj_0@, "tokens"@) {
            Some(JsonValue::Obj(inner)) => obj_lookup(inner@, "expires_at"@),
            _ => None,
        };
        if nested is Some {
            nested
        } else {
            obj_lookup(auth->Obj_0@, "expires_at"@)
        }
    } else {
        None
    }
}

/// The expiry timestamp a token record denotes: an integer as it stands, a
/// string through RFC 3339, anything unparsable or missing as zero, which
/// never counts as expiring.
pub open spec fn spec_expiry_timestamp(auth: JsonValue) -> int {
    match spec_expires_at_value(auth) {
        Some(JsonValue::Int(i)) => i as int,
        Some(JsonValue::Str(s)) => match rfc3339_ts_of(s@) {
            Some(t) => t as int,
            None => 0,
        },
        _ => 0,
    }
}

/// Expiring soon: a known, positive expiry less than ten minutes away
/// (already-expired counts as expiring).
pub open spec fn spec_is_expiring(auth: JsonValue, now: i64) -> bool {
    spec_expiry_timestamp(auth) > 0 && spec_expiry_timestamp(auth) - now < 600
}

/// Whether a known expiry timestamp is within the renewal margin of `now`.
pub fn is_expiring_at(ts: i64, now: i64) -> (r: bool)
    ensures
        r == (ts > 0 && ts - now < 600),
{
    if ts <= 0 {
        return false;
    }
    match ts.checked_sub(now) {
        Some(rem) => rem < EXPIRY_MARGIN_SECS,
        None => false,
    }
}

/// Decide whether an account's token record is within ten minutes of
/// expiry at time `now`.
pub fn is_token_expiring_soon(auth_json: &JsonValue, now: i64) -> (r: bool)
    ensures
        r == spec_is_expiring(*auth_json, now),
{
    let nested = match json_get(auth_json, "tokens") {
        Some(tokens) => json_get(tokens, "expires_at"),
        None => None,
    };
    let value = match nested {
        Some(v) => Some(v),
        None => json_get(auth_json, "expires_at"),
    };
    let ts: i64 = match value {
        Some(JsonValue::Int(i)) => *i,
        Some(JsonValue::Str(s)) => match parse_rfc3339_ts(s.as_str()) {
            Some(t) => t,
            None => 0,
        },
        _ => 0,
    };
    is_expiring_at(ts, now)
}

// ---------------------------------------------------------------------------
// Merging a refresh back into the token record
// ---------------------------------------------------------------------------

/// What the fresh `tokens` object must say after a refresh.
pub open spec fn tokens_updated(
    ts0: Seq<(String, JsonValue)>,
    ts1: Seq<(String, JsonValue)>,
    tok: TokenResponse,
    now: i64,
) -> bool {
    &&& forall|k2: Seq<char>|
        k2 != "access_token"@ && k2 != "refresh_token"@ && k2 != "id_token"@ && k2
            != "expires_at"@ ==> #[trigger] obj_lookup(ts1, k2) == obj_lookup(ts0, k2)
    &&& obj_lookup(ts1, "access_token"@) == Some(JsonValue::Str(tok.access_token))
    &&& (tok.refresh_token matches Some(rt) ==> obj_lookup(ts1, "refresh_token"@) == Some(
        JsonValue::Str(rt),
    ))
    &&& (tok.refresh_token is None ==> obj_lookup(ts1, "refresh_token"@) == obj_lookup(
        ts0,
        "refresh_token"@,
    ))
    &&& (tok.id_token matches Some(it) ==> obj_lookup(ts1, "id_token"@) == Some(
        JsonValue::Str(it),
    ))
    &&& (tok.id_token is None ==> obj_lookup(ts1, "id_token"@) == obj_lookup(ts0, "id_token"@))
    &&& (obj_lookup(ts1, "expires_at"@) matches Some(v) && v matches JsonValue::Str(e) && e@
        == rfc3339_utc_of(spec_expiry_ts(now, tok.expires_in)))
}

/// The `tokens` object rebuilt from scratch when the record had none.
pub open spec fn tokens_rebuilt(
    ts1: Seq<(String, JsonValue)>,
    tok: TokenResponse,
    now: i64,
) -> bool {
    &&& obj_lookup(ts1, "access_token"@) == Some(JsonValue::Str(tok.access_token))
    &&& obj_lookup(ts1, "refresh_token"@) == Some(
        match tok.refresh_token {
            Some(rt) => JsonValue::Str(rt),
            None => JsonValue::Null,
        },
    )
    &&& obj_lookup(ts1, "id_token"@) == Some(
        match tok.id_token {
            Some(it) => JsonValue::Str(it),
            None => JsonValue::Null,
        },
    )
    &&& (obj_lookup(ts1, "expires_at"@) matches Some(v) && v matches JsonValue::Str(e) && e@
        == rfc3339_utc_of(spec_expiry_ts(now, tok.expires_in)))
}

/// Everything a merged token record owes: every top-level field other than
/// `last_refresh` and `tokens` kept untouched, a fresh `last_refresh`
/// stamp, and the `tokens` object renewed in place — its own unrelated
/// fields kept — or rebuilt when the old record had no `tokens` object.
/// A record that is not a JSON object is handed back unchanged.
pub open spec fn merged_auth_ok(
    old_auth: JsonValue,
    new_auth: JsonValue,
    tok: TokenResponse,
    now: i64,
) -> bool {
    if old_auth is Obj {
        let es0 = old_auth->Obj_0@;
        &&& new_auth is Obj
        &&& forall|k2: Seq<char>|
            k2 != "last_refresh"@ && k2 != "tokens"@ ==> #[trigger] obj_lookup(
                new_auth->Obj_0@,
                k2,
            ) == obj_lookup(es0, k2)
        &&& (obj_lookup(new_auth->Obj_0@, "last_refresh"@) matches Some(v)
            && v matches JsonValue::Str(s) && s@ == rfc3339_utc_of(clamp_ts(now as int)))
        &&& (obj_lookup(new_auth->Obj_0@, "tokens"@) matches Some(tv)
            && tv matches JsonValue::Obj(inner1) && {
            match obj_lookup(es0, "tokens"@) {
                Some(JsonValue::Obj(inner0)) => tokens_updated(inner0@, inner1@, tok, now),
                _ => tokens_rebuilt(inner1@, tok, now),
            }
        })
    } else {
        new_auth == old_auth
    }
}

/// The six keys the merge writes or skirts are pairwise distinct.
proof fn lemma_distinct_keys()
    ensures
        "tokens"@ != "last_refresh"@,
        "tokens"@ != "access_token"@,
        "tokens"@ != "refresh_token"@,
        "tokens"@ != "id_token"@,
        "tokens"@ != "expires_at"@,
        "access_token"@ != "refresh_token"@,
        "access_token"@ != "id_token"@,
        "access_token"@ != "expires_at"@,
        "refresh_token"@ != "id_token"@,
        "refresh_token"@ != "expires_at"@,
        "id_token"@ != "expires_at"@,
        "last_refresh"@ != "expires_at"@,
        "last_refresh"@ != "id_token"@,
        "last_refresh"@ != "refresh_token"@,
{
    broadcast use vstd::string::group_string_axioms;

    reveal_strlit("tokens");
    reveal_strlit("last_refresh");
    reveal_strlit("access_token");
    reveal_strlit("refresh_token");
    reveal_strlit("id_token");
    reveal_strlit("expires_at");
    assert("tokens"@.len() == 6);
    assert("last_refresh"@.len() == 12);
    assert("access_token"@.len() == 12);
    assert("refresh_token"@.len() == 13);
    assert("id_token"@.len() == 8);
    assert("expires_at"@.len() == 10);
    assert("access_token"@[0] == 'a' && "last_refresh"@[0] == 'l');
}

/// Write the renewed token fields into an existing `tokens` object,
/// leaving its other fields as they were.
fn set_token_fields(
    inner: Vec<(String, JsonValue)>,
    tok: &TokenResponse,
    exp_iso: String,
    now: i64,
) -> (r: Vec<(String, JsonValue)>)
    requires
        exp_iso@ == rfc3339_utc_of(spec_expiry_ts(now, tok.expires_in)),
    ensures
        tokens_updated(inner@, r@, *tok, now),
{
    proof {
        lemma_distinct_keys();
    }
    let inner = obj_set(
        inner,
        String::from_str("access_token"),
        JsonValue::Str(tok.access_token.clone()),
    );
    let inner = match &tok.refresh_token {
        Some(rt) => obj_set(inner, String::from_str("refresh_token"), JsonValue::Str(rt.clone())),
        None => inner,
    };
    let inner = match &tok.id_token {
        Some(it) => obj_set(inner, String::from_str("id_token"), JsonValue::Str(it.clone())),
        None => inner,
    };
    let inner = obj_set(inner, String::from_str("expires_at"), JsonValue::Str(exp_iso));
    inner
}

/// Build a fresh `tokens` object when the old record carried none.
fn fresh_tokens_obj(tok: &TokenResponse, exp_iso: String, now: i64) -> (r: Vec<
    (String, JsonValue),
>)
    requires
        exp_iso@ == rfc3339_utc_of(spec_expiry_ts(now, tok.expires_in)),
    ensures
        tokens_rebuilt(r@, *tok, now),
{
    proof {
        lemma_distinct_keys();
    }
    let empty: Vec<(String, JsonValue)> = Vec::new();
    let v = obj_set(
        empty,
        String::from_str("access_token"),
        JsonValue::Str(tok.access_token.clone()),
    );
    let v = obj_set(
        v,
        String::from_str("refresh_token"),
        match &tok.refresh_token {
            Some(rt) => JsonValue::Str(rt.clone()),
            None => JsonValue::Null,
        },
    );
    let v = obj_set(
        v,
        String::from_str("id_token"),
        match &tok.id_token {
            Some(it) => JsonValue::Str(it.clone()),
            None => JsonValue::Null,
        },
    );
    let v = obj_set(v, String::from_str("expires_at"), JsonValue::Str(exp_iso));
    v
}

/// Merge a successful refresh into an account's token record: stamp
/// `last_refresh`, renew the `tokens` fields in place, and keep every
/// unrelated field — at both levels — exactly as it was.
pub fn merge_refreshed_auth(old_auth: JsonValue, tok: &TokenResponse, now: i64) -> (r: JsonValue)
    ensures
        merged_auth_ok(old_auth, r, *tok, now),
{
    proof {
        lemma_distinct_keys();
    }
    let entries = match old_auth {
        JsonValue::Obj(entries) => entries,
        other => {
            return other;
        },
    };
    let ghost es0 = entries@;
    let stamp = rfc3339_from_ts(clamp_ts_exec(now));
    let es = obj_set(entries, String::from_str("last_refresh"), JsonValue::Str(stamp));
    let exp_iso = rfc3339_from_ts(expiry_ts(now, &tok.expires_in));
    let idx_opt = obj_find_last(&es, "tokens");
    match idx_opt {
        Some(idx) => {
            proof {
                lemma_obj_lookup_at(es@, "tokens"@, idx as int);
            }
            let value_is_obj = match &es[idx].1 {
                JsonValue::Obj(_) => true,
                _ => false,
            };
            if value_is_obj {
                let ghost es_before = es@;
                let mut head = es;
                let mut tail = head.split_off(idx);
                let pair = tail.remove(0);
                let inner = match pair.1 {
                    JsonValue::Obj(inner) => inner,
                    _ => {
                        proof {
                            assert(false);
                        }
                        Vec::new()
                    },
                };
                let inner2 = set_token_fields(inner, tok, exp_iso, now);
                head.push((pair.0, JsonValue::Obj(inner2)));
                head.append(&mut tail);
                proof {
                    assert(head@ =~= es_before.update(
                        idx as int,
                        (es_before[idx as int].0, JsonValue::Obj(inner2)),
                    ));
                    lemma_obj_lookup_update(
                        es_before,
                        idx as int,
                        JsonValue::Obj(inner2),
                        "tokens"@,
                    );
                }
                JsonValue::Obj(head)
            } else {
                let fresh = fresh_tokens_obj(tok, exp_iso, now);
                let es2 = obj_set(es, String::from_str("tokens"), JsonValue::Obj(fresh));
                JsonValue::Obj(es2)
            }
        },
        None => {
            proof {
                lemma_obj_lookup_absent(es@, "tokens"@);
            }
            let fresh = fresh_tokens_obj(tok, exp_iso, now);
            let es2 = obj_set(es, String::from_str("tokens"), JsonValue::Obj(fresh));
            JsonValue::Obj(es2)
        },
    }
}

// ---------------------------------------------------------------------------
// One scheduler tick
// ---------------------------------------------------------------------------

/// An account is due for renewal when it has a refresh token on file and
/// its record is expiring soon.
pub open spec fn needs_refresh(a: Account, now: i64) -> bool {
    a.refresh_token is Some && spec_is_expiring(a.auth_json, now)
}

/// The indices of the accounts a scan at time `now` must try to refresh,
/// in order: exactly those with a refresh token and a token near expiry.
#[verifier::loop_isolation(false)]
pub fn plan_refreshes(accounts: &Vec<Account>, now: i64) -> (r: Vec<usize>)
    ensures
        forall|k: int|
            0 <= k < r@.len() ==> r@[k] < accounts@.len() && needs_refresh(
                accounts@[r@[k] as int],
                now,
            ),
        forall|k1: int, k2: int| 0 <= k1 < k2 < r@.len() ==> r@[k1] < r@[k2],
        forall|i: int|
            0 <= i < accounts@.len() && needs_refresh(accounts@[i], now) ==> r@.contains(
                i as usize,
            ),
{
    let mut r: Vec<usize> = Vec::new();
    let mut i: usize = 0;
    while i < accounts.len()
        invariant
            0 <= i <= accounts@.len(),
            forall|k: int|
                0 <= k < r@.len() ==> r@[k] < i && needs_refresh(accounts@[r@[k] as int], now),
            forall|k1: int, k2: int| 0 <= k1 < k2 < r@.len() ==> r@[k1] < r@[k2],
            forall|j: int|
                0 <= j < i && needs_refresh(accounts@[j], now) ==> r@.contains(j as usize),
        decreases accounts@.len() - i,
    {
        let account = &accounts[i];
        if account.refresh_token.is_some() && is_token_expiring_soon(&account.auth_json, now) {
            let ghost r_old = r@;
            r.push(i);
            proof {
                assert(r@[r@.len() - 1] == i);
                assert(forall|j: int|
                    0 <= j < r_old.len() ==> r@[j] == r_old[j] && r_old.contains(r_old[j]));
                assert(forall|x: usize| r_old.contains(x) ==> r@.contains(x));
            }
        }
        i += 1;
    }
    r
}

/// How an account leaves one scan: refreshed exactly when it was due and
/// the provider answered, identity and refresh token kept either way.
pub open spec fn account_refreshed(
    before: Account,
    after: Account,
    tok: TokenResponse,
    now: i64,
) -> bool {
    &&& after.id == before.id
    &&& after.name == before.name
    &&& after.refresh_token == before.refresh_token
    &&& merged_auth_ok(before.auth_json, after.auth_json, tok, now)
}

/// How many accounts of the first `i` a scan refreshes: those due whose
/// outcome arrived.
pub open spec fn spec_refresh_count(
    accounts: Seq<Account>,
    outcomes: Seq<Option<TokenResponse>>,
    now: i64,
    i: int,
) -> int
    decreases i,
{
    if i <= 0 {
        0
    } else {
        spec_refresh_count(accounts, outcomes, now, i - 1) + if needs_refresh(
            accounts[i - 1],
            now,
        ) && outcomes[i - 1] is Some {
            1int
        } else {
            0int
        }
    }
}

proof fn lemma_refresh_count_bound(
    accounts: Seq<Account>,
    outcomes: Seq<Option<TokenResponse>>,
    now: i64,
    i: int,
)
    requires
        i >= 0,
    ensures
        0 <= spec_refresh_count(accounts, outcomes, now, i) <= i,
    decreases i,
{
    if i > 0 {
        lemma_refresh_count_bound(accounts, outcomes, now, i - 1);
    }
}

/// Apply one scan's outcomes to the snapshot: account `i` is renewed
/// exactly when it was due for refresh and `outcomes[i]` carries the
/// provider's reply; a failed or unneeded refresh leaves the account
/// untouched, whatever happened to the others. The count of renewals
/// decides whether observers are notified, once per scan.
#[verifier::loop_isolation(false)]
pub fn run_scan_tick(accounts: Vec<Account>, outcomes: Vec<Option<TokenResponse>>, now: i64) -> (r:
    (Vec<Account>, usize))
    requires
        outcomes@.len() == accounts@.len(),
    ensures
        r.0@.len() == accounts@.len(),
        forall|i: int|
            0 <= i < accounts@.len() && !(needs_refresh(accounts@[i], now) && outcomes@[i]
                is Some) ==> r.0@[i] == accounts@[i],
        forall|i: int|
            0 <= i < accounts@.len() && needs_refresh(accounts@[i], now) && outcomes@[i]
                is Some ==> account_refreshed(accounts@[i], r.0@[i], outcomes@[i]->0, now),
        r.1 as int == spec_refresh_count(accounts@, outcomes@, now, accounts@.len() as int),
{
    let ghost accs = accounts@;
    let ghost outs = outcomes@;
    let mut rem_a = accounts;
    let mut rem_o = outcomes;
    let mut out: Vec<Account> = Vec::new();
    let mut refreshed: usize = 0;
    let n = rem_a.len();
    while rem_a.len() > 0
        invariant
            n as int == accs.len(),
            rem_a@.len() == rem_o@.len(),
            out@.len() + rem_a@.len() == accs.len(),
            rem_a@ == accs.skip(out@.len() as int),
            rem_o@ == outs.skip(out@.len() as int),
            forall|i: int|
                0 <= i < out@.len() && !(needs_refresh(accs[i], now) && outs[i] is Some)
                    ==> out@[i] == accs[i],
            forall|i: int|
                0 <= i < out@.len() && needs_refresh(accs[i], now) && outs[i] is Some
                    ==> account_refreshed(accs[i], out@[i], outs[i]->0, now),
            refreshed as int <= out@.len(),
            refreshed as int == spec_refresh_count(accs, outs, now, out@.len() as int),
        decreases rem_a@.len(),
    {
        let ghost i = out@.len() as int;
        proof {
            lemma_refresh_count_bound(accs, outs, now, i);
            assert(rem_a@[0] == accs[i]);
            assert(rem_o@[0] == outs[i]);
        }
        let account = rem_a.remove(0);
        let outcome = rem_o.remove(0);
        let due = account.refresh_token.is_some() && is_token_expiring_soon(
            &account.auth_json,
            now,
        );
        match outcome {
            Some(tok) if due => {
                let Account { id, name, refresh_token, auth_json } = account;
                let new_auth = merge_refreshed_auth(auth_json, &tok, now);
                out.push(Account { id, name, refresh_token, auth_json: new_auth });
                refreshed += 1;
            },
            _ => {
                out.push(account);
            },
        }
        proof {
            assert(accs.skip(i).drop_first() =~= accs.skip(i + 1));
            assert(outs.skip(i).drop_first() =~= outs.skip(i + 1));
        }
    }
    proof {
        assert(out@.len() == accs.len());
    }
    (out, refreshed)
}

/// Find the entry lookup reads for `key`, if any.
#[verifier::loop_isolation(false)]
fn obj_find_last(entries: &Vec<(String, JsonValue)>, key: &str) -> (r: Option<usize>)
    ensures
        match r {
            Some(i) => i < entries@.len() && entries@[i as int].0@ == key@ && (forall|t: int|
                i < t < entries@.len() ==> entries@[t].0@ != key@),
            None => forall|t: int| 0 <= t < entries@.len() ==> entries@[t].0@ != key@,
        },
{
    let mut i: usize = entries.len();
    while i > 0
        invariant
            0 <= i <= entries@.len(),
            forall|t: int| i <= t < entries@.len() ==> entries@[t].0@ != key@,
        decreases i,
    {
        i = i - 1;
        if str_eq(entries[i].0.as_str(), key) {
            return Some(i);
        }
    }
    None
}

} // verus!
