use vstd::prelude::*;
use vstd::string::StrSliceExecFns;
use vstd::string::StringExecFns;

use crate::errors::AuthError;
use crate::text::first_in;
use crate::text::first_not_in;
use crate::text::str_eq;

verus! {

// ---------------------------------------------------------------------------
// Query-pair extraction, through the url crate
// ---------------------------------------------------------------------------

/// The query pairs a URL string parses to, percent-decoded in order, or
/// nothing when the string is not a URL.
pub uninterp spec fn query_pairs_of(url: Seq<char>) -> Option<Seq<(Seq<char>, Seq<char>)>>;

/// Relies on url's `Url::parse` and `query_pairs`: the pairs are determined
/// by the URL string alone.
#[verifier::external_body]
fn parse_query_pairs(url: &str) -> (r: Option<Vec<(String, String)>>)
    ensures
        match r {
            Some(v) => query_pairs_of(url@) == Some(v.deep_view()),
            None => query_pairs_of(url@) is None,
        },
{
    match url::Url::parse(url) {
        Ok(u) => Some(u.query_pairs().into_owned().collect()),
        Err(_) => None,
    }
}

// ---------------------------------------------------------------------------
// Parameter lookup
// ---------------------------------------------------------------------------

/// The value of the last pair carrying `key`, as a map collected from the
/// pairs would hold it.
pub open spec fn last_param(pairs: Seq<(Seq<char>, Seq<char>)>, key: Seq<char>) -> Option<
    Seq<char>,
>
    decreases pairs.len(),
{
    if pairs.len() == 0 {
        None
    } else if pairs.last().0 == key {
        Some(pairs.last().1)
    } else {
        last_param(pairs.drop_last(), key)
    }
}

proof fn lemma_last_param_absent(pairs: Seq<(Seq<char>, Seq<char>)>, key: Seq<char>)
    requires
        forall|j: int| 0 <= j < pairs.len() ==> pairs[j].0 != key,
    ensures
        last_param(pairs, key) is None,
    decreases pairs.len(),
{
    if pairs.len() > 0 {
        lemma_last_param_absent(pairs.drop_last(), key);
    }
}

proof fn lemma_last_param_at(pairs: Seq<(Seq<char>, Seq<char>)>, key: Seq<char>, i: int)
    requires
        0 <= i < pairs.len(),
        pairs[i].0 == key,
        forall|j: int| i < j < pairs.len() ==> pairs[j].0 != key,
    ensures
        last_param(pairs, key) == Some(pairs[i].1),
    decreases pairs.len(),
{
    if i < pairs.len() - 1 {
        lemma_last_param_at(pairs.drop_last(), key, i);
    }
}

/// Find the parameter `key` among the extracted query pairs, the last
/// occurrence winning.
#[verifier::loop_isolation(false)]
pub fn lookup_param(pairs: &Vec<(String, String)>, key: &str) -> (r: Option<String>)
    ensures
        match r {
            Some(s) => last_param(pairs.deep_view(), key@) == Some(s@),
            None => last_param(pairs.deep_view(), key@) is None,
        },
{
    let ghost pv = pairs.deep_view();
    proof {
        assert(forall|t: int|
            0 <= t < pairs@.len() ==> #[trigger] pv[t] == (pairs@[t].0@, pairs@[t].1@));
    }
    let mut i: usize = pairs.len();
    while i > 0
        invariant
            0 <= i <= pairs@.len(),
            forall|t: int| i <= t < pv.len() ==> pv[t].0 != key@,
        decreases i,
    {
        i = i - 1;
        if str_eq(pairs[i].0.as_str(), key) {
            proof {
                lemma_last_param_at(pv, key@, i as int);
            }
            return Some(pairs[i].1.clone());
        }
    }
    proof {
        lemma_last_param_absent(pv, key@);
    }
    None
}

// ---------------------------------------------------------------------------
// Validation
// ---------------------------------------------------------------------------

/// What the callback owes for given query pairs: the code, exactly when a
/// code is present and the state echoes the expected token byte for byte;
/// a missing code or state is `MissingParameters`, a state that differs is
/// `StateMismatch`.
pub open spec fn spec_validate(pairs: Seq<(Seq<char>, Seq<char>)>, expected_state: Seq<char>) -> Result<
    Seq<char>,
    AuthError,
> {
    let code = last_param(pairs, "code"@);
    let st = last_param(pairs, "state"@);
    if code is None || st is None {
        Err(AuthError::MissingParameters)
    } else if st->0 != expected_state {
        Err(AuthError::StateMismatch)
    } else {
        Ok(code->0)
    }
}

/// Validate one callback's query pairs against the expected state token.
pub fn validate_callback(pairs: &Vec<(String, String)>, expected_state: &str) -> (r: Result<
    String,
    AuthError,
>)
    ensures
        r is Ok <==> spec_validate(pairs.deep_view(), expected_state@) is Ok,
        spec_validate(pairs.deep_view(), expected_state@) matches Ok(cv) ==> r matches Ok(c)
            && c@ == cv,
        spec_validate(pairs.deep_view(), expected_state@) matches Err(e) ==> r == Err::<
            String,
            AuthError,
        >(e),
{
    let code = lookup_param(pairs, "code");
    let st = lookup_param(pairs, "state");
    match (code, st) {
        (Some(c), Some(s)) => {
            if str_eq(s.as_str(), expected_state) {
                Ok(c)
            } else {
                Err(AuthError::StateMismatch)
            }
        },
        _ => Err(AuthError::MissingParameters),
    }
}

/// A callback carrying a state token other than the expected one never
/// validates, whatever else it carries: a login superseded or restarted
/// leaves its old redirect worthless.
pub proof fn lemma_stale_state_rejected(
    pairs: Seq<(Seq<char>, Seq<char>)>,
    stale: Seq<char>,
    expected_state: Seq<char>,
)
    requires
        last_param(pairs, "state"@) == Some(stale),
        stale != expected_state,
    ensures
        spec_validate(pairs, expected_state) is Err,
{
}

// ---------------------------------------------------------------------------
// The raw HTTP request
// ---------------------------------------------------------------------------

/// The request path: the second whitespace-separated token of the first
/// line, as in `GET /auth/callback?... HTTP/1.1`.
pub open spec fn spec_request_path(req: Seq<char>) -> Option<Seq<char>> {
    let line = req.take(first_in(req, 0, set!['\r', '\n']));
    let t1s = first_not_in(line, 0, set![' ', '\t']);
    let t1e = first_in(line, t1s, set![' ', '\t']);
    let t2s = first_not_in(line, t1e, set![' ', '\t']);
    let t2e = first_in(line, t2s, set![' ', '\t']);
    if t2s < t2e {
        Some(line.subrange(t2s, t2e))
    } else {
        None
    }
}

/// Extract the request path from a raw HTTP request.
#[verifier::loop_isolation(false)]
pub fn request_path(req: &str) -> (r: Option<String>)
    ensures
        match r {
            Some(p) => spec_request_path(req@) == Some(p@),
            None => spec_request_path(req@) is None,
        },
{
    let n = req.unicode_len();
    // end of the first line
    let mut le: usize = 0;
    while le < n && req.get_char(le) != '\r' && req.get_char(le) != '\n'
        invariant
            0 <= le <= n,
            first_in(req@, 0, set!['\r', '\n']) == first_in(req@, le as int, set!['\r', '\n']),
        decreases n - le,
    {
        le += 1;
    }
    let line = req.substring_char(0, le);
    let ghost lv = req@.take(first_in(req@, 0, set!['\r', '\n']));
    proof {
        assert(line@ =~= lv);
    }
    // first token: skip spaces, then skip the token
    let mut t1s: usize = 0;
    while t1s < le && (req.get_char(t1s) == ' ' || req.get_char(t1s) == '\t')
        invariant
            0 <= t1s <= le,
            first_not_in(lv, 0, set![' ', '\t']) == first_not_in(lv, t1s as int, set![' ', '\t']),
        decreases le - t1s,
    {
        t1s += 1;
    }
    let mut t1e: usize = t1s;
    while t1e < le && req.get_char(t1e) != ' ' && req.get_char(t1e) != '\t'
        invariant
            t1s <= t1e <= le,
            first_in(lv, t1s as int, set![' ', '\t']) == first_in(lv, t1e as int, set![' ', '\t']),
        decreases le - t1e,
    {
        t1e += 1;
    }
    // second token
    let mut t2s: usize = t1e;
    while t2s < le && (req.get_char(t2s) == ' ' || req.get_char(t2s) == '\t')
        invariant
            t1e <= t2s <= le,
            first_not_in(lv, t1e as int, set![' ', '\t']) == first_not_in(
                lv,
                t2s as int,
                set![' ', '\t'],
            ),
        decreases le - t2s,
    {
        t2s += 1;
    }
    let mut t2e: usize = t2s;
    while t2e < le && req.get_char(t2e) != ' ' && req.get_char(t2e) != '\t'
        invariant
            t2s <= t2e <= le,
            first_in(lv, t2s as int, set![' ', '\t']) == first_in(lv, t2e as int, set![' ', '\t']),
        decreases le - t2e,
    {
        t2e += 1;
    }
    if t2s < t2e {
        let p = line.substring_char(t2s, t2e);
        proof {
            assert(p@ =~= lv.subrange(t2s as int, t2e as int));
        }
        Some(String::from_str(p))
    } else {
        None
    }
}

// ---------------------------------------------------------------------------
// The one callback, end to end
// ---------------------------------------------------------------------------

/// The page sent on a validated callback.
pub open spec fn spec_success_response() -> Seq<char> {
    "HTTP/1.1 200 OK\r\nContent-Type: text/html; charset=utf-8\r\n\r\n<html><body><h1>Login successful</h1><p>You are connected. You can close this window and return to the app.</p></body></html>"@
}

/// The reply sent on a rejected callback.
pub open spec fn spec_error_response() -> Seq<char> {
    "HTTP/1.1 400 Bad Request\r\n\r\nLogin failed: the state token did not match or a parameter was missing."@
}

/// What the whole callback owes for a raw request: the path is parsed as a
/// URL against the loopback host, its query pairs are extracted, and the
/// code is surfaced exactly when validation passes.
pub open spec fn spec_callback_result(req: Seq<char>, expected_state: Seq<char>) -> Result<
    Seq<char>,
    AuthError,
> {
    match spec_request_path(req) {
        None => Err(AuthError::MissingParameters),
        Some(p) => match query_pairs_of("http://localhost"@ + p) {
            None => Err(AuthError::MissingParameters),
            Some(pairs) => spec_validate(pairs, expected_state),
        },
    }
}

/// The outcome of serving the single callback: what is surfaced to the
/// caller, and the HTTP reply written back on the socket.
pub struct CallbackReply {
    pub result: Result<String, AuthError>,
    pub http_response: String,
}

/// Serve one captured callback request: parse the request line, extract and
/// validate the query parameters, and choose the HTTP reply. Exactly one
/// callback is served per listener; the caller writes `http_response` back
/// and discards the listener.
pub fn handle_callback(request: &str, expected_state: &str) -> (r: CallbackReply)
    ensures
        r.result is Ok <==> spec_callback_result(request@, expected_state@) is Ok,
        spec_callback_result(request@, expected_state@) matches Ok(cv) ==> r.result matches Ok(c)
            && c@ == cv,
        spec_callback_result(request@, expected_state@) matches Err(e) ==> r.result == Err::<
            String,
            AuthError,
        >(e),
        r.result is Ok ==> r.http_response@ == spec_success_response(),
        r.result is Err ==> r.http_response@ == spec_error_response(),
{
    let outcome: Result<String, AuthError> = match request_path(request) {
        None => Err(AuthError::MissingParameters),
        Some(path) => {
            let url_string = String::from_str("http://localhost").concat(path.as_str());
            match parse_query_pairs(url_string.as_str()) {
                None => Err(AuthError::MissingParameters),
                Some(pairs) => validate_callback(&pairs, expected_state),
            }
        },
    };
    if outcome.is_ok() {
        CallbackReply {
            result: outcome,
            http_response: String::from_str(
                "HTTP/1.1 200 OK\r\nContent-Type: text/html; charset=utf-8\r\n\r\n<html><body><h1>Login successful</h1><p>You are connected. You can close this window and return to the app.</p></body></html>",
            ),
        }
    } else {
        CallbackReply {
            result: outcome,
            http_response: String::from_str(
                "HTTP/1.1 400 Bad Request\r\n\r\nLogin failed: the state token did not match or a parameter was missing.",
            ),
        }
    }
}

} // verus!

