use vstd::prelude::*;
use vstd::string::StrSliceExecFns;
use vstd::string::StringExecFns;
use base64::Engine;
use rand::RngCore;
use sha2::Digest;

use crate::errors::AuthError;
use crate::json::JsonValue;
use crate::json::json_get;
use crate::json::obj_lookup;
use crate::text::first_in;
use crate::text::percent_encode;
use crate::text::percent_encoded;
use crate::text::push_bytes;

verus! {

// ---------------------------------------------------------------------------
// Provider identity
// ---------------------------------------------------------------------------

/// The fixed client identifier registered with the identity provider.
pub open spec fn spec_client_id() -> Seq<char> {
    "app_EMoamEEZ73f0CkXaXp7hrann"@
}

pub fn client_id() -> (r: &'static str)
    ensures
        r@ == spec_client_id(),
{
    "app_EMoamEEZ73f0CkXaXp7hrann"
}

/// The provider's authorization endpoint.
pub open spec fn spec_auth_url() -> Seq<char> {
    "https://auth.openai.com/oauth/authorize"@
}

pub fn auth_url() -> (r: &'static str)
    ensures
        r@ == spec_auth_url(),
{
    "https://auth.openai.com/oauth/authorize"
}

/// The provider's token endpoint.
pub open spec fn spec_token_url() -> Seq<char> {
    "https://auth.openai.com/oauth/token"@
}

pub fn token_url() -> (r: &'static str)
    ensures
        r@ == spec_token_url(),
{
    "https://auth.openai.com/oauth/token"
}

/// The fixed scope set requested on login and on refresh.
pub open spec fn spec_oauth_scope() -> Seq<char> {
    "openid profile email offline_access"@
}

pub fn oauth_scope() -> (r: &'static str)
    ensures
        r@ == spec_oauth_scope(),
{
    "openid profile email offline_access"
}

// ---------------------------------------------------------------------------
// Trusted primitives
// ---------------------------------------------------------------------------

/// The SHA-256 digest of a byte string, named; what it is on given bytes is
/// only computed by the hash itself.
pub uninterp spec fn sha256_of(data: Seq<u8>) -> Seq<u8>;

/// The URL-safe base64 encoding, without padding, of a byte string.
pub uninterp spec fn b64url_of(data: Seq<u8>) -> Seq<char>;

/// The URL-safe base64 decoding, without padding, of a character string.
pub uninterp spec fn b64url_decode_of(s: Seq<char>) -> Option<Seq<u8>>;

/// Relies on rand's thread-local generator to fill a buffer of `n` bytes
/// from a cryptographically secure source. Nothing is promised of the
/// contents beyond their count.
#[verifier::external_body]
pub(crate) fn random_bytes(n: usize) -> (r: Vec<u8>)
    ensures
        r@.len() == n,
{
    let mut buf = vec![0u8; n];
    rand::rng().fill_bytes(&mut buf);
    buf
}

/// Relies on sha2's `Sha256::digest`: a 32-byte digest determined by the
/// input bytes alone.
#[verifier::external_body]
fn sha256(data: &[u8]) -> (r: Vec<u8>)
    ensures
        r@ == sha256_of(data@),
        r@.len() == 32,
{
    sha2::Sha256::digest(data).to_vec()
}

/// Relies on base64's `URL_SAFE_NO_PAD` engine: the encoding is determined
/// by the input bytes, is ASCII, has the documented unpadded length, and is
/// inverted by the same engine's decode.
#[verifier::external_body]
pub(crate) fn b64url_encode(data: &[u8]) -> (r: String)
    requires
        4 * data@.len() + 4 <= usize::MAX,
    ensures
        r@ == b64url_of(data@),
        r@.len() == (4 * data@.len() + 2) / 3,
        vstd::utf8::is_ascii_chars(r@),
        b64url_decode_of(r@) == Some(data@),
{
    base64::engine::general_purpose::URL_SAFE_NO_PAD.encode(data)
}

/// Relies on base64's `URL_SAFE_NO_PAD` engine's decode, the inverse of the
/// encode above.
#[verifier::external_body]
pub(crate) fn b64url_decode(s: &str) -> (r: Option<Vec<u8>>)
    ensures
        match r {
            Some(v) => b64url_decode_of(s@) == Some(v@),
            None => b64url_decode_of(s@) is None,
        },
{
    base64::engine::general_purpose::URL_SAFE_NO_PAD.decode(s.as_bytes()).ok()
}

// ---------------------------------------------------------------------------
// PKCE
// ---------------------------------------------------------------------------

/// A verifier/challenge pair for one login attempt.
#[derive(Debug, Clone, PartialEq, Eq)]
pub struct PkceCodes {
    pub code_verifier: String,
    pub code_challenge: String,
}

/// The challenge is the unpadded URL-safe base64 encoding of the SHA-256
/// digest of the verifier's ASCII bytes, and the verifier encodes 64 bytes.
pub open spec fn pkce_consistent(p: PkceCodes) -> bool {
    &&& p.code_challenge@ == b64url_of(sha256_of(vstd::utf8::encode_utf8(p.code_verifier@)))
    &&& exists|b: Seq<u8>|
        b.len() == 64 && p.code_verifier@ == b64url_of(b) && b64url_decode_of(p.code_verifier@)
            == Some(b)
}

/// Generate a PKCE pair: 64 random bytes, base64url-encoded without padding,
/// hashed with SHA-256 for the challenge.
pub fn generate_pkce() -> (r: PkceCodes)
    ensures
        pkce_consistent(r),
        vstd::utf8::is_ascii_chars(r.code_verifier@),
{
    let bytes = random_bytes(64);
    let code_verifier = b64url_encode(bytes.as_slice());
    let digest = sha256(code_verifier.as_str().as_bytes());
    let code_challenge = b64url_encode(digest.as_slice());
    let r = PkceCodes { code_verifier, code_challenge };
    proof {
        assert(bytes@.len() == 64 && r.code_verifier@ == b64url_of(bytes@)
            && b64url_decode_of(r.code_verifier@) == Some(bytes@));
    }
    r
}

// ---------------------------------------------------------------------------
// Token responses
// ---------------------------------------------------------------------------

/// The token set returned by the provider's token endpoint.
#[derive(Debug, Clone, PartialEq, Eq)]
pub struct TokenResponse {
    pub access_token: String,
    pub refresh_token: Option<String>,
    pub id_token: Option<String>,
    pub expires_in: Option<u64>,
}

/// A required string field of a token reply.
pub open spec fn str_field(es: Seq<(String, JsonValue)>, key: Seq<char>) -> Option<String> {
    match obj_lookup(es, key) {
        Some(JsonValue::Str(s)) => Some(s),
        _ => None,
    }
}

/// An optional string field is well-formed when missing, null, or a string.
pub open spec fn opt_str_field_ok(es: Seq<(String, JsonValue)>, key: Seq<char>) -> bool {
    match obj_lookup(es, key) {
        None => true,
        Some(JsonValue::Null) => true,
        Some(JsonValue::Str(_)) => true,
        _ => false,
    }
}

pub open spec fn opt_str_field(es: Seq<(String, JsonValue)>, key: Seq<char>) -> Option<String> {
    match obj_lookup(es, key) {
        Some(JsonValue::Str(s)) => Some(s),
        _ => None,
    }
}

/// An optional non-negative count field is well-formed when missing, null,
/// or a non-negative integer.
pub open spec fn opt_u64_field_ok(es: Seq<(String, JsonValue)>, key: Seq<char>) -> bool {
    match obj_lookup(es, key) {
        None => true,
        Some(JsonValue::Null) => true,
        Some(JsonValue::Int(i)) => i >= 0,
        Some(JsonValue::UInt(_)) => true,
        _ => false,
    }
}

pub open spec fn opt_u64_field(es: Seq<(String, JsonValue)>, key: Seq<char>) -> Option<u64> {
    match obj_lookup(es, key) {
        Some(JsonValue::Int(i)) => if i >= 0 {
            Some(i as u64)
        } else {
            None
        },
        Some(JsonValue::UInt(u)) => Some(u),
        _ => None,
    }
}

/// A token reply parses into a `TokenResponse` exactly when it is an object
/// with a string `access_token` and well-formed optional fields.
pub open spec fn token_json_wf(v: JsonValue) -> bool {
    &&& v is Obj
    &&& str_field(v->Obj_0@, "access_token"@) is Some
    &&& opt_str_field_ok(v->Obj_0@, "refresh_token"@)
    &&& opt_str_field_ok(v->Obj_0@, "id_token"@)
    &&& opt_u64_field_ok(v->Obj_0@, "expires_in"@)
}

/// The token set a well-formed reply carries.
pub open spec fn token_of_json(v: JsonValue) -> TokenResponse {
    TokenResponse {
        access_token: str_field(v->Obj_0@, "access_token"@)->0,
        refresh_token: opt_str_field(v->Obj_0@, "refresh_token"@),
        id_token: opt_str_field(v->Obj_0@, "id_token"@),
        expires_in: opt_u64_field(v->Obj_0@, "expires_in"@),
    }
}

/// Interpret a parsed token-endpoint reply body.
pub fn token_response_from_json(v: &JsonValue) -> (r: Result<TokenResponse, AuthError>)
    ensures
        r is Ok <==> token_json_wf(*v),
        token_json_wf(*v) ==> r == Ok::<TokenResponse, AuthError>(token_of_json(*v)),
        !token_json_wf(*v) ==> r matches Err(AuthError::MalformedResponse(_)),
{
    match v {
        JsonValue::Obj(_) => {
        },
        _ => {
            return Err(
                AuthError::MalformedResponse(String::from_str("token reply is not a JSON object")),
            );
        },
    }
    let access_token = match json_get(v, "access_token") {
        Some(JsonValue::Str(s)) => s.clone(),
        _ => {
            return Err(
                AuthError::MalformedResponse(
                    String::from_str("access_token is missing or not a string"),
                ),
            );
        },
    };
    let refresh_token = match json_get(v, "refresh_token") {
        None => None,
        Some(JsonValue::Null) => None,
        Some(JsonValue::Str(s)) => Some(s.clone()),
        _ => {
            return Err(
                AuthError::MalformedResponse(String::from_str("refresh_token is not a string")),
            );
        },
    };
    let id_token = match json_get(v, "id_token") {
        None => None,
        Some(JsonValue::Null) => None,
        Some(JsonValue::Str(s)) => Some(s.clone()),
        _ => {
            return Err(AuthError::MalformedResponse(String::from_str("id_token is not a string")));
        },
    };
    let expires_in = match json_get(v, "expires_in") {
        None => None,
        Some(JsonValue::Null) => None,
        Some(JsonValue::Int(i)) => {
            if *i >= 0 {
                Some(*i as u64)
            } else {
                return Err(
                    AuthError::MalformedResponse(
                        String::from_str("expires_in is not a non-negative integer"),
                    ),
                );
            }
        },
        Some(JsonValue::UInt(u)) => Some(*u),
        _ => {
            return Err(
                AuthError::MalformedResponse(
                    String::from_str("expires_in is not a non-negative integer"),
                ),
            );
        },
    };
    Ok(TokenResponse { access_token, refresh_token, id_token, expires_in })
}

/// Judge one reply of the token endpoint: a non-success status is the
/// provider's rejection, carrying the raw body; a body that did not parse
/// as JSON, or parses to an ill-formed object, is a malformed response.
pub fn evaluate_token_reply(status_ok: bool, raw_body: String, parsed: Option<JsonValue>) -> (r:
    Result<TokenResponse, AuthError>)
    ensures
        !status_ok ==> r == Err::<TokenResponse, AuthError>(AuthError::ProviderRejected(raw_body)),
        status_ok && parsed is None ==> r matches Err(AuthError::MalformedResponse(_)),
        status_ok && parsed is Some ==> (r is Ok <==> token_json_wf(parsed->0)),
        status_ok && parsed is Some && token_json_wf(parsed->0) ==> r == Ok::<
            TokenResponse,
            AuthError,
        >(token_of_json(parsed->0)),
        status_ok && parsed is Some && !token_json_wf(parsed->0) ==> r matches Err(
            AuthError::MalformedResponse(_),
        ),
{
    if !status_ok {
        return Err(AuthError::ProviderRejected(raw_body));
    }
    match parsed {
        Some(v) => token_response_from_json(&v),
        None => Err(AuthError::MalformedResponse(String::from_str("token reply body is not JSON"))),
    }
}

// ---------------------------------------------------------------------------
// Request bodies for the token endpoint
// ---------------------------------------------------------------------------

/// The form body sent to exchange an authorization code, each value
/// percent-escaped.
pub open spec fn spec_exchange_body(code: Seq<char>, redirect_uri: Seq<char>, verifier: Seq<
    char,
>) -> Seq<u8> {
    vstd::utf8::encode_utf8("grant_type=authorization_code&code="@) + percent_encoded(
        vstd::utf8::encode_utf8(code),
    ) + vstd::utf8::encode_utf8("&redirect_uri="@) + percent_encoded(
        vstd::utf8::encode_utf8(redirect_uri),
    ) + vstd::utf8::encode_utf8("&client_id="@) + percent_encoded(
        vstd::utf8::encode_utf8(spec_client_id()),
    ) + vstd::utf8::encode_utf8("&code_verifier="@) + percent_encoded(
        vstd::utf8::encode_utf8(verifier),
    )
}

/// Build the `authorization_code` grant body.
pub fn build_exchange_body(code: &str, redirect_uri: &str, code_verifier: &str) -> (r: Vec<u8>)
    ensures
        r@ == spec_exchange_body(code@, redirect_uri@, code_verifier@),
{
    let mut out: Vec<u8> = Vec::new();
    push_bytes(&mut out, "grant_type=authorization_code&code=".as_bytes());
    let mut part = percent_encode(code);
    out.append(&mut part);
    push_bytes(&mut out, "&redirect_uri=".as_bytes());
    let mut part = percent_encode(redirect_uri);
    out.append(&mut part);
    push_bytes(&mut out, "&client_id=".as_bytes());
    let mut part = percent_encode(client_id());
    out.append(&mut part);
    push_bytes(&mut out, "&code_verifier=".as_bytes());
    let mut part = percent_encode(code_verifier);
    out.append(&mut part);
    proof {
        assert(out@ =~= spec_exchange_body(code@, redirect_uri@, code_verifier@));
    }
    out
}

/// The form body sent to renew a token set from a refresh token.
pub open spec fn spec_refresh_body(refresh_token: Seq<char>) -> Seq<u8> {
    vstd::utf8::encode_utf8("grant_type=refresh_token&client_id="@) + percent_encoded(
        vstd::utf8::encode_utf8(spec_client_id()),
    ) + vstd::utf8::encode_utf8("&refresh_token="@) + percent_encoded(
        vstd::utf8::encode_utf8(refresh_token),
    ) + vstd::utf8::encode_utf8("&scope="@) + percent_encoded(
        vstd::utf8::encode_utf8(spec_oauth_scope()),
    )
}

/// Build the `refresh_token` grant body, with the fixed client identity and
/// scope set.
pub fn build_refresh_body(refresh_token: &str) -> (r: Vec<u8>)
    ensures
        r@ == spec_refresh_body(refresh_token@),
{
    let mut out: Vec<u8> = Vec::new();
    push_bytes(&mut out, "grant_type=refresh_token&client_id=".as_bytes());
    let mut part = percent_encode(client_id());
    out.append(&mut part);
    push_bytes(&mut out, "&refresh_token=".as_bytes());
    let mut part = percent_encode(refresh_token);
    out.append(&mut part);
    push_bytes(&mut out, "&scope=".as_bytes());
    let mut part = percent_encode(oauth_scope());
    out.append(&mut part);
    proof {
        assert(out@ =~= spec_refresh_body(refresh_token@));
    }
    out
}

// ---------------------------------------------------------------------------
// User info prefetched from an id_token
// ---------------------------------------------------------------------------

/// Display fields decoded from an id_token's payload. The payload is read
/// without signature verification: informational only, never a trust
/// boundary.
#[derive(Debug, PartialEq, Eq)]
pub struct UserInfo {
    pub email: String,
    pub account_id: Option<String>,
}

/// The characters of a JWT's payload segment: between the first dot and the
/// second dot (or the end).
pub open spec fn jwt_payload_chars(s: Seq<char>) -> Option<Seq<char>> {
    let d0 = first_in(s, 0, set!['.']);
    if d0 == s.len() {
        None
    } else {
        Some(s.subrange(d0 + 1, first_in(s, d0 + 1, set!['.'])))
    }
}

/// Extract and decode the payload segment of a JWT-format token.
#[verifier::loop_isolation(false)]
pub fn jwt_payload(id_token: &str) -> (r: Option<Vec<u8>>)
    ensures
        jwt_payload_chars(id_token@) is None ==> r is None,
        jwt_payload_chars(id_token@) matches Some(p) ==> match b64url_decode_of(p) {
            Some(b) => r matches Some(v) && v@ == b,
            None => r is None,
        },
{
    let n = id_token.unicode_len();
    let mut d0: usize = 0;
    while d0 < n && id_token.get_char(d0) != '.'
        invariant
            0 <= d0 <= n,
            first_in(id_token@, 0, set!['.']) == first_in(id_token@, d0 as int, set!['.']),
        decreases n - d0,
    {
        d0 += 1;
    }
    if d0 == n {
        return None;
    }
    let mut d1: usize = d0 + 1;
    while d1 < n && id_token.get_char(d1) != '.'
        invariant
            d0 + 1 <= d1 <= n,
            first_in(id_token@, d0 as int + 1, set!['.']) == first_in(
                id_token@,
                d1 as int,
                set!['.'],
            ),
        decreases n - d1,
    {
        d1 += 1;
    }
    let payload = id_token.substring_char(d0 + 1, d1);
    b64url_decode(payload)
}

/// The display fields a decoded payload object carries: a string `email`
/// claim, and the provider's account identifier nested under its auth claim.
pub open spec fn user_info_spec(v: JsonValue) -> Option<UserInfo> {
    if v is Obj && str_field(v->Obj_0@, "email"@) is Some {
        Some(
            UserInfo {
                email: str_field(v->Obj_0@, "email"@)->0,
                account_id: account_id_spec(v->Obj_0@),
            },
        )
    } else {
        None
    }
}

pub open spec fn account_id_spec(es: Seq<(String, JsonValue)>) -> Option<String> {
    match obj_lookup(es, "https://api.openai.com/auth"@) {
        Some(JsonValue::Obj(inner)) => match obj_lookup(inner@, "chatgpt_account_id"@) {
            Some(JsonValue::Str(s)) => Some(s),
            _ => None,
        },
        _ => None,
    }
}

/// Read the display fields out of a decoded id_token payload.
pub fn user_info_from_json(v: &JsonValue) -> (r: Option<UserInfo>)
    ensures
        r == user_info_spec(*v),
{
    let email = match json_get(v, "email") {
        Some(JsonValue::Str(s)) => s.clone(),
        _ => {
            return None;
        },
    };
    let account_id = match json_get(v, "https://api.openai.com/auth") {
        Some(auth_claim) => match json_get(auth_claim, "chatgpt_account_id") {
            Some(JsonValue::Str(s)) => Some(s.clone()),
            _ => None,
        },
        None => None,
    };
    Some(UserInfo { email, account_id })
}

} // verus!
