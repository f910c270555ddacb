use vstd::prelude::*;
use vstd::string::StringExecFns;

use crate::errors::AuthError;
use crate::oauth::PkceCodes;
use crate::oauth::b64url_decode_of;
use crate::oauth::b64url_of;
use crate::oauth::build_exchange_body;
use crate::oauth::generate_pkce;
use crate::oauth::pkce_consistent;
use crate::oauth::spec_auth_url;
use crate::oauth::spec_client_id;
use crate::oauth::spec_exchange_body;
use crate::oauth::spec_oauth_scope;
use crate::text::dec_digits;
use crate::text::push_dec_u16;

verus! {

/// The loopback port registered with the provider for this client.
pub const DEFAULT_PORT: u16 = 1455;

/// The in-flight login: the PKCE pair, the anti-forgery state token, and the
/// loopback port the provider will redirect to.
#[derive(Debug, Clone, PartialEq, Eq)]
pub struct PendingLogin {
    pub pkce: PkceCodes,
    pub state: String,
    pub port: u16,
}

/// The single shared slot that holds at most one in-flight login.
///
/// Starting a login fills the slot, replacing whatever was there; completing
/// one takes the entry out, so it is consumed exactly once. The caller keeps
/// the registry behind its own mutual exclusion and copies what it needs out
/// of the entry before any suspension point.
pub struct LoginRegistry {
    pending: Option<PendingLogin>,
}

/// What taking the entry yields and leaves behind: the slot always ends
/// empty, and only a present entry is handed out.
pub open spec fn spec_take(pending: Option<PendingLogin>) -> (Result<PendingLogin, AuthError>,
    Option<PendingLogin>,
) {
    match pending {
        Some(p) => (Ok(p), None),
        None => (Err(AuthError::LoginExpiredOrNotStarted), None),
    }
}

impl LoginRegistry {
    /// The entry currently in flight, if any.
    pub closed spec fn spec_pending(&self) -> Option<PendingLogin> {
        self.pending
    }

    pub fn new() -> (r: LoginRegistry)
        ensures
            r.spec_pending() is None,
    {
        LoginRegistry { pending: None }
    }

    /// Read the in-flight entry without consuming it.
    pub fn get_pending_login(&self) -> (r: &Option<PendingLogin>)
        ensures
            *r == self.spec_pending(),
    {
        &self.pending
    }

    /// Store a new in-flight login, discarding any previous one.
    pub fn put(&mut self, entry: PendingLogin)
        ensures
            final(self).spec_pending() == Some(entry),
    {
        self.pending = Some(entry);
    }

    /// Atomically remove and return the in-flight entry; with no login in
    /// flight the attempt has expired or was never started.
    pub fn take_login(&mut self) -> (r: Result<PendingLogin, AuthError>)
        ensures
            r == spec_take(old(self).spec_pending()).0,
            final(self).spec_pending() == spec_take(old(self).spec_pending()).1,
    {
        match self.pending.take() {
            Some(p) => Ok(p),
            None => Err(AuthError::LoginExpiredOrNotStarted),
        }
    }
}

/// However the slot was left, a second take in a row finds it empty: the
/// entry is consumed exactly once.
pub proof fn lemma_take_login_consumed(pending: Option<PendingLogin>)
    ensures
        spec_take(spec_take(pending).1).0 == Err::<PendingLogin, AuthError>(
            AuthError::LoginExpiredOrNotStarted,
        ),
{
}

/// The loopback redirect target for a given port.
pub open spec fn spec_redirect_uri(port: u16) -> Seq<char> {
    "http://localhost:"@ + dec_digits(port as int) + "/auth/callback"@
}

pub fn redirect_uri_string(port: u16) -> (r: String)
    ensures
        r@ == spec_redirect_uri(port),
{
    let mut s = String::from_str("http://localhost:");
    push_dec_u16(&mut s, port);
    s.append("/auth/callback");
    proof {
        assert(s@ =~= spec_redirect_uri(port));
    }
    s
}

/// The full authorization URL. The query values are deliberately left
/// unescaped, byte for byte as the provider's own client builds them.
pub open spec fn spec_auth_request_url(challenge: Seq<char>, state_token: Seq<char>, port: u16) -> Seq<
    char,
> {
    spec_auth_url() + "?response_type=code&client_id="@ + spec_client_id() + "&redirect_uri="@
        + spec_redirect_uri(port) + "&scope="@ + spec_oauth_scope() + "&code_challenge="@
        + challenge
        + "&code_challenge_method=S256&id_token_add_organizations=true&codex_cli_simplified_flow=true&state="@
        + state_token + "&originator=codex_vscode"@
}

/// Assemble the authorization URL from the PKCE challenge, the state token
/// and the loopback port. Building never fails.
pub fn build_authorization_url(code_challenge: &str, state_token: &str, port: u16) -> (r: String)
    ensures
        r@ == spec_auth_request_url(code_challenge@, state_token@, port),
{
    let mut s = String::from_str(crate::oauth::auth_url());
    s.append("?response_type=code&client_id=");
    s.append(crate::oauth::client_id());
    s.append("&redirect_uri=");
    let uri = redirect_uri_string(port);
    s.append(uri.as_str());
    s.append("&scope=");
    s.append(crate::oauth::oauth_scope());
    s.append("&code_challenge=");
    s.append(code_challenge);
    s.append(
        "&code_challenge_method=S256&id_token_add_organizations=true&codex_cli_simplified_flow=true&state=",
    );
    s.append(state_token);
    s.append("&originator=codex_vscode");
    proof {
        assert(s@ =~= spec_auth_request_url(code_challenge@, state_token@, port));
    }
    s
}

/// The state token stands in every authorization URL built from it, between
/// the state parameter and the originator flag.
pub proof fn lemma_state_in_auth_url(challenge: Seq<char>, state_token: Seq<char>, port: u16)
    ensures
        crate::text::seq_contains(spec_auth_request_url(challenge, state_token, port), state_token),
{
    let pre = spec_auth_url() + "?response_type=code&client_id="@ + spec_client_id()
        + "&redirect_uri="@ + spec_redirect_uri(port) + "&scope="@ + spec_oauth_scope()
        + "&code_challenge="@ + challenge
        + "&code_challenge_method=S256&id_token_add_organizations=true&codex_cli_simplified_flow=true&state="@;
    let u = spec_auth_request_url(challenge, state_token, port);
    assert(u.subrange(pre.len() as int, (pre.len() + state_token.len()) as int) =~= state_token);
    assert(crate::text::contains_at(u, state_token, pre.len() as int));
}

/// A state token is the unpadded URL-safe base64 form of 32 random bytes.
pub open spec fn state_token_wf(s: Seq<char>) -> bool {
    exists|b: Seq<u8>|
        b.len() == 32 && s == b64url_of(b) && b64url_decode_of(s) == Some(b)
}

/// Generate a fresh anti-forgery state token from 32 random bytes.
pub fn generate_state() -> (r: String)
    ensures
        state_token_wf(r@),
{
    let bytes = crate::oauth::random_bytes(32);
    let r = crate::oauth::b64url_encode(bytes.as_slice());
    proof {
        assert(bytes@.len() == 32 && r@ == b64url_of(bytes@) && b64url_decode_of(r@) == Some(
            bytes@,
        ));
    }
    r
}

/// Everything start-of-login promises of the registry afterwards and of the
/// URL handed back.
pub open spec fn login_started(reg: LoginRegistry, url: Seq<char>, port: u16) -> bool {
    match reg.spec_pending() {
        Some(p) => {
            &&& pkce_consistent(p.pkce)
            &&& state_token_wf(p.state@)
            &&& p.port == port
            &&& url == spec_auth_request_url(p.pkce.code_challenge@, p.state@, port)
        },
        None => false,
    }
}

/// Begin a login: generate a fresh PKCE pair and state token, record them
/// in the registry — silently abandoning any earlier in-flight login — and
/// return the authorization URL to open in the browser.
///
/// Binding the loopback listener on `port`, and evicting whatever process
/// already holds it, is the caller's side of this step; it happens before
/// the URL is opened.
pub fn start_oauth_login(reg: &mut LoginRegistry, port: u16) -> (r: String)
    ensures
        login_started(*final(reg), r@, port),
{
    let pkce = generate_pkce();
    let state_token = generate_state();
    let url = build_authorization_url(pkce.code_challenge.as_str(), state_token.as_str(), port);
    reg.put(PendingLogin { pkce, state: state_token, port });
    url
}

/// Consume the pending login and build the code-exchange request body from
/// its verifier and port. With no login in flight the exchange cannot be
/// prepared, and the caller gets the error the completion step owes.
pub fn prepare_code_exchange(reg: &mut LoginRegistry, code: &str) -> (r: Result<
    Vec<u8>,
    AuthError,
>)
    ensures
        final(reg).spec_pending() is None,
        old(reg).spec_pending() matches Some(p) ==> r matches Ok(body) && body@
            == spec_exchange_body(code@, spec_redirect_uri(p.port), p.pkce.code_verifier@),
        old(reg).spec_pending() is None ==> r == Err::<Vec<u8>, AuthError>(
            AuthError::LoginExpiredOrNotStarted,
        ),
{
    let entry = match reg.take_login() {
        Ok(entry) => entry,
        Err(e) => {
            return Err(e);
        },
    };
    let uri = redirect_uri_string(entry.port);
    Ok(build_exchange_body(code, uri.as_str(), entry.pkce.code_verifier.as_str()))
}

} // verus!
