//! Multi-account OAuth2 login with PKCE against a fixed identity provider,
//! and the silent-refresh scheduling that keeps each account's tokens
//! fresh. The library holds the protocol logic — PKCE generation,
//! authorization-URL construction, callback validation, token-reply
//! interpretation, expiry detection, and the merge of renewed tokens into
//! each account's record — with contracts verified by Verus. Network I/O,
//! sockets, timers and the on-disk store are the caller's side of every
//! boundary.

use vstd::prelude::*;

mod callback;
mod errors;
mod ide;
mod json;
mod login;
mod oauth;
mod scheduler;
mod text;

pub use callback::CallbackReply;
pub use callback::handle_callback;
pub use callback::lookup_param;
pub use callback::request_path;
pub use callback::validate_callback;
pub use errors::AuthError;
pub use ide::ReloadPlan;
pub use ide::detect_running_ides;
pub use ide::ide_bundle_id;
pub use ide::ide_name;
pub use ide::is_permission_error;
pub use ide::probe_script;
pub use ide::reload_ide_plan;
pub use ide::reload_script;
pub use json::JsonValue;
pub use json::json_get;
pub use json::obj_set;
pub use json::obj_lookup;
pub use oauth::PkceCodes;
pub use oauth::TokenResponse;
pub use oauth::UserInfo;
pub use oauth::generate_pkce;
pub use oauth::build_exchange_body;
pub use oauth::build_refresh_body;
pub use oauth::evaluate_token_reply;
pub use oauth::token_response_from_json;
pub use oauth::jwt_payload;
pub use oauth::user_info_from_json;
pub use oauth::client_id;
pub use oauth::auth_url;
pub use oauth::token_url;
pub use oauth::oauth_scope;
pub use login::DEFAULT_PORT;
pub use login::LoginRegistry;
pub use login::PendingLogin;
pub use login::build_authorization_url;
pub use login::generate_state;
pub use login::prepare_code_exchange;
pub use login::redirect_uri_string;
pub use login::start_oauth_login;
pub use scheduler::Account;
pub use scheduler::is_token_expiring_soon;
pub use scheduler::is_expiring_at;
pub use scheduler::merge_refreshed_auth;
pub use scheduler::plan_refreshes;
pub use scheduler::run_scan_tick;
pub use text::output_is_true;
pub use text::percent_encode;
pub use text::percent_encode_bytes;

verus! {

} // verus!
