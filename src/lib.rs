//! Authentication and API-proxy core for a Proton desktop client.
//!
//! The library holds the decisions of the password-proof login, the token
//! lifecycle and the request gateway as verified state machines. The host
//! performs the network exchanges they ask for and feeds the replies back.
mod api;
mod cookies;
mod error;
mod gateway;
mod headers;
mod login;
mod manager;
mod pairs;
mod proxy;
mod session;
mod srp;
mod staging;
mod text;

pub use api::{
    check_auth, check_auth_info, check_refresh, info_request, logout_request, proof_request,
    refresh_request, second_factor_request, ApiMethod, ApiRequest, AuthInfoResponse, AuthResponse,
    RefreshResponse, Reply, TwoFactorInfo, CODE_HUMAN_VERIFICATION, CODE_OK,
};
pub use cookies::{parse_set_cookie, CookieJar};
pub use error::AuthError;
pub use gateway::{ForwardAction, ForwardEvent, ForwardFlow, ForwardStage, Gateway, STATUS_UNAUTHORIZED};
pub use headers::{contains_header, flatten_headers, is_reserved, keep_headers};
pub use login::{conclude_login, LoginAction, LoginEvent, LoginFlow, LoginOutcome, LoginStage};
pub use manager::AuthManager;
pub use proxy::{
    build_request, normalize_method, API_BASE, resolve_url, OutboundRequest, ProxyRequest, ProxyResponse,
    UpstreamResponse,
};
pub use session::{AuthSession, AuthState, PendingTwoFactor};
pub use srp::{compute_proofs, SrpProofs};
pub use staging::OneShot;
pub use text::{decimal_text, find_text, join_texts, starts_with, text_eq_ignore_ascii_case};
