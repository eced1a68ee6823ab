use vstd::prelude::*;

use crate::error::{AuthError, AuthErrorView};
use crate::session::{AuthSession, PendingTwoFactor};
use crate::text::{decimal, decimal_text};

verus! {

/// The identity service's application-level success code.
pub const CODE_OK: i32 = 1000;

/// The application error code that demands a human-verification challenge.
pub const CODE_HUMAN_VERIFICATION: i32 = 9001;

/// Methods the identity-service calls use.
#[derive(Debug, PartialEq, Eq, Clone, Copy)]
pub enum ApiMethod {
    Post,
    Delete,
}

/// A call to the identity service, described as plain values for the host to send.
/// `body` lists the string fields of the JSON object to send, if any.
#[derive(Debug)]
pub struct ApiRequest {
    pub method: ApiMethod,
    pub url: String,
    pub headers: Vec<(String, String)>,
    pub body: Option<Vec<(String, String)>>,
}

/// Mathematical form of a list of text pairs.
pub open spec fn pairs_view(v: Seq<(String, String)>) -> Seq<(Seq<char>, Seq<char>)> {
    v.map_values(|p: (String, String)| (p.0@, p.1@))
}

pub struct ApiRequestView {
    pub method: ApiMethod,
    pub url: Seq<char>,
    pub headers: Seq<(Seq<char>, Seq<char>)>,
    pub body: Option<Seq<(Seq<char>, Seq<char>)>>,
}

impl View for ApiRequest {
    type V = ApiRequestView;

    open spec fn view(&self) -> ApiRequestView {
        ApiRequestView {
            method: self.method,
            url: self.url@,
            headers: pairs_view(self.headers@),
            body: match self.body {
                Some(b) => Some(pairs_view(b@)),
                None => None,
            },
        }
    }
}

/// A reply of the identity service as the host read it: the HTTP status, the
/// body decoded as the expected payload (or why it could not be), and the
/// application error code, when the body decodes as an error object.
#[derive(Debug)]
pub struct Reply<T> {
    pub status: u16,
    pub payload: Result<T, String>,
    pub error_code: Option<i32>,
}

pub open spec fn is_success(status: u16) -> bool {
    200 <= status <= 299
}

/// Payload of `POST /auth/info`: the handshake parameters.
#[derive(Debug)]
pub struct AuthInfoResponse {
    pub code: i32,
    pub modulus: String,
    pub server_ephemeral: String,
    pub version: i32,
    pub salt: String,
    pub srp_session: String,
}

/// The two-factor part of a proof-submission reply.
#[derive(Debug, PartialEq, Eq, Clone, Copy)]
pub struct TwoFactorInfo {
    pub enabled: i32,
    pub totp: i32,
}

/// Payload of `POST /auth`: the new session and the server's proof.
#[derive(Debug)]
pub struct AuthResponse {
    pub code: i32,
    pub uid: String,
    pub access_token: String,
    pub refresh_token: String,
    pub token_type: String,
    pub server_proof: String,
    pub two_fa: Option<TwoFactorInfo>,
}

/// Payload of `POST /auth/refresh`: the renewed token pair.
#[derive(Debug)]
pub struct RefreshResponse {
    pub code: i32,
    pub access_token: String,
    pub refresh_token: String,
    pub token_type: String,
}

/// How a reply that was not a decoded success ends the step, if it does:
/// transport failure, a non-success status, or a body that did not decode.
/// `rejected` is the error a non-success status maps to.
pub open spec fn reply_failure<T>(
    x: Result<Reply<T>, String>,
    rejected: AuthErrorView,
    what: Seq<char>,
) -> Option<AuthErrorView> {
    match x {
        Err(m) => Some(AuthErrorView::Network(m@)),
        Ok(r) => if !is_success(r.status) {
            Some(rejected)
        } else {
            match r.payload {
                Err(m) => Some(AuthErrorView::InvalidResponse("Failed to parse "@ + what + ": "@ + m@)),
                Ok(_) => None,
            }
        },
    }
}

/// The payload of a reply that `reply_failure` lets through.
pub open spec fn payload_of<T>(x: Result<Reply<T>, String>) -> T
    recommends
        x is Ok,
        x->Ok_0.payload is Ok,
{
    x->Ok_0.payload->Ok_0
}

/// The error that a non-success status of the handshake-parameter call maps to.
pub open spec fn info_rejection<T>(x: Result<Reply<T>, String>) -> AuthErrorView {
    if x is Ok && x->Ok_0.error_code == Some(CODE_HUMAN_VERIFICATION) {
        AuthErrorView::HumanVerificationRequired
    } else {
        AuthErrorView::InvalidCredentials
    }
}

pub open spec fn code_error(code: i32) -> AuthErrorView {
    AuthErrorView::InvalidResponse("Error code: "@ + decimal(code as int))
}

/// Why a handshake-parameter reply ends the login, or `None` when it carries
/// usable parameters.
pub open spec fn auth_info_failure(x: Result<Reply<AuthInfoResponse>, String>) -> Option<AuthErrorView> {
    match reply_failure(x, info_rejection(x), "auth info"@) {
        Some(e) => Some(e),
        None => if payload_of(x).code != CODE_OK {
            Some(code_error(payload_of(x).code))
        } else {
            None
        },
    }
}

/// Why a proof-submission reply ends the login, or `None` when it carries a session.
pub open spec fn auth_failure(x: Result<Reply<AuthResponse>, String>) -> Option<AuthErrorView> {
    match reply_failure(x, AuthErrorView::InvalidCredentials, "auth response"@) {
        Some(e) => Some(e),
        None => if payload_of(x).code != CODE_OK {
            Some(code_error(payload_of(x).code))
        } else {
            None
        },
    }
}

/// Why a renewal reply leaves the session unrenewed, or `None` when it carries
/// a new token pair. An application code other than success means the refresh
/// token is no longer usable.
pub open spec fn refresh_failure(x: Result<Reply<RefreshResponse>, String>) -> Option<AuthErrorView> {
    match reply_failure(x, AuthErrorView::InvalidCredentials, "refresh response"@) {
        Some(e) => Some(e),
        None => if payload_of(x).code != CODE_OK {
            Some(AuthErrorView::InvalidCredentials)
        } else {
            None
        },
    }
}

/// The parse-failure error for a reply body that did not decode.
fn parse_error(what: &str, m: &String) -> (r: AuthError)
    ensures
        r@ == AuthErrorView::InvalidResponse("Failed to parse "@ + what@ + ": "@ + m@),
{
    let msg = String::from_str("Failed to parse ").concat(what).concat(": ").concat(m.as_str());
    AuthError::InvalidResponse(msg)
}

fn code_failure(code: i32) -> (r: AuthError)
    ensures
        r@ == code_error(code),
{
    AuthError::InvalidResponse(String::from_str("Error code: ").concat(decimal_text(code).as_str()))
}

/// Judges the reply to the handshake-parameter request.
pub fn check_auth_info(x: Result<Reply<AuthInfoResponse>, String>) -> (r: Result<
    AuthInfoResponse,
    AuthError,
>)
    ensures
        match auth_info_failure(x) {
            Some(e) => r matches Err(err) && err@ == e,
            None => r == Ok::<AuthInfoResponse, AuthError>(payload_of(x)),
        },
{
    match x {
        Err(m) => Err(AuthError::Network(m)),
        Ok(reply) => {
            if reply.status < 200 || reply.status > 299 {
                if reply.error_code == Some(CODE_HUMAN_VERIFICATION) {
                    Err(AuthError::HumanVerificationRequired)
                } else {
                    Err(AuthError::InvalidCredentials)
                }
            } else {
                match reply.payload {
                    Err(m) => Err(parse_error("auth info", &m)),
                    Ok(info) => {
                        if info.code != CODE_OK {
                            Err(code_failure(info.code))
                        } else {
                            Ok(info)
                        }
                    },
                }
            }
        },
    }
}

/// Judges the reply to the proof submission.
pub fn check_auth(x: Result<Reply<AuthResponse>, String>) -> (r: Result<AuthResponse, AuthError>)
    ensures
        match auth_failure(x) {
            Some(e) => r matches Err(err) && err@ == e,
            None => r == Ok::<AuthResponse, AuthError>(payload_of(x)),
        },
{
    match x {
        Err(m) => Err(AuthError::Network(m)),
        Ok(reply) => {
            if reply.status < 200 || reply.status > 299 {
                Err(AuthError::InvalidCredentials)
            } else {
                match reply.payload {
                    Err(m) => Err(parse_error("auth response", &m)),
                    Ok(auth) => {
                        if auth.code != CODE_OK {
                            Err(code_failure(auth.code))
                        } else {
                            Ok(auth)
                        }
                    },
                }
            }
        },
    }
}

/// Judges the reply to a token renewal.
pub fn check_refresh(x: Result<Reply<RefreshResponse>, String>) -> (r: Result<
    RefreshResponse,
    AuthError,
>)
    ensures
        match refresh_failure(x) {
            Some(e) => r matches Err(err) && err@ == e,
            None => r == Ok::<RefreshResponse, AuthError>(payload_of(x)),
        },
{
    match x {
        Err(m) => Err(AuthError::Network(m)),
        Ok(reply) => {
            if reply.status < 200 || reply.status > 299 {
                Err(AuthError::InvalidCredentials)
            } else {
                match reply.payload {
                    Err(m) => Err(parse_error("refresh response", &m)),
                    Ok(refresh) => {
                        if refresh.code != CODE_OK {
                            Err(AuthError::InvalidCredentials)
                        } else {
                            Ok(refresh)
                        }
                    },
                }
            }
        },
    }
}

/// Headers every identity-service call carries.
pub open spec fn version_header() -> (Seq<char>, Seq<char>) {
    ("x-pm-appversion"@, "web-drive@5.0.0"@)
}

pub open spec fn json_header() -> (Seq<char>, Seq<char>) {
    ("Content-Type"@, "application/json"@)
}

/// The bearer authorization value of a token pair.
pub open spec fn bearer(token_type: Seq<char>, access_token: Seq<char>) -> Seq<char> {
    token_type + " "@ + access_token
}

pub open spec fn info_request_view(base: Seq<char>, username: Seq<char>) -> ApiRequestView {
    ApiRequestView {
        method: ApiMethod::Post,
        url: base + "/api/auth/v4/info"@,
        headers: seq![version_header(), json_header()],
        body: Some(seq![("Username"@, username)]),
    }
}

pub open spec fn proof_request_view(
    base: Seq<char>,
    username: Seq<char>,
    client_ephemeral: Seq<char>,
    client_proof: Seq<char>,
    srp_session: Seq<char>,
) -> ApiRequestView {
    ApiRequestView {
        method: ApiMethod::Post,
        url: base + "/api/auth/v4"@,
        headers: seq![version_header(), json_header()],
        body: Some(
            seq![
                ("Username"@, username),
                ("ClientEphemeral"@, client_ephemeral),
                ("ClientProof"@, client_proof),
                ("SRPSession"@, srp_session),
            ],
        ),
    }
}

pub open spec fn second_factor_request_view(
    base: Seq<char>,
    p: PendingTwoFactor,
    code: Seq<char>,
) -> ApiRequestView {
    ApiRequestView {
        method: ApiMethod::Post,
        url: base + "/api/auth/v4/2fa"@,
        headers: seq![
            ("x-pm-uid"@, p.uid@),
            ("Authorization"@, bearer(p.token_type@, p.access_token@)),
            version_header(),
            json_header(),
        ],
        body: Some(seq![("TwoFactorCode"@, code)]),
    }
}

pub open spec fn refresh_request_view(base: Seq<char>, s: AuthSession) -> ApiRequestView {
    ApiRequestView {
        method: ApiMethod::Post,
        url: base + "/api/auth/v4/refresh"@,
        headers: seq![("x-pm-uid"@, s.uid@), version_header(), json_header()],
        body: Some(
            seq![
                ("UID"@, s.uid@),
                ("RefreshToken"@, s.refresh_token@),
                ("ResponseType"@, "token"@),
                ("GrantType"@, "refresh_token"@),
                ("RedirectURI"@, "https://proton.me"@),
            ],
        ),
    }
}

pub open spec fn logout_request_view(base: Seq<char>, s: AuthSession) -> ApiRequestView {
    ApiRequestView {
        method: ApiMethod::Delete,
        url: base + "/api/auth/v4"@,
        headers: seq![
            ("x-pm-uid"@, s.uid@),
            ("Authorization"@, bearer(s.token_type@, s.access_token@)),
            version_header(),
        ],
        body: None,
    }
}

fn pair(a: &str, b: &str) -> (r: (String, String))
    ensures
        r.0@ == a@,
        r.1@ == b@,
{
    (String::from_str(a), String::from_str(b))
}

fn bearer_text(token_type: &str, access_token: &str) -> (r: String)
    ensures
        r@ == bearer(token_type@, access_token@),
{
    String::from_str(token_type).concat(" ").concat(access_token)
}

fn endpoint(base: &str, path: &str) -> (r: String)
    ensures
        r@ == base@ + path@,
{
    String::from_str(base).concat(path)
}

/// Request for the handshake parameters of `username`.
pub fn info_request(base: &str, username: &str) -> (r: ApiRequest)
    ensures
        r@ == info_request_view(base@, username@),
{
    let headers = vec![pair("x-pm-appversion", "web-drive@5.0.0"), pair("Content-Type", "application/json")];
    let body = vec![pair("Username", username)];
    let r = ApiRequest {
        method: ApiMethod::Post,
        url: endpoint(base, "/api/auth/v4/info"),
        headers,
        body: Some(body),
    };
    assert(r@.headers =~= info_request_view(base@, username@).headers);
    assert(pairs_view(body@) =~= seq![("Username"@, username@)]);
    r
}

/// Request that submits the client's ephemeral value and proof.
pub fn proof_request(
    base: &str,
    username: &str,
    client_ephemeral: &str,
    client_proof: &str,
    srp_session: &str,
) -> (r: ApiRequest)
    ensures
        r@ == proof_request_view(base@, username@, client_ephemeral@, client_proof@, srp_session@),
{
    let headers = vec![pair("x-pm-appversion", "web-drive@5.0.0"), pair("Content-Type", "application/json")];
    let body = vec![
        pair("Username", username),
        pair("ClientEphemeral", client_ephemeral),
        pair("ClientProof", client_proof),
        pair("SRPSession", srp_session),
    ];
    let ghost v = proof_request_view(base@, username@, client_ephemeral@, client_proof@, srp_session@);
    let r = ApiRequest { method: ApiMethod::Post, url: endpoint(base, "/api/auth/v4"), headers, body: Some(body) };
    assert(r@.headers =~= v.headers);
    assert(pairs_view(body@) =~= v.body->Some_0);
    r
}

/// Request that submits a second-factor code under the pending credentials.
pub fn second_factor_request(base: &str, p: &PendingTwoFactor, code: &str) -> (r: ApiRequest)
    ensures
        r@ == second_factor_request_view(base@, *p, code@),
{
    let headers = vec![
        pair("x-pm-uid", p.uid.as_str()),
        (String::from_str("Authorization"), bearer_text(p.token_type.as_str(), p.access_token.as_str())),
        pair("x-pm-appversion", "web-drive@5.0.0"),
        pair("Content-Type", "application/json"),
    ];
    let body = vec![pair("TwoFactorCode", code)];
    let ghost v = second_factor_request_view(base@, *p, code@);
    let r = ApiRequest { method: ApiMethod::Post, url: endpoint(base, "/api/auth/v4/2fa"), headers, body: Some(body) };
    assert(r@.headers =~= v.headers);
    assert(pairs_view(body@) =~= v.body->Some_0);
    r
}

/// Request that trades the refresh token for a new token pair.
pub fn refresh_request(base: &str, s: &AuthSession) -> (r: ApiRequest)
    ensures
        r@ == refresh_request_view(base@, *s),
{
    let headers = vec![
        pair("x-pm-uid", s.uid.as_str()),
        pair("x-pm-appversion", "web-drive@5.0.0"),
        pair("Content-Type", "application/json"),
    ];
    let body = vec![
        pair("UID", s.uid.as_str()),
        pair("RefreshToken", s.refresh_token.as_str()),
        pair("ResponseType", "token"),
        pair("GrantType", "refresh_token"),
        pair("RedirectURI", "https://proton.me"),
    ];
    let ghost v = refresh_request_view(base@, *s);
    let r = ApiRequest { method: ApiMethod::Post, url: endpoint(base, "/api/auth/v4/refresh"), headers, body: Some(body) };
    assert(r@.headers =~= v.headers);
    assert(pairs_view(body@) =~= v.body->Some_0);
    r
}

/// Request that ends the session at the identity service.
pub fn logout_request(base: &str, s: &AuthSession) -> (r: ApiRequest)
    ensures
        r@ == logout_request_view(base@, *s),
{
    let headers = vec![
        pair("x-pm-uid", s.uid.as_str()),
        (String::from_str("Authorization"), bearer_text(s.token_type.as_str(), s.access_token.as_str())),
        pair("x-pm-appversion", "web-drive@5.0.0"),
    ];
    let ghost v = logout_request_view(base@, *s);
    let r = ApiRequest { method: ApiMethod::Delete, url: endpoint(base, "/api/auth/v4"), headers, body: None };
    assert(r@.headers =~= v.headers);
    r
}

} // verus!
