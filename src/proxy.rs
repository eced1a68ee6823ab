use vstd::prelude::*;

use crate::api::{bearer, pairs_view, version_header};
use crate::cookies::{cookie_line, CookieJar};
use crate::headers::{contains_header, has_header, keep_headers, kept_headers};
use crate::session::AuthSession;
use crate::text::{find, find_text, has_prefix, starts_with, to_uppercase, uppercase_of};

verus! {

/// The upstream API that relative and local addresses are sent to.
pub const API_BASE: &'static str = "https://mail.proton.me";

/// A request the UI asks the gateway to forward.
#[derive(Debug)]
pub struct ProxyRequest {
    pub method: String,
    pub url: String,
    pub headers: Vec<(String, String)>,
    pub body: Option<String>,
}

/// A request as the gateway sends it upstream.
#[derive(Debug)]
pub struct OutboundRequest {
    pub method: String,
    pub url: String,
    pub headers: Vec<(String, String)>,
    pub body: Option<String>,
}

/// An upstream response as the host read it; a header value that is not
/// text is `None`.
#[derive(Debug)]
pub struct UpstreamResponse {
    pub status: u16,
    pub headers: Vec<(String, Option<String>)>,
    pub body: String,
}

/// What the gateway hands back to the UI.
#[derive(Debug)]
pub struct ProxyResponse {
    pub status: u16,
    pub headers: Vec<(String, String)>,
    pub body: String,
}

pub struct OutboundView {
    pub method: Seq<char>,
    pub url: Seq<char>,
    pub headers: Seq<(Seq<char>, Seq<char>)>,
    pub body: Option<Seq<char>>,
}

impl View for OutboundRequest {
    type V = OutboundView;

    open spec fn view(&self) -> OutboundView {
        OutboundView {
            method: self.method@,
            url: self.url@,
            headers: pairs_view(self.headers@),
            body: match self.body {
                Some(b) => Some(b@),
                None => None,
            },
        }
    }
}

pub struct ProxyResponseView {
    pub status: u16,
    pub headers: Seq<(Seq<char>, Seq<char>)>,
    pub body: Seq<char>,
}

impl View for ProxyResponse {
    type V = ProxyResponseView;

    open spec fn view(&self) -> ProxyResponseView {
        ProxyResponseView { status: self.status, headers: pairs_view(self.headers@), body: self.body@ }
    }
}

/// The part of `url` from the first `/api` on, placed under `base`; `url`
/// itself when it has no `/api`.
pub open spec fn api_part_under(base: Seq<char>, url: Seq<char>) -> Seq<char> {
    match find(url, "/api"@) {
        Some(i) => base + url.subrange(i, url.len() as int),
        None => url,
    }
}

/// The upstream address of a UI request: API calls of the local origins go to
/// `base`, other absolute addresses pass through, paths are placed under `base`.
pub open spec fn resolved_url(base: Seq<char>, url: Seq<char>) -> Seq<char> {
    if has_prefix(url, "https://localhost/api/"@) || has_prefix(url, "http://localhost/api/"@) {
        api_part_under(base, url)
    } else if has_prefix(url, "https://"@) || has_prefix(url, "http://"@) {
        url
    } else if has_prefix(url, "tauri://"@) {
        api_part_under(base, url)
    } else if has_prefix(url, "/"@) {
        base + url
    } else {
        base + "/"@ + url
    }
}

/// A character HTTP allows in a method token.
pub open spec fn is_method_char(c: char) -> bool {
    let u = c as u32;
    (48 <= u <= 57) || (65 <= u <= 90) || (97 <= u <= 122) || u == 33 || (35 <= u <= 39) || u == 42
        || u == 43 || u == 45 || u == 46 || (94 <= u <= 96) || u == 124 || u == 126
}

pub open spec fn is_method_token(s: Seq<char>) -> bool {
    s.len() > 0 && forall|i: int| 0 <= i < s.len() ==> is_method_char(#[trigger] s[i])
}

/// The method sent upstream: the uppercased name when it is a valid method,
/// `GET` otherwise.
pub open spec fn normalized_method(m: Seq<char>) -> Seq<char> {
    if is_method_token(uppercase_of(m)) {
        uppercase_of(m)
    } else {
        "GET"@
    }
}

/// Relies on `reqwest::Method::from_bytes`: a method is accepted exactly when
/// it is non-empty and every byte is a token character.
#[verifier::external_body]
fn method_accepted(s: &str) -> (r: bool)
    ensures
        r == is_method_token(s@),
{
    reqwest::Method::from_bytes(s.as_bytes()).is_ok()
}

pub fn resolve_url(base: &str, url: &str) -> (r: String)
    ensures
        r@ == resolved_url(base@, url@),
{
    if starts_with(url, "https://localhost/api/") || starts_with(url, "http://localhost/api/")
        || (!starts_with(url, "https://") && !starts_with(url, "http://") && starts_with(
        url,
        "tauri://",
    )) {
        match find_text(url, "/api") {
            Some(i) => {
                let n = url.unicode_len();
                String::from_str(base).concat(url.substring_char(i, n))
            },
            None => String::from_str(url),
        }
    } else if starts_with(url, "https://") || starts_with(url, "http://") {
        String::from_str(url)
    } else if starts_with(url, "/") {
        String::from_str(base).concat(url)
    } else {
        String::from_str(base).concat("/").concat(url)
    }
}

pub fn normalize_method(m: &str) -> (r: String)
    ensures
        r@ == normalized_method(m@),
{
    let upper = to_uppercase(m);
    if method_accepted(upper.as_str()) {
        upper
    } else {
        String::from_str("GET")
    }
}

/// Headers the gateway adds for the current session and the cookie jar.
pub open spec fn credential_headers(
    session: Option<AuthSession>,
    jar: Seq<(Seq<char>, Seq<char>)>,
) -> Seq<(Seq<char>, Seq<char>)> {
    let auth = match session {
        Some(s) => seq![("x-pm-uid"@, s.uid@), ("Authorization"@, bearer(s.token_type@, s.access_token@))],
        None => Seq::empty(),
    };
    let cookie = match cookie_line(jar) {
        Some(l) => seq![("Cookie"@, l)],
        None => Seq::empty(),
    };
    auth + cookie
}

/// The fixed product and origin headers, each unless the caller set it.
pub open spec fn default_headers(base: Seq<char>, hs: Seq<(Seq<char>, Seq<char>)>) -> Seq<
    (Seq<char>, Seq<char>),
> {
    let version = if has_header(hs, "x-pm-appversion"@) {
        Seq::empty()
    } else {
        seq![version_header()]
    };
    let origin = if has_header(hs, "Origin"@) {
        Seq::empty()
    } else {
        seq![("Origin"@, base)]
    };
    let referer = if has_header(hs, "Referer"@) {
        Seq::empty()
    } else {
        seq![("Referer"@, base + "/"@)]
    };
    version + origin + referer
}

/// The request sent upstream for a UI request, given the session and the jar.
pub open spec fn outbound_view(
    base: Seq<char>,
    method: Seq<char>,
    url: Seq<char>,
    hs: Seq<(Seq<char>, Seq<char>)>,
    body: Option<Seq<char>>,
    session: Option<AuthSession>,
    jar: Seq<(Seq<char>, Seq<char>)>,
) -> OutboundView {
    OutboundView {
        method: normalized_method(method),
        url: resolved_url(base, url),
        headers: kept_headers(hs) + credential_headers(session, jar) + default_headers(base, hs),
        body,
    }
}

pub open spec fn outbound_for(
    base: Seq<char>,
    req: ProxyRequest,
    session: Option<AuthSession>,
    jar: Seq<(Seq<char>, Seq<char>)>,
) -> OutboundView {
    outbound_view(
        base,
        req.method@,
        req.url@,
        pairs_view(req.headers@),
        match req.body {
            Some(b) => Some(b@),
            None => None,
        },
        session,
        jar,
    )
}

fn text_pair(a: &str, b: &str) -> (r: (String, String))
    ensures
        r.0@ == a@,
        r.1@ == b@,
{
    (String::from_str(a), String::from_str(b))
}

/// Builds the upstream request for a UI request under the given session and jar.
pub fn build_request(
    base: &str,
    req: &ProxyRequest,
    session: &Option<AuthSession>,
    jar: &CookieJar,
) -> (r: OutboundRequest)
    ensures
        r@ == outbound_for(base@, *req, *session, jar.pairs()),
{
    let mut headers = keep_headers(&req.headers);
    let ghost kept = pairs_view(headers@);
    match session {
        Some(s) => {
            headers.push(text_pair("x-pm-uid", s.uid.as_str()));
            let value = s.token_type.clone().concat(" ").concat(s.access_token.as_str());
            headers.push((String::from_str("Authorization"), value));
        },
        None => {},
    }
    match jar.header_value() {
        Some(line) => headers.push((String::from_str("Cookie"), line)),
        None => {},
    }
    let ghost with_credentials = pairs_view(headers@);
    assert(with_credentials =~= kept + credential_headers(*session, jar.pairs()));
    if !contains_header(&req.headers, "x-pm-appversion") {
        headers.push(text_pair("x-pm-appversion", "web-drive@5.0.0"));
    }
    if !contains_header(&req.headers, "Origin") {
        headers.push(text_pair("Origin", base));
    }
    if !contains_header(&req.headers, "Referer") {
        headers.push((String::from_str("Referer"), String::from_str(base).concat("/")));
    }
    assert(pairs_view(headers@) =~= with_credentials + default_headers(
        base@,
        pairs_view(req.headers@),
    ));
    let body = match &req.body {
        Some(b) => Some(b.clone()),
        None => None,
    };
    OutboundRequest {
        method: normalize_method(req.method.as_str()),
        url: resolve_url(base, req.url.as_str()),
        headers,
        body,
    }
}

} // verus!
