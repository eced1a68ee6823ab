use proton_auth::{
    build_request, flatten_headers, is_reserved, normalize_method, parse_set_cookie, resolve_url,
    AuthSession, CookieJar, ForwardAction, ForwardEvent, Gateway, ProxyRequest, UpstreamResponse,
    API_BASE,
};

fn s(x: &str) -> String {
    x.to_string()
}

fn request(method: &str, url: &str, headers: &[(&str, &str)]) -> ProxyRequest {
    ProxyRequest {
        method: s(method),
        url: s(url),
        headers: headers.iter().map(|(k, v)| (s(k), s(v))).collect(),
        body: Some(s("{}")),
    }
}

fn response(status: u16, headers: &[(&str, Option<&str>)]) -> UpstreamResponse {
    UpstreamResponse {
        status,
        headers: headers.iter().map(|(k, v)| (s(k), v.map(s))).collect(),
        body: format!("body-{}", status),
    }
}

fn session(access: &str) -> AuthSession {
    AuthSession { uid: s("uid-1"), access_token: s(access), refresh_token: s("r"), token_type: s("Bearer") }
}

fn header<'a>(hs: &'a [(String, String)], name: &str) -> Vec<&'a str> {
    hs.iter().filter(|(k, _)| k == name).map(|(_, v)| v.as_str()).collect()
}

#[test]
fn urls_are_resolved_against_the_api_base() {
    assert_eq!(resolve_url(API_BASE, "/api/core/v4/users"), "https://mail.proton.me/api/core/v4/users");
    assert_eq!(resolve_url(API_BASE, "api/core/v4/users"), "https://mail.proton.me/api/core/v4/users");
    assert_eq!(resolve_url(API_BASE, "https://localhost/api/drive/shares"), "https://mail.proton.me/api/drive/shares");
    assert_eq!(resolve_url(API_BASE, "http://localhost/api/x?y=1"), "https://mail.proton.me/api/x?y=1");
    assert_eq!(resolve_url(API_BASE, "tauri://localhost/api/auth"), "https://mail.proton.me/api/auth");
    assert_eq!(resolve_url(API_BASE, "tauri://localhost/assets/a.js"), "tauri://localhost/assets/a.js");
    assert_eq!(resolve_url(API_BASE, "https://verify.proton.me/x"), "https://verify.proton.me/x");
    assert_eq!(resolve_url(API_BASE, ""), "https://mail.proton.me/");
}

#[test]
fn methods_are_uppercased_or_default_to_get() {
    assert_eq!(normalize_method("post"), "POST");
    assert_eq!(normalize_method("Delete"), "DELETE");
    assert_eq!(normalize_method("PROPFIND"), "PROPFIND");
    assert_eq!(normalize_method(""), "GET");
    assert_eq!(normalize_method("GE T"), "GET");
    assert_eq!(normalize_method("gét"), "GET");
}

#[test]
fn reserved_headers_ignore_case() {
    assert!(is_reserved("Host"));
    assert!(is_reserved("COOKIE"));
    assert!(is_reserved("authorization"));
    assert!(is_reserved("X-Pm-Uid"));
    assert!(!is_reserved("x-pm-appversion"));
    assert!(!is_reserved("Content-Type"));
}

#[test]
fn set_cookie_lines_are_split() {
    assert_eq!(parse_set_cookie("sessionId=abc; Path=/; Secure"), Some((s("sessionId"), s("abc"))));
    assert_eq!(parse_set_cookie("a=b=c"), Some((s("a"), s("b=c"))));
    assert_eq!(parse_set_cookie("empty="), Some((s("empty"), s(""))));
    assert_eq!(parse_set_cookie("novalue; Path=/"), None);
    assert_eq!(parse_set_cookie("=abc"), None);
}

#[test]
fn cookie_jar_replays_by_name() {
    let mut jar = CookieJar::new();
    assert_eq!(jar.header_value(), None);
    jar.record("a=1; Path=/");
    jar.record("b=2");
    jar.record("a=3");
    jar.record("junk");
    assert_eq!(jar.header_value(), Some(s("a=3; b=2")));
}

#[test]
fn response_headers_are_flattened() {
    let r = response(
        200,
        &[
            ("content-type", Some("text/plain")),
            ("set-cookie", Some("a=1; Path=/")),
            ("x-dup", Some("first")),
            ("Set-Cookie", Some("b=2")),
            ("x-bin", None),
            ("x-dup", Some("second")),
        ],
    );
    let (flat, cookies) = flatten_headers(&r.headers);
    assert_eq!(cookies, vec![s("a=1; Path=/"), s("b=2")]);
    assert_eq!(
        flat,
        vec![
            (s("content-type"), s("text/plain")),
            (s("x-dup"), s("second")),
            (s("x-set-cookie"), s("a=1; Path=/|||b=2")),
        ]
    );
}

#[test]
fn outbound_request_gets_credentials_and_defaults() {
    let jar = CookieJar::new();
    let req = request(
        "get",
        "/api/core/v4/users",
        &[("Cookie", "x=1"), ("host", "evil"), ("Authorization", "mine"), ("x-pm-uid", "me"), ("Accept", "*/*")],
    );
    let out = build_request(API_BASE, &req, &Some(session("tok")), &jar);
    assert_eq!(out.method, "GET");
    assert_eq!(out.url, "https://mail.proton.me/api/core/v4/users");
    assert_eq!(out.body, Some(s("{}")));
    assert_eq!(header(&out.headers, "Accept"), vec!["*/*"]);
    assert_eq!(header(&out.headers, "Authorization"), vec!["Bearer tok"]);
    assert_eq!(header(&out.headers, "x-pm-uid"), vec!["uid-1"]);
    assert!(header(&out.headers, "Cookie").is_empty());
    assert!(header(&out.headers, "host").is_empty());
    assert_eq!(header(&out.headers, "x-pm-appversion"), vec!["web-drive@5.0.0"]);
    assert_eq!(header(&out.headers, "Origin"), vec!["https://mail.proton.me"]);
    assert_eq!(header(&out.headers, "Referer"), vec!["https://mail.proton.me/"]);
}

#[test]
fn caller_defaults_are_kept() {
    let jar = CookieJar::new();
    let req = request("POST", "/api/x", &[("origin", "https://account.proton.me"), ("X-PM-APPVERSION", "web-account@5")]);
    let out = build_request(API_BASE, &req, &None, &jar);
    assert!(header(&out.headers, "Origin").is_empty());
    assert!(header(&out.headers, "x-pm-appversion").is_empty());
    assert_eq!(header(&out.headers, "origin"), vec!["https://account.proton.me"]);
    assert!(header(&out.headers, "Authorization").is_empty());
}

#[test]
fn cookie_from_one_response_is_sent_on_the_next_request() {
    let mut gw = Gateway::new(API_BASE);
    let (mut flow, first) = gw.forward(request("GET", "/api/a", &[]), None);
    assert!(header(&first.headers, "Cookie").is_empty());
    let reply = response(200, &[("set-cookie", Some("sessionId=abc; Path=/; HttpOnly"))]);
    let action = gw.forward_step(&mut flow, ForwardEvent::Upstream(Ok(reply)));
    match action {
        ForwardAction::Respond(Ok(r)) => {
            assert_eq!(r.status, 200);
            assert_eq!(header(&r.headers, "x-set-cookie"), vec!["sessionId=abc; Path=/; HttpOnly"]);
        }
        other => panic!("unexpected {:?}", other),
    }
    let (_, second) = gw.forward(request("GET", "/api/b", &[]), None);
    assert_eq!(header(&second.headers, "Cookie"), vec!["sessionId=abc"]);
}

#[test]
fn unauthorized_triggers_one_refresh_and_one_retry() {
    let mut gw = Gateway::new(API_BASE);
    let (mut flow, first) = gw.forward(request("GET", "/api/a", &[]), Some(session("old")));
    assert_eq!(header(&first.headers, "Authorization"), vec!["Bearer old"]);
    let a1 = gw.forward_step(&mut flow, ForwardEvent::Upstream(Ok(response(401, &[]))));
    assert!(matches!(a1, ForwardAction::Refresh));
    let a2 = gw.forward_step(&mut flow, ForwardEvent::Refreshed(Some(session("new"))));
    match a2 {
        ForwardAction::Send(out) => assert_eq!(header(&out.headers, "Authorization"), vec!["Bearer new"]),
        other => panic!("unexpected {:?}", other),
    }
    let a3 = gw.forward_step(&mut flow, ForwardEvent::Upstream(Ok(response(401, &[]))));
    match a3 {
        ForwardAction::Respond(Ok(r)) => assert_eq!(r.status, 401),
        other => panic!("unexpected {:?}", other),
    }
    let a4 = gw.forward_step(&mut flow, ForwardEvent::Upstream(Ok(response(401, &[]))));
    assert!(matches!(a4, ForwardAction::Respond(Err(_))));
}

#[test]
fn failed_refresh_returns_first_response() {
    let mut gw = Gateway::new(API_BASE);
    let (mut flow, _) = gw.forward(request("GET", "/api/a", &[]), Some(session("old")));
    let _ = gw.forward_step(&mut flow, ForwardEvent::Upstream(Ok(response(401, &[("x-a", Some("1"))]))));
    match gw.forward_step(&mut flow, ForwardEvent::Refreshed(None)) {
        ForwardAction::Respond(Ok(r)) => {
            assert_eq!(r.status, 401);
            assert_eq!(r.body, "body-401");
            assert_eq!(header(&r.headers, "x-a"), vec!["1"]);
        }
        other => panic!("unexpected {:?}", other),
    }
}

#[test]
fn unauthorized_without_session_is_passed_through() {
    let mut gw = Gateway::new(API_BASE);
    let (mut flow, _) = gw.forward(request("GET", "/api/a", &[]), None);
    match gw.forward_step(&mut flow, ForwardEvent::Upstream(Ok(response(401, &[])))) {
        ForwardAction::Respond(Ok(r)) => assert_eq!(r.status, 401),
        other => panic!("unexpected {:?}", other),
    }
}

#[test]
fn other_errors_are_passed_through() {
    for status in [403u16, 404, 500, 503] {
        let mut gw = Gateway::new(API_BASE);
        let (mut flow, _) = gw.forward(request("GET", "/api/a", &[]), Some(session("t")));
        match gw.forward_step(&mut flow, ForwardEvent::Upstream(Ok(response(status, &[])))) {
            ForwardAction::Respond(Ok(r)) => assert_eq!(r.status, status),
            other => panic!("unexpected {:?}", other),
        }
    }
}

#[test]
fn transport_failure_is_reported() {
    let mut gw = Gateway::new(API_BASE);
    let (mut flow, _) = gw.forward(request("GET", "/api/a", &[]), None);
    match gw.forward_step(&mut flow, ForwardEvent::Upstream(Err(s("connection refused")))) {
        ForwardAction::Respond(Err(m)) => assert_eq!(m, "Request failed: connection refused"),
        other => panic!("unexpected {:?}", other),
    }
}

#[test]
fn cookie_survives_later_lines_for_other_names() {
    let mut gw = Gateway::new(API_BASE);
    let (mut flow, _) = gw.forward(request("GET", "/api/a", &[]), None);
    let reply = response(
        200,
        &[("set-cookie", Some("sessionId=abc; Path=/; Secure")), ("set-cookie", Some("other=1"))],
    );
    let _ = gw.forward_step(&mut flow, ForwardEvent::Upstream(Ok(reply)));
    let (_, second) = gw.forward(request("GET", "/api/b", &[("Cookie", "sessionId=forged")]), None);
    assert_eq!(header(&second.headers, "Cookie"), vec!["sessionId=abc; other=1"]);
}
