use proton_auth::{
    check_auth_info, check_refresh, compute_proofs, conclude_login, decimal_text, info_request,
    ApiMethod, AuthError, AuthInfoResponse, AuthManager, AuthResponse, AuthSession, LoginAction,
    LoginEvent, LoginOutcome, OneShot, PendingTwoFactor, RefreshResponse, Reply, SrpProofs,
    TwoFactorInfo,
};

const BASE: &str = "https://mail.proton.me";

fn info(code: i32, version: i32) -> AuthInfoResponse {
    AuthInfoResponse {
        code,
        modulus: "m".to_string(),
        server_ephemeral: "e".to_string(),
        version,
        salt: "s".to_string(),
        srp_session: "0123456789abcdef".to_string(),
    }
}

fn ok_reply<T>(payload: T) -> Result<Reply<T>, String> {
    Ok(Reply { status: 200, payload: Ok(payload), error_code: None })
}

fn proofs(expected: &str) -> SrpProofs {
    SrpProofs {
        client_ephemeral: "ce".to_string(),
        client_proof: "cp".to_string(),
        expected_server_proof: expected.to_string(),
    }
}

fn auth_response(server_proof: &str, two_fa: Option<TwoFactorInfo>) -> AuthResponse {
    AuthResponse {
        code: 1000,
        uid: "uid-1".to_string(),
        access_token: "acc-1".to_string(),
        refresh_token: "ref-1".to_string(),
        token_type: "Bearer".to_string(),
        server_proof: server_proof.to_string(),
        two_fa,
    }
}

fn session(uid: &str, access: &str, refresh: &str) -> AuthSession {
    AuthSession {
        uid: uid.to_string(),
        access_token: access.to_string(),
        refresh_token: refresh.to_string(),
        token_type: "Bearer".to_string(),
    }
}

fn body_field(pairs: &[(String, String)], key: &str) -> String {
    pairs.iter().find(|(k, _)| k == key).map(|(_, v)| v.clone()).unwrap()
}

#[test]
fn error_codes_are_flattened() {
    assert_eq!(AuthError::TwoFactorRequired.code(), "TWO_FACTOR_REQUIRED");
    assert_eq!(AuthError::HumanVerificationRequired.code(), "HUMAN_VERIFICATION_REQUIRED");
    assert_eq!(AuthError::InvalidCredentials.code(), "Invalid credentials");
    assert_eq!(AuthError::NotAuthenticated.code(), "Not authenticated");
    assert_eq!(AuthError::Network("down".to_string()).code(), "Network error: down");
    assert_eq!(AuthError::Srp("bad".to_string()).code(), "SRP error: bad");
    assert_eq!(AuthError::InvalidResponse("x".to_string()).code(), "Invalid response: x");
}

#[test]
fn decimal_text_matches_display() {
    for n in [0, 7, 10, 1000, 9001, -1, -450, i32::MAX, i32::MIN] {
        assert_eq!(decimal_text(n), n.to_string());
    }
}

#[test]
fn info_request_shape() {
    let r = info_request(BASE, "alice");
    assert_eq!(r.method, ApiMethod::Post);
    assert_eq!(r.url, "https://mail.proton.me/api/auth/v4/info");
    assert_eq!(r.body.unwrap(), vec![("Username".to_string(), "alice".to_string())]);
    assert!(r.headers.contains(&("x-pm-appversion".to_string(), "web-drive@5.0.0".to_string())));
}

#[test]
fn auth_info_errors_are_classified() {
    assert_eq!(
        check_auth_info(Err("timeout".to_string())).unwrap_err(),
        AuthError::Network("timeout".to_string())
    );
    let human = Ok(Reply { status: 422, payload: Err("no".to_string()), error_code: Some(9001) });
    assert_eq!(check_auth_info(human).unwrap_err(), AuthError::HumanVerificationRequired);
    let other = Ok(Reply { status: 422, payload: Err("no".to_string()), error_code: Some(2001) });
    assert_eq!(check_auth_info(other).unwrap_err(), AuthError::InvalidCredentials);
    let unparsed: Result<Reply<AuthInfoResponse>, String> =
        Ok(Reply { status: 200, payload: Err("eof".to_string()), error_code: None });
    assert_eq!(
        check_auth_info(unparsed).unwrap_err(),
        AuthError::InvalidResponse("Failed to parse auth info: eof".to_string())
    );
    assert_eq!(
        check_auth_info(ok_reply(info(1001, 4))).unwrap_err(),
        AuthError::InvalidResponse("Error code: 1001".to_string())
    );
    assert_eq!(check_auth_info(ok_reply(info(1000, 4))).unwrap().srp_session, "0123456789abcdef");
}

#[test]
fn refresh_with_non_ok_code_is_invalid_credentials() {
    let r = RefreshResponse {
        code: 10013,
        access_token: "a".to_string(),
        refresh_token: "r".to_string(),
        token_type: "Bearer".to_string(),
    };
    assert_eq!(check_refresh(ok_reply(r)).unwrap_err(), AuthError::InvalidCredentials);
    let rejected: Result<Reply<RefreshResponse>, String> =
        Ok(Reply { status: 400, payload: Err("x".to_string()), error_code: None });
    assert_eq!(check_refresh(rejected).unwrap_err(), AuthError::InvalidCredentials);
}

#[test]
fn unsupported_version_is_a_protocol_error() {
    assert!(matches!(compute_proofs("alice", "pw", &info(1000, 7)), Err(AuthError::Srp(_))));
    assert!(matches!(compute_proofs("alice", "pw", &info(1000, -1)), Err(AuthError::Srp(_))));
    assert!(matches!(compute_proofs("alice", "pw", &info(1000, 300)), Err(AuthError::Srp(_))));
}

#[test]
fn malformed_parameters_are_a_protocol_error() {
    assert!(matches!(compute_proofs("alice", "pw", &info(1000, 4)), Err(AuthError::Srp(_))));
}

#[test]
fn tampered_server_proof_is_rejected() {
    let expected = "c2VydmVyLXByb29m";
    for i in 0..expected.len() {
        let mut bytes = expected.as_bytes().to_vec();
        bytes[i] = if bytes[i] == b'A' { b'B' } else { b'A' };
        let tampered = String::from_utf8(bytes).unwrap();
        let outcome = conclude_login(&proofs(expected), auth_response(&tampered, None));
        assert!(matches!(outcome, LoginOutcome::Failed(AuthError::InvalidCredentials)));
    }
    let outcome = conclude_login(&proofs(expected), auth_response(expected, None));
    assert!(matches!(outcome, LoginOutcome::Established(_)));
}

#[test]
fn tampered_proof_leaves_store_unchanged() {
    let mut m = AuthManager::new(BASE);
    let outcome = conclude_login(&proofs("good"), auth_response("bad!", None));
    assert_eq!(m.finish_login(outcome).unwrap_err(), AuthError::InvalidCredentials);
    assert!(!m.is_authenticated());
    assert!(m.get_session().is_none());
}

#[test]
fn second_factor_goes_to_pending_first() {
    let mut m = AuthManager::new(BASE);
    let two_fa = Some(TwoFactorInfo { enabled: 1, totp: 1 });
    let outcome = conclude_login(&proofs("p"), auth_response("p", two_fa));
    assert!(matches!(outcome, LoginOutcome::SecondFactorNeeded(_)));
    assert_eq!(m.finish_login(outcome).unwrap_err(), AuthError::TwoFactorRequired);
    assert!(!m.is_authenticated());
    assert!(m.get_session().is_none());

    let (pending, req) = m.submit_2fa("123456").unwrap();
    assert_eq!(req.url, "https://mail.proton.me/api/auth/v4/2fa");
    assert!(req.headers.contains(&("Authorization".to_string(), "Bearer acc-1".to_string())));
    assert!(req.headers.contains(&("x-pm-uid".to_string(), "uid-1".to_string())));
    assert_eq!(body_field(&req.body.unwrap(), "TwoFactorCode"), "123456");

    let wrong = m.finish_2fa(pending.clone(), Ok(422));
    assert_eq!(wrong.unwrap_err(), AuthError::InvalidCredentials);
    assert!(!m.is_authenticated());

    let s = m.finish_2fa(pending, Ok(200)).unwrap();
    assert_eq!(s, session("uid-1", "acc-1", "ref-1"));
    assert!(m.is_authenticated());
    assert!(matches!(m.submit_2fa("1"), Err(AuthError::NotAuthenticated)));
}

#[test]
fn disabled_second_factor_establishes_session() {
    let mut m = AuthManager::new(BASE);
    let two_fa = Some(TwoFactorInfo { enabled: 0, totp: 0 });
    let outcome = conclude_login(&proofs("p"), auth_response("p", two_fa));
    let s = m.finish_login(outcome).unwrap();
    assert_eq!(s.uid, "uid-1");
    assert!(m.is_authenticated());
}

#[test]
fn submit_2fa_without_login_is_not_authenticated() {
    let m = AuthManager::new(BASE);
    assert!(matches!(m.submit_2fa("123456"), Err(AuthError::NotAuthenticated)));
}

#[test]
fn second_factor_transport_failure_keeps_pending() {
    let mut m = AuthManager::new(BASE);
    let pending = PendingTwoFactor {
        uid: "u".to_string(),
        access_token: "a".to_string(),
        refresh_token: "r".to_string(),
        token_type: "Bearer".to_string(),
    };
    let outcome = LoginOutcome::SecondFactorNeeded(pending.clone());
    let _ = m.finish_login(outcome);
    let r = m.finish_2fa(pending, Err("reset".to_string()));
    assert_eq!(r.unwrap_err(), AuthError::Network("reset".to_string()));
    assert!(m.submit_2fa("1").is_ok());
}

#[test]
fn refresh_keeps_identifier_and_replaces_tokens() {
    let mut m = AuthManager::new(BASE);
    m.set_session(session("uid-9", "old-access", "old-refresh"));
    let (current, req) = m.refresh_token().unwrap();
    assert_eq!(req.url, "https://mail.proton.me/api/auth/v4/refresh");
    let body = req.body.unwrap();
    assert_eq!(body_field(&body, "RefreshToken"), "old-refresh");
    assert_eq!(body_field(&body, "GrantType"), "refresh_token");
    assert_eq!(body_field(&body, "ResponseType"), "token");
    assert_eq!(body_field(&body, "UID"), "uid-9");
    let fresh = RefreshResponse {
        code: 1000,
        access_token: "new-access".to_string(),
        refresh_token: "new-refresh".to_string(),
        token_type: "Bearer".to_string(),
    };
    let s = m.finish_refresh(current, ok_reply(fresh)).unwrap();
    assert_eq!(s.uid, "uid-9");
    assert_ne!(s.access_token, "old-access");
    assert_ne!(s.refresh_token, "old-refresh");
    assert_eq!(m.get_session().unwrap(), s);
}

#[test]
fn failed_refresh_keeps_session() {
    let mut m = AuthManager::new(BASE);
    m.set_session(session("u", "a", "r"));
    let (current, _) = m.refresh_token().unwrap();
    let rejected: Result<Reply<RefreshResponse>, String> =
        Ok(Reply { status: 401, payload: Err("x".to_string()), error_code: None });
    assert_eq!(m.finish_refresh(current, rejected).unwrap_err(), AuthError::InvalidCredentials);
    assert_eq!(m.get_session().unwrap(), session("u", "a", "r"));
}

#[test]
fn refresh_without_session_is_not_authenticated() {
    let m = AuthManager::new(BASE);
    assert!(matches!(m.refresh_token(), Err(AuthError::NotAuthenticated)));
}

#[test]
fn logout_without_session_is_a_no_op() {
    let mut m = AuthManager::new(BASE);
    assert!(m.logout().is_none());
    assert!(!m.is_authenticated());
}

#[test]
fn logout_ends_session_and_asks_for_termination() {
    let mut m = AuthManager::new(BASE);
    m.set_session(session("u", "a", "r"));
    let req = m.logout().unwrap();
    assert_eq!(req.method, ApiMethod::Delete);
    assert_eq!(req.url, "https://mail.proton.me/api/auth/v4");
    assert!(req.body.is_none());
    assert!(req.headers.contains(&("Authorization".to_string(), "Bearer a".to_string())));
    assert!(m.get_session().is_none());
}

#[test]
fn out_of_order_reply_ends_login() {
    let m = AuthManager::new(BASE);
    let (mut flow, _) = m.login("alice", "pw");
    let action = flow.step(LoginEvent::AuthReply(ok_reply(auth_response("p", None))));
    assert!(matches!(
        action,
        LoginAction::Done(LoginOutcome::Failed(AuthError::InvalidResponse(_)))
    ));
}

#[test]
fn login_stops_on_human_verification() {
    let m = AuthManager::new(BASE);
    let (mut flow, req) = m.login("alice", "pw");
    assert_eq!(req.url, "https://mail.proton.me/api/auth/v4/info");
    let reply = Ok(Reply { status: 422, payload: Err("x".to_string()), error_code: Some(9001) });
    let action = flow.step(LoginEvent::InfoReply(reply));
    assert!(matches!(
        action,
        LoginAction::Done(LoginOutcome::Failed(AuthError::HumanVerificationRequired))
    ));
}

#[test]
fn one_shot_hands_out_once() {
    let mut slot: OneShot<(String, String)> = OneShot::new();
    assert!(slot.take().is_none());
    slot.store(("token".to_string(), "captcha".to_string()));
    assert_eq!(slot.take(), Some(("token".to_string(), "captcha".to_string())));
    assert!(slot.take().is_none());
}

fn fresh_tokens() -> Result<Reply<RefreshResponse>, String> {
    ok_reply(RefreshResponse {
        code: 1000,
        access_token: "new-access".to_string(),
        refresh_token: "new-refresh".to_string(),
        token_type: "Bearer".to_string(),
    })
}

#[test]
fn refresh_finishing_after_logout_does_not_restore_session() {
    let mut m = AuthManager::new(BASE);
    m.set_session(session("u", "a", "r"));
    let (current, _) = m.refresh_token().unwrap();
    assert!(m.logout().is_some());
    assert_eq!(m.finish_refresh(current, fresh_tokens()).unwrap_err(), AuthError::NotAuthenticated);
    assert!(m.get_session().is_none());
    assert!(!m.is_authenticated());
}

#[test]
fn refresh_finishing_during_second_factor_keeps_pending() {
    let mut m = AuthManager::new(BASE);
    m.set_session(session("uid-1", "a", "r"));
    let (current, _) = m.refresh_token().unwrap();
    let two_fa = Some(TwoFactorInfo { enabled: 1, totp: 1 });
    let outcome = conclude_login(&proofs("p"), auth_response("p", two_fa));
    assert_eq!(m.finish_login(outcome).unwrap_err(), AuthError::TwoFactorRequired);
    assert_eq!(m.finish_refresh(current, fresh_tokens()).unwrap_err(), AuthError::NotAuthenticated);
    assert!(!m.is_authenticated());
    assert!(m.submit_2fa("1").is_ok());
}

#[test]
fn second_factor_for_a_replaced_record_is_not_authenticated() {
    let mut m = AuthManager::new(BASE);
    let two_fa = Some(TwoFactorInfo { enabled: 1, totp: 1 });
    let _ = m.finish_login(conclude_login(&proofs("p"), auth_response("p", two_fa)));
    let (stale, _) = m.submit_2fa("111111").unwrap();
    let newer = PendingTwoFactor {
        uid: "uid-2".to_string(),
        access_token: "acc-2".to_string(),
        refresh_token: "ref-2".to_string(),
        token_type: "Bearer".to_string(),
    };
    let _ = m.finish_login(LoginOutcome::SecondFactorNeeded(newer.clone()));
    assert_eq!(m.finish_2fa(stale, Ok(200)).unwrap_err(), AuthError::NotAuthenticated);
    assert!(!m.is_authenticated());
    let (current, _) = m.submit_2fa("222222").unwrap();
    assert_eq!(current, newer);
}

#[test]
fn second_factor_after_logout_of_nothing_is_not_authenticated() {
    let mut m = AuthManager::new(BASE);
    let pending = PendingTwoFactor {
        uid: "u".to_string(),
        access_token: "a".to_string(),
        refresh_token: "r".to_string(),
        token_type: "Bearer".to_string(),
    };
    assert_eq!(m.finish_2fa(pending, Ok(200)).unwrap_err(), AuthError::NotAuthenticated);
    assert!(m.get_session().is_none());
}
