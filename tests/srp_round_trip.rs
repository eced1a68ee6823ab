use proton_auth::{
    AuthError, AuthInfoResponse, AuthManager, AuthResponse, LoginAction, LoginEvent, LoginOutcome,
    Reply,
};
use proton_srp::{
    RPGPVerifier, SRPAuth, SRPVerifierB64, ServerClientProof, ServerClientVerifier,
    ServerInteraction,
};

const MODULUS: &str = "-----BEGIN PGP SIGNED MESSAGE-----\nHash: SHA256\n\nW2z5HBi8RvsfYzZTS7qBaUxxPhsfHJFZpu3Kd6s1JafNrCCH9rfvPLrfuqocxWPgWDH2R8neK7PkNvjxto9TStuY5z7jAzWRvFWN9cQhAKkdWgy0JY6ywVn22+HFpF4cYesHrqFIKUPDMSSIlWjBVmEJZ/MusD44ZT29xcPrOqeZvwtCffKtGAIjLYPZIEbZKnDM1Dm3q2K/xS5h+xdhjnndhsrkwm9U9oyA2wxzSXFL+pdfj2fOdRwuR5nW0J2NFrq3kJjkRmpO/Genq1UW+TEknIWAb6VzJJJA244K/H8cnSx2+nSNZO3bbo6Ys228ruV9A8m6DhxmS+bihN3ttQ==\n-----BEGIN PGP SIGNATURE-----\nVersion: ProtonMail\nComment: https://protonmail.com\n\nwl4EARYIABAFAlwB1j0JEDUFhcTpUY8mAAD8CgEAnsFnF4cF0uSHKkXa1GIa\nGO86yMV4zDZEZcDSJo0fgr8A/AlupGN9EdHlsrZLmTA1vhIx+rOgxdEff28N\nkvNM7qIK\n=q6vu\n-----END PGP SIGNATURE-----";

/// Runs a login of `password` against a seeded account on an in-process SRP
/// server and hands the server's proof through `alter` before the client sees it.
fn login_against_server(password: &str, alter: impl Fn(String) -> String) -> (AuthManager, LoginOutcome) {
    let seeded: SRPVerifierB64 = SRPAuth::generate_verifier_with_pgp(password, None, MODULUS)
        .expect("verifier")
        .into();
    let server_verifier = ServerClientVerifier::try_from(&seeded).expect("decode verifier");
    let mut server =
        ServerInteraction::new_with_modulus_extractor(&RPGPVerifier::default(), MODULUS, &server_verifier)
            .expect("server");
    let challenge = server.generate_challenge();

    let manager = AuthManager::new("https://mail.proton.me");
    let (mut flow, _) = manager.login("alice", password);
    let info = AuthInfoResponse {
        code: 1000,
        modulus: MODULUS.to_string(),
        server_ephemeral: challenge.encode_b64(),
        version: 4,
        salt: seeded.salt.clone(),
        srp_session: "handshake-1".to_string(),
    };
    let action = flow.step(LoginEvent::InfoReply(Ok(Reply { status: 200, payload: Ok(info), error_code: None })));
    let req = match action {
        LoginAction::Send(req) => req,
        other => panic!("expected the proof submission, got {:?}", other),
    };
    assert_eq!(req.url, "https://mail.proton.me/api/auth/v4");
    let body = req.body.expect("json body");
    let field = |k: &str| body.iter().find(|(n, _)| n == k).map(|(_, v)| v.clone()).unwrap();
    assert_eq!(field("Username"), "alice");
    assert_eq!(field("SRPSession"), "handshake-1");
    assert!(body.iter().all(|(_, v)| v != password));
    assert_eq!(field("ClientEphemeral").len(), 344);
    assert_eq!(field("ClientProof").len(), 344);

    let client_proof = ServerClientProof::new(&field("ClientEphemeral"), &field("ClientProof")).expect("decode");
    let server_proof = server.verify_proof(&client_proof).expect("server accepts the client proof");
    let reply = AuthResponse {
        code: 1000,
        uid: "uid-7".to_string(),
        access_token: "access".to_string(),
        refresh_token: "refresh".to_string(),
        token_type: "Bearer".to_string(),
        server_proof: alter(server_proof.encode_b64()),
        two_fa: None,
    };
    let action = flow.step(LoginEvent::AuthReply(Ok(Reply { status: 200, payload: Ok(reply), error_code: None })));
    match action {
        LoginAction::Done(outcome) => (manager, outcome),
        other => panic!("expected the end of the login, got {:?}", other),
    }
}

#[test]
fn login_matches_server_proof() {
    let (mut manager, outcome) = login_against_server("password", |p| p);
    let session = manager.finish_login(outcome).expect("login succeeds");
    assert_eq!(session.uid, "uid-7");
    assert!(manager.is_authenticated());
}

#[test]
fn login_rejects_altered_server_proof() {
    let (mut manager, outcome) = login_against_server("password", |p| {
        let mut bytes = p.into_bytes();
        bytes[5] = if bytes[5] == b'A' { b'B' } else { b'A' };
        String::from_utf8(bytes).unwrap()
    });
    assert_eq!(manager.finish_login(outcome).unwrap_err(), AuthError::InvalidCredentials);
    assert!(!manager.is_authenticated());
}
