use vstd::prelude::*;

use crate::api::{
    auth_failure, auth_info_failure, check_auth, check_auth_info, payload_of, proof_request,
    proof_request_view, ApiRequest, AuthInfoResponse, AuthResponse, Reply,
};
use crate::error::AuthError;
use crate::session::{AuthSession, PendingTwoFactor};
use crate::srp::{compare_server_proof, compute_proofs, srp_setup_accepted, SrpProofs};

verus! {

/// Where a login attempt stands.
pub enum LoginStage {
    /// The handshake-parameter request is out.
    AwaitingInfo,
    /// The proofs were submitted; the server's proof must match this run's.
    AwaitingProof(SrpProofs),
    /// The attempt has ended.
    Finished,
}

/// A reply the host hands to a login attempt. `Err` is a transport failure.
pub enum LoginEvent {
    InfoReply(Result<Reply<AuthInfoResponse>, String>),
    AuthReply(Result<Reply<AuthResponse>, String>),
}

/// How a login attempt ends.
#[derive(Debug)]
pub enum LoginOutcome {
    Failed(AuthError),
    Established(AuthSession),
    SecondFactorNeeded(PendingTwoFactor),
}

/// What the host does next for a login attempt.
#[derive(Debug)]
pub enum LoginAction {
    Send(ApiRequest),
    Done(LoginOutcome),
}

/// One login attempt: the identifier and secret it was started with and how
/// far the handshake has gone. The secret leaves the flow only as the input of
/// the password proof.
pub struct LoginFlow {
    base: String,
    username: String,
    password: String,
    stage: LoginStage,
}

/// The session a verified proof-submission reply carries.
pub open spec fn session_of(a: AuthResponse) -> AuthSession {
    AuthSession {
        uid: a.uid,
        access_token: a.access_token,
        refresh_token: a.refresh_token,
        token_type: a.token_type,
    }
}

/// The same credentials, held back until a second factor is accepted.
pub open spec fn pending_of(a: AuthResponse) -> PendingTwoFactor {
    PendingTwoFactor {
        uid: a.uid,
        access_token: a.access_token,
        refresh_token: a.refresh_token,
        token_type: a.token_type,
    }
}

pub open spec fn requires_second_factor(a: AuthResponse) -> bool {
    a.two_fa is Some && a.two_fa->Some_0.enabled != 0
}

/// How a decoded, successful proof-submission reply ends the attempt: a server
/// proof other than the expected one is a credentials failure; otherwise the
/// session is live, or held back when the second factor is enabled.
pub open spec fn login_verdict(proofs: SrpProofs, a: AuthResponse) -> LoginOutcome {
    if proofs.expected_server_proof@ != a.server_proof@ {
        LoginOutcome::Failed(AuthError::InvalidCredentials)
    } else if requires_second_factor(a) {
        LoginOutcome::SecondFactorNeeded(pending_of(a))
    } else {
        LoginOutcome::Established(session_of(a))
    }
}

/// A server proof that differs from the expected one in a single character
/// never establishes a session: the attempt fails with `InvalidCredentials`.
pub proof fn lemma_tampered_server_proof_rejected(proofs: SrpProofs, a: AuthResponse, i: int, c: char)
    requires
        0 <= i < proofs.expected_server_proof@.len(),
        c != proofs.expected_server_proof@[i],
        a.server_proof@ == proofs.expected_server_proof@.update(i, c),
    ensures
        login_verdict(proofs, a) == LoginOutcome::Failed(AuthError::InvalidCredentials),
{
    assert(a.server_proof@[i] != proofs.expected_server_proof@[i]);
}

/// Ends a login attempt from the reply to the proof submission and the
/// proofs of the same run.
pub fn conclude_login(proofs: &SrpProofs, a: AuthResponse) -> (r: LoginOutcome)
    ensures
        r == login_verdict(*proofs, a),
{
    if !compare_server_proof(proofs, a.server_proof.as_str()) {
        return LoginOutcome::Failed(AuthError::InvalidCredentials);
    }
    let second = match a.two_fa {
        Some(t) => t.enabled != 0,
        None => false,
    };
    if second {
        LoginOutcome::SecondFactorNeeded(
            PendingTwoFactor {
                uid: a.uid,
                access_token: a.access_token,
                refresh_token: a.refresh_token,
                token_type: a.token_type,
            },
        )
    } else {
        LoginOutcome::Established(
            AuthSession {
                uid: a.uid,
                access_token: a.access_token,
                refresh_token: a.refresh_token,
                token_type: a.token_type,
            },
        )
    }
}

impl LoginFlow {
    pub closed spec fn base(&self) -> Seq<char> {
        self.base@
    }

    pub closed spec fn username(&self) -> Seq<char> {
        self.username@
    }

    /// The secret the attempt proves knowledge of.
    pub closed spec fn password(&self) -> Seq<char> {
        self.password@
    }

    pub closed spec fn stage(&self) -> LoginStage {
        self.stage
    }

    /// A new attempt for `username`, waiting for the handshake parameters.
    pub fn start(base: &str, username: &str, password: &str) -> (r: LoginFlow)
        ensures
            r.base() == base@,
            r.username() == username@,
            r.password() == password@,
            r.stage() is AwaitingInfo,
    {
        LoginFlow {
            base: String::from_str(base),
            username: String::from_str(username),
            password: String::from_str(password),
            stage: LoginStage::AwaitingInfo,
        }
    }

    /// Advances the attempt with the reply the host received.
    ///
    /// Parameters that the identity service refused end the attempt with the
    /// matching error; usable parameters lead to the proof submission, unless
    /// the proof computation fails. The reply to the submission ends the
    /// attempt as `login_verdict` says. A reply that does not fit the stage
    /// ends the attempt with an `InvalidResponse` error.
    pub fn step(&mut self, event: LoginEvent) -> (r: LoginAction)
        ensures
            final(self).base() == old(self).base(),
            final(self).username() == old(self).username(),
            final(self).password() == old(self).password(),
            r is Done ==> final(self).stage() is Finished,
            r is Send ==> final(self).stage() is AwaitingProof,
            match (old(self).stage(), event) {
                (LoginStage::AwaitingInfo, LoginEvent::InfoReply(x)) => match auth_info_failure(x) {
                    Some(e) => r matches LoginAction::Done(LoginOutcome::Failed(err)) && err@ == e,
                    None => {
                        &&& !(0 <= payload_of(x).version <= 4) ==> (r matches LoginAction::Done(
                            LoginOutcome::Failed(AuthError::Srp(_)),
                        ))
                        &&& !srp_setup_accepted(
                            old(self).username(),
                            old(self).password(),
                            payload_of(x).version as int,
                            payload_of(x).salt@,
                            payload_of(x).modulus@,
                            payload_of(x).server_ephemeral@,
                        ) ==> (r matches LoginAction::Done(LoginOutcome::Failed(AuthError::Srp(_))))
                        &&& r is Send ==> srp_setup_accepted(
                            old(self).username(),
                            old(self).password(),
                            payload_of(x).version as int,
                            payload_of(x).salt@,
                            payload_of(x).modulus@,
                            payload_of(x).server_ephemeral@,
                        )
                        &&& r is Done ==> (r->Done_0 matches LoginOutcome::Failed(AuthError::Srp(_)))
                        &&& r is Send ==> (final(self).stage() matches LoginStage::AwaitingProof(p)
                            && r->Send_0@ == proof_request_view(
                            old(self).base(),
                            old(self).username(),
                            p.client_ephemeral@,
                            p.client_proof@,
                            payload_of(x).srp_session@,
                        ))
                    },
                },
                (LoginStage::AwaitingProof(p), LoginEvent::AuthReply(x)) => match auth_failure(x) {
                    Some(e) => r matches LoginAction::Done(LoginOutcome::Failed(err)) && err@ == e,
                    None => r == LoginAction::Done(login_verdict(p, payload_of(x))),
                },
                _ => r matches LoginAction::Done(
                    LoginOutcome::Failed(AuthError::InvalidResponse(_)),
                ),
            },
    {
        let mut stage = LoginStage::Finished;
        std::mem::swap(&mut self.stage, &mut stage);
        match (stage, event) {
            (LoginStage::AwaitingInfo, LoginEvent::InfoReply(x)) => {
                let info = match check_auth_info(x) {
                    Ok(info) => info,
                    Err(e) => return LoginAction::Done(LoginOutcome::Failed(e)),
                };
                let proofs = match compute_proofs(self.username.as_str(), self.password.as_str(), &info) {
                    Ok(p) => p,
                    Err(e) => return LoginAction::Done(LoginOutcome::Failed(e)),
                };
                let req = proof_request(
                    self.base.as_str(),
                    self.username.as_str(),
                    proofs.client_ephemeral.as_str(),
                    proofs.client_proof.as_str(),
                    info.srp_session.as_str(),
                );
                self.stage = LoginStage::AwaitingProof(proofs);
                LoginAction::Send(req)
            },
            (LoginStage::AwaitingProof(proofs), LoginEvent::AuthReply(x)) => {
                match check_auth(x) {
                    Ok(a) => LoginAction::Done(conclude_login(&proofs, a)),
                    Err(e) => LoginAction::Done(LoginOutcome::Failed(e)),
                }
            },
            _ => LoginAction::Done(
                LoginOutcome::Failed(AuthError::InvalidResponse(String::from_str("unexpected reply"))),
            ),
        }
    }
}

} // verus!
