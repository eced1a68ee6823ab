use vstd::prelude::*;

use crate::api::{
    info_request, info_request_view, is_success, logout_request, logout_request_view, payload_of,
    refresh_failure, refresh_request, refresh_request_view, second_factor_request,
    second_factor_request_view, check_refresh, ApiRequest, AuthResponse, RefreshResponse, Reply,
};
use crate::error::AuthError;
use crate::login::{
    login_verdict, pending_of, requires_second_factor, LoginFlow, LoginOutcome,
};
use crate::srp::SrpProofs;
use crate::session::{promoted, AuthSession, AuthState, PendingTwoFactor};

verus! {

/// The session store of one client together with the identity service it
/// talks to. The host keeps it behind a lock that is held only while one of
/// these methods runs, never across a network exchange.
pub struct AuthManager {
    base_url: String,
    state: AuthState,
}

/// The store after a login attempt ends: a live session replaces whatever was
/// held, a held-back session waits for its second factor, a failure changes nothing.
pub open spec fn settled_state(st: AuthState, o: LoginOutcome) -> AuthState {
    match o {
        LoginOutcome::Failed(_) => st,
        LoginOutcome::Established(s) => AuthState::Active(s),
        LoginOutcome::SecondFactorNeeded(p) => AuthState::AwaitingSecondFactor(p),
    }
}

/// What the caller of a login learns.
pub open spec fn settled_result(o: LoginOutcome) -> Result<AuthSession, AuthError> {
    match o {
        LoginOutcome::Failed(e) => Err(e),
        LoginOutcome::Established(s) => Ok(s),
        LoginOutcome::SecondFactorNeeded(_) => Err(AuthError::TwoFactorRequired),
    }
}

/// The session after a renewal: same identifier, the server's new tokens.
pub open spec fn renewed(current: AuthSession, fresh: RefreshResponse) -> AuthSession {
    AuthSession {
        uid: current.uid,
        access_token: fresh.access_token,
        refresh_token: fresh.refresh_token,
        token_type: fresh.token_type,
    }
}

/// Whether the store holds a pending record with the same credentials as `p`.
pub open spec fn holds_pending(st: AuthState, p: PendingTwoFactor) -> bool {
    match st {
        AuthState::AwaitingSecondFactor(q) => q.uid@ == p.uid@ && q.access_token@ == p.access_token@
            && q.refresh_token@ == p.refresh_token@ && q.token_type@ == p.token_type@,
        _ => false,
    }
}

/// Whether the store holds a live session with identifier `uid`.
pub open spec fn holds_session_of(st: AuthState, uid: Seq<char>) -> bool {
    match st {
        AuthState::Active(s) => s.uid@ == uid,
        _ => false,
    }
}

/// The store after a renewal of `current` ends with `reply`: only a usable
/// reply for the session still held changes it.
pub open spec fn refreshed_state(
    st: AuthState,
    current: AuthSession,
    reply: Result<Reply<RefreshResponse>, String>,
) -> AuthState {
    if holds_session_of(st, current.uid@) && refresh_failure(reply) is None {
        AuthState::Active(renewed(current, payload_of(reply)))
    } else {
        st
    }
}

/// A renewal never ends a wait for the second factor: whatever its reply, a
/// store that holds a pending record keeps it and still has no live session.
pub proof fn lemma_pending_survives_refresh(
    st: AuthState,
    current: AuthSession,
    reply: Result<Reply<RefreshResponse>, String>,
)
    requires
        st.pending() is Some,
    ensures
        refreshed_state(st, current, reply) == st,
        refreshed_state(st, current, reply).session() is None,
{
}

/// A verified reply that enables the second factor never puts a live session
/// in the store: the credentials wait as the pending record, the caller is told
/// a second factor is required, and the store reports no authentication.
pub proof fn lemma_second_factor_held_back(proofs: SrpProofs, a: AuthResponse, st: AuthState)
    requires
        proofs.expected_server_proof@ == a.server_proof@,
        requires_second_factor(a),
    ensures
        login_verdict(proofs, a) == LoginOutcome::SecondFactorNeeded(pending_of(a)),
        settled_state(st, login_verdict(proofs, a)).session() is None,
        settled_state(st, login_verdict(proofs, a)).pending() == Some(pending_of(a)),
        settled_result(login_verdict(proofs, a)) == Err::<AuthSession, AuthError>(
            AuthError::TwoFactorRequired,
        ),
{
}

/// A failed login attempt leaves the store as it was.
pub proof fn lemma_failed_login_keeps_store(proofs: SrpProofs, a: AuthResponse, st: AuthState)
    requires
        proofs.expected_server_proof@ != a.server_proof@,
    ensures
        settled_state(st, login_verdict(proofs, a)) == st,
        settled_result(login_verdict(proofs, a)) == Err::<AuthSession, AuthError>(
            AuthError::InvalidCredentials,
        ),
{
}

/// A fresh store holds no pending record, so a second-factor submission
/// before any login is `NotAuthenticated`; nothing survives a restart.
pub proof fn lemma_fresh_store_has_nothing_pending(m: AuthManager)
    requires
        m.state() == AuthState::Empty,
    ensures
        m.state().pending() is None,
        m.state().session() is None,
{
}

/// A renewal keeps the session's identifier and, when the server issues new
/// tokens, replaces both of them.
pub proof fn lemma_refresh_keeps_identity(current: AuthSession, reply: Result<Reply<RefreshResponse>, String>)
    requires
        refresh_failure(reply) is None,
        payload_of(reply).access_token@ != current.access_token@,
        payload_of(reply).refresh_token@ != current.refresh_token@,
    ensures
        renewed(current, payload_of(reply)).uid == current.uid,
        renewed(current, payload_of(reply)).access_token@ != current.access_token@,
        renewed(current, payload_of(reply)).refresh_token@ != current.refresh_token@,
{
}

impl AuthManager {
    pub closed spec fn base(&self) -> Seq<char> {
        self.base_url@
    }

    pub closed spec fn state(&self) -> AuthState {
        self.state
    }

    /// A manager for the identity service at `base_url`, holding nothing.
    pub fn new(base_url: &str) -> (r: AuthManager)
        ensures
            r.base() == base_url@,
            r.state() == AuthState::Empty,
    {
        AuthManager { base_url: String::from_str(base_url), state: AuthState::Empty }
    }

    /// Starts a login: the attempt and the handshake-parameter request to send.
    /// Drive the attempt with `LoginFlow::step` and end it with `finish_login`.
    pub fn login(&self, username: &str, password: &str) -> (r: (LoginFlow, ApiRequest))
        ensures
            r.0.base() == self.base(),
            r.0.username() == username@,
            r.0.password() == password@,
            r.0.stage() is AwaitingInfo,
            r.1@ == info_request_view(self.base(), username@),
    {
        let flow = LoginFlow::start(self.base_url.as_str(), username, password);
        let req = info_request(self.base_url.as_str(), username);
        (flow, req)
    }

    /// Records how a login attempt ended and reports it to the caller.
    pub fn finish_login(&mut self, outcome: LoginOutcome) -> (r: Result<AuthSession, AuthError>)
        ensures
            final(self).base() == old(self).base(),
            final(self).state() == settled_state(old(self).state(), outcome),
            r == settled_result(outcome),
    {
        match outcome {
            LoginOutcome::Failed(e) => Err(e),
            LoginOutcome::Established(s) => {
                self.state = AuthState::Active(s.clone());
                Ok(s)
            },
            LoginOutcome::SecondFactorNeeded(p) => {
                self.state = AuthState::AwaitingSecondFactor(p);
                Err(AuthError::TwoFactorRequired)
            },
        }
    }

    /// Starts a second-factor submission: the pending record it is made for
    /// and the request to send. Without a pending record (no login asked for
    /// one) it is `NotAuthenticated`.
    pub fn submit_2fa(&self, code: &str) -> (r: Result<(PendingTwoFactor, ApiRequest), AuthError>)
        ensures
            match self.state().pending() {
                None => r == Err::<(PendingTwoFactor, ApiRequest), AuthError>(
                    AuthError::NotAuthenticated,
                ),
                Some(p) => r matches Ok((q, req)) && q == p && req@
                    == second_factor_request_view(self.base(), p, code@),
            },
    {
        match &self.state {
            AuthState::AwaitingSecondFactor(p) => {
                let req = second_factor_request(self.base_url.as_str(), p, code);
                Ok((p.clone(), req))
            },
            _ => Err(AuthError::NotAuthenticated),
        }
    }

    /// Ends a second-factor submission from the reply status (`Err` is a
    /// transport failure). If the store no longer holds the pending record the
    /// submission was made for, it is `NotAuthenticated` and nothing changes.
    /// Otherwise acceptance turns the pending record into the live session in
    /// one step; any other status is `InvalidCredentials`.
    pub fn finish_2fa(&mut self, pending: PendingTwoFactor, reply: Result<u16, String>) -> (r: Result<
        AuthSession,
        AuthError,
    >)
        ensures
            final(self).base() == old(self).base(),
            if !holds_pending(old(self).state(), pending) {
                r == Err::<AuthSession, AuthError>(AuthError::NotAuthenticated) && final(self).state()
                    == old(self).state()
            } else {
                match reply {
                    Err(m) => r matches Err(AuthError::Network(t)) && t@ == m@
                        && final(self).state() == old(self).state(),
                    Ok(status) => if is_success(status) {
                        r == Ok::<AuthSession, AuthError>(promoted(pending)) && final(self).state()
                            == AuthState::Active(promoted(pending))
                    } else {
                        r == Err::<AuthSession, AuthError>(AuthError::InvalidCredentials)
                            && final(self).state() == old(self).state()
                    },
                }
            },
    {
        let held = match &self.state {
            AuthState::AwaitingSecondFactor(p) => p.uid == pending.uid && p.access_token
                == pending.access_token && p.refresh_token == pending.refresh_token && p.token_type
                == pending.token_type,
            _ => false,
        };
        if !held {
            return Err(AuthError::NotAuthenticated);
        }
        match reply {
            Err(m) => Err(AuthError::Network(m)),
            Ok(status) => {
                if status < 200 || status > 299 {
                    return Err(AuthError::InvalidCredentials);
                }
                let session = pending.promote();
                self.state = AuthState::Active(session.clone());
                Ok(session)
            },
        }
    }

    /// Starts a token renewal: the session it renews and the request to send.
    /// Without a live session it is `NotAuthenticated`.
    pub fn refresh_token(&self) -> (r: Result<(AuthSession, ApiRequest), AuthError>)
        ensures
            match self.state().session() {
                None => r == Err::<(AuthSession, ApiRequest), AuthError>(
                    AuthError::NotAuthenticated,
                ),
                Some(s) => r matches Ok((c, req)) && c == s && req@ == refresh_request_view(
                    self.base(),
                    s,
                ),
            },
    {
        match &self.state {
            AuthState::Active(s) => {
                let req = refresh_request(self.base_url.as_str(), s);
                Ok((s.clone(), req))
            },
            _ => Err(AuthError::NotAuthenticated),
        }
    }

    /// Ends a token renewal of `current` from the reply. If the store no
    /// longer holds a session with `current`'s identifier (a logout or a new
    /// login came in between), it is `NotAuthenticated` and nothing changes.
    /// Otherwise a usable reply replaces both tokens and keeps the identifier;
    /// any other reply leaves the store as it was and says why.
    pub fn finish_refresh(
        &mut self,
        current: AuthSession,
        reply: Result<Reply<RefreshResponse>, String>,
    ) -> (r: Result<AuthSession, AuthError>)
        ensures
            final(self).base() == old(self).base(),
            final(self).state() == refreshed_state(old(self).state(), current, reply),
            if !holds_session_of(old(self).state(), current.uid@) {
                r == Err::<AuthSession, AuthError>(AuthError::NotAuthenticated)
            } else {
                match refresh_failure(reply) {
                    Some(e) => r matches Err(err) && err@ == e,
                    None => r == Ok::<AuthSession, AuthError>(renewed(current, payload_of(reply))),
                }
            },
    {
        let held = match &self.state {
            AuthState::Active(s) => s.uid == current.uid,
            _ => false,
        };
        if !held {
            return Err(AuthError::NotAuthenticated);
        }
        let fresh = match check_refresh(reply) {
            Ok(f) => f,
            Err(e) => return Err(e),
        };
        let session = AuthSession {
            uid: current.uid,
            access_token: fresh.access_token,
            refresh_token: fresh.refresh_token,
            token_type: fresh.token_type,
        };
        self.state = AuthState::Active(session.clone());
        Ok(session)
    }

    /// The live session, if any.
    pub fn get_session(&self) -> (r: Option<AuthSession>)
        ensures
            r == self.state().session(),
    {
        match &self.state {
            AuthState::Active(s) => Some(s.clone()),
            _ => None,
        }
    }

    /// Installs a session, for instance one restored from storage.
    pub fn set_session(&mut self, session: AuthSession)
        ensures
            final(self).base() == old(self).base(),
            final(self).state() == AuthState::Active(session),
    {
        self.state = AuthState::Active(session);
    }

    /// Whether API calls can be authorized; a held-back session does not count.
    pub fn is_authenticated(&self) -> (r: bool)
        ensures
            r == self.state().session() is Some,
    {
        match &self.state {
            AuthState::Active(_) => true,
            _ => false,
        }
    }

    /// Ends the live session locally and returns the best-effort termination
    /// request for the host to send; its outcome does not matter. With no
    /// live session nothing changes and nothing is sent.
    pub fn logout(&mut self) -> (r: Option<ApiRequest>)
        ensures
            final(self).base() == old(self).base(),
            match old(self).state().session() {
                Some(s) => r matches Some(req) && req@ == logout_request_view(old(self).base(), s)
                    && final(self).state() == AuthState::Empty,
                None => r is None && final(self).state() == old(self).state(),
            },
    {
        let req = match &self.state {
            AuthState::Active(s) => logout_request(self.base_url.as_str(), s),
            _ => return None,
        };
        self.state = AuthState::Empty;
        Some(req)
    }
}

} // verus!
