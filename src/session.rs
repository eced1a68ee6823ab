use vstd::prelude::*;

verus! {

/// One authenticated identity: the server-assigned identifier and its bearer
/// credential pair.
#[derive(Debug, PartialEq, Eq)]
pub struct AuthSession {
    pub uid: String,
    pub access_token: String,
    pub refresh_token: String,
    pub token_type: String,
}

/// A session whose password proof passed but whose second factor is still
/// owed. It cannot authorize API calls.
#[derive(Debug, PartialEq, Eq)]
pub struct PendingTwoFactor {
    pub uid: String,
    pub access_token: String,
    pub refresh_token: String,
    pub token_type: String,
}

/// What the session store holds. A live session and a pending second factor
/// exclude each other by construction.
#[derive(Debug, PartialEq, Eq)]
pub enum AuthState {
    Empty,
    Active(AuthSession),
    AwaitingSecondFactor(PendingTwoFactor),
}

/// The session a completed second factor turns a pending record into.
pub open spec fn promoted(p: PendingTwoFactor) -> AuthSession {
    AuthSession {
        uid: p.uid,
        access_token: p.access_token,
        refresh_token: p.refresh_token,
        token_type: p.token_type,
    }
}

impl AuthState {
    pub open spec fn session(self) -> Option<AuthSession> {
        match self {
            AuthState::Active(s) => Some(s),
            _ => None,
        }
    }

    pub open spec fn pending(self) -> Option<PendingTwoFactor> {
        match self {
            AuthState::AwaitingSecondFactor(p) => Some(p),
            _ => None,
        }
    }
}

impl PendingTwoFactor {
    /// The live session this record becomes once the second factor is accepted.
    pub fn promote(self) -> (r: AuthSession)
        ensures
            r == promoted(self),
    {
        AuthSession {
            uid: self.uid,
            access_token: self.access_token,
            refresh_token: self.refresh_token,
            token_type: self.token_type,
        }
    }
}

impl Clone for AuthSession {
    fn clone(&self) -> (r: Self)
        ensures
            r == *self,
    {
        AuthSession {
            uid: self.uid.clone(),
            access_token: self.access_token.clone(),
            refresh_token: self.refresh_token.clone(),
            token_type: self.token_type.clone(),
        }
    }
}

impl Clone for PendingTwoFactor {
    fn clone(&self) -> (r: Self)
        ensures
            r == *self,
    {
        PendingTwoFactor {
            uid: self.uid.clone(),
            access_token: self.access_token.clone(),
            refresh_token: self.refresh_token.clone(),
            token_type: self.token_type.clone(),
        }
    }
}

} // verus!
