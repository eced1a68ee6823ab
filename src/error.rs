use vstd::prelude::*;

verus! {

/// Every way an authentication or proxy operation can end without a result.
#[derive(Debug, PartialEq, Eq)]
pub enum AuthError {
    /// The transport failed before a reply arrived.
    Network(String),
    /// The password-proof computation rejected the handshake parameters.
    Srp(String),
    /// The identity service answered with an unexpected shape or code.
    InvalidResponse(String),
    /// Password accepted; a second factor must be submitted next.
    TwoFactorRequired,
    /// Wrong password, wrong second factor or an unusable refresh token.
    InvalidCredentials,
    /// The operation needs a session (or a pending second factor) that is absent.
    NotAuthenticated,
    /// The identity service asks for a human-verification challenge first.
    HumanVerificationRequired,
}

/// Mathematical form of an `AuthError`: the same cases, with text as `Seq<char>`.
pub enum AuthErrorView {
    Network(Seq<char>),
    Srp(Seq<char>),
    InvalidResponse(Seq<char>),
    TwoFactorRequired,
    InvalidCredentials,
    NotAuthenticated,
    HumanVerificationRequired,
}

impl View for AuthError {
    type V = AuthErrorView;

    open spec fn view(&self) -> AuthErrorView {
        match self {
            AuthError::Network(m) => AuthErrorView::Network(m@),
            AuthError::Srp(m) => AuthErrorView::Srp(m@),
            AuthError::InvalidResponse(m) => AuthErrorView::InvalidResponse(m@),
            AuthError::TwoFactorRequired => AuthErrorView::TwoFactorRequired,
            AuthError::InvalidCredentials => AuthErrorView::InvalidCredentials,
            AuthError::NotAuthenticated => AuthErrorView::NotAuthenticated,
            AuthError::HumanVerificationRequired => AuthErrorView::HumanVerificationRequired,
        }
    }
}

/// The text reported for an error at the command surface.
pub open spec fn error_code(e: AuthErrorView) -> Seq<char> {
    match e {
        AuthErrorView::Network(m) => "Network error: "@ + m,
        AuthErrorView::Srp(m) => "SRP error: "@ + m,
        AuthErrorView::InvalidResponse(m) => "Invalid response: "@ + m,
        AuthErrorView::TwoFactorRequired => "TWO_FACTOR_REQUIRED"@,
        AuthErrorView::InvalidCredentials => "Invalid credentials"@,
        AuthErrorView::NotAuthenticated => "Not authenticated"@,
        AuthErrorView::HumanVerificationRequired => "HUMAN_VERIFICATION_REQUIRED"@,
    }
}

impl AuthError {
    /// Flattens the error to the closed set of codes the UI branches on; every
    /// error other than the two control-flow signals becomes a readable message.
    pub fn code(&self) -> (r: String)
        ensures
            r@ == error_code(self@),
    {
        match self {
            AuthError::Network(m) => String::from_str("Network error: ").concat(m.as_str()),
            AuthError::Srp(m) => String::from_str("SRP error: ").concat(m.as_str()),
            AuthError::InvalidResponse(m) => String::from_str("Invalid response: ").concat(
                m.as_str(),
            ),
            AuthError::TwoFactorRequired => String::from_str("TWO_FACTOR_REQUIRED"),
            AuthError::InvalidCredentials => String::from_str("Invalid credentials"),
            AuthError::NotAuthenticated => String::from_str("Not authenticated"),
            AuthError::HumanVerificationRequired => String::from_str(
                "HUMAN_VERIFICATION_REQUIRED",
            ),
        }
    }
}

impl Clone for AuthError {
    fn clone(&self) -> (r: Self)
        ensures
            r == *self,
    {
        match self {
            AuthError::Network(m) => AuthError::Network(m.clone()),
            AuthError::Srp(m) => AuthError::Srp(m.clone()),
            AuthError::InvalidResponse(m) => AuthError::InvalidResponse(m.clone()),
            AuthError::TwoFactorRequired => AuthError::TwoFactorRequired,
            AuthError::InvalidCredentials => AuthError::InvalidCredentials,
            AuthError::NotAuthenticated => AuthError::NotAuthenticated,
            AuthError::HumanVerificationRequired => AuthError::HumanVerificationRequired,
        }
    }
}

} // verus!
