//! What can go wrong in a flow.

use rand::rngs::SysError;
use vstd::prelude::*;

use crate::dpop::DpopError;

verus! {

/// Why a step of a flow failed.
#[derive(Debug)]
pub enum Oauth2Error {
    /// There is no port to listen on.
    ListenPortIsNone,

    /// There is no scope to ask for.
    ScopeIsNone,

    /// There is no auth server to connect to.
    AuthServerUrlIsNone,

    /// There is no code verifier yet.
    CodeVerifierIsNone,

    /// There is no code challenge yet.
    CodeChallengeIsNone,

    /// There is no state yet.
    StateIsNone,

    /// There is no code yet.
    CodeIsNone,

    /// There is no refresh token to use.
    RefreshTokenIsNone,

    /// The response carries another state than the one that was sent.
    StateMismatch { received: String, expected: String },

    /// The response carries another scope than the one that was asked for.
    ScopeMismatch { received: String, expected: String },

    /// The URL of the auth server is not an absolute URL.
    Url(String),

    /// The operating system gave no random bytes.
    Entropy(SysError),

    /// No DPoP could be created.
    Dpop(DpopError),
}

/// What an `Oauth2Error` says.
pub enum Failure {
    ListenPortIsNone,
    ScopeIsNone,
    AuthServerUrlIsNone,
    CodeVerifierIsNone,
    CodeChallengeIsNone,
    StateIsNone,
    CodeIsNone,
    RefreshTokenIsNone,
    StateMismatch { received: Seq<char>, expected: Seq<char> },
    ScopeMismatch { received: Seq<char>, expected: Seq<char> },
    Url(Seq<char>),
    Entropy,
    Dpop,
}

impl View for Oauth2Error {
    type V = Failure;

    open spec fn view(&self) -> Failure {
        match self {
            Oauth2Error::ListenPortIsNone => Failure::ListenPortIsNone,
            Oauth2Error::ScopeIsNone => Failure::ScopeIsNone,
            Oauth2Error::AuthServerUrlIsNone => Failure::AuthServerUrlIsNone,
            Oauth2Error::CodeVerifierIsNone => Failure::CodeVerifierIsNone,
            Oauth2Error::CodeChallengeIsNone => Failure::CodeChallengeIsNone,
            Oauth2Error::StateIsNone => Failure::StateIsNone,
            Oauth2Error::CodeIsNone => Failure::CodeIsNone,
            Oauth2Error::RefreshTokenIsNone => Failure::RefreshTokenIsNone,
            Oauth2Error::StateMismatch { received, expected } => Failure::StateMismatch {
                received: received@,
                expected: expected@,
            },
            Oauth2Error::ScopeMismatch { received, expected } => Failure::ScopeMismatch {
                received: received@,
                expected: expected@,
            },
            Oauth2Error::Url(reason) => Failure::Url(reason@),
            Oauth2Error::Entropy(_) => Failure::Entropy,
            Oauth2Error::Dpop(_) => Failure::Dpop,
        }
    }
}

impl Failure {
    /// The text of the error, but for a failure whose text is the operating system's.
    pub open spec fn message(self) -> Option<Seq<char>> {
        match self {
            Failure::ListenPortIsNone => Some("listen_port is None"@),
            Failure::ScopeIsNone => Some("scope is None"@),
            Failure::AuthServerUrlIsNone => Some("auth_server_url is None"@),
            Failure::CodeVerifierIsNone => Some("code_verifier is None"@),
            Failure::CodeChallengeIsNone => Some("code_challenge is None"@),
            Failure::StateIsNone => Some("state is None"@),
            Failure::CodeIsNone => Some("code is None"@),
            Failure::RefreshTokenIsNone => Some("refresh_token is None"@),
            Failure::StateMismatch { received, expected } => Some(
                "state doesn't match: "@ + received + " vs "@ + expected,
            ),
            Failure::ScopeMismatch { received, expected } => Some(
                "scope doesn't match: "@ + received + " vs "@ + expected,
            ),
            Failure::Url(reason) => Some(reason),
            Failure::Entropy | Failure::Dpop => None,
        }
    }
}

/// The text that tells of a value which differs from what was expected.
fn mismatch_text(what: &str, received: &str, expected: &str) -> (message: String)
    ensures
        message@ == what@ + received@ + " vs "@ + expected@,
{
    let mut message = what.to_owned();
    message.append(received);
    message.append(" vs ");
    message.append(expected);
    message
}

impl Oauth2Error {
    /// The text of the error, but for a failure whose text is the operating system's.
    pub fn message(&self) -> (message: Option<String>)
        ensures
            message.deep_view() == self@.message(),
    {
        match self {
            Oauth2Error::ListenPortIsNone => Some("listen_port is None".to_owned()),
            Oauth2Error::ScopeIsNone => Some("scope is None".to_owned()),
            Oauth2Error::AuthServerUrlIsNone => Some("auth_server_url is None".to_owned()),
            Oauth2Error::CodeVerifierIsNone => Some("code_verifier is None".to_owned()),
            Oauth2Error::CodeChallengeIsNone => Some("code_challenge is None".to_owned()),
            Oauth2Error::StateIsNone => Some("state is None".to_owned()),
            Oauth2Error::CodeIsNone => Some("code is None".to_owned()),
            Oauth2Error::RefreshTokenIsNone => Some("refresh_token is None".to_owned()),
            Oauth2Error::StateMismatch { received, expected } => Some(
                mismatch_text("state doesn't match: ", received.as_str(), expected.as_str()),
            ),
            Oauth2Error::ScopeMismatch { received, expected } => Some(
                mismatch_text("scope doesn't match: ", received.as_str(), expected.as_str()),
            ),
            Oauth2Error::Url(reason) => Some(reason.clone()),
            Oauth2Error::Entropy(_) => None,
            Oauth2Error::Dpop(_) => None,
        }
    }
}

} // verus!
