//! The answers of the token server, and the tokens that they yield.

use vstd::prelude::*;

use crate::clock::Timestamp;
use crate::text;

verus! {

/// The answer of the token server to a token exchange.
#[derive(Debug)]
pub struct ExchangeResponse {
    /// The new access token returned by the Oauth server. This can be used to call APIs.
    pub access_token: String,

    /// How many seconds the access token is valid for.
    pub expires_in: u32,

    /// The token used to get a new access token when the original access token expires.
    pub refresh_token: String,

    /// How many seconds the refresh token is valid for.
    pub refresh_token_expires_in: Option<u32>,

    /// The authorized scope for the access and refresh tokens.
    pub scope: String,
}

/// The tokens returned from the Token Exchange part of the `auth` flow.
#[derive(Debug)]
pub struct TokenExchangeResult {
    /// The new access token returned by the Oauth server. This can be used to call APIs.
    pub access_token: String,

    /// The expiry time for the `access_token`.
    pub expires_at: Timestamp,

    /// The token used to get a new access token when the original access token expires.
    pub refresh_token: String,

    /// The expiry time for the `refresh_token`.
    pub refresh_token_expires_at: Option<Timestamp>,

    /// The authorized scope for the access and refresh tokens.
    pub scope: String,

    /// The latest nonce returned by the token server, to be used in the next DPoP.
    pub dpop_nonce: Option<String>,
}

/// Access and refresh tokens, as they are kept between runs.
pub type Tokens = TokenExchangeResult;

/// What `Tokens` hold.
pub struct TokensView {
    pub access_token: Seq<char>,
    pub expires_at: Timestamp,
    pub refresh_token: Seq<char>,
    pub refresh_token_expires_at: Option<Timestamp>,
    pub scope: Seq<char>,
    pub dpop_nonce: Option<Seq<char>>,
}

impl View for TokenExchangeResult {
    type V = TokensView;

    open spec fn view(&self) -> TokensView {
        TokensView {
            access_token: self.access_token@,
            expires_at: self.expires_at,
            refresh_token: self.refresh_token@,
            refresh_token_expires_at: self.refresh_token_expires_at,
            scope: self.scope@,
            dpop_nonce: self.dpop_nonce.deep_view(),
        }
    }
}

/// What optional tokens hold.
pub open spec fn tokens_view(tokens: Option<Tokens>) -> Option<TokensView> {
    match tokens {
        Some(tokens) => Some(tokens@),
        None => None,
    }
}

/// The answer of the token server to a request for a new access token.
#[derive(Debug)]
pub struct RefreshResponse {
    /// The new access token.
    pub access_token: String,

    /// How many seconds the `access_token` is valid for.
    pub expires_in: u32,

    /// The API scope that the `access_token` is valid for.
    pub scope: String,
}

/// The answer of a token server that grants nothing.
#[derive(Debug)]
pub struct ServerError {
    /// The error code.
    pub error: String,

    /// What the server says of the error.
    pub error_description: String,
}

/// The token returned by the `refresh` flow.
#[derive(Debug)]
pub struct RefreshResult {
    /// The new access token. Like the previous one, it can be used to call APIs.
    pub access_token: String,

    /// The expiry time for the new `access_token`.
    pub expires_at: Timestamp,

    /// The authorized scope for the new `access_token`.
    pub scope: String,

    /// The latest nonce returned by the token server, to be used in the next DPoP.
    pub dpop_nonce: Option<String>,
}

/// What a `RefreshResult` holds.
pub struct RefreshResultView {
    pub access_token: Seq<char>,
    pub expires_at: Timestamp,
    pub scope: Seq<char>,
    pub dpop_nonce: Option<Seq<char>>,
}

impl View for RefreshResult {
    type V = RefreshResultView;

    open spec fn view(&self) -> RefreshResultView {
        RefreshResultView {
            access_token: self.access_token@,
            expires_at: self.expires_at,
            scope: self.scope@,
            dpop_nonce: self.dpop_nonce.deep_view(),
        }
    }
}

/// Why a response to a refresh request yields no token.
#[derive(Debug)]
pub enum RefreshHandleResponseError {
    /// The server wants the request again, with a DPoP that carries the given nonce.
    UseDpopNonce { error_description: String, dpop_nonce: String },

    /// The server refuses for any other reason.
    Refused { error: String, error_description: String },
}

impl View for RefreshHandleResponseError {
    type V = RefreshFailure;

    open spec fn view(&self) -> RefreshFailure {
        match self {
            RefreshHandleResponseError::UseDpopNonce { error_description, dpop_nonce } => {
                RefreshFailure::UseDpopNonce {
                    error_description: error_description@,
                    dpop_nonce: dpop_nonce@,
                }
            },
            RefreshHandleResponseError::Refused { error, error_description } => {
                RefreshFailure::Refused {
                    error: error@,
                    error_description: error_description@,
                }
            },
        }
    }
}

/// What a `RefreshHandleResponseError` says.
pub enum RefreshFailure {
    UseDpopNonce { error_description: Seq<char>, dpop_nonce: Seq<char> },
    Refused { error: Seq<char>, error_description: Seq<char> },
}

/// How many seconds before the server does so the client takes a token to expire.
pub const EXPIRY_MARGIN: u32 = 5;

/// When a token expires that was granted at `now` for `expires_in` seconds.
pub open spec fn expiry(now: Timestamp, expires_in: u32) -> Timestamp {
    Timestamp { secs: (now.secs + expires_in - EXPIRY_MARGIN) as i64, nanos: now.nanos }
}

/// The latest nonce of the token server: the one it has just returned, or else the one known
/// before.
pub open spec fn latest_nonce(
    received: Option<Seq<char>>,
    known: Option<Seq<char>>,
) -> Option<Seq<char>> {
    if received is Some {
        received
    } else {
        known
    }
}

/// The tokens that `r` grants at `now`.
pub open spec fn granted(
    r: ExchangeResponse,
    dpop_nonce: Option<Seq<char>>,
    now: Timestamp,
) -> TokensView {
    TokensView {
        access_token: r.access_token@,
        expires_at: expiry(now, r.expires_in),
        refresh_token: r.refresh_token@,
        refresh_token_expires_at: match r.refresh_token_expires_in {
            Some(expires_in) => Some(expiry(now, expires_in)),
            None => None,
        },
        scope: r.scope@,
        dpop_nonce,
    }
}

/// What the answer to a refresh request that arrives at `now` comes to: the new access token, or
/// why there is none. A server that wants a DPoP with another nonce says so with the error code
/// `use_dpop_nonce` and returns that nonce.
pub open spec fn refreshed(
    answer: Result<RefreshResponse, ServerError>,
    received_nonce: Option<Seq<char>>,
    known_nonce: Option<Seq<char>>,
    now: Timestamp,
) -> Result<RefreshResultView, RefreshFailure> {
    match answer {
        Ok(r) => Ok(
            RefreshResultView {
                access_token: r.access_token@,
                expires_at: expiry(now, r.expires_in),
                scope: r.scope@,
                dpop_nonce: latest_nonce(received_nonce, known_nonce),
            },
        ),
        Err(e) => Err(
            match received_nonce {
                Some(dpop_nonce) if e.error@ == "use_dpop_nonce"@ => RefreshFailure::UseDpopNonce {
                    error_description: e.error_description@,
                    dpop_nonce,
                },
                _ => RefreshFailure::Refused {
                    error: e.error@,
                    error_description: e.error_description@,
                },
            },
        ),
    }
}

/// Whether `result` is what an answer to a refresh request comes to.
pub open spec fn is_refreshed(
    result: Result<RefreshResult, RefreshHandleResponseError>,
    outcome: Result<RefreshResultView, RefreshFailure>,
) -> bool {
    match outcome {
        Ok(r) => result matches Ok(q) && q@ == r,
        Err(failure) => result matches Err(e) && e@ == failure,
    }
}

/// Whether the tokens of `r` are granted for longer than the margin.
pub open spec fn lasting(r: ExchangeResponse) -> bool {
    r.expires_in >= EXPIRY_MARGIN && (r.refresh_token_expires_in matches Some(expires_in)
        ==> expires_in >= EXPIRY_MARGIN)
}

impl ExchangeResponse {
    /// Whether the tokens are granted for longer than the margin. Only such an answer can be
    /// handled.
    pub fn is_lasting(&self) -> (is_lasting: bool)
        ensures
            is_lasting == lasting(*self),
    {
        self.expires_in >= EXPIRY_MARGIN && match self.refresh_token_expires_in {
            Some(expires_in) => expires_in >= EXPIRY_MARGIN,
            None => true,
        }
    }
}

/// When a token expires that was granted at `now` for `expires_in` seconds.
pub fn expires_at(now: Timestamp, expires_in: u32) -> (instant: Timestamp)
    requires
        expires_in >= EXPIRY_MARGIN,
        now.secs + expires_in - EXPIRY_MARGIN <= i64::MAX,
    ensures
        instant == expiry(now, expires_in),
{
    Timestamp { secs: now.secs + (expires_in - EXPIRY_MARGIN) as i64, nanos: now.nanos }
}

/// The latest nonce of the token server.
pub fn pick_nonce(received: Option<String>, known: Option<String>) -> (nonce: Option<String>)
    ensures
        nonce.deep_view() == latest_nonce(received.deep_view(), known.deep_view()),
{
    match received {
        Some(nonce) => Some(nonce),
        None => known,
    }
}

impl Clone for TokenExchangeResult {
    /// A copy of the tokens.
    fn clone(&self) -> (copy: TokenExchangeResult)
        ensures
            copy@ == self@,
    {
        TokenExchangeResult {
            access_token: self.access_token.clone(),
            expires_at: self.expires_at,
            refresh_token: self.refresh_token.clone(),
            refresh_token_expires_at: self.refresh_token_expires_at,
            scope: self.scope.clone(),
            dpop_nonce: text::copy_optional(&self.dpop_nonce),
        }
    }
}

impl TokenExchangeResult {
    /// Takes over what a refresh has renewed, and keeps the refresh token.
    pub fn merge(&mut self, r: &RefreshResult)
        ensures
            final(self)@ == merged(old(self)@, r@),
    {
        self.access_token = r.access_token.clone();
        self.expires_at = r.expires_at;
        self.scope = r.scope.clone();
        self.dpop_nonce = text::copy_optional(&r.dpop_nonce);
    }
}

/// The tokens once a refresh has renewed the access token.
pub open spec fn merged(tokens: TokensView, r: RefreshResultView) -> TokensView {
    TokensView {
        access_token: r.access_token,
        expires_at: r.expires_at,
        scope: r.scope,
        dpop_nonce: r.dpop_nonce,
        ..tokens
    }
}

} // verus!
