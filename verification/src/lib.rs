//! OAuth2 for Google desktop applications: the authorization and refresh flows, and the DPoP
//! proofs that can accompany their requests.
//!
//! The library decides and computes; it never touches the network or the disk. A function that in
//! a full client would send something returns what to send, and one that would wait for an answer
//! takes the answer as an argument.

pub mod base64url;
pub mod cli;
pub mod client;
pub mod client_info;
pub mod clock;
pub mod digest;
pub mod dpop;
pub mod dpop_text;
pub mod error;
pub mod json;
pub mod keys;
pub mod laws;
pub mod laws_cli;
pub mod laws_client;
pub mod laws_dpop;
pub mod laws_refresh;
pub mod laws_setup;
pub mod laws_simple;
pub mod random;
pub mod refresh;
pub mod secret;
pub mod simple;
pub mod text;
pub mod tokens;
pub mod url;

pub use client::{AuthResponse, Cfg, Oauth2, TokenRequest};
pub use client_info::{ClientInfo, Installed};
pub use clock::Timestamp;
pub use error::Oauth2Error;
pub use tokens::{
    ExchangeResponse, RefreshHandleResponseError, RefreshResponse, RefreshResult, ServerError,
    TokenExchangeResult, Tokens,
};
