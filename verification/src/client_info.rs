//! The client info file from the Google Cloud console.

use vstd::prelude::*;

verus! {

/// What a client info file holds.
#[derive(Debug)]
pub struct ClientInfo {
    /// The client, which is an installed application.
    pub installed: Installed,
}

/// An installed application that is known to the auth server.
#[derive(Debug)]
pub struct Installed {
    /// Client ID.
    pub client_id: String,

    /// URL of the auth server.
    pub auth_uri: String,

    /// URL of the token server.
    pub token_uri: String,

    /// Client secret.
    pub client_secret: String,
}

} // verus!
