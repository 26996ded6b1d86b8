//! A client that keeps its tokens: a simpler, less customizable way to go through the flows.
//!
//! What touches the network or the disk is left to the caller. A method that would do so returns
//! the `Action` that is due, and `advance` takes the `Event` that comes of it.

use vstd::prelude::*;

use crate::client;
use crate::client::{AuthResponse, CfgView, Oauth2, Oauth2View, TokenRequest};
use crate::client_info::ClientInfo;
use crate::clock;
use crate::clock::Timestamp;
use crate::dpop;
use crate::dpop::{DpopError, KeyData, KeyDataView, Keypair, KeypairPemPkcs8, KeypairView};
use crate::error::{Failure, Oauth2Error};
use crate::keys;
use crate::keys::LineEnding;
use crate::random;
use crate::refresh;
use crate::refresh::{RefreshError, RefreshReply, RefreshStage, RefreshStep};
use crate::text;
use crate::tokens;
use crate::tokens::{
    ExchangeResponse, RefreshFailure, RefreshHandleResponseError, Tokens, TokensView,
};

verus! {

/// Config struct for `Oauth2Simple::with_cfg()`. Using `Cfg::builder()` allows clients to start
/// with a default config and just override the parts they want (`scope` is required, though).
pub struct Cfg<'a> {
    /// Path to a "client info" JSON file.
    pub client_info_path: &'a str,

    /// Path to a tokens JSON file.
    pub tokens_path: &'a str,

    /// Port for the http server to listen on.
    pub port: u16,

    /// OAuth2 API scope to authorize.
    pub scope: &'a str,

    /// Paths to public and private keys for use with DPoPs. If a files don't already exist at
    /// these paths, public and private keys will be generated and written there. DPoPs will
    /// automatically be used if this is specified.
    pub key_paths: Option<KeyPaths>,
}

/// Paths to public and private keys.
#[derive(Debug)]
pub struct KeyPaths {
    /// Path to a public key.
    pub public_key_path: String,

    /// Path to a private key.
    pub private_key_path: String,
}

impl Clone for KeyPaths {
    /// A copy of the paths.
    fn clone(&self) -> (copy: KeyPaths)
        ensures
            copy.public_key_path@ == self.public_key_path@,
            copy.private_key_path@ == self.private_key_path@,
    {
        KeyPaths {
            public_key_path: self.public_key_path.clone(),
            private_key_path: self.private_key_path.clone(),
        }
    }
}

/// The port that is listened on unless another one is set.
pub const DEFAULT_PORT: u16 = 42684;

/// A `Cfg` in the making.
pub struct CfgBuilder<'a> {
    cfg: Cfg<'a>,
    scope_is_set: bool,
}

impl<'a> CfgBuilder<'a> {
    /// The config as far as it has been made.
    pub closed spec fn cfg(self) -> Cfg<'a> {
        self.cfg
    }

    /// Whether the scope has been set.
    pub closed spec fn has_scope(self) -> bool {
        self.scope_is_set
    }

    /// Sets the path to a "client info" JSON file.
    pub fn client_info_path(self, client_info_path: &'a str) -> (builder: CfgBuilder<'a>)
        ensures
            builder.cfg() == (Cfg { client_info_path, ..self.cfg() }),
            builder.has_scope() == self.has_scope(),
    {
        CfgBuilder { cfg: Cfg { client_info_path, ..self.cfg }, scope_is_set: self.scope_is_set }
    }

    /// Sets the path to a tokens JSON file.
    pub fn tokens_path(self, tokens_path: &'a str) -> (builder: CfgBuilder<'a>)
        ensures
            builder.cfg() == (Cfg { tokens_path, ..self.cfg() }),
            builder.has_scope() == self.has_scope(),
    {
        CfgBuilder { cfg: Cfg { tokens_path, ..self.cfg }, scope_is_set: self.scope_is_set }
    }

    /// Sets the port for the http server to listen on.
    pub fn port(self, port: u16) -> (builder: CfgBuilder<'a>)
        ensures
            builder.cfg() == (Cfg { port, ..self.cfg() }),
            builder.has_scope() == self.has_scope(),
    {
        CfgBuilder { cfg: Cfg { port, ..self.cfg }, scope_is_set: self.scope_is_set }
    }

    /// Sets the OAuth2 API scope to authorize.
    pub fn scope(self, scope: &'a str) -> (builder: CfgBuilder<'a>)
        ensures
            builder.cfg() == (Cfg { scope, ..self.cfg() }),
            builder.has_scope(),
    {
        CfgBuilder { cfg: Cfg { scope, ..self.cfg }, scope_is_set: true }
    }

    /// Sets the paths to public and private keys.
    pub fn key_paths(self, key_paths: KeyPaths) -> (builder: CfgBuilder<'a>)
        ensures
            builder.cfg() == (Cfg { key_paths: Some(key_paths), ..self.cfg() }),
            builder.has_scope() == self.has_scope(),
    {
        CfgBuilder {
            cfg: Cfg { key_paths: Some(key_paths), ..self.cfg },
            scope_is_set: self.scope_is_set,
        }
    }

    /// The config that has been made. Its scope must have been set.
    pub fn build(self) -> (cfg: Cfg<'a>)
        requires
            self.has_scope(),
        ensures
            cfg == self.cfg(),
    {
        self.cfg
    }
}

impl<'a> Cfg<'a> {
    /// Starts with a default config: client info in `./client_info.json`, tokens in
    /// `./token.json`, and the default port.
    pub fn builder() -> (builder: CfgBuilder<'a>)
        ensures
            builder.cfg() == (Cfg {
                client_info_path: "./client_info.json",
                tokens_path: "./token.json",
                port: DEFAULT_PORT,
                scope: builder.cfg().scope,
                key_paths: None,
            }),
            !builder.has_scope(),
    {
        CfgBuilder {
            cfg: Cfg {
                client_info_path: "./client_info.json",
                tokens_path: "./token.json",
                port: DEFAULT_PORT,
                scope: "",
                key_paths: None,
            },
            scope_is_set: false,
        }
    }
}

/// Why a step of a simple flow failed.
#[derive(Debug)]
pub enum SimpleError {
    /// There are no tokens yet.
    TokensUnset,

    /// The path to the client info is not text.
    ClientInfoPathInvalid,

    /// The path to the tokens is not text.
    TokensPathInvalid,

    /// There is a file for one of the keys only.
    OnlyOneKeyExists,

    /// No keypair could be generated.
    GenerateKeys(DpopError),

    /// A key could not be written as a PEM document.
    EncodeKeys(&'static str),

    /// A PEM document does not hold the key it should.
    DecodeKeys(&'static str),

    /// A step of the client failed.
    Client(Oauth2Error),

    /// The token server granted no new access token.
    Refresh(RefreshHandleResponseError),
}

/// What a `SimpleError` says.
pub enum SimpleFailure {
    TokensUnset,
    ClientInfoPathInvalid,
    TokensPathInvalid,
    OnlyOneKeyExists,
    GenerateKeys,
    EncodeKeys(Seq<char>),
    DecodeKeys(Seq<char>),
    Client(Failure),
    Refresh(RefreshFailure),
}

impl View for SimpleError {
    type V = SimpleFailure;

    open spec fn view(&self) -> SimpleFailure {
        match self {
            SimpleError::TokensUnset => SimpleFailure::TokensUnset,
            SimpleError::ClientInfoPathInvalid => SimpleFailure::ClientInfoPathInvalid,
            SimpleError::TokensPathInvalid => SimpleFailure::TokensPathInvalid,
            SimpleError::OnlyOneKeyExists => SimpleFailure::OnlyOneKeyExists,
            SimpleError::GenerateKeys(_) => SimpleFailure::GenerateKeys,
            SimpleError::EncodeKeys(reason) => SimpleFailure::EncodeKeys(reason@),
            SimpleError::DecodeKeys(reason) => SimpleFailure::DecodeKeys(reason@),
            SimpleError::Client(e) => SimpleFailure::Client(e@),
            SimpleError::Refresh(e) => SimpleFailure::Refresh(e@),
        }
    }
}

impl SimpleFailure {
    /// The text of the error, but for a failure whose text is the operating system's or the token
    /// server's.
    pub open spec fn message(self) -> Option<Seq<char>> {
        match self {
            SimpleFailure::TokensUnset => Some("`tokens` is unset. Did you run `init()`?"@),
            SimpleFailure::ClientInfoPathInvalid => Some("client_info_path is invalid"@),
            SimpleFailure::TokensPathInvalid => Some("tokens_path is invalid"@),
            SimpleFailure::OnlyOneKeyExists => Some(
                "only one of `public_key_path` and `private_key_path` exists. Either both or neither must exist"@,
            ),
            SimpleFailure::EncodeKeys(reason) => Some(
                "failed to convert keypair into PEM PKCS#8: \""@ + reason + "\""@,
            ),
            SimpleFailure::DecodeKeys(reason) => Some(
                "failed to convert KeypairPemPkcs8 into Keypair: \""@ + reason + "\""@,
            ),
            SimpleFailure::Client(failure) => failure.message(),
            SimpleFailure::GenerateKeys | SimpleFailure::Refresh(_) => None,
        }
    }
}

/// The text that tells of a conversion which failed for the quoted reason.
fn conversion_text(what: &str, reason: &str) -> (message: String)
    ensures
        message@ == what@ + reason@ + "\""@,
{
    let mut message = what.to_owned();
    message.append(reason);
    message.append("\"");
    message
}

impl SimpleError {
    /// The text of the error, but for a failure whose text is the operating system's or the token
    /// server's.
    pub fn message(&self) -> (message: Option<String>)
        ensures
            message.deep_view() == self@.message(),
    {
        match self {
            SimpleError::TokensUnset => Some("`tokens` is unset. Did you run `init()`?".to_owned()),
            SimpleError::ClientInfoPathInvalid => Some("client_info_path is invalid".to_owned()),
            SimpleError::TokensPathInvalid => Some("tokens_path is invalid".to_owned()),
            SimpleError::OnlyOneKeyExists => Some(
                "only one of `public_key_path` and `private_key_path` exists. Either both or neither must exist".to_owned(),
            ),
            SimpleError::EncodeKeys(reason) => Some(
                conversion_text("failed to convert keypair into PEM PKCS#8: \"", reason),
            ),
            SimpleError::DecodeKeys(reason) => Some(
                conversion_text("failed to convert KeypairPemPkcs8 into Keypair: \"", reason),
            ),
            SimpleError::Client(e) => e.message(),
            SimpleError::GenerateKeys(_) => None,
            SimpleError::Refresh(_) => None,
        }
    }
}

/// How the keys for DPoPs are come by.
#[derive(Clone, Copy, Debug, PartialEq, Eq, Structural)]
pub enum KeySetup {
    /// They are generated and written to files.
    Generate,

    /// They are read from files.
    Read,
}

/// Decides how to set up `KeyData` if there are paths for it, otherwise decides that there is
/// none. `exist` tells whether files exist at the paths for the public and the private key.
pub fn maybe_set_up_keys(exist: Option<(bool, bool)>) -> (setup: Result<
    Option<KeySetup>,
    SimpleError,
>)
    ensures
        match exist {
            None => setup matches Ok(s) && s is None,
            Some((false, false)) => setup matches Ok(s) && s == Some(KeySetup::Generate),
            Some((true, true)) => setup matches Ok(s) && s == Some(KeySetup::Read),
            Some(_) => setup matches Err(e) && e@ == SimpleFailure::OnlyOneKeyExists,
        },
{
    match exist {
        Some((public_key_exists, private_key_exists)) => {
            match set_up_keys(public_key_exists, private_key_exists) {
                Ok(setup) => Ok(Some(setup)),
                Err(e) => Err(e),
            }
        },
        None => Ok(None),
    }
}

/// Decides how to set up `KeyData`. If the files don't exist yet, keys are to be generated and
/// saved there.
pub fn set_up_keys(public_key_exists: bool, private_key_exists: bool) -> (setup: Result<
    KeySetup,
    SimpleError,
>)
    ensures
        match (public_key_exists, private_key_exists) {
            (false, false) => setup matches Ok(s) && s == KeySetup::Generate,
            (true, true) => setup matches Ok(s) && s == KeySetup::Read,
            _ => setup matches Err(e) && e@ == SimpleFailure::OnlyOneKeyExists,
        },
{
    match (public_key_exists, private_key_exists) {
        (false, false) => Ok(KeySetup::Generate),
        (true, true) => Ok(KeySetup::Read),
        _ => Err(SimpleError::OnlyOneKeyExists),
    }
}

/// Whether `exported` is what preparing `keypair` for use and for saving results in.
pub open spec fn exported(
    keypair: KeypairView,
    line_ending: Seq<char>,
    exported: Result<(KeyData, KeypairPemPkcs8), SimpleError>,
) -> bool {
    match exported {
        Ok((key_data, pem)) => {
            &&& key_data@ == keypair.key_data()
            &&& dpop::pem_outcome(keypair, line_ending, Ok(pem))
        },
        Err(SimpleError::EncodeKeys(reason)) => dpop::pem_outcome(
            keypair,
            line_ending,
            Err(reason),
        ),
        Err(_) => false,
    }
}

/// The `KeyData` of a keypair, with the PEM documents to save it in.
pub fn export_keys(keypair: &Keypair, line_ending: LineEnding) -> (keys: Result<
    (KeyData, KeypairPemPkcs8),
    SimpleError,
>)
    ensures
        exported(keypair@, line_ending@, keys),
{
    match KeypairPemPkcs8::with_line_ending(keypair, line_ending) {
        Ok(pem) => Ok((KeyData::from(keypair), pem)),
        Err(reason) => Err(SimpleError::EncodeKeys(reason)),
    }
}

/// Generates a keypair for DPoP signing, and returns the relevant `KeyData` with the PEM documents
/// to save it in.
///
/// Which keypair it is rests on chance, and so does whether there is one.
pub fn generate_keys() -> (keys: Result<(KeyData, KeypairPemPkcs8), SimpleError>)
    ensures
        keys matches Err(SimpleError::GenerateKeys(DpopError::ZeroKey)) ==> keys::zero_was_drawn(),
        keys matches Err(SimpleError::GenerateKeys(_)) || exists|
            keypair: KeypairView,
            line_ending: LineEnding,
        |
            keypair.is_matching() && random::was_drawn(keypair.private_key)
                && #[trigger] exported(keypair, line_ending@, keys),
{
    let keypair = match Keypair::generate() {
        Ok(keypair) => keypair,
        Err(e) => return Err(SimpleError::GenerateKeys(e)),
    };
    let line_ending = keys::native_line_ending();
    export_keys(&keypair, line_ending)
}

/// Extracts the relevant `KeyData` from the contents of the key files.
pub fn read_keys(public_key: String, private_key: String) -> (keys: Result<KeyData, SimpleError>)
    ensures
        match dpop::key_data_in_pem(public_key@, private_key@) {
            Ok(k) => keys matches Ok(d) && d@ == k && k.is_valid(),
            Err(reason) => keys matches Err(e) && e@ == SimpleFailure::DecodeKeys(reason),
        },
{
    match KeyData::from_pem(public_key, private_key) {
        Ok(key_data) => Ok(key_data),
        Err(reason) => Err(SimpleError::DecodeKeys(reason)),
    }
}

/// Main struct for this library. Wraps an `Oauth2`.
pub struct Oauth2Simple {
    /// The underlying `Oauth2` struct with the actual logic.
    oauth2: Oauth2,

    /// Path to a tokens JSON file.
    tokens_path: String,

    /// Access and refresh token data.
    tokens: Option<Tokens>,
}

/// What an `Oauth2Simple` holds.
pub struct SimpleView {
    pub oauth2: Oauth2View,
    pub tokens_path: Seq<char>,
    pub tokens: Option<TokensView>,
}

impl View for Oauth2Simple {
    type V = SimpleView;

    closed spec fn view(&self) -> SimpleView {
        SimpleView {
            oauth2: self.oauth2@,
            tokens_path: self.tokens_path@,
            tokens: tokens::tokens_view(self.tokens),
        }
    }
}

impl SimpleView {
    /// The refresh token, if there are tokens.
    pub open spec fn refresh_token(self) -> Option<Seq<char>> {
        match self.tokens {
            Some(tokens) => Some(tokens.refresh_token),
            None => None,
        }
    }

    /// Whether the initialization flow can be started if it is needed: without tokens, there must be
    /// room for the URL for the user.
    pub open spec fn can_init_if_needed(self) -> bool {
        self.tokens is None ==> client::cfg_fits(self.oauth2.cfg)
    }

    /// Whether the client refreshes with the refresh token that is kept.
    pub open spec fn wf(self) -> bool {
        self.oauth2.cfg.refresh_token == self.refresh_token()
    }
}

/// What is to be done next.
pub enum Action {
    /// Show the user the URL to open in their browser, and listen on the port for the response.
    /// `Event::Authorized` comes of it.
    Authorize { url: String, listen_port: u16 },

    /// Send the request to the token server. `Event::Exchanged` comes of it.
    Exchange(TokenRequest),

    /// Send the request to the token server. `Event::Refreshed` comes of it.
    Refresh { request: TokenRequest, stage: RefreshStage },

    /// Write the tokens out to the tokens file. They are what the flow results in.
    Save(Tokens),

    /// Nothing: these are the tokens.
    Keep(Tokens),
}

/// What is due once the flow that `get_token()` has started is through.
#[derive(Clone, Copy, Debug, PartialEq, Eq, Structural)]
pub enum FollowUp {
    /// The tokens are to be refreshed if needed.
    RefreshIfNeeded,

    /// Nothing.
    Done,
}

impl Action {
    /// What is due once the flow that `get_token()` has started with this action is through: after
    /// the initialization flow, the tokens are refreshed if needed.
    pub fn follow_up(&self) -> (follow_up: FollowUp)
        ensures
            follow_up == (if self is Authorize {
                FollowUp::RefreshIfNeeded
            } else {
                FollowUp::Done
            }),
    {
        match self {
            Action::Authorize { .. } => FollowUp::RefreshIfNeeded,
            _ => FollowUp::Done,
        }
    }
}

/// What has come of an `Action`.
pub enum Event {
    /// The user has been sent back by the auth server.
    Authorized(AuthResponse),

    /// The token server has granted tokens, perhaps with a nonce in the `DPoP-Nonce` header.
    Exchanged { response: ExchangeResponse, dpop_nonce: Option<String> },

    /// The token server has answered a refresh request.
    Refreshed(RefreshReply),
}

/// A new instance with the given config and the contents of the files that it names.
pub open spec fn created(
    cfg: Cfg<'_>,
    client_info: ClientInfo,
    tokens: Option<TokensView>,
    key_data: Option<KeyDataView>,
) -> SimpleView {
    SimpleView {
        oauth2: client::unused(
            CfgView {
                listen_port: Some(cfg.port),
                client_id: client_info.installed.client_id@,
                scope: Some(cfg.scope@),
                auth_server_url: Some(client_info.installed.auth_uri@),
                token_server_url: client_info.installed.token_uri@,
                client_secret: client_info.installed.client_secret@,
                refresh_token: match tokens {
                    Some(tokens) => Some(tokens.refresh_token),
                    None => None,
                },
                key_data,
                dpop_nonce: match tokens {
                    Some(tokens) => tokens.dpop_nonce,
                    None => None,
                },
            },
        ),
        tokens_path: cfg.tokens_path@,
        tokens,
    }
}

/// The config with the given paths and scope, and the default port.
pub open spec fn basic_cfg<'a>(
    client_info_path: &'a str,
    tokens_path: &'a str,
    scope: &'a str,
    key_paths: Option<KeyPaths>,
) -> Cfg<'a> {
    Cfg { client_info_path, tokens_path, port: DEFAULT_PORT, scope, key_paths }
}

impl Oauth2Simple {
    /// Creates a `CfgBuilder` whose `client_info_path`, `tokens_path`, and `scope` are already
    /// set. A path is `None` if it is not text.
    pub fn new_basic_cfg_builder<'a>(
        client_info_path: Option<&'a str>,
        tokens_path: Option<&'a str>,
        scope: &'a str,
    ) -> (builder: Result<CfgBuilder<'a>, SimpleError>)
        ensures
            match (client_info_path, tokens_path) {
                (Some(c), Some(t)) => builder matches Ok(b) && b.has_scope() && b.cfg()
                    == basic_cfg(c, t, scope, None),
                (None, _) => builder matches Err(e) && e@ == SimpleFailure::ClientInfoPathInvalid,
                (Some(_), None) => builder matches Err(e) && e@ == SimpleFailure::TokensPathInvalid,
            },
    {
        let client_info_path = match client_info_path {
            Some(client_info_path) => client_info_path,
            None => return Err(SimpleError::ClientInfoPathInvalid),
        };
        let tokens_path = match tokens_path {
            Some(tokens_path) => tokens_path,
            None => return Err(SimpleError::TokensPathInvalid),
        };
        Ok(
            Cfg::builder().client_info_path(client_info_path).tokens_path(tokens_path).scope(scope),
        )
    }

    /// Create a new instance, given the contents of the client info file, and those of the tokens
    /// file unless it doesn't exist yet - `init()` will lead to one. `refresh()` should only be
    /// called if the tokens file already exists or after the `init()` flow.
    pub fn new(
        client_info_path: Option<&str>,
        tokens_path: Option<&str>,
        scope: &str,
        client_info: ClientInfo,
        tokens: Option<Tokens>,
    ) -> (simple: Result<Self, SimpleError>)
        ensures
            match (client_info_path, tokens_path) {
                (Some(c), Some(t)) => simple matches Ok(s) && s@ == created(
                    basic_cfg(c, t, scope, None),
                    client_info,
                    tokens::tokens_view(tokens),
                    None,
                ),
                (None, _) => simple matches Err(e) && e@ == SimpleFailure::ClientInfoPathInvalid,
                (Some(_), None) => simple matches Err(e) && e@ == SimpleFailure::TokensPathInvalid,
            },
    {
        let builder = Self::new_basic_cfg_builder(client_info_path, tokens_path, scope)?;
        Ok(Self::with_cfg(builder.build(), client_info, tokens, None))
    }

    /// Creates a new instance, as in `new()`, but includes cryptographic key data used to sign
    /// DPoPs.
    pub fn new_with_dpop(
        client_info_path: Option<&str>,
        tokens_path: Option<&str>,
        scope: &str,
        key_paths: &KeyPaths,
        client_info: ClientInfo,
        tokens: Option<Tokens>,
        key_data: KeyData,
    ) -> (simple: Result<Self, SimpleError>)
        ensures
            match (client_info_path, tokens_path) {
                (Some(c), Some(t)) => simple matches Ok(s) && s@ == created(
                    basic_cfg(c, t, scope, Some(*key_paths)),
                    client_info,
                    tokens::tokens_view(tokens),
                    Some(key_data@),
                ),
                (None, _) => simple matches Err(e) && e@ == SimpleFailure::ClientInfoPathInvalid,
                (Some(_), None) => simple matches Err(e) && e@ == SimpleFailure::TokensPathInvalid,
            },
    {
        let builder = Self::new_basic_cfg_builder(client_info_path, tokens_path, scope)?;
        let builder = builder.key_paths(key_paths.clone());
        Ok(Self::with_cfg(builder.build(), client_info, tokens, Some(key_data)))
    }

    /// Make a new instance with the given `Cfg`, given the contents of the client info file, those
    /// of the tokens file if there is one, and the key data if there are paths for it.
    pub fn with_cfg(
        cfg: Cfg<'_>,
        client_info: ClientInfo,
        tokens: Option<Tokens>,
        key_data: Option<KeyData>,
    ) -> (simple: Self)
        requires
            cfg.key_paths is Some <==> key_data is Some,
        ensures
            simple@ == created(
                cfg,
                client_info,
                tokens::tokens_view(tokens),
                dpop::key_data_view(key_data),
            ),
    {
        let (refresh_token, dpop_nonce) = match &tokens {
            Some(tokens) => (
                Some(tokens.refresh_token.clone()),
                text::copy_optional(&tokens.dpop_nonce),
            ),
            None => (None, None),
        };
        Oauth2Simple {
            oauth2: Oauth2::new(
                client::Cfg {
                    listen_port: Some(cfg.port),
                    client_id: client_info.installed.client_id,
                    scope: Some(cfg.scope.to_owned()),
                    auth_server_url: Some(client_info.installed.auth_uri),
                    token_server_url: client_info.installed.token_uri,
                    client_secret: client_info.installed.client_secret,
                    refresh_token,
                    key_data,
                    dpop_nonce,
                },
            ),
            tokens_path: cfg.tokens_path.to_owned(),
            tokens,
        }
    }

    /// Path to the tokens JSON file.
    pub fn tokens_path(&self) -> (tokens_path: &str)
        ensures
            tokens_path@ == self@.tokens_path,
    {
        self.tokens_path.as_str()
    }
}

/// How many seconds before it expires an access token counts as close to expiring.
pub const REFRESH_MARGIN: u32 = 300;

/// Whether the access token has neither expired at `now` nor is close to expiring.
pub open spec fn is_fresh(tokens: TokensView, now: Timestamp) -> bool {
    tokens.expires_at.after_by(now, REFRESH_MARGIN as int)
}

/// The instance once it holds other tokens, which it also refreshes with.
pub open spec fn holding(simple: SimpleView, tokens: TokensView) -> SimpleView {
    SimpleView {
        oauth2: client::with_tokens(simple.oauth2, tokens),
        tokens: Some(tokens),
        ..simple
    }
}

/// What starting the initialization flow does: the user is to authorize the client, or there is a
/// reason why they cannot. The tokens stay.
pub open spec fn init_started(
    before: SimpleView,
    after: SimpleView,
    action: Result<Action, SimpleError>,
) -> bool {
    &&& after == SimpleView { oauth2: after.oauth2, ..before }
    &&& match action {
        Ok(Action::Authorize { url, listen_port }) => client::drawn_auth_step(
            before.oauth2,
            after.oauth2,
            Ok((url, listen_port)),
        ),
        Err(SimpleError::Client(e)) => client::drawn_auth_step(
            before.oauth2,
            after.oauth2,
            Err(e),
        ),
        _ => false,
    }
}

/// What starting the refresh flow results in: the first request, or why there is none.
pub open spec fn refresh_started(simple: SimpleView, action: Result<Action, SimpleError>) -> bool {
    match action {
        Ok(Action::Refresh { request, stage }) => {
            &&& stage == RefreshStage::First
            &&& client::fresh_refresh_request(simple.oauth2, Ok(request))
        },
        Err(SimpleError::Client(e)) => client::fresh_refresh_request(simple.oauth2, Err(e)),
        _ => false,
    }
}

/// What a refresh that is needed only for tokens that are not fresh results in.
pub open spec fn refresh_if_needed_started(
    simple: SimpleView,
    now: Timestamp,
    action: Result<Action, SimpleError>,
) -> bool {
    match simple.tokens {
        None => action matches Err(e) && e@ == SimpleFailure::TokensUnset,
        Some(tokens) => if is_fresh(tokens, now) {
            action matches Ok(Action::Keep(kept)) && kept@ == tokens
        } else {
            refresh_started(simple, action)
        },
    }
}

/// Whether the tokens that an event brings, if any, are granted for longer than the margin.
pub open spec fn lasting_event(event: Event) -> bool {
    match event {
        Event::Authorized(_) => true,
        Event::Exchanged { response, .. } => tokens::lasting(response),
        Event::Refreshed(reply) => refresh::lasting_reply(reply),
    }
}

/// What an event at `now` does to an instance, and what is to be done next.
pub open spec fn advanced(
    before: SimpleView,
    event: Event,
    now: Timestamp,
    after: SimpleView,
    action: Result<Action, SimpleError>,
) -> bool {
    match event {
        Event::Authorized(r) => {
            &&& after == SimpleView { oauth2: after.oauth2, ..before }
            &&& match action {
                Ok(Action::Exchange(request)) => client::exchanged(
                    before.oauth2,
                    r,
                    now.secs as int,
                    after.oauth2,
                    Ok(request),
                ),
                Err(SimpleError::Client(e)) => client::exchanged(
                    before.oauth2,
                    r,
                    now.secs as int,
                    after.oauth2,
                    Err(e),
                ),
                _ => false,
            }
        },
        Event::Exchanged { response, dpop_nonce } => {
            let tokens = tokens::granted(
                response,
                tokens::latest_nonce(dpop_nonce.deep_view(), before.oauth2.cfg.dpop_nonce),
                now,
            );
            &&& after == holding(before, tokens)
            &&& action matches Ok(Action::Save(saved))
            &&& saved@ == tokens
        },
        Event::Refreshed(reply) => refresh_advanced(before, reply, now, after, action),
    }
}

/// What an answer to a refresh request at `now` does to an instance. A new access token goes into
/// the tokens. The first time that the server wants another nonce, the request is made again.
pub open spec fn refresh_advanced(
    before: SimpleView,
    reply: RefreshReply,
    now: Timestamp,
    after: SimpleView,
    action: Result<Action, SimpleError>,
) -> bool {
    match (
        tokens::refreshed(
            reply.answer,
            reply.dpop_nonce.deep_view(),
            before.oauth2.cfg.dpop_nonce,
            now,
        ),
        reply.stage,
    ) {
        (Ok(r), _) => match before.tokens {
            None => after == before && (action matches Err(e) && e@ == SimpleFailure::TokensUnset),
            Some(tokens) => {
                &&& after == holding(before, tokens::merged(tokens, r))
                &&& action matches Ok(Action::Save(saved))
                &&& saved@ == tokens::merged(tokens, r)
            },
        },
        (
            Err(RefreshFailure::UseDpopNonce { error_description: _, dpop_nonce }),
            RefreshStage::First,
        ) => {
            &&& after == SimpleView {
                oauth2: client::with_nonce(before.oauth2, Some(dpop_nonce)),
                ..before
            }
            &&& match action {
                Ok(Action::Refresh { request, stage }) => {
                    &&& stage == RefreshStage::Retry
                    &&& client::fresh_refresh_request(after.oauth2, Ok(request))
                },
                Err(SimpleError::Client(e)) => client::fresh_refresh_request(after.oauth2, Err(e)),
                _ => false,
            }
        },
        (Err(failure), _) => after == before && (action matches Err(e) && e@
            == SimpleFailure::Refresh(failure)),
    }
}

impl Oauth2Simple {
    /// Starts the initialization flow to create new `Tokens` data from a `ClientInfo`. Results are
    /// returned by `advance()`, to be also written to `tokens_path`.
    pub fn init(&mut self) -> (action: Result<Action, SimpleError>)
        requires
            client::cfg_fits(old(self)@.oauth2.cfg),
        ensures
            init_started(old(self)@, final(self)@, action),
    {
        match self.oauth2.auth_get_url_and_listen() {
            Ok((url, listen_port)) => Ok(Action::Authorize { url, listen_port }),
            Err(e) => Err(SimpleError::Client(e)),
        }
    }

    /// Starts the refresh flow to get new `Tokens` data from a refresh token. Must only be called
    /// if there was a tokens file at the time of the `Oauth2Simple` construction, or if the
    /// `init()` flow has already been gone through on this instance. Results are returned by
    /// `advance()`, to be also written to `tokens_path`.
    pub fn refresh(&self) -> (action: Result<Action, SimpleError>)
        ensures
            refresh_started(self@, action),
    {
        match self.oauth2.refresh() {
            Ok(request) => Ok(Action::Refresh { request, stage: RefreshStage::First }),
            Err(e) => Err(SimpleError::Client(e)),
        }
    }

    /// Starts the initialization flow as in `init()`, but only if there are no tokens yet.
    pub fn init_if_needed(&mut self) -> (action: Result<Action, SimpleError>)
        requires
            old(self)@.can_init_if_needed(),
        ensures
            match old(self)@.tokens {
                Some(tokens) => final(self)@ == old(self)@ && (action matches Ok(Action::Keep(kept))
                    && kept@ == tokens),
                None => init_started(old(self)@, final(self)@, action),
            },
    {
        match &self.tokens {
            Some(tokens) => Ok(Action::Keep(tokens.clone())),
            None => self.init(),
        }
    }

    /// Starts to refresh the access token as in `refresh()`, but only if at `now` the previous
    /// access token has expired or is getting close to expiring. Fails if there was no previous
    /// access token.
    pub fn refresh_if_needed_at(&self, now: Timestamp) -> (action: Result<Action, SimpleError>)
        ensures
            refresh_if_needed_started(self@, now, action),
    {
        match &self.tokens {
            Some(tokens) => if tokens.expires_at.is_after_by(&now, REFRESH_MARGIN) {
                Ok(Action::Keep(tokens.clone()))
            } else {
                self.refresh()
            },
            None => Err(SimpleError::TokensUnset),
        }
    }

    /// Starts to refresh the access token as in `refresh()`, but only if the previous access token
    /// has expired or is getting close to expiring. Fails if there was no previous access token.
    pub fn refresh_if_needed(&self) -> (action: Result<Action, SimpleError>)
        ensures
            exists|now: Timestamp|
                clock::was_read(now) && clock::is_reading(now)
                    && #[trigger] refresh_if_needed_started(self@, now, action),
    {
        let now = clock::now();
        self.refresh_if_needed_at(now)
    }

    /// Starts to get an access token at `now`. If there was no existing access token, it does this
    /// by running the `init()` flow. If the previous access token expired already, then it instead
    /// runs the `refresh()` flow. Otherwise, it just returns the existing not-yet-expired token.
    /// Once the flow is through, `finish_token()` says what remains to be done.
    pub fn get_token_at(&mut self, now: Timestamp) -> (action: Result<Action, SimpleError>)
        requires
            old(self)@.can_init_if_needed(),
        ensures
            token_sought(old(self)@, now, final(self)@, action),
    {
        match self.init_if_needed() {
            Ok(Action::Keep(_)) => self.refresh_if_needed_at(now),
            action => action,
        }
    }

    /// Starts to get an access token, as `get_token_at()` does at the present time.
    pub fn get_token(&mut self) -> (action: Result<Action, SimpleError>)
        requires
            old(self)@.can_init_if_needed(),
        ensures
            exists|now: Timestamp|
                clock::was_read(now) && clock::is_reading(now) && #[trigger] token_sought(
                    old(self)@,
                    now,
                    final(self)@,
                    action,
                ),
    {
        let now = clock::now();
        self.get_token_at(now)
    }

    /// Goes on, at `now`, after the flow that `get_token()` has started is through and has yielded
    /// `tokens`, with what the first action of that flow has as its follow-up.
    pub fn finish_token_at(&self, follow_up: FollowUp, tokens: Tokens, now: Timestamp) -> (action:
        Result<Action, SimpleError>)
        ensures
            token_finished(self@, follow_up, tokens@, now, action),
    {
        match follow_up {
            FollowUp::RefreshIfNeeded => self.refresh_if_needed_at(now),
            FollowUp::Done => Ok(Action::Keep(tokens)),
        }
    }

    /// Goes on after the flow that `get_token()` has started, as `finish_token_at()` does at the
    /// present time.
    pub fn finish_token(&self, follow_up: FollowUp, tokens: Tokens) -> (action: Result<
        Action,
        SimpleError,
    >)
        ensures
            exists|now: Timestamp|
                clock::was_read(now) && clock::is_reading(now) && #[trigger] token_finished(
                    self@,
                    follow_up,
                    tokens@,
                    now,
                    action,
                ),
    {
        let now = clock::now();
        self.finish_token_at(follow_up, tokens, now)
    }

    /// Whether the URL for the user can be written. Only then can the initialization flow be
    /// started.
    pub fn url_fits(&self) -> (fits: bool)
        ensures
            fits == client::cfg_fits(self@.oauth2.cfg),
    {
        self.oauth2.url_fits()
    }

    /// Whether the initialization flow can be started if it is needed. Only then can it be asked for
    /// tokens that may have to be got through it.
    pub fn can_init_if_needed(&self) -> (can: bool)
        ensures
            can == self@.can_init_if_needed(),
    {
        self.tokens.is_some() || self.oauth2.url_fits()
    }

    /// Goes on with a flow after an event at `now`.
    pub fn advance_at(&mut self, event: Event, now: Timestamp) -> (action: Result<
        Action,
        SimpleError,
    >)
        requires
            lasting_event(event),
            now.secs <= i64::MAX - u32::MAX,
        ensures
            advanced(old(self)@, event, now, final(self)@, action),
    {
        match event {
            Event::Authorized(r) => match self.oauth2.auth_exchange_at(r, now.secs) {
                Ok(request) => Ok(Action::Exchange(request)),
                Err(e) => Err(SimpleError::Client(e)),
            },
            Event::Exchanged { response, dpop_nonce } => {
                let tokens = self.oauth2.auth_handle_exchange_response_at(
                    response,
                    dpop_nonce,
                    now,
                );
                Ok(self.save(tokens))
            },
            Event::Refreshed(reply) => match self.oauth2.refresh_continue_at(reply, now) {
                Ok(RefreshStep::Done(result)) => match &self.tokens {
                    Some(tokens) => {
                        let mut tokens = tokens.clone();
                        tokens.merge(&result);
                        Ok(self.save(tokens))
                    },
                    None => Err(SimpleError::TokensUnset),
                },
                Ok(RefreshStep::SendAgain { request, stage, error_description: _ }) => Ok(
                    Action::Refresh { request, stage },
                ),
                Err(RefreshError::Request(e)) => Err(SimpleError::Client(e)),
                Err(RefreshError::Response(e)) => Err(SimpleError::Refresh(e)),
            },
        }
    }

    /// Goes on with a flow after an event.
    pub fn advance(&mut self, event: Event) -> (action: Result<Action, SimpleError>)
        requires
            lasting_event(event),
        ensures
            exists|now: Timestamp|
                clock::was_read(now) && clock::is_reading(now) && #[trigger] advanced(
                    old(self)@,
                    event,
                    now,
                    final(self)@,
                    action,
                ),
    {
        let now = clock::now();
        self.advance_at(event, now)
    }

    /// Takes over new tokens, which are to be saved.
    fn save(&mut self, tokens: Tokens) -> (action: Action)
        ensures
            final(self)@ == holding(old(self)@, tokens@),
            action matches Action::Save(saved) && saved@ == tokens@,
    {
        self.oauth2.use_tokens(&tokens);
        self.tokens = Some(tokens.clone());
        Action::Save(tokens)
    }
}

/// What remains to be done, at `now`, after the flow that `get_token()` has started is through and
/// has yielded `tokens`.
pub open spec fn token_finished(
    simple: SimpleView,
    follow_up: FollowUp,
    tokens: TokensView,
    now: Timestamp,
    action: Result<Action, SimpleError>,
) -> bool {
    match follow_up {
        FollowUp::RefreshIfNeeded => refresh_if_needed_started(simple, now, action),
        FollowUp::Done => action matches Ok(Action::Keep(kept)) && kept@ == tokens,
    }
}

/// What starting to get an access token at `now` does: without tokens, the initialization flow is
/// started, and otherwise the refresh flow if it is needed.
pub open spec fn token_sought(
    before: SimpleView,
    now: Timestamp,
    after: SimpleView,
    action: Result<Action, SimpleError>,
) -> bool {
    if before.tokens is None {
        init_started(before, after, action)
    } else {
        after == before && refresh_if_needed_started(before, now, action)
    }
}

} // verus!
