//! The OAuth2 client: the `auth` flow and the `refresh` flow.

use vstd::prelude::*;

use crate::base64url;
use crate::clock;
use crate::clock::Timestamp;
use crate::digest;
use crate::dpop;
use crate::dpop::{DpopError, KeyData, KeyDataView};
use crate::error::{Failure, Oauth2Error};
use crate::random;
use crate::random::Purpose;
use crate::text;
use crate::tokens;
use crate::tokens::{
    ExchangeResponse, RefreshHandleResponseError, RefreshResponse, RefreshResult, ServerError,
    TokenExchangeResult, Tokens,
};
use crate::url;

verus! {

/// Config data for the oauth2 flow. Some fields may be optional depending on the operation you
/// want to perform.
pub struct Cfg {
    /// Port that a local http server can listen on. Required if you plan to use the `auth` flow.
    pub listen_port: Option<u16>,

    /// Client ID. You can find create one on your Google Cloud console.
    pub client_id: String,

    /// Oauth Scope for the APIs you want to call. Required for the `auth` flow.
    pub scope: Option<String>,

    /// URL for the auth server you want to connect to. For Google, you probably want
    /// `https://accounts.google.com/o/oauth2/auth`. Required for the `auth` flow.
    pub auth_server_url: Option<String>,

    /// URL for the token server you want to connect to. For Google, that means
    /// `https://oauth2.googleapis.com/token`.
    pub token_server_url: String,

    /// Client secret from Google Cloud console.
    pub client_secret: String,

    /// Refresh token, from the last time you went through the `auth` flow. Required to go through
    /// the `refresh` flow.
    pub refresh_token: Option<String>,

    /// The key to sign DPoPs with. Requests to the token server carry a DPoP if there is one.
    pub key_data: Option<KeyData>,

    /// The latest nonce returned by the token server, to be used in the next DPoP.
    pub dpop_nonce: Option<String>,
}

/// What a `Cfg` holds.
pub struct CfgView {
    pub listen_port: Option<u16>,
    pub client_id: Seq<char>,
    pub scope: Option<Seq<char>>,
    pub auth_server_url: Option<Seq<char>>,
    pub token_server_url: Seq<char>,
    pub client_secret: Seq<char>,
    pub refresh_token: Option<Seq<char>>,
    pub key_data: Option<KeyDataView>,
    pub dpop_nonce: Option<Seq<char>>,
}

impl View for Cfg {
    type V = CfgView;

    open spec fn view(&self) -> CfgView {
        CfgView {
            listen_port: self.listen_port,
            client_id: self.client_id@,
            scope: self.scope.deep_view(),
            auth_server_url: self.auth_server_url.deep_view(),
            token_server_url: self.token_server_url@,
            client_secret: self.client_secret@,
            refresh_token: self.refresh_token.deep_view(),
            key_data: dpop::key_data_view(self.key_data),
            dpop_nonce: self.dpop_nonce.deep_view(),
        }
    }
}

/// The main oauth object. There are 2 main flows you might want to use it for: `auth` or
/// `refresh`.
pub struct Oauth2 {
    /// The client's configuration.
    cfg: Cfg,

    /// The cryptographically randomly-generated "code verifier" for the challenge-response process.
    code_verifier: Option<String>,

    /// The hashed and encoded `code_verifier`.
    code_challenge: Option<String>,

    /// The `state` parameter for the Oauth flow. Here used as a CSRF token.
    state: Option<String>,

    /// The `code` returned by the Oauth server.
    code: Option<String>,
}

/// What an `Oauth2` holds.
pub struct Oauth2View {
    pub cfg: CfgView,
    pub code_verifier: Option<Seq<char>>,
    pub code_challenge: Option<Seq<char>>,
    pub state: Option<Seq<char>>,
    pub code: Option<Seq<char>>,
}

impl View for Oauth2 {
    type V = Oauth2View;

    closed spec fn view(&self) -> Oauth2View {
        Oauth2View {
            cfg: self.cfg@,
            code_verifier: self.code_verifier.deep_view(),
            code_challenge: self.code_challenge.deep_view(),
            state: self.state.deep_view(),
            code: self.code.deep_view(),
        }
    }
}

/// A client that no flow has been through yet.
pub open spec fn unused(cfg: CfgView) -> Oauth2View {
    Oauth2View { cfg, code_verifier: None, code_challenge: None, state: None, code: None }
}

/// The response from the initial step of the `auth` flow (user authorization).
#[derive(Debug)]
pub struct AuthResponse {
    /// The CSRF `state` field.
    pub state: String,

    /// The `code` returned by the Oauth server.
    pub code: String,

    /// The API `scope` returned by the Oauth server.
    pub scope: String,
}

/// The characters a code verifier is made of: `[A-Z] / [a-z] / [0-9] / "-" / "." / "_" / "~"`.
pub open spec fn verifier_alphabet() -> Seq<char> {
    "ABCDEFGHIJKLMNOPQRSTUVWXYZabcdefghijklmnopqrstuvwxyz0123456789-._~"@
}

/// How many characters a code verifier is made of.
pub const ALPHABET_LEN: usize = 66;

/// The length of a code verifier.
pub const CODE_VERIFIER_LEN: usize = 128;

/// The text that picks one character of the alphabet for each number.
pub open spec fn verifier_text(words: Seq<u32>) -> Seq<char> {
    Seq::new(words.len(), |i: int| verifier_alphabet()[words[i] as int % ALPHABET_LEN as int])
}

/// Whether `text` is a code verifier: as long as one, and made of the characters of one.
pub open spec fn is_code_verifier(text: Seq<char>) -> bool {
    &&& text.len() == CODE_VERIFIER_LEN
    &&& forall|i: int| 0 <= i < text.len() ==> verifier_alphabet().contains(#[trigger] text[i])
}

/// Whether each character of the code verifier `text` was picked by a number that has been drawn, all
/// of them one after the other for the given purpose.
pub open spec fn is_drawn_verifier(text: Seq<char>, purpose: Purpose) -> bool {
    exists|words: Seq<u32>|
        words.len() == CODE_VERIFIER_LEN && random::were_drawn(words, purpose) && text
            == #[trigger] verifier_text(words)
}

/// The code challenge for a code verifier: `BASE64URL(SHA256(code_verifier))`.
pub open spec fn challenge(code_verifier: Seq<char>) -> Seq<char> {
    base64url::base64url(digest::sha256(text::utf8(code_verifier)))
}

/// Where the auth server sends the user's browser back to.
pub open spec fn redirect_uri(listen_port: u16) -> Seq<char> {
    "http://localhost:"@ + text::decimal(listen_port as nat)
}

/// The parameters of the URL at which the user grants access.
pub open spec fn auth_params(
    client_id: Seq<char>,
    listen_port: u16,
    scope: Seq<char>,
    code_challenge: Seq<char>,
    state: Seq<char>,
) -> Seq<(Seq<char>, Seq<char>)> {
    seq![
        ("client_id"@, client_id),
        ("redirect_uri"@, redirect_uri(listen_port)),
        ("response_type"@, "code"@),
        ("scope"@, scope),
        ("code_challenge"@, code_challenge),
        ("code_challenge_method"@, "S256"@),
        ("state"@, state),
    ]
}

/// The URL at which the user grants access, or what is missing for it.
pub open spec fn auth_url(client: Oauth2View) -> Result<Seq<char>, Failure> {
    match client.cfg.auth_server_url {
        None => Err(Failure::AuthServerUrlIsNone),
        Some(base) => match client.cfg.listen_port {
            None => Err(Failure::ListenPortIsNone),
            Some(listen_port) => match client.cfg.scope {
                None => Err(Failure::ScopeIsNone),
                Some(scope) => match client.code_challenge {
                    None => Err(Failure::CodeChallengeIsNone),
                    Some(code_challenge) => match client.state {
                        None => Err(Failure::StateIsNone),
                        Some(state) => match url::url_with_params(
                            base,
                            auth_params(
                                client.cfg.client_id,
                                listen_port,
                                scope,
                                code_challenge,
                                state,
                            ),
                        ) {
                            Ok(url) => Ok(url),
                            Err(reason) => Err(Failure::Url(reason)),
                        },
                    },
                },
            },
        },
    }
}

/// The length of an optional text, which is zero if there is none.
pub open spec fn optional_len(text: Option<Seq<char>>) -> nat {
    match text {
        Some(text) => text.len(),
        None => 0,
    }
}

/// Whether the URL at which the user grants access can be written whatever its parts are.
pub open spec fn auth_url_fits(client: Oauth2View) -> bool {
    client.cfg.auth_server_url matches Some(base) ==> url::url_fits(
        base,
        client.cfg.client_id.len() + optional_len(client.cfg.scope) + optional_len(
            client.code_challenge,
        ) + optional_len(client.state) + 256,
        7,
    )
}

/// Whether what the configuration contributes to that URL leaves room for a challenge and a state of
/// the given length.
pub open spec fn has_room(cfg: CfgView, state_len: nat) -> bool {
    cfg.auth_server_url matches Some(base) ==> url::url_fits(
        base,
        cfg.client_id.len() + optional_len(cfg.scope) + state_len + 384,
        7,
    )
}

/// Whether what the configuration contributes to that URL leaves room for a challenge and a state
/// that is drawn.
pub open spec fn cfg_fits(cfg: CfgView) -> bool {
    has_room(cfg, CODE_VERIFIER_LEN as nat)
}

/// The client once a code verifier and a state have been chosen.
pub open spec fn with_secrets(
    client: Oauth2View,
    code_verifier: Seq<char>,
    state: Seq<char>,
) -> Oauth2View {
    Oauth2View {
        code_verifier: Some(code_verifier),
        code_challenge: Some(challenge(code_verifier)),
        state: Some(state),
        ..client
    }
}

/// Writes the URI to which the auth server sends the user's browser back.
fn write_redirect_uri(listen_port: u16) -> (uri: String)
    ensures
        uri@ == redirect_uri(listen_port),
{
    let mut uri = "http://localhost:".to_owned();
    uri.append(text::write_decimal(listen_port as u64).as_str());
    uri
}

/// Picks one character of the alphabet for each number.
pub fn write_verifier(words: &Vec<u32>) -> (verifier: String)
    ensures
        verifier@ == verifier_text(words@),
        words@.len() == CODE_VERIFIER_LEN ==> is_code_verifier(verifier@),
{
    let mut verifier = String::new();
    let alphabet = "ABCDEFGHIJKLMNOPQRSTUVWXYZabcdefghijklmnopqrstuvwxyz0123456789-._~";
    proof {
        reveal_strlit("ABCDEFGHIJKLMNOPQRSTUVWXYZabcdefghijklmnopqrstuvwxyz0123456789-._~");
    }
    let mut i: usize = 0;
    while i < words.len()
        invariant
            i <= words.len(),
            alphabet@ == verifier_alphabet(),
            alphabet@.len() == ALPHABET_LEN,
            alphabet.is_ascii(),
            verifier@ =~= verifier_text(words@).take(i as int),
        decreases words.len() - i,
    {
        let pick: usize = words[i] as usize % ALPHABET_LEN;
        verifier.append(alphabet.substring_ascii(pick, pick + 1));
        i += 1;
    }
    assert(verifier_text(words@).take(i as int) =~= verifier_text(words@));
    verifier
}

/// Draws a text in the form of a code verifier for the given purpose.
fn draw_verifier(Ghost(purpose): Ghost<Purpose>) -> (verifier: Result<String, Oauth2Error>)
    ensures
        match verifier {
            Ok(verifier) => is_code_verifier(verifier@) && is_drawn_verifier(verifier@, purpose),
            Err(e) => e@ == Failure::Entropy,
        },
{
    let mut rng = match random::seeded_for(Ghost(purpose)) {
        Ok(rng) => rng,
        Err(e) => return Err(Oauth2Error::Entropy(e)),
    };
    let mut words: Vec<u32> = Vec::new();
    let ghost mut rngs = seq![rng];
    while words.len() < CODE_VERIFIER_LEN
        invariant
            words.len() <= CODE_VERIFIER_LEN,
            rngs.len() == words.len() + 1,
            rngs.last() == rng,
            random::was_seeded(rngs[0], purpose),
            random::is_run(rngs, words@),
        decreases CODE_VERIFIER_LEN - words.len(),
    {
        words.push(random::next_u32(&mut rng));
        proof {
            rngs = rngs.push(rng);
        }
    }
    Ok(write_verifier(&words))
}

impl Oauth2 {
    /// Creates a new `Oauth2` object.
    pub fn new(cfg: Cfg) -> (client: Self)
        ensures
            client@ == unused(cfg@),
    {
        Oauth2 { cfg, code_verifier: None, code_challenge: None, state: None, code: None }
    }

    /// Generates a cryptographically-random string using an alphabet of
    /// {[A-Z] / [a-z] / [0-9] / "-" / "." / "_" / "~"} for the challenge-response mechanism. See
    /// https://developers.google.com/identity/protocols/oauth2/native-app#create-code-challenge.
    ///
    /// Which characters they are rests on chance, and so does whether there are any.
    pub fn create_code_verifier(&self) -> (verifier: Result<String, Oauth2Error>)
        ensures
            match verifier {
                Ok(verifier) => is_code_verifier(verifier@) && is_drawn_verifier(
                    verifier@,
                    Purpose::CodeVerifier,
                ),
                Err(e) => e@ == Failure::Entropy,
            },
    {
        draw_verifier(Ghost(Purpose::CodeVerifier))
    }

    /// Hashes and encodes the `code_verifier`. See
    /// https://developers.google.com/identity/protocols/oauth2/native-app#create-code-challenge.
    pub fn create_code_challenge(&self) -> (challenge: Result<String, Oauth2Error>)
        ensures
            match self@.code_verifier {
                Some(code_verifier) => challenge matches Ok(c) && c@ == self::challenge(
                    code_verifier,
                ),
                None => challenge matches Err(e) && e@ == Failure::CodeVerifierIsNone,
            },
            challenge matches Ok(c) ==> c@.len() == base64url::encoded_len(32),
    {
        match &self.code_verifier {
            Some(code_verifier) => Ok(
                base64url::encode(
                    digest::sha256_digest(code_verifier.as_str().as_bytes()).as_slice(),
                ),
            ),
            None => Err(Oauth2Error::CodeVerifierIsNone),
        }
    }
}

/// The parameters of the auth URL are no longer than their variable parts and a little more.
proof fn lemma_auth_params_size(
    client_id: Seq<char>,
    listen_port: u16,
    scope: Seq<char>,
    code_challenge: Seq<char>,
    state: Seq<char>,
)
    ensures
        url::total_chars(auth_params(client_id, listen_port, scope, code_challenge, state))
            <= client_id.len() + scope.len() + code_challenge.len() + state.len() + 256,
{
    reveal_strlit("client_id");
    reveal_strlit("redirect_uri");
    reveal_strlit("response_type");
    reveal_strlit("code");
    reveal_strlit("scope");
    reveal_strlit("code_challenge");
    reveal_strlit("code_challenge_method");
    reveal_strlit("S256");
    reveal_strlit("state");
    reveal_strlit("http://localhost:");
    assert(text::decimal(listen_port as nat).len() <= 5) by {
        reveal_with_fuel(text::decimal, 6);
    }
    let p = auth_params(client_id, listen_port, scope, code_challenge, state);
    assert(p.drop_last() =~= p.take(6));
    assert(p.take(6).drop_last() =~= p.take(5));
    assert(p.take(5).drop_last() =~= p.take(4));
    assert(p.take(4).drop_last() =~= p.take(3));
    assert(p.take(3).drop_last() =~= p.take(2));
    assert(p.take(2).drop_last() =~= p.take(1));
    assert(p.take(1).drop_last() =~= p.take(0));
    reveal_with_fuel(url::total_chars, 8);
}

impl Oauth2 {
    /// Creates an auth request URL for the user to visit in their browser. See
    /// https://developers.google.com/identity/protocols/oauth2/native-app#create-code-challenge.
    pub fn get_auth_request_url(&self) -> (url: Result<String, Oauth2Error>)
        requires
            auth_url_fits(self@),
        ensures
            match auth_url(self@) {
                Ok(u) => url matches Ok(r) && r@ == u,
                Err(failure) => url matches Err(e) && e@ == failure,
            },
    {
        let base = match &self.cfg.auth_server_url {
            Some(base) => base,
            None => return Err(Oauth2Error::AuthServerUrlIsNone),
        };
        let listen_port: u16 = match self.cfg.listen_port {
            Some(listen_port) => listen_port,
            None => return Err(Oauth2Error::ListenPortIsNone),
        };
        let scope = match &self.cfg.scope {
            Some(scope) => scope,
            None => return Err(Oauth2Error::ScopeIsNone),
        };
        let code_challenge = match &self.code_challenge {
            Some(code_challenge) => code_challenge,
            None => return Err(Oauth2Error::CodeChallengeIsNone),
        };
        let state = match &self.state {
            Some(state) => state,
            None => return Err(Oauth2Error::StateIsNone),
        };
        let redirect_uri = write_redirect_uri(listen_port);
        let params = vec![
            ("client_id", self.cfg.client_id.as_str()),
            ("redirect_uri", redirect_uri.as_str()),
            ("response_type", "code"),
            ("scope", scope.as_str()),
            ("code_challenge", code_challenge.as_str()),
            ("code_challenge_method", "S256"),
            ("state", state.as_str()),
        ];
        proof {
            assert(params.deep_view() =~= auth_params(
                self@.cfg.client_id,
                listen_port,
                scope@,
                code_challenge@,
                state@,
            ));
            lemma_auth_params_size(
                self@.cfg.client_id,
                listen_port,
                scope@,
                code_challenge@,
                state@,
            );
        }
        match url::parse_with_params(base.as_str(), &params) {
            Ok(url) => Ok(url),
            Err(reason) => Err(Oauth2Error::Url(reason)),
        }
    }

    /// Whether what the configuration contributes to the URL at which the user grants access leaves
    /// room for a challenge and a state. Only then can the `auth` flow be started.
    pub fn url_fits(&self) -> (fits: bool)
        ensures
            fits == cfg_fits(self@.cfg),
    {
        match &self.cfg.auth_server_url {
            Some(base) => {
                let scope_chars: u128 = match &self.cfg.scope {
                    Some(scope) => scope.as_str().unicode_len() as u128,
                    None => 0,
                };
                let id_chars: u128 = self.cfg.client_id.as_str().unicode_len() as u128;
                url::fits(base.as_str(), id_chars + scope_chars + 512, 7)
            },
            None => true,
        }
    }

    /// The first step in the `auth` flow, with the code verifier and the state given: keeps both,
    /// and returns the URL for the user to open in their browser, with the port on which the
    /// response is to be expected.
    pub fn auth_get_url_with(&mut self, code_verifier: String, state: String) -> (step: Result<
        (String, u16),
        Oauth2Error,
    >)
        requires
            has_room(old(self)@.cfg, state@.len()),
        ensures
            final(self)@ == with_secrets(old(self)@, code_verifier@, state@),
            auth_step(final(self)@, step),
    {
        self.set_verifier(code_verifier);
        self.state = Some(state);
        self.auth_step()
    }

    /// Keeps a code verifier and its challenge.
    fn set_verifier(&mut self, code_verifier: String)
        ensures
            final(self)@ == (Oauth2View {
                code_verifier: Some(code_verifier@),
                code_challenge: Some(challenge(code_verifier@)),
                ..old(self)@
            }),
            challenge(code_verifier@).len() == base64url::encoded_len(32),
    {
        self.code_verifier = Some(code_verifier);
        if let Ok(code_challenge) = self.create_code_challenge() {
            self.code_challenge = Some(code_challenge);
        }
    }

    /// The URL for the user to open, with the port on which the response is to be expected.
    fn auth_step(&self) -> (step: Result<(String, u16), Oauth2Error>)
        requires
            auth_url_fits(self@),
        ensures
            auth_step(self@, step),
    {
        let url = self.get_auth_request_url()?;
        match self.cfg.listen_port {
            Some(listen_port) => Ok((url, listen_port)),
            None => Err(Oauth2Error::ListenPortIsNone),
        }
    }

    /// The first step in the `auth` flow. Generates a URL for the user to open in their browser,
    /// and says on which port an http server is to listen for the initial user authorization
    /// response.
    ///
    /// See
    /// https://developers.google.com/identity/protocols/oauth2/native-app#step-2:-send-a-request-to-googles-oauth-2.0-server.
    ///
    /// The code verifier and the state are drawn anew. Where the operating system gives no random
    /// bytes, those that were drawn before are kept.
    pub fn auth_get_url_and_listen(&mut self) -> (step: Result<(String, u16), Oauth2Error>)
        requires
            cfg_fits(old(self)@.cfg),
        ensures
            drawn_auth_step(old(self)@, final(self)@, step),
    {
        let code_verifier = self.create_code_verifier()?;
        match draw_verifier(Ghost(Purpose::State)) {
            Ok(state) => self.auth_get_url_with(code_verifier, state),
            Err(e) => {
                self.set_verifier(code_verifier);
                Err(e)
            },
        }
    }
}

/// Whether `step` is what the first step of the `auth` flow results in: the URL of the client and
/// the port it listens on, or what is missing.
pub open spec fn auth_step(client: Oauth2View, step: Result<(String, u16), Oauth2Error>) -> bool {
    match auth_url(client) {
        Ok(url) => step matches Ok(s) && s.0@ == url && client.cfg.listen_port == Some(s.1),
        Err(failure) => step matches Err(e) && e@ == failure,
    }
}

/// What the first step of the `auth` flow does when it draws the code verifier and the state. Where
/// the operating system gives no random bytes, at most the code verifier is a new one.
pub open spec fn drawn_auth_step(
    before: Oauth2View,
    after: Oauth2View,
    step: Result<(String, u16), Oauth2Error>,
) -> bool {
    match step {
        Err(Oauth2Error::Entropy(_)) => after == before || exists|code_verifier: Seq<char>|
            is_code_verifier(code_verifier) && is_drawn_verifier(
                code_verifier,
                Purpose::CodeVerifier,
            ) && after == (Oauth2View {
                code_verifier: Some(code_verifier),
                code_challenge: Some(#[trigger] challenge(code_verifier)),
                ..before
            }),
        _ => auth_step(after, step) && exists|code_verifier: Seq<char>, state: Seq<char>|
            is_code_verifier(code_verifier) && is_drawn_verifier(
                code_verifier,
                Purpose::CodeVerifier,
            ) && is_code_verifier(state) && is_drawn_verifier(state, Purpose::State) && after
                == #[trigger] with_secrets(before, code_verifier, state),
    }
}

/// A `POST` request to the token server.
pub struct TokenRequest {
    /// Where the request goes.
    pub url: String,

    /// The fields of the form in the request's body.
    pub form: Vec<(String, String)>,

    /// The DPoP that goes into the request's `DPoP` header, if any.
    pub dpop: Option<String>,
}

/// What a `TokenRequest` holds.
pub struct TokenRequestView {
    pub url: Seq<char>,
    pub form: Seq<(Seq<char>, Seq<char>)>,
    pub dpop: Option<Seq<char>>,
}

impl View for TokenRequest {
    type V = TokenRequestView;

    open spec fn view(&self) -> TokenRequestView {
        TokenRequestView {
            url: self.url@,
            form: self.form.deep_view(),
            dpop: self.dpop.deep_view(),
        }
    }
}

/// Why a response to the authorization is refused, if it is: its state must be the one that was
/// sent, and its scope the one that was asked for.
pub open spec fn refusal(client: Oauth2View, state: Seq<char>, scope: Seq<char>) -> Option<
    Failure,
> {
    match client.state {
        None => Some(Failure::StateIsNone),
        Some(expected) => if state != expected {
            Some(Failure::StateMismatch { received: state, expected })
        } else {
            match client.cfg.scope {
                None => Some(Failure::ScopeIsNone),
                Some(expected) => if scope != expected {
                    Some(Failure::ScopeMismatch { received: scope, expected })
                } else {
                    None
                },
            }
        },
    }
}

/// The fields of a request that exchanges an authorization code for tokens.
pub open spec fn exchange_form(
    cfg: CfgView,
    code: Seq<char>,
    code_verifier: Seq<char>,
    listen_port: u16,
) -> Seq<(Seq<char>, Seq<char>)> {
    seq![
        ("client_id"@, cfg.client_id),
        ("code"@, code),
        ("code_verifier"@, code_verifier),
        ("grant_type"@, "authorization_code"@),
        ("redirect_uri"@, redirect_uri(listen_port)),
        ("client_secret"@, cfg.client_secret),
    ]
}

/// The request that exchanges an authorization code for tokens at the given time, or what is
/// missing for it.
pub open spec fn exchange_request(client: Oauth2View, iat: int) -> Result<
    TokenRequestView,
    Failure,
> {
    match client.code {
        None => Err(Failure::CodeIsNone),
        Some(code) => match client.code_verifier {
            None => Err(Failure::CodeVerifierIsNone),
            Some(code_verifier) => match client.cfg.listen_port {
                None => Err(Failure::ListenPortIsNone),
                Some(listen_port) => Ok(
                    TokenRequestView {
                        url: client.cfg.token_server_url,
                        form: exchange_form(client.cfg, code, code_verifier, listen_port),
                        dpop: match client.cfg.key_data {
                            Some(key) => Some(
                                dpop::dpop(
                                    key,
                                    client.cfg.token_server_url,
                                    None,
                                    dpop::auth_jti(code),
                                    iat,
                                ),
                            ),
                            None => None,
                        },
                    },
                ),
            },
        },
    }
}

/// The fields of a request for a new access token.
pub open spec fn refresh_form(cfg: CfgView, refresh_token: Seq<char>) -> Seq<
    (Seq<char>, Seq<char>),
> {
    seq![
        ("client_id"@, cfg.client_id),
        ("client_secret"@, cfg.client_secret),
        ("grant_type"@, "refresh_token"@),
        ("refresh_token"@, refresh_token),
    ]
}

/// The request for a new access token, with the given request identifier and at the given time,
/// or what is missing for it.
pub open spec fn refresh_request(client: Oauth2View, jti: Seq<char>, iat: int) -> Result<
    TokenRequestView,
    Failure,
> {
    match client.cfg.refresh_token {
        None => Err(Failure::RefreshTokenIsNone),
        Some(refresh_token) => Ok(
            TokenRequestView {
                url: client.cfg.token_server_url,
                form: refresh_form(client.cfg, refresh_token),
                dpop: match client.cfg.key_data {
                    Some(key) => Some(
                        dpop::dpop(
                            key,
                            client.cfg.token_server_url,
                            client.cfg.dpop_nonce,
                            jti,
                            iat,
                        ),
                    ),
                    None => None,
                },
            },
        ),
    }
}

/// Whether `request` is what building a request results in.
pub open spec fn is_request(
    request: Result<TokenRequest, Oauth2Error>,
    outcome: Result<TokenRequestView, Failure>,
) -> bool {
    match outcome {
        Ok(r) => request matches Ok(q) && q@ == r,
        Err(failure) => request matches Err(e) && e@ == failure,
    }
}

/// One field of a form.
fn field(name: &str, value: &str) -> (field: (String, String))
    ensures
        field.deep_view() == (name@, value@),
{
    (name.to_owned(), value.to_owned())
}

impl Oauth2 {
    /// Creates the request for the token exchange, with a DPoP for the given time if there is a key
    /// to sign it with.
    pub fn get_exchange_request_at(&self, iat: i64) -> (request: Result<TokenRequest, Oauth2Error>)
        ensures
            is_request(request, exchange_request(self@, iat as int)),
    {
        let code = match &self.code {
            Some(code) => code,
            None => return Err(Oauth2Error::CodeIsNone),
        };
        let code_verifier = match &self.code_verifier {
            Some(code_verifier) => code_verifier,
            None => return Err(Oauth2Error::CodeVerifierIsNone),
        };
        let listen_port: u16 = match self.cfg.listen_port {
            Some(listen_port) => listen_port,
            None => return Err(Oauth2Error::ListenPortIsNone),
        };
        let form = vec![
            field("client_id", self.cfg.client_id.as_str()),
            field("code", code.as_str()),
            field("code_verifier", code_verifier.as_str()),
            field("grant_type", "authorization_code"),
            field("redirect_uri", write_redirect_uri(listen_port).as_str()),
            field("client_secret", self.cfg.client_secret.as_str()),
        ];
        assert(form.deep_view() =~= exchange_form(
            self@.cfg,
            code@,
            code_verifier@,
            listen_port,
        ));
        let dpop = match &self.cfg.key_data {
            Some(key_data) => Some(
                dpop::create_auth_at(
                    key_data,
                    code.as_str(),
                    self.cfg.token_server_url.as_str(),
                    iat,
                ),
            ),
            None => None,
        };
        Ok(TokenRequest { url: self.cfg.token_server_url.clone(), form, dpop })
    }

    /// Creates an http request for the token exchange.
    pub fn get_exchange_request(&self) -> (request: Result<TokenRequest, Oauth2Error>)
        ensures
            exists|now: Timestamp| #[trigger]
                clock::is_reading(now) && (self@.cfg.key_data is Some ==> clock::was_read(now))
                    && is_request(
                    request,
                    exchange_request(self@, now.secs as int),
                ),
    {
        let iat: i64 = self.request_time();
        self.get_exchange_request_at(iat)
    }

    /// The time of a request that carries a DPoP. Without a key there is none, and the clock is not
    /// read.
    fn request_time(&self) -> (iat: i64)
        ensures
            self@.cfg.key_data is None ==> iat == 0,
            exists|now: Timestamp| #[trigger]
                clock::is_reading(now) && iat == now.secs && (self@.cfg.key_data is Some
                    ==> clock::was_read(now)),
    {
        match &self.cfg.key_data {
            Some(_) => clock::now().secs,
            None => {
                assert(clock::is_reading(Timestamp { secs: 0, nanos: 0 }));
                0
            },
        }
    }

    /// Creates the request for a new access token, with a DPoP for the given request identifier
    /// and time if there is a key to sign it with.
    pub fn get_refresh_request_with(&self, jti: &str, iat: i64) -> (request: Result<
        TokenRequest,
        Oauth2Error,
    >)
        ensures
            is_request(request, refresh_request(self@, jti@, iat as int)),
    {
        let refresh_token = match &self.cfg.refresh_token {
            Some(refresh_token) => refresh_token,
            None => return Err(Oauth2Error::RefreshTokenIsNone),
        };
        let form = vec![
            field("client_id", self.cfg.client_id.as_str()),
            field("client_secret", self.cfg.client_secret.as_str()),
            field("grant_type", "refresh_token"),
            field("refresh_token", refresh_token.as_str()),
        ];
        assert(form.deep_view() =~= refresh_form(self@.cfg, refresh_token@));
        let dpop = match &self.cfg.key_data {
            Some(key_data) => {
                let nonce = match &self.cfg.dpop_nonce {
                    Some(nonce) => Some(nonce.as_str()),
                    None => None,
                };
                Some(
                    dpop::create_at(key_data, self.cfg.token_server_url.as_str(), nonce, jti, iat),
                )
            },
            None => None,
        };
        Ok(TokenRequest { url: self.cfg.token_server_url.clone(), form, dpop })
    }

    /// Creates a token refresh request.
    ///
    /// The identifier of a request that carries a DPoP rests on chance, and so does whether there
    /// is one.
    pub fn get_refresh_request(&self) -> (request: Result<TokenRequest, Oauth2Error>)
        ensures
            fresh_refresh_request(self@, request),
    {
        if self.cfg.refresh_token.is_none() || self.cfg.key_data.is_none() {
            let request = self.get_refresh_request_with("", 0);
            proof {
                let start = Timestamp { secs: 0, nanos: 0 };
                assert(is_request(request, refresh_request(self@, ""@, start.secs as int)));
            }
            request
        } else {
            match dpop::create_random_jti() {
                Ok(jti) => {
                    let now = clock::now();
                    self.get_refresh_request_with(jti.as_str(), now.secs)
                },
                Err(e) => Err(Oauth2Error::Dpop(e)),
            }
        }
    }
}

/// Whether `request` is what asking `client` for a new access token results in: the request, with
/// a random identifier if it carries a DPoP, or what is missing. Only for want of random bytes
/// can a request that is to carry a DPoP fail.
pub open spec fn fresh_refresh_request(
    client: Oauth2View,
    request: Result<TokenRequest, Oauth2Error>,
) -> bool {
    let random = client.cfg.refresh_token is Some && client.cfg.key_data is Some;
    if random && request is Err {
        request matches Err(e) && e@ == Failure::Dpop && e matches Oauth2Error::Dpop(
            DpopError::Entropy(_),
        )
    } else {
        exists|jti: Seq<char>, now: Timestamp|
            clock::is_reading(now) && (random ==> dpop::is_random_jti(jti) && dpop::is_drawn_jti(
                jti,
            ) && clock::was_read(now)) && is_request(
                request,
                #[trigger] refresh_request(client, jti, now.secs as int),
            )
    }
}

impl Oauth2 {
    /// Takes the response to the authorization, unless it is to be refused: it must carry the state
    /// that was sent and the scope that was asked for. Its code is then kept.
    fn accept(&mut self, r: AuthResponse) -> (accepted: Result<(), Oauth2Error>)
        ensures
            match refusal(old(self)@, r.state@, r.scope@) {
                Some(failure) => accepted matches Err(e) && e@ == failure && final(self)@ == old(
                    self,
                )@,
                None => accepted is Ok && final(self)@ == (Oauth2View {
                    code: Some(r.code@),
                    ..old(self)@
                }),
            },
    {
        let state = match &self.state {
            Some(state) => state,
            None => return Err(Oauth2Error::StateIsNone),
        };
        if r.state != *state {
            return Err(Oauth2Error::StateMismatch { received: r.state, expected: state.clone() });
        }
        let scope = match &self.cfg.scope {
            Some(scope) => scope,
            None => return Err(Oauth2Error::ScopeIsNone),
        };
        if r.scope != *scope {
            return Err(Oauth2Error::ScopeMismatch { received: r.scope, expected: scope.clone() });
        }
        self.code = Some(r.code);
        Ok(())
    }

    /// The second step in the `auth` flow at the given time: the request that exchanges the `code`
    /// from the first step for an `access_token` and a `refresh_token`.
    pub fn auth_exchange_at(&mut self, r: AuthResponse, iat: i64) -> (request: Result<
        TokenRequest,
        Oauth2Error,
    >)
        ensures
            exchanged(old(self)@, r, iat as int, final(self)@, request),
    {
        match self.accept(r) {
            Ok(()) => self.get_exchange_request_at(iat),
            Err(e) => Err(e),
        }
    }

    /// The second step in the `auth` flow. The request that exchanges the `code` from the first
    /// step for an `access_token` and a `refresh_token`.
    ///
    /// See
    /// https://developers.google.com/identity/protocols/oauth2/native-app#exchange-authorization-code.
    pub fn auth_exchange(&mut self, r: AuthResponse) -> (request: Result<TokenRequest, Oauth2Error>)
        ensures
            exists|now: Timestamp| #[trigger]
                clock::is_reading(now) && (old(self)@.cfg.key_data is Some ==> clock::was_read(
                    now,
                )) && exchanged(
                    old(self)@,
                    r,
                    now.secs as int,
                    final(self)@,
                    request,
                ),
    {
        let iat: i64 = self.request_time();
        self.auth_exchange_at(r, iat)
    }

    /// The first step of the `refresh` flow: the request to send to the token server.
    ///
    /// See https://developers.google.com/identity/protocols/oauth2/native-app#offline.
    pub fn refresh(&self) -> (request: Result<TokenRequest, Oauth2Error>)
        ensures
            fresh_refresh_request(self@, request),
    {
        self.get_refresh_request()
    }
}

/// What the second step of the `auth` flow does with the response `r`: a response that is to be
/// refused changes nothing and leads to no request; the code of any other is kept and exchanged.
pub open spec fn exchanged(
    before: Oauth2View,
    r: AuthResponse,
    iat: int,
    after: Oauth2View,
    request: Result<TokenRequest, Oauth2Error>,
) -> bool {
    match refusal(before, r.state@, r.scope@) {
        Some(failure) => request matches Err(e) && e@ == failure && after == before,
        None => {
            &&& after == Oauth2View { code: Some(r.code@), ..before }
            &&& is_request(request, exchange_request(after, iat))
        },
    }
}

impl Oauth2 {
    /// The third and final part of the `auth` flow, for an answer that arrives at `now`.
    pub fn auth_handle_exchange_response_at(
        &self,
        r: ExchangeResponse,
        dpop_nonce: Option<String>,
        now: Timestamp,
    ) -> (result: TokenExchangeResult)
        requires
            tokens::lasting(r),
            now.secs <= i64::MAX - u32::MAX,
        ensures
            result@ == tokens::granted(
                r,
                tokens::latest_nonce(dpop_nonce.deep_view(), self@.cfg.dpop_nonce),
                now,
            ),
    {
        TokenExchangeResult {
            access_token: r.access_token,
            expires_at: tokens::expires_at(now, r.expires_in),
            refresh_token: r.refresh_token,
            refresh_token_expires_at: match r.refresh_token_expires_in {
                Some(expires_in) => Some(tokens::expires_at(now, expires_in)),
                None => None,
            },
            scope: r.scope,
            dpop_nonce: tokens::pick_nonce(
                dpop_nonce,
                text::copy_optional(&self.cfg.dpop_nonce),
            ),
        }
    }

    /// The third and final part of the `auth` flow. Handles the Token Exchange response, and the
    /// DPoP nonce that came with it.
    pub fn auth_handle_exchange_response(
        &self,
        r: ExchangeResponse,
        dpop_nonce: Option<String>,
    ) -> (result: TokenExchangeResult)
        requires
            tokens::lasting(r),
        ensures
            exists|now: Timestamp|
                clock::was_read(now) && clock::is_reading(now) && result@
                    == #[trigger] tokens::granted(
                    r,
                    tokens::latest_nonce(dpop_nonce.deep_view(), self@.cfg.dpop_nonce),
                    now,
                ),
    {
        let now = clock::now();
        self.auth_handle_exchange_response_at(r, dpop_nonce, now)
    }

    /// The second and final part of the `refresh` flow, for an answer that arrives at `now`.
    pub fn refresh_handle_response_at(
        &self,
        answer: Result<RefreshResponse, ServerError>,
        dpop_nonce: Option<String>,
        now: Timestamp,
    ) -> (result: Result<RefreshResult, RefreshHandleResponseError>)
        requires
            answer matches Ok(r) ==> r.expires_in >= tokens::EXPIRY_MARGIN,
            now.secs <= i64::MAX - u32::MAX,
        ensures
            tokens::is_refreshed(
                result,
                tokens::refreshed(answer, dpop_nonce.deep_view(), self@.cfg.dpop_nonce, now),
            ),
    {
        match answer {
            Ok(r) => Ok(
                RefreshResult {
                    access_token: r.access_token,
                    expires_at: tokens::expires_at(now, r.expires_in),
                    scope: r.scope,
                    dpop_nonce: tokens::pick_nonce(
                        dpop_nonce,
                        text::copy_optional(&self.cfg.dpop_nonce),
                    ),
                },
            ),
            Err(e) => {
                let stale = e.error == "use_dpop_nonce".to_owned();
                match dpop_nonce {
                    Some(dpop_nonce) if stale => Err(
                        RefreshHandleResponseError::UseDpopNonce {
                            error_description: e.error_description,
                            dpop_nonce,
                        },
                    ),
                    _ => Err(
                        RefreshHandleResponseError::Refused {
                            error: e.error,
                            error_description: e.error_description,
                        },
                    ),
                }
            },
        }
    }

    /// The second and final part of the `refresh` flow. Handles the refresh response, and the DPoP
    /// nonce that came with it.
    pub fn refresh_handle_response(
        &self,
        answer: Result<RefreshResponse, ServerError>,
        dpop_nonce: Option<String>,
    ) -> (result: Result<RefreshResult, RefreshHandleResponseError>)
        requires
            answer matches Ok(r) ==> r.expires_in >= tokens::EXPIRY_MARGIN,
        ensures
            exists|now: Timestamp|
                clock::was_read(now) && clock::is_reading(now) && tokens::is_refreshed(
                    result,
                    #[trigger] tokens::refreshed(
                        answer,
                        dpop_nonce.deep_view(),
                        self@.cfg.dpop_nonce,
                        now,
                    ),
                ),
    {
        let now = clock::now();
        self.refresh_handle_response_at(answer, dpop_nonce, now)
    }

    /// Sets the nonce for the next DPoP.
    pub fn set_dpop_nonce(&mut self, dpop_nonce: &str)
        ensures
            final(self)@ == with_nonce(old(self)@, Some(dpop_nonce@)),
    {
        self.cfg.dpop_nonce = Some(dpop_nonce.to_owned());
    }

    /// Uses the refresh token and the DPoP nonce of `tokens` from now on.
    pub fn use_tokens(&mut self, tokens: &Tokens)
        ensures
            final(self)@ == with_tokens(old(self)@, tokens@),
    {
        self.cfg.refresh_token = Some(tokens.refresh_token.clone());
        self.cfg.dpop_nonce = text::copy_optional(&tokens.dpop_nonce);
    }
}

/// The client with another DPoP nonce.
pub open spec fn with_nonce(client: Oauth2View, dpop_nonce: Option<Seq<char>>) -> Oauth2View {
    Oauth2View { cfg: CfgView { dpop_nonce, ..client.cfg }, ..client }
}

/// The client with the refresh token and the DPoP nonce of `tokens`.
pub open spec fn with_tokens(client: Oauth2View, tokens: tokens::TokensView) -> Oauth2View {
    Oauth2View {
        cfg: CfgView {
            refresh_token: Some(tokens.refresh_token),
            dpop_nonce: tokens.dpop_nonce,
            ..client.cfg
        },
        ..client
    }
}

} // verus!
