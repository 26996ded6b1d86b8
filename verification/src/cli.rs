//! What the command line program decides: which config each command runs with, which key files it
//! reads, and what it prints.

use vstd::prelude::*;

use crate::client;
use crate::client::CfgView;
use crate::client_info::ClientInfo;
use crate::clock::Timestamp;
use crate::dpop;
use crate::dpop::{KeyData, KeyDataView};
use crate::text;
use crate::tokens;
use crate::tokens::{RefreshResult, TokenExchangeResult, TokensView};

verus! {

/// Human-readable text or JSON output.
#[derive(Copy, Clone, PartialEq, Eq, Structural, Debug)]
pub enum OutputMode {
    /// Human-readable text.
    Text,

    /// Structured JSON.
    Json,
}

/// Output JSON struct containing tokens and associated metadata.
#[derive(Debug)]
pub struct Tokens {
    /// OAuth2 API access token.
    pub access_token: String,

    /// Expiry date/time of `access_token`.
    pub expires_at: Option<Timestamp>,

    /// OAuth2 refresh token.
    pub refresh_token: Option<String>,

    /// Expiry date/time of `refresh_token`.
    pub refresh_token_expires_at: Option<Timestamp>,

    /// Authorized scope of tokens.
    pub scope: Option<String>,

    /// The latest nonce returned by the server, to be used in the next DPoP, if applicable.
    pub dpop_nonce: Option<String>,
}

/// What output `Tokens` hold.
pub struct OutputView {
    pub access_token: Seq<char>,
    pub expires_at: Option<Timestamp>,
    pub refresh_token: Option<Seq<char>>,
    pub refresh_token_expires_at: Option<Timestamp>,
    pub scope: Option<Seq<char>>,
    pub dpop_nonce: Option<Seq<char>>,
}

impl View for Tokens {
    type V = OutputView;

    open spec fn view(&self) -> OutputView {
        OutputView {
            access_token: self.access_token@,
            expires_at: self.expires_at,
            refresh_token: self.refresh_token.deep_view(),
            refresh_token_expires_at: self.refresh_token_expires_at,
            scope: self.scope.deep_view(),
            dpop_nonce: self.dpop_nonce.deep_view(),
        }
    }
}

impl Tokens {
    /// Creates a new `Tokens` struct. A terse one has only the access token.
    pub fn new(
        terse: bool,
        access_token: String,
        expires_at: Option<Timestamp>,
        refresh_token: Option<String>,
        refresh_token_expires_at: Option<Timestamp>,
        scope: Option<String>,
        dpop_nonce: Option<String>,
    ) -> (tokens: Self)
        ensures
            tokens@ == (if terse {
                only_access_token(access_token@)
            } else {
                OutputView {
                    access_token: access_token@,
                    expires_at,
                    refresh_token: refresh_token.deep_view(),
                    refresh_token_expires_at,
                    scope: scope.deep_view(),
                    dpop_nonce: dpop_nonce.deep_view(),
                }
            }),
    {
        if terse {
            Tokens {
                access_token,
                expires_at: None,
                refresh_token: None,
                refresh_token_expires_at: None,
                scope: None,
                dpop_nonce: None,
            }
        } else {
            Tokens {
                access_token,
                expires_at,
                refresh_token,
                refresh_token_expires_at,
                scope,
                dpop_nonce,
            }
        }
    }
}

/// The tokens that JSON output has, if it has all that tokens need.
pub open spec fn tokens_in(output: OutputView) -> Option<TokensView> {
    match (output.expires_at, output.refresh_token, output.scope) {
        (Some(expires_at), Some(refresh_token), Some(scope)) => Some(
            TokensView {
                access_token: output.access_token,
                expires_at,
                refresh_token,
                refresh_token_expires_at: output.refresh_token_expires_at,
                scope,
                dpop_nonce: output.dpop_nonce,
            },
        ),
        _ => None,
    }
}

impl Tokens {
    /// The tokens to start a refresh from, if the output has all that they need: a terse one has
    /// not.
    pub fn into_tokens(self) -> (tokens: Option<tokens::Tokens>)
        ensures
            tokens::tokens_view(tokens) == tokens_in(self@),
    {
        match (self.expires_at, self.refresh_token, self.scope) {
            (Some(expires_at), Some(refresh_token), Some(scope)) => Some(
                TokenExchangeResult {
                    access_token: self.access_token,
                    expires_at,
                    refresh_token,
                    refresh_token_expires_at: self.refresh_token_expires_at,
                    scope,
                    dpop_nonce: self.dpop_nonce,
                },
            ),
            _ => None,
        }
    }
}

/// Output that has an access token and nothing else.
pub open spec fn only_access_token(access_token: Seq<char>) -> OutputView {
    OutputView {
        access_token,
        expires_at: None,
        refresh_token: None,
        refresh_token_expires_at: None,
        scope: None,
        dpop_nonce: None,
    }
}

/// The JSON output for tokens: all of them, or the access token only.
pub open spec fn shown(terse: bool, tokens: TokensView) -> OutputView {
    if terse {
        only_access_token(tokens.access_token)
    } else {
        OutputView {
            access_token: tokens.access_token,
            expires_at: Some(tokens.expires_at),
            refresh_token: Some(tokens.refresh_token),
            refresh_token_expires_at: tokens.refresh_token_expires_at,
            scope: Some(tokens.scope),
            dpop_nonce: tokens.dpop_nonce,
        }
    }
}

/// Something to print.
#[derive(Debug)]
pub enum Report {
    /// Text, with a line feed at the end of each line.
    Text(String),

    /// Tokens, to be printed as JSON.
    Json(Tokens),
}

/// Text in lines, each with a name, a colon, a space and a value.
pub open spec fn lines_text(lines: Seq<(Seq<char>, Seq<char>)>) -> Seq<char>
    decreases lines.len(),
{
    if lines.len() == 0 {
        seq![]
    } else {
        let (name, value) = lines.last();
        lines_text(lines.drop_last()) + name + ": "@ + value + "\n"@
    }
}

/// Writes text in lines, each with a name, a colon, a space and a value.
fn write_lines(lines: &Vec<(&str, &str)>) -> (text: String)
    ensures
        text@ == lines_text(lines.deep_view()),
{
    let ghost all = lines.deep_view();
    let mut text = String::new();
    let mut i: usize = 0;
    assert(text@ =~= lines_text(all.take(0)));
    while i < lines.len()
        invariant
            i <= lines.len(),
            all == lines.deep_view(),
            text@ == lines_text(all.take(i as int)),
        decreases lines.len() - i,
    {
        let line = &lines[i];
        text.append(line.0);
        text.append(": ");
        text.append(line.1);
        text.append("\n");
        proof {
            let done = all.take(i + 1);
            assert(done.drop_last() =~= all.take(i as int));
            assert(done.last() == (line.0@, line.1@));
        }
        i += 1;
    }
    assert(all.take(i as int) =~= all);
    text
}

/// The lines that tell of the tokens that `init` has got. `expires_at` and
/// `refresh_token_expires_at` are the texts of the times at which they expire.
pub open spec fn init_lines(
    terse: bool,
    tokens: TokensView,
    expires_at: Seq<char>,
    refresh_token_expires_at: Option<Seq<char>>,
) -> Seq<(Seq<char>, Seq<char>)> {
    let first = seq![("access_token"@, tokens.access_token)];
    if terse {
        first
    } else {
        let middle = first.push(("expires_at"@, expires_at)).push(
            ("refresh_token"@, tokens.refresh_token),
        );
        let rest = match refresh_token_expires_at {
            Some(time) => middle.push(("refresh_token_expires_at"@, time)),
            None => middle,
        };
        rest.push(("scope"@, tokens.scope))
    }
}

/// What `init` prints. `expires_at` and `refresh_token_expires_at` are the texts of the times at
/// which the tokens expire.
pub fn init_report(
    output_mode: OutputMode,
    terse: bool,
    token_result: TokenExchangeResult,
    expires_at: &str,
    refresh_token_expires_at: Option<&str>,
) -> (report: Report)
    requires
        refresh_token_expires_at is Some <==> token_result.refresh_token_expires_at is Some,
    ensures
        match output_mode {
            OutputMode::Text => report matches Report::Text(text) && text@ == lines_text(
                init_lines(
                    terse,
                    token_result@,
                    expires_at@,
                    refresh_token_expires_at.deep_view(),
                ),
            ),
            OutputMode::Json => report matches Report::Json(tokens) && tokens@ == shown(
                terse,
                token_result@,
            ),
        },
{
    match output_mode {
        OutputMode::Text => {
            let mut lines = vec![("access_token", token_result.access_token.as_str())];
            if !terse {
                lines.push(("expires_at", expires_at));
                lines.push(("refresh_token", token_result.refresh_token.as_str()));
                if let Some(time) = refresh_token_expires_at {
                    lines.push(("refresh_token_expires_at", time));
                }
                lines.push(("scope", token_result.scope.as_str()));
            }
            assert(lines.deep_view() =~= init_lines(
                terse,
                token_result@,
                expires_at@,
                refresh_token_expires_at.deep_view(),
            ));
            Report::Text(write_lines(&lines))
        },
        OutputMode::Json => Report::Json(
            Tokens::new(
                terse,
                token_result.access_token,
                Some(token_result.expires_at),
                Some(token_result.refresh_token),
                token_result.refresh_token_expires_at,
                Some(token_result.scope),
                token_result.dpop_nonce,
            ),
        ),
    }
}

/// The lines that tell of the access token that `refresh` has got. `expires_at` is the text of the
/// time at which it expires.
pub open spec fn refresh_lines(
    terse: bool,
    result: tokens::RefreshResultView,
    expires_at: Seq<char>,
) -> Seq<(Seq<char>, Seq<char>)> {
    let first = seq![("access_token"@, result.access_token)];
    if terse {
        first
    } else {
        first.push(("expires_at"@, expires_at)).push(("scope"@, result.scope))
    }
}

/// What `refresh` prints, given the tokens that it started from. `expires_at` is the text of the
/// time at which the new access token expires.
pub fn refresh_report(
    output_mode: OutputMode,
    terse: bool,
    new_token_result: RefreshResult,
    tokens: tokens::Tokens,
    expires_at: &str,
) -> (report: Report)
    ensures
        match output_mode {
            OutputMode::Text => report matches Report::Text(text) && text@ == lines_text(
                refresh_lines(terse, new_token_result@, expires_at@),
            ),
            OutputMode::Json => report matches Report::Json(out) && out@ == shown(
                terse,
                tokens::merged(tokens@, new_token_result@),
            ),
        },
{
    match output_mode {
        OutputMode::Text => {
            let mut lines = vec![("access_token", new_token_result.access_token.as_str())];
            if !terse {
                lines.push(("expires_at", expires_at));
                lines.push(("scope", new_token_result.scope.as_str()));
            }
            assert(lines.deep_view() =~= refresh_lines(terse, new_token_result@, expires_at@));
            Report::Text(write_lines(&lines))
        },
        OutputMode::Json => Report::Json(
            Tokens::new(
                terse,
                new_token_result.access_token,
                Some(new_token_result.expires_at),
                Some(tokens.refresh_token),
                tokens.refresh_token_expires_at,
                Some(new_token_result.scope),
                new_token_result.dpop_nonce,
            ),
        ),
    }
}

/// The config that `init` runs with.
pub fn init_cfg(
    client_info: ClientInfo,
    listen_port: u16,
    scope: &str,
    key_data: Option<KeyData>,
) -> (cfg: client::Cfg)
    ensures
        cfg@ == (CfgView {
            listen_port: Some(listen_port),
            client_id: client_info.installed.client_id@,
            scope: Some(scope@),
            auth_server_url: Some(client_info.installed.auth_uri@),
            token_server_url: client_info.installed.token_uri@,
            client_secret: client_info.installed.client_secret@,
            refresh_token: None,
            key_data: dpop::key_data_view(key_data),
            dpop_nonce: None,
        }),
{
    client::Cfg {
        listen_port: Some(listen_port),
        client_id: client_info.installed.client_id,
        scope: Some(scope.to_owned()),
        auth_server_url: Some(client_info.installed.auth_uri),
        token_server_url: client_info.installed.token_uri,
        client_secret: client_info.installed.client_secret,
        refresh_token: None,
        key_data,
        dpop_nonce: None,
    }
}

/// The config that `refresh` runs with, given the tokens to start from.
pub open spec fn refreshing(
    client_info: ClientInfo,
    tokens: TokensView,
    key_data: Option<KeyDataView>,
) -> CfgView {
    CfgView {
        listen_port: None,
        client_id: client_info.installed.client_id@,
        scope: None,
        auth_server_url: None,
        token_server_url: client_info.installed.token_uri@,
        client_secret: client_info.installed.client_secret@,
        refresh_token: Some(tokens.refresh_token),
        key_data,
        dpop_nonce: tokens.dpop_nonce,
    }
}

/// The config that `refresh` runs with, given the tokens to start from.
pub fn refresh_cfg(
    client_info: ClientInfo,
    tokens: &tokens::Tokens,
    key_data: Option<KeyData>,
) -> (cfg: client::Cfg)
    ensures
        cfg@ == refreshing(client_info, tokens@, dpop::key_data_view(key_data)),
{
    client::Cfg {
        listen_port: None,
        client_id: client_info.installed.client_id,
        scope: None,
        auth_server_url: None,
        token_server_url: client_info.installed.token_uri,
        client_secret: client_info.installed.client_secret,
        refresh_token: Some(tokens.refresh_token.clone()),
        key_data,
        dpop_nonce: text::copy_optional(&tokens.dpop_nonce),
    }
}

/// Which key files to read: both or none. It is an error to name only one of them.
pub fn key_data_from_paths<P>(public_key_path: Option<P>, private_key_path: Option<P>) -> (paths:
    Result<Option<(P, P)>, &'static str>)
    ensures
        match (public_key_path, private_key_path) {
            (Some(public), Some(private)) => paths matches Ok(p) && p == Some((public, private)),
            (None, None) => paths matches Ok(p) && p is None,
            _ => paths matches Err(e) && e@
                == "only one of --public-key-path and --private-key-path was provided"@,
        },
{
    match (public_key_path, private_key_path) {
        (Some(public_key_path), Some(private_key_path)) => Ok(
            Some((public_key_path, private_key_path)),
        ),
        (None, None) => Ok(None),
        _ => Err("only one of --public-key-path and --private-key-path was provided"),
    }
}

} // verus!
