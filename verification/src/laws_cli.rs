//! What the command line program prints and runs with, in terms of the tokens and the client info.

use vstd::prelude::*;

use crate::cli;
use crate::cli::{OutputMode, Report};
use crate::client;
use crate::client_info::ClientInfo;
use crate::clock::Timestamp;
use crate::dpop::KeyData;
use crate::tokens;
use crate::tokens::{RefreshResult, TokenExchangeResult};

verus! {

/// Whether two optional texts are the same.
pub open spec fn same_text(a: Option<String>, b: Option<String>) -> bool {
    match (a, b) {
        (Some(a), Some(b)) => a@ == b@,
        (None, None) => true,
        _ => false,
    }
}

/// Whether an optional text is the given one.
pub open spec fn is_text(a: Option<String>, text: Seq<char>) -> bool {
    a matches Some(a) && a@ == text
}

/// Whether output has an access token and nothing else.
pub open spec fn is_terse(output: cli::Tokens, access_token: Seq<char>) -> bool {
    &&& output.access_token@ == access_token
    &&& output.expires_at is None
    &&& output.refresh_token is None
    &&& output.refresh_token_expires_at is None
    &&& output.scope is None
    &&& output.dpop_nonce is None
}

/// Output has what it is made of, each in its place. Terse output has the access token only.
pub proof fn output_has_what_it_is_made_of(
    terse: bool,
    access_token: String,
    expires_at: Option<Timestamp>,
    refresh_token: Option<String>,
    refresh_token_expires_at: Option<Timestamp>,
    scope: Option<String>,
    dpop_nonce: Option<String>,
    output: cli::Tokens,
)
    requires
        call_ensures(
            cli::Tokens::new,
            (
                terse,
                access_token,
                expires_at,
                refresh_token,
                refresh_token_expires_at,
                scope,
                dpop_nonce,
            ),
            output,
        ),
    ensures
        terse ==> is_terse(output, access_token@),
        !terse ==> {
            &&& output.access_token@ == access_token@
            &&& output.expires_at == expires_at
            &&& same_text(output.refresh_token, refresh_token)
            &&& output.refresh_token_expires_at == refresh_token_expires_at
            &&& same_text(output.scope, scope)
            &&& same_text(output.dpop_nonce, dpop_nonce)
        },
{
}

/// Output yields tokens if it has all that tokens need, and then each of them is the output's.
pub proof fn output_yields_its_tokens(output: cli::Tokens, yielded: Option<tokens::Tokens>)
    requires
        call_ensures(cli::Tokens::into_tokens, (output,), yielded),
    ensures
        yielded is Some <==> output.expires_at is Some && output.refresh_token is Some
            && output.scope is Some,
        yielded matches Some(t) ==> {
            &&& t.access_token@ == output.access_token@
            &&& output.expires_at == Some(t.expires_at)
            &&& is_text(output.refresh_token, t.refresh_token@)
            &&& t.refresh_token_expires_at == output.refresh_token_expires_at
            &&& is_text(output.scope, t.scope@)
            &&& same_text(output.dpop_nonce, t.dpop_nonce)
        },
{
}

/// A line of text with a name and a value.
pub open spec fn line(name: Seq<char>, value: Seq<char>) -> Seq<char> {
    name + ": "@ + value + "\n"@
}

/// One line.
proof fn lemma_one_line(a: (Seq<char>, Seq<char>))
    ensures
        cli::lines_text(seq![a]) == line(a.0, a.1),
{
    let none = Seq::<(Seq<char>, Seq<char>)>::empty();
    assert(seq![a].drop_last() =~= none);
    assert(cli::lines_text(none) =~= Seq::<char>::empty());
    assert(Seq::<char>::empty() + a.0 =~= a.0);
}

/// One line more.
proof fn lemma_next_line(lines: Seq<(Seq<char>, Seq<char>)>, a: (Seq<char>, Seq<char>))
    ensures
        cli::lines_text(lines.push(a)) == cli::lines_text(lines) + line(a.0, a.1),
{
    assert(lines.push(a).drop_last() =~= lines);
    assert(cli::lines_text(lines) + a.0 + ": "@ + a.1 + "\n"@ =~= cli::lines_text(lines) + line(
        a.0,
        a.1,
    ));
}

/// After `init`, the tokens that were granted are printed: the access token alone if the output is
/// terse, and otherwise all of them with their expiry.
pub proof fn init_prints_the_granted_tokens(
    output_mode: OutputMode,
    terse: bool,
    result: TokenExchangeResult,
    expires_at: &str,
    refresh_token_expires_at: Option<&str>,
    report: Report,
)
    requires
        call_ensures(
            cli::init_report,
            (output_mode, terse, result, expires_at, refresh_token_expires_at),
            report,
        ),
    ensures
        match report {
            Report::Text(text) => {
                &&& output_mode is Text
                &&& text@ == if terse {
                    line("access_token"@, result.access_token@)
                } else {
                    match refresh_token_expires_at {
                        Some(time) => line("access_token"@, result.access_token@) + line(
                            "expires_at"@,
                            expires_at@,
                        ) + line("refresh_token"@, result.refresh_token@) + line(
                            "refresh_token_expires_at"@,
                            time@,
                        ) + line("scope"@, result.scope@),
                        None => line("access_token"@, result.access_token@) + line(
                            "expires_at"@,
                            expires_at@,
                        ) + line("refresh_token"@, result.refresh_token@) + line(
                            "scope"@,
                            result.scope@,
                        ),
                    }
                }
            },
            Report::Json(output) => {
                &&& output_mode is Json
                &&& terse ==> is_terse(output, result.access_token@)
                &&& !terse ==> {
                    &&& output.access_token@ == result.access_token@
                    &&& output.expires_at == Some(result.expires_at)
                    &&& is_text(output.refresh_token, result.refresh_token@)
                    &&& output.refresh_token_expires_at == result.refresh_token_expires_at
                    &&& is_text(output.scope, result.scope@)
                    &&& same_text(output.dpop_nonce, result.dpop_nonce)
                }
            },
        },
{
    let one = seq![("access_token"@, result.access_token@)];
    let two = one.push(("expires_at"@, expires_at@));
    let three = two.push(("refresh_token"@, result.refresh_token@));
    lemma_one_line(("access_token"@, result.access_token@));
    lemma_next_line(one, ("expires_at"@, expires_at@));
    lemma_next_line(two, ("refresh_token"@, result.refresh_token@));
    match refresh_token_expires_at {
        Some(time) => {
            let four = three.push(("refresh_token_expires_at"@, time@));
            lemma_next_line(three, ("refresh_token_expires_at"@, time@));
            lemma_next_line(four, ("scope"@, result.scope@));
        },
        None => {
            lemma_next_line(three, ("scope"@, result.scope@));
        },
    }
}

/// After `refresh`, the access token that was granted is printed, alone if the output is terse, and
/// otherwise with its expiry and scope. JSON output has the refresh token that was used, too.
pub proof fn refresh_prints_the_granted_token(
    output_mode: OutputMode,
    terse: bool,
    result: RefreshResult,
    tokens: tokens::Tokens,
    expires_at: &str,
    report: Report,
)
    requires
        call_ensures(
            cli::refresh_report,
            (output_mode, terse, result, tokens, expires_at),
            report,
        ),
    ensures
        match report {
            Report::Text(text) => {
                &&& output_mode is Text
                &&& text@ == if terse {
                    line("access_token"@, result.access_token@)
                } else {
                    line("access_token"@, result.access_token@) + line(
                        "expires_at"@,
                        expires_at@,
                    ) + line("scope"@, result.scope@)
                }
            },
            Report::Json(output) => {
                &&& output_mode is Json
                &&& terse ==> is_terse(output, result.access_token@)
                &&& !terse ==> {
                    &&& output.access_token@ == result.access_token@
                    &&& output.expires_at == Some(result.expires_at)
                    &&& is_text(output.refresh_token, tokens.refresh_token@)
                    &&& output.refresh_token_expires_at == tokens.refresh_token_expires_at
                    &&& is_text(output.scope, result.scope@)
                    &&& same_text(output.dpop_nonce, result.dpop_nonce)
                }
            },
        },
{
    let one = seq![("access_token"@, result.access_token@)];
    let two = one.push(("expires_at"@, expires_at@));
    lemma_one_line(("access_token"@, result.access_token@));
    lemma_next_line(one, ("expires_at"@, expires_at@));
    lemma_next_line(two, ("scope"@, result.scope@));
}

/// What `init` prints as JSON, unless it is terse, yields the tokens that were granted again.
pub proof fn printed_tokens_can_be_used(
    result: TokenExchangeResult,
    expires_at: &str,
    refresh_token_expires_at: Option<&str>,
    report: Report,
    output: cli::Tokens,
    yielded: Option<tokens::Tokens>,
)
    requires
        call_ensures(
            cli::init_report,
            (OutputMode::Json, false, result, expires_at, refresh_token_expires_at),
            report,
        ),
        report == Report::Json(output),
        call_ensures(cli::Tokens::into_tokens, (output,), yielded),
    ensures
        yielded matches Some(t) && t.access_token@ == result.access_token@ && t.expires_at
            == result.expires_at && t.refresh_token@ == result.refresh_token@
            && t.refresh_token_expires_at == result.refresh_token_expires_at && t.scope@
            == result.scope@ && same_text(t.dpop_nonce, result.dpop_nonce),
{
    init_prints_the_granted_tokens(
        OutputMode::Json,
        false,
        result,
        expires_at,
        refresh_token_expires_at,
        report,
    );
    output_yields_its_tokens(output, yielded);
}

/// Whether the key of a config is the given one.
pub open spec fn has_key(cfg: client::Cfg, key: Option<KeyData>) -> bool {
    match (cfg.key_data, key) {
        (Some(a), Some(b)) => a@.x == b@.x && a@.y == b@.y && a@.secret == b@.secret,
        (None, None) => true,
        _ => false,
    }
}

/// `init` runs with the client and the servers of the client info, and with the port, scope and key
/// that it is given.
pub proof fn init_runs_for_the_client(
    info: ClientInfo,
    port: u16,
    scope: &str,
    key: Option<KeyData>,
    cfg: client::Cfg,
)
    requires
        call_ensures(cli::init_cfg, (info, port, scope, key), cfg),
    ensures
        cfg.listen_port == Some(port),
        cfg.client_id@ == info.installed.client_id@,
        is_text(cfg.scope, scope@),
        is_text(cfg.auth_server_url, info.installed.auth_uri@),
        cfg.token_server_url@ == info.installed.token_uri@,
        cfg.client_secret@ == info.installed.client_secret@,
        cfg.refresh_token is None,
        has_key(cfg, key),
        cfg.dpop_nonce is None,
{
    let fields = cfg@;
    assert(fields.scope == cfg.scope.deep_view());
}

/// `refresh` runs with the client and the token server of the client info, with the refresh token and
/// the nonce of the tokens, and with the key that it is given.
pub proof fn refresh_runs_for_the_client(
    info: ClientInfo,
    tokens: &tokens::Tokens,
    key: Option<KeyData>,
    cfg: client::Cfg,
)
    requires
        call_ensures(cli::refresh_cfg, (info, tokens, key), cfg),
    ensures
        cfg.listen_port is None,
        cfg.client_id@ == info.installed.client_id@,
        cfg.scope is None,
        cfg.auth_server_url is None,
        cfg.token_server_url@ == info.installed.token_uri@,
        cfg.client_secret@ == info.installed.client_secret@,
        is_text(cfg.refresh_token, tokens.refresh_token@),
        has_key(cfg, key),
        same_text(cfg.dpop_nonce, tokens.dpop_nonce),
{
    let fields = cfg@;
    assert(fields.scope == cfg.scope.deep_view());
}

/// Key files are read if and only if both are named, each in its place. To name only one is an error.
pub proof fn key_files_are_named_together<P>(
    public_key_path: Option<P>,
    private_key_path: Option<P>,
    paths: Result<Option<(P, P)>, &'static str>,
)
    requires
        call_ensures(cli::key_data_from_paths::<P>, (public_key_path, private_key_path), paths),
    ensures
        match paths {
            Ok(Some((public, private))) => public_key_path == Some(public) && private_key_path
                == Some(private),
            Ok(None) => public_key_path is None && private_key_path is None,
            Err(e) => public_key_path is Some != private_key_path is Some && e@
                == "only one of --public-key-path and --private-key-path was provided"@,
        },
{
}

} // verus!
