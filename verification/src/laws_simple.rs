//! What an instance that keeps its tokens does, in terms of the client info that it is made of.

use vstd::prelude::*;

use crate::base64url;
use crate::client::{AuthResponse, TokenRequest};
use crate::client_info::ClientInfo;
use crate::clock;
use crate::clock::Timestamp;
use crate::digest;
use crate::dpop::{DpopError, KeyData, KeyDataView};
use crate::dpop_text;
use crate::error::Oauth2Error;
use crate::laws_client;
use crate::laws_refresh;
use crate::random::Purpose;
use crate::refresh::{RefreshReply, RefreshStage};
use crate::simple;
use crate::simple::{
    Action, Cfg, Event, FollowUp, KeyPaths, Oauth2Simple, SimpleError, SimpleView,
};
use crate::text;
use crate::tokens::{ExchangeResponse, Tokens};

verus! {

/// Whether the tokens of an instance are the given ones.
pub open spec fn holds(instance: SimpleView, tokens: Tokens) -> bool {
    &&& instance.tokens matches Some(t)
    &&& t.access_token == tokens.access_token@
    &&& t.expires_at.secs == tokens.expires_at.secs
    &&& t.expires_at.nanos == tokens.expires_at.nanos
    &&& t.refresh_token == tokens.refresh_token@
    &&& t.refresh_token_expires_at == tokens.refresh_token_expires_at
    &&& t.scope == tokens.scope@
    &&& t.dpop_nonce == tokens.dpop_nonce.deep_view()
}

/// Whether an instance acts for the client of the client info: it has that client's credentials and
/// servers, the given port, scope and key, and the refresh token of its tokens.
pub open spec fn acts_for(
    instance: SimpleView,
    info: ClientInfo,
    port: u16,
    scope: Seq<char>,
    key: Option<KeyDataView>,
) -> bool {
    let cfg = instance.oauth2.cfg;
    &&& cfg.client_id == info.installed.client_id@
    &&& cfg.client_secret == info.installed.client_secret@
    &&& cfg.auth_server_url == Some(info.installed.auth_uri@)
    &&& cfg.token_server_url == info.installed.token_uri@
    &&& cfg.listen_port == Some(port)
    &&& cfg.scope == Some(scope)
    &&& cfg.key_data == key
    &&& match instance.tokens {
        Some(t) => cfg.refresh_token == Some(t.refresh_token),
        None => cfg.refresh_token is None,
    }
}

/// Whether an instance is new: no flow has been gone through, and its tokens, and the nonce to use, are
/// those that it was given.
pub open spec fn is_new(instance: SimpleView, tokens: Option<Tokens>, tokens_path: Seq<char>) -> bool {
    &&& instance.tokens_path == tokens_path
    &&& instance.oauth2.code_verifier is None
    &&& instance.oauth2.code_challenge is None
    &&& instance.oauth2.state is None
    &&& instance.oauth2.code is None
    &&& match tokens {
        Some(t) => holds(instance, t) && instance.oauth2.cfg.dpop_nonce
            == t.dpop_nonce.deep_view(),
        None => instance.tokens is None && instance.oauth2.cfg.dpop_nonce is None,
    }
}

/// An instance acts for the client of the client info that it is made of, with the port and the scope
/// of the config, and the key that it is given.
pub proof fn instance_acts_for_its_client(
    cfg: Cfg<'_>,
    info: ClientInfo,
    tokens: Option<Tokens>,
    key: Option<KeyData>,
    instance: Oauth2Simple,
)
    requires
        call_ensures(Oauth2Simple::with_cfg, (cfg, info, tokens, key), instance),
    ensures
        key matches Some(k) ==> acts_for(instance@, info, cfg.port, cfg.scope@, Some(k@)),
        key is None ==> acts_for(instance@, info, cfg.port, cfg.scope@, None),
        is_new(instance@, tokens, cfg.tokens_path@),
{
}

/// Whether a call with the given paths fails with `e`: only because a path is not text, and the path to
/// the client info comes first.
pub open spec fn path_is_wrong(
    client_info_path: Option<&str>,
    tokens_path: Option<&str>,
    e: SimpleError,
) -> bool {
    if client_info_path is None {
        e is ClientInfoPathInvalid
    } else {
        tokens_path is None && e is TokensPathInvalid
    }
}

/// An instance that is made with the default config listens on port 42684.
pub proof fn basic_instance_acts_for_its_client(
    client_info_path: Option<&str>,
    tokens_path: Option<&str>,
    scope: &str,
    info: ClientInfo,
    tokens: Option<Tokens>,
    instance: Result<Oauth2Simple, SimpleError>,
)
    requires
        call_ensures(
            Oauth2Simple::new,
            (client_info_path, tokens_path, scope, info, tokens),
            instance,
        ),
    ensures
        match instance {
            Ok(made) => {
                &&& client_info_path is Some
                &&& tokens_path matches Some(path)
                &&& acts_for(made@, info, 42684, scope@, None)
                &&& is_new(made@, tokens, path@)
            },
            Err(e) => path_is_wrong(client_info_path, tokens_path, e),
        },
{
}

/// An instance that is made with a key signs with that key.
pub proof fn instance_with_dpop_acts_for_its_client(
    client_info_path: Option<&str>,
    tokens_path: Option<&str>,
    scope: &str,
    key_paths: &KeyPaths,
    info: ClientInfo,
    tokens: Option<Tokens>,
    key: KeyData,
    instance: Result<Oauth2Simple, SimpleError>,
)
    requires
        call_ensures(
            Oauth2Simple::new_with_dpop,
            (client_info_path, tokens_path, scope, key_paths, info, tokens, key),
            instance,
        ),
    ensures
        match instance {
            Ok(made) => {
                &&& client_info_path is Some
                &&& tokens_path matches Some(path)
                &&& acts_for(made@, info, 42684, scope@, Some(key@))
                &&& is_new(made@, tokens, path@)
            },
            Err(e) => path_is_wrong(client_info_path, tokens_path, e),
        },
{
}

/// The path to the tokens file is the one that the instance was made with.
pub proof fn tokens_path_is_kept(
    cfg: Cfg<'_>,
    info: ClientInfo,
    tokens: Option<Tokens>,
    key: Option<KeyData>,
    instance: Oauth2Simple,
    path: &str,
)
    requires
        call_ensures(Oauth2Simple::with_cfg, (cfg, info, tokens, key), instance),
        call_ensures(Oauth2Simple::tokens_path, (&instance,), path),
    ensures
        path@ == cfg.tokens_path@,
{
}

/// The path to the tokens file is that of the instance, whatever flows it has gone through.
pub proof fn tokens_path_is_that_of_the_instance(instance: &Oauth2Simple, path: &str)
    requires
        call_ensures(Oauth2Simple::tokens_path, (instance,), path),
    ensures
        path@ == instance@.tokens_path,
{
}

/// Whether nothing changes but what the client keeps of the flow.
pub open spec fn keeps_tokens(before: SimpleView, after: SimpleView) -> bool {
    &&& after.tokens_path == before.tokens_path
    &&& after.tokens == before.tokens
    &&& after.oauth2.cfg.refresh_token == before.oauth2.cfg.refresh_token
}

/// What starting the initialization flow does: the user is shown the URL of the auth server of the
/// client info, with that client's ID, the scope, and the digest of the verifier that is kept for the
/// exchange. Only for want of random bytes, or if the URL of the auth server is none, can it fail.
pub open spec fn authorizes(
    before: SimpleView,
    info: ClientInfo,
    port: u16,
    scope: Seq<char>,
    after: SimpleView,
    action: Result<Action, SimpleError>,
) -> bool {
    &&& keeps_tokens(before, after)
    &&& after.oauth2.cfg.dpop_nonce == before.oauth2.cfg.dpop_nonce
    &&& after.oauth2.code == before.oauth2.code
    &&& match action {
        Ok(Action::Authorize { url, listen_port }) => {
            &&& listen_port == port
            &&& after.oauth2.code_verifier matches Some(v)
            &&& after.oauth2.state matches Some(state)
            &&& laws_client::is_drawn(v, Purpose::CodeVerifier)
            &&& laws_client::is_drawn(state, Purpose::State)
            &&& laws_client::asks_for(
                url@,
                info.installed.auth_uri@,
                info.installed.client_id@,
                port,
                scope,
                base64url::base64url(digest::sha256(text::utf8(v))),
                state,
            )
        },
        Err(SimpleError::Client(Oauth2Error::Entropy(_))) => after.oauth2.state
            == before.oauth2.state,
        Err(SimpleError::Client(Oauth2Error::Url(reason))) => laws_client::lacks(
            after.oauth2,
            Oauth2Error::Url(reason),
        ),
        _ => false,
    }
}

/// What the library says of starting the initialization flow, in full.
proof fn lemma_authorizes(
    before: SimpleView,
    info: ClientInfo,
    port: u16,
    scope: Seq<char>,
    key: Option<KeyDataView>,
    after: SimpleView,
    action: Result<Action, SimpleError>,
)
    requires
        acts_for(before, info, port, scope, key),
        simple::init_started(before, after, action),
    ensures
        acts_for(after, info, port, scope, key),
        authorizes(before, info, port, scope, after, action),
{
    match action {
        Ok(Action::Authorize { url, listen_port }) => {
            laws_client::lemma_shown(before.oauth2, after.oauth2, Ok((url, listen_port)));
        },
        Err(SimpleError::Client(e)) => {
            laws_client::lemma_shown(before.oauth2, after.oauth2, Err(e));
        },
        _ => {},
    }
}

/// The initialization flow sends the user to the auth server of the client info.
pub proof fn init_asks_the_auth_server(
    instance: &mut Oauth2Simple,
    info: ClientInfo,
    port: u16,
    scope: Seq<char>,
    key: Option<KeyDataView>,
    action: Result<Action, SimpleError>,
)
    requires
        acts_for(old(instance)@, info, port, scope, key),
        call_ensures(Oauth2Simple::init, (instance,), action),
    ensures
        acts_for(final(instance)@, info, port, scope, key),
        authorizes(old(instance)@, info, port, scope, final(instance)@, action),
{
    lemma_authorizes(old(instance)@, info, port, scope, key, final(instance)@, action);
}

/// Whether the request asks the token server of the client info for a new access token, with that
/// client's ID and secret, the refresh token, and a DPoP by the key, if there is one, that carries the
/// nonce, an identifier that has been drawn and a time that has been read from the clock.
pub open spec fn asks_anew(
    request: TokenRequest,
    info: ClientInfo,
    key: Option<KeyDataView>,
    refresh_token: Seq<char>,
    nonce: Option<Seq<char>>,
) -> bool {
    let form = request.form@;
    &&& request.url@ == info.installed.token_uri@
    &&& form.len() == 4
    &&& laws_client::has(form[0], "client_id"@, info.installed.client_id@)
    &&& laws_client::has(form[1], "client_secret"@, info.installed.client_secret@)
    &&& laws_client::has(form[2], "grant_type"@, "refresh_token"@)
    &&& laws_client::has(form[3], "refresh_token"@, refresh_token)
    &&& match key {
        Some(k) => request.dpop matches Some(d) && exists|jti: Seq<char>, now: Timestamp|
            laws_refresh::is_drawn_identifier(jti) && clock::was_read(now)
                && #[trigger] dpop_text::is_proof(
                d@,
                k.x,
                k.y,
                k.secret,
                info.installed.token_uri@,
                nonce,
                jti,
                now.secs as int,
            ),
        None => request.dpop is None,
    }
}

/// What asking for a new access token comes to: the request, or an error if there are no tokens, or for
/// want of random bytes.
pub open spec fn renewal_is_due(
    instance: SimpleView,
    info: ClientInfo,
    key: Option<KeyDataView>,
    stage: RefreshStage,
    action: Result<Action, SimpleError>,
) -> bool {
    match instance.tokens {
        Some(t) => match action {
            Ok(Action::Refresh { request, stage: s }) => s == stage && asks_anew(
                request,
                info,
                key,
                t.refresh_token,
                instance.oauth2.cfg.dpop_nonce,
            ),
            Err(e) => key is Some && e matches SimpleError::Client(
                Oauth2Error::Dpop(DpopError::Entropy(_)),
            ),
            _ => false,
        },
        None => action matches Err(SimpleError::Client(Oauth2Error::RefreshTokenIsNone)),
    }
}

/// What the library says of a request for a new access token, in full.
proof fn lemma_renewal(
    instance: SimpleView,
    info: ClientInfo,
    port: u16,
    scope: Seq<char>,
    key: Option<KeyDataView>,
    request: TokenRequest,
)
    requires
        acts_for(instance, info, port, scope, key),
        laws_refresh::asked_anew(instance.oauth2, Ok(request)),
    ensures
        instance.tokens matches Some(t) && asks_anew(
            request,
            info,
            key,
            t.refresh_token,
            instance.oauth2.cfg.dpop_nonce,
        ),
{
    let (jti, now) = choose|jti: Seq<char>, now: Timestamp| #[trigger]
        laws_refresh::refreshes(
            request,
            instance.oauth2,
            instance.oauth2.cfg.refresh_token->0,
            jti,
            now.secs as int,
        ) && (instance.oauth2.cfg.key_data is Some ==> laws_refresh::is_drawn_identifier(jti)
            && clock::was_read(now));
    assert(laws_client::proves_possession(
        request,
        instance.oauth2,
        instance.oauth2.cfg.dpop_nonce,
        jti,
        now.secs as int,
    ));
}

/// What the library says of starting the refresh flow, in full.
proof fn lemma_renewal_is_due(
    instance: SimpleView,
    info: ClientInfo,
    port: u16,
    scope: Seq<char>,
    key: Option<KeyDataView>,
    action: Result<Action, SimpleError>,
)
    requires
        acts_for(instance, info, port, scope, key),
        simple::refresh_started(instance, action),
    ensures
        renewal_is_due(instance, info, key, RefreshStage::First, action),
{
    match action {
        Ok(Action::Refresh { request, stage }) => {
            laws_refresh::lemma_anew(instance.oauth2, Ok(request));
            lemma_renewal(instance, info, port, scope, key, request);
        },
        Err(SimpleError::Client(e)) => {
            laws_refresh::lemma_anew(instance.oauth2, Err(e));
        },
        _ => {},
    }
}

/// The refresh flow asks the token server of the client info, with the refresh token that is kept.
pub proof fn refresh_asks_the_token_server(
    instance: &Oauth2Simple,
    info: ClientInfo,
    port: u16,
    scope: Seq<char>,
    key: Option<KeyDataView>,
    action: Result<Action, SimpleError>,
)
    requires
        acts_for(instance@, info, port, scope, key),
        call_ensures(Oauth2Simple::refresh, (instance,), action),
    ensures
        renewal_is_due(instance@, info, key, RefreshStage::First, action),
{
    lemma_renewal_is_due(instance@, info, port, scope, key, action);
}

/// The initialization flow is started only without tokens. With tokens, these are kept as they are.
pub proof fn init_is_needed_only_without_tokens(
    instance: &mut Oauth2Simple,
    info: ClientInfo,
    port: u16,
    scope: Seq<char>,
    key: Option<KeyDataView>,
    action: Result<Action, SimpleError>,
)
    requires
        acts_for(old(instance)@, info, port, scope, key),
        call_ensures(Oauth2Simple::init_if_needed, (instance,), action),
    ensures
        acts_for(final(instance)@, info, port, scope, key),
        match old(instance)@.tokens {
            Some(_) => final(instance)@ == old(instance)@ && (action matches Ok(Action::Keep(kept))
                && holds(old(instance)@, kept)),
            None => authorizes(old(instance)@, info, port, scope, final(instance)@, action),
        },
{
    if old(instance)@.tokens is None {
        lemma_authorizes(old(instance)@, info, port, scope, key, final(instance)@, action);
    }
}

/// Whether `late` lies more than five minutes after `early`.
pub open spec fn is_far_off(late: Timestamp, early: Timestamp) -> bool {
    late.secs > early.secs + 300 || (late.secs == early.secs + 300 && late.nanos > early.nanos)
}

/// One instant lies more than so many seconds after another if its seconds exceed the other's by more,
/// or by as many and its nanoseconds exceed the other's.
pub proof fn instants_are_compared(a: &Timestamp, b: &Timestamp, secs: u32, later: bool)
    requires
        call_ensures(Timestamp::is_after_by, (a, b, secs), later),
    ensures
        a.secs > b.secs + secs ==> later,
        a.secs < b.secs + secs ==> !later,
        a.secs == b.secs + secs ==> (later <==> a.nanos > b.nanos),
        a.nanos < 1_000_000_000 && b.nanos < 1_000_000_000 ==> (later <==> a.secs * 1_000_000_000
            + a.nanos > (b.secs + secs) * 1_000_000_000 + b.nanos),
{
}

/// What a refresh that is needed only close to the expiry comes to: tokens whose access token is valid
/// for more than five minutes are kept, and others are refreshed.
pub open spec fn renews_if_needed(
    instance: SimpleView,
    info: ClientInfo,
    key: Option<KeyDataView>,
    now: Timestamp,
    action: Result<Action, SimpleError>,
) -> bool {
    match instance.tokens {
        None => action matches Err(SimpleError::TokensUnset),
        Some(t) => if is_far_off(t.expires_at, now) {
            action matches Ok(Action::Keep(kept)) && holds(instance, kept)
        } else {
            renewal_is_due(instance, info, key, RefreshStage::First, action)
        },
    }
}

/// What the library says of a refresh that is needed only close to the expiry, in full.
proof fn lemma_renews_if_needed(
    instance: SimpleView,
    info: ClientInfo,
    port: u16,
    scope: Seq<char>,
    key: Option<KeyDataView>,
    now: Timestamp,
    action: Result<Action, SimpleError>,
)
    requires
        acts_for(instance, info, port, scope, key),
        simple::refresh_if_needed_started(instance, now, action),
    ensures
        renews_if_needed(instance, info, key, now, action),
{
    if let Some(t) = instance.tokens {
        if !is_far_off(t.expires_at, now) {
            lemma_renewal_is_due(instance, info, port, scope, key, action);
        }
    }
}

/// Tokens are refreshed only close to their expiry.
pub proof fn refresh_is_needed_only_close_to_expiry(
    instance: &Oauth2Simple,
    info: ClientInfo,
    port: u16,
    scope: Seq<char>,
    key: Option<KeyDataView>,
    now: Timestamp,
    action: Result<Action, SimpleError>,
)
    requires
        acts_for(instance@, info, port, scope, key),
        call_ensures(Oauth2Simple::refresh_if_needed_at, (instance, now), action),
    ensures
        renews_if_needed(instance@, info, key, now, action),
{
    lemma_renews_if_needed(instance@, info, port, scope, key, now, action);
}

/// Tokens are refreshed only close to their expiry, by an instant that has been read from the clock.
pub proof fn refresh_is_needed_only_close_to_expiry_now(
    instance: &Oauth2Simple,
    info: ClientInfo,
    port: u16,
    scope: Seq<char>,
    key: Option<KeyDataView>,
    action: Result<Action, SimpleError>,
)
    requires
        acts_for(instance@, info, port, scope, key),
        call_ensures(Oauth2Simple::refresh_if_needed, (instance,), action),
    ensures
        exists|now: Timestamp| #[trigger]
            clock::was_read(now) && renews_if_needed(instance@, info, key, now, action),
{
    let now = choose|now: Timestamp|
        clock::was_read(now) && clock::is_reading(now)
            && #[trigger] simple::refresh_if_needed_started(instance@, now, action);
    lemma_renews_if_needed(instance@, info, port, scope, key, now, action);
}

/// What getting a token does: without tokens the initialization flow is started, and tokens close to
/// their expiry are refreshed.
pub open spec fn gets_token(
    before: SimpleView,
    info: ClientInfo,
    port: u16,
    scope: Seq<char>,
    key: Option<KeyDataView>,
    now: Timestamp,
    after: SimpleView,
    action: Result<Action, SimpleError>,
) -> bool {
    match before.tokens {
        None => authorizes(before, info, port, scope, after, action),
        Some(_) => after == before && renews_if_needed(before, info, key, now, action),
    }
}

/// What the library says of getting a token, in full.
proof fn lemma_gets_token(
    before: SimpleView,
    info: ClientInfo,
    port: u16,
    scope: Seq<char>,
    key: Option<KeyDataView>,
    now: Timestamp,
    after: SimpleView,
    action: Result<Action, SimpleError>,
)
    requires
        acts_for(before, info, port, scope, key),
        simple::token_sought(before, now, after, action),
    ensures
        acts_for(after, info, port, scope, key),
        gets_token(before, info, port, scope, key, now, after, action),
{
    if before.tokens is None {
        lemma_authorizes(before, info, port, scope, key, after, action);
    } else {
        lemma_renews_if_needed(before, info, port, scope, key, now, action);
    }
}

/// A token is got through the flow that is needed for it.
pub proof fn token_is_got_through_the_flow_it_needs(
    instance: &mut Oauth2Simple,
    info: ClientInfo,
    port: u16,
    scope: Seq<char>,
    key: Option<KeyDataView>,
    now: Timestamp,
    action: Result<Action, SimpleError>,
)
    requires
        acts_for(old(instance)@, info, port, scope, key),
        call_ensures(Oauth2Simple::get_token_at, (instance, now), action),
    ensures
        acts_for(final(instance)@, info, port, scope, key),
        gets_token(old(instance)@, info, port, scope, key, now, final(instance)@, action),
{
    lemma_gets_token(old(instance)@, info, port, scope, key, now, final(instance)@, action);
}

/// A token is got through the flow that is needed for it, by an instant that has been read from the
/// clock.
pub proof fn token_is_got_through_the_flow_it_needs_now(
    instance: &mut Oauth2Simple,
    info: ClientInfo,
    port: u16,
    scope: Seq<char>,
    key: Option<KeyDataView>,
    action: Result<Action, SimpleError>,
)
    requires
        acts_for(old(instance)@, info, port, scope, key),
        call_ensures(Oauth2Simple::get_token, (instance,), action),
    ensures
        acts_for(final(instance)@, info, port, scope, key),
        exists|now: Timestamp| #[trigger]
            clock::was_read(now) && gets_token(
                old(instance)@,
                info,
                port,
                scope,
                key,
                now,
                final(instance)@,
                action,
            ),
{
    let before = old(instance)@;
    let after = final(instance)@;
    let now = choose|now: Timestamp|
        clock::was_read(now) && clock::is_reading(now) && #[trigger] simple::token_sought(
            before,
            now,
            after,
            action,
        );
    lemma_gets_token(before, info, port, scope, key, now, after, action);
}

/// What remains to be done for a token: after the initialization flow a refresh, if it is needed, and
/// otherwise nothing, and the tokens of the flow are the tokens.
pub open spec fn finishes(
    instance: SimpleView,
    info: ClientInfo,
    key: Option<KeyDataView>,
    follow_up: FollowUp,
    tokens: Tokens,
    now: Timestamp,
    action: Result<Action, SimpleError>,
) -> bool {
    match follow_up {
        FollowUp::RefreshIfNeeded => renews_if_needed(instance, info, key, now, action),
        FollowUp::Done => action matches Ok(Action::Keep(kept)) && laws_refresh::same_tokens(
            kept,
            tokens,
        ),
    }
}

/// After the initialization flow the tokens are refreshed if needed, and otherwise the tokens of the
/// flow are the tokens.
pub proof fn token_is_finished(
    instance: &Oauth2Simple,
    info: ClientInfo,
    port: u16,
    scope: Seq<char>,
    key: Option<KeyDataView>,
    follow_up: FollowUp,
    tokens: Tokens,
    now: Timestamp,
    action: Result<Action, SimpleError>,
)
    requires
        acts_for(instance@, info, port, scope, key),
        call_ensures(Oauth2Simple::finish_token_at, (instance, follow_up, tokens, now), action),
    ensures
        finishes(instance@, info, key, follow_up, tokens, now, action),
{
    if follow_up is RefreshIfNeeded {
        lemma_renews_if_needed(instance@, info, port, scope, key, now, action);
    }
}

/// A token is finished so, by an instant that has been read from the clock.
pub proof fn token_is_finished_now(
    instance: &Oauth2Simple,
    info: ClientInfo,
    port: u16,
    scope: Seq<char>,
    key: Option<KeyDataView>,
    follow_up: FollowUp,
    tokens: Tokens,
    action: Result<Action, SimpleError>,
)
    requires
        acts_for(instance@, info, port, scope, key),
        call_ensures(Oauth2Simple::finish_token, (instance, follow_up, tokens), action),
    ensures
        exists|now: Timestamp| #[trigger]
            clock::was_read(now) && finishes(
                instance@,
                info,
                key,
                follow_up,
                tokens,
                now,
                action,
            ),
{
    let now = choose|now: Timestamp|
        clock::was_read(now) && clock::is_reading(now) && #[trigger] simple::token_finished(
            instance@,
            follow_up,
            tokens@,
            now,
            action,
        );
    if follow_up is RefreshIfNeeded {
        lemma_renews_if_needed(instance@, info, port, scope, key, now, action);
    }
}

/// Only a flow that begins with the user's authorization has a refresh to follow it.
pub proof fn only_authorization_has_a_follow_up(action: &Action, follow_up: FollowUp)
    requires
        call_ensures(Action::follow_up, (action,), follow_up),
    ensures
        action is Authorize ==> follow_up is RefreshIfNeeded,
        !(action is Authorize) ==> follow_up is Done,
{
}

/// Whether the request exchanges a code at the token server of the client info: it has exactly six
/// fields, which are that client's ID, the code, the verifier, the grant type, the URI of the local
/// server and that client's secret, and a DPoP for the code and the time, by the key, if there is one.
pub open spec fn exchanges_code(
    request: TokenRequest,
    info: ClientInfo,
    port: u16,
    key: Option<KeyDataView>,
    code: Seq<char>,
    code_verifier: Seq<char>,
    iat: int,
) -> bool {
    let form = request.form@;
    &&& request.url@ == info.installed.token_uri@
    &&& form.len() == 6
    &&& laws_client::has(form[0], "client_id"@, info.installed.client_id@)
    &&& laws_client::has(form[1], "code"@, code)
    &&& laws_client::has(form[2], "code_verifier"@, code_verifier)
    &&& laws_client::has(form[3], "grant_type"@, "authorization_code"@)
    &&& form[4].0@ == "redirect_uri"@
    &&& laws_client::is_redirect_uri(form[4].1@, port)
    &&& laws_client::has(form[5], "client_secret"@, info.installed.client_secret@)
    &&& match key {
        Some(k) => request.dpop matches Some(d) && dpop_text::is_proof(
            d@,
            k.x,
            k.y,
            k.secret,
            info.installed.token_uri@,
            None,
            base64url::base64url(digest::sha256(text::utf8(code))),
            iat,
        ),
        None => request.dpop is None,
    }
}

/// What the response to the authorization leads to. One with the state that was sent and the scope that
/// was asked for has its code exchanged, with the verifier that is kept. Any other is refused.
pub open spec fn exchange_is_due(
    before: SimpleView,
    info: ClientInfo,
    port: u16,
    scope: Seq<char>,
    key: Option<KeyDataView>,
    r: AuthResponse,
    iat: int,
    after: SimpleView,
    action: Result<Action, SimpleError>,
) -> bool {
    &&& keeps_tokens(before, after)
    &&& after.oauth2.cfg.dpop_nonce == before.oauth2.cfg.dpop_nonce
    &&& after.oauth2.code_verifier == before.oauth2.code_verifier
    &&& after.oauth2.state == before.oauth2.state
    &&& match before.oauth2.state {
        None => action matches Err(SimpleError::Client(Oauth2Error::StateIsNone)),
        Some(state) => if state != r.state@ {
            after.oauth2.code == before.oauth2.code && (action matches Err(
                SimpleError::Client(Oauth2Error::StateMismatch { received, expected }),
            ) && received@ == r.state@ && expected@ == state)
        } else if scope != r.scope@ {
            after.oauth2.code == before.oauth2.code && (action matches Err(
                SimpleError::Client(Oauth2Error::ScopeMismatch { received, expected }),
            ) && received@ == r.scope@ && expected@ == scope)
        } else {
            &&& after.oauth2.code == Some(r.code@)
            &&& match before.oauth2.code_verifier {
                Some(v) => action matches Ok(Action::Exchange(request)) && exchanges_code(
                    request,
                    info,
                    port,
                    key,
                    r.code@,
                    v,
                    iat,
                ),
                None => action matches Err(SimpleError::Client(Oauth2Error::CodeVerifierIsNone)),
            }
        },
    }
}

/// What the answer to a token exchange leads to: the tokens that it grants are to be saved, and the
/// instance holds them and refreshes with them.
pub open spec fn grant_is_saved(
    before: SimpleView,
    r: ExchangeResponse,
    received: Option<String>,
    now: Timestamp,
    after: SimpleView,
    action: Result<Action, SimpleError>,
) -> bool {
    &&& action matches Ok(Action::Save(saved))
    &&& laws_refresh::grants(saved, r, received, before.oauth2.cfg.dpop_nonce, now)
    &&& takes_over(before, saved, after)
}

/// Whether the instance holds the saved tokens and uses them, and nothing else of it changes.
pub open spec fn takes_over(before: SimpleView, saved: Tokens, after: SimpleView) -> bool {
    &&& holds(after, saved)
    &&& after.tokens_path == before.tokens_path
    &&& after.oauth2.cfg.refresh_token == Some(saved.refresh_token@)
    &&& after.oauth2.cfg.dpop_nonce == saved.dpop_nonce.deep_view()
    &&& laws_refresh::same_but_for_tokens(after.oauth2, before.oauth2)
}

/// What the answer to a refresh request leads to. The access token that it grants is to be saved with
/// the refresh token that is kept. The first time that the server wants another nonce, the client asks
/// again with that nonce. Otherwise the error hands on what the server said.
pub open spec fn renewal_is_saved(
    before: SimpleView,
    info: ClientInfo,
    key: Option<KeyDataView>,
    reply: RefreshReply,
    now: Timestamp,
    after: SimpleView,
    action: Result<Action, SimpleError>,
) -> bool {
    match reply.answer {
        Ok(r) => match before.tokens {
            Some(t) => {
                &&& action matches Ok(Action::Save(saved))
                &&& saved.access_token@ == r.access_token@
                &&& laws_refresh::is_expiry(saved.expires_at, now, r.expires_in)
                &&& saved.scope@ == r.scope@
                &&& laws_refresh::is_latest(
                    saved.dpop_nonce,
                    reply.dpop_nonce,
                    before.oauth2.cfg.dpop_nonce,
                )
                &&& saved.refresh_token@ == t.refresh_token
                &&& saved.refresh_token_expires_at == t.refresh_token_expires_at
                &&& takes_over(before, saved, after)
            },
            None => after == before && action matches Err(SimpleError::TokensUnset),
        },
        Err(e) => if laws_refresh::wants_nonce(reply.answer, reply.dpop_nonce) && reply.stage
            == RefreshStage::First {
            &&& keeps_tokens(before, after)
            &&& after.oauth2.cfg.dpop_nonce == Some(reply.dpop_nonce->0@)
            &&& laws_refresh::same_but_for_nonce(after.oauth2, before.oauth2)
            &&& renewal_is_due(after, info, key, RefreshStage::Retry, action)
        } else {
            &&& after == before
            &&& action matches Err(SimpleError::Refresh(e)) && laws_refresh::hands_on(
                e,
                reply.answer,
                reply.dpop_nonce,
            )
        },
    }
}

/// What an event leads to.
pub open spec fn goes_on(
    before: SimpleView,
    info: ClientInfo,
    port: u16,
    scope: Seq<char>,
    key: Option<KeyDataView>,
    event: Event,
    now: Timestamp,
    after: SimpleView,
    action: Result<Action, SimpleError>,
) -> bool {
    match event {
        Event::Authorized(r) => exchange_is_due(
            before,
            info,
            port,
            scope,
            key,
            r,
            now.secs as int,
            after,
            action,
        ),
        Event::Exchanged { response, dpop_nonce } => grant_is_saved(
            before,
            response,
            dpop_nonce,
            now,
            after,
            action,
        ),
        Event::Refreshed(reply) => renewal_is_saved(
            before,
            info,
            key,
            reply,
            now,
            after,
            action,
        ),
    }
}

/// Whether the tokens that an event brings, if any, are granted for five seconds or more.
pub open spec fn brings_lasting(event: Event) -> bool {
    match event {
        Event::Authorized(_) => true,
        Event::Exchanged { response, .. } => response.expires_in >= 5 && (
        response.refresh_token_expires_in matches Some(e) ==> e >= 5),
        Event::Refreshed(reply) => reply.answer matches Ok(r) ==> r.expires_in >= 5,
    }
}

/// What the library says of a response to the authorization, in full.
proof fn lemma_exchange_is_due(
    before: SimpleView,
    info: ClientInfo,
    port: u16,
    scope: Seq<char>,
    key: Option<KeyDataView>,
    r: AuthResponse,
    now: Timestamp,
    after: SimpleView,
    action: Result<Action, SimpleError>,
)
    requires
        acts_for(before, info, port, scope, key),
        simple::advanced(before, Event::Authorized(r), now, after, action),
    ensures
        acts_for(after, info, port, scope, key),
        exchange_is_due(before, info, port, scope, key, r, now.secs as int, after, action),
{
    match action {
        Ok(Action::Exchange(request)) => {
            laws_client::lemma_answered(
                before.oauth2,
                r,
                now.secs as int,
                after.oauth2,
                Ok(request),
            );
            assert(laws_client::proves_possession(
                request,
                after.oauth2,
                None,
                base64url::base64url(digest::sha256(text::utf8(r.code@))),
                now.secs as int,
            ));
        },
        Err(SimpleError::Client(e)) => {
            laws_client::lemma_answered(before.oauth2, r, now.secs as int, after.oauth2, Err(e));
        },
        _ => {},
    }
}

/// What the library says of the answer to a token exchange, in full.
proof fn lemma_grant_is_saved(
    before: SimpleView,
    info: ClientInfo,
    port: u16,
    scope: Seq<char>,
    key: Option<KeyDataView>,
    r: ExchangeResponse,
    received: Option<String>,
    now: Timestamp,
    after: SimpleView,
    action: Result<Action, SimpleError>,
)
    requires
        acts_for(before, info, port, scope, key),
        brings_lasting(Event::Exchanged { response: r, dpop_nonce: received }),
        now.secs <= i64::MAX - u32::MAX,
        simple::advanced(
            before,
            Event::Exchanged { response: r, dpop_nonce: received },
            now,
            after,
            action,
        ),
    ensures
        acts_for(after, info, port, scope, key),
        grant_is_saved(before, r, received, now, after, action),
{
    if let Ok(Action::Save(saved)) = action {
        laws_refresh::lemma_grants(saved, r, received, before.oauth2.cfg.dpop_nonce, now);
    }
}

/// What the library says of the answer to a refresh request, in full.
proof fn lemma_renewal_is_saved(
    before: SimpleView,
    info: ClientInfo,
    port: u16,
    scope: Seq<char>,
    key: Option<KeyDataView>,
    reply: RefreshReply,
    now: Timestamp,
    after: SimpleView,
    action: Result<Action, SimpleError>,
)
    requires
        acts_for(before, info, port, scope, key),
        brings_lasting(Event::Refreshed(reply)),
        now.secs <= i64::MAX - u32::MAX,
        simple::advanced(before, Event::Refreshed(reply), now, after, action),
    ensures
        acts_for(after, info, port, scope, key),
        renewal_is_saved(before, info, key, reply, now, after, action),
{
    if laws_refresh::wants_nonce(reply.answer, reply.dpop_nonce) && reply.stage
        == RefreshStage::First {
        match action {
            Ok(Action::Refresh { request, stage }) => {
                laws_refresh::lemma_anew(after.oauth2, Ok(request));
                lemma_renewal(after, info, port, scope, key, request);
            },
            Err(SimpleError::Client(e)) => {
                laws_refresh::lemma_anew(after.oauth2, Err(e));
            },
            _ => {},
        }
    }
}

/// What the library says of an event, in full.
proof fn lemma_goes_on(
    before: SimpleView,
    info: ClientInfo,
    port: u16,
    scope: Seq<char>,
    key: Option<KeyDataView>,
    event: Event,
    now: Timestamp,
    after: SimpleView,
    action: Result<Action, SimpleError>,
)
    requires
        acts_for(before, info, port, scope, key),
        brings_lasting(event),
        now.secs <= i64::MAX - u32::MAX,
        simple::advanced(before, event, now, after, action),
    ensures
        acts_for(after, info, port, scope, key),
        goes_on(before, info, port, scope, key, event, now, after, action),
{
    match event {
        Event::Authorized(r) => {
            lemma_exchange_is_due(before, info, port, scope, key, r, now, after, action);
        },
        Event::Exchanged { response, dpop_nonce } => {
            lemma_grant_is_saved(
                before,
                info,
                port,
                scope,
                key,
                response,
                dpop_nonce,
                now,
                after,
                action,
            );
        },
        Event::Refreshed(reply) => {
            lemma_renewal_is_saved(before, info, port, scope, key, reply, now, after, action);
        },
    }
}

/// An event leads to the next request at the token server of the client info, or to the tokens that it
/// brings. The instance goes on acting for that client.
pub proof fn flow_goes_on(
    instance: &mut Oauth2Simple,
    info: ClientInfo,
    port: u16,
    scope: Seq<char>,
    key: Option<KeyDataView>,
    event: Event,
    now: Timestamp,
    action: Result<Action, SimpleError>,
)
    requires
        acts_for(old(instance)@, info, port, scope, key),
        brings_lasting(event),
        now.secs <= i64::MAX - u32::MAX,
        call_ensures(Oauth2Simple::advance_at, (instance, event, now), action),
    ensures
        acts_for(final(instance)@, info, port, scope, key),
        goes_on(old(instance)@, info, port, scope, key, event, now, final(instance)@, action),
{
    lemma_goes_on(old(instance)@, info, port, scope, key, event, now, final(instance)@, action);
}

/// A flow goes on so, as of an instant that has been read from the clock.
pub proof fn flow_goes_on_now(
    instance: &mut Oauth2Simple,
    info: ClientInfo,
    port: u16,
    scope: Seq<char>,
    key: Option<KeyDataView>,
    event: Event,
    action: Result<Action, SimpleError>,
)
    requires
        acts_for(old(instance)@, info, port, scope, key),
        brings_lasting(event),
        call_ensures(Oauth2Simple::advance, (instance, event), action),
    ensures
        acts_for(final(instance)@, info, port, scope, key),
        exists|now: Timestamp| #[trigger]
            clock::was_read(now) && goes_on(
                old(instance)@,
                info,
                port,
                scope,
                key,
                event,
                now,
                final(instance)@,
                action,
            ),
{
    let before = old(instance)@;
    let after = final(instance)@;
    let now = choose|now: Timestamp|
        clock::was_read(now) && clock::is_reading(now) && #[trigger] simple::advanced(
            before,
            event,
            now,
            after,
            action,
        );
    lemma_goes_on(before, info, port, scope, key, event, now, after, action);
}

/// An instance that is made of a client info sends the user to that auth server, and exchanges the code
/// of a response that carries the state of the URL at that token server, with that client's ID and
/// secret and with the verifier whose digest was the challenge in the URL.
pub proof fn authorization_follows_the_client_info(
    cfg: Cfg<'_>,
    info: ClientInfo,
    tokens: Option<Tokens>,
    key: Option<KeyData>,
    made: Oauth2Simple,
    asking: &mut Oauth2Simple,
    shown: Result<Action, SimpleError>,
    answering: &mut Oauth2Simple,
    r: AuthResponse,
    now: Timestamp,
    sent: Result<Action, SimpleError>,
)
    requires
        call_ensures(Oauth2Simple::with_cfg, (cfg, info, tokens, key), made),
        *old(asking) == made,
        call_ensures(Oauth2Simple::init, (asking,), shown),
        *old(answering) == *final(asking),
        now.secs <= i64::MAX - u32::MAX,
        call_ensures(Oauth2Simple::advance_at, (answering, Event::Authorized(r), now), sent),
    ensures
        match (shown, sent) {
            (Ok(Action::Authorize { url, listen_port }), Ok(Action::Exchange(request))) => {
                &&& listen_port == cfg.port
                &&& laws_client::asks_for(
                    url@,
                    info.installed.auth_uri@,
                    info.installed.client_id@,
                    cfg.port,
                    cfg.scope@,
                    base64url::base64url(digest::sha256(text::utf8(request.form@[2].1@))),
                    r.state@,
                )
                &&& r.scope@ == cfg.scope@
                &&& request.url@ == info.installed.token_uri@
                &&& request.form@.len() == 6
                &&& laws_client::has(request.form@[0], "client_id"@, info.installed.client_id@)
                &&& laws_client::has(request.form@[1], "code"@, r.code@)
                &&& request.form@[2].0@ == "code_verifier"@
                &&& laws_client::has(request.form@[3], "grant_type"@, "authorization_code"@)
                &&& request.form@[4].0@ == "redirect_uri"@
                &&& laws_client::is_redirect_uri(request.form@[4].1@, cfg.port)
                &&& laws_client::has(
                    request.form@[5],
                    "client_secret"@,
                    info.installed.client_secret@,
                )
                &&& (request.dpop is Some <==> key is Some)
            },
            (Ok(Action::Authorize { .. }), Err(SimpleError::Client(e))) => match e {
                Oauth2Error::StateMismatch { received, expected } => received@ == r.state@
                    && expected@ != r.state@,
                Oauth2Error::ScopeMismatch { received, expected } => received@ == r.scope@
                    && expected@ == cfg.scope@ && cfg.scope@ != r.scope@,
                _ => false,
            },
            (Ok(_), _) => false,
            (Err(SimpleError::Client(e)), _) => e is Entropy || e is Url,
            (Err(_), _) => false,
        },
{
    let signing = match key {
        Some(k) => Some(k@),
        None => None,
    };
    instance_acts_for_its_client(cfg, info, tokens, key, made);
    init_asks_the_auth_server(asking, info, cfg.port, cfg.scope@, signing, shown);
    flow_goes_on(
        answering,
        info,
        cfg.port,
        cfg.scope@,
        signing,
        Event::Authorized(r),
        now,
        sent,
    );
}

/// An instance that is made of a client info and of tokens asks that token server for a new access
/// token, with that client's ID and secret and that refresh token. The access token that is granted is
/// saved with that refresh token, and is kept until it is close to its expiry.
pub proof fn refresh_follows_the_client_info(
    cfg: Cfg<'_>,
    info: ClientInfo,
    tokens: Tokens,
    key: Option<KeyData>,
    made: Oauth2Simple,
    asked: Result<Action, SimpleError>,
    answering: &mut Oauth2Simple,
    reply: RefreshReply,
    now: Timestamp,
    action: Result<Action, SimpleError>,
    renewed: Oauth2Simple,
    later: Timestamp,
    kept: Result<Action, SimpleError>,
)
    requires
        call_ensures(Oauth2Simple::with_cfg, (cfg, info, Some(tokens), key), made),
        call_ensures(Oauth2Simple::refresh, (&made,), asked),
        *old(answering) == made,
        now.secs <= i64::MAX - u32::MAX,
        reply.answer matches Ok(r) ==> r.expires_in >= 5,
        call_ensures(Oauth2Simple::advance_at, (answering, Event::Refreshed(reply), now), action),
        renewed == *final(answering),
        call_ensures(Oauth2Simple::refresh_if_needed_at, (&renewed, later), kept),
    ensures
        match asked {
            Ok(Action::Refresh { request, stage }) => {
                &&& stage == RefreshStage::First
                &&& request.url@ == info.installed.token_uri@
                &&& request.form@.len() == 4
                &&& laws_client::has(request.form@[0], "client_id"@, info.installed.client_id@)
                &&& laws_client::has(
                    request.form@[1],
                    "client_secret"@,
                    info.installed.client_secret@,
                )
                &&& laws_client::has(request.form@[2], "grant_type"@, "refresh_token"@)
                &&& laws_client::has(request.form@[3], "refresh_token"@, tokens.refresh_token@)
                &&& (request.dpop is Some <==> key is Some)
            },
            Ok(_) => false,
            Err(e) => key is Some && e matches SimpleError::Client(
                Oauth2Error::Dpop(DpopError::Entropy(_)),
            ),
        },
        reply.answer matches Ok(r) ==> {
            &&& action matches Ok(Action::Save(saved))
            &&& saved.access_token@ == r.access_token@
            &&& saved.scope@ == r.scope@
            &&& saved.expires_at.secs == now.secs + r.expires_in - 5
            &&& saved.expires_at.nanos == now.nanos
            &&& saved.refresh_token@ == tokens.refresh_token@
            &&& saved.refresh_token_expires_at == tokens.refresh_token_expires_at
            &&& is_far_off(saved.expires_at, later) ==> (kept matches Ok(Action::Keep(k))
                && laws_refresh::same_tokens(k, saved))
        },
{
    let signing = match key {
        Some(k) => Some(k@),
        None => None,
    };
    instance_acts_for_its_client(cfg, info, Some(tokens), key, made);
    refresh_asks_the_token_server(&made, info, cfg.port, cfg.scope@, signing, asked);
    flow_goes_on(
        answering,
        info,
        cfg.port,
        cfg.scope@,
        signing,
        Event::Refreshed(reply),
        now,
        action,
    );
    refresh_is_needed_only_close_to_expiry(
        &renewed,
        info,
        cfg.port,
        cfg.scope@,
        signing,
        later,
        kept,
    );
}

} // verus!
