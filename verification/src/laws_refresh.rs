//! What the calls of the client make of the answers of the token server.

use vstd::prelude::*;

use crate::base64url;
use crate::client;
use crate::client::{Oauth2, Oauth2View, TokenRequest};
use crate::clock;
use crate::clock::Timestamp;
use crate::dpop;
use crate::dpop::DpopError;
use crate::error::Oauth2Error;
use crate::laws_client;
use crate::random;
use crate::refresh;
use crate::refresh::{RefreshError, RefreshReply, RefreshStage, RefreshStep};
use crate::tokens;
use crate::tokens::{
    ExchangeResponse, RefreshHandleResponseError, RefreshResponse, RefreshResult, ServerError,
    TokenExchangeResult, Tokens,
};

verus! {

/// Whether a request asks for a new access token: it goes to the token server with exactly four
/// fields, which are the client ID, the client secret, the grant type and the refresh token, and with
/// a DPoP that carries the nonce of the client, if there is a key.
pub open spec fn refreshes(
    request: TokenRequest,
    client: Oauth2View,
    refresh_token: Seq<char>,
    jti: Seq<char>,
    iat: int,
) -> bool {
    let form = request.form@;
    &&& request.url@ == client.cfg.token_server_url
    &&& form.len() == 4
    &&& laws_client::has(form[0], "client_id"@, client.cfg.client_id)
    &&& laws_client::has(form[1], "client_secret"@, client.cfg.client_secret)
    &&& laws_client::has(form[2], "grant_type"@, "refresh_token"@)
    &&& laws_client::has(form[3], "refresh_token"@, refresh_token)
    &&& laws_client::proves_possession(request, client, client.cfg.dpop_nonce, jti, iat)
}

/// What making a refresh request comes to: the request, or an error if there is no refresh token.
pub open spec fn refresh_outcome(
    client: Oauth2View,
    jti: Seq<char>,
    iat: int,
    request: Result<TokenRequest, Oauth2Error>,
) -> bool {
    match client.cfg.refresh_token {
        Some(refresh_token) => request matches Ok(q) && refreshes(
            q,
            client,
            refresh_token,
            jti,
            iat,
        ),
        None => request matches Err(Oauth2Error::RefreshTokenIsNone),
    }
}

/// What the library says of a refresh request, in full.
proof fn lemma_refresh(
    client: Oauth2View,
    jti: Seq<char>,
    iat: int,
    request: Result<TokenRequest, Oauth2Error>,
)
    requires
        client::is_request(request, client::refresh_request(client, jti, iat)),
    ensures
        refresh_outcome(client, jti, iat, request),
{
    if let Ok(q) = request {
        laws_client::lemma_possession(q, client, client.cfg.dpop_nonce, jti, iat);
        laws_client::lemma_fields(q);
    }
}

/// A request for a new access token carries the refresh token and the credentials of the client.
pub proof fn refresh_request_carries_the_refresh_token(
    client: &Oauth2,
    jti: &str,
    iat: i64,
    request: Result<TokenRequest, Oauth2Error>,
)
    requires
        call_ensures(Oauth2::get_refresh_request_with, (client, jti, iat), request),
    ensures
        refresh_outcome(client@, jti@, iat as int, request),
{
    lemma_refresh(client@, jti@, iat as int, request);
}

/// What asking for a new access token comes to: the request, whose DPoP, if it carries one, has an
/// identifier that has been drawn and a time that has been read from the clock. Only for want of
/// random bytes can it fail where there is a refresh token.
pub open spec fn asked_anew(client: Oauth2View, request: Result<TokenRequest, Oauth2Error>) -> bool {
    match client.cfg.refresh_token {
        None => request matches Err(Oauth2Error::RefreshTokenIsNone),
        Some(refresh_token) => match request {
            Ok(q) => exists|jti: Seq<char>, now: Timestamp| #[trigger]
                refreshes(q, client, refresh_token, jti, now.secs as int) && (
                client.cfg.key_data is Some ==> is_drawn_identifier(jti) && clock::was_read(now)),
            Err(e) => client.cfg.key_data is Some && e matches Oauth2Error::Dpop(
                DpopError::Entropy(_),
            ),
        },
    }
}

/// Whether `jti` encodes 128 bytes that have been drawn.
pub open spec fn is_drawn_identifier(jti: Seq<char>) -> bool {
    exists|bytes: Seq<u8>| #[trigger]
        random::was_drawn(bytes) && bytes.len() == 128 && jti == base64url::base64url(bytes)
}

/// What the library says of asking for a new access token, in full.
pub(crate) proof fn lemma_anew(client: Oauth2View, request: Result<TokenRequest, Oauth2Error>)
    requires
        client::fresh_refresh_request(client, request),
    ensures
        asked_anew(client, request),
{
    let random = client.cfg.refresh_token is Some && client.cfg.key_data is Some;
    if !(random && request is Err) {
        let (jti, now) = choose|jti: Seq<char>, now: Timestamp|
            clock::is_reading(now) && (random ==> dpop::is_random_jti(jti) && dpop::is_drawn_jti(
                jti,
            ) && clock::was_read(now)) && client::is_request(
                request,
                #[trigger] client::refresh_request(client, jti, now.secs as int),
            );
        lemma_refresh(client, jti, now.secs as int, request);
    }
}

/// A request for a new access token carries the refresh token and the credentials of the client, and
/// its DPoP an identifier that has been drawn and a time that has been read from the clock.
pub proof fn refresh_request_has_a_drawn_identifier(
    client: &Oauth2,
    request: Result<TokenRequest, Oauth2Error>,
)
    requires
        call_ensures(Oauth2::get_refresh_request, (client,), request) || call_ensures(
            Oauth2::refresh,
            (client,),
            request,
        ),
    ensures
        asked_anew(client@, request),
{
    lemma_anew(client@, request);
}

/// Whether `instant` lies `expires_in` seconds after `now`, less five seconds.
pub open spec fn is_expiry(instant: Timestamp, now: Timestamp, expires_in: u32) -> bool {
    instant.secs == now.secs + expires_in - 5 && instant.nanos == now.nanos
}

/// A token expires five seconds before the time for which it is granted has passed.
pub proof fn tokens_expire_five_seconds_early(now: Timestamp, expires_in: u32, instant: Timestamp)
    requires
        expires_in >= 5,
        now.secs + expires_in - 5 <= i64::MAX,
        call_ensures(tokens::expires_at, (now, expires_in), instant),
    ensures
        is_expiry(instant, now, expires_in),
{
}

/// Whether `kept` is the nonce that came, or else the one that was known before.
pub open spec fn is_latest(
    kept: Option<String>,
    received: Option<String>,
    known: Option<Seq<char>>,
) -> bool {
    match (received, known) {
        (Some(nonce), _) => kept matches Some(k) && k@ == nonce@,
        (None, Some(nonce)) => kept matches Some(k) && k@ == nonce,
        (None, None) => kept is None,
    }
}

/// Of two nonces the one that has just come is kept, and the one known before only if none came.
pub proof fn new_nonce_replaces_the_old_one(
    received: Option<String>,
    known: Option<String>,
    kept: Option<String>,
)
    requires
        call_ensures(tokens::pick_nonce, (received, known), kept),
    ensures
        is_latest(kept, received, known.deep_view()),
{
}

/// Whether the tokens are those that the answer to a token exchange grants at `now`.
pub open spec fn grants(
    tokens: Tokens,
    r: ExchangeResponse,
    received: Option<String>,
    known: Option<Seq<char>>,
    now: Timestamp,
) -> bool {
    &&& tokens.access_token@ == r.access_token@
    &&& is_expiry(tokens.expires_at, now, r.expires_in)
    &&& tokens.refresh_token@ == r.refresh_token@
    &&& match r.refresh_token_expires_in {
        Some(expires_in) => tokens.refresh_token_expires_at matches Some(instant) && is_expiry(
            instant,
            now,
            expires_in,
        ),
        None => tokens.refresh_token_expires_at is None,
    }
    &&& tokens.scope@ == r.scope@
    &&& is_latest(tokens.dpop_nonce, received, known)
}

/// Only an answer whose tokens are granted for five seconds or more counts as lasting.
pub proof fn lasting_answers_outlast_the_margin(
    r: &ExchangeResponse,
    lasting: bool,
    reply: &RefreshReply,
    lasting_reply: bool,
)
    requires
        call_ensures(ExchangeResponse::is_lasting, (r,), lasting),
        call_ensures(RefreshReply::is_lasting, (reply,), lasting_reply),
    ensures
        lasting <==> r.expires_in >= 5 && (r.refresh_token_expires_in matches Some(e) ==> e >= 5),
        lasting_reply <==> (reply.answer matches Ok(a) ==> a.expires_in >= 5),
{
}

/// What the library says of the tokens that are granted, in full.
pub(crate) proof fn lemma_grants(
    tokens: Tokens,
    r: ExchangeResponse,
    received: Option<String>,
    known: Option<Seq<char>>,
    now: Timestamp,
)
    requires
        tokens::lasting(r),
        now.secs <= i64::MAX - u32::MAX,
        tokens@ == tokens::granted(r, tokens::latest_nonce(received.deep_view(), known), now),
    ensures
        grants(tokens, r, received, known, now),
{
}

/// The answer to a token exchange yields the tokens that it grants, each in its place.
pub proof fn exchange_answer_yields_its_tokens(
    client: &Oauth2,
    r: ExchangeResponse,
    dpop_nonce: Option<String>,
    now: Timestamp,
    result: TokenExchangeResult,
)
    requires
        r.expires_in >= 5,
        r.refresh_token_expires_in matches Some(e) ==> e >= 5,
        now.secs <= i64::MAX - u32::MAX,
        call_ensures(
            Oauth2::auth_handle_exchange_response_at,
            (client, r, dpop_nonce, now),
            result,
        ),
    ensures
        grants(result, r, dpop_nonce, client@.cfg.dpop_nonce, now),
{
    lemma_grants(result, r, dpop_nonce, client@.cfg.dpop_nonce, now);
}

/// The answer to a token exchange yields the tokens that it grants, as of an instant that has been
/// read from the clock.
pub proof fn exchange_answer_yields_its_tokens_now(
    client: &Oauth2,
    r: ExchangeResponse,
    dpop_nonce: Option<String>,
    result: TokenExchangeResult,
)
    requires
        r.expires_in >= 5,
        r.refresh_token_expires_in matches Some(e) ==> e >= 5,
        call_ensures(Oauth2::auth_handle_exchange_response, (client, r, dpop_nonce), result),
    ensures
        exists|now: Timestamp| #[trigger]
            clock::was_read(now) && grants(result, r, dpop_nonce, client@.cfg.dpop_nonce, now),
{
    let now = choose|now: Timestamp|
        clock::was_read(now) && clock::is_reading(now) && result@ == #[trigger] tokens::granted(
            r,
            tokens::latest_nonce(dpop_nonce.deep_view(), client@.cfg.dpop_nonce),
            now,
        );
    lemma_grants(result, r, dpop_nonce, client@.cfg.dpop_nonce, now);
}

/// Whether the token is the one that the answer to a refresh request grants at `now`.
pub open spec fn renews(
    token: RefreshResult,
    r: RefreshResponse,
    received: Option<String>,
    known: Option<Seq<char>>,
    now: Timestamp,
) -> bool {
    &&& token.access_token@ == r.access_token@
    &&& is_expiry(token.expires_at, now, r.expires_in)
    &&& token.scope@ == r.scope@
    &&& is_latest(token.dpop_nonce, received, known)
}

/// Whether the server wants the request again with another nonce: it says so with its error code and
/// hands the nonce over.
pub open spec fn wants_nonce(
    answer: Result<RefreshResponse, ServerError>,
    received: Option<String>,
) -> bool {
    answer matches Err(e) && e.error@ == "use_dpop_nonce"@ && received is Some
}

/// Whether the error hands on what the server said.
pub open spec fn hands_on(
    e: RefreshHandleResponseError,
    answer: Result<RefreshResponse, ServerError>,
    received: Option<String>,
) -> bool {
    if wants_nonce(answer, received) {
        e matches RefreshHandleResponseError::UseDpopNonce { error_description, dpop_nonce }
            && error_description@ == answer->Err_0.error_description@ && dpop_nonce@
            == received->0@
    } else {
        e matches RefreshHandleResponseError::Refused { error, error_description } && error@
            == answer->Err_0.error@ && error_description@ == answer->Err_0.error_description@
    }
}

/// What handling the answer to a refresh request comes to: the token that it grants, or an error that
/// hands on what the server said.
pub open spec fn handled(
    answer: Result<RefreshResponse, ServerError>,
    received: Option<String>,
    known: Option<Seq<char>>,
    now: Timestamp,
    result: Result<RefreshResult, RefreshHandleResponseError>,
) -> bool {
    match answer {
        Ok(r) => result matches Ok(token) && renews(token, r, received, known, now),
        Err(_) => result matches Err(e) && hands_on(e, answer, received),
    }
}

/// What the library says of the answer to a refresh request, in full.
proof fn lemma_handled(
    answer: Result<RefreshResponse, ServerError>,
    received: Option<String>,
    known: Option<Seq<char>>,
    now: Timestamp,
    result: Result<RefreshResult, RefreshHandleResponseError>,
)
    requires
        answer matches Ok(r) ==> r.expires_in >= 5,
        now.secs <= i64::MAX - u32::MAX,
        tokens::is_refreshed(
            result,
            tokens::refreshed(answer, received.deep_view(), known, now),
        ),
    ensures
        handled(answer, received, known, now, result),
{
}

/// The answer to a refresh request yields the token that it grants, each part in its place, whether or
/// not a nonce came with it. One that grants nothing yields an error that says what the server said.
pub proof fn refresh_answer_yields_its_token(
    client: &Oauth2,
    answer: Result<RefreshResponse, ServerError>,
    dpop_nonce: Option<String>,
    now: Timestamp,
    result: Result<RefreshResult, RefreshHandleResponseError>,
)
    requires
        answer matches Ok(r) ==> r.expires_in >= 5,
        now.secs <= i64::MAX - u32::MAX,
        call_ensures(
            Oauth2::refresh_handle_response_at,
            (client, answer, dpop_nonce, now),
            result,
        ),
    ensures
        handled(answer, dpop_nonce, client@.cfg.dpop_nonce, now, result),
{
    lemma_handled(answer, dpop_nonce, client@.cfg.dpop_nonce, now, result);
}

/// The answer to a refresh request yields the token that it grants, as of an instant that has been read
/// from the clock.
pub proof fn refresh_answer_yields_its_token_now(
    client: &Oauth2,
    answer: Result<RefreshResponse, ServerError>,
    dpop_nonce: Option<String>,
    result: Result<RefreshResult, RefreshHandleResponseError>,
)
    requires
        answer matches Ok(r) ==> r.expires_in >= 5,
        call_ensures(Oauth2::refresh_handle_response, (client, answer, dpop_nonce), result),
    ensures
        exists|now: Timestamp| #[trigger]
            clock::was_read(now) && handled(
                answer,
                dpop_nonce,
                client@.cfg.dpop_nonce,
                now,
                result,
            ),
{
    let now = choose|now: Timestamp|
        clock::was_read(now) && clock::is_reading(now) && tokens::is_refreshed(
            result,
            #[trigger] tokens::refreshed(
                answer,
                dpop_nonce.deep_view(),
                client@.cfg.dpop_nonce,
                now,
            ),
        );
    lemma_handled(answer, dpop_nonce, client@.cfg.dpop_nonce, now, result);
}

/// Whether two clients differ in their nonce at most.
pub open spec fn same_but_for_nonce(a: Oauth2View, b: Oauth2View) -> bool {
    &&& a.cfg.listen_port == b.cfg.listen_port
    &&& a.cfg.client_id == b.cfg.client_id
    &&& a.cfg.scope == b.cfg.scope
    &&& a.cfg.auth_server_url == b.cfg.auth_server_url
    &&& a.cfg.token_server_url == b.cfg.token_server_url
    &&& a.cfg.client_secret == b.cfg.client_secret
    &&& a.cfg.refresh_token == b.cfg.refresh_token
    &&& a.cfg.key_data == b.cfg.key_data
    &&& a.code_verifier == b.code_verifier
    &&& a.code_challenge == b.code_challenge
    &&& a.state == b.state
    &&& a.code == b.code
}

/// Whether two clients differ in their refresh token and nonce at most.
pub open spec fn same_but_for_tokens(a: Oauth2View, b: Oauth2View) -> bool {
    &&& a.cfg.listen_port == b.cfg.listen_port
    &&& a.cfg.client_id == b.cfg.client_id
    &&& a.cfg.scope == b.cfg.scope
    &&& a.cfg.auth_server_url == b.cfg.auth_server_url
    &&& a.cfg.token_server_url == b.cfg.token_server_url
    &&& a.cfg.client_secret == b.cfg.client_secret
    &&& a.cfg.key_data == b.cfg.key_data
    &&& a.code_verifier == b.code_verifier
    &&& a.code_challenge == b.code_challenge
    &&& a.state == b.state
    &&& a.code == b.code
}

/// A nonce that is set is the one that the client has from then on. Nothing else changes.
pub proof fn set_nonce_is_kept(client: &mut Oauth2, dpop_nonce: &str)
    requires
        call_ensures(Oauth2::set_dpop_nonce, (client, dpop_nonce), ()),
    ensures
        final(client)@.cfg.dpop_nonce == Some(dpop_nonce@),
        same_but_for_nonce(final(client)@, old(client)@),
{
}

/// The client refreshes with the tokens that it is told to use, and nothing else of it changes.
pub proof fn tokens_are_used(client: &mut Oauth2, tokens: &Tokens)
    requires
        call_ensures(Oauth2::use_tokens, (client, tokens), ()),
    ensures
        final(client)@.cfg.refresh_token == Some(tokens.refresh_token@),
        final(client)@.cfg.dpop_nonce == tokens.dpop_nonce.deep_view(),
        same_but_for_tokens(final(client)@, old(client)@),
{
}

/// Whether two sets of tokens hold the same.
pub open spec fn same_tokens(a: Tokens, b: Tokens) -> bool {
    &&& a.access_token@ == b.access_token@
    &&& a.expires_at.secs == b.expires_at.secs
    &&& a.expires_at.nanos == b.expires_at.nanos
    &&& a.refresh_token@ == b.refresh_token@
    &&& a.refresh_token_expires_at == b.refresh_token_expires_at
    &&& a.scope@ == b.scope@
    &&& a.dpop_nonce.deep_view() == b.dpop_nonce.deep_view()
}

/// A copy of tokens holds the same.
pub proof fn copied_tokens_are_the_same(tokens: &Tokens, copy: Tokens)
    requires
        call_ensures(<Tokens as Clone>::clone, (tokens,), copy),
    ensures
        same_tokens(copy, *tokens),
{
}

/// A refresh renews the access token, its expiry and scope, and the nonce. The refresh token and its
/// expiry stay.
pub proof fn refresh_is_merged_into_tokens(tokens: &mut Tokens, r: &RefreshResult)
    requires
        call_ensures(TokenExchangeResult::merge, (tokens, r), ()),
    ensures
        final(tokens).access_token@ == r.access_token@,
        final(tokens).expires_at == r.expires_at,
        final(tokens).scope@ == r.scope@,
        final(tokens).dpop_nonce.deep_view() == r.dpop_nonce.deep_view(),
        final(tokens).refresh_token@ == old(tokens).refresh_token@,
        final(tokens).refresh_token_expires_at == old(tokens).refresh_token_expires_at,
{
    assert(final(tokens)@.access_token == final(tokens).access_token@);
}

/// What an answer does to a `refresh` flow. If it grants a token, that is the token, and the client
/// stays. The first time that the server wants another nonce, the client keeps that nonce and asks
/// again. Any other answer is an error that hands on what the server said, and the client stays.
pub open spec fn continued(
    before: Oauth2View,
    reply: RefreshReply,
    now: Timestamp,
    after: Oauth2View,
    step: Result<RefreshStep, RefreshError>,
) -> bool {
    match reply.answer {
        Ok(r) => {
            &&& after == before
            &&& step matches Ok(RefreshStep::Done(token)) && renews(
                token,
                r,
                reply.dpop_nonce,
                before.cfg.dpop_nonce,
                now,
            )
        },
        Err(e) => if wants_nonce(reply.answer, reply.dpop_nonce) && reply.stage
            == RefreshStage::First {
            &&& after.cfg.dpop_nonce == Some(reply.dpop_nonce->0@)
            &&& same_but_for_nonce(after, before)
            &&& match step {
                Ok(RefreshStep::SendAgain { request, stage, error_description }) => stage
                    == RefreshStage::Retry && error_description@ == e.error_description@
                    && asked_anew(after, Ok(request)),
                Err(RefreshError::Request(e)) => asked_anew(after, Err(e)),
                _ => false,
            }
        } else {
            &&& after == before
            &&& step matches Err(RefreshError::Response(e)) && hands_on(
                e,
                reply.answer,
                reply.dpop_nonce,
            )
        },
    }
}

/// What the library says of an answer in a `refresh` flow, in full.
pub(crate) proof fn lemma_continued(
    before: Oauth2View,
    reply: RefreshReply,
    now: Timestamp,
    after: Oauth2View,
    step: Result<RefreshStep, RefreshError>,
)
    requires
        refresh::lasting_reply(reply),
        now.secs <= i64::MAX - u32::MAX,
        refresh::replied(before, reply, now, after, step),
    ensures
        continued(before, reply, now, after, step),
{
    match step {
        Ok(RefreshStep::SendAgain { request, .. }) => {
            if wants_nonce(reply.answer, reply.dpop_nonce) && reply.stage == RefreshStage::First {
                lemma_anew(after, Ok(request));
            }
        },
        Err(RefreshError::Request(e)) => {
            if wants_nonce(reply.answer, reply.dpop_nonce) && reply.stage == RefreshStage::First {
                lemma_anew(after, Err(e));
            }
        },
        _ => {},
    }
}

/// A `refresh` flow ends with the token that is granted, asks once more with the nonce that the server
/// wants, or fails with what the server said.
pub proof fn refresh_flow_goes_on(
    client: &mut Oauth2,
    reply: RefreshReply,
    now: Timestamp,
    step: Result<RefreshStep, RefreshError>,
)
    requires
        reply.answer matches Ok(r) ==> r.expires_in >= 5,
        now.secs <= i64::MAX - u32::MAX,
        call_ensures(Oauth2::refresh_continue_at, (client, reply, now), step),
    ensures
        continued(old(client)@, reply, now, final(client)@, step),
{
    lemma_continued(old(client)@, reply, now, final(client)@, step);
}

/// A `refresh` flow goes on so, as of an instant that has been read from the clock.
pub proof fn refresh_flow_goes_on_now(
    client: &mut Oauth2,
    reply: RefreshReply,
    step: Result<RefreshStep, RefreshError>,
)
    requires
        reply.answer matches Ok(r) ==> r.expires_in >= 5,
        call_ensures(Oauth2::refresh_continue, (client, reply), step),
    ensures
        exists|now: Timestamp| #[trigger]
            clock::was_read(now) && continued(old(client)@, reply, now, final(client)@, step),
{
    let before = old(client)@;
    let after = final(client)@;
    let now = choose|now: Timestamp|
        clock::was_read(now) && clock::is_reading(now) && #[trigger] refresh::replied(
            before,
            reply,
            now,
            after,
            step,
        );
    lemma_continued(before, reply, now, after, step);
}

} // verus!
