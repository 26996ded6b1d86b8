//! What holds of the library as a whole.

use vstd::prelude::*;

use crate::cli;
use crate::cli::OutputView;
use crate::client;
use crate::client::{AuthResponse, CfgView, Oauth2View, TokenRequest};
use crate::client_info::ClientInfo;
use crate::clock;
use crate::clock::Timestamp;
use crate::dpop;
use crate::dpop::{KeyData, KeyDataView, KeypairPemPkcs8, KeypairView};
use crate::error::{Failure, Oauth2Error};
use crate::keys;
use crate::refresh;
use crate::refresh::{RefreshError, RefreshReply, RefreshStage, RefreshStep};
use crate::simple;
use crate::simple::{
    Action, Cfg, Event, FollowUp, SimpleError, SimpleFailure, SimpleView,
};
use crate::tokens;
use crate::tokens::{ExchangeResponse, RefreshResultView, Tokens, TokensView};
use crate::url;

verus! {

/// A response whose state is not the one that was sent is refused: no request comes of it, and the
/// client stays as it was.
pub proof fn foreign_state_is_refused(
    before: Oauth2View,
    r: AuthResponse,
    iat: int,
    after: Oauth2View,
    request: Result<TokenRequest, Oauth2Error>,
)
    requires
        client::exchanged(before, r, iat, after, request),
        before.state != Some(r.state@),
    ensures
        after == before,
        request is Err,
{
}

/// A response whose scope is not the one that was asked for is refused: no request comes of it, and
/// the client stays as it was.
pub proof fn foreign_scope_is_refused(
    before: Oauth2View,
    r: AuthResponse,
    iat: int,
    after: Oauth2View,
    request: Result<TokenRequest, Oauth2Error>,
)
    requires
        client::exchanged(before, r, iat, after, request),
        before.cfg.scope != Some(r.scope@),
    ensures
        after == before,
        request is Err,
{
}

/// If the user was shown a URL, a response that brings back the state of that URL and the scope
/// leads to a request. It carries the code of the response, the verifier whose hash the URL has as
/// its challenge, and the same redirect URI as the URL.
pub proof fn honest_response_is_exchanged(
    client: Oauth2View,
    code_verifier: Seq<char>,
    state: Seq<char>,
    url: Seq<char>,
    r: AuthResponse,
    iat: int,
    after: Oauth2View,
    request: Result<TokenRequest, Oauth2Error>,
)
    requires
        client::auth_url(client::with_secrets(client, code_verifier, state)) == Ok::<
            Seq<char>,
            Failure,
        >(url),
        r.state@ == state,
        client.cfg.scope == Some(r.scope@),
        client::exchanged(
            client::with_secrets(client, code_verifier, state),
            r,
            iat,
            after,
            request,
        ),
    ensures
        client.cfg.auth_server_url is Some,
        client.cfg.listen_port is Some,
        url::url_with_params(
            client.cfg.auth_server_url->0,
            client::auth_params(
                client.cfg.client_id,
                client.cfg.listen_port->0,
                r.scope@,
                client::challenge(code_verifier),
                state,
            ),
        ) == Ok::<Seq<char>, Seq<char>>(url),
        request matches Ok(q) && q@.url == client.cfg.token_server_url && q@.form
            == client::exchange_form(
            client.cfg,
            r.code@,
            code_verifier,
            client.cfg.listen_port->0,
        ),
{
}

/// A request that comes of a response after a URL was shown answers that URL: the response has the
/// state and the scope of the URL, and the request has its client ID and its redirect URI, the code
/// of the response, and the verifier whose hash is the challenge of the URL.
pub proof fn exchange_answers_the_shown_url(
    before: Oauth2View,
    shown: Oauth2View,
    url: String,
    listen_port: u16,
    r: AuthResponse,
    iat: int,
    after: Oauth2View,
    request: TokenRequest,
)
    requires
        client::drawn_auth_step(before, shown, Ok((url, listen_port))),
        client::exchanged(shown, r, iat, after, Ok(request)),
    ensures
        before.cfg.auth_server_url is Some,
        shown.code_verifier is Some,
        url::url_with_params(
            before.cfg.auth_server_url->0,
            client::auth_params(
                before.cfg.client_id,
                listen_port,
                r.scope@,
                client::challenge(shown.code_verifier->0),
                r.state@,
            ),
        ) == Ok::<Seq<char>, Seq<char>>(url@),
        request@.url == before.cfg.token_server_url,
        request@.form == client::exchange_form(
            before.cfg,
            r.code@,
            shown.code_verifier->0,
            listen_port,
        ),
{
}

/// Only a response to the latest URL leads to a request: one with the state of a URL that was shown
/// before it, if the states differ, is refused and changes nothing.
pub proof fn only_the_latest_url_is_answered(
    start: Oauth2View,
    first: Oauth2View,
    first_step: (String, u16),
    second: Oauth2View,
    second_step: (String, u16),
    r: AuthResponse,
    iat: int,
    after: Oauth2View,
    request: Result<TokenRequest, Oauth2Error>,
)
    requires
        client::drawn_auth_step(start, first, Ok(first_step)),
        client::drawn_auth_step(first, second, Ok(second_step)),
        first.state != second.state,
        first.state == Some(r.state@),
        client::exchanged(second, r, iat, after, request),
    ensures
        request matches Err(e) && e@ == (Failure::StateMismatch {
            received: r.state@,
            expected: second.state->0,
        }),
        after == second,
{
}

/// The URL for the user tells nothing of the verifier but its challenge, and nothing of the code, the
/// client secret, the refresh token or the key: clients that differ in these alone show the same URL,
/// or fail in the same way.
pub proof fn auth_url_tells_no_secret(a: Oauth2View, b: Oauth2View)
    requires
        a.cfg.auth_server_url == b.cfg.auth_server_url,
        a.cfg.client_id == b.cfg.client_id,
        a.cfg.listen_port == b.cfg.listen_port,
        a.cfg.scope == b.cfg.scope,
        a.code_challenge == b.code_challenge,
        a.state == b.state,
    ensures
        client::auth_url(a) == client::auth_url(b),
        client::auth_url_fits(a) == client::auth_url_fits(b),
{
}

/// A request to the token server carries a DPoP if and only if the client has a key to sign it
/// with, and that DPoP is for the URL that the request goes to.
pub proof fn requests_carry_dpop_iff_key(
    client: Oauth2View,
    jti: Seq<char>,
    iat: int,
)
    ensures
        client::exchange_request(client, iat) matches Ok(q) ==> {
            &&& q.dpop is Some <==> client.cfg.key_data is Some
            &&& q.dpop matches Some(d) ==> client.code matches Some(code) && d == dpop::dpop(
                client.cfg.key_data->0,
                q.url,
                None,
                dpop::auth_jti(code),
                iat,
            )
        },
        client::refresh_request(client, jti, iat) matches Ok(q) ==> {
            &&& q.dpop is Some <==> client.cfg.key_data is Some
            &&& q.dpop matches Some(d) ==> d == dpop::dpop(
                client.cfg.key_data->0,
                q.url,
                client.cfg.dpop_nonce,
                jti,
                iat,
            )
        },
{
}

/// Whether the challenge of a client is that of its verifier.
pub open spec fn challenge_matches(client: Oauth2View) -> bool {
    client.code_challenge == match client.code_verifier {
        Some(code_verifier) => Some(client::challenge(code_verifier)),
        None => None,
    }
}

/// The challenge of a client is that of its verifier at the start, and every step keeps it so.
pub proof fn challenge_is_always_that_of_the_verifier(
    cfg: CfgView,
    before: Oauth2View,
    after: Oauth2View,
    url_step: Result<(String, u16), Oauth2Error>,
    r: AuthResponse,
    iat: int,
    request: Result<TokenRequest, Oauth2Error>,
    reply: RefreshReply,
    now: Timestamp,
    refresh_step: Result<RefreshStep, RefreshError>,
    nonce: Option<Seq<char>>,
    tokens: TokensView,
)
    requires
        challenge_matches(before),
    ensures
        challenge_matches(client::unused(cfg)),
        client::drawn_auth_step(before, after, url_step) ==> challenge_matches(after),
        client::exchanged(before, r, iat, after, request) ==> challenge_matches(after),
        refresh::replied(before, reply, now, after, refresh_step) ==> challenge_matches(after),
        challenge_matches(client::with_nonce(before, nonce)),
        challenge_matches(client::with_tokens(before, tokens)),
{
}

/// A `refresh` flow makes at most two requests: no answer to the second one leads to another.
pub proof fn retry_happens_at_most_once(
    before: Oauth2View,
    reply: RefreshReply,
    now: Timestamp,
    after: Oauth2View,
    step: Result<RefreshStep, RefreshError>,
)
    requires
        refresh::replied(before, reply, now, after, step),
        reply.stage == RefreshStage::Retry,
    ensures
        !(step matches Ok(RefreshStep::SendAgain { .. })),
        after == before,
{
}

/// The second request of a `refresh` flow is made only for a `use_dpop_nonce` error. It differs
/// from the first in its DPoP alone, which has the nonce that came with the error.
pub proof fn retry_carries_the_nonce_of_the_server(
    before: Oauth2View,
    first: TokenRequest,
    reply: RefreshReply,
    now: Timestamp,
    after: Oauth2View,
    request: TokenRequest,
    stage: RefreshStage,
    error_description: String,
)
    requires
        client::fresh_refresh_request(before, Ok(first)),
        refresh::replied(
            before,
            reply,
            now,
            after,
            Ok(RefreshStep::SendAgain { request, stage, error_description }),
        ),
    ensures
        reply.stage == RefreshStage::First,
        stage == RefreshStage::Retry,
        reply.dpop_nonce is Some,
        reply.answer matches Err(e) && e.error@ == "use_dpop_nonce"@,
        request@.url == first@.url,
        request@.form == first@.form,
        before.cfg.key_data matches Some(key) ==> exists|jti: Seq<char>, sent: Timestamp|
            clock::was_read(sent) && dpop::is_drawn_jti(jti) && clock::is_reading(sent)
                && dpop::is_random_jti(jti) && request@.dpop == Some(
                #[trigger] dpop::dpop(
                    key,
                    request@.url,
                    Some(reply.dpop_nonce->0@),
                    jti,
                    sent.secs as int,
                ),
            ),
{
    let (jti, sent) = choose|jti: Seq<char>, sent: Timestamp|
        clock::is_reading(sent) && (after.cfg.refresh_token is Some && after.cfg.key_data is Some
            ==> dpop::is_random_jti(jti) && dpop::is_drawn_jti(jti) && clock::was_read(sent))
            && client::is_request(
            Ok(request),
            #[trigger] client::refresh_request(after, jti, sent.secs as int),
        );
    assert(client::is_request(
        Ok(request),
        client::refresh_request(after, jti, sent.secs as int),
    ));
}

/// A refresh renews the access token and keeps the refresh token, and when it expires.
pub proof fn refresh_keeps_the_refresh_token(tokens: TokensView, r: RefreshResultView)
    ensures
        tokens::merged(tokens, r).access_token == r.access_token,
        tokens::merged(tokens, r).expires_at == r.expires_at,
        tokens::merged(tokens, r).refresh_token == tokens.refresh_token,
        tokens::merged(tokens, r).refresh_token_expires_at == tokens.refresh_token_expires_at,
{
}

/// An instance refreshes with the refresh token that it keeps: it does so at the start, and every
/// step keeps it so.
pub proof fn instance_refreshes_with_its_own_token(
    cfg: Cfg<'_>,
    client_info: ClientInfo,
    tokens: Option<TokensView>,
    key_data: Option<KeyDataView>,
    before: SimpleView,
    event: Event,
    now: Timestamp,
    after: SimpleView,
    action: Result<Action, SimpleError>,
)
    requires
        before.wf(),
    ensures
        simple::created(cfg, client_info, tokens, key_data).wf(),
        simple::init_started(before, after, action) ==> after.wf(),
        simple::token_sought(before, now, after, action) ==> after.wf(),
        simple::advanced(before, event, now, after, action) ==> after.wf(),
{
}

/// Once the token server has granted tokens, the refresh flow can be gone through: its first
/// request carries the refresh token that was granted, and its DPoP the latest nonce. Only for want
/// of random bytes can a request that is to carry a DPoP fail.
pub proof fn refresh_works_after_init(
    before: SimpleView,
    response: ExchangeResponse,
    dpop_nonce: Option<String>,
    now: Timestamp,
    after: SimpleView,
    action: Result<Action, SimpleError>,
    next: Result<Action, SimpleError>,
)
    requires
        simple::advanced(before, Event::Exchanged { response, dpop_nonce }, now, after, action),
        simple::refresh_started(after, next),
    ensures
        match next {
            Ok(Action::Refresh { request, stage }) => {
                &&& stage == RefreshStage::First
                &&& request@.url == before.oauth2.cfg.token_server_url
                &&& request@.form == client::refresh_form(
                    before.oauth2.cfg,
                    response.refresh_token@,
                )
                &&& match before.oauth2.cfg.key_data {
                    Some(key) => exists|jti: Seq<char>, sent: Timestamp|
                        clock::was_read(sent) && dpop::is_drawn_jti(jti) && clock::is_reading(sent)
                            && dpop::is_random_jti(jti) && request@.dpop == Some(
                            #[trigger] dpop::dpop(
                                key,
                                request@.url,
                                tokens::latest_nonce(
                                    dpop_nonce.deep_view(),
                                    before.oauth2.cfg.dpop_nonce,
                                ),
                                jti,
                                sent.secs as int,
                            ),
                        ),
                    None => request@.dpop is None,
                }
            },
            Err(e) => before.oauth2.cfg.key_data is Some && e@ == SimpleFailure::Client(
                Failure::Dpop,
            ),
            _ => false,
        },
{
    if let Ok(Action::Refresh { request, stage: _ }) = next {
        let (jti, sent) = choose|jti: Seq<char>, sent: Timestamp|
            clock::is_reading(sent) && (after.oauth2.cfg.refresh_token is Some
                && after.oauth2.cfg.key_data is Some ==> dpop::is_random_jti(jti)
                && dpop::is_drawn_jti(jti) && clock::was_read(sent)) && client::is_request(
                Ok(request),
                #[trigger] client::refresh_request(after.oauth2, jti, sent.secs as int),
            );
        assert(client::is_request(
            Ok(request),
            client::refresh_request(after.oauth2, jti, sent.secs as int),
        ));
    }
}

/// An initialization flow in which the user authorizes the client and the token server grants
/// tokens ends with those tokens: they are to be saved, and the instance holds them. On the way, the
/// code is exchanged with the verifier behind the challenge of the client.
pub proof fn init_flow_ends_with_the_granted_tokens(
    start: SimpleView,
    shown: SimpleView,
    url: String,
    listen_port: u16,
    r: AuthResponse,
    authorized_at: Timestamp,
    authorized: SimpleView,
    exchange: Result<Action, SimpleError>,
    response: ExchangeResponse,
    dpop_nonce: Option<String>,
    granted_at: Timestamp,
    end: SimpleView,
    last: Result<Action, SimpleError>,
)
    requires
        simple::init_started(start, shown, Ok(Action::Authorize { url, listen_port })),
        shown.oauth2.state == Some(r.state@),
        shown.oauth2.cfg.scope == Some(r.scope@),
        simple::advanced(shown, Event::Authorized(r), authorized_at, authorized, exchange),
        simple::advanced(
            authorized,
            Event::Exchanged { response, dpop_nonce },
            granted_at,
            end,
            last,
        ),
    ensures
        shown.oauth2.code_verifier matches Some(code_verifier) && shown.oauth2.code_challenge
            == Some(client::challenge(code_verifier)) && (exchange matches Ok(
            Action::Exchange(request),
        ) && request@.form == client::exchange_form(
            start.oauth2.cfg,
            r.code@,
            code_verifier,
            listen_port,
        )),
        last matches Ok(Action::Save(saved)) && end.tokens == Some(saved@) && saved@
            == tokens::granted(
            response,
            tokens::latest_nonce(dpop_nonce.deep_view(), start.oauth2.cfg.dpop_nonce),
            granted_at,
        ),
{
}

/// A token that is granted for longer than the margin counts as expired that much earlier than the
/// token server says, and not before it was granted.
pub proof fn tokens_expire_early(now: Timestamp, expires_in: u32)
    requires
        clock::is_reading(now),
        expires_in >= tokens::EXPIRY_MARGIN,
    ensures
        tokens::expiry(now, expires_in).secs + tokens::EXPIRY_MARGIN == now.secs + expires_in,
        tokens::expiry(now, expires_in).nanos == now.nanos,
        !now.after(tokens::expiry(now, expires_in)),
{
}

/// The settings of a client: its config but for the refresh token and the nonce.
pub open spec fn settings(cfg: CfgView) -> CfgView {
    CfgView { refresh_token: None, dpop_nonce: None, ..cfg }
}

/// No step of a flow changes the settings of an instance or the path of its tokens.
pub proof fn flows_keep_the_settings(
    before: SimpleView,
    event: Event,
    now: Timestamp,
    after: SimpleView,
    action: Result<Action, SimpleError>,
)
    requires
        simple::init_started(before, after, action) || simple::token_sought(
            before,
            now,
            after,
            action,
        ) || simple::advanced(before, event, now, after, action),
    ensures
        settings(after.oauth2.cfg) == settings(before.oauth2.cfg),
        after.tokens_path == before.tokens_path,
{
}

/// A flow that ends with tokens to save leaves the instance with the config and the tokens that a
/// new instance has which is given those tokens.
pub proof fn saved_tokens_restore_the_instance(
    cfg: Cfg<'_>,
    client_info: ClientInfo,
    tokens: Option<TokensView>,
    key_data: Option<KeyDataView>,
    before: SimpleView,
    event: Event,
    now: Timestamp,
    after: SimpleView,
    saved: Tokens,
)
    requires
        settings(before.oauth2.cfg) == settings(
            simple::created(cfg, client_info, tokens, key_data).oauth2.cfg,
        ),
        before.tokens_path == cfg.tokens_path@,
        simple::advanced(before, event, now, after, Ok(Action::Save(saved))),
    ensures
        ({
            let restarted = simple::created(cfg, client_info, Some(saved@), key_data);
            &&& restarted.oauth2.cfg == after.oauth2.cfg
            &&& restarted.tokens == after.tokens
            &&& restarted.tokens_path == after.tokens_path
        }),
{
}

/// An access token that is returned without a flow has not expired, and will not for a while. It is
/// the one that was kept.
pub proof fn kept_token_has_not_expired(
    before: SimpleView,
    now: Timestamp,
    after: SimpleView,
    kept: Tokens,
)
    requires
        simple::token_sought(before, now, after, Ok(Action::Keep(kept))),
    ensures
        before.tokens == Some(kept@),
        kept@.expires_at.after(now),
        kept@.expires_at.after_by(now, simple::REFRESH_MARGIN as int),
        after == before,
{
}

/// A token that is got through the initialization flow and returned without a refresh has not
/// expired either.
pub proof fn token_after_init_has_not_expired(
    before: SimpleView,
    started_at: Timestamp,
    shown: SimpleView,
    first: Action,
    end: SimpleView,
    follow_up: FollowUp,
    tokens: TokensView,
    now: Timestamp,
    kept: Tokens,
)
    requires
        before.tokens is None,
        simple::token_sought(before, started_at, shown, Ok(first)),
        follow_up == (if first is Authorize {
            FollowUp::RefreshIfNeeded
        } else {
            FollowUp::Done
        }),
        simple::token_finished(end, follow_up, tokens, now, Ok(Action::Keep(kept))),
    ensures
        end.tokens == Some(kept@),
        kept@.expires_at.after_by(now, simple::REFRESH_MARGIN as int),
{
}

/// Tokens are lost in no step: where there are some, there are still some afterwards, with the same
/// refresh token unless the token server has granted another.
pub proof fn tokens_are_never_lost(
    before: SimpleView,
    event: Event,
    now: Timestamp,
    after: SimpleView,
    action: Result<Action, SimpleError>,
)
    requires
        before.tokens is Some,
    ensures
        simple::init_started(before, after, action) ==> after.tokens == before.tokens,
        simple::advanced(before, event, now, after, action) ==> after.tokens is Some,
        simple::advanced(before, event, now, after, action) && event !is Exchanged
            ==> after.refresh_token() == before.refresh_token(),
{
}

/// Terse output tells of the access token only: nothing else of the tokens shows.
pub proof fn terse_output_shows_the_access_token_only(
    a: TokensView,
    b: TokensView,
    r: RefreshResultView,
    q: RefreshResultView,
    a_time: Seq<char>,
    b_time: Seq<char>,
    a_refresh_time: Option<Seq<char>>,
    b_refresh_time: Option<Seq<char>>,
)
    requires
        a.access_token == b.access_token,
        r.access_token == q.access_token,
    ensures
        cli::shown(true, a) == cli::shown(true, b),
        cli::init_lines(true, a, a_time, a_refresh_time) == cli::init_lines(
            true,
            b,
            b_time,
            b_refresh_time,
        ),
        cli::refresh_lines(true, r, a_time) == cli::refresh_lines(true, q, b_time),
        cli::shown(true, tokens::merged(a, r)) == cli::shown(true, tokens::merged(b, q)),
{
}

/// JSON output that is not terse has all of the tokens.
pub proof fn json_output_is_complete(a: TokensView, b: TokensView)
    requires
        cli::shown(false, a) == cli::shown(false, b),
    ensures
        a == b,
{
}

/// The output in the tokens file after rounds of `refresh`, each of which starts from the output in
/// the file, gets one of `results`, and saves its JSON output, which is not terse.
pub open spec fn after_rounds(file: OutputView, results: Seq<RefreshResultView>) -> OutputView
    decreases results.len(),
{
    if results.len() == 0 {
        file
    } else {
        let before = after_rounds(file, results.drop_last());
        cli::shown(false, tokens::merged(cli::tokens_in(before)->0, results.last()))
    }
}

/// The JSON output of `init`, or of any number of rounds of `refresh` after it, can be refreshed from
/// again, and the request still carries the refresh token that `init` has printed. Its DPoP has the
/// nonce in the file, which is the one of the last round.
pub proof fn refresh_token_survives_any_number_of_rounds(
    granted: TokensView,
    results: Seq<RefreshResultView>,
    client_info: ClientInfo,
    key_data: Option<KeyDataView>,
    jti: Seq<char>,
    iat: int,
)
    ensures
        ({
            let file = after_rounds(cli::shown(false, granted), results);
            &&& file.refresh_token == Some(granted.refresh_token)
            &&& file.refresh_token_expires_at == granted.refresh_token_expires_at
            &&& file.dpop_nonce == if results.len() == 0 {
                granted.dpop_nonce
            } else {
                results.last().dpop_nonce
            }
            &&& cli::tokens_in(file) matches Some(tokens) && cli::shown(false, tokens) == file && {
                let cfg = cli::refreshing(client_info, tokens, key_data);
                &&& cfg.refresh_token == Some(granted.refresh_token)
                &&& cfg.dpop_nonce == file.dpop_nonce
                &&& client::refresh_request(client::unused(cfg), jti, iat) matches Ok(request)
                &&& request.form == client::refresh_form(cfg, granted.refresh_token)
                &&& key_data matches Some(key) ==> request.dpop == Some(
                    dpop::dpop(key, request.url, file.dpop_nonce, jti, iat),
                )
            }
        }),
    decreases results.len(),
{
    if results.len() > 0 {
        refresh_token_survives_any_number_of_rounds(
            granted,
            results.drop_last(),
            client_info,
            key_data,
            jti,
            iat,
        );
    }
}

/// The key data of a keypair whose keys belong together has the coordinates of the public key, each
/// in 32 bytes and both of one point of the curve, and the secret key that this point belongs to.
pub proof fn key_data_has_the_point_of_its_key(keypair: KeypairView)
    requires
        keypair.is_matching(),
    ensures
        keypair.key_data().x.len() == 32,
        keypair.key_data().y.len() == 32,
        keypair.key_data().is_valid(),
        (keypair.key_data().x, keypair.key_data().y) == keypair.public_key,
        keypair.public_key == keys::public_point(keypair.key_data().secret),
{
}

/// A keypair that is read back from its PEM documents is the one that was written.
pub proof fn pem_documents_hold_the_keypair(
    keypair: KeypairView,
    line_ending: Seq<char>,
    pem: KeypairPemPkcs8,
)
    requires
        dpop::pem_outcome(keypair, line_ending, Ok(pem)),
    ensures
        dpop::key_data_in_pem(pem.public_key@, pem.private_key@) == Ok::<KeyDataView, Seq<char>>(
            keypair.key_data(),
        ),
{
}

/// Keys that are generated and saved are in use the same as when they are read again.
pub proof fn generated_keys_can_be_read(
    keypair: KeypairView,
    line_ending: Seq<char>,
    key_data: KeyData,
    pem: KeypairPemPkcs8,
)
    requires
        simple::exported(keypair, line_ending, Ok((key_data, pem))),
    ensures
        dpop::key_data_in_pem(pem.public_key@, pem.private_key@) == Ok::<KeyDataView, Seq<char>>(
            key_data@,
        ),
{
}

} // verus!
