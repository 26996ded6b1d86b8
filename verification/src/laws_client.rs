//! What the calls of the client give, in terms of what they are given.

use rand::rngs::StdRng;
use vstd::prelude::*;

use crate::base64url;
use crate::client;
use crate::client::{AuthResponse, Cfg, Oauth2, Oauth2View, TokenRequest};
use crate::clock;
use crate::clock::Timestamp;
use crate::digest;
use crate::dpop;
use crate::dpop_text;
use crate::error::Oauth2Error;
use crate::random;
use crate::random::Purpose;
use crate::text;
use crate::url;

verus! {

/// A new client has the config that it is given, field by field, and nothing else.
pub proof fn new_client_has_its_config(cfg: Cfg, client: Oauth2)
    requires
        call_ensures(Oauth2::new, (cfg,), client),
    ensures
        client@.cfg.listen_port == cfg.listen_port,
        client@.cfg.client_id == cfg.client_id@,
        client@.cfg.scope == cfg.scope.deep_view(),
        client@.cfg.auth_server_url == cfg.auth_server_url.deep_view(),
        client@.cfg.token_server_url == cfg.token_server_url@,
        client@.cfg.client_secret == cfg.client_secret@,
        client@.cfg.refresh_token == cfg.refresh_token.deep_view(),
        cfg.key_data matches Some(key) ==> client@.cfg.key_data == Some(key@),
        cfg.key_data is None ==> client@.cfg.key_data is None,
        client@.cfg.dpop_nonce == cfg.dpop_nonce.deep_view(),
        client@.code_verifier is None,
        client@.code_challenge is None,
        client@.state is None,
        client@.code is None,
{
}

/// The characters that a code verifier is made of.
pub open spec fn unreserved() -> Seq<char> {
    "ABCDEFGHIJKLMNOPQRSTUVWXYZabcdefghijklmnopqrstuvwxyz0123456789-._~"@
}

/// Each number that has been drawn picks a character of a code verifier: the one at the place that is
/// left when the number is divided by 66.
pub proof fn verifier_is_picked_by_numbers(words: &Vec<u32>, verifier: String)
    requires
        call_ensures(client::write_verifier, (words,), verifier),
    ensures
        verifier@.len() == words@.len(),
        forall|i: int|
            0 <= i < words@.len() ==> #[trigger] verifier@[i] == unreserved()[words@[i] as int % 66],
{
}

/// Whether `text` was picked by 128 numbers that have been drawn one after the other from one
/// generator, which was seeded for the given purpose.
pub open spec fn is_drawn(text: Seq<char>, purpose: Purpose) -> bool {
    exists|words: Seq<u32>, rngs: Seq<StdRng>|
        text.len() == 128 && #[trigger] words.len() == 128 && #[trigger] rngs.len() == 129
            && random::was_seeded(rngs[0], purpose) && forall|i: int|
            0 <= i < 128 ==> random::was_drawn_word(rngs[i], words[i], rngs[i + 1])
                && #[trigger] text[i] == unreserved()[words[i] as int % 66]
}

/// What the library says of a verifier that has been drawn is that.
proof fn lemma_drawn(text: Seq<char>, purpose: Purpose)
    requires
        client::is_drawn_verifier(text, purpose),
    ensures
        is_drawn(text, purpose),
{
    let words = choose|words: Seq<u32>|
        words.len() == client::CODE_VERIFIER_LEN && random::were_drawn(words, purpose) && text
            == #[trigger] client::verifier_text(words);
    let rngs = choose|rngs: Seq<StdRng>| #[trigger]
        rngs.len() == words.len() + 1 && random::was_seeded(rngs[0], purpose) && random::is_run(
            rngs,
            words,
        );
    assert forall|i: int| 0 <= i < 128 implies random::was_drawn_word(
        rngs[i],
        words[i],
        rngs[i + 1],
    ) && #[trigger] text[i] == unreserved()[words[i] as int % 66] by {
        assert(random::was_drawn_word(rngs[i], words[i], rngs[i + 1]));
    }
    assert(words.len() == 128 && rngs.len() == 129);
}

/// A code verifier has 128 characters, each picked by a number that has been drawn. Only for want of
/// random bytes is there none.
pub proof fn verifier_has_been_drawn(client: &Oauth2, verifier: Result<String, Oauth2Error>)
    requires
        call_ensures(Oauth2::create_code_verifier, (client,), verifier),
    ensures
        match verifier {
            Ok(v) => is_drawn(v@, Purpose::CodeVerifier),
            Err(e) => e is Entropy,
        },
{
    if let Ok(v) = verifier {
        lemma_drawn(v@, Purpose::CodeVerifier);
    }
}

/// The challenge that is created is the Base64URL encoding of the SHA-256 digest of the verifier,
/// whatever the verifier is. Without a verifier there is none.
pub proof fn challenge_is_the_digest_of_the_verifier(
    client: &Oauth2,
    challenge: Result<String, Oauth2Error>,
)
    requires
        call_ensures(Oauth2::create_code_challenge, (client,), challenge),
    ensures
        client@.code_verifier matches Some(v) ==> (challenge matches Ok(c) && c@
            == base64url::base64url(digest::sha256(text::utf8(v))) && c@.len() == 43),
        client@.code_verifier is None ==> challenge matches Err(Oauth2Error::CodeVerifierIsNone),
{
}

/// Whether `params` ask for an authorization: the seven parameters of the request, in order.
pub open spec fn is_auth_query(
    params: Seq<(Seq<char>, Seq<char>)>,
    client_id: Seq<char>,
    port: u16,
    scope: Seq<char>,
    challenge: Seq<char>,
    state: Seq<char>,
) -> bool {
    &&& params.len() == 7
    &&& params[0] == ("client_id"@, client_id)
    &&& params[1].0 == "redirect_uri"@
    &&& is_redirect_uri(params[1].1, port)
    &&& params[2] == ("response_type"@, "code"@)
    &&& params[3] == ("scope"@, scope)
    &&& params[4] == ("code_challenge"@, challenge)
    &&& params[5] == ("code_challenge_method"@, "S256"@)
    &&& params[6] == ("state"@, state)
}

/// Whether `uri` is the URI of the local server on `port`.
pub open spec fn is_redirect_uri(uri: Seq<char>, port: u16) -> bool {
    let start = "http://localhost:"@;
    &&& uri.len() > start.len()
    &&& uri.take(start.len() as int) == start
    &&& text::is_numeral(uri.skip(start.len() as int))
    &&& text::number(uri.skip(start.len() as int)) == port
}

/// The redirect URI is the URI of the local server.
proof fn lemma_redirect_uri(port: u16)
    ensures
        is_redirect_uri(client::redirect_uri(port), port),
{
    let start = "http://localhost:"@;
    let uri = client::redirect_uri(port);
    text::numerals_stand_for_their_numbers(port as nat, 0);
    assert(uri.take(start.len() as int) =~= start);
    assert(uri.skip(start.len() as int) =~= text::decimal(port as nat));
}

/// Whether `url` is the auth server's URL with the parameters that ask for an authorization.
pub open spec fn asks_for(
    url: Seq<char>,
    base: Seq<char>,
    client_id: Seq<char>,
    port: u16,
    scope: Seq<char>,
    challenge: Seq<char>,
    state: Seq<char>,
) -> bool {
    exists|params: Seq<(Seq<char>, Seq<char>)>|
        #![trigger url::url_with_params(base, params)]
        url::url_with_params(base, params) == Ok::<Seq<char>, Seq<char>>(url) && is_auth_query(
            params,
            client_id,
            port,
            scope,
            challenge,
            state,
        )
}

/// Whether making the URL for the user fails with `e`: the first of the parts that is missing, in the
/// order of the parameters, or what is wrong with the auth server's URL.
pub open spec fn lacks(client: Oauth2View, e: Oauth2Error) -> bool {
    if client.cfg.auth_server_url is None {
        e is AuthServerUrlIsNone
    } else if client.cfg.listen_port is None {
        e is ListenPortIsNone
    } else if client.cfg.scope is None {
        e is ScopeIsNone
    } else if client.code_challenge is None {
        e is CodeChallengeIsNone
    } else if client.state is None {
        e is StateIsNone
    } else {
        e matches Oauth2Error::Url(reason) && exists|params: Seq<(Seq<char>, Seq<char>)>|
            #![trigger url::url_with_params(client.cfg.auth_server_url->0, params)]
            url::url_with_params(client.cfg.auth_server_url->0, params) == Err::<
                Seq<char>,
                Seq<char>,
            >(reason@) && is_auth_query(
                params,
                client.cfg.client_id,
                client.cfg.listen_port->0,
                client.cfg.scope->0,
                client.code_challenge->0,
                client.state->0,
            )
    }
}

/// What the library says of the URL for the user, in full.
proof fn lemma_auth_url(client: Oauth2View)
    ensures
        client::auth_url(client) matches Ok(url) ==> {
            &&& client.cfg.auth_server_url is Some
            &&& client.cfg.listen_port is Some
            &&& client.cfg.scope is Some
            &&& client.code_challenge is Some
            &&& client.state is Some
            &&& asks_for(
                url,
                client.cfg.auth_server_url->0,
                client.cfg.client_id,
                client.cfg.listen_port->0,
                client.cfg.scope->0,
                client.code_challenge->0,
                client.state->0,
            )
        },
        forall|e: Oauth2Error|
            client::auth_url(client) is Err && #[trigger] e@ == client::auth_url(client)->Err_0
                ==> lacks(client, e),
{
    if client.cfg.auth_server_url is Some && client.cfg.listen_port is Some
        && client.cfg.scope is Some && client.code_challenge is Some && client.state is Some {
        let port = client.cfg.listen_port->0;
        lemma_redirect_uri(port);
        let params = client::auth_params(
            client.cfg.client_id,
            port,
            client.cfg.scope->0,
            client.code_challenge->0,
            client.state->0,
        );
        assert(is_auth_query(
            params,
            client.cfg.client_id,
            port,
            client.cfg.scope->0,
            client.code_challenge->0,
            client.state->0,
        ));
        let outcome = url::url_with_params(client.cfg.auth_server_url->0, params);
        assert(outcome is Ok || outcome is Err);
    }
}

/// The URL for the user is the auth server's URL with exactly the parameters of the request: the
/// client ID, the URI of the local server, the scope, the challenge, its method, and the state. What
/// is missing first is the error.
pub proof fn auth_url_carries_the_request(client: &Oauth2, url: Result<String, Oauth2Error>)
    requires
        call_ensures(Oauth2::get_auth_request_url, (client,), url),
    ensures
        match url {
            Ok(u) => {
                &&& client@.cfg.auth_server_url matches Some(base)
                &&& client@.cfg.listen_port matches Some(port)
                &&& client@.cfg.scope matches Some(scope)
                &&& client@.code_challenge matches Some(challenge)
                &&& client@.state matches Some(state)
                &&& asks_for(u@, base, client@.cfg.client_id, port, scope, challenge, state)
            },
            Err(e) => lacks(client@, e),
        },
{
    lemma_auth_url(client@);
    if let Err(e) = url {
        assert(e@ == client::auth_url(client@)->Err_0);
    }
}

/// The first step of the `auth` flow with a given verifier and state keeps both, and the digest of the
/// verifier as the challenge, and shows the URL that asks with that digest and that state. Nothing
/// else of the client changes.
pub proof fn auth_step_shows_the_digest_of_the_verifier(
    client: &mut Oauth2,
    code_verifier: String,
    state: String,
    step: Result<(String, u16), Oauth2Error>,
)
    requires
        call_ensures(Oauth2::auth_get_url_with, (client, code_verifier, state), step),
    ensures
        final(client)@.code_verifier == Some(code_verifier@),
        final(client)@.code_challenge == Some(
            base64url::base64url(digest::sha256(text::utf8(code_verifier@))),
        ),
        final(client)@.state == Some(state@),
        final(client)@.cfg == old(client)@.cfg,
        final(client)@.code == old(client)@.code,
        match step {
            Ok((u, port)) => {
                &&& old(client)@.cfg.listen_port == Some(port)
                &&& old(client)@.cfg.auth_server_url matches Some(base)
                &&& old(client)@.cfg.scope matches Some(scope)
                &&& asks_for(
                    u@,
                    base,
                    old(client)@.cfg.client_id,
                    port,
                    scope,
                    base64url::base64url(digest::sha256(text::utf8(code_verifier@))),
                    state@,
                )
            },
            Err(e) => lacks(final(client)@, e),
        },
{
    lemma_auth_url(final(client)@);
    if let Err(e) = step {
        assert(e@ == client::auth_url(final(client)@)->Err_0);
    }
}

/// What the first step of the `auth` flow does. It draws a verifier and a state of 128 characters each,
/// and shows the URL whose challenge is the digest of that verifier and whose state is that state.
/// Nothing else of the client changes. Where there are no random bytes, the state stays, and any new
/// challenge is that of the verifier.
pub open spec fn shown(
    before: Oauth2View,
    after: Oauth2View,
    step: Result<(String, u16), Oauth2Error>,
) -> bool {
    &&& after.cfg == before.cfg
    &&& after.code == before.code
    &&& match step {
        Ok((u, port)) => {
            &&& after.code_verifier matches Some(v)
            &&& after.state matches Some(state)
            &&& is_drawn(v, Purpose::CodeVerifier)
            &&& is_drawn(state, Purpose::State)
            &&& after.code_challenge == Some(
                base64url::base64url(digest::sha256(text::utf8(v))),
            )
            &&& before.cfg.listen_port == Some(port)
            &&& before.cfg.auth_server_url matches Some(base)
            &&& before.cfg.scope matches Some(scope)
            &&& asks_for(
                u@,
                base,
                before.cfg.client_id,
                port,
                scope,
                base64url::base64url(digest::sha256(text::utf8(v))),
                state,
            )
        },
        Err(Oauth2Error::Entropy(_)) => {
            &&& after.state == before.state
            &&& after == before || (after.code_verifier matches Some(v) && is_drawn(
                v,
                Purpose::CodeVerifier,
            )
                && after.code_challenge == Some(
                base64url::base64url(digest::sha256(text::utf8(v))),
            ))
        },
        Err(e) => {
            &&& after.code_verifier matches Some(v)
            &&& after.state matches Some(state)
            &&& is_drawn(v, Purpose::CodeVerifier)
            &&& is_drawn(state, Purpose::State)
            &&& after.code_challenge == Some(
                base64url::base64url(digest::sha256(text::utf8(v))),
            )
            &&& lacks(after, e)
        },
    }
}

/// What the library says of the first step of the `auth` flow, in full.
pub(crate) proof fn lemma_shown(
    before: Oauth2View,
    after: Oauth2View,
    step: Result<(String, u16), Oauth2Error>,
)
    requires
        client::drawn_auth_step(before, after, step),
    ensures
        shown(before, after, step),
{
    lemma_auth_url(after);
    match step {
        Err(Oauth2Error::Entropy(_)) => {
            if after != before {
                let v = choose|v: Seq<char>|
                    client::is_code_verifier(v) && client::is_drawn_verifier(
                        v,
                        Purpose::CodeVerifier,
                    ) && after == (Oauth2View {
                        code_verifier: Some(v),
                        code_challenge: Some(#[trigger] client::challenge(v)),
                        ..before
                    });
                lemma_drawn(v, Purpose::CodeVerifier);
            }
        },
        _ => {
            let (v, s) = choose|v: Seq<char>, s: Seq<char>|
                client::is_code_verifier(v) && client::is_drawn_verifier(v, Purpose::CodeVerifier)
                    && client::is_code_verifier(s) && client::is_drawn_verifier(s, Purpose::State)
                    && after == #[trigger] client::with_secrets(before, v, s);
            lemma_drawn(v, Purpose::CodeVerifier);
            lemma_drawn(s, Purpose::State);
            if let Err(e) = step {
                assert(e@ == client::auth_url(after)->Err_0);
            }
        },
    }
}

/// The first step of the `auth` flow shows the URL whose challenge is the digest of the verifier that
/// it has drawn.
pub proof fn shown_url_has_the_digest_of_the_drawn_verifier(
    client: &mut Oauth2,
    step: Result<(String, u16), Oauth2Error>,
)
    requires
        call_ensures(Oauth2::auth_get_url_and_listen, (client,), step),
    ensures
        shown(old(client)@, final(client)@, step),
{
    lemma_shown(old(client)@, final(client)@, step);
}

/// Whether `field` has the given name and value.
pub open spec fn has(field: (String, String), name: Seq<char>, value: Seq<char>) -> bool {
    field.0@ == name && field.1@ == value
}

/// Whether a request carries a DPoP by the key of the client for the token server, the given nonce,
/// identifier and time, if the client has a key, and otherwise none.
pub open spec fn proves_possession(
    request: TokenRequest,
    client: Oauth2View,
    nonce: Option<Seq<char>>,
    jti: Seq<char>,
    iat: int,
) -> bool {
    match client.cfg.key_data {
        Some(key) => request.dpop matches Some(d) && dpop_text::is_proof(
            d@,
            key.x,
            key.y,
            key.secret,
            client.cfg.token_server_url,
            nonce,
            jti,
            iat,
        ),
        None => request.dpop is None,
    }
}

/// What the library says of the DPoP of a request, in full.
pub(crate) proof fn lemma_possession(
    request: TokenRequest,
    client: Oauth2View,
    nonce: Option<Seq<char>>,
    jti: Seq<char>,
    iat: int,
)
    requires
        match client.cfg.key_data {
            Some(key) => request.dpop matches Some(d) && d@ == dpop::dpop(
                key,
                client.cfg.token_server_url,
                nonce,
                jti,
                iat,
            ),
            None => request.dpop is None,
        },
    ensures
        proves_possession(request, client, nonce, jti, iat),
{
    if let Some(key) = client.cfg.key_data {
        dpop_text::dpop_reads_in_full(key, client.cfg.token_server_url, nonce, jti, iat);
    }
}

/// Whether a request exchanges a code: it goes to the token server with exactly six fields, which are
/// the client ID, the code, the verifier, the grant type, the URI of the local server and the client
/// secret, and with a DPoP for the code and the time if there is a key.
pub open spec fn exchanges(
    request: TokenRequest,
    client: Oauth2View,
    code: Seq<char>,
    code_verifier: Seq<char>,
    port: u16,
    iat: int,
) -> bool {
    let form = request.form@;
    &&& request.url@ == client.cfg.token_server_url
    &&& form.len() == 6
    &&& has(form[0], "client_id"@, client.cfg.client_id)
    &&& has(form[1], "code"@, code)
    &&& has(form[2], "code_verifier"@, code_verifier)
    &&& has(form[3], "grant_type"@, "authorization_code"@)
    &&& form[4].0@ == "redirect_uri"@
    &&& is_redirect_uri(form[4].1@, port)
    &&& has(form[5], "client_secret"@, client.cfg.client_secret)
    &&& proves_possession(
        request,
        client,
        None,
        base64url::base64url(digest::sha256(text::utf8(code))),
        iat,
    )
}

/// What the library says of an exchange request, in full.
proof fn lemma_exchange(client: Oauth2View, iat: int, request: Result<TokenRequest, Oauth2Error>)
    requires
        client::is_request(request, client::exchange_request(client, iat)),
    ensures
        exchange_outcome(client, iat, request),
{
    if let Ok(q) = request {
        lemma_redirect_uri(client.cfg.listen_port->0);
        lemma_possession(
            q,
            client,
            None,
            base64url::base64url(digest::sha256(text::utf8(client.code->0))),
            iat,
        );
        lemma_fields(q);
    }
}

/// The fields of a request are those of its view.
pub(crate) proof fn lemma_fields(request: TokenRequest)
    ensures
        request@.form.len() == request.form@.len(),
        forall|i: int|
            0 <= i < request.form@.len() ==> #[trigger] request.form@[i].0@ == request@.form[i].0
                && request.form@[i].1@ == request@.form[i].1,
{
}

/// What making an exchange request comes to: the request, or what is missing first.
pub open spec fn exchange_outcome(
    client: Oauth2View,
    iat: int,
    request: Result<TokenRequest, Oauth2Error>,
) -> bool {
    match request {
        Ok(q) => {
            &&& client.code matches Some(code)
            &&& client.code_verifier matches Some(code_verifier)
            &&& client.cfg.listen_port matches Some(port)
            &&& exchanges(q, client, code, code_verifier, port, iat)
        },
        Err(e) => if client.code is None {
            e is CodeIsNone
        } else if client.code_verifier is None {
            e is CodeVerifierIsNone
        } else {
            client.cfg.listen_port is None && e is ListenPortIsNone
        },
    }
}

/// A request that is made for a code exchanges that code, with the verifier of the client.
pub proof fn exchange_request_carries_code_and_verifier(
    client: &Oauth2,
    iat: i64,
    request: Result<TokenRequest, Oauth2Error>,
)
    requires
        call_ensures(Oauth2::get_exchange_request_at, (client, iat), request),
    ensures
        exchange_outcome(client@, iat as int, request),
{
    lemma_exchange(client@, iat as int, request);
}

/// A request that is made for a code exchanges that code. If it carries a DPoP, its time has been read
/// from the clock.
pub proof fn exchange_request_has_the_time_of_the_clock(
    client: &Oauth2,
    request: Result<TokenRequest, Oauth2Error>,
)
    requires
        call_ensures(Oauth2::get_exchange_request, (client,), request),
    ensures
        exists|now: Timestamp| #[trigger]
            clock::is_reading(now) && (client@.cfg.key_data is Some ==> clock::was_read(now))
                && exchange_outcome(client@, now.secs as int, request),
{
    let now = choose|now: Timestamp| #[trigger]
        clock::is_reading(now) && (client@.cfg.key_data is Some ==> clock::was_read(now))
            && client::is_request(request, client::exchange_request(client@, now.secs as int));
    lemma_exchange(client@, now.secs as int, request);
}

/// Whether a response is answered as it should be. One with another state than the one that was sent
/// is refused, and so is one with another scope than the one that was asked for, and nothing changes.
/// Of any other, the code is kept and exchanged.
pub open spec fn answered(
    before: Oauth2View,
    r: AuthResponse,
    iat: int,
    after: Oauth2View,
    request: Result<TokenRequest, Oauth2Error>,
) -> bool {
    if before.state is None {
        after == before && request matches Err(Oauth2Error::StateIsNone)
    } else if before.state->0 != r.state@ {
        after == before && (request matches Err(Oauth2Error::StateMismatch { received, expected })
            && received@ == r.state@ && Some(expected@) == before.state)
    } else if before.cfg.scope is None {
        after == before && request matches Err(Oauth2Error::ScopeIsNone)
    } else if before.cfg.scope->0 != r.scope@ {
        after == before && (request matches Err(Oauth2Error::ScopeMismatch { received, expected })
            && received@ == r.scope@ && Some(expected@) == before.cfg.scope)
    } else {
        &&& after.code == Some(r.code@)
        &&& after.cfg == before.cfg
        &&& after.code_verifier == before.code_verifier
        &&& after.code_challenge == before.code_challenge
        &&& after.state == before.state
        &&& exchange_outcome(after, iat, request)
    }
}

/// What the library says of the answer to a response, in full.
pub(crate) proof fn lemma_answered(
    before: Oauth2View,
    r: AuthResponse,
    iat: int,
    after: Oauth2View,
    request: Result<TokenRequest, Oauth2Error>,
)
    requires
        client::exchanged(before, r, iat, after, request),
    ensures
        answered(before, r, iat, after, request),
{
    if client::refusal(before, r.state@, r.scope@) is None {
        lemma_exchange(after, iat, request);
    }
}

/// A response is answered as it should be.
pub proof fn response_is_checked_and_exchanged(
    client: &mut Oauth2,
    r: AuthResponse,
    iat: i64,
    request: Result<TokenRequest, Oauth2Error>,
)
    requires
        call_ensures(Oauth2::auth_exchange_at, (client, r, iat), request),
    ensures
        answered(old(client)@, r, iat as int, final(client)@, request),
{
    lemma_answered(old(client)@, r, iat as int, final(client)@, request);
}

/// A response is answered as it should be. If the request carries a DPoP, its time has been read from
/// the clock.
pub proof fn response_is_exchanged_at_the_time_of_the_clock(
    client: &mut Oauth2,
    r: AuthResponse,
    request: Result<TokenRequest, Oauth2Error>,
)
    requires
        call_ensures(Oauth2::auth_exchange, (client, r), request),
    ensures
        exists|now: Timestamp| #[trigger]
            clock::is_reading(now) && (old(client)@.cfg.key_data is Some ==> clock::was_read(now))
                && answered(old(client)@, r, now.secs as int, final(client)@, request),
{
    let now = choose|now: Timestamp| #[trigger]
        clock::is_reading(now) && (old(client)@.cfg.key_data is Some ==> clock::was_read(now))
            && client::exchanged(old(client)@, r, now.secs as int, final(client)@, request);
    lemma_answered(old(client)@, r, now.secs as int, final(client)@, request);
}

/// The verifier that is sent with the code is the one whose digest was the challenge in the URL that
/// the user was shown, and the URI is the one in that URL.
pub proof fn exchange_proves_the_challenge(
    client: &mut Oauth2,
    step: Result<(String, u16), Oauth2Error>,
    answering: &mut Oauth2,
    r: AuthResponse,
    iat: i64,
    request: Result<TokenRequest, Oauth2Error>,
)
    requires
        call_ensures(Oauth2::auth_get_url_and_listen, (client,), step),
        old(answering)@ == final(client)@,
        call_ensures(Oauth2::auth_exchange_at, (answering, r, iat), request),
        step is Ok,
        request is Ok,
    ensures
        request matches Ok(q) && step matches Ok((u, port)) && q.form@.len() == 6
            && q.form@[2].0@ == "code_verifier"@ && asks_for(
            u@,
            old(client)@.cfg.auth_server_url->0,
            q.form@[0].1@,
            port,
            r.scope@,
            base64url::base64url(digest::sha256(text::utf8(q.form@[2].1@))),
            r.state@,
        ) && is_redirect_uri(q.form@[4].1@, port),
{
    shown_url_has_the_digest_of_the_drawn_verifier(client, step);
    response_is_checked_and_exchanged(answering, r, iat, request);
}

/// A client that is made with a config and goes through the `auth` flow asks, at the auth server of
/// that config, for that scope and for that client, with the digest of the verifier that it then sends
/// to the token server of that config, along with that client's secret and the code of a response
/// which carries the state of the URL.
pub proof fn auth_flow_follows_the_config(
    cfg: Cfg,
    client: Oauth2,
    asking: &mut Oauth2,
    step: Result<(String, u16), Oauth2Error>,
    answering: &mut Oauth2,
    r: AuthResponse,
    iat: i64,
    request: Result<TokenRequest, Oauth2Error>,
)
    requires
        call_ensures(Oauth2::new, (cfg,), client),
        *old(asking) == client,
        call_ensures(Oauth2::auth_get_url_and_listen, (asking,), step),
        step is Ok,
        *old(answering) == *final(asking),
        call_ensures(Oauth2::auth_exchange_at, (answering, r, iat), request),
    ensures
        match request {
            Ok(q) => {
                &&& cfg.scope matches Some(scope)
                &&& scope@ == r.scope@
                &&& cfg.auth_server_url matches Some(base)
                &&& cfg.listen_port matches Some(port)
                &&& step->Ok_0.1 == port
                &&& q.url@ == cfg.token_server_url@
                &&& q.form@.len() == 6
                &&& has(q.form@[0], "client_id"@, cfg.client_id@)
                &&& has(q.form@[1], "code"@, r.code@)
                &&& q.form@[2].0@ == "code_verifier"@
                &&& is_drawn(q.form@[2].1@, Purpose::CodeVerifier)
                &&& has(q.form@[3], "grant_type"@, "authorization_code"@)
                &&& q.form@[4].0@ == "redirect_uri"@
                &&& is_redirect_uri(q.form@[4].1@, port)
                &&& has(q.form@[5], "client_secret"@, cfg.client_secret@)
                &&& asks_for(
                    step->Ok_0.0@,
                    base@,
                    cfg.client_id@,
                    port,
                    scope@,
                    base64url::base64url(digest::sha256(text::utf8(q.form@[2].1@))),
                    r.state@,
                )
                &&& q.dpop is Some <==> cfg.key_data is Some
            },
            Err(Oauth2Error::StateMismatch { received, expected }) => received@ == r.state@
                && expected@ != r.state@,
            Err(Oauth2Error::ScopeMismatch { received, expected }) => received@ == r.scope@
                && expected@ != r.scope@ && cfg.scope.deep_view() == Some(expected@),
            Err(_) => false,
        },
{
    new_client_has_its_config(cfg, client);
    shown_url_has_the_digest_of_the_drawn_verifier(asking, step);
    response_is_checked_and_exchanged(answering, r, iat, request);
}

} // verus!
