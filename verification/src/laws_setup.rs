//! What is set up before a flow, and what is said when one fails.

use vstd::prelude::*;

use crate::client::Oauth2;
use crate::dpop::{DpopError, KeyData, Keypair, KeypairPemPkcs8};
use crate::error::Oauth2Error;
use crate::keys;
use crate::keys::LineEnding;
use crate::random;
use crate::simple;
use crate::simple::{Cfg, CfgBuilder, KeyPaths, KeySetup, Oauth2Simple, SimpleError};
use crate::url;

verus! {

/// A config that nothing is set in but the scope has the default paths and the default port, and no
/// keys.
pub proof fn default_config(
    start: CfgBuilder<'_>,
    scope: &str,
    scoped: CfgBuilder<'_>,
    cfg: Cfg<'_>,
)
    requires
        call_ensures(Cfg::builder, (), start),
        call_ensures(CfgBuilder::scope, (start, scope), scoped),
        call_ensures(CfgBuilder::build, (scoped,), cfg),
    ensures
        scoped.has_scope(),
        cfg.client_info_path@ == "./client_info.json"@,
        cfg.tokens_path@ == "./token.json"@,
        cfg.port == 42684,
        cfg.scope == scope,
        cfg.key_paths is None,
{
}

/// Each setting of a builder ends up in its place in the config, and leaves the others as they are.
pub proof fn settings_end_up_in_their_place(
    start: CfgBuilder<'_>,
    unset: Cfg<'_>,
    client_info_path: &str,
    with_info: CfgBuilder<'_>,
    tokens_path: &str,
    with_tokens: CfgBuilder<'_>,
    port: u16,
    with_port: CfgBuilder<'_>,
    key_paths: KeyPaths,
    with_keys: CfgBuilder<'_>,
    scope: &str,
    with_scope: CfgBuilder<'_>,
    cfgs: (Cfg<'_>, Cfg<'_>, Cfg<'_>, Cfg<'_>, Cfg<'_>),
)
    requires
        call_ensures(CfgBuilder::build, (start,), unset),
        call_ensures(CfgBuilder::client_info_path, (start, client_info_path), with_info),
        call_ensures(CfgBuilder::build, (with_info,), cfgs.0),
        call_ensures(CfgBuilder::tokens_path, (start, tokens_path), with_tokens),
        call_ensures(CfgBuilder::build, (with_tokens,), cfgs.1),
        call_ensures(CfgBuilder::port, (start, port), with_port),
        call_ensures(CfgBuilder::build, (with_port,), cfgs.2),
        call_ensures(CfgBuilder::key_paths, (start, key_paths), with_keys),
        call_ensures(CfgBuilder::build, (with_keys,), cfgs.3),
        call_ensures(CfgBuilder::scope, (start, scope), with_scope),
        call_ensures(CfgBuilder::build, (with_scope,), cfgs.4),
    ensures
        cfgs.0 == (Cfg { client_info_path, ..unset }),
        cfgs.1 == (Cfg { tokens_path, ..unset }),
        cfgs.2 == (Cfg { port, ..unset }),
        cfgs.3 == (Cfg { key_paths: Some(key_paths), ..unset }),
        cfgs.4 == (Cfg { scope, ..unset }),
        with_scope.has_scope(),
        start.has_scope() ==> with_info.has_scope() && with_tokens.has_scope()
            && with_port.has_scope() && with_keys.has_scope(),
{
}

/// A basic config has the paths and the scope that it is made with. A path that is not text is an
/// error, the path to the client info first.
pub proof fn basic_config_has_its_paths(
    client_info_path: Option<&str>,
    tokens_path: Option<&str>,
    scope: &str,
    builder: Result<CfgBuilder<'_>, SimpleError>,
    cfg: Cfg<'_>,
)
    requires
        call_ensures(
            Oauth2Simple::new_basic_cfg_builder,
            (client_info_path, tokens_path, scope),
            builder,
        ),
        builder matches Ok(b) ==> call_ensures(CfgBuilder::build, (b,), cfg),
    ensures
        match builder {
            Ok(b) => {
                &&& b.has_scope()
                &&& client_info_path == Some(cfg.client_info_path)
                &&& tokens_path == Some(cfg.tokens_path)
                &&& cfg.scope == scope
                &&& cfg.port == 42684
                &&& cfg.key_paths is None
            },
            Err(SimpleError::ClientInfoPathInvalid) => client_info_path is None,
            Err(SimpleError::TokensPathInvalid) => client_info_path is Some
                && tokens_path is None,
            Err(_) => false,
        },
{
}

/// A copy of key paths has the same paths.
pub proof fn copied_key_paths_are_the_same(paths: &KeyPaths, copy: KeyPaths)
    requires
        call_ensures(<KeyPaths as Clone>::clone, (paths,), copy),
    ensures
        copy.public_key_path@ == paths.public_key_path@,
        copy.private_key_path@ == paths.private_key_path@,
{
}

/// Keys are generated only if there is a file for neither, and read only if there are files for both.
/// So no file is ever overwritten, and none is read that is not there. Without paths there are no keys.
pub proof fn keys_are_never_overwritten(
    public_key_exists: bool,
    private_key_exists: bool,
    setup: Result<KeySetup, SimpleError>,
    with_paths: Result<Option<KeySetup>, SimpleError>,
    without_paths: Result<Option<KeySetup>, SimpleError>,
)
    requires
        call_ensures(simple::set_up_keys, (public_key_exists, private_key_exists), setup),
        call_ensures(
            simple::maybe_set_up_keys,
            (Some((public_key_exists, private_key_exists)),),
            with_paths,
        ),
        call_ensures(simple::maybe_set_up_keys, (None,), without_paths),
    ensures
        setup matches Ok(KeySetup::Generate) <==> !public_key_exists && !private_key_exists,
        setup matches Ok(KeySetup::Read) <==> public_key_exists && private_key_exists,
        setup is Err <==> public_key_exists != private_key_exists,
        setup matches Err(e) ==> e is OnlyOneKeyExists,
        with_paths matches Ok(Some(KeySetup::Generate)) <==> !public_key_exists
            && !private_key_exists,
        with_paths matches Ok(Some(KeySetup::Read)) <==> public_key_exists && private_key_exists,
        with_paths is Err <==> public_key_exists != private_key_exists,
        with_paths matches Err(e) ==> e is OnlyOneKeyExists,
        without_paths matches Ok(None),
{
}

/// Key data that is exported is that of the keypair, and is read back from the documents that are to be
/// saved. Where one of them cannot be written, the error says which.
pub proof fn exported_keys_can_be_read_back(
    keypair: &Keypair,
    line_ending: LineEnding,
    exported: Result<(KeyData, KeypairPemPkcs8), SimpleError>,
    public_key: String,
    private_key: String,
    read: Result<KeyData, SimpleError>,
)
    requires
        call_ensures(simple::export_keys, (keypair, line_ending), exported),
        exported matches Ok((_, pem)) ==> public_key@ == pem.public_key@ && private_key@
            == pem.private_key@,
        call_ensures(simple::read_keys, (public_key, private_key), read),
    ensures
        match exported {
            Ok((key_data, pem)) => {
                &&& (key_data@.x, key_data@.y) == keypair@.public_key
                &&& key_data@.secret == keypair@.private_key
                &&& keys::point_pem(key_data@.x, key_data@.y, line_ending@) == Some(
                    pem.public_key@,
                )
                &&& keys::secret_pem(key_data@.secret, line_ending@) == Some(pem.private_key@)
                &&& read matches Ok(k)
                &&& k@.x == key_data@.x
                &&& k@.y == key_data@.y
                &&& k@.secret == key_data@.secret
            },
            Err(SimpleError::EncodeKeys(reason)) => {
                ||| reason@ == "failed to convert public key to PEM"@ && keys::point_pem(
                    keypair@.public_key.0,
                    keypair@.public_key.1,
                    line_ending@,
                ) is None
                ||| reason@ == "failed to convert private key to PKCS#8 PEM"@ && keys::secret_pem(
                    keypair@.private_key,
                    line_ending@,
                ) is None
            },
            Err(_) => false,
        },
{
}

/// Keys that are generated have been drawn, belong together, and are read back from the documents that
/// are to be saved.
pub proof fn generated_keys_have_been_drawn(
    generated: Result<(KeyData, KeypairPemPkcs8), SimpleError>,
    public_key: String,
    private_key: String,
    read: Result<KeyData, SimpleError>,
)
    requires
        call_ensures(simple::generate_keys, (), generated),
        generated matches Ok((_, pem)) ==> public_key@ == pem.public_key@ && private_key@
            == pem.private_key@,
        call_ensures(simple::read_keys, (public_key, private_key), read),
    ensures
        match generated {
            Ok((key_data, pem)) => {
                &&& random::was_drawn(key_data@.secret)
                &&& (key_data@.x, key_data@.y) == keys::public_point(key_data@.secret)
                &&& read matches Ok(k)
                &&& k@.x == key_data@.x
                &&& k@.y == key_data@.y
                &&& k@.secret == key_data@.secret
            },
            Err(SimpleError::GenerateKeys(DpopError::ZeroKey)) => keys::zero_was_drawn(),
            Err(SimpleError::GenerateKeys(DpopError::Entropy(_))) => true,
            Err(SimpleError::EncodeKeys(reason)) => reason@
                == "failed to convert public key to PEM"@ || reason@
                == "failed to convert private key to PKCS#8 PEM"@,
            Err(_) => false,
        },
{
}

/// Key data is read from the documents that hold it. The error says which of them holds none.
pub proof fn keys_are_read_from_their_documents(
    public_key: String,
    private_key: String,
    read: Result<KeyData, SimpleError>,
)
    requires
        call_ensures(simple::read_keys, (public_key, private_key), read),
    ensures
        match read {
            Ok(k) => keys::point_in_pem(public_key@) == Some((k@.x, k@.y)) && keys::secret_in_pem(
                private_key@,
            ) == Some(k@.secret),
            Err(SimpleError::DecodeKeys(reason)) => {
                ||| keys::point_in_pem(public_key@) is None && reason@
                    == "failed to parse public key"@
                ||| keys::point_in_pem(public_key@) is Some && keys::secret_in_pem(
                    private_key@,
                ) is None && reason@ == "failed to parse private key"@
            },
            Err(_) => false,
        },
{
}

/// Whether an error of the client says what is wrong. One whose text is the operating system's says
/// nothing.
pub open spec fn says(e: Oauth2Error, message: Option<String>) -> bool {
    match e {
        Oauth2Error::ListenPortIsNone => message matches Some(m) && m@ == "listen_port is None"@,
        Oauth2Error::ScopeIsNone => message matches Some(m) && m@ == "scope is None"@,
        Oauth2Error::AuthServerUrlIsNone => message matches Some(m) && m@
            == "auth_server_url is None"@,
        Oauth2Error::CodeVerifierIsNone => message matches Some(m) && m@
            == "code_verifier is None"@,
        Oauth2Error::CodeChallengeIsNone => message matches Some(m) && m@
            == "code_challenge is None"@,
        Oauth2Error::StateIsNone => message matches Some(m) && m@ == "state is None"@,
        Oauth2Error::CodeIsNone => message matches Some(m) && m@ == "code is None"@,
        Oauth2Error::RefreshTokenIsNone => message matches Some(m) && m@
            == "refresh_token is None"@,
        Oauth2Error::StateMismatch { received, expected } => message matches Some(m) && m@
            == "state doesn't match: "@ + received@ + " vs "@ + expected@,
        Oauth2Error::ScopeMismatch { received, expected } => message matches Some(m) && m@
            == "scope doesn't match: "@ + received@ + " vs "@ + expected@,
        Oauth2Error::Url(reason) => message matches Some(m) && m@ == reason@,
        Oauth2Error::Entropy(_) => message is None,
        Oauth2Error::Dpop(_) => message is None,
    }
}

/// Each error of the client says what is wrong.
pub proof fn client_errors_say_what_is_wrong(e: &Oauth2Error, message: Option<String>)
    requires
        call_ensures(Oauth2Error::message, (e,), message),
    ensures
        says(*e, message),
{
}

/// Each error of an instance says what is wrong, and one of its client says what that one says.
pub proof fn instance_errors_say_what_is_wrong(e: &SimpleError, message: Option<String>)
    requires
        call_ensures(SimpleError::message, (e,), message),
    ensures
        match *e {
            SimpleError::TokensUnset => message matches Some(m) && m@
                == "`tokens` is unset. Did you run `init()`?"@,
            SimpleError::ClientInfoPathInvalid => message matches Some(m) && m@
                == "client_info_path is invalid"@,
            SimpleError::TokensPathInvalid => message matches Some(m) && m@
                == "tokens_path is invalid"@,
            SimpleError::OnlyOneKeyExists => message matches Some(m) && m@
                == "only one of `public_key_path` and `private_key_path` exists. Either both or neither must exist"@,
            SimpleError::EncodeKeys(reason) => message matches Some(m) && m@
                == "failed to convert keypair into PEM PKCS#8: \""@ + reason@ + "\""@,
            SimpleError::DecodeKeys(reason) => message matches Some(m) && m@
                == "failed to convert KeypairPemPkcs8 into Keypair: \""@ + reason@ + "\""@,
            SimpleError::Client(client_error) => says(client_error, message),
            SimpleError::GenerateKeys(_) => message is None,
            SimpleError::Refresh(_) => message is None,
        },
{
}

/// A text takes at least one byte and at most 255 bytes for each character.
proof fn lemma_base_bytes(base: Seq<char>)
    ensures
        base.len() <= url::base_bytes(base) <= 255 * base.len(),
    decreases base.len(),
{
    if base.len() > 0 {
        lemma_base_bytes(base.drop_last());
    }
}

/// Whether a character may stand for many bytes in a URL: a percent sign, or one beyond ASCII.
pub open spec fn is_heavy(c: char) -> bool {
    c == '%' || (c as u32) >= 0x80
}

/// Whether a character stays as it is in a URL: a letter, a digit, or one of five signs.
pub open spec fn is_light(c: char) -> bool {
    'a' <= c <= 'z' || 'A' <= c <= 'Z' || '0' <= c <= '9' || c == '-' || c == '.' || c == '_' || c
        == '~' || c == '/'
}

/// How many characters of `text` are heavy.
pub open spec fn heavy(text: Seq<char>) -> nat {
    text.filter(|c: char| is_heavy(c)).len()
}

/// How many characters of `text` are light.
pub open spec fn light(text: Seq<char>) -> nat {
    text.filter(|c: char| is_light(c)).len()
}

/// A text takes 255 bytes for each heavy character, one for each light one, and three for any other.
proof fn lemma_weight(base: Seq<char>)
    ensures
        url::base_bytes(base) == 3 * base.len() + 252 * heavy(base) - 2 * light(base),
    decreases base.len(),
{
    reveal(Seq::filter);
    if base.len() > 0 {
        let rest = base.drop_last();
        let c = base.last();
        lemma_weight(rest);
        reveal_strlit("-._~/");
        let signs = "-._~/"@;
        assert(signs[0] == '-' && signs[1] == '.' && signs[2] == '_' && signs[3] == '~' && signs[4]
            == '/');
        assert(signs.contains(c) <==> (c == '-' || c == '.' || c == '_' || c == '~' || c == '/'));
        assert(heavy(base) == heavy(rest) + if is_heavy(c) { 1int } else { 0int });
        assert(light(base) == light(rest) + if is_light(c) { 1int } else { 0int });
    }
}

/// A URL fits if and only if there is room in 32 bits for 255 bytes for each character that is heavy,
/// one for each that is light, three for any other, 64 for what parsing puts in between, and, if there
/// is a fragment, twelve bytes for each character of the parameters and two for each parameter.
pub proof fn urls_are_weighed(base: &str, param_chars: u128, params: u32, fits: bool)
    requires
        call_ensures(url::fits, (base, param_chars, params), fits),
    ensures
        !base@.contains('#') ==> (fits <==> 3 * base@.len() + 252 * heavy(base@) - 2 * light(base@)
            + 64 <= u32::MAX),
        base@.contains('#') ==> (fits <==> 3 * base@.len() + 252 * heavy(base@) - 2 * light(base@)
            + 64 + 12 * param_chars + 2 * params <= u32::MAX),
{
    lemma_weight(base@);
}

/// A client can start the `auth` flow if and only if the URL of the auth server has room for seven
/// parameters with its ID, its scope and 512 characters more.
pub proof fn clients_fit_if_their_urls_do(
    client: &Oauth2,
    base: &str,
    param_chars: u128,
    client_fits: bool,
    instance: &Oauth2Simple,
    instance_fits: bool,
    fits: bool,
)
    requires
        client@.cfg.auth_server_url == Some(base@),
        param_chars == client@.cfg.client_id.len() + (match client@.cfg.scope {
            Some(scope) => scope.len(),
            None => 0,
        }) + 512,
        call_ensures(url::fits, (base, param_chars, 7), fits),
        call_ensures(Oauth2::url_fits, (client,), client_fits),
        instance@.oauth2.cfg == client@.cfg,
        call_ensures(Oauth2Simple::url_fits, (instance,), instance_fits),
    ensures
        client_fits == fits,
        instance_fits == fits,
{
}

/// A URL of up to sixteen million characters has room for any parameters if it has no fragment. With a
/// fragment, there must be room for twelve bytes for each character of the parameters, and two for each
/// parameter, in 32 bits.
pub proof fn ordinary_urls_fit(base: &str, param_chars: u128, params: u32, fits: bool)
    requires
        call_ensures(url::fits, (base, param_chars, params), fits),
    ensures
        base@.len() <= 16_000_000 && !base@.contains('#') ==> fits,
        255 * base@.len() + 64 + 12 * param_chars + 2 * params <= u32::MAX ==> fits,
        fits ==> base@.len() + 64 <= u32::MAX,
        fits && base@.contains('#') ==> base@.len() + 64 + 12 * param_chars + 2 * params
            <= u32::MAX,
{
    lemma_base_bytes(base@);
}

/// A client without an auth server, or with one whose URL has up to sixteen million characters and no
/// fragment, can start the `auth` flow, and so can an instance of it. With tokens an instance needs
/// none.
pub proof fn ordinary_clients_can_start(
    client: &Oauth2,
    client_fits: bool,
    instance: &Oauth2Simple,
    instance_fits: bool,
    can: bool,
)
    requires
        call_ensures(Oauth2::url_fits, (client,), client_fits),
        call_ensures(Oauth2Simple::url_fits, (instance,), instance_fits),
        call_ensures(Oauth2Simple::can_init_if_needed, (instance,), can),
    ensures
        (client@.cfg.auth_server_url matches Some(base) ==> base.len() <= 16_000_000
            && !base.contains('#')) ==> client_fits,
        client_fits ==> (client@.cfg.auth_server_url matches Some(base) ==> base.len() + 64
            <= u32::MAX),
        (instance@.oauth2.cfg.auth_server_url matches Some(base) ==> base.len() <= 16_000_000
            && !base.contains('#')) ==> instance_fits,
        can <==> instance@.tokens is Some || instance_fits,
{
    if let Some(base) = client@.cfg.auth_server_url {
        lemma_base_bytes(base);
    }
    if let Some(base) = instance@.oauth2.cfg.auth_server_url {
        lemma_base_bytes(base);
    }
}

} // verus!
