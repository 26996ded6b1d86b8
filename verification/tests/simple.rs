use oauth2::dpop::{self, KeyData, Keypair};
use oauth2::keys::{LineEnding, SecretKey};
use oauth2::refresh::{RefreshError, RefreshReply, RefreshStage, RefreshStep};
use oauth2::simple::{
    self, Action, Cfg, Event, FollowUp, KeyPaths, KeySetup, Oauth2Simple, SimpleError,
};
use oauth2::{
    AuthResponse, ClientInfo, ExchangeResponse, Installed, Oauth2, RefreshHandleResponseError,
    RefreshResponse, ServerError, Timestamp, Tokens,
};

const NOW: Timestamp = Timestamp {
    secs: 1_700_000_000,
    nanos: 500,
};

fn later(secs: i64) -> Timestamp {
    Timestamp {
        secs: NOW.secs + secs,
        nanos: NOW.nanos,
    }
}

fn client_info() -> ClientInfo {
    ClientInfo {
        installed: Installed {
            client_id: "id-1".to_string(),
            auth_uri: "https://accounts.google.com/o/oauth2/auth".to_string(),
            token_uri: "https://oauth2.googleapis.com/token".to_string(),
            client_secret: "secret-1".to_string(),
        },
    }
}

fn keypair() -> Keypair {
    let mut scalar = vec![0; 32];
    scalar[31] = 9;
    Keypair::from_private_key(SecretKey::from_scalar(scalar).unwrap())
}

fn key_data() -> KeyData {
    KeyData::from(&keypair())
}

fn tokens() -> Tokens {
    Tokens {
        access_token: "access-1".to_string(),
        expires_at: later(3600),
        refresh_token: "refresh-1".to_string(),
        refresh_token_expires_at: Some(later(100_000)),
        scope: "profile".to_string(),
        dpop_nonce: Some("n-1".to_string()),
    }
}

fn fresh(tokens: Option<Tokens>) -> Oauth2Simple {
    Oauth2Simple::new(
        Some("info.json"),
        Some("t.json"),
        "profile",
        client_info(),
        tokens,
    )
    .ok()
    .unwrap()
}

fn signing(tokens: Option<Tokens>) -> Oauth2Simple {
    let paths = KeyPaths {
        public_key_path: "pub".to_string(),
        private_key_path: "priv".to_string(),
    };
    Oauth2Simple::new_with_dpop(
        Some("info.json"),
        Some("t.json"),
        "profile",
        &paths,
        client_info(),
        tokens,
        key_data(),
    )
    .ok()
    .unwrap()
}

fn exchanged() -> Event {
    Event::Exchanged {
        response: ExchangeResponse {
            access_token: "access-2".to_string(),
            expires_in: 3605,
            refresh_token: "refresh-2".to_string(),
            refresh_token_expires_in: None,
            scope: "profile".to_string(),
        },
        dpop_nonce: Some("n-2".to_string()),
    }
}

fn renewed(stage: RefreshStage, nonce: Option<&str>) -> Event {
    Event::Refreshed(RefreshReply {
        stage,
        answer: Ok(RefreshResponse {
            access_token: "access-3".to_string(),
            expires_in: 1005,
            scope: "profile email".to_string(),
        }),
        dpop_nonce: nonce.map(|n| n.to_string()),
    })
}

fn refused(stage: RefreshStage, error: &str, nonce: Option<&str>) -> RefreshReply {
    RefreshReply {
        stage,
        answer: Err(ServerError {
            error: error.to_string(),
            error_description: "because".to_string(),
        }),
        dpop_nonce: nonce.map(|n| n.to_string()),
    }
}

fn text<T>(result: Result<T, SimpleError>) -> String {
    match result {
        Ok(_) => panic!("no error"),
        Err(e) => e.message().unwrap(),
    }
}

fn saved(action: Result<Action, SimpleError>) -> Tokens {
    match action {
        Ok(Action::Save(tokens)) => tokens,
        _ => panic!("nothing to save"),
    }
}

fn refresh_request(action: Result<Action, SimpleError>) -> (oauth2::TokenRequest, RefreshStage) {
    match action {
        Ok(Action::Refresh { request, stage }) => (request, stage),
        _ => panic!("no refresh request"),
    }
}

fn payload(dpop: &str) -> serde_json::Value {
    let part = dpop.split('.').nth(1).unwrap();
    serde_json::from_slice(&base64_url::decode(part).unwrap()).unwrap()
}

#[test]
fn builder_starts_with_the_defaults() {
    let cfg = Cfg::builder().scope("profile").build();
    assert_eq!(cfg.client_info_path, "./client_info.json");
    assert_eq!(cfg.tokens_path, "./token.json");
    assert_eq!(cfg.port, 42684);
    assert_eq!(cfg.scope, "profile");
    assert!(cfg.key_paths.is_none());
}

#[test]
fn builder_takes_every_part() {
    let cfg = Cfg::builder()
        .port(1)
        .scope("s")
        .client_info_path("c")
        .tokens_path("t")
        .key_paths(KeyPaths {
            public_key_path: "pub".to_string(),
            private_key_path: "priv".to_string(),
        })
        .build();
    assert_eq!(cfg.client_info_path, "c");
    assert_eq!(cfg.tokens_path, "t");
    assert_eq!(cfg.port, 1);
    assert_eq!(cfg.scope, "s");
    let paths = cfg.key_paths.unwrap().clone();
    assert_eq!(paths.public_key_path, "pub");
    assert_eq!(paths.private_key_path, "priv");
}

#[test]
fn paths_must_be_text() {
    let new = |c, t| Oauth2Simple::new(c, t, "profile", client_info(), None);
    assert_eq!(text(new(None, None)), "client_info_path is invalid");
    assert_eq!(text(new(None, Some("t"))), "client_info_path is invalid");
    assert_eq!(text(new(Some("c"), None)), "tokens_path is invalid");
    assert_eq!(new(Some("c"), Some("t")).ok().unwrap().tokens_path(), "t");
    let cfg = Oauth2Simple::new_basic_cfg_builder(Some("c"), Some("t"), "s")
        .ok()
        .unwrap()
        .build();
    assert_eq!(cfg.client_info_path, "c");
    assert_eq!(cfg.tokens_path, "t");
    assert_eq!(cfg.scope, "s");
    assert_eq!(cfg.port, 42684);
}

#[test]
fn key_files_come_in_pairs() {
    assert_eq!(simple::maybe_set_up_keys(None).ok().unwrap(), None);
    assert_eq!(
        simple::maybe_set_up_keys(Some((false, false))).ok().unwrap(),
        Some(KeySetup::Generate)
    );
    assert_eq!(
        simple::maybe_set_up_keys(Some((true, true))).ok().unwrap(),
        Some(KeySetup::Read)
    );
    let only_one = "only one of `public_key_path` and `private_key_path` exists. Either both or neither must exist";
    assert_eq!(text(simple::maybe_set_up_keys(Some((true, false)))), only_one);
    assert_eq!(text(simple::set_up_keys(false, true)), only_one);
}

#[test]
fn generated_keys_can_be_read_again() {
    let (data, pem) = simple::generate_keys().ok().unwrap();
    let private_key = pem.private_key.as_str().to_string();
    let read = simple::read_keys(pem.public_key, private_key).ok().unwrap();
    assert_eq!(
        dpop::create_at(&data, "u", None, "j", 1),
        dpop::create_at(&read, "u", None, "j", 1)
    );
    let (other, _) = simple::generate_keys().ok().unwrap();
    assert_ne!(
        dpop::create_at(&data, "u", None, "j", 1),
        dpop::create_at(&other, "u", None, "j", 1)
    );
}

#[test]
fn exported_keys_are_those_of_the_keypair() {
    let (data, pem) = simple::export_keys(&keypair(), LineEnding::CrLf).ok().unwrap();
    assert_eq!(
        dpop::create_at(&data, "u", None, "j", 1),
        dpop::create_at(&key_data(), "u", None, "j", 1)
    );
    assert!(pem.public_key.contains("\r\n"));
    assert!(pem.private_key.as_str().contains("\r\n"));
}

#[test]
fn unreadable_keys_are_named() {
    let (_, pem) = simple::export_keys(&keypair(), LineEnding::Lf).ok().unwrap();
    assert_eq!(
        text(simple::read_keys(
            "x".to_string(),
            pem.private_key.as_str().to_string()
        )),
        "failed to convert KeypairPemPkcs8 into Keypair: \"failed to parse public key\""
    );
    assert_eq!(
        text(simple::read_keys(pem.public_key, "x".to_string())),
        "failed to convert KeypairPemPkcs8 into Keypair: \"failed to parse private key\""
    );
    assert_eq!(
        SimpleError::EncodeKeys("failed to convert public key to PEM").message(),
        Some(
            "failed to convert keypair into PEM PKCS#8: \"failed to convert public key to PEM\""
                .to_string()
        )
    );
}

#[test]
fn init_flow_ends_with_tokens_to_save() {
    let mut simple = fresh(None);
    let (url, port) = match simple.init() {
        Ok(Action::Authorize { url, listen_port }) => (url, listen_port),
        _ => panic!("no URL"),
    };
    assert_eq!(port, 42684);
    let state = reqwest::Url::parse(&url)
        .unwrap()
        .query_pairs()
        .find(|(n, _)| n == "state")
        .unwrap()
        .1
        .to_string();
    let request = match simple.advance(Event::Authorized(AuthResponse {
        state,
        code: "4/code".to_string(),
        scope: "profile".to_string(),
    })) {
        Ok(Action::Exchange(request)) => request,
        _ => panic!("no exchange"),
    };
    assert_eq!(request.form[1].1, "4/code");
    assert!(request.dpop.is_none());
    let tokens = saved(simple.advance_at(exchanged(), NOW));
    assert_eq!(tokens.access_token, "access-2");
    assert_eq!(tokens.expires_at, later(3600));
    assert_eq!(tokens.refresh_token, "refresh-2");
    let (request, stage) = refresh_request(simple.refresh());
    assert_eq!(stage, RefreshStage::First);
    assert_eq!(request.form[3].1, "refresh-2");
}

#[test]
fn init_refuses_a_foreign_response() {
    let mut simple = fresh(Some(tokens()));
    let response = AuthResponse {
        state: "x".to_string(),
        code: "4/code".to_string(),
        scope: "profile".to_string(),
    };
    assert_eq!(
        text(simple.advance(Event::Authorized(response))),
        "state is None"
    );
}

#[test]
fn refresh_needs_tokens() {
    let mut simple = fresh(None);
    assert_eq!(text(simple.refresh()), "refresh_token is None");
    let unset = "`tokens` is unset. Did you run `init()`?";
    assert_eq!(text(simple.refresh_if_needed()), unset);
    assert_eq!(
        text(simple.advance_at(renewed(RefreshStage::First, None), NOW)),
        unset
    );
}

#[test]
fn refresh_flow_merges_the_new_token() {
    let mut simple = signing(Some(tokens()));
    let (request, stage) = refresh_request(simple.refresh());
    assert_eq!(stage, RefreshStage::First);
    assert_eq!(request.form[3].1, "refresh-1");
    assert_eq!(payload(&request.dpop.unwrap())["nonce"], "n-1");
    let merged = saved(simple.advance_at(renewed(RefreshStage::First, Some("n-5")), NOW));
    assert_eq!(merged.access_token, "access-3");
    assert_eq!(merged.expires_at, later(1000));
    assert_eq!(merged.refresh_token, "refresh-1");
    assert_eq!(merged.refresh_token_expires_at, Some(later(100_000)));
    assert_eq!(merged.scope, "profile email");
    assert_eq!(merged.dpop_nonce.as_deref(), Some("n-5"));
    let (request, _) = refresh_request(simple.refresh());
    assert_eq!(payload(&request.dpop.unwrap())["nonce"], "n-5");
}

#[test]
fn stale_nonce_is_retried_once() {
    let mut simple = signing(Some(tokens()));
    let stale = refused(RefreshStage::First, "use_dpop_nonce", Some("n-6"));
    let (request, stage) = refresh_request(simple.advance_at(Event::Refreshed(stale), NOW));
    assert_eq!(stage, RefreshStage::Retry);
    assert_eq!(request.form[3].1, "refresh-1");
    assert_eq!(payload(&request.dpop.unwrap())["nonce"], "n-6");
    let again = refused(RefreshStage::Retry, "use_dpop_nonce", Some("n-7"));
    match simple.advance_at(Event::Refreshed(again), NOW) {
        Err(SimpleError::Refresh(RefreshHandleResponseError::UseDpopNonce {
            dpop_nonce, ..
        })) => assert_eq!(dpop_nonce, "n-7"),
        _ => panic!("retried twice"),
    }
    let merged = saved(simple.advance_at(renewed(RefreshStage::Retry, None), NOW));
    assert_eq!(merged.dpop_nonce.as_deref(), Some("n-6"));
}

#[test]
fn refused_refresh_keeps_the_tokens() {
    let mut simple = fresh(Some(tokens()));
    let reply = refused(RefreshStage::First, "invalid_grant", None);
    match simple.advance_at(Event::Refreshed(reply), NOW) {
        Err(SimpleError::Refresh(RefreshHandleResponseError::Refused { error, .. })) => {
            assert_eq!(error, "invalid_grant")
        }
        _ => panic!("not refused"),
    }
    match simple.init_if_needed() {
        Ok(Action::Keep(kept)) => assert_eq!(kept.access_token, "access-1"),
        _ => panic!("tokens lost"),
    }
}

#[test]
fn client_continues_a_refresh_by_itself() {
    let mut client = Oauth2::new(oauth2::cli::refresh_cfg(
        client_info(),
        &tokens(),
        Some(key_data()),
    ));
    let stale = refused(RefreshStage::First, "use_dpop_nonce", Some("n-8"));
    match client.refresh_continue(stale) {
        Ok(RefreshStep::SendAgain {
            request,
            stage,
            error_description,
        }) => {
            assert_eq!(stage, RefreshStage::Retry);
            assert_eq!(error_description, "because");
            assert_eq!(payload(&request.dpop.unwrap())["nonce"], "n-8");
        }
        _ => panic!("no second request"),
    }
    let reply = refused(RefreshStage::Retry, "invalid_grant", None);
    assert!(matches!(
        client.refresh_continue_at(reply, NOW),
        Err(RefreshError::Response(
            RefreshHandleResponseError::Refused { .. }
        ))
    ));
}

#[test]
fn tokens_are_kept_until_close_to_expiring() {
    let simple = fresh(Some(tokens()));
    match simple.refresh_if_needed_at(later(3299)) {
        Ok(Action::Keep(kept)) => assert_eq!(kept.access_token, "access-1"),
        _ => panic!("refreshed too early"),
    }
    for secs in [3300, 3301, 3600, 3700, 1_000_000] {
        let (request, _) = refresh_request(simple.refresh_if_needed_at(later(secs)));
        assert_eq!(request.form[3].1, "refresh-1");
    }
}

#[test]
fn get_token_does_what_is_needed() {
    let mut none = fresh(None);
    assert!(matches!(
        none.get_token_at(NOW),
        Ok(Action::Authorize { .. })
    ));
    assert!(matches!(none.get_token(), Ok(Action::Authorize { .. })));
    let mut some = fresh(Some(tokens()));
    assert!(matches!(some.get_token_at(NOW), Ok(Action::Keep(_))));
    assert!(matches!(
        some.get_token_at(later(3600)),
        Ok(Action::Refresh { .. })
    ));
    assert!(matches!(some.get_token(), Ok(Action::Refresh { .. })));
}

#[test]
fn get_token_ends_after_its_follow_up() {
    let mut simple = fresh(None);
    let follow_up = simple.get_token_at(NOW).ok().unwrap().follow_up();
    assert_eq!(follow_up, FollowUp::RefreshIfNeeded);
    let tokens = saved(simple.advance_at(exchanged(), NOW));
    match simple.finish_token_at(follow_up, tokens.clone(), later(3299)) {
        Ok(Action::Keep(kept)) => assert_eq!(kept.access_token, "access-2"),
        _ => panic!("refreshed too early"),
    }
    assert!(matches!(
        simple.finish_token_at(follow_up, tokens.clone(), later(3300)),
        Ok(Action::Refresh { .. })
    ));
    assert!(matches!(
        simple.finish_token(follow_up, tokens),
        Ok(Action::Refresh { .. })
    ));
}

#[test]
fn refreshed_token_is_not_refreshed_again() {
    let mut simple = fresh(Some(tokens()));
    let follow_up = simple.get_token_at(later(3600)).ok().unwrap().follow_up();
    assert_eq!(follow_up, FollowUp::Done);
    let renewed = saved(simple.advance_at(renewed(RefreshStage::First, None), NOW));
    match simple.finish_token_at(follow_up, renewed, later(1_000_000)) {
        Ok(Action::Keep(kept)) => assert_eq!(kept.access_token, "access-3"),
        _ => panic!("refreshed again"),
    }
}

#[test]
fn answers_below_the_margin_are_told_apart() {
    let response = |expires_in, refresh_token_expires_in| ExchangeResponse {
        access_token: String::new(),
        expires_in,
        refresh_token: String::new(),
        refresh_token_expires_in,
        scope: String::new(),
    };
    assert!(response(5, None).is_lasting());
    assert!(response(5, Some(5)).is_lasting());
    assert!(!response(4, None).is_lasting());
    assert!(!response(3600, Some(4)).is_lasting());
    let reply = |expires_in| RefreshReply {
        stage: RefreshStage::First,
        answer: Ok(RefreshResponse {
            access_token: String::new(),
            expires_in,
            scope: String::new(),
        }),
        dpop_nonce: None,
    };
    assert!(reply(5).is_lasting());
    assert!(!reply(4).is_lasting());
    assert!(refused(RefreshStage::First, "invalid_grant", None).is_lasting());
}

#[test]
fn url_has_room_unless_it_is_huge() {
    assert!(fresh(None).url_fits());
    let with_base = |auth_uri: String| {
        let mut info = client_info();
        info.installed.auth_uri = auth_uri;
        Oauth2Simple::new(Some("c"), Some("t"), "profile", info, None)
            .ok()
            .unwrap()
    };
    assert!(with_base("a-._~/Z9".repeat(3_000_000)).url_fits());
    let (fitting, huge) = ("\u{e9}".repeat(16_843_008), "%".repeat(16_843_009));
    assert!(with_base(fitting.clone()).url_fits());
    assert!(!with_base(fitting + "#").url_fits());
    assert!(!with_base(huge.clone()).url_fits());
    assert!(!with_base(huge.clone()).can_init_if_needed());
    let mut info = client_info();
    info.installed.auth_uri = huge;
    let mut kept = Oauth2Simple::new(Some("c"), Some("t"), "profile", info, Some(tokens()))
        .ok()
        .unwrap();
    assert!(kept.can_init_if_needed());
    assert!(matches!(kept.get_token_at(NOW), Ok(Action::Keep(_))));
    assert!(oauth2::url::fits("https://a", u64::MAX as u128, 7));
    assert!(!oauth2::url::fits("https://a#b", u64::MAX as u128, 7));
    assert!(oauth2::url::fits("https://a#b", 1_000_000, 7));
}

#[test]
fn saved_tokens_restore_the_client() {
    let mut simple = signing(None);
    let tokens = saved(simple.advance_at(exchanged(), NOW));
    let restarted = signing(Some(tokens));
    let (one, _) = refresh_request(simple.refresh());
    let (two, _) = refresh_request(restarted.refresh());
    assert_eq!(one.url, two.url);
    assert_eq!(one.form, two.form);
    assert_eq!(
        payload(&one.dpop.unwrap())["nonce"],
        payload(&two.dpop.unwrap())["nonce"]
    );
}
