use oauth2::dpop::{KeyData, Keypair};
use oauth2::keys::SecretKey;
use oauth2::{
    AuthResponse, Cfg, ExchangeResponse, Oauth2, Oauth2Error, RefreshHandleResponseError,
    RefreshResponse, ServerError, Timestamp, TokenExchangeResult,
};

const VERIFIER: &str = "dBjftJeZ4CVP-mB92K27uhbUJU1p1r_wW1gFWFOEjXk";

const NOW: Timestamp = Timestamp {
    secs: 1_700_000_000,
    nanos: 123_456_789,
};

fn cfg() -> Cfg {
    Cfg {
        listen_port: Some(42684),
        client_id: "id-1.apps".to_string(),
        scope: Some("https://www.googleapis.com/auth/drive profile".to_string()),
        auth_server_url: Some("https://accounts.google.com/o/oauth2/auth".to_string()),
        token_server_url: "https://oauth2.googleapis.com/token".to_string(),
        client_secret: "s&cret".to_string(),
        refresh_token: Some("refresh-1".to_string()),
        key_data: None,
        dpop_nonce: None,
    }
}

fn key_data() -> KeyData {
    let mut scalar = vec![0; 32];
    scalar[31] = 7;
    KeyData::from(&Keypair::from_private_key(
        SecretKey::from_scalar(scalar).unwrap(),
    ))
}

fn response(state: &str, scope: &str) -> AuthResponse {
    AuthResponse {
        state: state.to_string(),
        code: "4/code".to_string(),
        scope: scope.to_string(),
    }
}

fn pairs(form: &[(String, String)]) -> Vec<(&str, &str)> {
    form.iter()
        .map(|(n, v)| (n.as_str(), v.as_str()))
        .collect()
}

fn query(url: &str) -> Vec<(String, String)> {
    reqwest::Url::parse(url)
        .unwrap()
        .query_pairs()
        .map(|(n, v)| (n.to_string(), v.to_string()))
        .collect()
}

fn payload(dpop: &str) -> serde_json::Value {
    let part = dpop.split('.').nth(1).unwrap();
    serde_json::from_slice(&base64_url::decode(part).unwrap()).unwrap()
}

fn message(e: &Oauth2Error) -> String {
    e.message().unwrap()
}

#[test]
fn auth_url_is_exact() {
    let mut client = Oauth2::new(cfg());
    let (url, port) = client
        .auth_get_url_with(VERIFIER.to_string(), "state-1".to_string())
        .unwrap();
    assert_eq!(port, 42684);
    assert_eq!(
        url,
        "https://accounts.google.com/o/oauth2/auth?client_id=id-1.apps\
         &redirect_uri=http%3A%2F%2Flocalhost%3A42684&response_type=code\
         &scope=https%3A%2F%2Fwww.googleapis.com%2Fauth%2Fdrive+profile\
         &code_challenge=E9Melhoa2OwvFrEMTJguCHaoeK1t8URWbuGJSstw-cM\
         &code_challenge_method=S256&state=state-1"
    );
    assert_eq!(client.get_auth_request_url().unwrap(), url);
}

#[test]
fn challenge_is_the_hash_of_the_verifier() {
    let mut client = Oauth2::new(cfg());
    assert_eq!(
        message(&client.create_code_challenge().unwrap_err()),
        "code_verifier is None"
    );
    client
        .auth_get_url_with(VERIFIER.to_string(), "s".to_string())
        .unwrap();
    assert_eq!(
        client.create_code_challenge().unwrap(),
        "E9Melhoa2OwvFrEMTJguCHaoeK1t8URWbuGJSstw-cM"
    );
}

#[test]
fn drawn_url_has_fresh_secrets() {
    let mut client = Oauth2::new(cfg());
    let (one, port) = client.auth_get_url_and_listen().unwrap();
    let (two, _) = client.auth_get_url_and_listen().unwrap();
    assert_eq!(port, 42684);
    let (one, two) = (query(&one), query(&two));
    assert_eq!(one.len(), 7);
    assert_eq!(one[4].0, "code_challenge");
    assert_eq!(one[4].1.len(), 43);
    assert_eq!(one[6].0, "state");
    assert_eq!(one[6].1.len(), 128);
    assert_ne!(one[4].1, two[4].1);
    assert_ne!(one[6].1, two[6].1);
}

#[test]
fn code_verifier_is_made_of_unreserved_characters() {
    let client = Oauth2::new(cfg());
    let one = client.create_code_verifier().unwrap();
    assert_eq!(one.len(), 128);
    assert!(
        one.chars()
            .all(|c| c.is_ascii_alphanumeric() || "-._~".contains(c))
    );
    assert_ne!(one, client.create_code_verifier().unwrap());
}

#[test]
fn verifier_picks_by_remainder() {
    let words = vec![0, 25, 26, 51, 52, 61, 62, 63, 64, 65, 66, u32::MAX];
    assert_eq!(oauth2::client::write_verifier(&words), "AZaz09-._~AD");
    let all: Vec<u32> = (0..66).collect();
    assert_eq!(
        oauth2::client::write_verifier(&all),
        "ABCDEFGHIJKLMNOPQRSTUVWXYZabcdefghijklmnopqrstuvwxyz0123456789-._~"
    );
}

#[test]
fn auth_url_needs_every_part() {
    let url = |cfg: Cfg| {
        let mut client = Oauth2::new(cfg);
        client
            .auth_get_url_with(VERIFIER.to_string(), "s".to_string())
            .unwrap_err()
    };
    assert_eq!(
        message(&url(Cfg {
            auth_server_url: None,
            listen_port: None,
            ..cfg()
        })),
        "auth_server_url is None"
    );
    assert_eq!(
        message(&url(Cfg {
            listen_port: None,
            scope: None,
            ..cfg()
        })),
        "listen_port is None"
    );
    assert_eq!(
        message(&url(Cfg {
            scope: None,
            ..cfg()
        })),
        "scope is None"
    );
    let e = url(Cfg {
        auth_server_url: Some("no url".to_string()),
        ..cfg()
    });
    assert!(matches!(e, Oauth2Error::Url(_)));
    assert_eq!(message(&e), "relative URL without a base");
    assert_eq!(
        message(&Oauth2::new(cfg()).get_auth_request_url().unwrap_err()),
        "code_challenge is None"
    );
}

#[test]
fn honest_response_leads_to_the_exchange_request() {
    let mut client = Oauth2::new(cfg());
    client
        .auth_get_url_with(VERIFIER.to_string(), "state-1".to_string())
        .unwrap();
    let request = client
        .auth_exchange(response(
            "state-1",
            "https://www.googleapis.com/auth/drive profile",
        ))
        .unwrap();
    assert_eq!(request.url, "https://oauth2.googleapis.com/token");
    assert_eq!(
        pairs(&request.form),
        vec![
            ("client_id", "id-1.apps"),
            ("code", "4/code"),
            ("code_verifier", VERIFIER),
            ("grant_type", "authorization_code"),
            ("redirect_uri", "http://localhost:42684"),
            ("client_secret", "s&cret"),
        ]
    );
    assert!(request.dpop.is_none());
}

#[test]
fn whole_drawn_flow_ties_verifier_and_challenge() {
    let mut client = Oauth2::new(cfg());
    let (url, _) = client.auth_get_url_and_listen().unwrap();
    let shown = query(&url);
    let request = client
        .auth_exchange(response(
            &shown[6].1,
            "https://www.googleapis.com/auth/drive profile",
        ))
        .unwrap();
    let verifier = request.form[2].1.clone();
    assert_ne!(verifier, shown[6].1);
    let mut other = Oauth2::new(cfg());
    let (again, _) = other
        .auth_get_url_with(verifier, shown[6].1.clone())
        .unwrap();
    assert_eq!(again, url);
    assert_eq!(request.form[4].1, shown[1].1);
}

#[test]
fn foreign_state_changes_nothing() {
    let mut client = Oauth2::new(cfg());
    client
        .auth_get_url_with(VERIFIER.to_string(), "state-1".to_string())
        .unwrap();
    let e = client
        .auth_exchange(response("state-2", "whatever"))
        .unwrap_err_text();
    assert_eq!(e, "state doesn't match: state-2 vs state-1");
    assert_eq!(
        client.get_exchange_request().unwrap_err_text(),
        "code is None"
    );
}

#[test]
fn only_the_latest_url_is_answered() {
    let mut client = Oauth2::new(cfg());
    let (first, _) = client.auth_get_url_and_listen().unwrap();
    let (second, _) = client.auth_get_url_and_listen().unwrap();
    let (old, new) = (query(&first)[6].1.clone(), query(&second)[6].1.clone());
    let scope = "https://www.googleapis.com/auth/drive profile";
    assert_eq!(
        client.auth_exchange(response(&old, scope)).unwrap_err_text(),
        format!("state doesn't match: {} vs {}", old, new)
    );
    assert!(client.auth_exchange(response(&new, scope)).is_ok());
}

#[test]
fn auth_url_tells_no_secret() {
    let mut one = Oauth2::new(cfg());
    let mut two = Oauth2::new(Cfg {
        token_server_url: "https://elsewhere".to_string(),
        client_secret: "other".to_string(),
        refresh_token: None,
        key_data: Some(key_data()),
        dpop_nonce: Some("n".to_string()),
        ..cfg()
    });
    let url = |client: &mut Oauth2| {
        client
            .auth_get_url_with(VERIFIER.to_string(), "s".to_string())
            .unwrap()
            .0
    };
    assert_eq!(url(&mut one), url(&mut two));
    assert!(!url(&mut one).contains(VERIFIER));
}

#[test]
fn foreign_scope_changes_nothing() {
    let mut client = Oauth2::new(cfg());
    client
        .auth_get_url_with(VERIFIER.to_string(), "state-1".to_string())
        .unwrap();
    let e = client
        .auth_exchange(response("state-1", "profile"))
        .unwrap_err_text();
    assert_eq!(
        e,
        "scope doesn't match: profile vs https://www.googleapis.com/auth/drive profile"
    );
    assert_eq!(
        client.get_exchange_request().unwrap_err_text(),
        "code is None"
    );
}

trait ErrText {
    fn unwrap_err_text(self) -> String;
}

impl<T> ErrText for Result<T, Oauth2Error> {
    fn unwrap_err_text(self) -> String {
        match self {
            Ok(_) => panic!("no error"),
            Err(e) => e.message().unwrap(),
        }
    }
}

#[test]
fn response_out_of_turn_is_refused() {
    let mut client = Oauth2::new(cfg());
    assert_eq!(
        client.auth_exchange(response("", "")).unwrap_err_text(),
        "state is None"
    );
    let mut refresher = Oauth2::new(Cfg {
        scope: None,
        ..cfg()
    });
    let _ = refresher.auth_get_url_with(VERIFIER.to_string(), "s".to_string());
    assert_eq!(
        refresher.auth_exchange(response("s", "")).unwrap_err_text(),
        "scope is None"
    );
    let mut deaf = Oauth2::new(Cfg {
        listen_port: None,
        ..cfg()
    });
    let _ = deaf.auth_get_url_with(VERIFIER.to_string(), "s".to_string());
    assert_eq!(
        deaf.auth_exchange(response("s", "https://www.googleapis.com/auth/drive profile"))
            .unwrap_err_text(),
        "listen_port is None"
    );
}

#[test]
fn exchange_request_carries_a_dpop_for_the_code() {
    let mut client = Oauth2::new(Cfg {
        key_data: Some(key_data()),
        dpop_nonce: Some("known".to_string()),
        ..cfg()
    });
    client
        .auth_get_url_with(VERIFIER.to_string(), "s".to_string())
        .unwrap();
    let r = response("s", "https://www.googleapis.com/auth/drive profile");
    let request = client.auth_exchange_at(r, 1_700_000_000).unwrap();
    let dpop = request.dpop.unwrap();
    assert_eq!(
        dpop,
        oauth2::dpop::create_auth_at(&key_data(), "4/code", &request.url, 1_700_000_000)
    );
    assert_eq!(payload(&dpop)["htu"], request.url.as_str());
    assert!(payload(&dpop).get("nonce").is_none());
}

#[test]
fn refresh_request_is_exact() {
    let request = Oauth2::new(cfg()).refresh().unwrap();
    assert_eq!(request.url, "https://oauth2.googleapis.com/token");
    assert_eq!(
        pairs(&request.form),
        vec![
            ("client_id", "id-1.apps"),
            ("client_secret", "s&cret"),
            ("grant_type", "refresh_token"),
            ("refresh_token", "refresh-1"),
        ]
    );
    assert!(request.dpop.is_none());
}

#[test]
fn refresh_needs_a_refresh_token() {
    let client = Oauth2::new(Cfg {
        refresh_token: None,
        ..cfg()
    });
    assert_eq!(client.refresh().unwrap_err_text(), "refresh_token is None");
    let signing = Oauth2::new(Cfg {
        refresh_token: None,
        key_data: Some(key_data()),
        ..cfg()
    });
    assert_eq!(signing.refresh().unwrap_err_text(), "refresh_token is None");
}

#[test]
fn refresh_request_carries_a_dpop_with_the_nonce() {
    let mut client = Oauth2::new(Cfg {
        key_data: Some(key_data()),
        ..cfg()
    });
    let first = client.get_refresh_request_with("j", 5).unwrap();
    assert_eq!(
        first.dpop.unwrap(),
        oauth2::dpop::create_at(&key_data(), &first.url, None, "j", 5)
    );
    client.set_dpop_nonce("n-2");
    let request = client.refresh().unwrap();
    let body = payload(&request.dpop.unwrap());
    assert_eq!(body["nonce"], "n-2");
    assert_eq!(body["htu"], "https://oauth2.googleapis.com/token");
    assert_eq!(body["jti"].as_str().unwrap().len(), 171);
}

fn exchange_response() -> ExchangeResponse {
    ExchangeResponse {
        access_token: "access-1".to_string(),
        expires_in: 3600,
        refresh_token: "refresh-2".to_string(),
        refresh_token_expires_in: Some(604_800),
        scope: "profile".to_string(),
    }
}

#[test]
fn exchange_response_grants_tokens() {
    let client = Oauth2::new(cfg());
    let tokens = client.auth_handle_exchange_response_at(
        exchange_response(),
        Some("n-1".to_string()),
        NOW,
    );
    assert_eq!(tokens.access_token, "access-1");
    assert_eq!(
        tokens.expires_at,
        Timestamp {
            secs: 1_700_003_595,
            nanos: 123_456_789
        }
    );
    assert_eq!(tokens.refresh_token, "refresh-2");
    assert_eq!(
        tokens.refresh_token_expires_at,
        Some(Timestamp {
            secs: 1_700_604_795,
            nanos: 123_456_789
        })
    );
    assert_eq!(tokens.scope, "profile");
    assert_eq!(tokens.dpop_nonce.as_deref(), Some("n-1"));
}

#[test]
fn exchange_response_at_the_margin() {
    let client = Oauth2::new(cfg());
    let tokens = client.auth_handle_exchange_response_at(
        ExchangeResponse {
            expires_in: 5,
            refresh_token_expires_in: None,
            ..exchange_response()
        },
        None,
        NOW,
    );
    assert_eq!(tokens.expires_at, NOW);
    assert!(tokens.refresh_token_expires_at.is_none());
    assert!(tokens.dpop_nonce.is_none());
}

#[test]
fn exchange_response_uses_the_present_time() {
    let before = chrono::Local::now().timestamp();
    let tokens = Oauth2::new(cfg()).auth_handle_exchange_response(exchange_response(), None);
    let after = chrono::Local::now().timestamp();
    assert!(before + 3595 <= tokens.expires_at.secs && tokens.expires_at.secs <= after + 3595);
    assert_eq!(
        tokens.refresh_token_expires_at.unwrap().secs - tokens.expires_at.secs,
        601_200
    );
}

fn refresh_response() -> Result<RefreshResponse, ServerError> {
    Ok(RefreshResponse {
        access_token: "access-2".to_string(),
        expires_in: 100,
        scope: "profile".to_string(),
    })
}

fn refusal(error: &str) -> Result<RefreshResponse, ServerError> {
    Err(ServerError {
        error: error.to_string(),
        error_description: "because".to_string(),
    })
}

#[test]
fn refresh_response_renews_the_access_token() {
    let mut client = Oauth2::new(cfg());
    client.set_dpop_nonce("known");
    let result = client
        .refresh_handle_response_at(refresh_response(), None, NOW)
        .unwrap();
    assert_eq!(result.access_token, "access-2");
    assert_eq!(
        result.expires_at,
        Timestamp {
            secs: 1_700_000_095,
            nanos: 123_456_789
        }
    );
    assert_eq!(result.scope, "profile");
    assert_eq!(result.dpop_nonce.as_deref(), Some("known"));
    let result = client
        .refresh_handle_response(refresh_response(), Some("newer".to_string()))
        .unwrap();
    assert_eq!(result.dpop_nonce.as_deref(), Some("newer"));
}

#[test]
fn refused_refresh_is_told_apart() {
    let client = Oauth2::new(cfg());
    let stale = client.refresh_handle_response_at(
        refusal("use_dpop_nonce"),
        Some("n-9".to_string()),
        NOW,
    );
    match stale {
        Err(RefreshHandleResponseError::UseDpopNonce {
            error_description,
            dpop_nonce,
        }) => {
            assert_eq!(error_description, "because");
            assert_eq!(dpop_nonce, "n-9");
        }
        _ => panic!("not a stale nonce"),
    }
    for (error, nonce) in [
        ("invalid_grant", None),
        ("invalid_grant", Some("n-9".to_string())),
        ("use_dpop_nonce", None),
    ] {
        match client.refresh_handle_response_at(refusal(error), nonce, NOW) {
            Err(RefreshHandleResponseError::Refused {
                error: e,
                error_description,
            }) => {
                assert_eq!(e, error);
                assert_eq!(error_description, "because");
            }
            _ => panic!("not refused"),
        }
    }
}

#[test]
fn merge_keeps_the_refresh_token() {
    let client = Oauth2::new(cfg());
    let mut tokens: TokenExchangeResult =
        client.auth_handle_exchange_response_at(exchange_response(), None, NOW);
    let later = Timestamp {
        secs: NOW.secs + 1000,
        nanos: 0,
    };
    let result = client
        .refresh_handle_response_at(refresh_response(), Some("n-3".to_string()), later)
        .unwrap();
    tokens.merge(&result);
    assert_eq!(tokens.access_token, "access-2");
    assert_eq!(tokens.expires_at.secs, NOW.secs + 1095);
    assert_eq!(tokens.expires_at.nanos, 0);
    assert_eq!(tokens.refresh_token, "refresh-2");
    assert_eq!(
        tokens.refresh_token_expires_at.unwrap().secs,
        NOW.secs + 604_795
    );
    assert_eq!(tokens.dpop_nonce.as_deref(), Some("n-3"));
}

#[test]
fn tokens_can_be_used_for_the_next_refresh() {
    let mut client = Oauth2::new(Cfg {
        refresh_token: None,
        key_data: Some(key_data()),
        ..cfg()
    });
    let tokens = client.auth_handle_exchange_response_at(
        exchange_response(),
        Some("n-4".to_string()),
        NOW,
    );
    client.use_tokens(&tokens);
    let request = client.refresh().unwrap();
    assert_eq!(request.form[3].1, "refresh-2");
    assert_eq!(payload(&request.dpop.unwrap())["nonce"], "n-4");
}

#[test]
fn instants_are_compared_to_the_nanosecond() {
    let later = Timestamp {
        secs: NOW.secs + 300,
        nanos: NOW.nanos,
    };
    assert!(!later.is_after_by(&NOW, 300));
    assert!(later.is_after_by(&NOW, 299));
    let a_bit_later = Timestamp {
        nanos: NOW.nanos + 1,
        ..later
    };
    assert!(a_bit_later.is_after_by(&NOW, 300));
    let end = Timestamp {
        secs: i64::MAX,
        nanos: 0,
    };
    assert!(!end.is_after_by(&end, u32::MAX));
}

#[test]
fn decimal_numbers() {
    assert_eq!(oauth2::text::write_decimal(0), "0");
    assert_eq!(oauth2::text::write_decimal(65535), "65535");
    assert_eq!(
        oauth2::text::write_decimal(u64::MAX),
        "18446744073709551615"
    );
    assert_eq!(oauth2::text::write_signed_decimal(-1), "-1");
    assert_eq!(
        oauth2::text::write_signed_decimal(i64::MIN),
        "-9223372036854775808"
    );
    assert_eq!(
        oauth2::text::write_signed_decimal(i64::MAX),
        "9223372036854775807"
    );
}

#[test]
fn json_objects() {
    assert_eq!(oauth2::json::write_object(&vec![]), "{}");
    assert_eq!(
        oauth2::json::write_object(&vec![
            ("a", "1".to_string()),
            ("b\"", "[]".to_string())
        ]),
        "{\"a\":1,\"b\\\"\":[]}"
    );
}
