use oauth2::cli::{self, OutputMode, Report};
use oauth2::dpop::{KeyData, Keypair};
use oauth2::{AuthResponse, ClientInfo, Installed, Oauth2, RefreshResult, Timestamp, Tokens};

fn at(secs: i64) -> Timestamp {
    Timestamp { secs, nanos: 0 }
}

fn client_info() -> ClientInfo {
    ClientInfo {
        installed: Installed {
            client_id: "id-1".to_string(),
            auth_uri: "https://accounts.google.com/o/oauth2/auth".to_string(),
            token_uri: "https://oauth2.googleapis.com/token".to_string(),
            client_secret: "secret-1".to_string(),
        },
    }
}

fn tokens() -> Tokens {
    Tokens {
        access_token: "access-1".to_string(),
        expires_at: at(10),
        refresh_token: "refresh-1".to_string(),
        refresh_token_expires_at: Some(at(20)),
        scope: "profile".to_string(),
        dpop_nonce: Some("n-1".to_string()),
    }
}

fn renewed() -> RefreshResult {
    RefreshResult {
        access_token: "access-2".to_string(),
        expires_at: at(30),
        scope: "email".to_string(),
        dpop_nonce: Some("n-2".to_string()),
    }
}

fn text(report: Report) -> String {
    match report {
        Report::Text(text) => text,
        Report::Json(_) => panic!("not text"),
    }
}

fn json(report: Report) -> cli::Tokens {
    match report {
        Report::Text(_) => panic!("not JSON"),
        Report::Json(tokens) => tokens,
    }
}

#[test]
fn init_prints_every_line() {
    assert_eq!(
        text(cli::init_report(
            OutputMode::Text,
            false,
            tokens(),
            "ten",
            Some("twenty")
        )),
        "access_token: access-1\nexpires_at: ten\nrefresh_token: refresh-1\n\
         refresh_token_expires_at: twenty\nscope: profile\n"
    );
    let forever = Tokens {
        refresh_token_expires_at: None,
        ..tokens()
    };
    assert_eq!(
        text(cli::init_report(
            OutputMode::Text,
            false,
            forever,
            "ten",
            None
        )),
        "access_token: access-1\nexpires_at: ten\nrefresh_token: refresh-1\nscope: profile\n"
    );
}

#[test]
fn terse_text_is_the_access_token_only() {
    assert_eq!(
        text(cli::init_report(
            OutputMode::Text,
            true,
            tokens(),
            "ten",
            Some("twenty")
        )),
        "access_token: access-1\n"
    );
    assert_eq!(
        text(cli::refresh_report(
            OutputMode::Text,
            true,
            renewed(),
            tokens(),
            "thirty"
        )),
        "access_token: access-2\n"
    );
}

#[test]
fn refresh_prints_every_line() {
    assert_eq!(
        text(cli::refresh_report(
            OutputMode::Text,
            false,
            renewed(),
            tokens(),
            "thirty"
        )),
        "access_token: access-2\nexpires_at: thirty\nscope: email\n"
    );
}

#[test]
fn init_json_has_everything() {
    let out = json(cli::init_report(
        OutputMode::Json,
        false,
        tokens(),
        "ten",
        Some("twenty"),
    ));
    assert_eq!(out.access_token, "access-1");
    assert_eq!(out.expires_at, Some(at(10)));
    assert_eq!(out.refresh_token.as_deref(), Some("refresh-1"));
    assert_eq!(out.refresh_token_expires_at, Some(at(20)));
    assert_eq!(out.scope.as_deref(), Some("profile"));
    assert_eq!(out.dpop_nonce.as_deref(), Some("n-1"));
}

#[test]
fn refresh_json_keeps_the_refresh_token() {
    let out = json(cli::refresh_report(
        OutputMode::Json,
        false,
        renewed(),
        tokens(),
        "thirty",
    ));
    assert_eq!(out.access_token, "access-2");
    assert_eq!(out.expires_at, Some(at(30)));
    assert_eq!(out.refresh_token.as_deref(), Some("refresh-1"));
    assert_eq!(out.refresh_token_expires_at, Some(at(20)));
    assert_eq!(out.scope.as_deref(), Some("email"));
    assert_eq!(out.dpop_nonce.as_deref(), Some("n-2"));
}

#[test]
fn terse_json_is_the_access_token_only() {
    for out in [
        json(cli::init_report(
            OutputMode::Json,
            true,
            tokens(),
            "ten",
            Some("twenty"),
        )),
        json(cli::refresh_report(
            OutputMode::Json,
            true,
            renewed(),
            tokens(),
            "thirty",
        )),
    ] {
        assert!(out.access_token.starts_with("access-"));
        assert!(out.expires_at.is_none());
        assert!(out.refresh_token.is_none());
        assert!(out.refresh_token_expires_at.is_none());
        assert!(out.scope.is_none());
        assert!(out.dpop_nonce.is_none());
    }
}

#[test]
fn init_runs_with_the_auth_server() {
    let mut client = Oauth2::new(cli::init_cfg(client_info(), 8080, "profile", None));
    let (url, port) = client
        .auth_get_url_with("v".to_string(), "s".to_string())
        .unwrap();
    assert_eq!(port, 8080);
    assert!(url.starts_with("https://accounts.google.com/o/oauth2/auth?client_id=id-1&"));
    let request = client
        .auth_exchange(AuthResponse {
            state: "s".to_string(),
            code: "c".to_string(),
            scope: "profile".to_string(),
        })
        .unwrap();
    assert_eq!(request.url, "https://oauth2.googleapis.com/token");
    assert_eq!(request.form[5].1, "secret-1");
    assert!(client.refresh().is_err());
}

#[test]
fn refresh_runs_with_the_saved_tokens() {
    let data = KeyData::from(&Keypair::generate().unwrap());
    let client = Oauth2::new(cli::refresh_cfg(client_info(), &tokens(), Some(data)));
    let request = client.refresh().unwrap();
    assert_eq!(request.form[3].1, "refresh-1");
    let dpop = request.dpop.unwrap();
    let payload = base64_url::decode(dpop.split('.').nth(1).unwrap()).unwrap();
    let payload: serde_json::Value = serde_json::from_slice(&payload).unwrap();
    assert_eq!(payload["nonce"], "n-1");
}

#[test]
fn key_paths_come_in_pairs() {
    assert_eq!(
        cli::key_data_from_paths(Some("a"), Some("b")),
        Ok(Some(("a", "b")))
    );
    assert_eq!(cli::key_data_from_paths::<&str>(None, None), Ok(None));
    let only_one = Err("only one of --public-key-path and --private-key-path was provided");
    assert_eq!(cli::key_data_from_paths(Some("a"), None), only_one);
    assert_eq!(cli::key_data_from_paths(None, Some("b")), only_one);
}

#[test]
fn refresh_token_survives_rounds_of_saving() {
    let mut file = json(cli::init_report(
        OutputMode::Json,
        false,
        tokens(),
        "ten",
        Some("twenty"),
    ));
    for round in 0..3 {
        let read = file.into_tokens().unwrap();
        assert_eq!(read.refresh_token, "refresh-1");
        assert_eq!(read.refresh_token_expires_at, Some(at(20)));
        let expected = if round == 0 { "n-1" } else { "n-2" };
        assert_eq!(read.dpop_nonce.as_deref(), Some(expected));
        let client = Oauth2::new(cli::refresh_cfg(client_info(), &read, None));
        assert_eq!(client.refresh().unwrap().form[3].1, "refresh-1");
        file = json(cli::refresh_report(
            OutputMode::Json,
            false,
            renewed(),
            read,
            "thirty",
        ));
    }
    assert_eq!(file.access_token, "access-2");
}

#[test]
fn terse_output_cannot_be_refreshed_from() {
    let terse = json(cli::init_report(
        OutputMode::Json,
        true,
        tokens(),
        "ten",
        Some("twenty"),
    ));
    assert!(terse.into_tokens().is_none());
}
