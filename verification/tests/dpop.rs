use oauth2::dpop::{self, KeyData, Keypair, KeypairPemPkcs8};
use oauth2::keys::{LineEnding, PublicKey, SecretKey, SigningKey};
use oauth2::secret::{SecretBytes, SecretText};

const TOKEN_URL: &str = "https://oauth2.googleapis.com/token";

const HEADER: &str = "eyJ0eXAiOiJkcG9wK2p3dCIsImFsZyI6IkVTMjU2IiwiandrIjp7Imt0eSI6IkVDIiwieCI6IllQN1V1aVZhblRISllldDB4alZ0YU1CSnVKSTdZZnBzNW1saUxtRHluN1kiLCJ5IjoiZVFQLUVBaTR2Sm1rR3VucFZpaThaUEx4c2d3dGZwOVJkNlBDbE5SR0lwayIsImNydiI6IlAtMjU2In19";

const PUBLIC_PEM_LINES: [&str; 4] = [
    "-----BEGIN PUBLIC KEY-----",
    "MFkwEwYHKoZIzj0CAQYIKoZIzj0DAQcDQgAEYP7UuiVanTHJYet0xjVtaMBJuJI7",
    "Yfps5mliLmDyn7Z5A/4QCLi8maQa6elWKLxk8vGyDC1+n1F3o8KU1EYimQ==",
    "-----END PUBLIC KEY-----",
];

const SCALAR: [u8; 32] = [
    0xc9, 0xaf, 0xa9, 0xd8, 0x45, 0xba, 0x75, 0x16, 0x6b, 0x5c, 0x21, 0x57, 0x67, 0xb1, 0xd6, 0x93,
    0x4e, 0x50, 0xc3, 0xdb, 0x36, 0xe8, 0x9b, 0x12, 0x7b, 0x8a, 0x62, 0x2b, 0x12, 0x0f, 0x67, 0x21,
];

fn secret() -> SecretKey {
    SecretKey::from_scalar(SCALAR.to_vec()).unwrap()
}

fn keypair() -> Keypair {
    Keypair::from_private_key(secret())
}

fn key_data() -> KeyData {
    KeyData::from(&keypair())
}

fn copy(text: &SecretText) -> SecretText {
    SecretText::new(text.as_str().to_string())
}

fn hex(bytes: &[u8]) -> String {
    bytes.iter().map(|b| format!("{:02x}", b)).collect()
}

fn decode(text: &str) -> Vec<u8> {
    base64_url::decode(text).unwrap()
}

fn json(part: &str) -> serde_json::Value {
    serde_json::from_slice(&decode(part)).unwrap()
}

#[test]
fn public_key_of_a_known_secret_key() {
    let public = secret().public_key();
    assert_eq!(
        hex(&public.x()),
        "60fed4ba255a9d31c961eb74c6356d68c049b8923b61fa6ce669622e60f29fb6"
    );
    assert_eq!(
        hex(&public.y()),
        "7903fe1008b8bc99a41ae9e95628bc64f2f1b20c2d7e9f5177a3c294d4462299"
    );
}

#[test]
fn zero_is_no_secret_key() {
    assert!(SecretKey::from_scalar(vec![0; 32]).is_none());
    let mut one = vec![0; 32];
    one[31] = 1;
    assert!(SecretKey::from_scalar(one).is_some());
}

#[test]
fn drawn_key_makes_a_keypair_unless_zero_was_drawn() {
    let pair = Keypair::from_drawn_key(Some(secret())).unwrap();
    assert_eq!(
        dpop::create_at(&KeyData::from(&pair), TOKEN_URL, None, "j", 1),
        dpop::create_at(&key_data(), TOKEN_URL, None, "j", 1)
    );
    assert!(matches!(
        Keypair::from_drawn_key(None),
        Err(dpop::DpopError::ZeroKey)
    ));
}

#[test]
fn signature_of_a_known_message() {
    let signature = SigningKey::from(&secret()).sign(b"sample");
    assert_eq!(
        hex(&signature),
        "efd48b2aacb6a8fd1140dd9cd45e81d69d2c877b56aaf991c34d0ea84eaf3716\
         f7cb1c942d657c41d436c7a1b6e29f65f3e900dbb9aff4064dc4ab2f843acda8"
    );
}

#[test]
fn auth_dpop_is_exact() {
    let made = dpop::create_auth_at(&key_data(), "4/code", TOKEN_URL, 1_700_000_000);
    let expected = format!(
        "{}.{}.{}",
        HEADER,
        "eyJqdGkiOiJPVjRNbzF6U0wzanh1U3lKVGlZT3lYQThkUHF0dXk4SmR6VzlGamxEUjc4IiwiaHRtIjoiUE9TVCIsImh0dSI6Imh0dHBzOi8vb2F1dGgyLmdvb2dsZWFwaXMuY29tL3Rva2VuIiwiaWF0IjoxNzAwMDAwMDAwfQ",
        "xqB5w0RU1CBeYe0lWvLb54YSXkzkFk_w7Jt4dcWiOeIE97bDy7QCv3-g6fJpOUHWoksim13fs6-AvH3fHDa7Og"
    );
    assert_eq!(made, expected);
}

#[test]
fn refresh_dpop_is_exact() {
    let made = dpop::create_at(
        &key_data(),
        TOKEN_URL,
        Some("server-nonce"),
        "request-1",
        1_700_000_000,
    );
    let expected = format!(
        "{}.{}.{}",
        HEADER,
        "eyJqdGkiOiJyZXF1ZXN0LTEiLCJodG0iOiJQT1NUIiwiaHR1IjoiaHR0cHM6Ly9vYXV0aDIuZ29vZ2xlYXBpcy5jb20vdG9rZW4iLCJpYXQiOjE3MDAwMDAwMDAsIm5vbmNlIjoic2VydmVyLW5vbmNlIn0",
        "IThiYihDwM_IleLqHiEDaPvslDOBUw1uSATAAdlL935s447gqh8hmRzK9O6vR66q7PhKnlQN5PDE7ovayTeyGQ"
    );
    assert_eq!(made, expected);
}

#[test]
fn dpop_escapes_what_json_escapes() {
    let nonce = "a \"quoted\" \\ \u{1}\n\tnonce \u{e9}";
    let made = dpop::create_at(&key_data(), TOKEN_URL, Some(nonce), "request-1", -5);
    let expected = format!(
        "{}.{}.{}",
        HEADER,
        "eyJqdGkiOiJyZXF1ZXN0LTEiLCJodG0iOiJQT1NUIiwiaHR1IjoiaHR0cHM6Ly9vYXV0aDIuZ29vZ2xlYXBpcy5jb20vdG9rZW4iLCJpYXQiOi01LCJub25jZSI6ImEgXCJxdW90ZWRcIiBcXCBcdTAwMDFcblx0bm9uY2Ugw6kifQ",
        "YNJXOMQne7EiiEZoJQyfpV6KJtZVGsUTt4LenzwnBuzjaWCg4HX9T16s0HzIhi_5qQGI-204e736zEzVggtT7w"
    );
    assert_eq!(made, expected);
}

#[test]
fn every_control_character_is_escaped() {
    let nonce: String = (0u8..0x20).map(char::from).collect();
    let made = dpop::create_at(&key_data(), TOKEN_URL, Some(&nonce), "j", 0);
    let payload = made.split('.').nth(1).unwrap();
    let text = String::from_utf8(decode(payload)).unwrap();
    let start = text.find("\"nonce\":").unwrap() + 8;
    assert_eq!(
        &text[start..],
        "\"\\u0000\\u0001\\u0002\\u0003\\u0004\\u0005\\u0006\\u0007\\b\\t\\n\\u000b\\f\\r\\u000e\\u000f\
         \\u0010\\u0011\\u0012\\u0013\\u0014\\u0015\\u0016\\u0017\\u0018\\u0019\\u001a\\u001b\\u001c\\u001d\
         \\u001e\\u001f\"}"
    );
    assert_eq!(json(payload)["nonce"], nonce.as_str());
}

#[test]
fn create_uses_the_present_time() {
    let before = chrono::Local::now().timestamp();
    let made = dpop::create(&key_data(), TOKEN_URL, None, "request-2").unwrap();
    let after = chrono::Local::now().timestamp();
    let parts: Vec<&str> = made.split('.').collect();
    assert_eq!(parts.len(), 3);
    assert_eq!(parts[0], HEADER);
    let payload = json(parts[1]);
    let iat = payload["iat"].as_i64().unwrap();
    assert!(before <= iat && iat <= after);
    assert_eq!(payload["jti"], "request-2");
    assert_eq!(payload["htm"], "POST");
    assert_eq!(payload["htu"], TOKEN_URL);
    assert!(payload.get("nonce").is_none());
    assert_eq!(
        dpop::create_at(&key_data(), TOKEN_URL, None, "request-2", iat),
        made
    );
}

#[test]
fn create_auth_hashes_the_code() {
    let made = dpop::create_auth(&key_data(), "4/code", TOKEN_URL).unwrap();
    let payload = json(made.split('.').nth(1).unwrap());
    assert_eq!(payload["jti"], "OV4Mo1zSL3jxuSyJTiYOyXA8dPqtuy8JdzW9FjlDR78");
    assert!(payload.get("nonce").is_none());
}

#[test]
fn create_refresh_draws_a_new_identifier() {
    let one = dpop::create_refresh(&key_data(), TOKEN_URL, "n-1").unwrap();
    let two = dpop::create_refresh(&key_data(), TOKEN_URL, "n-1").unwrap();
    let one = json(one.split('.').nth(1).unwrap());
    let two = json(two.split('.').nth(1).unwrap());
    assert_eq!(one["nonce"], "n-1");
    assert_eq!(two["nonce"], "n-1");
    assert_ne!(one["jti"], two["jti"]);
    assert_eq!(decode(one["jti"].as_str().unwrap()).len(), 128);
}

#[test]
fn random_jti_encodes_128_bytes() {
    let jti = dpop::create_random_jti().unwrap();
    assert_eq!(jti.len(), 171);
    assert_eq!(decode(&jti).len(), 128);
    assert_ne!(jti, dpop::create_random_jti().unwrap());
}

#[test]
fn jti_is_the_encoding_of_its_bytes() {
    assert_eq!(dpop::write_jti(&vec![]), "");
    assert_eq!(dpop::write_jti(&vec![0xfb]), "-w");
    assert_eq!(dpop::write_jti(&vec![0xfb, 0xef]), "--8");
    assert_eq!(dpop::write_jti(&vec![0xfb, 0xef, 0xbe, 0xff]), "----_w");
}

#[test]
fn dpop_has_exactly_two_dots() {
    let made = dpop::create_at(&key_data(), "https://a.b.c/d.e", Some("n.o"), "j.t.i", 1);
    assert_eq!(made.matches('.').count(), 2);
    assert!(!made.contains('='));
}

#[test]
fn dpops_for_different_requests_differ() {
    let base = dpop::create_at(&key_data(), TOKEN_URL, None, "j", 1);
    let other_key = KeyData::from(&Keypair::generate().unwrap());
    for other in [
        dpop::create_at(&key_data(), "https://example.com", None, "j", 1),
        dpop::create_at(&key_data(), TOKEN_URL, Some(""), "j", 1),
        dpop::create_at(&key_data(), TOKEN_URL, None, "j2", 1),
        dpop::create_at(&key_data(), TOKEN_URL, None, "j", 11),
        dpop::create_at(&key_data(), TOKEN_URL, None, "j", -1),
        dpop::create_at(&other_key, TOKEN_URL, None, "j", 1),
    ] {
        assert_ne!(base, other);
    }
}

#[test]
fn key_data_can_be_put_together() {
    let public = secret().public_key();
    let data = KeyData::new(public.x(), public.y(), SigningKey::from(&secret()));
    assert_eq!(
        dpop::create_at(&data, TOKEN_URL, None, "j", 1),
        dpop::create_at(&key_data(), TOKEN_URL, None, "j", 1)
    );
    let pair = Keypair::new(secret().public_key(), secret());
    assert_eq!(
        dpop::create_at(&KeyData::from(&pair), TOKEN_URL, None, "j", 1),
        dpop::create_at(&key_data(), TOKEN_URL, None, "j", 1)
    );
}

#[test]
fn pem_documents_are_exact() {
    let pem = KeypairPemPkcs8::with_line_ending(&keypair(), LineEnding::Lf).unwrap();
    assert_eq!(pem.public_key, PUBLIC_PEM_LINES.join("\n") + "\n");
    let lines: Vec<&str> = pem.private_key.as_str().split('\n').collect();
    assert_eq!(lines.len(), 6);
    assert_eq!(
        lines[1],
        "MIGHAgEAMBMGByqGSM49AgEGCCqGSM49AwEHBG0wawIBAQQgya+p2EW6dRZrXCFX"
    );
    assert_eq!(
        lines[2],
        "Z7HWk05Qw9s26JsSe4piKxIPZyGhRANCAARg/tS6JVqdMclh63TGNW1owEm4kjth"
    );
    assert_eq!(
        lines[3],
        "+mzmaWIuYPKftnkD/hAIuLyZpBrp6VYovGTy8bIMLX6fUXejwpTURiKZ"
    );
    assert_eq!(lines[5], "");
}

#[test]
fn pem_lines_end_as_told() {
    let crlf = KeypairPemPkcs8::with_line_ending(&keypair(), LineEnding::CrLf).unwrap();
    assert_eq!(crlf.public_key, PUBLIC_PEM_LINES.join("\r\n") + "\r\n");
    let cr = KeypairPemPkcs8::with_line_ending(&keypair(), LineEnding::Cr).unwrap();
    assert_eq!(cr.public_key, PUBLIC_PEM_LINES.join("\r") + "\r");
    let native = KeypairPemPkcs8::try_from(&keypair()).unwrap();
    let unified = native.public_key.replace("\r\n", "\n");
    assert_eq!(unified, PUBLIC_PEM_LINES.join("\n") + "\n");
}

#[test]
fn pem_round_trip_gives_the_same_keypair() {
    for ending in [LineEnding::Cr, LineEnding::Lf, LineEnding::CrLf] {
        let pem = KeypairPemPkcs8::with_line_ending(&keypair(), ending).unwrap();
        let read = Keypair::try_from(&pem).unwrap();
        assert_eq!(
            dpop::create_at(&KeyData::from(&read), TOKEN_URL, None, "j", 1),
            dpop::create_at(&key_data(), TOKEN_URL, None, "j", 1)
        );
        let direct = KeyData::from_pem(pem.public_key, pem.private_key.as_str().to_string()).unwrap();
        assert_eq!(
            dpop::create_at(&direct, TOKEN_URL, None, "j", 1),
            dpop::create_at(&key_data(), TOKEN_URL, None, "j", 1)
        );
    }
}

#[test]
fn generated_keypair_survives_the_round_trip() {
    let pair = Keypair::generate().unwrap();
    let pem = KeypairPemPkcs8::try_from(&pair).unwrap();
    let read = Keypair::try_from(&KeypairPemPkcs8::new(pem.public_key, pem.private_key)).unwrap();
    assert_eq!(
        dpop::create_at(&KeyData::from(&read), TOKEN_URL, None, "j", 1),
        dpop::create_at(&KeyData::from(&pair), TOKEN_URL, None, "j", 1)
    );
}

#[test]
fn broken_pem_documents_are_told_apart() {
    let pem = KeypairPemPkcs8::with_line_ending(&keypair(), LineEnding::Lf).unwrap();
    let no_public = KeypairPemPkcs8::new("nonsense".to_string(), copy(&pem.private_key));
    assert_eq!(
        Keypair::try_from(&no_public).err(),
        Some("failed to parse public key")
    );
    let no_private = KeypairPemPkcs8::new(
        pem.public_key.clone(),
        SecretText::new("nonsense".to_string()),
    );
    assert_eq!(
        Keypair::try_from(&no_private).err(),
        Some("failed to parse private key")
    );
    let neither = KeypairPemPkcs8::new(String::new(), SecretText::new(String::new()));
    assert_eq!(
        Keypair::try_from(&neither).err(),
        Some("failed to parse public key")
    );
    assert!(PublicKey::from_public_key_pem(pem.private_key.as_str()).is_none());
    assert!(SecretKey::from_pkcs8_pem(&pem.public_key).is_none());
}

#[test]
fn secrets_give_back_what_they_hold() {
    let bytes = SecretBytes::new(vec![1, 2, 3]);
    let other = bytes.copy();
    drop(bytes);
    assert_eq!(other.as_slice(), &[1, 2, 3]);
    let text = SecretText::new("secret".to_string());
    assert_eq!(text.as_str(), "secret");
}

#[test]
fn signature_segment_has_86_characters() {
    let made = dpop::create_at(&key_data(), TOKEN_URL, None, "j", 1);
    let signature = made.split('.').nth(2).unwrap();
    assert_eq!(signature.len(), 86);
    assert_eq!(decode(signature).len(), 64);
}

#[test]
fn generated_key_data_has_32_byte_coordinates() {
    let data = KeyData::from(&Keypair::generate().unwrap());
    let made = dpop::create_at(&data, TOKEN_URL, None, "j", 1);
    let header = json(made.split('.').next().unwrap());
    for name in ["x", "y"] {
        assert_eq!(decode(header["jwk"][name].as_str().unwrap()).len(), 32);
    }
}
