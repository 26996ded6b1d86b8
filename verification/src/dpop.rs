//! DPoP proofs: signed statements that a request for tokens comes from the holder of a key.

use rand::rngs::SysError;
use vstd::prelude::*;

use crate::base64url;
use crate::clock;
use crate::clock::Timestamp;
use crate::digest;
use crate::json;
use crate::keys;
use crate::keys::{LineEnding, PublicKey, SecretKey, SigningKey};
use crate::random;
use crate::secret::SecretText;
use crate::text;

verus! {

/// Why a keypair could not be generated or a DPoP could not be created.
#[derive(Debug)]
pub enum DpopError {
    /// The operating system gave no random bytes.
    Entropy(SysError),

    /// Zero was drawn for the secret key, which then has no public key.
    ZeroKey,
}

/// The data from a public/private keypair that is relevant to DPoP creation.
pub struct KeyData {
    /// The x coordinate of the public key's elliptic curve point.
    public_key_x: Vec<u8>,

    /// The y coordinate of the public key's elliptic curve point.
    public_key_y: Vec<u8>,

    /// The signing key that corresponds to the private key which is paired with the above public
    /// key data.
    signing_key: SigningKey,
}

/// What a `KeyData` holds.
pub struct KeyDataView {
    /// The x coordinate of the public key.
    pub x: Seq<u8>,

    /// The y coordinate of the public key.
    pub y: Seq<u8>,

    /// The secret key that signs.
    pub secret: Seq<u8>,
}

impl KeyDataView {
    /// Whether the coordinates are those of a point of the curve, and the secret key is one of it.
    pub open spec fn is_valid(self) -> bool {
        keys::is_point(self.x, self.y) && keys::is_secret(self.secret)
    }
}

impl View for KeyData {
    type V = KeyDataView;

    closed spec fn view(&self) -> KeyDataView {
        KeyDataView { x: self.public_key_x@, y: self.public_key_y@, secret: self.signing_key@ }
    }
}

/// What optional key data holds.
pub open spec fn key_data_view(key_data: Option<KeyData>) -> Option<KeyDataView> {
    match key_data {
        Some(key_data) => Some(key_data@),
        None => None,
    }
}

impl KeyData {
    /// Creates a new `KeyData`.
    pub fn new(public_key_x: Vec<u8>, public_key_y: Vec<u8>, signing_key: SigningKey) -> (key_data:
        Self)
        ensures
            key_data@ == (KeyDataView { x: public_key_x@, y: public_key_y@, secret: signing_key@ }),
    {
        KeyData { public_key_x, public_key_y, signing_key }
    }
}

impl vstd::std_specs::convert::FromSpecImpl<&Keypair> for KeyData {
    open spec fn obeys_from_spec() -> bool {
        false
    }

    open spec fn from_spec(keypair: &Keypair) -> KeyData {
        arbitrary()
    }
}

impl From<&Keypair> for KeyData {
    /// Extracts `KeyData` from a `Keypair`.
    fn from(keypair: &Keypair) -> (key_data: KeyData)
        ensures
            key_data@ == keypair@.key_data(),
            key_data@.is_valid(),
    {
        let signing_key = SigningKey::from(&keypair.private_key);
        KeyData::new(keypair.public_key.x(), keypair.public_key.y(), signing_key)
    }
}

/// A public/private keypair.
pub struct Keypair {
    /// The public key.
    public_key: PublicKey,

    /// The private key.
    private_key: SecretKey,
}

/// What a `Keypair` holds.
pub struct KeypairView {
    /// The coordinates of the public key.
    pub public_key: (Seq<u8>, Seq<u8>),

    /// The private key.
    pub private_key: Seq<u8>,
}

impl KeypairView {
    /// What the keypair contributes to a DPoP: the coordinates of its public key, and its private
    /// key to sign with.
    pub open spec fn key_data(self) -> KeyDataView {
        KeyDataView { x: self.public_key.0, y: self.public_key.1, secret: self.private_key }
    }

    /// Whether the public key is a point of the curve and the private key a secret key of it.
    pub open spec fn is_valid(self) -> bool {
        keys::is_point(self.public_key.0, self.public_key.1) && keys::is_secret(self.private_key)
    }

    /// Whether the public key belongs to the private key.
    pub open spec fn is_matching(self) -> bool {
        self.is_valid() && self.public_key == keys::public_point(self.private_key)
    }
}

impl View for Keypair {
    type V = KeypairView;

    closed spec fn view(&self) -> KeypairView {
        KeypairView { public_key: self.public_key@, private_key: self.private_key@ }
    }
}

impl Keypair {
    /// Creates a new `Keypair`.
    pub fn new(public_key: PublicKey, private_key: SecretKey) -> (keypair: Self)
        ensures
            keypair@ == (KeypairView { public_key: public_key@, private_key: private_key@ }),
    {
        Keypair { public_key, private_key }
    }

    /// Generates a new secure random P-256 elliptic curve public/private keypair.
    ///
    /// Which keypair it is rests on chance, and so does whether there is one.
    pub fn generate() -> (keypair: Result<Keypair, DpopError>)
        ensures
            keypair matches Ok(k) ==> k@.is_matching() && random::was_drawn(k@.private_key),
            keypair matches Err(DpopError::ZeroKey) ==> keys::zero_was_drawn(),
    {
        let mut rng = match random::seeded() {
            Ok(rng) => rng,
            Err(e) => return Err(DpopError::Entropy(e)),
        };
        Keypair::from_drawn_key(SecretKey::generate_from_rng(&mut rng))
    }

    /// The keypair of a private key that has been drawn, which is `None` if zero was.
    pub fn from_drawn_key(private_key: Option<SecretKey>) -> (keypair: Result<Keypair, DpopError>)
        ensures
            match private_key {
                Some(drawn) => keypair matches Ok(k) && k@.private_key == drawn@
                    && k@.is_matching(),
                None => keypair matches Err(e) && e is ZeroKey,
            },
    {
        match private_key {
            Some(private_key) => Ok(Keypair::from_private_key(private_key)),
            None => Err(DpopError::ZeroKey),
        }
    }

    /// The keypair of a private key and the public key that belongs to it.
    pub fn from_private_key(private_key: SecretKey) -> (keypair: Keypair)
        ensures
            keypair@.private_key == private_key@,
            keypair@.is_matching(),
    {
        Keypair { public_key: private_key.public_key(), private_key }
    }
}

impl vstd::std_specs::convert::TryFromSpecImpl<&KeypairPemPkcs8> for Keypair {
    open spec fn obeys_try_from_spec() -> bool {
        false
    }

    open spec fn try_from_spec(keypair_pem_pkcs8: &KeypairPemPkcs8) -> Result<
        Keypair,
        &'static str,
    > {
        arbitrary()
    }
}

impl TryFrom<&KeypairPemPkcs8> for Keypair {
    type Error = &'static str;

    /// Attempts to decode a PEM PKCS#8 encoded keypair.
    fn try_from(keypair_pem_pkcs8: &KeypairPemPkcs8) -> (keypair: Result<Keypair, &'static str>)
        ensures
            match (
                keys::point_in_pem(keypair_pem_pkcs8.public_key@),
                keys::secret_in_pem(keypair_pem_pkcs8.private_key@),
            ) {
                (Some(public_key), Some(private_key)) => keypair matches Ok(k) && k@ == (
                KeypairView { public_key, private_key }) && k@.is_valid(),
                (Some(_), None) => keypair matches Err(e) && e@ == "failed to parse private key"@,
                (None, _) => keypair matches Err(e) && e@ == "failed to parse public key"@,
            },
    {
        let public_pem = keypair_pem_pkcs8.public_key.as_str();
        let public_key = match PublicKey::from_public_key_pem(public_pem) {
            Some(public_key) => public_key,
            None => return Err("failed to parse public key"),
        };
        let private_key = match SecretKey::from_pkcs8_pem(keypair_pem_pkcs8.private_key.as_str()) {
            Some(private_key) => private_key,
            None => return Err("failed to parse private key"),
        };
        Ok(Keypair { public_key, private_key })
    }
}

/// PEM PKCS#8 encoded public/private keypair.
pub struct KeypairPemPkcs8 {
    /// The PEM PKCS#8 encoded public key.
    pub public_key: String,

    /// The PEM PKCS#8 encoded private key, which is wiped from memory when it is dropped.
    pub private_key: SecretText,
}

impl KeypairPemPkcs8 {
    /// Creates a new `KeypairPemPkcs8`.
    pub fn new(public_key: String, private_key: SecretText) -> (pem: Self)
        ensures
            pem.public_key@ == public_key@,
            pem.private_key@ == private_key@,
    {
        KeypairPemPkcs8 { public_key, private_key }
    }

    /// Converts a `Keypair` into a `KeypairPemPkcs8` whose lines end as told.
    pub fn with_line_ending(keypair: &Keypair, line_ending: LineEnding) -> (pem: Result<
        KeypairPemPkcs8,
        &'static str,
    >)
        ensures
            pem_outcome(keypair@, line_ending@, pem),
    {
        let public_key = match keypair.public_key.to_public_key_pem(line_ending) {
            Some(public_key) => public_key,
            None => return Err("failed to convert public key to PEM"),
        };
        let private_key = match keypair.private_key.to_pkcs8_pem(line_ending) {
            Some(private_key) => private_key,
            None => return Err("failed to convert private key to PKCS#8 PEM"),
        };
        Ok(KeypairPemPkcs8 { public_key, private_key })
    }
}

/// What converting `keypair` into PEM documents with the given line ending results in: both
/// documents, each of which holds the key it was made from, or the first that cannot be written.
pub open spec fn pem_outcome(
    keypair: KeypairView,
    line_ending: Seq<char>,
    outcome: Result<KeypairPemPkcs8, &'static str>,
) -> bool {
    match (
        keys::point_pem(keypair.public_key.0, keypair.public_key.1, line_ending),
        keys::secret_pem(keypair.private_key, line_ending),
    ) {
        (Some(public_pem), Some(private_pem)) => {
            &&& outcome matches Ok(pem)
            &&& pem.public_key@ == public_pem
            &&& pem.private_key@ == private_pem
            &&& keys::point_in_pem(public_pem) == Some(keypair.public_key)
            &&& keys::secret_in_pem(private_pem) == Some(keypair.private_key)
        },
        (Some(_), None) => {
            outcome matches Err(e) && e@ == "failed to convert private key to PKCS#8 PEM"@
        },
        (None, _) => outcome matches Err(e) && e@ == "failed to convert public key to PEM"@,
    }
}

impl vstd::std_specs::convert::TryFromSpecImpl<&Keypair> for KeypairPemPkcs8 {
    open spec fn obeys_try_from_spec() -> bool {
        false
    }

    open spec fn try_from_spec(keypair: &Keypair) -> Result<KeypairPemPkcs8, &'static str> {
        arbitrary()
    }
}

impl TryFrom<&Keypair> for KeypairPemPkcs8 {
    type Error = &'static str;

    /// Attempts to convert a `Keypair` into a `KeypairPemPkcs8`, whose lines end as the operating
    /// system has it.
    fn try_from(keypair: &Keypair) -> (pem: Result<KeypairPemPkcs8, &'static str>)
        ensures
            exists|line_ending: LineEnding| #[trigger]
                pem_outcome(keypair@, line_ending@, pem),
    {
        let line_ending = keys::native_line_ending();
        KeypairPemPkcs8::with_line_ending(keypair, line_ending)
    }
}

/// The key data in a pair of PEM documents, or why there is none.
pub open spec fn key_data_in_pem(public_pem: Seq<char>, private_pem: Seq<char>) -> Result<
    KeyDataView,
    Seq<char>,
> {
    match (keys::point_in_pem(public_pem), keys::secret_in_pem(private_pem)) {
        (Some(public_key), Some(private_key)) => Ok(
            (KeypairView { public_key, private_key }).key_data(),
        ),
        (Some(_), None) => Err("failed to parse private key"@),
        (None, _) => Err("failed to parse public key"@),
    }
}

impl KeyData {
    /// Extracts `KeyData` from the PEM documents of a public and a private key.
    pub fn from_pem(public_pem: String, private_pem: String) -> (key_data: Result<
        KeyData,
        &'static str,
    >)
        ensures
            match key_data_in_pem(public_pem@, private_pem@) {
                Ok(k) => key_data matches Ok(d) && d@ == k && k.is_valid(),
                Err(reason) => key_data matches Err(e) && e@ == reason,
            },
    {
        let pem = KeypairPemPkcs8::new(public_pem, SecretText::new(private_pem));
        match Keypair::try_from(&pem) {
            Ok(keypair) => Ok(KeyData::from(&keypair)),
            Err(e) => Err(e),
        }
    }
}

/// The JSON Web Key of a DPoP.
pub open spec fn jwk_json(key: KeyDataView) -> Seq<char> {
    json::json_object(
        seq![
            ("kty"@, json::json_string("EC"@)),
            ("x"@, json::json_string(base64url::base64url(key.x))),
            ("y"@, json::json_string(base64url::base64url(key.y))),
            ("crv"@, json::json_string("P-256"@)),
        ],
    )
}

/// The header of a DPoP.
pub open spec fn header_json(key: KeyDataView) -> Seq<char> {
    json::json_object(
        seq![
            ("typ"@, json::json_string("dpop+jwt"@)),
            ("alg"@, json::json_string("ES256"@)),
            ("jwk"@, jwk_json(key)),
        ],
    )
}

/// The members of the payload of a DPoP: the nonce is among them only if there is one.
pub open spec fn payload_members(
    jti: Seq<char>,
    url: Seq<char>,
    iat: int,
    nonce: Option<Seq<char>>,
) -> Seq<(Seq<char>, Seq<char>)> {
    let always = seq![
        ("jti"@, json::json_string(jti)),
        ("htm"@, json::json_string("POST"@)),
        ("htu"@, json::json_string(url)),
        ("iat"@, text::signed_decimal(iat)),
    ];
    match nonce {
        Some(nonce) => always.push(("nonce"@, json::json_string(nonce))),
        None => always,
    }
}

/// The payload of a DPoP.
pub open spec fn payload_json(
    jti: Seq<char>,
    url: Seq<char>,
    iat: int,
    nonce: Option<Seq<char>>,
) -> Seq<char> {
    json::json_object(payload_members(jti, url, iat, nonce))
}

/// The part of a DPoP that is signed: the encoded header, a dot and the encoded payload.
pub open spec fn unsigned_dpop(
    key: KeyDataView,
    url: Seq<char>,
    nonce: Option<Seq<char>>,
    jti: Seq<char>,
    iat: int,
) -> Seq<char> {
    base64url::base64url(text::utf8(header_json(key))) + "."@ + base64url::base64url(
        text::utf8(payload_json(jti, url, iat, nonce)),
    )
}

/// A DPoP: the encoded header, the encoded payload and the encoded signature of both, with dots
/// in between.
pub open spec fn dpop(
    key: KeyDataView,
    url: Seq<char>,
    nonce: Option<Seq<char>>,
    jti: Seq<char>,
    iat: int,
) -> Seq<char> {
    unsigned_dpop(key, url, nonce, jti, iat) + "."@ + base64url::base64url(
        signature(key, url, nonce, jti, iat),
    )
}

/// The signature of a DPoP: the ES256 signature of its encoded header, the dot and its encoded
/// payload.
pub open spec fn signature(
    key: KeyDataView,
    url: Seq<char>,
    nonce: Option<Seq<char>>,
    jti: Seq<char>,
    iat: int,
) -> Seq<u8> {
    keys::es256(key.secret, text::utf8(unsigned_dpop(key, url, nonce, jti, iat)))
}

/// The number of bytes of a signature: `r` and `s`, 32 bytes each.
pub const SIGNATURE_BYTES: usize = 64;

/// The number of characters that the encoded signature of a DPoP has.
pub const SIGNATURE_CHARS: usize = 86;

/// Whether `made` is the DPoP with the given contents, and ends with an encoded signature of 64
/// bytes.
pub open spec fn is_dpop(
    made: Seq<char>,
    key: KeyDataView,
    url: Seq<char>,
    nonce: Option<Seq<char>>,
    jti: Seq<char>,
    iat: int,
) -> bool {
    &&& made == dpop(key, url, nonce, jti, iat)
    &&& signature(key, url, nonce, jti, iat).len() == SIGNATURE_BYTES
    &&& base64url::base64url(signature(key, url, nonce, jti, iat)).len() == SIGNATURE_CHARS
}

/// The `jti` of a DPoP that goes with an authorization code: `BASE64URL(SHA256(code))`.
pub open spec fn auth_jti(auth_code: Seq<char>) -> Seq<char> {
    base64url::base64url(digest::sha256(text::utf8(auth_code)))
}

/// The number of random bytes behind the `jti` of a refresh request.
pub const JTI_BYTES: usize = 128;

/// Whether `jti` encodes as many bytes as a random `jti` has.
pub open spec fn is_random_jti(jti: Seq<char>) -> bool {
    exists|bytes: Seq<u8>|
        bytes.len() == JTI_BYTES && jti == #[trigger] base64url::base64url(bytes)
}

/// Whether `jti` encodes as many bytes as a random `jti` has, and they have been drawn.
pub open spec fn is_drawn_jti(jti: Seq<char>) -> bool {
    exists|bytes: Seq<u8>|
        bytes.len() == JTI_BYTES && #[trigger] random::was_drawn(bytes) && jti
            == base64url::base64url(bytes)
}

/// Whether `made` is a DPoP with the given contents and a time that has been read from the clock.
pub open spec fn is_timed_dpop(
    made: Seq<char>,
    key: KeyDataView,
    url: Seq<char>,
    nonce: Option<Seq<char>>,
    jti: Seq<char>,
) -> bool {
    exists|now: Timestamp| #[trigger]
        clock::was_read(now) && clock::is_reading(now) && is_dpop(
            made,
            key,
            url,
            nonce,
            jti,
            now.secs as int,
        )
}

/// Whether `made` is a DPoP for a refresh request: one with a `jti` that has been drawn and a time
/// that has been read from the clock.
pub open spec fn is_refresh_dpop(
    made: Seq<char>,
    key: KeyDataView,
    url: Seq<char>,
    nonce: Seq<char>,
) -> bool {
    exists|jti: Seq<char>|
        is_random_jti(jti) && is_drawn_jti(jti) && #[trigger] is_timed_dpop(
            made,
            key,
            url,
            Some(nonce),
            jti,
        )
}

/// A JSON Web Key for a DPoP, as defined at
/// <https://developers.google.com/identity/protocols/oauth2/native-app#constructing-dpop-proof>.
struct Jwk<'a> {
    /// Key type. Must be "EC".
    kty: &'a str,

    /// The Base64URL-encoded x coordinate of the public key's elliptic curve point.
    x: String,

    /// The Base64URL-encoded y coordinate of the public key's elliptic curve point.
    y: String,

    /// Elliptic curve type. Must be "P-256".
    crv: &'a str,
}

impl<'a> Jwk<'a> {
    /// Creates a new `Jwk` from `KeyData`.
    fn from_key_data(key_data: &KeyData) -> (jwk: Jwk<'a>)
        ensures
            jwk.json() == jwk_json(key_data@),
    {
        Jwk {
            kty: "EC",
            x: base64url::encode(key_data.public_key_x.as_slice()),
            y: base64url::encode(key_data.public_key_y.as_slice()),
            crv: "P-256",
        }
    }

    /// The key as JSON.
    spec fn json(self) -> Seq<char> {
        json::json_object(
            seq![
                ("kty"@, json::json_string(self.kty@)),
                ("x"@, json::json_string(self.x@)),
                ("y"@, json::json_string(self.y@)),
                ("crv"@, json::json_string(self.crv@)),
            ],
        )
    }

    /// Writes the key as JSON.
    fn to_json(&self) -> (json: String)
        ensures
            json@ == self.json(),
    {
        let members = vec![
            ("kty", json::write_string(self.kty)),
            ("x", json::write_string(self.x.as_str())),
            ("y", json::write_string(self.y.as_str())),
            ("crv", json::write_string(self.crv)),
        ];
        assert(members.deep_view() =~= seq![
            ("kty"@, json::json_string(self.kty@)),
            ("x"@, json::json_string(self.x@)),
            ("y"@, json::json_string(self.y@)),
            ("crv"@, json::json_string(self.crv@)),
        ]);
        json::write_object(&members)
    }
}

/// The DPoP header, as defined at
/// <https://developers.google.com/identity/protocols/oauth2/native-app#constructing-dpop-proof>.
struct DpopHeader<'a> {
    /// Type of DPoP. Must always be "dpop+jwt".
    typ: &'a str,

    /// The algorithm used in the DPoP. Must always be "ES256".
    alg: &'a str,

    /// The DPoP's JSON Web Key.
    jwk: Jwk<'a>,
}

impl<'a> DpopHeader<'a> {
    /// Creates a `DPoP` header from `KeyData`.
    fn from_key_data(key_data: &KeyData) -> (header: DpopHeader<'a>)
        ensures
            header.json() == header_json(key_data@),
    {
        DpopHeader { typ: "dpop+jwt", alg: "ES256", jwk: Jwk::from_key_data(key_data) }
    }

    /// The header as JSON.
    spec fn json(self) -> Seq<char> {
        json::json_object(
            seq![
                ("typ"@, json::json_string(self.typ@)),
                ("alg"@, json::json_string(self.alg@)),
                ("jwk"@, self.jwk.json()),
            ],
        )
    }

    /// Writes the header as JSON.
    fn to_json(&self) -> (json: String)
        ensures
            json@ == self.json(),
    {
        let members = vec![
            ("typ", json::write_string(self.typ)),
            ("alg", json::write_string(self.alg)),
            ("jwk", self.jwk.to_json()),
        ];
        assert(members.deep_view() =~= seq![
            ("typ"@, json::json_string(self.typ@)),
            ("alg"@, json::json_string(self.alg@)),
            ("jwk"@, self.jwk.json()),
        ]);
        json::write_object(&members)
    }
}

/// DPoP payload, as defined at
/// <https://developers.google.com/identity/protocols/oauth2/native-app#constructing-dpop-proof>.
struct DpopPayload<'a> {
    /// "JWT ID". For auth exchanges, this must be `BASE64URL(SHA256(AUTHORIZATION_CODE))`. For
    /// refresh exchanges, it must be a unique (never reused) request identifier.
    jti: &'a str,

    /// HTTP method. Must be "POST".
    htm: &'a str,

    /// HTTP URL. Must match the URL that this request is being sent to.
    htu: &'a str,

    /// Current time as a UNIX timestamp in seconds.
    iat: i64,

    /// DPoP nonce returned in the previous request, or None if this is the first request.
    nonce: Option<&'a str>,
}

impl<'a> DpopPayload<'a> {
    /// Creates a new `DpopPayload` for the given time.
    fn new(jti: &'a str, token_server_url: &'a str, nonce: Option<&'a str>, iat: i64) -> (payload:
        Self)
        ensures
            payload.json() == payload_json(
                jti@,
                token_server_url@,
                iat as int,
                nonce.deep_view(),
            ),
    {
        DpopPayload { jti, htm: "POST", htu: token_server_url, iat, nonce }
    }

    /// The members of the payload: the nonce is left out if it is `None`.
    spec fn members(self) -> Seq<(Seq<char>, Seq<char>)> {
        let always = seq![
            ("jti"@, json::json_string(self.jti@)),
            ("htm"@, json::json_string(self.htm@)),
            ("htu"@, json::json_string(self.htu@)),
            ("iat"@, text::signed_decimal(self.iat as int)),
        ];
        match self.nonce {
            Some(nonce) => always.push(("nonce"@, json::json_string(nonce@))),
            None => always,
        }
    }

    /// The payload as JSON.
    spec fn json(self) -> Seq<char> {
        json::json_object(self.members())
    }

    /// Writes the payload as JSON.
    fn to_json(&self) -> (json: String)
        ensures
            json@ == self.json(),
    {
        let mut members = vec![
            ("jti", json::write_string(self.jti)),
            ("htm", json::write_string(self.htm)),
            ("htu", json::write_string(self.htu)),
            ("iat", text::write_signed_decimal(self.iat)),
        ];
        if let Some(nonce) = self.nonce {
            members.push(("nonce", json::write_string(nonce)));
        }
        assert(members.deep_view() =~= self.members());
        json::write_object(&members)
    }
}

/// Creates a DPoP for an auth request.
pub fn create_auth(key_data: &KeyData, auth_code: &str, token_server_url: &str) -> (made: Result<
    String,
    DpopError,
>)
    ensures
        made matches Ok(p) && is_timed_dpop(
            p@,
            key_data@,
            token_server_url@,
            None,
            auth_jti(auth_code@),
        ),
{
    let now = clock::now();
    Ok(create_auth_at(key_data, auth_code, token_server_url, now.secs))
}

/// Creates a DPoP for an auth request at the given time.
pub fn create_auth_at(
    key_data: &KeyData,
    auth_code: &str,
    token_server_url: &str,
    iat: i64,
) -> (made: String)
    ensures
        is_dpop(
            made@,
            key_data@,
            token_server_url@,
            None,
            auth_jti(auth_code@),
            iat as int,
        ),
{
    let jti = base64url::encode(digest::sha256_digest(auth_code.as_bytes()).as_slice());
    create_at(key_data, token_server_url, None, jti.as_str(), iat)
}

/// Creates a DPoP for a refresh request.
pub fn create_refresh(key_data: &KeyData, token_server_url: &str, nonce: &str) -> (made: Result<
    String,
    DpopError,
>)
    ensures
        match made {
            Ok(p) => is_refresh_dpop(p@, key_data@, token_server_url@, nonce@),
            Err(e) => e is Entropy,
        },
{
    let jti = create_random_jti()?;
    create(key_data, token_server_url, Some(nonce), jti.as_str())
}

/// Creates a DPoP with the given `jti`, as described at
/// <https://developers.google.com/identity/protocols/oauth2/native-app#constructing-dpop-proof>.
pub fn create(key_data: &KeyData, token_server_url: &str, nonce: Option<&str>, jti: &str) -> (made:
    Result<String, DpopError>)
    ensures
        made matches Ok(p) && is_timed_dpop(
            p@,
            key_data@,
            token_server_url@,
            nonce.deep_view(),
            jti@,
        ),
{
    let now = clock::now();
    Ok(create_at(key_data, token_server_url, nonce, jti, now.secs))
}

/// Creates a DPoP with the given `jti` at the given time.
pub fn create_at(
    key_data: &KeyData,
    token_server_url: &str,
    nonce: Option<&str>,
    jti: &str,
    iat: i64,
) -> (made: String)
    ensures
        is_dpop(made@, key_data@, token_server_url@, nonce.deep_view(), jti@, iat as int),
{
    let dpop_header_json = DpopHeader::from_key_data(key_data).to_json();
    let encoded_dpop_header = base64url::encode(dpop_header_json.as_str().as_bytes());

    let dpop_payload_json = DpopPayload::new(jti, token_server_url, nonce, iat).to_json();
    let encoded_dpop_payload = base64url::encode(dpop_payload_json.as_str().as_bytes());

    let mut made = encoded_dpop_header;
    made.append(".");
    made.append(encoded_dpop_payload.as_str());
    let signature = key_data.signing_key.sign(made.as_str().as_bytes());
    made.append(".");
    made.append(base64url::encode(signature.as_slice()).as_str());
    made
}

/// Generates 128 cryptographically random bytes, then Base64URL-encodes them. The JTI appears to
/// accept only characters within the base64 alphabet, despite there being no documentation to that
/// effect.
///
/// Which bytes they are rests on chance, and so does whether there are any.
pub fn create_random_jti() -> (jti: Result<String, DpopError>)
    ensures
        match jti {
            Ok(j) => is_random_jti(j@) && is_drawn_jti(j@),
            Err(e) => e is Entropy,
        },
{
    let mut rng = match random::seeded() {
        Ok(rng) => rng,
        Err(e) => return Err(DpopError::Entropy(e)),
    };
    let mut bytes: Vec<u8> = vec![0; JTI_BYTES];
    random::fill(&mut rng, &mut bytes);
    Ok(write_jti(&bytes))
}

/// Base64URL-encodes the bytes that have been drawn for a `jti`.
pub fn write_jti(bytes: &Vec<u8>) -> (jti: String)
    ensures
        jti@ == base64url::base64url(bytes@),
        bytes@.len() == JTI_BYTES ==> is_random_jti(jti@),
{
    base64url::encode(bytes.as_slice())
}

} // verus!
