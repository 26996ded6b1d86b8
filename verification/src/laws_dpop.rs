//! What the calls that make keys and DPoPs give, in terms of what they are given.

use vstd::prelude::*;

use crate::base64url;
use crate::clock;
use crate::clock::Timestamp;
use crate::digest;
use crate::dpop;
use crate::dpop::{DpopError, KeyData, Keypair, KeypairPemPkcs8};
use crate::dpop_text;
use crate::keys;
use crate::keys::{LineEnding, PublicKey, SecretKey, SigningKey};
use crate::random;
use crate::secret::{SecretBytes, SecretText};
use crate::text;

verus! {

/// Key data holds the coordinates and the signing key that it was made of, each in its place.
pub proof fn key_data_holds_what_it_is_made_of(
    x: Vec<u8>,
    y: Vec<u8>,
    signing_key: SigningKey,
    key_data: KeyData,
)
    requires
        call_ensures(KeyData::new, (x, y, signing_key), key_data),
    ensures
        key_data@.x == x@,
        key_data@.y == y@,
        key_data@.secret == signing_key@,
{
}

/// The key data of a keypair has the coordinates of its public key, 32 bytes each, and signs with its
/// private key.
pub proof fn key_data_is_that_of_the_keypair(
    public_key: PublicKey,
    private_key: SecretKey,
    keypair: Keypair,
    key_data: KeyData,
)
    requires
        call_ensures(Keypair::new, (public_key, private_key), keypair),
        call_ensures(<KeyData as From<&Keypair>>::from, (&keypair,), key_data),
    ensures
        key_data@.x == public_key@.0,
        key_data@.y == public_key@.1,
        key_data@.secret == private_key@,
        key_data@.x.len() == 32,
        key_data@.y.len() == 32,
        key_data@.secret.len() == 32,
{
}

/// A keypair that is made of a private key has that key, and the public key that belongs to it.
pub proof fn keypair_belongs_together(private_key: SecretKey, keypair: Keypair)
    requires
        call_ensures(Keypair::from_private_key, (private_key,), keypair),
    ensures
        keypair@.private_key == private_key@,
        keypair@.public_key == keys::public_point(private_key@),
        keypair@.public_key.0.len() == 32,
        keypair@.public_key.1.len() == 32,
{
}

/// A keypair that is generated has a private key that has been drawn, and the public key that belongs
/// to it. Only for want of random bytes, or where zero was drawn, is there none.
pub proof fn generated_keypair_has_been_drawn(keypair: Result<Keypair, DpopError>)
    requires
        call_ensures(Keypair::generate, (), keypair),
    ensures
        match keypair {
            Ok(k) => random::was_drawn(k@.private_key) && keys::is_secret(k@.private_key)
                && k@.public_key == keys::public_point(k@.private_key) && keys::is_point(
                k@.public_key.0,
                k@.public_key.1,
            ),
            Err(DpopError::ZeroKey) => exists|scalar: Seq<u8>| #[trigger]
                random::was_drawn(scalar) && scalar.len() == 32 && (forall|i: int|
                    0 <= i < 32 ==> #[trigger] scalar[i] == 0),
            Err(DpopError::Entropy(_)) => true,
        },
{
    if keypair matches Err(DpopError::ZeroKey) {
        let scalar = choose|scalar: Seq<u8>| #[trigger]
            random::was_drawn(scalar) && scalar.len() == 32 && keys::big_endian(scalar) == 0;
        lemma_zero_bytes(scalar);
        assert(random::was_drawn(scalar));
    }
}

/// A private key that has been drawn makes the keypair with that key; where zero was drawn, there is
/// none.
pub proof fn drawn_key_makes_its_keypair(
    drawn: Option<SecretKey>,
    keypair: Result<Keypair, DpopError>,
)
    requires
        call_ensures(Keypair::from_drawn_key, (drawn,), keypair),
    ensures
        drawn matches Some(key) ==> (keypair matches Ok(k) && k@.private_key == key@
            && k@.public_key == keys::public_point(key@)),
        drawn is None ==> keypair matches Err(DpopError::ZeroKey),
{
}

/// A secret key is made of any number of 32 bytes but zero, and is that number.
pub proof fn secret_key_is_the_number(scalar: Vec<u8>, key: Option<SecretKey>)
    requires
        call_ensures(SecretKey::from_scalar, (scalar,), key),
        scalar@.len() == 32,
    ensures
        key is None <==> (forall|i: int| 0 <= i < 32 ==> #[trigger] scalar@[i] == 0),
        key matches Some(k) ==> k@ == scalar@,
{
    lemma_zero_bytes(scalar@);
}

/// A number in bytes is zero if and only if all of its bytes are.
proof fn lemma_zero_bytes(bytes: Seq<u8>)
    ensures
        keys::big_endian(bytes) == 0 <==> (forall|i: int|
            0 <= i < bytes.len() ==> #[trigger] bytes[i] == 0),
    decreases bytes.len(),
{
    if bytes.len() > 0 {
        let rest = bytes.drop_last();
        lemma_zero_bytes(rest);
        if keys::big_endian(bytes) == 0 {
            assert forall|i: int| 0 <= i < bytes.len() implies #[trigger] bytes[i] == 0 by {
                if i < rest.len() {
                    assert(rest[i] == 0);
                }
            }
        } else if forall|i: int| 0 <= i < bytes.len() ==> #[trigger] bytes[i] == 0 {
            assert forall|i: int| 0 <= i < rest.len() implies #[trigger] rest[i] == 0 by {
                assert(bytes[i] == 0);
            }
            assert(bytes[bytes.len() - 1] == 0);
        }
    }
}

/// Signing keys sign with the secret key that they are made of.
pub proof fn signature_is_by_the_secret_key(
    key: &SecretKey,
    signing_key: SigningKey,
    message: &[u8],
    signature: Vec<u8>,
)
    requires
        call_ensures(<SigningKey as From<&SecretKey>>::from, (key,), signing_key),
        call_ensures(SigningKey::sign, (&signing_key, message), signature),
    ensures
        signature@ == keys::es256(key@, message@),
        signature@.len() == 64,
{
}

/// PEM documents that are written hold the keypair: reading them gives it back, and they are the
/// documents for its keys. Where one cannot be written, the error says which.
pub proof fn pem_documents_are_those_of_the_keypair(
    keypair: &Keypair,
    line_ending: LineEnding,
    pem: Result<KeypairPemPkcs8, &'static str>,
    read: Result<Keypair, &'static str>,
)
    requires
        call_ensures(KeypairPemPkcs8::with_line_ending, (keypair, line_ending), pem),
        pem matches Ok(p) ==> call_ensures(
            <Keypair as TryFrom<&KeypairPemPkcs8>>::try_from,
            (&p,),
            read,
        ),
    ensures
        match pem {
            Ok(p) => {
                &&& read matches Ok(k)
                &&& k@.public_key == keypair@.public_key
                &&& k@.private_key == keypair@.private_key
                &&& keys::point_pem(
                    keypair@.public_key.0,
                    keypair@.public_key.1,
                    line_ending@,
                ) == Some(p.public_key@)
                &&& keys::secret_pem(keypair@.private_key, line_ending@) == Some(p.private_key@)
            },
            Err(e) => {
                ||| e@ == "failed to convert public key to PEM"@ && keys::point_pem(
                    keypair@.public_key.0,
                    keypair@.public_key.1,
                    line_ending@,
                ) is None
                ||| e@ == "failed to convert private key to PKCS#8 PEM"@ && keys::secret_pem(
                    keypair@.private_key,
                    line_ending@,
                ) is None
            },
        },
{
}

/// Key data is read from PEM documents if both hold a key, and then has the keys in them. Otherwise
/// the error says which holds none, the public one first.
pub proof fn key_data_is_read_from_its_documents(
    public_pem: String,
    private_pem: String,
    key_data: Result<KeyData, &'static str>,
)
    requires
        call_ensures(KeyData::from_pem, (public_pem, private_pem), key_data),
    ensures
        match key_data {
            Ok(k) => keys::point_in_pem(public_pem@) == Some((k@.x, k@.y)) && keys::secret_in_pem(
                private_pem@,
            ) == Some(k@.secret) && k@.x.len() == 32 && k@.y.len() == 32,
            Err(e) => {
                ||| keys::point_in_pem(public_pem@) is None && e@ == "failed to parse public key"@
                ||| keys::point_in_pem(public_pem@) is Some && keys::secret_in_pem(private_pem@) is None
                    && e@ == "failed to parse private key"@
            },
        },
{
}

/// A DPoP for given contents is the text that these contents make in full.
pub proof fn dpop_has_its_contents(
    key_data: &KeyData,
    url: &str,
    nonce: Option<&str>,
    jti: &str,
    iat: i64,
    made: String,
)
    requires
        call_ensures(dpop::create_at, (key_data, url, nonce, jti, iat), made),
    ensures
        dpop_text::is_proof(
            made@,
            key_data@.x,
            key_data@.y,
            key_data@.secret,
            url@,
            match nonce {
                Some(nonce) => Some(nonce@),
                None => None,
            },
            jti@,
            iat as int,
        ),
{
    dpop_text::dpop_reads_in_full(key_data@, url@, nonce.deep_view(), jti@, iat as int);
}

/// A DPoP for an auth request has the hash of the code as its identifier, no nonce, and the time that
/// it is given.
pub proof fn auth_dpop_has_the_hash_of_the_code(
    key_data: &KeyData,
    auth_code: &str,
    url: &str,
    iat: i64,
    made: String,
)
    requires
        call_ensures(dpop::create_auth_at, (key_data, auth_code, url, iat), made),
    ensures
        dpop_text::is_proof(
            made@,
            key_data@.x,
            key_data@.y,
            key_data@.secret,
            url@,
            None,
            base64url::base64url(digest::sha256(text::utf8(auth_code@))),
            iat as int,
        ),
{
    let jti = base64url::base64url(digest::sha256(text::utf8(auth_code@)));
    dpop_text::dpop_reads_in_full(key_data@, url@, None, jti, iat as int);
}

/// A DPoP for an auth request can always be made, and has the time that was read from the clock.
pub proof fn auth_dpop_has_the_time_of_the_clock(
    key_data: &KeyData,
    auth_code: &str,
    url: &str,
    made: Result<String, DpopError>,
)
    requires
        call_ensures(dpop::create_auth, (key_data, auth_code, url), made),
    ensures
        made matches Ok(m) && exists|now: Timestamp| #[trigger]
            clock::was_read(now) && dpop_text::is_proof(
                m@,
                key_data@.x,
                key_data@.y,
                key_data@.secret,
                url@,
                None,
                base64url::base64url(digest::sha256(text::utf8(auth_code@))),
                now.secs as int,
            ),
{
    let jti = base64url::base64url(digest::sha256(text::utf8(auth_code@)));
    let now = choose|now: Timestamp| #[trigger]
        clock::was_read(now) && clock::is_reading(now) && dpop::is_dpop(
            made->Ok_0@,
            key_data@,
            url@,
            None,
            jti,
            now.secs as int,
        );
    dpop_text::dpop_reads_in_full(key_data@, url@, None, jti, now.secs as int);
}

/// A DPoP can always be made, and has the contents that it is given and the time that was read from
/// the clock.
pub proof fn dpop_has_the_time_of_the_clock(
    key_data: &KeyData,
    url: &str,
    nonce: Option<&str>,
    jti: &str,
    made: Result<String, DpopError>,
)
    requires
        call_ensures(dpop::create, (key_data, url, nonce, jti), made),
    ensures
        made matches Ok(m) && exists|now: Timestamp| #[trigger]
            clock::was_read(now) && dpop_text::is_proof(
                m@,
                key_data@.x,
                key_data@.y,
                key_data@.secret,
                url@,
                match nonce {
                    Some(nonce) => Some(nonce@),
                    None => None,
                },
                jti@,
                now.secs as int,
            ),
{
    let now = choose|now: Timestamp| #[trigger]
        clock::was_read(now) && clock::is_reading(now) && dpop::is_dpop(
            made->Ok_0@,
            key_data@,
            url@,
            nonce.deep_view(),
            jti@,
            now.secs as int,
        );
    dpop_text::dpop_reads_in_full(key_data@, url@, nonce.deep_view(), jti@, now.secs as int);
}

/// A DPoP for a refresh request has the nonce that it is given, the time that was read from the clock,
/// and an identifier that encodes 128 bytes which have been drawn. Only for want of random bytes is
/// there none.
pub proof fn refresh_dpop_has_a_drawn_identifier(
    key_data: &KeyData,
    url: &str,
    nonce: &str,
    made: Result<String, DpopError>,
)
    requires
        call_ensures(dpop::create_refresh, (key_data, url, nonce), made),
    ensures
        match made {
            Ok(m) => exists|now: Timestamp, bytes: Seq<u8>| #[trigger]
                clock::was_read(now) && #[trigger] random::was_drawn(bytes) && bytes.len() == 128
                    && dpop_text::is_proof(
                    m@,
                    key_data@.x,
                    key_data@.y,
                    key_data@.secret,
                    url@,
                    Some(nonce@),
                    base64url::base64url(bytes),
                    now.secs as int,
                ),
            Err(e) => e is Entropy,
        },
{
    if let Ok(m) = made {
        let jti = choose|jti: Seq<char>|
            dpop::is_random_jti(jti) && dpop::is_drawn_jti(jti) && #[trigger] dpop::is_timed_dpop(
                m@,
                key_data@,
                url@,
                Some(nonce@),
                jti,
            );
        let bytes = choose|bytes: Seq<u8>|
            bytes.len() == dpop::JTI_BYTES && #[trigger] random::was_drawn(bytes) && jti
                == base64url::base64url(bytes);
        let now = choose|now: Timestamp| #[trigger]
            clock::was_read(now) && clock::is_reading(now) && dpop::is_dpop(
                m@,
                key_data@,
                url@,
                Some(nonce@),
                jti,
                now.secs as int,
            );
        dpop_text::dpop_reads_in_full(key_data@, url@, Some(nonce@), jti, now.secs as int);
        assert(clock::was_read(now) && random::was_drawn(bytes));
    }
}

/// A random identifier encodes 128 bytes that have been drawn.
pub proof fn random_jti_has_been_drawn(jti: Result<String, DpopError>, bytes: &Vec<u8>, text: String)
    requires
        call_ensures(dpop::create_random_jti, (), jti),
        call_ensures(dpop::write_jti, (bytes,), text),
    ensures
        text@ == base64url::base64url(bytes@),
        match jti {
            Ok(j) => exists|drawn: Seq<u8>| #[trigger]
                random::was_drawn(drawn) && drawn.len() == 128 && j@ == base64url::base64url(drawn),
            Err(e) => e is Entropy,
        },
{
}

/// A public key has the coordinates that its document holds, and is written as the document for them.
pub proof fn public_key_has_its_coordinates(
    pem: &str,
    key: Option<PublicKey>,
    x: Vec<u8>,
    y: Vec<u8>,
    line_ending: LineEnding,
    written: Option<String>,
)
    requires
        call_ensures(PublicKey::from_public_key_pem, (pem,), key),
        key matches Some(k) ==> call_ensures(PublicKey::x, (&k,), x) && call_ensures(
            PublicKey::y,
            (&k,),
            y,
        ) && call_ensures(PublicKey::to_public_key_pem, (&k, line_ending), written),
    ensures
        key is None <==> keys::point_in_pem(pem@) is None,
        key is Some ==> keys::point_in_pem(pem@) == Some((x@, y@)) && x@.len() == 32 && y@.len()
            == 32,
        key is Some ==> match written {
            Some(w) => keys::point_pem(x@, y@, line_ending@) == Some(w@),
            None => keys::point_pem(x@, y@, line_ending@) is None,
        },
{
}

/// The public key of a secret key is the point that belongs to the number in its document, and the
/// secret key is written as the document for that number.
pub proof fn secret_key_has_its_public_key(
    pem: &str,
    key: Option<SecretKey>,
    public_key: PublicKey,
    x: Vec<u8>,
    y: Vec<u8>,
    line_ending: LineEnding,
    written: Option<SecretText>,
)
    requires
        call_ensures(SecretKey::from_pkcs8_pem, (pem,), key),
        key matches Some(k) ==> call_ensures(SecretKey::public_key, (&k,), public_key)
            && call_ensures(SecretKey::to_pkcs8_pem, (&k, line_ending), written),
        call_ensures(PublicKey::x, (&public_key,), x),
        call_ensures(PublicKey::y, (&public_key,), y),
    ensures
        key is None <==> keys::secret_in_pem(pem@) is None,
        keys::secret_in_pem(pem@) matches Some(secret) ==> (x@, y@) == keys::public_point(secret)
            && match written {
            Some(w) => keys::secret_pem(secret, line_ending@) == Some(w@),
            None => keys::secret_pem(secret, line_ending@) is None,
        },
{
}

/// Secrets hold what they take over, and so do their copies.
pub proof fn secrets_hold_what_they_take_over(
    bytes: Vec<u8>,
    secret: SecretBytes,
    held: &[u8],
    copy: SecretBytes,
    copied: &[u8],
    text: String,
    secret_text: SecretText,
    held_text: &str,
)
    requires
        call_ensures(SecretBytes::new, (bytes,), secret),
        call_ensures(SecretBytes::as_slice, (&secret,), held),
        call_ensures(SecretBytes::copy, (&secret,), copy),
        call_ensures(SecretBytes::as_slice, (&copy,), copied),
        call_ensures(SecretText::new, (text,), secret_text),
        call_ensures(SecretText::as_str, (&secret_text,), held_text),
    ensures
        held@ == bytes@,
        copied@ == bytes@,
        held_text@ == text@,
{
}

/// PEM documents are taken over as they are.
pub proof fn documents_are_taken_over(public_key: String, private_key: SecretText, pem: KeypairPemPkcs8)
    requires
        call_ensures(KeypairPemPkcs8::new, (public_key, private_key), pem),
    ensures
        pem.public_key@ == public_key@,
        pem.private_key@ == private_key@,
{
}

/// PEM documents that are written for a keypair with the line ending of the operating system hold the
/// keypair.
pub proof fn native_documents_hold_the_keypair(
    keypair: &Keypair,
    pem: Result<KeypairPemPkcs8, &'static str>,
)
    requires
        call_ensures(<KeypairPemPkcs8 as TryFrom<&Keypair>>::try_from, (keypair,), pem),
    ensures
        match pem {
            Ok(p) => keys::point_in_pem(p.public_key@) == Some(keypair@.public_key)
                && keys::secret_in_pem(p.private_key@) == Some(keypair@.private_key),
            Err(e) => e@ == "failed to convert public key to PEM"@ || e@
                == "failed to convert private key to PKCS#8 PEM"@,
        },
{
}

} // verus!
