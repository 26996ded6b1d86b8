//! P-256 keys as plain bytes, their PEM encodings, and ES256 signatures.

use ecdsa::elliptic_curve::Generate;
use ecdsa::signature::Signer;
use p256::elliptic_curve::point::AffineCoordinates;
use p256::pkcs8::{DecodePrivateKey, DecodePublicKey, EncodePrivateKey, EncodePublicKey};
use rand::rngs::StdRng;
use vstd::prelude::*;

use crate::random;
use crate::secret::{SecretBytes, SecretText};

verus! {

/// The number that `bytes` stand for, most significant byte first.
pub open spec fn big_endian(bytes: Seq<u8>) -> nat
    decreases bytes.len(),
{
    if bytes.len() == 0 {
        0
    } else {
        big_endian(bytes.drop_last()) * 256 + bytes.last() as nat
    }
}

/// The order of the P-256 group.
pub open spec fn group_order() -> int {
    0xffffffff00000000ffffffffffffffffbce6faada7179e84f3b9cac2fc632551int
}

/// The prime modulus of the field over which P-256 is defined.
pub open spec fn field_prime() -> int {
    0xffffffff00000001000000000000000000000000ffffffffffffffffffffffffint
}

/// The constant term of the curve's equation.
pub open spec fn curve_b() -> int {
    0x5ac635d8aa3a93e7b3ebbd55769886bc651d06b0cc53b0f63bce3c3e27d2604bint
}

/// Whether `secret` is a P-256 secret key: 32 bytes that stand for a number from one up to, and
/// without, the order of the group.
pub open spec fn is_secret(secret: Seq<u8>) -> bool {
    secret.len() == 32 && 0 < big_endian(secret) < group_order()
}

/// Whether zero has been drawn for a secret key.
pub open spec fn zero_was_drawn() -> bool {
    exists|scalar: Seq<u8>| #[trigger]
        random::was_drawn(scalar) && scalar.len() == 32 && big_endian(scalar) == 0
}

/// Whether `x` and `y` are the coordinates of a point of P-256: 32 bytes each, that stand for
/// elements of the field which satisfy `y^2 = x^3 - 3x + b`.
pub open spec fn is_point(x: Seq<u8>, y: Seq<u8>) -> bool {
    let px = big_endian(x) as int;
    let py = big_endian(y) as int;
    &&& x.len() == 32
    &&& y.len() == 32
    &&& px < field_prime()
    &&& py < field_prime()
    &&& (py * py) % field_prime() == (px * px * px - 3 * px + curve_b()) % field_prime()
}

/// The coordinates of the public key that belongs to a secret key.
pub uninterp spec fn public_point(secret: Seq<u8>) -> (Seq<u8>, Seq<u8>);

/// The coordinates of the public key that a PEM document holds, if it holds one.
pub uninterp spec fn point_in_pem(pem: Seq<char>) -> Option<(Seq<u8>, Seq<u8>)>;

/// The secret key that a PKCS#8 PEM document holds, if it holds one.
pub uninterp spec fn secret_in_pem(pem: Seq<char>) -> Option<Seq<u8>>;

/// The PEM document for the public key with the given coordinates, with the given line ending.
pub uninterp spec fn point_pem(x: Seq<u8>, y: Seq<u8>, line_ending: Seq<char>) -> Option<Seq<char>>;

/// The PKCS#8 PEM document for a secret key, with the given line ending.
pub uninterp spec fn secret_pem(secret: Seq<u8>, line_ending: Seq<char>) -> Option<Seq<char>>;

/// The ES256 signature of a message: `r` and `s`, 32 bytes each.
pub uninterp spec fn es256(secret: Seq<u8>, message: Seq<u8>) -> Seq<u8>;

/// How the lines of a PEM document end.
#[derive(Clone, Copy, Debug, PartialEq, Eq, Structural)]
pub enum LineEnding {
    /// A carriage return.
    Cr,

    /// A line feed.
    Lf,

    /// A carriage return and a line feed.
    CrLf,
}

impl View for LineEnding {
    type V = Seq<char>;

    open spec fn view(&self) -> Seq<char> {
        match self {
            LineEnding::Cr => seq!['\r'],
            LineEnding::Lf => seq!['\n'],
            LineEnding::CrLf => seq!['\r', '\n'],
        }
    }
}

/// The line ending that `base64ct::LineEnding::default` gives.
///
/// Nothing is claimed of the result: it rests on the operating system.
#[verifier::external_body]
pub(crate) fn native_line_ending() -> (line_ending: LineEnding)
{
    match base64ct::LineEnding::default() {
        base64ct::LineEnding::CR => LineEnding::Cr,
        base64ct::LineEnding::LF => LineEnding::Lf,
        base64ct::LineEnding::CRLF => LineEnding::CrLf,
    }
}

/// Draws a secret key with `p256::SecretKey::generate_from_rng`.
///
/// The contract says that the key is a number below the order of the group in 32 bytes, which has
/// been drawn. Which one it is rests on chance; nothing keeps it from being zero.
#[verifier::external_body]
fn generate_scalar(rng: &mut StdRng) -> (scalar: Vec<u8>)
    ensures
        scalar@.len() == 32,
        big_endian(scalar@) < group_order(),
        random::was_drawn(scalar@),
{
    p256::SecretKey::generate_from_rng(rng).to_bytes().to_vec()
}

/// Computes the public key of a secret key with `p256::SecretKey::public_key`.
///
/// The contract says that the coordinates are a function of the secret key alone and those of a
/// point of the curve.
#[verifier::external_body]
fn derive_point(secret: &[u8]) -> (point: (Vec<u8>, Vec<u8>))
    requires
        is_secret(secret@),
    ensures
        (point.0@, point.1@) == public_point(secret@),
        is_point(point.0@, point.1@),
{
    let key = p256::SecretKey::from_slice(secret).unwrap().public_key();
    let point = key.as_affine();
    (point.x().to_vec(), point.y().to_vec())
}

/// Reads a public key with `p256::PublicKey::from_public_key_pem`.
///
/// The contract says that whether there is one, and which, is a function of the document alone,
/// and that the coordinates are those of a point of the curve.
#[verifier::external_body]
fn decode_point(pem: &str) -> (point: Option<(Vec<u8>, Vec<u8>)>)
    ensures
        point is Some <==> point_in_pem(pem@) is Some,
        point matches Some(p) ==> point_in_pem(pem@) == Some((p.0@, p.1@)) && is_point(p.0@, p.1@),
{
    let key = p256::PublicKey::from_public_key_pem(pem).ok()?;
    let point = key.as_affine();
    Some((point.x().to_vec(), point.y().to_vec()))
}

/// Reads a secret key with `p256::SecretKey::from_pkcs8_pem`.
///
/// The contract says that whether there is one, and which, is a function of the document alone,
/// and that it is a secret key of the curve.
#[verifier::external_body]
fn decode_secret(pem: &str) -> (secret: Option<Vec<u8>>)
    ensures
        secret is Some <==> secret_in_pem(pem@) is Some,
        secret matches Some(s) ==> secret_in_pem(pem@) == Some(s@) && is_secret(s@),
{
    let key = p256::SecretKey::from_pkcs8_pem(pem).ok()?;
    Some(key.to_bytes().to_vec())
}

/// Writes a public key with `p256::PublicKey::to_public_key_pem`.
///
/// The contract says that whether it can be written, and how, is a function of the coordinates
/// and the line ending alone, and that the document holds the key it was made from.
#[verifier::external_body]
fn encode_point(x: &Vec<u8>, y: &Vec<u8>, line_ending: LineEnding) -> (pem: Option<String>)
    requires
        is_point(x@, y@),
    ensures
        pem is Some <==> point_pem(x@, y@, line_ending@) is Some,
        pem matches Some(p) ==> point_pem(x@, y@, line_ending@) == Some(p@) && point_in_pem(p@)
            == Some((x@, y@)),
{
    let x = p256::FieldBytes::try_from(x.as_slice()).unwrap();
    let y = p256::FieldBytes::try_from(y.as_slice()).unwrap();
    let point = p256::AffinePoint::from_coordinates(&x, &y).unwrap();
    let key = p256::PublicKey::from_affine(point).unwrap();
    key.to_public_key_pem(match line_ending {
        LineEnding::Cr => base64ct::LineEnding::CR,
        LineEnding::Lf => base64ct::LineEnding::LF,
        LineEnding::CrLf => base64ct::LineEnding::CRLF,
    }).ok()
}

/// Writes a secret key with `p256::SecretKey::to_pkcs8_pem`.
///
/// The contract says that whether it can be written, and how, is a function of the key and the
/// line ending alone, and that the document holds the key it was made from.
#[verifier::external_body]
fn encode_secret(secret: &[u8], line_ending: LineEnding) -> (pem: Option<String>)
    requires
        is_secret(secret@),
    ensures
        pem is Some <==> secret_pem(secret@, line_ending@) is Some,
        pem matches Some(p) ==> secret_pem(secret@, line_ending@) == Some(p@) && secret_in_pem(p@)
            == Some(secret@),
{
    let key = p256::SecretKey::from_slice(secret).unwrap();
    let pem = key.to_pkcs8_pem(match line_ending {
        LineEnding::Cr => base64ct::LineEnding::CR,
        LineEnding::Lf => base64ct::LineEnding::LF,
        LineEnding::CrLf => base64ct::LineEnding::CRLF,
    }).ok()?;
    Some(pem.to_string())
}

/// Signs `message` with `ecdsa::SigningKey::try_sign`, for P-256.
///
/// The contract says that the signature is a function of the key and the message alone and has 64
/// bytes: the nonce is derived from both, and no step of this signer can fail.
#[verifier::external_body]
fn sign_message(secret: &[u8], message: &[u8]) -> (signature: Vec<u8>)
    requires
        is_secret(secret@),
    ensures
        signature@ == es256(secret@, message@),
        signature@.len() == 64,
{
    let key = ecdsa::SigningKey::<p256::NistP256>::from_slice(secret).unwrap();
    let signature: ecdsa::Signature<p256::NistP256> = key.try_sign(message).unwrap();
    signature.to_bytes().to_vec()
}

/// A P-256 public key.
pub struct PublicKey {
    /// The x coordinate, most significant byte first.
    x: Vec<u8>,

    /// The y coordinate, most significant byte first.
    y: Vec<u8>,
}

impl View for PublicKey {
    type V = (Seq<u8>, Seq<u8>);

    /// The coordinates.
    closed spec fn view(&self) -> (Seq<u8>, Seq<u8>) {
        (self.x@, self.y@)
    }
}

impl PublicKey {
    #[verifier::type_invariant]
    spec fn on_curve(self) -> bool {
        is_point(self.x@, self.y@)
    }

    /// Reads a public key from a PEM document.
    pub fn from_public_key_pem(pem: &str) -> (key: Option<PublicKey>)
        ensures
            key is Some <==> point_in_pem(pem@) is Some,
            key matches Some(k) ==> point_in_pem(pem@) == Some(k@) && is_point(k@.0, k@.1),
    {
        match decode_point(pem) {
            Some((x, y)) => Some(PublicKey { x, y }),
            None => None,
        }
    }

    /// Writes the key as a PEM document with the given line ending.
    pub fn to_public_key_pem(&self, line_ending: LineEnding) -> (pem: Option<String>)
        ensures
            pem is Some <==> point_pem(self@.0, self@.1, line_ending@) is Some,
            pem matches Some(p) ==> point_pem(self@.0, self@.1, line_ending@) == Some(p@)
                && point_in_pem(p@) == Some(self@),
    {
        proof {
            use_type_invariant(self);
        }
        encode_point(&self.x, &self.y, line_ending)
    }

    /// The x coordinate, most significant byte first.
    pub fn x(&self) -> (x: Vec<u8>)
        ensures
            x@ == self@.0,
            is_point(self@.0, self@.1),
    {
        proof {
            use_type_invariant(self);
        }
        self.x.clone()
    }

    /// The y coordinate, most significant byte first.
    pub fn y(&self) -> (y: Vec<u8>)
        ensures
            y@ == self@.1,
            is_point(self@.0, self@.1),
    {
        proof {
            use_type_invariant(self);
        }
        self.y.clone()
    }
}

/// A P-256 secret key.
pub struct SecretKey {
    /// The secret number, most significant byte first.
    bytes: SecretBytes,
}

impl View for SecretKey {
    type V = Seq<u8>;

    /// The secret number, most significant byte first.
    closed spec fn view(&self) -> Seq<u8> {
        self.bytes@
    }
}

/// Whether every byte is zero.
fn all_zero(bytes: &Vec<u8>) -> (zero: bool)
    ensures
        zero <==> big_endian(bytes@) == 0,
{
    let mut i: usize = 0;
    assert(bytes@.take(0) =~= Seq::<u8>::empty());
    while i < bytes.len()
        invariant
            i <= bytes.len(),
            big_endian(bytes@.take(i as int)) == 0,
        decreases bytes.len() - i,
    {
        assert(bytes@.take(i + 1).drop_last() =~= bytes@.take(i as int));
        if bytes[i] != 0 {
            assert(big_endian(bytes@.take(i + 1)) > 0);
            proof {
                lemma_prefix_positive(bytes@, i + 1);
            }
            return false;
        }
        i += 1;
    }
    assert(bytes@.take(i as int) =~= bytes@);
    true
}

/// A number whose leading bytes are not all zero is not zero.
proof fn lemma_prefix_positive(bytes: Seq<u8>, n: int)
    requires
        0 <= n <= bytes.len(),
        big_endian(bytes.take(n)) > 0,
    ensures
        big_endian(bytes) > 0,
    decreases bytes.len() - n,
{
    if n == bytes.len() {
        assert(bytes.take(n) =~= bytes);
    } else {
        assert(bytes.take(n + 1).drop_last() =~= bytes.take(n));
        lemma_prefix_positive(bytes, n + 1);
    }
}

impl SecretKey {
    #[verifier::type_invariant]
    spec fn in_range(self) -> bool {
        is_secret(self.bytes@)
    }

    /// Draws a secret key, or `None` in the one case where zero is drawn: `p256` asserts that a secret
    /// key is not zero where it computes the public key.
    pub fn generate_from_rng(rng: &mut StdRng) -> (key: Option<SecretKey>)
        ensures
            key matches Some(k) ==> is_secret(k@) && random::was_drawn(k@),
            key is None ==> zero_was_drawn(),
    {
        let scalar = generate_scalar(rng);
        assert(random::was_drawn(scalar@));
        SecretKey::from_scalar(scalar)
    }

    /// The secret key for a number below the order of the group, or `None` for zero.
    pub fn from_scalar(scalar: Vec<u8>) -> (key: Option<SecretKey>)
        requires
            scalar@.len() == 32,
            big_endian(scalar@) < group_order(),
        ensures
            key is Some <==> big_endian(scalar@) > 0,
            key matches Some(k) ==> k@ == scalar@ && is_secret(k@),
    {
        if all_zero(&scalar) {
            None
        } else {
            Some(SecretKey { bytes: SecretBytes::new(scalar) })
        }
    }

    /// The public key that belongs to this secret key.
    pub fn public_key(&self) -> (key: PublicKey)
        ensures
            key@ == public_point(self@),
            is_point(key@.0, key@.1),
            is_secret(self@),
    {
        proof {
            use_type_invariant(self);
        }
        let (x, y) = derive_point(self.bytes.as_slice());
        PublicKey { x, y }
    }

    /// Reads a secret key from a PKCS#8 PEM document.
    pub fn from_pkcs8_pem(pem: &str) -> (key: Option<SecretKey>)
        ensures
            key is Some <==> secret_in_pem(pem@) is Some,
            key matches Some(k) ==> secret_in_pem(pem@) == Some(k@) && is_secret(k@),
    {
        match decode_secret(pem) {
            Some(bytes) => Some(SecretKey { bytes: SecretBytes::new(bytes) }),
            None => None,
        }
    }

    /// Writes the key as a PKCS#8 PEM document with the given line ending.
    pub fn to_pkcs8_pem(&self, line_ending: LineEnding) -> (pem: Option<SecretText>)
        ensures
            pem is Some <==> secret_pem(self@, line_ending@) is Some,
            pem matches Some(p) ==> secret_pem(self@, line_ending@) == Some(p@) && secret_in_pem(p@)
                == Some(self@),
    {
        proof {
            use_type_invariant(self);
        }
        match encode_secret(self.bytes.as_slice(), line_ending) {
            Some(pem) => Some(SecretText::new(pem)),
            None => None,
        }
    }
}

/// A P-256 secret key in use for signing.
pub struct SigningKey {
    /// The secret number, most significant byte first.
    bytes: SecretBytes,
}

impl View for SigningKey {
    type V = Seq<u8>;

    /// The secret number, most significant byte first.
    closed spec fn view(&self) -> Seq<u8> {
        self.bytes@
    }
}

impl vstd::std_specs::convert::FromSpecImpl<&SecretKey> for SigningKey {
    open spec fn obeys_from_spec() -> bool {
        false
    }

    open spec fn from_spec(key: &SecretKey) -> SigningKey {
        arbitrary()
    }
}

impl From<&SecretKey> for SigningKey {
    /// The signing key of a secret key.
    fn from(key: &SecretKey) -> (signing_key: SigningKey)
        ensures
            signing_key@ == key@,
            is_secret(signing_key@),
    {
        proof {
            use_type_invariant(key);
        }
        SigningKey { bytes: key.bytes.copy() }
    }
}

impl SigningKey {
    #[verifier::type_invariant]
    spec fn in_range(self) -> bool {
        is_secret(self.bytes@)
    }

    /// Signs `message`.
    pub fn sign(&self, message: &[u8]) -> (signature: Vec<u8>)
        ensures
            signature@ == es256(self@, message@),
            signature@.len() == 64,
    {
        proof {
            use_type_invariant(self);
        }
        sign_message(self.bytes.as_slice(), message)
    }
}

} // verus!
