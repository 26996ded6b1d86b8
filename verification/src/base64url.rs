//! Base64 with the URL-safe alphabet and without padding.

use vstd::prelude::*;

verus! {

/// The URL-safe Base64 alphabet: the character that stands for each value of six bits.
pub open spec fn alphabet() -> Seq<char> {
    "ABCDEFGHIJKLMNOPQRSTUVWXYZabcdefghijklmnopqrstuvwxyz0123456789-_"@
}

/// The `k`-th group of six bits of `data`, read as one big-endian string of bits that continues
/// with zeros after its last byte.
pub open spec fn sextet(data: Seq<u8>, k: int) -> int {
    let i = 6 * k / 8;
    let next = if i + 1 < data.len() {
        data[i + 1] as int
    } else {
        0
    };
    let window = data[i] as int * 256 + next;
    let below = if k % 4 == 0 {
        1024int
    } else if k % 4 == 1 {
        16
    } else if k % 4 == 2 {
        64
    } else {
        256
    };
    window / below % 64
}

/// How many characters `n` bytes take: one for each group of six bits that has been begun.
pub open spec fn encoded_len(n: nat) -> nat {
    (8 * n + 5) / 6
}

/// The Base64URL encoding of `data`.
pub open spec fn base64url(data: Seq<u8>) -> Seq<char> {
    Seq::new(encoded_len(data.len()), |k: int| alphabet()[sextet(data, k)])
}

/// Encodes `data` with `base64_url::encode`.
///
/// The contract says that the result is the unpadded Base64 encoding of the bytes with the
/// alphabet that has `-` and `_` in its last two places.
#[verifier::external_body]
pub(crate) fn encode(data: &[u8]) -> (text: String)
    ensures
        text@ == base64url(data@),
{
    base64_url::encode(data)
}

/// The character at each place of the alphabet stands for the number of the place, and is neither a
/// dot nor an equals sign.
proof fn lemma_alphabet(k: int)
    requires
        0 <= k < 64,
    ensures
        alphabet().len() == 64,
        value(alphabet()[k]) == k,
        alphabet()[k] != '.',
        alphabet()[k] != '=',
        is_url_safe(alphabet()[k]),
{
    reveal_strlit("ABCDEFGHIJKLMNOPQRSTUVWXYZabcdefghijklmnopqrstuvwxyz0123456789-_");
    assert(k == 0 || k == 1 || k == 2 || k == 3 || k == 4 || k == 5 || k == 6 || k == 7
        || k == 8 || k == 9 || k == 10 || k == 11 || k == 12 || k == 13 || k == 14 || k == 15
        || k == 16 || k == 17 || k == 18 || k == 19 || k == 20 || k == 21 || k == 22 || k == 23
        || k == 24 || k == 25 || k == 26 || k == 27 || k == 28 || k == 29 || k == 30 || k == 31
        || k == 32 || k == 33 || k == 34 || k == 35 || k == 36 || k == 37 || k == 38 || k == 39
        || k == 40 || k == 41 || k == 42 || k == 43 || k == 44 || k == 45 || k == 46 || k == 47
        || k == 48 || k == 49 || k == 50 || k == 51 || k == 52 || k == 53 || k == 54 || k == 55
        || k == 56 || k == 57 || k == 58 || k == 59 || k == 60 || k == 61 || k == 62 || k == 63);
}

/// Whether a character is a letter, a digit, a hyphen or an underscore.
pub open spec fn is_url_safe(c: char) -> bool {
    'A' <= c <= 'Z' || 'a' <= c <= 'z' || '0' <= c <= '9' || c == '-' || c == '_'
}

/// An encoding has only characters of the alphabet: no dots, and no padding.
pub proof fn base64url_is_url_safe(data: Seq<u8>)
    ensures
        base64url(data).len() == (4 * data.len() + 2) / 3,
        forall|k: int|
            0 <= k < base64url(data).len() ==> {
                &&& is_url_safe(base64url(data)[k])
                &&& alphabet().contains(#[trigger] base64url(data)[k])
                &&& base64url(data)[k] != '.'
                &&& base64url(data)[k] != '='
            },
{
    assert forall|k: int| 0 <= k < base64url(data).len() implies {
        &&& is_url_safe(base64url(data)[k])
        &&& alphabet().contains(#[trigger] base64url(data)[k])
        &&& base64url(data)[k] != '.'
        &&& base64url(data)[k] != '='
    } by {
        lemma_alphabet(sextet(data, k));
    }
}

/// How a byte and the next one are cut into groups of six bits.
proof fn lemma_cut(byte: int, next: int)
    requires
        0 <= byte < 256,
        0 <= next < 256,
    ensures
        (byte * 256 + next) / 1024 % 64 == byte / 4,
        (byte * 256 + next) / 16 % 64 == byte % 4 * 16 + next / 16,
        (byte * 256 + next) / 64 % 64 == byte % 16 * 4 + next / 64,
        (byte * 256 + next) / 256 % 64 == byte % 64,
{
}

/// The groups of six bits that begin in the `g`-th three bytes.
proof fn lemma_group(data: Seq<u8>, g: int)
    requires
        0 <= g,
        3 * g < data.len(),
    ensures
        ({
            let b0 = data[3 * g] as int;
            let b1 = if 3 * g + 1 < data.len() {
                data[3 * g + 1] as int
            } else {
                0
            };
            let b2 = if 3 * g + 2 < data.len() {
                data[3 * g + 2] as int
            } else {
                0
            };
            &&& sextet(data, 4 * g) == b0 / 4
            &&& sextet(data, 4 * g + 1) == b0 % 4 * 16 + b1 / 16
            &&& 3 * g + 1 < data.len() ==> sextet(data, 4 * g + 2) == b1 % 16 * 4 + b2 / 64
            &&& 3 * g + 2 < data.len() ==> sextet(data, 4 * g + 3) == b2 % 64
        }),
{
    let b0 = data[3 * g] as int;
    let b1 = if 3 * g + 1 < data.len() {
        data[3 * g + 1] as int
    } else {
        0
    };
    let b2 = if 3 * g + 2 < data.len() {
        data[3 * g + 2] as int
    } else {
        0
    };
    let b3 = if 3 * g + 3 < data.len() {
        data[3 * g + 3] as int
    } else {
        0
    };
    lemma_cut(b0, b1);
    lemma_cut(b1, b2);
    lemma_cut(b2, b3);
    assert(6 * (4 * g) / 8 == 3 * g);
    assert(6 * (4 * g + 1) / 8 == 3 * g);
    assert(6 * (4 * g + 2) / 8 == 3 * g + 1);
    assert(6 * (4 * g + 3) / 8 == 3 * g + 2);
}

/// The number that a character of an encoding stands for.
pub open spec fn value(c: char) -> int {
    if 'A' <= c <= 'Z' {
        c as int - 'A' as int
    } else if 'a' <= c <= 'z' {
        c as int - 'a' as int + 26
    } else if '0' <= c <= '9' {
        c as int - '0' as int + 52
    } else if c == '-' {
        62
    } else {
        63
    }
}

/// An encoding can be read back: each byte is made of the bits of the two characters that reach into
/// it, and the bits that reach beyond the last byte are zero.
pub proof fn base64url_can_be_read_back(data: Seq<u8>, i: int)
    requires
        0 <= i < data.len(),
    ensures
        ({
            let text = base64url(data);
            let k = 4 * (i / 3) + i % 3;
            let (high, low) = (value(text[k]), value(text[k + 1]));
            &&& k + 1 < text.len()
            &&& i % 3 == 0 ==> data[i] as int == high * 4 + low / 16
            &&& i % 3 == 1 ==> data[i] as int == high % 16 * 16 + low / 4
            &&& i % 3 == 2 ==> data[i] as int == high % 4 * 64 + low
            &&& i == data.len() - 1 && i % 3 == 0 ==> low % 16 == 0
            &&& i == data.len() - 1 && i % 3 == 1 ==> low % 4 == 0
        }),
{
    let g = i / 3;
    let k = 4 * g + i % 3;
    lemma_group(data, g);
    assert(k + 1 < encoded_len(data.len()));
    assert(base64url(data)[k] == alphabet()[sextet(data, k)]);
    assert(base64url(data)[k + 1] == alphabet()[sextet(data, k + 1)]);
    lemma_alphabet(sextet(data, k));
    lemma_alphabet(sextet(data, k + 1));
}

/// Different bytes have different encodings.
pub proof fn base64url_is_injective(a: Seq<u8>, b: Seq<u8>)
    requires
        base64url(a) == base64url(b),
    ensures
        a == b,
{
    assert(base64url(a).len() == encoded_len(a.len()));
    assert(base64url(b).len() == encoded_len(b.len()));
    assert(a.len() == b.len());
    assert forall|k: int| 0 <= k < encoded_len(a.len()) implies #[trigger] sextet(a, k) == sextet(
        b,
        k,
    ) by {
        assert(base64url(a)[k] == alphabet()[sextet(a, k)]);
        assert(base64url(b)[k] == alphabet()[sextet(b, k)]);
        lemma_alphabet(sextet(a, k));
        lemma_alphabet(sextet(b, k));
    }
    assert forall|i: int| 0 <= i < a.len() implies a[i] == b[i] by {
        let g = i / 3;
        lemma_group(a, g);
        lemma_group(b, g);
        assert(sextet(a, 4 * g) == sextet(b, 4 * g));
        assert(sextet(a, 4 * g + 1) == sextet(b, 4 * g + 1));
        if i > 3 * g {
            assert(sextet(a, 4 * g + 2) == sextet(b, 4 * g + 2));
        }
        if i > 3 * g + 1 {
            assert(sextet(a, 4 * g + 3) == sextet(b, 4 * g + 3));
        }
    }
    assert(a =~= b);
}

} // verus!
