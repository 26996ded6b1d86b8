//! URLs with query parameters.

use vstd::prelude::*;

verus! {

/// How many characters the names and values of `params` have in all.
pub open spec fn total_chars(params: Seq<(Seq<char>, Seq<char>)>) -> nat
    decreases params.len(),
{
    if params.len() == 0 {
        0
    } else {
        total_chars(params.drop_last()) + params.last().0.len() + params.last().1.len()
    }
}

/// A number of bytes that `c` does not exceed in a URL that is parsed from a text with it. Letters,
/// digits and a few signs stay as they are, and any other ASCII character takes three bytes where it
/// is encoded. In the name of a host, a character beyond ASCII, which can be written with percent
/// signs too, can stand for several others.
pub open spec fn char_bytes(c: char) -> nat {
    if c == '%' || c as u32 >= 0x80 {
        255
    } else if 'a' <= c <= 'z' || 'A' <= c <= 'Z' || '0' <= c <= '9' || "-._~/"@.contains(c) {
        1
    } else {
        3
    }
}

/// A number of bytes that a URL which is parsed from `base` does not exceed, but for what parsing
/// puts in between its parts.
pub open spec fn base_bytes(base: Seq<char>) -> nat
    decreases base.len(),
{
    if base.len() == 0 {
        0
    } else {
        base_bytes(base.drop_last()) + char_bytes(base.last())
    }
}

/// A number of bytes that is not exceeded by what parsing puts in between the parts of a URL.
pub const PARTS_BYTES: u32 = 64;

/// The most bytes that a character takes in a query: four in UTF-8, with three for each of them.
pub const PARAM_CHAR_BYTES: u32 = 12;

/// The bytes that a parameter takes besides those of its name and its value.
pub const PARAM_BYTES: u32 = 2;

/// Whether parameters can be added to the query of the URL `base`: the place of the query and that
/// of the fragment, if there is one, are counted in 32 bits. The parameters stand before the
/// fragment, so only in a URL with a fragment does their length matter.
pub open spec fn url_fits(base: Seq<char>, param_chars: nat, params: nat) -> bool {
    base_bytes(base) + PARTS_BYTES + (if base.contains('#') {
        PARAM_CHAR_BYTES * param_chars + PARAM_BYTES * params
    } else {
        0
    }) <= u32::MAX
}

/// A number of bytes that `c` does not exceed in a URL.
fn count_char_bytes(c: char) -> (bytes: u128)
    ensures
        bytes == char_bytes(c),
        bytes <= 255,
{
    proof {
        reveal_strlit("-._~/");
        let signs = "-._~/"@;
        assert(signs[0] == '-' && signs[1] == '.' && signs[2] == '_' && signs[3] == '~' && signs[4]
            == '/');
    }
    let n: u32 = c as u32;
    if c == '%' || n >= 0x80 {
        255
    } else if (0x61 <= n && n <= 0x7a) || (0x41 <= n && n <= 0x5a) || (0x30 <= n && n <= 0x39) || c
        == '-' || c == '.' || c == '_' || c == '~' || c == '/' {
        1
    } else {
        3
    }
}

/// A number of bytes that a URL which is parsed from `base` does not exceed, but for what parsing
/// puts in between its parts, and whether `base` has a number sign.
fn measure(base: &str) -> (measured: (u128, bool))
    ensures
        measured.0 == base_bytes(base@),
        measured.0 <= 255 * usize::MAX,
        measured.1 == base@.contains('#'),
{
    let mut bytes: u128 = 0;
    let mut found = false;
    let chars: usize = base.unicode_len();
    for c in iter: base.chars()
        invariant
            iter.seq() == base@,
            chars == base@.len(),
            bytes == base_bytes(base@.take(iter.index())),
            bytes <= 255 * iter.index(),
            found == base@.take(iter.index()).contains('#'),
    {
        proof {
            let i = iter.index();
            let done = base@.take(i + 1);
            assert(done =~= base@.take(i).push(c));
            assert(done.drop_last() =~= base@.take(i));
            assert(done[i] == c);
            if base@.take(i).contains('#') {
                let k = choose|k: int| 0 <= k < i && base@.take(i)[k] == '#';
                assert(done[k] == '#');
            }
        }
        bytes = bytes + count_char_bytes(c);
        found = found || c == '#';
    }
    assert(base@.take(base@.len() as int) =~= base@);
    (bytes, found)
}

/// Whether parameters with so many characters in all can be added to the query of the URL `base`.
pub fn fits(base: &str, param_chars: u128, params: u32) -> (fits: bool)
    requires
        param_chars <= u64::MAX * 4,
    ensures
        fits == url_fits(base@, param_chars as nat, params as nat),
{
    let (base_bytes, has_fragment) = measure(base);
    let parts_bytes: u128 = base_bytes + PARTS_BYTES as u128;
    assert(PARAM_CHAR_BYTES * param_chars <= 48 * u64::MAX);
    assert(PARAM_BYTES * params <= 2 * u32::MAX);
    let param_bytes: u128 = PARAM_CHAR_BYTES as u128 * param_chars + PARAM_BYTES as u128
        * params as u128;
    if has_fragment {
        parts_bytes + param_bytes <= u32::MAX as u128
    } else {
        parts_bytes <= u32::MAX as u128
    }
}

/// The URL `base` with `params` added to its query, or why `base` is not an absolute URL.
pub uninterp spec fn url_with_params(
    base: Seq<char>,
    params: Seq<(Seq<char>, Seq<char>)>,
) -> Result<Seq<char>, Seq<char>>;

/// Parses `base` and adds `params` to its query with `reqwest::Url::parse_with_params`.
///
/// The contract says that whether `base` parses, the URL that results, and the text of the error
/// are functions of the arguments alone.
#[verifier::external_body]
pub(crate) fn parse_with_params(base: &str, params: &Vec<(&str, &str)>) -> (url: Result<
    String,
    String,
>)
    requires
        url_fits(base@, total_chars(params.deep_view()), params@.len()),
    ensures
        match url_with_params(base@, params.deep_view()) {
            Ok(u) => url matches Ok(r) && r@ == u,
            Err(reason) => url matches Err(r) && r@ == reason,
        },
{
    match reqwest::Url::parse_with_params(base, params) {
        Ok(url) => Ok(url.as_str().to_string()),
        Err(e) => Err(e.to_string()),
    }
}

} // verus!
