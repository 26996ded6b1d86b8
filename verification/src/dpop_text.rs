//! What the text of a DPoP tells.

use vstd::prelude::*;

use crate::base64url;
use crate::dpop;
use crate::dpop::KeyDataView;
use crate::json;
use crate::keys;
use crate::text;

verus! {

/// A DPoP has three parts with a dot in between: there are exactly two dots in it, and everything
/// else is of the URL-safe Base64 alphabet, without padding.
pub proof fn dpop_has_three_parts(
    key: KeyDataView,
    url: Seq<char>,
    nonce: Option<Seq<char>>,
    jti: Seq<char>,
    iat: int,
)
    ensures
        ({
            let header = base64url::base64url(text::utf8(dpop::header_json(key)));
            let payload = base64url::base64url(
                text::utf8(dpop::payload_json(jti, url, iat, nonce)),
            );
            let proof_text = dpop::dpop(key, url, nonce, jti, iat);
            let signature = base64url::base64url(dpop::signature(key, url, nonce, jti, iat));
            &&& proof_text == header + seq!['.'] + payload + seq!['.'] + signature
            &&& forall|i: int|
                0 <= i < proof_text.len() ==> (#[trigger] proof_text[i] == '.' <==> i
                    == header.len() || i == header.len() + 1 + payload.len())
            &&& forall|i: int|
                0 <= i < proof_text.len() && proof_text[i] != '.' ==> base64url::alphabet().contains(
                    #[trigger] proof_text[i],
                )
        }),
{
    reveal_strlit(".");
    let header = base64url::base64url(text::utf8(dpop::header_json(key)));
    let payload = base64url::base64url(text::utf8(dpop::payload_json(jti, url, iat, nonce)));
    let unsigned = dpop::unsigned_dpop(key, url, nonce, jti, iat);
    let signature = base64url::base64url(keys::es256(key.secret, text::utf8(unsigned)));
    base64url::base64url_is_url_safe(text::utf8(dpop::header_json(key)));
    base64url::base64url_is_url_safe(text::utf8(dpop::payload_json(jti, url, iat, nonce)));
    base64url::base64url_is_url_safe(keys::es256(key.secret, text::utf8(unsigned)));
    let proof_text = dpop::dpop(key, url, nonce, jti, iat);
    assert(proof_text =~= header + seq!['.'] + payload + seq!['.'] + signature);
    assert forall|i: int| 0 <= i < proof_text.len() implies {
        &&& #[trigger] proof_text[i] == '.' <==> i == header.len() || i == header.len() + 1
            + payload.len()
        &&& proof_text[i] != '.' ==> base64url::alphabet().contains(proof_text[i])
    } by {
        let second = header.len() + 1 + payload.len();
        if i < header.len() {
            assert(proof_text[i] == header[i]);
        } else if header.len() < i < second {
            assert(proof_text[i] == payload[i - header.len() - 1]);
        } else if i > second {
            assert(proof_text[i] == signature[i - second - 1]);
        }
    }
}

/// What two texts with the same beginning go on with is the same if the texts are.
proof fn lemma_same_rest(start: Seq<char>, x: Seq<char>, y: Seq<char>)
    requires
        start + x == start + y,
    ensures
        x == y,
{
    assert((start + x).skip(start.len() as int) =~= x);
    assert((start + y).skip(start.len() as int) =~= y);
}

/// Two texts that are cut at their first character of a kind are cut at the same place.
proof fn lemma_same_cut(
    a: Seq<char>,
    b: Seq<char>,
    x: Seq<char>,
    y: Seq<char>,
    mark: spec_fn(char) -> bool,
)
    requires
        a + x == b + y,
        x.len() > 0,
        y.len() > 0,
        mark(x[0]),
        mark(y[0]),
        forall|i: int| 0 <= i < a.len() ==> !mark(#[trigger] a[i]),
        forall|i: int| 0 <= i < b.len() ==> !mark(#[trigger] b[i]),
    ensures
        a == b,
        x == y,
{
    assert((a + x)[a.len() as int] == x[0]);
    assert((b + y)[b.len() as int] == y[0]);
    if a.len() < b.len() {
        assert((b + y)[a.len() as int] == b[a.len() as int]);
    }
    if b.len() < a.len() {
        assert((a + x)[b.len() as int] == a[b.len() as int]);
    }
    assert((a + x).take(a.len() as int) =~= a);
    assert((b + y).take(b.len() as int) =~= b);
    lemma_same_rest(a, x, y);
}

/// The start of an object, up to the value of its first member.
spec fn opening(name: Seq<char>) -> Seq<char> {
    seq!['{'] + json::json_string(name) + seq![':']
}

/// What stands between the values of two members.
spec fn joint(name: Seq<char>) -> Seq<char> {
    seq![','] + json::json_string(name) + seq![':']
}

/// Three texts can be joined in either order.
proof fn lemma_regroup(a: Seq<char>, b: Seq<char>, c: Seq<char>)
    ensures
        a + b + c == a + (b + c),
{
    assert(a + b + c =~= a + (b + c));
}

/// Texts in a row can be joined from the last one on.
proof fn lemma_regroup_all(
    name: Seq<char>,
    v0: Seq<char>,
    j1: Seq<char>,
    v1: Seq<char>,
    j2: Seq<char>,
    v2: Seq<char>,
    j3: Seq<char>,
    v3: Seq<char>,
    end: Seq<char>,
)
    ensures
        seq!['{'] + (name + seq![':'] + v0 + j1 + v1 + j2 + v2 + j3 + v3) + end == (seq!['{'] + name
            + seq![':']) + (v0 + (j1 + (v1 + (j2 + (v2 + (j3 + (v3 + end))))))),
{
    assert(seq!['{'] + (name + seq![':'] + v0 + j1 + v1 + j2 + v2 + j3 + v3) + end =~= (seq!['{']
        + name + seq![':']) + (v0 + (j1 + (v1 + (j2 + (v2 + (j3 + (v3 + end))))))));
}

/// The text of a member that comes after others.
proof fn lemma_member_text(members: Seq<(Seq<char>, Seq<char>)>)
    requires
        members.len() > 1,
    ensures
        json::json_members(members) == json::json_members(members.drop_last()) + joint(
            members.last().0,
        ) + members.last().1,
{
    let (name, value) = members.last();
    let before = json::json_members(members.drop_last());
    let quoted = json::json_string(name);
    assert(before + seq![','] + (quoted + seq![':'] + value) =~= before + (seq![','] + quoted
        + seq![':']) + value);
}

/// The first four members of an object and what follows them, in full.
proof fn lemma_four_members(members: Seq<(Seq<char>, Seq<char>)>, end: Seq<char>)
    requires
        members.len() == 4,
    ensures
        seq!['{'] + json::json_members(members) + end == opening(members[0].0) + (members[0].1 + (
        joint(members[1].0) + (members[1].1 + (joint(members[2].0) + (members[2].1 + (joint(
            members[3].0,
        ) + (members[3].1 + end))))))),
{
    assert(members.drop_last() =~= members.take(3));
    assert(members.take(3).drop_last() =~= members.take(2));
    assert(members.take(2).drop_last() =~= members.take(1));
    lemma_member_text(members);
    lemma_member_text(members.take(3));
    lemma_member_text(members.take(2));
    lemma_regroup_all(
        json::json_string(members[0].0),
        members[0].1,
        joint(members[1].0),
        members[1].1,
        joint(members[2].0),
        members[2].1,
        joint(members[3].0),
        members[3].1,
        end,
    );
}

/// What comes before the value of `htu` in a payload, once the value of `jti` is over.
spec fn before_url() -> Seq<char> {
    joint("htm"@) + json::json_string("POST"@) + joint("htu"@)
}

/// How a payload ends, once the value of `iat` is over.
spec fn payload_end(nonce: Option<Seq<char>>) -> Seq<char> {
    match nonce {
        Some(nonce) => joint("nonce"@) + (json::json_string(nonce) + seq!['}']),
        None => seq!['}'],
    }
}

/// A payload in full.
proof fn lemma_payload_text(jti: Seq<char>, url: Seq<char>, iat: int, nonce: Option<Seq<char>>)
    ensures
        dpop::payload_json(jti, url, iat, nonce) == opening("jti"@) + (json::json_string(jti) + (
        before_url() + (json::json_string(url) + (joint("iat"@) + (text::signed_decimal(iat)
            + payload_end(nonce)))))),
{
    let members = dpop::payload_members(jti, url, iat, nonce);
    let always = dpop::payload_members(jti, url, iat, None);
    if let Some(nonce) = nonce {
        let text = json::json_members(always);
        let value = json::json_string(nonce);
        assert(members.drop_last() =~= always);
        lemma_member_text(members);
        lemma_regroup(seq!['{'], text + joint("nonce"@) + value, seq!['}']);
        lemma_regroup(text + joint("nonce"@), value, seq!['}']);
        lemma_regroup(text, joint("nonce"@), value + seq!['}']);
        lemma_regroup(seq!['{'], text, joint("nonce"@) + (value + seq!['}']));
    }
    lemma_four_members(always, payload_end(nonce));
    let post = json::json_string("POST"@);
    let rest = json::json_string(url) + (joint("iat"@) + (text::signed_decimal(iat) + payload_end(
        nonce,
    )));
    lemma_regroup(joint("htm"@), post, joint("htu"@) + rest);
    lemma_regroup(joint("htm"@) + post, joint("htu"@), rest);
}

/// A payload tells its identifier, URL, time and nonce.
proof fn lemma_payload_tells(
    jti: Seq<char>,
    url: Seq<char>,
    iat: int,
    nonce: Option<Seq<char>>,
    other_jti: Seq<char>,
    other_url: Seq<char>,
    other_iat: int,
    other_nonce: Option<Seq<char>>,
)
    requires
        dpop::payload_json(jti, url, iat, nonce) == dpop::payload_json(
            other_jti,
            other_url,
            other_iat,
            other_nonce,
        ),
    ensures
        jti == other_jti,
        url == other_url,
        iat == other_iat,
        nonce == other_nonce,
{
    lemma_payload_text(jti, url, iat, nonce);
    lemma_payload_text(other_jti, other_url, other_iat, other_nonce);
    let time = text::signed_decimal(iat) + payload_end(nonce);
    let other_time = text::signed_decimal(other_iat) + payload_end(other_nonce);
    let after_url = joint("iat"@) + time;
    let other_after_url = joint("iat"@) + other_time;
    let after_jti = before_url() + (json::json_string(url) + after_url);
    let other_after_jti = before_url() + (json::json_string(other_url) + other_after_url);
    lemma_same_rest(
        opening("jti"@),
        json::json_string(jti) + after_jti,
        json::json_string(other_jti) + other_after_jti,
    );
    json::json_string_is_self_delimiting(jti, other_jti, after_jti, other_after_jti);
    lemma_same_rest(
        before_url(),
        json::json_string(url) + after_url,
        json::json_string(other_url) + other_after_url,
    );
    json::json_string_is_self_delimiting(url, other_url, after_url, other_after_url);
    lemma_same_rest(joint("iat"@), time, other_time);
    text::signed_decimal_has_digits_only(iat);
    text::signed_decimal_has_digits_only(other_iat);
    lemma_same_cut(
        text::signed_decimal(iat),
        text::signed_decimal(other_iat),
        payload_end(nonce),
        payload_end(other_nonce),
        |c: char| c == ',' || c == '}',
    );
    text::signed_decimal_is_injective(iat, other_iat);
    assert(nonce is Some ==> payload_end(nonce)[0] == ',');
    assert(other_nonce is Some ==> payload_end(other_nonce)[0] == ',');
    if nonce is Some && other_nonce is Some {
        lemma_same_rest(
            joint("nonce"@),
            json::json_string(nonce->0) + seq!['}'],
            json::json_string(other_nonce->0) + seq!['}'],
        );
        json::json_string_is_self_delimiting(nonce->0, other_nonce->0, seq!['}'], seq!['}']);
    }
}

/// What comes before the key in a header.
spec fn before_jwk() -> Seq<char> {
    opening("typ"@) + json::json_string("dpop+jwt"@) + joint("alg"@) + json::json_string("ES256"@)
        + joint("jwk"@)
}

/// What comes before the first coordinate in a key.
spec fn before_x() -> Seq<char> {
    opening("kty"@) + json::json_string("EC"@) + joint("x"@)
}

/// How a key ends, once the second coordinate is over.
spec fn jwk_end() -> Seq<char> {
    joint("crv"@) + (json::json_string("P-256"@) + seq!['}'])
}

/// A key in full.
proof fn lemma_jwk_text(key: KeyDataView)
    ensures
        dpop::jwk_json(key) == before_x() + (json::json_string(base64url::base64url(key.x)) + (
        joint("y"@) + (json::json_string(base64url::base64url(key.y)) + jwk_end()))),
{
    let x = json::json_string(base64url::base64url(key.x));
    let y = json::json_string(base64url::base64url(key.y));
    let members = seq![
        ("kty"@, json::json_string("EC"@)),
        ("x"@, x),
        ("y"@, y),
        ("crv"@, json::json_string("P-256"@)),
    ];
    lemma_four_members(members, seq!['}']);
    let rest = x + (joint("y"@) + (y + jwk_end()));
    lemma_regroup(opening("kty"@), json::json_string("EC"@), joint("x"@) + rest);
    lemma_regroup(opening("kty"@) + json::json_string("EC"@), joint("x"@), rest);
}

/// A header in full.
proof fn lemma_header_text(key: KeyDataView)
    ensures
        dpop::header_json(key) == before_jwk() + (dpop::jwk_json(key) + seq!['}']),
{
    let jwk = dpop::jwk_json(key);
    let members = seq![
        ("typ"@, json::json_string("dpop+jwt"@)),
        ("alg"@, json::json_string("ES256"@)),
        ("jwk"@, jwk),
    ];
    assert(members.drop_last() =~= members.take(2));
    assert(members.take(2).drop_last() =~= members.take(1));
    lemma_member_text(members);
    lemma_member_text(members.take(2));
    let typ = json::json_string("dpop+jwt"@);
    let alg = json::json_string("ES256"@);
    let name = json::json_string("typ"@);
    assert(json::json_members(members) == name + seq![':'] + typ + joint("alg"@) + alg + joint(
        "jwk"@,
    ) + jwk);
    lemma_regroup_header(name, typ, joint("alg"@), alg, joint("jwk"@), jwk);
}

/// The texts of a header can be joined from the last one on.
proof fn lemma_regroup_header(
    name: Seq<char>,
    v0: Seq<char>,
    j1: Seq<char>,
    v1: Seq<char>,
    j2: Seq<char>,
    v2: Seq<char>,
)
    ensures
        seq!['{'] + (name + seq![':'] + v0 + j1 + v1 + j2 + v2) + seq!['}'] == ((seq!['{'] + name
            + seq![':']) + v0 + j1 + v1 + j2) + (v2 + seq!['}']),
{
    assert(seq!['{'] + (name + seq![':'] + v0 + j1 + v1 + j2 + v2) + seq!['}'] =~= ((seq!['{']
        + name + seq![':']) + v0 + j1 + v1 + j2) + (v2 + seq!['}']));
}

/// A header tells the coordinates of its key.
proof fn lemma_header_tells(key: KeyDataView, other_key: KeyDataView)
    requires
        dpop::header_json(key) == dpop::header_json(other_key),
    ensures
        key.x == other_key.x,
        key.y == other_key.y,
{
    lemma_header_text(key);
    lemma_header_text(other_key);
    lemma_jwk_text(key);
    lemma_jwk_text(other_key);
    let (x, other_x) = (base64url::base64url(key.x), base64url::base64url(other_key.x));
    let (y, other_y) = (base64url::base64url(key.y), base64url::base64url(other_key.y));
    let after_x = joint("y"@) + (json::json_string(y) + jwk_end());
    let other_after_x = joint("y"@) + (json::json_string(other_y) + jwk_end());
    let (jwk, other_jwk) = (dpop::jwk_json(key), dpop::jwk_json(other_key));
    lemma_same_rest(before_jwk(), jwk + seq!['}'], other_jwk + seq!['}']);
    assert((jwk + seq!['}']).drop_last() =~= jwk);
    assert((other_jwk + seq!['}']).drop_last() =~= other_jwk);
    lemma_same_rest(
        before_x(),
        json::json_string(x) + after_x,
        json::json_string(other_x) + other_after_x,
    );
    json::json_string_is_self_delimiting(x, other_x, after_x, other_after_x);
    lemma_same_rest(
        joint("y"@),
        json::json_string(y) + jwk_end(),
        json::json_string(other_y) + jwk_end(),
    );
    json::json_string_is_self_delimiting(y, other_y, jwk_end(), jwk_end());
    base64url::base64url_is_injective(key.x, other_key.x);
    base64url::base64url_is_injective(key.y, other_key.y);
}

/// A DPoP is for one request only: its text tells the public key, the URL, the nonce, or that there
/// is none, the identifier and the time that it was made for.
pub proof fn dpop_tells_what_it_is_for(
    key: KeyDataView,
    url: Seq<char>,
    nonce: Option<Seq<char>>,
    jti: Seq<char>,
    iat: int,
    other_key: KeyDataView,
    other_url: Seq<char>,
    other_nonce: Option<Seq<char>>,
    other_jti: Seq<char>,
    other_iat: int,
)
    requires
        dpop::dpop(key, url, nonce, jti, iat) == dpop::dpop(
            other_key,
            other_url,
            other_nonce,
            other_jti,
            other_iat,
        ),
    ensures
        key.x == other_key.x,
        key.y == other_key.y,
        url == other_url,
        nonce == other_nonce,
        jti == other_jti,
        iat == other_iat,
{
    reveal_strlit(".");
    let header_bytes = text::utf8(dpop::header_json(key));
    let payload_bytes = text::utf8(dpop::payload_json(jti, url, iat, nonce));
    let unsigned = dpop::unsigned_dpop(key, url, nonce, jti, iat);
    let signature = base64url::base64url(keys::es256(key.secret, text::utf8(unsigned)));
    let other_header_bytes = text::utf8(dpop::header_json(other_key));
    let other_payload_bytes = text::utf8(
        dpop::payload_json(other_jti, other_url, other_iat, other_nonce),
    );
    let other_unsigned = dpop::unsigned_dpop(
        other_key,
        other_url,
        other_nonce,
        other_jti,
        other_iat,
    );
    let other_signature = base64url::base64url(
        keys::es256(other_key.secret, text::utf8(other_unsigned)),
    );
    let header = base64url::base64url(header_bytes);
    let payload = base64url::base64url(payload_bytes);
    let other_header = base64url::base64url(other_header_bytes);
    let other_payload = base64url::base64url(other_payload_bytes);
    base64url::base64url_is_url_safe(header_bytes);
    base64url::base64url_is_url_safe(payload_bytes);
    base64url::base64url_is_url_safe(other_header_bytes);
    base64url::base64url_is_url_safe(other_payload_bytes);
    let end = seq!['.'] + signature;
    let other_end = seq!['.'] + other_signature;
    let rest = seq!['.'] + (payload + end);
    let other_rest = seq!['.'] + (other_payload + other_end);
    assert(dpop::dpop(key, url, nonce, jti, iat) =~= header + rest);
    assert(dpop::dpop(other_key, other_url, other_nonce, other_jti, other_iat) =~= other_header
        + other_rest);
    lemma_same_cut(header, other_header, rest, other_rest, |c: char| c == '.');
    lemma_same_rest(seq!['.'], payload + end, other_payload + other_end);
    lemma_same_cut(payload, other_payload, end, other_end, |c: char| c == '.');
    base64url::base64url_is_injective(header_bytes, other_header_bytes);
    base64url::base64url_is_injective(payload_bytes, other_payload_bytes);
    text::utf8_is_injective(dpop::header_json(key), dpop::header_json(other_key));
    text::utf8_is_injective(
        dpop::payload_json(jti, url, iat, nonce),
        dpop::payload_json(other_jti, other_url, other_iat, other_nonce),
    );
    lemma_header_tells(key, other_key);
    lemma_payload_tells(
        jti,
        url,
        iat,
        nonce,
        other_jti,
        other_url,
        other_iat,
        other_nonce,
    );
}

/// The text of the header of a DPoP for a key with the given coordinates.
pub open spec fn header_text(x: Seq<u8>, y: Seq<u8>) -> Seq<char> {
    "{\"typ\":\"dpop+jwt\",\"alg\":\"ES256\",\"jwk\":{\"kty\":\"EC\",\"x\":\""@ + base64url::base64url(x)
        + "\",\"y\":\""@ + base64url::base64url(y) + "\",\"crv\":\"P-256\"}}"@
}

/// The text of the payload of a DPoP.
pub open spec fn payload_text(
    jti: Seq<char>,
    url: Seq<char>,
    iat: int,
    nonce: Option<Seq<char>>,
) -> Seq<char> {
    "{\"jti\":"@ + json::json_string(jti) + ",\"htm\":\"POST\",\"htu\":"@ + json::json_string(url)
        + ",\"iat\":"@ + text::signed_decimal(iat) + match nonce {
        Some(nonce) => ",\"nonce\":"@ + json::json_string(nonce) + "}"@,
        None => "}"@,
    }
}

/// Whether `made` is the DPoP that a key makes for a request: the encoded header, the encoded
/// payload, and the encoded signature of the two with the dot between them.
pub open spec fn is_proof(
    made: Seq<char>,
    x: Seq<u8>,
    y: Seq<u8>,
    secret: Seq<u8>,
    url: Seq<char>,
    nonce: Option<Seq<char>>,
    jti: Seq<char>,
    iat: int,
) -> bool {
    let header = base64url::base64url(text::utf8(header_text(x, y)));
    let payload = base64url::base64url(text::utf8(payload_text(jti, url, iat, nonce)));
    let signature = keys::es256(secret, text::utf8(header + "."@ + payload));
    &&& made == header + "."@ + payload + "."@ + base64url::base64url(signature)
}

/// The names and fixed values of a DPoP are written between quotes as they are.
proof fn lemma_fixed_texts()
    ensures
        json::json_string("jti"@) == "\"jti\""@,
        json::json_string("htm"@) == "\"htm\""@,
        json::json_string("POST"@) == "\"POST\""@,
        json::json_string("htu"@) == "\"htu\""@,
        json::json_string("iat"@) == "\"iat\""@,
        json::json_string("nonce"@) == "\"nonce\""@,
        json::json_string("typ"@) == "\"typ\""@,
        json::json_string("dpop+jwt"@) == "\"dpop+jwt\""@,
        json::json_string("alg"@) == "\"alg\""@,
        json::json_string("ES256"@) == "\"ES256\""@,
        json::json_string("jwk"@) == "\"jwk\""@,
        json::json_string("kty"@) == "\"kty\""@,
        json::json_string("EC"@) == "\"EC\""@,
        json::json_string("x"@) == "\"x\""@,
        json::json_string("y"@) == "\"y\""@,
        json::json_string("crv"@) == "\"crv\""@,
        json::json_string("P-256"@) == "\"P-256\""@,
{
    assert(json::json_string("jti"@) == "\"jti\""@) by {
        reveal_strlit("jti");
        reveal_strlit("\"jti\"");
        json::plain_text_is_only_quoted("jti"@);
        assert(seq!['"'] + "jti"@ + seq!['"'] =~= "\"jti\""@);
    }
    assert(json::json_string("htm"@) == "\"htm\""@) by {
        reveal_strlit("htm");
        reveal_strlit("\"htm\"");
        json::plain_text_is_only_quoted("htm"@);
        assert(seq!['"'] + "htm"@ + seq!['"'] =~= "\"htm\""@);
    }
    assert(json::json_string("POST"@) == "\"POST\""@) by {
        reveal_strlit("POST");
        reveal_strlit("\"POST\"");
        json::plain_text_is_only_quoted("POST"@);
        assert(seq!['"'] + "POST"@ + seq!['"'] =~= "\"POST\""@);
    }
    assert(json::json_string("htu"@) == "\"htu\""@) by {
        reveal_strlit("htu");
        reveal_strlit("\"htu\"");
        json::plain_text_is_only_quoted("htu"@);
        assert(seq!['"'] + "htu"@ + seq!['"'] =~= "\"htu\""@);
    }
    assert(json::json_string("iat"@) == "\"iat\""@) by {
        reveal_strlit("iat");
        reveal_strlit("\"iat\"");
        json::plain_text_is_only_quoted("iat"@);
        assert(seq!['"'] + "iat"@ + seq!['"'] =~= "\"iat\""@);
    }
    assert(json::json_string("nonce"@) == "\"nonce\""@) by {
        reveal_strlit("nonce");
        reveal_strlit("\"nonce\"");
        json::plain_text_is_only_quoted("nonce"@);
        assert(seq!['"'] + "nonce"@ + seq!['"'] =~= "\"nonce\""@);
    }
    assert(json::json_string("typ"@) == "\"typ\""@) by {
        reveal_strlit("typ");
        reveal_strlit("\"typ\"");
        json::plain_text_is_only_quoted("typ"@);
        assert(seq!['"'] + "typ"@ + seq!['"'] =~= "\"typ\""@);
    }
    assert(json::json_string("dpop+jwt"@) == "\"dpop+jwt\""@) by {
        reveal_strlit("dpop+jwt");
        reveal_strlit("\"dpop+jwt\"");
        json::plain_text_is_only_quoted("dpop+jwt"@);
        assert(seq!['"'] + "dpop+jwt"@ + seq!['"'] =~= "\"dpop+jwt\""@);
    }
    assert(json::json_string("alg"@) == "\"alg\""@) by {
        reveal_strlit("alg");
        reveal_strlit("\"alg\"");
        json::plain_text_is_only_quoted("alg"@);
        assert(seq!['"'] + "alg"@ + seq!['"'] =~= "\"alg\""@);
    }
    assert(json::json_string("ES256"@) == "\"ES256\""@) by {
        reveal_strlit("ES256");
        reveal_strlit("\"ES256\"");
        json::plain_text_is_only_quoted("ES256"@);
        assert(seq!['"'] + "ES256"@ + seq!['"'] =~= "\"ES256\""@);
    }
    assert(json::json_string("jwk"@) == "\"jwk\""@) by {
        reveal_strlit("jwk");
        reveal_strlit("\"jwk\"");
        json::plain_text_is_only_quoted("jwk"@);
        assert(seq!['"'] + "jwk"@ + seq!['"'] =~= "\"jwk\""@);
    }
    assert(json::json_string("kty"@) == "\"kty\""@) by {
        reveal_strlit("kty");
        reveal_strlit("\"kty\"");
        json::plain_text_is_only_quoted("kty"@);
        assert(seq!['"'] + "kty"@ + seq!['"'] =~= "\"kty\""@);
    }
    assert(json::json_string("EC"@) == "\"EC\""@) by {
        reveal_strlit("EC");
        reveal_strlit("\"EC\"");
        json::plain_text_is_only_quoted("EC"@);
        assert(seq!['"'] + "EC"@ + seq!['"'] =~= "\"EC\""@);
    }
    assert(json::json_string("x"@) == "\"x\""@) by {
        reveal_strlit("x");
        reveal_strlit("\"x\"");
        json::plain_text_is_only_quoted("x"@);
        assert(seq!['"'] + "x"@ + seq!['"'] =~= "\"x\""@);
    }
    assert(json::json_string("y"@) == "\"y\""@) by {
        reveal_strlit("y");
        reveal_strlit("\"y\"");
        json::plain_text_is_only_quoted("y"@);
        assert(seq!['"'] + "y"@ + seq!['"'] =~= "\"y\""@);
    }
    assert(json::json_string("crv"@) == "\"crv\""@) by {
        reveal_strlit("crv");
        reveal_strlit("\"crv\"");
        json::plain_text_is_only_quoted("crv"@);
        assert(seq!['"'] + "crv"@ + seq!['"'] =~= "\"crv\""@);
    }
    assert(json::json_string("P-256"@) == "\"P-256\""@) by {
        reveal_strlit("P-256");
        reveal_strlit("\"P-256\"");
        json::plain_text_is_only_quoted("P-256"@);
        assert(seq!['"'] + "P-256"@ + seq!['"'] =~= "\"P-256\""@);
    }
}

/// What stands before the coordinates in a header, and after them.
proof fn lemma_header_pieces()
    ensures
        before_jwk() + before_x() + seq!['"']
            == "{\"typ\":\"dpop+jwt\",\"alg\":\"ES256\",\"jwk\":{\"kty\":\"EC\",\"x\":\""@,
        seq!['"'] + joint("y"@) + seq!['"'] == "\",\"y\":\""@,
        seq!['"'] + jwk_end() + seq!['}'] == "\",\"crv\":\"P-256\"}}"@,
{
    lemma_fixed_texts();
    reveal_strlit("\"typ\"");
    reveal_strlit("\"dpop+jwt\"");
    reveal_strlit("\"alg\"");
    reveal_strlit("\"ES256\"");
    reveal_strlit("\"jwk\"");
    reveal_strlit("\"kty\"");
    reveal_strlit("\"EC\"");
    reveal_strlit("\"x\"");
    reveal_strlit("\"y\"");
    reveal_strlit("\"crv\"");
    reveal_strlit("\"P-256\"");
    reveal_strlit("{\"typ\":\"dpop+jwt\",\"alg\":\"ES256\",\"jwk\":{\"kty\":\"EC\",\"x\":\"");
    reveal_strlit("\",\"y\":\"");
    reveal_strlit("\",\"crv\":\"P-256\"}}");
    assert(before_jwk() + before_x() + seq!['"']
        =~= "{\"typ\":\"dpop+jwt\",\"alg\":\"ES256\",\"jwk\":{\"kty\":\"EC\",\"x\":\""@);
    assert(seq!['"'] + joint("y"@) + seq!['"'] =~= "\",\"y\":\""@);
    assert(seq!['"'] + jwk_end() + seq!['}'] =~= "\",\"crv\":\"P-256\"}}"@);
}

/// What stands before and between the values in a payload, and after them.
proof fn lemma_payload_pieces()
    ensures
        opening("jti"@) == "{\"jti\":"@,
        before_url() == ",\"htm\":\"POST\",\"htu\":"@,
        joint("iat"@) == ",\"iat\":"@,
        joint("nonce"@) == ",\"nonce\":"@,
        seq!['}'] == "}"@,
{
    lemma_fixed_texts();
    reveal_strlit("\"jti\"");
    reveal_strlit("\"htm\"");
    reveal_strlit("\"POST\"");
    reveal_strlit("\"htu\"");
    reveal_strlit("\"iat\"");
    reveal_strlit("\"nonce\"");
    reveal_strlit("{\"jti\":");
    reveal_strlit(",\"htm\":\"POST\",\"htu\":");
    reveal_strlit(",\"iat\":");
    reveal_strlit(",\"nonce\":");
    reveal_strlit("}");
    assert(opening("jti"@) =~= "{\"jti\":"@);
    assert(before_url() =~= ",\"htm\":\"POST\",\"htu\":"@);
    assert(joint("iat"@) =~= ",\"iat\":"@);
    assert(joint("nonce"@) =~= ",\"nonce\":"@);
    assert(seq!['}'] =~= "}"@);
}

/// Texts in a row, some of them quoted, can be joined in either order.
proof fn lemma_regroup_quoted(
    a: Seq<char>,
    b: Seq<char>,
    x: Seq<char>,
    j: Seq<char>,
    y: Seq<char>,
    e: Seq<char>,
    q: Seq<char>,
    z: Seq<char>,
)
    ensures
        a + (b + (q + x + q + (j + (q + y + q + e))) + z) == (a + b + q) + x + (q + j + q) + y + (q
            + e + z),
{
    assert(a + (b + (q + x + q + (j + (q + y + q + e))) + z) =~= (a + b + q) + x + (q + j + q) + y
        + (q + e + z));
}

/// The header in full.
proof fn lemma_header_in_full(key: KeyDataView)
    ensures
        dpop::header_json(key) == header_text(key.x, key.y),
{
    let (x, y) = (base64url::base64url(key.x), base64url::base64url(key.y));
    let q = seq!['"'];
    lemma_header_text(key);
    lemma_jwk_text(key);
    lemma_header_pieces();
    base64url::base64url_is_url_safe(key.x);
    base64url::base64url_is_url_safe(key.y);
    assert forall|i: int| 0 <= i < x.len() implies json::is_plain(#[trigger] x[i]) by {
        assert(base64url::is_url_safe(x[i]));
    }
    assert forall|i: int| 0 <= i < y.len() implies json::is_plain(#[trigger] y[i]) by {
        assert(base64url::is_url_safe(y[i]));
    }
    json::plain_text_is_only_quoted(x);
    json::plain_text_is_only_quoted(y);
    lemma_regroup_quoted(before_jwk(), before_x(), x, joint("y"@), y, jwk_end(), q, seq!['}']);
}

/// The payload in full.
proof fn lemma_payload_in_full(jti: Seq<char>, url: Seq<char>, iat: int, nonce: Option<Seq<char>>)
    ensures
        dpop::payload_json(jti, url, iat, nonce) == payload_text(jti, url, iat, nonce),
{
    lemma_payload_text(jti, url, iat, nonce);
    lemma_payload_pieces();
    let (a, b) = (opening("jti"@), json::json_string(jti));
    let (c, d) = (before_url(), json::json_string(url));
    let (e, f) = (joint("iat"@), text::signed_decimal(iat));
    let g = payload_end(nonce);
    lemma_regroup_payload(a, b, c, d, e, f, g);
    if let Some(nonce) = nonce {
        lemma_regroup(joint("nonce"@), json::json_string(nonce), seq!['}']);
    }
}

/// The texts of a payload can be joined in either order.
proof fn lemma_regroup_payload(
    a: Seq<char>,
    b: Seq<char>,
    c: Seq<char>,
    d: Seq<char>,
    e: Seq<char>,
    f: Seq<char>,
    g: Seq<char>,
)
    ensures
        a + (b + (c + (d + (e + (f + g))))) == a + b + c + d + e + f + g,
{
    assert(a + (b + (c + (d + (e + (f + g))))) =~= a + b + c + d + e + f + g);
}

/// A DPoP reads, once decoded, exactly as the header with the coordinates of its key, the payload
/// with its identifier, the `POST` method, its URL, its time and its nonce, if there is one, and the
/// signature of the two.
pub proof fn dpop_reads_in_full(
    key: KeyDataView,
    url: Seq<char>,
    nonce: Option<Seq<char>>,
    jti: Seq<char>,
    iat: int,
)
    ensures
        is_proof(
            dpop::dpop(key, url, nonce, jti, iat),
            key.x,
            key.y,
            key.secret,
            url,
            nonce,
            jti,
            iat,
        ),
{
    lemma_header_in_full(key);
    lemma_payload_in_full(jti, url, iat, nonce);
}

} // verus!
