//! JSON text: strings and objects.

use vstd::prelude::*;

verus! {

/// The sixteen hexadecimal digits, in order.
pub open spec fn hex_digits() -> Seq<char> {
    "0123456789abcdef"@
}

/// How `c` is written inside a JSON string.
pub open spec fn escaped(c: char) -> Seq<char> {
    if c == '"' {
        seq!['\\', '"']
    } else if c == '\\' {
        seq!['\\', '\\']
    } else if c == '\u{8}' {
        seq!['\\', 'b']
    } else if c == '\u{c}' {
        seq!['\\', 'f']
    } else if c == '\n' {
        seq!['\\', 'n']
    } else if c == '\r' {
        seq!['\\', 'r']
    } else if c == '\t' {
        seq!['\\', 't']
    } else if (c as u32) < 0x20 {
        seq!['\\', 'u', '0', '0', hex_digits()[c as int / 16], hex_digits()[c as int % 16]]
    } else {
        seq![c]
    }
}

/// The characters of `text` as they are written inside a JSON string.
pub open spec fn all_escaped(text: Seq<char>) -> Seq<char>
    decreases text.len(),
{
    if text.len() == 0 {
        seq![]
    } else {
        all_escaped(text.drop_last()) + escaped(text.last())
    }
}

/// `text` as a JSON string.
pub open spec fn json_string(text: Seq<char>) -> Seq<char> {
    seq!['"'] + all_escaped(text) + seq!['"']
}

/// The members of an object, each a name and the JSON text of its value, with commas in between.
pub open spec fn json_members(members: Seq<(Seq<char>, Seq<char>)>) -> Seq<char>
    decreases members.len(),
{
    if members.len() == 0 {
        seq![]
    } else {
        let (name, value) = members.last();
        let member = json_string(name) + seq![':'] + value;
        if members.len() == 1 {
            member
        } else {
            json_members(members.drop_last()) + seq![','] + member
        }
    }
}

/// The JSON object with the given members, without any white space.
pub open spec fn json_object(members: Seq<(Seq<char>, Seq<char>)>) -> Seq<char> {
    seq!['{'] + json_members(members) + seq!['}']
}

/// Writes `text` as a JSON string with `serde_json::to_string`.
///
/// The contract says that the result is the text between quotes, with quotes, backslashes and
/// control characters escaped and everything else as it is. Writing a string into memory cannot
/// fail.
#[verifier::external_body]
pub(crate) fn write_string(text: &str) -> (json: String)
    ensures
        json@ == json_string(text@),
{
    serde_json::to_string(text).unwrap()
}

/// Writes the JSON object with the given members, each a name and the JSON text of its value.
pub fn write_object(members: &Vec<(&str, String)>) -> (json: String)
    ensures
        json@ == json_object(members.deep_view()),
{
    let ghost all = members.deep_view();
    let mut json = "{".to_owned();
    let mut i: usize = 0;
    proof {
        reveal_strlit("{");
        assert(json@ =~= seq!['{'] + json_members(all.take(0)));
    }
    while i < members.len()
        invariant
            i <= members.len(),
            all == members.deep_view(),
            json@ == seq!['{'] + json_members(all.take(i as int)),
        decreases members.len() - i,
    {
        let ghost before = json@;
        if i > 0 {
            json.append(",");
        }
        let member = &members[i];
        json.append(write_string(member.0).as_str());
        json.append(":");
        json.append(member.1.as_str());
        proof {
            reveal_strlit(",");
            reveal_strlit(":");
            let done = all.take(i + 1);
            assert(done.drop_last() =~= all.take(i as int));
            assert(done.last() == (member.0@, member.1@));
            assert(json@ =~= seq!['{'] + json_members(done));
        }
        i += 1;
    }
    json.append("}");
    proof {
        reveal_strlit("}");
        assert(all.take(i as int) =~= all);
        assert(json@ =~= json_object(all));
    }
    json
}

/// The hexadecimal digits of the low numbers differ.
proof fn lemma_hex_digit(a: int, b: int)
    requires
        0 <= a < 16,
        0 <= b < 16,
        hex_digits()[a] == hex_digits()[b],
    ensures
        a == b,
{
    reveal_strlit("0123456789abcdef");
    let place = |c: char| if c <= '9' {
        c as int - '0' as int
    } else {
        c as int - 'a' as int + 10
    };
    assert forall|d: int| 0 <= d < 16 implies place(#[trigger] hex_digits()[d]) == d by {
        assert(d == 0 || d == 1 || d == 2 || d == 3 || d == 4 || d == 5 || d == 6 || d == 7 || d
            == 8 || d == 9 || d == 10 || d == 11 || d == 12 || d == 13 || d == 14 || d == 15);
    }
}

/// Where one escaped character ends does not depend on what follows, and it tells which character
/// it is.
proof fn lemma_escaped_delimited(c: char, d: char, x: Seq<char>, y: Seq<char>)
    requires
        escaped(c) + x == escaped(d) + y,
    ensures
        c == d,
        x == y,
{
    let (left, right) = (escaped(c) + x, escaped(d) + y);
    assert(left[0] == escaped(c)[0]);
    assert(right[0] == escaped(d)[0]);
    if escaped(c).len() > 1 && escaped(d).len() > 1 {
        assert(left[1] == escaped(c)[1]);
        assert(right[1] == escaped(d)[1]);
        if escaped(c).len() == 6 && escaped(d).len() == 6 {
            assert(left[4] == escaped(c)[4]);
            assert(right[4] == escaped(d)[4]);
            assert(left[5] == escaped(c)[5]);
            assert(right[5] == escaped(d)[5]);
            lemma_hex_digit(c as int / 16, d as int / 16);
            lemma_hex_digit(c as int % 16, d as int % 16);
        }
    }
    assert(c == d);
    assert(x =~= left.skip(escaped(c).len() as int));
    assert(y =~= right.skip(escaped(d).len() as int));
}

/// The first character comes first when a text is escaped.
proof fn lemma_all_escaped_first(text: Seq<char>)
    requires
        text.len() > 0,
    ensures
        all_escaped(text) == escaped(text[0]) + all_escaped(text.skip(1)),
    decreases text.len(),
{
    if text.len() == 1 {
        assert(text.drop_last() =~= Seq::<char>::empty());
        assert(text.skip(1) =~= Seq::<char>::empty());
        assert(all_escaped(text) =~= escaped(text[0]) + all_escaped(text.skip(1)));
    } else {
        lemma_all_escaped_first(text.drop_last());
        assert(text.drop_last().skip(1) =~= text.skip(1).drop_last());
        assert(all_escaped(text) =~= escaped(text[0]) + all_escaped(text.skip(1)));
    }
}

/// The end of an escaped text is the first quote after it that is not escaped.
proof fn lemma_all_escaped_delimited(a: Seq<char>, b: Seq<char>, x: Seq<char>, y: Seq<char>)
    requires
        all_escaped(a) + seq!['"'] + x == all_escaped(b) + seq!['"'] + y,
    ensures
        a == b,
        x == y,
    decreases a.len(),
{
    let left = all_escaped(a) + seq!['"'] + x;
    let right = all_escaped(b) + seq!['"'] + y;
    if a.len() == 0 && b.len() == 0 {
        assert(a =~= b);
        assert(x =~= left.skip(1));
        assert(y =~= right.skip(1));
    } else if a.len() == 0 {
        lemma_all_escaped_first(b);
        assert(left[0] == '"');
        assert(right[0] == escaped(b[0])[0]);
    } else if b.len() == 0 {
        lemma_all_escaped_first(a);
        assert(right[0] == '"');
        assert(left[0] == escaped(a[0])[0]);
    } else {
        lemma_all_escaped_first(a);
        lemma_all_escaped_first(b);
        let more_a = all_escaped(a.skip(1)) + seq!['"'] + x;
        let more_b = all_escaped(b.skip(1)) + seq!['"'] + y;
        assert(left =~= escaped(a[0]) + more_a);
        assert(right =~= escaped(b[0]) + more_b);
        lemma_escaped_delimited(a[0], b[0], more_a, more_b);
        lemma_all_escaped_delimited(a.skip(1), b.skip(1), x, y);
        assert(a =~= seq![a[0]] + a.skip(1));
        assert(b =~= seq![b[0]] + b.skip(1));
    }
}

/// A JSON string tells where it ends and which text it stands for, whatever follows.
pub proof fn json_string_is_self_delimiting(a: Seq<char>, b: Seq<char>, x: Seq<char>, y: Seq<char>)
    requires
        json_string(a) + x == json_string(b) + y,
    ensures
        a == b,
        x == y,
{
    assert((json_string(a) + x).skip(1) =~= all_escaped(a) + seq!['"'] + x);
    assert((json_string(b) + y).skip(1) =~= all_escaped(b) + seq!['"'] + y);
    lemma_all_escaped_delimited(a, b, x, y);
}

/// Whether a character stands for itself inside a JSON string.
pub open spec fn is_plain(c: char) -> bool {
    c != '"' && c != '\\' && c as u32 >= 0x20
}

/// Escaping leaves a text as it is if all of its characters stand for themselves.
proof fn lemma_plain_text(text: Seq<char>)
    requires
        forall|i: int| 0 <= i < text.len() ==> is_plain(#[trigger] text[i]),
    ensures
        all_escaped(text) == text,
    decreases text.len(),
{
    if text.len() > 0 {
        lemma_plain_text(text.drop_last());
        assert(is_plain(text[text.len() - 1]));
        assert(all_escaped(text) =~= text);
    }
}

/// Text of characters that stand for themselves is written between quotes and otherwise as it is.
pub proof fn plain_text_is_only_quoted(text: Seq<char>)
    requires
        forall|i: int| 0 <= i < text.len() ==> is_plain(#[trigger] text[i]),
    ensures
        json_string(text) == seq!['"'] + text + seq!['"'],
{
    lemma_plain_text(text);
}

/// The number that a hexadecimal digit stands for.
pub open spec fn hex_value(c: char) -> int {
    if c <= '9' {
        c as int - '0' as int
    } else {
        c as int - 'a' as int + 10
    }
}

/// The character that one of the short escapes of JSON stands for, by its letter.
pub open spec fn short_escape(letter: char) -> char {
    if letter == 'b' {
        '\u{8}'
    } else if letter == 'f' {
        '\u{c}'
    } else if letter == 'n' {
        '\n'
    } else if letter == 'r' {
        '\r'
    } else if letter == 't' {
        '\t'
    } else {
        letter
    }
}

/// An escaped character can be read back: one that stands for itself is itself; another is a
/// backslash and a letter where JSON has a short escape for it, and the four digits of its number
/// otherwise. Texts are escaped character by character.
pub proof fn escapes_can_be_read_back(c: char, text: Seq<char>)
    ensures
        is_plain(c) ==> escaped(c) == seq![c],
        !is_plain(c) ==> escaped(c)[0] == '\\' && (escaped(c).len() == 2 || escaped(c).len() == 6),
        escaped(c).len() == 2 ==> escaped(c)[1] != 'u' && short_escape(escaped(c)[1]) == c,
        escaped(c).len() == 6 ==> escaped(c)[1] == 'u' && escaped(c)[2] == '0' && escaped(c)[3]
            == '0' && 16 * hex_value(escaped(c)[4]) + hex_value(escaped(c)[5]) == c as int,
        escaped(c).len() == 6 <==> ((c as u32) < 0x20 && (c as u32) != 8 && (c as u32) != 9 && (
        c as u32) != 10 && (c as u32) != 12 && (c as u32) != 13),
        json_string(Seq::<char>::empty()) == seq!['"', '"'],
        json_string(text.push(c)) == json_string(text).drop_last() + escaped(c) + seq!['"'],
{
    reveal_strlit("0123456789abcdef");
    if escaped(c).len() == 6 {
        let low = c as int % 16;
        assert(low == 0 || low == 1 || low == 2 || low == 3 || low == 4 || low == 5 || low == 6
            || low == 7 || low == 8 || low == 9 || low == 10 || low == 11 || low == 12 || low == 13
            || low == 14 || low == 15);
        let high = c as int / 16;
        assert(high == 0 || high == 1);
    }
    assert(text.push(c).drop_last() =~= text);
    assert(json_string(text.push(c)) =~= json_string(text).drop_last() + escaped(c) + seq!['"']);
    assert(json_string(Seq::<char>::empty()) =~= seq!['"', '"']);
}

/// An object is written between braces. With one member more, it is written the same up to the
/// closing brace, and goes on with a comma, unless the member is the first, its name as a JSON
/// string, a colon and its value.
pub proof fn objects_are_written_member_by_member(
    members: &Vec<(&str, String)>,
    json: String,
    more: &Vec<(&str, String)>,
    more_json: String,
)
    requires
        call_ensures(write_object, (members,), json),
        call_ensures(write_object, (more,), more_json),
        more@.len() == members@.len() + 1,
        forall|i: int|
            0 <= i < members@.len() ==> (#[trigger] more@[i]).0@ == members@[i].0@ && more@[i].1@
                == members@[i].1@,
    ensures
        members@.len() == 0 ==> json@ == seq!['{', '}'],
        json@.len() > 0 && json@.last() == '}',
        more_json@ == json@.drop_last() + (if members@.len() == 0 {
            seq![]
        } else {
            seq![',']
        }) + json_string(more@.last().0@) + seq![':'] + more@.last().1@ + seq!['}'],
{
    let (m, n) = (members.deep_view(), more.deep_view());
    assert(n.drop_last() =~= m);
    assert(n.last() == (more@.last().0@, more@.last().1@));
    assert(json@.drop_last() =~= seq!['{'] + json_members(m));
    assert(members@.len() == 0 ==> json@ =~= seq!['{', '}']);
    assert(more_json@ =~= json@.drop_last() + (if members@.len() == 0 {
        seq![]
    } else {
        seq![',']
    }) + json_string(more@.last().0@) + seq![':'] + more@.last().1@ + seq!['}']);
}

} // verus!
