//! Small pieces of text: decimal numbers and optional strings.

use vstd::prelude::*;

verus! {

/// The UTF-8 encoding of `text`.
pub open spec fn utf8(text: Seq<char>) -> Seq<u8> {
    vstd::utf8::encode_utf8(text)
}

/// The ten decimal digits, in order.
pub open spec fn digits() -> Seq<char> {
    "0123456789"@
}

/// `n` written in decimal, without leading zeros.
pub open spec fn decimal(n: nat) -> Seq<char>
    decreases n,
{
    if n < 10 {
        seq![digits()[n as int]]
    } else {
        decimal(n / 10).push(digits()[(n % 10) as int])
    }
}

/// `n` written in decimal, with a minus sign in front of a negative number.
pub open spec fn signed_decimal(n: int) -> Seq<char> {
    if n < 0 {
        "-"@ + decimal((-n) as nat)
    } else {
        decimal(n as nat)
    }
}

/// The text of digit `d`.
fn digit_text(d: u64) -> (text: &'static str)
    requires
        d < 10,
    ensures
        text@ == seq![digits()[d as int]],
{
    proof {
        reveal_strlit("0123456789");
    }
    let text: &'static str = "0123456789".substring_ascii(d as usize, d as usize + 1);
    assert(text@ =~= seq![digits()[d as int]]);
    text
}

/// Writes `n` in decimal.
pub fn write_decimal(n: u64) -> (text: String)
    ensures
        text@ == decimal(n as nat),
    decreases n,
{
    if n < 10 {
        digit_text(n).to_owned()
    } else {
        let mut text = write_decimal(n / 10);
        text.append(digit_text(n % 10));
        assert(text@ =~= decimal(n as nat));
        text
    }
}

/// Writes `n` in decimal, with a minus sign in front of a negative number.
pub fn write_signed_decimal(n: i64) -> (text: String)
    ensures
        text@ == signed_decimal(n as int),
{
    if n < 0 {
        let magnitude: u64 = if n == i64::MIN {
            0x8000_0000_0000_0000
        } else {
            (-n) as u64
        };
        let mut text = "-".to_owned();
        text.append(write_decimal(magnitude).as_str());
        text
    } else {
        write_decimal(n as u64)
    }
}

/// A copy of an optional string.
pub fn copy_optional(text: &Option<String>) -> (copy: Option<String>)
    ensures
        copy.deep_view() == text.deep_view(),
{
    match text {
        Some(text) => Some(text.clone()),
        None => None,
    }
}

/// Different texts have different UTF-8 encodings.
pub proof fn utf8_is_injective(a: Seq<char>, b: Seq<char>)
    requires
        utf8(a) == utf8(b),
    ensures
        a == b,
{
    vstd::utf8::encode_utf8_decode_utf8(a);
    vstd::utf8::encode_utf8_decode_utf8(b);
}

/// The digit for each number below ten is the character that many places after zero.
proof fn lemma_digit(d: int)
    requires
        0 <= d < 10,
    ensures
        digits()[d] as int == '0' as int + d,
{
    reveal_strlit("0123456789");
    assert(d == 0 || d == 1 || d == 2 || d == 3 || d == 4 || d == 5 || d == 6 || d == 7 || d == 8
        || d == 9);
}

/// A number in decimal is made of digits.
proof fn lemma_decimal_digits(n: nat)
    ensures
        decimal(n).len() > 0,
        forall|i: int| 0 <= i < decimal(n).len() ==> '0' <= #[trigger] decimal(n)[i] <= '9',
    decreases n,
{
    lemma_digit((n % 10) as int);
    if n >= 10 {
        lemma_decimal_digits(n / 10);
    }
}

/// Different numbers differ in decimal.
proof fn lemma_decimal_injective(a: nat, b: nat)
    requires
        decimal(a) == decimal(b),
    ensures
        a == b,
    decreases a,
{
    lemma_digit((a % 10) as int);
    lemma_digit((b % 10) as int);
    lemma_decimal_digits(a / 10);
    lemma_decimal_digits(b / 10);
    assert(decimal(a).last() == digits()[(a % 10) as int]);
    assert(decimal(b).last() == digits()[(b % 10) as int]);
    if a >= 10 && b >= 10 {
        assert(decimal(a).drop_last() =~= decimal(a / 10));
        assert(decimal(b).drop_last() =~= decimal(b / 10));
        lemma_decimal_injective(a / 10, b / 10);
    }
}

/// A number with its sign is made of digits and, at the most, a minus sign.
pub proof fn signed_decimal_has_digits_only(n: int)
    ensures
        signed_decimal(n).len() > 0,
        forall|i: int|
            0 <= i < signed_decimal(n).len() ==> (#[trigger] signed_decimal(n)[i] == '-' || '0'
                <= signed_decimal(n)[i] <= '9'),
{
    reveal_strlit("-");
    if n < 0 {
        lemma_decimal_digits((-n) as nat);
    } else {
        lemma_decimal_digits(n as nat);
    }
}

/// Different numbers differ in decimal with their signs.
pub proof fn signed_decimal_is_injective(a: int, b: int)
    requires
        signed_decimal(a) == signed_decimal(b),
    ensures
        a == b,
{
    reveal_strlit("-");
    let ma: nat = (if a < 0 { -a } else { a }) as nat;
    let mb: nat = (if b < 0 { -b } else { b }) as nat;
    lemma_decimal_digits(ma);
    lemma_decimal_digits(mb);
    let (da, db) = (decimal(ma), decimal(mb));
    assert(a < 0 ==> signed_decimal(a)[0] == '-');
    assert(b < 0 ==> signed_decimal(b)[0] == '-');
    assert(a >= 0 ==> signed_decimal(a)[0] == da[0]);
    assert(b >= 0 ==> signed_decimal(b)[0] == db[0]);
    if a < 0 {
        assert(signed_decimal(a).skip(1) =~= da);
        assert(signed_decimal(b).skip(1) =~= db);
    }
    lemma_decimal_injective(ma, mb);
}

/// The number that a text of decimal digits stands for.
pub open spec fn number(text: Seq<char>) -> int
    decreases text.len(),
{
    if text.len() == 0 {
        0
    } else {
        10 * number(text.drop_last()) + (text.last() as int - '0' as int)
    }
}

/// Whether a text is the usual way to write a number: digits, and no zero in front of others.
pub open spec fn is_numeral(text: Seq<char>) -> bool {
    &&& text.len() > 0
    &&& forall|i: int| 0 <= i < text.len() ==> '0' <= #[trigger] text[i] <= '9'
    &&& text.len() > 1 ==> text[0] != '0'
}

/// A number in decimal can be read back.
proof fn lemma_decimal_number(n: nat)
    ensures
        is_numeral(decimal(n)),
        number(decimal(n)) == n,
        n > 0 ==> decimal(n)[0] != '0',
    decreases n,
{
    lemma_decimal_digits(n);
    lemma_digit((n % 10) as int);
    if n >= 10 {
        lemma_decimal_number(n / 10);
        assert(decimal(n).drop_last() =~= decimal(n / 10));
    } else {
        assert(decimal(n).drop_last() =~= Seq::<char>::empty());
        assert(number(Seq::<char>::empty()) == 0);
    }
    assert(decimal(n).last() == digits()[(n % 10) as int]);
}

/// What is written for a number is the numeral that stands for it.
pub proof fn written_numbers_can_be_read_back(n: u64, text: String, i: i64, signed: String)
    requires
        call_ensures(write_decimal, (n,), text),
        call_ensures(write_signed_decimal, (i,), signed),
    ensures
        is_numeral(text@),
        number(text@) == n,
        i >= 0 ==> is_numeral(signed@) && number(signed@) == i,
        i < 0 ==> signed@[0] == '-' && is_numeral(signed@.skip(1)) && number(signed@.skip(1)) == -i,
{
    numerals_stand_for_their_numbers(n as nat, i as int);
}

/// The decimal form of a number is the numeral that stands for it, after a minus sign if the number
/// is negative.
pub proof fn numerals_stand_for_their_numbers(n: nat, i: int)
    ensures
        is_numeral(decimal(n)),
        number(decimal(n)) == n,
        i >= 0 ==> signed_decimal(i) == decimal(i as nat),
        i < 0 ==> signed_decimal(i)[0] == '-' && signed_decimal(i).skip(1) == decimal((-i) as nat),
        i >= 0 ==> is_numeral(signed_decimal(i)) && number(signed_decimal(i)) == i,
        i < 0 ==> is_numeral(signed_decimal(i).skip(1)) && number(signed_decimal(i).skip(1)) == -i,
{
    reveal_strlit("-");
    lemma_decimal_number(n);
    if i < 0 {
        lemma_decimal_number((-i) as nat);
        assert(signed_decimal(i).skip(1) =~= decimal((-i) as nat));
    } else {
        lemma_decimal_number(i as nat);
    }
}

/// A copy of an optional string is the same.
pub proof fn copies_are_the_same(text: &Option<String>, copy: Option<String>)
    requires
        call_ensures(copy_optional, (text,), copy),
    ensures
        text is None <==> copy is None,
        text matches Some(t) ==> (copy matches Some(c) && c@ == t@),
{
}

} // verus!
