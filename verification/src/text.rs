//! Text helpers: trimming white space and writing numbers in decimal.

use vstd::prelude::*;

verus! {

/// The characters of Unicode's `White_Space` property.
pub open spec fn is_white_space(c: char) -> bool {
    let code = c as int;
    ||| 0x9 <= code <= 0xd
    ||| code == 0x20
    ||| code == 0x85
    ||| code == 0xa0
    ||| code == 0x1680
    ||| 0x2000 <= code <= 0x200a
    ||| code == 0x2028
    ||| code == 0x2029
    ||| code == 0x202f
    ||| code == 0x205f
    ||| code == 0x3000
}

/// `text` without the white space at its two ends.
pub open spec fn trimmed(text: Seq<char>) -> Seq<char>
    decreases text.len(),
{
    if text.len() == 0 {
        text
    } else if is_white_space(text.first()) {
        trimmed(text.drop_first())
    } else if is_white_space(text.last()) {
        trimmed(text.drop_last())
    } else {
        text
    }
}

/// What an optional string holds.
pub open spec fn option_text(text: Option<String>) -> Option<Seq<char>> {
    match text {
        Some(text) => Some(text@),
        None => None,
    }
}

/// The decimal digit of value `d`.
pub open spec fn digit(d: int) -> char
    recommends
        0 <= d < 10,
{
    if d == 0 {
        '0'
    } else if d == 1 {
        '1'
    } else if d == 2 {
        '2'
    } else if d == 3 {
        '3'
    } else if d == 4 {
        '4'
    } else if d == 5 {
        '5'
    } else if d == 6 {
        '6'
    } else if d == 7 {
        '7'
    } else if d == 8 {
        '8'
    } else {
        '9'
    }
}

/// `n` in decimal, without leading zeros.
pub open spec fn decimal_nat(n: nat) -> Seq<char>
    decreases n,
{
    if n < 10 {
        seq![digit(n as int)]
    } else {
        decimal_nat(n / 10).push(digit((n % 10) as int))
    }
}

/// `n` in decimal, with a leading `-` where it is negative.
pub open spec fn decimal(n: int) -> Seq<char> {
    if n < 0 {
        seq!['-'] + decimal_nat((-n) as nat)
    } else {
        decimal_nat(n as nat)
    }
}

/// Calls `str::trim` of the standard library.
///
/// Believed of it: the result is its argument without leading and trailing white space, where white
/// space is what the Unicode property `White_Space` lists.
#[verifier::external_body]
pub(crate) fn trim(text: &str) -> (result: &str)
    ensures
        result@ == trimmed(text@),
{
    text.trim()
}

/// The one-character string of the digit of value `d`.
fn digit_str(d: u64) -> (result: &'static str)
    requires
        d < 10,
    ensures
        result@ == seq![digit(d as int)],
{
    proof {
        reveal_strlit("0");
        reveal_strlit("1");
        reveal_strlit("2");
        reveal_strlit("3");
        reveal_strlit("4");
        reveal_strlit("5");
        reveal_strlit("6");
        reveal_strlit("7");
        reveal_strlit("8");
        reveal_strlit("9");
    }
    match d {
        0 => "0",
        1 => "1",
        2 => "2",
        3 => "3",
        4 => "4",
        5 => "5",
        6 => "6",
        7 => "7",
        8 => "8",
        _ => "9",
    }
}

/// Appends `n` in decimal to `out`.
fn append_decimal(out: &mut String, n: u64)
    ensures
        final(out)@ == old(out)@ + decimal_nat(n as nat),
    decreases n,
{
    if n < 10 {
        out.append(digit_str(n));
    } else {
        append_decimal(out, n / 10);
        out.append(digit_str(n % 10));
    }
}

/// `n` in decimal.
pub fn to_decimal(n: i32) -> (result: String)
    ensures
        result@ == decimal(n as int),
{
    let mut out = String::new();
    if n < 0 {
        proof {
            reveal_strlit("-");
        }
        out.append("-");
        append_decimal(&mut out, (-(n as i64)) as u64);
    } else {
        append_decimal(&mut out, n as u64);
    }
    out
}

/// Trimmed text neither starts nor ends with white space.
pub proof fn law_trimmed_ends(text: Seq<char>)
    ensures
        trimmed(text).len() > 0 ==> !is_white_space(trimmed(text).first()) && !is_white_space(
            trimmed(text).last(),
        ),
    decreases text.len(),
{
    if text.len() > 0 {
        if is_white_space(text.first()) {
            law_trimmed_ends(text.drop_first());
        } else if is_white_space(text.last()) {
            law_trimmed_ends(text.drop_last());
        }
    }
}

/// Every character of `text` is white space.
pub open spec fn is_blank(text: Seq<char>) -> bool {
    forall|i: int| 0 <= i < text.len() ==> is_white_space(#[trigger] text[i])
}

/// `text` is `inner` between the white space `before` and the white space `after`.
pub open spec fn is_padded(
    before: Seq<char>,
    inner: Seq<char>,
    after: Seq<char>,
    text: Seq<char>,
) -> bool {
    &&& text == before + inner + after
    &&& is_blank(before)
    &&& is_blank(after)
}

/// Trimming takes nothing but white space away: the text is some white space, the trimmed text,
/// and some white space.
pub proof fn law_trimmed_keeps(text: Seq<char>)
    ensures
        exists|before: Seq<char>, after: Seq<char>| is_padded(before, trimmed(text), after, text),
    decreases text.len(),
{
    if text.len() > 0 && is_white_space(text.first()) {
        let rest = text.drop_first();
        law_trimmed_keeps(rest);
        let (before, after) = choose|before: Seq<char>, after: Seq<char>|
            is_padded(before, trimmed(rest), after, rest);
        let longer = seq![text.first()] + before;
        assert(longer + trimmed(text) + after =~= seq![text.first()] + rest);
        assert(seq![text.first()] + rest =~= text);
        assert(is_padded(longer, trimmed(text), after, text));
    } else if text.len() > 0 && is_white_space(text.last()) {
        let rest = text.drop_last();
        law_trimmed_keeps(rest);
        let (before, after) = choose|before: Seq<char>, after: Seq<char>|
            is_padded(before, trimmed(rest), after, rest);
        let longer = after.push(text.last());
        assert(before + trimmed(text) + longer =~= rest.push(text.last()));
        assert(rest.push(text.last()) =~= text);
        assert(is_padded(before, trimmed(text), longer, text));
    } else {
        let empty = Seq::<char>::empty();
        assert(empty + trimmed(text) + empty =~= text);
        assert(is_padded(empty, trimmed(text), empty, text));
    }
}

/// Trimming twice is trimming once.
pub proof fn law_trimmed_idempotent(text: Seq<char>)
    ensures
        trimmed(trimmed(text)) == trimmed(text),
{
    law_trimmed_ends(text);
}

/// The number that a decimal digit stands for.
pub open spec fn digit_value(c: char) -> int {
    c as int - 0x30
}

/// Every character of `text` is a decimal digit.
pub open spec fn is_number(text: Seq<char>) -> bool {
    text.len() > 0 && forall|i: int| 0 <= i < text.len() ==> 0 <= digit_value(#[trigger] text[i])
        <= 9
}

/// The number that a row of decimal digits stands for.
pub open spec fn number_of(text: Seq<char>) -> int
    decreases text.len(),
{
    if text.len() == 0 {
        0
    } else {
        number_of(text.drop_last()) * 10 + digit_value(text.last())
    }
}

/// The decimal form of a natural number is a row of digits that stands for that number, and only
/// zero starts with a zero.
pub proof fn law_decimal_nat_reads_back(n: nat)
    ensures
        is_number(decimal_nat(n)),
        number_of(decimal_nat(n)) == n,
        n > 0 ==> digit_value(decimal_nat(n)[0]) != 0,
        n < 10 ==> decimal_nat(n).len() == 1,
    decreases n,
{
    if n < 10 {
        assert(decimal_nat(n).drop_last() =~= Seq::empty());
        reveal_with_fuel(number_of, 2);
    } else {
        law_decimal_nat_reads_back(n / 10);
        assert(decimal_nat(n).drop_last() =~= decimal_nat(n / 10));
    }
}

/// The decimal form of a number that is not negative is a row of digits that stands for it; that of
/// a negative number is a minus sign before the row of digits for its magnitude.
pub proof fn law_decimal_reads_back(n: int)
    ensures
        n >= 0 ==> is_number(decimal(n)) && number_of(decimal(n)) == n,
        n < 0 ==> decimal(n)[0] == '-' && is_number(decimal(n).drop_first()) && number_of(
            decimal(n).drop_first(),
        ) == -n,
        n > 0 ==> digit_value(decimal(n)[0]) != 0,
        n < 0 ==> digit_value(decimal(n)[1]) != 0,
{
    if n < 0 {
        law_decimal_nat_reads_back((-n) as nat);
        assert(decimal(n).drop_first() =~= decimal_nat((-n) as nat));
        assert(decimal(n)[1] == decimal(n).drop_first()[0]);
    } else {
        law_decimal_nat_reads_back(n as nat);
    }
}

/// Two numbers with the same decimal form are the same number.
pub proof fn law_decimal_injective(m: int, n: int)
    ensures
        decimal(m) == decimal(n) ==> m == n,
{
    law_decimal_reads_back(m);
    law_decimal_reads_back(n);
    if decimal(m) == decimal(n) && (m < 0) != (n < 0) {
        assert(digit_value(decimal(m)[0]) == digit_value('-'));
    }
}

/// White space is these twenty-five characters: the five controls from tab to carriage return, and
/// twenty others.
pub proof fn law_white_space(c: char)
    ensures
        is_white_space(c) <==> seq![
            0x9int,
            0xa,
            0xb,
            0xc,
            0xd,
            0x20,
            0x85,
            0xa0,
            0x1680,
            0x2000,
            0x2001,
            0x2002,
            0x2003,
            0x2004,
            0x2005,
            0x2006,
            0x2007,
            0x2008,
            0x2009,
            0x200a,
            0x2028,
            0x2029,
            0x202f,
            0x205f,
            0x3000,
        ].contains(c as int),
{
    let codes = seq![
        0x9int,
        0xa,
        0xb,
        0xc,
        0xd,
        0x20,
        0x85,
        0xa0,
        0x1680,
        0x2000,
        0x2001,
        0x2002,
        0x2003,
        0x2004,
        0x2005,
        0x2006,
        0x2007,
        0x2008,
        0x2009,
        0x200a,
        0x2028,
        0x2029,
        0x202f,
        0x205f,
        0x3000,
    ];
    if is_white_space(c) {
        let code = c as int;
        let i = if code <= 0xd {
            code - 0x9
        } else if code == 0x20 {
            5
        } else if code == 0x85 {
            6
        } else if code == 0xa0 {
            7
        } else if code == 0x1680 {
            8
        } else if code <= 0x200a {
            code - 0x2000 + 9
        } else if code == 0x2028 {
            20
        } else if code == 0x2029 {
            21
        } else if code == 0x202f {
            22
        } else if code == 0x205f {
            23
        } else {
            24
        };
        assert(codes[i] == code);
    }
}

/// Text between white space is what trimming leaves, as long as it has none at its own ends.
pub proof fn law_trimmed_is_the_middle(before: Seq<char>, inner: Seq<char>, after: Seq<char>)
    requires
        is_blank(before),
        is_blank(after),
        inner.len() > 0 ==> !is_white_space(inner.first()) && !is_white_space(inner.last()),
    ensures
        trimmed(before + inner + after) == inner,
    decreases before.len() + after.len(),
{
    let text = before + inner + after;
    if before.len() > 0 {
        assert(text.first() == before[0]);
        let rest = before.drop_first();
        assert(is_blank(rest)) by {
            assert forall|i: int| 0 <= i < rest.len() implies is_white_space(#[trigger] rest[i]) by {
                assert(rest[i] == before[i + 1]);
            }
        }
        assert(text.drop_first() =~= rest + inner + after);
        law_trimmed_is_the_middle(rest, inner, after);
    } else if after.len() > 0 {
        if inner.len() == 0 {
            let rest = after.drop_first();
            assert(text.first() == after[0]);
            assert(is_blank(rest)) by {
                assert forall|i: int| 0 <= i < rest.len() implies is_white_space(
                    #[trigger] rest[i],
                ) by {
                    assert(rest[i] == after[i + 1]);
                }
            }
            assert(text.drop_first() =~= before + inner + rest);
            law_trimmed_is_the_middle(before, inner, rest);
        } else {
            let rest = after.drop_last();
            assert(text.first() == inner.first());
            assert(text.last() == after[after.len() - 1]);
            assert(is_blank(rest)) by {
                assert forall|i: int| 0 <= i < rest.len() implies is_white_space(
                    #[trigger] rest[i],
                ) by {
                    assert(rest[i] == after[i]);
                }
            }
            assert(text.drop_last() =~= before + inner + rest);
            law_trimmed_is_the_middle(before, inner, rest);
        }
    } else {
        assert(text =~= inner);
    }
}

/// An optional string is seen with all its characters, and as absent exactly if it is absent.
pub proof fn law_option_text(text: Option<String>)
    ensures
        option_text(text) is None <==> text is None,
        text is Some ==> option_text(text)->0 == text->0@,
{
}

} // verus!
