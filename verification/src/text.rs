//! Text helpers shared by the prompt builders, the impact report and the
//! artifact layout: joining, decimal rendering, whitespace removal and
//! comparisons on owned strings.
use vstd::prelude::*;

verus! {

/// The texts of `parts` in order, with `separator` between neighbours.
pub open spec fn join(parts: Seq<Seq<char>>, separator: Seq<char>) -> Seq<char>
    decreases parts.len(),
{
    if parts.len() == 0 {
        Seq::empty()
    } else if parts.len() == 1 {
        parts[0]
    } else {
        join(parts.drop_last(), separator) + separator + parts.last()
    }
}

/// Joins `parts` with `separator` between neighbours.
pub fn join_strings(parts: &Vec<String>, separator: &str) -> (r: String)
    ensures
        r@ == join(parts.deep_view(), separator@),
{
    let mut out = String::new();
    let mut i: usize = 0;
    while i < parts.len()
        invariant
            i <= parts.len(),
            out@ == join(parts.deep_view().take(i as int), separator@),
        decreases parts.len() - i,
    {
        proof {
            let all = parts.deep_view();
            assert(all.take(i + 1).drop_last() == all.take(i as int));
            assert(all.take(i + 1).last() == parts[i as int]@);
            if i > 0 {
                assert(all.take(i as int).len() == i);
            }
        }
        if i > 0 {
            out.append(separator);
        }
        out.append(parts[i].as_str());
        i = i + 1;
    }
    proof {
        assert(parts.deep_view().take(i as int) == parts.deep_view());
    }
    out
}

/// The character that stands for the decimal digit `d`.
pub open spec fn digit_char(d: nat) -> char
    recommends
        d < 10,
{
    if d == 0 {
        '0'
    } else if d == 1 {
        '1'
    } else if d == 2 {
        '2'
    } else if d == 3 {
        '3'
    } else if d == 4 {
        '4'
    } else if d == 5 {
        '5'
    } else if d == 6 {
        '6'
    } else if d == 7 {
        '7'
    } else if d == 8 {
        '8'
    } else {
        '9'
    }
}

/// The decimal numeral of `n`, without sign or leading zeros.
pub open spec fn decimal(n: nat) -> Seq<char>
    decreases n,
{
    if n < 10 {
        seq![digit_char(n)]
    } else {
        decimal(n / 10).push(digit_char(n % 10))
    }
}

/// The one-character text of a decimal digit.
fn digit_text(d: u64) -> (r: &'static str)
    requires
        d < 10,
    ensures
        r@ == seq![digit_char(d as nat)],
{
    proof {
        reveal_strlit("0");
        reveal_strlit("1");
        reveal_strlit("2");
        reveal_strlit("3");
        reveal_strlit("4");
        reveal_strlit("5");
        reveal_strlit("6");
        reveal_strlit("7");
        reveal_strlit("8");
        reveal_strlit("9");
    }
    let r = if d == 0 {
        "0"
    } else if d == 1 {
        "1"
    } else if d == 2 {
        "2"
    } else if d == 3 {
        "3"
    } else if d == 4 {
        "4"
    } else if d == 5 {
        "5"
    } else if d == 6 {
        "6"
    } else if d == 7 {
        "7"
    } else if d == 8 {
        "8"
    } else {
        "9"
    };
    assert(r@ =~= seq![digit_char(d as nat)]);
    r
}

/// Renders `n` as a decimal numeral.
pub fn decimal_text(n: u64) -> (r: String)
    ensures
        r@ == decimal(n as nat),
    decreases n,
{
    if n < 10 {
        String::from_str(digit_text(n))
    } else {
        let mut out = decimal_text(n / 10);
        out.append(digit_text(n % 10));
        assert(out@ =~= decimal(n as nat));
        out
    }
}

/// The digits of the fraction `fraction / scale`, most significant first,
/// without trailing zeros. `scale` is a power of ten above `fraction`.
pub open spec fn fraction_digits(fraction: nat, scale: nat) -> Seq<char>
    decreases scale,
{
    if fraction == 0 || scale <= 1 {
        Seq::empty()
    } else {
        seq![digit_char(fraction / (scale / 10))] + fraction_digits(
            fraction % (scale / 10),
            scale / 10,
        )
    }
}

/// The decimal numeral of `millionths / 1000000`: the whole part, and where
/// the fraction is not zero, a point and the fraction's digits, without
/// trailing zeros.
pub open spec fn millionths_numeral(millionths: nat) -> Seq<char> {
    if millionths % 1_000_000 == 0 {
        decimal(millionths / 1_000_000)
    } else {
        decimal(millionths / 1_000_000) + seq!['.'] + fraction_digits(
            millionths % 1_000_000,
            1_000_000,
        )
    }
}

/// Renders a number given in millionths as a decimal numeral: 850000 reads
/// `0.85`, 1000000 reads `1`.
pub fn millionths_text(millionths: u32) -> (r: String)
    ensures
        r@ == millionths_numeral(millionths as nat),
{
    let mut out = decimal_text((millionths / 1_000_000) as u64);
    let mut fraction: u32 = millionths % 1_000_000;
    if fraction == 0 {
        return out;
    }
    proof {
        reveal_strlit(".");
    }
    out.append(".");
    let ghost head = out@;
    assert(head =~= decimal(millionths as nat / 1_000_000) + seq!['.']);
    let mut scale: u32 = 1_000_000;
    while fraction != 0 && scale > 1
        invariant
            fraction < scale,
            scale == 1 || scale == 10 || scale == 100 || scale == 1_000 || scale == 10_000
                || scale == 100_000 || scale == 1_000_000,
            out@ + fraction_digits(fraction as nat, scale as nat) == head + fraction_digits(
                (millionths % 1_000_000) as nat,
                1_000_000,
            ),
        decreases scale,
    {
        let ghost before = out@;
        let ghost old_fraction = fraction;
        let ghost old_scale = scale;
        scale = scale / 10;
        let digit = fraction / scale;
        proof {
            assert(fraction < 10 * scale);
            assert(digit < 10) by (nonlinear_arith)
                requires
                    digit == fraction / scale,
                    fraction < 10 * scale,
                    scale > 0,
            ;
        }
        out.append(digit_text(digit as u64));
        fraction = fraction % scale;
        proof {
            assert(fraction_digits(old_fraction as nat, old_scale as nat) == seq![
                digit_char(digit as nat),
            ] + fraction_digits(fraction as nat, scale as nat));
            assert(out@ + fraction_digits(fraction as nat, scale as nat) =~= before
                + fraction_digits(old_fraction as nat, old_scale as nat));
        }
    }
    proof {
        assert(fraction_digits(fraction as nat, scale as nat) =~= Seq::<char>::empty());
        assert(out@ + Seq::<char>::empty() =~= out@);
    }
    out
}

/// The numeral of `millionths / 1000000` with two decimals, rounded to the
/// nearest hundredth, halves upward.
pub open spec fn hundredths_numeral(millionths: nat) -> Seq<char> {
    let hundredths = (millionths + 5_000) / 10_000;
    decimal(hundredths / 100) + seq!['.', digit_char(hundredths % 100 / 10), digit_char(
        hundredths % 10,
    )]
}

/// Renders a number given in millionths with two decimals: 850000 reads
/// `0.85`, 1000000 reads `1.00`.
pub fn hundredths_text(millionths: u32) -> (r: String)
    ensures
        r@ == hundredths_numeral(millionths as nat),
{
    let hundredths: u64 = (millionths as u64 + 5_000) / 10_000;
    let mut out = decimal_text(hundredths / 100);
    proof {
        reveal_strlit(".");
    }
    out.append(".");
    out.append(digit_text(hundredths % 100 / 10));
    out.append(digit_text(hundredths % 10));
    assert(out@ =~= hundredths_numeral(millionths as nat));
    out
}

/// Whether `c` has the Unicode property White_Space.
pub open spec fn is_whitespace(c: char) -> bool {
    let code = c as u32;
    ||| 0x9 <= code <= 0xD
    ||| code == 0x20
    ||| code == 0x85
    ||| code == 0xA0
    ||| code == 0x1680
    ||| 0x2000 <= code <= 0x200A
    ||| code == 0x2028
    ||| code == 0x2029
    ||| code == 0x202F
    ||| code == 0x205F
    ||| code == 0x3000
}

/// Tells whether `c` is a whitespace character.
pub fn char_is_whitespace(c: char) -> (r: bool)
    ensures
        r == is_whitespace(c),
{
    let code: u32 = c as u32;
    (0x9 <= code && code <= 0xD) || code == 0x20 || code == 0x85 || code == 0xA0 || code == 0x1680
        || (0x2000 <= code && code <= 0x200A) || code == 0x2028 || code == 0x2029 || code
        == 0x202F || code == 0x205F || code == 0x3000
}

/// `s` with every whitespace character taken out.
pub open spec fn without_whitespace(s: Seq<char>) -> Seq<char> {
    s.filter(|c: char| !is_whitespace(c))
}

/// Removes every whitespace character from `s`, keeping the others in order.
pub fn strip_whitespace(s: &str) -> (r: String)
    ensures
        r@ == without_whitespace(s@),
{
    let n = s.unicode_len();
    let mut out = String::new();
    let mut i: usize = 0;
    proof {
        reveal(Seq::filter);
    }
    while i < n
        invariant
            n == s@.len(),
            i <= n,
            out@ == without_whitespace(s@.take(i as int)),
        decreases n - i,
    {
        proof {
            reveal(Seq::filter);
            assert(s@.take(i + 1).drop_last() == s@.take(i as int));
            assert(s@.subrange(i as int, i + 1) == seq![s@[i as int]]);
        }
        if !char_is_whitespace(s.get_char(i)) {
            out.append(s.substring_char(i, i + 1));
        }
        i = i + 1;
    }
    proof {
        assert(s@.take(i as int) == s@);
    }
    out
}

/// Whether two texts hold the same characters.
pub fn text_eq(a: &str, b: &str) -> (r: bool)
    ensures
        r == (a@ == b@),
{
    a.to_owned() == b.to_owned()
}

/// Whether `items` holds the text `wanted`.
pub fn contains_text(items: &Vec<String>, wanted: &String) -> (r: bool)
    ensures
        r == items.deep_view().contains(wanted@),
{
    let mut i: usize = 0;
    while i < items.len()
        invariant
            i <= items.len(),
            forall|j: int| 0 <= j < i ==> items.deep_view()[j] != wanted@,
        decreases items.len() - i,
    {
        if items[i] == *wanted {
            assert(items.deep_view()[i as int] == wanted@);
            return true;
        }
        i = i + 1;
    }
    false
}

} // verus!
