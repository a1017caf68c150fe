//! Numerals: how numbers and flags are written into a rendering.

use vstd::arithmetic::power::pow;
use vstd::prelude::*;
use vstd::string::StringExecFns;

verus! {

/// The character that stands for the digit `d`; lower case beyond nine.
pub open spec fn digit_char(d: nat) -> char {
    if d == 0 {
        '0'
    } else if d == 1 {
        '1'
    } else if d == 2 {
        '2'
    } else if d == 3 {
        '3'
    } else if d == 4 {
        '4'
    } else if d == 5 {
        '5'
    } else if d == 6 {
        '6'
    } else if d == 7 {
        '7'
    } else if d == 8 {
        '8'
    } else if d == 9 {
        '9'
    } else if d == 10 {
        'a'
    } else if d == 11 {
        'b'
    } else if d == 12 {
        'c'
    } else if d == 13 {
        'd'
    } else if d == 14 {
        'e'
    } else {
        'f'
    }
}

/// The digit that a character stands for; zero for any other character.
pub open spec fn digit_value(c: char) -> nat {
    if c == '1' {
        1
    } else if c == '2' {
        2
    } else if c == '3' {
        3
    } else if c == '4' {
        4
    } else if c == '5' {
        5
    } else if c == '6' {
        6
    } else if c == '7' {
        7
    } else if c == '8' {
        8
    } else if c == '9' {
        9
    } else if c == 'a' {
        10
    } else if c == 'b' {
        11
    } else if c == 'c' {
        12
    } else if c == 'd' {
        13
    } else if c == 'e' {
        14
    } else if c == 'f' {
        15
    } else {
        0
    }
}

/// The numeral of `n` in the given radix, most significant digit first,
/// padded on the left with zeros to at least `width` digits. A number that
/// needs more digits than `width` gets them all. Numerals exist for a radix
/// of two or more.
pub open spec fn digits(n: nat, radix: nat, width: nat) -> Seq<char>
    decreases n, width,
    via digits_terminates
{
    if radix >= 2 && (n >= radix || width > 1) {
        digits(n / radix, radix, if width > 0 {
            (width - 1) as nat
        } else {
            0
        }).push(digit_char(n % radix))
    } else {
        seq![digit_char(n)]
    }
}

/// Each step of `digits` either shortens the number or, at zero, the width.
#[via_fn]
proof fn digits_terminates(n: nat, radix: nat, width: nat) {
    if radix >= 2 {
        lemma_quotient_shrinks(n, radix);
    }
}

/// Dividing by a radix brings a number closer to zero.
pub proof fn lemma_quotient_shrinks(n: nat, radix: nat)
    requires
        radix >= 2,
    ensures
        n / radix <= n,
        n > 0 ==> n / radix < n,
        n < radix ==> n / radix == 0,
        n == radix * (n / radix) + n % radix,
        n % radix < radix,
{
    assert(n / radix <= n && (n > 0 ==> n / radix < n) && (n < radix ==> n / radix == 0) && n
        == radix * (n / radix) + n % radix && n % radix < radix) by (nonlinear_arith)
        requires
            radix >= 2,
    ;
}

/// The number that a numeral denotes in the given radix.
pub open spec fn numeral_value(numeral: Seq<char>, radix: nat) -> nat
    decreases numeral.len(),
{
    if numeral.len() == 0 {
        0
    } else {
        radix * numeral_value(numeral.drop_last(), radix) + digit_value(numeral.last())
    }
}

/// The decimal numeral of `n`, without padding.
pub open spec fn decimal(n: nat) -> Seq<char> {
    digits(n, 10, 1)
}

/// The hexadecimal numeral of `n`, padded with zeros to `width` digits.
pub open spec fn hex(n: nat, width: nat) -> Seq<char> {
    digits(n, 16, width)
}

/// How a flag is written.
pub open spec fn flag(b: bool) -> Seq<char> {
    if b {
        "true"@
    } else {
        "false"@
    }
}

/// A numeral denotes the number it was written for.
pub proof fn lemma_numeral_round_trip(n: nat, radix: nat, width: nat)
    requires
        2 <= radix <= 16,
    ensures
        numeral_value(digits(n, radix, width), radix) == n,
    decreases n, width,
{
    if n >= radix || width > 1 {
        let rest_width: nat = if width > 0 {
            (width - 1) as nat
        } else {
            0
        };
        let rest = digits(n / radix, radix, rest_width);
        lemma_quotient_shrinks(n, radix);
        lemma_numeral_round_trip(n / radix, radix, rest_width);
        let numeral = digits(n, radix, width);
        assert(numeral.drop_last() =~= rest);
        assert(numeral.last() == digit_char(n % radix));
        assert(digit_value(digit_char(n % radix)) == n % radix);
        assert(numeral_value(numeral, radix) == radix * numeral_value(rest, radix) + n % radix);
    } else {
        let numeral = digits(n, radix, width);
        assert(numeral.drop_last().len() == 0);
        assert(numeral_value(numeral.drop_last(), radix) == 0);
        assert(digit_value(digit_char(n)) == n);
        assert(radix * 0 == 0);
    }
}

/// A number below `radix` to the power `width` is written in exactly `width`
/// digits.
pub proof fn lemma_digits_exact_len(n: nat, radix: nat, width: nat)
    requires
        radix >= 2,
        width >= 1,
        n < pow(radix as int, width),
    ensures
        digits(n, radix, width).len() == width,
    decreases width,
{
    reveal_with_fuel(pow, 2);
    if width > 1 {
        let rest: int = pow(radix as int, (width - 1) as nat);
        assert(pow(radix as int, width) == radix * rest);
        assert(n / radix < rest) by (nonlinear_arith)
            requires
                radix >= 2,
                n < radix * rest,
        ;
        lemma_digits_exact_len(n / radix, radix, (width - 1) as nat);
    } else {
        assert(pow(radix as int, 1) == radix * pow(radix as int, 0));
        assert(n < radix);
    }
}

/// The one-character text of a digit.
fn digit_str(d: u64) -> (s: &'static str)
    requires
        d < 16,
    ensures
        s@ == seq![digit_char(d as nat)],
{
    proof {
        reveal_strlit("0");
        reveal_strlit("1");
        reveal_strlit("2");
        reveal_strlit("3");
        reveal_strlit("4");
        reveal_strlit("5");
        reveal_strlit("6");
        reveal_strlit("7");
        reveal_strlit("8");
        reveal_strlit("9");
        reveal_strlit("a");
        reveal_strlit("b");
        reveal_strlit("c");
        reveal_strlit("d");
        reveal_strlit("e");
        reveal_strlit("f");
    }
    let s = if d == 0 {
        "0"
    } else if d == 1 {
        "1"
    } else if d == 2 {
        "2"
    } else if d == 3 {
        "3"
    } else if d == 4 {
        "4"
    } else if d == 5 {
        "5"
    } else if d == 6 {
        "6"
    } else if d == 7 {
        "7"
    } else if d == 8 {
        "8"
    } else if d == 9 {
        "9"
    } else if d == 10 {
        "a"
    } else if d == 11 {
        "b"
    } else if d == 12 {
        "c"
    } else if d == 13 {
        "d"
    } else if d == 14 {
        "e"
    } else {
        "f"
    };
    assert(s@ =~= seq![digit_char(d as nat)]);
    s
}

/// Appends to `out` the numeral of `n` in the given radix, padded with zeros
/// to at least `width` digits.
pub fn push_digits(out: &mut String, n: u64, radix: u64, width: usize)
    requires
        2 <= radix <= 16,
    ensures
        final(out)@ == old(out)@ + digits(n as nat, radix as nat, width as nat),
    decreases n, width,
{
    if n >= radix || width > 1 {
        let rest_width: usize = if width > 0 {
            width - 1
        } else {
            0
        };
        proof {
            lemma_quotient_shrinks(n as nat, radix as nat);
        }
        push_digits(out, n / radix, radix, rest_width);
        out.append(digit_str(n % radix));
        assert(out@ =~= old(out)@ + digits(n as nat, radix as nat, width as nat));
    } else {
        out.append(digit_str(n));
    }
}

/// Appends to `out` the decimal numeral of `n`.
pub fn push_decimal(out: &mut String, n: u64)
    ensures
        final(out)@ == old(out)@ + decimal(n as nat),
{
    push_digits(out, n, 10, 1);
}

/// Appends to `out` the hexadecimal numeral of `n`, padded with zeros to
/// `width` digits.
pub fn push_hex(out: &mut String, n: u64, width: usize)
    ensures
        final(out)@ == old(out)@ + hex(n as nat, width as nat),
{
    push_digits(out, n, 16, width);
}

/// Appends to `out` the word for a flag.
pub fn push_flag(out: &mut String, b: bool)
    ensures
        final(out)@ == old(out)@ + flag(b),
{
    if b {
        out.append("true");
    } else {
        out.append("false");
    }
}

} // verus!
