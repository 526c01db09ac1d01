//! Decimal numerals, in ASCII digits and in superscript digits.

use crate::text::string_of;
use vstd::prelude::*;

verus! {

/// The ASCII digit that stands for `d`, for `d` below ten.
pub open spec fn digit_char(d: nat) -> char {
    ('0' as nat + d) as char
}

/// The superscript digit that stands for `d`, for `d` below ten.
pub open spec fn superscript_char(d: nat) -> char {
    if d == 0 {
        '⁰'
    } else if d == 1 {
        '¹'
    } else if d == 2 {
        '²'
    } else if d == 3 {
        '³'
    } else if d == 4 {
        '⁴'
    } else if d == 5 {
        '⁵'
    } else if d == 6 {
        '⁶'
    } else if d == 7 {
        '⁷'
    } else if d == 8 {
        '⁸'
    } else {
        '⁹'
    }
}

/// `n` written in decimal, most significant digit first, without leading
/// zeros.
pub open spec fn decimal(n: nat) -> Seq<char>
    decreases n,
{
    if n < 10 {
        seq![digit_char(n)]
    } else {
        decimal(n / 10).push(digit_char(n % 10))
    }
}

/// `n` written in decimal, with a leading minus sign when it is negative.
pub open spec fn signed_decimal(n: int) -> Seq<char> {
    if n < 0 {
        seq!['-'] + decimal((-n) as nat)
    } else {
        decimal(n as nat)
    }
}

/// `n` written in decimal with superscript digits, most significant digit
/// first, without leading zeros.
pub open spec fn superscript(n: nat) -> Seq<char>
    decreases n,
{
    if n < 10 {
        seq![superscript_char(n)]
    } else {
        superscript(n / 10).push(superscript_char(n % 10))
    }
}

fn digit_glyph(d: u8) -> (c: char)
    requires
        d < 10,
    ensures
        c == digit_char(d as nat),
{
    (48u8 + d) as char
}

fn superscript_glyph(d: u8) -> (c: char)
    requires
        d < 10,
    ensures
        c == superscript_char(d as nat),
{
    match d {
        0 => '⁰',
        1 => '¹',
        2 => '²',
        3 => '³',
        4 => '⁴',
        5 => '⁵',
        6 => '⁶',
        7 => '⁷',
        8 => '⁸',
        _ => '⁹',
    }
}

/// Appends the decimal numeral of `n` to `out`.
pub fn push_decimal(n: u64, out: &mut Vec<char>)
    ensures
        final(out)@ == old(out)@ + decimal(n as nat),
    decreases n,
{
    if n >= 10 {
        push_decimal(n / 10, out);
    }
    out.push(digit_glyph((n % 10) as u8));
}

/// Appends the decimal numeral of `n`, with its sign, to `out`.
pub fn push_signed_decimal(n: i64, out: &mut Vec<char>)
    ensures
        final(out)@ == old(out)@ + signed_decimal(n as int),
{
    if n < 0 {
        out.push('-');
        let magnitude: u64 = ((-(n + 1)) as u64) + 1;
        push_decimal(magnitude, out);
    } else {
        push_decimal(n as u64, out);
    }
}

/// Appends the superscript numeral of `n` to `out`.
pub fn push_superscript(n: u64, out: &mut Vec<char>)
    ensures
        final(out)@ == old(out)@ + superscript(n as nat),
    decreases n,
{
    if n >= 10 {
        push_superscript(n / 10, out);
    }
    out.push(superscript_glyph((n % 10) as u8));
}

/// `number` in superscript digits: the label under which a citation with
/// that index is shown.
pub fn sup(number: usize) -> (label: String)
    ensures
        label@ == superscript(number as nat),
{
    let mut digits: Vec<char> = Vec::new();
    push_superscript(number as u64, &mut digits);
    string_of(&digits)
}

/// Whether `c` is one of the ten ASCII digits.
pub open spec fn is_digit(c: char) -> bool {
    '0' as nat <= c as nat <= '9' as nat
}

/// A decimal numeral is not empty and holds digits only; from ten on it
/// has at least two of them.
pub proof fn lemma_decimal_shape(n: nat)
    ensures
        decimal(n).len() >= 1,
        n >= 10 ==> decimal(n).len() >= 2,
        forall|i: int| 0 <= i < decimal(n).len() ==> is_digit(#[trigger] decimal(n)[i]),
    decreases n,
{
    if n >= 10 {
        lemma_decimal_shape(n / 10);
    }
}

/// Two numbers with the same decimal numeral are the same number.
pub proof fn lemma_decimal_injective(a: nat, b: nat)
    requires
        decimal(a) == decimal(b),
    ensures
        a == b,
    decreases a,
{
    lemma_decimal_shape(a);
    lemma_decimal_shape(b);
    if a < 10 {
        assert(decimal(a)[0] == digit_char(a));
        assert(decimal(b)[0] == digit_char(b));
    } else {
        assert(decimal(a).drop_last() == decimal(a / 10));
        assert(decimal(b).drop_last() == decimal(b / 10));
        assert(decimal(a).last() == digit_char(a % 10));
        assert(decimal(b).last() == digit_char(b % 10));
        lemma_decimal_injective(a / 10, b / 10);
    }
}

/// A signed numeral is not empty, and behind its first character it holds
/// digits only. The first character is a minus sign exactly if the number
/// is negative.
pub proof fn lemma_signed_decimal_shape(n: int)
    ensures
        signed_decimal(n).len() >= 1,
        (signed_decimal(n)[0] == '-') == (n < 0),
        forall|i: int| 1 <= i < signed_decimal(n).len() ==> is_digit(#[trigger] signed_decimal(n)[i]),
{
    if n < 0 {
        lemma_decimal_shape((-n) as nat);
    } else {
        lemma_decimal_shape(n as nat);
    }
}

/// Two numbers with the same signed numeral are the same number.
pub proof fn lemma_signed_decimal_injective(a: int, b: int)
    requires
        signed_decimal(a) == signed_decimal(b),
    ensures
        a == b,
{
    lemma_signed_decimal_shape(a);
    lemma_signed_decimal_shape(b);
    if a < 0 {
        assert(signed_decimal(a).skip(1) == decimal((-a) as nat));
        assert(signed_decimal(b).skip(1) == decimal((-b) as nat));
        lemma_decimal_injective((-a) as nat, (-b) as nat);
    } else {
        lemma_decimal_injective(a as nat, b as nat);
    }
}

} // verus!
