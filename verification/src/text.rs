//! Decimal and hexadecimal rendering of integers into strings.

use vstd::prelude::*;

verus! {

/// The character of a hexadecimal digit value (lower case letters).
pub open spec fn hex_digit_char(d: int) -> char {
    if d == 0 { '0' }
    else if d == 1 { '1' }
    else if d == 2 { '2' }
    else if d == 3 { '3' }
    else if d == 4 { '4' }
    else if d == 5 { '5' }
    else if d == 6 { '6' }
    else if d == 7 { '7' }
    else if d == 8 { '8' }
    else if d == 9 { '9' }
    else if d == 10 { 'a' }
    else if d == 11 { 'b' }
    else if d == 12 { 'c' }
    else if d == 13 { 'd' }
    else if d == 14 { 'e' }
    else { 'f' }
}

/// Decimal rendering of `n`, without leading zeros ("0" for zero).
pub open spec fn decimal_text(n: nat) -> Seq<char>
    decreases n,
{
    if n < 10 {
        seq![hex_digit_char(n as int)]
    } else {
        decimal_text(n / 10).push(hex_digit_char((n % 10) as int))
    }
}

/// The `width` least significant hexadecimal digits of `n`, most
/// significant first, padded with zeros.
pub open spec fn hex_text(n: nat, width: nat) -> Seq<char>
    decreases width,
{
    if width == 0 {
        seq![]
    } else {
        hex_text(n / 16, (width - 1) as nat).push(hex_digit_char((n % 16) as int))
    }
}

/// Appends the single digit `d` (below 16) to `out`.
fn push_digit(out: &mut String, d: u64)
    requires
        d < 16,
    ensures
        final(out)@ == old(out)@.push(hex_digit_char(d as int)),
{
    let digits = "0123456789abcdef";
    proof {
        reveal_strlit("0123456789abcdef");
    }
    let one = digits.substring_ascii(d as usize, d as usize + 1);
    assert(one@ =~= seq![hex_digit_char(d as int)]);
    out.append(one);
}

/// Appends the decimal rendering of `n` to `out`.
pub fn push_decimal(out: &mut String, n: u64)
    ensures
        final(out)@ == old(out)@ + decimal_text(n as nat),
    decreases n,
{
    if n >= 10 {
        push_decimal(out, n / 10);
        push_digit(out, n % 10);
        assert(decimal_text(n as nat) =~= decimal_text((n / 10) as nat).push(
            hex_digit_char((n % 10) as int),
        ));
    } else {
        push_digit(out, n);
    }
}

/// Appends the `width` least significant hexadecimal digits of `n`,
/// zero-padded, to `out`.
pub fn push_hex(out: &mut String, n: u32, width: u32)
    ensures
        final(out)@ == old(out)@ + hex_text(n as nat, width as nat),
    decreases width,
{
    if width > 0 {
        push_hex(out, n / 16, width - 1);
        push_digit(out, (n % 16) as u64);
    }
}

/// Renders `n` as eight lower-case hexadecimal digits, zero-padded
/// (the rendering that identifies an inverter by its serial number).
pub fn hex8(n: u32) -> (text: String)
    ensures
        text@ == hex_text(n as nat, 8),
{
    let mut out = String::new();
    push_hex(&mut out, n, 8);
    assert(out@ =~= hex_text(n as nat, 8));
    out
}

} // verus!

verus! {

/// The value of a lower-case hexadecimal digit character, from its code
/// point: `'0'..='9'` are 0 to 9 and `'a'..='f'` are 10 to 15; any other
/// character has no value (-1).
pub open spec fn hex_char_value(c: char) -> int {
    if '0' <= c && c <= '9' {
        c as int - '0' as int
    } else if 'a' <= c && c <= 'f' {
        c as int - 'a' as int + 10
    } else {
        -1
    }
}

/// The number that a string of hexadecimal digits denotes, most
/// significant digit first.
pub open spec fn hex_value(s: Seq<char>) -> int
    decreases s.len(),
{
    if s.len() == 0 {
        0
    } else {
        hex_value(s.drop_last()) * 16 + hex_char_value(s.last())
    }
}

/// The number that a string of decimal digits denotes, most significant
/// digit first.
pub open spec fn decimal_value(s: Seq<char>) -> int
    decreases s.len(),
{
    if s.len() == 0 {
        0
    } else {
        decimal_value(s.drop_last()) * 10 + hex_char_value(s.last())
    }
}

/// `16` to the power `w`.
pub open spec fn pow16(w: nat) -> nat
    decreases w,
{
    if w == 0 {
        1
    } else {
        16 * pow16((w - 1) as nat)
    }
}

/// Every digit character denotes its own value: the digit of value `d` is
/// the `d`-th character of `0123456789abcdef`.
pub proof fn lemma_digit_char_value(d: int)
    requires
        0 <= d < 16,
    ensures
        hex_char_value(hex_digit_char(d)) == d,
        d < 10 ==> '0' <= hex_digit_char(d) <= '9',
        d >= 10 ==> 'a' <= hex_digit_char(d) <= 'f',
{
}

/// The zero-padded hexadecimal rendering has `width` lower-case digits and
/// denotes `n` modulo `16^width`.
pub proof fn lemma_hex_text_value(n: nat, width: nat)
    ensures
        hex_text(n, width).len() == width,
        hex_value(hex_text(n, width)) == n % pow16(width),
        forall|i: int| 0 <= i < width ==> hex_char_value(#[trigger] hex_text(n, width)[i]) >= 0,
    decreases width,
{
    if width > 0 {
        let w1 = (width - 1) as nat;
        lemma_hex_text_value(n / 16, w1);
        lemma_digit_char_value((n % 16) as int);
        let t = hex_text(n, width);
        assert(t.drop_last() =~= hex_text(n / 16, w1));
        assert(t.last() == hex_digit_char((n % 16) as int));
        let p = pow16(w1);
        assert(p > 0) by {
            lemma_pow16_positive(w1);
        }
        vstd::arithmetic::div_mod::lemma_mod_breakdown(n as int, 16, p as int);
        assert(n % pow16(width) == 16 * ((n / 16) % p) + n % 16);
        assert forall|i: int| 0 <= i < width implies hex_char_value(#[trigger] t[i]) >= 0 by {
            if i < w1 {
                assert(t[i] == hex_text(n / 16, w1)[i]);
            }
        }
    }
}

proof fn lemma_pow16_positive(w: nat)
    ensures
        pow16(w) > 0,
    decreases w,
{
    if w > 0 {
        lemma_pow16_positive((w - 1) as nat);
    }
}

/// The decimal rendering denotes `n` and holds decimal digits only.
pub proof fn lemma_decimal_text_value(n: nat)
    ensures
        decimal_value(decimal_text(n)) == n,
        forall|i: int| 0 <= i < decimal_text(n).len() ==> '0' <= #[trigger] decimal_text(n)[i] <= '9',
    decreases n,
{
    let t = decimal_text(n);
    if n < 10 {
        lemma_digit_char_value(n as int);
        assert(t.drop_last() =~= Seq::<char>::empty());
        assert(decimal_value(t) == decimal_value(t.drop_last()) * 10 + hex_char_value(t.last()));
    } else {
        lemma_decimal_text_value(n / 10);
        lemma_digit_char_value((n % 10) as int);
        assert(t.drop_last() =~= decimal_text(n / 10));
        assert(decimal_value(t) == decimal_value(t.drop_last()) * 10 + hex_char_value(t.last()));
        assert((n / 10) * 10 + n % 10 == n);
        assert forall|i: int| 0 <= i < t.len() implies '0' <= #[trigger] t[i] <= '9' by {
            if i < t.len() - 1 {
                assert(t[i] == decimal_text(n / 10)[i]);
            }
        }
    }
}

/// The serial text of a 32-bit number is the eight-digit hexadecimal
/// rendering that denotes it, so distinct numbers give distinct texts.
pub proof fn lemma_hex8_denotes_and_distinguishes(a: u32, b: u32)
    ensures
        hex_value(hex_text(a as nat, 8)) == a,
        a != b ==> hex_text(a as nat, 8) != hex_text(b as nat, 8),
{
    lemma_hex_text_value(a as nat, 8);
    lemma_hex_text_value(b as nat, 8);
    assert(pow16(8) == 0x1_0000_0000) by {
        reveal_with_fuel(pow16, 9);
    }
}

} // verus!

verus! {

/// `p` is a prefix of `s`.
pub open spec fn has_prefix(s: Seq<char>, p: Seq<char>) -> bool {
    p.len() <= s.len() && s.subrange(0, p.len() as int) == p
}

/// `p` is a suffix of `s`.
pub open spec fn has_suffix(s: Seq<char>, p: Seq<char>) -> bool {
    p.len() <= s.len() && s.subrange(s.len() - p.len(), s.len() as int) == p
}

} // verus!
