//! Writing numbers as text: upper-case hexadecimal with a fixed width and
//! decimal without leading zeros.
use vstd::prelude::*;
use vstd::string::StringExecFns;

verus! {

/// The upper-case hexadecimal digit for `n` in `0..16` (its first ten are
/// the decimal digits).
pub open spec fn spec_hex_digit(n: int) -> char {
    seq!['0', '1', '2', '3', '4', '5', '6', '7', '8', '9', 'A', 'B', 'C', 'D', 'E', 'F'][n]
}

/// A byte as two upper-case hexadecimal digits (`{:02X}`).
pub open spec fn spec_hex_byte(b: u8) -> Seq<char> {
    seq![spec_hex_digit(b as int / 16), spec_hex_digit(b as int % 16)]
}

/// A 16-bit value as four upper-case hexadecimal digits (`{:04X}`).
pub open spec fn spec_hex_u16(v: u16) -> Seq<char> {
    seq![
        spec_hex_digit(v as int / 4096),
        spec_hex_digit((v as int / 256) % 16),
        spec_hex_digit((v as int / 16) % 16),
        spec_hex_digit(v as int % 16),
    ]
}

/// The decimal digits of `v`, without leading zeros (`{}`).
pub open spec fn spec_decimal(v: nat) -> Seq<char>
    decreases v,
{
    if v < 10 {
        seq![spec_hex_digit(v as int)]
    } else {
        spec_decimal(v / 10).push(spec_hex_digit((v % 10) as int))
    }
}

/// The one-character text of the digit `n`.
fn digit_text(n: u8) -> (s: &'static str)
    requires
        n < 16,
    ensures
        s@ == seq![spec_hex_digit(n as int)],
{
    match n {
        0 => { proof { reveal_strlit("0"); } "0" },
        1 => { proof { reveal_strlit("1"); } "1" },
        2 => { proof { reveal_strlit("2"); } "2" },
        3 => { proof { reveal_strlit("3"); } "3" },
        4 => { proof { reveal_strlit("4"); } "4" },
        5 => { proof { reveal_strlit("5"); } "5" },
        6 => { proof { reveal_strlit("6"); } "6" },
        7 => { proof { reveal_strlit("7"); } "7" },
        8 => { proof { reveal_strlit("8"); } "8" },
        9 => { proof { reveal_strlit("9"); } "9" },
        10 => { proof { reveal_strlit("A"); } "A" },
        11 => { proof { reveal_strlit("B"); } "B" },
        12 => { proof { reveal_strlit("C"); } "C" },
        13 => { proof { reveal_strlit("D"); } "D" },
        14 => { proof { reveal_strlit("E"); } "E" },
        _ => { proof { reveal_strlit("F"); } "F" },
    }
}

/// Append `b` as two upper-case hexadecimal digits.
pub fn push_hex_byte(out: &mut String, b: u8)
    ensures
        final(out)@ == old(out)@ + spec_hex_byte(b),
{
    out.append(digit_text(b / 16));
    out.append(digit_text(b % 16));
}

/// `n` (below 100) as two decimal digits, zero-padded (`{:02}`).
pub open spec fn spec_two_digits(n: u64) -> Seq<char> {
    seq![spec_hex_digit(n as int / 10), spec_hex_digit(n as int % 10)]
}

/// Append `n` (below 100) as two decimal digits.
pub fn push_two_digits(out: &mut String, n: u64)
    requires
        n < 100,
    ensures
        final(out)@ == old(out)@ + spec_two_digits(n),
{
    out.append(digit_text((n / 10) as u8));
    out.append(digit_text((n % 10) as u8));
}

/// Append `v` as four upper-case hexadecimal digits.
pub fn push_hex_u16(out: &mut String, v: u16)
    ensures
        final(out)@ == old(out)@ + spec_hex_u16(v),
{
    out.append(digit_text((v / 4096) as u8));
    out.append(digit_text(((v / 256) % 16) as u8));
    out.append(digit_text(((v / 16) % 16) as u8));
    out.append(digit_text((v % 16) as u8));
}

/// Append the decimal digits of `v`.
pub fn push_decimal(out: &mut String, v: u64)
    ensures
        final(out)@ == old(out)@ + spec_decimal(v as nat),
    decreases v,
{
    if v >= 10 {
        push_decimal(out, v / 10);
    }
    out.append(digit_text((v % 10) as u8));
}

/// An IPv4 address in dotted decimal, `a.b.c.d`.
pub open spec fn spec_ipv4_text(ip: Seq<u8>) -> Seq<char> {
    spec_decimal(ip[0] as nat) + seq!['.'] + spec_decimal(ip[1] as nat) + seq!['.']
        + spec_decimal(ip[2] as nat) + seq!['.'] + spec_decimal(ip[3] as nat)
}

/// Append an IPv4 address in dotted decimal.
pub fn push_ipv4(out: &mut String, ip: &[u8; 4])
    ensures
        final(out)@ == old(out)@ + spec_ipv4_text(ip@),
{
    proof {
        reveal_strlit(".");
    }
    push_decimal(out, ip[0] as u64);
    out.append(".");
    push_decimal(out, ip[1] as u64);
    out.append(".");
    push_decimal(out, ip[2] as u64);
    out.append(".");
    push_decimal(out, ip[3] as u64);
}

} // verus!
