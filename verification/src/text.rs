//! Small verified text builders: decimal and hexadecimal numerals.

use vstd::prelude::*;

verus! {

/// The ASCII character for a decimal digit.
pub open spec fn digit_char(d: nat) -> char {
    if d == 0 { '0' }
    else if d == 1 { '1' }
    else if d == 2 { '2' }
    else if d == 3 { '3' }
    else if d == 4 { '4' }
    else if d == 5 { '5' }
    else if d == 6 { '6' }
    else if d == 7 { '7' }
    else if d == 8 { '8' }
    else { '9' }
}

/// The lower-case ASCII character for a hexadecimal digit.
pub open spec fn hex_char(d: nat) -> char {
    if d < 10 { digit_char(d) }
    else if d == 10 { 'a' }
    else if d == 11 { 'b' }
    else if d == 12 { 'c' }
    else if d == 13 { 'd' }
    else if d == 14 { 'e' }
    else { 'f' }
}

/// The shortest decimal numeral of `n`, most significant digit first.
pub open spec fn decimal_digits(n: nat) -> Seq<char>
    decreases n,
{
    if n < 10 {
        seq![digit_char(n)]
    } else {
        decimal_digits(n / 10).push(digit_char(n % 10))
    }
}

/// Exactly four lower-case hexadecimal digits of `v`, zero-padded.
pub open spec fn hex4_digits(v: u16) -> Seq<char> {
    seq![
        hex_char((v as nat / 4096) % 16),
        hex_char((v as nat / 256) % 16),
        hex_char((v as nat / 16) % 16),
        hex_char(v as nat % 16),
    ]
}

/// A one-character string holding the hexadecimal digit `d`.
fn hex_digit_str(d: u16) -> (r: &'static str)
    requires
        d < 16,
    ensures
        r@ == seq![hex_char(d as nat)],
{
    proof {
        reveal_strlit("0");
        reveal_strlit("1");
        reveal_strlit("2");
        reveal_strlit("3");
        reveal_strlit("4");
        reveal_strlit("5");
        reveal_strlit("6");
        reveal_strlit("7");
        reveal_strlit("8");
        reveal_strlit("9");
        reveal_strlit("a");
        reveal_strlit("b");
        reveal_strlit("c");
        reveal_strlit("d");
        reveal_strlit("e");
        reveal_strlit("f");
    }
    match d {
        0 => "0",
        1 => "1",
        2 => "2",
        3 => "3",
        4 => "4",
        5 => "5",
        6 => "6",
        7 => "7",
        8 => "8",
        9 => "9",
        10 => "a",
        11 => "b",
        12 => "c",
        13 => "d",
        14 => "e",
        _ => "f",
    }
}

/// Appends the shortest decimal numeral of `n` to `out`.
pub fn push_decimal(out: &mut String, n: u64)
    ensures
        final(out)@ == old(out)@ + decimal_digits(n as nat),
    decreases n,
{
    if n < 10 {
        out.append(hex_digit_str(n as u16));
    } else {
        push_decimal(out, n / 10);
        out.append(hex_digit_str((n % 10) as u16));
        assert(old(out)@ + decimal_digits(n as nat) =~= old(out)@ + decimal_digits(
            (n / 10) as nat,
        ) + seq![digit_char((n % 10) as nat)]);
    }
}

/// Appends exactly four zero-padded lower-case hexadecimal digits of `v`.
pub fn push_hex4(out: &mut String, v: u16)
    ensures
        final(out)@ == old(out)@ + hex4_digits(v),
{
    out.append(hex_digit_str((v / 4096) % 16));
    out.append(hex_digit_str((v / 256) % 16));
    out.append(hex_digit_str((v / 16) % 16));
    out.append(hex_digit_str(v % 16));
    assert(final(out)@ =~= old(out)@ + hex4_digits(v));
}

} // verus!
