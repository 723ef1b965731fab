//! Numbers as text.

use vstd::prelude::*;
use vstd::string::*;

verus! {

/// The character of a digit below sixteen, lower case.
pub open spec fn digit_char(d: int) -> char {
    if d == 0 {
        '0'
    } else if d == 1 {
        '1'
    } else if d == 2 {
        '2'
    } else if d == 3 {
        '3'
    } else if d == 4 {
        '4'
    } else if d == 5 {
        '5'
    } else if d == 6 {
        '6'
    } else if d == 7 {
        '7'
    } else if d == 8 {
        '8'
    } else if d == 9 {
        '9'
    } else if d == 10 {
        'a'
    } else if d == 11 {
        'b'
    } else if d == 12 {
        'c'
    } else if d == 13 {
        'd'
    } else if d == 14 {
        'e'
    } else {
        'f'
    }
}

/// `n` in decimal.
pub open spec fn dec(n: nat) -> Seq<char>
    decreases n,
{
    if n < 10 {
        seq![digit_char(n as int)]
    } else {
        dec(n / 10).push(digit_char((n % 10) as int))
    }
}

/// `n` in hexadecimal, lower case.
pub open spec fn hex_digits(n: nat) -> Seq<char>
    decreases n,
{
    if n < 16 {
        seq![digit_char(n as int)]
    } else {
        hex_digits(n / 16).push(digit_char((n % 16) as int))
    }
}

/// `v` in decimal, with a minus sign where it is negative.
pub open spec fn signed_dec(v: int) -> Seq<char> {
    if v < 0 {
        seq!['-'] + dec((-v) as nat)
    } else {
        dec(v as nat)
    }
}

/// `v` in decimal, always with its sign.
pub open spec fn plus_dec(v: int) -> Seq<char> {
    if v < 0 {
        seq!['-'] + dec((-v) as nat)
    } else {
        seq!['+'] + dec(v as nat)
    }
}

/// `n` in hexadecimal, lower case, behind `0x`.
pub open spec fn hex(n: nat) -> Seq<char> {
    "0x"@ + hex_digits(n)
}

fn digit_of(d: u64) -> (r: char)
    requires
        d < 16,
    ensures
        r == digit_char(d as int),
{
    if d == 0 {
        '0'
    } else if d == 1 {
        '1'
    } else if d == 2 {
        '2'
    } else if d == 3 {
        '3'
    } else if d == 4 {
        '4'
    } else if d == 5 {
        '5'
    } else if d == 6 {
        '6'
    } else if d == 7 {
        '7'
    } else if d == 8 {
        '8'
    } else if d == 9 {
        '9'
    } else if d == 10 {
        'a'
    } else if d == 11 {
        'b'
    } else if d == 12 {
        'c'
    } else if d == 13 {
        'd'
    } else if d == 14 {
        'e'
    } else {
        'f'
    }
}

fn push_decimal(out: &mut String, n: u64)
    ensures
        final(out)@ == old(out)@ + dec(n as nat),
    decreases n,
{
    let ghost before = out@;
    if n < 10 {
        out.push(digit_of(n));
    } else {
        push_decimal(out, n / 10);
        out.push(digit_of(n % 10));
    }
    assert(out@ =~= before + dec(n as nat));
}

fn push_hexadecimal(out: &mut String, n: u64)
    ensures
        final(out)@ == old(out)@ + hex_digits(n as nat),
    decreases n,
{
    let ghost before = out@;
    if n < 16 {
        out.push(digit_of(n));
    } else {
        push_hexadecimal(out, n / 16);
        out.push(digit_of(n % 16));
    }
    assert(out@ =~= before + hex_digits(n as nat));
}

/// Appends `n` in decimal.
pub fn push_dec(out: &mut String, n: u64)
    ensures
        final(out)@ == old(out)@ + dec(n as nat),
{
    push_decimal(out, n);
}

/// Appends `v` in decimal, with a minus sign where it is negative.
pub fn push_signed(out: &mut String, v: i64)
    ensures
        final(out)@ == old(out)@ + signed_dec(v as int),
{
    let ghost before = out@;
    if v < 0 {
        out.push('-');
        let magnitude: u64 = if v == -0x8000_0000_0000_0000 {
            0x8000_0000_0000_0000
        } else {
            (-v) as u64
        };
        push_decimal(out, magnitude);
        assert(out@ =~= before + (seq!['-'] + dec((-v) as nat)));
    } else {
        push_decimal(out, v as u64);
    }
}

/// Appends `v` in decimal, always with its sign.
pub fn push_plus(out: &mut String, v: i64)
    ensures
        final(out)@ == old(out)@ + plus_dec(v as int),
{
    let ghost before = out@;
    if v < 0 {
        out.push('-');
        let magnitude: u64 = if v == -0x8000_0000_0000_0000 {
            0x8000_0000_0000_0000
        } else {
            (-v) as u64
        };
        push_decimal(out, magnitude);
        assert(out@ =~= before + (seq!['-'] + dec((-v) as nat)));
    } else {
        out.push('+');
        push_decimal(out, v as u64);
        assert(out@ =~= before + (seq!['+'] + dec(v as nat)));
    }
}

/// Appends the unsigned `n` in decimal behind a plus sign.
pub fn push_plus_unsigned(out: &mut String, n: u64)
    ensures
        final(out)@ == old(out)@ + plus_dec(n as int),
{
    let ghost before = out@;
    out.push('+');
    push_decimal(out, n);
    assert(out@ =~= before + (seq!['+'] + dec(n as nat)));
}

/// Appends `n` in hexadecimal behind `0x`.
pub fn push_hex(out: &mut String, n: u64)
    ensures
        final(out)@ == old(out)@ + hex(n as nat),
{
    let ghost before = out@;
    out.append("0x");
    push_hexadecimal(out, n);
    assert(out@ =~= before + ("0x"@ + hex_digits(n as nat)));
}

/// What the `Debug` formatting of the standard library makes of a string:
/// the string in double quotes, with escapes for the characters that would
/// not show as themselves.
pub uninterp spec fn debug_text(text: Seq<char>) -> Seq<char>;

/// Formats a string with `{:?}`, the `Debug` implementation of `str`.
#[verifier::external_body]
pub(crate) fn debug_string(text: &str) -> (r: String)
    ensures
        r@ == debug_text(text@),
{
    format!("{:?}", text)
}

} // verus!
