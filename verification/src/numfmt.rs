//! Formatting of unsigned integers as decimal and octal strings, as the
//! installer command line needs them: decimal for the user and group ids,
//! octal (no leading zeroes, no prefix) for the permission bits.

use vstd::prelude::*;

verus! {

/// The character for a single digit value below ten.
pub open spec fn digit_char(d: nat) -> char {
    if d == 0 {
        '0'
    } else if d == 1 {
        '1'
    } else if d == 2 {
        '2'
    } else if d == 3 {
        '3'
    } else if d == 4 {
        '4'
    } else if d == 5 {
        '5'
    } else if d == 6 {
        '6'
    } else if d == 7 {
        '7'
    } else if d == 8 {
        '8'
    } else {
        '9'
    }
}

/// The decimal representation of `n`, most significant digit first,
/// with no leading zeroes (a lone `'0'` for zero).
pub open spec fn decimal_of(n: nat) -> Seq<char>
    decreases n,
{
    if n < 10 {
        seq![digit_char(n)]
    } else {
        decimal_of(n / 10).push(digit_char(n % 10))
    }
}

/// The octal representation of `n`, most significant digit first,
/// with no leading zeroes (a lone `'0'` for zero).
pub open spec fn octal_of(n: nat) -> Seq<char>
    decreases n,
{
    if n < 8 {
        seq![digit_char(n)]
    } else {
        octal_of(n / 8).push(digit_char(n % 8))
    }
}

/// A one-character string slice for a digit value below ten.
fn digit_str(d: u32) -> (r: &'static str)
    requires
        d < 10,
    ensures
        r@ =~= seq![digit_char(d as nat)],
{
    proof {
        reveal_strlit("0");
        reveal_strlit("1");
        reveal_strlit("2");
        reveal_strlit("3");
        reveal_strlit("4");
        reveal_strlit("5");
        reveal_strlit("6");
        reveal_strlit("7");
        reveal_strlit("8");
        reveal_strlit("9");
    }
    match d {
        0 => "0",
        1 => "1",
        2 => "2",
        3 => "3",
        4 => "4",
        5 => "5",
        6 => "6",
        7 => "7",
        8 => "8",
        _ => "9",
    }
}

/// Formats `n` in decimal, exactly as `decimal_of` describes.
pub fn format_decimal(n: u32) -> (r: String)
    ensures
        r@ == decimal_of(n as nat),
    decreases n,
{
    if n < 10 {
        digit_str(n).to_owned()
    } else {
        let mut s = format_decimal(n / 10);
        s.append(digit_str(n % 10));
        proof {
            assert(decimal_of(n as nat) =~= decimal_of(n as nat / 10) + seq![
                digit_char(n as nat % 10),
            ]);
        }
        s
    }
}

/// Formats `n` in octal, exactly as `octal_of` describes.
pub fn format_octal(n: u32) -> (r: String)
    ensures
        r@ == octal_of(n as nat),
    decreases n,
{
    if n < 8 {
        digit_str(n).to_owned()
    } else {
        let mut s = format_octal(n / 8);
        s.append(digit_str(n % 8));
        proof {
            assert(octal_of(n as nat) =~= octal_of(n as nat / 8) + seq![
                digit_char(n as nat % 8),
            ]);
        }
        s
    }
}

} // verus!
