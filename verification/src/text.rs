//! Building the short display strings the wire types offer: lowercase hex
//! pairs for BCD and MAC bytes, and plain decimal for version numbers.

use vstd::prelude::*;
use crate::bcd::digit_char;

verus! {

/// The lowercase hexadecimal character for a nibble value.
pub open spec fn hex_digit(d: int) -> char
    recommends
        0 <= d < 16,
{
    if d <= 9 {
        digit_char(d)
    } else if d == 10 {
        'a'
    } else if d == 11 {
        'b'
    } else if d == 12 {
        'c'
    } else if d == 13 {
        'd'
    } else if d == 14 {
        'e'
    } else {
        'f'
    }
}

/// A byte as two lowercase hexadecimal characters, high nibble first.
pub open spec fn hex_pair(b: u8) -> Seq<char> {
    seq![hex_digit((b / 16) as int), hex_digit((b % 16) as int)]
}

/// A byte as plain decimal text, without leading zeros.
pub open spec fn dec_byte(n: u8) -> Seq<char> {
    if n < 10 {
        seq![digit_char(n as int)]
    } else if n < 100 {
        seq![digit_char((n / 10) as int), digit_char((n % 10) as int)]
    } else {
        seq![
            digit_char((n / 100) as int),
            digit_char(((n / 10) % 10) as int),
            digit_char((n % 10) as int),
        ]
    }
}

fn hex_digit_str(d: u8) -> (r: &'static str)
    requires
        d < 16,
    ensures
        r@ == seq![hex_digit(d as int)],
{
    proof {
        reveal_strlit("0");
        reveal_strlit("1");
        reveal_strlit("2");
        reveal_strlit("3");
        reveal_strlit("4");
        reveal_strlit("5");
        reveal_strlit("6");
        reveal_strlit("7");
        reveal_strlit("8");
        reveal_strlit("9");
        reveal_strlit("a");
        reveal_strlit("b");
        reveal_strlit("c");
        reveal_strlit("d");
        reveal_strlit("e");
        reveal_strlit("f");
    }
    let r = match d {
        0 => "0",
        1 => "1",
        2 => "2",
        3 => "3",
        4 => "4",
        5 => "5",
        6 => "6",
        7 => "7",
        8 => "8",
        9 => "9",
        10 => "a",
        11 => "b",
        12 => "c",
        13 => "d",
        14 => "e",
        _ => "f",
    };
    proof {
        assert(r@ =~= seq![hex_digit(d as int)]);
    }
    r
}

/// Append a byte as two lowercase hexadecimal characters.
pub fn push_hex_pair(s: &mut String, b: u8)
    ensures
        final(s)@ == old(s)@ + hex_pair(b),
{
    s.append(hex_digit_str(b / 16));
    s.append(hex_digit_str(b % 16));
    proof {
        assert(s@ =~= old(s)@ + hex_pair(b));
    }
}

/// Append a byte as plain decimal text, without leading zeros.
pub fn push_dec_byte(s: &mut String, n: u8)
    ensures
        final(s)@ == old(s)@ + dec_byte(n),
{
    if n >= 100 {
        s.append(hex_digit_str(n / 100));
    }
    if n >= 10 {
        s.append(hex_digit_str((n / 10) % 10));
    }
    s.append(hex_digit_str(n % 10));
    proof {
        assert(s@ =~= old(s)@ + dec_byte(n));
    }
}

} // verus!
