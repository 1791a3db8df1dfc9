//! Packed binary-coded-decimal codec.
//!
//! A BCD byte stores two decimal digits, one per nibble, so that reading the
//! byte as two hexadecimal digits yields the decimal text. The year 2019, for
//! example, is carried on the wire as the two bytes `0x20, 0x19`.

use vstd::prelude::*;

verus! {

/// Both nibbles of the byte carry a decimal digit.
pub open spec fn bcd_byte_valid(b: u8) -> bool {
    b % 16 <= 9 && b / 16 <= 9
}

/// The two-digit decimal value a valid BCD byte stands for.
pub open spec fn bcd_byte_value(b: u8) -> int {
    (b / 16) * 10 + b % 16
}

/// The BCD byte packing a two-digit decimal value.
pub open spec fn bcd_byte_of(n: int) -> u8
    recommends
        0 <= n < 100,
{
    ((n / 10) * 16 + n % 10) as u8
}

pub proof fn lemma_bcd_byte_of_value(n: int)
    requires
        0 <= n < 100,
    ensures
        bcd_byte_valid(bcd_byte_of(n)),
        bcd_byte_value(bcd_byte_of(n)) == n,
{
    let q = n / 10;
    let r = n % 10;
    assert(0 <= r < 10 && 0 <= q < 10);
    assert((q * 16 + r) / 16 == q && (q * 16 + r) % 16 == r) by (nonlinear_arith)
        requires
            0 <= r < 10 && 0 <= q < 10,
    ;
    assert(q * 10 + r == n) by (nonlinear_arith)
        requires
            q == n / 10 && r == n % 10 && 0 <= n < 100,
    ;
}

pub proof fn lemma_bcd_value_byte_of(b: u8)
    requires
        bcd_byte_valid(b),
    ensures
        0 <= bcd_byte_value(b) < 100,
        bcd_byte_of(bcd_byte_value(b)) == b,
{
    let q = b / 16;
    let r = b % 16;
    let v = bcd_byte_value(b);
    assert(v / 10 == q && v % 10 == r) by (nonlinear_arith)
        requires
            v == q * 10 + r && 0 <= r <= 9 && 0 <= q <= 9,
    ;
    assert(q * 16 + r == b) by (nonlinear_arith)
        requires
            q == b / 16 && r == b % 16,
    ;
}

/// Pack a two-digit decimal value into one BCD byte.
pub fn bcd_pack(n: u8) -> (r: u8)
    requires
        n < 100,
    ensures
        r == bcd_byte_of(n as int),
        bcd_byte_valid(r),
        bcd_byte_value(r) == n,
{
    proof {
        lemma_bcd_byte_of_value(n as int);
    }
    (n / 10) * 16 + n % 10
}

/// Unpack one BCD byte into its two-digit decimal value; `None` when a nibble
/// is not a decimal digit.
pub fn bcd_unpack(b: u8) -> (r: Option<u8>)
    ensures
        r is Some <==> bcd_byte_valid(b),
        bcd_byte_valid(b) ==> r == Some((bcd_byte_value(b)) as u8),
{
    let hi = b / 16;
    let lo = b % 16;
    if hi <= 9 && lo <= 9 {
        Some(hi * 10 + lo)
    } else {
        None
    }
}

pub open spec fn is_dec_digit(c: char) -> bool {
    c == '0' || c == '1' || c == '2' || c == '3' || c == '4' || c == '5' || c == '6' || c == '7'
        || c == '8' || c == '9'
}

pub open spec fn digit_val(c: char) -> int
    recommends
        is_dec_digit(c),
{
    if c == '0' {
        0
    } else if c == '1' {
        1
    } else if c == '2' {
        2
    } else if c == '3' {
        3
    } else if c == '4' {
        4
    } else if c == '5' {
        5
    } else if c == '6' {
        6
    } else if c == '7' {
        7
    } else if c == '8' {
        8
    } else {
        9
    }
}

/// The character for a decimal digit value.
pub open spec fn digit_char(d: int) -> char
    recommends
        0 <= d <= 9,
{
    if d == 0 {
        '0'
    } else if d == 1 {
        '1'
    } else if d == 2 {
        '2'
    } else if d == 3 {
        '3'
    } else if d == 4 {
        '4'
    } else if d == 5 {
        '5'
    } else if d == 6 {
        '6'
    } else if d == 7 {
        '7'
    } else if d == 8 {
        '8'
    } else {
        '9'
    }
}

fn digit_value(c: char) -> (r: u8)
    requires
        is_dec_digit(c),
    ensures
        r == digit_val(c),
        r <= 9,
{
    match c {
        '0' => 0,
        '1' => 1,
        '2' => 2,
        '3' => 3,
        '4' => 4,
        '5' => 5,
        '6' => 6,
        '7' => 7,
        '8' => 8,
        _ => 9,
    }
}

/// The digit string left-padded with a `'0'` when its length is odd, so that
/// it fills whole bytes.
pub open spec fn padded_digits(s: Seq<char>) -> Seq<char> {
    if s.len() % 2 == 1 {
        seq!['0'] + s
    } else {
        s
    }
}

/// The packed form of a decimal digit string: one byte for each pair of
/// digits of the padded string, the earlier digit in the high nibble.
pub open spec fn spec_bcd_encode(s: Seq<char>) -> Seq<u8> {
    Seq::new(
        (padded_digits(s).len() / 2) as nat,
        |i: int| (digit_val(padded_digits(s)[2 * i]) * 16 + digit_val(padded_digits(s)[2 * i + 1])) as u8,
    )
}

/// Encode a string of decimal digits as packed BCD: `⌈len/2⌉` bytes whose
/// nibbles, read as hexadecimal text, give back the digits (an odd-length
/// string gains one leading zero nibble).
pub fn encode(s: String) -> (r: Vec<u8>)
    requires
        forall|i: int| 0 <= i < s@.len() ==> is_dec_digit(#[trigger] s@[i]),
    ensures
        r@ == spec_bcd_encode(s@),
        r@.len() == (s@.len() + 1) / 2,
{
    let st = s.as_str();
    let n = st.unicode_len();
    let mut out: Vec<u8> = Vec::new();
    let mut i: usize = 0;
    if n % 2 == 1 {
        let d = digit_value(st.get_char(0));
        out.push(d);
        i = 1;
        assert(out@[0] == spec_bcd_encode(s@)[0]);
    }
    while i < n
        invariant
            n == s@.len(),
            i <= n,
            i % 2 == n % 2,
            st@ == s@,
            forall|j: int| 0 <= j < s@.len() ==> is_dec_digit(#[trigger] s@[j]),
            out@.len() * 2 == i + (n % 2),
            forall|j: int| 0 <= j < out@.len() ==> out@[j] == spec_bcd_encode(s@)[j],
        decreases n - i,
    {
        let hi = digit_value(st.get_char(i));
        let lo = digit_value(st.get_char(i + 1));
        let ghost k = out@.len() as int;
        out.push(hi * 16 + lo);
        proof {
            assert(2 * k == i + (n % 2));
            if n % 2 == 1 {
                assert(padded_digits(s@)[2 * k] == s@[i as int]);
                assert(padded_digits(s@)[2 * k + 1] == s@[i + 1]);
            } else {
                assert(padded_digits(s@)[2 * k] == s@[i as int]);
                assert(padded_digits(s@)[2 * k + 1] == s@[i + 1]);
            }
            assert(out@[k] == spec_bcd_encode(s@)[k]);
        }
        i = i + 2;
    }
    proof {
        assert(out@ =~= spec_bcd_encode(s@));
    }
    out
}

/// The digit string a packed byte sequence stands for: two characters for
/// each byte, high nibble first.
pub open spec fn spec_bcd_decode(b: Seq<u8>) -> Seq<char> {
    Seq::new(
        (b.len() * 2) as nat,
        |i: int| if i % 2 == 0 {
            digit_char((b[i / 2] / 16) as int)
        } else {
            digit_char((b[i / 2] % 16) as int)
        },
    )
}

fn digit_str(d: u8) -> (r: &'static str)
    requires
        d <= 9,
    ensures
        r@ == seq![digit_char(d as int)],
{
    proof {
        reveal_strlit("0");
        reveal_strlit("1");
        reveal_strlit("2");
        reveal_strlit("3");
        reveal_strlit("4");
        reveal_strlit("5");
        reveal_strlit("6");
        reveal_strlit("7");
        reveal_strlit("8");
        reveal_strlit("9");
    }
    let r = match d {
        0 => "0",
        1 => "1",
        2 => "2",
        3 => "3",
        4 => "4",
        5 => "5",
        6 => "6",
        7 => "7",
        8 => "8",
        _ => "9",
    };
    proof {
        assert(r@ =~= seq![digit_char(d as int)]);
    }
    r
}

/// Decode packed BCD back into its decimal digit string; `None` when any
/// nibble exceeds nine.
pub fn decode(bytes: &Vec<u8>) -> (r: Option<String>)
    ensures
        r is Some <==> (forall|i: int| 0 <= i < bytes@.len() ==> bcd_byte_valid(#[trigger] bytes@[i])),
        r matches Some(s) ==> s@ == spec_bcd_decode(bytes@),
{
    let mut out = String::new();
    let mut i: usize = 0;
    while i < bytes.len()
        invariant
            i <= bytes@.len(),
            out@.len() == 2 * i,
            forall|j: int| 0 <= j < i ==> bcd_byte_valid(#[trigger] bytes@[j]),
            forall|j: int| 0 <= j < out@.len() ==> out@[j] == spec_bcd_decode(bytes@)[j],
        decreases bytes@.len() - i,
    {
        let b = bytes[i];
        let hi = b / 16;
        let lo = b % 16;
        if hi > 9 || lo > 9 {
            return None;
        }
        out.append(digit_str(hi));
        out.append(digit_str(lo));
        i = i + 1;
    }
    proof {
        assert(out@ =~= spec_bcd_decode(bytes@));
    }
    Some(out)
}

/// Decoding inverts encoding: the digits come back, with the one padding zero
/// an odd-length input gained.
pub proof fn lemma_bcd_decode_encode(s: Seq<char>)
    requires
        forall|i: int| 0 <= i < s.len() ==> is_dec_digit(#[trigger] s[i]),
    ensures
        spec_bcd_decode(spec_bcd_encode(s)) == padded_digits(s),
{
    let p = padded_digits(s);
    let e = spec_bcd_encode(s);
    let d = spec_bcd_decode(e);
    assert(forall|i: int| 0 <= i < p.len() ==> is_dec_digit(#[trigger] p[i]));
    assert forall|i: int| 0 <= i < d.len() implies d[i] == p[i] by {
        let b = e[i / 2];
        let hi = digit_val(p[2 * (i / 2)]);
        let lo = digit_val(p[2 * (i / 2) + 1]);
        assert(b == (hi * 16 + lo) as u8);
        assert(b / 16 == hi && b % 16 == lo) by (nonlinear_arith)
            requires
                b == (hi * 16 + lo) as u8 && 0 <= hi <= 9 && 0 <= lo <= 9,
        ;
        if i % 2 == 0 {
            assert(2 * (i / 2) == i);
            assert(digit_char(digit_val(p[i])) == p[i]);
        } else {
            assert(2 * (i / 2) + 1 == i);
            assert(digit_char(digit_val(p[i])) == p[i]);
        }
    }
    assert(d =~= p);
}

/// Encoding inverts decoding on byte sequences whose nibbles are all decimal.
pub proof fn lemma_bcd_encode_decode(b: Seq<u8>)
    requires
        forall|i: int| 0 <= i < b.len() ==> bcd_byte_valid(#[trigger] b[i]),
    ensures
        spec_bcd_encode(spec_bcd_decode(b)) == b,
{
    let d = spec_bcd_decode(b);
    assert(d.len() == 2 * b.len());
    assert(d.len() % 2 == 0);
    let p = padded_digits(d);
    assert(p == d);
    let e = spec_bcd_encode(d);
    assert forall|i: int| 0 <= i < e.len() implies e[i] == b[i] by {
        assert((2 * i) % 2 == 0 && (2 * i + 1) % 2 == 1);
        assert((2 * i) / 2 == i && (2 * i + 1) / 2 == i);
        assert(d[2 * i] == digit_char((b[i] / 16) as int));
        assert(d[2 * i + 1] == digit_char((b[i] % 16) as int));
        assert(digit_val(digit_char((b[i] / 16) as int)) == b[i] / 16);
        assert(digit_val(digit_char((b[i] % 16) as int)) == b[i] % 16);
        assert(e[i] == ((b[i] / 16) * 16 + b[i] % 16) as u8);
        assert((b[i] / 16) * 16 + b[i] % 16 == b[i]) by (nonlinear_arith);
    }
    assert(e =~= b);
}

} // verus!
