use vstd::prelude::*;
use vstd::string::StringExecFns;

verus! {

/// The upper-case hexadecimal digit for `d`, which is below 16.
pub open spec fn hex_char(d: int) -> char {
    if d == 0 {
        '0'
    } else if d == 1 {
        '1'
    } else if d == 2 {
        '2'
    } else if d == 3 {
        '3'
    } else if d == 4 {
        '4'
    } else if d == 5 {
        '5'
    } else if d == 6 {
        '6'
    } else if d == 7 {
        '7'
    } else if d == 8 {
        '8'
    } else if d == 9 {
        '9'
    } else if d == 10 {
        'A'
    } else if d == 11 {
        'B'
    } else if d == 12 {
        'C'
    } else if d == 13 {
        'D'
    } else if d == 14 {
        'E'
    } else {
        'F'
    }
}

/// One hexadecimal digit.
pub open spec fn hex_nibble(d: u8) -> Seq<char> {
    seq![hex_char(d as int)]
}

/// A byte as two hexadecimal digits.
pub open spec fn hex_byte(b: u8) -> Seq<char> {
    seq![hex_char(b as int / 16), hex_char(b as int % 16)]
}

/// A twelve-bit address as three hexadecimal digits.
pub open spec fn hex_addr(a: u16) -> Seq<char> {
    seq![hex_char((a as int / 256) % 16), hex_char((a as int / 16) % 16), hex_char(a as int % 16)]
}

/// A sixteen-bit word as four hexadecimal digits.
pub open spec fn hex_word(w: u16) -> Seq<char> {
    seq![
        hex_char(w as int / 4096),
        hex_char((w as int / 256) % 16),
        hex_char((w as int / 16) % 16),
        hex_char(w as int % 16),
    ]
}

/// A number in decimal, without leading zeros.
pub open spec fn decimal(n: nat) -> Seq<char>
    decreases n,
{
    if n < 10 {
        seq![hex_char(n as int)]
    } else {
        decimal(n / 10).push(hex_char((n % 10) as int))
    }
}

/// The digit `d` as a string of one character.
pub(crate) fn hex_digit(d: u8) -> (s: &'static str)
    requires
        d < 16,
    ensures
        s@ == hex_nibble(d),
{
    proof {
        reveal_strlit("0");
        reveal_strlit("1");
        reveal_strlit("2");
        reveal_strlit("3");
        reveal_strlit("4");
        reveal_strlit("5");
        reveal_strlit("6");
        reveal_strlit("7");
        reveal_strlit("8");
        reveal_strlit("9");
        reveal_strlit("A");
        reveal_strlit("B");
        reveal_strlit("C");
        reveal_strlit("D");
        reveal_strlit("E");
        reveal_strlit("F");
    }
    let s: &'static str = match d {
        0 => "0",
        1 => "1",
        2 => "2",
        3 => "3",
        4 => "4",
        5 => "5",
        6 => "6",
        7 => "7",
        8 => "8",
        9 => "9",
        10 => "A",
        11 => "B",
        12 => "C",
        13 => "D",
        14 => "E",
        _ => "F",
    };
    assert(s@ =~= hex_nibble(d));
    s
}

/// Appends one hexadecimal digit.
pub(crate) fn push_hex_nibble(s: &mut String, d: u8)
    requires
        d < 16,
    ensures
        final(s)@ == old(s)@ + hex_nibble(d),
{
    s.append(hex_digit(d));
}

/// Appends a byte as two hexadecimal digits.
pub(crate) fn push_hex_byte(s: &mut String, b: u8)
    ensures
        final(s)@ == old(s)@ + hex_byte(b),
{
    assert(b >> 4 == b / 16 && b & 0xF == b % 16) by (bit_vector);
    s.append(hex_digit(b >> 4));
    s.append(hex_digit(b & 0xF));
    assert(s@ =~= old(s)@ + hex_byte(b));
}

/// Appends a twelve-bit address as three hexadecimal digits.
pub(crate) fn push_hex_addr(s: &mut String, a: u16)
    ensures
        final(s)@ == old(s)@ + hex_addr(a),
{
    assert((a >> 8) & 0xF == (a / 256) % 16 && (a >> 4) & 0xF == (a / 16) % 16 && a & 0xF == a % 16)
        by (bit_vector);
    s.append(hex_digit(((a >> 8) & 0xF) as u8));
    s.append(hex_digit(((a >> 4) & 0xF) as u8));
    s.append(hex_digit((a & 0xF) as u8));
    assert(s@ =~= old(s)@ + hex_addr(a));
}

/// Appends a sixteen-bit word as four hexadecimal digits.
pub(crate) fn push_hex_word(s: &mut String, w: u16)
    ensures
        final(s)@ == old(s)@ + hex_word(w),
{
    assert(w >> 12 == w / 4096 && (w >> 8) & 0xF == (w / 256) % 16 && (w >> 4) & 0xF == (w / 16)
        % 16 && w & 0xF == w % 16) by (bit_vector);
    s.append(hex_digit((w >> 12) as u8));
    s.append(hex_digit(((w >> 8) & 0xF) as u8));
    s.append(hex_digit(((w >> 4) & 0xF) as u8));
    s.append(hex_digit((w & 0xF) as u8));
    assert(s@ =~= old(s)@ + hex_word(w));
}

/// Appends a number in decimal.
pub(crate) fn push_decimal(s: &mut String, n: u64)
    ensures
        final(s)@ == old(s)@ + decimal(n as nat),
    decreases n,
{
    if n >= 10 {
        push_decimal(s, n / 10);
    }
    s.append(hex_digit((n % 10) as u8));
    assert(s@ =~= old(s)@ + decimal(n as nat));
}

} // verus!
