use vstd::prelude::*;

verus! {

/// Relies on `String::push`: the character is added at the end of the string.
pub assume_specification[ String::push ](s: &mut String, ch: char)
    ensures
        final(s)@ == old(s)@.push(ch),
;

/// Appends `piece` to the end of `s`.
pub fn append_str(s: &mut String, piece: &str)
    ensures
        final(s)@ == old(s)@ + piece@,
{
    s.append(piece);
}

/// Returns a fresh string holding the characters of `s`.
pub fn owned(s: &str) -> (r: String)
    ensures
        r@ == s@,
{
    s.to_owned()
}

/// Whether two strings hold the same characters.
pub fn same_text(a: &str, b: &str) -> (r: bool)
    ensures
        r == (a@ == b@),
{
    let a = a.to_owned();
    let b = b.to_owned();
    a == b
}

/// The digits of base sixteen, lower case.
pub open spec fn hex_digit(n: int) -> char {
    if n == 0 { '0' }
    else if n == 1 { '1' }
    else if n == 2 { '2' }
    else if n == 3 { '3' }
    else if n == 4 { '4' }
    else if n == 5 { '5' }
    else if n == 6 { '6' }
    else if n == 7 { '7' }
    else if n == 8 { '8' }
    else if n == 9 { '9' }
    else if n == 10 { 'a' }
    else if n == 11 { 'b' }
    else if n == 12 { 'c' }
    else if n == 13 { 'd' }
    else if n == 14 { 'e' }
    else { 'f' }
}

/// The value of a lower-case hexadecimal digit, if `c` is one.
pub open spec fn hex_value(c: char) -> Option<u8> {
    if c == '0' { Some(0u8) }
    else if c == '1' { Some(1u8) }
    else if c == '2' { Some(2u8) }
    else if c == '3' { Some(3u8) }
    else if c == '4' { Some(4u8) }
    else if c == '5' { Some(5u8) }
    else if c == '6' { Some(6u8) }
    else if c == '7' { Some(7u8) }
    else if c == '8' { Some(8u8) }
    else if c == '9' { Some(9u8) }
    else if c == 'a' { Some(10u8) }
    else if c == 'b' { Some(11u8) }
    else if c == 'c' { Some(12u8) }
    else if c == 'd' { Some(13u8) }
    else if c == 'e' { Some(14u8) }
    else if c == 'f' { Some(15u8) }
    else { None }
}

pub proof fn lemma_hex_value_of_digit(n: int)
    requires
        0 <= n < 16,
    ensures
        hex_value(hex_digit(n)) == Some(n as u8),
{
}

pub proof fn lemma_hex_digit_of_value(c: char)
    requires
        hex_value(c) is Some,
    ensures
        hex_digit(hex_value(c)->0 as int) == c,
        (c as u32) < 128,
{
}

/// The lower-case hexadecimal digit for `n`.
pub fn hex_char(n: u8) -> (r: char)
    requires
        n < 16,
    ensures
        r == hex_digit(n as int),
{
    match n {
        0 => '0',
        1 => '1',
        2 => '2',
        3 => '3',
        4 => '4',
        5 => '5',
        6 => '6',
        7 => '7',
        8 => '8',
        9 => '9',
        10 => 'a',
        11 => 'b',
        12 => 'c',
        13 => 'd',
        14 => 'e',
        _ => 'f',
    }
}

/// The value of the hexadecimal digit whose ASCII code is `b`, if it is one.
pub fn hex_char_value(b: u8) -> (r: Option<u8>)
    ensures
        r == hex_value(b as char),
{
    if 48 <= b && b <= 57 {
        Some(b - 48)
    } else if 97 <= b && b <= 102 {
        Some(b - 87)
    } else {
        None
    }
}

} // verus!
