//! Text formatting helpers: lower-case hex rendering of bytes, and the
//! firmware version string.

use vstd::prelude::*;

verus! {

/// Relies on String::push: appends exactly the given character to the
/// string. vstd gives this std method no specification of its own.
#[verifier::external_body]
fn push_char(s: &mut String, c: char)
    ensures
        final(s)@ == old(s)@.push(c),
{
    s.push(c);
}

/// The lower-case hex digit of a value below 16.
pub open spec fn hex_digit_spec(n: int) -> char {
    if n == 0 { '0' } else if n == 1 { '1' } else if n == 2 { '2' } else if n == 3 { '3' }
    else if n == 4 { '4' } else if n == 5 { '5' } else if n == 6 { '6' } else if n == 7 { '7' }
    else if n == 8 { '8' } else if n == 9 { '9' } else if n == 10 { 'a' } else if n == 11 { 'b' }
    else if n == 12 { 'c' } else if n == 13 { 'd' } else if n == 14 { 'e' } else { 'f' }
}

/// The two lower-case hex digits of a byte, high digit first.
pub open spec fn hex_byte_spec(b: u8) -> Seq<char> {
    seq![hex_digit_spec((b / 16) as int), hex_digit_spec((b % 16) as int)]
}

/// The lower-case hex rendering of a byte sequence, two digits per byte.
pub open spec fn hex_str_spec(s: Seq<u8>) -> Seq<char>
    decreases s.len(),
{
    if s.len() == 0 {
        Seq::empty()
    } else {
        hex_str_spec(s.drop_last()) + hex_byte_spec(s.last())
    }
}

/// The firmware version string: the major part in hex without padding,
/// a dot, and the minor part as two zero-padded hex digits.
pub open spec fn version_spec(major: u8, minor: u8) -> Seq<char> {
    (if major < 16 { seq![hex_digit_spec(major as int)] } else { hex_byte_spec(major) })
        + seq!['.'] + hex_byte_spec(minor)
}

/// The lower-case hex digit character of a value below 16.
pub fn hex_digit(n: u8) -> (c: char)
    requires
        n < 16,
    ensures
        c == hex_digit_spec(n as int),
{
    match n {
        0 => '0',
        1 => '1',
        2 => '2',
        3 => '3',
        4 => '4',
        5 => '5',
        6 => '6',
        7 => '7',
        8 => '8',
        9 => '9',
        10 => 'a',
        11 => 'b',
        12 => 'c',
        13 => 'd',
        14 => 'e',
        _ => 'f',
    }
}

/// Appends the two hex digits of one byte.
fn push_hex_byte(s: &mut String, b: u8)
    ensures
        final(s)@ == old(s)@ + hex_byte_spec(b),
{
    push_char(s, hex_digit(b / 16));
    push_char(s, hex_digit(b % 16));
    proof {
        assert(s@ =~= old(s)@ + hex_byte_spec(b));
    }
}

/// Renders a byte slice as lower-case hex, two digits per byte.
pub fn to_hex_string(bytes: &[u8]) -> (r: String)
    ensures
        r@ == hex_str_spec(bytes@),
{
    let mut s = String::new();
    let mut i: usize = 0;
    while i < bytes.len()
        invariant
            i <= bytes@.len(),
            s@ == hex_str_spec(bytes@.take(i as int)),
        decreases bytes@.len() - i,
    {
        push_hex_byte(&mut s, bytes[i]);
        proof {
            assert(bytes@.take(i + 1).drop_last() =~= bytes@.take(i as int));
            assert(bytes@.take(i + 1).last() == bytes@[i as int]);
        }
        i = i + 1;
    }
    proof {
        assert(bytes@.take(bytes@.len() as int) =~= bytes@);
    }
    s
}

/// Renders the firmware version reported by the chipset.
pub fn format_version(major: u8, minor: u8) -> (r: String)
    ensures
        r@ == version_spec(major, minor),
{
    let mut s = String::new();
    if major >= 16 {
        push_char(&mut s, hex_digit(major / 16));
    }
    push_char(&mut s, hex_digit(major % 16));
    push_char(&mut s, '.');
    push_hex_byte(&mut s, minor);
    proof {
        if major < 16 {
            assert(major % 16 == major as int);
        }
        assert(s@ =~= version_spec(major, minor));
    }
    s
}

} // verus!
