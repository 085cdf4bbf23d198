//! Colours as text.

use vstd::prelude::*;

use crate::chat::types::Rgb;
use crate::number::{hex_byte, hex_digit_value, hex_value, push_hex_byte};
use crate::text::{chars_of, trim_front_char, trim_start_char};

verus! {

/// A colour as `#` and six upper case hexadecimal digits.
pub open spec fn hex_colour(c: Rgb) -> Seq<char> {
    seq!['#'] + hex_byte(c.r, true) + hex_byte(c.g, true) + hex_byte(c.b, true)
}

pub fn accent_to_hex(c: Rgb) -> (r: String)
    ensures
        r@ == hex_colour(c),
{
    let mut s: String = String::new();
    s.push('#');
    push_hex_byte(&mut s, c.r, true);
    push_hex_byte(&mut s, c.g, true);
    push_hex_byte(&mut s, c.b, true);
    proof {
        assert(s@ =~= hex_colour(c));
    }
    s
}

/// The value of two characters as a byte: two hexadecimal digits, or a plus sign and one.
pub open spec fn pair_value(a: char, b: char) -> Option<nat> {
    if a == '+' {
        hex_value(b)
    } else {
        match (hex_value(a), hex_value(b)) {
            (Some(x), Some(y)) => Some(x * 16 + y),
            _ => None,
        }
    }
}

/// The colour that six characters denote.
pub open spec fn colour_of(h: Seq<char>) -> Option<Rgb> {
    if h.len() == 6 {
        match (pair_value(h[0], h[1]), pair_value(h[2], h[3]), pair_value(h[4], h[5])) {
            (Some(r), Some(g), Some(b)) => Some(Rgb { r: r as u8, g: g as u8, b: b as u8 }),
            _ => None,
        }
    } else {
        None
    }
}

fn read_pair(a: char, b: char) -> (r: Option<u8>)
    ensures
        match r {
            Some(x) => pair_value(a, b) == Some(x as nat),
            None => pair_value(a, b) is None,
        },
{
    if a == '+' {
        return hex_digit_value(b);
    }
    match (hex_digit_value(a), hex_digit_value(b)) {
        (Some(x), Some(y)) => Some(x * 16 + y),
        _ => None,
    }
}

fn read_colour(v: &Vec<char>) -> (r: Option<Rgb>)
    ensures
        r == colour_of(v@),
{
    if v.len() != 6 {
        return None;
    }
    match (read_pair(v[0], v[1]), read_pair(v[2], v[3]), read_pair(v[4], v[5])) {
        (Some(r), Some(g), Some(b)) => Some(Rgb { r, g, b }),
        _ => None,
    }
}

/// Reads a colour of six characters, with any number of `#` in front.
pub fn parse_hex_color(s: &str) -> (r: Option<Rgb>)
    ensures
        r == colour_of(trim_front_char(s@, '#')),
{
    let h = trim_start_char(s, '#');
    read_colour(&chars_of(h.as_str()))
}

/// Whether a text is six hexadecimal digits.
pub open spec fn is_hex_colour(h: Seq<char>) -> bool {
    h.len() == 6 && forall|i: int| 0 <= i < h.len() ==> hex_value(#[trigger] h[i]) is Some
}

pub fn all_hex_digits(v: &Vec<char>) -> (b: bool)
    ensures
        b == forall|i: int| 0 <= i < v@.len() ==> hex_value(#[trigger] v@[i]) is Some,
{
    let mut i: usize = 0;
    while i < v.len()
        invariant
            i <= v.len(),
            forall|j: int| 0 <= j < i ==> hex_value(#[trigger] v@[j]) is Some,
        decreases v.len() - i,
    {
        if hex_digit_value(v[i]).is_none() {
            return false;
        }
        i += 1;
    }
    true
}

/// Reads a colour of six hexadecimal digits, without any mark in front.
pub fn strict_colour(h: &str) -> (r: Option<Rgb>)
    ensures
        r == if is_hex_colour(h@) {
            colour_of(h@)
        } else {
            None
        },
        r is Some <==> is_hex_colour(h@),
{
    let v = chars_of(h);
    if v.len() == 6 && all_hex_digits(&v) {
        read_colour(&v)
    } else {
        None
    }
}

proof fn lemma_byte_digits(b: u8)
    ensures
        pair_value(hex_byte(b, true)[0], hex_byte(b, true)[1]) == Some(b as nat),
{
    let x = b as nat / 16;
    let y = b as nat % 16;
    assert(x < 16 && y < 16);
    assert(x * 16 + y == b as nat);
}

/// A colour that was written in hexadecimal is read back as it was.
pub proof fn colour_round_trip(c: Rgb)
    ensures
        colour_of(trim_front_char(hex_colour(c), '#')) == Some(c),
{
    let t = hex_colour(c);
    let h = hex_byte(c.r, true) + hex_byte(c.g, true) + hex_byte(c.b, true);
    assert(t.drop_first() =~= h);
    lemma_byte_digits(c.r);
    lemma_byte_digits(c.g);
    lemma_byte_digits(c.b);
    assert(h[0] != '#');
    assert(trim_front_char(h, '#') == h);
    assert(trim_front_char(t, '#') == h);
}

} // verus!
