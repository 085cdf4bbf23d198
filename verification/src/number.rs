//! Numbers as text: decimal and hexadecimal digits.

use vstd::prelude::*;

use crate::text::{chars_of, is_digit};

verus! {

pub open spec fn digit_char(d: nat) -> char {
    (48 + d) as u8 as char
}

/// A number in decimal, without leading zeros.
pub open spec fn decimal(n: nat) -> Seq<char>
    decreases n,
{
    if n < 10 {
        seq![digit_char(n)]
    } else {
        decimal(n / 10).push(digit_char(n % 10))
    }
}

pub fn u64_text(n: u64) -> (r: String)
    ensures
        r@ == decimal(n as nat),
    decreases n,
{
    if n < 10 {
        let mut s: String = String::new();
        s.push((48 + n as u8) as char);
        proof {
            assert(s@ =~= decimal(n as nat));
        }
        s
    } else {
        let mut s = u64_text(n / 10);
        s.push((48 + (n % 10) as u8) as char);
        s
    }
}

/// The value of a text of decimal digits.
pub open spec fn digits_value(s: Seq<char>) -> nat
    decreases s.len(),
{
    if s.len() == 0 {
        0
    } else {
        digits_value(s.drop_last()) * 10 + (s.last() as u32 - 48) as nat
    }
}

/// A text without the plus sign that may stand in front of a number.
pub open spec fn unsigned_part(s: Seq<char>) -> Seq<char> {
    if s.len() > 0 && s[0] == '+' {
        s.drop_first()
    } else {
        s
    }
}

/// What a text denotes as an unsigned number that is at most `max`.
pub open spec fn parsed(s: Seq<char>, max: nat) -> Option<nat> {
    let d = unsigned_part(s);
    if d.len() > 0 && (forall|i: int| 0 <= i < d.len() ==> is_digit(#[trigger] d[i]))
        && digits_value(d) <= max {
        Some(digits_value(d))
    } else {
        None
    }
}

proof fn lemma_digits_value_monotonic(s: Seq<char>, i: int)
    requires
        0 <= i <= s.len(),
        forall|k: int| 0 <= k < s.len() ==> is_digit(#[trigger] s[k]),
    ensures
        digits_value(s.take(i)) <= digits_value(s),
    decreases s.len() - i,
{
    if i < s.len() {
        assert(s.take(i + 1).drop_last() =~= s.take(i));
        lemma_digits_value_monotonic(s, i + 1);
    } else {
        assert(s.take(i) =~= s);
    }
}

pub fn parse_u64(s: &str) -> (r: Option<u64>)
    ensures
        match r {
            Some(n) => parsed(s@, u64::MAX as nat) == Some(n as nat),
            None => parsed(s@, u64::MAX as nat) is None,
        },
{
    let v = chars_of(s);
    let mut from: usize = 0;
    if v.len() > 0 && v[0] == '+' {
        from = 1;
    }
    let ghost d = unsigned_part(v@);
    proof {
        assert(d =~= v@.skip(from as int));
    }
    if v.len() == from {
        return None;
    }
    let mut n: u64 = 0;
    let mut i: usize = from;
    while i < v.len()
        invariant
            from <= i <= v.len(),
            d == v@.skip(from as int),
            d == unsigned_part(s@),
            n == digits_value(d.take(i - from)),
            forall|k: int| 0 <= k < i - from ==> is_digit(#[trigger] d[k]),
        decreases v.len() - i,
    {
        let c = v[i];
        proof {
            assert(d[i - from] == c);
            assert(d.take(i - from + 1).drop_last() =~= d.take(i - from));
        }
        if c < '0' || '9' < c {
            return None;
        }
        let x: u64 = (c as u32 - 48) as u64;
        if n > (0xffff_ffff_ffff_ffffu64 - x) / 10 {
            proof {
                if forall|k: int| 0 <= k < d.len() ==> is_digit(#[trigger] d[k]) {
                    lemma_digits_value_monotonic(d, i - from + 1);
                }
            }
            return None;
        }
        n = n * 10 + x;
        i += 1;
    }
    proof {
        assert(d.take(i - from) =~= d);
    }
    Some(n)
}

/// A hexadecimal digit, with letters in upper case where `upper` holds.
pub open spec fn hex_char(d: nat, upper: bool) -> char {
    if d < 10 {
        (48 + d) as u8 as char
    } else if upper {
        (55 + d) as u8 as char
    } else {
        (87 + d) as u8 as char
    }
}

/// A byte as two hexadecimal digits.
pub open spec fn hex_byte(b: u8, upper: bool) -> Seq<char> {
    seq![hex_char(b as nat / 16, upper), hex_char(b as nat % 16, upper)]
}

pub fn hex_digit(d: u8, upper: bool) -> (c: char)
    requires
        d < 16,
    ensures
        c == hex_char(d as nat, upper),
{
    if d < 10 {
        (48 + d) as char
    } else if upper {
        (55 + d) as char
    } else {
        (87 + d) as char
    }
}

pub fn push_hex_byte(s: &mut String, b: u8, upper: bool)
    ensures
        final(s)@ == old(s)@ + hex_byte(b, upper),
{
    s.push(hex_digit(b / 16, upper));
    s.push(hex_digit(b % 16, upper));
    proof {
        assert(s@ =~= old(s)@ + hex_byte(b, upper));
    }
}

/// Bytes in lower case hexadecimal, two digits each.
pub open spec fn hex(bytes: Seq<u8>) -> Seq<char>
    decreases bytes.len(),
{
    if bytes.len() == 0 {
        Seq::empty()
    } else {
        hex(bytes.drop_last()) + hex_byte(bytes.last(), false)
    }
}

pub fn hex_text(bytes: &Vec<u8>) -> (r: String)
    ensures
        r@ == hex(bytes@),
{
    let mut r: String = String::new();
    let mut i: usize = 0;
    while i < bytes.len()
        invariant
            i <= bytes.len(),
            r@ == hex(bytes@.take(i as int)),
        decreases bytes.len() - i,
    {
        proof {
            assert(bytes@.take(i + 1).drop_last() =~= bytes@.take(i as int));
        }
        push_hex_byte(&mut r, bytes[i], false);
        i += 1;
    }
    proof {
        assert(bytes@.take(i as int) =~= bytes@);
    }
    r
}

/// Two digits per byte.
pub proof fn hex_len(bytes: Seq<u8>)
    ensures
        hex(bytes).len() == 2 * bytes.len(),
    decreases bytes.len(),
{
    if bytes.len() > 0 {
        hex_len(bytes.drop_last());
    }
}

/// The value of a hexadecimal digit of either case.
pub open spec fn hex_value(c: char) -> Option<nat> {
    if '0' <= c <= '9' {
        Some((c as u32 - 48) as nat)
    } else if 'a' <= c <= 'f' {
        Some((c as u32 - 87) as nat)
    } else if 'A' <= c <= 'F' {
        Some((c as u32 - 55) as nat)
    } else {
        None
    }
}

pub fn hex_digit_value(c: char) -> (r: Option<u8>)
    ensures
        match r {
            Some(d) => hex_value(c) == Some(d as nat) && d < 16,
            None => hex_value(c) is None,
        },
{
    if '0' <= c && c <= '9' {
        Some((c as u32 - 48) as u8)
    } else if 'a' <= c && c <= 'f' {
        Some((c as u32 - 87) as u8)
    } else if 'A' <= c && c <= 'F' {
        Some((c as u32 - 55) as u8)
    } else {
        None
    }
}

// ---------------------------------------------------------------------------
// Laws
// ---------------------------------------------------------------------------

/// A number in decimal is written in digits, with no zero in front, and each place counts ten times
/// as much as the next.
pub proof fn decimals_are_digits(n: nat)
    ensures
        decimal(n).len() > 0,
        forall|i: int| 0 <= i < decimal(n).len() ==> '0' <= #[trigger] decimal(n)[i] <= '9',
        n > 0 ==> decimal(n)[0] != '0',
        decimal(n).last() as u32 == 48 + n % 10,
        n >= 10 ==> decimal(n).drop_last() == decimal(n / 10),
    decreases n,
{
    if n >= 10 {
        decimals_are_digits(n / 10);
        let rest = decimal(n / 10);
        assert(decimal(n).drop_last() =~= rest);
        assert forall|i: int| 0 <= i < decimal(n).len() implies '0' <= #[trigger] decimal(n)[i]
            <= '9' by {
            if i < rest.len() {
                assert(decimal(n)[i] == rest[i]);
            }
        }
        assert(decimal(n)[0] == rest[0]);
    }
}

proof fn lemma_decimal_value(n: nat)
    ensures
        digits_value(decimal(n)) == n,
    decreases n,
{
    if n >= 10 {
        lemma_decimal_value(n / 10);
        assert(decimal(n).drop_last() =~= decimal(n / 10));
    } else {
        assert(decimal(n).drop_last() =~= Seq::empty());
        assert(digits_value(Seq::<char>::empty()) == 0);
    }
}

/// A number that was written in decimal is read back, with or without a plus sign, unless it is
/// larger than what is asked for.
pub proof fn decimals_are_read_back(n: nat, max: nat)
    ensures
        n <= max ==> parsed(decimal(n), max) == Some(n) && parsed(seq!['+'] + decimal(n), max)
            == Some(n),
        n > max ==> parsed(decimal(n), max) is None,
{
    decimals_are_digits(n);
    lemma_decimal_value(n);
    let signed = seq!['+'] + decimal(n);
    assert(signed.drop_first() =~= decimal(n));
    assert(decimal(n)[0] != '+');
}

/// Two numbers are the same where their decimals are.
pub proof fn decimals_tell_numbers_apart(a: nat, b: nat)
    requires
        decimal(a) == decimal(b),
    ensures
        a == b,
{
    lemma_decimal_value(a);
    lemma_decimal_value(b);
}

/// What is no number is not read as one: an empty text, and one with anything but digits behind a
/// plus sign.
pub proof fn only_digits_are_numbers(s: Seq<char>, max: nat, i: int)
    requires
        s.len() == 0 || (0 <= i < s.len() && !('0' <= s[i] <= '9') && (i > 0 || s[i] != '+' || s.len()
            == 1)),
    ensures
        parsed(s, max) is None,
{
    if s.len() > 0 {
        let d = unsigned_part(s);
        if s[0] == '+' {
            if i > 0 {
                assert(d[i - 1] == s[i]);
            }
        } else {
            assert(d[i] == s[i]);
        }
    }
}

/// A hexadecimal digit that was written is read back, in either case.
pub proof fn hex_digits_are_read_back(d: nat, upper: bool)
    requires
        d < 16,
    ensures
        hex_value(hex_char(d, upper)) == Some(d),
        upper ==> !('a' <= hex_char(d, upper) <= 'z'),
        !upper ==> !('A' <= hex_char(d, upper) <= 'Z'),
{
}

/// Each byte is written in two digits, the higher one first.
pub proof fn bytes_are_written_in_two_digits(bytes: Seq<u8>, i: int)
    requires
        0 <= i < bytes.len(),
    ensures
        hex(bytes).len() == 2 * bytes.len(),
        hex_value(hex(bytes)[2 * i]) == Some(bytes[i] as nat / 16),
        hex_value(hex(bytes)[2 * i + 1]) == Some(bytes[i] as nat % 16),
    decreases bytes.len(),
{
    hex_len(bytes);
    let init = bytes.drop_last();
    hex_len(init);
    if i < init.len() {
        bytes_are_written_in_two_digits(init, i);
        assert(hex(bytes)[2 * i] == hex(init)[2 * i]);
        assert(hex(bytes)[2 * i + 1] == hex(init)[2 * i + 1]);
    } else {
        let b = bytes.last();
        hex_digits_are_read_back(b as nat / 16, false);
        hex_digits_are_read_back(b as nat % 16, false);
        assert(hex(bytes)[2 * i] == hex_byte(b, false)[0]);
        assert(hex(bytes)[2 * i + 1] == hex_byte(b, false)[1]);
    }
}

} // verus!
