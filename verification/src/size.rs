//! Sizes of files for people to read.

use vstd::prelude::*;

use crate::number::{decimal, u64_text};
use crate::text::{concat2, concat4};

verus! {

/// The quotient of two numbers, rounded to the nearest whole number; a half goes to the even one.
pub open spec fn rounded(p: nat, q: nat) -> nat {
    let d = p / q;
    let r = p % q;
    if 2 * r > q || (2 * r == q && d % 2 == 1) {
        d + 1
    } else {
        d
    }
}

/// The distance of the double precision numbers around a number below 2^64.
pub open spec fn spacing(n: nat) -> nat {
    if n < 0x20_0000_0000_0000 {
        1
    } else if n < 0x40_0000_0000_0000 {
        2
    } else if n < 0x80_0000_0000_0000 {
        4
    } else if n < 0x100_0000_0000_0000 {
        8
    } else if n < 0x200_0000_0000_0000 {
        16
    } else if n < 0x400_0000_0000_0000 {
        32
    } else if n < 0x800_0000_0000_0000 {
        64
    } else if n < 0x1000_0000_0000_0000 {
        128
    } else if n < 0x2000_0000_0000_0000 {
        256
    } else if n < 0x4000_0000_0000_0000 {
        512
    } else if n < 0x8000_0000_0000_0000 {
        1024
    } else {
        2048
    }
}

/// The double precision number nearest to a number; a half goes to the even one.
pub open spec fn nearest_double(n: nat) -> nat {
    rounded(n, spacing(n)) * spacing(n)
}

/// A number of tenths with one digit behind the point.
pub open spec fn tenths_text(t: nat) -> Seq<char> {
    decimal(t / 10) + "."@ + decimal(t % 10)
}

/// A size in the largest unit of which it is at least one.
pub open spec fn size_text(bytes: nat) -> Seq<char> {
    let b = nearest_double(bytes);
    if b >= 0x4000_0000 {
        tenths_text(rounded(b * 10, 0x4000_0000)) + " GB"@
    } else if b >= 0x10_0000 {
        tenths_text(rounded(b * 10, 0x10_0000)) + " MB"@
    } else if b >= 0x400 {
        decimal(rounded(b, 0x400)) + " KB"@
    } else {
        decimal(bytes) + " B"@
    }
}

fn round_quotient(p: u128, q: u128) -> (r: u128)
    requires
        0 < q <= 0x4000_0000,
        p <= 0xa_0000_0000_0000_0000,
    ensures
        r == rounded(p as nat, q as nat),
        r <= p / q + 1,
{
    let d: u128 = p / q;
    let m: u128 = p % q;
    if 2 * m > q || (2 * m == q && d % 2 == 1) {
        d + 1
    } else {
        d
    }
}

fn double_spacing(n: u64) -> (s: u64)
    ensures
        s == spacing(n as nat),
        1 <= s <= 2048,
{
    if n < 0x20_0000_0000_0000 {
        1
    } else if n < 0x40_0000_0000_0000 {
        2
    } else if n < 0x80_0000_0000_0000 {
        4
    } else if n < 0x100_0000_0000_0000 {
        8
    } else if n < 0x200_0000_0000_0000 {
        16
    } else if n < 0x400_0000_0000_0000 {
        32
    } else if n < 0x800_0000_0000_0000 {
        64
    } else if n < 0x1000_0000_0000_0000 {
        128
    } else if n < 0x2000_0000_0000_0000 {
        256
    } else if n < 0x4000_0000_0000_0000 {
        512
    } else if n < 0x8000_0000_0000_0000 {
        1024
    } else {
        2048
    }
}

fn to_double(n: u64) -> (b: u128)
    ensures
        b == nearest_double(n as nat),
        b <= 0x1_0000_0000_0000_0000,
{
    let s: u128 = double_spacing(n) as u128;
    let r: u128 = round_quotient(n as u128, s);
    proof {
        lemma_nearest_bound(n as nat);
        assert(r * s <= 0x1_0000_0000_0000_0000);
    }
    r * s
}

proof fn lemma_nearest_bound(n: nat)
    requires
        n < 0x1_0000_0000_0000_0000,
    ensures
        nearest_double(n) <= 0x1_0000_0000_0000_0000,
{
    let s = spacing(n);
    let d = n / s;
    if s == 2048 {
        assert(d == n / 2048);
        assert(n / 2048 < 0x20_0000_0000_0000);
        assert((d + 1) * 2048 <= 0x1_0000_0000_0000_0000);
    } else {
        assert(s <= 1024);
        assert(n < 0x8000_0000_0000_0000);
        assert((d + 1) * s <= n + s) by (nonlinear_arith)
            requires
                d == n / s,
                s > 0,
        ;
    }
    assert(rounded(n, s) <= d + 1);
    assert(rounded(n, s) * s <= (d + 1) * s) by (nonlinear_arith)
        requires
            rounded(n, s) <= d + 1,
            s > 0,
    ;
}

fn tenths(t: u64, unit: &str) -> (r: String)
    ensures
        r@ == tenths_text(t as nat) + unit@,
{
    let whole = u64_text(t / 10);
    let part = u64_text(t % 10);
    concat4(whole.as_str(), ".", part.as_str(), unit)
}

/// A size in bytes for people to read: in gigabytes or megabytes with one digit behind the point,
/// in whole kilobytes, or in bytes.
pub fn human_size(bytes: u64) -> (r: String)
    ensures
        r@ == size_text(bytes as nat),
{
    let b: u128 = to_double(bytes);
    if b >= 0x4000_0000 {
        let t: u128 = round_quotient(b * 10, 0x4000_0000);
        tenths(t as u64, " GB")
    } else if b >= 0x10_0000 {
        let t: u128 = round_quotient(b * 10, 0x10_0000);
        tenths(t as u64, " MB")
    } else if b >= 0x400 {
        let t: u128 = round_quotient(b, 0x400);
        concat2(u64_text(t as u64).as_str(), " KB")
    } else {
        concat2(u64_text(bytes).as_str(), " B")
    }
}

/// Every number of bytes below 2^53 is a double precision number itself.
pub proof fn small_sizes_are_exact(n: nat)
    requires
        n < 0x20_0000_0000_0000,
    ensures
        nearest_double(n) == n,
{
    assert(spacing(n) == 1);
    assert(n / 1 == n && n % 1 == 0);
}

} // verus!
