//! One-time passwords (RFC 6238) from a shared secret in base32.

use vstd::prelude::*;
use vstd::utf8::encode_utf8;

use crate::number::{decimal, u64_text};

verus! {

/// What the hmac crate's HMAC-SHA1 gives for a key and a message.
pub uninterp spec fn hmac_sha1(key: Seq<u8>, message: Seq<u8>) -> Seq<u8>;

/// `hmac::Mac` on `Hmac<Sha1>`: `new_from_slice`, which takes a key of any length, `update` and
/// `finalize`. The result has 20 bytes and depends on the key and the message alone.
#[verifier::external_body]
pub(crate) fn hmac_sha1_digest(key: &Vec<u8>, message: &Vec<u8>) -> (r: Vec<u8>)
    ensures
        r@ == hmac_sha1(key@, message@),
        r@.len() == 20,
{
    let mut mac = <hmac::Hmac<sha1::Sha1> as hmac::Mac>::new_from_slice(key).expect("hmac key");
    hmac::Mac::update(&mut mac, message);
    hmac::Mac::finalize(mac).into_bytes().to_vec()
}

/// The value of a base32 digit; other bytes have none.
pub open spec fn base32_value(b: u8) -> Option<nat> {
    if 65 <= b <= 90 {
        Some((b - 65) as nat)
    } else if 97 <= b <= 122 {
        Some((b - 97) as nat)
    } else if 50 <= b <= 55 {
        Some((b - 50 + 26) as nat)
    } else {
        None
    }
}

/// The state of a base32 decoder: the bytes so far, and the bits that do not make a byte yet, as a
/// number and how many they are.
pub open spec fn base32_scan(s: Seq<u8>) -> (Seq<u8>, nat, nat)
    decreases s.len(),
{
    if s.len() == 0 {
        (Seq::empty(), 0, 0)
    } else {
        let (done, bits, n) = base32_scan(s.drop_last());
        match base32_value(s.last()) {
            None => (done, bits, n),
            Some(v) => {
                let all = bits * 32 + v;
                if n + 5 >= 8 {
                    let rest = (n - 3) as nat;
                    (done.push((all / pow2(rest)) as u8), all % pow2(rest), rest)
                } else {
                    (done, all, n + 5)
                }
            },
        }
    }
}

/// Two to the power of a small number.
pub open spec fn pow2(n: nat) -> nat {
    if n == 0 {
        1
    } else if n == 1 {
        2
    } else if n == 2 {
        4
    } else if n == 3 {
        8
    } else if n == 4 {
        16
    } else if n == 5 {
        32
    } else if n == 6 {
        64
    } else {
        128
    }
}

/// The bytes that a base32 text spells; characters that are no base32 digit are passed over.
pub open spec fn base32_bytes(s: Seq<u8>) -> Seq<u8> {
    base32_scan(s).0
}

fn read_digit(b: u8) -> (r: Option<u32>)
    ensures
        match r {
            Some(v) => base32_value(b) == Some(v as nat) && v < 32,
            None => base32_value(b) is None,
        },
{
    if 65 <= b && b <= 90 {
        Some((b - 65) as u32)
    } else if 97 <= b && b <= 122 {
        Some((b - 97) as u32)
    } else if 50 <= b && b <= 55 {
        Some((b - 50 + 26) as u32)
    } else {
        None
    }
}

fn small_power(n: u32) -> (p: u32)
    requires
        n < 8,
    ensures
        p == pow2(n as nat),
        1 <= p <= 128,
{
    if n == 0 {
        1
    } else if n == 1 {
        2
    } else if n == 2 {
        4
    } else if n == 3 {
        8
    } else if n == 4 {
        16
    } else if n == 5 {
        32
    } else if n == 6 {
        64
    } else {
        128
    }
}

/// Decodes base32 and passes over what does not belong to it.
pub fn base32_decode(s: &str) -> (r: Vec<u8>)
    ensures
        r@ == base32_bytes(encode_utf8(s@)),
{
    let v = s.as_bytes();
    let mut done: Vec<u8> = Vec::new();
    let mut bits: u32 = 0;
    let mut n: u32 = 0;
    let mut i: usize = 0;
    while i < v.len()
        invariant
            i <= v.len(),
            v@ == encode_utf8(s@),
            n < 8,
            bits < pow2(n as nat),
            (done@, bits as nat, n as nat) == base32_scan(v@.take(i as int)),
        decreases v.len() - i,
    {
        proof {
            assert(v@.take(i + 1).drop_last() =~= v@.take(i as int));
            assert(v@.take(i + 1).last() == v@[i as int]);
        }
        match read_digit(v[i]) {
            Some(d) => {
                let all: u32 = bits * 32 + d;
                if n + 5 >= 8 {
                    let rest: u32 = n - 3;
                    let p: u32 = small_power(rest);
                    proof {
                        assert(pow2(n as nat) == 8 * pow2(rest as nat));
                        assert(all < 256 * p);
                        assert(all / p < 256) by (nonlinear_arith)
                            requires
                                all < 256 * p,
                                p > 0,
                        ;
                        assert(all % p < p) by (nonlinear_arith)
                            requires
                                p > 0,
                        ;
                    }
                    done.push((all / p) as u8);
                    bits = all % p;
                    n = rest;
                } else {
                    proof {
                        assert(pow2((n + 5) as nat) == 32 * pow2(n as nat));
                    }
                    bits = all;
                    n = n + 5;
                }
            },
            None => {},
        }
        i += 1;
    }
    proof {
        assert(v@.take(i as int) =~= v@);
    }
    done
}

/// A number as eight bytes, the most significant first.
pub open spec fn big_endian(n: u64) -> Seq<u8> {
    seq![
        (n / 0x100_0000_0000_0000 % 256) as u8,
        (n / 0x1_0000_0000_0000 % 256) as u8,
        (n / 0x100_0000_0000 % 256) as u8,
        (n / 0x1_0000_0000 % 256) as u8,
        (n / 0x100_0000 % 256) as u8,
        (n / 0x1_0000 % 256) as u8,
        (n / 0x100 % 256) as u8,
        (n % 256) as u8,
    ]
}

fn be_bytes(n: u64) -> (r: Vec<u8>)
    ensures
        r@ == big_endian(n),
{
    let mut r: Vec<u8> = Vec::new();
    r.push((n / 0x100_0000_0000_0000 % 256) as u8);
    r.push((n / 0x1_0000_0000_0000 % 256) as u8);
    r.push((n / 0x100_0000_0000 % 256) as u8);
    r.push((n / 0x1_0000_0000 % 256) as u8);
    r.push((n / 0x100_0000 % 256) as u8);
    r.push((n / 0x1_0000 % 256) as u8);
    r.push((n / 0x100 % 256) as u8);
    r.push((n % 256) as u8);
    proof {
        assert(r@ =~= big_endian(n));
    }
    r
}

/// The number that four bytes of a digest make, without its top bit; where they stand is said by
/// the last byte of the digest.
pub open spec fn truncated(digest: Seq<u8>) -> nat {
    let o = digest[19] as int % 16;
    ((digest[o] as nat % 128) * 0x100_0000 + digest[o + 1] as nat * 0x1_0000 + digest[o + 2] as nat
        * 0x100 + digest[o + 3] as nat)
}

/// A number below a million in six digits.
pub open spec fn six_digits(n: nat) -> Seq<char> {
    let d = decimal(n);
    Seq::new((6 - d.len()) as nat, |i: int| '0') + d
}

/// The password that a digest stands for.
pub open spec fn password(digest: Seq<u8>) -> Seq<char> {
    six_digits(truncated(digest) % 1_000_000)
}

proof fn lemma_decimal_len(n: nat)
    ensures
        n < 10 ==> decimal(n).len() == 1,
        10 <= n < 100 ==> decimal(n).len() == 2,
        100 <= n < 1000 ==> decimal(n).len() == 3,
        1000 <= n < 10000 ==> decimal(n).len() == 4,
        10000 <= n < 100000 ==> decimal(n).len() == 5,
        100000 <= n < 1000000 ==> decimal(n).len() == 6,
    decreases n,
{
    if n >= 10 {
        lemma_decimal_len(n / 10);
    }
}

/// Every password has six digits.
pub proof fn passwords_have_six_digits(digest: Seq<u8>)
    requires
        digest.len() == 20,
    ensures
        password(digest).len() == 6,
{
    lemma_decimal_len(truncated(digest) % 1_000_000);
}

fn pad_six(n: u32) -> (r: String)
    requires
        n < 1_000_000,
    ensures
        r@ == six_digits(n as nat),
{
    proof {
        lemma_decimal_len(n as nat);
    }
    let d = u64_text(n as u64);
    let mut r: String = String::new();
    let zeros: u32 = if n < 10 {
        5
    } else if n < 100 {
        4
    } else if n < 1000 {
        3
    } else if n < 10000 {
        2
    } else if n < 100000 {
        1
    } else {
        0
    };
    let mut i: u32 = 0;
    while i < zeros
        invariant
            i <= zeros,
            r@ == Seq::new(i as nat, |k: int| '0'),
        decreases zeros - i,
    {
        r.push('0');
        i += 1;
        proof {
            assert(r@ =~= Seq::new(i as nat, |k: int| '0'));
        }
    }
    r.push_str(d.as_str());
    proof {
        assert(r@ =~= six_digits(n as nat));
    }
    r
}

/// The password that a digest of 20 bytes stands for.
pub fn digest_password(digest: &Vec<u8>) -> (r: String)
    requires
        digest@.len() == 20,
    ensures
        r@ == password(digest@),
{
    let o: usize = (digest[19] % 16) as usize;
    let a: u32 = (digest[o] % 128) as u32;
    let b: u32 = digest[o + 1] as u32;
    let c: u32 = digest[o + 2] as u32;
    let d: u32 = digest[o + 3] as u32;
    let code: u32 = a * 0x100_0000 + b * 0x1_0000 + c * 0x100 + d;
    pad_six(code % 1_000_000)
}

/// The password of a secret at a time, in seconds since 1970: it changes every half minute.
pub fn totp_at(secret_base32: &str, seconds: u64) -> (r: String)
    ensures
        r@ == password(
            hmac_sha1(base32_bytes(encode_utf8(secret_base32@)), big_endian(seconds / 30)),
        ),
{
    let key = base32_decode(secret_base32);
    let digest = hmac_sha1_digest(&key, &be_bytes(seconds / 30));
    digest_password(&digest)
}

/// The password does not change within a half minute.
pub proof fn password_lasts_half_a_minute(a: u64, b: u64)
    requires
        a / 30 == b / 30,
    ensures
        big_endian(a / 30) == big_endian(b / 30),
{
}

} // verus!
