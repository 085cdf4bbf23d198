//! One-time passwords, times, addresses of servers, and what goes into requests.

use vstd::prelude::*;

use crate::data_url::{form_byte, form_encoded};
use crate::number::{decimal, hex_byte};
use crate::server::{is_local, names_port, socket_url, with_port};
use crate::text::{before, has_prefix, trim_back_char};
use crate::time::{day_of, desktop_pattern, server_time, time_label, time_read, time_written};
use crate::totp::{
    base32_bytes, base32_scan, base32_value, big_endian, password, pow2, six_digits, truncated,
};

verus! {

/// The number that some bytes write, the greatest digit first.
pub open spec fn bytes_number(b: Seq<u8>) -> nat
    decreases b.len(),
{
    if b.len() == 0 {
        0
    } else {
        bytes_number(b.drop_last()) * 256 + b.last() as nat
    }
}

/// The number that the letters of a secret write, and how many letters there are.
pub open spec fn letters_number(s: Seq<u8>) -> (nat, nat)
    decreases s.len(),
{
    if s.len() == 0 {
        (0, 0)
    } else {
        let (n, k) = letters_number(s.drop_last());
        let b = s.last() as int;
        if 'A' as int <= b <= 'Z' as int {
            ((n * 32 + (b - 'A' as int)) as nat, k + 1)
        } else if 'a' as int <= b <= 'z' as int {
            ((n * 32 + (b - 'a' as int)) as nat, k + 1)
        } else if '2' as int <= b <= '7' as int {
            ((n * 32 + 26 + (b - '2' as int)) as nat, k + 1)
        } else {
            (n, k)
        }
    }
}

proof fn lemma_base32(s: Seq<u8>)
    ensures
        base32_scan(s).2 < 8,
        base32_scan(s).1 < pow2(base32_scan(s).2),
        8 * base32_scan(s).0.len() + base32_scan(s).2 == 5 * letters_number(s).1,
        bytes_number(base32_scan(s).0) * pow2(base32_scan(s).2) + base32_scan(s).1
            == letters_number(s).0,
    decreases s.len(),
{
    if s.len() > 0 {
        lemma_base32(s.drop_last());
        let (done, bits, n) = base32_scan(s.drop_last());
        if base32_value(s.last()) is Some {
            let v = base32_value(s.last())->0;
            assert(v < 32);
            let all = bits * 32 + v;
            let d = bytes_number(done);
            if n + 5 >= 8 {
                let rest = (n - 3) as nat;
                let p = pow2(rest);
                let top = all / p;
                assert(pow2(n) == 8 * p);
                assert(all < 256 * p);
                assert(top < 256 && all == top * p + all % p && all % p < p) by (nonlinear_arith)
                    requires
                        all < 256 * p,
                        p > 0,
                        top == all / p,
                ;
                let after = done.push(top as u8);
                assert(after.drop_last() =~= done);
                assert(bytes_number(after) == d * 256 + top);
                assert((d * 256 + top) * p + all % p == (d * (8 * p) + bits) * 32 + v)
                    by (nonlinear_arith)
                    requires
                        all == top * p + all % p,
                        all == bits * 32 + v,
                ;
            } else {
                assert(pow2(n + 5) == 32 * pow2(n));
                let q = pow2(n);
                assert(d * (32 * q) + (bits * 32 + v) == (d * q + bits) * 32 + v) by (nonlinear_arith);
            }
        }
    }
}

/// A secret stands for the bits of its letters: its bytes write the same number, but for the few bits
/// that fill no byte. Case does not matter, and what is no letter is passed over.
pub proof fn secrets_are_read(s: Seq<u8>)
    ensures
        base32_bytes(s).len() == 5 * letters_number(s).1 / 8,
        exists|left: nat|
            left < 8 && 8 * base32_bytes(s).len() + left == 5 * letters_number(s).1 && bytes_number(
                base32_bytes(s),
            ) == letters_number(s).0 / #[trigger] pow2(left),
{
    lemma_base32(s);
    let left = base32_scan(s).2;
    let p = pow2(left);
    let d = bytes_number(base32_bytes(s));
    let rest = base32_scan(s).1;
    assert((d * p + rest) / p == d) by (nonlinear_arith)
        requires
            rest < p,
            p > 0,
    ;
}

/// The eight bytes of a step write that step.
pub proof fn steps_are_written(n: u64)
    ensures
        big_endian(n).len() == 8,
        bytes_number(big_endian(n)) == n,
{
    reveal_with_fuel(bytes_number, 9);
    let b = big_endian(n);
    let b7 = b.drop_last();
    let b6 = b7.drop_last();
    let b5 = b6.drop_last();
    let b4 = b5.drop_last();
    let b3 = b4.drop_last();
    let b2 = b3.drop_last();
    let b1 = b2.drop_last();
    assert(bytes_number(b1.drop_last()) == 0);
    assert(bytes_number(b1) == b[0] as nat);
    assert(bytes_number(b2) == bytes_number(b1) * 256 + b[1] as nat);
    assert(bytes_number(b3) == bytes_number(b2) * 256 + b[2] as nat);
    assert(bytes_number(b4) == bytes_number(b3) * 256 + b[3] as nat);
    assert(bytes_number(b5) == bytes_number(b4) * 256 + b[4] as nat);
    assert(bytes_number(b6) == bytes_number(b5) * 256 + b[5] as nat);
    assert(bytes_number(b7) == bytes_number(b6) * 256 + b[6] as nat);
    assert(bytes_number(b) == bytes_number(b7) * 256 + b[7] as nat);
    assert(n as nat / 0x100 * 0x100 + n as nat % 256 == n);
    assert(n as nat / 0x1_0000 == n as nat / 0x100 / 256);
    assert(n as nat / 0x100_0000 == n as nat / 0x1_0000 / 256);
    assert(n as nat / 0x1_0000_0000 == n as nat / 0x100_0000 / 256);
    assert(n as nat / 0x100_0000_0000 == n as nat / 0x1_0000_0000 / 256);
    assert(n as nat / 0x1_0000_0000_0000 == n as nat / 0x100_0000_0000 / 256);
    assert(n as nat / 0x100_0000_0000_0000 == n as nat / 0x1_0000_0000_0000 / 256);
}

/// A password is made of the four bytes of the digest that its last one points to, without their first
/// bit, and of the last six digits of that number.
pub proof fn passwords_come_from_the_digest(digest: Seq<u8>, o: int)
    requires
        digest.len() == 20,
        o == digest[19] as int % 16,
    ensures
        truncated(digest) == bytes_number(digest.subrange(o, o + 4)) % 0x8000_0000,
        password(digest) == six_digits(truncated(digest) % 1_000_000),
{
    let four = digest.subrange(o, o + 4);
    reveal_with_fuel(bytes_number, 5);
    let three = four.drop_last();
    let two = three.drop_last();
    let one = two.drop_last();
    assert(bytes_number(one.drop_last()) == 0);
    assert(bytes_number(one) == four[0] as nat);
    assert(bytes_number(two) == bytes_number(one) * 256 + four[1] as nat);
    assert(bytes_number(three) == bytes_number(two) * 256 + four[2] as nat);
    assert(bytes_number(four) == bytes_number(three) * 256 + four[3] as nat);
    let a = digest[o] as nat;
    assert(a == a / 128 * 128 + a % 128);
    assert(bytes_number(four) == (a / 128) * 0x8000_0000 + truncated(digest));
    assert(truncated(digest) < 0x8000_0000);
    let h = a / 128;
    let t = truncated(digest);
    assert((h * 0x8000_0000 + t) % 0x8000_0000 == t) by (nonlinear_arith)
        requires
            t < 0x8000_0000,
    ;
}

/// A number of up to six digits is written with noughts before it.
pub proof fn numbers_are_filled_up(n: nat)
    requires
        decimal(n).len() <= 6,
    ensures
        six_digits(n).len() == 6,
        six_digits(n).skip(6 - decimal(n).len()) == decimal(n),
        forall|i: int| 0 <= i < 6 - decimal(n).len() ==> #[trigger] six_digits(n)[i] == '0',
{
    assert(six_digits(n).skip(6 - decimal(n).len()) =~= decimal(n));
}

/// A message shows the time ten hours after the one that its server gave, on a clock of twelve hours;
/// what cannot be read is shown as it is.
pub proof fn messages_show_their_time(ts: Seq<char>, t: int, s: Seq<char>)
    ensures
        time_read(ts, "%Y-%m-%dT%H:%M:%S"@) is None ==> time_label(ts) == ts,
        time_read(ts, "%Y-%m-%dT%H:%M:%S"@) == Some(t) && t + 10 * 60 * 60 <= i64::MAX && time_written(
            t + 10 * 60 * 60,
            "%I:%M %p"@,
        ) == Some(s) ==> time_label(ts) == s,
{
}

/// A server gives its times with a `T` or a blank between the day and the hour.
pub proof fn server_times_are_read(text: Seq<char>, t: int)
    ensures
        time_read(text, "%Y-%m-%dT%H:%M:%S"@) == Some(t) ==> server_time(text) == Some(t),
        time_read(text, "%Y-%m-%dT%H:%M:%S"@) is None && time_read(text, "%Y-%m-%d %H:%M:%S"@) == Some(t)
            ==> server_time(text) == Some(t),
{
}

/// A time of today is shown without its day, and any other with it.
pub proof fn other_days_are_named(local: int, today: int)
    ensures
        today * 86_400 <= local < (today + 1) * 86_400 ==> desktop_pattern(local, today) == "%H:%M"@,
        !(today * 86_400 <= local < (today + 1) * 86_400) ==> desktop_pattern(local, today)
            == "%d %b %H:%M"@,
{
    assert(day_of(local) == today <==> today * 86_400 <= local < (today + 1) * 86_400);
}

/// News come over a connection of the same kind as the server: an encrypted one where the server is
/// reached by one.
pub proof fn news_come_as_safely(server: Seq<char>, host: Seq<char>)
    ensures
        trim_back_char(server, '/') == "https://"@ + host ==> socket_url(server) == "wss://"@ + host
            + "/api/ws"@,
        trim_back_char(server, '/') == "http://"@ + host ==> socket_url(server) == "ws://"@ + host
            + "/api/ws"@,
{
    reveal_strlit("https://");
    reveal_strlit("http://");
    let secure = "https://"@;
    let plain = "http://"@;
    assert((secure + host).take(secure.len() as int) =~= secure);
    assert((plain + host).take(plain.len() as int) =~= plain);
    assert((secure + host).skip(secure.len() as int) =~= host);
    assert((plain + host).skip(plain.len() as int) =~= host);
    assert((plain + host)[4] == ':');
    assert(secure[4] == 's');
    if has_prefix(plain + host, secure) {
        assert((plain + host).take(secure.len() as int)[4] == secure[4]);
    }
}

/// A server on this machine is reached at its usual port unless another one is named; any other server
/// is reached as it was named.
pub proof fn local_servers_have_a_port(host: Seq<char>)
    ensures
        host.contains(':') && host.len() > 0 && host[0] != '[' ==> with_port(host) == host,
        !is_local(before(host, ':')) ==> with_port(host) == host,
        !host.contains(':') && host == "localhost"@ && before(host, ':') == host ==> with_port(host)
            == "localhost"@ + ":3000"@,
{
    reveal_strlit("[");
    if host.contains(':') && host.len() > 0 && host[0] != '[' {
        if has_prefix(host, "["@) {
            assert(host.take(1)[0] == "["@[0]);
        }
        assert(names_port(host));
    }
}

proof fn lemma_form_step(a: Seq<u8>, b: Seq<u8>)
    ensures
        form_encoded(a + b) == form_encoded(a) + form_encoded(b),
    decreases b.len(),
{
    if b.len() == 0 {
        assert(a + b =~= a);
        assert(form_encoded(a) + form_encoded(b) =~= form_encoded(a));
    } else {
        assert((a + b).drop_last() =~= a + b.drop_last());
        lemma_form_step(a, b.drop_last());
        assert(form_encoded(a + b) =~= form_encoded(a) + form_encoded(b));
    }
}

/// A text is written into a request byte by byte: letters and digits as they are, a blank as `+`, and
/// any other byte but `*`, `-`, `.` and `_` as `%` and its two digits.
pub proof fn bytes_go_into_requests(a: Seq<u8>, b: Seq<u8>, c: u8)
    ensures
        form_encoded(a + b) == form_encoded(a) + form_encoded(b),
        form_encoded(seq![c]) == form_byte(c),
        'a' as int <= c <= 'z' as int || 'A' as int <= c <= 'Z' as int || '0' as int <= c <= '9' as int
            ==> form_byte(c) == seq![c as char],
        c == ' ' as u8 ==> form_byte(c) == seq!['+'],
        c == '&' as u8 || c == '=' as u8 || c == '%' as u8 || c == '+' as u8 || c == '#' as u8 || c >= 128
            ==> form_byte(c) == seq!['%'] + hex_byte(c, true),
{
    lemma_form_step(a, b);
    assert(seq![c].drop_last() =~= Seq::empty());
    assert(form_encoded(seq![c].drop_last()) =~= Seq::empty());
    assert(form_encoded(seq![c]) =~= form_byte(c));
}

} // verus!
