//! `data:` URLs and the two encodings that requests carry bytes and queries in.

use vstd::prelude::*;
use vstd::utf8::encode_utf8;

use crate::number::hex_byte;
use crate::text::{
    chars_of, concat2, contains_text, find_from, first_at, occurs_at, text_of_range,
};

verus! {

/// The text that the base64 crate's `STANDARD` engine gives for some bytes.
pub uninterp spec fn base64_text(bytes: Seq<u8>) -> Seq<char>;

/// The bytes that the base64 crate's `STANDARD` engine reads from a text, if it takes the text.
pub uninterp spec fn base64_bytes(text: Seq<char>) -> Option<Seq<u8>>;

/// `base64::Engine::encode` of `STANDARD`: a function of the bytes, and one that `decode` of the
/// same engine undoes.
#[verifier::external_body]
pub(crate) fn base64_encode(bytes: &Vec<u8>) -> (r: String)
    ensures
        r@ == base64_text(bytes@),
        base64_bytes(r@) == Some(bytes@),
{
    base64::Engine::encode(&base64::engine::general_purpose::STANDARD, bytes)
}

/// `base64::Engine::decode` of `STANDARD`: a function of the text, with no bytes where the text is
/// not base64.
#[verifier::external_body]
pub(crate) fn base64_decode(text: &str) -> (r: Option<Vec<u8>>)
    ensures
        match r {
            Some(b) => base64_bytes(text@) == Some(b@),
            None => base64_bytes(text@) is None,
        },
{
    base64::Engine::decode(&base64::engine::general_purpose::STANDARD, text).ok()
}

/// The mark between the header of a `data:` URL and its payload.
pub open spec fn base64_mark() -> Seq<char> {
    ";base64,"@
}

/// The payload of a `data:` URL: what stands behind its first `;base64,`.
pub open spec fn payload_of(url: Seq<char>) -> Option<Seq<char>> {
    if contains_text(url, base64_mark()) {
        let i = choose|i: int| first_at(url, base64_mark(), i);
        Some(url.skip(i + base64_mark().len()))
    } else {
        None
    }
}

/// What a `data:` URL holds, if it has a base64 payload.
pub open spec fn data_url_content(url: Seq<char>) -> Option<Seq<u8>> {
    match payload_of(url) {
        Some(p) => base64_bytes(p),
        None => None,
    }
}

pub proof fn lemma_first_at_unique(s: Seq<char>, p: Seq<char>, i: int, j: int)
    requires
        first_at(s, p, i),
        first_at(s, p, j),
    ensures
        i == j,
{
}

/// The text behind the first `;base64,` of `url`.
pub fn data_url_payload(url: &str) -> (r: Option<String>)
    ensures
        match r {
            Some(p) => payload_of(url@) == Some(p@),
            None => payload_of(url@) is None,
        },
{
    let v = chars_of(url);
    let mark = chars_of(";base64,");
    match find_from(&v, &mark, 0) {
        Some(i) => {
            proof {
                assert(occurs_at(v@, mark@, i as int));
                assert(first_at(url@, base64_mark(), i as int));
                assert(contains_text(url@, base64_mark()));
                let k = choose|k: int| first_at(url@, base64_mark(), k);
                lemma_first_at_unique(url@, base64_mark(), i as int, k);
                assert(v@.subrange(i + mark@.len(), v@.len() as int) =~= url@.skip(
                    i + base64_mark().len(),
                ));
            }
            let to: usize = v.len();
            let from: usize = i + mark.len();
            Some(text_of_range(&v, from, to))
        },
        None => None,
    }
}

/// The bytes of a `data:` URL; nothing where it has no base64 payload.
pub fn data_url_bytes(url: &str) -> (r: Option<Vec<u8>>)
    ensures
        match r {
            Some(b) => data_url_content(url@) == Some(b@),
            None => data_url_content(url@) is None,
        },
{
    match data_url_payload(url) {
        Some(p) => base64_decode(p.as_str()),
        None => None,
    }
}

/// The bytes of an attachment that there is something to show of.
pub fn attachment_bytes(url: &str) -> (r: Option<Vec<u8>>)
    ensures
        match r {
            Some(b) => data_url_content(url@) == Some(b@) && b@.len() > 0,
            None => match data_url_content(url@) {
                Some(c) => c.len() == 0,
                None => true,
            },
        },
{
    match data_url_bytes(url) {
        Some(b) => {
            if b.len() == 0 {
                None
            } else {
                Some(b)
            }
        },
        None => None,
    }
}

/// A `data:` URL of a type that holds `bytes`.
pub open spec fn data_url(header: Seq<char>, bytes: Seq<u8>) -> Seq<char> {
    header + base64_text(bytes)
}

/// Writes `bytes` behind `header`, which ends in the base64 mark.
pub fn make_data_url(header: &str, bytes: &Vec<u8>) -> (r: String)
    ensures
        r@ == data_url(header@, bytes@),
        base64_bytes(base64_text(bytes@)) == Some(bytes@),
{
    let data = base64_encode(bytes);
    concat2(header, data.as_str())
}

/// A read of a `data:` URL gives back the bytes that were written into it, whatever its type, as
/// long as no semicolon stands in that type.
pub proof fn data_url_round_trip(kind: Seq<char>, bytes: Seq<u8>)
    requires
        base64_bytes(base64_text(bytes)) == Some(bytes),
        !kind.contains(';'),
    ensures
        data_url_content(data_url(kind + base64_mark(), bytes)) == Some(bytes),
{
    let mark = base64_mark();
    let url = data_url(kind + mark, bytes);
    let n = kind.len() as int;
    reveal_strlit(";base64,");
    assert(url.subrange(n, n + mark.len()) =~= mark);
    assert forall|j: int| 0 <= j < n implies !occurs_at(url, mark, j) by {
        assert(url[j] == kind[j]);
        if occurs_at(url, mark, j) {
            assert(url.subrange(j, j + mark.len())[0] == mark[0]);
            assert(kind.contains(';'));
        }
    }
    assert(first_at(url, mark, n));
    assert(contains_text(url, mark));
    let k = choose|k: int| first_at(url, mark, k);
    lemma_first_at_unique(url, mark, n, k);
    assert(url.skip(n + mark.len()) =~= base64_text(bytes));
}

// ---------------------------------------------------------------------------
// Query strings
// ---------------------------------------------------------------------------

/// The bytes that a form-encoded query keeps as they are.
pub open spec fn form_plain(b: u8) -> bool {
    ||| b == 42
    ||| b == 45
    ||| b == 46
    ||| 48 <= b <= 57
    ||| 65 <= b <= 90
    ||| b == 95
    ||| 97 <= b <= 122
}

/// One byte of a form-encoded query: itself, `+` for a space, or `%` and two hexadecimal digits.
pub open spec fn form_byte(b: u8) -> Seq<char> {
    if form_plain(b) {
        seq![b as char]
    } else if b == 32 {
        seq!['+']
    } else {
        seq!['%'] + hex_byte(b, true)
    }
}

/// Bytes in the `application/x-www-form-urlencoded` form.
pub open spec fn form_encoded(bytes: Seq<u8>) -> Seq<char>
    decreases bytes.len(),
{
    if bytes.len() == 0 {
        Seq::empty()
    } else {
        form_encoded(bytes.drop_last()) + form_byte(bytes.last())
    }
}

/// `url::form_urlencoded::byte_serialize` on the UTF-8 bytes of a text, with the pieces put
/// together: letters, digits and `*-._` stay, a space becomes `+`, and every other byte a percent
/// sign with two upper case hexadecimal digits.
#[verifier::external_body]
pub(crate) fn form_encode(text: &str) -> (r: String)
    ensures
        r@ == form_encoded(encode_utf8(text@)),
{
    url::form_urlencoded::byte_serialize(text.as_bytes()).collect::<String>()
}

} // verus!
