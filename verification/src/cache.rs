//! Where files are kept on disk, and what fresh files are called.

use vstd::prelude::*;
use vstd::utf8::encode_utf8;

use crate::number::{hex, hex_char, hex_len, hex_text};
use crate::text::{concat2, concat3, copy_text, ends_with, has_prefix, has_suffix, starts_with};

verus! {

/// What the sha1 crate's `Sha1` gives for some bytes.
pub uninterp spec fn sha1_of(bytes: Seq<u8>) -> Seq<u8>;

/// `sha1::Digest::digest` of `Sha1`, which is `update` and `finalize` on a fresh hasher: 20 bytes
/// that depend on the input alone.
#[verifier::external_body]
pub(crate) fn sha1_digest(bytes: &[u8]) -> (r: Vec<u8>)
    ensures
        r@ == sha1_of(bytes@),
        r@.len() == 20,
{
    <sha1::Sha1 as sha1::Digest>::digest(bytes).to_vec()
}

pub open spec fn is_lower_hex(c: char) -> bool {
    ('0' <= c <= '9') || ('a' <= c <= 'f')
}

/// A random identifier in its usual form: 32 hexadecimal digits in groups of 8, 4, 4, 4 and 12.
pub open spec fn is_random_id(s: Seq<char>) -> bool {
    &&& s.len() == 36
    &&& s[8] == '-' && s[13] == '-' && s[18] == '-' && s[23] == '-'
    &&& s[14] == '4'
    &&& forall|i: int|
        0 <= i < 36 && i != 8 && i != 13 && i != 18 && i != 23 ==> is_lower_hex(#[trigger] s[i])
}

/// `uuid::Uuid::new_v4` in text form: a random identifier of version 4, hyphenated and in lower
/// case. Which one it is rests on chance.
#[verifier::external_body]
pub(crate) fn new_random_id() -> (r: String)
    ensures
        is_random_id(r@),
{
    uuid::Uuid::new_v4().to_string()
}

/// The path of `name` inside `dir`; an absolute name stands for itself.
pub open spec fn joined_path(dir: Seq<char>, name: Seq<char>) -> Seq<char> {
    if has_prefix(name, "/"@) || dir.len() == 0 {
        name
    } else if has_suffix(dir, "/"@) {
        dir + name
    } else {
        dir + "/"@ + name
    }
}

pub fn join_path(dir: &str, name: &str) -> (r: String)
    ensures
        r@ == joined_path(dir@, name@),
{
    if starts_with(name, "/") || dir.is_empty() {
        copy_text(name)
    } else if ends_with(dir, "/") {
        concat2(dir, name)
    } else {
        concat3(dir, "/", name)
    }
}

/// The directory of files, inside the home directory or else the current one.
pub open spec fn files_dir(home: Option<Seq<char>>) -> Seq<char> {
    joined_path(
        match home {
            Some(h) => h,
            None => "."@,
        },
        ".feditexter_files"@,
    )
}

/// The directory that files are kept in. `home` is the home directory, where it is known.
pub fn files_cache_dir(home: Option<&str>) -> (r: String)
    ensures
        r@ == files_dir(
            match home {
                Some(h) => Some(h@),
                None => None,
            },
        ),
{
    match home {
        Some(h) => join_path(h, ".feditexter_files"),
        None => join_path(".", ".feditexter_files"),
    }
}

/// Where the bytes of a file lie.
pub fn cache_path_for(dir: &str, file_id: &str) -> (r: String)
    ensures
        r@ == joined_path(dir@, file_id@),
{
    join_path(dir, file_id)
}

pub open spec fn media_dir(dir: Seq<char>) -> Seq<char> {
    joined_path(dir, "media"@)
}

/// The directory of cached pictures from the network.
pub fn media_cache_dir(dir: &str) -> (r: String)
    ensures
        r@ == media_dir(dir@),
{
    join_path(dir, "media")
}

/// The name under which what an address leads to is kept.
pub open spec fn media_name(url: Seq<char>) -> Seq<char> {
    hex(sha1_of(encode_utf8(url)))
}

/// The name under which the prepared picture of a preview is kept.
pub open spec fn preview_name(url: Seq<char>) -> Seq<char> {
    "preview-"@ + media_name(url) + ".jpg"@
}

fn url_digest(url: &str) -> (r: String)
    ensures
        r@ == media_name(url@),
        r@.len() == 40,
{
    let digest = sha1_digest(url.as_bytes());
    proof {
        hex_len(digest@);
    }
    hex_text(&digest)
}

/// Where the bytes behind an address are kept: under the SHA-1 of the address, in hexadecimal.
pub fn media_cache_path(dir: &str, url: &str) -> (r: String)
    ensures
        r@ == joined_path(media_dir(dir@), media_name(url@)),
        media_name(url@).len() == 40,
{
    let media = media_cache_dir(dir);
    let name = url_digest(url);
    join_path(media.as_str(), name.as_str())
}

/// Where the prepared preview picture of an address is kept.
pub fn preview_cache_path(dir: &str, url: &str) -> (r: String)
    ensures
        r@ == joined_path(media_dir(dir@), preview_name(url@)),
        media_name(url@).len() == 40,
{
    let media = media_cache_dir(dir);
    let digest = url_digest(url);
    let name = concat3("preview-", digest.as_str(), ".jpg");
    join_path(media.as_str(), name.as_str())
}

proof fn lemma_hex_digits(bytes: Seq<u8>)
    ensures
        forall|i: int| 0 <= i < hex(bytes).len() ==> is_lower_hex(#[trigger] hex(bytes)[i]),
    decreases bytes.len(),
{
    if bytes.len() > 0 {
        lemma_hex_digits(bytes.drop_last());
        let rest = hex(bytes.drop_last());
        let b = bytes.last() as nat;
        assert(is_lower_hex(hex_char(b / 16, false)));
        assert(is_lower_hex(hex_char(b % 16, false)));
        assert forall|i: int| 0 <= i < hex(bytes).len() implies is_lower_hex(
            #[trigger] hex(bytes)[i],
        ) by {
            if i < rest.len() {
                assert(hex(bytes)[i] == rest[i]);
            }
        }
    }
}

/// The name of cached bytes is made of hexadecimal digits alone, so it names a file directly
/// inside the cache directory.
pub proof fn media_names_are_plain(url: Seq<char>)
    ensures
        forall|i: int|
            0 <= i < media_name(url).len() ==> is_lower_hex(#[trigger] media_name(url)[i]),
        !media_name(url).contains('/'),
        !media_name(url).contains('\\'),
{
    lemma_hex_digits(sha1_of(encode_utf8(url)));
}

/// Different bytes have different digits.
proof fn lemma_hex_differs(a: Seq<u8>, b: Seq<u8>)
    requires
        hex(a) == hex(b),
    ensures
        a == b,
    decreases a.len(),
{
    hex_len(a);
    hex_len(b);
    if a.len() > 0 {
        let x = hex(a.drop_last());
        let y = hex(b.drop_last());
        hex_len(a.drop_last());
        hex_len(b.drop_last());
        let n = x.len() as int;
        assert(hex(a).take(n) =~= x);
        assert(hex(b).take(n) =~= y);
        lemma_hex_differs(a.drop_last(), b.drop_last());
        assert(hex(a)[n] == hex_char(a.last() as nat / 16, false));
        assert(hex(b)[n] == hex_char(b.last() as nat / 16, false));
        assert(hex(a)[n + 1] == hex_char(a.last() as nat % 16, false));
        assert(hex(b)[n + 1] == hex_char(b.last() as nat % 16, false));
        lemma_hex_char(a.last() as nat / 16, b.last() as nat / 16);
        lemma_hex_char(a.last() as nat % 16, b.last() as nat % 16);
        assert(a.last() == b.last());
        assert(a =~= a.drop_last().push(a.last()));
        assert(b =~= b.drop_last().push(b.last()));
    } else {
        assert(a =~= b);
    }
}

proof fn lemma_hex_char(a: nat, b: nat)
    requires
        a < 16,
        b < 16,
        hex_char(a, false) == hex_char(b, false),
    ensures
        a == b,
{
    assert(hex_char(a, false) as u32 == if a < 10 {
        48 + a
    } else {
        87 + a
    });
    assert(hex_char(b, false) as u32 == if b < 10 {
        48 + b
    } else {
        87 + b
    });
}

/// What two addresses lead to is kept under one path just where the digests of the addresses agree.
pub proof fn media_paths_follow_the_digest(dir: Seq<char>, a: Seq<char>, b: Seq<char>)
    ensures
        joined_path(media_dir(dir), media_name(a)) == joined_path(media_dir(dir), media_name(b))
            <==> sha1_of(encode_utf8(a)) == sha1_of(encode_utf8(b)),
{
    let x = media_name(a);
    let y = media_name(b);
    reveal_strlit("/");
    media_names_are_plain(a);
    media_names_are_plain(b);
    assert(!has_prefix(x, "/"@)) by {
        if has_prefix(x, "/"@) {
            assert(x.subrange(0, 1)[0] == x[0]);
        }
    }
    assert(!has_prefix(y, "/"@)) by {
        if has_prefix(y, "/"@) {
            assert(y.subrange(0, 1)[0] == y[0]);
        }
    }
    let p = joined_path(media_dir(dir), x);
    let q = joined_path(media_dir(dir), y);
    if p == q {
        assert(x =~= p.skip(p.len() - x.len()));
        assert(y =~= q.skip(q.len() - y.len()));
        lemma_hex_differs(sha1_of(encode_utf8(a)), sha1_of(encode_utf8(b)));
    }
}

/// The raw bytes of one address and the prepared picture of another never share a path.
pub proof fn previews_never_collide(dir: Seq<char>, raw_url: Seq<char>, preview_url: Seq<char>)
    requires
        media_name(raw_url).len() == 40,
        media_name(preview_url).len() == 40,
    ensures
        joined_path(media_dir(dir), media_name(raw_url)) != joined_path(
            media_dir(dir),
            preview_name(preview_url),
        ),
{
    reveal_strlit("preview-");
    reveal_strlit(".jpg");
    reveal_strlit("/");
    media_names_are_plain(raw_url);
    let raw = media_name(raw_url);
    let prepared = preview_name(preview_url);
    assert(prepared.len() == 52);
    assert(raw.subrange(0, 1)[0] == raw[0]);
    assert(prepared.subrange(0, 1)[0] == prepared[0]);
    assert(prepared[0] == 'p');
    assert(!has_prefix(raw, "/"@));
    assert(!has_prefix(prepared, "/"@));
    let a = joined_path(media_dir(dir), raw);
    let b = joined_path(media_dir(dir), prepared);
    assert(a.len() != b.len());
}

// ---------------------------------------------------------------------------
// Reading through the cache
// ---------------------------------------------------------------------------

/// Cached bytes count unless a fresh copy is asked for or they are empty.
pub fn cache_hit(cached: Option<Vec<u8>>, retry: bool) -> (r: Option<Vec<u8>>)
    ensures
        r == match cached {
            Some(b) => if !retry && b@.len() > 0 {
                Some(b)
            } else {
                None
            },
            None => None,
        },
{
    match cached {
        Some(b) => {
            if !retry && b.len() > 0 {
                Some(b)
            } else {
                None
            }
        },
        None => None,
    }
}

/// What a download comes to: the bytes of a successful answer that is not empty. `status` is the
/// answer's status line.
pub fn fetched_bytes(success: bool, status: &str, bytes: Vec<u8>) -> (r: Result<Vec<u8>, String>)
    ensures
        match r {
            Ok(b) => success && bytes@.len() > 0 && b == bytes,
            Err(e) => if !success {
                e@ == "status "@ + status@
            } else {
                bytes@.len() == 0 && e@ == "empty response"@
            },
        },
{
    if !success {
        return Err(concat2("status ", status));
    }
    if bytes.len() == 0 {
        return Err(copy_text("empty response"));
    }
    Ok(bytes)
}

} // verus!
