//! File names and media types.

use vstd::prelude::*;

use crate::cache::{is_random_id, new_random_id};
use crate::chat::types::Attachment;
use crate::number::{decimal, u64_text};
use crate::text::{
    ascii_lowercase, before, chars_of, concat5, copy_text, has_prefix, is_ascii_alnum, lower,
    lowercase, same_text, starts_with, text_before, text_of_range, lowered,
};

verus! {

/// The position of the last dot of a name, or -1 where there is none.
pub open spec fn last_dot(s: Seq<char>) -> int
    decreases s.len(),
{
    if s.len() == 0 {
        -1
    } else if s.last() == '.' {
        s.len() - 1
    } else {
        last_dot(s.drop_last())
    }
}

/// Whether the last dot of a file name parts its extension off: one at the very front does not.
pub open spec fn has_extension(name: Seq<char>) -> bool {
    last_dot(name) > 0 && name != ".."@
}

/// The extension of a file name.
pub open spec fn extension(name: Seq<char>) -> Option<Seq<char>> {
    if has_extension(name) {
        Some(name.skip(last_dot(name) + 1))
    } else {
        None
    }
}

/// A file name without its extension.
pub open spec fn stem(name: Seq<char>) -> Seq<char> {
    if has_extension(name) {
        name.take(last_dot(name))
    } else {
        name
    }
}

fn find_last_dot(v: &Vec<char>) -> (r: Option<usize>)
    ensures
        match r {
            Some(i) => i == last_dot(v@) && i < v.len(),
            None => last_dot(v@) == -1,
        },
{
    let mut n: usize = v.len();
    proof {
        assert(v@.take(n as int) =~= v@);
    }
    while n > 0
        invariant
            n <= v.len(),
            last_dot(v@) == last_dot(v@.take(n as int)),
        decreases n,
    {
        proof {
            assert(v@.take(n as int).last() == v@[n - 1]);
            assert(v@.take(n as int).drop_last() =~= v@.take(n - 1));
        }
        if v[n - 1] == '.' {
            return Some(n - 1);
        }
        n -= 1;
    }
    None
}

pub fn file_extension(name: &str) -> (r: Option<String>)
    ensures
        match r {
            Some(e) => extension(name@) == Some(e@),
            None => extension(name@) is None,
        },
{
    let v = chars_of(name);
    if same_text(name, "..") {
        return None;
    }
    match find_last_dot(&v) {
        Some(i) => {
            if i == 0 {
                return None;
            }
            let n: usize = v.len();
            proof {
                assert(v@.subrange(i + 1, n as int) =~= name@.skip(i + 1));
            }
            Some(text_of_range(&v, i + 1, n))
        },
        None => None,
    }
}

pub fn file_stem(name: &str) -> (r: String)
    ensures
        r@ == stem(name@),
{
    let v = chars_of(name);
    if same_text(name, "..") {
        return copy_text(name);
    }
    match find_last_dot(&v) {
        Some(i) => {
            if i == 0 {
                return copy_text(name);
            }
            proof {
                assert(v@.subrange(0, i as int) =~= name@.take(i as int));
            }
            text_of_range(&v, 0, i)
        },
        None => copy_text(name),
    }
}

/// The media type of an extension in lower case.
pub open spec fn mime_of_extension(e: Seq<char>) -> Seq<char> {
    if e == "png"@ {
        "image/png"@
    } else if e == "jpg"@ || e == "jpeg"@ {
        "image/jpeg"@
    } else if e == "gif"@ {
        "image/gif"@
    } else if e == "webp"@ {
        "image/webp"@
    } else if e == "bmp"@ {
        "image/bmp"@
    } else if e == "svg"@ {
        "image/svg+xml"@
    } else if e == "mp4"@ {
        "video/mp4"@
    } else if e == "webm"@ {
        "video/webm"@
    } else if e == "mov"@ {
        "video/quicktime"@
    } else if e == "mp3"@ {
        "audio/mpeg"@
    } else if e == "wav"@ {
        "audio/wav"@
    } else if e == "ogg"@ {
        "audio/ogg"@
    } else if e == "pdf"@ {
        "application/pdf"@
    } else if e == "txt"@ {
        "text/plain"@
    } else if e == "zip"@ {
        "application/zip"@
    } else if e == "json"@ {
        "application/json"@
    } else {
        "application/octet-stream"@
    }
}

/// The media type of a file, by the extension of its name.
pub open spec fn mime_of_name(name: Seq<char>) -> Seq<char> {
    match extension(name) {
        Some(e) => mime_of_extension(lower(e)),
        None => "application/octet-stream"@,
    }
}

/// The media type of a file, by the extension of its name.
pub fn mime_from_path(name: &str) -> (r: &'static str)
    ensures
        r@ == mime_of_name(name@),
{
    let e = match file_extension(name) {
        Some(e) => ascii_lowercase(e.as_str()),
        None => return "application/octet-stream",
    };
    let x = e.as_str();
    if same_text(x, "png") {
        "image/png"
    } else if same_text(x, "jpg") || same_text(x, "jpeg") {
        "image/jpeg"
    } else if same_text(x, "gif") {
        "image/gif"
    } else if same_text(x, "webp") {
        "image/webp"
    } else if same_text(x, "bmp") {
        "image/bmp"
    } else if same_text(x, "svg") {
        "image/svg+xml"
    } else if same_text(x, "mp4") {
        "video/mp4"
    } else if same_text(x, "webm") {
        "video/webm"
    } else if same_text(x, "mov") {
        "video/quicktime"
    } else if same_text(x, "mp3") {
        "audio/mpeg"
    } else if same_text(x, "wav") {
        "audio/wav"
    } else if same_text(x, "ogg") {
        "audio/ogg"
    } else if same_text(x, "pdf") {
        "application/pdf"
    } else if same_text(x, "txt") {
        "text/plain"
    } else if same_text(x, "zip") {
        "application/zip"
    } else if same_text(x, "json") {
        "application/json"
    } else {
        "application/octet-stream"
    }
}

/// The media type of an extension in the desktop client, which knows fewer of them.
pub open spec fn desktop_mime_of_extension(e: Seq<char>) -> Seq<char> {
    if e == "md"@ {
        "text/plain"@
    } else if e == "bmp"@ || e == "mov"@ || e == "ogg"@ {
        "application/octet-stream"@
    } else {
        mime_of_extension(e)
    }
}

/// The media type of a file in the desktop client.
pub open spec fn desktop_mime_of_name(name: Seq<char>) -> Seq<char> {
    match extension(name) {
        Some(e) => desktop_mime_of_extension(lowered(e)),
        None => desktop_mime_of_extension(lowered(Seq::empty())),
    }
}

fn desktop_mime(x: &str) -> (r: &'static str)
    ensures
        r@ == desktop_mime_of_extension(x@),
{
    if same_text(x, "md") {
        "text/plain"
    } else if same_text(x, "bmp") || same_text(x, "mov") || same_text(x, "ogg") {
        "application/octet-stream"
    } else if same_text(x, "png") {
        "image/png"
    } else if same_text(x, "jpg") || same_text(x, "jpeg") {
        "image/jpeg"
    } else if same_text(x, "gif") {
        "image/gif"
    } else if same_text(x, "webp") {
        "image/webp"
    } else if same_text(x, "svg") {
        "image/svg+xml"
    } else if same_text(x, "mp4") {
        "video/mp4"
    } else if same_text(x, "webm") {
        "video/webm"
    } else if same_text(x, "mp3") {
        "audio/mpeg"
    } else if same_text(x, "wav") {
        "audio/wav"
    } else if same_text(x, "pdf") {
        "application/pdf"
    } else if same_text(x, "txt") {
        "text/plain"
    } else if same_text(x, "zip") {
        "application/zip"
    } else if same_text(x, "json") {
        "application/json"
    } else {
        "application/octet-stream"
    }
}

/// The media type of a file in the desktop client, by the extension of its name.
pub fn desktop_mime_from_path(name: &str) -> (r: &'static str)
    ensures
        r@ == desktop_mime_of_name(name@),
{
    let e = match file_extension(name) {
        Some(e) => e,
        None => String::new(),
    };
    proof {
        if extension(name@) is None {
            assert(e@ =~= Seq::<char>::empty());
        }
    }
    let low = lowercase(e.as_str());
    desktop_mime(low.as_str())
}

// ---------------------------------------------------------------------------
// Opening a file in another program
// ---------------------------------------------------------------------------

/// The extension under which a file of a media type is opened.
pub open spec fn extension_of_mime(m: Seq<char>) -> Seq<char> {
    if m == "image/png"@ {
        "png"@
    } else if m == "image/jpeg"@ {
        "jpg"@
    } else if m == "image/gif"@ {
        "gif"@
    } else if m == "image/webp"@ {
        "webp"@
    } else if m == "image/svg+xml"@ {
        "svg"@
    } else if m == "video/mp4"@ {
        "mp4"@
    } else if m == "video/webm"@ {
        "webm"@
    } else if m == "audio/mpeg"@ {
        "mp3"@
    } else if m == "audio/wav"@ {
        "wav"@
    } else if m == "application/pdf"@ {
        "pdf"@
    } else if m == "text/plain"@ {
        "txt"@
    } else {
        "bin"@
    }
}

pub fn extension_for(m: &str) -> (r: &'static str)
    ensures
        r@ == extension_of_mime(m@),
{
    if same_text(m, "image/png") {
        "png"
    } else if same_text(m, "image/jpeg") {
        "jpg"
    } else if same_text(m, "image/gif") {
        "gif"
    } else if same_text(m, "image/webp") {
        "webp"
    } else if same_text(m, "image/svg+xml") {
        "svg"
    } else if same_text(m, "video/mp4") {
        "mp4"
    } else if same_text(m, "video/webm") {
        "webm"
    } else if same_text(m, "audio/mpeg") {
        "mp3"
    } else if same_text(m, "audio/wav") {
        "wav"
    } else if same_text(m, "application/pdf") {
        "pdf"
    } else if same_text(m, "text/plain") {
        "txt"
    } else {
        "bin"
    }
}

/// The characters that stay in the name of a temporary file.
pub open spec fn stays_in_name(c: char) -> bool {
    is_ascii_alnum(c) || c == '-' || c == '_'
}

/// The characters of a text that stay in a file name.
pub open spec fn plain_name(s: Seq<char>) -> Seq<char>
    decreases s.len(),
{
    if s.len() == 0 {
        Seq::empty()
    } else if stays_in_name(s.last()) {
        plain_name(s.drop_last()).push(s.last())
    } else {
        plain_name(s.drop_last())
    }
}

/// A text cut behind its fortieth character.
pub open spec fn at_most_40(s: Seq<char>) -> Seq<char> {
    if s.len() > 40 {
        s.take(40)
    } else {
        s
    }
}

/// What a temporary file is called: the front of the file's name, in plain characters.
pub open spec fn base_name(name: Seq<char>) -> Seq<char> {
    let front = if name.len() == 0 {
        "feditexter"@
    } else {
        before(name, '.')
    };
    let plain = at_most_40(plain_name(front));
    if plain.len() == 0 {
        "feditexter"@
    } else {
        plain
    }
}

proof fn lemma_plain_grows(s: Seq<char>, i: int)
    requires
        0 <= i <= s.len(),
    ensures
        plain_name(s.take(i)).len() <= plain_name(s).len(),
        plain_name(s).take(plain_name(s.take(i)).len() as int) == plain_name(s.take(i)),
    decreases s.len() - i,
{
    if i < s.len() {
        lemma_plain_grows(s, i + 1);
        assert(s.take(i + 1).drop_last() =~= s.take(i));
        let a = plain_name(s.take(i));
        let b = plain_name(s.take(i + 1));
        let all = plain_name(s);
        assert(b.take(a.len() as int) =~= a);
        assert(all.take(b.len() as int).take(a.len() as int) =~= all.take(a.len() as int));
    } else {
        assert(s.take(i) =~= s);
        assert(plain_name(s).take(plain_name(s).len() as int) =~= plain_name(s));
    }
}

fn shorten(s: &str) -> (r: String)
    ensures
        r@ == at_most_40(plain_name(s@)),
{
    let v = chars_of(s);
    let mut r: String = String::new();
    let mut n: usize = 0;
    let mut i: usize = 0;
    while i < v.len() && n < 40
        invariant
            i <= v.len(),
            n <= 40,
            n == r@.len(),
            r@ == plain_name(v@.take(i as int)),
        decreases v.len() - i,
    {
        proof {
            assert(v@.take(i + 1).drop_last() =~= v@.take(i as int));
        }
        let c = v[i];
        if ('0' <= c && c <= '9') || ('a' <= c && c <= 'z') || ('A' <= c && c <= 'Z') || c == '-'
            || c == '_' {
            r.push(c);
            n += 1;
        }
        i += 1;
    }
    proof {
        lemma_plain_grows(v@, i as int);
        if i == v.len() {
            assert(v@.take(i as int) =~= v@);
        }
        let all = plain_name(v@);
        if n == 40 {
            assert(all.take(40) == r@);
            if all.len() == 40 {
                assert(all.take(40) =~= all);
            }
        }
    }
    r
}

pub fn temp_base(name: &str) -> (r: String)
    ensures
        r@ == base_name(name@),
{
    let front = if name.is_empty() {
        copy_text("feditexter")
    } else {
        text_before(name, '.')
    };
    let plain = shorten(front.as_str());
    if plain.as_str().is_empty() {
        copy_text("feditexter")
    } else {
        plain
    }
}

/// The name of a temporary file for an attachment: no two are the same, and each has the extension
/// of its type.
pub fn temp_file_name(mime: &str, name: &str) -> (r: String)
    ensures
        exists|id: Seq<char>| #[trigger]
            is_random_id(id) && r@ == base_name(name@) + "-"@ + id + "."@ + extension_of_mime(mime@),
{
    let base = temp_base(name);
    let id = new_random_id();
    let r = concat5(base.as_str(), "-", id.as_str(), ".", extension_for(mime));
    proof {
        assert(is_random_id(id@));
    }
    r
}

/// The name of a temporary file for an attachment in the desktop client; `stamp` is the time, in
/// seconds since 1970.
pub fn stamped_file_name(mime: &str, name: &str, stamp: u64) -> (r: String)
    ensures
        r@ == base_name(name@) + "-"@ + decimal(stamp as nat) + "."@ + extension_of_mime(mime@),
{
    let base = temp_base(name);
    let time = u64_text(stamp);
    concat5(base.as_str(), "-", time.as_str(), ".", extension_for(mime))
}

proof fn lemma_plain_chars(s: Seq<char>)
    ensures
        forall|i: int| 0 <= i < plain_name(s).len() ==> stays_in_name(#[trigger] plain_name(s)[i]),
    decreases s.len(),
{
    if s.len() > 0 {
        lemma_plain_chars(s.drop_last());
        let rest = plain_name(s.drop_last());
        assert forall|i: int| 0 <= i < plain_name(s).len() implies stays_in_name(
            #[trigger] plain_name(s)[i],
        ) by {
            if i < rest.len() {
                assert(plain_name(s)[i] == rest[i]);
            }
        }
    }
}

/// The name of a temporary file leads nowhere else: it is made of letters, digits, dashes and
/// underscores, and is neither empty nor longer than forty characters.
pub proof fn temp_names_are_plain(name: Seq<char>)
    ensures
        0 < base_name(name).len() <= 40,
        forall|i: int| 0 <= i < base_name(name).len() ==> stays_in_name(#[trigger] base_name(name)[i]),
{
    reveal_strlit("feditexter");
    let front = if name.len() == 0 {
        "feditexter"@
    } else {
        before(name, '.')
    };
    lemma_plain_chars(front);
}

// ---------------------------------------------------------------------------
// Picking files
// ---------------------------------------------------------------------------

/// The largest file that can be sent.
pub const MAX_FILE: usize = 1_073_741_824;

/// The largest picture of a sticker.
pub const MAX_STICKER: usize = 524_288;

/// A picked file as an attachment under a fresh id. `thumbnail` is its small picture, which only an
/// image keeps.
pub fn file_attachment(name: String, bytes: Vec<u8>, thumbnail: String) -> (r: Result<
    Attachment,
    String,
>)
    ensures
        match r {
            Ok(a) => {
                &&& bytes@.len() <= 1_073_741_824
                &&& a.name == name
                &&& a.mime@ == mime_of_name(name@)
                &&& is_random_id(a.file_id@)
                &&& a.file_size == bytes@.len()
                &&& a.bytes == bytes
                &&& a.thumbnail@ == if has_prefix(mime_of_name(name@), "image/"@) {
                    thumbnail@
                } else {
                    Seq::empty()
                }
            },
            Err(e) => bytes@.len() > 1_073_741_824 && e@ == "file too large (max 1 GB)"@,
        },
{
    if bytes.len() > MAX_FILE {
        return Err(copy_text("file too large (max 1 GB)"));
    }
    let mime = mime_from_path(name.as_str());
    let shown = if starts_with(mime, "image/") {
        thumbnail
    } else {
        String::new()
    };
    Ok(
        Attachment {
            mime: copy_text(mime),
            file_id: new_random_id(),
            file_size: bytes.len() as u64,
            thumbnail: shown,
            name,
            bytes,
        },
    )
}

/// What keeps a file from becoming a sticker.
pub open spec fn sticker_fault(name: Seq<char>, bytes: Seq<u8>) -> Option<Seq<char>> {
    if bytes.len() == 0 || bytes.len() > 524_288 {
        Some("sticker image too large (max 512 KiB)"@)
    } else if !has_prefix(mime_of_name(name), "image/"@) {
        Some("stickers must be image files"@)
    } else {
        None
    }
}

/// The position of the first file that cannot become a sticker, or the number of files.
pub open spec fn first_fault(files: Seq<(String, Vec<u8>)>) -> int
    decreases files.len(),
{
    if files.len() == 0 || sticker_fault(files[0].0@, files[0].1@) is Some {
        0
    } else {
        1 + first_fault(files.drop_first())
    }
}

proof fn lemma_first_fault(files: Seq<(String, Vec<u8>)>, n: int)
    requires
        0 <= n <= files.len(),
        forall|k: int| 0 <= k < n ==> sticker_fault((#[trigger] files[k]).0@, files[k].1@) is None,
        n < files.len() ==> sticker_fault(files[n].0@, files[n].1@) is Some,
    ensures
        first_fault(files) == n,
    decreases n,
{
    if n > 0 {
        assert(sticker_fault(files[0].0@, files[0].1@) is None);
        assert forall|k: int| 0 <= k < n - 1 implies sticker_fault(
            (#[trigger] files.drop_first()[k]).0@,
            files.drop_first()[k].1@,
        ) is None by {
            assert(files.drop_first()[k] == files[k + 1]);
        }
        if n < files.len() {
            assert(files.drop_first()[n - 1] == files[n]);
        }
        lemma_first_fault(files.drop_first(), n - 1);
    }
}

fn check_sticker(name: &str, bytes: &Vec<u8>) -> (r: Option<String>)
    ensures
        match r {
            Some(e) => sticker_fault(name@, bytes@) == Some(e@),
            None => sticker_fault(name@, bytes@) is None,
        },
{
    if bytes.len() == 0 || bytes.len() > MAX_STICKER {
        return Some(copy_text("sticker image too large (max 512 KiB)"));
    }
    if !starts_with(mime_from_path(name), "image/") {
        return Some(copy_text("stickers must be image files"));
    }
    None
}

/// Picked files as stickers: name, media type and bytes of each. One file that cannot become a
/// sticker keeps all of them out.
pub fn sticker_files(files: Vec<(String, Vec<u8>)>) -> (r: Result<
    Vec<(String, String, Vec<u8>)>,
    String,
>)
    ensures
        match r {
            Ok(list) => {
                &&& first_fault(files@) == files@.len()
                &&& list@.len() == files@.len()
                &&& forall|i: int|
                    0 <= i < files@.len() ==> (#[trigger] list@[i]).0@ == stem(files@[i].0@)
                        && list@[i].1@ == mime_of_name(files@[i].0@) && list@[i].2 == files@[i].1
            },
            Err(e) => {
                let n = first_fault(files@);
                n < files@.len() && sticker_fault(files@[n].0@, files@[n].1@) == Some(e@)
            },
        },
{
    let ghost all = files@;
    let mut list: Vec<(String, String, Vec<u8>)> = Vec::new();
    for f in it: files
        invariant
            it.seq() == all,
            list@.len() == it.index(),
            forall|i: int|
                0 <= i < it.index() ==> sticker_fault((#[trigger] all[i]).0@, all[i].1@) is None,
            forall|i: int|
                0 <= i < it.index() ==> (#[trigger] list@[i]).0@ == stem(all[i].0@) && list@[i].1@
                    == mime_of_name(all[i].0@) && list@[i].2 == all[i].1,
    {
        let (name, bytes) = f;
        match check_sticker(name.as_str(), &bytes) {
            Some(e) => {
                proof {
                    lemma_first_fault(all, it.index() as int);
                }
                return Err(e);
            },
            None => {},
        }
        list.push(
            (file_stem(name.as_str()), copy_text(mime_from_path(name.as_str())), bytes),
        );
    }
    proof {
        lemma_first_fault(all, all.len() as int);
    }
    Ok(list)
}

} // verus!
