//! Previews of links: which hosts may be asked, how pages and answers are read.

use vstd::prelude::*;
use vstd::utf8::{decode_utf8, encode_utf8, encode_utf8_decode_utf8, is_char_boundary};

use crate::data_url::{form_encode, form_encoded};
use crate::json::{
    json_has, json_length, json_length_at, json_present, json_text, json_text_at, json_text_or,
    text_or,
};
use crate::links::{is_link, is_web_link};
use crate::number::{
    decimal, decimals_are_digits, decimals_are_read_back, parse_u64, parsed, u64_text,
};
use crate::text::{
    before, chars_of, concat2, concat3, concat4, concat5, contains_text, copy_text, ends_with,
    find_from, first_at, found_texts_stand_there, has_prefix, has_suffix, lower, occurs_at, same_ignoring_ascii_case,
    same_text, split, split_at_char, splitting_goes_piece_by_piece, starts_with, text_before, text_contains, text_of_range, texts,
    texts_are_found_where_they_stand,
    trim, trim_front_char, trim_start_char, trim_text,
};

verus! {

// ---------------------------------------------------------------------------
// Private addresses
// ---------------------------------------------------------------------------

/// The piece of an address between its first `://` and the next one; all of it where it has none.
pub open spec fn behind_scheme(url: Seq<char>) -> Seq<char> {
    let mark = "://"@;
    if contains_text(url, mark) {
        let i = choose|i: int| first_at(url, mark, i);
        let rest = url.skip(i + mark.len());
        if contains_text(rest, mark) {
            rest.take(choose|j: int| first_at(rest, mark, j))
        } else {
            rest
        }
    } else {
        url
    }
}

/// The host of an address, without port and brackets.
pub open spec fn host_of(url: Seq<char>) -> Seq<char> {
    before(before(trim_front_char(before(behind_scheme(url), '/'), '['), ']'), ':')
}

/// A part of an IPv4 address: a number up to 255 in up to three digits, without a leading zero.
pub open spec fn octet(s: Seq<char>) -> Option<nat> {
    if 1 <= s.len() <= 3 && s[0] != '+' && (s.len() > 1 ==> s[0] != '0') {
        parsed(s, 255)
    } else {
        None
    }
}

/// The four parts of an IPv4 address.
pub open spec fn ipv4(s: Seq<char>) -> Option<(nat, nat, nat, nat)> {
    let p = split(s, '.');
    if p.len() == 4 {
        match (octet(p[0]), octet(p[1]), octet(p[2]), octet(p[3])) {
            (Some(a), Some(b), Some(c), Some(d)) => Some((a, b, c, d)),
            _ => None,
        }
    } else {
        None
    }
}

/// Addresses that only lead somewhere on this machine or network.
pub open spec fn is_private_ipv4(a: (nat, nat, nat, nat)) -> bool {
    ||| a.0 == 127
    ||| a.0 == 10
    ||| (a.0 == 172 && 16 <= a.1 <= 31)
    ||| (a.0 == 192 && a.1 == 168)
    ||| (a.0 == 169 && a.1 == 254)
}

/// Whether an address leads to this machine or network.
pub open spec fn is_private(url: Seq<char>) -> bool {
    let host = host_of(url);
    ||| host.len() == 0
    ||| lower(host) == lower("localhost"@)
    ||| (ipv4(host) matches Some(a) && is_private_ipv4(a))
}

proof fn lemma_first_unique(s: Seq<char>, p: Seq<char>, i: int)
    requires
        first_at(s, p, i),
    ensures
        contains_text(s, p),
        (choose|k: int| first_at(s, p, k)) == i,
{
    let k = choose|k: int| first_at(s, p, k);
    if k < i {
        assert(!occurs_at(s, p, k));
    }
    if i < k {
        assert(!occurs_at(s, p, i));
    }
}

/// What stands behind the scheme of an address.
pub fn skip_scheme(url: &str) -> (r: String)
    ensures
        r@ == behind_scheme(url@),
{
    let v = chars_of(url);
    let mark = chars_of("://");
    let n: usize = v.len();
    match find_from(&v, &mark, 0) {
        Some(i) => {
            proof {
                assert(occurs_at(v@, mark@, i as int));
                assert(first_at(url@, "://"@, i as int));
                lemma_first_unique(url@, "://"@, i as int);
            }
            let from: usize = i + mark.len();
            let rest = text_of_range(&v, from, n);
            let w = chars_of(rest.as_str());
            proof {
                assert(rest@ =~= url@.skip(i + "://"@.len()));
            }
            match find_from(&w, &mark, 0) {
                Some(j) => {
                    proof {
                        assert(occurs_at(w@, mark@, j as int));
                        assert(first_at(rest@, "://"@, j as int));
                        lemma_first_unique(rest@, "://"@, j as int);
                        assert(w@.subrange(0, j as int) =~= rest@.take(j as int));
                    }

                    text_of_range(&w, 0, j)
                },
                None => rest,
            }
        },
        None => copy_text(url),
    }
}

fn read_octet(s: &str) -> (r: Option<u64>)
    ensures
        match r {
            Some(n) => octet(s@) == Some(n as nat) && n <= 255,
            None => octet(s@) is None,
        },
{
    let v = chars_of(s);
    if v.len() < 1 || v.len() > 3 || v[0] == '+' || (v.len() > 1 && v[0] == '0') {
        return None;
    }
    match parse_u64(s) {
        Some(n) => {
            if n <= 255 {
                Some(n)
            } else {
                None
            }
        },
        None => None,
    }
}

fn private_ipv4(host: &str) -> (b: bool)
    ensures
        b == (ipv4(host@) matches Some(a) && is_private_ipv4(a)),
{
    let p = split_at_char(host, '.');
    proof {
        assert(split(host@, '.').len() == p.len());
    }
    if p.len() != 4 {
        return false;
    }
    proof {
        assert(split(host@, '.')[0] == p@[0]@);
        assert(split(host@, '.')[1] == p@[1]@);
        assert(split(host@, '.')[2] == p@[2]@);
        assert(split(host@, '.')[3] == p@[3]@);
    }
    match (
        read_octet(p[0].as_str()),
        read_octet(p[1].as_str()),
        read_octet(p[2].as_str()),
        read_octet(p[3].as_str()),
    ) {
        (Some(a), Some(b), Some(_), Some(_)) => a == 127 || a == 10 || (a == 172 && 16 <= b && b
            <= 31) || (a == 192 && b == 168) || (a == 169 && b == 254),
        _ => false,
    }
}

/// Whether an address leads to this machine or network: it has no host, or its host is `localhost`
/// or a loopback, private or link-local IPv4 address.
pub fn preview_looks_private(url: &str) -> (b: bool)
    ensures
        b == is_private(url@),
{
    let rest = skip_scheme(url);
    let front = text_before(rest.as_str(), '/');
    let open = trim_start_char(front.as_str(), '[');
    let inner = text_before(open.as_str(), ']');
    let host = text_before(inner.as_str(), ':');
    if host.as_str().is_empty() || same_ignoring_ascii_case(host.as_str(), "localhost") {
        return true;
    }
    private_ipv4(host.as_str())
}

// ---------------------------------------------------------------------------
// Pages
// ---------------------------------------------------------------------------

/// A `meta` element by three of its attributes: `property`, `name` and `content`.
pub type Meta = (Option<String>, Option<String>, Option<String>);

pub type MetaModel = (Option<Seq<char>>, Option<Seq<char>>, Option<Seq<char>>);

/// What the attributes of a `meta` element say.
pub open spec fn meta_model(m: Meta) -> MetaModel {
    (opt_view(m.0), opt_view(m.1), opt_view(m.2))
}

/// The `meta` elements of an HTML page.
pub uninterp spec fn html_metas(html: Seq<char>) -> Seq<MetaModel>;

/// The text of the first `title` element of an HTML page.
pub uninterp spec fn html_title(html: Seq<char>) -> Option<Seq<char>>;

/// What `url::Url::join` makes of a reference relative to a base address.
pub uninterp spec fn joined_url(base: Seq<char>, reference: Seq<char>) -> Option<Seq<char>>;

/// The host and the path that `url::Url` finds in an address that has a host.
pub uninterp spec fn url_parts(url: Seq<char>) -> Option<(Seq<char>, Seq<char>)>;

/// What `String::from_utf8_lossy` makes of some bytes.
pub uninterp spec fn lossy_utf8(bytes: Seq<u8>) -> Seq<char>;

/// `scraper::Html::parse_document` and `select` with the selector `meta`: the `meta` elements of a
/// page in document order, each by three attributes. They depend on the page alone.
#[verifier::external_body]
pub(crate) fn read_metas(html: &str) -> (r: Vec<Meta>)
    ensures
        r@.map_values(|m: Meta| meta_model(m)) == html_metas(html@),
{
    let dom = scraper::Html::parse_document(html);
    let metas = scraper::Selector::parse("meta").unwrap();
    dom.select(&metas)
        .map(|m| (
            m.value().attr("property").map(|s| s.to_string()),
            m.value().attr("name").map(|s| s.to_string()),
            m.value().attr("content").map(|s| s.to_string()),
        ))
        .collect()
}

/// `scraper::Html::parse_document` and `select` with the selector `title`: the text of the first
/// `title` element of a page, if it has one. It depends on the page alone.
#[verifier::external_body]
pub(crate) fn read_title(html: &str) -> (r: Option<String>)
    ensures
        match r {
            Some(t) => html_title(html@) == Some(t@),
            None => html_title(html@) is None,
        },
{
    let dom = scraper::Html::parse_document(html);
    let titles = scraper::Selector::parse("title").unwrap();
    dom.select(&titles).next().map(|t| t.text().collect::<String>())
}

/// `url::Url::parse` of the base and `Url::join` of the reference, as text: the address that the
/// reference denotes, if both can be read. It depends on the two texts alone.
#[verifier::external_body]
pub(crate) fn join_url(base: &str, reference: &str) -> (r: Option<String>)
    ensures
        match r {
            Some(u) => joined_url(base@, reference@) == Some(u@),
            None => joined_url(base@, reference@) is None,
        },
{
    url::Url::parse(base).ok()?.join(reference).ok().map(|u| u.to_string())
}

/// `url::Url::parse`, `host_str` and `path`: the host and the path of an address, if it can be read
/// and has a host. They depend on the address alone.
#[verifier::external_body]
pub(crate) fn read_url(url: &str) -> (r: Option<(String, String)>)
    ensures
        match r {
            Some((host, path)) => url_parts(url@) == Some((host@, path@)),
            None => url_parts(url@) is None,
        },
{
    let parsed = url::Url::parse(url).ok()?;
    Some((parsed.host_str()?.to_string(), parsed.path().to_string()))
}

/// `String::from_utf8_lossy`: the text that bytes spell, with a replacement character for what is
/// not UTF-8. It depends on the bytes alone.
#[verifier::external_body]
pub(crate) fn lossy_text(bytes: &Vec<u8>) -> (r: String)
    ensures
        r@ == lossy_utf8(bytes@),
{
    String::from_utf8_lossy(bytes).into_owned()
}

/// Whether an attribute has a value; a missing one counts as empty.
pub open spec fn has_value(attribute: Option<Seq<char>>, value: Seq<char>) -> bool {
    match attribute {
        Some(a) => a == value,
        None => value.len() == 0,
    }
}

fn same_value(attribute: &Option<String>, value: &str) -> (b: bool)
    ensures
        b == has_value(opt_view(*attribute), value@),
{
    match attribute {
        Some(a) => same_text(a.as_str(), value),
        None => value.is_empty(),
    }
}

/// The trimmed content of the first element with a property or name, among those with content.
pub open spec fn meta_content(
    metas: Seq<MetaModel>,
    prop: Seq<char>,
) -> Option<Seq<char>>
    decreases metas.len(),
{
    if metas.len() == 0 {
        None
    } else {
        let m = metas[0];
        match m.2 {
            Some(c) => if has_value(m.0, prop) || has_value(m.1, prop) {
                Some(trim(c))
            } else {
                meta_content(metas.drop_first(), prop)
            },
            None => meta_content(metas.drop_first(), prop),
        }
    }
}

/// The first of two that is there.
pub open spec fn either(a: Option<Seq<char>>, b: Option<Seq<char>>) -> Option<Seq<char>> {
    if a is Some {
        a
    } else {
        b
    }
}

/// A text that is there and not empty.
pub open spec fn not_empty(a: Option<Seq<char>>) -> Option<Seq<char>> {
    match a {
        Some(s) => if s.len() > 0 {
            Some(s)
        } else {
            None
        },
        None => None,
    }
}

/// The title of a page: that for other sites, or else that of its window.
pub open spec fn page_title(
    metas: Seq<MetaModel>,
    title: Option<Seq<char>>,
) -> Option<Seq<char>> {
    not_empty(
        either(
            either(meta_content(metas, "og:title"@), meta_content(metas, "twitter:title"@)),
            match title {
                Some(t) => Some(trim(t)),
                None => None,
            },
        ),
    )
}

pub open spec fn page_description(
    metas: Seq<MetaModel>,
) -> Option<Seq<char>> {
    not_empty(
        either(
            meta_content(metas, "og:description"@),
            meta_content(metas, "twitter:description"@),
        ),
    )
}

/// The picture that a page names.
pub open spec fn page_image(
    metas: Seq<MetaModel>,
) -> Option<Seq<char>> {
    either(meta_content(metas, "og:image"@), meta_content(metas, "twitter:image"@))
}

/// The address of a picture that may be fetched. `joined` is what the reference denotes relative
/// to the page.
pub open spec fn image_address(reference: Seq<char>, joined: Option<Seq<char>>) -> Option<Seq<char>> {
    if is_web_link(reference) {
        if is_private(reference) {
            None
        } else {
            Some(reference)
        }
    } else {
        match joined {
            Some(u) => if has_prefix(u, "http"@) && !is_private(u) {
                Some(u)
            } else {
                None
            },
            None => None,
        }
    }
}

pub open spec fn opt_view(s: Option<String>) -> Option<Seq<char>> {
    match s {
        Some(t) => Some(t@),
        None => None,
    }
}

/// The trimmed content of the first element with a property or name, among those with content.
pub fn preview_meta_content(metas: &Vec<Meta>, prop: &str) -> (r: Option<
    String,
>)
    ensures
        opt_view(r) == meta_content(
            metas@.map_values(|m: Meta| meta_model(m)),
            prop@,
        ),
{
    let ghost all = metas@.map_values(|m: Meta| meta_model(m));
    let mut i: usize = 0;
    proof {
        assert(all.skip(0) =~= all);
    }
    while i < metas.len()
        invariant
            i <= metas.len(),
            all == metas@.map_values(|m: Meta| meta_model(m)),
            meta_content(all, prop@) == meta_content(all.skip(i as int), prop@),
        decreases metas.len() - i,
    {
        proof {
            assert(all.skip(i as int)[0] == meta_model(metas@[i as int]));
            assert(all.skip(i as int).drop_first() =~= all.skip(i + 1));
        }
        let m = &metas[i];
        match &m.2 {
            Some(c) => {
                if same_value(&m.0, prop) || same_value(&m.1, prop) {
                    return Some(trim_text(c.as_str()));
                }
            },
            None => {},
        }
        i += 1;
    }
    None
}

fn keep_not_empty(s: Option<String>) -> (r: Option<String>)
    ensures
        opt_view(r) == not_empty(opt_view(s)),
{
    match s {
        Some(t) => {
            if t.as_str().is_empty() {
                None
            } else {
                Some(t)
            }
        },
        None => None,
    }
}

/// The address of a picture that may be fetched, from a reference on a page.
pub fn picture_address(reference: String, joined: Option<String>) -> (r: Option<String>)
    ensures
        opt_view(r) == image_address(reference@, opt_view(joined)),
{
    if is_link(reference.as_str()) {
        if preview_looks_private(reference.as_str()) {
            None
        } else {
            Some(reference)
        }
    } else {
        match joined {
            Some(u) => {
                if starts_with(u.as_str(), "http") && !preview_looks_private(u.as_str()) {
                    Some(u)
                } else {
                    None
                }
            },
            None => None,
        }
    }
}

/// What a page says of itself: its title, its description and the reference to its picture.
pub fn page_facts(metas: &Vec<Meta>, title: Option<String>) -> (r: (
    Option<String>,
    Option<String>,
    Option<String>,
))
    ensures
        ({
            let all = metas@.map_values(|m: Meta| meta_model(m));
            &&& opt_view(r.0) == page_title(all, opt_view(title))
            &&& opt_view(r.1) == page_description(all)
            &&& opt_view(r.2) == page_image(all)
        }),
{
    let shown = match preview_meta_content(metas, "og:title") {
        Some(t) => Some(t),
        None => match preview_meta_content(metas, "twitter:title") {
            Some(t) => Some(t),
            None => match title {
                Some(t) => Some(trim_text(t.as_str())),
                None => None,
            },
        },
    };
    let described = match preview_meta_content(metas, "og:description") {
        Some(t) => Some(t),
        None => preview_meta_content(metas, "twitter:description"),
    };
    let pictured = match preview_meta_content(metas, "og:image") {
        Some(t) => Some(t),
        None => preview_meta_content(metas, "twitter:image"),
    };
    (keep_not_empty(shown), keep_not_empty(described), pictured)
}

/// The title, the description and the picture of a page.
pub fn preview_parse_meta(base_url: &str, html: &str) -> (r: (
    Option<String>,
    Option<String>,
    Option<String>,
))
    ensures
        opt_view(r.0) == page_title(html_metas(html@), html_title(html@)),
        opt_view(r.1) == page_description(html_metas(html@)),
        opt_view(r.2) == match page_image(html_metas(html@)) {
            Some(reference) => image_address(reference, joined_url(base_url@, reference)),
            None => None,
        },
{
    let metas = read_metas(html);
    let title = read_title(html);
    let (shown, described, pictured) = page_facts(&metas, title);
    let image = match pictured {
        Some(reference) => {
            let joined = join_url(base_url, reference.as_str());
            picture_address(reference, joined)
        },
        None => None,
    };
    (shown, described, image)
}

// ---------------------------------------------------------------------------
// Bluesky
// ---------------------------------------------------------------------------

pub open spec fn is_bluesky(host: Seq<char>) -> bool {
    ||| host == "bsky.app"@
    ||| host == "fxbsky.app"@
    ||| has_suffix(host, ".bsky.app"@)
    ||| has_suffix(host, ".fxbsky.app"@)
}

/// The texts of a list that are not empty.
pub open spec fn filled(s: Seq<Seq<char>>) -> Seq<Seq<char>>
    decreases s.len(),
{
    if s.len() == 0 {
        Seq::empty()
    } else if s.last().len() == 0 {
        filled(s.drop_last())
    } else {
        filled(s.drop_last()).push(s.last())
    }
}

/// The handle and the key of a post, in the parts of a path.
pub open spec fn post_of_segments(p: Seq<Seq<char>>) -> Option<(Seq<char>, Seq<char>)> {
    if p.len() >= 4 && p[0] == "profile"@ && p[2] == "post"@ {
        Some((p[1], p[3]))
    } else if p.len() >= 3 && has_prefix(p[0], "@"@) && p[1] == "post"@ {
        Some((before(trim_front_char(p[0], '@'), '@'), p[2]))
    } else {
        None
    }
}

/// The handle and the key of the post that an address of Bluesky shows.
pub open spec fn bluesky_post(parts: Option<(Seq<char>, Seq<char>)>) -> Option<
    (Seq<char>, Seq<char>),
> {
    match parts {
        Some((host, path)) => if is_bluesky(host) {
            post_of_segments(filled(split(path, '/')))
        } else {
            None
        },
        None => None,
    }
}

pub open spec fn pair_view(p: Option<(String, String)>) -> Option<(Seq<char>, Seq<char>)> {
    match p {
        Some((a, b)) => Some((a@, b@)),
        None => None,
    }
}

fn path_segments(path: &str) -> (r: Vec<String>)
    ensures
        texts(r@) == filled(split(path@, '/')),
{
    let pieces = split_at_char(path, '/');
    let ghost all = texts(pieces@);
    let mut r: Vec<String> = Vec::new();
    let mut i: usize = 0;
    proof {
        assert(texts(r@) =~= Seq::empty());
    }
    while i < pieces.len()
        invariant
            i <= pieces.len(),
            all == texts(pieces@),
            texts(r@) == filled(all.take(i as int)),
        decreases pieces.len() - i,
    {
        proof {
            assert(all.take(i + 1).drop_last() =~= all.take(i as int));
            assert(all.take(i + 1).last() == pieces@[i as int]@);
        }
        if !pieces[i].as_str().is_empty() {
            let ghost sofar = r@;
            r.push(pieces[i].clone());
            proof {
                assert(texts(r@) =~= texts(sofar).push(pieces@[i as int]@));
            }
        }
        i += 1;
    }
    proof {
        assert(all.take(i as int) =~= all);
    }
    r
}

/// The handle and the key of a post, from the host and the path of its address.
pub fn post_in_url(parts: Option<(String, String)>) -> (r: Option<(String, String)>)
    ensures
        pair_view(r) == bluesky_post(pair_view(parts)),
{
    let (host, path) = match parts {
        Some(p) => p,
        None => return None,
    };
    let h = host.as_str();
    if !(same_text(h, "bsky.app") || same_text(h, "fxbsky.app") || ends_with(h, ".bsky.app")
        || ends_with(h, ".fxbsky.app")) {
        return None;
    }
    let p = path_segments(path.as_str());
    let ghost s = filled(split(path@, '/'));
    proof {
        assert(s.len() == p.len());
        assert forall|k: int| 0 <= k < p.len() implies s[k] == p@[k]@ by {
            assert(texts(p@)[k] == p@[k]@);
        }
    }
    if p.len() >= 4 && same_text(p[0].as_str(), "profile") && same_text(p[2].as_str(), "post") {
        return Some((p[1].clone(), p[3].clone()));
    }
    if p.len() >= 3 && starts_with(p[0].as_str(), "@") && same_text(p[1].as_str(), "post") {
        let bare = trim_start_char(p[0].as_str(), '@');
        return Some((text_before(bare.as_str(), '@'), p[2].clone()));
    }
    None
}

/// The handle and the key of the post that an address of Bluesky shows.
pub fn preview_parse_bsky_url(url: &str) -> (r: Option<(String, String)>)
    ensures
        pair_view(r) == bluesky_post(url_parts(url@)),
{
    post_in_url(read_url(url))
}

/// One character of an encoded address: `:`, `/` and `#` are written in hexadecimal.
pub open spec fn encoded_char(c: char) -> Seq<char> {
    if c == ':' {
        "%3A"@
    } else if c == '/' {
        "%2F"@
    } else if c == '#' {
        "%23"@
    } else {
        seq![c]
    }
}

pub open spec fn encoded(s: Seq<char>) -> Seq<char>
    decreases s.len(),
{
    if s.len() == 0 {
        Seq::empty()
    } else {
        encoded(s.drop_last()) + encoded_char(s.last())
    }
}

pub fn preview_url_encode(s: &str) -> (r: String)
    ensures
        r@ == encoded(s@),
{
    let v = chars_of(s);
    let mut r: String = String::new();
    let mut i: usize = 0;
    while i < v.len()
        invariant
            i <= v.len(),
            r@ == encoded(v@.take(i as int)),
        decreases v.len() - i,
    {
        proof {
            assert(v@.take(i + 1).drop_last() =~= v@.take(i as int));
        }
        let ghost sofar = r@;
        let c = v[i];
        if c == ':' {
            r.push_str("%3A");
        } else if c == '/' {
            r.push_str("%2F");
        } else if c == '#' {
            r.push_str("%23");
        } else {
            r.push(c);
        }
        proof {
            assert(r@ =~= sofar + encoded_char(c));
        }
        i += 1;
    }
    proof {
        assert(v@.take(i as int) =~= v@);
    }
    r
}

/// An encoded address holds no colon, slash or number sign.
pub proof fn encoded_has_no_marks(s: Seq<char>)
    ensures
        !encoded(s).contains(':'),
        !encoded(s).contains('/'),
        !encoded(s).contains('#'),
    decreases s.len(),
{
    if s.len() > 0 {
        encoded_has_no_marks(s.drop_last());
        reveal_strlit("%3A");
        reveal_strlit("%2F");
        reveal_strlit("%23");
        let rest = encoded(s.drop_last());
        let last = encoded_char(s.last());
        assert forall|i: int| 0 <= i < encoded(s).len() implies encoded(s)[i] != ':' && encoded(
            s,
        )[i] != '/' && encoded(s)[i] != '#' by {
            if i < rest.len() {
                assert(encoded(s)[i] == rest[i]);
                assert(rest.contains(rest[i]));
            } else {
                assert(encoded(s)[i] == last[i - rest.len()]);
            }
        }
    }
}

/// The address at which Bluesky hands out a post.
pub open spec fn bluesky_api(handle: Seq<char>, key: Seq<char>) -> Seq<char> {
    "https://public.api.bsky.app/xrpc/app.bsky.feed.getPostThread?uri="@ + encoded(
        "at://"@ + handle + "/app.bsky.feed.post/"@ + key,
    ) + "&depth=0"@
}

pub fn bsky_api_url(handle: &str, key: &str) -> (r: String)
    ensures
        r@ == bluesky_api(handle@, key@),
{
    let uri = concat4("at://", handle, "/app.bsky.feed.post/", key);
    let code = preview_url_encode(uri.as_str());
    concat3(
        "https://public.api.bsky.app/xrpc/app.bsky.feed.getPostThread?uri=",
        code.as_str(),
        "&depth=0",
    )
}

/// Whether a text can be cut behind its eightieth byte: it is shorter, or a character ends there.
pub open spec fn can_cut(body: Seq<char>) -> bool {
    encode_utf8(body).len() <= 80 || is_char_boundary(encode_utf8(body), 80)
}

/// A text of at most eighty bytes; a longer one is cut and marked.
pub open spec fn cut(body: Seq<char>) -> Seq<char> {
    if encode_utf8(body).len() > 80 {
        decode_utf8(encode_utf8(body).subrange(0, 80)) + "…"@
    } else {
        body
    }
}

/// The title of a post: who wrote it, and how it begins.
pub open spec fn post_title_text(author: Seq<char>, body: Seq<char>) -> Seq<char> {
    if body.len() == 0 {
        author
    } else {
        author + ": "@ + cut(body)
    }
}

/// The title of a post that can be cut.
pub fn post_title(author: &str, body: &str) -> (r: String)
    requires
        can_cut(body@),
    ensures
        r@ == post_title_text(author@, body@),
{
    if body.is_empty() {
        return copy_text(author);
    }
    let n: usize = body.as_bytes().len();
    if n > 80 {
        let (front, _) = body.split_at(80);
        proof {
            assert(encode_utf8(front@) =~= encode_utf8(body@).subrange(0, 80));
            encode_utf8_decode_utf8(front@);
        }
        let short = concat2(front, "…");
        concat3(author, ": ", short.as_str())
    } else {
        concat3(author, ": ", body)
    }
}

/// The texts of a list that lead to other machines.
pub open spec fn public_links(s: Seq<Seq<char>>) -> Seq<Seq<char>>
    decreases s.len(),
{
    if s.len() == 0 {
        Seq::empty()
    } else if is_private(s.last()) {
        public_links(s.drop_last())
    } else {
        public_links(s.drop_last()).push(s.last())
    }
}

/// The pointer to the picture of a post in Bluesky's answer.
pub open spec fn image_pointer(i: nat) -> Seq<char> {
    "/thread/post/embed/images/"@ + decimal(i) + "/fullsize"@
}

/// The pictures of the first `n` entries of the answer's list.
pub open spec fn listed_images(text: Seq<char>, n: nat) -> Seq<Seq<char>>
    decreases n,
{
    if n == 0 {
        Seq::empty()
    } else {
        let rest = listed_images(text, (n - 1) as nat);
        match json_text(text, image_pointer((n - 1) as nat)) {
            Some(u) => rest.push(u),
            None => rest,
        }
    }
}

pub open spec fn as_list(t: Option<Seq<char>>) -> Seq<Seq<char>> {
    match t {
        Some(s) => seq![s],
        None => Seq::empty(),
    }
}

/// The pictures of a post: its own, or else that of what it links to or plays.
pub open spec fn post_images(text: Seq<char>) -> Seq<Seq<char>> {
    match json_length(text, "/thread/post/embed/images"@) {
        Some(n) => listed_images(text, n),
        None => if json_present(text, "/thread/post/embed/external"@) {
            as_list(json_text(text, "/thread/post/embed/external/thumb"@))
        } else if json_present(text, "/thread/post/embed/video"@) {
            as_list(json_text(text, "/thread/post/embed/video/thumbnail"@))
        } else if json_present(text, "/thread/post/embed/media"@) {
            as_list(json_text(text, "/thread/post/embed/media/thumbnail"@))
        } else {
            Seq::empty()
        },
    }
}

/// The author of a post: the name shown, or else the handle.
pub open spec fn post_author(text: Seq<char>, handle: Seq<char>) -> Seq<char> {
    text_or(
        either(
            json_text(text, "/thread/post/author/displayName"@),
            json_text(text, "/thread/post/author/handle"@),
        ),
        handle,
    )
}

pub open spec fn post_body(text: Seq<char>) -> Seq<char> {
    trim(text_or(json_text(text, "/thread/post/record/text"@), Seq::empty()))
}

/// Whether an answer shows a post with something embedded in it.
pub open spec fn shows_post(text: Seq<char>) -> bool {
    json_present(text, "/thread/post/author"@) && json_present(text, "/thread/post/embed"@)
}

fn push_text(list: &mut Vec<String>, t: Option<String>)
    ensures
        texts(final(list)@) == texts(old(list)@) + as_list(opt_view(t)),
{
    let ghost before = list@;
    match t {
        Some(s) => {
            list.push(s);
        },
        None => {},
    }
    proof {
        assert(texts(list@) =~= texts(before) + as_list(opt_view(t)));
    }
}

fn read_images(text: &str) -> (r: Vec<String>)
    ensures
        texts(r@) == post_images(text@),
{
    let mut r: Vec<String> = Vec::new();
    proof {
        assert(texts(r@) =~= Seq::empty());
    }
    match json_length_at(text, "/thread/post/embed/images") {
        Some(n) => {
            let mut i: u64 = 0;
            while i < n
                invariant
                    i <= n,
                    texts(r@) == listed_images(text@, i as nat),
                decreases n - i,
            {
                let at = concat3(
                    "/thread/post/embed/images/",
                    u64_text(i).as_str(),
                    "/fullsize",
                );
                let found = json_text_at(text, at.as_str());
                let ghost sofar = texts(r@);
                let ghost t = opt_view(found);
                push_text(&mut r, found);
                proof {
                    assert(t == json_text(text@, image_pointer(i as nat)));
                    assert(texts(r@) =~= listed_images(text@, (i + 1) as nat));
                }
                i += 1;
            }
        },
        None => {
            let found = if json_has(text, "/thread/post/embed/external") {
                json_text_at(text, "/thread/post/embed/external/thumb")
            } else if json_has(text, "/thread/post/embed/video") {
                json_text_at(text, "/thread/post/embed/video/thumbnail")
            } else if json_has(text, "/thread/post/embed/media") {
                json_text_at(text, "/thread/post/embed/media/thumbnail")
            } else {
                None
            };
            push_text(&mut r, found);
            proof {
                assert(texts(r@) =~= post_images(text@));
            }
        },
    }
    r
}

/// The addresses of a list that lead to other machines.
pub fn keep_public(urls: Vec<String>) -> (r: Vec<String>)
    ensures
        texts(r@) == public_links(texts(urls@)),
{
    let ghost all = texts(urls@);
    let ghost list = urls@;
    let mut r: Vec<String> = Vec::new();
    proof {
        assert(texts(r@) =~= Seq::empty());
    }
    for u in it: urls
        invariant
            it.seq() == list,
            all == texts(list),
            texts(r@) == public_links(all.take(it.index() as int)),
    {
        proof {
            let i = it.index() as int;
            assert(all.take(i + 1).drop_last() =~= all.take(i));
            assert(all.take(i + 1).last() == u@);
        }
        if !preview_looks_private(u.as_str()) {
            let ghost sofar = r@;
            let ghost t = u@;
            r.push(u);
            proof {
                assert(texts(r@) =~= texts(sofar).push(t));
            }
        }
    }
    proof {
        assert(all.take(all.len() as int) =~= all);
    }
    r
}

/// The title and the pictures that Bluesky's answer gives for a post by `handle`. There is none for
/// an answer without a post, and for a post whose text cannot be cut for the title.
pub fn read_bsky_post(text: &str, handle: &str) -> (r: Option<(String, Vec<String>)>)
    ensures
        match r {
            Some((title, images)) => {
                &&& shows_post(text@)
                &&& can_cut(post_body(text@))
                &&& title@ == post_title_text(post_author(text@, handle@), post_body(text@))
                &&& texts(images@) == public_links(post_images(text@))
            },
            None => !shows_post(text@) || !can_cut(post_body(text@)),
        },
{
    if !json_has(text, "/thread/post/author") || !json_has(text, "/thread/post/embed") {
        return None;
    }
    let author = match json_text_at(text, "/thread/post/author/displayName") {
        Some(s) => s,
        None => json_text_or(text, "/thread/post/author/handle", handle),
    };
    proof {
        reveal_strlit("");
        assert(""@ =~= Seq::empty());
    }
    let raw = json_text_or(text, "/thread/post/record/text", "");
    let body = trim_text(raw.as_str());
    if body.as_str().as_bytes().len() > 80 && !body.as_str().is_char_boundary(80) {
        return None;
    }
    let title = post_title(author.as_str(), body.as_str());
    let images = keep_public(read_images(text));
    Some((title, images))
}

// ---------------------------------------------------------------------------
// oEmbed
// ---------------------------------------------------------------------------

pub open spec fn is_youtube(url: Seq<char>) -> bool {
    ||| contains_text(url, "youtube.com"@)
    ||| contains_text(url, "youtu.be"@)
    ||| contains_text(url, "youtube-nocookie.com"@)
}

/// The address at which YouTube describes a video.
pub open spec fn youtube_api(url: Seq<char>) -> Seq<char> {
    "https://www.youtube.com/oembed?url="@ + form_encoded(encode_utf8(url)) + "&format=json"@
}

/// Where to ask about a video, if the address shows one.
pub fn youtube_oembed_url(url: &str) -> (r: Option<String>)
    ensures
        opt_view(r) == if is_youtube(url@) {
            Some(youtube_api(url@))
        } else {
            None
        },
{
    if text_contains(url, "youtube.com") || text_contains(url, "youtu.be") || text_contains(
        url,
        "youtube-nocookie.com",
    ) {
        let code = form_encode(url);
        Some(concat3("https://www.youtube.com/oembed?url=", code.as_str(), "&format=json"))
    } else {
        None
    }
}

/// What an oEmbed answer says: title, author and picture, each where it is given.
pub struct Embed {
    pub title: Option<String>,
    pub author: Option<String>,
    pub thumbnail: Option<String>,
}

/// The fields of an oEmbed answer.
pub fn read_embed(text: &str) -> (e: Embed)
    ensures
        opt_view(e.title) == json_text(text@, "/title"@),
        opt_view(e.author) == json_text(text@, "/author_name"@),
        opt_view(e.thumbnail) == json_text(text@, "/thumbnail_url"@),
{
    Embed {
        title: json_text_at(text, "/title"),
        author: json_text_at(text, "/author_name"),
        thumbnail: json_text_at(text, "/thumbnail_url"),
    }
}

/// A title, a line below it, and the address of a picture.
pub open spec fn triple_view(p: Option<(String, String, String)>) -> Option<
    (Seq<char>, Seq<char>, Seq<char>),
> {
    match p {
        Some((a, b, c)) => Some((a@, b@, c@)),
        None => None,
    }
}

/// What is shown for a video: its title, who made it, and its picture; all of it or nothing.
pub open spec fn video_card(
    title: Option<Seq<char>>,
    author: Option<Seq<char>>,
    thumbnail: Option<Seq<char>>,
) -> Option<(Seq<char>, Seq<char>, Seq<char>)> {
    match (title, thumbnail) {
        (Some(t), Some(i)) => if is_private(i) {
            None
        } else {
            Some((t, "by "@ + text_or(author, "YouTube"@), i))
        },
        _ => None,
    }
}

pub fn youtube_preview(e: Embed) -> (r: Option<(String, String, String)>)
    ensures
        triple_view(r) == video_card(
            opt_view(e.title),
            opt_view(e.author),
            opt_view(e.thumbnail),
        ),
{
    let by = match &e.author {
        Some(a) => concat2("by ", a.as_str()),
        None => concat2("by ", "YouTube"),
    };
    match (e.title, e.thumbnail) {
        (Some(title), Some(image)) => {
            if preview_looks_private(image.as_str()) {
                None
            } else {
                Some((title, by, image))
            }
        },
        _ => None,
    }
}

/// The address at which a host describes its pages.
pub open spec fn mastodon_api(host: Seq<char>, url: Seq<char>) -> Seq<char> {
    "https://"@ + host + "/api/oembed?url="@ + form_encoded(encode_utf8(url)) + "&format=json"@
}

/// Bluesky's own hosts have no such address.
pub open spec fn may_be_mastodon(host: Seq<char>) -> bool {
    host != "bsky.app"@ && !has_suffix(host, ".bsky.app"@)
}

/// The host to ask about a page, and where to ask, from the parts of the page's address.
pub fn mastodon_oembed_url(parts: Option<(String, String)>, url: &str) -> (r: Option<
    (String, String),
>)
    ensures
        match parts {
            Some((host, path)) => if may_be_mastodon(host@) {
                pair_view(r) == Some((host@, mastodon_api(host@, url@)))
            } else {
                r is None
            },
            None => r is None,
        },
{
    match parts {
        Some((host, _)) => {
            if same_text(host.as_str(), "bsky.app") || ends_with(host.as_str(), ".bsky.app") {
                return None;
            }
            let code = form_encode(url);
            let at = concat5(
                "https://",
                host.as_str(),
                "/api/oembed?url=",
                code.as_str(),
                "&format=json",
            );
            Some((host, at))
        },
        None => None,
    }
}

/// What is shown for a post on a Mastodon host: its title, who wrote it where, and its picture,
/// which may be missing.
pub open spec fn post_card(
    title: Option<Seq<char>>,
    author: Option<Seq<char>>,
    thumbnail: Option<Seq<char>>,
    host: Seq<char>,
) -> Option<(Seq<char>, Seq<char>, Seq<char>)> {
    let picture = text_or(thumbnail, Seq::empty());
    match title {
        Some(t) => if picture.len() > 0 && is_private(picture) {
            None
        } else {
            Some((t, "@"@ + text_or(author, host) + " · "@ + host, picture))
        },
        None => None,
    }
}

pub fn mastodon_preview(e: Embed, host: &str) -> (r: Option<(String, String, String)>)
    ensures
        triple_view(r) == post_card(
            opt_view(e.title),
            opt_view(e.author),
            opt_view(e.thumbnail),
            host@,
        ),
{
    let by = match &e.author {
        Some(a) => concat4("@", a.as_str(), " · ", host),
        None => concat4("@", host, " · ", host),
    };
    let image = match e.thumbnail {
        Some(t) => t,
        None => String::new(),
    };
    match e.title {
        Some(title) => {
            if !image.as_str().is_empty() && preview_looks_private(image.as_str()) {
                None
            } else {
                Some((title, by, image))
            }
        },
        None => None,
    }
}

// ---------------------------------------------------------------------------
// Laws
// ---------------------------------------------------------------------------

/// An element with content that has a property or a name.
pub open spec fn is_about(m: MetaModel, prop: Seq<char>) -> bool {
    m.2 is Some && (m.0 == Some(prop) || m.1 == Some(prop))
}

/// No element of a page has the property or the name.
pub open spec fn says_nothing_of(metas: Seq<MetaModel>, prop: Seq<char>) -> bool {
    forall|i: int| 0 <= i < metas.len() ==> !is_about(#[trigger] metas[i], prop)
}

/// The first element of a page that has the property or the name.
pub open spec fn is_first_about(metas: Seq<MetaModel>, prop: Seq<char>, i: int) -> bool {
    &&& 0 <= i < metas.len()
    &&& is_about(metas[i], prop)
    &&& forall|j: int| 0 <= j < i ==> !is_about(#[trigger] metas[j], prop)
}

proof fn lemma_meta_first(metas: Seq<MetaModel>, prop: Seq<char>, i: int)
    requires
        prop.len() > 0,
        is_first_about(metas, prop, i),
    ensures
        meta_content(metas, prop) == Some(trim(metas[i].2->0)),
    decreases i,
{
    if i > 0 {
        assert(!is_about(metas[0], prop));
        let rest = metas.drop_first();
        assert forall|j: int| 0 <= j < i - 1 implies !is_about(#[trigger] rest[j], prop) by {
            assert(rest[j] == metas[j + 1]);
        }
        assert(rest[i - 1] == metas[i]);
        lemma_meta_first(rest, prop, i - 1);
    }
}

proof fn lemma_meta_none(metas: Seq<MetaModel>, prop: Seq<char>)
    requires
        prop.len() > 0,
        says_nothing_of(metas, prop),
    ensures
        meta_content(metas, prop) is None,
    decreases metas.len(),
{
    if metas.len() > 0 {
        assert(!is_about(metas[0], prop));
        let rest = metas.drop_first();
        assert forall|j: int| 0 <= j < rest.len() implies !is_about(#[trigger] rest[j], prop) by {
            assert(rest[j] == metas[j + 1]);
        }
        lemma_meta_none(rest, prop);
    }
}

/// The description of a page is the content of its first Open Graph description, trimmed, whatever
/// else the page says; only where it has none, that of its first description for Twitter.
pub proof fn descriptions_are_read(metas: Seq<MetaModel>, i: int)
    ensures
        is_first_about(metas, "og:description"@, i) ==> (if trim(metas[i].2->0).len() > 0 {
            page_description(metas) == Some(trim(metas[i].2->0))
        } else {
            page_description(metas) is None
        }),
        says_nothing_of(metas, "og:description"@) && is_first_about(
            metas,
            "twitter:description"@,
            i,
        ) ==> (if trim(metas[i].2->0).len() > 0 {
            page_description(metas) == Some(trim(metas[i].2->0))
        } else {
            page_description(metas) is None
        }),
        says_nothing_of(metas, "og:description"@) && says_nothing_of(
            metas,
            "twitter:description"@,
        ) ==> page_description(metas) is None,
{
    reveal_strlit("og:description");
    reveal_strlit("twitter:description");
    if is_first_about(metas, "og:description"@, i) {
        lemma_meta_first(metas, "og:description"@, i);
    }
    if says_nothing_of(metas, "og:description"@) {
        lemma_meta_none(metas, "og:description"@);
        if is_first_about(metas, "twitter:description"@, i) {
            lemma_meta_first(metas, "twitter:description"@, i);
        }
        if says_nothing_of(metas, "twitter:description"@) {
            lemma_meta_none(metas, "twitter:description"@);
        }
    }
}

/// The title of a page is the content of its first Open Graph title, trimmed, whatever else the page
/// says; where it has none, that of its first title for Twitter, and where it has neither, the text
/// of its `title` element.
pub proof fn titles_are_read(metas: Seq<MetaModel>, title: Option<Seq<char>>, i: int)
    ensures
        is_first_about(metas, "og:title"@, i) ==> (if trim(metas[i].2->0).len() > 0 {
            page_title(metas, title) == Some(trim(metas[i].2->0))
        } else {
            page_title(metas, title) is None
        }),
        says_nothing_of(metas, "og:title"@) && is_first_about(metas, "twitter:title"@, i) ==> (
        if trim(metas[i].2->0).len() > 0 {
            page_title(metas, title) == Some(trim(metas[i].2->0))
        } else {
            page_title(metas, title) is None
        }),
        says_nothing_of(metas, "og:title"@) && says_nothing_of(metas, "twitter:title"@) ==> (
        match title {
            Some(t) => if trim(t).len() > 0 {
                page_title(metas, title) == Some(trim(t))
            } else {
                page_title(metas, title) is None
            },
            None => page_title(metas, title) is None,
        }),
{
    reveal_strlit("og:title");
    reveal_strlit("twitter:title");
    if is_first_about(metas, "og:title"@, i) {
        lemma_meta_first(metas, "og:title"@, i);
    }
    if says_nothing_of(metas, "og:title"@) {
        lemma_meta_none(metas, "og:title"@);
        if is_first_about(metas, "twitter:title"@, i) {
            lemma_meta_first(metas, "twitter:title"@, i);
        }
        if says_nothing_of(metas, "twitter:title"@) {
            lemma_meta_none(metas, "twitter:title"@);
        }
    }
}

/// The picture of a page is that of its first Open Graph picture, trimmed, whatever else the page
/// says; only where it has none, that of its first picture for Twitter.
pub proof fn pictures_are_read(metas: Seq<MetaModel>, i: int)
    ensures
        is_first_about(metas, "og:image"@, i) ==> page_image(metas) == Some(trim(metas[i].2->0)),
        says_nothing_of(metas, "og:image"@) && is_first_about(metas, "twitter:image"@, i)
            ==> page_image(metas) == Some(trim(metas[i].2->0)),
        says_nothing_of(metas, "og:image"@) && says_nothing_of(metas, "twitter:image"@)
            ==> page_image(metas) is None,
{
    reveal_strlit("og:image");
    reveal_strlit("twitter:image");
    if is_first_about(metas, "og:image"@, i) {
        lemma_meta_first(metas, "og:image"@, i);
    }
    if says_nothing_of(metas, "og:image"@) {
        lemma_meta_none(metas, "og:image"@);
        if is_first_about(metas, "twitter:image"@, i) {
            lemma_meta_first(metas, "twitter:image"@, i);
        }
        if says_nothing_of(metas, "twitter:image"@) {
            lemma_meta_none(metas, "twitter:image"@);
        }
    }
}

/// A picture whose address is complete is fetched from there, unless that is on this machine or
/// network; any other is fetched from where it lies relative to the page.
pub proof fn pictures_are_fetched_from_public_places(
    reference: Seq<char>,
    joined: Option<Seq<char>>,
)
    ensures
        is_web_link(reference) && !is_private(reference) ==> image_address(reference, joined)
            == Some(reference),
        !is_web_link(reference) ==> (joined matches Some(u) ==> (has_prefix(u, "http"@)
            && !is_private(u) ==> image_address(reference, joined) == Some(u))),
        image_address(reference, joined) matches Some(u) ==> !is_private(u) && has_prefix(u, "http"@)
            && (u == reference || joined == Some(u)),
{
    reveal_strlit("http");
    reveal_strlit("http://");
    reveal_strlit("https://");
    if is_web_link(reference) {
        if has_prefix(reference, "http://"@) {
            assert(reference.subrange(0, 4) =~= reference.subrange(0, 7).subrange(0, 4));
            assert("http://"@.subrange(0, 4) =~= "http"@);
        }
        if has_prefix(reference, "https://"@) {
            assert(reference.subrange(0, 4) =~= reference.subrange(0, 8).subrange(0, 4));
            assert("https://"@.subrange(0, 4) =~= "http"@);
        }
    }
}

proof fn lemma_public_links(s: Seq<Seq<char>>)
    ensures
        forall|u: Seq<char>| #[trigger]
            public_links(s).contains(u) <==> s.contains(u) && !is_private(u),
    decreases s.len(),
{
    if s.len() > 0 {
        let init = s.drop_last();
        lemma_public_links(init);
        let rest = public_links(init);
        let all = public_links(s);
        assert forall|u: Seq<char>| #[trigger] all.contains(u) <==> s.contains(u) && !is_private(u) by {
            if all.contains(u) {
                let i = choose|i: int| 0 <= i < all.len() && all[i] == u;
                if i < rest.len() {
                    assert(rest[i] == u);
                    assert(rest.contains(u));
                    let k = choose|k: int| 0 <= k < init.len() && init[k] == u;
                    assert(s[k] == u);
                } else {
                    assert(s[s.len() - 1] == u);
                }
            }
            if s.contains(u) && !is_private(u) {
                let k = choose|k: int| 0 <= k < s.len() && s[k] == u;
                if k < init.len() {
                    assert(init[k] == u);
                    assert(rest.contains(u));
                    let i = choose|i: int| 0 <= i < rest.len() && rest[i] == u;
                    assert(all[i] == u);
                } else {
                    assert(all[all.len() - 1] == u);
                }
            }
        }
    }
}

/// Of the pictures of a post, those on this machine or network are left out, and only those.
pub proof fn only_public_links_are_kept(s: Seq<Seq<char>>, u: Seq<char>)
    ensures
        public_links(s).contains(u) <==> s.contains(u) && !is_private(u),
        (forall|i: int| 0 <= i < s.len() ==> !is_private(#[trigger] s[i])) ==> public_links(s) == s,
    decreases s.len(),
{
    lemma_public_links(s);
    if (forall|i: int| 0 <= i < s.len() ==> !is_private(#[trigger] s[i])) {
        if s.len() > 0 {
            let init = s.drop_last();
            assert forall|i: int| 0 <= i < init.len() implies !is_private(#[trigger] init[i]) by {
                assert(init[i] == s[i]);
            }
            only_public_links_are_kept(init, u);
            assert(!is_private(s[s.len() - 1]));
            assert(init.push(s.last()) =~= s);
        } else {
            assert(public_links(s) =~= s);
        }
    }
}

/// Which addresses lead to this machine or network: loopback, the three private ranges, and the
/// link-local one.
pub proof fn private_ranges_are_known(b: nat, c: nat, d: nat)
    ensures
        is_private_ipv4((127, b, c, d)),
        is_private_ipv4((10, b, c, d)),
        is_private_ipv4((192, 168, c, d)),
        is_private_ipv4((169, 254, c, d)),
        is_private_ipv4((172, b, c, d)) <==> 16 <= b < 32,
        is_private_ipv4((192, b, c, d)) <==> b == 168,
        is_private_ipv4((169, b, c, d)) <==> b == 254,
        forall|a: nat|
            a != 127 && a != 10 && a != 192 && a != 169 && a != 172 ==> !(#[trigger] is_private_ipv4(
                (a, b, c, d),
            )),
{
}

proof fn lemma_octet(n: nat)
    requires
        n <= 255,
    ensures
        octet(decimal(n)) == Some(n),
        !decimal(n).contains('.'),
{
    decimals_are_digits(n);
    decimals_are_read_back(n, 255);
    if n >= 10 {
        decimals_are_digits(n / 10);
        if n >= 100 {
            decimals_are_digits(n / 100);
            assert(decimal(n / 100).len() == 1);
        }
    }
    assert(decimal(n).len() <= 3);
    if decimal(n).contains('.') {
        let i = choose|i: int| 0 <= i < decimal(n).len() && decimal(n)[i] == '.';
        assert('0' <= decimal(n)[i] <= '9');
    }
}

/// An IPv4 address is read as its four parts.
pub proof fn ipv4_addresses_are_read(a: nat, b: nat, c: nat, d: nat)
    requires
        a <= 255 && b <= 255 && c <= 255 && d <= 255,
    ensures
        ipv4(
            decimal(a).push('.') + (decimal(b).push('.') + (decimal(c).push('.') + decimal(d))),
        ) == Some((a, b, c, d)),
{
    lemma_octet(a);
    lemma_octet(b);
    lemma_octet(c);
    lemma_octet(d);
    let z = decimal(d);
    let y = decimal(c).push('.') + z;
    let x = decimal(b).push('.') + y;
    splitting_goes_piece_by_piece(z, '.', Seq::empty());
    splitting_goes_piece_by_piece(decimal(c), '.', z);
    splitting_goes_piece_by_piece(decimal(b), '.', y);
    splitting_goes_piece_by_piece(decimal(a), '.', x);
    let p = split(decimal(a).push('.') + x, '.');
    assert(p =~= seq![decimal(a), decimal(b), decimal(c), decimal(d)]);
}

/// The encoding of an address goes character by character: colon, slash and number sign are written
/// in hexadecimal, and everything else stays.
pub proof fn encoding_goes_by_characters(a: Seq<char>, c: char)
    ensures
        encoded(a.push(c)) == encoded(a) + (if c == ':' {
            seq!['%', '3', 'A']
        } else if c == '/' {
            seq!['%', '2', 'F']
        } else if c == '#' {
            seq!['%', '2', '3']
        } else {
            seq![c]
        }),
        encoded(Seq::<char>::empty()).len() == 0,
{
    reveal_strlit("%3A");
    reveal_strlit("%2F");
    reveal_strlit("%23");
    assert(a.push(c).drop_last() =~= a);
    assert("%3A"@ =~= seq!['%', '3', 'A']);
    assert("%2F"@ =~= seq!['%', '2', 'F']);
    assert("%23"@ =~= seq!['%', '2', '3']);
}

proof fn lemma_filled(s: Seq<Seq<char>>)
    ensures
        (forall|i: int| 0 <= i < s.len() ==> (#[trigger] s[i]).len() > 0) ==> filled(s) == s,
    decreases s.len(),
{
    if (forall|i: int| 0 <= i < s.len() ==> (#[trigger] s[i]).len() > 0) && s.len() > 0 {
        let init = s.drop_last();
        assert forall|i: int| 0 <= i < init.len() implies (#[trigger] init[i]).len() > 0 by {
            assert(init[i] == s[i]);
        }
        lemma_filled(init);
        assert(s[s.len() - 1].len() > 0);
        assert(init.push(s.last()) =~= s);
    } else if s.len() == 0 {
        assert(filled(s) =~= s);
    }
}

proof fn lemma_filled_front(s: Seq<Seq<char>>)
    ensures
        filled(seq![Seq::<char>::empty()] + s) == filled(s),
    decreases s.len(),
{
    let e = seq![Seq::<char>::empty()];
    if s.len() > 0 {
        lemma_filled_front(s.drop_last());
        assert((e + s).drop_last() =~= e + s.drop_last());
        assert((e + s).last() == s.last());
    } else {
        assert(e + s =~= e);
        assert(e.drop_last() =~= Seq::<Seq<char>>::empty());
        assert(e.last().len() == 0);
        assert(filled(e) == filled(e.drop_last()));
        assert(s =~= e.drop_last());
    }
}

/// The address of a post on Bluesky, as it stands in a browser, is read as the handle of its author
/// and its own key.
pub proof fn bluesky_posts_are_recognised(host: Seq<char>, handle: Seq<char>, key: Seq<char>)
    requires
        host == "bsky.app"@ || host == "fxbsky.app"@,
        handle.len() > 0 && !handle.contains('/'),
        key.len() > 0 && !key.contains('/'),
    ensures
        bluesky_post(Some((host, "/profile/"@ + handle + "/post/"@ + key))) == Some((handle, key)),
        bluesky_post(None) is None,
{
    reveal_strlit("/profile/");
    reveal_strlit("/post/");
    reveal_strlit("profile");
    reveal_strlit("post");
    let path = "/profile/"@ + handle + "/post/"@ + key;
    let c = "post"@.push('/') + key;
    let b = handle.push('/') + c;
    let a = "profile"@.push('/') + b;
    assert(path =~= Seq::<char>::empty().push('/') + a);
    assert(!Seq::<char>::empty().contains('/'));
    assert(!"profile"@.contains('/')) by {
        if "profile"@.contains('/') {
            let i = choose|i: int| 0 <= i < "profile"@.len() && "profile"@[i] == '/';
        }
    }
    assert(!"post"@.contains('/')) by {
        if "post"@.contains('/') {
            let i = choose|i: int| 0 <= i < "post"@.len() && "post"@[i] == '/';
        }
    }
    splitting_goes_piece_by_piece(key, '/', Seq::empty());
    splitting_goes_piece_by_piece("post"@, '/', key);
    splitting_goes_piece_by_piece(handle, '/', c);
    splitting_goes_piece_by_piece("profile"@, '/', b);
    splitting_goes_piece_by_piece(Seq::empty(), '/', a);
    let four = seq!["profile"@, handle, "post"@, key];
    assert(split(a, '/') =~= four);
    lemma_filled_front(four);
    lemma_filled(four);
    assert(split(path, '/') == seq![Seq::<char>::empty()] + four);
}

/// Every host but Bluesky's is left alone.
pub proof fn other_hosts_show_no_bluesky_posts(host: Seq<char>, path: Seq<char>)
    requires
        host != "bsky.app"@,
        host != "fxbsky.app"@,
        !(exists|a: Seq<char>| host == #[trigger] (a + ".bsky.app"@)),
        !(exists|a: Seq<char>| host == #[trigger] (a + ".fxbsky.app"@)),
    ensures
        bluesky_post(Some((host, path))) is None,
{
    if has_suffix(host, ".bsky.app"@) {
        found_texts_stand_there(host, ".bsky.app"@);
    }
    if has_suffix(host, ".fxbsky.app"@) {
        found_texts_stand_there(host, ".fxbsky.app"@);
    }
}

/// The title of a post begins with its author; a short text follows in full, and without a text it
/// is the author alone.
pub proof fn titles_name_the_author(author: Seq<char>, body: Seq<char>)
    ensures
        body.len() == 0 ==> post_title_text(author, body) == author,
        body.len() > 0 && encode_utf8(body).len() <= 80 ==> post_title_text(author, body) == author
            + seq![':', ' '] + body,
        body.len() > 0 && encode_utf8(body).len() > 80 ==> post_title_text(author, body) == author
            + seq![':', ' '] + decode_utf8(encode_utf8(body).subrange(0, 80)) + seq!['…'],
{
    reveal_strlit(": ");
    reveal_strlit("…");
    assert(": "@ =~= seq![':', ' ']);
    assert("…"@ =~= seq!['…']);
    if body.len() > 0 && encode_utf8(body).len() > 80 {
        assert(post_title_text(author, body) =~= author + seq![':', ' '] + decode_utf8(
            encode_utf8(body).subrange(0, 80),
        ) + seq!['…']);
    }
}

/// The author of a post is named by the name shown, else by the handle in the answer, else by the
/// handle of the address.
pub proof fn authors_are_named(text: Seq<char>, handle: Seq<char>)
    ensures
        json_text(text, "/thread/post/author/displayName"@) matches Some(n) ==> post_author(
            text,
            handle,
        ) == n,
        json_text(text, "/thread/post/author/displayName"@) is None ==> (json_text(
            text,
            "/thread/post/author/handle"@,
        ) matches Some(h) ==> post_author(text, handle) == h),
        json_text(text, "/thread/post/author/displayName"@) is None && json_text(
            text,
            "/thread/post/author/handle"@,
        ) is None ==> post_author(text, handle) == handle,
{
}

proof fn lemma_listed_images(text: Seq<char>, n: nat, i: nat)
    requires
        i < n,
    ensures
        json_text(text, "/thread/post/embed/images/"@ + decimal(i) + "/fullsize"@) matches Some(u)
            ==> listed_images(text, n).contains(u),
    decreases n,
{
    let m = (n - 1) as nat;
    let rest = listed_images(text, m);
    let all = listed_images(text, n);
    match json_text(text, "/thread/post/embed/images/"@ + decimal(i) + "/fullsize"@) {
        Some(u) => {
            if i < m {
                lemma_listed_images(text, m, i);
                let k = choose|k: int| 0 <= k < rest.len() && rest[k] == u;
                assert(all[k] == u);
            } else {
                assert(all[all.len() - 1] == u);
            }
        },
        None => {},
    }
}

/// Each picture of a post is among its pictures; one that only links to something, or plays it, has
/// the picture of that.
pub proof fn pictures_of_posts_are_found(text: Seq<char>, n: nat, i: nat)
    ensures
        json_length(text, "/thread/post/embed/images"@) == Some(n) && i < n ==> (json_text(
            text,
            "/thread/post/embed/images/"@ + decimal(i) + "/fullsize"@,
        ) matches Some(u) ==> post_images(text).contains(u)),
        json_length(text, "/thread/post/embed/images"@) is None && json_present(
            text,
            "/thread/post/embed/external"@,
        ) ==> (json_text(text, "/thread/post/embed/external/thumb"@) matches Some(u) ==> post_images(
            text,
        ) == seq![u]),
        json_length(text, "/thread/post/embed/images"@) is None && !json_present(
            text,
            "/thread/post/embed/external"@,
        ) && json_present(text, "/thread/post/embed/video"@) ==> (json_text(
            text,
            "/thread/post/embed/video/thumbnail"@,
        ) matches Some(u) ==> post_images(text) == seq![u]),
        json_length(text, "/thread/post/embed/images"@) is None && !json_present(
            text,
            "/thread/post/embed/external"@,
        ) && !json_present(text, "/thread/post/embed/video"@) && json_present(
            text,
            "/thread/post/embed/media"@,
        ) ==> (json_text(text, "/thread/post/embed/media/thumbnail"@) matches Some(u) ==> post_images(
            text,
        ) == seq![u]),
{
    if json_length(text, "/thread/post/embed/images"@) == Some(n) && i < n {
        lemma_listed_images(text, n, i);
    }
}

/// Videos are recognised by the names of the site, wherever those stand in the address.
pub proof fn videos_are_recognised(a: Seq<char>, b: Seq<char>)
    ensures
        is_youtube(a + "youtube.com"@ + b),
        is_youtube(a + "youtu.be"@ + b),
        is_youtube(a + "youtube-nocookie.com"@ + b),
        is_youtube(a) ==> (exists|x: Seq<char>, y: Seq<char>| a == #[trigger] (x + "youtube.com"@ + y))
            || (exists|x: Seq<char>, y: Seq<char>| a == #[trigger] (x + "youtu.be"@ + y)) || (exists|
            x: Seq<char>,
            y: Seq<char>,
        |
            a == #[trigger] (x + "youtube-nocookie.com"@ + y)),
{
    texts_are_found_where_they_stand(a, "youtube.com"@, b);
    texts_are_found_where_they_stand(a, "youtu.be"@, b);
    texts_are_found_where_they_stand(a, "youtube-nocookie.com"@, b);
    found_texts_stand_there(a, "youtube.com"@);
    found_texts_stand_there(a, "youtu.be"@);
    found_texts_stand_there(a, "youtube-nocookie.com"@);
}

/// A video is shown with its title, whoever made it, and a picture that may be fetched; a video
/// without a title or without such a picture is not shown.
pub proof fn videos_are_shown(
    title: Option<Seq<char>>,
    author: Option<Seq<char>>,
    thumbnail: Option<Seq<char>>,
)
    ensures
        video_card(title, author, thumbnail) is Some <==> title is Some && thumbnail is Some
            && !is_private(thumbnail->0),
        video_card(title, author, thumbnail) matches Some((t, by, picture)) ==> {
            &&& Some(t) == title
            &&& Some(picture) == thumbnail
            &&& author matches Some(a) ==> by == seq!['b', 'y', ' '] + a
            &&& author is None ==> by == "by YouTube"@
        },
{
    reveal_strlit("by ");
    reveal_strlit("YouTube");
    reveal_strlit("by YouTube");
    assert("by "@ =~= seq!['b', 'y', ' ']);
    assert("by "@ + "YouTube"@ =~= "by YouTube"@);
}

/// A post on another host is shown with its title, with who wrote it on which host, and with its
/// picture where it has one; a picture on this machine or network hides it.
pub proof fn posts_are_shown(
    title: Option<Seq<char>>,
    author: Option<Seq<char>>,
    thumbnail: Option<Seq<char>>,
    host: Seq<char>,
)
    ensures
        title is None ==> post_card(title, author, thumbnail, host) is None,
        title is Some && thumbnail is None ==> post_card(title, author, thumbnail, host) is Some,
        thumbnail matches Some(p) ==> (title is Some && !is_private(p) ==> post_card(
            title,
            author,
            thumbnail,
            host,
        ) is Some) && (p.len() > 0 && is_private(p) ==> post_card(title, author, thumbnail, host) is None),
        post_card(title, author, thumbnail, host) matches Some((t, by, picture)) ==> {
            &&& Some(t) == title
            &&& thumbnail is Some ==> Some(picture) == thumbnail
            &&& thumbnail is None ==> picture.len() == 0
            &&& author matches Some(a) ==> by == seq!['@'] + a + " · "@ + host
            &&& author is None ==> by == seq!['@'] + host + " · "@ + host
        },
{
    reveal_strlit("@");
    assert("@"@ =~= seq!['@']);
}

/// Where an answer is asked for: at the site itself for a video, at the host of the page for a post,
/// and at Bluesky for one of its own, each with the address in question in the query.
pub proof fn answers_are_asked_for_at_their_site(url: Seq<char>, host: Seq<char>, key: Seq<char>)
    ensures
        youtube_api(url) == "https://www.youtube.com/oembed?url="@ + form_encoded(encode_utf8(url))
            + "&format=json"@,
        mastodon_api(host, url) == "https://"@ + host + "/api/oembed?url="@ + form_encoded(
            encode_utf8(url),
        ) + "&format=json"@,
        bluesky_api(host, key)
            == "https://public.api.bsky.app/xrpc/app.bsky.feed.getPostThread?uri="@ + encoded(
            "at://"@ + host + "/app.bsky.feed.post/"@ + key,
        ) + "&depth=0"@,
        may_be_mastodon(host) <==> host != "bsky.app"@ && !(exists|a: Seq<char>|
            host == #[trigger] (a + ".bsky.app"@)),
{
    found_texts_stand_there(host, ".bsky.app"@);
    if exists|a: Seq<char>| host == #[trigger] (a + ".bsky.app"@) {
        let a = choose|a: Seq<char>| host == #[trigger] (a + ".bsky.app"@);
        texts_are_found_where_they_stand(a, ".bsky.app"@, Seq::empty());
    }
}

} // verus!
