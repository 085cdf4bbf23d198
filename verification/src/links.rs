//! Links inside message texts.

use vstd::prelude::*;

use crate::text::{
    char_is_ascii_punct, char_is_space, chars_of, concat2, has_prefix, is_ascii_punct, is_space,
    starts_with, text_of_range, texts, words, words_of,
};

verus! {

/// The characters that stay when a word is read as a link: all but ASCII punctuation, of which
/// only the marks that addresses are made of stay.
pub open spec fn stays_in_link(c: char) -> bool {
    ||| !is_ascii_punct(c)
    ||| c == '/'
    ||| c == ':'
    ||| c == '.'
    ||| c == '-'
    ||| c == '_'
    ||| c == '%'
    ||| c == '?'
    ||| c == '&'
    ||| c == '='
}

/// A word without the characters that do not belong to a link.
pub open spec fn cleaned(word: Seq<char>) -> Seq<char>
    decreases word.len(),
{
    if word.len() == 0 {
        Seq::empty()
    } else if stays_in_link(word.last()) {
        cleaned(word.drop_last()).push(word.last())
    } else {
        cleaned(word.drop_last())
    }
}

pub open spec fn is_web_link(s: Seq<char>) -> bool {
    has_prefix(s, "http://"@) || has_prefix(s, "https://"@)
}

/// The links among some words, cleaned, in order.
pub open spec fn link_words(ws: Seq<Seq<char>>) -> Seq<Seq<char>>
    decreases ws.len(),
{
    if ws.len() == 0 {
        Seq::empty()
    } else {
        let rest = link_words(ws.drop_last());
        let link = cleaned(ws.last());
        if is_web_link(link) {
            rest.push(link)
        } else {
            rest
        }
    }
}

/// The links of a text.
pub open spec fn links_of(text: Seq<char>) -> Seq<Seq<char>> {
    link_words(words(text))
}

fn clean_word(word: &str) -> (r: String)
    ensures
        r@ == cleaned(word@),
{
    let v = chars_of(word);
    let mut r: String = String::new();
    let mut i: usize = 0;
    while i < v.len()
        invariant
            i <= v.len(),
            r@ == cleaned(v@.take(i as int)),
        decreases v.len() - i,
    {
        proof {
            assert(v@.take(i + 1).drop_last() =~= v@.take(i as int));
        }
        let c = v[i];
        if !char_is_ascii_punct(c) || c == '/' || c == ':' || c == '.' || c == '-' || c == '_' || c
            == '%' || c == '?' || c == '&' || c == '=' {
            r.push(c);
        }
        i += 1;
    }
    proof {
        assert(v@.take(i as int) =~= v@);
    }
    r
}

pub fn is_link(s: &str) -> (b: bool)
    ensures
        b == is_web_link(s@),
{
    starts_with(s, "http://") || starts_with(s, "https://")
}

/// The links of a text: each word that begins with `http://` or `https://` once the punctuation
/// that no address holds is taken out of it.
pub fn extract_urls(text: &str) -> (urls: Vec<String>)
    ensures
        texts(urls@) == links_of(text@),
{
    let ws = words_of(text);
    let ghost all = texts(ws@);
    let mut urls: Vec<String> = Vec::new();
    let mut i: usize = 0;
    proof {
        assert(texts(urls@) =~= Seq::empty());
    }
    while i < ws.len()
        invariant
            i <= ws.len(),
            all == texts(ws@),
            texts(urls@) == link_words(all.take(i as int)),
        decreases ws.len() - i,
    {
        proof {
            assert(all.take(i + 1).drop_last() =~= all.take(i as int));
            assert(all.take(i + 1).last() == ws@[i as int]@);
        }
        let link = clean_word(ws[i].as_str());
        let ghost sofar = urls@;
        if is_link(link.as_str()) {
            urls.push(link);
            proof {
                assert(texts(urls@) =~= texts(sofar).push(link@));
            }
        }
        i += 1;
    }
    proof {
        assert(all.take(i as int) =~= all);
    }
    urls
}

// ---------------------------------------------------------------------------
// The first link, read with all of its punctuation
// ---------------------------------------------------------------------------

/// The characters that end a link inside a text.
pub open spec fn ends_link(c: char) -> bool {
    is_space(c) || c == '"' || c == '\''
}

/// How far a link goes on from the front of `s`.
pub open spec fn link_len(s: Seq<char>) -> int
    decreases s.len(),
{
    if s.len() == 0 || ends_link(s[0]) {
        0
    } else {
        1 + link_len(s.drop_first())
    }
}

proof fn lemma_link_len(s: Seq<char>, n: int)
    requires
        0 <= n <= s.len(),
        forall|k: int| 0 <= k < n ==> !ends_link(#[trigger] s[k]),
        n < s.len() ==> ends_link(s[n]),
    ensures
        link_len(s) == n,
    decreases s.len(),
{
    if n > 0 {
        assert(!ends_link(s[0]));
        assert forall|k: int| 0 <= k < n - 1 implies !ends_link(#[trigger] s.drop_first()[k]) by {
            assert(s.drop_first()[k] == s[k + 1]);
        }
        lemma_link_len(s.drop_first(), n - 1);
    }
}

/// The link that begins at the front of `s`: a scheme and at least one character behind it.
pub open spec fn link_here(s: Seq<char>) -> Option<Seq<char>> {
    let secure = "https://"@;
    let plain = "http://"@;
    if has_prefix(s, secure) {
        let n = link_len(s.skip(secure.len() as int));
        if n > 0 {
            Some(secure + s.skip(secure.len() as int).take(n))
        } else {
            None
        }
    } else if has_prefix(s, plain) {
        let n = link_len(s.skip(plain.len() as int));
        if n > 0 {
            Some(plain + s.skip(plain.len() as int).take(n))
        } else {
            None
        }
    } else {
        None
    }
}

/// The first link of a text.
pub open spec fn first_link(s: Seq<char>) -> Option<Seq<char>>
    decreases s.len(),
{
    if s.len() == 0 {
        None
    } else if link_here(s) is Some {
        link_here(s)
    } else {
        first_link(s.drop_first())
    }
}

fn link_at(v: &Vec<char>, i: usize) -> (r: Option<String>)
    requires
        i <= v.len(),
    ensures
        match r {
            Some(u) => link_here(v@.skip(i as int)) == Some(u@),
            None => link_here(v@.skip(i as int)) is None,
        },
{
    let rest = text_of_range(v, i, v.len());
    proof {
        assert(v@.subrange(i as int, v@.len() as int) =~= v@.skip(i as int));
    }
    let scheme: &str = if starts_with(rest.as_str(), "https://") {
        "https://"
    } else if starts_with(rest.as_str(), "http://") {
        "http://"
    } else {
        return None;
    };
    let n: usize = chars_of(scheme).len();
    let ghost tail = rest@.skip(n as int);
    let from: usize = i + n;
    let mut to: usize = from;
    while to < v.len() && !char_is_space(v[to]) && v[to] != '"' && v[to] != '\''
        invariant
            from <= to <= v.len(),
            tail == v@.skip(from as int),
            forall|k: int| 0 <= k < to - from ==> !ends_link(#[trigger] tail[k]),
        decreases v.len() - to,
    {
        proof {
            assert(tail[to - from] == v@[to as int]);
        }
        to += 1;
    }
    proof {
        if to < v.len() {
            assert(tail[to - from] == v@[to as int]);
        }
        lemma_link_len(tail, to - from);
        assert(v@.subrange(from as int, to as int) =~= tail.take(to - from));
    }
    if to == from {
        return None;
    }
    let body = text_of_range(v, from, to);
    Some(concat2(scheme, body.as_str()))
}

/// The first link of a text: `http://` or `https://` and what follows up to whitespace or a quote.
pub fn first_url(text: &str) -> (r: Option<String>)
    ensures
        match r {
            Some(u) => first_link(text@) == Some(u@),
            None => first_link(text@) is None,
        },
{
    let v = chars_of(text);
    let mut i: usize = 0;
    proof {
        assert(v@.skip(0) =~= v@);
    }
    while i < v.len()
        invariant
            i <= v.len(),
            first_link(v@) == first_link(v@.skip(i as int)),
            v@ == text@,
        decreases v.len() - i,
    {
        let here = link_at(&v, i);
        if here.is_some() {
            return here;
        }
        proof {
            assert(v@.skip(i as int).drop_first() =~= v@.skip(i + 1));
        }
        i += 1;
    }
    proof {
        assert(v@.skip(i as int).len() == 0);
    }
    None
}

} // verus!
