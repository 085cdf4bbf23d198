//! Links in texts, and the bot.

use vstd::prelude::*;

use crate::bot::{hear_step, Bot, Heard};
use crate::chat::types::ApiMsg;
use crate::links::{
    cleaned, ends_link, first_link, is_web_link, link_len, link_words, links_of, stays_in_link,
};
use crate::text::{is_space, lower, trim, whitespace_parts_words, words};

verus! {

/// A link begins with the scheme of the web, and nothing else is one.
pub proof fn links_begin_with_their_scheme(rest: Seq<char>, s: Seq<char>)
    ensures
        is_web_link("http://"@ + rest),
        is_web_link("https://"@ + rest),
        is_web_link(s) ==> s.len() >= 7 && (s.take(7) == "http://"@ || (s.len() >= 8 && s.take(8)
            == "https://"@)),
{
    reveal_strlit("http://");
    reveal_strlit("https://");
    assert(("http://"@ + rest).subrange(0, 7) =~= "http://"@);
    assert(("https://"@ + rest).subrange(0, 8) =~= "https://"@);
    if is_web_link(s) {
        if crate::text::has_prefix(s, "http://"@) {
            assert(s.take(7) =~= s.subrange(0, 7));
        } else {
            assert(s.take(8) =~= s.subrange(0, 8));
        }
    }
}

/// The marks that addresses are made of stay in a link, as do letters and digits; brackets, commas
/// and quotes around it do not.
pub proof fn links_lose_the_marks_around_them(c: char)
    ensures
        ('a' <= c <= 'z') || ('A' <= c <= 'Z') || ('0' <= c <= '9') ==> stays_in_link(c),
        c == '/' || c == ':' || c == '.' || c == '-' || c == '_' || c == '%' || c == '?' || c == '&' || c
            == '=' ==> stays_in_link(c),
        c == '(' || c == ')' || c == ',' || c == ';' || c == '!' || c == '"' || c == '\'' || c == '<'
            || c == '>' || c == '[' || c == ']' || c == '#' ==> !stays_in_link(c),
{
}

proof fn lemma_cleaned(w: Seq<char>)
    ensures
        (forall|i: int| 0 <= i < w.len() ==> stays_in_link(#[trigger] w[i])) ==> cleaned(w) == w,
        forall|i: int| 0 <= i < cleaned(w).len() ==> stays_in_link(#[trigger] cleaned(w)[i]),
    decreases w.len(),
{
    if w.len() > 0 {
        let init = w.drop_last();
        lemma_cleaned(init);
        if forall|i: int| 0 <= i < w.len() ==> stays_in_link(#[trigger] w[i]) {
            assert forall|i: int| 0 <= i < init.len() implies stays_in_link(#[trigger] init[i]) by {
                assert(w[i] == init[i]);
            }
            assert(stays_in_link(w[w.len() - 1]));
            assert(init.push(w.last()) =~= w);
        }
        let all = cleaned(w);
        assert forall|i: int| 0 <= i < all.len() implies stays_in_link(#[trigger] all[i]) by {
            if i < cleaned(init).len() {
                assert(all[i] == cleaned(init)[i]);
            }
        }
    } else {
        assert(cleaned(w) =~= w);
    }
}

proof fn lemma_link_words(a: Seq<Seq<char>>, b: Seq<Seq<char>>)
    ensures
        link_words(a + b) == link_words(a) + link_words(b),
    decreases b.len(),
{
    if b.len() > 0 {
        lemma_link_words(a, b.drop_last());
        assert((a + b).drop_last() =~= a + b.drop_last());
        assert((a + b).last() == b.last());
        assert(link_words(a + b) =~= link_words(a) + link_words(b));
    } else {
        assert(a + b =~= a);
        assert(link_words(a) + link_words(b) =~= link_words(a));
    }
}

/// A link in the middle of a text is found, in its place among the others.
pub proof fn links_are_found(before: Seq<char>, link: Seq<char>, after: Seq<char>)
    requires
        is_web_link(link),
        forall|i: int| 0 <= i < link.len() ==> stays_in_link(#[trigger] link[i]) && !is_space(link[i]),
    ensures
        links_of(before.push(' ') + (link.push(' ') + after)) == links_of(before) + seq![link]
            + links_of(after),
{
    reveal_strlit("http://");
    reveal_strlit("https://");
    links_begin_with_their_scheme(Seq::empty(), link);
    whitespace_parts_words(before, ' ', link.push(' ') + after);
    whitespace_parts_words(link, ' ', after);
    assert forall|i: int| 0 <= i < link.len() implies !is_space(#[trigger] link[i]) by {
        assert(stays_in_link(link[i]));
    }
    assert(words(link) == seq![link]);
    lemma_cleaned(link);
    let one = seq![link];
    assert(one.drop_last() =~= Seq::<Seq<char>>::empty());
    assert(cleaned(link) == link);
    assert(one.last() == link);
    assert(link_words(one.drop_last()).len() == 0);
    assert(link_words(one) =~= seq![link]);
    lemma_link_words(one, words(after));
    lemma_link_words(words(before), one + words(after));
    assert(links_of(before.push(' ') + (link.push(' ') + after)) =~= links_of(before) + seq![link]
        + links_of(after));
}

/// Whatever is found is a link, made of what links are made of.
pub proof fn found_links_are_links(ws: Seq<Seq<char>>, k: int)
    requires
        0 <= k < link_words(ws).len(),
    ensures
        is_web_link(link_words(ws)[k]),
        forall|i: int|
            0 <= i < link_words(ws)[k].len() ==> stays_in_link(#[trigger] link_words(ws)[k][i]),
    decreases ws.len(),
{
    if ws.len() > 0 {
        let rest = link_words(ws.drop_last());
        lemma_cleaned(ws.last());
        if k < rest.len() {
            found_links_are_links(ws.drop_last(), k);
            assert(link_words(ws)[k] == rest[k]);
        }
    }
}

proof fn lemma_link_len_is(s: Seq<char>, n: int)
    requires
        0 <= n <= s.len(),
        forall|k: int| 0 <= k < n ==> !ends_link(#[trigger] s[k]),
        n < s.len() ==> ends_link(s[n]),
    ensures
        link_len(s) == n,
    decreases n,
{
    if n > 0 {
        assert(!ends_link(s[0]));
        let t = s.drop_first();
        assert forall|k: int| 0 <= k < n - 1 implies !ends_link(#[trigger] t[k]) by {
            assert(t[k] == s[k + 1]);
        }
        if n < s.len() {
            assert(t[n - 1] == s[n]);
        }
        lemma_link_len_is(t, n - 1);
    }
}

/// A link at the front of a text goes on up to the first whitespace or quote, and is the first one.
pub proof fn first_links_end_at_whitespace(secure: bool, name: Seq<char>, end: char, rest: Seq<char>)
    requires
        name.len() > 0,
        forall|i: int|
            0 <= i < name.len() ==> !is_space(#[trigger] name[i]) && name[i] != '"' && name[i] != '\'',
        is_space(end) || end == '"' || end == '\'',
    ensures
        ({
            let scheme = if secure {
                "https://"@
            } else {
                "http://"@
            };
            &&& first_link(scheme + name + seq![end] + rest) == Some(scheme + name)
            &&& first_link(scheme + name) == Some(scheme + name)
        }),
{
    reveal_strlit("http://");
    reveal_strlit("https://");
    let scheme = if secure {
        "https://"@
    } else {
        "http://"@
    };
    let n = scheme.len() as int;
    let s = scheme + name + seq![end] + rest;
    let t = scheme + name;
    assert(s.subrange(0, n) =~= scheme);
    assert(t.subrange(0, n) =~= scheme);
    assert(s.skip(n) =~= name + seq![end] + rest);
    assert(t.skip(n) =~= name);
    let tail = name + seq![end] + rest;
    assert forall|k: int| 0 <= k < name.len() implies !ends_link(#[trigger] tail[k]) by {
        assert(tail[k] == name[k]);
    }
    assert(tail[name.len() as int] == end);
    lemma_link_len_is(tail, name.len() as int);
    lemma_link_len_is(name, name.len() as int);
    assert(tail.take(name.len() as int) =~= name);
    assert(name.take(name.len() as int) =~= name);
    if !secure {
        assert(s.subrange(0, 8)[4] == s[4]);
        assert(s[4] == ':');
        if t.len() >= 8 {
            assert(t.subrange(0, 8)[4] == t[4]);
        }
    }
}

// ---------------------------------------------------------------------------
// The bot
// ---------------------------------------------------------------------------

/// The bot answers each message once: a ping with a pong, a file with its name and id, and any other
/// text with the text itself. It fetches what was sent to it from whoever sent it.
pub proof fn the_bot_answers(b: Bot, m: ApiMsg, post: Bot, h: Heard)
    requires
        hear_step(b, m, post, h),
        m.sender_id != b.ignored_sender,
        !b.seen@.contains(m.id),
    ensures
        post.seen@.contains(m.id),
        m.file_id is None && trim(m.body@).len() == 0 ==> h.reply is None,
        m.file_id is None && trim(m.body@) == "ping"@ ==> (h.reply matches Some(r) && r@ == "pong"@),
        m.file_id is None && trim(m.body@) == "PING"@ ==> (h.reply matches Some(r) && r@ == "pong"@),
        m.file_id is None && trim(m.body@).len() > 0 && trim(m.body@).len() != 4 ==> (h.reply matches Some(
            r,
        ) && r@ == "🤖 echo: "@ + trim(m.body@)),
        m.file_id matches Some(f) ==> h.fetch == Some((f, m.sender_id)) && (h.reply matches Some(r) && (
        exists|x: Seq<char>, y: Seq<char>| r@ == #[trigger] (x + f@ + y)) && (m.attachment_name matches Some(
            n,
        ) ==> exists|x: Seq<char>, y: Seq<char>| r@ == #[trigger] (x + n@ + y))),
        m.file_id is None ==> h.fetch is None,
{
    reveal_strlit("ping");
    reveal_strlit("PING");
    let low = lower("ping"@);
    assert(low.len() == 4);
    assert(lower("PING"@) =~= low);
    if m.file_id is None && trim(m.body@).len() != 4 {
        assert(lower(trim(m.body@)).len() == trim(m.body@).len());
    }
    match m.file_id {
        Some(f) => {
            let r = h.reply->0@;
            let name = match m.attachment_name {
                Some(n) => n@,
                None => "file"@,
            };
            let a = "📎 got your file \""@;
            let c = "\" (id "@;
            let e = ")"@;
            assert(r == a + name + c + f@ + e);
            assert(r =~= (a + name + c) + f@ + e);
            assert(r =~= a + name + (c + f@ + e));
        },
        None => {},
    }
}

} // verus!
