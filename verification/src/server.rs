//! Addresses of a server.

use vstd::prelude::*;

use crate::text::{
    ascii_lower, before, chars_of, concat2, concat3, contains_text, copy_text, find_text, first_at, has_prefix,
    lemma_index_of, is_ascii_text, lowercase, lowered, occurs_at, same_text, starts_with, text_before, text_has_char,
    text_of_range, trim, trim_back_char, trim_end_char, trim_front, trim_front_char,
    trim_back, trim_start_char, trim_text, is_space,
};

verus! {

/// The address of the socket: `wss` for a server that is reached by `https`, else `ws`.
pub open spec fn socket_url(server: Seq<char>) -> Seq<char> {
    let base = trim_back_char(server, '/');
    let secure = "https://"@;
    let plain = "http://"@;
    if has_prefix(base, secure) {
        "wss://"@ + base.skip(secure.len() as int) + "/api/ws"@
    } else if has_prefix(base, plain) {
        "ws://"@ + base.skip(plain.len() as int) + "/api/ws"@
    } else {
        "ws://"@ + base + "/api/ws"@
    }
}

/// The part of `s` behind the prefix `p`.
fn strip(s: &str, p: &str) -> (r: String)
    requires
        has_prefix(s@, p@),
    ensures
        r@ == s@.skip(p@.len() as int),
{
    let v = chars_of(s);
    let n: usize = chars_of(p).len();
    proof {
        assert(v@.subrange(n as int, v@.len() as int) =~= s@.skip(n as int));
    }
    text_of_range(&v, n, v.len())
}

pub fn ws_url(server: &str) -> (r: String)
    ensures
        r@ == socket_url(server@),
{
    let base = trim_end_char(server, '/');
    if starts_with(base.as_str(), "https://") {
        let rest = strip(base.as_str(), "https://");
        concat3("wss://", rest.as_str(), "/api/ws")
    } else if starts_with(base.as_str(), "http://") {
        let rest = strip(base.as_str(), "http://");
        concat3("ws://", rest.as_str(), "/api/ws")
    } else {
        concat3("ws://", base.as_str(), "/api/ws")
    }
}

/// A path behind a server, with one slash between them.
pub open spec fn server_path(server: Seq<char>, path: Seq<char>) -> Seq<char> {
    trim_back_char(server, '/') + "/"@ + trim_front_char(path, '/')
}

pub fn api_url(server: &str, path: &str) -> (r: String)
    ensures
        r@ == server_path(server@, path@),
{
    let a = trim_end_char(server, '/');
    let b = trim_start_char(path, '/');
    concat3(a.as_str(), "/", b.as_str())
}

proof fn lemma_trim_back_char(s: Seq<char>, c: char)
    ensures
        trim_back_char(s, c).len() > 0 ==> trim_back_char(s, c).last() != c,
    decreases s.len(),
{
    if s.len() > 0 && s.last() == c {
        lemma_trim_back_char(s.drop_last(), c);
    }
}

proof fn lemma_trim_front_char(s: Seq<char>, c: char)
    ensures
        trim_front_char(s, c).len() > 0 ==> trim_front_char(s, c)[0] != c,
    decreases s.len(),
{
    if s.len() > 0 && s[0] == c {
        lemma_trim_front_char(s.drop_first(), c);
    }
}

/// However many slashes the server ends in and the path begins with, one stands between them.
pub proof fn one_slash_between(server: Seq<char>, path: Seq<char>)
    ensures
        ({
            let a = trim_back_char(server, '/');
            let b = trim_front_char(path, '/');
            &&& server_path(server, path) == a + "/"@ + b
            &&& (a.len() > 0 ==> a.last() != '/')
            &&& (b.len() > 0 ==> b[0] != '/')
            &&& server_path(server.push('/'), path) == server_path(server, path)
            &&& server_path(server, "/"@ + path) == server_path(server, path)
        }),
{
    lemma_trim_back_char(server, '/');
    lemma_trim_front_char(path, '/');
    assert(server.push('/').drop_last() =~= server);
    reveal_strlit("/");
    assert(("/"@ + path).drop_first() =~= path);
}

pub open spec fn is_local(host: Seq<char>) -> bool {
    host == "localhost"@ || host == "127.0.0.1"@ || host == "::1"@
}

pub fn is_localhost(host: &str) -> (b: bool)
    ensures
        b == is_local(host@),
{
    same_text(host, "localhost") || same_text(host, "127.0.0.1") || same_text(host, "::1")
}

/// Whether a host names a port; a bracketed IPv6 address does not count.
pub open spec fn names_port(host: Seq<char>) -> bool {
    host.contains(':') && !has_prefix(host, "["@)
}

/// The host in front of a path.
pub open spec fn host_part(s: Seq<char>) -> Seq<char> {
    before(s, '/')
}

/// The local server gets its port where none is named.
pub open spec fn with_port(host: Seq<char>) -> Seq<char> {
    if !names_port(host) && is_local(before(host, ':')) {
        host + ":3000"@
    } else {
        host
    }
}

/// A server as it was typed, with its scheme and port filled in.
pub open spec fn completed(input: Seq<char>) -> Seq<char> {
    let s = trim(input);
    if s.len() == 0 {
        "http://localhost:3000"@
    } else if contains_text(s, "://"@) {
        let i = choose|i: int| first_at(s, "://"@, i);
        lowered(s.take(i)) + "://"@ + with_port(host_part(s.skip(i + 3)))
    } else {
        let host = host_part(s);
        if is_local(before(host, ':')) {
            if names_port(host) {
                "http://"@ + host
            } else {
                "http://localhost:3000"@
            }
        } else {
            "https://"@ + host
        }
    }
}

fn has_port(host: &str) -> (b: bool)
    ensures
        b == names_port(host@),
{
    text_has_char(host, ':') && !starts_with(host, "[")
}

/// Fills in the scheme and the port of a server that a user typed: nothing, `localhost` and
/// `127.0.0.1` mean the local server on port 3000, any other name is reached by `https`, and an
/// address that is already complete stays as it is.
pub fn normalize_server(input: &str) -> (r: String)
    ensures
        r@ == completed(input@),
{
    let s = trim_text(input);
    if s.as_str().is_empty() {
        return copy_text("http://localhost:3000");
    }
    match find_text(s.as_str(), "://") {
        Some(i) => {
            let v = chars_of(s.as_str());
            proof {
                reveal_strlit("://");
                let k = choose|k: int| first_at(s@, "://"@, k);
                assert(first_at(s@, "://"@, i as int));
                assert(contains_text(s@, "://"@));
                assert(k == i) by {
                    if k < i {
                        assert(!occurs_at(s@, "://"@, k));
                    }
                    if i < k {
                        assert(!occurs_at(s@, "://"@, i as int));
                    }
                }
                assert(v@.subrange(0, i as int) =~= s@.take(i as int));
                assert(v@.subrange(i + 3, v@.len() as int) =~= s@.skip(i + 3));
            }
            let n: usize = v.len();
            let front = text_of_range(&v, 0, i);
            let scheme = lowercase(front.as_str());
            let rest = text_of_range(&v, i + 3, n);
            let host = text_before(rest.as_str(), '/');
            let base = text_before(host.as_str(), ':');
            let full = if !has_port(host.as_str()) && is_localhost(base.as_str()) {
                concat2(host.as_str(), ":3000")
            } else {
                host
            };
            concat3(scheme.as_str(), "://", full.as_str())
        },
        None => {
            let host = text_before(s.as_str(), '/');
            let base = text_before(host.as_str(), ':');
            if is_localhost(base.as_str()) {
                if has_port(host.as_str()) {
                    concat2("http://", host.as_str())
                } else {
                    copy_text("http://localhost:3000")
                }
            } else {
                concat2("https://", host.as_str())
            }
        },
    }
}

proof fn lemma_trim_kept(s: Seq<char>)
    requires
        s.len() > 0 ==> !is_space(s[0]) && !is_space(s.last()),
    ensures
        trim(s) == s,
{
    assert(trim_front(s) == s);
}

/// A trimmed text begins with no whitespace.
proof fn lemma_trimmed(s: Seq<char>)
    ensures
        trim(s).len() > 0 ==> !is_space(trim(s)[0]),
    decreases s.len(),
{
    lemma_trim_front(s);
    lemma_trim_back(trim_front(s));
}

proof fn lemma_trim_front(s: Seq<char>)
    ensures
        trim_front(s).len() > 0 ==> !is_space(trim_front(s)[0]),
    decreases s.len(),
{
    if s.len() > 0 && is_space(s[0]) {
        lemma_trim_front(s.drop_first());
    }
}

proof fn lemma_trim_back(s: Seq<char>)
    ensures
        trim_back(s).len() > 0 ==> trim_back(s)[0] == s[0],
    decreases s.len(),
{
    if s.len() > 0 && is_space(s.last()) {
        lemma_trim_back(s.drop_last());
    }
}

/// A text that holds a mark has a first one.
proof fn lemma_contained(s: Seq<char>)
    requires
        contains_text(s, "://"@),
    ensures
        exists|i: int| first_at(s, "://"@, i),
{
    let i = choose|i: int| occurs_at(s, "://"@, i);
    lemma_first_below(s, i);
}

proof fn lemma_first_below(s: Seq<char>, i: int)
    requires
        occurs_at(s, "://"@, i),
    ensures
        exists|k: int| first_at(s, "://"@, k),
    decreases i,
{
    if exists|j: int| 0 <= j < i && occurs_at(s, "://"@, j) {
        let j = choose|j: int| 0 <= j < i && occurs_at(s, "://"@, j);
        lemma_first_below(s, j);
    } else {
        assert(first_at(s, "://"@, i));
    }
}

proof fn lemma_first_mark(s: Seq<char>, n: int)
    requires
        first_at(s, "://"@, n),
    ensures
        contains_text(s, "://"@),
        (choose|i: int| first_at(s, "://"@, i)) == n,
{
    let mark = "://"@;
    let k = choose|k: int| first_at(s, mark, k);
    assert(first_at(s, mark, k));
    if k < n {
        assert(!occurs_at(s, mark, k));
    }
    if n < k {
        assert(!occurs_at(s, mark, n));
    }
}

/// A complete address is left as it is: one with a scheme in lower case in front of the first mark,
/// and a host, without a path, that needs no port of the local server.
pub proof fn complete_address_is_kept(scheme: Seq<char>, host: Seq<char>)
    requires
        lowered(scheme) == scheme,
        first_at(scheme + "://"@, "://"@, scheme.len() as int),
        with_port(host) == host,
        !host.contains('/'),
        scheme.len() > 0 ==> !is_space(scheme[0]),
        host.len() > 0 ==> !is_space(host.last()),
    ensures
        completed(scheme + "://"@ + host) == scheme + "://"@ + host,
{
    let mark = "://"@;
    let s = scheme + mark + host;
    reveal_strlit("://");
    assert(s.last() == if host.len() > 0 {
        host.last()
    } else {
        '/'
    });
    assert(s[0] == if scheme.len() > 0 {
        scheme[0]
    } else {
        ':'
    });
    lemma_trim_kept(s);
    let n = scheme.len() as int;
    assert(s.subrange(n, n + 3) =~= mark);
    assert forall|j: int| 0 <= j < n implies !occurs_at(s, mark, j) by {
        assert(!occurs_at(scheme + mark, mark, j));
        assert(s.subrange(j, j + 3) =~= (scheme + mark).subrange(j, j + 3));
    }
    lemma_first_mark(s, n);
    assert(s.take(n) =~= scheme);
    assert(s.skip(n + 3) =~= host);
    lemma_index_of(host, '/');
    assert(host.take(host.len() as int) =~= host);
}

/// The scheme that a text names in front of its first mark.
pub open spec fn typed_scheme(s: Seq<char>) -> Seq<char> {
    s.take(choose|i: int| first_at(s, "://"@, i))
}

/// The port of the local server is filled in once, and brings no path along.
proof fn lemma_with_port(host: Seq<char>)
    requires
        !host.contains('/'),
    ensures
        with_port(with_port(host)) == with_port(host),
        !with_port(host).contains('/'),
{
    let full = with_port(host);
    if !names_port(host) && is_local(before(host, ':')) {
        reveal_strlit(":3000");
        reveal_strlit("[");
        reveal_strlit("localhost");
        reveal_strlit("127.0.0.1");
        reveal_strlit("::1");
        lemma_index_of(host, ':');
        let base = before(host, ':');
        assert(base.len() > 0);
        assert(base[0] == host[0]);
        assert(full[host.len() as int] == ':');
        if has_prefix(full, "["@) {
            assert(full.subrange(0, 1)[0] == '[');
        }
        assert(names_port(full));
        if full.contains('/') {
            let i = choose|i: int| 0 <= i < full.len() && full[i] == '/';
            if i < host.len() {
                assert(host[i] == '/');
            }
        }
    }
}

proof fn lemma_host_part(s: Seq<char>)
    ensures
        !host_part(s).contains('/'),
        host_part(s).len() <= s.len(),
        forall|i: int| 0 <= i < host_part(s).len() ==> host_part(s)[i] == s[i],
{
    lemma_index_of(s, '/');
}

/// In front of the mark, the lower case of a text in ASCII has a mark where the text has one.
proof fn lemma_lowered_scheme(s: Seq<char>, n: int)
    requires
        first_at(s, "://"@, n),
        is_ascii_text(s.take(n)),
    ensures
        lowered(s.take(n)).len() == n,
        lowered(lowered(s.take(n))) == lowered(s.take(n)),
        first_at(lowered(s.take(n)) + "://"@, "://"@, n),
        n > 0 && !is_space(s[0]) ==> !is_space(lowered(s.take(n))[0]),
{
    reveal_strlit("://");
    let mark = "://"@;
    let scheme = s.take(n);
    let low = lowered(scheme);
    let all = low + mark;
    assert forall|i: int| 0 <= i < n implies (#[trigger] low[i]) as u32 <= 0x7f by {
        assert(scheme[i] as u32 <= 0x7f);
    }
    assert(lowered(low) =~= low);
    assert(all.subrange(n, n + 3) =~= mark);
    assert forall|j: int| 0 <= j < n implies !occurs_at(all, mark, j) by {
        if occurs_at(all, mark, j) {
            assert(s.subrange(n, n + 3) == mark);
            assert forall|k: int| 0 <= k < 3 implies s[j + k] == #[trigger] mark[k] by {
                assert(all.subrange(j, j + 3)[k] == mark[k]);
                if j + k < n {
                    assert(low[j + k] == ascii_lower(scheme[j + k]));
                    assert(s[j + k] == scheme[j + k]);
                } else {
                    assert(s.subrange(n, n + 3)[j + k - n] == mark[j + k - n]);
                }
            }
            assert(s.subrange(j, j + 3) =~= mark);
            assert(!occurs_at(s, mark, j));
        }
    }
    if n > 0 {
        assert(low[0] == ascii_lower(scheme[0]));
    }
}

/// Completing a server a second time changes nothing. Left out are a scheme that is not in ASCII
/// and a host that ends in whitespace in front of its path.
pub proof fn completed_server_is_kept(input: Seq<char>)
    requires
        contains_text(trim(input), "://"@) ==> is_ascii_text(typed_scheme(trim(input))),
        !is_space(completed(input).last()),
    ensures
        completed(completed(input)) == completed(input),
{
    let s = trim(input);
    let r = completed(input);
    reveal_strlit("://");
    reveal_strlit("http");
    reveal_strlit("https");
    reveal_strlit("http://");
    reveal_strlit("https://");
    reveal_strlit("localhost:3000");
    reveal_strlit("http://localhost:3000");
    reveal_strlit("[");
    if s.len() > 0 && contains_text(s, "://"@) {
        lemma_contained(s);
        let n = choose|i: int| first_at(s, "://"@, i);
        assert(first_at(s, "://"@, n));
        let host = host_part(s.skip(n + 3));
        lemma_host_part(s.skip(n + 3));
        lemma_with_port(host);
        lemma_lowered_scheme(s, n);
        lemma_trimmed(input);
        if with_port(host).len() > 0 {
            assert(r.last() == with_port(host).last());
        }
        complete_address_is_kept(lowered(s.take(n)), with_port(host));
    } else {
        let local = s.len() == 0 || (is_local(before(host_part(s), ':')) && !names_port(
            host_part(s),
        ));
        let scheme = if s.len() == 0 || is_local(before(host_part(s), ':')) {
            "http"@
        } else {
            "https"@
        };
        let host = if local {
            "localhost:3000"@
        } else {
            host_part(s)
        };
        assert(r =~= scheme + "://"@ + host);
        lemma_host_part(s);
        if local {
            assert(host[9] == ':');
            if has_prefix(host, "["@) {
                assert(host.subrange(0, 1)[0] == '[');
            }
            assert(names_port(host));
        }
        if host.len() > 0 {
            assert(r.last() == host.last());
        }
        assert(lowered(scheme) =~= scheme);
        let n = scheme.len() as int;
        assert((scheme + "://"@).subrange(n, n + 3) =~= "://"@);
        assert forall|j: int| 0 <= j < n implies !occurs_at(scheme + "://"@, "://"@, j) by {
            if occurs_at(scheme + "://"@, "://"@, j) {
                assert((scheme + "://"@).subrange(j, j + 3)[0] == ':');
            }
        }
        complete_address_is_kept(scheme, host);
    }
}

/// A text in ASCII without whitespace need not be completed twice.
pub proof fn plain_server_is_completed_once(input: Seq<char>)
    requires
        is_ascii_text(input),
        forall|i: int| 0 <= i < input.len() ==> !is_space(#[trigger] input[i]),
    ensures
        completed(completed(input)) == completed(input),
{
    let s = input;
    reveal_strlit("://");
    reveal_strlit("http://");
    reveal_strlit("https://");
    reveal_strlit(":3000");
    reveal_strlit("http://localhost:3000");
    lemma_trim_kept(s);
    let r = completed(s);
    if s.len() > 0 && contains_text(s, "://"@) {
        lemma_contained(s);
        let n = choose|i: int| first_at(s, "://"@, i);
        assert(first_at(s, "://"@, n));
        let rest = s.skip(n + 3);
        lemma_host_part(rest);
        let host = host_part(rest);
        if host.len() > 0 {
            assert(host.last() == rest[host.len() - 1]);
            assert(rest[host.len() - 1] == s[n + 3 + host.len() - 1]);
        }
        assert(r.last() == if with_port(host).len() > 0 {
            with_port(host).last()
        } else {
            '/'
        });
    } else if s.len() > 0 {
        lemma_host_part(s);
        let host = host_part(s);
        if host.len() > 0 {
            assert(host.last() == s[host.len() - 1]);
        }
    }
    completed_server_is_kept(input);
}

} // verus!
