//! Text primitives: every string is modelled by its sequence of characters.

use vstd::prelude::*;

verus! {

/// `String::push` puts one character behind the text.
pub assume_specification[ String::push ](s: &mut String, c: char)
    ensures
        final(s)@ == old(s)@.push(c),
;

/// `String::push_str` puts a whole text behind the text.
pub assume_specification[ String::push_str ](s: &mut String, other: &str)
    ensures
        final(s)@ == old(s)@ + other@,
;

/// What `str::to_lowercase` makes of a text with characters beyond ASCII: the Unicode lower case
/// mapping.
pub uninterp spec fn unicode_lowercase(s: Seq<char>) -> Seq<char>;

/// `str::to_lowercase`: of a text in ASCII, the text with `A`..`Z` turned into `a`..`z`; of any other
/// text its Unicode lower case, a function of that text alone.
#[verifier::external_body]
pub(crate) fn lowercase(s: &str) -> (r: String)
    ensures
        is_ascii_text(s@) ==> r@ == lower(s@),
        !is_ascii_text(s@) ==> r@ == unicode_lowercase(s@),
{
    s.to_lowercase()
}

/// The lower case of a text.
pub open spec fn lowered(s: Seq<char>) -> Seq<char> {
    if is_ascii_text(s) {
        lower(s)
    } else {
        unicode_lowercase(s)
    }
}

// ---------------------------------------------------------------------------
// Characters
// ---------------------------------------------------------------------------

/// The characters with the Unicode property `White_Space`.
pub open spec fn is_space(c: char) -> bool {
    let n = c as u32;
    ||| 9 <= n <= 13
    ||| n == 0x20
    ||| n == 0x85
    ||| n == 0xa0
    ||| n == 0x1680
    ||| 0x2000 <= n <= 0x200a
    ||| n == 0x2028
    ||| n == 0x2029
    ||| n == 0x202f
    ||| n == 0x205f
    ||| n == 0x3000
}

pub fn char_is_space(c: char) -> (b: bool)
    ensures
        b == is_space(c),
{
    let n: u32 = c as u32;
    (9 <= n && n <= 13) || n == 0x20 || n == 0x85 || n == 0xa0 || n == 0x1680 || (0x2000 <= n
        && n <= 0x200a) || n == 0x2028 || n == 0x2029 || n == 0x202f || n == 0x205f || n == 0x3000
}

pub open spec fn is_digit(c: char) -> bool {
    '0' <= c <= '9'
}

pub open spec fn is_ascii_letter(c: char) -> bool {
    ('a' <= c <= 'z') || ('A' <= c <= 'Z')
}

pub open spec fn is_ascii_alnum(c: char) -> bool {
    is_digit(c) || is_ascii_letter(c)
}

/// ASCII punctuation: `!`..`/`, `:`..`@`, `[`..`` ` `` and `{`..`~`.
pub open spec fn is_ascii_punct(c: char) -> bool {
    ('!' <= c <= '/') || (':' <= c <= '@') || ('[' <= c <= '`') || ('{' <= c <= '~')
}

pub fn char_is_ascii_punct(c: char) -> (b: bool)
    ensures
        b == is_ascii_punct(c),
{
    ('!' <= c && c <= '/') || (':' <= c && c <= '@') || ('[' <= c && c <= '`') || ('{' <= c && c
        <= '~')
}

/// A character with `a`..`z` turned into `A`..`Z`.
pub open spec fn ascii_upper(c: char) -> char {
    if 'a' <= c <= 'z' {
        ((c as u8) - 32) as u8 as char
    } else {
        c
    }
}

/// A character with `A`..`Z` turned into `a`..`z`.
pub open spec fn ascii_lower(c: char) -> char {
    if 'A' <= c <= 'Z' {
        ((c as u8) + 32) as u8 as char
    } else {
        c
    }
}

pub fn char_ascii_upper(c: char) -> (r: char)
    ensures
        r == ascii_upper(c),
{
    if 'a' <= c && c <= 'z' {
        ((c as u8) - 32) as char
    } else {
        c
    }
}

pub fn char_ascii_lower(c: char) -> (r: char)
    ensures
        r == ascii_lower(c),
{
    if 'A' <= c && c <= 'Z' {
        ((c as u8) + 32) as char
    } else {
        c
    }
}

pub open spec fn is_ascii_text(s: Seq<char>) -> bool {
    forall|i: int| 0 <= i < s.len() ==> (#[trigger] s[i]) as u32 <= 0x7f
}

/// A text with every ASCII letter in lower case.
pub open spec fn lower(s: Seq<char>) -> Seq<char> {
    s.map_values(|c: char| ascii_lower(c))
}

// ---------------------------------------------------------------------------
// Conversions
// ---------------------------------------------------------------------------

pub fn chars_of(s: &str) -> (v: Vec<char>)
    ensures
        v@ == s@,
{
    let mut v: Vec<char> = Vec::new();
    for c in it: s.chars()
        invariant
            v@ == it.seq().take(it.index() as int),
            it.seq() == s@,
    {
        v.push(c);
    }
    v
}

/// The text of `v[from..to]`.
pub fn text_of_range(v: &Vec<char>, from: usize, to: usize) -> (s: String)
    requires
        from <= to <= v.len(),
    ensures
        s@ == v@.subrange(from as int, to as int),
{
    let mut s: String = String::new();
    let mut i: usize = from;
    while i < to
        invariant
            from <= i <= to <= v.len(),
            s@ == v@.subrange(from as int, i as int),
        decreases to - i,
    {
        s.push(v[i]);
        i += 1;
    }
    s
}

pub fn copy_text(s: &str) -> (r: String)
    ensures
        r@ == s@,
{
    s.to_owned()
}

pub fn concat2(a: &str, b: &str) -> (r: String)
    ensures
        r@ == a@ + b@,
{
    let mut r: String = a.to_owned();
    r.push_str(b);
    r
}

pub fn concat3(a: &str, b: &str, c: &str) -> (r: String)
    ensures
        r@ == a@ + b@ + c@,
{
    let mut r: String = a.to_owned();
    r.push_str(b);
    r.push_str(c);
    r
}

pub fn concat4(a: &str, b: &str, c: &str, d: &str) -> (r: String)
    ensures
        r@ == a@ + b@ + c@ + d@,
{
    let mut r: String = a.to_owned();
    r.push_str(b);
    r.push_str(c);
    r.push_str(d);
    r
}

pub fn concat5(a: &str, b: &str, c: &str, d: &str, e: &str) -> (r: String)
    ensures
        r@ == a@ + b@ + c@ + d@ + e@,
{
    let mut r: String = a.to_owned();
    r.push_str(b);
    r.push_str(c);
    r.push_str(d);
    r.push_str(e);
    r
}

/// The contents of an optional text, empty where there is none.
pub open spec fn or_empty(s: Option<String>) -> Seq<char> {
    match s {
        Some(t) => t@,
        None => Seq::empty(),
    }
}

pub fn text_or_empty(s: &Option<String>) -> (r: String)
    ensures
        r@ == or_empty(*s),
{
    match s {
        Some(t) => t.clone(),
        None => String::new(),
    }
}

// ---------------------------------------------------------------------------
// Comparison
// ---------------------------------------------------------------------------

pub fn same_text(a: &str, b: &str) -> (r: bool)
    ensures
        r == (a@ == b@),
{
    let x = chars_of(a);
    let y = chars_of(b);
    if x.len() != y.len() {
        return false;
    }
    let mut i: usize = 0;
    while i < x.len()
        invariant
            x@ == a@,
            y@ == b@,
            x.len() == y.len(),
            i <= x.len(),
            forall|k: int| 0 <= k < i ==> x@[k] == y@[k],
        decreases x.len() - i,
    {
        if x[i] != y[i] {
            return false;
        }
        i += 1;
    }
    proof {
        assert(a@ =~= b@);
    }
    true
}

/// Whether two texts are equal but for the case of ASCII letters.
pub fn same_ignoring_ascii_case(a: &str, b: &str) -> (r: bool)
    ensures
        r == (lower(a@) == lower(b@)),
{
    let x = ascii_lowercase(a);
    let y = ascii_lowercase(b);
    same_text(x.as_str(), y.as_str())
}

pub fn ascii_lowercase(s: &str) -> (r: String)
    ensures
        r@ == lower(s@),
{
    let v = chars_of(s);
    let mut r: String = String::new();
    let mut i: usize = 0;
    while i < v.len()
        invariant
            v@ == s@,
            i <= v.len(),
            r@ == lower(s@).take(i as int),
        decreases v.len() - i,
    {
        r.push(char_ascii_lower(v[i]));
        i += 1;
        proof {
            assert(r@ =~= lower(s@).take(i as int));
        }
    }
    proof {
        assert(r@ =~= lower(s@));
    }
    r
}

/// Whether `p` stands in `s` at position `i`.
pub open spec fn occurs_at(s: Seq<char>, p: Seq<char>, i: int) -> bool {
    0 <= i && i + p.len() <= s.len() && s.subrange(i, i + p.len()) == p
}

pub open spec fn has_prefix(s: Seq<char>, p: Seq<char>) -> bool {
    occurs_at(s, p, 0)
}

pub open spec fn has_suffix(s: Seq<char>, p: Seq<char>) -> bool {
    occurs_at(s, p, s.len() - p.len())
}

/// Whether `p` stands somewhere in `s`.
pub open spec fn contains_text(s: Seq<char>, p: Seq<char>) -> bool {
    exists|i: int| occurs_at(s, p, i)
}

/// The position of the first `p` in `s`.
pub open spec fn first_at(s: Seq<char>, p: Seq<char>, i: int) -> bool {
    occurs_at(s, p, i) && forall|j: int| 0 <= j < i ==> !occurs_at(s, p, j)
}

fn matches_at(v: &Vec<char>, p: &Vec<char>, i: usize) -> (b: bool)
    ensures
        b == occurs_at(v@, p@, i as int),
{
    if p.len() > v.len() || i > v.len() - p.len() {
        return false;
    }
    let mut k: usize = 0;
    while k < p.len()
        invariant
            i + p.len() <= v.len(),
            k <= p.len(),
            forall|j: int| 0 <= j < k ==> v@[i + j] == p@[j],
        decreases p.len() - k,
    {
        if v[i + k] != p[k] {
            proof {
                assert(v@.subrange(i as int, i + p@.len())[k as int] == v@[i + k]);
            }
            return false;
        }
        k += 1;
    }
    proof {
        assert(v@.subrange(i as int, i + p@.len()) =~= p@);
    }
    true
}

pub fn starts_with(s: &str, p: &str) -> (b: bool)
    ensures
        b == has_prefix(s@, p@),
{
    matches_at(&chars_of(s), &chars_of(p), 0)
}

pub fn ends_with(s: &str, p: &str) -> (b: bool)
    ensures
        b == has_suffix(s@, p@),
{
    let v = chars_of(s);
    let q = chars_of(p);
    if q.len() > v.len() {
        return false;
    }
    matches_at(&v, &q, v.len() - q.len())
}

/// Finds the first `p` in `v` at or behind `from`.
pub fn find_from(v: &Vec<char>, p: &Vec<char>, from: usize) -> (r: Option<usize>)
    ensures
        match r {
            Some(i) => from <= i && occurs_at(v@, p@, i as int) && forall|j: int|
                from <= j < i ==> !occurs_at(v@, p@, j),
            None => forall|j: int| from <= j ==> !occurs_at(v@, p@, j),
        },
{
    let mut i: usize = from;
    while i <= v.len()
        invariant
            from <= i,
            from <= v.len() ==> i <= v.len() + 1,
            from > v.len() ==> i == from,
            forall|j: int| from <= j < i ==> !occurs_at(v@, p@, j),
        decreases v.len() + 1 - i,
    {
        if matches_at(v, p, i) {
            return Some(i);
        }
        if i == v.len() {
            return None;
        }
        i += 1;
    }
    None
}

/// Finds the first `p` in `s`, counted in characters.
pub fn find_text(s: &str, p: &str) -> (r: Option<usize>)
    ensures
        match r {
            Some(i) => first_at(s@, p@, i as int),
            None => !contains_text(s@, p@),
        },
{
    find_from(&chars_of(s), &chars_of(p), 0)
}

pub fn text_contains(s: &str, p: &str) -> (b: bool)
    ensures
        b == contains_text(s@, p@),
{
    let r = find_text(s, p);
    r.is_some()
}

// ---------------------------------------------------------------------------
// Searching for a character
// ---------------------------------------------------------------------------

/// The position of the first `c` in `s`, or the length of `s` where there is none.
pub open spec fn index_of(s: Seq<char>, c: char) -> int
    decreases s.len(),
{
    if s.len() == 0 || s[0] == c {
        0
    } else {
        1 + index_of(s.drop_first(), c)
    }
}

pub proof fn lemma_index_of(s: Seq<char>, c: char)
    ensures
        0 <= index_of(s, c) <= s.len(),
        forall|j: int| 0 <= j < index_of(s, c) ==> s[j] != c,
        index_of(s, c) < s.len() ==> s[index_of(s, c)] == c,
        index_of(s, c) < s.len() <==> s.contains(c),
    decreases s.len(),
{
    if s.len() > 0 && s[0] != c {
        lemma_index_of(s.drop_first(), c);
        assert forall|j: int| 0 <= j < index_of(s, c) implies s[j] != c by {
            if j > 0 {
                assert(s.drop_first()[j - 1] == s[j]);
            }
        }
        if s.contains(c) {
            let k = choose|k: int| 0 <= k < s.len() && s[k] == c;
            assert(s.drop_first()[k - 1] == c);
        }
    }
}

/// `index_of` is the only position with its two properties.
pub proof fn lemma_index_of_unique(s: Seq<char>, c: char, i: int)
    requires
        0 <= i <= s.len(),
        forall|j: int| 0 <= j < i ==> s[j] != c,
        i < s.len() ==> s[i] == c,
    ensures
        index_of(s, c) == i,
{
    lemma_index_of(s, c);
    let k = index_of(s, c);
    if k < i {
        assert(s[k] != c);
    }
    if i < k {
        assert(s[i] != c);
    }
}

pub fn find_char(v: &Vec<char>, c: char) -> (i: usize)
    ensures
        i == index_of(v@, c),
        i <= v.len(),
{
    let mut i: usize = 0;
    while i < v.len() && v[i] != c
        invariant
            i <= v.len(),
            forall|j: int| 0 <= j < i ==> v@[j] != c,
        decreases v.len() - i,
    {
        i += 1;
    }
    proof {
        lemma_index_of_unique(v@, c, i as int);
    }
    i
}

pub fn text_has_char(s: &str, c: char) -> (b: bool)
    ensures
        b == s@.contains(c),
{
    let v = chars_of(s);
    proof {
        lemma_index_of(v@, c);
    }
    find_char(&v, c) < v.len()
}

/// The part of a text in front of the first `c`; all of it where there is none.
pub open spec fn before(s: Seq<char>, c: char) -> Seq<char> {
    s.take(index_of(s, c))
}

/// The part of a text behind the first `c`.
pub open spec fn after(s: Seq<char>, c: char) -> Seq<char> {
    s.skip(index_of(s, c) + 1)
}

pub fn text_before(s: &str, c: char) -> (r: String)
    ensures
        r@ == before(s@, c),
{
    let v = chars_of(s);
    let i = find_char(&v, c);
    text_of_range(&v, 0, i)
}

// ---------------------------------------------------------------------------
// Trimming
// ---------------------------------------------------------------------------

/// A text without the whitespace at its front.
pub open spec fn trim_front(s: Seq<char>) -> Seq<char>
    decreases s.len(),
{
    if s.len() > 0 && is_space(s[0]) {
        trim_front(s.drop_first())
    } else {
        s
    }
}

/// A text without the whitespace at its end.
pub open spec fn trim_back(s: Seq<char>) -> Seq<char>
    decreases s.len(),
{
    if s.len() > 0 && is_space(s.last()) {
        trim_back(s.drop_last())
    } else {
        s
    }
}

/// A text without the whitespace at both ends.
pub open spec fn trim(s: Seq<char>) -> Seq<char> {
    trim_back(trim_front(s))
}

/// A text without the run of `c` at its front.
pub open spec fn trim_front_char(s: Seq<char>, c: char) -> Seq<char>
    decreases s.len(),
{
    if s.len() > 0 && s[0] == c {
        trim_front_char(s.drop_first(), c)
    } else {
        s
    }
}

/// A text without the run of `c` at its end.
pub open spec fn trim_back_char(s: Seq<char>, c: char) -> Seq<char>
    decreases s.len(),
{
    if s.len() > 0 && s.last() == c {
        trim_back_char(s.drop_last(), c)
    } else {
        s
    }
}

proof fn lemma_skip_drop_first(s: Seq<char>, i: int)
    requires
        0 <= i < s.len(),
    ensures
        s.skip(i).drop_first() == s.skip(i + 1),
        s.skip(i)[0] == s[i],
{
    assert(s.skip(i).drop_first() =~= s.skip(i + 1));
}

proof fn lemma_take_drop_last(s: Seq<char>, i: int)
    requires
        0 < i <= s.len(),
    ensures
        s.take(i).drop_last() == s.take(i - 1),
        s.take(i).last() == s[i - 1],
{
    assert(s.take(i).drop_last() =~= s.take(i - 1));
}

pub fn trim_text(s: &str) -> (r: String)
    ensures
        r@ == trim(s@),
{
    let v = chars_of(s);
    let mut from: usize = 0;
    proof {
        assert(v@.skip(0) =~= v@);
    }
    while from < v.len() && char_is_space(v[from])
        invariant
            from <= v.len(),
            trim_front(v@) == trim_front(v@.skip(from as int)),
        decreases v.len() - from,
    {
        proof {
            lemma_skip_drop_first(v@, from as int);
        }
        from += 1;
    }
    let mut to: usize = v.len();
    let ghost mid = v@.skip(from as int);
    proof {
        if from < v.len() {
            assert(mid[0] == v@[from as int]);
        }
        assert(trim_front(v@) == mid);
        assert(mid.take(mid.len() as int) =~= mid);
    }
    while to > from && char_is_space(v[to - 1])
        invariant
            from <= to <= v.len(),
            mid == v@.skip(from as int),
            trim_back(mid) == trim_back(mid.take(to - from)),
        decreases to,
    {
        proof {
            lemma_take_drop_last(mid, to - from);
        }
        to -= 1;
    }
    proof {
        if to > from {
            lemma_take_drop_last(mid, to - from);
        }
        assert(v@.subrange(from as int, to as int) =~= mid.take(to - from));
    }
    text_of_range(&v, from, to)
}

pub fn trim_start_char(s: &str, c: char) -> (r: String)
    ensures
        r@ == trim_front_char(s@, c),
{
    let v = chars_of(s);
    let mut from: usize = 0;
    proof {
        assert(v@.skip(0) =~= v@);
    }
    while from < v.len() && v[from] == c
        invariant
            from <= v.len(),
            trim_front_char(v@, c) == trim_front_char(v@.skip(from as int), c),
        decreases v.len() - from,
    {
        proof {
            lemma_skip_drop_first(v@, from as int);
        }
        from += 1;
    }
    proof {
        if from < v.len() {
            assert(v@.skip(from as int)[0] == v@[from as int]);
        }
        assert(v@.subrange(from as int, v.len() as int) =~= v@.skip(from as int));
    }
    text_of_range(&v, from, v.len())
}

pub fn trim_end_char(s: &str, c: char) -> (r: String)
    ensures
        r@ == trim_back_char(s@, c),
{
    let v = chars_of(s);
    let mut to: usize = v.len();
    proof {
        assert(v@.take(v.len() as int) =~= v@);
    }
    while to > 0 && v[to - 1] == c
        invariant
            to <= v.len(),
            trim_back_char(v@, c) == trim_back_char(v@.take(to as int), c),
        decreases to,
    {
        proof {
            lemma_take_drop_last(v@, to as int);
        }
        to -= 1;
    }
    proof {
        if to > 0 {
            lemma_take_drop_last(v@, to as int);
        }
        assert(v@.subrange(0, to as int) =~= v@.take(to as int));
    }
    text_of_range(&v, 0, to)
}

// ---------------------------------------------------------------------------
// Splitting
// ---------------------------------------------------------------------------

/// The texts of a list of strings.
pub open spec fn texts(v: Seq<String>) -> Seq<Seq<char>> {
    v.map_values(|s: String| s@)
}

/// A list of words with `word` put behind it, unless that is empty.
pub open spec fn with_word(done: Seq<Seq<char>>, word: Seq<char>) -> Seq<Seq<char>> {
    if word.len() == 0 {
        done
    } else {
        done.push(word)
    }
}

/// The finished words of a text, and the word that its end is part of.
pub open spec fn word_scan(s: Seq<char>) -> (Seq<Seq<char>>, Seq<char>)
    decreases s.len(),
{
    if s.len() == 0 {
        (Seq::empty(), Seq::empty())
    } else {
        let (done, word) = word_scan(s.drop_last());
        if is_space(s.last()) {
            (with_word(done, word), Seq::empty())
        } else {
            (done, word.push(s.last()))
        }
    }
}

/// The longest runs of characters other than whitespace, in order.
pub open spec fn words(s: Seq<char>) -> Seq<Seq<char>> {
    let (done, word) = word_scan(s);
    with_word(done, word)
}

/// The finished pieces of a text split at `sep`, and the piece that its end is part of.
pub open spec fn split_scan(s: Seq<char>, sep: char) -> (Seq<Seq<char>>, Seq<char>)
    decreases s.len(),
{
    if s.len() == 0 {
        (Seq::empty(), Seq::empty())
    } else {
        let (done, piece) = split_scan(s.drop_last(), sep);
        if s.last() == sep {
            (done.push(piece), Seq::empty())
        } else {
            (done, piece.push(s.last()))
        }
    }
}

/// The pieces between the occurrences of `sep`, empty ones too, in order.
pub open spec fn split(s: Seq<char>, sep: char) -> Seq<Seq<char>> {
    let (done, piece) = split_scan(s, sep);
    done.push(piece)
}

proof fn lemma_texts_push(v: Seq<String>, s: String)
    ensures
        texts(v.push(s)) == texts(v).push(s@),
{
    assert(texts(v.push(s)) =~= texts(v).push(s@));
}

pub fn words_of(s: &str) -> (r: Vec<String>)
    ensures
        texts(r@) == words(s@),
{
    let v = chars_of(s);
    let mut done: Vec<String> = Vec::new();
    let mut word: String = String::new();
    let mut i: usize = 0;
    proof {
        assert(v@.take(0) =~= Seq::empty());
        assert(texts(done@) =~= Seq::empty());
    }
    while i < v.len()
        invariant
            i <= v.len(),
            (texts(done@), word@) == word_scan(v@.take(i as int)),
        decreases v.len() - i,
    {
        proof {
            lemma_take_drop_last(v@, i + 1);
            lemma_texts_push(done@, word);
        }
        let c = v[i];
        if char_is_space(c) {
            if !word.as_str().is_empty() {
                done.push(word);
            }
            word = String::new();
        } else {
            word.push(c);
        }
        i += 1;
    }
    proof {
        assert(v@.take(i as int) =~= v@);
        lemma_texts_push(done@, word);
    }
    if !word.as_str().is_empty() {
        done.push(word);
    }
    done
}

pub fn split_at_char(s: &str, sep: char) -> (r: Vec<String>)
    ensures
        texts(r@) == split(s@, sep),
        r.len() >= 1,
{
    let v = chars_of(s);
    let mut done: Vec<String> = Vec::new();
    let mut piece: String = String::new();
    let mut i: usize = 0;
    proof {
        assert(v@.take(0) =~= Seq::empty());
        assert(texts(done@) =~= Seq::empty());
    }
    while i < v.len()
        invariant
            i <= v.len(),
            (texts(done@), piece@) == split_scan(v@.take(i as int), sep),
        decreases v.len() - i,
    {
        proof {
            lemma_take_drop_last(v@, i + 1);
            lemma_texts_push(done@, piece);
        }
        let c = v[i];
        if c == sep {
            done.push(piece);
            piece = String::new();
        } else {
            piece.push(c);
        }
        i += 1;
    }
    proof {
        assert(v@.take(i as int) =~= v@);
        lemma_texts_push(done@, piece);
    }
    done.push(piece);
    done
}

/// The texts one behind the other, with `sep` between neighbours.
pub open spec fn joined(parts: Seq<Seq<char>>, sep: Seq<char>) -> Seq<char>
    decreases parts.len(),
{
    if parts.len() == 0 {
        Seq::empty()
    } else if parts.len() == 1 {
        parts[0]
    } else {
        joined(parts.drop_last(), sep) + sep + parts.last()
    }
}

pub fn join_texts(parts: &Vec<String>, sep: &str) -> (r: String)
    ensures
        r@ == joined(texts(parts@), sep@),
{
    let mut r: String = String::new();
    let mut i: usize = 0;
    let ghost all = texts(parts@);
    while i < parts.len()
        invariant
            i <= parts.len(),
            all == texts(parts@),
            r@ == joined(all.take(i as int), sep@),
        decreases parts.len() - i,
    {
        proof {
            assert(all.take(i + 1).drop_last() =~= all.take(i as int));
            assert(all.take(i + 1).last() == parts@[i as int]@);
        }
        if i > 0 {
            r.push_str(sep);
        }
        r.push_str(parts[i].as_str());
        proof {
            if i == 0 {
                assert(r@ =~= parts@[0]@);
            }
        }
        i += 1;
    }
    proof {
        assert(all.take(i as int) =~= all);
    }
    r
}

// ---------------------------------------------------------------------------
// Laws
// ---------------------------------------------------------------------------

proof fn lemma_trim_front_range(s: Seq<char>) -> (a: int)
    ensures
        0 <= a <= s.len(),
        trim_front(s) == s.skip(a),
        forall|i: int| 0 <= i < a ==> is_space(#[trigger] s[i]),
        a < s.len() ==> !is_space(s[a]),
    decreases s.len(),
{
    if s.len() > 0 && is_space(s[0]) {
        let b = lemma_trim_front_range(s.drop_first());
        assert(s.drop_first().skip(b) =~= s.skip(b + 1));
        assert forall|i: int| 0 <= i < b + 1 implies is_space(#[trigger] s[i]) by {
            if i > 0 {
                assert(s.drop_first()[i - 1] == s[i]);
            }
        }
        if b + 1 < s.len() {
            assert(s.drop_first()[b] == s[b + 1]);
        }
        b + 1
    } else {
        assert(s.skip(0) =~= s);
        0
    }
}

proof fn lemma_trim_back_range(s: Seq<char>) -> (b: int)
    ensures
        0 <= b <= s.len(),
        trim_back(s) == s.take(b),
        forall|i: int| b <= i < s.len() ==> is_space(#[trigger] s[i]),
        b > 0 ==> !is_space(s[b - 1]),
    decreases s.len(),
{
    if s.len() > 0 && is_space(s.last()) {
        let b = lemma_trim_back_range(s.drop_last());
        assert(s.drop_last().take(b) =~= s.take(b));
        assert forall|i: int| b <= i < s.len() implies is_space(#[trigger] s[i]) by {
            if i < s.len() - 1 {
                assert(s.drop_last()[i] == s[i]);
            }
        }
        if b > 0 {
            assert(s.drop_last()[b - 1] == s[b - 1]);
        }
        b
    } else {
        assert(s.take(s.len() as int) =~= s);
        s.len() as int
    }
}

/// Trimming takes away the whitespace at both ends and nothing else.
pub proof fn trimming_takes_only_whitespace(s: Seq<char>)
    ensures
        exists|a: int, b: int|
            {
                &&& 0 <= a <= b <= s.len()
                &&& trim(s) == #[trigger] s.subrange(a, b)
                &&& forall|i: int| 0 <= i < a ==> is_space(#[trigger] s[i])
                &&& forall|i: int| b <= i < s.len() ==> is_space(#[trigger] s[i])
                &&& a < b ==> !is_space(s[a]) && !is_space(s[b - 1])
            },
{
    let a = lemma_trim_front_range(s);
    let t = s.skip(a);
    let n = lemma_trim_back_range(t);
    let b = a + n;
    assert(t.take(n) =~= s.subrange(a, b));
    assert forall|i: int| b <= i < s.len() implies is_space(#[trigger] s[i]) by {
        assert(t[i - a] == s[i]);
    }
    if a < b {
        assert(t[n - 1] == s[b - 1]);
        assert(s[a] == t[0]);
    }
}

/// Blanks, tabs and line ends are whitespace; the other characters of ASCII that can be seen are not.
pub proof fn visible_characters_are_no_whitespace(c: char)
    ensures
        c == ' ' || c == '\t' || c == '\n' || c == '\r' ==> is_space(c),
        '!' <= c <= '~' ==> !is_space(c),
{
}

/// Taking away a character at the front takes all of it there and nothing else.
pub proof fn trimming_the_front_takes_one_character(s: Seq<char>, c: char)
    ensures
        exists|a: int|
            0 <= a <= s.len() && trim_front_char(s, c) == #[trigger] s.skip(a) && (forall|i: int|
                0 <= i < a ==> s[i] == c) && (a < s.len() ==> s[a] != c),
    decreases s.len(),
{
    if s.len() > 0 && s[0] == c {
        let t = s.drop_first();
        trimming_the_front_takes_one_character(t, c);
        let a = choose|a: int|
            0 <= a <= t.len() && trim_front_char(t, c) == #[trigger] t.skip(a) && (forall|i: int|
                0 <= i < a ==> t[i] == c) && (a < t.len() ==> t[a] != c);
        assert(t.skip(a) =~= s.skip(a + 1));
        assert forall|i: int| 0 <= i < a + 1 implies s[i] == c by {
            if i > 0 {
                assert(t[i - 1] == s[i]);
            }
        }
        if a + 1 < s.len() {
            assert(t[a] == s[a + 1]);
        }
    } else {
        assert(s.skip(0) =~= s);
    }
}

/// Taking away a character at the end takes all of it there and nothing else.
pub proof fn trimming_the_end_takes_one_character(s: Seq<char>, c: char)
    ensures
        exists|b: int|
            0 <= b <= s.len() && trim_back_char(s, c) == #[trigger] s.take(b) && (forall|i: int|
                b <= i < s.len() ==> s[i] == c) && (b > 0 ==> s[b - 1] != c),
    decreases s.len(),
{
    if s.len() > 0 && s.last() == c {
        let t = s.drop_last();
        trimming_the_end_takes_one_character(t, c);
        let b = choose|b: int|
            0 <= b <= t.len() && trim_back_char(t, c) == #[trigger] t.take(b) && (forall|i: int|
                b <= i < t.len() ==> t[i] == c) && (b > 0 ==> t[b - 1] != c);
        assert(t.take(b) =~= s.take(b));
        assert forall|i: int| b <= i < s.len() implies s[i] == c by {
            if i < t.len() {
                assert(t[i] == s[i]);
            }
        }
    } else {
        assert(s.take(s.len() as int) =~= s);
    }
}

/// A text that holds a character is what stands in front of the first one, the character, and what
/// stands behind it; one that does not is all in front.
pub proof fn texts_part_at_a_character(s: Seq<char>, c: char)
    ensures
        !before(s, c).contains(c),
        s.contains(c) ==> s == before(s, c).push(c) + after(s, c),
        !s.contains(c) ==> before(s, c) == s,
{
    lemma_index_of(s, c);
    let i = index_of(s, c);
    if s.contains(c) {
        assert(s =~= before(s, c).push(c) + after(s, c));
    } else {
        assert(s.take(i) =~= s);
    }
}

proof fn lemma_split_scan(s: Seq<char>, sep: char)
    ensures
        !split_scan(s, sep).1.contains(sep),
        forall|i: int|
            0 <= i < split_scan(s, sep).0.len() ==> !(#[trigger] split_scan(s, sep).0[i]).contains(
                sep,
            ),
        s == joined(split_scan(s, sep).0.push(split_scan(s, sep).1), seq![sep]),
    decreases s.len(),
{
    if s.len() > 0 {
        let t = s.drop_last();
        lemma_split_scan(t, sep);
        let (done, piece) = split_scan(t, sep);
        let before = done.push(piece);
        assert(s =~= t.push(s.last()));
        if s.last() == sep {
            let now = done.push(piece).push(Seq::empty());
            assert(now.drop_last() =~= before);
            assert(joined(now, seq![sep]) =~= t + seq![sep] + Seq::empty());
        } else {
            let now = done.push(piece.push(s.last()));
            assert(now.drop_last() =~= done);
            assert(before.drop_last() =~= done);
            if done.len() == 0 {
                assert(joined(now, seq![sep]) =~= s);
            } else {
                assert(joined(before, seq![sep]) == joined(done, seq![sep]) + seq![sep] + piece);
                assert(joined(now, seq![sep]) == joined(done, seq![sep]) + seq![sep] + piece.push(
                    s.last(),
                ));
                assert(joined(now, seq![sep]) =~= t.push(s.last()));
            }
        }
    } else {
        assert(joined(Seq::<Seq<char>>::empty().push(Seq::empty()), seq![sep]) =~= s);
    }
}

/// The pieces of a text hold no separator, and put together again with it they are the text.
pub proof fn pieces_make_the_text(s: Seq<char>, sep: char)
    ensures
        split(s, sep).len() >= 1,
        forall|i: int| 0 <= i < split(s, sep).len() ==> !(#[trigger] split(s, sep)[i]).contains(sep),
        joined(split(s, sep), seq![sep]) == s,
{
    lemma_split_scan(s, sep);
    let all = split(s, sep);
    assert forall|i: int| 0 <= i < all.len() implies !(#[trigger] all[i]).contains(sep) by {
        if i < all.len() - 1 {
            assert(all[i] == split_scan(s, sep).0[i]);
        }
    }
}

/// A piece in front of a separator is split off, and the rest is split on its own.
pub proof fn splitting_goes_piece_by_piece(a: Seq<char>, sep: char, b: Seq<char>)
    requires
        !a.contains(sep),
    ensures
        split(a, sep) == seq![a],
        split(a.push(sep) + b, sep) == seq![a] + split(b, sep),
    decreases b.len(),
{
    lemma_split_one(a, sep);
    assert(split(a, sep) =~= seq![a]);
    if b.len() == 0 {
        let s = a.push(sep);
        assert(a.push(sep) + b =~= s);
        assert(s.drop_last() =~= a);
        assert(split(s, sep) =~= seq![a] + split(b, sep));
    } else {
        let t = b.drop_last();
        splitting_goes_piece_by_piece(a, sep, t);
        let s = a.push(sep) + b;
        assert(s.drop_last() =~= a.push(sep) + t);
        assert(s.last() == b.last());
        let (da, pa) = split_scan(a.push(sep) + t, sep);
        let (db, pb) = split_scan(t, sep);
        assert(da.push(pa) == seq![a] + db.push(pb));
        assert(da.push(pa).last() == pa);
        assert((seq![a] + db.push(pb)).last() == pb);
        assert(da =~= da.push(pa).drop_last());
        assert(seq![a] + db =~= (seq![a] + db.push(pb)).drop_last());
        assert(split(s, sep) =~= seq![a] + split(b, sep));
    }
}

proof fn lemma_split_one(a: Seq<char>, sep: char)
    requires
        !a.contains(sep),
    ensures
        split_scan(a, sep) == (Seq::<Seq<char>>::empty(), a),
    decreases a.len(),
{
    if a.len() > 0 {
        let t = a.drop_last();
        assert(!t.contains(sep)) by {
            if t.contains(sep) {
                let i = choose|i: int| 0 <= i < t.len() && t[i] == sep;
                assert(a[i] == sep);
            }
        }
        assert(a[a.len() - 1] != sep);
        lemma_split_one(t, sep);
        assert(t.push(a.last()) =~= a);
    } else {
        assert(a =~= Seq::empty());
    }
}

/// Texts put together with a separator: nothing stays nothing, and each further text comes behind
/// the separator.
pub proof fn joining_puts_the_separator_between(a: Seq<Seq<char>>, x: Seq<char>, sep: Seq<char>)
    ensures
        a.len() == 0 ==> joined(a, sep).len() == 0 && joined(a.push(x), sep) == x,
        a.len() > 0 ==> joined(a.push(x), sep) == joined(a, sep) + sep + x,
{
    assert(a.push(x).drop_last() =~= a);
}

/// No whitespace stands in a text.
pub open spec fn is_solid(w: Seq<char>) -> bool {
    forall|i: int| 0 <= i < w.len() ==> !is_space(#[trigger] w[i])
}

proof fn lemma_word_scan(s: Seq<char>)
    ensures
        is_solid(word_scan(s).1),
        forall|w: int|
            0 <= w < word_scan(s).0.len() ==> (#[trigger] word_scan(s).0[w]).len() > 0 && is_solid(
                word_scan(s).0[w],
            ),
    decreases s.len(),
{
    if s.len() > 0 {
        lemma_word_scan(s.drop_last());
        let (done, word) = word_scan(s.drop_last());
        let (now, piece) = word_scan(s);
        assert forall|i: int| 0 <= i < piece.len() implies !is_space(#[trigger] piece[i]) by {
            if i < word.len() {
                assert(piece[i] == word[i]);
            }
        }
        assert forall|w: int| 0 <= w < now.len() implies (#[trigger] now[w]).len() > 0 && is_solid(
            now[w],
        ) by {
            if w < done.len() {
                assert(now[w] == done[w]);
            }
        }
    }
}

/// Words are not empty and hold no whitespace.
pub proof fn words_hold_no_whitespace(s: Seq<char>, w: int, i: int)
    requires
        0 <= w < words(s).len(),
    ensures
        words(s)[w].len() > 0,
        0 <= i < words(s)[w].len() ==> !is_space(words(s)[w][i]),
{
    lemma_word_scan(s);
    let (done, word) = word_scan(s);
    if w < done.len() {
        assert(words(s)[w] == done[w]);
    }
}

proof fn lemma_word_append(a: Seq<char>, space: char, b: Seq<char>)
    requires
        is_space(space),
    ensures
        word_scan(a.push(space) + b).0 == words(a) + word_scan(b).0,
        word_scan(a.push(space) + b).1 == word_scan(b).1,
    decreases b.len(),
{
    let s = a.push(space) + b;
    if b.len() == 0 {
        assert(s =~= a.push(space));
        assert(s.drop_last() =~= a);
        assert(words(a) + Seq::empty() =~= words(a));
    } else {
        let t = b.drop_last();
        lemma_word_append(a, space, t);
        assert(s.drop_last() =~= a.push(space) + t);
        assert(s.last() == b.last());
        let (db, wb) = word_scan(t);
        assert(with_word(words(a) + db, wb) =~= words(a) + with_word(db, wb));
    }
}

/// Whitespace parts words: the words of a text are those in front of it and those behind it. A text
/// without any is one word.
pub proof fn whitespace_parts_words(a: Seq<char>, space: char, b: Seq<char>)
    requires
        is_space(space),
    ensures
        words(a.push(space) + b) == words(a) + words(b),
        a.len() > 0 && (forall|i: int| 0 <= i < a.len() ==> !is_space(#[trigger] a[i])) ==> words(a)
            == seq![a],
        a.len() == 0 ==> words(a).len() == 0,
{
    lemma_word_append(a, space, b);
    let (db, wb) = word_scan(b);
    assert(with_word(words(a) + db, wb) =~= words(a) + with_word(db, wb));
    if a.len() > 0 && (forall|i: int| 0 <= i < a.len() ==> !is_space(#[trigger] a[i])) {
        lemma_one_word(a);
        assert(words(a) =~= seq![a]);
    }
}

proof fn lemma_one_word(a: Seq<char>)
    requires
        forall|i: int| 0 <= i < a.len() ==> !is_space(#[trigger] a[i]),
    ensures
        word_scan(a) == (Seq::<Seq<char>>::empty(), a),
    decreases a.len(),
{
    if a.len() > 0 {
        let t = a.drop_last();
        assert forall|i: int| 0 <= i < t.len() implies !is_space(#[trigger] t[i]) by {
            assert(a[i] == t[i]);
        }
        lemma_one_word(t);
        assert(!is_space(a[a.len() - 1]));
        assert(t.push(a.last()) =~= a);
    } else {
        assert(a =~= Seq::empty());
    }
}

/// The case of letters: `A`..`Z` and `a`..`z` lie 32 apart, and nothing else has a case.
pub proof fn letters_have_two_cases(c: char)
    ensures
        'A' <= c <= 'Z' ==> ascii_lower(c) as u32 == c as u32 + 32 && ascii_upper(ascii_lower(c)) == c,
        'a' <= c <= 'z' ==> ascii_upper(c) as u32 == c as u32 - 32 && ascii_lower(ascii_upper(c)) == c,
        !('A' <= c <= 'Z') ==> ascii_lower(c) == c,
        !('a' <= c <= 'z') ==> ascii_upper(c) == c,
{
}

/// A text holds another one just where the other one stands in it from some position on; at the
/// front for a prefix, and at the end for a suffix.
pub proof fn texts_are_found_where_they_stand(a: Seq<char>, p: Seq<char>, b: Seq<char>)
    ensures
        contains_text(a + p + b, p),
        has_prefix(p + b, p),
        has_suffix(a + p, p),
        occurs_at(a + p + b, p, a.len() as int),
{
    assert((a + p + b).subrange(a.len() as int, a.len() as int + p.len()) =~= p);
    assert(occurs_at(a + p + b, p, a.len() as int));
    assert((p + b).subrange(0, p.len() as int) =~= p);
    assert((a + p).subrange(a.len() as int, a.len() as int + p.len()) =~= p);
}

/// What is found stands there: the text is what is in front of it, itself, and what is behind it.
pub proof fn found_texts_stand_there(s: Seq<char>, p: Seq<char>)
    ensures
        contains_text(s, p) ==> exists|a: Seq<char>, b: Seq<char>| s == #[trigger] (a + p + b),
        has_prefix(s, p) ==> exists|b: Seq<char>| s == #[trigger] (p + b),
        has_suffix(s, p) ==> exists|a: Seq<char>| s == #[trigger] (a + p),
{
    if contains_text(s, p) {
        let i = choose|i: int| occurs_at(s, p, i);
        assert(s =~= s.take(i) + p + s.skip(i + p.len()));
    }
    if has_prefix(s, p) {
        assert(s =~= p + s.skip(p.len() as int));
    }
    if has_suffix(s, p) {
        assert(s =~= s.take(s.len() - p.len()) + p);
    }
}

} // verus!
