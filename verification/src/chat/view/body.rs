//! The text of a message as it is shown: lines, with the links in them.

use vstd::prelude::*;

use crate::text::{
    chars_of, char_is_space, concat2, contains_text, copy_text, find_text, first_at, is_space,
    occurs_at, split, split_at_char, text_of_range, texts,
};

verus! {

/// A piece of a text.
pub enum Segment {
    Text(String),
    Link(String),
}

/// What a piece of a text says.
pub enum SegmentModel {
    Text(Seq<char>),
    Link(Seq<char>),
}

impl View for Segment {
    type V = SegmentModel;

    open spec fn view(&self) -> SegmentModel {
        match *self {
            Segment::Text(s) => SegmentModel::Text(s@),
            Segment::Link(s) => SegmentModel::Link(s@),
        }
    }
}

pub open spec fn segment_models(v: Seq<Segment>) -> Seq<SegmentModel> {
    v.map_values(|s: Segment| s@)
}

/// Where the first link of a line begins. One without encryption comes first.
pub open spec fn link_start(s: Seq<char>) -> Option<int> {
    if contains_text(s, "http://"@) {
        Some(choose|i: int| first_at(s, "http://"@, i))
    } else if contains_text(s, "https://"@) {
        Some(choose|i: int| first_at(s, "https://"@, i))
    } else {
        None
    }
}

/// How many characters come before the first blank.
pub open spec fn word_len(s: Seq<char>) -> int
    decreases s.len(),
{
    if s.len() == 0 || is_space(s[0]) {
        0
    } else {
        1 + word_len(s.drop_first())
    }
}

/// The pieces of a line: a link reaches to the next blank.
pub open spec fn line_pieces(s: Seq<char>) -> Seq<SegmentModel>
    decreases s.len(),
{
    if s.len() == 0 {
        Seq::empty()
    } else {
        match link_start(s) {
            Some(i) => {
                let n = word_len(s.skip(i));
                let front = if i > 0 {
                    seq![SegmentModel::Text(s.take(i))]
                } else {
                    Seq::empty()
                };
                let rest = if 0 <= i && 0 < n && i + n <= s.len() {
                    line_pieces(s.skip(i + n))
                } else {
                    Seq::empty()
                };
                front + seq![SegmentModel::Link(s.subrange(i, i + n))] + rest
            },
            None => seq![SegmentModel::Text(s)],
        }
    }
}

/// The pieces of a line; an empty line is an empty piece.
pub open spec fn line_segments(s: Seq<char>) -> Seq<SegmentModel> {
    if s.len() == 0 {
        seq![SegmentModel::Text(Seq::empty())]
    } else {
        line_pieces(s)
    }
}

pub open spec fn all_segments(lines: Seq<Seq<char>>) -> Seq<SegmentModel>
    decreases lines.len(),
{
    if lines.len() == 0 {
        Seq::empty()
    } else {
        all_segments(lines.drop_last()) + line_segments(lines.last())
    }
}

/// The pieces of a text, line by line.
pub open spec fn body_segments(body: Seq<char>) -> Seq<SegmentModel> {
    all_segments(split(body, '\n'))
}

proof fn lemma_word_len(s: Seq<char>, i: int)
    requires
        0 <= i <= s.len(),
        forall|j: int| 0 <= j < i ==> !is_space(#[trigger] s[j]),
        i < s.len() ==> is_space(s[i]),
    ensures
        word_len(s) == i,
    decreases i,
{
    if i > 0 {
        assert(!is_space(s[0]));
        assert forall|j: int| 0 <= j < i - 1 implies !is_space(#[trigger] s.drop_first()[j]) by {
            assert(s.drop_first()[j] == s[j + 1]);
        }
        lemma_word_len(s.drop_first(), i - 1);
    }
}

proof fn lemma_link_start(s: Seq<char>, p: Seq<char>, i: int)
    requires
        first_at(s, p, i),
    ensures
        contains_text(s, p),
        (choose|k: int| first_at(s, p, k)) == i,
{
    let k = choose|k: int| first_at(s, p, k);
    assert(first_at(s, p, k));
    if k < i {
        assert(!occurs_at(s, p, k));
    }
    if i < k {
        assert(!occurs_at(s, p, i));
    }
}

/// A link holds more than nothing: it begins with a letter.
proof fn lemma_link_is_word(s: Seq<char>, p: Seq<char>, i: int)
    requires
        occurs_at(s, p, i),
        p.len() > 0,
        !is_space(p[0]),
    ensures
        word_len(s.skip(i)) > 0,
        i < s.len(),
{
    assert(s.subrange(i, i + p.len())[0] == s[i]);
    assert(s.skip(i)[0] == s[i]);
    lemma_word_fits(s.skip(i).drop_first());
}

fn find_link(s: &str) -> (r: Option<usize>)
    ensures
        match r {
            Some(i) => {
                &&& link_start(s@) == Some(i as int)
                &&& i < s@.len()
                &&& word_len(s@.skip(i as int)) > 0
            },
            None => link_start(s@) is None,
        },
{
    proof {
        reveal_strlit("http://");
        reveal_strlit("https://");
    }
    match find_text(s, "http://") {
        Some(i) => {
            proof {
                lemma_link_start(s@, "http://"@, i as int);
                lemma_link_is_word(s@, "http://"@, i as int);
            }
            Some(i)
        },
        None => match find_text(s, "https://") {
            Some(i) => {
                proof {
                    lemma_link_start(s@, "https://"@, i as int);
                    lemma_link_is_word(s@, "https://"@, i as int);
                }
                Some(i)
            },
            None => None,
        },
    }
}

fn word_end(v: &Vec<char>, from: usize) -> (r: usize)
    requires
        from <= v.len(),
    ensures
        from <= r <= v.len(),
        r == from + word_len(v@.skip(from as int)),
{
    let ghost s = v@.skip(from as int);
    let mut i: usize = from;
    while i < v.len() && !char_is_space(v[i])
        invariant
            from <= i <= v.len(),
            s == v@.skip(from as int),
            forall|j: int| 0 <= j < i - from ==> !is_space(#[trigger] s[j]),
        decreases v.len() - i,
    {
        proof {
            assert(s[i - from] == v@[i as int]);
        }
        i += 1;
    }
    proof {
        if i < v.len() {
            assert(s[i - from] == v@[i as int]);
        }
        lemma_word_len(s, i - from);
    }
    i
}

fn push_line(out: &mut Vec<Segment>, line: &str)
    ensures
        segment_models(final(out)@) == segment_models(old(out)@) + line_segments(line@),
{
    if line.is_empty() {
        let t = String::new();
        proof {
            assert(t@ =~= Seq::empty());
        }
        out.push(Segment::Text(t));
        proof {
            assert(segment_models(out@) =~= segment_models(old(out)@) + line_segments(line@));
        }
        return;
    }
    let ghost before = segment_models(out@);
    let mut rest: String = copy_text(line);
    proof {
        assert(segment_models(out@) + line_pieces(rest@) =~= before + line_pieces(line@));
    }
    while !rest.as_str().is_empty()
        invariant
            segment_models(out@) + line_pieces(rest@) == before + line_pieces(line@),
        decreases rest@.len(),
    {
        let ghost s = rest@;
        let ghost sofar = segment_models(out@);
        match find_link(rest.as_str()) {
            Some(i) => {
                let v = chars_of(rest.as_str());
                let end = word_end(&v, i);
                if i > 0 {
                    let front = text_of_range(&v, 0, i);
                    proof {
                        assert(front@ =~= s.take(i as int));
                    }
                    out.push(Segment::Text(front));
                }
                let link = text_of_range(&v, i, end);
                let n: usize = v.len();
                rest = text_of_range(&v, end, n);
                out.push(Segment::Link(link));
                proof {
                    assert(rest@ =~= s.skip(end as int));
                    let w = word_len(s.skip(i as int));
                    assert(link@ =~= s.subrange(i as int, i + w));
                    let front = if i > 0 {
                        seq![SegmentModel::Text(s.take(i as int))]
                    } else {
                        Seq::empty()
                    };
                    assert(line_pieces(s) == front + seq![
                        SegmentModel::Link(s.subrange(i as int, i + w)),
                    ] + line_pieces(rest@));
                    assert(segment_models(out@) =~= sofar + front + seq![
                        SegmentModel::Link(s.subrange(i as int, i + w)),
                    ]);
                    assert(segment_models(out@) + line_pieces(rest@) =~= sofar + line_pieces(s));
                }
            },
            None => {
                out.push(Segment::Text(rest));
                rest = String::new();
                proof {
                    assert(rest@ =~= Seq::empty());
                    assert(line_pieces(s) == seq![SegmentModel::Text(s)]);
                    assert(segment_models(out@) =~= sofar + seq![SegmentModel::Text(s)]);
                    assert(segment_models(out@) + line_pieces(rest@) =~= sofar + line_pieces(s));
                }
            },
        }
    }
    proof {
        assert(rest@ =~= Seq::empty());
        assert(segment_models(out@) =~= before + line_pieces(line@));
    }
}

/// The pieces of a text, line by line.
pub fn body_elements(body: &str) -> (r: Vec<Segment>)
    ensures
        segment_models(r@) == body_segments(body@),
{
    let lines = split_at_char(body, '\n');
    let ghost all = texts(lines@);
    let mut r: Vec<Segment> = Vec::new();
    let mut i: usize = 0;
    proof {
        assert(segment_models(r@) =~= Seq::empty());
    }
    while i < lines.len()
        invariant
            i <= lines.len(),
            all == texts(lines@),
            segment_models(r@) == all_segments(all.take(i as int)),
        decreases lines.len() - i,
    {
        proof {
            assert(all.take(i + 1).drop_last() =~= all.take(i as int));
            assert(all.take(i + 1).last() == lines@[i as int]@);
        }
        push_line(&mut r, lines[i].as_str());
        i += 1;
    }
    proof {
        assert(all.take(i as int) =~= all);
    }
    r
}

// ---------------------------------------------------------------------------
// Cutting
// ---------------------------------------------------------------------------

/// How many bytes a character takes.
pub open spec fn width(c: char) -> int {
    if (c as u32) < 0x80 {
        1
    } else if (c as u32) < 0x800 {
        2
    } else if (c as u32) < 0x1_0000 {
        3
    } else {
        4
    }
}

/// How many bytes a text takes.
pub open spec fn bytes_in(s: Seq<char>) -> int
    decreases s.len(),
{
    if s.len() == 0 {
        0
    } else {
        width(s[0]) + bytes_in(s.drop_first())
    }
}

/// How many characters of a text fit into a number of bytes.
pub open spec fn fitting(s: Seq<char>, room: int) -> int
    decreases s.len(),
{
    if s.len() == 0 || width(s[0]) > room {
        0
    } else {
        1 + fitting(s.drop_first(), room - width(s[0]))
    }
}

/// A text of at most two hundred bytes; a longer one is cut and marked.
pub open spec fn shortened(s: Seq<char>) -> Seq<char> {
    if bytes_in(s) > 200 {
        s.take(fitting(s, 200)) + "…"@
    } else {
        s
    }
}

fn width_of(c: char) -> (n: usize)
    ensures
        n == width(c),
{
    let code: u32 = c as u32;
    if code < 0x80 {
        1
    } else if code < 0x800 {
        2
    } else if code < 0x1_0000 {
        3
    } else {
        4
    }
}

proof fn lemma_all_fit(s: Seq<char>, room: int)
    requires
        bytes_in(s) <= room,
    ensures
        fitting(s, room) == s.len(),
        bytes_in(s) >= 0,
    decreases s.len(),
{
    if s.len() > 0 {
        lemma_bytes_in(s.drop_first());
        lemma_all_fit(s.drop_first(), room - width(s[0]));
    }
}

proof fn lemma_bytes_in(s: Seq<char>)
    ensures
        bytes_in(s) >= 0,
    decreases s.len(),
{
    if s.len() > 0 {
        lemma_bytes_in(s.drop_first());
    }
}

/// Cuts a text that is too long to be shown.
pub fn shorten(s: &str) -> (r: String)
    ensures
        r@ == shortened(s@),
{
    let v = chars_of(s);
    let mut room: usize = 200;
    let mut i: usize = 0;
    proof {
        assert(v@.skip(0) =~= v@);
    }
    while i < v.len() && width_of(v[i]) <= room
        invariant
            i <= v.len(),
            room <= 200,
            fitting(v@, 200) == i + fitting(v@.skip(i as int), room as int),
            bytes_in(v@) == 200 - room + bytes_in(v@.skip(i as int)),
        decreases v.len() - i,
    {
        proof {
            assert(v@.skip(i as int)[0] == v@[i as int]);
            assert(v@.skip(i as int).drop_first() =~= v@.skip(i + 1));
        }
        room -= width_of(v[i]);
        i += 1;
    }
    if i == v.len() {
        proof {
            assert(bytes_in(v@.skip(i as int)) == 0);
        }
        return copy_text(s);
    }
    proof {
        assert(v@.skip(i as int)[0] == v@[i as int]);
        lemma_bytes_in(v@.skip(i as int).drop_first());
    }
    let front = text_of_range(&v, 0, i);
    proof {
        assert(front@ =~= v@.take(i as int));
    }
    concat2(front.as_str(), "…")
}

/// A text is cut behind a number of bytes wherever a character ends there.
pub proof fn cut_at_the_byte(s: Seq<char>, k: int, room: int)
    requires
        0 <= k < s.len(),
        bytes_in(s.take(k)) == room,
    ensures
        fitting(s, room) == k,
    decreases k,
{
    if k > 0 {
        assert(s.take(k)[0] == s[0]);
        assert(s.take(k).drop_first() =~= s.drop_first().take(k - 1));
        lemma_bytes_in(s.take(k).drop_first());
        cut_at_the_byte(s.drop_first(), k - 1, room - width(s[0]));
    } else {
        assert(s.take(0) =~= Seq::empty());
    }
}

// ---------------------------------------------------------------------------
// Nothing of a text is lost
// ---------------------------------------------------------------------------

/// The text of some pieces.
pub open spec fn text_of_pieces(ps: Seq<SegmentModel>) -> Seq<char>
    decreases ps.len(),
{
    if ps.len() == 0 {
        Seq::empty()
    } else {
        (match ps[0] {
            SegmentModel::Text(t) => t,
            SegmentModel::Link(t) => t,
        }) + text_of_pieces(ps.drop_first())
    }
}

proof fn lemma_link_start_fits(s: Seq<char>)
    ensures
        match link_start(s) {
            Some(i) => 0 <= i < s.len() && word_len(s.skip(i)) > 0 && i + word_len(s.skip(i))
                <= s.len(),
            None => true,
        },
{
    reveal_strlit("http://");
    reveal_strlit("https://");
    if contains_text(s, "http://"@) {
        let i = lemma_first_exists(s, "http://"@);
        lemma_link_start(s, "http://"@, i);
        lemma_link_is_word(s, "http://"@, i);
        lemma_word_fits(s.skip(i));
    } else if contains_text(s, "https://"@) {
        let i = lemma_first_exists(s, "https://"@);
        lemma_link_start(s, "https://"@, i);
        lemma_link_is_word(s, "https://"@, i);
        lemma_word_fits(s.skip(i));
    }
}

proof fn lemma_word_fits(s: Seq<char>)
    ensures
        0 <= word_len(s) <= s.len(),
    decreases s.len(),
{
    if s.len() > 0 && !is_space(s[0]) {
        lemma_word_fits(s.drop_first());
    }
}

proof fn lemma_first_exists(s: Seq<char>, p: Seq<char>) -> (r: int)
    requires
        contains_text(s, p),
    ensures
        first_at(s, p, r),
{
    let i = choose|i: int| occurs_at(s, p, i);
    lemma_first_below(s, p, i)
}

proof fn lemma_first_below(s: Seq<char>, p: Seq<char>, i: int) -> (r: int)
    requires
        occurs_at(s, p, i),
    ensures
        first_at(s, p, r),
    decreases i,
{
    if exists|j: int| 0 <= j < i && occurs_at(s, p, j) {
        let j = choose|j: int| 0 <= j < i && occurs_at(s, p, j);
        lemma_first_below(s, p, j)
    } else {
        i
    }
}

proof fn lemma_pieces_concat(a: Seq<SegmentModel>, b: Seq<SegmentModel>)
    ensures
        text_of_pieces(a + b) == text_of_pieces(a) + text_of_pieces(b),
    decreases a.len(),
{
    if a.len() == 0 {
        assert(a + b =~= b);
        assert(text_of_pieces(a) + text_of_pieces(b) =~= text_of_pieces(b));
    } else {
        assert((a + b).drop_first() =~= a.drop_first() + b);
        lemma_pieces_concat(a.drop_first(), b);
        assert(text_of_pieces(a + b) =~= text_of_pieces(a) + text_of_pieces(b));
    }
}

proof fn lemma_one_piece(p: SegmentModel)
    ensures
        text_of_pieces(seq![p]) == match p {
            SegmentModel::Text(t) => t,
            SegmentModel::Link(t) => t,
        },
{
    let rest = seq![p].drop_first();
    assert(rest.len() == 0);
    assert(text_of_pieces(rest) == Seq::<char>::empty());
    assert(text_of_pieces(seq![p]) =~= match p {
        SegmentModel::Text(t) => t,
        SegmentModel::Link(t) => t,
    });
}

/// The pieces of a line are the line: nothing is lost, added or moved.
pub proof fn pieces_make_the_line(s: Seq<char>)
    ensures
        text_of_pieces(line_segments(s)) == s,
    decreases s.len(),
{
    if s.len() == 0 {
        lemma_one_piece(SegmentModel::Text(Seq::empty()));
        assert(s =~= Seq::empty());
    } else {
        match link_start(s) {
            Some(i) => {
                lemma_link_start_fits(s);
                let n = word_len(s.skip(i));
                let rest = s.skip(i + n);
                let front = if i > 0 {
                    seq![SegmentModel::Text(s.take(i))]
                } else {
                    Seq::empty()
                };
                let link = seq![SegmentModel::Link(s.subrange(i, i + n))];
                assert(line_pieces(s) == front + link + line_pieces(rest));
                if rest.len() > 0 {
                    pieces_make_the_line(rest);
                } else {
                    assert(text_of_pieces(line_pieces(rest)) =~= rest);
                }
                lemma_pieces_concat(front + link, line_pieces(rest));
                lemma_pieces_concat(front, link);
                lemma_one_piece(SegmentModel::Link(s.subrange(i, i + n)));
                if i > 0 {
                    lemma_one_piece(SegmentModel::Text(s.take(i)));
                } else {
                    assert(text_of_pieces(front) =~= s.take(i));
                }
                assert(text_of_pieces(line_pieces(s)) =~= s);
            },
            None => {
                lemma_one_piece(SegmentModel::Text(s));
            },
        }
    }
}

} // verus!
