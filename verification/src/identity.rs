//! How users and conversations are called, and how they are written down by others.

use vstd::prelude::*;
use vstd::utf8::encode_utf8;

use crate::chat::types::{Conversation, Member, Rgb};
use crate::data_url::lemma_first_at_unique;
use crate::number::{decimal, parse_u64, parsed, u64_text};
use crate::preview::{behind_scheme, skip_scheme};
use crate::text::{
    ascii_upper, before, char_ascii_upper, char_is_space, chars_of, concat2, concat3, concat4,
    contains_text, copy_text, find_text, first_at, has_prefix, is_space, join_texts, joined,
    occurs_at, same_text, starts_with, text_before, text_of_range, texts,
    texts_are_found_where_they_stand, texts_part_at_a_character, trim, trim_text, words, words_of,
};

verus! {

// ---------------------------------------------------------------------------
// Initials and colours
// ---------------------------------------------------------------------------

/// The first letter of a word as a capital.
pub open spec fn first_letter(w: Seq<char>) -> Seq<char> {
    if w.len() > 0 {
        seq![ascii_upper(w[0])]
    } else {
        Seq::empty()
    }
}

/// The first letters of the first two words of a name; a question mark where it has none.
pub open spec fn initials_of(name: Seq<char>) -> Seq<char> {
    let ws = words(name);
    let a = if ws.len() > 0 {
        first_letter(ws[0])
    } else {
        Seq::empty()
    };
    let b = if ws.len() > 1 {
        first_letter(ws[1])
    } else {
        Seq::empty()
    };
    if (a + b).len() == 0 {
        seq!['?']
    } else {
        a + b
    }
}

fn push_first_letter(out: &mut String, w: &str)
    ensures
        final(out)@ == old(out)@ + first_letter(w@),
{
    let v = chars_of(w);
    if v.len() > 0 {
        out.push(char_ascii_upper(v[0]));
    }
    proof {
        assert(out@ =~= old(out)@ + first_letter(w@));
    }
}

pub fn initials(name: &str) -> (r: String)
    ensures
        r@ == initials_of(name@),
{
    let ws = words_of(name);
    let ghost all = words(name@);
    proof {
        assert(all.len() == ws.len());
        if all.len() > 0 {
            assert(texts(ws@)[0] == ws@[0]@);
        }
        if all.len() > 1 {
            assert(texts(ws@)[1] == ws@[1]@);
        }
    }
    let mut out: String = String::new();
    if ws.len() > 0 {
        push_first_letter(&mut out, ws[0].as_str());
    }
    if ws.len() > 1 {
        push_first_letter(&mut out, ws[1].as_str());
    }
    if out.as_str().is_empty() {
        out.push('?');
    }
    proof {
        assert(out@ =~= initials_of(name@));
    }
    out
}

/// The characters of a text that are not whitespace.
pub open spec fn solid(s: Seq<char>) -> Seq<char>
    decreases s.len(),
{
    if s.len() == 0 {
        Seq::empty()
    } else if is_space(s.last()) {
        solid(s.drop_last())
    } else {
        solid(s.drop_last()).push(s.last())
    }
}

/// The first two characters of a name that are not whitespace, as capitals; a question mark where
/// there is none.
pub open spec fn letters_of(name: Seq<char>) -> Seq<char> {
    let s = solid(name);
    if s.len() == 0 {
        seq!['?']
    } else if s.len() == 1 || s[1] == '\0' {
        seq![ascii_upper(s[0])]
    } else {
        seq![ascii_upper(s[0]), ascii_upper(s[1])]
    }
}

fn solid_chars(s: &str) -> (r: Vec<char>)
    ensures
        r@ == solid(s@),
{
    let v = chars_of(s);
    let mut r: Vec<char> = Vec::new();
    let mut i: usize = 0;
    while i < v.len()
        invariant
            i <= v.len(),
            r@ == solid(v@.take(i as int)),
        decreases v.len() - i,
    {
        proof {
            assert(v@.take(i + 1).drop_last() =~= v@.take(i as int));
        }
        if !char_is_space(v[i]) {
            r.push(v[i]);
        }
        i += 1;
    }
    proof {
        assert(v@.take(i as int) =~= v@);
    }
    r
}

pub fn user_initials(name: &str) -> (r: String)
    ensures
        r@ == letters_of(name@),
{
    let s = solid_chars(name);
    let mut r: String = String::new();
    if s.len() == 0 {
        r.push('?');
    } else {
        r.push(char_ascii_upper(s[0]));
        if s.len() > 1 && s[1] != '\0' {
            r.push(char_ascii_upper(s[1]));
        }
    }
    proof {
        assert(r@ =~= letters_of(name@));
    }
    r
}

/// The hash of a name: each byte is added to 31 times what was there, in 32 bits.
pub open spec fn name_hash(bytes: Seq<u8>) -> nat
    decreases bytes.len(),
{
    if bytes.len() == 0 {
        0
    } else {
        (name_hash(bytes.drop_last()) * 31 + bytes.last() as nat) % 0x1_0000_0000
    }
}

pub fn hash_name(name: &str) -> (h: u32)
    ensures
        h == name_hash(encode_utf8(name@)),
{
    let b = name.as_bytes();
    let mut h: u64 = 0;
    let mut i: usize = 0;
    while i < b.len()
        invariant
            i <= b.len(),
            b@ == encode_utf8(name@),
            h < 0x1_0000_0000,
            h == name_hash(b@.take(i as int)),
        decreases b.len() - i,
    {
        proof {
            assert(b@.take(i + 1).drop_last() =~= b@.take(i as int));
            assert(b@.take(i + 1).last() == b@[i as int]);
        }
        h = (h * 31 + b[i] as u64) % 0x1_0000_0000;
        i += 1;
    }
    proof {
        assert(b@.take(i as int) =~= b@);
    }
    h as u32
}

/// The hue of a name, in degrees.
pub fn name_hue(name: &str) -> (h: u32)
    ensures
        h == name_hash(encode_utf8(name@)) % 360,
        h < 360,
{
    hash_name(name) % 360
}

/// The colours behind initials.
pub open spec fn palette(i: nat) -> Rgb {
    if i == 0 {
        Rgb { r: 0xe5, g: 0x63, b: 0x7c }
    } else if i == 1 {
        Rgb { r: 0xf2, g: 0x9a, b: 0x2e }
    } else if i == 2 {
        Rgb { r: 0xdf, g: 0xb6, b: 0x2e }
    } else if i == 3 {
        Rgb { r: 0x7a, g: 0xb8, b: 0x54 }
    } else if i == 4 {
        Rgb { r: 0x2a, g: 0xb0, b: 0x9a }
    } else if i == 5 {
        Rgb { r: 0x4f, g: 0x9d, b: 0xe9 }
    } else if i == 6 {
        Rgb { r: 0x9a, g: 0x77, b: 0xe0 }
    } else {
        Rgb { r: 0xe0, g: 0x7d, b: 0xc9 }
    }
}

/// The colour behind the initials of a name.
pub open spec fn colour_of_name(name: Seq<char>) -> Rgb {
    palette(name_hash(encode_utf8(name)) % 8)
}

pub fn avatar_color(name: &str) -> (c: Rgb)
    ensures
        c == colour_of_name(name@),
{
    let i: u32 = hash_name(name) % 8;
    if i == 0 {
        Rgb { r: 0xe5, g: 0x63, b: 0x7c }
    } else if i == 1 {
        Rgb { r: 0xf2, g: 0x9a, b: 0x2e }
    } else if i == 2 {
        Rgb { r: 0xdf, g: 0xb6, b: 0x2e }
    } else if i == 3 {
        Rgb { r: 0x7a, g: 0xb8, b: 0x54 }
    } else if i == 4 {
        Rgb { r: 0x2a, g: 0xb0, b: 0x9a }
    } else if i == 5 {
        Rgb { r: 0x4f, g: 0x9d, b: 0xe9 }
    } else if i == 6 {
        Rgb { r: 0x9a, g: 0x77, b: 0xe0 }
    } else {
        Rgb { r: 0xe0, g: 0x7d, b: 0xc9 }
    }
}

// ---------------------------------------------------------------------------
// Names of members
// ---------------------------------------------------------------------------

/// The position of the first member with `id`, or the number of members where there is none.
pub open spec fn member_index(ms: Seq<Member>, id: u64) -> int
    decreases ms.len(),
{
    if ms.len() == 0 || ms[0].id == id {
        0
    } else {
        1 + member_index(ms.drop_first(), id)
    }
}

proof fn lemma_member_index(ms: Seq<Member>, id: u64, i: int)
    requires
        0 <= i <= ms.len(),
        forall|j: int| 0 <= j < i ==> (#[trigger] ms[j]).id != id,
        i < ms.len() ==> ms[i].id == id,
    ensures
        member_index(ms, id) == i,
    decreases i,
{
    if i > 0 {
        assert(ms[0].id != id);
        assert forall|j: int| 0 <= j < i - 1 implies (#[trigger] ms.drop_first()[j]).id != id by {
            assert(ms.drop_first()[j] == ms[j + 1]);
        }
        lemma_member_index(ms.drop_first(), id, i - 1);
    }
}

pub fn find_member(ms: &Vec<Member>, id: u64) -> (r: Option<usize>)
    ensures
        match r {
            Some(i) => i < ms.len() && i == member_index(ms@, id) && ms@[i as int].id == id,
            None => member_index(ms@, id) == ms@.len(),
        },
{
    let mut i: usize = 0;
    while i < ms.len()
        invariant
            i <= ms.len(),
            forall|j: int| 0 <= j < i ==> (#[trigger] ms@[j]).id != id,
        decreases ms.len() - i,
    {
        if ms[i].id == id {
            proof {
                lemma_member_index(ms@, id, i as int);
            }
            return Some(i);
        }
        i += 1;
    }
    proof {
        lemma_member_index(ms@, id, i as int);
    }
    None
}

/// The name that a member chose to be shown, or else the user name.
pub open spec fn shown_name(m: Member) -> Seq<char> {
    if m.display_name@.len() == 0 {
        m.username@
    } else {
        m.display_name@
    }
}

pub fn member_name(m: &Member) -> (r: String)
    ensures
        r@ == shown_name(*m),
{
    if m.display_name.as_str().is_empty() {
        m.username.clone()
    } else {
        m.display_name.clone()
    }
}

/// A user of whom nothing but the id is known.
pub open spec fn nameless(id: u64) -> Seq<char> {
    "user "@ + decimal(id as nat)
}

pub fn nameless_user(id: u64) -> (r: String)
    ensures
        r@ == nameless(id),
{
    concat2("user ", u64_text(id).as_str())
}

/// Who sent a message, as the chat client shows it.
pub open spec fn sender_text(ms: Seq<Member>, sender: u64, me: Option<u64>) -> Seq<char> {
    let i = member_index(ms, sender);
    if me == Some(sender) {
        "You"@
    } else if i < ms.len() {
        shown_name(ms[i])
    } else {
        nameless(sender)
    }
}

/// Who sent a message.
pub fn sender_name(members: &Vec<Member>, sender_id: u64, self_id: Option<u64>) -> (r: String)
    ensures
        r@ == sender_text(members@, sender_id, self_id),
{
    if is_me(self_id, sender_id) {
        return copy_text("You");
    }
    match find_member(members, sender_id) {
        Some(i) => member_name(&members[i]),
        None => nameless_user(sender_id),
    }
}

pub fn is_me(me: Option<u64>, id: u64) -> (b: bool)
    ensures
        b == (me == Some(id)),
{
    match me {
        Some(x) => x == id,
        None => false,
    }
}

/// The position of the first member other than the user, or the number of members.
pub open spec fn first_other(ms: Seq<Member>, me: Option<u64>) -> int
    decreases ms.len(),
{
    if ms.len() == 0 || me != Some(ms[0].id) {
        0
    } else {
        1 + first_other(ms.drop_first(), me)
    }
}

proof fn lemma_first_other(ms: Seq<Member>, me: Option<u64>, i: int)
    requires
        0 <= i <= ms.len(),
        forall|j: int| 0 <= j < i ==> me == Some((#[trigger] ms[j]).id),
        i < ms.len() ==> me != Some(ms[i].id),
    ensures
        first_other(ms, me) == i,
    decreases i,
{
    if i > 0 {
        assert(me == Some(ms[0].id));
        assert forall|j: int| 0 <= j < i - 1 implies me == Some((#[trigger] ms.drop_first()[j]).id) by {
            assert(ms.drop_first()[j] == ms[j + 1]);
        }
        lemma_first_other(ms.drop_first(), me, i - 1);
    }
}

/// The first member other than the user.
pub fn find_other(ms: &Vec<Member>, me: Option<u64>) -> (r: Option<usize>)
    ensures
        match r {
            Some(i) => i < ms.len() && i == first_other(ms@, me),
            None => first_other(ms@, me) == ms@.len(),
        },
{
    let mut i: usize = 0;
    while i < ms.len()
        invariant
            i <= ms.len(),
            forall|j: int| 0 <= j < i ==> me == Some((#[trigger] ms@[j]).id),
        decreases ms.len() - i,
    {
        if !is_me(me, ms[i].id) {
            proof {
                lemma_first_other(ms@, me, i as int);
            }
            return Some(i);
        }
        i += 1;
    }
    proof {
        lemma_first_other(ms@, me, i as int);
    }
    None
}

/// Who sent a message, as the desktop client shows it: with the handle.
pub open spec fn desktop_sender_text(ms: Seq<Member>, sender: u64, me: Option<u64>) -> Seq<char> {
    let i = member_index(ms, sender);
    if me == Some(sender) {
        "You"@
    } else if i < ms.len() && ms[i].username@.len() > 0 {
        if ms[i].display_name@.len() == 0 {
            "@"@ + ms[i].username@
        } else {
            "@"@ + ms[i].username@ + " ("@ + ms[i].display_name@ + ")"@
        }
    } else {
        nameless(sender)
    }
}

/// Who sent a message, with the handle.
pub fn desktop_sender_name(members: &Vec<Member>, sender_id: u64, self_id: Option<u64>) -> (r: String)
    ensures
        r@ == desktop_sender_text(members@, sender_id, self_id),
{
    if is_me(self_id, sender_id) {
        return copy_text("You");
    }
    match find_member(members, sender_id) {
        Some(i) => {
            let m = &members[i];
            if m.username.as_str().is_empty() {
                nameless_user(sender_id)
            } else if m.display_name.as_str().is_empty() {
                concat2("@", m.username.as_str())
            } else {
                let mut r = concat4(
                    "@",
                    m.username.as_str(),
                    " (",
                    m.display_name.as_str(),
                );
                r.push_str(")");
                r
            }
        },
        None => nameless_user(sender_id),
    }
}

// ---------------------------------------------------------------------------
// Titles of conversations
// ---------------------------------------------------------------------------

/// The name of a member in a title.
pub open spec fn title_name(m: Member) -> Seq<char> {
    if m.username@.len() == 0 {
        nameless(m.id)
    } else {
        shown_name(m)
    }
}

/// The names of the members other than the user.
pub open spec fn other_names(ms: Seq<Member>, me: Option<u64>) -> Seq<Seq<char>>
    decreases ms.len(),
{
    if ms.len() == 0 {
        Seq::empty()
    } else if me == Some(ms.last().id) {
        other_names(ms.drop_last(), me)
    } else {
        other_names(ms.drop_last(), me).push(title_name(ms.last()))
    }
}

/// The title of a conversation: the name of the other member, or those of all others.
pub open spec fn title_of(c: Conversation, me: Option<u64>) -> Seq<char> {
    let names = other_names(c.members@, me);
    if c.kind@ == "group"@ || names.len() != 1 {
        if names.len() == 0 {
            "Conversation "@ + decimal(c.id as nat)
        } else {
            "Group: "@ + joined(names, ", "@)
        }
    } else {
        names[0]
    }
}

fn name_in_title(m: &Member) -> (r: String)
    ensures
        r@ == title_name(*m),
{
    if m.username.as_str().is_empty() {
        nameless_user(m.id)
    } else {
        member_name(m)
    }
}

fn names_of_others(ms: &Vec<Member>, me: Option<u64>) -> (r: Vec<String>)
    ensures
        texts(r@) == other_names(ms@, me),
{
    let mut r: Vec<String> = Vec::new();
    let mut i: usize = 0;
    proof {
        assert(texts(r@) =~= Seq::empty());
    }
    while i < ms.len()
        invariant
            i <= ms.len(),
            texts(r@) == other_names(ms@.take(i as int), me),
        decreases ms.len() - i,
    {
        proof {
            assert(ms@.take(i + 1).drop_last() =~= ms@.take(i as int));
        }
        if !is_me(me, ms[i].id) {
            let ghost sofar = r@;
            r.push(name_in_title(&ms[i]));
            proof {
                assert(texts(r@) =~= texts(sofar).push(title_name(ms@[i as int])));
            }
        }
        i += 1;
    }
    proof {
        assert(ms@.take(i as int) =~= ms@);
    }
    r
}

/// The title of a conversation.
pub fn conversation_title(c: &Conversation, self_id: Option<u64>) -> (r: String)
    ensures
        r@ == title_of(*c, self_id),
{
    let names = names_of_others(&c.members, self_id);
    proof {
        assert(texts(names@).len() == names.len());
    }
    if same_text(c.kind.as_str(), "group") || names.len() != 1 {
        if names.len() == 0 {
            return concat2("Conversation ", u64_text(c.id).as_str());
        }
        let list = join_texts(&names, ", ");
        concat2("Group: ", list.as_str())
    } else {
        proof {
            assert(texts(names@)[0] == names@[0]@);
        }
        names[0].clone()
    }
}

// ---------------------------------------------------------------------------
// Writing someone down
// ---------------------------------------------------------------------------

/// How far a user name goes on from the front of `s`: up to a slash, a number sign or a question
/// mark.
pub open spec fn name_len(s: Seq<char>) -> int
    decreases s.len(),
{
    if s.len() == 0 || s[0] == '/' || s[0] == '#' || s[0] == '?' {
        0
    } else {
        1 + name_len(s.drop_first())
    }
}

/// The user name and the domain in the address of a profile.
pub open spec fn profile_parts(url: Seq<char>) -> Option<(Seq<char>, Seq<char>)> {
    let rest = behind_scheme(url);
    if contains_text(rest, "/@"@) {
        let i = choose|i: int| first_at(rest, "/@"@, i);
        let domain = before(rest.take(i), '/');
        let tail = rest.skip(i + 2);
        let user = trim(tail.take(name_len(tail)));
        if user.len() == 0 || domain.len() == 0 {
            None
        } else {
            Some((user, domain))
        }
    } else {
        None
    }
}

/// The handle of the user whose profile an address shows.
pub open spec fn handle_of_url(url: Seq<char>) -> Option<Seq<char>> {
    match profile_parts(url) {
        Some((user, domain)) => Some("@"@ + user + "@"@ + domain),
        None => None,
    }
}

proof fn lemma_name_len(s: Seq<char>, n: int)
    requires
        0 <= n <= s.len(),
        forall|k: int| 0 <= k < n ==> s[k] != '/' && s[k] != '#' && s[k] != '?',
        n < s.len() ==> s[n] == '/' || s[n] == '#' || s[n] == '?',
    ensures
        name_len(s) == n,
    decreases n,
{
    if n > 0 {
        assert forall|k: int| 0 <= k < n - 1 implies s.drop_first()[k] != '/' && s.drop_first()[k]
            != '#' && s.drop_first()[k] != '?' by {
            assert(s.drop_first()[k] == s[k + 1]);
        }
        lemma_name_len(s.drop_first(), n - 1);
    }
}

/// Turns the address of a profile, with or without a scheme, into a handle.
pub fn url_to_handle(s: &str) -> (r: Option<String>)
    ensures
        match r {
            Some(h) => handle_of_url(s@) == Some(h@),
            None => handle_of_url(s@) is None,
        },
{
    let rest = skip_scheme(s);
    let i = match find_text(rest.as_str(), "/@") {
        Some(i) => i,
        None => return None,
    };
    let v = chars_of(rest.as_str());
    let n: usize = v.len();
    proof {
        reveal_strlit("/@");
        assert(first_at(rest@, "/@"@, i as int));
        assert(contains_text(rest@, "/@"@));
        let k = choose|k: int| first_at(rest@, "/@"@, k);
        assert(k == i) by {
            if k < i {
                assert(!occurs_at(rest@, "/@"@, k));
            }
            if i < k {
                assert(!occurs_at(rest@, "/@"@, i as int));
            }
        }
        assert(occurs_at(rest@, "/@"@, i as int));
    }
    let front = text_of_range(&v, 0, i);
    let domain = text_before(front.as_str(), '/');
    let from: usize = i + 2;
    let mut to: usize = from;
    let ghost tail = rest@.skip(from as int);
    while to < n && v[to] != '/' && v[to] != '#' && v[to] != '?'
        invariant
            from <= to <= n,
            n == v.len(),
            v@ == rest@,
            tail == rest@.skip(from as int),
            forall|k: int| 0 <= k < to - from ==> tail[k] != '/' && tail[k] != '#' && tail[k] != '?',
        decreases n - to,
    {
        proof {
            assert(tail[to - from] == v@[to as int]);
        }
        to += 1;
    }
    proof {
        if to < n {
            assert(tail[to - from] == v@[to as int]);
        }
        lemma_name_len(tail, to - from);
        assert(v@.subrange(from as int, to as int) =~= tail.take(to - from));
        assert(v@.subrange(0, i as int) =~= rest@.take(i as int));
    }
    let raw = text_of_range(&v, from, to);
    let user = trim_text(raw.as_str());
    if user.as_str().is_empty() || domain.as_str().is_empty() {
        return None;
    }
    Some(concat4("@", user.as_str(), "@", domain.as_str()))
}

/// Someone to talk to, by id or by handle.
pub enum TargetModel {
    Id(u64),
    Handle(Seq<char>),
}

/// What an entry denotes: a number is an id, what begins with `@` is a handle, and the address of a
/// profile stands for its handle.
pub open spec fn target_of(s: Seq<char>) -> Option<TargetModel> {
    match parsed(s, u64::MAX as nat) {
        Some(n) => Some(TargetModel::Id(n as u64)),
        None => if has_prefix(s, "@"@) {
            Some(TargetModel::Handle(s))
        } else {
            match handle_of_url(s) {
                Some(h) => Some(TargetModel::Handle(h)),
                None => None,
            }
        },
    }
}

pub open spec fn says_target(r: (Option<u64>, Option<String>), t: TargetModel) -> bool {
    match t {
        TargetModel::Id(n) => r.0 == Some(n) && r.1 is None,
        TargetModel::Handle(h) => r.0 is None && (r.1 matches Some(x) && x@ == h),
    }
}

/// Reads an entry: a user id, a handle, or the address of a profile.
pub fn conversation_target(input: &str) -> (r: Result<(Option<u64>, Option<String>), String>)
    ensures
        ({
            let s = trim(input@);
            match r {
                Ok(t) => s.len() > 0 && target_of(s) is Some && says_target(t, target_of(s)->0),
                Err(e) => if s.len() == 0 {
                    e@ == "enter a user id, @handle, or profile URL"@
                } else {
                    target_of(s) is None && e@
                        == "enter a numeric user id, @handle, or profile URL"@
                },
            }
        }),
{
    let s = trim_text(input);
    if s.as_str().is_empty() {
        return Err(copy_text("enter a user id, @handle, or profile URL"));
    }
    if let Some(id) = parse_u64(s.as_str()) {
        return Ok((Some(id), None));
    }
    if starts_with(s.as_str(), "@") {
        return Ok((None, Some(s)));
    }
    match url_to_handle(s.as_str()) {
        Some(h) => Ok((None, Some(h))),
        None => Err(copy_text("enter a numeric user id, @handle, or profile URL")),
    }
}

/// The characters that part the entries of a list.
pub open spec fn parts_entries(c: char) -> bool {
    c == ',' || c == ' ' || c == '\t' || c == '\n'
}

/// The finished entries of a list, and the entry that its end is part of.
pub open spec fn entry_scan(s: Seq<char>) -> (Seq<Seq<char>>, Seq<char>)
    decreases s.len(),
{
    if s.len() == 0 {
        (Seq::empty(), Seq::empty())
    } else {
        let (done, piece) = entry_scan(s.drop_last());
        if parts_entries(s.last()) {
            (done.push(piece), Seq::empty())
        } else {
            (done, piece.push(s.last()))
        }
    }
}

/// The entries of a list, empty ones too.
pub open spec fn entries(s: Seq<char>) -> Seq<Seq<char>> {
    let (done, piece) = entry_scan(s);
    done.push(piece)
}

/// What the entries of a list denote: ids and handles in order, or the first entry that denotes
/// nobody.
pub open spec fn targets_of(es: Seq<Seq<char>>) -> Result<(Seq<u64>, Seq<Seq<char>>), Seq<char>>
    decreases es.len(),
{
    if es.len() == 0 {
        Ok((Seq::empty(), Seq::empty()))
    } else {
        match targets_of(es.drop_last()) {
            Err(e) => Err(e),
            Ok((ids, handles)) => {
                let t = trim(es.last());
                if t.len() == 0 {
                    Ok((ids, handles))
                } else {
                    match target_of(t) {
                        Some(TargetModel::Id(n)) => Ok((ids.push(n), handles)),
                        Some(TargetModel::Handle(h)) => Ok((ids, handles.push(h))),
                        None => Err(t),
                    }
                }
            },
        }
    }
}

fn split_entries(s: &str) -> (r: Vec<String>)
    ensures
        texts(r@) == entries(s@),
{
    let v = chars_of(s);
    let mut done: Vec<String> = Vec::new();
    let mut piece: String = String::new();
    let mut i: usize = 0;
    proof {
        assert(v@.take(0) =~= Seq::empty());
        assert(texts(done@) =~= Seq::empty());
    }
    while i < v.len()
        invariant
            i <= v.len(),
            (texts(done@), piece@) == entry_scan(v@.take(i as int)),
        decreases v.len() - i,
    {
        proof {
            assert(v@.take(i + 1).drop_last() =~= v@.take(i as int));
            assert(v@.take(i + 1).last() == v@[i as int]);
        }
        let c = v[i];
        if c == ',' || c == ' ' || c == '\t' || c == '\n' {
            let ghost sofar = done@;
            let ghost p = piece@;
            done.push(piece);
            proof {
                assert(texts(done@) =~= texts(sofar).push(p));
            }
            piece = String::new();
        } else {
            piece.push(c);
        }
        i += 1;
    }
    proof {
        assert(v@.take(i as int) =~= v@);
    }
    let ghost sofar = done@;
    let ghost p = piece@;
    done.push(piece);
    proof {
        assert(texts(done@) =~= texts(sofar).push(p));
    }
    done
}

proof fn lemma_targets_error(es: Seq<Seq<char>>, i: int)
    requires
        0 <= i <= es.len(),
        targets_of(es.take(i)) is Err,
    ensures
        targets_of(es) == targets_of(es.take(i)),
    decreases es.len() - i,
{
    if i < es.len() {
        assert(es.take(i + 1).drop_last() =~= es.take(i));
        lemma_targets_error(es, i + 1);
    } else {
        assert(es.take(i) =~= es);
    }
}

/// Reads a list of entries, parted by commas or blanks, into user ids and handles.
pub fn parse_targets(input: &str) -> (r: Result<(Vec<u64>, Vec<String>), String>)
    ensures
        match targets_of(entries(input@)) {
            Ok((ids, handles)) => if ids.len() == 0 && handles.len() == 0 {
                r matches Err(e) && e@
                    == "enter at least one user id, @handle, or profile URL"@
            } else {
                r matches Ok((a, b)) && a@ == ids && texts(b@) == handles
            },
            Err(t) => r matches Err(e) && e@ == "could not understand '"@ + t + "'"@,
        },
{
    let list = split_entries(input);
    let ghost all = texts(list@);
    let mut ids: Vec<u64> = Vec::new();
    let mut handles: Vec<String> = Vec::new();
    let mut i: usize = 0;
    proof {
        assert(all.take(0) =~= Seq::empty());
        assert(texts(handles@) =~= Seq::empty());
    }
    while i < list.len()
        invariant
            i <= list.len(),
            all == texts(list@),
            all == entries(input@),
            targets_of(all.take(i as int)) == Ok::<(Seq<u64>, Seq<Seq<char>>), Seq<char>>(
                (ids@, texts(handles@)),
            ),
        decreases list.len() - i,
    {
        proof {
            assert(all.take(i + 1).drop_last() =~= all.take(i as int));
            assert(all.take(i + 1).last() == list@[i as int]@);
        }
        let token = trim_text(list[i].as_str());
        if !token.as_str().is_empty() {
            proof {
                lemma_trim_twice(list@[i as int]@);
            }
            match conversation_target(token.as_str()) {
                Ok((Some(id), None)) => {
                    ids.push(id);
                },
                Ok((None, Some(h))) => {
                    let ghost sofar = handles@;
                    let ghost t = h@;
                    handles.push(h);
                    proof {
                        assert(texts(handles@) =~= texts(sofar).push(t));
                    }
                },
                _ => {
                    proof {
                        lemma_targets_error(all, i + 1);
                    }
                    return Err(concat3("could not understand '", token.as_str(), "'"));
                },
            }
        }
        i += 1;
    }
    proof {
        assert(all.take(i as int) =~= all);
        assert(texts(handles@).len() == handles@.len());
    }
    if ids.len() == 0 && handles.len() == 0 {
        return Err(copy_text("enter at least one user id, @handle, or profile URL"));
    }
    Ok((ids, handles))
}

proof fn lemma_front_trimmed(s: Seq<char>)
    ensures
        crate::text::trim_front(s).len() > 0 ==> !is_space(crate::text::trim_front(s)[0]),
    decreases s.len(),
{
    if s.len() > 0 && is_space(s[0]) {
        lemma_front_trimmed(s.drop_first());
    }
}

proof fn lemma_back_trimmed(s: Seq<char>)
    ensures
        crate::text::trim_back(s).len() > 0 ==> !is_space(crate::text::trim_back(s).last())
            && crate::text::trim_back(s)[0] == s[0],
    decreases s.len(),
{
    if s.len() > 0 && is_space(s.last()) {
        lemma_back_trimmed(s.drop_last());
    }
}

/// Trimming a text twice is trimming it once.
pub proof fn lemma_trim_twice(s: Seq<char>)
    ensures
        trim(trim(s)) == trim(s),
{
    lemma_front_trimmed(s);
    lemma_back_trimmed(crate::text::trim_front(s));
}

/// The address of a profile names the user and their server, and stands for the handle of both.
pub proof fn profile_addresses_are_handles(domain: Seq<char>, user: Seq<char>)
    requires
        domain.len() > 0,
        user.len() > 0,
        forall|i: int| 0 <= i < domain.len() ==> #[trigger] domain[i] != '/' && domain[i] != ':',
        forall|i: int|
            0 <= i < user.len() ==> #[trigger] user[i] != '/' && user[i] != '#' && user[i] != '?'
                && user[i] != ':',
        trim(user) == user,
    ensures
        handle_of_url("https://"@ + domain + "/@"@ + user) == Some("@"@ + user + "@"@ + domain),
{
    reveal_strlit("https://");
    reveal_strlit("://");
    reveal_strlit("/@");
    let url = "https://"@ + domain + "/@"@ + user;
    let rest = domain + "/@"@ + user;
    let mark = "://"@;
    assert(url.subrange(5, 8) =~= mark);
    assert(occurs_at(url, mark, 5));
    assert forall|j: int| 0 <= j < 5 implies !occurs_at(url, mark, j) by {
        assert(url[j] == "https://"@[j]);
        assert("https://"@[j] != ':');
        if occurs_at(url, mark, j) {
            assert(url.subrange(j, j + 3)[0] == mark[0]);
        }
    }
    assert(first_at(url, mark, 5));
    let i = choose|i: int| first_at(url, mark, i);
    lemma_first_at_unique(url, mark, i, 5);
    assert(url.skip(8) =~= rest);
    assert forall|j: int| !occurs_at(rest, mark, j) by {
        if occurs_at(rest, mark, j) {
            assert(rest.subrange(j, j + 3)[0] == mark[0]);
            assert(rest[j] == ':');
            if j < domain.len() {
                assert(rest[j] == domain[j]);
            } else if j < domain.len() + 2 {
                assert(rest[j] == "/@"@[j - domain.len()]);
            } else {
                assert(rest[j] == user[j - domain.len() - 2]);
            }
        }
    }
    assert(!contains_text(rest, mark));
    assert(behind_scheme(url) == rest);
    let n = domain.len() as int;
    texts_are_found_where_they_stand(domain, "/@"@, user);
    assert forall|j: int| 0 <= j < n implies !occurs_at(rest, "/@"@, j) by {
        if occurs_at(rest, "/@"@, j) {
            assert(rest.subrange(j, j + 2)[0] == "/@"@[0]);
            assert(rest[j] == domain[j]);
        }
    }
    assert(first_at(rest, "/@"@, n));
    let k = choose|k: int| first_at(rest, "/@"@, k);
    lemma_first_at_unique(rest, "/@"@, k, n);
    assert(rest.take(n) =~= domain);
    texts_part_at_a_character(domain, '/');
    assert(!domain.contains('/'));
    let tail = rest.skip(n + 2);
    assert(tail =~= user);
    lemma_name_len(user, user.len() as int);
    assert(user.take(user.len() as int) =~= user);
}

/// The hash of a name goes byte by byte, and picks one of eight colours.
pub proof fn names_pick_their_colour(name: Seq<char>, bytes: Seq<u8>, b: u8)
    ensures
        name_hash(Seq::empty()) == 0,
        name_hash(bytes.push(b)) == (31 * name_hash(bytes) + b) % 0x1_0000_0000,
        colour_of_name(name) == palette(name_hash(encode_utf8(name)) % 8),
{
    assert(bytes.push(b).drop_last() =~= bytes);
}

} // verus!
