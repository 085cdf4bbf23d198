//! Names of users, conversations, files and colours.

use vstd::prelude::*;

use crate::chat::types::{Conversation, Member};
use crate::colour::{colour_of, is_hex_colour};
use crate::identity::{
    desktop_sender_text, entries, entry_scan, first_other, initials_of, letters_of, member_index,
    other_names, palette, parts_entries, sender_text, shown_name, solid, target_of, targets_of,
    title_name, title_of, TargetModel,
};
use crate::mime::{
    base_name, desktop_mime_of_name, extension, extension_of_mime, first_fault, last_dot,
    mime_of_name, plain_name, stem, sticker_fault,
};
use crate::number::{decimal, decimals_are_read_back, hex_value, only_digits_are_numbers};
use crate::size::{nearest_double, rounded, size_text, spacing};
use crate::text::{
    ascii_upper, is_space, joined, lower, lowered, trim, whitespace_parts_words, words,
};

verus! {

/// The initials of a name of two words are their first letters, as capitals; those of one word are
/// its first letter, and a name without words has a question mark.
pub proof fn initials_are_first_letters(a: Seq<char>, b: Seq<char>)
    requires
        a.len() > 0 && b.len() > 0,
        forall|i: int| 0 <= i < a.len() ==> !is_space(#[trigger] a[i]),
        forall|i: int| 0 <= i < b.len() ==> !is_space(#[trigger] b[i]),
    ensures
        initials_of(a.push(' ') + b) == seq![ascii_upper(a[0]), ascii_upper(b[0])],
        initials_of(a) == seq![ascii_upper(a[0])],
        initials_of(Seq::empty()) == seq!['?'],
{
    whitespace_parts_words(a, ' ', b);
    whitespace_parts_words(b, ' ', a);
    whitespace_parts_words(Seq::empty(), ' ', a);
    let ws = words(a.push(' ') + b);
    assert(ws == seq![a] + seq![b]);
    assert(ws[0] == a && ws[1] == b);
    assert(words(a)[0] == a);
    assert(initials_of(a.push(' ') + b) =~= seq![ascii_upper(a[0]), ascii_upper(b[0])]);
    assert(initials_of(a) =~= seq![ascii_upper(a[0])]);
}

proof fn lemma_solid(s: Seq<char>)
    ensures
        (forall|i: int| 0 <= i < s.len() ==> !is_space(#[trigger] s[i])) ==> solid(s) == s,
        (forall|i: int| 0 <= i < s.len() ==> is_space(#[trigger] s[i])) ==> solid(s).len() == 0,
    decreases s.len(),
{
    if s.len() > 0 {
        let t = s.drop_last();
        lemma_solid(t);
        assert(t.push(s.last()) =~= s);
        if forall|i: int| 0 <= i < s.len() ==> !is_space(#[trigger] s[i]) {
            assert forall|i: int| 0 <= i < t.len() implies !is_space(#[trigger] t[i]) by {
                assert(s[i] == t[i]);
            }
            assert(!is_space(s[s.len() - 1]));
        }
        if forall|i: int| 0 <= i < s.len() ==> is_space(#[trigger] s[i]) {
            assert forall|i: int| 0 <= i < t.len() implies is_space(#[trigger] t[i]) by {
                assert(s[i] == t[i]);
            }
            assert(is_space(s[s.len() - 1]));
        }
    } else {
        assert(solid(s) =~= s);
    }
}

/// The letters of a name are its first two characters, as capitals; blanks do not count.
pub proof fn letters_are_the_first_two(name: Seq<char>)
    ensures
        name.len() >= 2 && (forall|i: int| 0 <= i < name.len() ==> !is_space(#[trigger] name[i]))
            && name[1] != '\0' ==> letters_of(name) == seq![
            ascii_upper(name[0]),
            ascii_upper(name[1]),
        ],
        name.len() == 1 && !is_space(name[0]) ==> letters_of(name) == seq![ascii_upper(name[0])],
        (forall|i: int| 0 <= i < name.len() ==> is_space(#[trigger] name[i])) ==> letters_of(name)
            == seq!['?'],
{
    lemma_solid(name);
    if name.len() == 1 && !is_space(name[0]) {
        assert forall|i: int| 0 <= i < name.len() implies !is_space(#[trigger] name[i]) by {}
    }
}

/// Eight colours are used for names, and no two of them are the same.
pub proof fn colours_are_distinct(i: nat, j: nat)
    requires
        i < 8 && j < 8,
        i != j,
    ensures
        palette(i) != palette(j),
{
}

proof fn lemma_member_index_is(ms: Seq<Member>, id: u64, k: int)
    requires
        0 <= k < ms.len(),
        ms[k].id == id,
        forall|j: int| 0 <= j < k ==> (#[trigger] ms[j]).id != id,
    ensures
        member_index(ms, id) == k,
    decreases k,
{
    if k > 0 {
        assert(ms[0].id != id);
        let t = ms.drop_first();
        assert forall|j: int| 0 <= j < k - 1 implies (#[trigger] t[j]).id != id by {
            assert(t[j] == ms[j + 1]);
        }
        lemma_member_index_is(t, id, k - 1);
    }
}

proof fn lemma_member_index_none(ms: Seq<Member>, id: u64)
    requires
        forall|j: int| 0 <= j < ms.len() ==> (#[trigger] ms[j]).id != id,
    ensures
        member_index(ms, id) == ms.len(),
    decreases ms.len(),
{
    if ms.len() > 0 {
        assert(ms[0].id != id);
        let t = ms.drop_first();
        assert forall|j: int| 0 <= j < t.len() implies (#[trigger] t[j]).id != id by {
            assert(t[j] == ms[j + 1]);
        }
        lemma_member_index_none(t, id);
    }
}

/// A message is shown as sent by whoever sent it: the user, the member by name, or else an id.
pub proof fn senders_are_named(ms: Seq<Member>, sender: u64, me: Option<u64>, k: int)
    ensures
        me == Some(sender) ==> sender_text(ms, sender, me) == "You"@ && desktop_sender_text(
            ms,
            sender,
            me,
        ) == "You"@,
        me != Some(sender) && 0 <= k < ms.len() && ms[k].id == sender && (forall|j: int|
            0 <= j < k ==> (#[trigger] ms[j]).id != sender) ==> {
            &&& ms[k].display_name@.len() > 0 ==> sender_text(ms, sender, me) == ms[k].display_name@
            &&& ms[k].display_name@.len() == 0 ==> sender_text(ms, sender, me) == ms[k].username@
            &&& ms[k].username@.len() > 0 && ms[k].display_name@.len() == 0 ==> desktop_sender_text(
                ms,
                sender,
                me,
            ) == "@"@ + ms[k].username@
            &&& ms[k].username@.len() > 0 && ms[k].display_name@.len() > 0 ==> desktop_sender_text(
                ms,
                sender,
                me,
            ) == "@"@ + ms[k].username@ + " ("@ + ms[k].display_name@ + ")"@
        },
        me != Some(sender) && (forall|j: int| 0 <= j < ms.len() ==> (#[trigger] ms[j]).id != sender)
            ==> sender_text(ms, sender, me) == "user "@ + decimal(sender as nat)
            && desktop_sender_text(ms, sender, me) == "user "@ + decimal(sender as nat),
{
    if 0 <= k < ms.len() && ms[k].id == sender && (forall|j: int|
        0 <= j < k ==> (#[trigger] ms[j]).id != sender) {
        lemma_member_index_is(ms, sender, k);
    }
    if forall|j: int| 0 <= j < ms.len() ==> (#[trigger] ms[j]).id != sender {
        lemma_member_index_none(ms, sender);
    }
}

proof fn lemma_other_names(a: Seq<Member>, m: Member, me: Option<u64>)
    ensures
        other_names(a.push(m), me) == if me == Some(m.id) {
            other_names(a, me)
        } else {
            other_names(a, me).push(title_name(m))
        },
        other_names(Seq::empty(), me).len() == 0,
{
    assert(a.push(m).drop_last() =~= a);
}

/// A direct conversation is called after the other one in it, whichever of the two comes first; a
/// group after all others, and a conversation with nobody else by its number.
pub proof fn conversations_are_called_after_the_others(
    c: Conversation,
    me: u64,
    mine: Member,
    other: Member,
    third: Member,
)
    requires
        mine.id == me,
        other.id != me,
        third.id != me,
        other.username@.len() > 0 && third.username@.len() > 0,
    ensures
        c.kind@ != "group"@ && (c.members@ == seq![mine, other] || c.members@ == seq![other, mine])
            ==> (other.display_name@.len() > 0 ==> title_of(c, Some(me)) == other.display_name@) && (
        other.display_name@.len() == 0 ==> title_of(c, Some(me)) == other.username@),
        c.members@ == seq![mine] ==> title_of(c, Some(me)) == "Conversation "@ + decimal(c.id as nat),
        c.members@ == seq![mine, other, third] ==> title_of(c, Some(me)) == "Group: "@ + shown_name(
            other,
        ) + ", "@ + shown_name(third),
{
    let e = Seq::<Member>::empty();
    lemma_other_names(e, mine, Some(me));
    lemma_other_names(e, other, Some(me));
    lemma_other_names(e.push(mine), other, Some(me));
    lemma_other_names(e.push(other), mine, Some(me));
    lemma_other_names(e.push(mine).push(other), third, Some(me));
    assert(seq![mine] =~= e.push(mine));
    assert(seq![mine, other] =~= e.push(mine).push(other));
    assert(seq![other, mine] =~= e.push(other).push(mine));
    assert(seq![mine, other, third] =~= e.push(mine).push(other).push(third));
    let names = other_names(seq![mine, other, third], Some(me));
    assert(names.drop_last() =~= other_names(seq![mine, other], Some(me)));
    assert(names.drop_last().len() == 1);
    if c.members@ == seq![mine, other, third] {
        assert(joined(names, ", "@) == joined(names.drop_last(), ", "@) + ", "@ + names.last());
        assert(title_of(c, Some(me)) =~= "Group: "@ + shown_name(other) + ", "@ + shown_name(third));
    }
}

/// The other one in a conversation is the first member who is not the user.
pub proof fn the_other_one_is_not_the_user(ms: Seq<Member>, me: Option<u64>)
    ensures
        0 <= first_other(ms, me) <= ms.len(),
        first_other(ms, me) < ms.len() ==> me != Some(ms[first_other(ms, me)].id),
        first_other(ms, me) == ms.len() ==> forall|i: int|
            0 <= i < ms.len() ==> me == Some((#[trigger] ms[i]).id),
        forall|i: int| 0 <= i < first_other(ms, me) ==> me == Some((#[trigger] ms[i]).id),
    decreases ms.len(),
{
    if ms.len() > 0 && me == Some(ms[0].id) {
        let t = ms.drop_first();
        the_other_one_is_not_the_user(t, me);
        assert forall|i: int| 0 <= i < first_other(ms, me) implies me == Some((#[trigger] ms[i]).id) by {
            if i > 0 {
                assert(t[i - 1] == ms[i]);
            }
        }
    }
}

/// Whom a text names: a number is the id of a user, a text that begins with an `@` is a handle.
pub proof fn users_are_named_by_id_or_handle(n: u64, rest: Seq<char>)
    ensures
        target_of(decimal(n as nat)) == Some(TargetModel::Id(n)),
        target_of(seq!['@'] + rest) == Some(TargetModel::Handle(seq!['@'] + rest)),
{
    decimals_are_read_back(n as nat, u64::MAX as nat);
    let h = seq!['@'] + rest;
    only_digits_are_numbers(h, u64::MAX as nat, 0);
    reveal_strlit("@");
    assert(h.subrange(0, 1) =~= "@"@);
}

/// What a list names: each entry adds the one that it names, in order; one that names nobody makes
/// the whole list one that cannot be read.
pub proof fn lists_name_each_entry(es: Seq<Seq<char>>, e: Seq<char>)
    ensures
        targets_of(Seq::empty()) == Ok::<(Seq<u64>, Seq<Seq<char>>), Seq<char>>(
            (Seq::empty(), Seq::empty()),
        ),
        targets_of(es) matches Ok((ids, handles)) ==> {
            &&& trim(e).len() == 0 ==> targets_of(es.push(e)) == targets_of(es)
            &&& trim(e).len() > 0 ==> (target_of(trim(e)) matches Some(TargetModel::Id(n)) ==> targets_of(
                es.push(e),
            ) == Ok::<(Seq<u64>, Seq<Seq<char>>), Seq<char>>((ids.push(n), handles)))
            &&& trim(e).len() > 0 ==> (target_of(trim(e)) matches Some(TargetModel::Handle(h))
                ==> targets_of(es.push(e)) == Ok::<(Seq<u64>, Seq<Seq<char>>), Seq<char>>(
                (ids, handles.push(h)),
            ))
            &&& trim(e).len() > 0 && target_of(trim(e)) is None ==> targets_of(es.push(e)) is Err
        },
        targets_of(es) is Err ==> targets_of(es.push(e)) is Err,
{
    assert(es.push(e).drop_last() =~= es);
}

proof fn lemma_entries(a: Seq<char>, c: char, b: Seq<char>)
    requires
        parts_entries(c),
    ensures
        entry_scan(a.push(c) + b).0 == entries(a) + entry_scan(b).0,
        entry_scan(a.push(c) + b).1 == entry_scan(b).1,
    decreases b.len(),
{
    let s = a.push(c) + b;
    if b.len() == 0 {
        assert(s =~= a.push(c));
        assert(s.drop_last() =~= a);
        assert(entries(a) + Seq::empty() =~= entries(a));
    } else {
        let t = b.drop_last();
        lemma_entries(a, c, t);
        assert(s.drop_last() =~= a.push(c) + t);
        let (db, pb) = entry_scan(t);
        assert((entries(a) + db).push(pb) =~= entries(a) + db.push(pb));
    }
}

/// The entries of a list are parted by commas and blanks.
pub proof fn entries_are_parted(a: Seq<char>, c: char, b: Seq<char>)
    requires
        c == ',' || c == ' ' || c == '\t' || c == '\n',
    ensures
        entries(a.push(c) + b) == entries(a) + entries(b),
        a.len() == 0 ==> entries(a) == seq![a],
{
    lemma_entries(a, c, b);
    let (db, pb) = entry_scan(b);
    assert((entries(a) + db).push(pb) =~= entries(a) + db.push(pb));
    if a.len() == 0 {
        assert(a =~= Seq::empty());
        assert(entries(a) =~= seq![a]);
    }
}

// ---------------------------------------------------------------------------
// Files
// ---------------------------------------------------------------------------

proof fn lemma_last_dot(a: Seq<char>, b: Seq<char>)
    requires
        !b.contains('.'),
    ensures
        last_dot(a.push('.') + b) == a.len(),
    decreases b.len(),
{
    let s = a.push('.') + b;
    if b.len() == 0 {
        assert(s =~= a.push('.'));
    } else {
        let t = b.drop_last();
        assert(!t.contains('.')) by {
            if t.contains('.') {
                let i = choose|i: int| 0 <= i < t.len() && t[i] == '.';
                assert(b[i] == '.');
            }
        }
        assert(b[b.len() - 1] != '.');
        assert(s.drop_last() =~= a.push('.') + t);
        lemma_last_dot(a, t);
    }
}

/// A file name of a stem, a dot and an extension has that stem and that extension.
pub proof fn names_have_a_stem_and_an_extension(a: Seq<char>, e: Seq<char>)
    requires
        a.len() > 0,
        a.push('.') + e != ".."@,
        !e.contains('.'),
    ensures
        extension(a.push('.') + e) == Some(e),
        stem(a.push('.') + e) == a,
{
    lemma_last_dot(a, e);
    let s = a.push('.') + e;
    assert(s.skip(a.len() as int + 1) =~= e);
    assert(s.take(a.len() as int) =~= a);
}

/// The media type of a file follows the extension of its name, in either case: pictures, films,
/// sounds and documents are told apart.
pub proof fn media_types_follow_the_extension(a: Seq<char>, e: Seq<char>)
    requires
        a.len() > 0,
        !e.contains('.'),
        a.push('.') + e != ".."@,
    ensures
        lower(e) == "png"@ ==> mime_of_name(a.push('.') + e) == "image/png"@,
        lower(e) == "jpg"@ ==> mime_of_name(a.push('.') + e) == "image/jpeg"@,
        lower(e) == "jpeg"@ ==> mime_of_name(a.push('.') + e) == "image/jpeg"@,
        lower(e) == "gif"@ ==> mime_of_name(a.push('.') + e) == "image/gif"@,
        lower(e) == "webp"@ ==> mime_of_name(a.push('.') + e) == "image/webp"@,
        lower(e) == "mp4"@ ==> mime_of_name(a.push('.') + e) == "video/mp4"@,
        lower(e) == "webm"@ ==> mime_of_name(a.push('.') + e) == "video/webm"@,
        lower(e) == "mp3"@ ==> mime_of_name(a.push('.') + e) == "audio/mpeg"@,
        lower(e) == "wav"@ ==> mime_of_name(a.push('.') + e) == "audio/wav"@,
        lower(e) == "pdf"@ ==> mime_of_name(a.push('.') + e) == "application/pdf"@,
        lower(e) == "txt"@ ==> mime_of_name(a.push('.') + e) == "text/plain"@,
{
    names_have_a_stem_and_an_extension(a, e);
    lemma_extensions();
}

proof fn lemma_extensions()
    ensures
        "png"@.len() == 3 && "png"@[0] == 'p' && "png"@[1] == 'n',
        "jpg"@.len() == 3 && "jpg"@[0] == 'j',
        "jpeg"@.len() == 4 && "jpeg"@[0] == 'j',
        "gif"@.len() == 3 && "gif"@[0] == 'g',
        "webp"@.len() == 4 && "webp"@[0] == 'w' && "webp"@[3] == 'p',
        "bmp"@.len() == 3 && "bmp"@[0] == 'b',
        "svg"@.len() == 3 && "svg"@[0] == 's',
        "mp4"@.len() == 3 && "mp4"@[0] == 'm' && "mp4"@[2] == '4',
        "webm"@.len() == 4 && "webm"@[0] == 'w' && "webm"@[3] == 'm',
        "mov"@.len() == 3 && "mov"@[0] == 'm' && "mov"@[2] == 'v',
        "mp3"@.len() == 3 && "mp3"@[0] == 'm' && "mp3"@[2] == '3',
        "wav"@.len() == 3 && "wav"@[0] == 'w',
        "ogg"@.len() == 3 && "ogg"@[0] == 'o',
        "pdf"@.len() == 3 && "pdf"@[0] == 'p' && "pdf"@[1] == 'd',
        "txt"@.len() == 3 && "txt"@[0] == 't',
{
    reveal_strlit("png");
    reveal_strlit("jpg");
    reveal_strlit("jpeg");
    reveal_strlit("gif");
    reveal_strlit("webp");
    reveal_strlit("bmp");
    reveal_strlit("svg");
    reveal_strlit("mp4");
    reveal_strlit("webm");
    reveal_strlit("mov");
    reveal_strlit("mp3");
    reveal_strlit("wav");
    reveal_strlit("ogg");
    reveal_strlit("pdf");
    reveal_strlit("txt");
}

proof fn lemma_plain_name(s: Seq<char>)
    ensures
        (forall|i: int|
            0 <= i < s.len() ==> ('a' <= #[trigger] s[i] <= 'z') || ('A' <= s[i] <= 'Z') || ('0' <= s[i]
                <= '9') || s[i] == '-' || s[i] == '_') ==> plain_name(s) == s,
    decreases s.len(),
{
    if s.len() > 0 {
        let t = s.drop_last();
        lemma_plain_name(t);
        assert(t.push(s.last()) =~= s);
        if forall|i: int|
            0 <= i < s.len() ==> ('a' <= #[trigger] s[i] <= 'z') || ('A' <= s[i] <= 'Z') || ('0' <= s[i]
                <= '9') || s[i] == '-' || s[i] == '_' {
            assert forall|i: int| 0 <= i < t.len() implies ('a' <= #[trigger] t[i] <= 'z') || ('A'
                <= t[i] <= 'Z') || ('0' <= t[i] <= '9') || t[i] == '-' || t[i] == '_' by {
                assert(s[i] == t[i]);
            }
            let c = s[s.len() - 1];
            assert(crate::mime::stays_in_name(c));
        }
    } else {
        assert(plain_name(s) =~= s);
    }
}

/// A file keeps a plain name of up to forty characters when it is opened in another program.
pub proof fn plain_names_are_kept(name: Seq<char>)
    requires
        0 < name.len() <= 40,
        forall|i: int|
            0 <= i < name.len() ==> ('a' <= #[trigger] name[i] <= 'z') || ('A' <= name[i] <= 'Z') || (
            '0' <= name[i] <= '9') || name[i] == '-' || name[i] == '_',
    ensures
        base_name(name) == name,
{
    lemma_plain_name(name);
    crate::text::texts_part_at_a_character(name, '.');
    assert(!name.contains('.')) by {
        if name.contains('.') {
            let i = choose|i: int| 0 <= i < name.len() && name[i] == '.';
        }
    }
}

/// A sticker is a picture that is neither empty nor larger than half a mebibyte.
pub proof fn stickers_are_small_pictures(name: Seq<char>, bytes: Seq<u8>)
    ensures
        sticker_fault(name, bytes) is None <==> 0 < bytes.len() <= 512 * 1024 && mime_of_name(
            name,
        ).len() >= 6 && mime_of_name(name).take(6) == "image/"@,
{
    reveal_strlit("image/");
    if mime_of_name(name).len() >= 6 {
        assert(mime_of_name(name).take(6) =~= mime_of_name(name).subrange(0, 6));
    }
}

// ---------------------------------------------------------------------------
// Sizes and colours
// ---------------------------------------------------------------------------

/// Rounding gives the whole number that is nearest to a quotient.
pub proof fn rounding_is_to_the_nearest(p: nat, q: nat)
    requires
        q > 0,
    ensures
        2 * (rounded(p, q) * q) <= 2 * p + q,
        2 * p <= 2 * (rounded(p, q) * q) + q,
{
    let d = p / q;
    let r = p % q;
    assert(p == q * d + r) by {
        vstd::arithmetic::div_mod::lemma_fundamental_div_mod(p as int, q as int);
    }
    assert((d + 1) * q == q * d + q) by (nonlinear_arith);
    assert(d * q == q * d) by (nonlinear_arith);
}

/// A size below a kibibyte is shown in bytes, below a mebibyte in whole kibibytes, and above that
/// with one digit behind the point.
pub proof fn sizes_are_shown_in_their_unit(bytes: nat)
    requires
        bytes < 0x20_0000_0000_0000,
    ensures
        bytes < 1024 ==> size_text(bytes) == decimal(bytes) + " B"@,
        1024 <= bytes < 1024 * 1024 ==> size_text(bytes) == decimal(rounded(bytes, 1024)) + " KB"@,
        1024 * 1024 <= bytes < 1024 * 1024 * 1024 ==> exists|t: nat|
            size_text(bytes) == #[trigger] decimal(t / 10) + "."@ + decimal(t % 10) + " MB"@ && 2 * (t
                * 1048576) <= 20 * bytes + 1048576 && 20 * bytes <= 2 * (t * 1048576) + 1048576,
        bytes >= 1024 * 1024 * 1024 ==> exists|t: nat|
            size_text(bytes) == #[trigger] decimal(t / 10) + "."@ + decimal(t % 10) + " GB"@ && 2 * (t
                * 1073741824) <= 20 * bytes + 1073741824 && 20 * bytes <= 2 * (t * 1073741824)
                + 1073741824,
{
    assert(spacing(bytes) == 1);
    assert(rounded(bytes, 1) == bytes);
    assert(nearest_double(bytes) == bytes);
    if 1024 * 1024 <= bytes < 1024 * 1024 * 1024 {
        let t = rounded(bytes * 10, 0x10_0000);
        rounding_is_to_the_nearest(bytes * 10, 0x10_0000);
        assert(size_text(bytes) == decimal(t / 10) + "."@ + decimal(t % 10) + " MB"@);
    }
    if bytes >= 1024 * 1024 * 1024 {
        let t = rounded(bytes * 10, 0x4000_0000);
        rounding_is_to_the_nearest(bytes * 10, 0x4000_0000);
        assert(size_text(bytes) == decimal(t / 10) + "."@ + decimal(t % 10) + " GB"@);
    }
}

/// Six hexadecimal digits are a colour: two each for red, green and blue, in that order.
pub proof fn digits_are_red_green_and_blue(h: Seq<char>)
    requires
        is_hex_colour(h),
    ensures
        h.len() == 6,
        colour_of(h) matches Some(c) && c.r == hex_value(h[0])->0 * 16 + hex_value(h[1])->0 && c.g
            == hex_value(h[2])->0 * 16 + hex_value(h[3])->0 && c.b == hex_value(h[4])->0 * 16
            + hex_value(h[5])->0,
{
    assert(hex_value(h[0]) is Some && hex_value(h[1]) is Some && hex_value(h[2]) is Some);
    assert(hex_value(h[3]) is Some && hex_value(h[4]) is Some && hex_value(h[5]) is Some);
    assert(hex_value('+') is None);
}

proof fn lemma_first_fault(files: Seq<(String, Vec<u8>)>)
    ensures
        0 <= first_fault(files) <= files.len(),
        forall|i: int| 0 <= i < first_fault(files) ==> sticker_fault(
            (#[trigger] files[i]).0@,
            files[i].1@,
        ) is None,
        first_fault(files) < files.len() ==> sticker_fault(
            files[first_fault(files)].0@,
            files[first_fault(files)].1@,
        ) is Some,
    decreases files.len(),
{
    if files.len() > 0 && sticker_fault(files[0].0@, files[0].1@) is None {
        let rest = files.drop_first();
        lemma_first_fault(rest);
        assert forall|i: int| 0 <= i < first_fault(files) implies sticker_fault(
            (#[trigger] files[i]).0@,
            files[i].1@,
        ) is None by {
            if i > 0 {
                assert(rest[i - 1] == files[i]);
            }
        }
        if first_fault(rest) < rest.len() {
            assert(rest[first_fault(rest)] == files[first_fault(files)]);
        }
    }
}

/// The first file that cannot become a sticker is found, and no file before it is at fault.
pub proof fn faults_are_found(files: Seq<(String, Vec<u8>)>, k: int)
    requires
        0 <= k < files.len(),
    ensures
        sticker_fault(files[k].0@, files[k].1@) is Some ==> first_fault(files) <= k,
        first_fault(files) < files.len() ==> sticker_fault(
            files[first_fault(files)].0@,
            files[first_fault(files)].1@,
        ) is Some,
        first_fault(files) == files.len() ==> sticker_fault(files[k].0@, files[k].1@) is None,
{
    lemma_first_fault(files);
}

/// A file of a known kind is stored with the extension of that kind.
pub proof fn extensions_follow_the_media_type(m: Seq<char>)
    ensures
        m == "image/png"@ ==> extension_of_mime(m) == "png"@,
        m == "image/jpeg"@ ==> extension_of_mime(m) == "jpg"@,
        m == "image/gif"@ ==> extension_of_mime(m) == "gif"@,
        m == "image/webp"@ ==> extension_of_mime(m) == "webp"@,
        m == "video/mp4"@ ==> extension_of_mime(m) == "mp4"@,
        m == "video/webm"@ ==> extension_of_mime(m) == "webm"@,
        m == "audio/mpeg"@ ==> extension_of_mime(m) == "mp3"@,
        m == "audio/wav"@ ==> extension_of_mime(m) == "wav"@,
        m == "application/pdf"@ ==> extension_of_mime(m) == "pdf"@,
        m == "text/plain"@ ==> extension_of_mime(m) == "txt"@,
        m.len() == 0 ==> extension_of_mime(m) == "bin"@,
{
    reveal_strlit("image/png");
    reveal_strlit("image/jpeg");
    reveal_strlit("image/gif");
    reveal_strlit("image/webp");
    reveal_strlit("image/svg+xml");
    reveal_strlit("video/mp4");
    reveal_strlit("video/webm");
    reveal_strlit("audio/mpeg");
    reveal_strlit("audio/wav");
    reveal_strlit("application/pdf");
    reveal_strlit("text/plain");
    assert("image/png"@[6] == 'p' && "image/gif"@[6] == 'g');
    assert("video/mp4"@[0] == 'v' && "audio/wav"@[0] == 'a' && "image/png"@[0] == 'i');
    assert("audio/mpeg"@[0] == 'a' && "image/webp"@[0] == 'i' && "video/webm"@[0] == 'v'
        && "image/jpeg"@[0] == 'i' && "text/plain"@[0] == 't');
    assert("image/jpeg"@[6] == 'j' && "image/webp"@[6] == 'w');
    assert("video/webm"@ != "image/jpeg"@ && "video/webm"@ != "image/webp"@);
    assert("audio/mpeg"@ != "image/jpeg"@ && "audio/mpeg"@ != "image/webp"@);
    assert("audio/mpeg"@ != "video/webm"@ && "audio/wav"@ != "video/mp4"@);
    assert("audio/wav"@ != "image/png"@ && "audio/wav"@ != "image/gif"@);
    assert("video/mp4"@ != "image/png"@ && "video/mp4"@ != "image/gif"@);
    assert("video/webm"@.len() == 10 && "video/mp4"@.len() == 9 && "image/svg+xml"@.len() == 13);
    assert("image/png"@.len() == 9 && "image/gif"@.len() == 9 && "audio/wav"@.len() == 9);
    assert("audio/mpeg"@.len() == 10 && "image/jpeg"@.len() == 10 && "image/webp"@.len() == 10);
    assert(extension_of_mime("video/webm"@) == "webm"@);
    assert(extension_of_mime("audio/wav"@) == "wav"@);
}

/// The desktop client names the same kinds as the other one, and knows notes in Markdown as text.
pub proof fn both_clients_name_the_same_kinds(a: Seq<char>, e: Seq<char>)
    requires
        a.len() > 0,
        !e.contains('.'),
        a.push('.') + e != ".."@,
    ensures
        lowered(e) == "md"@ ==> desktop_mime_of_name(a.push('.') + e) == "text/plain"@,
        lowered(e) == "png"@ ==> desktop_mime_of_name(a.push('.') + e) == "image/png"@,
        lowered(e) == "jpg"@ ==> desktop_mime_of_name(a.push('.') + e) == "image/jpeg"@,
        lowered(e) == "gif"@ ==> desktop_mime_of_name(a.push('.') + e) == "image/gif"@,
        lowered(e) == "mp4"@ ==> desktop_mime_of_name(a.push('.') + e) == "video/mp4"@,
        lowered(e) == "pdf"@ ==> desktop_mime_of_name(a.push('.') + e) == "application/pdf"@,
        lowered(e) == "txt"@ ==> desktop_mime_of_name(a.push('.') + e) == "text/plain"@,
        lowered(e) == "ogg"@ ==> desktop_mime_of_name(a.push('.') + e) == "application/octet-stream"@,
{
    names_have_a_stem_and_an_extension(a, e);
    lemma_extensions();
    reveal_strlit("md");
    reveal_strlit("mov");
    reveal_strlit("ogg");
    reveal_strlit("bmp");
    assert("md"@.len() == 2);
    assert("mov"@[1] == 'o');
}

} // verus!
