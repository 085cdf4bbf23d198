//! What the window of the desktop client promises of what it shows.

use vstd::prelude::*;

use crate::chat::files::is_image_mime;
use crate::chat::types::{ApiMsg, Conversation, Member};
use crate::desktop::state::{is_online, window_id, Desktop, Preview, Store};
use crate::desktop::ui::{
    are_conv_items, are_message_items, are_suggestions, candidates, contacts_in, is_file_shown,
    is_listed, is_preview_shown, knows, query_of, suggested, suits_query, visible, with_members,
    ConvItem, FileShown, FileSize, MessageItem, Picture, PreviewShown, Suggestion,
};
use crate::identity::{first_other, title_of};
use crate::links::first_link;
use crate::text::or_empty;

verus! {

proof fn lemma_visible(cs: Seq<Conversation>, hidden: Seq<u64>)
    ensures
        visible(cs, hidden).len() <= cs.len(),
        forall|c: Conversation|
            visible(cs, hidden).contains(c) <==> cs.contains(c) && !hidden.contains(c.id),
    decreases cs.len(),
{
    if cs.len() > 0 {
        let rest = cs.drop_last();
        lemma_visible(rest, hidden);
        let v = visible(rest, hidden);
        assert forall|c: Conversation|
            visible(cs, hidden).contains(c) <==> cs.contains(c) && !hidden.contains(c.id) by {
            if cs.contains(c) {
                let i = choose|i: int| 0 <= i < cs.len() && cs[i] == c;
                if i < rest.len() {
                    assert(rest[i] == c);
                }
            }
            if rest.contains(c) {
                let i = choose|i: int| 0 <= i < rest.len() && rest[i] == c;
                assert(cs[i] == c);
            }
            assert(cs[cs.len() - 1] == cs.last());
            if v.contains(c) {
                let i = choose|i: int| 0 <= i < v.len() && v[i] == c;
                if !hidden.contains(cs.last().id) {
                    assert(v.push(cs.last())[i] == c);
                }
            }
            if !hidden.contains(cs.last().id) {
                assert(v.push(cs.last())[v.len() as int] == cs.last());
                if visible(cs, hidden).contains(c) && c != cs.last() {
                    let i = choose|i: int| 0 <= i < v.push(cs.last()).len() && v.push(cs.last())[i] == c;
                    assert(v[i] == c);
                }
            }
        }
    }
}

/// Every conversation that was not deleted is listed, and none that was: a listed one shows its own
/// title, whether it has unread messages, and whether the other one is there.
pub proof fn conversations_are_listed(
    items: Seq<ConvItem>,
    cs: Seq<Conversation>,
    hidden: Seq<u64>,
    d: Desktop,
    c: Conversation,
)
    requires
        are_conv_items(items, visible(cs, hidden), d),
        cs.contains(c),
        !hidden.contains(c.id),
    ensures
        exists|i: int|
            0 <= i < items.len() && (#[trigger] items[i]).id == window_id(c.id) && items[i].title@
                == title_of(c, d.account.self_id) && (items[i].unread <==> d.talks.unread@.contains_key(
                c.id,
            ) && d.talks.unread@[c.id] > 0) && (first_other(c.members@, d.account.self_id)
                < c.members@.len() ==> items[i].avatar_user == c.members@[first_other(
                c.members@,
                d.account.self_id,
            )].id && items[i].online == is_online(
                d.talks.presence@,
                c.members@[first_other(c.members@, d.account.self_id)].id,
            )),
{
    lemma_visible(cs, hidden);
    let vs = visible(cs, hidden);
    assert(vs.contains(c));
    let i = choose|i: int| 0 <= i < vs.len() && vs[i] == c;
    assert(items[i].id == window_id(c.id));
}

/// What is listed is a conversation that was not deleted.
pub proof fn deleted_conversations_are_not_listed(
    items: Seq<ConvItem>,
    cs: Seq<Conversation>,
    hidden: Seq<u64>,
    d: Desktop,
    i: int,
)
    requires
        are_conv_items(items, visible(cs, hidden), d),
        0 <= i < items.len(),
    ensures
        exists|c: Conversation| #[trigger]
            cs.contains(c) && !hidden.contains(c.id) && items[i].id == window_id(c.id),
{
    lemma_visible(cs, hidden);
    let c = visible(cs, hidden)[i];
    assert(visible(cs, hidden).contains(c));
    assert(cs.contains(c));
    assert(items[i].id == window_id(c.id));
}

proof fn lemma_members(
    cs: Seq<(u64, Seq<char>, Seq<char>)>,
    ms: Seq<Member>,
    me: Option<u64>,
)
    ensures
        with_members(cs, ms, me).len() >= cs.len(),
        forall|i: int| 0 <= i < cs.len() ==> #[trigger] with_members(cs, ms, me)[i] == cs[i],
        forall|i: int| cs.len() <= i < with_members(cs, ms, me).len() ==> me != Some(
            (#[trigger] with_members(cs, ms, me)[i]).0,
        ),
        forall|j: int|
            0 <= j < ms.len() && (#[trigger] ms[j]).username@.len() > 0 && me != Some(ms[j].id)
                ==> knows(with_members(cs, ms, me), ms[j].id),
        (forall|i: int, k: int|
            0 <= i < k < cs.len() ==> (#[trigger] cs[i]).0 != (#[trigger] cs[k]).0) ==> (forall|
            i: int,
            k: int,
        |
            0 <= i < k < with_members(cs, ms, me).len() ==> (#[trigger] with_members(cs, ms, me)[i]).0
                != (#[trigger] with_members(cs, ms, me)[k]).0),
    decreases ms.len(),
{
    if ms.len() > 0 {
        let rest = ms.drop_last();
        lemma_members(cs, rest, me);
        let before = with_members(cs, rest, me);
        let after = with_members(cs, ms, me);
        assert(forall|i: int| 0 <= i < before.len() ==> #[trigger] after[i] == before[i]);
        assert forall|j: int|
            0 <= j < ms.len() && (#[trigger] ms[j]).username@.len() > 0 && me != Some(
                ms[j].id,
            ) implies knows(after, ms[j].id) by {
            if j < rest.len() {
                assert(rest[j] == ms[j]);
                assert(knows(before, ms[j].id));
                let i = choose|i: int|
                    0 <= i < before.len() && (#[trigger] before[i]).0 == ms[j].id;
                assert(after[i].0 == ms[j].id);
            } else if knows(before, ms[j].id) {
                let i = choose|i: int|
                    0 <= i < before.len() && (#[trigger] before[i]).0 == ms[j].id;
                assert(after[i].0 == ms[j].id);
            } else {
                assert(after[before.len() as int].0 == ms[j].id);
            }
        }
    }
}

proof fn lemma_contacts(cs: Seq<Conversation>, me: Option<u64>)
    ensures
        forall|i: int|
            0 <= i < contacts_in(cs, me).len() ==> me != Some((#[trigger] contacts_in(cs, me)[i]).0),
        forall|i: int, k: int|
            0 <= i < k < contacts_in(cs, me).len() ==> (#[trigger] contacts_in(cs, me)[i]).0 != (
            #[trigger] contacts_in(cs, me)[k]).0,
        forall|c: int, j: int|
            0 <= c < cs.len() && 0 <= j < cs[c].members@.len() && (#[trigger] cs[c].members@[j]).username@.len()
                > 0 && me != Some(cs[c].members@[j].id) ==> knows(
                contacts_in(cs, me),
                cs[c].members@[j].id,
            ),
    decreases cs.len(),
{
    if cs.len() > 0 {
        let rest = cs.drop_last();
        lemma_contacts(rest, me);
        let before = contacts_in(rest, me);
        let after = contacts_in(cs, me);
        lemma_members(before, cs.last().members@, me);
        assert forall|i: int| 0 <= i < after.len() implies me != Some((#[trigger] after[i]).0) by {
            if i < before.len() {
                assert(after[i] == before[i]);
            }
        }
        assert forall|c: int, j: int|
            0 <= c < cs.len() && 0 <= j < cs[c].members@.len() && (#[trigger] cs[c].members@[j]).username@.len()
                > 0 && me != Some(cs[c].members@[j].id) implies knows(
            after,
            cs[c].members@[j].id,
        ) by {
            let id = cs[c].members@[j].id;
            if c < rest.len() {
                assert(rest[c].members@[j] == cs[c].members@[j]);
                assert(knows(before, id));
                let i = choose|i: int| 0 <= i < before.len() && (#[trigger] before[i]).0 == id;
                assert(after[i].0 == id);
            } else {
                assert(cs.last().members@[j].id == id);
            }
        }
    }
}

/// Everyone that the user talks to, and who has a user name, is a contact; the user is none, and
/// nobody is one twice.
pub proof fn everyone_met_is_a_contact(cs: Seq<Conversation>, me: Option<u64>, c: int, j: int)
    requires
        0 <= c < cs.len(),
        0 <= j < cs[c].members@.len(),
    ensures
        cs[c].members@[j].username@.len() > 0 && me != Some(cs[c].members@[j].id) ==> exists|i: int|
            0 <= i < contacts_in(cs, me).len() && (#[trigger] contacts_in(cs, me)[i]).0
                == cs[c].members@[j].id,
        forall|i: int|
            0 <= i < contacts_in(cs, me).len() ==> me != Some((#[trigger] contacts_in(cs, me)[i]).0),
        forall|i: int, k: int|
            0 <= i < k < contacts_in(cs, me).len() ==> (#[trigger] contacts_in(cs, me)[i]).0 != (
            #[trigger] contacts_in(cs, me)[k]).0,
{
    lemma_contacts(cs, me);
    let m = cs[c].members@[j];
}

proof fn lemma_with_one(ms: Seq<Member>, me: Option<u64>)
    requires
        ms.len() == 1,
        me != Some(ms[0].id),
        ms[0].username@.len() > 0,
    ensures
        with_members(Seq::empty(), ms, me).len() == 1,
        with_members(Seq::empty(), ms, me)[0].0 == ms[0].id,
        with_members(Seq::empty(), ms, me)[0].1 == (if ms[0].display_name@.len() == 0 {
            ms[0].username@
        } else {
            ms[0].display_name@
        }),
        ms[0].domain@.len() > 0 ==> with_members(Seq::empty(), ms, me)[0].2 == "@"@ + ms[0].username@
            + "@"@ + ms[0].domain@,
        ms[0].domain@.len() == 0 ==> with_members(Seq::empty(), ms, me)[0].2 == "@"@ + ms[0].username@
            + "@"@ + "localhost"@,
{
    assert(ms.drop_last() =~= Seq::empty());
    assert(ms.last() == ms[0]);
    assert(with_members(Seq::empty(), ms.drop_last(), me) =~= Seq::empty());
}

/// A contact is called by the name that is shown of them, and has the handle of their server: here the
/// first one that the user meets.
pub proof fn contacts_have_handles(c: Conversation, me: Option<u64>)
    requires
        c.members@.len() == 1,
        me != Some(c.members@[0].id),
        c.members@[0].username@.len() > 0,
    ensures
        contacts_in(seq![c], me).len() == 1,
        contacts_in(seq![c], me)[0].0 == c.members@[0].id,
        c.members@[0].display_name@.len() > 0 ==> contacts_in(seq![c], me)[0].1
            == c.members@[0].display_name@,
        c.members@[0].display_name@.len() == 0 ==> contacts_in(seq![c], me)[0].1
            == c.members@[0].username@,
        c.members@[0].domain@.len() > 0 ==> contacts_in(seq![c], me)[0].2 == "@"@
            + c.members@[0].username@ + "@"@ + c.members@[0].domain@,
        c.members@[0].domain@.len() == 0 ==> contacts_in(seq![c], me)[0].2 == "@"@
            + c.members@[0].username@ + "@"@ + "localhost"@,
{
    let cs = seq![c];
    assert(cs.drop_last() =~= Seq::empty());
    assert(cs.last() == c);
    assert(contacts_in(cs.drop_last(), me) =~= Seq::empty());
    lemma_with_one(c.members@, me);
}

proof fn lemma_candidates(cs: Seq<(u64, Seq<char>, Seq<char>)>, fs: Seq<Seq<char>>)
    ensures
        candidates(cs, fs).len() <= cs.len(),
        forall|c: (u64, Seq<char>, Seq<char>)|
            candidates(cs, fs).contains(c) <==> cs.contains(c) && !is_listed(fs, c) && suits_query(
                query_of(fs),
                c,
            ),
    decreases cs.len(),
{
    if cs.len() > 0 {
        let rest = cs.drop_last();
        lemma_candidates(rest, fs);
        let v = candidates(rest, fs);
        let all = candidates(cs, fs);
        assert forall|c: (u64, Seq<char>, Seq<char>)|
            all.contains(c) <==> cs.contains(c) && !is_listed(fs, c) && suits_query(query_of(fs), c) by {
            assert(cs[cs.len() - 1] == cs.last());
            if cs.contains(c) {
                let i = choose|i: int| 0 <= i < cs.len() && cs[i] == c;
                if i < rest.len() {
                    assert(rest[i] == c);
                }
            }
            if rest.contains(c) {
                let i = choose|i: int| 0 <= i < rest.len() && rest[i] == c;
                assert(cs[i] == c);
            }
            if v.contains(c) {
                let i = choose|i: int| 0 <= i < v.len() && v[i] == c;
                assert(all[i] == c);
            }
            if all.len() > v.len() {
                assert(all[v.len() as int] == cs.last());
                if all.contains(c) && c != cs.last() {
                    let i = choose|i: int| 0 <= i < all.len() && all[i] == c;
                    assert(v[i] == c);
                }
            }
        }
    }
}

/// Contacts are suggested who suit what is being typed and are not named yet, six of them at most;
/// where no more than six suit, all of them are.
pub proof fn suitable_contacts_are_suggested(
    cs: Seq<(u64, Seq<char>, Seq<char>)>,
    fs: Seq<Seq<char>>,
    c: (u64, Seq<char>, Seq<char>),
)
    ensures
        suggested(cs, fs).len() <= 6,
        suggested(cs, fs).len() < 6 ==> (suggested(cs, fs).contains(c) <==> cs.contains(c)
            && !is_listed(fs, c) && suits_query(query_of(fs), c)),
        suggested(cs, fs).contains(c) ==> cs.contains(c) && !is_listed(fs, c) && suits_query(
            query_of(fs),
            c,
        ),
{
    lemma_candidates(cs, fs);
    let all = candidates(cs, fs);
    if suggested(cs, fs).contains(c) && all.len() > 6 {
        let i = choose|i: int| 0 <= i < 6 && all.take(6)[i] == c;
        assert(all[i] == c);
    }
}

/// A suggestion shows the contact that it is for.
pub proof fn suggestions_show_the_contact(
    list: Seq<Suggestion>,
    cs: Seq<(u64, Seq<char>, Seq<char>)>,
    i: int,
)
    requires
        are_suggestions(list, cs),
        0 <= i < cs.len(),
    ensures
        list.len() == cs.len(),
        list[i].user_id == cs[i].0 && list[i].id == window_id(cs[i].0),
        list[i].name@ == cs[i].1,
        list[i].handle@ == cs[i].2,
{
    assert(list[i].user_id == cs[i].0);
}

/// One's own file is shown from what was sent; a received one from where it was stored; and one that is
/// still with its sender is asked for, unless it is one's own.
pub proof fn files_are_shown(f: FileShown, s: Store, me: Option<u64>, m: ApiMsg)
    requires
        is_file_shown(f, s, me, m),
    ensures
        m.attachment_data matches Some(data) ==> (is_image_mime(or_empty(m.attachment_mime))
            ==> f.picture == Picture::Inline(data)) && !f.fetch,
        m.attachment_data is None && m.file_id is None ==> f.picture is Nothing && !f.fetch
            && f.status@.len() == 0,
        m.attachment_data is None ==> (m.file_id matches Some(id) ==> (me == Some(m.sender_id)
            && s.own_files@.contains_key(id@) ==> !f.fetch && (is_image_mime(
            or_empty(m.attachment_mime),
        ) ==> f.picture == Picture::Inline(s.own_files@[id@].thumbnail)))),
        m.attachment_data is None ==> (m.file_id matches Some(id) ==> (me != Some(m.sender_id)
            && s.downloaded@.contains_key(id@) ==> !f.fetch && f.size == FileSize::OnDisk(
            s.downloaded@[id@].path,
        ))),
        m.attachment_data is None ==> (m.file_id matches Some(id) ==> (me != Some(m.sender_id)
            && !s.downloaded@.contains_key(id@) ==> f.fetch && (s.p2p_status@.contains_key(id@)
            ==> f.status@ == s.p2p_status@[id@]@))),
        !is_image_mime(or_empty(m.attachment_mime)) ==> f.picture is Nothing,
{
}

/// What is known of the first link of a text is shown; of any other text nothing is.
pub proof fn previews_are_shown(
    p: PreviewShown,
    cache: Map<Seq<char>, Option<Preview>>,
    body: Seq<char>,
)
    requires
        is_preview_shown(p, cache, body),
    ensures
        first_link(body) matches Some(u) ==> (cache.contains_key(u) ==> (cache[u] matches Some(k)
            ==> p.title@ == or_empty(k.title) && p.description@ == or_empty(k.description) && p.url
            == k.url && p.image == k.image)),
        first_link(body) matches Some(u) ==> (!cache.contains_key(u) ==> p.url@.len() == 0
            && p.title@.len() == 0),
        first_link(body) is None ==> p.url@.len() == 0 && p.title@.len() == 0 && p.image is None,
{
}

/// Every message is shown at its place, with what it says, whose it is, and whether it was changed.
pub proof fn messages_are_shown(items: Seq<MessageItem>, msgs: Seq<ApiMsg>, d: Desktop, i: int)
    requires
        are_message_items(items, msgs, d),
        0 <= i < msgs.len(),
    ensures
        items.len() == msgs.len(),
        items[i].id == window_id(msgs[i].id),
        items[i].body@ == msgs[i].body@,
        items[i].is_self <==> d.account.self_id == Some(msgs[i].sender_id),
        items[i].sender_id == window_id(msgs[i].sender_id),
        items[i].avatar_user == msgs[i].sender_id,
        items[i].is_edited <==> msgs[i].edited_at is Some,
        msgs[i].original_body matches Some(o) ==> items[i].original_body@ == o@,
        msgs[i].attachment_name matches Some(o) ==> items[i].attachment_name@ == o@,
        msgs[i].file_id matches Some(o) ==> items[i].file_id@ == o@,
{
    assert(items[i].id == window_id(msgs[i].id));
}

} // verus!
