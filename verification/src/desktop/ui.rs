//! What the window of the desktop client shows.

use vstd::prelude::*;

use crate::chat::files::is_image_mime;
use crate::chat::types::{ApiMsg, Conversation, Member, Rgb};
use crate::desktop::state::{
    from_window_id, id_of_window, is_online, to_window_id, user_online, window_id, Contact, Desktop,
    KeptFile, Preview, Store, Talks,
};
use crate::identity::{
    avatar_color, colour_of_name, conversation_title, desktop_sender_name, desktop_sender_text,
    find_member, find_other, first_other, initials, initials_of, is_me, member_index, member_name, nameless, nameless_user,
    shown_name, title_of,
};
use crate::links::{first_link, first_url};
use crate::number::{parse_u64, parsed};
use crate::ordered::{find, holds, position};
use crate::text::{
    chars_of, concat4, contains_text, copy_text, has_prefix, lowercase, or_empty, same_text, split,
    split_at_char, starts_with, text_contains, text_or_empty, texts, trim, trim_text,
    lowered,
};

verus! {

// ---------------------------------------------------------------------------
// Conversations
// ---------------------------------------------------------------------------

/// An entry of the list of conversations.
pub struct ConvItem {
    pub id: i32,
    pub title: String,
    pub avatar_text: String,
    pub avatar_color: Rgb,
    /// Whose picture is shown, and where it is found.
    pub avatar_user: u64,
    pub avatar_url: Option<String>,
    pub unread: bool,
    pub other_user_id: i32,
    pub online: bool,
}

pub open spec fn has_unread(unread: Map<u64, u32>, id: u64) -> bool {
    unread.contains_key(id) && unread[id] > 0
}

/// An entry shows a conversation.
pub open spec fn is_conv_item(item: ConvItem, c: Conversation, d: Desktop) -> bool {
    let me = d.account.self_id;
    let title = title_of(c, me);
    let i = first_other(c.members@, me);
    &&& item.id == window_id(c.id)
    &&& item.title@ == title
    &&& item.avatar_text@ == initials_of(title)
    &&& item.avatar_color == colour_of_name(title)
    &&& item.unread == has_unread(d.talks.unread@, c.id)
    &&& if i < c.members@.len() {
        let m = c.members@[i];
        &&& item.avatar_user == m.id
        &&& item.avatar_url == m.avatar_url
        &&& item.other_user_id == window_id(m.id)
        &&& item.online == is_online(d.talks.presence@, m.id)
    } else {
        &&& item.avatar_user == 0
        &&& item.avatar_url is None
        &&& item.other_user_id == -1
        &&& !item.online
    }
}

/// The conversations that are not hidden.
pub open spec fn visible(cs: Seq<Conversation>, hidden: Seq<u64>) -> Seq<Conversation>
    decreases cs.len(),
{
    if cs.len() == 0 {
        Seq::empty()
    } else if hidden.contains(cs.last().id) {
        visible(cs.drop_last(), hidden)
    } else {
        visible(cs.drop_last(), hidden).push(cs.last())
    }
}

/// The entries show the conversations, in order.
pub open spec fn are_conv_items(items: Seq<ConvItem>, cs: Seq<Conversation>, d: Desktop) -> bool {
    &&& items.len() == cs.len()
    &&& forall|i: int| 0 <= i < cs.len() ==> is_conv_item(#[trigger] items[i], cs[i], d)
}

pub fn holds_id(ids: &Vec<u64>, id: u64) -> (b: bool)
    ensures
        b == ids@.contains(id),
{
    let mut i: usize = 0;
    while i < ids.len()
        invariant
            i <= ids.len(),
            forall|j: int| 0 <= j < i ==> ids@[j] != id,
        decreases ids.len() - i,
    {
        if ids[i] == id {
            return true;
        }
        i += 1;
    }
    false
}

fn copy_url(s: &Option<String>) -> (r: Option<String>)
    ensures
        r == *s,
{
    match s {
        Some(t) => Some(t.clone()),
        None => None,
    }
}

// ---------------------------------------------------------------------------
// Contacts
// ---------------------------------------------------------------------------

/// A contact: id, name and handle.
pub open spec fn contact_model(c: Contact) -> (u64, Seq<char>, Seq<char>) {
    (c.id, c.name@, c.handle@)
}

pub open spec fn contact_models(cs: Seq<Contact>) -> Seq<(u64, Seq<char>, Seq<char>)> {
    cs.map_values(|c: Contact| contact_model(c))
}

pub open spec fn knows(cs: Seq<(u64, Seq<char>, Seq<char>)>, id: u64) -> bool {
    exists|i: int| 0 <= i < cs.len() && (#[trigger] cs[i]).0 == id
}

/// A member as a contact.
pub open spec fn contact_of(m: Member) -> (u64, Seq<char>, Seq<char>) {
    let domain = if m.domain@.len() == 0 {
        "localhost"@
    } else {
        m.domain@
    };
    (m.id, shown_name(m), "@"@ + m.username@ + "@"@ + domain)
}

/// The contacts once a member was looked at: each user counts once, and only under a user name.
pub open spec fn with_contact(
    cs: Seq<(u64, Seq<char>, Seq<char>)>,
    m: Member,
    me: Option<u64>,
) -> Seq<(u64, Seq<char>, Seq<char>)> {
    if me == Some(m.id) || m.username@.len() == 0 || knows(cs, m.id) {
        cs
    } else {
        cs.push(contact_of(m))
    }
}

pub open spec fn with_members(
    cs: Seq<(u64, Seq<char>, Seq<char>)>,
    ms: Seq<Member>,
    me: Option<u64>,
) -> Seq<(u64, Seq<char>, Seq<char>)>
    decreases ms.len(),
{
    if ms.len() == 0 {
        cs
    } else {
        with_contact(with_members(cs, ms.drop_last(), me), ms.last(), me)
    }
}

/// Everyone that the user talks to.
pub open spec fn contacts_in(cs: Seq<Conversation>, me: Option<u64>) -> Seq<
    (u64, Seq<char>, Seq<char>),
>
    decreases cs.len(),
{
    if cs.len() == 0 {
        Seq::empty()
    } else {
        with_members(contacts_in(cs.drop_last(), me), cs.last().members@, me)
    }
}

fn knows_contact(cs: &Vec<Contact>, id: u64) -> (b: bool)
    ensures
        b == knows(contact_models(cs@), id),
{
    let ghost all = contact_models(cs@);
    let mut i: usize = 0;
    while i < cs.len()
        invariant
            i <= cs.len(),
            all == contact_models(cs@),
            forall|j: int| 0 <= j < i ==> (#[trigger] all[j]).0 != id,
        decreases cs.len() - i,
    {
        proof {
            assert(all[i as int] == contact_model(cs@[i as int]));
        }
        if cs[i].id == id {
            proof {
                assert(all[i as int].0 == id);
            }
            return true;
        }
        i += 1;
    }
    false
}

fn add_contact(cs: &mut Vec<Contact>, m: &Member, me: Option<u64>)
    ensures
        contact_models(final(cs)@) == with_contact(contact_models(old(cs)@), *m, me),
{
    if is_me(me, m.id) || m.username.as_str().is_empty() || knows_contact(cs, m.id) {
        return;
    }
    let domain = if m.domain.as_str().is_empty() {
        copy_text("localhost")
    } else {
        m.domain.clone()
    };
    let handle = concat4("@", m.username.as_str(), "@", domain.as_str());
    let c = Contact { id: m.id, name: member_name(m), handle };
    proof {
        assert(contact_model(c) == contact_of(*m));
    }
    cs.push(c);
    proof {
        assert(contact_models(cs@) =~= contact_models(old(cs)@).push(contact_of(*m)));
    }
}

fn add_members(cs: &mut Vec<Contact>, ms: &Vec<Member>, me: Option<u64>)
    ensures
        contact_models(final(cs)@) == with_members(contact_models(old(cs)@), ms@, me),
{
    let mut i: usize = 0;
    while i < ms.len()
        invariant
            i <= ms.len(),
            contact_models(cs@) == with_members(
                contact_models(old(cs)@),
                ms@.take(i as int),
                me,
            ),
        decreases ms.len() - i,
    {
        proof {
            assert(ms@.take(i + 1).drop_last() =~= ms@.take(i as int));
        }
        add_contact(cs, &ms[i], me);
        i += 1;
    }
    proof {
        assert(ms@.take(i as int) =~= ms@);
    }
}

// ---------------------------------------------------------------------------
// Suggestions
// ---------------------------------------------------------------------------

/// How often a character stands in a text.
pub open spec fn count_char(s: Seq<char>, c: char) -> nat
    decreases s.len(),
{
    if s.len() == 0 {
        0
    } else {
        count_char(s.drop_last(), c) + if s.last() == c {
            1nat
        } else {
            0nat
        }
    }
}

/// Whether an entry names someone in full: it is an id, or a handle with a domain.
pub open spec fn is_complete(s: Seq<char>) -> bool {
    parsed(s, u64::MAX as nat) is Some || (has_prefix(s, "@"@) && count_char(s, '@') >= 2)
}

/// The entries between commas, trimmed.
pub open spec fn fragments(input: Seq<char>) -> Seq<Seq<char>> {
    split(input, ',').map_values(|s: Seq<char>| trim(s))
}

/// Whether a contact is already among the entries.
pub open spec fn is_listed(fs: Seq<Seq<char>>, c: (u64, Seq<char>, Seq<char>)) -> bool {
    exists|i: int|
        0 <= i < fs.len() && (#[trigger] fs[i]).len() > 0 && is_complete(fs[i]) && (fs[i] == c.2
            || parsed(fs[i], u64::MAX as nat) == Some(c.0 as nat))
}

/// What contacts are looked for by: the last entry, unless it names someone in full.
pub open spec fn query_of(fs: Seq<Seq<char>>) -> Seq<char> {
    if is_complete(fs.last()) {
        Seq::empty()
    } else {
        lowered(fs.last())
    }
}

pub open spec fn suits_query(query: Seq<char>, c: (u64, Seq<char>, Seq<char>)) -> bool {
    ||| query.len() == 0
    ||| contains_text(lowered(c.1), query)
    ||| contains_text(lowered(c.2), query)
}

/// The contacts that are suggested, before the list is cut.
pub open spec fn candidates(
    cs: Seq<(u64, Seq<char>, Seq<char>)>,
    fs: Seq<Seq<char>>,
) -> Seq<(u64, Seq<char>, Seq<char>)>
    decreases cs.len(),
{
    if cs.len() == 0 {
        Seq::empty()
    } else {
        let rest = candidates(cs.drop_last(), fs);
        if !is_listed(fs, cs.last()) && suits_query(query_of(fs), cs.last()) {
            rest.push(cs.last())
        } else {
            rest
        }
    }
}

/// At most six contacts are suggested.
pub open spec fn suggested(
    cs: Seq<(u64, Seq<char>, Seq<char>)>,
    fs: Seq<Seq<char>>,
) -> Seq<(u64, Seq<char>, Seq<char>)> {
    let all = candidates(cs, fs);
    if all.len() > 6 {
        all.take(6)
    } else {
        all
    }
}

pub fn count_of(s: &str, c: char) -> (n: usize)
    ensures
        n == count_char(s@, c),
{
    let v = chars_of(s);
    let mut n: usize = 0;
    let mut i: usize = 0;
    while i < v.len()
        invariant
            i <= v.len(),
            n <= i,
            n == count_char(v@.take(i as int), c),
        decreases v.len() - i,
    {
        proof {
            assert(v@.take(i + 1).drop_last() =~= v@.take(i as int));
        }
        if v[i] == c {
            n += 1;
        }
        i += 1;
    }
    proof {
        assert(v@.take(i as int) =~= v@);
    }
    n
}

pub fn names_in_full(s: &str) -> (b: bool)
    ensures
        b == is_complete(s@),
{
    parse_u64(s).is_some() || (starts_with(s, "@") && count_of(s, '@') >= 2)
}

pub fn read_fragments(input: &str) -> (r: Vec<String>)
    ensures
        texts(r@) == fragments(input@),
        r.len() > 0,
{
    let pieces = split_at_char(input, ',');
    let ghost all = fragments(input@);
    proof {
        assert(split(input@, ',').len() == pieces.len());
    }
    let mut r: Vec<String> = Vec::new();
    let mut i: usize = 0;
    while i < pieces.len()
        invariant
            i <= pieces.len(),
            all == fragments(input@),
            texts(pieces@) == split(input@, ','),
            r.len() == i,
            forall|j: int| 0 <= j < i ==> (#[trigger] r@[j])@ == all[j],
        decreases pieces.len() - i,
    {
        proof {
            assert(texts(pieces@)[i as int] == pieces@[i as int]@);
        }
        r.push(trim_text(pieces[i].as_str()));
        i += 1;
    }
    proof {
        assert(texts(r@) =~= all);
    }
    r
}

fn listed(fs: &Vec<String>, id: u64, handle: &str) -> (b: bool)
    ensures
        forall|name: Seq<char>| b == #[trigger] is_listed(texts(fs@), (id, name, handle@)),
{
    let ghost all = texts(fs@);
    let mut i: usize = 0;
    while i < fs.len()
        invariant
            i <= fs.len(),
            all == texts(fs@),
            forall|j: int|
                0 <= j < i ==> !((#[trigger] all[j]).len() > 0 && is_complete(all[j]) && (all[j]
                    == handle@ || parsed(all[j], u64::MAX as nat) == Some(id as nat))),
        decreases fs.len() - i,
    {
        proof {
            assert(all[i as int] == fs@[i as int]@);
        }
        let f = fs[i].as_str();
        if !f.is_empty() && names_in_full(f) {
            let same_id = match parse_u64(f) {
                Some(n) => n == id,
                None => false,
            };
            if same_text(f, handle) || same_id {
                proof {
                    assert forall|name: Seq<char>| #[trigger] is_listed(
                        texts(fs@),
                        (id, name, handle@),
                    ) by {
                        assert(all[i as int].len() > 0);
                    }
                }
                return true;
            }
        }
        i += 1;
    }
    false
}

/// A suggested contact.
pub struct Suggestion {
    pub id: i32,
    pub user_id: u64,
    pub name: String,
    pub handle: String,
    pub avatar_text: String,
    pub avatar_color: Rgb,
}

pub open spec fn is_suggestion(s: Suggestion, c: (u64, Seq<char>, Seq<char>)) -> bool {
    &&& s.id == window_id(c.0)
    &&& s.user_id == c.0
    &&& s.name@ == c.1
    &&& s.handle@ == c.2
    &&& s.avatar_text@ == initials_of(c.1)
    &&& s.avatar_color == colour_of_name(c.1)
}

pub open spec fn are_suggestions(
    list: Seq<Suggestion>,
    cs: Seq<(u64, Seq<char>, Seq<char>)>,
) -> bool {
    &&& list.len() == cs.len()
    &&& forall|i: int| 0 <= i < cs.len() ==> is_suggestion(#[trigger] list[i], cs[i])
}

proof fn lemma_candidates_grow(
    cs: Seq<(u64, Seq<char>, Seq<char>)>,
    fs: Seq<Seq<char>>,
    i: int,
)
    requires
        0 <= i <= cs.len(),
    ensures
        candidates(cs.take(i), fs).len() <= candidates(cs, fs).len(),
        candidates(cs, fs).take(candidates(cs.take(i), fs).len() as int) == candidates(
            cs.take(i),
            fs,
        ),
    decreases cs.len() - i,
{
    if i < cs.len() {
        lemma_candidates_grow(cs, fs, i + 1);
        assert(cs.take(i + 1).drop_last() =~= cs.take(i));
        let a = candidates(cs.take(i), fs);
        let b = candidates(cs.take(i + 1), fs);
        let all = candidates(cs, fs);
        assert(b.take(a.len() as int) =~= a);
        assert(all.take(b.len() as int).take(a.len() as int) =~= all.take(a.len() as int));
    } else {
        assert(cs.take(i) =~= cs);
        assert(candidates(cs, fs).take(candidates(cs, fs).len() as int) =~= candidates(cs, fs));
    }
}

/// The contacts that are suggested for what was typed.
pub fn refresh_suggestions(contacts: &Vec<Contact>, input: &str) -> (r: Vec<Suggestion>)
    ensures
        are_suggestions(r@, suggested(contact_models(contacts@), fragments(input@))),
{
    let fs = read_fragments(input);
    let ghost frags = fragments(input@);
    let n: usize = fs.len();
    proof {
        assert(texts(fs@).last() == fs@[n - 1]@);
    }
    let query = if names_in_full(fs[n - 1].as_str()) {
        String::new()
    } else {
        lowercase(fs[n - 1].as_str())
    };
    proof {
        if is_complete(frags.last()) {
            assert(query@ =~= Seq::empty());
        }
        assert(query@ == query_of(frags));
    }
    let ghost all = contact_models(contacts@);
    let mut r: Vec<Suggestion> = Vec::new();
    let mut i: usize = 0;
    while i < contacts.len() && r.len() < 6
        invariant
            i <= contacts.len(),
            r.len() <= 6,
            all == contact_models(contacts@),
            frags == texts(fs@),
            query@ == query_of(frags),
            are_suggestions(r@, candidates(all.take(i as int), frags)),
        decreases contacts.len() - i,
    {
        let c = &contacts[i];
        proof {
            assert(all.take(i + 1).drop_last() =~= all.take(i as int));
            assert(all.take(i + 1).last() == contact_model(contacts@[i as int]));
        }
        let fits = query.as_str().is_empty() || text_contains(
            lowercase(c.name.as_str()).as_str(),
            query.as_str(),
        ) || text_contains(lowercase(c.handle.as_str()).as_str(), query.as_str());
        let is_there = listed(&fs, c.id, c.handle.as_str());
        proof {
            assert(is_there == is_listed(frags, contact_model(*c)));
        }
        if !is_there && fits {
            r.push(
                Suggestion {
                    id: to_window_id(c.id),
                    user_id: c.id,
                    name: c.name.clone(),
                    handle: c.handle.clone(),
                    avatar_text: initials(c.name.as_str()),
                    avatar_color: avatar_color(c.name.as_str()),
                },
            );
        }
        i += 1;
    }
    proof {
        lemma_candidates_grow(all, frags, i as int);
        let shown = candidates(all.take(i as int), frags);
        let whole = candidates(all, frags);
        if i == contacts.len() {
            assert(all.take(i as int) =~= all);
        } else {
            assert(shown.len() == 6);
            if whole.len() == 6 {
                assert(whole.take(6) =~= whole);
            }
        }
        assert(shown == suggested(all, frags));
    }
    r
}

impl Desktop {
    fn conv_item(&self, c: &Conversation) -> (item: ConvItem)
        ensures
            is_conv_item(item, *c, *self),
    {
        let me = self.account.self_id;
        let title = conversation_title(c, me);
        let unread = match self.talks.unread.get(&c.id) {
            Some(n) => *n > 0,
            None => false,
        };
        let avatar_text = initials(title.as_str());
        let color = avatar_color(title.as_str());
        match find_other(&c.members, me) {
            Some(i) => {
                let m = &c.members[i];
                ConvItem {
                    id: to_window_id(c.id),
                    title,
                    avatar_text,
                    avatar_color: color,
                    avatar_user: m.id,
                    avatar_url: copy_url(&m.avatar_url),
                    unread,
                    other_user_id: to_window_id(m.id),
                    online: user_online(&self.talks.presence, m.id),
                }
            },
            None => ConvItem {
                id: to_window_id(c.id),
                title,
                avatar_text,
                avatar_color: color,
                avatar_user: 0,
                avatar_url: None,
                unread,
                other_user_id: -1,
                online: false,
            },
        }
    }

    /// The list of conversations as it is shown.
    pub fn conversation_items(&self) -> (r: Vec<ConvItem>)
        ensures
            are_conv_items(
                r@,
                visible(self.talks.conversations@, self.talks.hidden@),
                *self,
            ),
    {
        let cs = &self.talks.conversations;
        let mut r: Vec<ConvItem> = Vec::new();
        let mut i: usize = 0;
        while i < cs.len()
            invariant
                i <= cs.len(),
                cs == self.talks.conversations,
                are_conv_items(r@, visible(cs@.take(i as int), self.talks.hidden@), *self),
            decreases cs.len() - i,
        {
            proof {
                assert(cs@.take(i + 1).drop_last() =~= cs@.take(i as int));
            }
            if !holds_id(&self.talks.hidden, cs[i].id) {
                r.push(self.conv_item(&cs[i]));
            }
            i += 1;
        }
        proof {
            assert(cs@.take(i as int) =~= cs@);
        }
        r
    }

    /// Everyone that the user talks to, from the conversations that are shown.
    pub fn list_contacts(&self) -> (r: Vec<Contact>)
        ensures
            contact_models(r@) == contacts_in(
                visible(self.talks.conversations@, self.talks.hidden@),
                self.account.self_id,
            ),
    {
        let cs = &self.talks.conversations;
        let mut r: Vec<Contact> = Vec::new();
        let mut i: usize = 0;
        proof {
            assert(contact_models(r@) =~= Seq::empty());
        }
        while i < cs.len()
            invariant
                i <= cs.len(),
                cs == self.talks.conversations,
                contact_models(r@) == contacts_in(
                    visible(cs@.take(i as int), self.talks.hidden@),
                    self.account.self_id,
                ),
            decreases cs.len() - i,
        {
            proof {
                assert(cs@.take(i + 1).drop_last() =~= cs@.take(i as int));
                let sofar = visible(cs@.take(i as int), self.talks.hidden@);
                assert(sofar.push(cs@[i as int]).drop_last() =~= sofar);
            }
            if !holds_id(&self.talks.hidden, cs[i].id) {
                add_members(&mut r, &cs[i].members, self.account.self_id);
            }
            i += 1;
        }
        proof {
            assert(cs@.take(i as int) =~= cs@);
        }
        r
    }

    /// Shows the conversations anew, and remembers everyone in them.
    pub fn refresh_conversations_ui(&mut self) -> (r: Vec<ConvItem>)
        ensures
            are_conv_items(
                r@,
                visible(old(self).talks.conversations@, old(self).talks.hidden@),
                *old(self),
            ),
            *final(self) == (Desktop {
                talks: Talks {
                    contacts: final(self).talks.contacts,
                    ..old(self).talks
                },
                ..*old(self)
            }),
            contact_models(final(self).talks.contacts@) == contacts_in(
                visible(old(self).talks.conversations@, old(self).talks.hidden@),
                old(self).account.self_id,
            ),
    {
        let items = self.conversation_items();
        let contacts = self.list_contacts();
        self.talks.contacts = contacts;
        items
    }
}

// ---------------------------------------------------------------------------
// Files in messages
// ---------------------------------------------------------------------------

/// Where the picture of an attachment comes from.
pub enum Picture {
    Nothing,
    /// A `data:` URL.
    Inline(String),
    /// A file on disk, which is to be kept as a `data:` URL once it was read.
    Stored(String),
}

/// The size of an attachment.
pub enum FileSize {
    Hidden,
    Bytes(u64),
    /// That of a file on disk, or zero where it is not there.
    OnDisk(Option<String>),
}

/// How the attachment of a message is shown.
pub struct FileShown {
    pub picture: Picture,
    pub status: String,
    pub size: FileSize,
    /// Whether the file has to be fetched.
    pub fetch: bool,
}

/// A picture for an image, and none for anything else.
pub open spec fn inline_picture(image: bool, url: String, p: Picture) -> bool {
    if image {
        p == Picture::Inline(url)
    } else {
        p is Nothing
    }
}

/// A number of bytes that may be given as a signed one.
pub open spec fn unsigned_size(n: Option<i64>) -> int {
    match n {
        Some(x) => if x >= 0 {
            x as int
        } else {
            x + 0x1_0000_0000_0000_0000
        },
        None => 0,
    }
}

/// How the attachment of a message is shown: an old one that is part of the message, one's own, one
/// that was received, or one that is still with its sender.
pub open spec fn is_file_shown(f: FileShown, s: Store, me: Option<u64>, m: ApiMsg) -> bool {
    let image = is_image_mime(or_empty(m.attachment_mime));
    match (m.attachment_data, m.file_id) {
        (Some(data), _) => inline_picture(image, data, f.picture) && f.status@.len() == 0
            && f.size is Hidden && !f.fetch,
        (None, None) => f.picture is Nothing && f.status@.len() == 0 && f.size is Hidden
            && !f.fetch,
        (None, Some(id)) => if me == Some(m.sender_id) && s.own_files@.contains_key(id@) {
            let own = s.own_files@[id@];
            &&& inline_picture(image, own.thumbnail, f.picture)
            &&& f.status@.len() == 0
            &&& f.size == FileSize::Bytes(own.bytes@.len() as u64)
            &&& !f.fetch
        } else if s.downloaded@.contains_key(id@) {
            let kept = s.downloaded@[id@];
            &&& f.picture == if image {
                match (kept.image_data, kept.path) {
                    (Some(d), _) => Picture::Inline(d),
                    (None, Some(p)) => Picture::Stored(p),
                    (None, None) => Picture::Nothing,
                }
            } else {
                Picture::Nothing
            }
            &&& f.status@.len() == 0
            &&& f.size == FileSize::OnDisk(kept.path)
            &&& !f.fetch
        } else {
            &&& match m.thumbnail_data {
                Some(t) => inline_picture(image, t, f.picture),
                None => f.picture is Nothing,
            }
            &&& f.status@ == if s.p2p_status@.contains_key(id@) {
                s.p2p_status@[id@]@
            } else {
                Seq::empty()
            }
            &&& f.size == FileSize::Bytes(unsigned_size(m.file_size) as u64)
            &&& f.fetch == (me != Some(m.sender_id))
        },
    }
}

fn picture(image: bool, url: &String) -> (p: Picture)
    ensures
        inline_picture(image, *url, p),
{
    if image {
        Picture::Inline(url.clone())
    } else {
        Picture::Nothing
    }
}

pub fn to_unsigned(n: Option<i64>) -> (r: u64)
    ensures
        r == unsigned_size(n),
{
    match n {
        Some(x) => {
            if x >= 0 {
                x as u64
            } else {
                let back: u64 = (-(x + 1)) as u64;
                0xffff_ffff_ffff_ffff - back
            }
        },
        None => 0,
    }
}

fn kept_picture(image: bool, kept: &KeptFile) -> (p: Picture)
    ensures
        p == if image {
            match (kept.image_data, kept.path) {
                (Some(d), _) => Picture::Inline(d),
                (None, Some(p)) => Picture::Stored(p),
                (None, None) => Picture::Nothing,
            }
        } else {
            Picture::Nothing
        },
{
    if !image {
        return Picture::Nothing;
    }
    match (&kept.image_data, &kept.path) {
        (Some(d), _) => Picture::Inline(d.clone()),
        (None, Some(p)) => Picture::Stored(p.clone()),
        (None, None) => Picture::Nothing,
    }
}

impl Desktop {
    /// How the attachment of a message is shown.
    pub fn p2p_display(&self, m: &ApiMsg) -> (f: FileShown)
        ensures
            is_file_shown(f, self.store, self.account.self_id, *m),
    {
        let mime = text_or_empty(&m.attachment_mime);
        let image = starts_with(mime.as_str(), "image/");
        match &m.attachment_data {
            Some(data) => {
                return FileShown {
                    picture: picture(image, data),
                    status: String::new(),
                    size: FileSize::Hidden,
                    fetch: false,
                };
            },
            None => {},
        }
        let id = match &m.file_id {
            Some(f) => f,
            None => {
                return FileShown {
                    picture: Picture::Nothing,
                    status: String::new(),
                    size: FileSize::Hidden,
                    fetch: false,
                };
            },
        };
        let own = is_me(self.account.self_id, m.sender_id);
        if own {
            match self.store.own_files.get(id) {
                Some(o) => {
                    return FileShown {
                        picture: picture(image, &o.thumbnail),
                        status: String::new(),
                        size: FileSize::Bytes(o.bytes.len() as u64),
                        fetch: false,
                    };
                },
                None => {},
            }
        }
        match self.store.downloaded.get(id) {
            Some(kept) => {
                return FileShown {
                    picture: kept_picture(image, kept),
                    status: String::new(),
                    size: FileSize::OnDisk(copy_url(&kept.path)),
                    fetch: false,
                };
            },
            None => {},
        }
        let shown = match &m.thumbnail_data {
            Some(t) => picture(image, t),
            None => Picture::Nothing,
        };
        let status = match self.store.p2p_status.get(id) {
            Some(s) => s.clone(),
            None => String::new(),
        };
        FileShown {
            picture: shown,
            status,
            size: FileSize::Bytes(to_unsigned(m.file_size)),
            fetch: !own,
        }
    }
}

// ---------------------------------------------------------------------------
// Messages
// ---------------------------------------------------------------------------

/// What is shown of a link.
pub struct PreviewShown {
    pub title: String,
    pub description: String,
    pub url: String,
    pub image: Option<String>,
}

/// A link shows what is known of it, and nothing otherwise.
pub open spec fn is_preview_shown(
    p: PreviewShown,
    cache: Map<Seq<char>, Option<Preview>>,
    body: Seq<char>,
) -> bool {
    match known_preview(cache, body) {
        Some(k) => {
            &&& p.title@ == or_empty(k.title)
            &&& p.description@ == or_empty(k.description)
            &&& p.url == k.url
            &&& p.image == k.image
        },
        None => {
            &&& p.title@.len() == 0
            &&& p.description@.len() == 0
            &&& p.url@.len() == 0
            &&& p.image is None
        },
    }
}

/// What is known of the first link of a text.
pub open spec fn known_preview(cache: Map<Seq<char>, Option<Preview>>, body: Seq<char>) -> Option<
    Preview,
> {
    match first_link(body) {
        Some(u) => if cache.contains_key(u) {
            cache[u]
        } else {
            None
        },
        None => None,
    }
}

/// A message as it is shown.
pub struct MessageItem {
    pub id: i32,
    pub sender: String,
    pub body: String,
    pub is_self: bool,
    pub sender_id: i32,
    pub avatar_text: String,
    pub avatar_color: Rgb,
    pub avatar_user: u64,
    pub avatar_url: Option<String>,
    pub attachment_name: String,
    pub attachment_mime: String,
    pub file_id: String,
    pub file: FileShown,
    pub preview: PreviewShown,
    pub is_edited: bool,
    pub original_body: String,
}

/// The name behind the initials of a message.
pub open spec fn avatar_name(ms: Seq<Member>, sender: u64, me: Option<u64>, my_name: Seq<char>) -> Seq<char> {
    let i = member_index(ms, sender);
    if me == Some(sender) {
        my_name
    } else if i < ms.len() {
        shown_name(ms[i])
    } else {
        nameless(sender)
    }
}

pub open spec fn avatar_address(ms: Seq<Member>, sender: u64) -> Option<String> {
    let i = member_index(ms, sender);
    if i < ms.len() {
        ms[i].avatar_url
    } else {
        None
    }
}

/// An item shows a message.
pub open spec fn is_message_item(item: MessageItem, m: ApiMsg, ms: Seq<Member>, d: Desktop) -> bool {
    let me = d.account.self_id;
    let name = avatar_name(ms, m.sender_id, me, d.texts.user_name@);
    &&& item.id == window_id(m.id)
    &&& item.sender@ == desktop_sender_text(ms, m.sender_id, me)
    &&& item.body == m.body
    &&& item.is_self == (me == Some(m.sender_id))
    &&& item.sender_id == window_id(m.sender_id)
    &&& item.avatar_text@ == initials_of(name)
    &&& item.avatar_color == colour_of_name(name)
    &&& item.avatar_user == m.sender_id
    &&& item.avatar_url == avatar_address(ms, m.sender_id)
    &&& item.attachment_name@ == or_empty(m.attachment_name)
    &&& item.attachment_mime@ == or_empty(m.attachment_mime)
    &&& item.file_id@ == or_empty(m.file_id)
    &&& is_file_shown(item.file, d.store, me, m)
    &&& is_preview_shown(item.preview, d.store.preview_cache@, m.body@)
    &&& item.is_edited == (m.edited_at is Some)
    &&& item.original_body@ == or_empty(m.original_body)
}

/// The members of the open conversation.
pub open spec fn open_members(d: Desktop) -> Seq<Member> {
    let cs = d.talks.conversations@;
    let id = id_of_window(d.talks.selected) as u64;
    if holds(cs, id) {
        cs[position(cs, id)].members@
    } else {
        Seq::empty()
    }
}

/// The items show the messages, in order.
pub open spec fn are_message_items(items: Seq<MessageItem>, msgs: Seq<ApiMsg>, d: Desktop) -> bool {
    &&& items.len() == msgs.len()
    &&& forall|i: int|
        0 <= i < msgs.len() ==> is_message_item(#[trigger] items[i], msgs[i], open_members(d), d)
}

impl Desktop {
    /// What is shown of the first link of a text.
    pub fn preview_shown(&self, body: &str) -> (p: PreviewShown)
        ensures
            is_preview_shown(p, self.store.preview_cache@, body@),
    {
        match first_url(body) {
            Some(u) => match self.store.preview_cache.get(&u) {
                Some(Some(k)) => {
                    return PreviewShown {
                        title: text_or_empty(&k.title),
                        description: text_or_empty(&k.description),
                        url: k.url.clone(),
                        image: copy_url(&k.image),
                    };
                },
                _ => {},
            },
            None => {},
        }
        PreviewShown {
            title: String::new(),
            description: String::new(),
            url: String::new(),
            image: None,
        }
    }

    fn message_item(&self, m: &ApiMsg, ms: &Vec<Member>) -> (item: MessageItem)
        ensures
            is_message_item(item, *m, ms@, *self),
    {
        let me = self.account.self_id;
        let own = is_me(me, m.sender_id);
        let place = find_member(ms, m.sender_id);
        let name = if own {
            self.texts.user_name.clone()
        } else {
            match place {
                Some(i) => member_name(&ms[i]),
                None => nameless_user(m.sender_id),
            }
        };
        let avatar_url = match place {
            Some(i) => copy_url(&ms[i].avatar_url),
            None => None,
        };
        MessageItem {
            id: to_window_id(m.id),
            sender: desktop_sender_name(ms, m.sender_id, me),
            body: m.body.clone(),
            is_self: own,
            sender_id: to_window_id(m.sender_id),
            avatar_text: initials(name.as_str()),
            avatar_color: avatar_color(name.as_str()),
            avatar_user: m.sender_id,
            avatar_url,
            attachment_name: text_or_empty(&m.attachment_name),
            attachment_mime: text_or_empty(&m.attachment_mime),
            file_id: text_or_empty(&m.file_id),
            file: self.p2p_display(m),
            preview: self.preview_shown(m.body.as_str()),
            is_edited: m.edited_at.is_some(),
            original_body: text_or_empty(&m.original_body),
        }
    }

    /// The messages of the open conversation as they are shown.
    pub fn refresh_messages_ui(&self) -> (r: Vec<MessageItem>)
        ensures
            are_message_items(r@, self.talks.messages@, *self),
    {
        let id = from_window_id(self.talks.selected);
        let nobody: Vec<Member> = Vec::new();
        proof {
            assert(nobody@ =~= Seq::empty());
        }
        let ms: &Vec<Member> = match find(&self.talks.conversations, id) {
            Some(i) => &self.talks.conversations[i].members,
            None => &nobody,
        };
        let msgs = &self.talks.messages;
        let mut r: Vec<MessageItem> = Vec::new();
        let mut i: usize = 0;
        while i < msgs.len()
            invariant
                i <= msgs.len(),
                msgs == self.talks.messages,
                ms@ == open_members(*self),
                r.len() == i,
                forall|k: int|
                    0 <= k < i ==> is_message_item(
                        #[trigger] r@[k],
                        msgs@[k],
                        open_members(*self),
                        *self,
                    ),
            decreases msgs.len() - i,
        {
            r.push(self.message_item(&msgs[i], ms));
            i += 1;
        }
        r
    }
}

// ---------------------------------------------------------------------------
// Asking for previews
// ---------------------------------------------------------------------------

/// The links that have to be looked up once some messages were gone through: first what was asked
/// for, then what has to be asked now.
pub open spec fn lookups(
    msgs: Seq<ApiMsg>,
    cache: Map<Seq<char>, Option<Preview>>,
    requested: Map<Seq<char>, ()>,
) -> (Map<Seq<char>, ()>, Seq<Seq<char>>)
    decreases msgs.len(),
{
    if msgs.len() == 0 {
        (requested, Seq::empty())
    } else {
        let (done, urls) = lookups(msgs.drop_last(), cache, requested);
        match first_link(msgs.last().body@) {
            Some(u) => if cache.contains_key(u) || done.contains_key(u) {
                (done, urls)
            } else {
                (done.insert(u, ()), urls.push(u))
            },
            None => (done, urls),
        }
    }
}

impl Desktop {
    /// The links in the messages that have to be looked up; each is asked for once.
    pub fn request_previews(&mut self) -> (urls: Vec<String>)
        ensures
            *final(self) == (Desktop {
                store: Store {
                    preview_requested: final(self).store.preview_requested,
                    ..old(self).store
                },
                ..*old(self)
            }),
            (final(self).store.preview_requested@, texts(urls@)) == lookups(
                old(self).talks.messages@,
                old(self).store.preview_cache@,
                old(self).store.preview_requested@,
            ),
    {
        let ghost start = *self;
        let ghost msgs = self.talks.messages@;
        let ghost cache = self.store.preview_cache@;
        let mut urls: Vec<String> = Vec::new();
        let mut i: usize = 0;
        proof {
            assert(msgs.take(0) =~= Seq::empty());
            assert(texts(urls@) =~= Seq::empty());
        }
        while i < self.talks.messages.len()
            invariant
                i <= self.talks.messages.len(),
                msgs == start.talks.messages@,
                cache == start.store.preview_cache@,
                *self == (Desktop {
                    store: Store {
                        preview_requested: self.store.preview_requested,
                        ..start.store
                    },
                    ..start
                }),
                (self.store.preview_requested@, texts(urls@)) == lookups(
                    msgs.take(i as int),
                    cache,
                    start.store.preview_requested@,
                ),
            decreases self.talks.messages.len() - i,
        {
            proof {
                assert(msgs.take(i + 1).drop_last() =~= msgs.take(i as int));
                assert(msgs.take(i + 1).last() == msgs[i as int]);
            }
            match first_url(self.talks.messages[i].body.as_str()) {
                Some(u) => {
                    if !self.store.preview_cache.contains(&u)
                        && !self.store.preview_requested.contains(&u) {
                        let ghost sofar = urls@;
                        let ghost t = u@;
                        self.store.preview_requested.insert(u.clone(), ());
                        urls.push(u);
                        proof {
                            assert(texts(urls@) =~= texts(sofar).push(t));
                        }
                    }
                },
                None => {},
            }
            i += 1;
        }
        proof {
            assert(msgs.take(i as int) =~= msgs);
        }
        urls
    }

    /// Remembers the picture of a received file.
    pub fn keep_picture(&mut self, file_id: &String, data: String)
        ensures
            *final(self) == (Desktop {
                store: Store { downloaded: final(self).store.downloaded, ..old(self).store },
                ..*old(self)
            }),
            final(self).store.downloaded@ == if old(self).store.downloaded@.contains_key(file_id@) {
                old(self).store.downloaded@.insert(
                    file_id@,
                    KeptFile {
                        image_data: Some(data),
                        path: old(self).store.downloaded@[file_id@].path,
                    },
                )
            } else {
                old(self).store.downloaded@
            },
    {
        let path = match self.store.downloaded.get(file_id) {
            Some(kept) => copy_url(&kept.path),
            None => return,
        };
        self.store.downloaded.insert(file_id.clone(), KeptFile { image_data: Some(data), path });
    }
}

/// No user is listed twice among the contacts.
pub open spec fn distinct_contacts(cs: Seq<(u64, Seq<char>, Seq<char>)>) -> bool {
    forall|i: int, j: int| 0 <= i < j < cs.len() ==> (#[trigger] cs[i]).0 != (#[trigger] cs[j]).0
}

proof fn lemma_members_distinct(
    cs: Seq<(u64, Seq<char>, Seq<char>)>,
    ms: Seq<Member>,
    me: Option<u64>,
)
    requires
        distinct_contacts(cs),
    ensures
        distinct_contacts(with_members(cs, ms, me)),
    decreases ms.len(),
{
    if ms.len() > 0 {
        lemma_members_distinct(cs, ms.drop_last(), me);
    }
}

/// Every user stands among the contacts at most once.
pub proof fn contacts_are_distinct(cs: Seq<Conversation>, me: Option<u64>)
    ensures
        distinct_contacts(contacts_in(cs, me)),
    decreases cs.len(),
{
    if cs.len() > 0 {
        contacts_are_distinct(cs.drop_last(), me);
        lemma_members_distinct(contacts_in(cs.drop_last(), me), cs.last().members@, me);
    }
}

/// A contact that is named in full is not suggested again.
pub proof fn listed_contacts_are_not_suggested(
    cs: Seq<(u64, Seq<char>, Seq<char>)>,
    fs: Seq<Seq<char>>,
    k: int,
)
    requires
        0 <= k < candidates(cs, fs).len(),
    ensures
        !is_listed(fs, candidates(cs, fs)[k]),
        suits_query(query_of(fs), candidates(cs, fs)[k]),
    decreases cs.len(),
{
    if cs.len() > 0 {
        let rest = candidates(cs.drop_last(), fs);
        if k < rest.len() {
            listed_contacts_are_not_suggested(cs.drop_last(), fs, k);
        }
    }
}

} // verus!
