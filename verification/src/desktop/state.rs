//! The state of the desktop client.

use std::collections::HashMap;

use vstd::prelude::*;

use crate::assoc::Assoc;
use crate::chat::types::{ApiMsg, Attachment, Conversation, Member, OwnFile, Profile, Rgb, Spot};
use crate::identity::{
    avatar_color, colour_of_name, conversation_title, initials, initials_of, is_me, title_of,
};
use crate::number::{decimal, u64_text};
use crate::ordered::{find, holds, position, Identified};
use crate::text::{concat2, concat4, copy_text};

verus! {

/// A user that was talked to before.
pub struct Contact {
    pub id: u64,
    pub name: String,
    pub handle: String,
}

impl Identified for Contact {
    open spec fn ident(&self) -> u64 {
        self.id
    }

    fn id_of(&self) -> (id: u64) {
        self.id
    }
}

/// What the server found out about a link.
pub struct Preview {
    pub url: String,
    pub title: Option<String>,
    pub description: Option<String>,
    pub image: Option<String>,
}

/// A file that was received, or found in the cache.
pub struct KeptFile {
    /// The picture as a `data:` URL, for an image.
    pub image_data: Option<String>,
    /// Where the bytes lie on disk.
    pub path: Option<String>,
}

/// Who is logged in.
pub struct Account {
    pub token: Option<String>,
    pub self_id: Option<u64>,
    pub remember_me: bool,
}

/// The conversations and their members.
pub struct Talks {
    pub conversations: Vec<Conversation>,
    pub messages: Vec<ApiMsg>,
    /// The open conversation, as the window counts them; -1 for none.
    pub selected: i32,
    pub contacts: Vec<Contact>,
    pub hidden: Vec<u64>,
    pub unread: HashMap<u64, u32>,
    pub presence: HashMap<u64, bool>,
    /// Per conversation who types, and since when, in milliseconds.
    pub typing: HashMap<u64, (String, u64)>,
    /// When the user's own typing was last announced, in milliseconds.
    pub last_typing_sent: u64,
}

/// Files and link previews.
pub struct Store {
    pub cache_dir: String,
    pub pending_attach: Option<Attachment>,
    /// What is known of a link; nothing for one that could not be looked up.
    pub preview_cache: Assoc<String, Option<Preview>>,
    pub preview_requested: Assoc<String, ()>,
    pub p2p_status: Assoc<String, String>,
    pub downloaded: Assoc<String, KeptFile>,
    pub own_files: Assoc<String, OwnFile>,
}

/// What of the window is open.
pub struct Window {
    pub logged_in: bool,
    pub needs_verify: bool,
    pub email_verified: bool,
    pub needs_2fa: bool,
    pub needs_2fa_setup: bool,
    pub totp_enabled: bool,
    pub profile_open: bool,
    pub context_open: bool,
    pub confirm_delete_open: bool,
    pub ws_connected: bool,
    pub twofa_setup_open: bool,
    pub twofa_disable_open: bool,
}

/// The texts of the window.
pub struct Texts {
    pub user_name: String,
    pub display_name_input: String,
    pub error_message: String,
    pub info_message: String,
    pub pending_token: String,
    pub twofa_secret: String,
    pub new_conversation_input: String,
    pub header_title: String,
    pub header_status: String,
    pub pending_attach_name: String,
    pub selected_conversation: i32,
    pub confirm_delete_id: i32,
    pub confirm_delete_title: String,
}

/// The card of a user.
pub struct ProfileCard {
    pub id: i32,
    pub username: String,
    pub display_name: String,
    pub handle: String,
    pub avatar_text: String,
    pub avatar_color: Rgb,
    pub user_id: u64,
    pub avatar_url: Option<String>,
    pub is_self: bool,
    pub blocked: bool,
    pub muted: bool,
    pub blocked_by: bool,
}

/// The open card, and the user that the context menu is about.
pub struct Cards {
    pub profile: Option<ProfileCard>,
    pub context_user_id: i32,
    pub context_conversation_id: i32,
    pub context_spot: Spot,
    pub context_blocked: bool,
    pub context_muted: bool,
}

/// The line that messages are written in.
pub struct Composer {
    /// Whether a message that was sent before is being changed.
    pub editing: bool,
    pub editing_id: i32,
    pub editing_body: String,
    pub draft: String,
    /// What a changed message said at first, while that is shown.
    pub original_text: String,
    pub original_open: bool,
}

pub struct Desktop {
    pub account: Account,
    pub talks: Talks,
    pub store: Store,
    pub window: Window,
    pub texts: Texts,
    pub cards: Cards,
    pub composer: Composer,
}

// ---------------------------------------------------------------------------
// Ids in the window
// ---------------------------------------------------------------------------

/// An id as the window counts it: its lowest 32 bits, with a sign.
pub open spec fn window_id(id: u64) -> int {
    let low = id as int % 0x1_0000_0000;
    if low < 0x8000_0000 {
        low
    } else {
        low - 0x1_0000_0000
    }
}

pub fn to_window_id(id: u64) -> (r: i32)
    ensures
        r == window_id(id),
{
    let low: i64 = (id % 0x1_0000_0000) as i64;
    if low < 0x8000_0000 {
        low as i32
    } else {
        (low - 0x1_0000_0000) as i32
    }
}

/// A number of the window as an id; none is below zero.
pub open spec fn id_of_window(n: i32) -> int {
    if n >= 0 {
        n as int
    } else {
        n + 0x1_0000_0000_0000_0000
    }
}

pub fn from_window_id(n: i32) -> (r: u64)
    ensures
        r == id_of_window(n),
{
    if n >= 0 {
        n as u64
    } else {
        let back: u64 = (-(n as i64)) as u64;
        0xffff_ffff_ffff_ffff - back + 1
    }
}

/// Ids below 2^31 are what they are in the window.
pub proof fn small_ids_are_kept(id: u64)
    requires
        id < 0x8000_0000,
    ensures
        window_id(id) == id,
        id_of_window(id as i32) == id,
{
}

// ---------------------------------------------------------------------------
// The header of the open conversation
// ---------------------------------------------------------------------------

/// The ids of the members other than the user.
pub open spec fn other_ids(ms: Seq<Member>, me: Option<u64>) -> Seq<u64>
    decreases ms.len(),
{
    if ms.len() == 0 {
        Seq::empty()
    } else if me == Some(ms.last().id) {
        other_ids(ms.drop_last(), me)
    } else {
        other_ids(ms.drop_last(), me).push(ms.last().id)
    }
}

pub open spec fn is_online(presence: Map<u64, bool>, id: u64) -> bool {
    presence.contains_key(id) && presence[id]
}

/// How many of some users are online.
pub open spec fn online_count(presence: Map<u64, bool>, ids: Seq<u64>) -> nat
    decreases ids.len(),
{
    if ids.len() == 0 {
        0
    } else {
        online_count(presence, ids.drop_last()) + if is_online(presence, ids.last()) {
            1nat
        } else {
            0nat
        }
    }
}

/// Whether someone typed less than three seconds ago.
pub open spec fn types_now(typing: Map<u64, (String, u64)>, conv: u64, now: u64) -> bool {
    typing.contains_key(conv) && (now < typing[conv].1 || now - typing[conv].1 < 3000)
}

/// The status line of a conversation: who types, or else who is online.
pub open spec fn status_of(t: Talks, c: Conversation, me: Option<u64>, now: u64) -> Seq<char> {
    let ids = other_ids(c.members@, me);
    if types_now(t.typing@, c.id, now) {
        t.typing@[c.id].0@ + " is typing…"@
    } else if ids.len() == 1 {
        if is_online(t.presence@, ids[0]) {
            "online"@
        } else {
            "offline"@
        }
    } else if online_count(t.presence@, ids) > 0 {
        decimal(online_count(t.presence@, ids)) + " online"@
    } else {
        Seq::empty()
    }
}

fn ids_of_others(ms: &Vec<Member>, me: Option<u64>) -> (r: Vec<u64>)
    ensures
        r@ == other_ids(ms@, me),
{
    let mut r: Vec<u64> = Vec::new();
    let mut i: usize = 0;
    while i < ms.len()
        invariant
            i <= ms.len(),
            r@ == other_ids(ms@.take(i as int), me),
        decreases ms.len() - i,
    {
        proof {
            assert(ms@.take(i + 1).drop_last() =~= ms@.take(i as int));
        }
        if !is_me(me, ms[i].id) {
            r.push(ms[i].id);
        }
        i += 1;
    }
    proof {
        assert(ms@.take(i as int) =~= ms@);
    }
    r
}

pub fn user_online(presence: &HashMap<u64, bool>, id: u64) -> (b: bool)
    ensures
        b == is_online(presence@, id),
{
    match presence.get(&id) {
        Some(b) => *b,
        None => false,
    }
}

fn count_online(presence: &HashMap<u64, bool>, ids: &Vec<u64>) -> (n: u64)
    ensures
        n == online_count(presence@, ids@),
{
    let mut n: u64 = 0;
    let mut i: usize = 0;
    while i < ids.len()
        invariant
            i <= ids.len(),
            n <= i,
            n == online_count(presence@, ids@.take(i as int)),
        decreases ids.len() - i,
    {
        proof {
            assert(ids@.take(i + 1).drop_last() =~= ids@.take(i as int));
        }
        if user_online(presence, ids[i]) {
            n += 1;
        }
        i += 1;
    }
    proof {
        assert(ids@.take(i as int) =~= ids@);
    }
    n
}

/// The status line of a conversation.
pub fn chat_status(t: &Talks, c: &Conversation, self_id: Option<u64>, now: u64) -> (r: String)
    ensures
        r@ == status_of(*t, *c, self_id, now),
{
    match t.typing.get(&c.id) {
        Some(e) => {
            if now < e.1 || now - e.1 < 3000 {
                return concat2(e.0.as_str(), " is typing…");
            }
        },
        None => {},
    }
    let ids = ids_of_others(&c.members, self_id);
    if ids.len() == 1 {
        if user_online(&t.presence, ids[0]) {
            return copy_text("online");
        }
        return copy_text("offline");
    }
    let n = count_online(&t.presence, &ids);
    if n > 0 {
        concat2(u64_text(n).as_str(), " online")
    } else {
        String::new()
    }
}

/// The header shows the open conversation, or nothing.
pub open spec fn header_shown(pre: Desktop, now: u64, post: Desktop) -> bool {
    let id = id_of_window(pre.talks.selected) as u64;
    let cs = pre.talks.conversations@;
    &&& post == (Desktop {
        texts: Texts {
            header_title: post.texts.header_title,
            header_status: post.texts.header_status,
            ..pre.texts
        },
        ..pre
    })
    &&& if holds(cs, id) {
        let c = cs[position(cs, id)];
        &&& post.texts.header_title@ == title_of(c, pre.account.self_id)
        &&& post.texts.header_status@ == status_of(pre.talks, c, pre.account.self_id, now)
    } else {
        post.texts.header_title@.len() == 0 && post.texts.header_status@.len() == 0
    }
}

/// A profile as a card.
pub open spec fn is_card(card: ProfileCard, p: Profile) -> bool {
    let name = if p.display_name@.len() == 0 {
        p.username@
    } else {
        p.display_name@
    };
    &&& card.id == window_id(p.id)
    &&& card.username == p.username
    &&& card.display_name@ == name
    &&& card.handle@ == if p.domain@.len() == 0 {
        "@"@ + p.username@
    } else {
        "@"@ + p.username@ + "@"@ + p.domain@
    }
    &&& card.avatar_text@ == initials_of(name)
    &&& card.avatar_color == colour_of_name(name)
    &&& card.user_id == p.id
    &&& card.avatar_url == p.avatar_url
    &&& card.is_self == p.is_self
    &&& card.blocked == p.blocked
    &&& card.muted == p.muted
    &&& card.blocked_by == p.blocked_by
}

/// A profile was put into the card, and the context menu follows it.
pub open spec fn card_shown(pre: Cards, p: Profile, post: Cards) -> bool {
    &&& post.profile matches Some(card)
    &&& is_card(card, p)
    &&& post.context_conversation_id == pre.context_conversation_id
    &&& post.context_spot == pre.context_spot
    &&& post.context_user_id == window_id(p.id)
    &&& post.context_blocked == p.blocked
    &&& post.context_muted == p.muted
}

impl Desktop {
    /// Shows the open conversation in the header.
    pub fn refresh_chat_header(&mut self, now: u64)
        ensures
            header_shown(*old(self), now, *final(self)),
    {
        let id = from_window_id(self.talks.selected);
        match find(&self.talks.conversations, id) {
            Some(i) => {
                let c = &self.talks.conversations[i];
                let title = conversation_title(c, self.account.self_id);
                let status = chat_status(&self.talks, c, self.account.self_id, now);
                self.texts.header_title = title;
                self.texts.header_status = status;
            },
            None => {
                self.texts.header_title = String::new();
                self.texts.header_status = String::new();
            },
        }
    }

    /// Puts a profile into the card.
    pub fn apply_profile(&mut self, p: Profile)
        ensures
            *final(self) == (Desktop { cards: final(self).cards, ..*old(self) }),
            card_shown(old(self).cards, p, final(self).cards),
    {
        let name = if p.display_name.as_str().is_empty() {
            p.username.clone()
        } else {
            p.display_name.clone()
        };
        let handle = if p.domain.as_str().is_empty() {
            concat2("@", p.username.as_str())
        } else {
            concat4("@", p.username.as_str(), "@", p.domain.as_str())
        };
        let id = to_window_id(p.id);
        let card = ProfileCard {
            id,
            avatar_text: initials(name.as_str()),
            avatar_color: avatar_color(name.as_str()),
            username: p.username,
            display_name: name,
            handle,
            user_id: p.id,
            avatar_url: p.avatar_url,
            is_self: p.is_self,
            blocked: p.blocked,
            muted: p.muted,
            blocked_by: p.blocked_by,
        };
        self.cards.profile = Some(card);
        self.cards.context_user_id = id;
        self.cards.context_blocked = p.blocked;
        self.cards.context_muted = p.muted;
    }
}

} // verus!
