//! The open conversation.

use vstd::prelude::*;

use crate::chat::files::is_image_mime;
use crate::chat::msg::{ConvMsg, FileMsg, Msg};
use crate::chat::state::{self_id, AppState, Files};
use crate::chat::types::{ApiMsg, Attachment, Conversation, LinkPreview, Member};
use crate::chat::view::body::{body_elements, body_segments, segment_models, shorten, shortened, Segment};
use crate::chat::view::parts::{
    avatar_circle, avatar_element, busy_press, is_busy_press, is_face, is_letters, is_press,
    open_guild, press, selected_guild, Control, Face,
};
use crate::chat::view::voice::{channel_index, find_channel};
use crate::desktop::state::{is_online, types_now, user_online};
use crate::desktop::ui::{to_unsigned, unsigned_size};
use crate::identity::{
    find_other, first_other, is_me, member_name, sender_name, sender_text, shown_name,
};
use crate::links::{extract_urls, links_of};
use crate::number::{decimal, u64_text};
use crate::ordered::{find, holds, position};
use crate::size::{human_size, size_text};
use crate::text::{
    concat2, concat3, copy_text, or_empty, same_text, starts_with, text_or_empty, texts,
};
use crate::time::{format_local_time, time_label};

verus! {

// ---------------------------------------------------------------------------
// The header
// ---------------------------------------------------------------------------

/// What stands above the messages.
pub struct Header {
    pub face: Face,
    /// Whose profile the picture leads to.
    pub profile: Option<u64>,
    pub name: String,
    pub bot: bool,
    /// Who types, or else what is known of the conversation.
    pub status: String,
    pub typing: bool,
    pub online: bool,
}

/// The conversation that is open, where it is known.
pub open spec fn open_conv(cs: Seq<Conversation>, id: u64) -> Option<Conversation> {
    if holds(cs, id) {
        Some(cs[position(cs, id)])
    } else {
        None
    }
}

pub open spec fn members_of(c: Option<Conversation>) -> Seq<Member> {
    match c {
        Some(c) => c.members@,
        None => Seq::empty(),
    }
}

pub open spec fn is_group(c: Option<Conversation>) -> bool {
    match c {
        Some(c) => c.kind@ == "group"@ || c.kind@ == "large_group"@,
        None => false,
    }
}

/// The other user in a conversation: the first member that is not the user.
pub open spec fn other_in(c: Option<Conversation>, me: Option<u64>) -> Option<Member> {
    let ms = members_of(c);
    let i = first_other(ms, me);
    if i < ms.len() {
        Some(ms[i])
    } else {
        None
    }
}

/// What the channel is called that a conversation is, in the open guild.
pub open spec fn channel_of(s: AppState, id: u64) -> Option<Seq<char>> {
    let c = open_conv(s.chats.conversations@, id);
    match (c, open_guild(s.guilds.guilds@, s.guilds.selected_guild)) {
        (Some(c), Some(g)) => {
            let i = channel_index(g.channels@, id);
            if is_group(Some(c)) && c.guild_id is Some && i < g.channels@.len() {
                Some(g.channels@[i].name@)
            } else {
                None
            }
        },
        _ => None,
    }
}

/// What a conversation is called: the open guild, else the group, else the other user.
pub open spec fn header_name(s: AppState, id: u64) -> Seq<char> {
    let c = open_conv(s.chats.conversations@, id);
    match open_guild(s.guilds.guilds@, s.guilds.selected_guild) {
        Some(g) => g.name@,
        None => if is_group(c) {
            "Group · "@ + decimal(members_of(c).len()) + " members"@
        } else {
            match other_in(c, self_id(s.session.user)) {
                Some(m) => shown_name(m),
                None => "Unknown"@,
            }
        },
    }
}

pub open spec fn other_online(s: AppState, id: u64) -> bool {
    match other_in(open_conv(s.chats.conversations@, id), self_id(s.session.user)) {
        Some(m) => is_online(s.chats.presence@, m.id),
        None => false,
    }
}

/// What is known of a conversation: the channel or the size of a group, or whether the other user is
/// there.
pub open spec fn conv_status(s: AppState, id: u64) -> Seq<char> {
    let c = open_conv(s.chats.conversations@, id);
    if is_group(c) {
        match channel_of(s, id) {
            Some(n) => n,
            None => decimal(members_of(c).len()) + " members"@,
        }
    } else if other_online(s, id) {
        "Online"@
    } else {
        "Offline"@
    }
}

pub open spec fn is_header(h: Header, s: AppState, id: u64, now: u64) -> bool {
    let c = open_conv(s.chats.conversations@, id);
    let name = header_name(s, id);
    let typing = types_now(s.chats.typing@, id, now);
    &&& h.name@ == name
    &&& h.typing == typing
    &&& h.status@ == if typing {
        s.chats.typing@[id].0@ + " is typing…"@
    } else {
        conv_status(s, id)
    }
    &&& h.online == other_online(s, id)
    &&& match other_in(c, self_id(s.session.user)) {
        Some(m) => {
            &&& is_face(h.face, s.people.avatars@, m.id, name)
            &&& h.profile == Some(m.id)
            &&& h.bot == (m.is_bot && !is_group(c))
        },
        None => is_letters(h.face, name) && h.profile is None && !h.bot,
    }
}

fn group_conv(c: &Conversation) -> (b: bool)
    ensures
        b == is_group(Some(*c)),
{
    same_text(c.kind.as_str(), "group") || same_text(c.kind.as_str(), "large_group")
}

fn channel_label(state: &AppState, c: &Conversation, id: u64) -> (r: Option<String>)
    requires
        open_conv(state.chats.conversations@, id) == Some(*c),
    ensures
        match r {
            Some(t) => channel_of(*state, id) == Some(t@),
            None => channel_of(*state, id) is None,
        },
{
    match selected_guild(state) {
        Some(g) => {
            if group_conv(c) && c.guild_id.is_some() {
                match find_channel(&g.channels, id) {
                    Some(i) => return Some(g.channels[i].name.clone()),
                    None => {},
                }
            }
            None
        },
        None => None,
    }
}

fn typing_line(state: &AppState, id: u64, now: u64) -> (r: Option<String>)
    ensures
        match r {
            Some(t) => types_now(state.chats.typing@, id, now) && t@ == state.chats.typing@[id].0@
                + " is typing…"@,
            None => !types_now(state.chats.typing@, id, now),
        },
{
    match state.chats.typing.get(&id) {
        Some(e) => {
            if now < e.1 || now - e.1 < 3000 {
                Some(concat2(e.0.as_str(), " is typing…"))
            } else {
                None
            }
        },
        None => None,
    }
}

/// What stands above the messages of a known conversation.
fn header_of(state: &AppState, c: &Conversation, id: u64, now: u64) -> (h: Header)
    requires
        open_conv(state.chats.conversations@, id) == Some(*c),
    ensures
        is_header(h, *state, id, now),
{
    let other = find_other(&c.members, state.user_id());
    let group = group_conv(c);
    let count = u64_text(c.members.len() as u64);
    let name = match selected_guild(state) {
        Some(g) => g.name.clone(),
        None => {
            if group {
                concat3("Group · ", count.as_str(), " members")
            } else {
                match other {
                    Some(i) => member_name(&c.members[i]),
                    None => copy_text("Unknown"),
                }
            }
        },
    };
    let online = match other {
        Some(i) => user_online(&state.chats.presence, c.members[i].id),
        None => false,
    };
    let line = typing_line(state, id, now);
    let typing = line.is_some();
    let status = match line {
        Some(t) => t,
        None => {
            if group {
                match channel_label(state, c, id) {
                    Some(n) => n,
                    None => concat2(count.as_str(), " members"),
                }
            } else if online {
                copy_text("Online")
            } else {
                copy_text("Offline")
            }
        },
    };
    match other {
        Some(i) => {
            let m = &c.members[i];
            Header {
                face: avatar_element(state, m.id, name.as_str()),
                profile: Some(m.id),
                name,
                bot: m.is_bot && !group,
                status,
                typing,
                online,
            }
        },
        None => Header {
            face: avatar_circle(name.as_str()),
            profile: None,
            name,
            bot: false,
            status,
            typing,
            online,
        },
    }
}

/// What stands above the messages of a conversation that is not known.
fn unknown_header(state: &AppState, id: u64, now: u64) -> (h: Header)
    requires
        open_conv(state.chats.conversations@, id) is None,
    ensures
        is_header(h, *state, id, now),
{
    let name = match selected_guild(state) {
        Some(g) => g.name.clone(),
        None => copy_text("Unknown"),
    };
    let line = typing_line(state, id, now);
    let typing = line.is_some();
    let status = match line {
        Some(t) => t,
        None => copy_text("Offline"),
    };
    Header {
        face: avatar_circle(name.as_str()),
        profile: None,
        name,
        bot: false,
        status,
        typing,
        online: false,
    }
}

// ---------------------------------------------------------------------------
// Links
// ---------------------------------------------------------------------------

/// What is shown of a link.
pub enum LinkCard {
    Loading,
    Card {
        /// The pictures that are there, by their address.
        images: Vec<String>,
        title: Option<String>,
        description: Option<String>,
        url: String,
    },
}

/// A text that is there and not empty.
pub open spec fn worth_showing(t: Option<String>) -> bool {
    t matches Some(s) && s@.len() > 0
}

/// The addresses of a list whose pictures are there.
pub open spec fn present_images(urls: Seq<String>, media: Map<Seq<char>, Vec<u8>>) -> Seq<Seq<char>>
    decreases urls.len(),
{
    if urls.len() == 0 {
        Seq::empty()
    } else if media.contains_key(urls.last()@) {
        present_images(urls.drop_last(), media).push(urls.last()@)
    } else {
        present_images(urls.drop_last(), media)
    }
}

pub open spec fn is_link_card(c: LinkCard, p: LinkPreview, media: Map<Seq<char>, Vec<u8>>) -> bool {
    &&& c matches LinkCard::Card { images, title, description, url }
    &&& texts(images@) == present_images(p.images@, media)
    &&& title == if worth_showing(p.title) {
        p.title
    } else {
        None
    }
    &&& match description {
        Some(d) => worth_showing(p.description) && d@ == shortened(p.description->0@),
        None => !worth_showing(p.description),
    }
    &&& url == p.url
}

/// Whether anything is shown of a link.
pub open spec fn link_shown(f: Files, url: Seq<char>) -> bool {
    f.preview_loading@.contains_key(url) || f.link_previews@.contains_key(url)
}

/// The links of a list of which something is shown.
pub open spec fn shown_links(urls: Seq<Seq<char>>, f: Files) -> Seq<Seq<char>>
    decreases urls.len(),
{
    if urls.len() == 0 {
        Seq::empty()
    } else if link_shown(f, urls.last()) {
        shown_links(urls.drop_last(), f).push(urls.last())
    } else {
        shown_links(urls.drop_last(), f)
    }
}

pub open spec fn is_card_for(c: LinkCard, url: Seq<char>, f: Files) -> bool {
    if f.preview_loading@.contains_key(url) {
        c is Loading
    } else {
        is_link_card(c, f.link_previews@[url], f.media@)
    }
}

pub open spec fn are_cards(cs: Seq<LinkCard>, urls: Seq<Seq<char>>, f: Files) -> bool {
    &&& cs.len() == urls.len()
    &&& forall|i: int| 0 <= i < urls.len() ==> is_card_for(#[trigger] cs[i], urls[i], f)
}

fn images_of(p: &LinkPreview, f: &Files) -> (r: Vec<String>)
    ensures
        texts(r@) == present_images(p.images@, f.media@),
{
    let urls = &p.images;
    let mut r: Vec<String> = Vec::new();
    let mut i: usize = 0;
    proof {
        assert(texts(r@) =~= Seq::empty());
    }
    while i < urls.len()
        invariant
            i <= urls.len(),
            urls == p.images,
            texts(r@) == present_images(urls@.take(i as int), f.media@),
        decreases urls.len() - i,
    {
        proof {
            assert(urls@.take(i + 1).drop_last() =~= urls@.take(i as int));
        }
        if f.media.contains(&urls[i]) {
            let ghost sofar = r@;
            r.push(urls[i].clone());
            proof {
                assert(texts(r@) =~= texts(sofar).push(urls@[i as int]@));
            }
        }
        i += 1;
    }
    proof {
        assert(urls@.take(i as int) =~= urls@);
    }
    r
}

fn link_card(p: &LinkPreview, f: &Files) -> (c: LinkCard)
    ensures
        is_link_card(c, *p, f.media@),
{
    let title = match &p.title {
        Some(t) => {
            if t.as_str().is_empty() {
                None
            } else {
                Some(t.clone())
            }
        },
        None => None,
    };
    let description = match &p.description {
        Some(d) => {
            if d.as_str().is_empty() {
                None
            } else {
                Some(shorten(d.as_str()))
            }
        },
        None => None,
    };
    LinkCard::Card { images: images_of(p, f), title, description, url: p.url.clone() }
}

fn cards(body: &str, f: &Files) -> (r: Vec<LinkCard>)
    ensures
        are_cards(r@, shown_links(links_of(body@), *f), *f),
{
    let urls = extract_urls(body);
    let ghost all = texts(urls@);
    let mut r: Vec<LinkCard> = Vec::new();
    let mut i: usize = 0;
    while i < urls.len()
        invariant
            i <= urls.len(),
            all == texts(urls@),
            are_cards(r@, shown_links(all.take(i as int), *f), *f),
        decreases urls.len() - i,
    {
        proof {
            assert(all.take(i + 1).drop_last() =~= all.take(i as int));
            assert(all.take(i + 1).last() == urls@[i as int]@);
        }
        if f.preview_loading.contains(&urls[i]) {
            r.push(LinkCard::Loading);
        } else {
            match f.link_previews.get(&urls[i]) {
                Some(p) => r.push(link_card(p, f)),
                None => {},
            }
        }
        i += 1;
    }
    proof {
        assert(all.take(i as int) =~= all);
    }
    r
}

// ---------------------------------------------------------------------------
// Files
// ---------------------------------------------------------------------------

/// Which picture of an image is shown.
#[derive(Clone, Copy, Debug, PartialEq, Eq, Structural)]
pub enum FilePicture {
    /// The user's own, in full.
    Own,
    /// The received one, in full.
    Received,
    Small,
    Blank,
}

/// The file of a message.
pub struct FileCard {
    pub file_id: String,
    /// For an image, which opens the file.
    pub picture: Option<FilePicture>,
    /// How far the transfer is, for a file that is not there yet.
    pub status: Option<Control>,
    pub name: String,
    pub size: String,
    /// Opening the file, where it is no image.
    pub open: Option<Control>,
    pub open_msg: Msg,
}

pub open spec fn received_image(f: Files, id: Seq<char>) -> bool {
    f.downloaded@.contains_key(id) && f.downloaded@[id].image is Some
}

pub open spec fn picture_of(f: Files, id: Seq<char>, own: bool) -> FilePicture {
    if own && f.own_full@.contains_key(id) {
        FilePicture::Own
    } else if received_image(f, id) {
        FilePicture::Received
    } else if f.thumbs@.contains_key(id) {
        FilePicture::Small
    } else {
        FilePicture::Blank
    }
}

/// The status of a transfer; one that failed can be tried again.
pub open spec fn is_transfer_status(c: Control, f: Files, id: Seq<char>, message: u64) -> bool {
    let status = if f.p2p_status@.contains_key(id) {
        f.p2p_status@[id]@
    } else {
        Seq::empty()
    };
    if status == "offline"@ || status == "error"@ {
        is_press(c, status + " · retry"@, Msg::File(FileMsg::RetryFile(message)))
    } else {
        c matches Control::Idle(t) && t@ == if status.len() == 0 {
            "waiting…"@
        } else {
            status
        }
    }
}

pub open spec fn is_file_card(c: FileCard, m: ApiMsg, f: Files, own: bool) -> bool {
    &&& m.file_id matches Some(id)
    &&& {
        let image = is_image_mime(or_empty(m.attachment_mime));
        let held = own || f.downloaded@.contains_key(id@);
        let open = Msg::File(FileMsg::OpenFile(m.id));
        &&& c.file_id == id
        &&& c.picture == if image {
            Some(picture_of(f, id@, own))
        } else {
            None
        }
        &&& if held {
            c.status is None
        } else {
            c.status matches Some(s) && is_transfer_status(s, f, id@, m.id)
        }
        &&& c.name@ == or_empty(m.attachment_name)
        &&& c.size@ == size_text(unsigned_size(m.file_size) as nat)
        &&& if image {
            c.open is None
        } else if held {
            c.open matches Some(o) && is_press(o, "Open"@, open)
        } else {
            c.open matches Some(Control::Idle(t)) && t@ == "Open"@
        }
        &&& c.open_msg == open
    }
}

fn picture(f: &Files, id: &String, own: bool) -> (p: FilePicture)
    ensures
        p == picture_of(*f, id@, own),
{
    if own && f.own_full.contains(id) {
        return FilePicture::Own;
    }
    let received = match f.downloaded.get(id) {
        Some(d) => d.image.is_some(),
        None => false,
    };
    if received {
        FilePicture::Received
    } else if f.thumbs.contains(id) {
        FilePicture::Small
    } else {
        FilePicture::Blank
    }
}

fn transfer_status(f: &Files, id: &String, message: u64) -> (c: Control)
    ensures
        is_transfer_status(c, *f, id@, message),
{
    let status = match f.p2p_status.get(id) {
        Some(s) => s.clone(),
        None => String::new(),
    };
    proof {
        if !f.p2p_status@.contains_key(id@) {
            assert(status@ =~= Seq::empty());
        }
    }
    if same_text(status.as_str(), "offline") || same_text(status.as_str(), "error") {
        let label = concat2(status.as_str(), " · retry");
        return press(label.as_str(), Msg::File(FileMsg::RetryFile(message)));
    }
    if status.as_str().is_empty() {
        Control::Idle(copy_text("waiting…"))
    } else {
        Control::Idle(status)
    }
}

fn file_card(m: &ApiMsg, id: &String, f: &Files, own: bool) -> (c: FileCard)
    requires
        m.file_id == Some(*id),
    ensures
        is_file_card(c, *m, *f, own),
{
    let mime = text_or_empty(&m.attachment_mime);
    let image = starts_with(mime.as_str(), "image/");
    let held = own || f.downloaded.contains(id);
    let shown = if image {
        Some(picture(f, id, own))
    } else {
        None
    };
    let status = if held {
        None
    } else {
        Some(transfer_status(f, id, m.id))
    };
    let open = if image {
        None
    } else if held {
        Some(press("Open", Msg::File(FileMsg::OpenFile(m.id))))
    } else {
        Some(Control::Idle(copy_text("Open")))
    };
    FileCard {
        file_id: id.clone(),
        picture: shown,
        status,
        name: text_or_empty(&m.attachment_name),
        size: human_size(to_unsigned(m.file_size)),
        open,
        open_msg: Msg::File(FileMsg::OpenFile(m.id)),
    }
}

// ---------------------------------------------------------------------------
// Messages
// ---------------------------------------------------------------------------

/// A message.
pub struct Bubble {
    pub message_id: u64,
    pub sender_id: u64,
    pub own: bool,
    pub face: Face,
    pub sender: String,
    pub time: String,
    pub body: Vec<Segment>,
    pub cards: Vec<LinkCard>,
    pub file: Option<FileCard>,
    pub edited: bool,
    /// What a changed message said at first.
    pub original: Option<String>,
}

pub open spec fn is_bubble(b: Bubble, m: ApiMsg, ms: Seq<Member>, s: AppState) -> bool {
    let me = self_id(s.session.user);
    let own = me == Some(m.sender_id);
    let sender = sender_text(ms, m.sender_id, me);
    &&& b.message_id == m.id
    &&& b.sender_id == m.sender_id
    &&& b.own == own
    &&& is_face(b.face, s.people.avatars@, m.sender_id, sender)
    &&& b.sender@ == sender
    &&& b.time@ == " · "@ + time_label(m.created_at@)
    &&& segment_models(b.body@) == body_segments(m.body@)
    &&& are_cards(b.cards@, shown_links(links_of(m.body@), s.files), s.files)
    &&& match b.file {
        Some(c) => is_file_card(c, m, s.files, own),
        None => m.file_id is None,
    }
    &&& b.edited == (m.edited_at is Some)
    &&& b.original == m.original_body
}

fn bubble(state: &AppState, m: &ApiMsg, ms: &Vec<Member>) -> (b: Bubble)
    ensures
        is_bubble(b, *m, ms@, *state),
{
    let me = state.user_id();
    let own = is_me(me, m.sender_id);
    let sender = sender_name(ms, m.sender_id, me);
    let time = format_local_time(m.created_at.as_str());
    let file = match &m.file_id {
        Some(id) => Some(file_card(m, id, &state.files, own)),
        None => None,
    };
    let original = match &m.original_body {
        Some(t) => Some(t.clone()),
        None => None,
    };
    Bubble {
        message_id: m.id,
        sender_id: m.sender_id,
        own,
        face: avatar_element(state, m.sender_id, sender.as_str()),
        sender,
        time: concat2(" · ", time.as_str()),
        body: body_elements(m.body.as_str()),
        cards: cards(m.body.as_str(), &state.files),
        file,
        edited: m.edited_at.is_some(),
        original,
    }
}

pub open spec fn are_bubbles(bs: Seq<Bubble>, s: AppState, id: u64) -> bool {
    let msgs = s.chats.messages@;
    let ms = members_of(open_conv(s.chats.conversations@, id));
    &&& bs.len() == msgs.len()
    &&& forall|i: int| 0 <= i < msgs.len() ==> is_bubble(#[trigger] bs[i], msgs[i], ms, s)
}

fn bubbles(state: &AppState, ms: &Vec<Member>, id: u64) -> (r: Vec<Bubble>)
    requires
        ms@ == members_of(open_conv(state.chats.conversations@, id)),
    ensures
        are_bubbles(r@, *state, id),
{
    let msgs = &state.chats.messages;
    let mut r: Vec<Bubble> = Vec::new();
    let mut i: usize = 0;
    while i < msgs.len()
        invariant
            i <= msgs.len(),
            msgs == state.chats.messages,
            r.len() == i,
            forall|j: int| 0 <= j < i ==> is_bubble(#[trigger] r@[j], msgs@[j], ms@, *state),
        decreases msgs.len() - i,
    {
        r.push(bubble(state, &msgs[i], ms));
        i += 1;
    }
    r
}

// ---------------------------------------------------------------------------
// Writing
// ---------------------------------------------------------------------------

/// The file that was picked.
pub struct PendingChip {
    /// Whether its small picture is shown.
    pub picture: bool,
    pub file_id: String,
    pub name: String,
    pub size: String,
}

/// The line that messages are written in.
pub enum ComposerView {
    /// A message that was sent before is being changed.
    Editing { draft: String },
    Writing { draft: String, attach: Control, send: Control, picking: bool, pending: Option<PendingChip> },
}

pub open spec fn is_chip(c: PendingChip, a: Attachment, f: Files) -> bool {
    &&& c.picture == (a.thumbnail@.len() > 0 && f.thumbs@.contains_key(a.file_id@))
    &&& c.file_id == a.file_id
    &&& c.name == a.name
    &&& c.size@ == size_text(a.file_size as nat)
}

pub open spec fn is_composer(c: ComposerView, s: AppState) -> bool {
    if s.chats.editing_message_id is Some {
        c == (ComposerView::Editing { draft: s.chats.draft })
    } else {
        &&& c matches ComposerView::Writing { draft, attach, send, picking, pending }
        &&& draft == s.chats.draft
        &&& is_busy_press(attach, s.files.picking_file, "📎"@, Msg::File(FileMsg::PickFile))
        &&& is_busy_press(send, s.chats.busy, "↑"@, Msg::Conv(ConvMsg::SendMessage))
        &&& picking == s.files.picking_file
        &&& match s.files.pending_attachment {
            Some(a) => pending matches Some(p) && is_chip(p, a, s.files),
            None => pending is None,
        }
    }
}

fn composer(state: &AppState) -> (c: ComposerView)
    ensures
        is_composer(c, *state),
{
    let draft = state.chats.draft.clone();
    if state.chats.editing_message_id.is_some() {
        return ComposerView::Editing { draft };
    }
    let pending = match &state.files.pending_attachment {
        Some(a) => Some(
            PendingChip {
                picture: !a.thumbnail.as_str().is_empty() && state.files.thumbs.contains(&a.file_id),
                file_id: a.file_id.clone(),
                name: a.name.clone(),
                size: human_size(a.file_size),
            },
        ),
        None => None,
    };
    ComposerView::Writing {
        draft,
        attach: busy_press(state.files.picking_file, "📎", Msg::File(FileMsg::PickFile)),
        send: busy_press(state.chats.busy, "↑", Msg::Conv(ConvMsg::SendMessage)),
        picking: state.files.picking_file,
        pending,
    }
}

// ---------------------------------------------------------------------------
// The whole
// ---------------------------------------------------------------------------

pub struct ChatView {
    pub header: Header,
    pub bubbles: Vec<Bubble>,
    pub loading: bool,
    /// Whether the way back to the end of the list is offered.
    pub jump: bool,
    pub composer: ComposerView,
    pub stickers: bool,
}

pub open spec fn is_chat_view(v: ChatView, s: AppState, id: u64, now: u64) -> bool {
    &&& is_header(v.header, s, id, now)
    &&& are_bubbles(v.bubbles@, s, id)
    &&& v.loading == s.chats.loading_messages
    &&& v.jump == s.chats.scrolled_away
    &&& is_composer(v.composer, s)
    &&& v.stickers == s.stickers.menu_open
}

/// The open conversation; nothing where none is open. `now` is a clock in milliseconds.
pub fn view_chat_area(state: &AppState, now: u64) -> (r: Option<ChatView>)
    ensures
        match state.chats.selected_conversation {
            Some(id) => r matches Some(v) && is_chat_view(v, *state, id, now),
            None => r is None,
        },
{
    let id = match state.chats.selected_conversation {
        Some(id) => id,
        None => return None,
    };
    let nobody: Vec<Member> = Vec::new();
    proof {
        assert(nobody@ =~= Seq::empty());
    }
    let (header, list) = match find(&state.chats.conversations, id) {
        Some(i) => {
            let c = &state.chats.conversations[i];
            (header_of(state, c, id, now), bubbles(state, &c.members, id))
        },
        None => (unknown_header(state, id, now), bubbles(state, &nobody, id)),
    };
    Some(
        ChatView {
            header,
            bubbles: list,
            loading: state.chats.loading_messages,
            jump: state.chats.scrolled_away,
            composer: composer(state),
            stickers: state.stickers.menu_open,
        },
    )
}

/// A file that the user has is never shown as on its way.
pub proof fn held_files_have_no_status(c: FileCard, m: ApiMsg, f: Files, own: bool, id: String)
    requires
        is_file_card(c, m, f, own),
        m.file_id == Some(id),
        own || f.downloaded@.contains_key(id@),
    ensures
        c.status is None,
{
}

} // verus!
