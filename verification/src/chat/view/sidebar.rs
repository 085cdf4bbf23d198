//! The list of guilds, channels and conversations.

use std::collections::HashMap;

use vstd::prelude::*;

use crate::chat::msg::{ConvMsg, GuildMsg, Msg, VoiceMsg};
use crate::chat::state::{same_id, self_id, AppState};
use crate::chat::types::{Conversation, Guild, GuildChannel, LeftTab};
use crate::chat::view::parts::{
    avatar_circle, avatar_element, busy_press, is_busy_press, is_face, is_letters, open_guild,
    selected_guild, Control, Face,
};
use crate::desktop::state::{is_online, user_online};
use crate::identity::{find_other, first_other, member_name, shown_name};
use crate::number::{decimal, u64_text};
use crate::text::{concat3, copy_text, same_text};

verus! {

// ---------------------------------------------------------------------------
// Guilds and their channels
// ---------------------------------------------------------------------------

/// A guild in the row of guilds.
pub struct GuildIcon {
    pub guild_id: u64,
    pub face: Face,
    pub selected: bool,
}

pub open spec fn is_guild_icon(i: GuildIcon, g: Guild, selected: Option<u64>) -> bool {
    &&& i.guild_id == g.id
    &&& is_letters(i.face, g.name@)
    &&& i.selected == (selected == Some(g.id))
}

/// How much an entry stands out.
#[derive(Clone, Copy, Debug, PartialEq, Eq, Structural)]
pub enum Emphasis {
    Selected,
    /// The user is in this voice channel.
    InVoice,
    Plain,
}

/// A channel of a guild.
pub struct ChannelRow {
    pub voice: bool,
    pub name: String,
    /// How many messages were not read, where there are any.
    pub unread: Option<u32>,
    /// A text channel is opened, a voice channel is joined.
    pub msg: Msg,
    pub emphasis: Emphasis,
}

/// How many messages of a conversation were not read.
pub open spec fn unread_count(unread: Map<u64, u32>, id: u64) -> u32 {
    if unread.contains_key(id) {
        unread[id]
    } else {
        0
    }
}

pub open spec fn is_voice_channel(ch: GuildChannel) -> bool {
    ch.channel_type@ == "voice"@
}

pub open spec fn is_channel_row(
    r: ChannelRow,
    ch: GuildChannel,
    s: AppState,
    in_voice: Option<u64>,
) -> bool {
    let voice = is_voice_channel(ch);
    let n = unread_count(s.chats.unread@, ch.id);
    &&& r.voice == voice
    &&& r.name == ch.name
    &&& r.unread == if n > 0 && !voice {
        Some(n)
    } else {
        None
    }
    &&& r.msg == if voice {
        Msg::Voice(VoiceMsg::VoiceJoin(ch.id))
    } else {
        Msg::Conv(ConvMsg::SelectConversation(ch.id))
    }
    &&& r.emphasis == if s.chats.selected_conversation == Some(ch.id) {
        Emphasis::Selected
    } else if in_voice == Some(ch.id) {
        Emphasis::InVoice
    } else {
        Emphasis::Plain
    }
}

/// The channels of one kind.
pub open spec fn channels_of(chs: Seq<GuildChannel>, voice: bool) -> Seq<GuildChannel>
    decreases chs.len(),
{
    if chs.len() == 0 {
        Seq::empty()
    } else if is_voice_channel(chs.last()) == voice {
        channels_of(chs.drop_last(), voice).push(chs.last())
    } else {
        channels_of(chs.drop_last(), voice)
    }
}

pub open spec fn are_channel_rows(
    rows: Seq<ChannelRow>,
    chs: Seq<GuildChannel>,
    s: AppState,
    in_voice: Option<u64>,
) -> bool {
    &&& rows.len() == chs.len()
    &&& forall|i: int| 0 <= i < chs.len() ==> is_channel_row(#[trigger] rows[i], chs[i], s, in_voice)
}

pub fn unread_of(unread: &HashMap<u64, u32>, id: u64) -> (n: u32)
    ensures
        n == unread_count(unread@, id),
{
    match unread.get(&id) {
        Some(n) => *n,
        None => 0,
    }
}

/// A channel of a guild.
pub fn guild_channel_item(state: &AppState, ch: &GuildChannel, in_voice: Option<u64>) -> (r:
    ChannelRow)
    ensures
        is_channel_row(r, *ch, *state, in_voice),
{
    let voice = ch.is_voice();
    let n = unread_of(&state.chats.unread, ch.id);
    let unread = if n > 0 && !voice {
        Some(n)
    } else {
        None
    };
    let msg = if voice {
        Msg::Voice(VoiceMsg::VoiceJoin(ch.id))
    } else {
        Msg::Conv(ConvMsg::SelectConversation(ch.id))
    };
    let emphasis = if same_id(state.chats.selected_conversation, ch.id) {
        Emphasis::Selected
    } else if same_id(in_voice, ch.id) {
        Emphasis::InVoice
    } else {
        Emphasis::Plain
    };
    ChannelRow { voice, name: ch.name.clone(), unread, msg, emphasis }
}

fn channel_rows(state: &AppState, g: &Guild, voice: bool, in_voice: Option<u64>) -> (rows: Vec<
    ChannelRow,
>)
    ensures
        are_channel_rows(rows@, channels_of(g.channels@, voice), *state, in_voice),
{
    let chs = &g.channels;
    let mut rows: Vec<ChannelRow> = Vec::new();
    let mut i: usize = 0;
    while i < chs.len()
        invariant
            i <= chs.len(),
            chs == g.channels,
            are_channel_rows(rows@, channels_of(chs@.take(i as int), voice), *state, in_voice),
        decreases chs.len() - i,
    {
        proof {
            assert(chs@.take(i + 1).drop_last() =~= chs@.take(i as int));
        }
        if chs[i].is_voice() == voice {
            rows.push(guild_channel_item(state, &chs[i], in_voice));
        }
        i += 1;
    }
    proof {
        assert(chs@.take(i as int) =~= chs@);
    }
    rows
}

// ---------------------------------------------------------------------------
// Conversations
// ---------------------------------------------------------------------------

/// What kind of entry a conversation is.
#[derive(Clone, Copy, Debug, PartialEq, Eq, Structural)]
pub enum Tag {
    Nothing,
    Bot,
    Group,
    Channel,
}

/// A conversation outside of guilds.
pub struct ConvRow {
    pub conversation_id: u64,
    pub face: Face,
    pub name: String,
    pub online: bool,
    pub tag: Tag,
    pub unread: Option<u32>,
    pub selected: bool,
}

pub open spec fn is_direct(c: Conversation) -> bool {
    c.kind@ == "direct"@
}

/// What a conversation is called: the other user, or what kind of group it is, and how large.
pub open spec fn conv_name(c: Conversation, me: Option<u64>) -> Seq<char> {
    let i = first_other(c.members@, me);
    if is_direct(c) {
        if i < c.members@.len() {
            shown_name(c.members@[i])
        } else {
            "Unknown"@
        }
    } else {
        (if c.kind@ == "large_group"@ {
            "Channel ("@
        } else {
            "Group ("@
        }) + decimal(c.members@.len()) + ")"@
    }
}

pub open spec fn tag_of(c: Conversation, me: Option<u64>) -> Tag {
    let i = first_other(c.members@, me);
    if is_direct(c) {
        if i < c.members@.len() && c.members@[i].is_bot {
            Tag::Bot
        } else {
            Tag::Nothing
        }
    } else if c.kind@ == "large_group"@ {
        Tag::Channel
    } else {
        Tag::Group
    }
}

pub open spec fn is_conv_row(r: ConvRow, c: Conversation, s: AppState) -> bool {
    let me = self_id(s.session.user);
    let i = first_other(c.members@, me);
    let name = conv_name(c, me);
    let n = unread_count(s.chats.unread@, c.id);
    &&& r.conversation_id == c.id
    &&& r.name@ == name
    &&& if is_direct(c) && i < c.members@.len() {
        is_face(r.face, s.people.avatars@, c.members@[i].id, name)
    } else {
        is_letters(r.face, name)
    }
    &&& r.online == (i < c.members@.len() && is_online(s.chats.presence@, c.members@[i].id))
    &&& r.tag == tag_of(c, me)
    &&& r.unread == if n > 0 {
        Some(n)
    } else {
        None
    }
    &&& r.selected == (s.chats.selected_conversation == Some(c.id))
}

/// The conversations outside of guilds.
pub open spec fn loose(cs: Seq<Conversation>) -> Seq<Conversation>
    decreases cs.len(),
{
    if cs.len() == 0 {
        Seq::empty()
    } else if cs.last().guild_id is None {
        loose(cs.drop_last()).push(cs.last())
    } else {
        loose(cs.drop_last())
    }
}

pub open spec fn are_conv_rows(rows: Seq<ConvRow>, cs: Seq<Conversation>, s: AppState) -> bool {
    &&& rows.len() == cs.len()
    &&& forall|i: int| 0 <= i < cs.len() ==> is_conv_row(#[trigger] rows[i], cs[i], s)
}

fn conv_row(state: &AppState, c: &Conversation) -> (r: ConvRow)
    ensures
        is_conv_row(r, *c, *state),
{
    let me = state.user_id();
    let other = find_other(&c.members, me);
    let direct = same_text(c.kind.as_str(), "direct");
    let large = same_text(c.kind.as_str(), "large_group");
    let name = if direct {
        match other {
            Some(i) => member_name(&c.members[i]),
            None => copy_text("Unknown"),
        }
    } else {
        let count = u64_text(c.members.len() as u64);
        concat3(
            if large {
                "Channel ("
            } else {
                "Group ("
            },
            count.as_str(),
            ")",
        )
    };
    let (face, online, bot) = match other {
        Some(i) => {
            let m = &c.members[i];
            let face = if direct {
                avatar_element(state, m.id, name.as_str())
            } else {
                avatar_circle(name.as_str())
            };
            (face, user_online(&state.chats.presence, m.id), m.is_bot)
        },
        None => (avatar_circle(name.as_str()), false, false),
    };
    let tag = if direct {
        if bot {
            Tag::Bot
        } else {
            Tag::Nothing
        }
    } else if large {
        Tag::Channel
    } else {
        Tag::Group
    };
    let n = unread_of(&state.chats.unread, c.id);
    let unread = if n > 0 {
        Some(n)
    } else {
        None
    };
    ConvRow {
        conversation_id: c.id,
        face,
        name,
        online,
        tag,
        unread,
        selected: same_id(state.chats.selected_conversation, c.id),
    }
}

fn conv_rows(state: &AppState) -> (rows: Vec<ConvRow>)
    ensures
        are_conv_rows(rows@, loose(state.chats.conversations@), *state),
{
    let cs = &state.chats.conversations;
    let mut rows: Vec<ConvRow> = Vec::new();
    let mut i: usize = 0;
    while i < cs.len()
        invariant
            i <= cs.len(),
            cs == state.chats.conversations,
            are_conv_rows(rows@, loose(cs@.take(i as int)), *state),
        decreases cs.len() - i,
    {
        proof {
            assert(cs@.take(i + 1).drop_last() =~= cs@.take(i as int));
        }
        if cs[i].guild_id.is_none() {
            rows.push(conv_row(state, &cs[i]));
        }
        i += 1;
    }
    proof {
        assert(cs@.take(i as int) =~= cs@);
    }
    rows
}

// ---------------------------------------------------------------------------
// The sidebar
// ---------------------------------------------------------------------------

/// The list in the middle.
pub enum List {
    Channels { text: Vec<ChannelRow>, voice: Vec<ChannelRow>, add: Control },
    /// The guild that is open is not known.
    NoGuild,
    /// Empty where there are no conversations yet.
    Conversations(Vec<ConvRow>),
}

/// What stands above the list.
pub enum Heading {
    Conversations,
    Guild { name: String },
    /// No guild is open: one is to be picked, made or joined.
    PickGuild,
}

pub struct SidebarView {
    pub tab: LeftTab,
    /// The row of guilds, where guilds are shown.
    pub rail: Vec<GuildIcon>,
    pub heading: Heading,
    pub list: List,
}

pub open spec fn is_list(l: List, s: AppState, in_voice: Option<u64>) -> bool {
    match s.guilds.selected_guild {
        Some(_) => match open_guild(s.guilds.guilds@, s.guilds.selected_guild) {
            Some(g) => {
                &&& l matches List::Channels { text, voice, add }
                &&& are_channel_rows(text@, channels_of(g.channels@, false), s, in_voice)
                &&& are_channel_rows(voice@, channels_of(g.channels@, true), s, in_voice)
                &&& is_busy_press(
                    add,
                    s.guilds.busy,
                    "＋ channel"@,
                    Msg::Guild(GuildMsg::OpenGuildModal),
                )
            },
            None => l is NoGuild,
        },
        None => l matches List::Conversations(rows) && are_conv_rows(
            rows@,
            loose(s.chats.conversations@),
            s,
        ),
    }
}

pub open spec fn is_heading(h: Heading, s: AppState) -> bool {
    match s.guilds.left_tab {
        LeftTab::Dms => h is Conversations,
        LeftTab::Servers => match s.guilds.selected_guild {
            Some(_) => h matches Heading::Guild { name } && name@ == match open_guild(
                s.guilds.guilds@,
                s.guilds.selected_guild,
            ) {
                Some(g) => g.name@,
                None => Seq::empty(),
            },
            None => h is PickGuild,
        },
    }
}

pub open spec fn is_sidebar(v: SidebarView, s: AppState, in_voice: Option<u64>) -> bool {
    let gs = s.guilds.guilds@;
    &&& v.tab == s.guilds.left_tab
    &&& v.rail@.len() == gs.len()
    &&& forall|i: int|
        0 <= i < gs.len() ==> is_guild_icon(#[trigger] v.rail@[i], gs[i], s.guilds.selected_guild)
    &&& is_heading(v.heading, s)
    &&& is_list(v.list, s, in_voice)
}

fn rail(state: &AppState) -> (r: Vec<GuildIcon>)
    ensures
        r@.len() == state.guilds.guilds@.len(),
        forall|i: int|
            0 <= i < r@.len() ==> is_guild_icon(
                #[trigger] r@[i],
                state.guilds.guilds@[i],
                state.guilds.selected_guild,
            ),
{
    let gs = &state.guilds.guilds;
    let mut r: Vec<GuildIcon> = Vec::new();
    let mut i: usize = 0;
    while i < gs.len()
        invariant
            i <= gs.len(),
            gs == state.guilds.guilds,
            r.len() == i,
            forall|j: int|
                0 <= j < i ==> is_guild_icon(#[trigger] r@[j], gs@[j], state.guilds.selected_guild),
        decreases gs.len() - i,
    {
        r.push(
            GuildIcon {
                guild_id: gs[i].id,
                face: avatar_circle(gs[i].name.as_str()),
                selected: same_id(state.guilds.selected_guild, gs[i].id),
            },
        );
        i += 1;
    }
    r
}

fn heading(state: &AppState) -> (h: Heading)
    ensures
        is_heading(h, *state),
{
    match state.guilds.left_tab {
        LeftTab::Dms => Heading::Conversations,
        LeftTab::Servers => {
            if state.guilds.selected_guild.is_none() {
                return Heading::PickGuild;
            }
            let name = match selected_guild(state) {
                Some(g) => g.name.clone(),
                None => String::new(),
            };
            proof {
                if open_guild(state.guilds.guilds@, state.guilds.selected_guild) is None {
                    assert(name@ =~= Seq::empty());
                }
            }
            Heading::Guild { name }
        },
    }
}

/// The sidebar. `in_voice` is the voice channel that the user is in.
pub fn view_sidebar(state: &AppState, in_voice: Option<u64>) -> (v: SidebarView)
    ensures
        is_sidebar(v, *state, in_voice),
{
    let list = if state.guilds.selected_guild.is_none() {
        List::Conversations(conv_rows(state))
    } else {
        match selected_guild(state) {
            Some(g) => List::Channels {
                text: channel_rows(state, g, false, in_voice),
                voice: channel_rows(state, g, true, in_voice),
                add: busy_press(
                    state.guilds.busy,
                    "＋ channel",
                    Msg::Guild(GuildMsg::OpenGuildModal),
                ),
            },
            None => List::NoGuild,
        }
    };
    SidebarView { tab: state.guilds.left_tab, rail: rail(state), heading: heading(state), list }
}

/// Every channel of a guild stands in exactly one of the two lists.
pub proof fn channels_are_all_listed(chs: Seq<GuildChannel>)
    ensures
        channels_of(chs, false).len() + channels_of(chs, true).len() == chs.len(),
    decreases chs.len(),
{
    if chs.len() > 0 {
        channels_are_all_listed(chs.drop_last());
    }
}

} // verus!
