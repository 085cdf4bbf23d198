//! The socket to the server, and voice channels.

use vstd::prelude::*;

use crate::assoc::Assoc;
use crate::chat::action::{no_actions, one_action, Action, Api, P2pCommand, VoiceCommand};
use crate::chat::conv::{arrived, auto_fetches};
use crate::chat::files::thumb_actions;
use crate::chat::lists::{add_msg, remove_msg, replace_msg, replaced, without_msg};
use crate::chat::msg::{VoiceMsg, WsHubEvent, WsMsg};
use crate::chat::state::{same_id, AppState, Chats, Frame, Links};
use crate::chat::types::{ApiMsg, Conversation, Guild, GuildChannel};
use crate::p2p::SignalEvent;
use crate::text::{has_prefix, starts_with};
use crate::voice::{VoiceEvent, VoiceVideoKind};

verus! {

pub open spec fn has_conversation(cs: Seq<Conversation>, id: u64) -> bool {
    exists|i: int| 0 <= i < cs.len() && (#[trigger] cs[i]).id == id
}

/// The number of unread messages of a conversation.
pub open spec fn unread_of(unread: Map<u64, u32>, id: u64) -> int {
    if unread.contains_key(id) {
        unread[id] as int
    } else {
        0
    }
}

/// A message in the open conversation is shown; one in another counts as unread there, and a
/// conversation that is not known yet makes the list load again.
pub open spec fn message_step(pre: AppState, m: ApiMsg, post: AppState, acts: Seq<Action>) -> bool {
    let conv = m.conversation_id;
    if pre.chats.selected_conversation == Some(conv) {
        &&& arrived(pre, m, post)
        &&& acts == thumb_actions(post.chats.messages@, pre.files.thumbs@) + auto_fetches(post)
    } else {
        &&& post == (AppState { chats: Chats { unread: post.chats.unread, ..pre.chats }, ..pre })
        &&& post.chats.unread@ == pre.chats.unread@.insert(
            conv,
            ((unread_of(pre.chats.unread@, conv) + 1) % 0x1_0000_0000) as u32,
        )
        &&& acts == if has_conversation(pre.chats.conversations@, conv) {
            Seq::empty()
        } else {
            seq![Action::Call(Api::LoadConversations)]
        }
    }
}

/// A signal goes to the voice manager or to the transfer manager, by the file it speaks of.
pub open spec fn signal_actions(s: AppState, signal: SignalEvent) -> Seq<Action> {
    if has_prefix(signal.file_id@, "voice-"@) {
        if s.links.voice_ready {
            seq![Action::Voice(VoiceCommand::Signal(signal))]
        } else {
            Seq::empty()
        }
    } else if s.files.p2p_ready {
        seq![Action::P2p(P2pCommand::Signal(signal))]
    } else {
        Seq::empty()
    }
}

/// A call on the voice manager, once there is one.
pub open spec fn voice_actions(s: AppState, c: VoiceCommand) -> Seq<Action> {
    if s.links.voice_ready {
        seq![Action::Voice(c)]
    } else {
        Seq::empty()
    }
}

pub open spec fn hub_step(
    pre: AppState,
    ev: WsHubEvent,
    now: u64,
    post: AppState,
    acts: Seq<Action>,
) -> bool {
    match ev {
        WsHubEvent::Message { message } => message_step(pre, message, post, acts),
        WsHubEvent::MessageEdited { message } => {
            &&& post == (AppState {
                chats: Chats { messages: post.chats.messages, ..pre.chats },
                ..pre
            })
            &&& post.chats.messages@ == replaced(pre.chats.messages@, message)
            &&& acts.len() == 0
        },
        WsHubEvent::MessageDeleted { conversation_id, message_id } => {
            &&& post == (AppState {
                chats: Chats { messages: post.chats.messages, ..pre.chats },
                ..pre
            })
            &&& post.chats.messages@ == if pre.chats.selected_conversation == Some(
                conversation_id,
            ) {
                without_msg(pre.chats.messages@, message_id)
            } else {
                pre.chats.messages@
            }
            &&& acts.len() == 0
        },
        WsHubEvent::Signal { signal } => post == pre && acts == signal_actions(pre, signal),
        WsHubEvent::Typing { conversation_id, from_user_id, from_username } => {
            &&& post == (AppState { chats: Chats { typing: post.chats.typing, ..pre.chats }, ..pre })
            &&& post.chats.typing@ == pre.chats.typing@.insert(
                conversation_id,
                (from_username, now),
            )
            &&& acts.len() == 0
        },
        WsHubEvent::Presence { user_id, online } => {
            &&& post == (AppState {
                chats: Chats { presence: post.chats.presence, ..pre.chats },
                ..pre
            })
            &&& post.chats.presence@ == pre.chats.presence@.insert(user_id, online)
            &&& acts.len() == 0
        },
        WsHubEvent::VoicePresence { channel_id, user_id, username, joined } => post == pre && acts
            == voice_actions(
            pre,
            VoiceCommand::Presence { channel_id, user_id, username, joined },
        ),
        WsHubEvent::VoiceState { channel_id, users } => post == pre && acts == voice_actions(
            pre,
            VoiceCommand::State { channel_id, users },
        ),
    }
}

pub open spec fn ws_step(
    pre: AppState,
    msg: WsMsg,
    now: u64,
    post: AppState,
    acts: Seq<Action>,
) -> bool {
    match msg {
        WsMsg::WsConnected => post == (AppState {
            links: Links { ws_connected: true, ..pre.links },
            ..pre
        }) && acts.len() == 0,
        WsMsg::WsDisconnected => post == (AppState {
            links: Links { ws_connected: false, ..pre.links },
            ..pre
        }) && acts == voice_actions(pre, VoiceCommand::Leave),
        WsMsg::WsSenderReady => post == (AppState {
            links: Links { ws_ready: true, ..pre.links },
            ..pre
        }) && acts.len() == 0,
        WsMsg::WsEvent(ev) => hub_step(pre, ev, now, post, acts),
    }
}

// ---------------------------------------------------------------------------
// Voice channels
// ---------------------------------------------------------------------------

pub open spec fn has_channel(cs: Seq<GuildChannel>, id: u64) -> bool {
    exists|i: int| 0 <= i < cs.len() && (#[trigger] cs[i]).id == id
}

/// The first guild that has the channel.
pub open spec fn guild_of_channel(gs: Seq<Guild>, channel: u64) -> Option<u64>
    decreases gs.len(),
{
    if gs.len() == 0 {
        None
    } else if has_channel(gs[0].channels@, channel) {
        Some(gs[0].id)
    } else {
        guild_of_channel(gs.drop_first(), channel)
    }
}

pub open spec fn join_actions(s: AppState, channel_id: u64) -> Seq<Action> {
    match (guild_of_channel(s.guilds.guilds@, channel_id), s.session.user) {
        (Some(guild_id), Some(u)) => voice_actions(
            s,
            VoiceCommand::Join { guild_id, channel_id, user_id: u.id },
        ),
        _ => Seq::empty(),
    }
}

/// The frames of all members but one.
pub open spec fn frames_without(
    pre: Map<(u64, VoiceVideoKind), Frame>,
    user: u64,
) -> Map<(u64, VoiceVideoKind), Frame> {
    pre.remove((user, VoiceVideoKind::Camera)).remove((user, VoiceVideoKind::Screen))
}

pub open spec fn voice_event_step(pre: AppState, ev: VoiceEvent, post: AppState) -> bool {
    &&& post == (AppState {
        links: Links {
            voice_frames: post.links.voice_frames,
            voice_panel_open: match ev {
                VoiceEvent::Joined { .. } => true,
                VoiceEvent::Left => false,
                _ => pre.links.voice_panel_open,
            },
            ..pre.links
        },
        ..pre
    })
    &&& post.links.voice_frames@ == match ev {
        VoiceEvent::Joined { .. } => Map::empty(),
        VoiceEvent::Left => Map::empty(),
        VoiceEvent::MemberLeft { user_id } => frames_without(pre.links.voice_frames@, user_id),
        VoiceEvent::Video { user_id, kind, width, height, rgba } => pre.links.voice_frames@.insert(
            (user_id, kind),
            Frame { rgba, width, height },
        ),
        VoiceEvent::MemberJoined { .. } => pre.links.voice_frames@,
        VoiceEvent::Error(_) => pre.links.voice_frames@,
    }
}

pub open spec fn voice_step(pre: AppState, msg: VoiceMsg, post: AppState, acts: Seq<Action>) -> bool {
    match msg {
        VoiceMsg::VoiceReady => post == (AppState {
            links: Links { voice_ready: true, ..pre.links },
            ..pre
        }) && acts.len() == 0,
        VoiceMsg::VoiceEvent(ev) => voice_event_step(pre, ev, post) && acts.len() == 0,
        VoiceMsg::VoiceJoin(channel) => post == pre && acts == join_actions(pre, channel),
        VoiceMsg::VoiceLeave => post == pre && acts == voice_actions(pre, VoiceCommand::Leave),
        VoiceMsg::VoiceToggleMute => post == pre && acts == voice_actions(
            pre,
            VoiceCommand::ToggleMute,
        ),
        VoiceMsg::VoiceToggleCamera => post == pre && acts == voice_actions(
            pre,
            VoiceCommand::ToggleCamera,
        ),
        VoiceMsg::VoiceToggleScreen => post == pre && acts == voice_actions(
            pre,
            VoiceCommand::ToggleScreen,
        ),
    }
}

fn knows_conversation(cs: &Vec<Conversation>, id: u64) -> (b: bool)
    ensures
        b == has_conversation(cs@, id),
{
    let mut i: usize = 0;
    while i < cs.len()
        invariant
            i <= cs.len(),
            forall|j: int| 0 <= j < i ==> (#[trigger] cs@[j]).id != id,
        decreases cs.len() - i,
    {
        if cs[i].id == id {
            return true;
        }
        i += 1;
    }
    false
}

fn knows_channel(cs: &Vec<GuildChannel>, id: u64) -> (b: bool)
    ensures
        b == has_channel(cs@, id),
{
    let mut i: usize = 0;
    while i < cs.len()
        invariant
            i <= cs.len(),
            forall|j: int| 0 <= j < i ==> (#[trigger] cs@[j]).id != id,
        decreases cs.len() - i,
    {
        if cs[i].id == id {
            return true;
        }
        i += 1;
    }
    false
}

/// The first guild that has the channel.
pub fn find_guild_of_channel(gs: &Vec<Guild>, channel: u64) -> (r: Option<u64>)
    ensures
        r == guild_of_channel(gs@, channel),
{
    let mut i: usize = 0;
    proof {
        assert(gs@.skip(0) =~= gs@);
    }
    while i < gs.len()
        invariant
            i <= gs.len(),
            guild_of_channel(gs@, channel) == guild_of_channel(gs@.skip(i as int), channel),
        decreases gs.len() - i,
    {
        proof {
            assert(gs@.skip(i as int)[0] == gs@[i as int]);
            assert(gs@.skip(i as int).drop_first() =~= gs@.skip(i + 1));
        }
        if knows_channel(&gs[i].channels, channel) {
            return Some(gs[i].id);
        }
        i += 1;
    }
    None
}

impl AppState {
    fn message_arrived(&mut self, m: ApiMsg) -> (acts: Vec<Action>)
        ensures
            message_step(*old(self), m, *final(self), acts@),
    {
        let conv = m.conversation_id;
        if same_id(self.chats.selected_conversation, conv) {
            add_msg(&mut self.chats.messages, m);
            let mut acts = self.build_thumb_handles();
            let mut fetches = self.auto_fetch_files();
            acts.append(&mut fetches);
            acts
        } else {
            let n: u32 = match self.chats.unread.get(&conv) {
                Some(n) => *n,
                None => 0,
            };
            self.chats.unread.insert(conv, n.wrapping_add(1));
            if knows_conversation(&self.chats.conversations, conv) {
                no_actions()
            } else {
                one_action(Action::Call(Api::LoadConversations))
            }
        }
    }

    fn signal_arrived(&self, signal: SignalEvent) -> (acts: Vec<Action>)
        ensures
            acts@ == signal_actions(*self, signal),
    {
        if starts_with(signal.file_id.as_str(), "voice-") {
            self.voice(VoiceCommand::Signal(signal))
        } else if self.files.p2p_ready {
            one_action(Action::P2p(P2pCommand::Signal(signal)))
        } else {
            no_actions()
        }
    }

    fn voice(&self, c: VoiceCommand) -> (acts: Vec<Action>)
        ensures
            acts@ == voice_actions(*self, c),
    {
        if self.links.voice_ready {
            one_action(Action::Voice(c))
        } else {
            no_actions()
        }
    }

    fn hub_event(&mut self, ev: WsHubEvent, now: u64) -> (acts: Vec<Action>)
        ensures
            hub_step(*old(self), ev, now, *final(self), acts@),
    {
        match ev {
            WsHubEvent::Message { message } => self.message_arrived(message),
            WsHubEvent::MessageEdited { message } => {
                replace_msg(&mut self.chats.messages, message);
                no_actions()
            },
            WsHubEvent::MessageDeleted { conversation_id, message_id } => {
                if same_id(self.chats.selected_conversation, conversation_id) {
                    remove_msg(&mut self.chats.messages, message_id);
                }
                no_actions()
            },
            WsHubEvent::Signal { signal } => self.signal_arrived(signal),
            WsHubEvent::Typing { conversation_id, from_user_id: _, from_username } => {
                self.chats.typing.insert(conversation_id, (from_username, now));
                no_actions()
            },
            WsHubEvent::Presence { user_id, online } => {
                self.chats.presence.insert(user_id, online);
                no_actions()
            },
            WsHubEvent::VoicePresence { channel_id, user_id, username, joined } => self.voice(
                VoiceCommand::Presence { channel_id, user_id, username, joined },
            ),
            WsHubEvent::VoiceState { channel_id, users } => self.voice(
                VoiceCommand::State { channel_id, users },
            ),
        }
    }

    pub fn update_ws(&mut self, msg: WsMsg, now: u64) -> (acts: Vec<Action>)
        ensures
            ws_step(*old(self), msg, now, *final(self), acts@),
    {
        match msg {
            WsMsg::WsConnected => {
                self.links.ws_connected = true;
                no_actions()
            },
            WsMsg::WsDisconnected => {
                self.links.ws_connected = false;
                self.voice(VoiceCommand::Leave)
            },
            WsMsg::WsSenderReady => {
                self.links.ws_ready = true;
                no_actions()
            },
            WsMsg::WsEvent(ev) => self.hub_event(ev, now),
        }
    }

    fn voice_event(&mut self, ev: VoiceEvent)
        ensures
            voice_event_step(*old(self), ev, *final(self)),
    {
        match ev {
            VoiceEvent::Joined { .. } => {
                self.links.voice_frames = Assoc::new();
                self.links.voice_panel_open = true;
            },
            VoiceEvent::MemberLeft { user_id } => {
                self.links.voice_frames.remove(&(user_id, VoiceVideoKind::Camera));
                self.links.voice_frames.remove(&(user_id, VoiceVideoKind::Screen));
            },
            VoiceEvent::Video { user_id, kind, width, height, rgba } => {
                self.links.voice_frames.insert((user_id, kind), Frame { rgba, width, height });
            },
            VoiceEvent::Left => {
                self.links.voice_frames = Assoc::new();
                self.links.voice_panel_open = false;
            },
            VoiceEvent::MemberJoined { .. } => {},
            VoiceEvent::Error(_) => {},
        }
    }

    fn join_voice(&self, channel_id: u64) -> (acts: Vec<Action>)
        ensures
            acts@ == join_actions(*self, channel_id),
    {
        match (find_guild_of_channel(&self.guilds.guilds, channel_id), &self.session.user) {
            (Some(guild_id), Some(u)) => self.voice(
                VoiceCommand::Join { guild_id, channel_id, user_id: u.id },
            ),
            _ => no_actions(),
        }
    }

    pub fn update_voice(&mut self, msg: VoiceMsg) -> (acts: Vec<Action>)
        ensures
            voice_step(*old(self), msg, *final(self), acts@),
    {
        match msg {
            VoiceMsg::VoiceReady => {
                self.links.voice_ready = true;
                no_actions()
            },
            VoiceMsg::VoiceEvent(ev) => {
                self.voice_event(ev);
                no_actions()
            },
            VoiceMsg::VoiceJoin(channel) => self.join_voice(channel),
            VoiceMsg::VoiceLeave => self.voice(VoiceCommand::Leave),
            VoiceMsg::VoiceToggleMute => self.voice(VoiceCommand::ToggleMute),
            VoiceMsg::VoiceToggleCamera => self.voice(VoiceCommand::ToggleCamera),
            VoiceMsg::VoiceToggleScreen => self.voice(VoiceCommand::ToggleScreen),
        }
    }
}

} // verus!
