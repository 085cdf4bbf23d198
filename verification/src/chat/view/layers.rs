//! What lies in front of the chat: the card of a user, menus and dialogs.

use vstd::prelude::*;

use crate::chat::msg::{ConvMsg, Msg, NewConvMsg, ProfileMsg};
use crate::chat::state::{self_id, AppState};
use crate::chat::types::{ApiMsg, Profile};
use crate::chat::view::parts::{avatar_element, is_face, is_press, press, Control, Face};
use crate::identity::is_me;
use crate::ordered::{find, holds, position};
use crate::text::concat2;

verus! {

/// What the card of a user says about them.
pub enum About {
    Nothing,
    /// The user keeps their profile to themselves.
    Private,
    Bio(String),
}

/// The card of a user.
pub struct ProfileView {
    pub face: Face,
    pub display_name: String,
    pub handle: String,
    pub domain: String,
    pub bot: bool,
    pub about: About,
    /// The way to a conversation with the user; nobody talks to themselves.
    pub message: Option<Msg>,
    pub blocked: bool,
    pub muted: bool,
    /// Blocking and muting, where they are possible.
    pub moderation: Option<(Control, Control)>,
}

pub open spec fn is_about(a: About, p: Profile) -> bool {
    if p.restricted {
        a == About::Private
    } else if p.bio@.len() > 0 {
        a == About::Bio(p.bio)
    } else {
        a == About::Nothing
    }
}

pub open spec fn is_moderation(m: Option<(Control, Control)>, p: Profile) -> bool {
    if p.is_self || p.blocked_by {
        m is None
    } else {
        &&& m matches Some((block, mute))
        &&& is_press(
            block,
            if p.blocked {
                "Unblock"@
            } else {
                "Block"@
            },
            Msg::Profile(ProfileMsg::ToggleBlock(p.id)),
        )
        &&& is_press(
            mute,
            if p.muted {
                "Unmute"@
            } else {
                "Mute"@
            },
            Msg::Profile(ProfileMsg::ToggleMute(p.id)),
        )
    }
}

pub open spec fn is_profile_view(v: ProfileView, p: Profile, avatars: Map<u64, Vec<u8>>) -> bool {
    &&& is_face(v.face, avatars, p.id, p.display_name@)
    &&& v.display_name == p.display_name
    &&& v.handle@ == "@"@ + p.username@
    &&& v.domain == p.domain
    &&& v.bot == p.is_bot
    &&& is_about(v.about, p)
    &&& v.message == if p.is_self {
        None
    } else {
        Some(Msg::NewConv(NewConvMsg::NewConvWithUser(p.id)))
    }
    &&& v.blocked == p.blocked
    &&& v.muted == p.muted
    &&& is_moderation(v.moderation, p)
}

fn about(p: &Profile) -> (a: About)
    ensures
        is_about(a, *p),
{
    if p.restricted {
        About::Private
    } else if p.bio.as_str().is_empty() {
        About::Nothing
    } else {
        About::Bio(p.bio.clone())
    }
}

fn moderation(p: &Profile) -> (m: Option<(Control, Control)>)
    ensures
        is_moderation(m, *p),
{
    if p.is_self || p.blocked_by {
        return None;
    }
    let block = press(
        if p.blocked {
            "Unblock"
        } else {
            "Block"
        },
        Msg::Profile(ProfileMsg::ToggleBlock(p.id)),
    );
    let mute = press(
        if p.muted {
            "Unmute"
        } else {
            "Mute"
        },
        Msg::Profile(ProfileMsg::ToggleMute(p.id)),
    );
    Some((block, mute))
}

pub fn profile_view(state: &AppState, p: &Profile) -> (v: ProfileView)
    ensures
        is_profile_view(v, *p, state.people.avatars@),
{
    let message = if p.is_self {
        None
    } else {
        Some(Msg::NewConv(NewConvMsg::NewConvWithUser(p.id)))
    };
    ProfileView {
        face: avatar_element(state, p.id, p.display_name.as_str()),
        display_name: p.display_name.clone(),
        handle: concat2("@", p.username.as_str()),
        domain: p.domain.clone(),
        bot: p.is_bot,
        about: about(p),
        message,
        blocked: p.blocked,
        muted: p.muted,
        moderation: moderation(p),
    }
}

/// The entries of a menu.
pub open spec fn menu_models(cs: Seq<Control>, ms: Seq<(Seq<char>, Msg)>) -> bool {
    &&& cs.len() == ms.len()
    &&& forall|i: int| 0 <= i < cs.len() ==> is_press(#[trigger] cs[i], ms[i].0, ms[i].1)
}

/// The menu of a conversation.
pub open spec fn conv_menu_of(conv: u64) -> Seq<(Seq<char>, Msg)> {
    seq![
        ("Delete conversation"@, Msg::Conv(ConvMsg::DeleteConversation(conv))),
        ("Close"@, Msg::Conv(ConvMsg::CloseConvContextMenu)),
    ]
}

/// The menu of a message: only the user's own can be changed.
pub open spec fn message_menu_of(id: u64, own: bool) -> Seq<(Seq<char>, Msg)> {
    let close = ("Close"@, Msg::Conv(ConvMsg::CloseContextMenu));
    if own {
        seq![
            ("Edit"@, Msg::Conv(ConvMsg::StartEdit(id))),
            ("Delete"@, Msg::Conv(ConvMsg::DeleteMessage(id))),
            close,
        ]
    } else {
        seq![close]
    }
}

/// Whether a message of the open conversation is the user's own.
pub open spec fn is_own(msgs: Seq<ApiMsg>, id: u64, me: Option<u64>) -> bool {
    holds(msgs, id) && me == Some(msgs[position(msgs, id)].sender_id)
}

pub fn conv_menu(conv: u64) -> (cs: Vec<Control>)
    ensures
        menu_models(cs@, conv_menu_of(conv)),
{
    let mut cs: Vec<Control> = Vec::new();
    cs.push(press("Delete conversation", Msg::Conv(ConvMsg::DeleteConversation(conv))));
    cs.push(press("Close", Msg::Conv(ConvMsg::CloseConvContextMenu)));
    cs
}

pub fn message_menu(state: &AppState, id: u64) -> (cs: Vec<Control>)
    ensures
        menu_models(
            cs@,
            message_menu_of(
                id,
                is_own(state.chats.messages@, id, self_id(state.session.user)),
            ),
        ),
{
    let own = match find(&state.chats.messages, id) {
        Some(i) => is_me(state.user_id(), state.chats.messages[i].sender_id),
        None => false,
    };
    let mut cs: Vec<Control> = Vec::new();
    if own {
        cs.push(press("Edit", Msg::Conv(ConvMsg::StartEdit(id))));
        cs.push(press("Delete", Msg::Conv(ConvMsg::DeleteMessage(id))));
    }
    cs.push(press("Close", Msg::Conv(ConvMsg::CloseContextMenu)));
    cs
}

/// What lies in front of the chat, from the back to the front.
pub struct Layers {
    pub profile: Option<ProfileView>,
    pub conv_menu: Option<Vec<Control>>,
    pub message_menu: Option<Vec<Control>>,
    /// What a changed message said at first.
    pub original: Option<String>,
    pub new_conv: bool,
    pub guild_modal: bool,
    pub guild_settings: bool,
}

pub open spec fn are_layers(l: Layers, s: AppState) -> bool {
    &&& match s.people.profile {
        Some(p) if s.people.profile_open => l.profile matches Some(v) && is_profile_view(
            v,
            p,
            s.people.avatars@,
        ),
        _ => l.profile is None,
    }
    &&& match s.menus.conv_menu_conv {
        Some(c) => l.conv_menu matches Some(m) && menu_models(m@, conv_menu_of(c)),
        None => l.conv_menu is None,
    }
    &&& match s.menus.context_menu_msg {
        Some(id) => l.message_menu matches Some(m) && menu_models(
            m@,
            message_menu_of(id, is_own(s.chats.messages@, id, self_id(s.session.user))),
        ),
        None => l.message_menu is None,
    }
    &&& l.original == s.chats.original_body_text
    &&& l.new_conv == s.new_conv.open
    &&& l.guild_modal == s.guilds.modal_open
    &&& l.guild_settings == s.guilds.settings_open
}

pub fn view_chat(state: &AppState) -> (l: Layers)
    ensures
        are_layers(l, *state),
{
    let profile = match &state.people.profile {
        Some(p) if state.people.profile_open => Some(profile_view(state, p)),
        _ => None,
    };
    let conv = match state.menus.conv_menu_conv {
        Some(c) => Some(conv_menu(c)),
        None => None,
    };
    let message = match state.menus.context_menu_msg {
        Some(id) => Some(message_menu(state, id)),
        None => None,
    };
    let original = match &state.chats.original_body_text {
        Some(t) => Some(t.clone()),
        None => None,
    };
    Layers {
        profile,
        conv_menu: conv,
        message_menu: message,
        original,
        new_conv: state.new_conv.open,
        guild_modal: state.guilds.modal_open,
        guild_settings: state.guilds.settings_open,
    }
}

/// Only the user's own messages offer to be changed or deleted.
pub proof fn others_messages_cannot_be_changed(id: u64, i: int)
    requires
        0 <= i < message_menu_of(id, false).len(),
    ensures
        message_menu_of(id, false)[i].1 == Msg::Conv(ConvMsg::CloseContextMenu),
{
}

} // verus!
