//! The state of the client.

use std::collections::{HashMap, HashSet};

use vstd::prelude::*;

use crate::assoc::Assoc;
use crate::chat::action::{no_actions, one_action, Action};
use crate::chat::msg::{AuthMsg, Msg};
use crate::chat::types::{
    ApiMsg, Attachment, Conversation, DownloadedFile, Guild, GuildSettingsTab, LeftTab,
    LinkPreview, NewConvKind, OwnFile, Profile, Rgb, Screen, SearchUser, SessionInfo, SettingsTab,
    Spot, StickerPack, TwoFaSetupInfo, User,
};
use crate::text::{copy_text, same_text};
use crate::voice::VoiceVideoKind;

verus! {

/// Who is logged in, where, and what is shown about it.
pub struct Session {
    pub screen: Screen,
    pub server: String,
    pub token: Option<String>,
    pub pending_token: Option<String>,
    pub user: Option<User>,
    pub remember_me: bool,
    pub auth_busy: bool,
    pub twofa_setup: Option<TwoFaSetupInfo>,
    pub twofa_toggle_code: String,
    pub twofa_busy: bool,
    pub error: String,
    pub info: String,
}

/// What was typed into the forms in front of the chat.
pub struct LoginForm {
    pub login_email: String,
    pub login_password: String,
    pub register_email: String,
    pub register_username: String,
    pub register_password: String,
    pub register_birthdate: String,
    pub twofa_code: String,
    pub verify_code: String,
}

/// The conversations, and the messages of the one that is open.
pub struct Chats {
    pub conversations: Vec<Conversation>,
    pub messages: Vec<ApiMsg>,
    pub selected_conversation: Option<u64>,
    pub draft: String,
    pub unread: HashMap<u64, u32>,
    pub editing_message_id: Option<u64>,
    pub original_body_text: Option<String>,
    pub busy: bool,
    pub loading_messages: bool,
    pub scrolled_away: bool,
    pub presence: HashMap<u64, bool>,
    /// Per conversation who types, and since when, in milliseconds.
    pub typing: HashMap<u64, (String, u64)>,
    /// When the user's own typing was last announced, in milliseconds.
    pub last_typing_sent: u64,
}

/// The context menus of messages and of conversations.
pub struct Menus {
    pub context_menu_msg: Option<u64>,
    pub context_menu_pos: Option<Spot>,
    pub conv_menu_conv: Option<u64>,
    pub conv_menu_pos: Option<Spot>,
}

/// The dialog that starts a conversation.
pub struct NewConv {
    pub open: bool,
    pub kind: NewConvKind,
    pub search: String,
    pub results: Vec<SearchUser>,
    pub selected: Vec<u64>,
    pub busy: bool,
}

pub struct Guilds {
    pub guilds: Vec<Guild>,
    pub selected_guild: Option<u64>,
    pub left_tab: LeftTab,
    pub modal_open: bool,
    pub name_input: String,
    pub join_code_input: String,
    pub channel_name_input: String,
    pub channel_is_voice: bool,
    pub busy: bool,
    pub settings_open: bool,
    pub settings_tab: GuildSettingsTab,
    pub role_name_input: String,
    pub channel_rename_inputs: HashMap<u64, String>,
}

pub struct Stickers {
    pub menu_open: bool,
    pub search: String,
    pub packs: Vec<StickerPack>,
    pub busy: bool,
    pub bytes: HashMap<u64, Vec<u8>>,
    pub pack_name_input: String,
    pub pack_create_open: bool,
}

/// The open profile, the settings, and the pictures of users.
pub struct People {
    pub profile: Option<Profile>,
    pub profile_open: bool,
    pub settings_open: bool,
    pub settings_tab: SettingsTab,
    pub display_name_input: String,
    pub bio_input: String,
    pub sessions: Vec<SessionInfo>,
    pub sessions_busy: bool,
    pub accent: Rgb,
    pub accent_hex_input: String,
    pub avatar_busy: bool,
    /// Round pictures of users.
    pub avatars: HashMap<u64, Vec<u8>>,
    pub avatar_attempted: HashSet<u64>,
}

/// Attachments, transfers and link previews.
pub struct Files {
    /// The directory that received and sent files are kept in.
    pub cache_dir: String,
    pub p2p_ready: bool,
    pub picking_file: bool,
    pub pending_attachment: Option<Attachment>,
    pub own_files: Assoc<String, OwnFile>,
    pub downloaded: Assoc<String, DownloadedFile>,
    pub p2p_status: Assoc<String, String>,
    /// Small pictures of attachments.
    pub thumbs: Assoc<String, Vec<u8>>,
    /// Full pictures of the user's own attachments.
    pub own_full: Assoc<String, Vec<u8>>,
    pub link_previews: Assoc<String, LinkPreview>,
    pub preview_loading: Assoc<String, ()>,
    /// Pictures of link previews, by the address of the picture.
    pub media: Assoc<String, Vec<u8>>,
}

/// A decoded picture.
pub struct Frame {
    pub rgba: Vec<u8>,
    pub width: u32,
    pub height: u32,
}

/// The connections: the socket and the voice channel.
pub struct Links {
    pub ws_connected: bool,
    /// Whether frames can be sent over the socket.
    pub ws_ready: bool,
    pub voice_ready: bool,
    /// The latest picture of each member of the voice channel.
    pub voice_frames: Assoc<(u64, VoiceVideoKind), Frame>,
    pub voice_panel_open: bool,
}

pub struct AppState {
    pub session: Session,
    pub form: LoginForm,
    pub chats: Chats,
    pub menus: Menus,
    pub new_conv: NewConv,
    pub guilds: Guilds,
    pub stickers: Stickers,
    pub people: People,
    pub files: Files,
    pub links: Links,
}

/// The error text by which a request reports that the server no longer takes the session.
pub const AUTH_FAILED: &'static str = "__auth_failed__";

pub open spec fn expired_text() -> Seq<char> {
    "Your session was invalidated (token used from another device). Please log in again."@
}

/// The one action that ends the session.
pub open spec fn asks_login(acts: Seq<Action>) -> bool {
    &&& acts.len() == 1
    &&& acts[0] matches Action::Done(Msg::Auth(AuthMsg::SessionExpired(reason)))
    &&& reason@ == expired_text()
}

/// The state with another error shown.
pub open spec fn with_error(s: AppState, e: String) -> AppState {
    AppState { session: Session { error: e, ..s.session }, ..s }
}

/// What becomes of a failed request: an invalid session is ended, any other error is shown.
pub open spec fn api_error_step(
    pre: AppState,
    e: String,
    post: AppState,
    acts: Seq<Action>,
) -> bool {
    if e@ == "__auth_failed__"@ {
        post == pre && asks_login(acts)
    } else {
        post == with_error(pre, e) && acts.len() == 0
    }
}

pub fn same_id(a: Option<u64>, b: u64) -> (r: bool)
    ensures
        r == (a == Some(b)),
{
    match a {
        Some(x) => x == b,
        None => false,
    }
}

/// The id of the logged in user.
pub open spec fn self_id(user: Option<User>) -> Option<u64> {
    match user {
        Some(u) => Some(u.id),
        None => None,
    }
}

impl AppState {
    pub fn user_id(&self) -> (r: Option<u64>)
        ensures
            r == self_id(self.session.user),
    {
        match &self.session.user {
            Some(u) => Some(u.id),
            None => None,
        }
    }

    /// Shows an error, or ends the session where that is what the error says.
    pub fn handle_api_error(&mut self, e: String) -> (acts: Vec<Action>)
        ensures
            api_error_step(*old(self), e, *final(self), acts@),
    {
        if same_text(e.as_str(), "__auth_failed__") {
            let reason = copy_text(
                "Your session was invalidated (token used from another device). Please log in again.",
            );
            one_action(Action::Done(Msg::Auth(AuthMsg::SessionExpired(reason))))
        } else {
            self.session.error = e;
            no_actions()
        }
    }
}

} // verus!
