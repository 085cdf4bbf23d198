//! What the client asks its surroundings to do.

use vstd::prelude::*;

use crate::chat::msg::Msg;
use crate::chat::types::Rgb;
use crate::p2p::{ServingFile, SignalEvent};

verus! {

/// A request to the server, in the name of the current session.
pub enum Api {
    Login { email: String, password: String, remember_me: bool },
    Register { email: String, username: String, password: String, birthdate: String },
    LoginTwoFa { pending_token: String, code: String, remember_me: bool },
    Verify { code: String },
    TwoFaSetup,
    TwoFaEnable { code: String },
    LoadConversations,
    LoadMessages { conversation_id: u64 },
    MarkRead { conversation_id: u64, message_id: u64 },
    SendMessage { conversation_id: u64, body: String, file: Option<SentFile> },
    EditMessage { conversation_id: u64, message_id: u64, body: String },
    DeleteMessage { conversation_id: u64, message_id: u64 },
    CreateByHandle { handle: String },
    CreateConversation { kind: String, member_ids: Vec<u64> },
    DeleteConversation { conversation_id: u64 },
    SearchUsers { query: String },
    LoadProfile { user_id: u64 },
    Moderate { user_id: u64, verb: String },
    SaveSettings { display_name: String, bio: String, profile_visible: bool },
    SetProfileVisible { visible: bool },
    SetAvatar { data_url: String },
    RemoveAvatar,
    LoadSessions,
    RevokeSession { session_id: u64 },
    LoadGuilds,
    LoadGuild { guild_id: u64 },
    CreateGuild { name: String },
    JoinGuild { code: String },
    DeleteGuild { guild_id: u64 },
    CreateChannel { guild_id: u64, name: String, channel_type: String },
    RenameChannel { guild_id: u64, channel_id: u64, name: String },
    DeleteChannel { guild_id: u64, channel_id: u64 },
    CreateInvite { guild_id: u64 },
    SetAdmin { guild_id: u64, user_id: u64, is_admin: bool },
    TransferOwner { guild_id: u64, user_id: u64 },
    KickMember { guild_id: u64, user_id: u64 },
    BanMember { guild_id: u64, user_id: u64 },
    UnbanMember { guild_id: u64, user_id: u64 },
    CreateRole { guild_id: u64, name: String },
    DeleteRole { guild_id: u64, role_id: u64 },
    AssignRole { guild_id: u64, role_id: u64, user_id: u64, on: bool },
    LoadStickerPacks { query: String },
    CreateStickerPack { name: String },
    StickerImage { sticker_id: u64 },
    UploadSticker { pack_id: u64, name: String, mime: String, bytes: Vec<u8> },
    DeleteSticker { pack_id: u64, sticker_id: u64 },
    DeleteStickerPack { pack_id: u64 },
}

/// What a message says of the file that goes with it.
pub struct SentFile {
    pub mime: String,
    pub name: String,
    pub file_id: String,
    pub file_size: u64,
    pub thumbnail: String,
}

/// A call on the transfer manager.
pub enum P2pCommand {
    Serve(ServingFile),
    Fetch { file_id: String, sender_id: u64 },
    RetryFetch { file_id: String, sender_id: u64 },
    Signal(SignalEvent),
}

/// A call on the voice manager.
pub enum VoiceCommand {
    Join { guild_id: u64, channel_id: u64, user_id: u64 },
    Leave,
    ToggleMute,
    ToggleCamera,
    ToggleScreen,
    Signal(SignalEvent),
    Presence { channel_id: u64, user_id: u64, username: String, joined: bool },
    State { channel_id: u64, users: Vec<(u64, String)> },
}

pub enum Action {
    /// Send the request and hand its outcome back as a message.
    Call(Api),
    /// Send the request and, once it was answered, handle the message in place of the answer.
    CallThen(Api, Msg),
    /// Handle another message next.
    Done(Msg),
    /// Keep the session for the next start.
    SaveSession { server: String, token: String },
    /// Forget the kept session.
    ForgetSession,
    SaveAccent(Rgb),
    /// Tell the other members of a conversation that the user types.
    SendTyping { conversation_id: u64 },
    P2p(P2pCommand),
    Voice(VoiceCommand),
    /// Fetch the picture of a user from the network.
    FetchAvatar { user_id: u64, url: String },
    /// Make a round picture of a user out of an image file.
    MakeAvatar { user_id: u64, bytes: Vec<u8> },
    /// Make a round picture of a user out of the image in a `data:` URL.
    AvatarFromDataUrl { user_id: u64, url: String },
    /// Make the picture that is to become the user's own, as a `data:` URL.
    PrepareAvatar { bytes: Vec<u8> },
    /// Make the small picture of an attachment out of the image in a `data:` URL.
    MakeThumb { file_id: String, url: String },
    /// Make the small picture of a sticker that is about to be sent.
    MakeStickerThumb { mime: String, bytes: Vec<u8> },
    FetchPreview { url: String },
    /// Read the prepared picture of a link preview from the cache.
    ReadPreviewImage { url: String },
    /// Write the bytes of a file into the cache.
    StoreFile { file_id: String, bytes: Vec<u8> },
    /// Show a file in the viewer of the system.
    OpenBytes { mime: String, name: String, bytes: Vec<u8> },
    /// Show a file that lies on disk; where it cannot be read, report it unreadable.
    OpenStored { path: String, mime: String, name: String, file_id: String, sender_id: u64 },
    OpenLink { url: String },
    PickFile,
    PickAvatar,
    PickStickerImages { pack_id: u64 },
    ScrollToBottom,
}

pub fn no_actions() -> (r: Vec<Action>)
    ensures
        r@ == Seq::<Action>::empty(),
{
    Vec::new()
}

pub fn one_action(a: Action) -> (r: Vec<Action>)
    ensures
        r@ == seq![a],
{
    let mut r: Vec<Action> = Vec::new();
    r.push(a);
    proof {
        assert(r@ =~= seq![a]);
    }
    r
}

pub fn two_actions(a: Action, b: Action) -> (r: Vec<Action>)
    ensures
        r@ == seq![a, b],
{
    let mut r: Vec<Action> = Vec::new();
    r.push(a);
    r.push(b);
    proof {
        assert(r@ =~= seq![a, b]);
    }
    r
}

} // verus!
