//! The messages that drive the client.

use vstd::prelude::*;

use crate::chat::types::{
    ApiMsg, Attachment, Conversation, Guild, GuildSettingsTab, LeftTab, LinkPreview, NewConvKind,
    Profile, Rgb, SearchUser, SessionInfo, SettingsTab, Spot, StickerPack, TwoFaSetupInfo, User,
};
use crate::p2p::{P2pEvent, SignalEvent};
use crate::voice::VoiceEvent;

verus! {

/// What the server pushes over the socket.
pub enum WsHubEvent {
    Message { message: ApiMsg },
    MessageEdited { message: ApiMsg },
    MessageDeleted { conversation_id: u64, message_id: u64 },
    Signal { signal: SignalEvent },
    Typing { conversation_id: u64, from_user_id: u64, from_username: String },
    Presence { user_id: u64, online: bool },
    VoicePresence { channel_id: u64, user_id: u64, username: String, joined: bool },
    VoiceState { channel_id: u64, users: Vec<(u64, String)> },
}

/// Logging in and out.
pub enum AuthMsg {
    LoginEmailChanged(String),
    LoginPasswordChanged(String),
    LoginServerChanged(String),
    RememberMeChanged(bool),
    LoginSubmit,
    LoginResult(Result<(String, User), String>),
    SessionRestored(Option<(String, String, User)>),
    LoginNeeds2fa(String),
    ShowRegister(bool),
    RegisterEmailChanged(String),
    RegisterUsernameChanged(String),
    RegisterPasswordChanged(String),
    RegisterBirthdateChanged(String),
    RegisterSubmit,
    RegisterResult(Result<(String, User), String>),
    TwoFaCodeChanged(String),
    TwoFaSubmit,
    TwoFaResult(Result<(String, User), String>),
    VerifyCodeChanged(String),
    VerifySubmit,
    VerifyResult(Result<User, String>),
    TwoFaSetup,
    TwoFaSetupResult(Result<TwoFaSetupInfo, String>),
    TwoFaEnable,
    TwoFaToggleResult(Result<User, String>),
    TwoFaCodeInput(String),
    Logout,
    SessionExpired(String),
}

/// Conversations and the messages in them.
pub enum ConvMsg {
    SelectConversation(u64),
    ConversationsLoaded(Result<Vec<Conversation>, String>),
    MessagesLoaded { conversation_id: u64, messages: Result<Vec<ApiMsg>, String> },
    DraftChanged(String),
    SendMessage,
    MessageSent(Result<ApiMsg, String>),
    StartEdit(u64),
    CancelEdit,
    ConfirmEdit,
    EditResult(Result<ApiMsg, String>),
    DeleteMessage(u64),
    DeleteResult(u64),
    ShowOriginal(String),
    CloseOriginal,
    RefreshConversations,
    CreateConversation,
    DeleteConversation(u64),
    DeleteConversationResult(Result<(), String>),
    /// The list was scrolled; the flag says that its end is out of sight.
    Scrolled(bool),
    JumpToBottom,
    ContextMenu { msg_id: u64, sender_id: u64, at: Spot },
    CloseContextMenu,
    ConvContextMenu { conv_id: u64, at: Spot },
    CloseConvContextMenu,
    ClickedOutside,
    TypingExpired,
}

/// The dialog that starts a conversation.
pub enum NewConvMsg {
    OpenNewConv,
    CloseNewConv,
    NewConvWithUser(u64),
    NewConvKindChanged(NewConvKind),
    NewConvSearchChanged(String),
    NewConvSearchResults(Result<Vec<SearchUser>, String>),
    NewConvToggleUser(u64),
    NewConvCreate,
    NewConvCreated(Result<Conversation, String>),
}

/// Guilds, their channels, roles and members.
pub enum GuildMsg {
    GuildsLoaded(Result<Vec<Guild>, String>),
    SelectGuild(Option<u64>),
    SetLeftTab(LeftTab),
    OpenGuildModal,
    OpenServerModal,
    CloseGuildModal,
    GuildNameInput(String),
    GuildJoinCodeInput(String),
    CreateGuildSubmit,
    GuildCreated(Result<u64, String>),
    JoinGuildSubmit,
    GuildJoined(Result<(), String>),
    CreateChannelSubmit(u64),
    ChannelCreated(Result<(), String>),
    ChannelNameInput(String),
    ChannelTypeChanged(bool),
    DeleteGuild(u64),
    GuildDeleteResult(Result<(), String>),
    CreateInvite(u64),
    InviteResult(Result<String, String>),
    SetRole { guild_id: u64, user_id: u64, is_admin: bool },
    TransferOwner { guild_id: u64, user_id: u64 },
    KickMember { guild_id: u64, user_id: u64 },
    GuildMemberAction(Result<(), String>),
}

/// The settings of a guild: its channels, roles and bans.
pub enum GuildAdminMsg {
    OpenGuildSettings,
    CloseGuildSettings,
    GuildSettingsLoaded(Result<Guild, String>),
    GuildSettingsTabChanged(GuildSettingsTab),
    RoleNameInput(String),
    CreateRoleSubmit(u64),
    DeleteRole { guild_id: u64, role_id: u64 },
    AssignRole { guild_id: u64, role_id: u64, user_id: u64, on: bool },
    RenameChannel { channel_id: u64, name: String },
    ChannelRenameInput { channel_id: u64, value: String },
    DeleteChannel { channel_id: u64 },
    BanMember { guild_id: u64, user_id: u64 },
    UnbanMember { guild_id: u64, user_id: u64 },
    GuildAdminAction(Result<(), String>),
}

/// Stickers and sticker packs.
#[allow(inconsistent_fields)]
pub enum StickerMsg {
    ToggleStickerMenu,
    StickerSearchChanged(String),
    StickersLoaded(Result<Vec<StickerPack>, String>),
    SendSticker(u64),
    /// The small picture of a sticker is there, as base64.
    StickerPrepared { mime: String, thumbnail: String, bytes: Vec<u8> },
    StickerImageFetched { sticker_id: u64, result: Result<Vec<u8>, String> },
    StickerPackNameInput(String),
    ToggleStickerPackCreate,
    CreateStickerPackSubmit,
    StickerPackCreated(Result<u64, String>),
    PickStickerImages(u64),
    StickerImagesPicked { pack_id: u64, result: Result<Vec<(String, String, Vec<u8>)>, String> },
    StickerAction(Result<(), String>),
    DeleteSticker { pack_id: u64, sticker_id: u64 },
    DeleteStickerPack(u64),
}

/// Profiles, settings and pictures of users.
pub enum ProfileMsg {
    ShowProfile(u64),
    ProfileLoaded(Profile),
    CloseProfile,
    ToggleBlock(u64),
    ToggleMute(u64),
    ModerationResult(Result<Profile, String>),
    DisplayNameChanged(String),
    SaveSettings,
    SettingsResult(Result<User, String>),
    ToggleSettings,
    PickAvatar,
    AvatarChosen(Result<Vec<u8>, String>),
    /// The new picture of the user is there, as a `data:` URL.
    AvatarPrepared(Result<String, String>),
    AvatarSaved(Result<User, String>),
    RemoveAvatar,
    AvatarFetched { user_id: u64, result: Result<Vec<u8>, String> },
    /// The round picture of a user is there.
    AvatarReady { user_id: u64, png: Vec<u8> },
    SettingsTabChanged(SettingsTab),
    BioChanged(String),
    ProfileVisibleToggled(bool),
    SessionsLoaded(Result<Vec<SessionInfo>, String>),
    RevokeSession(u64),
    SessionRevoked(Result<(), String>),
    SetAccent(Rgb),
    AccentHexChanged(String),
    ApplyAccentHex,
}

/// Attachments, transfers and link previews.
pub enum FileMsg {
    P2pReady,
    /// A transfer made progress. `percent` is the share that was received; `contents` is the file
    /// of a finished transfer, where it could be read.
    P2pEvent { event: P2pEvent, percent: u64, contents: Option<Vec<u8>> },
    PickFile,
    FilePicked(Result<Attachment, String>),
    ClearAttachment,
    OpenFile(u64),
    RetryFile(u64),
    /// A stored file could not be read.
    Unreadable { file_id: String, sender_id: u64 },
    /// The small picture of an attachment is there.
    ThumbReady { file_id: String, png: Vec<u8> },
    OpenLink(String),
    FetchLinkPreview(String),
    LinkPreviewLoaded { url: String, preview: Option<LinkPreview> },
    /// A picture of a link preview was read from the cache.
    PreviewImageRead { url: String, bytes: Vec<u8> },
}

/// Voice channels.
pub enum VoiceMsg {
    VoiceReady,
    VoiceEvent(VoiceEvent),
    VoiceJoin(u64),
    VoiceLeave,
    VoiceToggleMute,
    VoiceToggleCamera,
    VoiceToggleScreen,
}

/// The socket to the server.
pub enum WsMsg {
    WsConnected,
    WsDisconnected,
    WsSenderReady,
    WsEvent(WsHubEvent),
}

pub enum Msg {
    Auth(AuthMsg),
    Conv(ConvMsg),
    NewConv(NewConvMsg),
    Guild(GuildMsg),
    GuildAdmin(GuildAdminMsg),
    Sticker(StickerMsg),
    Profile(ProfileMsg),
    File(FileMsg),
    Voice(VoiceMsg),
    Ws(WsMsg),
    Error(String),
    Info(String),
    Tick,
    Noop,
}

} // verus!
