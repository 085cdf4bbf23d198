//! What the server hands out, as plain values.

use vstd::prelude::*;

use crate::text::same_text;

verus! {

/// An account, as its owner sees it.
pub struct User {
    pub id: u64,
    pub email: String,
    pub username: String,
    pub display_name: String,
    pub email_verified: bool,
    pub avatar_url: Option<String>,
    pub totp_enabled: bool,
    pub is_bot: bool,
    pub bio: String,
    pub profile_visible: bool,
}

/// The value of a flag that a server may leave out and that then holds.
pub fn default_true() -> (b: bool)
    ensures
        b,
{
    true
}

/// A member of a conversation.
pub struct Member {
    pub id: u64,
    pub username: String,
    pub display_name: String,
    pub domain: String,
    pub avatar_url: Option<String>,
    pub is_bot: bool,
}

pub struct Conversation {
    pub id: u64,
    pub kind: String,
    pub guild_id: Option<u64>,
    pub channel_name: Option<String>,
    pub members: Vec<Member>,
}

/// A server of several channels, each of which is a conversation.
pub struct Guild {
    pub id: u64,
    pub name: String,
    pub owner_id: u64,
    pub member_count: u64,
    pub channels: Vec<GuildChannel>,
    pub members: Vec<GuildMember>,
    pub can_manage: bool,
    pub roles: Vec<GuildRole>,
    pub bans: Vec<GuildMember>,
}

pub struct GuildMember {
    pub id: u64,
    pub username: String,
    pub display_name: String,
}

pub struct GuildChannel {
    pub id: u64,
    pub name: String,
    pub channel_type: String,
}

impl GuildChannel {
    pub fn is_voice(&self) -> (b: bool)
        ensures
            b == (self.channel_type@ == "voice"@),
    {
        same_text(self.channel_type.as_str(), "voice")
    }
}

/// A named role inside a guild.
pub struct GuildRole {
    pub id: u64,
    pub name: String,
    pub is_admin: bool,
    pub member_ids: Vec<u64>,
}

pub struct Sticker {
    pub id: u64,
    pub name: String,
    pub mime: String,
}

pub struct StickerPack {
    pub id: u64,
    pub name: String,
    pub owner_id: u64,
    pub owner_name: String,
    pub stickers: Vec<Sticker>,
}

/// A device that is logged in.
pub struct SessionInfo {
    pub id: u64,
    pub device_id: Option<String>,
    pub login_ip: Option<String>,
    pub created_at: String,
    pub current: bool,
}

/// A hit of the user search.
pub struct SearchUser {
    pub id: u64,
    pub username: String,
    pub display_name: String,
    pub domain: String,
    pub avatar_url: Option<String>,
    pub is_bot: bool,
}

#[derive(Clone, Copy, Debug, PartialEq, Eq, Structural)]
pub enum NewConvKind {
    Direct,
    Group,
}

impl NewConvKind {
    pub fn label(self) -> (s: &'static str)
        ensures
            s@ == (match self {
                NewConvKind::Direct => "Direct message"@,
                NewConvKind::Group => "Group chat"@,
            }),
    {
        match self {
            NewConvKind::Direct => "Direct message",
            NewConvKind::Group => "Group chat",
        }
    }

    pub fn api_kind(self) -> (s: &'static str)
        ensures
            s@ == (match self {
                NewConvKind::Direct => "direct"@,
                NewConvKind::Group => "group"@,
            }),
    {
        match self {
            NewConvKind::Direct => "direct",
            NewConvKind::Group => "group",
        }
    }

    pub fn description(self) -> (s: &'static str)
        ensures
            s@ == (match self {
                NewConvKind::Direct => "Talk to one person"@,
                NewConvKind::Group => "A small group conversation"@,
            }),
    {
        match self {
            NewConvKind::Direct => "Talk to one person",
            NewConvKind::Group => "A small group conversation",
        }
    }
}

#[derive(Clone, Copy, Debug, PartialEq, Eq, Structural)]
pub enum LeftTab {
    Dms,
    Servers,
}

#[derive(Clone, Copy, Debug, PartialEq, Eq, Structural)]
pub enum GuildSettingsTab {
    Channels,
    Roles,
    Bans,
}

#[derive(Clone, Copy, Debug, PartialEq, Eq, Structural)]
pub enum SettingsTab {
    General,
    Privacy,
    Devices,
}

#[derive(Clone, Copy, Debug, PartialEq, Eq, Structural)]
pub enum Screen {
    Login,
    Register,
    Verify,
    TwoFa,
    TwoFaSetup,
    Chat,
}

/// A chat message.
pub struct ApiMsg {
    pub id: u64,
    pub conversation_id: u64,
    pub sender_id: u64,
    pub body: String,
    pub created_at: String,
    pub attachment_mime: Option<String>,
    pub attachment_name: Option<String>,
    pub attachment_data: Option<String>,
    pub file_id: Option<String>,
    pub file_size: Option<i64>,
    pub thumbnail_data: Option<String>,
    pub edited_at: Option<String>,
    pub original_body: Option<String>,
    pub deleted_at: Option<String>,
    pub read: bool,
}

/// What an authenticator app needs to be set up.
pub struct TwoFaSetupInfo {
    pub secret: String,
    pub uri: String,
    pub qr: String,
}

/// An account as another one sees it.
pub struct Profile {
    pub id: u64,
    pub username: String,
    pub display_name: String,
    pub domain: String,
    pub avatar_url: Option<String>,
    pub is_self: bool,
    pub is_bot: bool,
    pub blocked: bool,
    pub muted: bool,
    pub blocked_by: bool,
    pub restricted: bool,
    pub bio: String,
}

/// What is shown below a message for a link in it.
pub struct LinkPreview {
    pub url: String,
    pub title: Option<String>,
    pub description: Option<String>,
    pub images: Vec<String>,
}

/// A file that was picked and not sent yet.
pub struct Attachment {
    pub mime: String,
    pub name: String,
    pub file_id: String,
    pub file_size: u64,
    pub thumbnail: String,
    pub bytes: Vec<u8>,
}

/// A file that was sent in this session.
pub struct OwnFile {
    pub thumbnail: String,
    pub bytes: Vec<u8>,
}

/// A file that was received in full, or found in the cache.
pub struct DownloadedFile {
    /// The bytes to show, for an image.
    pub image: Option<Vec<u8>>,
    /// Where the bytes lie on disk.
    pub path: Option<String>,
}

/// A colour of eight bits per channel.
#[derive(Clone, Copy, Debug, PartialEq, Eq, Structural)]
pub struct Rgb {
    pub r: u8,
    pub g: u8,
    pub b: u8,
}

/// A position in the window, by the bit patterns of its two single precision coordinates.
#[derive(Clone, Copy, Debug, PartialEq, Eq, Structural)]
pub struct Spot {
    pub x_bits: u32,
    pub y_bits: u32,
}

} // verus!
