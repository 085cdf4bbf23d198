//! Short names of messages, for the log.

use vstd::prelude::*;

use crate::chat::msg::{
    AuthMsg, ConvMsg, FileMsg, GuildAdminMsg, GuildMsg, Msg, NewConvMsg, ProfileMsg, StickerMsg,
    VoiceMsg, WsMsg,
};
use crate::number::{decimal, u64_text};
use crate::text::{concat2, concat3, concat5, copy_text};

verus! {

/// A name with how a request ended.
pub open spec fn with_outcome(name: Seq<char>, ok: bool) -> Seq<char> {
    if ok {
        name + "(Ok)"@
    } else {
        name + "(Err)"@
    }
}

fn name_outcome(name: &str, ok: bool) -> (r: String)
    ensures
        r@ == with_outcome(name@, ok),
{
    if ok {
        concat2(name, "(Ok)")
    } else {
        concat2(name, "(Err)")
    }
}

/// The length of a loaded list; a list that was not loaded counts as empty.
pub open spec fn loaded_len<T>(r: Result<Vec<T>, String>) -> nat {
    match r {
        Ok(v) => v@.len(),
        Err(_) => 0,
    }
}

fn count_loaded<T>(r: &Result<Vec<T>, String>) -> (n: u64)
    ensures
        n == loaded_len(*r),
{
    match r {
        Ok(v) => v.len() as u64,
        Err(_) => 0,
    }
}

pub open spec fn auth_name(m: AuthMsg) -> Seq<char> {
    match m {
        AuthMsg::LoginEmailChanged(_) => "LoginEmailChanged"@,
        AuthMsg::LoginPasswordChanged(_) => "LoginPasswordChanged"@,
        AuthMsg::LoginServerChanged(_) => "LoginServerChanged"@,
        AuthMsg::RememberMeChanged(_) => "RememberMeChanged"@,
        AuthMsg::LoginSubmit => "LoginSubmit"@,
        AuthMsg::LoginResult(r) => with_outcome("LoginResult"@, r is Ok),
        AuthMsg::SessionRestored(_) => "SessionRestored"@,
        AuthMsg::LoginNeeds2fa(_) => "LoginNeeds2fa"@,
        AuthMsg::ShowRegister(_) => "ShowRegister"@,
        AuthMsg::RegisterEmailChanged(_) => "RegisterEmailChanged"@,
        AuthMsg::RegisterUsernameChanged(_) => "RegisterUsernameChanged"@,
        AuthMsg::RegisterPasswordChanged(_) => "RegisterPasswordChanged"@,
        AuthMsg::RegisterBirthdateChanged(_) => "RegisterBirthdateChanged"@,
        AuthMsg::RegisterSubmit => "RegisterSubmit"@,
        AuthMsg::RegisterResult(r) => with_outcome("RegisterResult"@, r is Ok),
        AuthMsg::TwoFaCodeChanged(_) => "TwoFaCodeChanged"@,
        AuthMsg::TwoFaSubmit => "TwoFaSubmit"@,
        AuthMsg::TwoFaResult(r) => with_outcome("TwoFaResult"@, r is Ok),
        AuthMsg::VerifyCodeChanged(_) => "VerifyCodeChanged"@,
        AuthMsg::VerifySubmit => "VerifySubmit"@,
        AuthMsg::VerifyResult(r) => with_outcome("VerifyResult"@, r is Ok),
        AuthMsg::TwoFaSetup => "TwoFaSetup"@,
        AuthMsg::TwoFaSetupResult(_) => "TwoFaSetupResult"@,
        AuthMsg::TwoFaEnable => "TwoFaEnable"@,
        AuthMsg::TwoFaToggleResult(_) => "TwoFaToggleResult"@,
        AuthMsg::TwoFaCodeInput(_) => "TwoFaCodeInput"@,
        AuthMsg::Logout => "Logout"@,
        AuthMsg::SessionExpired(_) => "SessionExpired"@,
    }
}

fn show_auth_name(m: &AuthMsg) -> (r: String)
    ensures
        r@ == auth_name(*m),
{
    match m {
        AuthMsg::LoginEmailChanged(_) => copy_text("LoginEmailChanged"),
        AuthMsg::LoginPasswordChanged(_) => copy_text("LoginPasswordChanged"),
        AuthMsg::LoginServerChanged(_) => copy_text("LoginServerChanged"),
        AuthMsg::RememberMeChanged(_) => copy_text("RememberMeChanged"),
        AuthMsg::LoginSubmit => copy_text("LoginSubmit"),
        AuthMsg::LoginResult(r) => name_outcome("LoginResult", r.is_ok()),
        AuthMsg::SessionRestored(_) => copy_text("SessionRestored"),
        AuthMsg::LoginNeeds2fa(_) => copy_text("LoginNeeds2fa"),
        AuthMsg::ShowRegister(_) => copy_text("ShowRegister"),
        AuthMsg::RegisterEmailChanged(_) => copy_text("RegisterEmailChanged"),
        AuthMsg::RegisterUsernameChanged(_) => copy_text("RegisterUsernameChanged"),
        AuthMsg::RegisterPasswordChanged(_) => copy_text("RegisterPasswordChanged"),
        AuthMsg::RegisterBirthdateChanged(_) => copy_text("RegisterBirthdateChanged"),
        AuthMsg::RegisterSubmit => copy_text("RegisterSubmit"),
        AuthMsg::RegisterResult(r) => name_outcome("RegisterResult", r.is_ok()),
        AuthMsg::TwoFaCodeChanged(_) => copy_text("TwoFaCodeChanged"),
        AuthMsg::TwoFaSubmit => copy_text("TwoFaSubmit"),
        AuthMsg::TwoFaResult(r) => name_outcome("TwoFaResult", r.is_ok()),
        AuthMsg::VerifyCodeChanged(_) => copy_text("VerifyCodeChanged"),
        AuthMsg::VerifySubmit => copy_text("VerifySubmit"),
        AuthMsg::VerifyResult(r) => name_outcome("VerifyResult", r.is_ok()),
        AuthMsg::TwoFaSetup => copy_text("TwoFaSetup"),
        AuthMsg::TwoFaSetupResult(_) => copy_text("TwoFaSetupResult"),
        AuthMsg::TwoFaEnable => copy_text("TwoFaEnable"),
        AuthMsg::TwoFaToggleResult(_) => copy_text("TwoFaToggleResult"),
        AuthMsg::TwoFaCodeInput(_) => copy_text("TwoFaCodeInput"),
        AuthMsg::Logout => copy_text("Logout"),
        AuthMsg::SessionExpired(_) => copy_text("SessionExpired"),
    }
}

pub open spec fn conv_name(m: ConvMsg) -> Seq<char> {
    match m {
        ConvMsg::SelectConversation(id) => "SelectConversation("@ + decimal(id as nat) + ")"@,
        ConvMsg::ConversationsLoaded(r) => "ConversationsLoaded("@ + decimal(loaded_len(r)) + ")"@,
        ConvMsg::MessagesLoaded { conversation_id, messages } => "MessagesLoaded(conv="@ + decimal(
            conversation_id as nat,
        ) + ", n="@ + decimal(loaded_len(messages)) + ")"@,
        ConvMsg::DraftChanged(_) => "DraftChanged"@,
        ConvMsg::SendMessage => "SendMessage"@,
        ConvMsg::MessageSent(r) => with_outcome("MessageSent"@, r is Ok),
        ConvMsg::StartEdit(_) => "StartEdit"@,
        ConvMsg::CancelEdit => "CancelEdit"@,
        ConvMsg::ConfirmEdit => "ConfirmEdit"@,
        ConvMsg::EditResult(r) => with_outcome("EditResult"@, r is Ok),
        ConvMsg::DeleteMessage(_) => "DeleteMessage"@,
        ConvMsg::DeleteResult(_) => "DeleteResult"@,
        ConvMsg::ShowOriginal(_) => "ShowOriginal"@,
        ConvMsg::CloseOriginal => "CloseOriginal"@,
        ConvMsg::RefreshConversations => "RefreshConversations"@,
        ConvMsg::CreateConversation => "CreateConversation"@,
        ConvMsg::DeleteConversation(_) => "DeleteConversation"@,
        ConvMsg::DeleteConversationResult(_) => "DeleteConversationResult"@,
        ConvMsg::Scrolled(_) => "Scrolled"@,
        ConvMsg::JumpToBottom => "JumpToBottom"@,
        ConvMsg::ContextMenu { .. } => "ContextMenu"@,
        ConvMsg::CloseContextMenu => "CloseContextMenu"@,
        ConvMsg::ConvContextMenu { .. } => "ConvContextMenu"@,
        ConvMsg::CloseConvContextMenu => "CloseConvContextMenu"@,
        ConvMsg::ClickedOutside => "ClickedOutside"@,
        ConvMsg::TypingExpired => "TypingExpired"@,
    }
}

fn show_conv_name(m: &ConvMsg) -> (r: String)
    ensures
        r@ == conv_name(*m),
{
    match m {
        ConvMsg::SelectConversation(id) => concat3("SelectConversation(", u64_text(*id).as_str(), ")"),
        ConvMsg::ConversationsLoaded(r) => concat3(
            "ConversationsLoaded(",
            u64_text(count_loaded(r)).as_str(),
            ")",
        ),
        ConvMsg::MessagesLoaded { conversation_id, messages } => concat5(
            "MessagesLoaded(conv=",
            u64_text(*conversation_id).as_str(),
            ", n=",
            u64_text(count_loaded(messages)).as_str(),
            ")",
        ),
        ConvMsg::DraftChanged(_) => copy_text("DraftChanged"),
        ConvMsg::SendMessage => copy_text("SendMessage"),
        ConvMsg::MessageSent(r) => name_outcome("MessageSent", r.is_ok()),
        ConvMsg::StartEdit(_) => copy_text("StartEdit"),
        ConvMsg::CancelEdit => copy_text("CancelEdit"),
        ConvMsg::ConfirmEdit => copy_text("ConfirmEdit"),
        ConvMsg::EditResult(r) => name_outcome("EditResult", r.is_ok()),
        ConvMsg::DeleteMessage(_) => copy_text("DeleteMessage"),
        ConvMsg::DeleteResult(_) => copy_text("DeleteResult"),
        ConvMsg::ShowOriginal(_) => copy_text("ShowOriginal"),
        ConvMsg::CloseOriginal => copy_text("CloseOriginal"),
        ConvMsg::RefreshConversations => copy_text("RefreshConversations"),
        ConvMsg::CreateConversation => copy_text("CreateConversation"),
        ConvMsg::DeleteConversation(_) => copy_text("DeleteConversation"),
        ConvMsg::DeleteConversationResult(_) => copy_text("DeleteConversationResult"),
        ConvMsg::Scrolled(_) => copy_text("Scrolled"),
        ConvMsg::JumpToBottom => copy_text("JumpToBottom"),
        ConvMsg::ContextMenu { .. } => copy_text("ContextMenu"),
        ConvMsg::CloseContextMenu => copy_text("CloseContextMenu"),
        ConvMsg::ConvContextMenu { .. } => copy_text("ConvContextMenu"),
        ConvMsg::CloseConvContextMenu => copy_text("CloseConvContextMenu"),
        ConvMsg::ClickedOutside => copy_text("ClickedOutside"),
        ConvMsg::TypingExpired => copy_text("TypingExpired"),
    }
}

pub open spec fn new_conv_name(m: NewConvMsg) -> Seq<char> {
    match m {
        NewConvMsg::OpenNewConv => "OpenNewConv"@,
        NewConvMsg::CloseNewConv => "CloseNewConv"@,
        NewConvMsg::NewConvWithUser(_) => "NewConvWithUser"@,
        NewConvMsg::NewConvKindChanged(_) => "NewConvKindChanged"@,
        NewConvMsg::NewConvSearchChanged(_) => "NewConvSearchChanged"@,
        NewConvMsg::NewConvSearchResults(_) => "NewConvSearchResults"@,
        NewConvMsg::NewConvToggleUser(_) => "NewConvToggleUser"@,
        NewConvMsg::NewConvCreate => "NewConvCreate"@,
        NewConvMsg::NewConvCreated(_) => "NewConvCreated"@,
    }
}

fn show_new_conv_name(m: &NewConvMsg) -> (r: String)
    ensures
        r@ == new_conv_name(*m),
{
    match m {
        NewConvMsg::OpenNewConv => copy_text("OpenNewConv"),
        NewConvMsg::CloseNewConv => copy_text("CloseNewConv"),
        NewConvMsg::NewConvWithUser(_) => copy_text("NewConvWithUser"),
        NewConvMsg::NewConvKindChanged(_) => copy_text("NewConvKindChanged"),
        NewConvMsg::NewConvSearchChanged(_) => copy_text("NewConvSearchChanged"),
        NewConvMsg::NewConvSearchResults(_) => copy_text("NewConvSearchResults"),
        NewConvMsg::NewConvToggleUser(_) => copy_text("NewConvToggleUser"),
        NewConvMsg::NewConvCreate => copy_text("NewConvCreate"),
        NewConvMsg::NewConvCreated(_) => copy_text("NewConvCreated"),
    }
}

pub open spec fn guild_name(m: GuildMsg) -> Seq<char> {
    match m {
        GuildMsg::GuildsLoaded(_) => "GuildsLoaded"@,
        GuildMsg::SelectGuild(_) => "SelectGuild"@,
        GuildMsg::SetLeftTab(_) => "SetLeftTab"@,
        GuildMsg::OpenGuildModal => "OpenGuildModal"@,
        GuildMsg::OpenServerModal => "OpenServerModal"@,
        GuildMsg::CloseGuildModal => "CloseGuildModal"@,
        GuildMsg::GuildNameInput(_) => "GuildNameInput"@,
        GuildMsg::GuildJoinCodeInput(_) => "GuildJoinCodeInput"@,
        GuildMsg::CreateGuildSubmit => "CreateGuildSubmit"@,
        GuildMsg::GuildCreated(_) => "GuildCreated"@,
        GuildMsg::JoinGuildSubmit => "JoinGuildSubmit"@,
        GuildMsg::GuildJoined(_) => "GuildJoined"@,
        GuildMsg::CreateChannelSubmit(_) => "CreateChannelSubmit"@,
        GuildMsg::ChannelCreated(_) => "ChannelCreated"@,
        GuildMsg::ChannelNameInput(_) => "ChannelNameInput"@,
        GuildMsg::ChannelTypeChanged(_) => "ChannelTypeChanged"@,
        GuildMsg::DeleteGuild(_) => "DeleteGuild"@,
        GuildMsg::GuildDeleteResult(_) => "GuildDeleteResult"@,
        GuildMsg::CreateInvite(_) => "CreateInvite"@,
        GuildMsg::InviteResult(_) => "InviteResult"@,
        GuildMsg::SetRole { .. } => "SetRole"@,
        GuildMsg::TransferOwner { .. } => "TransferOwner"@,
        GuildMsg::KickMember { .. } => "KickMember"@,
        GuildMsg::GuildMemberAction(_) => "GuildMemberAction"@,
    }
}

fn show_guild_name(m: &GuildMsg) -> (r: String)
    ensures
        r@ == guild_name(*m),
{
    match m {
        GuildMsg::GuildsLoaded(_) => copy_text("GuildsLoaded"),
        GuildMsg::SelectGuild(_) => copy_text("SelectGuild"),
        GuildMsg::SetLeftTab(_) => copy_text("SetLeftTab"),
        GuildMsg::OpenGuildModal => copy_text("OpenGuildModal"),
        GuildMsg::OpenServerModal => copy_text("OpenServerModal"),
        GuildMsg::CloseGuildModal => copy_text("CloseGuildModal"),
        GuildMsg::GuildNameInput(_) => copy_text("GuildNameInput"),
        GuildMsg::GuildJoinCodeInput(_) => copy_text("GuildJoinCodeInput"),
        GuildMsg::CreateGuildSubmit => copy_text("CreateGuildSubmit"),
        GuildMsg::GuildCreated(_) => copy_text("GuildCreated"),
        GuildMsg::JoinGuildSubmit => copy_text("JoinGuildSubmit"),
        GuildMsg::GuildJoined(_) => copy_text("GuildJoined"),
        GuildMsg::CreateChannelSubmit(_) => copy_text("CreateChannelSubmit"),
        GuildMsg::ChannelCreated(_) => copy_text("ChannelCreated"),
        GuildMsg::ChannelNameInput(_) => copy_text("ChannelNameInput"),
        GuildMsg::ChannelTypeChanged(_) => copy_text("ChannelTypeChanged"),
        GuildMsg::DeleteGuild(_) => copy_text("DeleteGuild"),
        GuildMsg::GuildDeleteResult(_) => copy_text("GuildDeleteResult"),
        GuildMsg::CreateInvite(_) => copy_text("CreateInvite"),
        GuildMsg::InviteResult(_) => copy_text("InviteResult"),
        GuildMsg::SetRole { .. } => copy_text("SetRole"),
        GuildMsg::TransferOwner { .. } => copy_text("TransferOwner"),
        GuildMsg::KickMember { .. } => copy_text("KickMember"),
        GuildMsg::GuildMemberAction(_) => copy_text("GuildMemberAction"),
    }
}

pub open spec fn guild_admin_name(m: GuildAdminMsg) -> Seq<char> {
    match m {
        GuildAdminMsg::OpenGuildSettings => "OpenGuildSettings"@,
        GuildAdminMsg::CloseGuildSettings => "CloseGuildSettings"@,
        GuildAdminMsg::GuildSettingsLoaded(_) => "GuildSettingsLoaded"@,
        GuildAdminMsg::GuildSettingsTabChanged(_) => "GuildSettingsTabChanged"@,
        GuildAdminMsg::RoleNameInput(_) => "RoleNameInput"@,
        GuildAdminMsg::CreateRoleSubmit(_) => "CreateRoleSubmit"@,
        GuildAdminMsg::DeleteRole { .. } => "DeleteRole"@,
        GuildAdminMsg::AssignRole { .. } => "AssignRole"@,
        GuildAdminMsg::RenameChannel { .. } => "RenameChannel"@,
        GuildAdminMsg::ChannelRenameInput { .. } => "ChannelRenameInput"@,
        GuildAdminMsg::DeleteChannel { .. } => "DeleteChannel"@,
        GuildAdminMsg::BanMember { .. } => "BanMember"@,
        GuildAdminMsg::UnbanMember { .. } => "UnbanMember"@,
        GuildAdminMsg::GuildAdminAction(_) => "GuildAdminAction"@,
    }
}

fn show_guild_admin_name(m: &GuildAdminMsg) -> (r: String)
    ensures
        r@ == guild_admin_name(*m),
{
    match m {
        GuildAdminMsg::OpenGuildSettings => copy_text("OpenGuildSettings"),
        GuildAdminMsg::CloseGuildSettings => copy_text("CloseGuildSettings"),
        GuildAdminMsg::GuildSettingsLoaded(_) => copy_text("GuildSettingsLoaded"),
        GuildAdminMsg::GuildSettingsTabChanged(_) => copy_text("GuildSettingsTabChanged"),
        GuildAdminMsg::RoleNameInput(_) => copy_text("RoleNameInput"),
        GuildAdminMsg::CreateRoleSubmit(_) => copy_text("CreateRoleSubmit"),
        GuildAdminMsg::DeleteRole { .. } => copy_text("DeleteRole"),
        GuildAdminMsg::AssignRole { .. } => copy_text("AssignRole"),
        GuildAdminMsg::RenameChannel { .. } => copy_text("RenameChannel"),
        GuildAdminMsg::ChannelRenameInput { .. } => copy_text("ChannelRenameInput"),
        GuildAdminMsg::DeleteChannel { .. } => copy_text("DeleteChannel"),
        GuildAdminMsg::BanMember { .. } => copy_text("BanMember"),
        GuildAdminMsg::UnbanMember { .. } => copy_text("UnbanMember"),
        GuildAdminMsg::GuildAdminAction(_) => copy_text("GuildAdminAction"),
    }
}

pub open spec fn sticker_name(m: StickerMsg) -> Seq<char> {
    match m {
        StickerMsg::ToggleStickerMenu => "ToggleStickerMenu"@,
        StickerMsg::StickerSearchChanged(_) => "StickerSearchChanged"@,
        StickerMsg::StickersLoaded(_) => "StickersLoaded"@,
        StickerMsg::SendSticker(_) => "SendSticker"@,
        StickerMsg::StickerPrepared { .. } => "StickerPrepared"@,
        StickerMsg::StickerImageFetched { .. } => "StickerImageFetched"@,
        StickerMsg::StickerPackNameInput(_) => "StickerPackNameInput"@,
        StickerMsg::ToggleStickerPackCreate => "ToggleStickerPackCreate"@,
        StickerMsg::CreateStickerPackSubmit => "CreateStickerPackSubmit"@,
        StickerMsg::StickerPackCreated(_) => "StickerPackCreated"@,
        StickerMsg::PickStickerImages(_) => "PickStickerImages"@,
        StickerMsg::StickerImagesPicked { .. } => "StickerImagesPicked"@,
        StickerMsg::StickerAction(_) => "StickerAction"@,
        StickerMsg::DeleteSticker { .. } => "DeleteSticker"@,
        StickerMsg::DeleteStickerPack(_) => "DeleteStickerPack"@,
    }
}

fn show_sticker_name(m: &StickerMsg) -> (r: String)
    ensures
        r@ == sticker_name(*m),
{
    match m {
        StickerMsg::ToggleStickerMenu => copy_text("ToggleStickerMenu"),
        StickerMsg::StickerSearchChanged(_) => copy_text("StickerSearchChanged"),
        StickerMsg::StickersLoaded(_) => copy_text("StickersLoaded"),
        StickerMsg::SendSticker(_) => copy_text("SendSticker"),
        StickerMsg::StickerPrepared { .. } => copy_text("StickerPrepared"),
        StickerMsg::StickerImageFetched { .. } => copy_text("StickerImageFetched"),
        StickerMsg::StickerPackNameInput(_) => copy_text("StickerPackNameInput"),
        StickerMsg::ToggleStickerPackCreate => copy_text("ToggleStickerPackCreate"),
        StickerMsg::CreateStickerPackSubmit => copy_text("CreateStickerPackSubmit"),
        StickerMsg::StickerPackCreated(_) => copy_text("StickerPackCreated"),
        StickerMsg::PickStickerImages(_) => copy_text("PickStickerImages"),
        StickerMsg::StickerImagesPicked { .. } => copy_text("StickerImagesPicked"),
        StickerMsg::StickerAction(_) => copy_text("StickerAction"),
        StickerMsg::DeleteSticker { .. } => copy_text("DeleteSticker"),
        StickerMsg::DeleteStickerPack(_) => copy_text("DeleteStickerPack"),
    }
}

pub open spec fn profile_name(m: ProfileMsg) -> Seq<char> {
    match m {
        ProfileMsg::ShowProfile(_) => "ShowProfile"@,
        ProfileMsg::ProfileLoaded(_) => "ProfileLoaded"@,
        ProfileMsg::CloseProfile => "CloseProfile"@,
        ProfileMsg::ToggleBlock(_) => "ToggleBlock"@,
        ProfileMsg::ToggleMute(_) => "ToggleMute"@,
        ProfileMsg::ModerationResult(_) => "ModerationResult"@,
        ProfileMsg::DisplayNameChanged(_) => "DisplayNameChanged"@,
        ProfileMsg::SaveSettings => "SaveSettings"@,
        ProfileMsg::SettingsResult(r) => with_outcome("SettingsResult"@, r is Ok),
        ProfileMsg::ToggleSettings => "ToggleSettings"@,
        ProfileMsg::PickAvatar => "PickAvatar"@,
        ProfileMsg::AvatarChosen(_) => "AvatarChosen"@,
        ProfileMsg::AvatarPrepared(_) => "AvatarPrepared"@,
        ProfileMsg::AvatarSaved(_) => "AvatarSaved"@,
        ProfileMsg::RemoveAvatar => "RemoveAvatar"@,
        ProfileMsg::AvatarFetched { .. } => "AvatarFetched"@,
        ProfileMsg::AvatarReady { .. } => "AvatarReady"@,
        ProfileMsg::SettingsTabChanged(_) => "SettingsTabChanged"@,
        ProfileMsg::BioChanged(_) => "BioChanged"@,
        ProfileMsg::ProfileVisibleToggled(_) => "ProfileVisibleToggled"@,
        ProfileMsg::SessionsLoaded(_) => "SessionsLoaded"@,
        ProfileMsg::RevokeSession(_) => "RevokeSession"@,
        ProfileMsg::SessionRevoked(_) => "SessionRevoked"@,
        ProfileMsg::SetAccent(_) => "SetAccent"@,
        ProfileMsg::AccentHexChanged(_) => "AccentHexChanged"@,
        ProfileMsg::ApplyAccentHex => "ApplyAccentHex"@,
    }
}

fn show_profile_name(m: &ProfileMsg) -> (r: String)
    ensures
        r@ == profile_name(*m),
{
    match m {
        ProfileMsg::ShowProfile(_) => copy_text("ShowProfile"),
        ProfileMsg::ProfileLoaded(_) => copy_text("ProfileLoaded"),
        ProfileMsg::CloseProfile => copy_text("CloseProfile"),
        ProfileMsg::ToggleBlock(_) => copy_text("ToggleBlock"),
        ProfileMsg::ToggleMute(_) => copy_text("ToggleMute"),
        ProfileMsg::ModerationResult(_) => copy_text("ModerationResult"),
        ProfileMsg::DisplayNameChanged(_) => copy_text("DisplayNameChanged"),
        ProfileMsg::SaveSettings => copy_text("SaveSettings"),
        ProfileMsg::SettingsResult(r) => name_outcome("SettingsResult", r.is_ok()),
        ProfileMsg::ToggleSettings => copy_text("ToggleSettings"),
        ProfileMsg::PickAvatar => copy_text("PickAvatar"),
        ProfileMsg::AvatarChosen(_) => copy_text("AvatarChosen"),
        ProfileMsg::AvatarPrepared(_) => copy_text("AvatarPrepared"),
        ProfileMsg::AvatarSaved(_) => copy_text("AvatarSaved"),
        ProfileMsg::RemoveAvatar => copy_text("RemoveAvatar"),
        ProfileMsg::AvatarFetched { .. } => copy_text("AvatarFetched"),
        ProfileMsg::AvatarReady { .. } => copy_text("AvatarReady"),
        ProfileMsg::SettingsTabChanged(_) => copy_text("SettingsTabChanged"),
        ProfileMsg::BioChanged(_) => copy_text("BioChanged"),
        ProfileMsg::ProfileVisibleToggled(_) => copy_text("ProfileVisibleToggled"),
        ProfileMsg::SessionsLoaded(_) => copy_text("SessionsLoaded"),
        ProfileMsg::RevokeSession(_) => copy_text("RevokeSession"),
        ProfileMsg::SessionRevoked(_) => copy_text("SessionRevoked"),
        ProfileMsg::SetAccent(_) => copy_text("SetAccent"),
        ProfileMsg::AccentHexChanged(_) => copy_text("AccentHexChanged"),
        ProfileMsg::ApplyAccentHex => copy_text("ApplyAccentHex"),
    }
}

pub open spec fn file_name(m: FileMsg) -> Seq<char> {
    match m {
        FileMsg::P2pReady => "P2pReady"@,
        FileMsg::P2pEvent { .. } => "P2pEvent"@,
        FileMsg::PickFile => "PickFile"@,
        FileMsg::FilePicked(_) => "FilePicked"@,
        FileMsg::ClearAttachment => "ClearAttachment"@,
        FileMsg::OpenFile(_) => "OpenFile"@,
        FileMsg::RetryFile(_) => "RetryFile"@,
        FileMsg::Unreadable { .. } => "Unreadable"@,
        FileMsg::ThumbReady { .. } => "ThumbReady"@,
        FileMsg::OpenLink(_) => "OpenLink"@,
        FileMsg::FetchLinkPreview(url) => "FetchLinkPreview(url="@ + url@ + ")"@,
        FileMsg::LinkPreviewLoaded { url, .. } => "LinkPreviewLoaded(url="@ + url@ + ")"@,
        FileMsg::PreviewImageRead { .. } => "PreviewImageRead"@,
    }
}

fn show_file_name(m: &FileMsg) -> (r: String)
    ensures
        r@ == file_name(*m),
{
    match m {
        FileMsg::P2pReady => copy_text("P2pReady"),
        FileMsg::P2pEvent { .. } => copy_text("P2pEvent"),
        FileMsg::PickFile => copy_text("PickFile"),
        FileMsg::FilePicked(_) => copy_text("FilePicked"),
        FileMsg::ClearAttachment => copy_text("ClearAttachment"),
        FileMsg::OpenFile(_) => copy_text("OpenFile"),
        FileMsg::RetryFile(_) => copy_text("RetryFile"),
        FileMsg::Unreadable { .. } => copy_text("Unreadable"),
        FileMsg::ThumbReady { .. } => copy_text("ThumbReady"),
        FileMsg::OpenLink(_) => copy_text("OpenLink"),
        FileMsg::FetchLinkPreview(url) => concat3("FetchLinkPreview(url=", url.as_str(), ")"),
        FileMsg::LinkPreviewLoaded { url, .. } => concat3("LinkPreviewLoaded(url=", url.as_str(), ")"),
        FileMsg::PreviewImageRead { .. } => copy_text("PreviewImageRead"),
    }
}

pub open spec fn voice_name(m: VoiceMsg) -> Seq<char> {
    match m {
        VoiceMsg::VoiceReady => "VoiceReady"@,
        VoiceMsg::VoiceEvent(_) => "VoiceEvent"@,
        VoiceMsg::VoiceJoin(_) => "VoiceJoin"@,
        VoiceMsg::VoiceLeave => "VoiceLeave"@,
        VoiceMsg::VoiceToggleMute => "VoiceToggleMute"@,
        VoiceMsg::VoiceToggleCamera => "VoiceToggleCamera"@,
        VoiceMsg::VoiceToggleScreen => "VoiceToggleScreen"@,
    }
}

fn show_voice_name(m: &VoiceMsg) -> (r: String)
    ensures
        r@ == voice_name(*m),
{
    match m {
        VoiceMsg::VoiceReady => copy_text("VoiceReady"),
        VoiceMsg::VoiceEvent(_) => copy_text("VoiceEvent"),
        VoiceMsg::VoiceJoin(_) => copy_text("VoiceJoin"),
        VoiceMsg::VoiceLeave => copy_text("VoiceLeave"),
        VoiceMsg::VoiceToggleMute => copy_text("VoiceToggleMute"),
        VoiceMsg::VoiceToggleCamera => copy_text("VoiceToggleCamera"),
        VoiceMsg::VoiceToggleScreen => copy_text("VoiceToggleScreen"),
    }
}

pub open spec fn ws_name(m: WsMsg) -> Seq<char> {
    match m {
        WsMsg::WsConnected => "WsConnected"@,
        WsMsg::WsDisconnected => "WsDisconnected"@,
        WsMsg::WsSenderReady => "WsSenderReady"@,
        WsMsg::WsEvent(_) => "WsEvent"@,
    }
}

fn show_ws_name(m: &WsMsg) -> (r: String)
    ensures
        r@ == ws_name(*m),
{
    match m {
        WsMsg::WsConnected => copy_text("WsConnected"),
        WsMsg::WsDisconnected => copy_text("WsDisconnected"),
        WsMsg::WsSenderReady => copy_text("WsSenderReady"),
        WsMsg::WsEvent(_) => copy_text("WsEvent"),
    }
}

/// The short name of a message.
pub open spec fn short_name(m: Msg) -> Seq<char> {
    match m {
        Msg::Auth(m) => auth_name(m),
        Msg::Conv(m) => conv_name(m),
        Msg::NewConv(m) => new_conv_name(m),
        Msg::Guild(m) => guild_name(m),
        Msg::GuildAdmin(m) => guild_admin_name(m),
        Msg::Sticker(m) => sticker_name(m),
        Msg::Profile(m) => profile_name(m),
        Msg::File(m) => file_name(m),
        Msg::Voice(m) => voice_name(m),
        Msg::Ws(m) => ws_name(m),
        Msg::Error(_) => "Error"@,
        Msg::Info(_) => "Info"@,
        Msg::Tick => "Tick"@,
        Msg::Noop => "Noop"@,
    }
}

/// The short name of a message, for the log: no text of a form or a conversation is part of it, but
/// for the address whose preview is looked up.
pub fn msg_short(msg: &Msg) -> (r: String)
    ensures
        r@ == short_name(*msg),
{
    match msg {
        Msg::Auth(m) => show_auth_name(m),
        Msg::Conv(m) => show_conv_name(m),
        Msg::NewConv(m) => show_new_conv_name(m),
        Msg::Guild(m) => show_guild_name(m),
        Msg::GuildAdmin(m) => show_guild_admin_name(m),
        Msg::Sticker(m) => show_sticker_name(m),
        Msg::Profile(m) => show_profile_name(m),
        Msg::File(m) => show_file_name(m),
        Msg::Voice(m) => show_voice_name(m),
        Msg::Ws(m) => show_ws_name(m),
        Msg::Error(_) => copy_text("Error"),
        Msg::Info(_) => copy_text("Info"),
        Msg::Tick => copy_text("Tick"),
        Msg::Noop => copy_text("Noop"),
    }
}

} // verus!
