//! What the answer to a request comes to: the message that it is handled as.

use vstd::prelude::*;

use crate::chat::action::Api;
use crate::chat::msg::{
    AuthMsg, ConvMsg, GuildAdminMsg, GuildMsg, Msg, NewConvMsg, ProfileMsg, StickerMsg,
};
use crate::chat::requests::{
    answer, login_message, number_result, session_result, settle, text_result, Reply,
};
use crate::chat::types::{
    ApiMsg, Conversation, Guild, Profile, SearchUser, SessionInfo, StickerPack, TwoFaSetupInfo,
    User,
};
use crate::json::{json_flag, json_number, json_text, text_or};
use crate::text::{concat2, copy_text};

verus! {

/// What was read out of the text of a successful answer, or why it could not be.
pub enum Found {
    Nothing,
    Account(Result<User, String>),
    Setup(Result<TwoFaSetupInfo, String>),
    Conversations(Vec<Conversation>),
    Messages(Vec<ApiMsg>),
    Message(Result<ApiMsg, String>),
    Conversation(Result<Conversation, String>),
    Hits(Result<Vec<SearchUser>, String>),
    Card(Result<Profile, String>),
    Devices(Result<Vec<SessionInfo>, String>),
    Guilds(Result<Vec<Guild>, String>),
    Guild(Result<Guild, String>),
    Packs(Result<Vec<StickerPack>, String>),
    Bytes(Vec<u8>),
}

/// An account of which nothing is known.
pub open spec fn is_blank(u: User) -> bool {
    &&& u.id == 0
    &&& u.email@.len() == 0 && u.username@.len() == 0 && u.display_name@.len() == 0
    &&& !u.email_verified && !u.totp_enabled && !u.is_bot && !u.profile_visible
    &&& u.avatar_url is None
    &&& u.bio@.len() == 0
}

pub fn blank_user() -> (u: User)
    ensures
        is_blank(u),
{
    User {
        id: 0,
        email: String::new(),
        username: String::new(),
        display_name: String::new(),
        email_verified: false,
        avatar_url: None,
        totp_enabled: false,
        is_bot: false,
        bio: String::new(),
        profile_visible: false,
    }
}

/// The account of a new session, or a blank one where the answer names none.
pub open spec fn is_session_user(found: Found, u: User) -> bool {
    match found {
        Found::Account(Ok(x)) => u == x,
        _ => is_blank(u),
    }
}

/// What is shown where an answer could not be read; `detailed` says whether the reason is named.
pub open spec fn parse_error(why: Seq<char>, detailed: bool) -> Seq<char> {
    if detailed {
        "parse error: "@ + why
    } else {
        "parse error"@
    }
}

/// A value that an answer has to hold. Nothing was read where something else was looked for.
pub open spec fn holds_value<T>(
    a: Result<Seq<char>, Seq<char>>,
    parsed: Option<Result<T, String>>,
    detailed: bool,
    r: Result<T, String>,
) -> bool {
    match a {
        Err(e) => r matches Err(x) && x@ == e,
        Ok(_) => match parsed {
            Some(Ok(t)) => r == Ok::<T, String>(t),
            Some(Err(why)) => r matches Err(x) && x@ == parse_error(why@, detailed),
            None => r matches Err(x) && x@ == "parse error"@,
        },
    }
}

pub open spec fn account_in(found: Found) -> Option<Result<User, String>> {
    match found {
        Found::Account(p) => Some(p),
        _ => None,
    }
}

pub open spec fn setup_in(found: Found) -> Option<Result<TwoFaSetupInfo, String>> {
    match found {
        Found::Setup(p) => Some(p),
        _ => None,
    }
}

pub open spec fn message_in(found: Found) -> Option<Result<ApiMsg, String>> {
    match found {
        Found::Message(p) => Some(p),
        _ => None,
    }
}

pub open spec fn conversation_in(found: Found) -> Option<Result<Conversation, String>> {
    match found {
        Found::Conversation(p) => Some(p),
        _ => None,
    }
}

pub open spec fn hits_in(found: Found) -> Option<Result<Vec<SearchUser>, String>> {
    match found {
        Found::Hits(p) => Some(p),
        _ => None,
    }
}

pub open spec fn card_in(found: Found) -> Option<Result<Profile, String>> {
    match found {
        Found::Card(p) => Some(p),
        _ => None,
    }
}

pub open spec fn devices_in(found: Found) -> Option<Result<Vec<SessionInfo>, String>> {
    match found {
        Found::Devices(p) => Some(p),
        _ => None,
    }
}

pub open spec fn guilds_in(found: Found) -> Option<Result<Vec<Guild>, String>> {
    match found {
        Found::Guilds(p) => Some(p),
        _ => None,
    }
}

pub open spec fn guild_in(found: Found) -> Option<Result<Guild, String>> {
    match found {
        Found::Guild(p) => Some(p),
        _ => None,
    }
}

pub open spec fn packs_in(found: Found) -> Option<Result<Vec<StickerPack>, String>> {
    match found {
        Found::Packs(p) => Some(p),
        _ => None,
    }
}

/// Nothing but the success of a request matters.
pub open spec fn is_done(a: Result<Seq<char>, Seq<char>>, r: Result<(), String>) -> bool {
    match a {
        Ok(_) => r is Ok,
        Err(e) => r matches Err(x) && x@ == e,
    }
}

pub open spec fn is_error(m: Msg, text: Seq<char>) -> bool {
    m matches Msg::Error(e) && e@ == text
}

/// A session that was made.
pub open spec fn is_session(
    a: Result<Seq<char>, Seq<char>>,
    found: Found,
    r: Result<(String, User), String>,
) -> bool {
    match a {
        Err(e) => r matches Err(x) && x@ == e,
        Ok(body) => r matches Ok((t, u)) && t@ == text_or(json_text(body, "/token"@), Seq::empty())
            && is_session_user(found, u),
    }
}

/// What the answers about the session come to.
pub open spec fn auth_concluded(api: Api, reply: Reply, found: Found, m: AuthMsg) -> bool {
    let a = answer(api, reply);
    match api {
        Api::Login { .. } => match a {
            Ok(body) => if json_flag(body, "/requires_2fa"@) == Some(true) {
                m matches AuthMsg::LoginNeeds2fa(t) && t@ == text_or(
                    json_text(body, "/pending_token"@),
                    Seq::empty(),
                )
            } else {
                m matches AuthMsg::LoginResult(r) && is_session(a, found, r)
            },
            Err(_) => m matches AuthMsg::LoginResult(r) && is_session(a, found, r),
        },
        Api::Register { .. } => m matches AuthMsg::RegisterResult(r) && is_session(a, found, r),
        Api::LoginTwoFa { .. } => m matches AuthMsg::TwoFaResult(r) && is_session(a, found, r),
        Api::Verify { .. } => m matches AuthMsg::VerifyResult(r)
            && holds_value(a, account_in(found), false, r),
        Api::TwoFaSetup => m matches AuthMsg::TwoFaSetupResult(r)
            && holds_value(a, setup_in(found), true, r),
        _ => m matches AuthMsg::TwoFaToggleResult(r)
            && holds_value(a, account_in(found), true, r),
    }
}

/// What the answers about conversations come to.
pub open spec fn conv_concluded(api: Api, reply: Reply, found: Found, m: Msg) -> bool {
    let a = answer(api, reply);
    match api {
        Api::LoadConversations => m matches Msg::Conv(ConvMsg::ConversationsLoaded(r)) && match a {
            Err(e) => r matches Err(x) && x@ == e,
            Ok(_) => r matches Ok(list) && match found {
                Found::Conversations(cs) => list == cs,
                _ => list@.len() == 0,
            },
        },
        Api::LoadMessages { conversation_id } => m matches Msg::Conv(
            ConvMsg::MessagesLoaded { conversation_id: c, messages },
        ) && c == conversation_id && match a {
            Err(e) => messages matches Err(x) && x@ == e,
            Ok(_) => messages matches Ok(list) && match found {
                Found::Messages(ms) => list == ms,
                _ => list@.len() == 0,
            },
        },
        Api::MarkRead { .. } => match a {
            Ok(_) => m == Msg::Noop,
            Err(e) => is_error(m, e),
        },
        Api::SendMessage { .. } => m matches Msg::Conv(
            ConvMsg::MessageSent(r),
        ) && holds_value(a, message_in(found), false, r),
        Api::EditMessage { .. } => m matches Msg::Conv(
            ConvMsg::EditResult(r),
        ) && holds_value(a, message_in(found), false, r),
        Api::DeleteMessage { message_id, .. } => match a {
            Ok(_) => m == Msg::Conv(ConvMsg::DeleteResult(message_id)),
            Err(e) => is_error(m, e),
        },
        Api::CreateByHandle { .. } => match a {
            Err(e) => is_error(m, e),
            Ok(_) => match found {
                Found::Conversation(Ok(_)) => m matches Msg::Conv(
                    ConvMsg::ConversationsLoaded(Ok(list)),
                ) && list@.len() == 0,
                _ => is_error(m, "parse error"@),
            },
        },
        Api::CreateConversation { .. } => m matches Msg::NewConv(
            NewConvMsg::NewConvCreated(r),
        ) && holds_value(a, conversation_in(found), true, r),
        Api::SearchUsers { .. } => m matches Msg::NewConv(
            NewConvMsg::NewConvSearchResults(r),
        ) && holds_value(a, hits_in(found), true, r),
        _ => m matches Msg::Conv(ConvMsg::DeleteConversationResult(r)) && is_done(a, r),
    }
}

/// What the answers about users come to.
pub open spec fn people_concluded(api: Api, reply: Reply, found: Found, m: Msg) -> bool {
    let a = answer(api, reply);
    match api {
        Api::LoadProfile { .. } => match a {
            Err(e) => is_error(m, e),
            Ok(_) => match found {
                Found::Card(Ok(p)) => m == Msg::Profile(ProfileMsg::ProfileLoaded(p)),
                _ => is_error(m, "parse error"@),
            },
        },
        Api::Moderate { .. } => m matches Msg::Profile(
            ProfileMsg::ModerationResult(r),
        ) && holds_value(a, card_in(found), true, r),
        Api::SaveSettings { .. } | Api::SetProfileVisible { .. } => m matches Msg::Profile(ProfileMsg::SettingsResult(r)) && holds_value(a, account_in(found), false, r),
        Api::LoadSessions => m matches Msg::Profile(
            ProfileMsg::SessionsLoaded(r),
        ) && holds_value(a, devices_in(found), true, r),
        Api::RevokeSession { .. } => m matches Msg::Profile(ProfileMsg::SessionRevoked(r))
            && is_done(a, r),
        _ => m matches Msg::Profile(ProfileMsg::AvatarSaved(r))
            && holds_value(a, account_in(found), false, r),
    }
}

/// A number that an answer has to hold.
pub open spec fn holds_number(
    a: Result<Seq<char>, Seq<char>>,
    pointer: Seq<char>,
    missing: Seq<char>,
    r: Result<u64, String>,
) -> bool {
    match a {
        Err(e) => r matches Err(x) && x@ == e,
        Ok(body) => match json_number(body, pointer) {
            Some(n) => r == Ok::<u64, String>(n),
            None => r matches Err(x) && x@ == missing,
        },
    }
}

/// What the answers about guilds come to.
pub open spec fn guild_concluded(api: Api, reply: Reply, found: Found, m: Msg) -> bool {
    let a = answer(api, reply);
    match api {
        Api::LoadGuilds => m matches Msg::Guild(
            GuildMsg::GuildsLoaded(r),
        ) && holds_value(a, guilds_in(found), true, r),
        Api::LoadGuild { .. } => m matches Msg::GuildAdmin(
            GuildAdminMsg::GuildSettingsLoaded(r),
        ) && holds_value(a, guild_in(found), true, r),
        Api::CreateGuild { .. } => m matches Msg::Guild(GuildMsg::GuildCreated(r)) && holds_number(
            a,
            "/guild_id"@,
            "missing guild_id"@,
            r,
        ),
        Api::JoinGuild { .. } => m matches Msg::Guild(GuildMsg::GuildJoined(r)) && is_done(a, r),
        Api::DeleteGuild { .. } => m matches Msg::Guild(GuildMsg::GuildDeleteResult(r)) && is_done(
            a,
            r,
        ),
        Api::CreateChannel { .. } => m matches Msg::Guild(GuildMsg::ChannelCreated(r)) && is_done(
            a,
            r,
        ),
        Api::CreateInvite { .. } => m matches Msg::Guild(GuildMsg::InviteResult(r)) && match a {
            Err(e) => r matches Err(x) && x@ == e,
            Ok(body) => match json_text(body, "/code"@) {
                Some(s) => r matches Ok(t) && t@ == s,
                None => r matches Err(x) && x@ == "missing invite code"@,
            },
        },
        Api::SetAdmin { .. } | Api::TransferOwner { .. } | Api::KickMember { .. } => m matches Msg::Guild(
            GuildMsg::GuildMemberAction(r),
        ) && is_done(a, r),
        _ => m matches Msg::GuildAdmin(GuildAdminMsg::GuildAdminAction(r)) && is_done(a, r),
    }
}

/// What the answers about stickers come to.
pub open spec fn sticker_concluded(api: Api, reply: Reply, found: Found, m: StickerMsg) -> bool {
    let a = answer(api, reply);
    match api {
        Api::LoadStickerPacks { .. } => m matches StickerMsg::StickersLoaded(r) && holds_value(a, packs_in(found), true, r),
        Api::CreateStickerPack { .. } => m matches StickerMsg::StickerPackCreated(r)
            && holds_number(a, "/id"@, "missing pack id"@, r),
        Api::StickerImage { sticker_id } => {
            &&& m matches StickerMsg::StickerImageFetched { sticker_id: s, result }
            &&& s == sticker_id
            &&& match a {
                Err(e) => result matches Err(x) && x@ == e,
                Ok(_) => result matches Ok(bytes) && match found {
                    Found::Bytes(b) => bytes == b,
                    _ => bytes@.len() == 0,
                },
            }
        },
        _ => m matches StickerMsg::StickerAction(r) && is_done(a, r),
    }
}

/// Which part of the client a request belongs to.
#[derive(Clone, Copy, Debug, PartialEq, Eq, Structural)]
pub enum Part {
    Auth,
    Conv,
    People,
    Guild,
    Sticker,
}

pub open spec fn part_of(api: Api) -> Part {
    match api {
        Api::Login { .. } | Api::Register { .. } | Api::LoginTwoFa { .. } | Api::Verify { .. }
        | Api::TwoFaSetup | Api::TwoFaEnable { .. } => Part::Auth,
        Api::LoadConversations | Api::LoadMessages { .. } | Api::MarkRead { .. }
        | Api::SendMessage { .. } | Api::EditMessage { .. } | Api::DeleteMessage { .. }
        | Api::CreateByHandle { .. } | Api::CreateConversation { .. } | Api::SearchUsers { .. }
        | Api::DeleteConversation { .. } => Part::Conv,
        Api::LoadProfile { .. } | Api::Moderate { .. } | Api::SaveSettings { .. }
        | Api::SetProfileVisible { .. } | Api::LoadSessions | Api::RevokeSession { .. }
        | Api::SetAvatar { .. } | Api::RemoveAvatar => Part::People,
        Api::LoadStickerPacks { .. } | Api::CreateStickerPack { .. } | Api::StickerImage { .. }
        | Api::UploadSticker { .. } | Api::DeleteSticker { .. } | Api::DeleteStickerPack { .. } =>
            Part::Sticker,
        _ => Part::Guild,
    }
}

/// What an answer comes to, where what was read out of it is what such an answer holds.
pub open spec fn concluded(api: Api, reply: Reply, found: Found, m: Msg) -> bool {
    match part_of(api) {
        Part::Auth => m matches Msg::Auth(x) && auth_concluded(api, reply, found, x),
        Part::Conv => conv_concluded(api, reply, found, m),
        Part::People => people_concluded(api, reply, found, m),
        Part::Guild => guild_concluded(api, reply, found, m),
        Part::Sticker => m matches Msg::Sticker(x) && sticker_concluded(api, reply, found, x),
    }
}

fn value<T>(
    reply: Result<String, String>,
    parsed: Option<Result<T, String>>,
    detailed: bool,
) -> (r: Result<T, String>)
    ensures
        match reply {
            Err(e) => r == Err::<T, String>(e),
            Ok(_) => match parsed {
                Some(Ok(t)) => r == Ok::<T, String>(t),
                Some(Err(why)) => r matches Err(x) && x@ == parse_error(why@, detailed),
                None => r matches Err(x) && x@ == "parse error"@,
            },
        },
{
    match reply {
        Err(e) => Err(e),
        Ok(_) => match parsed {
            Some(Ok(t)) => Ok(t),
            Some(Err(why)) => {
                if detailed {
                    Err(concat2("parse error: ", why.as_str()))
                } else {
                    Err(copy_text("parse error"))
                }
            },
            None => Err(copy_text("parse error")),
        },
    }
}

fn done(reply: Result<String, String>) -> (r: Result<(), String>)
    ensures
        match reply {
            Ok(_) => r is Ok,
            Err(e) => r == Err::<(), String>(e),
        },
{
    match reply {
        Ok(_) => Ok(()),
        Err(e) => Err(e),
    }
}

fn session_user(found: Found) -> (u: User)
    ensures
        is_session_user(found, u),
{
    match found {
        Found::Account(Ok(u)) => u,
        _ => blank_user(),
    }
}

fn read_account(found: Found) -> (r: Option<Result<User, String>>)
    ensures
        r == account_in(found),
{
    match found {
        Found::Account(p) => Some(p),
        _ => None,
    }
}

fn read_setup(found: Found) -> (r: Option<Result<TwoFaSetupInfo, String>>)
    ensures
        r == setup_in(found),
{
    match found {
        Found::Setup(p) => Some(p),
        _ => None,
    }
}

fn read_message(found: Found) -> (r: Option<Result<ApiMsg, String>>)
    ensures
        r == message_in(found),
{
    match found {
        Found::Message(p) => Some(p),
        _ => None,
    }
}

fn read_conversation(found: Found) -> (r: Option<Result<Conversation, String>>)
    ensures
        r == conversation_in(found),
{
    match found {
        Found::Conversation(p) => Some(p),
        _ => None,
    }
}

fn read_hits(found: Found) -> (r: Option<Result<Vec<SearchUser>, String>>)
    ensures
        r == hits_in(found),
{
    match found {
        Found::Hits(p) => Some(p),
        _ => None,
    }
}

fn read_card(found: Found) -> (r: Option<Result<Profile, String>>)
    ensures
        r == card_in(found),
{
    match found {
        Found::Card(p) => Some(p),
        _ => None,
    }
}

fn read_devices(found: Found) -> (r: Option<Result<Vec<SessionInfo>, String>>)
    ensures
        r == devices_in(found),
{
    match found {
        Found::Devices(p) => Some(p),
        _ => None,
    }
}

fn read_guilds(found: Found) -> (r: Option<Result<Vec<Guild>, String>>)
    ensures
        r == guilds_in(found),
{
    match found {
        Found::Guilds(p) => Some(p),
        _ => None,
    }
}

fn read_guild(found: Found) -> (r: Option<Result<Guild, String>>)
    ensures
        r == guild_in(found),
{
    match found {
        Found::Guild(p) => Some(p),
        _ => None,
    }
}

fn read_packs(found: Found) -> (r: Option<Result<Vec<StickerPack>, String>>)
    ensures
        r == packs_in(found),
{
    match found {
        Found::Packs(p) => Some(p),
        _ => None,
    }
}

fn conclude_auth(api: Api, reply: Reply, found: Found) -> (m: AuthMsg)
    ensures
        auth_concluded(api, reply, found, m),
{
    let settled = settle(&api, reply);
    match api {
        Api::Login { .. } => login_message(settled, session_user(found)),
        Api::Register { .. } => AuthMsg::RegisterResult(
            session_result(settled, session_user(found)),
        ),
        Api::LoginTwoFa { .. } => AuthMsg::TwoFaResult(
            session_result(settled, session_user(found)),
        ),
        Api::Verify { .. } => AuthMsg::VerifyResult(value(settled, read_account(found), false)),
        Api::TwoFaSetup => AuthMsg::TwoFaSetupResult(value(settled,read_setup(found), true)),
        _ => AuthMsg::TwoFaToggleResult(value(settled, read_account(found), true)),
    }
}

fn conclude_conv(api: Api, reply: Reply, found: Found) -> (m: Msg)
    ensures
        conv_concluded(api, reply, found, m),
{
    let settled = settle(&api, reply);
    match api {
        Api::LoadConversations => {
            let list = match found {
                Found::Conversations(cs) => cs,
                _ => Vec::new(),
            };
            Msg::Conv(ConvMsg::ConversationsLoaded(value(settled, Some(Ok(list)), false)))
        },
        Api::LoadMessages { conversation_id } => {
            let list = match found {
                Found::Messages(ms) => ms,
                _ => Vec::new(),
            };
            let messages = value(settled, Some(Ok(list)), false);
            Msg::Conv(ConvMsg::MessagesLoaded { conversation_id, messages })
        },
        Api::MarkRead { .. } => match settled {
            Ok(_) => Msg::Noop,
            Err(e) => Msg::Error(e),
        },
        Api::SendMessage { .. } => Msg::Conv(ConvMsg::MessageSent(value(settled,read_message(found), false))),
        Api::EditMessage { .. } => Msg::Conv(ConvMsg::EditResult(value(settled,read_message(found), false))),
        Api::DeleteMessage { message_id, .. } => match settled {
            Ok(_) => Msg::Conv(ConvMsg::DeleteResult(message_id)),
            Err(e) => Msg::Error(e),
        },
        Api::CreateByHandle { .. } => match settled {
            Err(e) => Msg::Error(e),
            Ok(_) => match found {
                Found::Conversation(Ok(_)) => Msg::Conv(
                    ConvMsg::ConversationsLoaded(Ok(Vec::new())),
                ),
                _ => Msg::Error(copy_text("parse error")),
            },
        },
        Api::CreateConversation { .. } => Msg::NewConv(NewConvMsg::NewConvCreated(value(settled,read_conversation(found), true))),
        Api::SearchUsers { .. } => Msg::NewConv(NewConvMsg::NewConvSearchResults(value(settled,read_hits(found), true))),
        _ => Msg::Conv(ConvMsg::DeleteConversationResult(done(settled))),
    }
}

fn conclude_people(api: Api, reply: Reply, found: Found) -> (m: Msg)
    ensures
        people_concluded(api, reply, found, m),
{
    let settled = settle(&api, reply);
    match api {
        Api::LoadProfile { .. } => match settled {
            Err(e) => Msg::Error(e),
            Ok(_) => match found {
                Found::Card(Ok(p)) => Msg::Profile(ProfileMsg::ProfileLoaded(p)),
                _ => Msg::Error(copy_text("parse error")),
            },
        },
        Api::Moderate { .. } => Msg::Profile(ProfileMsg::ModerationResult(value(settled,read_card(found), true))),
        Api::SaveSettings { .. } | Api::SetProfileVisible { .. } => Msg::Profile(
            ProfileMsg::SettingsResult(value(settled, read_account(found), false)),
        ),
        Api::LoadSessions => Msg::Profile(ProfileMsg::SessionsLoaded(value(settled,read_devices(found), true))),
        Api::RevokeSession { .. } => Msg::Profile(ProfileMsg::SessionRevoked(done(settled))),
        _ => Msg::Profile(ProfileMsg::AvatarSaved(value(settled, read_account(found), false))),
    }
}

fn conclude_guild(api: Api, reply: Reply, found: Found) -> (m: Msg)
    ensures
        guild_concluded(api, reply, found, m),
{
    let settled = settle(&api, reply);
    match api {
        Api::LoadGuilds => Msg::Guild(GuildMsg::GuildsLoaded(value(settled,read_guilds(found), true))),
        Api::LoadGuild { .. } => Msg::GuildAdmin(GuildAdminMsg::GuildSettingsLoaded(value(settled,read_guild(found), true))),
        Api::CreateGuild { .. } => Msg::Guild(
            GuildMsg::GuildCreated(number_result(settled, "/guild_id", "missing guild_id")),
        ),
        Api::JoinGuild { .. } => Msg::Guild(GuildMsg::GuildJoined(done(settled))),
        Api::DeleteGuild { .. } => Msg::Guild(GuildMsg::GuildDeleteResult(done(settled))),
        Api::CreateChannel { .. } => Msg::Guild(GuildMsg::ChannelCreated(done(settled))),
        Api::CreateInvite { .. } => Msg::Guild(
            GuildMsg::InviteResult(text_result(settled, "/code", "missing invite code")),
        ),
        Api::SetAdmin { .. } | Api::TransferOwner { .. } | Api::KickMember { .. } => Msg::Guild(
            GuildMsg::GuildMemberAction(done(settled)),
        ),
        _ => Msg::GuildAdmin(GuildAdminMsg::GuildAdminAction(done(settled))),
    }
}

fn conclude_sticker(api: Api, reply: Reply, found: Found) -> (m: StickerMsg)
    ensures
        sticker_concluded(api, reply, found, m),
{
    let settled = settle(&api, reply);
    match api {
        Api::LoadStickerPacks { .. } => StickerMsg::StickersLoaded(value(settled,read_packs(found), true)),
        Api::CreateStickerPack { .. } => StickerMsg::StickerPackCreated(
            number_result(settled, "/id", "missing pack id"),
        ),
        Api::StickerImage { sticker_id } => {
            let bytes = match found {
                Found::Bytes(b) => b,
                _ => Vec::new(),
            };
            StickerMsg::StickerImageFetched { sticker_id, result: value(settled, Some(Ok(bytes)), false) }
        },
        _ => StickerMsg::StickerAction(done(settled)),
    }
}

fn part(api: &Api) -> (p: Part)
    ensures
        p == part_of(*api),
{
    match api {
        Api::Login { .. } | Api::Register { .. } | Api::LoginTwoFa { .. } | Api::Verify { .. }
        | Api::TwoFaSetup | Api::TwoFaEnable { .. } => Part::Auth,
        Api::LoadConversations | Api::LoadMessages { .. } | Api::MarkRead { .. }
        | Api::SendMessage { .. } | Api::EditMessage { .. } | Api::DeleteMessage { .. }
        | Api::CreateByHandle { .. } | Api::CreateConversation { .. } | Api::SearchUsers { .. }
        | Api::DeleteConversation { .. } => Part::Conv,
        Api::LoadProfile { .. } | Api::Moderate { .. } | Api::SaveSettings { .. }
        | Api::SetProfileVisible { .. } | Api::LoadSessions | Api::RevokeSession { .. }
        | Api::SetAvatar { .. } | Api::RemoveAvatar => Part::People,
        Api::LoadStickerPacks { .. } | Api::CreateStickerPack { .. } | Api::StickerImage { .. }
        | Api::UploadSticker { .. } | Api::DeleteSticker { .. } | Api::DeleteStickerPack { .. } =>
            Part::Sticker,
        _ => Part::Guild,
    }
}

/// The message that an answer is handled as. `found` is what was read out of it.
pub fn conclude(api: Api, reply: Reply, found: Found) -> (m: Msg)
    ensures
        concluded(api, reply, found, m),
{
    match part(&api) {
        Part::Auth => Msg::Auth(conclude_auth(api, reply, found)),
        Part::Conv => conclude_conv(api, reply, found),
        Part::People => conclude_people(api, reply, found),
        Part::Guild => conclude_guild(api, reply, found),
        Part::Sticker => Msg::Sticker(conclude_sticker(api, reply, found)),
    }
}

/// A request whose session the server does not take any more ends in the mark for that, whichever
/// request it was, but for those that need no session of their own.
pub proof fn refused_sessions_are_marked(api: Api, status: String, body: String)
    requires
        !(api is Login || api is Register || api is LoginTwoFa || api is Verify
            || api is CreateByHandle),
    ensures
        answer(api, Reply::Answer { code: 401, status, body }) == Err::<Seq<char>, Seq<char>>(
            "__auth_failed__"@,
        ),
{
}

} // verus!
