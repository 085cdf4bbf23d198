//! The requests that the client sends, and what their answers come to.

use vstd::prelude::*;
use vstd::utf8::encode_utf8;

use crate::chat::action::{Api, SentFile};
use crate::chat::msg::AuthMsg;
use crate::chat::new_conv::copy_ids;
use crate::chat::types::User;
use crate::frames::holds_session;
use crate::data_url::{base64_encode, base64_text, form_encode, form_encoded};
use crate::json::{
    json_flag, json_flag_at, json_number, json_number_at, json_text, json_text_at, json_text_or,
    text_or,
};
use crate::links::{is_link, is_web_link};
use crate::number::{decimal, u64_text};
use crate::text::{
    concat2, concat3, concat4, concat5, copy_text, texts, trim, trim_back_char, trim_end_char, trim_text,
};

verus! {

/// The server as the login form takes it: an address without a scheme is reached by `https`.
pub open spec fn normalized(input: Seq<char>) -> Seq<char> {
    let s = trim(input);
    if is_web_link(s) {
        trim_back_char(s, '/')
    } else {
        "https://"@ + s
    }
}

pub fn normalize_server(input: &str) -> (r: String)
    ensures
        r@ == normalized(input@),
{
    let s = trim_text(input);
    if is_link(s.as_str()) {
        trim_end_char(s.as_str(), '/')
    } else {
        concat2("https://", s.as_str())
    }
}

#[derive(Clone, Copy, Debug, PartialEq, Eq, Structural)]
pub enum Method {
    Get,
    Post,
    Patch,
    Delete,
}

/// A value in the body of a request.
pub enum Field {
    Text(String),
    Texts(Vec<String>),
    Number(u64),
    Ids(Vec<u64>),
    Flag(bool),
}

/// What a value in the body of a request says.
pub enum FieldModel {
    Text(Seq<char>),
    Texts(Seq<Seq<char>>),
    Number(u64),
    Ids(Seq<u64>),
    Flag(bool),
}

impl View for Field {
    type V = FieldModel;

    open spec fn view(&self) -> FieldModel {
        match *self {
            Field::Text(s) => FieldModel::Text(s@),
            Field::Texts(v) => FieldModel::Texts(v@.map_values(|s: String| s@)),
            Field::Number(n) => FieldModel::Number(n),
            Field::Ids(v) => FieldModel::Ids(v@),
            Field::Flag(b) => FieldModel::Flag(b),
        }
    }
}

/// A request, ready to be sent. The body is a JSON object of the named fields.
pub struct Request {
    pub method: Method,
    pub url: String,
    pub bearer: Option<String>,
    pub body: Option<Vec<(String, Field)>>,
}

pub open spec fn fields(body: Seq<(String, Field)>) -> Seq<(Seq<char>, FieldModel)> {
    body.map_values(|x: (String, Field)| (x.0@, x.1@))
}

pub open spec fn method_of(api: Api) -> Method {
    match api {
        Api::LoadConversations => Method::Get,
        Api::LoadMessages { .. } => Method::Get,
        Api::SearchUsers { .. } => Method::Get,
        Api::LoadProfile { .. } => Method::Get,
        Api::LoadSessions => Method::Get,
        Api::LoadGuilds => Method::Get,
        Api::LoadGuild { .. } => Method::Get,
        Api::LoadStickerPacks { .. } => Method::Get,
        Api::StickerImage { .. } => Method::Get,
        Api::EditMessage { .. } => Method::Patch,
        Api::SaveSettings { .. } => Method::Patch,
        Api::SetProfileVisible { .. } => Method::Patch,
        Api::RenameChannel { .. } => Method::Patch,
        Api::DeleteMessage { .. } => Method::Delete,
        Api::DeleteConversation { .. } => Method::Delete,
        Api::RevokeSession { .. } => Method::Delete,
        Api::DeleteGuild { .. } => Method::Delete,
        Api::DeleteChannel { .. } => Method::Delete,
        Api::UnbanMember { .. } => Method::Delete,
        Api::DeleteRole { .. } => Method::Delete,
        Api::DeleteSticker { .. } => Method::Delete,
        Api::DeleteStickerPack { .. } => Method::Delete,
        _ => Method::Post,
    }
}

/// The requests that make a session need none.
pub open spec fn needs_session(api: Api) -> bool {
    !(api is Login || api is Register || api is LoginTwoFa)
}

/// The path of a request, behind the address of the server.
pub open spec fn path_of(api: Api) -> Seq<char> {
    match api {
        Api::Login { .. } => "/api/login"@,
        Api::Register { .. } => "/api/register"@,
        Api::LoginTwoFa { .. } => "/api/login/2fa"@,
        Api::Verify { .. } => "/api/verify"@,
        Api::TwoFaSetup => "/api/me/2fa/setup"@,
        Api::TwoFaEnable { .. } => "/api/me/2fa/enable"@,
        Api::LoadConversations => "/api/conversations"@,
        Api::LoadMessages { conversation_id } => "/api/conversations/"@ + decimal(conversation_id as nat) + "/messages"@,
        Api::MarkRead { conversation_id, .. } => "/api/conversations/"@ + decimal(conversation_id as nat) + "/read"@,
        Api::SendMessage { conversation_id, .. } => "/api/conversations/"@ + decimal(conversation_id as nat) + "/messages"@,
        Api::EditMessage { conversation_id, message_id, .. } => "/api/conversations/"@ + decimal(conversation_id as nat) + "/messages/"@ + decimal(message_id as nat),
        Api::DeleteMessage { conversation_id, message_id } => "/api/conversations/"@ + decimal(conversation_id as nat) + "/messages/"@ + decimal(message_id as nat),
        Api::CreateByHandle { .. } => "/api/conversations"@,
        Api::CreateConversation { .. } => "/api/conversations"@,
        Api::DeleteConversation { conversation_id } => "/api/conversations/"@ + decimal(conversation_id as nat),
        Api::SearchUsers { query } => "/api/users/search?q="@ + form_encoded(encode_utf8(query@)),
        Api::LoadProfile { user_id } => "/api/users/"@ + decimal(user_id as nat),
        Api::Moderate { user_id, verb } => "/api/users/"@ + decimal(user_id as nat) + "/"@ + verb@,
        Api::SaveSettings { .. } => "/api/me"@,
        Api::SetProfileVisible { .. } => "/api/me"@,
        Api::SetAvatar { .. } => "/api/me/avatar"@,
        Api::RemoveAvatar => "/api/me/avatar"@,
        Api::LoadSessions => "/api/me/sessions"@,
        Api::RevokeSession { session_id } => "/api/me/sessions/"@ + decimal(session_id as nat),
        Api::LoadGuilds => "/api/servers"@,
        Api::LoadGuild { guild_id } => "/api/servers/"@ + decimal(guild_id as nat),
        Api::CreateGuild { .. } => "/api/servers"@,
        Api::JoinGuild { .. } => "/api/servers/join"@,
        Api::DeleteGuild { guild_id } => "/api/servers/"@ + decimal(guild_id as nat),
        Api::CreateChannel { guild_id, .. } => "/api/servers/"@ + decimal(guild_id as nat) + "/channels"@,
        Api::RenameChannel { guild_id, channel_id, .. } => "/api/servers/"@ + decimal(guild_id as nat) + "/channels/"@ + decimal(channel_id as nat),
        Api::DeleteChannel { guild_id, channel_id } => "/api/servers/"@ + decimal(guild_id as nat) + "/channels/"@ + decimal(channel_id as nat),
        Api::CreateInvite { guild_id } => "/api/servers/"@ + decimal(guild_id as nat) + "/invite"@,
        Api::SetAdmin { guild_id, .. } => "/api/servers/"@ + decimal(guild_id as nat) + "/role"@,
        Api::TransferOwner { guild_id, .. } => "/api/servers/"@ + decimal(guild_id as nat) + "/transfer"@,
        Api::KickMember { guild_id, .. } => "/api/servers/"@ + decimal(guild_id as nat) + "/kick"@,
        Api::BanMember { guild_id, .. } => "/api/servers/"@ + decimal(guild_id as nat) + "/bans"@,
        Api::UnbanMember { guild_id, user_id } => "/api/servers/"@ + decimal(guild_id as nat) + "/bans/"@ + decimal(user_id as nat),
        Api::CreateRole { guild_id, .. } => "/api/servers/"@ + decimal(guild_id as nat) + "/roles"@,
        Api::DeleteRole { guild_id, role_id } => "/api/servers/"@ + decimal(guild_id as nat) + "/roles/"@ + decimal(role_id as nat),
        Api::AssignRole { guild_id, role_id, .. } => "/api/servers/"@ + decimal(guild_id as nat) + "/roles/"@ + decimal(role_id as nat) + "/assign"@,
        Api::LoadStickerPacks { query } => if query@.len() == 0 {
            "/api/stickers"@
        } else {
            "/api/stickers?q="@ + form_encoded(encode_utf8(query@))
        },
        Api::CreateStickerPack { .. } => "/api/stickers/packs"@,
        Api::StickerImage { sticker_id } => "/api/stickers/"@ + decimal(sticker_id as nat) + "/image"@,
        Api::UploadSticker { pack_id, .. } => "/api/stickers/packs/"@ + decimal(pack_id as nat) + "/stickers"@,
        Api::DeleteSticker { pack_id, sticker_id } => "/api/stickers/packs/"@ + decimal(pack_id as nat) + "/stickers/"@ + decimal(sticker_id as nat),
        Api::DeleteStickerPack { pack_id } => "/api/stickers/packs/"@ + decimal(pack_id as nat),
    }
}

pub open spec fn text_field(name: Seq<char>, s: Seq<char>) -> (Seq<char>, FieldModel) {
    (name, FieldModel::Text(s))
}

/// What a message says of its file; a small picture is left out where there is none.
pub open spec fn file_fields(f: SentFile) -> Seq<(Seq<char>, FieldModel)> {
    let main = seq![
        text_field("attachment_mime"@, f.mime@),
        text_field("attachment_name"@, f.name@),
        text_field("file_id"@, f.file_id@),
        ("file_size"@, FieldModel::Number(f.file_size)),
    ];
    if f.thumbnail@.len() > 0 {
        main.push(text_field("thumbnail_data"@, f.thumbnail@))
    } else {
        main
    }
}

/// The body of a request.
pub open spec fn body_of(api: Api) -> Option<Seq<(Seq<char>, FieldModel)>> {
    match api {
        Api::Login { email, password, remember_me } => Some(seq![text_field("email"@, email@), text_field("password"@, password@), ("remember_me"@, FieldModel::Flag(remember_me))]),
        Api::Register { email, username, password, birthdate } => Some(seq![text_field("email"@, email@), text_field("username"@, username@), text_field("password"@, password@), text_field("birthdate"@, birthdate@)]),
        Api::LoginTwoFa { pending_token, code, remember_me } => Some(seq![text_field("pending_token"@, pending_token@), text_field("code"@, code@), ("remember_me"@, FieldModel::Flag(remember_me))]),
        Api::Verify { code } => Some(seq![text_field("code"@, code@)]),
        Api::TwoFaEnable { code } => Some(seq![text_field("code"@, code@)]),
        Api::MarkRead { message_id, .. } => Some(seq![("message_id"@, FieldModel::Number(message_id))]),
        Api::SendMessage { body, file, .. } => {
            let text = seq![text_field("body"@, body@)];
            match file {
                Some(f) => Some(text + file_fields(f)),
                None => Some(text),
            }
        },
        Api::EditMessage { body, .. } => Some(seq![text_field("body"@, body@)]),
        Api::CreateByHandle { handle } => Some(seq![("handles"@, FieldModel::Texts(seq![handle@]))]),
        Api::CreateConversation { kind, member_ids } => Some(seq![("member_ids"@, FieldModel::Ids(member_ids@)), text_field("kind"@, kind@)]),
        Api::SaveSettings { display_name, bio, profile_visible } => Some(seq![text_field("display_name"@, display_name@), text_field("bio"@, bio@), ("profile_visible"@, FieldModel::Flag(profile_visible))]),
        Api::SetProfileVisible { visible } => Some(seq![("profile_visible"@, FieldModel::Flag(visible))]),
        Api::SetAvatar { data_url } => Some(seq![text_field("avatar"@, data_url@)]),
        Api::RemoveAvatar => Some(seq![text_field("avatar"@, Seq::empty())]),
        Api::CreateGuild { name } => Some(seq![text_field("name"@, name@)]),
        Api::JoinGuild { code } => Some(seq![text_field("code"@, code@)]),
        Api::CreateChannel { name, channel_type, .. } => Some(seq![text_field("name"@, name@), text_field("channel_type"@, channel_type@)]),
        Api::RenameChannel { name, .. } => Some(seq![text_field("name"@, name@)]),
        Api::SetAdmin { user_id, is_admin, .. } => Some(seq![("user_id"@, FieldModel::Number(user_id)), ("is_admin"@, FieldModel::Flag(is_admin))]),
        Api::TransferOwner { user_id, .. } => Some(seq![("user_id"@, FieldModel::Number(user_id))]),
        Api::KickMember { user_id, .. } => Some(seq![("user_id"@, FieldModel::Number(user_id))]),
        Api::BanMember { user_id, .. } => Some(seq![("user_id"@, FieldModel::Number(user_id))]),
        Api::CreateRole { name, .. } => Some(seq![text_field("name"@, name@)]),
        Api::AssignRole { user_id, on, .. } => Some(seq![("user_id"@, FieldModel::Number(user_id)), ("on"@, FieldModel::Flag(on))]),
        Api::CreateStickerPack { name } => Some(seq![text_field("name"@, name@)]),
        Api::UploadSticker { name, mime, bytes, .. } => Some(seq![text_field("name"@, name@), text_field("data"@, base64_text(bytes@)), text_field("mime"@, mime@)]),
        _ => None,
    }
}

/// The address that a request goes to. The login form may leave the scheme out.
pub open spec fn base_of(server: Seq<char>, api: Api) -> Seq<char> {
    if api is Login {
        normalized(server)
    } else {
        server
    }
}

/// A request says what the call says.
pub open spec fn is_request(server: Seq<char>, token: Seq<char>, api: Api, r: Request) -> bool {
    &&& r.method == method_of(api)
    &&& r.url@ == base_of(server, api) + path_of(api)
    &&& match r.bearer {
        Some(t) => needs_session(api) && t@ == token,
        None => !needs_session(api),
    }
    &&& match (r.body, body_of(api)) {
        (Some(b), Some(m)) => fields(b@) == m,
        (None, None) => true,
        _ => false,
    }
}

fn method_for(api: &Api) -> (m: Method)
    ensures
        m == method_of(*api),
{
    match api {
        Api::LoadConversations => Method::Get,
        Api::LoadMessages { .. } => Method::Get,
        Api::SearchUsers { .. } => Method::Get,
        Api::LoadProfile { .. } => Method::Get,
        Api::LoadSessions => Method::Get,
        Api::LoadGuilds => Method::Get,
        Api::LoadGuild { .. } => Method::Get,
        Api::LoadStickerPacks { .. } => Method::Get,
        Api::StickerImage { .. } => Method::Get,
        Api::EditMessage { .. } => Method::Patch,
        Api::SaveSettings { .. } => Method::Patch,
        Api::SetProfileVisible { .. } => Method::Patch,
        Api::RenameChannel { .. } => Method::Patch,
        Api::DeleteMessage { .. } => Method::Delete,
        Api::DeleteConversation { .. } => Method::Delete,
        Api::RevokeSession { .. } => Method::Delete,
        Api::DeleteGuild { .. } => Method::Delete,
        Api::DeleteChannel { .. } => Method::Delete,
        Api::UnbanMember { .. } => Method::Delete,
        Api::DeleteRole { .. } => Method::Delete,
        Api::DeleteSticker { .. } => Method::Delete,
        Api::DeleteStickerPack { .. } => Method::Delete,
        _ => Method::Post,
    }
}

fn path_for(api: &Api) -> (r: String)
    ensures
        r@ == path_of(*api),
{
    match api {
        Api::Login { .. } => copy_text("/api/login"),
        Api::Register { .. } => copy_text("/api/register"),
        Api::LoginTwoFa { .. } => copy_text("/api/login/2fa"),
        Api::Verify { .. } => copy_text("/api/verify"),
        Api::TwoFaSetup => copy_text("/api/me/2fa/setup"),
        Api::TwoFaEnable { .. } => copy_text("/api/me/2fa/enable"),
        Api::LoadConversations => copy_text("/api/conversations"),
        Api::LoadMessages { conversation_id } => concat3("/api/conversations/", u64_text(*conversation_id).as_str(), "/messages"),
        Api::MarkRead { conversation_id, .. } => concat3("/api/conversations/", u64_text(*conversation_id).as_str(), "/read"),
        Api::SendMessage { conversation_id, .. } => concat3("/api/conversations/", u64_text(*conversation_id).as_str(), "/messages"),
        Api::EditMessage { conversation_id, message_id, .. } => concat4("/api/conversations/", u64_text(*conversation_id).as_str(), "/messages/", u64_text(*message_id).as_str()),
        Api::DeleteMessage { conversation_id, message_id } => concat4("/api/conversations/", u64_text(*conversation_id).as_str(), "/messages/", u64_text(*message_id).as_str()),
        Api::CreateByHandle { .. } => copy_text("/api/conversations"),
        Api::CreateConversation { .. } => copy_text("/api/conversations"),
        Api::DeleteConversation { conversation_id } => concat2("/api/conversations/", u64_text(*conversation_id).as_str()),
        Api::SearchUsers { query } => concat2("/api/users/search?q=", form_encode(query.as_str()).as_str()),
        Api::LoadProfile { user_id } => concat2("/api/users/", u64_text(*user_id).as_str()),
        Api::Moderate { user_id, verb } => concat4("/api/users/", u64_text(*user_id).as_str(), "/", verb.as_str()),
        Api::SaveSettings { .. } => copy_text("/api/me"),
        Api::SetProfileVisible { .. } => copy_text("/api/me"),
        Api::SetAvatar { .. } => copy_text("/api/me/avatar"),
        Api::RemoveAvatar => copy_text("/api/me/avatar"),
        Api::LoadSessions => copy_text("/api/me/sessions"),
        Api::RevokeSession { session_id } => concat2("/api/me/sessions/", u64_text(*session_id).as_str()),
        Api::LoadGuilds => copy_text("/api/servers"),
        Api::LoadGuild { guild_id } => concat2("/api/servers/", u64_text(*guild_id).as_str()),
        Api::CreateGuild { .. } => copy_text("/api/servers"),
        Api::JoinGuild { .. } => copy_text("/api/servers/join"),
        Api::DeleteGuild { guild_id } => concat2("/api/servers/", u64_text(*guild_id).as_str()),
        Api::CreateChannel { guild_id, .. } => concat3("/api/servers/", u64_text(*guild_id).as_str(), "/channels"),
        Api::RenameChannel { guild_id, channel_id, .. } => concat4("/api/servers/", u64_text(*guild_id).as_str(), "/channels/", u64_text(*channel_id).as_str()),
        Api::DeleteChannel { guild_id, channel_id } => concat4("/api/servers/", u64_text(*guild_id).as_str(), "/channels/", u64_text(*channel_id).as_str()),
        Api::CreateInvite { guild_id } => concat3("/api/servers/", u64_text(*guild_id).as_str(), "/invite"),
        Api::SetAdmin { guild_id, .. } => concat3("/api/servers/", u64_text(*guild_id).as_str(), "/role"),
        Api::TransferOwner { guild_id, .. } => concat3("/api/servers/", u64_text(*guild_id).as_str(), "/transfer"),
        Api::KickMember { guild_id, .. } => concat3("/api/servers/", u64_text(*guild_id).as_str(), "/kick"),
        Api::BanMember { guild_id, .. } => concat3("/api/servers/", u64_text(*guild_id).as_str(), "/bans"),
        Api::UnbanMember { guild_id, user_id } => concat4("/api/servers/", u64_text(*guild_id).as_str(), "/bans/", u64_text(*user_id).as_str()),
        Api::CreateRole { guild_id, .. } => concat3("/api/servers/", u64_text(*guild_id).as_str(), "/roles"),
        Api::DeleteRole { guild_id, role_id } => concat4("/api/servers/", u64_text(*guild_id).as_str(), "/roles/", u64_text(*role_id).as_str()),
        Api::AssignRole { guild_id, role_id, .. } => concat5("/api/servers/", u64_text(*guild_id).as_str(), "/roles/", u64_text(*role_id).as_str(), "/assign"),
        Api::LoadStickerPacks { query } => {
            if query.as_str().is_empty() {
                copy_text("/api/stickers")
            } else {
                concat2("/api/stickers?q=", form_encode(query.as_str()).as_str())
            }
        },
        Api::CreateStickerPack { .. } => copy_text("/api/stickers/packs"),
        Api::StickerImage { sticker_id } => concat3("/api/stickers/", u64_text(*sticker_id).as_str(), "/image"),
        Api::UploadSticker { pack_id, .. } => concat3("/api/stickers/packs/", u64_text(*pack_id).as_str(), "/stickers"),
        Api::DeleteSticker { pack_id, sticker_id } => concat4("/api/stickers/packs/", u64_text(*pack_id).as_str(), "/stickers/", u64_text(*sticker_id).as_str()),
        Api::DeleteStickerPack { pack_id } => concat2("/api/stickers/packs/", u64_text(*pack_id).as_str()),
    }
}

/// Adds a field to a body.
pub fn put(body: &mut Vec<(String, Field)>, name: &str, f: Field)
    ensures
        fields(final(body)@) == fields(old(body)@).push((name@, f@)),
{
    body.push((copy_text(name), f));
    proof {
        assert(fields(body@) =~= fields(old(body)@).push((name@, f@)));
    }
}

pub fn put_text(body: &mut Vec<(String, Field)>, name: &str, s: &str)
    ensures
        fields(final(body)@) == fields(old(body)@).push(text_field(name@, s@)),
{
    put(body, name, Field::Text(copy_text(s)));
}

pub fn put_file(body: &mut Vec<(String, Field)>, f: &SentFile)
    ensures
        fields(final(body)@) == fields(old(body)@) + file_fields(*f),
{
    put_text(body, "attachment_mime", f.mime.as_str());
    put_text(body, "attachment_name", f.name.as_str());
    put_text(body, "file_id", f.file_id.as_str());
    put(body, "file_size", Field::Number(f.file_size));
    if !f.thumbnail.as_str().is_empty() {
        put_text(body, "thumbnail_data", f.thumbnail.as_str());
    }
    proof {
        assert(fields(body@) =~= fields(old(body)@) + file_fields(*f));
    }
}

pub fn field_texts(list: &Vec<String>) -> (f: Field)
    ensures
        f@ == FieldModel::Texts(texts(list@)),
{
    let mut v: Vec<String> = Vec::new();
    let mut i: usize = 0;
    while i < list.len()
        invariant
            i <= list.len(),
            v.len() == i,
            forall|j: int| 0 <= j < i ==> (#[trigger] v@[j])@ == list@[j]@,
        decreases list.len() - i,
    {
        v.push(list[i].clone());
        i += 1;
    }
    proof {
        assert(v@.map_values(|s: String| s@) =~= texts(list@));
    }
    Field::Texts(v)
}

fn one_text(s: &str) -> (f: Field)
    ensures
        f@ == FieldModel::Texts(seq![s@]),
{
    let mut v: Vec<String> = Vec::new();
    v.push(copy_text(s));
    proof {
        assert(v@.map_values(|s: String| s@) =~= seq![s@]);
    }
    Field::Texts(v)
}

/// The fields of the body that a call carries.
fn body_for(api: &Api) -> (r: Option<Vec<(String, Field)>>)
    ensures
        match (r, body_of(*api)) {
            (Some(b), Some(m)) => fields(b@) == m,
            (None, None) => true,
            _ => false,
        },
{
    let mut b: Vec<(String, Field)> = Vec::new();
    proof {
        assert(fields(b@) =~= Seq::empty());
    }
    match api {
        Api::Login { email, password, remember_me } => {
            put_text(&mut b, "email", email.as_str());
            put_text(&mut b, "password", password.as_str());
            put(&mut b, "remember_me", Field::Flag(*remember_me));
        },
        Api::Register { email, username, password, birthdate } => {
            put_text(&mut b, "email", email.as_str());
            put_text(&mut b, "username", username.as_str());
            put_text(&mut b, "password", password.as_str());
            put_text(&mut b, "birthdate", birthdate.as_str());
        },
        Api::LoginTwoFa { pending_token, code, remember_me } => {
            put_text(&mut b, "pending_token", pending_token.as_str());
            put_text(&mut b, "code", code.as_str());
            put(&mut b, "remember_me", Field::Flag(*remember_me));
        },
        Api::Verify { code } => {
            put_text(&mut b, "code", code.as_str());
        },
        Api::TwoFaEnable { code } => {
            put_text(&mut b, "code", code.as_str());
        },
        Api::MarkRead { message_id, .. } => {
            put(&mut b, "message_id", Field::Number(*message_id));
        },
        Api::SendMessage { body, file, .. } => {
            put_text(&mut b, "body", body.as_str());
            match file {
                Some(f) => put_file(&mut b, f),
                None => {},
            }
        },
        Api::EditMessage { body, .. } => {
            put_text(&mut b, "body", body.as_str());
        },
        Api::CreateByHandle { handle } => {
            put(&mut b, "handles", one_text(handle.as_str()));
        },
        Api::CreateConversation { kind, member_ids } => {
            put(&mut b, "member_ids", Field::Ids(copy_ids(member_ids)));
            put_text(&mut b, "kind", kind.as_str());
        },
        Api::SaveSettings { display_name, bio, profile_visible } => {
            put_text(&mut b, "display_name", display_name.as_str());
            put_text(&mut b, "bio", bio.as_str());
            put(&mut b, "profile_visible", Field::Flag(*profile_visible));
        },
        Api::SetProfileVisible { visible } => {
            put(&mut b, "profile_visible", Field::Flag(*visible));
        },
        Api::SetAvatar { data_url } => {
            put_text(&mut b, "avatar", data_url.as_str());
        },
        Api::RemoveAvatar => {
            put(&mut b, "avatar", Field::Text(String::new()));
        },
        Api::CreateGuild { name } => {
            put_text(&mut b, "name", name.as_str());
        },
        Api::JoinGuild { code } => {
            put_text(&mut b, "code", code.as_str());
        },
        Api::CreateChannel { name, channel_type, .. } => {
            put_text(&mut b, "name", name.as_str());
            put_text(&mut b, "channel_type", channel_type.as_str());
        },
        Api::RenameChannel { name, .. } => {
            put_text(&mut b, "name", name.as_str());
        },
        Api::SetAdmin { user_id, is_admin, .. } => {
            put(&mut b, "user_id", Field::Number(*user_id));
            put(&mut b, "is_admin", Field::Flag(*is_admin));
        },
        Api::TransferOwner { user_id, .. } => {
            put(&mut b, "user_id", Field::Number(*user_id));
        },
        Api::KickMember { user_id, .. } => {
            put(&mut b, "user_id", Field::Number(*user_id));
        },
        Api::BanMember { user_id, .. } => {
            put(&mut b, "user_id", Field::Number(*user_id));
        },
        Api::CreateRole { name, .. } => {
            put_text(&mut b, "name", name.as_str());
        },
        Api::AssignRole { user_id, on, .. } => {
            put(&mut b, "user_id", Field::Number(*user_id));
            put(&mut b, "on", Field::Flag(*on));
        },
        Api::CreateStickerPack { name } => {
            put_text(&mut b, "name", name.as_str());
        },
        Api::UploadSticker { name, mime, bytes, .. } => {
            put_text(&mut b, "name", name.as_str());
            put_text(&mut b, "data", base64_encode(bytes).as_str());
            put_text(&mut b, "mime", mime.as_str());
        },
        _ => return None,
    }
    proof {
        let m = body_of(*api)->0;
        assert(fields(b@) =~= m);
    }
    Some(b)
}

fn session_needed(api: &Api) -> (b: bool)
    ensures
        b == needs_session(*api),
{
    match api {
        Api::Login { .. } | Api::Register { .. } | Api::LoginTwoFa { .. } => false,
        _ => true,
    }
}

/// The request of a call, to `server` and in the name of `token`.
pub fn request(server: &str, token: &str, api: &Api) -> (r: Request)
    ensures
        is_request(server@, token@, *api, r),
{
    let base = match api {
        Api::Login { .. } => normalize_server(server),
        _ => copy_text(server),
    };
    let path = path_for(api);
    let bearer = if session_needed(api) {
        Some(copy_text(token))
    } else {
        None
    };
    Request {
        method: method_for(api),
        url: concat2(base.as_str(), path.as_str()),
        bearer,
        body: body_for(api),
    }
}

// ---------------------------------------------------------------------------
// Answers
// ---------------------------------------------------------------------------

/// How a request went: it got lost, or the server answered with a status and a text.
pub enum Reply {
    Lost(String),
    Answer { code: u16, status: String, body: String },
}

/// Asks whose session a token is.
pub fn session_request(server: &str, token: &str) -> (r: Request)
    ensures
        r.method == Method::Get,
        r.url@ == server@ + "/api/me"@,
        r.bearer matches Some(t) && t@ == token@,
        r.body is None,
{
    Request {
        method: Method::Get,
        url: concat2(server, "/api/me"),
        bearer: Some(copy_text(token)),
        body: None,
    }
}

pub open spec fn is_success(code: u16) -> bool {
    200 <= code <= 299
}

/// What is shown of an answer that is no success: for most requests its status, where status 401
/// means that the session is not valid any more.
pub open spec fn failure_text(api: Api, code: u16, status: Seq<char>, body: Seq<char>) -> Seq<char> {
    match api {
        Api::Login { .. } => "login failed: "@ + body,
        Api::LoginTwoFa { .. } => "2fa failed: "@ + body,
        Api::CreateByHandle { .. } => "create failed: "@ + body,
        Api::Register { .. } => "register failed: "@ + status,
        Api::Verify { .. } => "verify failed: "@ + status,
        _ => if code == 401 {
            "__auth_failed__"@
        } else {
            "request failed: "@ + status
        },
    }
}

/// What an answer comes to: a success has a text, anything else an error.
pub open spec fn answer(api: Api, reply: Reply) -> Result<Seq<char>, Seq<char>> {
    match reply {
        Reply::Lost(e) => Err(e@),
        Reply::Answer { code, status, body } => if is_success(code) {
            Ok(body@)
        } else {
            Err(failure_text(api, code, status@, body@))
        },
    }
}

/// Classifies the answer to a request.
pub fn settle(api: &Api, reply: Reply) -> (r: Result<String, String>)
    ensures
        match r {
            Ok(b) => answer(*api, reply) == Ok::<Seq<char>, Seq<char>>(b@),
            Err(e) => answer(*api, reply) == Err::<Seq<char>, Seq<char>>(e@),
        },
{
    match reply {
        Reply::Lost(e) => Err(e),
        Reply::Answer { code, status, body } => {
            if 200 <= code && code <= 299 {
                return Ok(body);
            }
            match api {
                Api::Login { .. } => Err(concat2("login failed: ", body.as_str())),
                Api::LoginTwoFa { .. } => Err(concat2("2fa failed: ", body.as_str())),
                Api::CreateByHandle { .. } => Err(concat2("create failed: ", body.as_str())),
                Api::Register { .. } => Err(concat2("register failed: ", status.as_str())),
                Api::Verify { .. } => Err(concat2("verify failed: ", status.as_str())),
                _ => if code == 401 {
                    Err(copy_text("__auth_failed__"))
                } else {
                    Err(concat2("request failed: ", status.as_str()))
                },
            }
        },
    }
}

/// What a login comes to. `user` is the account in the answer.
pub fn login_message(reply: Result<String, String>, user: User) -> (m: AuthMsg)
    ensures
        match reply {
            Err(e) => m == AuthMsg::LoginResult(Err(e)),
            Ok(body) => if json_flag(body@, "/requires_2fa"@) == Some(true) {
                m matches AuthMsg::LoginNeeds2fa(t) && t@ == text_or(
                    json_text(body@, "/pending_token"@),
                    Seq::empty(),
                )
            } else {
                m matches AuthMsg::LoginResult(Ok((t, u))) && t@ == text_or(
                    json_text(body@, "/token"@),
                    Seq::empty(),
                ) && u == user
            },
        },
{
    match reply {
        Err(e) => AuthMsg::LoginResult(Err(e)),
        Ok(body) => {
            proof {
                reveal_strlit("");
                assert(""@ =~= Seq::empty());
            }
            let two_steps = match json_flag_at(body.as_str(), "/requires_2fa") {
                Some(b) => b,
                None => false,
            };
            if two_steps {
                AuthMsg::LoginNeeds2fa(json_text_or(body.as_str(), "/pending_token", ""))
            } else {
                AuthMsg::LoginResult(Ok((json_text_or(body.as_str(), "/token", ""), user)))
            }
        },
    }
}

/// The token of a session and its account.
pub fn session_result(reply: Result<String, String>, user: User) -> (r: Result<
    (String, User),
    String,
>)
    ensures
        match reply {
            Err(e) => r == Err::<(String, User), String>(e),
            Ok(body) => r matches Ok((t, u)) && t@ == text_or(
                json_text(body@, "/token"@),
                Seq::empty(),
            ) && u == user,
        },
{
    match reply {
        Err(e) => Err(e),
        Ok(body) => {
            proof {
                reveal_strlit("");
                assert(""@ =~= Seq::empty());
            }
            Ok((json_text_or(body.as_str(), "/token", ""), user))
        },
    }
}

/// A number that an answer has to hold.
pub fn number_result(reply: Result<String, String>, pointer: &str, missing: &str) -> (r: Result<
    u64,
    String,
>)
    ensures
        match reply {
            Err(e) => r == Err::<u64, String>(e),
            Ok(body) => match json_number(body@, pointer@) {
                Some(n) => r == Ok::<u64, String>(n),
                None => r matches Err(e) && e@ == missing@,
            },
        },
{
    match reply {
        Err(e) => Err(e),
        Ok(body) => match json_number_at(body.as_str(), pointer) {
            Some(n) => Ok(n),
            None => Err(copy_text(missing)),
        },
    }
}

/// A text that an answer has to hold.
pub fn text_result(reply: Result<String, String>, pointer: &str, missing: &str) -> (r: Result<
    String,
    String,
>)
    ensures
        match reply {
            Err(e) => r == Err::<String, String>(e),
            Ok(body) => match json_text(body@, pointer@) {
                Some(s) => r matches Ok(t) && t@ == s,
                None => r matches Err(e) && e@ == missing@,
            },
        },
{
    match reply {
        Err(e) => Err(e),
        Ok(body) => match json_text_at(body.as_str(), pointer) {
            Some(s) => Ok(s),
            None => Err(copy_text(missing)),
        },
    }
}

/// The server and the token in the file that a session is kept in.
pub open spec fn session_in(text: Seq<char>) -> Option<(Seq<char>, Seq<char>)> {
    match (json_text(text, "/server"@), json_text(text, "/token"@)) {
        (Some(server), Some(token)) => Some((server, token)),
        _ => None,
    }
}

/// The server and the token of a kept session.
pub fn saved_session(text: &str) -> (r: Option<(String, String)>)
    ensures
        match r {
            Some((server, token)) => session_in(text@) == Some((server@, token@)),
            None => session_in(text@) is None,
        },
{
    match (json_text_at(text, "/server"), json_text_at(text, "/token")) {
        (Some(server), Some(token)) => Some((server, token)),
        _ => None,
    }
}

/// A session that was kept comes back as it was.
pub proof fn kept_sessions_come_back(text: Seq<char>, server: Seq<char>, token: Seq<char>)
    requires
        holds_session(text, server, token),
    ensures
        session_in(text) == Some((server, token)),
{
}

} // verus!
