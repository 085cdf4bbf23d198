//! What the requests of the client ask of the server: no two kinds of them are alike, and each goes
//! to the thing that it is about.

use vstd::prelude::*;
use vstd::utf8::encode_utf8;

use crate::chat::action::Api;
use crate::chat::requests::{
    body_of, fields, is_request, method_of, path_of, FieldModel, Method, Request,
};
use crate::data_url::{base64_text, form_encoded};
use crate::number::{decimal, decimals_are_digits};
use crate::text::{after, lemma_index_of_unique};

verus! {

/// The kinds of requests, each under a number of its own.
pub open spec fn kind(api: Api) -> int {
    match api {
        Api::Login { .. } => 1,
        Api::Register { .. } => 2,
        Api::LoginTwoFa { .. } => 3,
        Api::Verify { .. } => 4,
        Api::TwoFaSetup => 5,
        Api::TwoFaEnable { .. } => 6,
        Api::LoadConversations => 7,
        Api::LoadMessages { .. } => 8,
        Api::MarkRead { .. } => 9,
        Api::SendMessage { .. } => 10,
        Api::EditMessage { .. } => 11,
        Api::DeleteMessage { .. } => 12,
        Api::CreateByHandle { .. } => 13,
        Api::CreateConversation { .. } => 14,
        Api::DeleteConversation { .. } => 15,
        Api::SearchUsers { .. } => 16,
        Api::LoadProfile { .. } => 17,
        Api::Moderate { .. } => 18,
        Api::SaveSettings { .. } => 19,
        Api::SetProfileVisible { .. } => 20,
        Api::SetAvatar { .. } => 21,
        Api::RemoveAvatar => 22,
        Api::LoadSessions => 23,
        Api::RevokeSession { .. } => 24,
        Api::LoadGuilds => 25,
        Api::LoadGuild { .. } => 26,
        Api::CreateGuild { .. } => 27,
        Api::JoinGuild { .. } => 28,
        Api::DeleteGuild { .. } => 29,
        Api::CreateChannel { .. } => 30,
        Api::RenameChannel { .. } => 31,
        Api::DeleteChannel { .. } => 32,
        Api::CreateInvite { .. } => 33,
        Api::SetAdmin { .. } => 34,
        Api::TransferOwner { .. } => 35,
        Api::KickMember { .. } => 36,
        Api::BanMember { .. } => 37,
        Api::UnbanMember { .. } => 38,
        Api::CreateRole { .. } => 39,
        Api::DeleteRole { .. } => 40,
        Api::AssignRole { .. } => 41,
        Api::LoadStickerPacks { .. } => 42,
        Api::CreateStickerPack { .. } => 43,
        Api::StickerImage { .. } => 44,
        Api::UploadSticker { .. } => 45,
        Api::DeleteSticker { .. } => 46,
        Api::DeleteStickerPack { .. } => 47,
    }
}

/// What a body begins with: the first letters of the name of its first field, and how many fields
/// there are.
pub open spec fn first_name(body: Option<Seq<(Seq<char>, FieldModel)>>) -> Seq<char> {
    match body {
        Some(b) => if b.len() > 0 {
            b[0].0
        } else {
            Seq::empty()
        },
        None => Seq::empty(),
    }
}

/// Whether a body removes what it names.
pub open spec fn is_empty_text(body: Option<Seq<(Seq<char>, FieldModel)>>) -> bool {
    body matches Some(b) && b.len() == 1 && (b[0].1 matches FieldModel::Text(t) && t.len() == 0)
}

/// The kind of a request, read out of what the server gets: the method, the path and the fields.
pub open spec fn told_by(
    method: Method,
    path: Seq<char>,
    body: Option<Seq<(Seq<char>, FieldModel)>>,
) -> int {
    let n = match body {
        Some(b) => b.len() as int,
        None => 0,
    };
    let first = first_name(body);
    match method {
        Method::Get => if path[5] == 'c' {
            if path.len() == 18 {
                7
            } else {
                8
            }
        } else if path[5] == 'u' {
            if path[11] == 's' {
                16
            } else {
                17
            }
        } else if path[5] == 'm' {
            23
        } else if path[6] == 'e' {
            if path.len() == 12 {
                25
            } else {
                26
            }
        } else if path.len() == 13 || path[13] == '?' {
            42
        } else {
            44
        },
        Method::Patch => if path[5] == 'c' {
            11
        } else if path[5] == 's' {
            31
        } else if n == 3 {
            19
        } else {
            20
        },
        Method::Delete => if path[5] == 'c' {
            if path.skip(19).contains('/') {
                12
            } else {
                15
            }
        } else if path[5] == 'm' {
            24
        } else if path[6] == 'e' {
            if !path.skip(13).contains('/') {
                29
            } else if after(path.skip(13), '/')[0] == 'c' {
                32
            } else if after(path.skip(13), '/')[0] == 'b' {
                38
            } else {
                40
            }
        } else if path.skip(20).contains('/') {
            46
        } else {
            47
        },
        Method::Post => if n == 0 {
            if path[5] == 'm' {
                5
            } else if path[5] == 's' {
                33
            } else {
                18
            }
        } else if first == "email"@ {
            if n == 3 {
                1
            } else {
                2
            }
        } else if first == "pending_token"@ {
            3
        } else if first == "code"@ {
            if path.last() == 'y' {
                4
            } else if path.last() == 'e' {
                6
            } else {
                28
            }
        } else if first == "message_id"@ {
            9
        } else if first == "body"@ {
            10
        } else if first == "handles"@ {
            13
        } else if first == "member_ids"@ {
            14
        } else if first == "avatar"@ {
            if is_empty_text(body) {
                22
            } else {
                21
            }
        } else if first == "name"@ {
            if n == 3 {
                45
            } else if n == 2 {
                30
            } else if path[path.len() - 2] == 'r' {
                27
            } else if path[path.len() - 2] == 'e' {
                39
            } else {
                43
            }
        } else if n == 2 {
            if path.last() == 'e' {
                34
            } else {
                41
            }
        } else if path.last() == 'r' {
            35
        } else if path.last() == 'k' {
            36
        } else {
            37
        },
    }
}

proof fn lemma_names()
    ensures
        "email"@.len() == 5 && "email"@[0] == 'e',
        "pending_token"@[0] == 'p',
        "code"@[0] == 'c',
        "message_id"@[0] == 'm' && "message_id"@[2] == 's',
        "body"@[0] == 'b',
        "handles"@[0] == 'h',
        "member_ids"@[0] == 'm' && "member_ids"@[2] == 'm',
        "avatar"@[0] == 'a',
        "name"@[0] == 'n',
        "user_id"@[0] == 'u',
        "display_name"@[0] == 'd',
        "profile_visible"@[0] == 'p',
{
    reveal_strlit("email");
    reveal_strlit("pending_token");
    reveal_strlit("code");
    reveal_strlit("message_id");
    reveal_strlit("body");
    reveal_strlit("handles");
    reveal_strlit("member_ids");
    reveal_strlit("avatar");
    reveal_strlit("name");
    reveal_strlit("user_id");
    reveal_strlit("display_name");
    reveal_strlit("profile_visible");
}

proof fn lemma_get(api: Api)
    requires
        method_of(api) == Method::Get,
    ensures
        told_by(method_of(api), path_of(api), body_of(api)) == kind(api),
        body_of(api) is None,
{
    reveal_strlit("/api/conversations");
    reveal_strlit("/api/conversations/");
    reveal_strlit("/messages");
    reveal_strlit("/api/users/search?q=");
    reveal_strlit("/api/users/");
    reveal_strlit("/api/me/sessions");
    reveal_strlit("/api/servers");
    reveal_strlit("/api/servers/");
    reveal_strlit("/api/stickers");
    reveal_strlit("/api/stickers?q=");
    reveal_strlit("/api/stickers/");
    reveal_strlit("/image");
    match api {
        Api::LoadProfile { user_id } => {
            decimals_are_digits(user_id as nat);
            assert(path_of(api)[11] == decimal(user_id as nat)[0]);
        },
        Api::LoadGuild { guild_id } => {
            decimals_are_digits(guild_id as nat);
        },
        _ => {},
    }
}

proof fn lemma_patch(api: Api)
    requires
        method_of(api) == Method::Patch,
    ensures
        told_by(method_of(api), path_of(api), body_of(api)) == kind(api),
{
    reveal_strlit("/api/conversations/");
    reveal_strlit("/api/me");
    reveal_strlit("/api/servers/");
}

/// A number has no slash in it, and one that follows a number begins behind it.
proof fn lemma_slash(n: nat, rest: Seq<char>)
    ensures
        !decimal(n).contains('/'),
        (decimal(n) + seq!['/'] + rest).contains('/'),
        after(decimal(n) + seq!['/'] + rest, '/') == rest,
{
    decimals_are_digits(n);
    let d = decimal(n);
    if d.contains('/') {
        let i = choose|i: int| 0 <= i < d.len() && d[i] == '/';
        assert('0' <= d[i] <= '9');
    }
    let s = d + seq!['/'] + rest;
    assert(s[d.len() as int] == '/');
    assert forall|j: int| 0 <= j < d.len() implies s[j] != '/' by {
        assert(s[j] == d[j]);
        assert(d.contains(d[j]));
    }
    lemma_index_of_unique(s, '/', d.len() as int);
    assert(s.skip(d.len() as int + 1) =~= rest);
}

proof fn lemma_delete(api: Api)
    requires
        method_of(api) == Method::Delete,
    ensures
        told_by(method_of(api), path_of(api), body_of(api)) == kind(api),
        body_of(api) is None,
{
    reveal_strlit("/api/conversations/");
    reveal_strlit("/messages/");
    reveal_strlit("/api/me/sessions/");
    reveal_strlit("/api/servers/");
    reveal_strlit("/channels/");
    reveal_strlit("/bans/");
    reveal_strlit("/roles/");
    reveal_strlit("/api/stickers/packs/");
    reveal_strlit("/stickers/");
    let path = path_of(api);
    match api {
        Api::DeleteMessage { conversation_id, message_id } => {
            let m = decimal(message_id as nat);
            let rest = "/messages/"@.skip(1) + m;
            lemma_slash(conversation_id as nat, rest);
            assert(path.skip(19) =~= decimal(conversation_id as nat) + seq!['/'] + rest);
        },
        Api::DeleteConversation { conversation_id } => {
            lemma_slash(conversation_id as nat, Seq::empty());
            assert(path.skip(19) =~= decimal(conversation_id as nat));
        },
        Api::DeleteGuild { guild_id } => {
            lemma_slash(guild_id as nat, Seq::empty());
            assert(path.skip(13) =~= decimal(guild_id as nat));
        },
        Api::DeleteChannel { guild_id, channel_id } => {
            let rest = "/channels/"@.skip(1) + decimal(channel_id as nat);
            lemma_slash(guild_id as nat, rest);
            assert(path.skip(13) =~= decimal(guild_id as nat) + seq!['/'] + rest);
        },
        Api::UnbanMember { guild_id, user_id } => {
            let rest = "/bans/"@.skip(1) + decimal(user_id as nat);
            lemma_slash(guild_id as nat, rest);
            assert(path.skip(13) =~= decimal(guild_id as nat) + seq!['/'] + rest);
        },
        Api::DeleteRole { guild_id, role_id } => {
            let rest = "/roles/"@.skip(1) + decimal(role_id as nat);
            lemma_slash(guild_id as nat, rest);
            assert(path.skip(13) =~= decimal(guild_id as nat) + seq!['/'] + rest);
        },
        Api::DeleteSticker { pack_id, sticker_id } => {
            let rest = "/stickers/"@.skip(1) + decimal(sticker_id as nat);
            lemma_slash(pack_id as nat, rest);
            assert(path.skip(20) =~= decimal(pack_id as nat) + seq!['/'] + rest);
        },
        Api::DeleteStickerPack { pack_id } => {
            lemma_slash(pack_id as nat, Seq::empty());
            assert(path.skip(20) =~= decimal(pack_id as nat));
        },
        _ => {},
    }
}

proof fn lemma_post(api: Api)
    requires
        method_of(api) == Method::Post,
        !(api matches Api::SetAvatar { data_url } && data_url@.len() == 0),
    ensures
        told_by(method_of(api), path_of(api), body_of(api)) == kind(api),
{
    lemma_names();
    reveal_strlit("/api/verify");
    reveal_strlit("/api/me/2fa/enable");
    reveal_strlit("/api/me/2fa/setup");
    reveal_strlit("/api/servers/join");
    reveal_strlit("/api/servers");
    reveal_strlit("/api/servers/");
    reveal_strlit("/api/users/");
    reveal_strlit("/api/stickers/packs");
    reveal_strlit("/roles");
    reveal_strlit("/role");
    reveal_strlit("/assign");
    reveal_strlit("/transfer");
    reveal_strlit("/kick");
    reveal_strlit("/bans");
}

/// The server can tell which kind of request it gets, whatever the request is about: a method, a path
/// and the fields of a body never belong to two kinds. Only to remove a picture is the same as to
/// set an empty one.
pub proof fn kinds_are_told_apart(a: Api, b: Api)
    requires
        method_of(a) == method_of(b),
        path_of(a) == path_of(b),
        body_of(a) == body_of(b),
        !(a matches Api::SetAvatar { data_url } && data_url@.len() == 0),
        !(b matches Api::SetAvatar { data_url } && data_url@.len() == 0),
    ensures
        kind(a) == kind(b),
{
    match method_of(a) {
        Method::Get => {
            lemma_get(a);
            lemma_get(b);
        },
        Method::Patch => {
            lemma_patch(a);
            lemma_patch(b);
        },
        Method::Delete => {
            lemma_delete(a);
            lemma_delete(b);
        },
        Method::Post => {
            lemma_post(a);
            lemma_post(b);
        },
    }
}

/// Two requests to one server that look alike are of one kind.
pub proof fn requests_are_told_apart(
    server: Seq<char>,
    token: Seq<char>,
    a: Api,
    b: Api,
    ra: Request,
    rb: Request,
)
    requires
        is_request(server, token, a, ra),
        is_request(server, token, b, rb),
        ra.method == rb.method,
        ra.url@ == rb.url@,
        match (ra.body, rb.body) {
            (Some(x), Some(y)) => fields(x@) == fields(y@),
            (None, None) => true,
            _ => false,
        },
        !(a matches Api::SetAvatar { data_url } && data_url@.len() == 0),
        !(b matches Api::SetAvatar { data_url } && data_url@.len() == 0),
    ensures
        kind(a) == kind(b),
{
    lemma_names();
    if a is Login || b is Login {
        assert(body_of(a) == body_of(b));
        reveal_strlit("email");
        reveal_strlit("remember_me");
        reveal_strlit("birthdate");
        if a is Login && !(b is Login) {
            assert(body_of(a)->0.len() == 3);
            assert(body_of(a)->0[0].0 == "email"@);
        }
        if b is Login && !(a is Login) {
            assert(body_of(b)->0.len() == 3);
            assert(body_of(b)->0[0].0 == "email"@);
        }
        assert(kind(a) == kind(b)) by {
            lemma_login_alone(a, b);
        }
    } else {
        let p = path_of(a);
        let q = path_of(b);
        assert((server + p).skip(server.len() as int) =~= p);
        assert((server + q).skip(server.len() as int) =~= q);
        kinds_are_told_apart(a, b);
    }
}

/// No other request has the fields of a login.
proof fn lemma_login_alone(a: Api, b: Api)
    requires
        a is Login || b is Login,
        body_of(a) == body_of(b),
    ensures
        kind(a) == kind(b),
{
    lemma_names();
}

// ---------------------------------------------------------------------------
// Where requests go
// ---------------------------------------------------------------------------

/// The address of a request, as the server sees it behind its own.
pub open spec fn goes_to(server: Seq<char>, r: Request, method: Method, path: Seq<char>) -> bool {
    r.method == method && r.url@ == server + path
}

/// The one field of a body is the id of a user.
pub open spec fn names_user(r: Request, user_id: u64) -> bool {
    &&& r.body matches Some(b)
    &&& b@.len() >= 1
    &&& b@[0].0@ == "user_id"@
    &&& b@[0].1@ == FieldModel::Number(user_id)
}

proof fn lemma_body(server: Seq<char>, token: Seq<char>, api: Api, r: Request)
    requires
        is_request(server, token, api, r),
    ensures
        r.body is Some <==> body_of(api) is Some,
        r.body matches Some(b) ==> b@.len() == body_of(api)->0.len() && forall|i: int|
            0 <= i < b@.len() ==> (#[trigger] b@[i]).0@ == body_of(api)->0[i].0 && b@[i].1@
                == body_of(api)->0[i].1,
{
    match r.body {
        Some(b) => {
            let m = body_of(api)->0;
            assert(fields(b@) == m);
            assert forall|i: int| 0 <= i < b@.len() implies (#[trigger] b@[i]).0@ == m[i].0 && b@[i].1@
                == m[i].1 by {
                assert(fields(b@)[i] == (b@[i].0@, b@[i].1@));
            }
        },
        None => {},
    }
}

/// What is done to a member of a server goes to that server, by its own name, and names the member:
/// a kick is a kick and a ban is a ban.
pub proof fn members_are_treated_as_asked(
    server: Seq<char>,
    token: Seq<char>,
    guild_id: u64,
    user_id: u64,
    flag: bool,
    api: Api,
    r: Request,
)
    requires
        is_request(server, token, api, r),
    ensures
        ({
            let at = "/api/servers/"@ + decimal(guild_id as nat);
            &&& api == (Api::KickMember { guild_id, user_id }) ==> goes_to(
                server,
                r,
                Method::Post,
                at + "/kick"@,
            ) && names_user(r, user_id)
            &&& api == (Api::BanMember { guild_id, user_id }) ==> goes_to(
                server,
                r,
                Method::Post,
                at + "/bans"@,
            ) && names_user(r, user_id)
            &&& api == (Api::UnbanMember { guild_id, user_id }) ==> goes_to(
                server,
                r,
                Method::Delete,
                at + "/bans/"@ + decimal(user_id as nat),
            )
            &&& api == (Api::TransferOwner { guild_id, user_id }) ==> goes_to(
                server,
                r,
                Method::Post,
                at + "/transfer"@,
            ) && names_user(r, user_id)
            &&& api == (Api::SetAdmin { guild_id, user_id, is_admin: flag }) ==> goes_to(
                server,
                r,
                Method::Post,
                at + "/role"@,
            ) && names_user(r, user_id) && r.body->0@.len() == 2 && r.body->0@[1].0@ == "is_admin"@
                && r.body->0@[1].1@ == FieldModel::Flag(flag)
        }),
{
    lemma_body(server, token, api, r);
}

/// Roles and channels are made, changed and deleted in the server that they belong to, under the
/// names that were asked for.
pub proof fn servers_are_arranged_as_asked(
    server: Seq<char>,
    token: Seq<char>,
    guild_id: u64,
    id: u64,
    user_id: u64,
    on: bool,
    name: String,
    channel_type: String,
    api: Api,
    r: Request,
)
    requires
        is_request(server, token, api, r),
    ensures
        ({
            let at = "/api/servers/"@ + decimal(guild_id as nat);
            &&& api == (Api::CreateChannel { guild_id, name, channel_type }) ==> goes_to(
                server,
                r,
                Method::Post,
                at + "/channels"@,
            ) && r.body is Some && r.body->0@.len() == 2 && r.body->0@[0].0@ == "name"@
                && r.body->0@[0].1@ == FieldModel::Text(name@) && r.body->0@[1].0@
                == "channel_type"@ && r.body->0@[1].1@ == FieldModel::Text(channel_type@)
            &&& api == (Api::RenameChannel { guild_id, channel_id: id, name }) ==> goes_to(
                server,
                r,
                Method::Patch,
                at + "/channels/"@ + decimal(id as nat),
            ) && r.body is Some && r.body->0@.len() == 1 && r.body->0@[0].0@ == "name"@
                && r.body->0@[0].1@ == FieldModel::Text(name@)
            &&& api == (Api::DeleteChannel { guild_id, channel_id: id }) ==> goes_to(
                server,
                r,
                Method::Delete,
                at + "/channels/"@ + decimal(id as nat),
            )
            &&& api == (Api::CreateRole { guild_id, name }) ==> goes_to(
                server,
                r,
                Method::Post,
                at + "/roles"@,
            ) && r.body is Some && r.body->0@.len() == 1 && r.body->0@[0].0@ == "name"@
                && r.body->0@[0].1@ == FieldModel::Text(name@)
            &&& api == (Api::DeleteRole { guild_id, role_id: id }) ==> goes_to(
                server,
                r,
                Method::Delete,
                at + "/roles/"@ + decimal(id as nat),
            )
            &&& api == (Api::AssignRole { guild_id, role_id: id, user_id, on }) ==> goes_to(
                server,
                r,
                Method::Post,
                at + "/roles/"@ + decimal(id as nat) + "/assign"@,
            ) && names_user(r, user_id) && r.body->0@.len() == 2 && r.body->0@[1].0@ == "on"@
                && r.body->0@[1].1@ == FieldModel::Flag(on)
            &&& api == (Api::CreateInvite { guild_id }) ==> goes_to(
                server,
                r,
                Method::Post,
                at + "/invite"@,
            )
            &&& api == (Api::DeleteGuild { guild_id }) ==> goes_to(server, r, Method::Delete, at)
            &&& api == (Api::LoadGuild { guild_id }) ==> goes_to(server, r, Method::Get, at)
            &&& api == Api::LoadGuilds ==> goes_to(server, r, Method::Get, "/api/servers"@)
            &&& api == (Api::CreateGuild { name }) ==> goes_to(
                server,
                r,
                Method::Post,
                "/api/servers"@,
            ) && r.body is Some && r.body->0@.len() == 1 && r.body->0@[0].0@ == "name"@
                && r.body->0@[0].1@ == FieldModel::Text(name@)
            &&& api == (Api::JoinGuild { code: name }) ==> goes_to(
                server,
                r,
                Method::Post,
                "/api/servers/join"@,
            ) && r.body is Some && r.body->0@.len() == 1 && r.body->0@[0].0@ == "code"@
                && r.body->0@[0].1@ == FieldModel::Text(name@)
        }),
{
    lemma_body(server, token, api, r);
}

/// Messages are read, sent, changed, deleted and marked as read in the conversation that they belong
/// to, with the text that was written.
pub proof fn conversations_are_kept_apart(
    server: Seq<char>,
    token: Seq<char>,
    conversation_id: u64,
    message_id: u64,
    text: String,
    file: Option<crate::chat::action::SentFile>,
    api: Api,
    r: Request,
)
    requires
        is_request(server, token, api, r),
    ensures
        ({
            let at = "/api/conversations/"@ + decimal(conversation_id as nat);
            &&& api == Api::LoadConversations ==> goes_to(
                server,
                r,
                Method::Get,
                "/api/conversations"@,
            )
            &&& api == (Api::LoadMessages { conversation_id }) ==> goes_to(
                server,
                r,
                Method::Get,
                at + "/messages"@,
            )
            &&& api == (Api::SendMessage { conversation_id, body: text, file }) ==> goes_to(
                server,
                r,
                Method::Post,
                at + "/messages"@,
            ) && r.body is Some && r.body->0@.len() >= 1 && r.body->0@[0].0@ == "body"@
                && r.body->0@[0].1@ == FieldModel::Text(text@)
            &&& api == (Api::EditMessage { conversation_id, message_id, body: text }) ==> goes_to(
                server,
                r,
                Method::Patch,
                at + "/messages/"@ + decimal(message_id as nat),
            ) && r.body is Some && r.body->0@.len() == 1 && r.body->0@[0].0@ == "body"@
                && r.body->0@[0].1@ == FieldModel::Text(text@)
            &&& api == (Api::DeleteMessage { conversation_id, message_id }) ==> goes_to(
                server,
                r,
                Method::Delete,
                at + "/messages/"@ + decimal(message_id as nat),
            )
            &&& api == (Api::MarkRead { conversation_id, message_id }) ==> goes_to(
                server,
                r,
                Method::Post,
                at + "/read"@,
            ) && r.body is Some && r.body->0@.len() == 1 && r.body->0@[0].0@ == "message_id"@
                && r.body->0@[0].1@ == FieldModel::Number(message_id)
            &&& api == (Api::DeleteConversation { conversation_id }) ==> goes_to(
                server,
                r,
                Method::Delete,
                at,
            )
            &&& api == (Api::CreateByHandle { handle: text }) ==> goes_to(
                server,
                r,
                Method::Post,
                "/api/conversations"@,
            ) && r.body is Some && r.body->0@.len() == 1 && r.body->0@[0].0@ == "handles"@
                && r.body->0@[0].1@ == FieldModel::Texts(seq![text@])
        }),
{
    lemma_body(server, token, api, r);
}

/// A file that goes with a message is described by it: type, name, id, size, and the small picture
/// where there is one.
pub proof fn messages_describe_their_file(
    server: Seq<char>,
    token: Seq<char>,
    conversation_id: u64,
    text: String,
    f: crate::chat::action::SentFile,
    r: Request,
)
    requires
        is_request(
            server,
            token,
            Api::SendMessage { conversation_id, body: text, file: Some(f) },
            r,
        ),
    ensures
        r.body matches Some(b) && {
            &&& b@.len() == if f.thumbnail@.len() > 0 {
                6int
            } else {
                5int
            }
            &&& b@[1].0@ == "attachment_mime"@ && b@[1].1@ == FieldModel::Text(f.mime@)
            &&& b@[2].0@ == "attachment_name"@ && b@[2].1@ == FieldModel::Text(f.name@)
            &&& b@[3].0@ == "file_id"@ && b@[3].1@ == FieldModel::Text(f.file_id@)
            &&& b@[4].0@ == "file_size"@ && b@[4].1@ == FieldModel::Number(f.file_size)
            &&& f.thumbnail@.len() > 0 ==> b@[5].0@ == "thumbnail_data"@ && b@[5].1@
                == FieldModel::Text(f.thumbnail@)
        },
{
    lemma_body(
        server,
        token,
        Api::SendMessage { conversation_id, body: text, file: Some(f) },
        r,
    );
}

/// A new conversation names its kind and its members.
pub proof fn conversations_name_their_members(
    server: Seq<char>,
    token: Seq<char>,
    kind: String,
    member_ids: Vec<u64>,
    r: Request,
)
    requires
        is_request(server, token, Api::CreateConversation { kind, member_ids }, r),
    ensures
        goes_to(server, r, Method::Post, "/api/conversations"@),
        r.body matches Some(b) && b@.len() == 2 && b@[0].0@ == "member_ids"@ && b@[0].1@
            == FieldModel::Ids(member_ids@) && b@[1].0@ == "kind"@ && b@[1].1@ == FieldModel::Text(
            kind@,
        ),
{
    lemma_body(server, token, Api::CreateConversation { kind, member_ids }, r);
}

/// What is asked about users, and what the user says of themselves, goes where it belongs, with what
/// was typed.
pub proof fn users_are_asked_about(
    server: Seq<char>,
    token: Seq<char>,
    id: u64,
    text: String,
    bio: String,
    visible: bool,
    api: Api,
    r: Request,
)
    requires
        is_request(server, token, api, r),
    ensures
        api == (Api::LoadProfile { user_id: id }) ==> goes_to(
            server,
            r,
            Method::Get,
            "/api/users/"@ + decimal(id as nat),
        ),
        api == (Api::SearchUsers { query: text }) ==> goes_to(
            server,
            r,
            Method::Get,
            "/api/users/search?q="@ + form_encoded(encode_utf8(text@)),
        ),
        api == (Api::Moderate { user_id: id, verb: text }) ==> goes_to(
            server,
            r,
            Method::Post,
            "/api/users/"@ + decimal(id as nat) + "/"@ + text@,
        ),
        api == (Api::SaveSettings { display_name: text, bio, profile_visible: visible }) ==> goes_to(
            server,
            r,
            Method::Patch,
            "/api/me"@,
        ) && r.body is Some && r.body->0@.len() == 3 && r.body->0@[0].0@ == "display_name"@
            && r.body->0@[0].1@ == FieldModel::Text(text@) && r.body->0@[1].0@ == "bio"@
            && r.body->0@[1].1@ == FieldModel::Text(bio@) && r.body->0@[2].0@ == "profile_visible"@
            && r.body->0@[2].1@ == FieldModel::Flag(visible),
        api == (Api::SetProfileVisible { visible }) ==> goes_to(server, r, Method::Patch, "/api/me"@)
            && r.body is Some && r.body->0@.len() == 1 && r.body->0@[0].0@ == "profile_visible"@
            && r.body->0@[0].1@ == FieldModel::Flag(visible),
        api == (Api::SetAvatar { data_url: text }) ==> goes_to(
            server,
            r,
            Method::Post,
            "/api/me/avatar"@,
        ) && r.body is Some && r.body->0@.len() == 1 && r.body->0@[0].0@ == "avatar"@
            && r.body->0@[0].1@ == FieldModel::Text(text@),
        api == Api::RemoveAvatar ==> goes_to(server, r, Method::Post, "/api/me/avatar"@) && r.body is Some
            && r.body->0@.len() == 1 && r.body->0@[0].0@ == "avatar"@ && r.body->0@[0].1@
            == FieldModel::Text(Seq::empty()),
        api == Api::LoadSessions ==> goes_to(server, r, Method::Get, "/api/me/sessions"@),
        api == (Api::RevokeSession { session_id: id }) ==> goes_to(
            server,
            r,
            Method::Delete,
            "/api/me/sessions/"@ + decimal(id as nat),
        ),
{
    lemma_body(server, token, api, r);
}

/// Stickers are loaded, made and deleted in the pack that they belong to.
pub proof fn stickers_stay_in_their_pack(
    server: Seq<char>,
    token: Seq<char>,
    pack_id: u64,
    sticker_id: u64,
    name: String,
    mime: String,
    bytes: Vec<u8>,
    api: Api,
    r: Request,
)
    requires
        is_request(server, token, api, r),
    ensures
        api == (Api::LoadStickerPacks { query: name }) ==> goes_to(
            server,
            r,
            Method::Get,
            if name@.len() == 0 {
                "/api/stickers"@
            } else {
                "/api/stickers?q="@ + form_encoded(encode_utf8(name@))
            },
        ),
        api == (Api::CreateStickerPack { name }) ==> goes_to(
            server,
            r,
            Method::Post,
            "/api/stickers/packs"@,
        ) && r.body is Some && r.body->0@.len() == 1 && r.body->0@[0].0@ == "name"@
            && r.body->0@[0].1@ == FieldModel::Text(name@),
        api == (Api::StickerImage { sticker_id }) ==> goes_to(
            server,
            r,
            Method::Get,
            "/api/stickers/"@ + decimal(sticker_id as nat) + "/image"@,
        ),
        api == (Api::UploadSticker { pack_id, name, mime, bytes }) ==> goes_to(
            server,
            r,
            Method::Post,
            "/api/stickers/packs/"@ + decimal(pack_id as nat) + "/stickers"@,
        ) && r.body is Some && r.body->0@.len() == 3 && r.body->0@[0].0@ == "name"@
            && r.body->0@[0].1@ == FieldModel::Text(name@) && r.body->0@[1].0@ == "data"@
            && r.body->0@[1].1@ == FieldModel::Text(base64_text(bytes@)) && r.body->0@[2].0@ == "mime"@
            && r.body->0@[2].1@ == FieldModel::Text(mime@),
        api == (Api::DeleteSticker { pack_id, sticker_id }) ==> goes_to(
            server,
            r,
            Method::Delete,
            "/api/stickers/packs/"@ + decimal(pack_id as nat) + "/stickers/"@ + decimal(
                sticker_id as nat,
            ),
        ),
        api == (Api::DeleteStickerPack { pack_id }) ==> goes_to(
            server,
            r,
            Method::Delete,
            "/api/stickers/packs/"@ + decimal(pack_id as nat),
        ),
{
    lemma_body(server, token, api, r);
}

/// Logging in and setting up an account send what was typed, each to its own place; a login may be
/// given its server without the scheme.
pub proof fn logins_send_what_was_typed(
    server: Seq<char>,
    token: Seq<char>,
    email: String,
    username: String,
    password: String,
    birthdate: String,
    remember_me: bool,
    api: Api,
    r: Request,
)
    requires
        is_request(server, token, api, r),
    ensures
        api == (Api::Login { email, password, remember_me }) ==> r.method == Method::Post && (exists|
            base: Seq<char>,
        |
            r.url@ == #[trigger] (base + "/api/login"@)) && r.body is Some && r.body->0@.len() == 3
            && r.body->0@[0].0@ == "email"@ && r.body->0@[0].1@ == FieldModel::Text(email@)
            && r.body->0@[1].0@ == "password"@ && r.body->0@[1].1@ == FieldModel::Text(password@)
            && r.body->0@[2].0@ == "remember_me"@ && r.body->0@[2].1@ == FieldModel::Flag(remember_me),
        api == (Api::Register { email, username, password, birthdate }) ==> goes_to(
            server,
            r,
            Method::Post,
            "/api/register"@,
        ) && r.body is Some && r.body->0@.len() == 4 && r.body->0@[0].0@ == "email"@
            && r.body->0@[0].1@ == FieldModel::Text(email@) && r.body->0@[1].0@ == "username"@
            && r.body->0@[1].1@ == FieldModel::Text(username@) && r.body->0@[2].0@ == "password"@
            && r.body->0@[2].1@ == FieldModel::Text(password@) && r.body->0@[3].0@ == "birthdate"@
            && r.body->0@[3].1@ == FieldModel::Text(birthdate@),
        api == (Api::LoginTwoFa { pending_token: email, code: password, remember_me }) ==> goes_to(
            server,
            r,
            Method::Post,
            "/api/login/2fa"@,
        ) && r.body is Some && r.body->0@.len() == 3 && r.body->0@[0].0@ == "pending_token"@
            && r.body->0@[0].1@ == FieldModel::Text(email@) && r.body->0@[1].0@ == "code"@
            && r.body->0@[1].1@ == FieldModel::Text(password@) && r.body->0@[2].0@ == "remember_me"@
            && r.body->0@[2].1@ == FieldModel::Flag(remember_me),
        api == (Api::Verify { code: email }) ==> goes_to(server, r, Method::Post, "/api/verify"@)
            && r.body is Some && r.body->0@.len() == 1 && r.body->0@[0].0@ == "code"@
            && r.body->0@[0].1@ == FieldModel::Text(email@),
        api == Api::TwoFaSetup ==> goes_to(server, r, Method::Post, "/api/me/2fa/setup"@),
        api == (Api::TwoFaEnable { code: email }) ==> goes_to(
            server,
            r,
            Method::Post,
            "/api/me/2fa/enable"@,
        ) && r.body is Some && r.body->0@.len() == 1 && r.body->0@[0].0@ == "code"@
            && r.body->0@[0].1@ == FieldModel::Text(email@),
{
    lemma_body(server, token, api, r);
}

/// The token of the session goes with every request but those that make a session.
pub proof fn sessions_go_with_requests(
    server: Seq<char>,
    token: Seq<char>,
    api: Api,
    r: Request,
)
    requires
        is_request(server, token, api, r),
    ensures
        api is Login || api is Register || api is LoginTwoFa ==> r.bearer is None,
        !(api is Login || api is Register || api is LoginTwoFa) ==> (r.bearer matches Some(t) && t@
            == token),
{
}

} // verus!
