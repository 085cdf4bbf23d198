//! Where the requests of the desktop client go, what their answers come to, and what its socket
//! hands on.

use vstd::prelude::*;

use crate::chat::msg::WsHubEvent;
use crate::chat::requests::{fields, FieldModel, Method, Reply, Request};
use crate::chat::types::{ApiMsg, Conversation, Profile, User};
use crate::desktop::events::{AccountEvent, Event, FileEvent, PeopleEvent, TalkEvent};
use crate::desktop::requests::{call_body, is_outcome, says_call, Call, Found, Outcome};
use crate::desktop::socket::{socket_step, Deed, Happening, Stage};
use crate::json::json_present;
use crate::number::decimal;
use crate::server::server_path;
use crate::text::trim;

verus! {

/// A request goes to a path of the server.
pub open spec fn goes_to(server: Seq<char>, r: Request, method: Method, path: Seq<char>) -> bool {
    r.method == method && r.url@ == server_path(server, path)
}

/// The only field of a body is a text.
pub open spec fn says_only(r: Request, name: Seq<char>, text: Seq<char>) -> bool {
    &&& r.body matches Some(b)
    &&& b@.len() == 1
    &&& b@[0].0@ == name
    &&& b@[0].1@ == FieldModel::Text(text)
}

proof fn lemma_body(server: Seq<char>, token: Seq<char>, call: Call, r: Request)
    requires
        says_call(server, token, call, r),
    ensures
        r.body is Some <==> call_body(call) is Some,
        r.body matches Some(b) ==> b@.len() == call_body(call)->0.len() && forall|i: int|
            0 <= i < b@.len() ==> (#[trigger] b@[i]).0@ == call_body(call)->0[i].0 && b@[i].1@
                == call_body(call)->0[i].1,
{
    match r.body {
        Some(b) => {
            let m = call_body(call)->0;
            assert(fields(b@) == m);
            assert forall|i: int| 0 <= i < b@.len() implies (#[trigger] b@[i]).0@ == m[i].0 && b@[i].1@
                == m[i].1 by {
                assert(fields(b@)[i] == (b@[i].0@, b@[i].1@));
            }
        },
        None => {},
    }
}

/// What is asked about conversations and messages goes to the conversation and the message that it is
/// about, with the text that was written.
pub proof fn talk_goes_where_it_belongs(
    server: Seq<char>,
    token: Seq<char>,
    call: Call,
    r: Request,
)
    requires
        says_call(server, token, call, r),
    ensures
        call is LoadConversations ==> goes_to(server, r, Method::Get, "/api/conversations"@),
        call matches Call::LoadMessages { conversation_id } ==> goes_to(
            server,
            r,
            Method::Get,
            "/api/conversations/"@ + decimal(conversation_id as nat) + "/messages"@,
        ),
        call matches Call::SendMessage { conversation_id, body, file } ==> goes_to(
            server,
            r,
            Method::Post,
            "/api/conversations/"@ + decimal(conversation_id as nat) + "/messages"@,
        ) && r.body is Some && r.body->0@.len() >= 1 && r.body->0@[0].0@ == "body"@
            && r.body->0@[0].1@ == FieldModel::Text(body@) && (file is None ==> r.body->0@.len() == 1)
            && (file matches Some(f) ==> r.body->0@.len() >= 5 && r.body->0@[3].0@ == "file_id"@
            && r.body->0@[3].1@ == FieldModel::Text(f.file_id@) && r.body->0@[2].1@
            == FieldModel::Text(f.name@) && r.body->0@[1].1@ == FieldModel::Text(f.mime@)
            && r.body->0@[4].1@ == FieldModel::Number(f.file_size)),
        call matches Call::EditMessage { conversation_id, message_id, body } ==> goes_to(
            server,
            r,
            Method::Patch,
            "/api/conversations/"@ + decimal(conversation_id as nat) + "/messages/"@ + decimal(
                message_id as nat,
            ),
        ) && says_only(r, "body"@, body@),
        call matches Call::DeleteMessage { conversation_id, message_id } ==> goes_to(
            server,
            r,
            Method::Delete,
            "/api/conversations/"@ + decimal(conversation_id as nat) + "/messages/"@ + decimal(
                message_id as nat,
            ),
        ),
        call matches Call::DeleteConversation { conversation_id } ==> goes_to(
            server,
            r,
            Method::Delete,
            "/api/conversations/"@ + decimal(conversation_id as nat),
        ),
        call matches Call::CreateConversation { member_ids, handles } ==> goes_to(
            server,
            r,
            Method::Post,
            "/api/conversations"@,
        ) && r.body is Some && r.body->0@.len() == 2 && r.body->0@[0].0@ == "member_ids"@
            && r.body->0@[0].1@ == FieldModel::Ids(member_ids@) && r.body->0@[1].0@ == "handles"@
            && r.body->0@[1].1@ == FieldModel::Texts(handles@.map_values(|s: String| s@)),
{
    lemma_body(server, token, call, r);
}

/// What is asked about users and links goes where it belongs.
pub proof fn people_are_asked_about(
    server: Seq<char>,
    token: Seq<char>,
    call: Call,
    r: Request,
)
    requires
        says_call(server, token, call, r),
    ensures
        call matches Call::LoadProfile { user_id } ==> goes_to(
            server,
            r,
            Method::Get,
            "/api/users/"@ + decimal(user_id as nat),
        ),
        call matches Call::LoadContextProfile { user_id } ==> goes_to(
            server,
            r,
            Method::Get,
            "/api/users/"@ + decimal(user_id as nat),
        ),
        call matches Call::Moderate { user_id, verb } ==> goes_to(
            server,
            r,
            Method::Post,
            "/api/users/"@ + decimal(user_id as nat) + "/"@ + verb@,
        ),
        call matches Call::LookUpLink { url } ==> goes_to(
            server,
            r,
            Method::Post,
            "/api/link-preview"@,
        ) && says_only(r, "url"@, url@) && r.bearer is None,
        call matches Call::LoadPresence { ids } ==> (ids@.len() == 1 ==> goes_to(
            server,
            r,
            Method::Get,
            "/api/presence?ids="@ + decimal(ids@[0] as nat),
        )),
{
    lemma_body(server, token, call, r);
    match call {
        Call::LoadPresence { ids } => {
            if ids@.len() == 1 {
                let d = crate::desktop::requests::decimals(ids@);
                assert(d.len() == 1);
                assert(d[0] == decimal(ids@[0] as nat));
            }
        },
        _ => {},
    }
}

/// Logging in and the own account: what was typed goes to its own place.
pub proof fn accounts_send_what_was_typed(
    server: Seq<char>,
    token: Seq<char>,
    call: Call,
    r: Request,
)
    requires
        says_call(server, token, call, r),
    ensures
        call matches Call::Login { email, password, remember_me } ==> goes_to(
            server,
            r,
            Method::Post,
            "/api/login"@,
        ) && r.bearer is None && r.body is Some && r.body->0@.len() == 3 && r.body->0@[0].1@
            == FieldModel::Text(email@) && r.body->0@[1].1@ == FieldModel::Text(password@)
            && r.body->0@[2].1@ == FieldModel::Flag(remember_me),
        call matches Call::Register { email, username, password } ==> goes_to(
            server,
            r,
            Method::Post,
            "/api/register"@,
        ) && r.bearer is None && r.body is Some && r.body->0@.len() == 3 && r.body->0@[0].1@
            == FieldModel::Text(email@) && r.body->0@[1].1@ == FieldModel::Text(username@)
            && r.body->0@[2].1@ == FieldModel::Text(password@),
        call matches Call::LoginTwoFa { pending_token, code, remember_me } ==> goes_to(
            server,
            r,
            Method::Post,
            "/api/login/2fa"@,
        ) && r.bearer is None && r.body is Some && r.body->0@.len() == 3 && r.body->0@[0].1@
            == FieldModel::Text(pending_token@) && r.body->0@[1].1@ == FieldModel::Text(code@)
            && r.body->0@[2].1@ == FieldModel::Flag(remember_me),
        call matches Call::Restore { token: kept } ==> goes_to(server, r, Method::Get, "/api/me"@) && (
        r.bearer matches Some(t) && t@ == kept@),
        call matches Call::Verify { code } ==> goes_to(server, r, Method::Post, "/api/verify"@)
            && says_only(r, "code"@, code@),
        call is ResendCode ==> goes_to(server, r, Method::Post, "/api/verify/resend"@),
        call is TwoFaSetup ==> goes_to(server, r, Method::Post, "/api/me/2fa/setup"@),
        call matches Call::TwoFaEnable { code } ==> goes_to(
            server,
            r,
            Method::Post,
            "/api/me/2fa/enable"@,
        ) && says_only(r, "code"@, code@),
        call matches Call::TwoFaDisable { code } ==> goes_to(
            server,
            r,
            Method::Post,
            "/api/me/2fa/disable"@,
        ) && says_only(r, "code"@, code@),
        call matches Call::UpdateName { display_name } ==> goes_to(
            server,
            r,
            Method::Patch,
            "/api/me"@,
        ) && says_only(r, "display_name"@, trim(display_name@)),
        call matches Call::SetAvatar { avatar } ==> goes_to(
            server,
            r,
            Method::Post,
            "/api/me/avatar"@,
        ) && says_only(r, "avatar"@, avatar@),
        !(call is Login || call is Register || call is LoginTwoFa || call is LookUpLink
            || call is Restore) ==> (r.bearer matches Some(t) && t@ == token),
{
    lemma_body(server, token, call, r);
}

/// An answer that went well, and whose text can be read.
pub open spec fn is_good(reply: Reply) -> bool {
    reply matches Reply::Answer { code, status, body } && 200 <= code && code < 300 && json_present(
        body@,
        ""@,
    )
}

/// What was loaded or done is handed on as what it is.
pub proof fn answers_are_handed_on(
    call: Call,
    reply: Reply,
    found: Found,
    o: Outcome,
    convs: Vec<Conversation>,
    conv: Conversation,
    msgs: Vec<ApiMsg>,
    msg: ApiMsg,
    user: User,
    card: Profile,
)
    requires
        is_outcome(call, reply, found, o),
        is_good(reply),
    ensures
        call is LoadConversations && found == Found::Conversations(convs) ==> o.event == Some(
            Event::Talk(TalkEvent::Conversations(convs)),
        ),
        call is LoadMessages && found == Found::Messages(msgs) ==> o.event == Some(
            Event::Talk(
                TalkEvent::Messages {
                    conversation_id: call->LoadMessages_conversation_id,
                    messages: msgs,
                },
            ),
        ),
        call is SendMessage && found == Found::Message(msg) ==> o.event == Some(
            Event::Talk(TalkEvent::MessageSent(msg)),
        ),
        call is EditMessage && found == Found::Message(msg) ==> o.event == Some(
            Event::Talk(TalkEvent::WsMessageEdited(msg)),
        ),
        call matches Call::DeleteMessage { conversation_id, message_id } ==> o.event == Some(
            Event::Talk(TalkEvent::WsMessageDeleted { conversation_id, message_id }),
        ),
        call matches Call::DeleteConversation { conversation_id } ==> o.event == Some(
            Event::Talk(TalkEvent::ConversationDeleted(conversation_id)),
        ),
        call is CreateConversation && found == Found::Conversation(conv) ==> o.event == Some(
            Event::Talk(TalkEvent::ConversationCreated(conv)),
        ),
        call is Verify && found == Found::Account(user) ==> o.event == Some(
            Event::Account(AccountEvent::Verified(user)),
        ),
        (call is UpdateName || call is SetAvatar || call is TwoFaEnable || call is TwoFaDisable) && found
            == Found::Account(user) ==> o.event == Some(
            Event::Account(AccountEvent::UserUpdated(user)),
        ),
        call is LoadProfile && found == Found::Card(card) ==> o.event == Some(
            Event::People(PeopleEvent::Profile(card)),
        ),
        call is LoadContextProfile && found == Found::Card(card) ==> o.event == Some(
            Event::People(PeopleEvent::ContextProfile(card)),
        ),
        call is Moderate && found == Found::Card(card) ==> o.event == Some(
            Event::People(PeopleEvent::ModerationResult(card)),
        ),
        found matches Found::Presence(list) ==> (call is LoadPresence ==> o.event == Some(
            Event::People(PeopleEvent::PresenceBatch(list)),
        )),
        found matches Found::Link(p) ==> (call is LookUpLink ==> o.event == Some(
            Event::File(FileEvent::LinkPreview(p)),
        )),
        found matches Found::Session { token, user: u } ==> (call is Register || call is LoginTwoFa
            ==> o.event == Some(Event::Account(AccountEvent::LoggedIn { token, user: u }))),
        call matches Call::Restore { token } ==> (found == Found::Account(user) ==> o.event == Some(
            Event::Account(AccountEvent::LoggedIn { token, user }),
        )),
{
}

/// A request without an answer is told as an error with its reason, and the kept session stays; only
/// links and presence are passed over.
pub proof fn lost_answers_are_errors(call: Call, why: String, found: Found, o: Outcome)
    requires
        is_outcome(call, Reply::Lost(why), found, o),
    ensures
        !o.forget_session,
        !(call is LookUpLink || call is LoadPresence) ==> ((o.event matches Some(
            Event::Account(AccountEvent::Error(t)),
        ) && t@ == why@) || (o.event matches Some(Event::Account(AccountEvent::AuthFailed(t))) && (t@
            == why@ || t@ == "could not reach server: "@ + why@))),
        call matches Call::LookUpLink { url } ==> o.event == Some(
            Event::File(FileEvent::LinkPreviewFailed(url)),
        ),
{
}

/// A kept session is forgotten where its server refuses it, and only there.
pub proof fn refused_sessions_are_forgotten(
    token: String,
    code: u16,
    status: String,
    body: String,
    found: Found,
    o: Outcome,
)
    requires
        is_outcome(Call::Restore { token }, Reply::Answer { code, status, body }, found, o),
    ensures
        code == 401 || code == 403 ==> o.forget_session,
        o.forget_session ==> code == 401 || code == 403 || 200 <= code < 300,
        o.forget_session ==> (o.event matches Some(Event::Account(AccountEvent::AuthFailed(_)))),
{
}

/// What comes over the open socket is handed on as what it is, and what waits to be sent is sent.
pub proof fn sockets_carry_both_ways(h: Happening, next: Stage, deed: Deed)
    requires
        socket_step(Stage::Open, h, next, deed),
    ensures
        h matches Happening::Outgoing(text) ==> next == Stage::Open && deed == Deed::Send(text),
        h matches Happening::Text(Some(e)) ==> next == Stage::Open && {
            &&& e matches WsHubEvent::Message { message } ==> deed == Deed::Tell(
                Event::Talk(TalkEvent::WsMessage(message)),
            )
            &&& e matches WsHubEvent::MessageEdited { message } ==> deed == Deed::Tell(
                Event::Talk(TalkEvent::WsMessageEdited(message)),
            )
            &&& e matches WsHubEvent::MessageDeleted { conversation_id, message_id } ==> deed
                == Deed::Tell(
                Event::Talk(TalkEvent::WsMessageDeleted { conversation_id, message_id }),
            )
            &&& e matches WsHubEvent::Signal { signal } ==> deed == Deed::Tell(
                Event::File(FileEvent::P2pSignal(signal)),
            )
            &&& e matches WsHubEvent::Typing { conversation_id, from_user_id, from_username } ==> deed
                == Deed::Tell(
                Event::People(
                    PeopleEvent::Typing { conversation_id, from_user_id, from_username },
                ),
            )
            &&& e matches WsHubEvent::Presence { user_id, online } ==> deed == Deed::Tell(
                Event::People(PeopleEvent::Presence { user_id, online }),
            )
        },
        h is Closed || h is SendFailed || h is ServerChanged || h is Token ==> next == Stage::Pausing
            && deed == Deed::TellAndPause(Event::Talk(TalkEvent::WsStatus(false)), 3),
{
}

/// The socket is made with the session that there is, and not without one; the user is told when it
/// stands.
pub proof fn sockets_follow_the_session(
    stage: Stage,
    token: String,
    h: Happening,
    next: Stage,
    deed: Deed,
)
    requires
        socket_step(stage, h, next, deed),
    ensures
        stage == Stage::Waiting && h == Happening::Token(Some(token)) ==> next == Stage::Connecting
            && deed == (Deed::Connect { token }),
        stage == Stage::Pausing && h == Happening::Rested(Some(token)) ==> next == Stage::Connecting
            && deed == (Deed::Connect { token }),
        stage == Stage::Connecting && h is Connected ==> next == Stage::Open && deed == Deed::Tell(
            Event::Talk(TalkEvent::WsStatus(true)),
        ),
        stage == Stage::Connecting && (h is Refused || h is BadAddress) ==> next == Stage::Pausing,
{
}

/// A request is made in the name of the session, but for those that make a session, and the look at a
/// link, which are made in nobody's.
pub proof fn requests_go_in_the_users_name(
    server: Seq<char>,
    token: Seq<char>,
    call: Call,
    r: Request,
)
    requires
        says_call(server, token, call, r),
    ensures
        call is Login || call is Register || call is LoginTwoFa || call is LookUpLink
            ==> r.bearer is None,
        call matches Call::Restore { token: kept } ==> (r.bearer matches Some(b) && b@ == kept@),
        !(call is Login || call is Register || call is LoginTwoFa || call is LookUpLink
            || call is Restore) ==> (r.bearer matches Some(b) && b@ == token),
{
}

} // verus!
