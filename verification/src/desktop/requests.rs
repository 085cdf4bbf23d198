//! The requests of the desktop client, and what their answers come to.

use vstd::prelude::*;

use crate::chat::action::SentFile;
use crate::chat::new_conv::copy_ids;
use crate::chat::requests::{
    field_texts, fields, file_fields, is_success, put, put_file, put_text, text_field, Field,
    FieldModel, Method, Reply, Request,
};
use crate::chat::types::{ApiMsg, Conversation, Profile, User};
use crate::desktop::events::{AccountEvent, Event, FileEvent, PeopleEvent, TalkEvent};
use crate::desktop::state::Preview;
use crate::json::{
    json_flag, json_flag_at, json_has, json_present, json_text, json_text_at, json_text_or, text_or,
};
use crate::number::{decimal, parse_u64, parsed, u64_text};
use crate::server::{api_url, server_path};
use crate::text::{concat2, concat3, concat4, copy_text, join_texts, joined, texts, trim, trim_text};

verus! {

/// A request to the server.
pub enum Call {
    Login { email: String, password: String, remember_me: bool },
    Register { email: String, username: String, password: String },
    LoginTwoFa { pending_token: String, code: String, remember_me: bool },
    /// Ask whether a kept session still holds.
    Restore { token: String },
    Verify { code: String },
    ResendCode,
    TwoFaSetup,
    TwoFaEnable { code: String },
    TwoFaDisable { code: String },
    UpdateName { display_name: String },
    SetAvatar { avatar: String },
    LookUpLink { url: String },
    LoadConversations,
    LoadPresence { ids: Vec<u64> },
    LoadMessages { conversation_id: u64 },
    CreateConversation { member_ids: Vec<u64>, handles: Vec<String> },
    SendMessage { conversation_id: u64, body: String, file: Option<SentFile> },
    EditMessage { conversation_id: u64, message_id: u64, body: String },
    DeleteMessage { conversation_id: u64, message_id: u64 },
    LoadProfile { user_id: u64 },
    LoadContextProfile { user_id: u64 },
    Moderate { user_id: u64, verb: String },
    DeleteConversation { conversation_id: u64 },
}

pub open spec fn call_method(call: Call) -> Method {
    match call {
        Call::Restore { .. } => Method::Get,
        Call::LoadConversations => Method::Get,
        Call::LoadPresence { .. } => Method::Get,
        Call::LoadMessages { .. } => Method::Get,
        Call::LoadProfile { .. } => Method::Get,
        Call::LoadContextProfile { .. } => Method::Get,
        Call::UpdateName { .. } => Method::Patch,
        Call::EditMessage { .. } => Method::Patch,
        Call::DeleteMessage { .. } => Method::Delete,
        Call::DeleteConversation { .. } => Method::Delete,
        _ => Method::Post,
    }
}

/// The numbers of a list, in decimal.
pub open spec fn decimals(ids: Seq<u64>) -> Seq<Seq<char>> {
    ids.map_values(|n: u64| decimal(n as nat))
}

/// The path of a request, behind the address of the server.
pub open spec fn call_path(call: Call) -> Seq<char> {
    match call {
        Call::Login { .. } => "/api/login"@,
        Call::Register { .. } => "/api/register"@,
        Call::LoginTwoFa { .. } => "/api/login/2fa"@,
        Call::Restore { .. } => "/api/me"@,
        Call::Verify { .. } => "/api/verify"@,
        Call::ResendCode => "/api/verify/resend"@,
        Call::TwoFaSetup => "/api/me/2fa/setup"@,
        Call::TwoFaEnable { .. } => "/api/me/2fa/enable"@,
        Call::TwoFaDisable { .. } => "/api/me/2fa/disable"@,
        Call::UpdateName { .. } => "/api/me"@,
        Call::SetAvatar { .. } => "/api/me/avatar"@,
        Call::LookUpLink { .. } => "/api/link-preview"@,
        Call::LoadConversations => "/api/conversations"@,
        Call::LoadPresence { ids } => "/api/presence?ids="@ + joined(decimals(ids@), ","@),
        Call::LoadMessages { conversation_id } => "/api/conversations/"@ + decimal(
            conversation_id as nat,
        ) + "/messages"@,
        Call::CreateConversation { .. } => "/api/conversations"@,
        Call::SendMessage { conversation_id, .. } => "/api/conversations/"@ + decimal(
            conversation_id as nat,
        ) + "/messages"@,
        Call::EditMessage { conversation_id, message_id, .. } => "/api/conversations/"@ + decimal(
            conversation_id as nat,
        ) + "/messages/"@ + decimal(message_id as nat),
        Call::DeleteMessage { conversation_id, message_id } => "/api/conversations/"@ + decimal(
            conversation_id as nat,
        ) + "/messages/"@ + decimal(message_id as nat),
        Call::LoadProfile { user_id } => "/api/users/"@ + decimal(user_id as nat),
        Call::LoadContextProfile { user_id } => "/api/users/"@ + decimal(user_id as nat),
        Call::Moderate { user_id, verb } => "/api/users/"@ + decimal(user_id as nat) + "/"@ + verb@,
        Call::DeleteConversation { conversation_id } => "/api/conversations/"@ + decimal(
            conversation_id as nat,
        ),
    }
}

/// The body of a request. A new name is sent without the blanks around it.
pub open spec fn call_body(call: Call) -> Option<Seq<(Seq<char>, FieldModel)>> {
    match call {
        Call::Login { email, password, remember_me } => Some(
            seq![
                text_field("email"@, email@),
                text_field("password"@, password@),
                ("remember_me"@, FieldModel::Flag(remember_me)),
            ],
        ),
        Call::Register { email, username, password } => Some(
            seq![
                text_field("email"@, email@),
                text_field("username"@, username@),
                text_field("password"@, password@),
            ],
        ),
        Call::LoginTwoFa { pending_token, code, remember_me } => Some(
            seq![
                text_field("pending_token"@, pending_token@),
                text_field("code"@, code@),
                ("remember_me"@, FieldModel::Flag(remember_me)),
            ],
        ),
        Call::Verify { code } => Some(seq![text_field("code"@, code@)]),
        Call::TwoFaEnable { code } => Some(seq![text_field("code"@, code@)]),
        Call::TwoFaDisable { code } => Some(seq![text_field("code"@, code@)]),
        Call::UpdateName { display_name } => Some(
            seq![text_field("display_name"@, trim(display_name@))],
        ),
        Call::SetAvatar { avatar } => Some(seq![text_field("avatar"@, avatar@)]),
        Call::LookUpLink { url } => Some(seq![text_field("url"@, url@)]),
        Call::CreateConversation { member_ids, handles } => Some(
            seq![
                ("member_ids"@, FieldModel::Ids(member_ids@)),
                ("handles"@, FieldModel::Texts(texts(handles@))),
            ],
        ),
        Call::SendMessage { body, file, .. } => {
            let text = seq![text_field("body"@, body@)];
            match file {
                Some(f) => Some(text + file_fields(f)),
                None => Some(text),
            }
        },
        Call::EditMessage { body, .. } => Some(seq![text_field("body"@, body@)]),
        _ => None,
    }
}

/// In whose name a request is sent: links are looked up, and sessions made, in nobody's.
pub open spec fn call_bearer(call: Call, token: Seq<char>) -> Option<Seq<char>> {
    match call {
        Call::Login { .. } => None,
        Call::Register { .. } => None,
        Call::LoginTwoFa { .. } => None,
        Call::LookUpLink { .. } => None,
        Call::Restore { token } => Some(token@),
        _ => Some(token),
    }
}

/// A request says what the call says.
pub open spec fn says_call(server: Seq<char>, token: Seq<char>, call: Call, r: Request) -> bool {
    &&& r.method == call_method(call)
    &&& r.url@ == server_path(server, call_path(call))
    &&& match (r.bearer, call_bearer(call, token)) {
        (Some(t), Some(b)) => t@ == b,
        (None, None) => true,
        _ => false,
    }
    &&& match (r.body, call_body(call)) {
        (Some(b), Some(m)) => fields(b@) == m,
        (None, None) => true,
        _ => false,
    }
}

fn method_for(call: &Call) -> (m: Method)
    ensures
        m == call_method(*call),
{
    match call {
        Call::Restore { .. } => Method::Get,
        Call::LoadConversations => Method::Get,
        Call::LoadPresence { .. } => Method::Get,
        Call::LoadMessages { .. } => Method::Get,
        Call::LoadProfile { .. } => Method::Get,
        Call::LoadContextProfile { .. } => Method::Get,
        Call::UpdateName { .. } => Method::Patch,
        Call::EditMessage { .. } => Method::Patch,
        Call::DeleteMessage { .. } => Method::Delete,
        Call::DeleteConversation { .. } => Method::Delete,
        _ => Method::Post,
    }
}

fn id_list(ids: &Vec<u64>) -> (r: String)
    ensures
        r@ == joined(decimals(ids@), ","@),
{
    let mut parts: Vec<String> = Vec::new();
    let mut i: usize = 0;
    while i < ids.len()
        invariant
            i <= ids.len(),
            parts.len() == i,
            forall|j: int| 0 <= j < i ==> (#[trigger] parts@[j])@ == decimal(ids@[j] as nat),
        decreases ids.len() - i,
    {
        parts.push(u64_text(ids[i]));
        i += 1;
    }
    proof {
        assert(texts(parts@) =~= decimals(ids@));
    }
    join_texts(&parts, ",")
}

fn path_for(call: &Call) -> (r: String)
    ensures
        r@ == call_path(*call),
{
    match call {
        Call::Login { .. } => copy_text("/api/login"),
        Call::Register { .. } => copy_text("/api/register"),
        Call::LoginTwoFa { .. } => copy_text("/api/login/2fa"),
        Call::Restore { .. } => copy_text("/api/me"),
        Call::Verify { .. } => copy_text("/api/verify"),
        Call::ResendCode => copy_text("/api/verify/resend"),
        Call::TwoFaSetup => copy_text("/api/me/2fa/setup"),
        Call::TwoFaEnable { .. } => copy_text("/api/me/2fa/enable"),
        Call::TwoFaDisable { .. } => copy_text("/api/me/2fa/disable"),
        Call::UpdateName { .. } => copy_text("/api/me"),
        Call::SetAvatar { .. } => copy_text("/api/me/avatar"),
        Call::LookUpLink { .. } => copy_text("/api/link-preview"),
        Call::LoadConversations => copy_text("/api/conversations"),
        Call::LoadPresence { ids } => concat2("/api/presence?ids=", id_list(ids).as_str()),
        Call::LoadMessages { conversation_id } => concat3(
            "/api/conversations/",
            u64_text(*conversation_id).as_str(),
            "/messages",
        ),
        Call::CreateConversation { .. } => copy_text("/api/conversations"),
        Call::SendMessage { conversation_id, .. } => concat3(
            "/api/conversations/",
            u64_text(*conversation_id).as_str(),
            "/messages",
        ),
        Call::EditMessage { conversation_id, message_id, .. } => concat4(
            "/api/conversations/",
            u64_text(*conversation_id).as_str(),
            "/messages/",
            u64_text(*message_id).as_str(),
        ),
        Call::DeleteMessage { conversation_id, message_id } => concat4(
            "/api/conversations/",
            u64_text(*conversation_id).as_str(),
            "/messages/",
            u64_text(*message_id).as_str(),
        ),
        Call::LoadProfile { user_id } => concat2("/api/users/", u64_text(*user_id).as_str()),
        Call::LoadContextProfile { user_id } => concat2("/api/users/", u64_text(*user_id).as_str()),
        Call::Moderate { user_id, verb } => concat4(
            "/api/users/",
            u64_text(*user_id).as_str(),
            "/",
            verb.as_str(),
        ),
        Call::DeleteConversation { conversation_id } => concat2(
            "/api/conversations/",
            u64_text(*conversation_id).as_str(),
        ),
    }
}

fn body_for(call: &Call) -> (r: Option<Vec<(String, Field)>>)
    ensures
        match (r, call_body(*call)) {
            (Some(b), Some(m)) => fields(b@) == m,
            (None, None) => true,
            _ => false,
        },
{
    let mut b: Vec<(String, Field)> = Vec::new();
    proof {
        assert(fields(b@) =~= Seq::empty());
    }
    match call {
        Call::Login { email, password, remember_me } => {
            put_text(&mut b, "email", email.as_str());
            put_text(&mut b, "password", password.as_str());
            put(&mut b, "remember_me", Field::Flag(*remember_me));
        },
        Call::Register { email, username, password } => {
            put_text(&mut b, "email", email.as_str());
            put_text(&mut b, "username", username.as_str());
            put_text(&mut b, "password", password.as_str());
        },
        Call::LoginTwoFa { pending_token, code, remember_me } => {
            put_text(&mut b, "pending_token", pending_token.as_str());
            put_text(&mut b, "code", code.as_str());
            put(&mut b, "remember_me", Field::Flag(*remember_me));
        },
        Call::Verify { code } => put_text(&mut b, "code", code.as_str()),
        Call::TwoFaEnable { code } => put_text(&mut b, "code", code.as_str()),
        Call::TwoFaDisable { code } => put_text(&mut b, "code", code.as_str()),
        Call::UpdateName { display_name } => put_text(
            &mut b,
            "display_name",
            trim_text(display_name.as_str()).as_str(),
        ),
        Call::SetAvatar { avatar } => put_text(&mut b, "avatar", avatar.as_str()),
        Call::LookUpLink { url } => put_text(&mut b, "url", url.as_str()),
        Call::CreateConversation { member_ids, handles } => {
            put(&mut b, "member_ids", Field::Ids(copy_ids(member_ids)));
            put(&mut b, "handles", field_texts(handles));
        },
        Call::SendMessage { body, file, .. } => {
            put_text(&mut b, "body", body.as_str());
            match file {
                Some(f) => put_file(&mut b, f),
                None => {},
            }
        },
        Call::EditMessage { body, .. } => put_text(&mut b, "body", body.as_str()),
        _ => return None,
    }
    proof {
        let m = call_body(*call)->0;
        assert(fields(b@) =~= m);
    }
    Some(b)
}

fn bearer_for(call: &Call, token: &str) -> (r: Option<String>)
    ensures
        match (r, call_bearer(*call, token@)) {
            (Some(t), Some(b)) => t@ == b,
            (None, None) => true,
            _ => false,
        },
{
    match call {
        Call::Login { .. } => None,
        Call::Register { .. } => None,
        Call::LoginTwoFa { .. } => None,
        Call::LookUpLink { .. } => None,
        Call::Restore { token } => Some(token.clone()),
        _ => Some(copy_text(token)),
    }
}

/// The request of a call, to `server` and in the name of `token`.
pub fn request(server: &str, token: &str, call: &Call) -> (r: Request)
    ensures
        says_call(server@, token@, *call, r),
{
    let path = path_for(call);
    Request {
        method: method_for(call),
        url: api_url(server, path.as_str()),
        bearer: bearer_for(call, token),
        body: body_for(call),
    }
}

// ---------------------------------------------------------------------------
// Answers
// ---------------------------------------------------------------------------

/// What a refusal says: the error that the server gives, or the status.
pub open spec fn error_text(status: Seq<char>, body: Seq<char>) -> Seq<char> {
    text_or(json_text(body, "/error"@), "HTTP "@ + status)
}

/// What a refusal says.
pub fn error_message(status: &str, body: &str) -> (r: String)
    ensures
        r@ == error_text(status@, body@),
{
    match json_text_at(body, "/error") {
        Some(s) => s,
        None => concat2("HTTP ", status),
    }
}

/// What was read out of the answer to a successful request.
pub enum Found {
    Nothing,
    Session { token: String, user: User },
    Account(User),
    Conversations(Vec<Conversation>),
    Conversation(Conversation),
    Messages(Vec<ApiMsg>),
    Message(ApiMsg),
    Card(Profile),
    Link(Preview),
    Presence(Vec<(u64, bool)>),
}

/// What a request comes to.
pub struct Outcome {
    pub event: Option<Event>,
    /// Whether the kept session is no good any more.
    pub forget_session: bool,
}

pub open spec fn went_well(reply: Reply) -> bool {
    match reply {
        Reply::Lost(_) => false,
        Reply::Answer { code, .. } => is_success(code),
    }
}

/// The text of an answer.
pub open spec fn reply_body(reply: Reply) -> Seq<char> {
    match reply {
        Reply::Lost(_) => Seq::empty(),
        Reply::Answer { body, .. } => body@,
    }
}

pub open spec fn is_json(text: Seq<char>) -> bool {
    json_present(text, ""@)
}

/// What is shown of a request that did not go well.
pub open spec fn failure(reply: Reply) -> Seq<char> {
    match reply {
        Reply::Lost(e) => e@,
        Reply::Answer { status, body, .. } => error_text(status@, body@),
    }
}

pub open spec fn says_error(e: Option<Event>, text: Seq<char>) -> bool {
    e matches Some(Event::Account(AccountEvent::Error(t))) && t@ == text
}

pub open spec fn says_auth_failed(e: Option<Event>, text: Seq<char>) -> bool {
    e matches Some(Event::Account(AccountEvent::AuthFailed(t))) && t@ == text
}

/// The session that was asked for, or a complaint about the answer.
pub open spec fn says_session(e: Option<Event>, found: Found) -> bool {
    match found {
        Found::Session { token, user } => e == Some(
            Event::Account(AccountEvent::LoggedIn { token, user }),
        ),
        _ => says_auth_failed(e, "malformed server response"@),
    }
}

/// What the session requests come to.
pub open spec fn session_outcome(call: Call, reply: Reply, found: Found, o: Outcome) -> bool {
    match call {
        Call::Restore { token } => match reply {
            Reply::Lost(e) => says_auth_failed(o.event, "could not reach server: "@ + e@)
                && !o.forget_session,
            Reply::Answer { code, .. } => match found {
                Found::Account(user) if is_success(code) => o.event == Some(
                    Event::Account(AccountEvent::LoggedIn { token, user }),
                ) && !o.forget_session,
                _ => if is_success(code) || code == 401 || code == 403 {
                    says_auth_failed(o.event, "session expired, please log in again"@)
                        && o.forget_session
                } else {
                    says_auth_failed(o.event, failure(reply)) && !o.forget_session
                },
            },
        },
        _ => {
            let body = reply_body(reply);
            &&& !o.forget_session
            &&& if !went_well(reply) {
                says_auth_failed(o.event, failure(reply))
            } else if call is Login && json_flag(body, "/requires_2fa"@) == Some(true) {
                o.event matches Some(Event::Account(AccountEvent::TwoFaRequired { pending_token }))
                    && pending_token@ == text_or(json_text(body, "/pending_token"@), Seq::empty())
            } else {
                says_session(o.event, found)
            }
        },
    }
}

/// What an answer about the user's own account comes to.
pub open spec fn account_event(call: Call, reply: Reply, found: Found, e: Option<Event>) -> bool {
    let body = reply_body(reply);
    if !went_well(reply) {
        says_error(e, failure(reply))
    } else {
        match call {
            Call::ResendCode => e matches Some(Event::Account(AccountEvent::Info(t))) && t@
                == "Verification code sent — check your email"@,
            Call::TwoFaSetup => if is_json(body) {
                e matches Some(Event::Account(AccountEvent::TwoFaSetup { secret, qr })) && secret@
                    == text_or(json_text(body, "/secret"@), Seq::empty()) && qr@ == text_or(
                    json_text(body, "/qr"@),
                    Seq::empty(),
                )
            } else {
                says_error(e, "malformed server response"@)
            },
            Call::TwoFaEnable { .. } | Call::TwoFaDisable { .. } => match found {
                Found::Account(u) => e == Some(Event::Account(AccountEvent::UserUpdated(u))),
                _ => e is None,
            },
            _ => if !is_json(body) {
                says_error(e, "malformed server response"@)
            } else {
                match found {
                    Found::Account(u) => e == Some(
                        Event::Account(
                            if call is Verify {
                                AccountEvent::Verified(u)
                            } else {
                                AccountEvent::UserUpdated(u)
                            },
                        ),
                    ),
                    _ => e is None,
                }
            },
        }
    }
}

/// What an answer about conversations comes to.
pub open spec fn talk_event(call: Call, reply: Reply, found: Found, e: Option<Event>) -> bool {
    if !went_well(reply) {
        says_error(e, failure(reply))
    } else {
        match call {
            Call::DeleteMessage { conversation_id, message_id } => e == Some(
                Event::Talk(TalkEvent::WsMessageDeleted { conversation_id, message_id }),
            ),
            Call::DeleteConversation { conversation_id } => e == Some(
                Event::Talk(TalkEvent::ConversationDeleted(conversation_id)),
            ),
            Call::CreateConversation { .. } => match found {
                Found::Conversation(c) => e == Some(
                    Event::Talk(TalkEvent::ConversationCreated(c)),
                ),
                _ => says_error(e, "malformed server response"@),
            },
            _ => if !is_json(reply_body(reply)) {
                says_error(e, "malformed server response"@)
            } else {
                match call {
                    Call::LoadConversations => e matches Some(
                        Event::Talk(TalkEvent::Conversations(list)),
                    ) && match found {
                        Found::Conversations(cs) => list == cs,
                        _ => list@.len() == 0,
                    },
                    Call::LoadMessages { conversation_id } => e matches Some(
                        Event::Talk(TalkEvent::Messages { conversation_id: id, messages }),
                    ) && id == conversation_id && match found {
                        Found::Messages(ms) => messages == ms,
                        _ => messages@.len() == 0,
                    },
                    _ => match found {
                        Found::Message(m) => e == Some(
                            Event::Talk(
                                if call is SendMessage {
                                    TalkEvent::MessageSent(m)
                                } else {
                                    TalkEvent::WsMessageEdited(m)
                                },
                            ),
                        ),
                        _ => e is None,
                    },
                }
            },
        }
    }
}

/// What an answer about other users, or about a link, comes to.
pub open spec fn people_event(call: Call, reply: Reply, found: Found, e: Option<Event>) -> bool {
    match call {
        Call::LookUpLink { url } => match found {
            Found::Link(p) if went_well(reply) => e == Some(Event::File(FileEvent::LinkPreview(p))),
            _ => e == Some(Event::File(FileEvent::LinkPreviewFailed(url))),
        },
        Call::LoadPresence { .. } => if went_well(reply) && is_json(reply_body(reply)) {
            e matches Some(Event::People(PeopleEvent::PresenceBatch(list))) && match found {
                Found::Presence(l) => list == l,
                _ => list@.len() == 0,
            }
        } else {
            e is None
        },
        Call::Moderate { .. } => if !went_well(reply) {
            says_error(e, failure(reply))
        } else {
            match found {
                Found::Card(p) => e == Some(Event::People(PeopleEvent::ModerationResult(p))),
                _ => says_error(e, "malformed server response"@),
            }
        },
        _ => if reply is Lost {
            says_error(e, failure(reply))
        } else {
            match found {
                Found::Card(p) if went_well(reply) => e == Some(
                    Event::People(
                        if call is LoadProfile {
                            PeopleEvent::Profile(p)
                        } else {
                            PeopleEvent::ContextProfile(p)
                        },
                    ),
                ),
                _ => e == Some(Event::People(PeopleEvent::ProfileError)),
            }
        },
    }
}

/// What a request comes to. `found` is what was read out of the answer.
pub open spec fn is_outcome(call: Call, reply: Reply, found: Found, o: Outcome) -> bool {
    match call {
        Call::Login { .. } | Call::Register { .. } | Call::LoginTwoFa { .. } | Call::Restore { .. } =>
            session_outcome(call, reply, found, o),
        Call::Verify { .. } | Call::ResendCode | Call::TwoFaSetup | Call::TwoFaEnable { .. }
        | Call::TwoFaDisable { .. } | Call::UpdateName { .. } | Call::SetAvatar { .. } => {
            !o.forget_session && account_event(call, reply, found, o.event)
        },
        Call::LookUpLink { .. } | Call::LoadPresence { .. } | Call::LoadProfile { .. }
        | Call::LoadContextProfile { .. } | Call::Moderate { .. } => {
            !o.forget_session && people_event(call, reply, found, o.event)
        },
        _ => !o.forget_session && talk_event(call, reply, found, o.event),
    }
}

fn error(text: String) -> (e: Option<Event>)
    ensures
        says_error(e, text@),
{
    Some(Event::Account(AccountEvent::Error(text)))
}

fn auth_failed(text: String) -> (e: Option<Event>)
    ensures
        says_auth_failed(e, text@),
{
    Some(Event::Account(AccountEvent::AuthFailed(text)))
}

fn malformed() -> (e: Option<Event>)
    ensures
        says_error(e, "malformed server response"@),
{
    error(copy_text("malformed server response"))
}

fn succeeded(reply: &Reply) -> (b: bool)
    ensures
        b == went_well(*reply),
{
    match reply {
        Reply::Lost(_) => false,
        Reply::Answer { code, .. } => 200 <= *code && *code <= 299,
    }
}

fn failed(reply: &Reply) -> (r: String)
    ensures
        r@ == failure(*reply),
{
    match reply {
        Reply::Lost(e) => e.clone(),
        Reply::Answer { status, body, .. } => error_message(status.as_str(), body.as_str()),
    }
}

fn body_text(reply: &Reply) -> (r: String)
    ensures
        r@ == reply_body(*reply),
{
    match reply {
        Reply::Lost(_) => String::new(),
        Reply::Answer { body, .. } => body.clone(),
    }
}

fn optional_text(body: &str, pointer: &str) -> (r: String)
    ensures
        r@ == text_or(json_text(body@, pointer@), Seq::empty()),
{
    proof {
        reveal_strlit("");
        assert(""@ =~= Seq::empty());
    }
    json_text_or(body, pointer, "")
}

fn settle_session(call: Call, reply: Reply, found: Found) -> (o: Outcome)
    requires
        call is Login || call is Register || call is LoginTwoFa || call is Restore,
    ensures
        session_outcome(call, reply, found, o),
{
    let is_login = match &call {
        Call::Login { .. } => true,
        _ => false,
    };
    match call {
        Call::Restore { token } => {
            match &reply {
                Reply::Lost(e) => {
                    let text = concat2("could not reach server: ", e.as_str());
                    Outcome { event: auth_failed(text), forget_session: false }
                },
                Reply::Answer { code, .. } => {
                    let ok = succeeded(&reply);
                    match found {
                        Found::Account(user) if ok => Outcome {
                            event: Some(Event::Account(AccountEvent::LoggedIn { token, user })),
                            forget_session: false,
                        },
                        _ => {
                            if ok || *code == 401 || *code == 403 {
                                let text = copy_text("session expired, please log in again");
                                Outcome { event: auth_failed(text), forget_session: true }
                            } else {
                                Outcome { event: auth_failed(failed(&reply)), forget_session: false }
                            }
                        },
                    }
                },
            }
        },
        _ => {
            if !succeeded(&reply) {
                return Outcome { event: auth_failed(failed(&reply)), forget_session: false };
            }
            let body = body_text(&reply);
            if is_login {
                let two_steps = match json_flag_at(body.as_str(), "/requires_2fa") {
                    Some(b) => b,
                    None => false,
                };
                if two_steps {
                    let pending_token = optional_text(body.as_str(), "/pending_token");
                    return Outcome {
                        event: Some(
                            Event::Account(AccountEvent::TwoFaRequired { pending_token }),
                        ),
                        forget_session: false,
                    };
                }
            }
            let event = match found {
                Found::Session { token, user } => Some(
                    Event::Account(AccountEvent::LoggedIn { token, user }),
                ),
                _ => auth_failed(copy_text("malformed server response")),
            };
            Outcome { event, forget_session: false }
        },
    }
}

fn settle_account(call: Call, reply: Reply, found: Found) -> (e: Option<Event>)
    ensures
        account_event(call, reply, found, e),
{
    if !succeeded(&reply) {
        return error(failed(&reply));
    }
    let body = body_text(&reply);
    match call {
        Call::ResendCode => Some(
            Event::Account(
                AccountEvent::Info(copy_text("Verification code sent — check your email")),
            ),
        ),
        Call::TwoFaSetup => {
            if !json_has(body.as_str(), "") {
                return malformed();
            }
            let secret = optional_text(body.as_str(), "/secret");
            let qr = optional_text(body.as_str(), "/qr");
            Some(Event::Account(AccountEvent::TwoFaSetup { secret, qr }))
        },
        Call::TwoFaEnable { .. } | Call::TwoFaDisable { .. } => match found {
            Found::Account(u) => Some(Event::Account(AccountEvent::UserUpdated(u))),
            _ => None,
        },
        _ => {
            if !json_has(body.as_str(), "") {
                return malformed();
            }
            match found {
                Found::Account(u) => match call {
                    Call::Verify { .. } => Some(Event::Account(AccountEvent::Verified(u))),
                    _ => Some(Event::Account(AccountEvent::UserUpdated(u))),
                },
                _ => None,
            }
        },
    }
}

fn settle_talk(call: Call, reply: Reply, found: Found) -> (e: Option<Event>)
    ensures
        talk_event(call, reply, found, e),
{
    if !succeeded(&reply) {
        return error(failed(&reply));
    }
    match call {
        Call::DeleteMessage { conversation_id, message_id } => {
            return Some(
                Event::Talk(TalkEvent::WsMessageDeleted { conversation_id, message_id }),
            );
        },
        Call::DeleteConversation { conversation_id } => {
            return Some(Event::Talk(TalkEvent::ConversationDeleted(conversation_id)));
        },
        Call::CreateConversation { .. } => {
            return match found {
                Found::Conversation(c) => Some(Event::Talk(TalkEvent::ConversationCreated(c))),
                _ => malformed(),
            };
        },
        _ => {},
    }
    let body = body_text(&reply);
    if !json_has(body.as_str(), "") {
        return malformed();
    }
    match call {
        Call::LoadConversations => {
            let list = match found {
                Found::Conversations(cs) => cs,
                _ => Vec::new(),
            };
            Some(Event::Talk(TalkEvent::Conversations(list)))
        },
        Call::LoadMessages { conversation_id } => {
            let messages = match found {
                Found::Messages(ms) => ms,
                _ => Vec::new(),
            };
            Some(Event::Talk(TalkEvent::Messages { conversation_id, messages }))
        },
        _ => match found {
            Found::Message(m) => match call {
                Call::SendMessage { .. } => Some(Event::Talk(TalkEvent::MessageSent(m))),
                _ => Some(Event::Talk(TalkEvent::WsMessageEdited(m))),
            },
            _ => None,
        },
    }
}

fn settle_people(call: Call, reply: Reply, found: Found) -> (e: Option<Event>)
    ensures
        people_event(call, reply, found, e),
{
    let ok = succeeded(&reply);
    let lost = match &reply {
        Reply::Lost(_) => true,
        _ => false,
    };
    match call {
        Call::LookUpLink { url } => match found {
            Found::Link(p) if ok => Some(Event::File(FileEvent::LinkPreview(p))),
            _ => Some(Event::File(FileEvent::LinkPreviewFailed(url))),
        },
        Call::LoadPresence { .. } => {
            let body = body_text(&reply);
            if !ok || !json_has(body.as_str(), "") {
                return None;
            }
            let list = match found {
                Found::Presence(l) => l,
                _ => Vec::new(),
            };
            Some(Event::People(PeopleEvent::PresenceBatch(list)))
        },
        Call::Moderate { .. } => {
            if !ok {
                return error(failed(&reply));
            }
            match found {
                Found::Card(p) => Some(Event::People(PeopleEvent::ModerationResult(p))),
                _ => malformed(),
            }
        },
        _ => {
            if lost {
                return error(failed(&reply));
            }
            match found {
                Found::Card(p) if ok => match call {
                    Call::LoadProfile { .. } => Some(Event::People(PeopleEvent::Profile(p))),
                    _ => Some(Event::People(PeopleEvent::ContextProfile(p))),
                },
                _ => Some(Event::People(PeopleEvent::ProfileError)),
            }
        },
    }
}

/// What a request comes to. `found` is what was read out of the answer.
pub fn settle(call: Call, reply: Reply, found: Found) -> (o: Outcome)
    ensures
        is_outcome(call, reply, found, o),
{
    match &call {
        Call::Login { .. } | Call::Register { .. } | Call::LoginTwoFa { .. } | Call::Restore { .. } =>
            settle_session(call, reply, found),
        Call::Verify { .. } | Call::ResendCode | Call::TwoFaSetup | Call::TwoFaEnable { .. }
        | Call::TwoFaDisable { .. } | Call::UpdateName { .. } | Call::SetAvatar { .. } => Outcome {
            event: settle_account(call, reply, found),
            forget_session: false,
        },
        Call::LookUpLink { .. } | Call::LoadPresence { .. } | Call::LoadProfile { .. }
        | Call::LoadContextProfile { .. } | Call::Moderate { .. } => Outcome {
            event: settle_people(call, reply, found),
            forget_session: false,
        },
        _ => Outcome { event: settle_talk(call, reply, found), forget_session: false },
    }
}

/// The users of a presence list; entries that name no user, or say nothing of one, are left out.
pub open spec fn presence_of(raw: Seq<(String, Option<bool>)>) -> Seq<(u64, bool)>
    decreases raw.len(),
{
    if raw.len() == 0 {
        Seq::empty()
    } else {
        let rest = presence_of(raw.drop_last());
        match (parsed(raw.last().0@, u64::MAX as nat), raw.last().1) {
            (Some(n), Some(online)) => rest.push((n as u64, online)),
            _ => rest,
        }
    }
}

/// Reads a presence list. An entry has a value where it is true or false.
pub fn read_presence(raw: &Vec<(String, Option<bool>)>) -> (r: Vec<(u64, bool)>)
    ensures
        r@ == presence_of(raw@),
{
    let mut r: Vec<(u64, bool)> = Vec::new();
    let mut i: usize = 0;
    while i < raw.len()
        invariant
            i <= raw.len(),
            r@ == presence_of(raw@.take(i as int)),
        decreases raw.len() - i,
    {
        proof {
            assert(raw@.take(i + 1).drop_last() =~= raw@.take(i as int));
        }
        match (parse_u64(raw[i].0.as_str()), raw[i].1) {
            (Some(n), Some(online)) => r.push((n, online)),
            _ => {},
        }
        i += 1;
    }
    proof {
        assert(raw@.take(i as int) =~= raw@);
    }
    r
}

/// A session is kept for as long as the server may still accept it: only an answer that refuses it,
/// or that names no account, makes the client forget it.
pub proof fn sessions_outlast_outages(call: Call, reply: Reply, found: Found, o: Outcome)
    requires
        is_outcome(call, reply, found, o),
        reply is Lost,
    ensures
        !o.forget_session,
{
}

} // verus!
