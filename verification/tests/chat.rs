//! The chat client.

use feditexter::bot::{login_answered, login_event, second_factor_answered, Bot, LoginStep};
use feditexter::chat::action::{Action, Api};
use feditexter::chat::msg::{
    AuthMsg, ConvMsg, FileMsg, GuildMsg, Msg, NewConvMsg, ProfileMsg, WsHubEvent, WsMsg,
};
use feditexter::chat::requests::{
    login_message, normalize_server, number_result, request, saved_session, settle, text_result,
    Field, Method, Reply,
};
use feditexter::chat::socket::{subscription, ws_worker, Deed, Happening, Stage};
use feditexter::chat::start::{
    accent_from_file, device_id, restored, window_title, worth_keeping, CachedFile,
};
use feditexter::chat::state::AppState;
use feditexter::chat::types::{
    ApiMsg, Attachment, Conversation, Member, NewConvKind, Rgb, Screen, SearchUser, User,
};
use feditexter::chat::update::update;
use feditexter::colour::accent_to_hex;
use feditexter::desktop::events::{AccountEvent, Event};
use feditexter::frames::{accent_file, session_file};

const PURPLE: Rgb = Rgb { r: 125, g: 92, b: 224 };

fn state() -> AppState {
    AppState::new(0, PURPLE, "/cache".to_string())
}

fn user(id: u64, verified: bool, totp: bool) -> User {
    User {
        id,
        email: "a@b.c".to_string(),
        username: "ann".to_string(),
        display_name: "Ann".to_string(),
        email_verified: verified,
        avatar_url: None,
        totp_enabled: totp,
        is_bot: false,
        bio: String::new(),
        profile_visible: true,
    }
}

fn message(id: u64, conversation_id: u64, sender_id: u64, body: &str) -> ApiMsg {
    ApiMsg {
        id,
        conversation_id,
        sender_id,
        body: body.to_string(),
        created_at: "2024-01-02T03:04:05".to_string(),
        attachment_mime: None,
        attachment_name: None,
        attachment_data: None,
        file_id: None,
        file_size: None,
        thumbnail_data: None,
        edited_at: None,
        original_body: None,
        deleted_at: None,
        read: false,
    }
}

fn logged_in() -> AppState {
    let mut s = state();
    update(
        &mut s,
        Msg::Auth(AuthMsg::LoginResult(Ok(("tok".to_string(), user(1, true, true))))),
        0,
    );
    s
}

fn answer(code: u16, body: &str) -> Reply {
    Reply::Answer { code, status: format!("{code}"), body: body.to_string() }
}

#[test]
fn a_fresh_client_shows_the_login() {
    let s = state();
    assert_eq!(s.session.screen, Screen::Login);
    assert_eq!(s.session.server, "https://dergdungeon.com.au");
    assert!(s.session.remember_me);
    assert_eq!(s.new_conv.kind, NewConvKind::Direct);
    assert_eq!(s.people.accent, PURPLE);
}

#[test]
fn logins_lead_to_the_right_screen() {
    for (verified, totp, screen) in [
        (false, false, Screen::Verify),
        (true, false, Screen::TwoFaSetup),
        (true, true, Screen::Chat),
    ] {
        let mut s = state();
        let acts = update(
            &mut s,
            Msg::Auth(AuthMsg::LoginResult(Ok(("tok".to_string(), user(1, verified, totp))))),
            0,
        );
        assert_eq!(s.session.screen, screen);
        assert!(acts.iter().any(|a| matches!(a, Action::SaveSession { .. })));
    }
}

#[test]
fn the_second_factor_is_asked_for() {
    let mut s = state();
    update(&mut s, Msg::Auth(AuthMsg::LoginNeeds2fa("pending".to_string())), 0);
    assert_eq!(s.session.screen, Screen::TwoFa);
    update(&mut s, Msg::Auth(AuthMsg::TwoFaCodeChanged("123456".to_string())), 0);
    let acts = update(&mut s, Msg::Auth(AuthMsg::TwoFaSubmit), 0);
    match &acts[0] {
        Action::Call(Api::LoginTwoFa { pending_token, code, .. }) => {
            assert_eq!((pending_token.as_str(), code.as_str()), ("pending", "123456"));
        }
        _ => panic!("the code is sent"),
    }
    update(&mut s, Msg::Auth(AuthMsg::TwoFaResult(Ok(("t".to_string(), user(1, true, true))))), 0);
    assert_eq!(s.session.screen, Screen::Chat);
}

#[test]
fn dead_sessions_end_at_the_login() {
    let mut s = logged_in();
    let mut acts = update(&mut s, Msg::Error("__auth_failed__".to_string()), 0);
    assert_eq!(s.session.screen, Screen::Chat);
    match acts.remove(0) {
        Action::Done(m) => {
            let acts = update(&mut s, m, 0);
            assert!(acts.iter().any(|a| matches!(a, Action::ForgetSession)));
        }
        _ => panic!("the session ends"),
    }
    assert_eq!(s.session.screen, Screen::Login);
    assert!(s.session.token.is_none());
    let mut t = logged_in();
    assert!(update(&mut t, Msg::Error("broken".to_string()), 0).is_empty());
    assert_eq!(t.session.error, "broken");
}

#[test]
fn logout_leaves_nothing() {
    let mut s = logged_in();
    s.chats.messages.push(message(1, 1, 1, "x"));
    let acts = update(&mut s, Msg::Auth(AuthMsg::Logout), 0);
    assert!(matches!(acts[..], [Action::ForgetSession]));
    assert!(s.chats.messages.is_empty() && s.session.user.is_none());
}

#[test]
fn messages_are_shown_once_and_counted_elsewhere() {
    let mut s = logged_in();
    s.chats.selected_conversation = Some(7);
    let push = |s: &mut AppState, m: ApiMsg| {
        update(s, Msg::Ws(WsMsg::WsEvent(WsHubEvent::Message { message: m })), 0)
    };
    push(&mut s, message(1, 7, 2, "hi"));
    push(&mut s, message(1, 7, 2, "hi"));
    assert_eq!(s.chats.messages.len(), 1);
    let acts = push(&mut s, message(2, 8, 2, "there"));
    assert_eq!(s.chats.messages.len(), 1);
    assert_eq!(s.chats.unread.get(&8), Some(&1));
    assert!(matches!(acts[..], [Action::Call(Api::LoadConversations)]));
    update(
        &mut s,
        Msg::Ws(WsMsg::WsEvent(WsHubEvent::MessageDeleted { conversation_id: 7, message_id: 1 })),
        0,
    );
    assert!(s.chats.messages.is_empty());
}

#[test]
fn sending_takes_the_draft_and_the_file() {
    let mut s = logged_in();
    s.chats.selected_conversation = Some(7);
    s.chats.draft = "  ".to_string();
    assert!(update(&mut s, Msg::Conv(ConvMsg::SendMessage), 0).is_empty());
    s.chats.draft = " hello ".to_string();
    update(
        &mut s,
        Msg::File(FileMsg::FilePicked(Ok(Attachment {
            mime: "text/plain".to_string(),
            name: "a.txt".to_string(),
            file_id: "f1".to_string(),
            file_size: 2,
            thumbnail: String::new(),
            bytes: vec![1, 2],
        }))),
        0,
    );
    let acts = update(&mut s, Msg::Conv(ConvMsg::SendMessage), 0);
    match acts.last() {
        Some(Action::Call(Api::SendMessage { conversation_id, body, file })) => {
            assert_eq!(*conversation_id, 7);
            assert_eq!(body, "hello");
            assert_eq!(file.as_ref().unwrap().file_id, "f1");
        }
        _ => panic!("the message is sent"),
    }
    assert!(s.files.pending_attachment.is_none());
    assert!(s.files.own_files.contains(&"f1".to_string()));
    assert_eq!(s.chats.draft, "");
}

#[test]
fn typing_is_announced_every_two_seconds() {
    let mut s = logged_in();
    s.chats.selected_conversation = Some(7);
    s.links.ws_ready = true;
    let mut type_at = |t: u64| {
        update(&mut s, Msg::Conv(ConvMsg::DraftChanged("x".to_string())), t).len()
    };
    assert_eq!(type_at(1_999), 0);
    assert_eq!(type_at(2_000), 1);
    assert_eq!(type_at(3_999), 0);
    assert_eq!(type_at(4_000), 1);
}

#[test]
fn direct_conversations_hold_one_user() {
    let mut s = logged_in();
    update(&mut s, Msg::NewConv(NewConvMsg::OpenNewConv), 0);
    s.new_conv.results = vec![SearchUser {
        id: 5,
        username: "bob".to_string(),
        display_name: String::new(),
        domain: String::new(),
        avatar_url: None,
        is_bot: false,
    }];
    update(&mut s, Msg::NewConv(NewConvMsg::NewConvToggleUser(5)), 0);
    assert_eq!(s.new_conv.selected, vec![5]);
    update(&mut s, Msg::NewConv(NewConvMsg::NewConvToggleUser(5)), 0);
    assert!(s.new_conv.selected.is_empty());
    assert!(update(&mut s, Msg::NewConv(NewConvMsg::NewConvCreate), 0).is_empty());
}

#[test]
fn accents_are_applied_and_kept() {
    let mut s = logged_in();
    update(&mut s, Msg::Profile(ProfileMsg::AccentHexChanged("#00ff7f".to_string())), 0);
    let acts = update(&mut s, Msg::Profile(ProfileMsg::ApplyAccentHex), 0);
    let green = Rgb { r: 0, g: 255, b: 127 };
    assert_eq!(s.people.accent, green);
    assert!(acts.iter().any(|a| matches!(a, Action::SaveAccent(c) if *c == green)));
    assert_eq!(accent_from_file(Some(&accent_file(&accent_to_hex(green)))), green);
    assert_eq!(accent_from_file(Some("{}")), PURPLE);
    assert_eq!(accent_from_file(None), PURPLE);
}

#[test]
fn guilds_are_created_only_with_a_name() {
    let mut s = logged_in();
    assert!(update(&mut s, Msg::Guild(GuildMsg::CreateGuildSubmit), 0).is_empty());
    update(&mut s, Msg::Guild(GuildMsg::GuildNameInput(" G ".to_string())), 0);
    let acts = update(&mut s, Msg::Guild(GuildMsg::CreateGuildSubmit), 0);
    assert!(matches!(&acts[..], [Action::Call(Api::CreateGuild { name })] if name == "G"));
}

#[test]
fn requests_say_what_the_call_says() {
    let r = request("https://s", "tok", &Api::LoadMessages { conversation_id: 12 });
    assert_eq!(r.method, Method::Get);
    assert_eq!(r.url, "https://s/api/conversations/12/messages");
    assert_eq!(r.bearer, Some("tok".to_string()));
    assert!(r.body.is_none());
    let q = request("https://s", "t", &Api::SearchUsers { query: "a b&c".to_string() });
    assert_eq!(q.url, "https://s/api/users/search?q=a+b%26c");
    let login = Api::Login {
        email: "e".to_string(),
        password: "p".to_string(),
        remember_me: true,
    };
    let l = request("s.org/", "t", &login);
    assert_eq!(l.url, "https://s.org//api/login");
    assert_eq!(l.bearer, None);
    let body = l.body.unwrap();
    assert_eq!(body.len(), 3);
    assert!(matches!(&body[0], (k, Field::Text(v)) if k == "email" && v == "e"));
    assert!(matches!(&body[2], (k, Field::Flag(true)) if k == "remember_me"));
    let u = request(
        "s",
        "t",
        &Api::UploadSticker {
            pack_id: 1,
            name: "n".to_string(),
            mime: "m".to_string(),
            bytes: vec![104, 105],
        },
    );
    assert!(u.body.unwrap().iter().any(
        |(k, v)| k == "data" && matches!(v, Field::Text(t) if t == "aGk=")
    ));
    assert_eq!(normalize_server(" https://a/ "), "https://a");
}

#[test]
fn answers_are_settled() {
    assert_eq!(settle(&Api::LoadGuilds, answer(200, "{}")), Ok("{}".to_string()));
    assert_eq!(
        settle(&Api::LoadGuilds, answer(401, "")),
        Err("__auth_failed__".to_string())
    );
    assert_eq!(
        settle(&Api::LoadGuilds, answer(500, "")),
        Err("request failed: 500".to_string())
    );
    assert_eq!(
        settle(&Api::LoadGuilds, Reply::Lost("gone".to_string())),
        Err("gone".to_string())
    );
    let m = login_message(
        Ok("{\"requires_2fa\":true,\"pending_token\":\"p\"}".to_string()),
        user(1, true, true),
    );
    assert!(matches!(m, AuthMsg::LoginNeeds2fa(t) if t == "p"));
    let m = login_message(Ok("{\"token\":\"t\"}".to_string()), user(1, true, true));
    assert!(matches!(m, AuthMsg::LoginResult(Ok((t, _))) if t == "t"));
    assert_eq!(number_result(Ok("{\"id\":4}".to_string()), "/id", "none"), Ok(4));
    assert_eq!(
        number_result(Ok("{}".to_string()), "/id", "none"),
        Err("none".to_string())
    );
    assert_eq!(
        text_result(Ok("{\"code\":\"x\"}".to_string()), "/code", "none"),
        Ok("x".to_string())
    );
}

#[test]
fn sessions_are_kept() {
    assert_eq!(
        saved_session(&session_file("https://s\"", "tok")),
        Some(("https://s\"".to_string(), "tok".to_string()))
    );
    assert_eq!(saved_session("{\"server\":1}"), None);
    assert!(worth_keeping("s", "t") && !worth_keeping("", "t"));
    assert!(restored(None, Some(user(1, true, true))).is_none());
    assert_eq!(device_id(Some(" abc \n")), ("abc".to_string(), false));
    let (fresh, new) = device_id(None);
    assert!(new && fresh.len() == 36 && fresh.as_bytes()[14] == b'4');
    assert_eq!(window_title(&None), "FediTexter");
    assert_eq!(window_title(&Some(user(1, true, true))), "FediTexter - ann");
}

#[test]
fn cached_files_are_taken_up() {
    let mut s = state();
    s.load_cached_files(vec![
        CachedFile {
            name: "a".to_string(),
            path: "/cache/a".to_string(),
            bytes: Some(vec![1]),
            is_image: true,
        },
        CachedFile {
            name: "b".to_string(),
            path: "/cache/b".to_string(),
            bytes: None,
            is_image: false,
        },
    ]);
    let a = s.files.downloaded.get(&"a".to_string()).unwrap();
    assert_eq!(a.image, Some(vec![1]));
    let b = s.files.downloaded.get(&"b".to_string()).unwrap();
    assert_eq!((b.image.clone(), b.path.clone()), (None, Some("/cache/b".to_string())));
}

#[test]
fn sockets_try_again() {
    let (s, d) = ws_worker(Stage::Open, Happening::Closed);
    assert_eq!(s, Stage::Pausing);
    assert!(matches!(d, Deed::TellAndPause(Msg::Ws(WsMsg::WsDisconnected), 3)));
    let (s, d) = ws_worker(s, Happening::Rested);
    assert_eq!(s, Stage::Connecting);
    assert!(matches!(d, Deed::Connect));
    let (s, d) = ws_worker(s, Happening::Refused { status: Some(401) });
    assert_eq!(s, Stage::Over);
    assert!(matches!(d, Deed::TellAndStop(Msg::Auth(AuthMsg::SessionExpired(_)))));
    let (s, d) = ws_worker(Stage::Connecting, Happening::Refused { status: Some(500) });
    assert_eq!(s, Stage::Pausing);
    assert!(matches!(d, Deed::TellAndPause(..)));
    assert!(subscription(&state()).socket.is_none());
    assert_eq!(
        subscription(&logged_in()).socket,
        Some(("https://dergdungeon.com.au".to_string(), "tok".to_string()))
    );
}

#[test]
fn the_bot_answers_once() {
    let mut b = Bot::new(9);
    assert_eq!(b.hear(&message(1, 1, 2, " PING ")).reply, Some("pong".to_string()));
    assert_eq!(b.hear(&message(1, 1, 2, "ping")).reply, None);
    assert_eq!(b.hear(&message(2, 1, 9, "ping")).reply, None);
    assert_eq!(b.hear(&message(3, 1, 2, " hey ")).reply, Some("🤖 echo: hey".to_string()));
    assert_eq!(b.hear(&message(4, 1, 2, "  ")).reply, None);
    let mut m = message(5, 1, 2, "");
    m.file_id = Some("f".to_string());
    let h = b.hear(&m);
    assert_eq!(h.reply, Some("📎 got your file \"file\" (id f)".to_string()));
    assert_eq!(h.fetch, Some(("f".to_string(), 2)));
}

#[test]
fn the_bot_logs_in() {
    let secret = "GEZDGNBVGY3TQOJQGEZDGNBVGY3TQOJQ";
    assert!(matches!(
        login_answered(&Reply::Lost("x".to_string()), secret, 0),
        LoginStep::Retry { seconds: 5 }
    ));
    let two = answer(200, "{\"requires_2fa\":true,\"pending_token\":\"p\"}");
    assert!(matches!(login_answered(&two, "", 0), LoginStep::GiveUp));
    match login_answered(&two, secret, 59) {
        LoginStep::SecondFactor { pending_token, code } => {
            assert_eq!((pending_token.as_str(), code.as_str()), ("p", "287082"));
        }
        _ => panic!("the code is made"),
    }
    let done = answer(200, "{\"token\":\"t\"}");
    assert!(matches!(login_answered(&done, "", 0), LoginStep::Ready { token } if token == "t"));
    assert!(matches!(second_factor_answered(&done), LoginStep::Ready { token } if token == "t"));
    assert!(matches!(
        second_factor_answered(&answer(403, "")),
        LoginStep::Retry { seconds: 5 }
    ));
    let ev = Event::Account(AccountEvent::AuthFailed("no".to_string()));
    assert!(matches!(login_event(&ev, secret, 0), LoginStep::Retry { seconds: 5 }));
    let ev = Event::Account(AccountEvent::Info("x".to_string()));
    assert!(matches!(login_event(&ev, secret, 0), LoginStep::Wait));
}

#[test]
fn conversations_open() {
    let mut s = logged_in();
    update(
        &mut s,
        Msg::Conv(ConvMsg::ConversationsLoaded(Ok(vec![Conversation {
            id: 3,
            kind: "direct".to_string(),
            guild_id: None,
            channel_name: None,
            members: vec![Member {
                id: 2,
                username: "bob".to_string(),
                display_name: String::new(),
                domain: String::new(),
                avatar_url: None,
                is_bot: false,
            }],
        }]))),
        0,
    );
    s.chats.unread.insert(3, 4);
    let acts = update(&mut s, Msg::Conv(ConvMsg::SelectConversation(3)), 0);
    assert_eq!(s.chats.selected_conversation, Some(3));
    assert_eq!(s.chats.unread.get(&3), None);
    assert!(acts.iter().any(
        |a| matches!(a, Action::Call(Api::LoadMessages { conversation_id: 3 }))
    ));
}
