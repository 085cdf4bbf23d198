//! The desktop client.

use feditexter::chat::requests::{Field, Reply};
use feditexter::chat::types::{
    ApiMsg, Attachment, Conversation, Member, Profile, Rgb, Spot, User,
};
use feditexter::desktop::events::{AccountEvent, Event, FileEvent, PeopleEvent, TalkEvent, Task};
use feditexter::desktop::requests::{
    error_message, read_presence, request, settle, Call, Found,
};
use feditexter::desktop::settings::{
    load_or_create_device_id, load_settings, save_server, save_window, start_server, LocalSettings,
};
use feditexter::desktop::socket::{spawn_ws, Deed, Happening, Stage};
use feditexter::desktop::state::{from_window_id, to_window_id, Contact, Desktop, Preview};
use feditexter::desktop::ui::{refresh_suggestions, FileSize, Picture};
use feditexter::desktop::window::Wish;

fn user(id: u64, verified: bool, totp: bool) -> User {
    User {
        id,
        email: "a@b.c".to_string(),
        username: "ann".to_string(),
        display_name: "Ann".to_string(),
        email_verified: verified,
        avatar_url: None,
        totp_enabled: totp,
        is_bot: false,
        bio: String::new(),
        profile_visible: true,
    }
}

fn member(id: u64, username: &str, domain: &str) -> Member {
    Member {
        id,
        username: username.to_string(),
        display_name: String::new(),
        domain: domain.to_string(),
        avatar_url: None,
        is_bot: false,
    }
}

fn conversation(id: u64, kind: &str, members: Vec<Member>) -> Conversation {
    Conversation {
        id,
        kind: kind.to_string(),
        guild_id: None,
        channel_name: None,
        members,
    }
}

fn message(id: u64, conversation_id: u64, sender_id: u64, body: &str) -> ApiMsg {
    ApiMsg {
        id,
        conversation_id,
        sender_id,
        body: body.to_string(),
        created_at: String::new(),
        attachment_mime: None,
        attachment_name: None,
        attachment_data: None,
        file_id: None,
        file_size: None,
        thumbnail_data: None,
        edited_at: None,
        original_body: None,
        deleted_at: None,
        read: false,
    }
}

fn profile(id: u64) -> Profile {
    Profile {
        id,
        username: "bob".to_string(),
        display_name: "Bob".to_string(),
        domain: "b.org".to_string(),
        avatar_url: None,
        is_self: false,
        is_bot: false,
        blocked: true,
        muted: false,
        blocked_by: false,
        restricted: false,
        bio: String::new(),
    }
}

fn logged_in() -> Desktop {
    let mut d = Desktop::new(0, "/cache".to_string());
    d.handle_event(
        Event::Account(AccountEvent::LoggedIn { token: "t".to_string(), user: user(1, true, true) }),
        0,
    );
    d
}

fn talk(d: &mut Desktop, e: TalkEvent) -> Vec<Task> {
    d.handle_event(Event::Talk(e), 0)
}

#[test]
fn logins_ask_for_what_is_missing() {
    let mut d = Desktop::new(0, "/cache".to_string());
    let tasks = d.handle_event(
        Event::Account(AccountEvent::LoggedIn { token: "t".to_string(), user: user(1, true, false) }),
        0,
    );
    assert!(d.window.needs_2fa_setup && d.window.logged_in);
    assert!(!tasks.iter().any(|t| matches!(t, Task::LoadConversations)));
    let mut d = Desktop::new(0, "/cache".to_string());
    d.handle_event(
        Event::Account(AccountEvent::LoggedIn { token: "t".to_string(), user: user(1, false, true) }),
        0,
    );
    assert!(d.window.needs_verify);
    let d = logged_in();
    assert!(!d.window.needs_verify && !d.window.needs_2fa_setup);
    assert_eq!(d.account.token, Some("t".to_string()));
}

#[test]
fn logging_out_leaves_nothing() {
    let mut d = logged_in();
    talk(&mut d, TalkEvent::WsMessage(message(1, 1, 2, "x")));
    let tasks = d.logout();
    assert!(tasks.iter().any(|t| matches!(t, Task::ClearSession)));
    assert!(d.account.token.is_none() && d.talks.messages.is_empty());
    assert_eq!(d.talks.selected, -1);
}

#[test]
fn messages_are_merged_and_counted() {
    let mut d = logged_in();
    talk(&mut d, TalkEvent::WsMessage(message(1, 5, 2, "x")));
    assert_eq!(d.talks.unread.get(&5), Some(&1));
    d.select_conversation(5, 0);
    assert_eq!(d.talks.unread.get(&5), None);
    talk(&mut d, TalkEvent::WsMessage(message(3, 5, 2, "c")));
    talk(&mut d, TalkEvent::WsMessage(message(2, 5, 2, "b")));
    talk(&mut d, TalkEvent::WsMessage(message(3, 5, 2, "c")));
    let ids: Vec<u64> = d.talks.messages.iter().map(|m| m.id).collect();
    assert_eq!(ids, vec![2, 3]);
    talk(&mut d, TalkEvent::WsMessageDeleted { conversation_id: 5, message_id: 2 });
    assert_eq!(d.talks.messages.len(), 1);
}

#[test]
fn window_ids_wrap() {
    assert_eq!(to_window_id(7), 7);
    assert_eq!(to_window_id(0xffff_ffff), -1);
    assert_eq!(from_window_id(7), 7);
    assert_eq!(from_window_id(-1), u64::MAX);
}

#[test]
fn conversations_are_listed_with_contacts() {
    let mut d = logged_in();
    talk(
        &mut d,
        TalkEvent::Conversations(vec![
            conversation(1, "direct", vec![member(1, "ann", ""), member(2, "bob", "b.org")]),
            conversation(2, "group", vec![member(2, "bob", "b.org"), member(3, "eve", "")]),
        ]),
    );
    d.handle_event(Event::People(PeopleEvent::Presence { user_id: 2, online: true }), 0);
    let items = d.refresh_conversations_ui();
    assert_eq!(items.len(), 2);
    let bob = items.iter().find(|i| i.id == 1).unwrap();
    assert_eq!(bob.title, "bob");
    assert_eq!(bob.other_user_id, 2);
    assert!(bob.online && !bob.unread);
    let handles: Vec<&str> = d.talks.contacts.iter().map(|c| c.handle.as_str()).collect();
    assert!(handles.contains(&"@bob@b.org") && handles.contains(&"@eve@localhost"));
    assert_eq!(handles.len(), 2);
}

#[test]
fn contacts_are_suggested() {
    let contacts: Vec<Contact> = (0..9u64)
        .map(|i| Contact { id: i, name: format!("Bob{i}"), handle: format!("@bob{i}@b.org") })
        .collect();
    assert_eq!(refresh_suggestions(&contacts, "").len(), 6);
    let one = refresh_suggestions(&contacts, "@bob1@b.org, BOB2");
    assert_eq!(one.len(), 1);
    assert_eq!(one[0].name, "Bob2");
    assert!(refresh_suggestions(&contacts, "3, bob3").is_empty());
}

#[test]
fn suggestions_replace_what_was_begun() {
    let mut d = logged_in();
    d.talks.contacts = vec![Contact {
        id: 4,
        name: "Bob".to_string(),
        handle: "@bob@b.org".to_string(),
    }];
    d.texts.new_conversation_input = "7, @bo".to_string();
    let w = d.suggestion_selected(4);
    assert_eq!(d.texts.new_conversation_input, "7, @bob@b.org");
    assert!(matches!(w[..], [Wish::PlaceCursor { at: 13 }]));
    d.suggestion_selected(5);
    assert_eq!(d.texts.error_message, "contact not found");
}

#[test]
fn messages_are_shown_with_files_and_links() {
    let mut d = logged_in();
    talk(
        &mut d,
        TalkEvent::Conversations(vec![conversation(
            5,
            "direct",
            vec![member(1, "ann", ""), member(2, "bob", "b.org")],
        )]),
    );
    d.select_conversation(5, 0);
    let mut m = message(1, 5, 2, "see https://a.b/c");
    m.file_id = Some("f".to_string());
    m.attachment_mime = Some("image/png".to_string());
    m.thumbnail_data = Some("data:x".to_string());
    m.file_size = Some(2048);
    talk(&mut d, TalkEvent::WsMessage(m));
    assert_eq!(d.request_previews(), vec!["https://a.b/c".to_string()]);
    assert!(d.request_previews().is_empty());
    let items = d.refresh_messages_ui();
    assert!(matches!(&items[0].file.picture, Picture::Inline(u) if u == "data:x"));
    assert!(matches!(items[0].file.size, FileSize::Bytes(2048)));
    assert!(items[0].file.fetch);
    d.handle_event(
        Event::File(FileEvent::LinkPreview(Preview {
            url: "https://a.b/c".to_string(),
            title: Some("T".to_string()),
            description: None,
            image: None,
        })),
        0,
    );
    assert_eq!(d.refresh_messages_ui()[0].preview.title, "T");
    d.found_in_cache("f".to_string(), "/cache/f".to_string());
    let items = d.refresh_messages_ui();
    assert!(matches!(&items[0].file.picture, Picture::Stored(p) if p == "/cache/f"));
    d.keep_picture(&"f".to_string(), "data:y".to_string());
    let items = d.refresh_messages_ui();
    assert!(matches!(&items[0].file.picture, Picture::Inline(u) if u == "data:y"));
    assert!(!items[0].file.fetch);
}

#[test]
fn sending_serves_the_picked_file() {
    let mut d = logged_in();
    assert!(d.send_message("x").is_empty());
    d.select_conversation(5, 0);
    assert!(d.send_message("  ").is_empty());
    let w = d.send_message(" x ");
    assert!(matches!(
        &w[..],
        [Wish::Call(Call::SendMessage { conversation_id: 5, body, file: None })] if body == "x"
    ));
    d.handle_event(
        Event::File(FileEvent::AttachmentPicked(Attachment {
            mime: "text/plain".to_string(),
            name: "a.txt".to_string(),
            file_id: "f".to_string(),
            file_size: 1,
            thumbnail: String::new(),
            bytes: vec![1],
        })),
        0,
    );
    let w = d.send_message("");
    assert!(matches!(&w[0], Wish::Serve(f) if f.file_id == "f"));
    assert!(matches!(w[2], Wish::DropPicked));
    assert!(d.store.pending_attach.is_none());
    d.composer.editing = true;
    assert!(d.send_message("y").is_empty());
}

#[test]
fn only_own_messages_are_changed() {
    let mut d = logged_in();
    d.select_conversation(5, 0);
    talk(&mut d, TalkEvent::WsMessage(message(1, 5, 2, "theirs")));
    talk(&mut d, TalkEvent::WsMessage(message(2, 5, 1, "mine")));
    d.msg_context_edit(1);
    assert!(!d.composer.editing);
    d.msg_context_edit(2);
    assert!(d.composer.editing && d.composer.draft == "mine");
    let w = d.confirm_edit(" better ");
    assert!(matches!(
        &w[..],
        [Wish::Call(Call::EditMessage { conversation_id: 5, message_id: 2, body })] if body == "better"
    ));
    assert!(!d.composer.editing);
    assert!(d.confirm_edit("x").is_empty());
    assert!(matches!(
        d.msg_context_delete(2)[..],
        [Wish::Call(Call::DeleteMessage { conversation_id: 5, message_id: 2 })]
    ));
    d.show_original("old".to_string());
    assert!(d.composer.original_open);
}

#[test]
fn typing_is_announced_every_two_seconds_here_too() {
    let mut d = logged_in();
    assert!(d.typing_edited(10_000).is_empty());
    d.select_conversation(5, 0);
    assert_eq!(d.typing_edited(10_000).len(), 1);
    assert!(d.typing_edited(11_999).is_empty());
    assert_eq!(d.typing_edited(12_000).len(), 1);
}

#[test]
fn users_are_moderated() {
    let mut d = logged_in();
    d.request_context(4, 9, Spot { x_bits: 0, y_bits: 0 });
    assert!(matches!(
        &d.toggle_mute()[..],
        [Wish::Call(Call::Moderate { user_id: 4, verb })] if verb == "mute"
    ));
    d.handle_event(Event::People(PeopleEvent::Profile(profile(6))), 0);
    assert!(matches!(
        &d.toggle_block()[..],
        [Wish::Call(Call::Moderate { user_id: 6, verb })] if verb == "unblock"
    ));
    d.context_delete();
    assert_eq!(d.texts.confirm_delete_title, "this conversation");
    assert!(matches!(
        d.confirm_delete()[..],
        [Wish::Call(Call::DeleteConversation { conversation_id: 9 })]
    ));
}

#[test]
fn chats_are_opened_or_made() {
    let mut d = logged_in();
    talk(
        &mut d,
        TalkEvent::Conversations(vec![
            conversation(1, "group", vec![member(2, "bob", "")]),
            conversation(3, "direct", vec![member(1, "ann", ""), member(2, "bob", "")]),
        ]),
    );
    d.open_chat(2);
    assert_eq!(d.talks.selected, 3);
    assert!(matches!(
        &d.open_chat(8)[..],
        [Wish::Call(Call::CreateConversation { member_ids, .. })] if member_ids == &vec![8]
    ));
    let w = d.new_conversation("8, @x@y.z");
    assert!(matches!(
        &w[..],
        [Wish::Call(Call::CreateConversation { member_ids, handles })]
            if member_ids == &vec![8] && handles == &vec!["@x@y.z".to_string()]
    ));
    assert!(d.new_conversation("what").is_empty());
    assert_eq!(d.texts.error_message, "could not understand 'what'");
}

#[test]
fn requests_are_built() {
    let r = request("https://s/", "t", &Call::LoadPresence { ids: vec![1, 22] });
    assert_eq!(r.url, "https://s/api/presence?ids=1,22");
    assert_eq!(r.bearer, Some("t".to_string()));
    let r = request("https://s", "t", &Call::LookUpLink { url: "u".to_string() });
    assert_eq!(r.bearer, None);
    let r = request("https://s", "t", &Call::UpdateName { display_name: " A ".to_string() });
    let body = r.body.unwrap();
    assert!(matches!(&body[0], (k, Field::Text(v)) if k == "display_name" && v == "A"));
    let r = request("https://s", "t", &Call::Restore { token: "old".to_string() });
    assert_eq!(r.bearer, Some("old".to_string()));
}

fn answered(code: u16, body: &str) -> Reply {
    Reply::Answer { code, status: "status".to_string(), body: body.to_string() }
}

#[test]
fn replies_are_settled() {
    assert_eq!(error_message("404", "{\"error\":\"no\"}"), "no");
    assert_eq!(error_message("404", "oops"), "HTTP 404");
    let restore = || Call::Restore { token: "t".to_string() };
    let o = settle(restore(), answered(401, ""), Found::Nothing);
    assert!(o.forget_session);
    assert!(matches!(
        o.event,
        Some(Event::Account(AccountEvent::AuthFailed(m))) if m == "session expired, please log in again"
    ));
    let o = settle(restore(), Reply::Lost("x".to_string()), Found::Nothing);
    assert!(!o.forget_session);
    assert!(matches!(
        o.event,
        Some(Event::Account(AccountEvent::AuthFailed(m))) if m == "could not reach server: x"
    ));
    let o = settle(restore(), answered(200, "{}"), Found::Account(user(1, true, true)));
    assert!(matches!(o.event, Some(Event::Account(AccountEvent::LoggedIn { .. }))));
    let login = Call::Login {
        email: String::new(),
        password: String::new(),
        remember_me: false,
    };
    let o = settle(
        login,
        answered(200, "{\"requires_2fa\":true,\"pending_token\":\"p\"}"),
        Found::Nothing,
    );
    assert!(matches!(
        o.event,
        Some(Event::Account(AccountEvent::TwoFaRequired { pending_token })) if pending_token == "p"
    ));
    let o = settle(Call::ResendCode, answered(200, ""), Found::Nothing);
    assert!(matches!(o.event, Some(Event::Account(AccountEvent::Info(_)))));
    let o = settle(Call::LoadConversations, answered(200, "nope"), Found::Nothing);
    assert!(matches!(
        o.event,
        Some(Event::Account(AccountEvent::Error(m))) if m == "malformed server response"
    ));
    let o = settle(Call::LoadPresence { ids: vec![] }, answered(500, ""), Found::Nothing);
    assert!(o.event.is_none());
    let o = settle(Call::LoadProfile { user_id: 1 }, answered(404, ""), Found::Nothing);
    assert!(matches!(o.event, Some(Event::People(PeopleEvent::ProfileError))));
    let o = settle(
        Call::LookUpLink { url: "u".to_string() },
        answered(404, ""),
        Found::Nothing,
    );
    assert!(matches!(o.event, Some(Event::File(FileEvent::LinkPreviewFailed(u))) if u == "u"));
    assert_eq!(
        read_presence(&vec![
            ("7".to_string(), Some(true)),
            ("x".to_string(), Some(true)),
            ("8".to_string(), None),
        ]),
        vec![(7, true)]
    );
}

#[test]
fn settings_come_back() {
    let s = load_settings(" example.org \n", None).unwrap();
    assert_eq!(s.server, "example.org");
    assert!(load_settings("  ", None).is_none());
    assert!(load_settings("{broken", None).is_none());
    let (id, kept) = load_or_create_device_id(None);
    assert_eq!(kept.unwrap().device_id, Some(id));
    let old = LocalSettings {
        server: "a".to_string(),
        accent: None,
        device_id: Some("d".to_string()),
    };
    let (id, kept) = load_or_create_device_id(Some(old));
    assert_eq!(id, "d");
    assert!(kept.is_none());
    assert_eq!(save_server(None, " x ").server, "x");
    let w = save_window(None, "s", Rgb { r: 1, g: 2, b: 3 });
    assert_eq!(w.accent, Some("#010203".to_string()));
    assert_eq!(start_server(None, None, None), "http://localhost:3000");
    assert_eq!(start_server(None, Some("e.org"), Some("k.org")), "https://e.org");
    assert_eq!(start_server(Some("s.org"), Some("e.org"), None), "https://s.org");
}

#[test]
fn the_socket_follows_the_session() {
    let (s, d) = spawn_ws(Stage::Waiting, Happening::Token(None));
    assert_eq!(s, Stage::Waiting);
    assert!(matches!(d, Deed::Nothing));
    let (s, d) = spawn_ws(s, Happening::Token(Some("t".to_string())));
    assert_eq!(s, Stage::Connecting);
    assert!(matches!(d, Deed::Connect { token } if token == "t"));
    let (s, d) = spawn_ws(s, Happening::Connected);
    assert_eq!(s, Stage::Open);
    assert!(matches!(d, Deed::Tell(Event::Talk(TalkEvent::WsStatus(true)))));
    let (s, d) = spawn_ws(s, Happening::ServerChanged);
    assert_eq!(s, Stage::Pausing);
    assert!(matches!(d, Deed::TellAndPause(_, 3)));
    let (s, _) = spawn_ws(s, Happening::Rested(None));
    assert_eq!(s, Stage::Waiting);
}
