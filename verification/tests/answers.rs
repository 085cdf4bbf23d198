//! Answers of the server, and the small parts of the two clients.

use feditexter::chat::action::Api;
use feditexter::chat::answers::{conclude, Found};
use feditexter::chat::msg::{AuthMsg, ConvMsg, GuildMsg, Msg, NewConvMsg, ProfileMsg, StickerMsg};
use feditexter::chat::names::msg_short;
use feditexter::chat::requests::{session_request, Method, Reply};
use feditexter::chat::types::Conversation;
use feditexter::data_url::attachment_bytes;
use feditexter::desktop::events::{Event, PeopleEvent, Task};
use feditexter::desktop::requests::Call;
use feditexter::desktop::state::Desktop;
use feditexter::desktop::window::Wish;
use feditexter::img::{
    avatar_answer, avatar_data_url, cached_picture, cached_preview, centre_square, keep_whole,
    message_thumbnail, picture_size, preview_jpeg, show_sticker, show_thumbnail, sticker_thumbnail,
};
use feditexter::mime::stamped_file_name;
use feditexter::p2p::{Connection, P2pAction, P2pEvent, P2pManager, ServingFile};
use feditexter::preview::preview_parse_meta;
use feditexter::server::normalize_server;
use feditexter::transfer::{Receiver, Sender, SenderEvent};
use feditexter::voice::{h264_codec, opus_codec, VoiceAction, VoiceManager};

fn ok(body: &str) -> Reply {
    Reply::Answer { code: 200, status: "200 OK".to_string(), body: body.to_string() }
}

fn refused(code: u16, body: &str) -> Reply {
    Reply::Answer { code, status: code.to_string(), body: body.to_string() }
}

fn login() -> Api {
    Api::Login { email: "a".to_string(), password: "b".to_string(), remember_me: true }
}

fn desktop() -> Desktop {
    let mut d = Desktop::new(0, "/cache".to_string());
    d.account.token = Some("t".to_string());
    d
}

fn png(width: u32, height: u32) -> Vec<u8> {
    let mut out = std::io::Cursor::new(Vec::new());
    image::DynamicImage::ImageRgba8(image::RgbaImage::new(width, height))
        .write_to(&mut out, image::ImageFormat::Png)
        .unwrap();
    out.into_inner()
}

#[test]
fn logins_come_to_a_session_or_a_question() {
    assert!(matches!(
        conclude(login(), ok("{\"requires_2fa\":true,\"pending_token\":\"p\"}"), Found::Nothing),
        Msg::Auth(AuthMsg::LoginNeeds2fa(t)) if t == "p"
    ));
    assert!(matches!(
        conclude(login(), ok("{\"token\":\"t\"}"), Found::Nothing),
        Msg::Auth(AuthMsg::LoginResult(Ok((t, u)))) if t == "t" && u.id == 0 && !u.email_verified
    ));
    assert!(matches!(
        conclude(login(), refused(401, "no"), Found::Nothing),
        Msg::Auth(AuthMsg::LoginResult(Err(e))) if e == "login failed: no"
    ));
    assert!(matches!(
        conclude(Api::Verify { code: "1".to_string() }, refused(400, "no"), Found::Nothing),
        Msg::Auth(AuthMsg::VerifyResult(Err(e))) if e == "verify failed: 400"
    ));
    let code = Api::LoginTwoFa {
        pending_token: "p".to_string(),
        code: "1".to_string(),
        remember_me: false,
    };
    assert!(matches!(
        conclude(code, refused(400, "no"), Found::Nothing),
        Msg::Auth(AuthMsg::TwoFaResult(Err(e))) if e == "2fa failed: no"
    ));
}

#[test]
fn refused_sessions_and_lost_answers() {
    assert!(matches!(
        conclude(Api::LoadConversations, refused(401, ""), Found::Nothing),
        Msg::Conv(ConvMsg::ConversationsLoaded(Err(e))) if e == "__auth_failed__"
    ));
    assert!(matches!(
        conclude(Api::LoadGuilds, Reply::Lost("gone".to_string()), Found::Nothing),
        Msg::Guild(GuildMsg::GuildsLoaded(Err(e))) if e == "gone"
    ));
    let delete = Api::DeleteMessage { conversation_id: 1, message_id: 7 };
    assert!(matches!(
        conclude(delete, ok(""), Found::Nothing),
        Msg::Conv(ConvMsg::DeleteResult(7))
    ));
    let delete = Api::DeleteMessage { conversation_id: 1, message_id: 7 };
    assert!(matches!(
        conclude(delete, refused(500, ""), Found::Nothing),
        Msg::Error(e) if e == "request failed: 500"
    ));
    let read = Api::MarkRead { conversation_id: 1, message_id: 7 };
    assert!(matches!(conclude(read, ok(""), Found::Nothing), Msg::Noop));
}

#[test]
fn answers_have_to_hold_something() {
    let conv = Conversation {
        id: 4,
        kind: "direct".to_string(),
        guild_id: None,
        channel_name: None,
        members: Vec::new(),
    };
    let create = || Api::CreateConversation { kind: "direct".to_string(), member_ids: vec![2] };
    assert!(matches!(
        conclude(create(), ok(""), Found::Conversation(Ok(conv))),
        Msg::NewConv(NewConvMsg::NewConvCreated(Ok(c))) if c.id == 4
    ));
    assert!(matches!(
        conclude(create(), ok(""), Found::Conversation(Err("why".to_string()))),
        Msg::NewConv(NewConvMsg::NewConvCreated(Err(e))) if e == "parse error: why"
    ));
    assert!(matches!(
        conclude(Api::RemoveAvatar, ok(""), Found::Account(Err("why".to_string()))),
        Msg::Profile(ProfileMsg::AvatarSaved(Err(e))) if e == "parse error"
    ));
    let guild = || Api::CreateGuild { name: "g".to_string() };
    assert!(matches!(
        conclude(guild(), ok("{\"guild_id\":9}"), Found::Nothing),
        Msg::Guild(GuildMsg::GuildCreated(Ok(9)))
    ));
    assert!(matches!(
        conclude(guild(), ok("{}"), Found::Nothing),
        Msg::Guild(GuildMsg::GuildCreated(Err(e))) if e == "missing guild_id"
    ));
    let invite = || Api::CreateInvite { guild_id: 1 };
    assert!(matches!(
        conclude(invite(), ok("{\"code\":\"xyz\"}"), Found::Nothing),
        Msg::Guild(GuildMsg::InviteResult(Ok(c))) if c == "xyz"
    ));
    assert!(matches!(
        conclude(invite(), ok("{}"), Found::Nothing),
        Msg::Guild(GuildMsg::InviteResult(Err(e))) if e == "missing invite code"
    ));
    let pack = Api::CreateStickerPack { name: "p".to_string() };
    assert!(matches!(
        conclude(pack, ok("{}"), Found::Nothing),
        Msg::Sticker(StickerMsg::StickerPackCreated(Err(e))) if e == "missing pack id"
    ));
    let image = Api::StickerImage { sticker_id: 3 };
    assert!(matches!(
        conclude(image, ok(""), Found::Bytes(vec![1, 2])),
        Msg::Sticker(StickerMsg::StickerImageFetched { sticker_id: 3, result: Ok(b) }) if b == [1, 2]
    ));
}

#[test]
fn messages_have_short_names() {
    assert_eq!(msg_short(&Msg::Tick), "Tick");
    assert_eq!(msg_short(&Msg::Error("secret".to_string())), "Error");
    let typed = Msg::Conv(ConvMsg::DraftChanged("secret".to_string()));
    assert!(!msg_short(&typed).contains("secret"));
}

#[test]
fn attachments_with_nothing_in_them_are_not_opened() {
    assert_eq!(attachment_bytes("data:text/plain;base64,aGk="), Some(b"hi".to_vec()));
    assert_eq!(attachment_bytes("data:text/plain;base64,"), None);
    assert_eq!(attachment_bytes("aGk"), None);
    assert_eq!(stamped_file_name("image/png", "cat.jpg", 17), "cat-17.png");
}

#[test]
fn codecs_are_described() {
    let opus = opus_codec();
    assert_eq!((opus.mime_type.as_str(), opus.clock_rate, opus.channels), ("audio/opus", 48_000, 2));
    let h264 = h264_codec();
    assert_eq!((h264.mime_type.as_str(), h264.clock_rate, h264.channels), ("video/H264", 90_000, 0));
    assert!(h264.parameters.contains("profile-level-id=42001f"));
}

#[test]
fn small_pictures_are_made() {
    let large = png(600, 300);
    let thumb = message_thumbnail(&large, (256, 128)).unwrap();
    assert_eq!(picture_size(&thumb), Some((256, 128)));
    assert!(message_thumbnail(&vec![1, 2, 3], (1, 1)).is_none());
    let text = sticker_thumbnail(&large, (480, 240));
    let url = format!("data:image/jpeg;base64,{text}");
    assert_eq!(picture_size(&attachment_bytes(&url).unwrap()), Some((480, 240)));
    assert_eq!(sticker_thumbnail(&vec![1, 2, 3], (1, 1)), "");
}

#[test]
fn broken_pictures_in_the_cache_do_not_count() {
    let good = png(2, 2);
    assert_eq!(cached_preview(Some(good.clone())), Some(good.clone()));
    assert_eq!(cached_preview(Some(Vec::new())), None);
    assert_eq!(cached_preview(None), None);
    assert_eq!(cached_picture(Some(good.clone())), Some(good));
    assert_eq!(cached_picture(Some(vec![1, 2, 3])), None);
}

#[test]
fn the_desktop_asks_only_in_a_session() {
    let mut d = desktop();
    assert!(matches!(
        &d.verify(" 12 ")[..],
        [Wish::Call(Call::Verify { code })] if code == "12"
    ));
    assert!(matches!(&d.resend_code()[..], [Wish::Call(Call::ResendCode)]));
    assert!(matches!(
        &d.twofa_enable(" 1")[..],
        [Wish::Call(Call::TwoFaEnable { code })] if code == "1"
    ));
    assert!(matches!(
        &d.twofa_disable("1 ")[..],
        [Wish::Call(Call::TwoFaDisable { code })] if code == "1"
    ));
    assert!(matches!(
        &d.remove_avatar()[..],
        [Wish::Call(Call::SetAvatar { avatar })] if avatar.is_empty()
    ));
    assert!(matches!(&d.request_profile(3)[..], [Wish::Call(Call::LoadProfile { user_id: 3 })]));
    assert!(d.request_profile(-1).is_empty());
    d.cards.context_user_id = 8;
    assert!(matches!(&d.context_profile()[..], [Wish::Call(Call::LoadProfile { user_id: 8 })]));
    assert!(d.submit_2fa("1").is_empty());
    d.texts.pending_token = "p".to_string();
    assert!(matches!(
        &d.submit_2fa(" 1 ")[..],
        [Wish::Call(Call::LoginTwoFa { pending_token, code, .. })] if pending_token == "p" && code == "1"
    ));
    d.account.token = None;
    assert!(d.verify("12").is_empty() && d.resend_code().is_empty());
    assert!(d.twofa_enable("1").is_empty() && d.remove_avatar().is_empty());
    assert!(d.request_profile(3).is_empty());
}

#[test]
fn settings_of_the_desktop_are_saved() {
    let mut d = desktop();
    d.texts.display_name_input = "  ".to_string();
    assert!(matches!(&d.settings_saved()[..], [Wish::SaveSettings, Wish::UseServer]));
    d.texts.display_name_input = "Ann".to_string();
    assert!(matches!(
        &d.settings_saved()[..],
        [Wish::SaveSettings, Wish::UseServer, Wish::Call(Call::UpdateName { display_name })]
            if display_name == "Ann"
    ));
    assert!(matches!(
        &d.register("e".to_string(), "u".to_string(), "p".to_string())[..],
        [Wish::UseServer, Wish::Call(Call::Register { .. })]
    ));
}

#[test]
fn picked_files_and_edits_can_be_dropped() {
    let mut d = desktop();
    d.texts.pending_attach_name = "a.png".to_string();
    assert!(matches!(&d.clear_attachment()[..], [Wish::DropPicked]));
    assert!(d.store.pending_attach.is_none() && d.texts.pending_attach_name.is_empty());
    d.composer.editing = true;
    d.composer.editing_id = 5;
    d.cancel_edit();
    assert!(!d.composer.editing && d.composer.draft.is_empty());
    assert_eq!(d.composer.editing_id, -1);
    assert!(d.open_image(5).is_empty() && d.open_image(-1).is_empty());
}

#[test]
fn connections_that_fail_end_their_transfer() {
    let mut m = P2pManager::new();
    m.fetch("f", 1);
    m.register_peer("f", 1);
    assert!(m.connection_changed("f", Connection::Connecting).is_empty());
    assert!(matches!(
        &m.connection_changed("f", Connection::Connected)[..],
        [P2pAction::Emit(P2pEvent::Status { status, .. })] if status == "connecting"
    ));
    let acts = m.connection_changed("f", Connection::Failed);
    assert!(acts.iter().any(|a| matches!(a, P2pAction::Close { peer_id: 1, .. })));
    assert!(acts.iter().any(|a| matches!(
        a,
        P2pAction::Emit(P2pEvent::Failed { reason, .. }) if reason == "connection failed"
    )));
}

#[test]
fn members_whose_connection_is_down_are_given_up() {
    let mut v = VoiceManager::new();
    v.register_peer(7);
    assert!(v.connection_changed(7, Connection::Connected).is_empty());
    let acts = v.connection_changed(7, Connection::Disconnected);
    assert!(acts.iter().any(|a| matches!(a, VoiceAction::Close { peer_id: 7 })));
    let again = v.connection_changed(7, Connection::Closed);
    assert!(!again.iter().any(|a| matches!(a, VoiceAction::Close { .. })));
}

#[test]
fn completed_servers_stay() {
    for s in [
        "",
        "localhost",
        "127.0.0.1:80",
        "dergdungeon.com.au",
        "/x",
        "HTTP://localhost/a",
        "://a",
        "a:://b/c",
        "https://[::1]",
        "http://host:1234",
    ] {
        let once = normalize_server(s);
        assert_eq!(normalize_server(&once), once);
    }
    assert_eq!(normalize_server("https://dergdungeon.com.au"), "https://dergdungeon.com.au");
    assert_eq!(normalize_server("http://host:1234"), "http://host:1234");
    assert_eq!(normalize_server("HTTPS://Host/x"), "https://Host");
    assert_eq!(normalize_server("HTTP://localhost"), "http://localhost:3000");
    assert_eq!(normalize_server("ÄB://Host"), "äb://Host");
}

#[test]
fn resized_pictures_fit() {
    let wide = png(1500, 300);
    assert_eq!(picture_size(&preview_jpeg(&wide, (1024, 205)).unwrap()), Some((1024, 205)));
    let flat = png(600, 2);
    assert_eq!(picture_size(&message_thumbnail(&flat, (256, 0)).unwrap()), Some((1, 1)));
    let url = avatar_data_url(&wide, (256, 51)).unwrap();
    let (w, h) = picture_size(&attachment_bytes(&url).unwrap()).unwrap();
    assert!(w <= 256 && h <= 51);
}

#[test]
fn made_pictures_are_handed_on() {
    assert_eq!(avatar_answer(true, Some(b"hi".to_vec())).unwrap(), "data:image/png;base64,aGk=");
    assert_eq!(avatar_answer(true, None).unwrap_err(), "could not encode image");
    assert_eq!(avatar_answer(false, None).unwrap_err(), "could not decode image");
    assert_eq!(show_thumbnail(Some((b"hi".to_vec(), false))), "data:image/jpeg;base64,aGk=");
    assert_eq!(show_thumbnail(None), "");
    assert_eq!(show_sticker(Some((b"hi".to_vec(), true))), "aGk=");
    assert_eq!(show_sticker(None), "");
    assert_eq!(keep_whole(Some((vec![1], true))), Some(vec![1]));
    assert_eq!(keep_whole(Some((vec![1], false))), None);
    assert_eq!(centre_square(128, 51), (38, 0, 51));
    assert_eq!(centre_square(3, 8), (0, 2, 3));
}

#[test]
fn elements_without_a_name_are_passed_over() {
    let html = "<meta content=\"x\"><meta name=\"twitter:title\" content=\" T \">";
    let (title, description, image) = preview_parse_meta("https://a.b/", html);
    assert_eq!(title, Some("T".to_string()));
    assert_eq!((description, image), (None, None));
}

#[test]
fn waits_are_named() {
    let mut m = P2pManager::new();
    let acts = m.fetch("f", 1);
    assert!(acts.iter().any(|a| matches!(a, P2pAction::Watch { seconds: 120, .. })));
    let mut s = Sender::new();
    assert_eq!(s.wait_seconds(), None);
    let file = ServingFile {
        file_id: "f".into(),
        mime: "m".into(),
        name: "n".into(),
        size: 0,
        bytes: Vec::new(),
    };
    s.handle(&file, SenderEvent::Closed);
    assert_eq!(s.wait_seconds(), Some(30));
    assert_eq!(Receiver::new("/cache".to_string()).wait_seconds(), None);
    let mut d = desktop();
    let typing = PeopleEvent::Typing {
        conversation_id: 4,
        from_user_id: 2,
        from_username: "bob".to_string(),
    };
    let tasks = d.handle_event(Event::People(typing), 0);
    assert!(matches!(&tasks[..], [Task::WatchTyping { conversation_id: 4, seconds: 3 }]));
}

#[test]
fn kept_sessions_are_asked_for() {
    let r = session_request("https://a.b", "t");
    assert!(matches!(r.method, Method::Get));
    assert_eq!(r.url, "https://a.b/api/me");
    assert_eq!(r.bearer, Some("t".to_string()));
    assert!(r.body.is_none());
}
