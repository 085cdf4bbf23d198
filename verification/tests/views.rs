//! What the window shows.

use feditexter::chat::msg::{AuthMsg, ConvMsg, FileMsg, GuildMsg, Msg, ProfileMsg, VoiceMsg};
use feditexter::chat::state::{AppState, Frame};
use feditexter::chat::types::{
    ApiMsg, Conversation, Guild, GuildChannel, GuildMember, GuildRole, GuildSettingsTab, LeftTab,
    LinkPreview, Member, Profile, Rgb, Screen, SearchUser, SessionInfo, SettingsTab, Sticker,
    StickerPack, TwoFaSetupInfo, User,
};
use feditexter::chat::view::area::{view_chat_area, ComposerView, FilePicture, LinkCard};
use feditexter::chat::view::body::{body_elements, shorten, Segment};
use feditexter::chat::view::forms::{view, view_auth, Page};
use feditexter::chat::view::guilds::{
    view_guild_modal, view_guild_settings, GuildBody, GuildModal,
};
use feditexter::chat::view::layers::{view_chat, About};
use feditexter::chat::view::new_conv::view_new_conv;
use feditexter::chat::view::parts::{Control, Face};
use feditexter::chat::view::settings::{swatches, view_settings, SettingsBody, TwoFaSection};
use feditexter::chat::view::sidebar::{view_sidebar, Emphasis, Heading, List, Tag};
use feditexter::chat::view::stickers::{sticker_panel, PackNotice};
use feditexter::chat::view::voice::view_voice_panel;
use feditexter::voice::{VoiceManager, VoiceVideoKind};

fn user(id: u64) -> User {
    User {
        id,
        email: "a@b.c".to_string(),
        username: "ann".to_string(),
        display_name: "Ann".to_string(),
        email_verified: true,
        avatar_url: None,
        totp_enabled: true,
        is_bot: false,
        bio: String::new(),
        profile_visible: false,
    }
}

fn state() -> AppState {
    let mut s = AppState::new(0, Rgb { r: 125, g: 92, b: 224 }, "/cache".to_string());
    s.session.user = Some(user(1));
    s.session.screen = Screen::Chat;
    s
}

fn member(id: u64, name: &str, is_bot: bool) -> Member {
    Member {
        id,
        username: name.to_string(),
        display_name: String::new(),
        domain: String::new(),
        avatar_url: None,
        is_bot,
    }
}

fn conversation(id: u64, kind: &str, members: Vec<Member>) -> Conversation {
    Conversation { id, kind: kind.to_string(), guild_id: None, channel_name: None, members }
}

fn message(id: u64, sender_id: u64, body: &str) -> ApiMsg {
    ApiMsg {
        id,
        conversation_id: 3,
        sender_id,
        body: body.to_string(),
        created_at: "2024-01-02T03:04:05".to_string(),
        attachment_mime: None,
        attachment_name: None,
        attachment_data: None,
        file_id: None,
        file_size: None,
        thumbnail_data: None,
        edited_at: None,
        original_body: None,
        deleted_at: None,
        read: false,
    }
}

fn guild(can_manage: bool, owner_id: u64) -> Guild {
    Guild {
        id: 9,
        name: "Club".to_string(),
        owner_id,
        member_count: 3,
        channels: vec![
            GuildChannel {
                id: 20,
                name: "general".to_string(),
                channel_type: "text".to_string(),
            },
            GuildChannel {
                id: 21,
                name: "talk".to_string(),
                channel_type: "voice".to_string(),
            },
        ],
        members: vec![
            GuildMember { id: 1, username: "ann".to_string(), display_name: String::new() },
            GuildMember { id: 2, username: "bob".to_string(), display_name: "Bob".to_string() },
        ],
        can_manage,
        roles: vec![
            GuildRole { id: 30, name: "boss".to_string(), is_admin: true, member_ids: vec![2] },
            GuildRole { id: 31, name: "fan".to_string(), is_admin: false, member_ids: vec![] },
        ],
        bans: vec![GuildMember { id: 4, username: "eve".to_string(), display_name: String::new() }],
    }
}

fn is_press(c: &Control, text: &str) -> bool {
    matches!(c, Control::Press { label, .. } if label == text)
}

#[test]
fn forms_follow_the_screen() {
    let mut s = state();
    s.session.screen = Screen::Register;
    let v = view_auth(&s);
    assert_eq!(v.subtitle, "Create account");
    assert!(v.username.is_some() && v.remember.is_none());
    assert!(is_press(&v.submit, "Create account"));
    s.session.screen = Screen::Login;
    s.session.auth_busy = true;
    s.session.error = "no".to_string();
    let v = view_auth(&s);
    assert!(matches!(v.submit, Control::Spinner));
    assert_eq!(v.error, Some("no".to_string()));
    assert_eq!(v.remember, Some(true));
    s.session.screen = Screen::TwoFa;
    assert!(matches!(view(&s), Page::Code(v) if v.title == "Two-factor authentication"));
    s.session.screen = Screen::TwoFaSetup;
    s.session.twofa_setup = Some(TwoFaSetupInfo {
        secret: "ABC".to_string(),
        uri: String::new(),
        qr: "data:image/png;base64,aGk=".to_string(),
    });
    match view(&s) {
        Page::Setup(v, e) => {
            let card = v.card.unwrap();
            assert_eq!(card.secret, "Secret: ABC");
            assert_eq!(card.qr, Some(vec![104, 105]));
            assert_eq!(e, Some("no".to_string()));
        }
        _ => panic!("the setup is shown"),
    }
    s.session.screen = Screen::Chat;
    assert!(matches!(view(&s), Page::Chat));
    s.people.settings_open = true;
    assert!(matches!(view(&s), Page::Settings));
}

#[test]
fn cards_and_menus() {
    let mut s = state();
    s.people.profile_open = true;
    s.people.profile = Some(Profile {
        id: 2,
        username: "bob".to_string(),
        display_name: "Bob".to_string(),
        domain: "b.org".to_string(),
        avatar_url: None,
        is_self: false,
        is_bot: true,
        blocked: true,
        muted: false,
        blocked_by: false,
        restricted: true,
        bio: "hi".to_string(),
    });
    s.chats.messages = vec![message(1, 1, "mine"), message(2, 2, "theirs")];
    s.menus.context_menu_msg = Some(1);
    let l = view_chat(&s);
    let p = l.profile.unwrap();
    assert_eq!(p.handle, "@bob");
    assert!(matches!(p.about, About::Private));
    let (block, mute) = p.moderation.unwrap();
    assert!(is_press(&block, "Unblock") && is_press(&mute, "Mute"));
    assert_eq!(l.message_menu.unwrap().len(), 3);
    s.menus.context_menu_msg = Some(2);
    s.menus.conv_menu_conv = Some(3);
    let l = view_chat(&s);
    assert_eq!(l.message_menu.unwrap().len(), 1);
    assert!(is_press(&l.conv_menu.unwrap()[0], "Delete conversation"));
}

#[test]
fn dialogs_wait_for_enough_users() {
    let mut s = state();
    s.new_conv.results = vec![SearchUser {
        id: 5,
        username: "bob".to_string(),
        display_name: String::new(),
        domain: "b.org".to_string(),
        avatar_url: None,
        is_bot: false,
    }];
    let v = view_new_conv(&s);
    assert_eq!(v.results[0].handle, "@bob@b.org");
    assert!(matches!(v.create, Control::Idle(t) if t == "Start chat"));
    s.new_conv.selected = vec![5];
    let v = view_new_conv(&s);
    assert!(is_press(&v.create, "Start chat"));
    assert_eq!(v.chips[0].name, "bob");
    assert!(v.results[0].selected);
}

#[test]
fn guild_dialogs() {
    let mut s = state();
    assert!(matches!(view_guild_modal(&s).body, GuildModal::Servers { .. }));
    assert!(matches!(view_guild_settings(&s).body, GuildBody::Locked));
    s.guilds.guilds = vec![guild(true, 1)];
    s.guilds.selected_guild = Some(9);
    match view_guild_modal(&s).body {
        GuildModal::Channel { hint, submit, .. } => {
            assert_eq!(hint, "Add a channel to Club");
            assert!(is_press(&submit, "Add channel"));
        }
        _ => panic!("a channel is added"),
    }
    let v = view_guild_settings(&s);
    assert_eq!(v.title, "Club settings");
    assert!(matches!(v.delete, Some(Msg::Guild(GuildMsg::DeleteGuild(9)))));
    match v.body {
        GuildBody::Channels { rows, .. } => {
            assert_eq!(rows[0].rename, "general");
            assert!(rows[1].voice);
        }
        _ => panic!("channels are shown"),
    }
    s.guilds.settings_tab = GuildSettingsTab::Roles;
    match view_guild_settings(&s).body {
        GuildBody::Roles { rows, .. } => {
            assert_eq!(rows[0].label, "boss (admin)");
            assert!(rows[0].delete.is_none() && rows[0].members.is_empty());
            assert!(rows[1].delete.is_some());
            assert_eq!(rows[1].members[0].name, "Bob");
            assert!(!rows[1].members[0].on);
        }
        _ => panic!("roles are shown"),
    }
    s.guilds.settings_tab = GuildSettingsTab::Bans;
    match view_guild_settings(&s).body {
        GuildBody::Bans { bans, members } => {
            assert_eq!(bans[0].name, "eve");
            assert!(members[0].admin && members[0].ban.is_some());
            assert!(is_press(members[0].promotion.as_ref().unwrap(), "demote"));
        }
        _ => panic!("bans are shown"),
    }
    s.guilds.guilds = vec![guild(false, 2)];
    let v = view_guild_settings(&s);
    assert!(matches!(v.body, GuildBody::Locked));
    assert!(v.delete.is_none());
    s.guilds.guilds = vec![guild(true, 2)];
    match view_guild_settings(&s).body {
        GuildBody::Bans { members, .. } => {
            assert!(members[0].owner);
            assert!(members[0].ban.is_none() && members[0].transfer.is_none());
        }
        _ => panic!("bans are shown"),
    }
}

#[test]
fn settings_by_tab() {
    let mut s = state();
    let v = view_settings(&s);
    assert_eq!(v.username, "Username: ann");
    match v.body {
        SettingsBody::General { face, swatches, twofa, .. } => {
            assert!(matches!(face, Face::Letters { text, .. } if text == "AN"));
            assert!(swatches[0].selected && !swatches[1].selected);
            assert!(matches!(twofa, TwoFaSection::Enabled));
        }
        _ => panic!("the general tab is shown"),
    }
    s.people.settings_tab = SettingsTab::Privacy;
    match view_settings(&s).body {
        SettingsBody::Privacy { state, toggle } => {
            assert_eq!(state, "Hidden (bare-bones for others)");
            assert!(matches!(
                toggle,
                Control::Press { msg: Msg::Profile(ProfileMsg::ProfileVisibleToggled(true)), .. }
            ));
        }
        _ => panic!("the privacy tab is shown"),
    }
    s.people.settings_tab = SettingsTab::Devices;
    s.people.sessions = vec![SessionInfo {
        id: 3,
        device_id: None,
        login_ip: Some("1.2.3.4".to_string()),
        created_at: "x".to_string(),
        current: false,
    }];
    match view_settings(&s).body {
        SettingsBody::Devices(rows) => {
            assert_eq!(rows[0].title, "Unknown device ");
            assert_eq!(rows[0].detail, "1.2.3.4 · x");
            assert!(matches!(rows[0].revoke, Some(Msg::Profile(ProfileMsg::RevokeSession(3)))));
        }
        _ => panic!("the devices are shown"),
    }
    s.people.sessions_busy = true;
    assert!(matches!(view_settings(&s).body, SettingsBody::LoadingDevices));
}

#[test]
fn offered_colours_match_their_shares() {
    let list = swatches(Rgb { r: 0, g: 0, b: 0 });
    let shares = [
        (0.49f32, 0.36f32, 0.88f32),
        (0.32, 0.55, 0.95),
        (0.25, 0.72, 0.78),
        (0.35, 0.72, 0.45),
        (0.85, 0.68, 0.22),
        (0.92, 0.49, 0.28),
        (0.90, 0.35, 0.45),
        (0.78, 0.40, 0.68),
    ];
    for (s, (r, g, b)) in list.iter().zip(shares) {
        assert_eq!(s.color.r, (r * 255.0).round() as u8);
        assert_eq!(s.color.g, (g * 255.0).round() as u8);
        assert_eq!(s.color.b, (b * 255.0).round() as u8);
        assert!(!s.selected);
    }
}

#[test]
fn the_sidebar_lists() {
    let mut s = state();
    s.chats.conversations = vec![
        conversation(3, "direct", vec![member(1, "ann", false), member(2, "bob", true)]),
        conversation(4, "group", vec![member(1, "ann", false), member(2, "bob", true)]),
    ];
    s.chats.unread.insert(3, 2);
    s.chats.presence.insert(2, true);
    s.chats.selected_conversation = Some(4);
    let v = view_sidebar(&s, None);
    assert!(matches!(v.heading, Heading::Conversations));
    match v.list {
        List::Conversations(rows) => {
            assert_eq!(rows[0].name, "bob");
            assert_eq!((rows[0].tag, rows[0].unread), (Tag::Bot, Some(2)));
            assert!(rows[0].online && !rows[0].selected);
            assert_eq!(rows[1].name, "Group (2)");
            assert_eq!(rows[1].tag, Tag::Group);
            assert!(rows[1].selected);
        }
        _ => panic!("conversations are listed"),
    }
    s.guilds.left_tab = LeftTab::Servers;
    assert!(matches!(view_sidebar(&s, None).heading, Heading::PickGuild));
    s.guilds.guilds = vec![guild(true, 1)];
    s.guilds.selected_guild = Some(9);
    let v = view_sidebar(&s, Some(21));
    assert!(v.rail[0].selected);
    match v.list {
        List::Channels { text, voice, add } => {
            assert_eq!(text[0].name, "general");
            assert!(matches!(text[0].msg, Msg::Conv(ConvMsg::SelectConversation(20))));
            assert!(matches!(voice[0].msg, Msg::Voice(VoiceMsg::VoiceJoin(21))));
            assert_eq!(voice[0].emphasis, Emphasis::InVoice);
            assert!(is_press(&add, "＋ channel"));
        }
        _ => panic!("channels are listed"),
    }
    s.guilds.selected_guild = Some(10);
    assert!(matches!(view_sidebar(&s, None).list, List::NoGuild));
}

#[test]
fn bodies_are_cut_into_links() {
    let pieces: Vec<String> = body_elements("see https://a.b c\n\nhttp://x")
        .into_iter()
        .map(|s| match s {
            Segment::Text(t) => format!("t:{t}"),
            Segment::Link(t) => format!("l:{t}"),
        })
        .collect();
    assert_eq!(pieces, vec!["t:see ", "l:https://a.b", "t: c", "t:", "l:http://x"]);
    assert_eq!(shorten("short"), "short");
    let long = "a".repeat(201);
    assert_eq!(shorten(&long), format!("{}…", "a".repeat(200)));
    assert_eq!(shorten(&"a".repeat(200)), "a".repeat(200));
    let wide = "é".repeat(101);
    assert_eq!(shorten(&wide), format!("{}…", "é".repeat(100)));
}

#[test]
fn the_open_conversation() {
    let mut s = state();
    assert!(view_chat_area(&s, 0).is_none());
    s.chats.selected_conversation = Some(3);
    s.chats.conversations = vec![conversation(
        3,
        "direct",
        vec![member(1, "ann", false), member(2, "bob", true)],
    )];
    let mut m = message(8, 2, "look https://a.b/c");
    m.file_id = Some("f".to_string());
    m.attachment_mime = Some("image/png".to_string());
    m.attachment_name = Some("p.png".to_string());
    m.file_size = Some(2048);
    m.edited_at = Some("x".to_string());
    m.original_body = Some("old".to_string());
    s.chats.messages = vec![m, message(9, 1, "hi")];
    s.files.p2p_status.insert("f".to_string(), "offline".to_string());
    s.files.link_previews.insert(
        "https://a.b/c".to_string(),
        LinkPreview {
            url: "https://a.b/c".to_string(),
            title: Some("T".to_string()),
            description: Some(String::new()),
            images: vec!["https://a.b/1".to_string(), "https://a.b/2".to_string()],
        },
    );
    s.files.media.insert("https://a.b/2".to_string(), vec![1]);
    s.chats.typing.insert(3, ("bob".to_string(), 1_000));
    let v = view_chat_area(&s, 3_999).unwrap();
    assert_eq!(v.header.name, "bob");
    assert_eq!(v.header.status, "bob is typing…");
    assert!(v.header.bot);
    let b = &v.bubbles[0];
    assert_eq!((b.sender.as_str(), b.time.as_str()), ("bob", " · 01:04 PM"));
    assert!(b.edited && b.original == Some("old".to_string()));
    match &b.cards[..] {
        [LinkCard::Card { images, title, description, .. }] => {
            assert_eq!(images, &vec!["https://a.b/2".to_string()]);
            assert_eq!(title, &Some("T".to_string()));
            assert_eq!(description, &None);
        }
        _ => panic!("the link is shown"),
    }
    let f = b.file.as_ref().unwrap();
    assert_eq!(f.picture, Some(FilePicture::Blank));
    assert_eq!(f.size, "2 KB");
    match f.status.as_ref().unwrap() {
        Control::Press { label, msg: Msg::File(FileMsg::RetryFile(8)) } => {
            assert_eq!(label, "offline · retry");
        }
        _ => panic!("the transfer can be tried again"),
    }
    assert_eq!(v.bubbles[1].sender, "You");
    assert!(matches!(v.composer, ComposerView::Writing { .. }));
    s.chats.editing_message_id = Some(9);
    let v = view_chat_area(&s, 4_000).unwrap();
    assert_eq!(v.header.status, "Offline");
    assert!(matches!(v.composer, ComposerView::Editing { .. }));
    s.files.preview_loading.insert("https://a.b/c".to_string(), ());
    let v = view_chat_area(&s, 4_000).unwrap();
    assert!(matches!(v.bubbles[0].cards[0], LinkCard::Loading));
}

#[test]
fn the_voice_panel() {
    let mut s = state();
    let mut v = VoiceManager::new();
    assert!(view_voice_panel(&s, &v).is_none());
    s.links.voice_ready = true;
    s.guilds.guilds = vec![guild(true, 1)];
    v.join(9, 21, 1);
    v.handle_voice_state(21, vec![(2, "bob".to_string()), (1, "ann".to_string())]);
    s.links.voice_frames.insert(
        (2, VoiceVideoKind::Screen),
        Frame { rgba: vec![0; 4], width: 1, height: 1 },
    );
    s.links.voice_frames.insert(
        (7, VoiceVideoKind::Camera),
        Frame { rgba: vec![0; 4], width: 1, height: 1 },
    );
    let p = view_voice_panel(&s, &v).unwrap();
    assert_eq!(p.channel, "#talk");
    assert_eq!(p.members, vec!["ann (you)".to_string(), "bob".to_string()]);
    let names: Vec<&str> = p.tiles.iter().map(|t| t.name.as_str()).collect();
    assert_eq!(names, vec!["bob", "User 7"]);
}

#[test]
fn the_sticker_panel() {
    let mut s = state();
    assert_eq!(sticker_panel(&s).notice, PackNotice::NoPacks);
    s.stickers.packs = vec![StickerPack {
        id: 1,
        name: "cats".to_string(),
        owner_id: 1,
        owner_name: "ann".to_string(),
        stickers: vec![Sticker { id: 5, name: "cat".to_string(), mime: "image/png".to_string() }],
    }];
    s.stickers.bytes.insert(5, vec![1]);
    let p = sticker_panel(&s);
    assert_eq!(p.notice, PackNotice::Nothing);
    assert_eq!(p.packs[0].by, "by ann");
    assert!(p.packs[0].owner.is_some() && p.packs[0].cells[0].loaded);
    s.stickers.busy = true;
    s.stickers.pack_create_open = true;
    let p = sticker_panel(&s);
    assert_eq!(p.notice, PackNotice::Loading);
    assert_eq!(p.new_pack, Some(String::new()));
}

#[test]
fn the_return_key_submits() {
    let mut s = state();
    s.session.screen = Screen::Verify;
    match view(&s) {
        Page::Code(v) => assert!(matches!(v.on_return, Msg::Auth(AuthMsg::VerifySubmit))),
        _ => panic!("the code is asked for"),
    }
}
