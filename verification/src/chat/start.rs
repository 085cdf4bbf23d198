//! The client at its start.

use std::collections::{HashMap, HashSet};

use vstd::prelude::*;

use crate::assoc::Assoc;
use crate::cache::{is_random_id, new_random_id};
use crate::chat::state::{
    AppState, Chats, Files, Guilds, Links, LoginForm, Menus, NewConv, People, Session, Stickers,
};
use crate::chat::types::{
    DownloadedFile, GuildSettingsTab, LeftTab, NewConvKind, OwnFile, Rgb, Screen, SettingsTab, User,
};
use crate::colour::{colour_of, colour_round_trip, hex_colour, parse_hex_color};
use crate::frames::says;
use crate::json::{json_text, json_text_at};
use crate::text::{concat2, copy_text, trim, trim_front_char, trim_text};

verus! {

pub open spec fn fresh_session(s: Session) -> bool {
    &&& s.screen == Screen::Login
    &&& s.server@ == "https://dergdungeon.com.au"@
    &&& s.token is None && s.pending_token is None && s.user is None
    &&& s.remember_me
    &&& !s.auth_busy && !s.twofa_busy
    &&& s.twofa_setup is None
    &&& s.twofa_toggle_code@.len() == 0
    &&& s.error@.len() == 0 && s.info@.len() == 0
}

pub open spec fn fresh_form(f: LoginForm) -> bool {
    &&& f.login_email@.len() == 0 && f.login_password@.len() == 0
    &&& f.register_email@.len() == 0 && f.register_username@.len() == 0
    &&& f.register_password@.len() == 0 && f.register_birthdate@.len() == 0
    &&& f.twofa_code@.len() == 0 && f.verify_code@.len() == 0
}

pub open spec fn fresh_chats(c: Chats, now: u64) -> bool {
    &&& c.conversations@.len() == 0 && c.messages@.len() == 0
    &&& c.selected_conversation is None
    &&& c.draft@.len() == 0
    &&& c.unread@ == Map::<u64, u32>::empty()
    &&& c.editing_message_id is None && c.original_body_text is None
    &&& !c.busy && !c.loading_messages && !c.scrolled_away
    &&& c.presence@ == Map::<u64, bool>::empty()
    &&& c.typing@ == Map::<u64, (String, u64)>::empty()
    &&& c.last_typing_sent == now
}

pub open spec fn fresh_guilds(g: Guilds) -> bool {
    &&& g.guilds@.len() == 0 && g.selected_guild is None
    &&& g.left_tab == LeftTab::Dms
    &&& !g.modal_open && !g.busy && !g.settings_open && !g.channel_is_voice
    &&& g.name_input@.len() == 0 && g.join_code_input@.len() == 0
    &&& g.channel_name_input@.len() == 0 && g.role_name_input@.len() == 0
    &&& g.settings_tab == GuildSettingsTab::Channels
    &&& g.channel_rename_inputs@ == Map::<u64, String>::empty()
}

pub open spec fn fresh_people(p: People, accent: Rgb) -> bool {
    &&& p.profile is None && !p.profile_open && !p.settings_open
    &&& p.settings_tab == SettingsTab::General
    &&& p.display_name_input@.len() == 0 && p.bio_input@.len() == 0
    &&& p.sessions@.len() == 0 && !p.sessions_busy
    &&& p.accent == accent && p.accent_hex_input@.len() == 0
    &&& !p.avatar_busy
    &&& p.avatars@ == Map::<u64, Vec<u8>>::empty()
    &&& p.avatar_attempted@ == Set::<u64>::empty()
}

pub open spec fn fresh_files(f: Files, cache_dir: String) -> bool {
    &&& f.cache_dir == cache_dir
    &&& !f.p2p_ready && !f.picking_file && f.pending_attachment is None
    &&& f.own_files@ == Map::<Seq<char>, OwnFile>::empty()
    &&& f.downloaded@ == Map::<Seq<char>, DownloadedFile>::empty()
    &&& f.p2p_status@ == Map::<Seq<char>, String>::empty()
    &&& f.thumbs@ == Map::<Seq<char>, Vec<u8>>::empty()
    &&& f.own_full@ == Map::<Seq<char>, Vec<u8>>::empty()
    &&& f.link_previews@.dom() =~= Set::<Seq<char>>::empty()
    &&& f.preview_loading@ == Map::<Seq<char>, ()>::empty()
    &&& f.media@ == Map::<Seq<char>, Vec<u8>>::empty()
}

/// Nobody is logged in, and nothing is known or open.
pub open spec fn is_fresh(s: AppState, now: u64, accent: Rgb, cache_dir: String) -> bool {
    &&& fresh_session(s.session)
    &&& fresh_form(s.form)
    &&& fresh_chats(s.chats, now)
    &&& s.menus == (Menus {
        context_menu_msg: None,
        context_menu_pos: None,
        conv_menu_conv: None,
        conv_menu_pos: None,
    })
    &&& !s.new_conv.open && !s.new_conv.busy && s.new_conv.kind == NewConvKind::Direct
    &&& s.new_conv.search@.len() == 0 && s.new_conv.results@.len() == 0
    &&& s.new_conv.selected@.len() == 0
    &&& fresh_guilds(s.guilds)
    &&& !s.stickers.menu_open && !s.stickers.busy && !s.stickers.pack_create_open
    &&& s.stickers.search@.len() == 0 && s.stickers.pack_name_input@.len() == 0
    &&& s.stickers.packs@.len() == 0
    &&& s.stickers.bytes@ == Map::<u64, Vec<u8>>::empty()
    &&& fresh_people(s.people, accent)
    &&& fresh_files(s.files, cache_dir)
    &&& !s.links.ws_connected && !s.links.ws_ready && !s.links.voice_ready
    &&& !s.links.voice_panel_open
    &&& s.links.voice_frames@.dom() =~= Set::empty()
}

impl AppState {
    /// The state at the start. `now` is a clock in milliseconds.
    pub fn new(now: u64, accent: Rgb, cache_dir: String) -> (s: AppState)
        ensures
            is_fresh(s, now, accent, cache_dir),
    {
        let session = Session {
            screen: Screen::Login,
            server: copy_text("https://dergdungeon.com.au"),
            token: None,
            pending_token: None,
            user: None,
            remember_me: true,
            auth_busy: false,
            twofa_setup: None,
            twofa_toggle_code: String::new(),
            twofa_busy: false,
            error: String::new(),
            info: String::new(),
        };
        let form = LoginForm {
            login_email: String::new(),
            login_password: String::new(),
            register_email: String::new(),
            register_username: String::new(),
            register_password: String::new(),
            register_birthdate: String::new(),
            twofa_code: String::new(),
            verify_code: String::new(),
        };
        let chats = Chats {
            conversations: Vec::new(),
            messages: Vec::new(),
            selected_conversation: None,
            draft: String::new(),
            unread: HashMap::new(),
            editing_message_id: None,
            original_body_text: None,
            busy: false,
            loading_messages: false,
            scrolled_away: false,
            presence: HashMap::new(),
            typing: HashMap::new(),
            last_typing_sent: now,
        };
        let menus = Menus {
            context_menu_msg: None,
            context_menu_pos: None,
            conv_menu_conv: None,
            conv_menu_pos: None,
        };
        let new_conv = NewConv {
            open: false,
            kind: NewConvKind::Direct,
            search: String::new(),
            results: Vec::new(),
            selected: Vec::new(),
            busy: false,
        };
        let guilds = Guilds {
            guilds: Vec::new(),
            selected_guild: None,
            left_tab: LeftTab::Dms,
            modal_open: false,
            name_input: String::new(),
            join_code_input: String::new(),
            channel_name_input: String::new(),
            channel_is_voice: false,
            busy: false,
            settings_open: false,
            settings_tab: GuildSettingsTab::Channels,
            role_name_input: String::new(),
            channel_rename_inputs: HashMap::new(),
        };
        let stickers = Stickers {
            menu_open: false,
            search: String::new(),
            packs: Vec::new(),
            busy: false,
            bytes: HashMap::new(),
            pack_name_input: String::new(),
            pack_create_open: false,
        };
        let people = People {
            profile: None,
            profile_open: false,
            settings_open: false,
            settings_tab: SettingsTab::General,
            display_name_input: String::new(),
            bio_input: String::new(),
            sessions: Vec::new(),
            sessions_busy: false,
            accent,
            accent_hex_input: String::new(),
            avatar_busy: false,
            avatars: HashMap::new(),
            avatar_attempted: HashSet::new(),
        };
        let files = Files {
            cache_dir,
            p2p_ready: false,
            picking_file: false,
            pending_attachment: None,
            own_files: Assoc::new(),
            downloaded: Assoc::new(),
            p2p_status: Assoc::new(),
            thumbs: Assoc::new(),
            own_full: Assoc::new(),
            link_previews: Assoc::new(),
            preview_loading: Assoc::new(),
            media: Assoc::new(),
        };
        let links = Links {
            ws_connected: false,
            ws_ready: false,
            voice_ready: false,
            voice_frames: Assoc::new(),
            voice_panel_open: false,
        };
        AppState {
            session,
            form,
            chats,
            menus,
            new_conv,
            guilds,
            stickers,
            people,
            files,
            links,
        }
    }
}

// ---------------------------------------------------------------------------
// Files that were kept
// ---------------------------------------------------------------------------

/// A file that was found in the cache.
pub struct CachedFile {
    pub name: String,
    pub path: String,
    /// What is in it, where it could be read.
    pub bytes: Option<Vec<u8>>,
    /// Whether it is an image.
    pub is_image: bool,
}

/// How much of a file is read at the start, at most.
pub const MAX_CACHED_IMAGE: usize = 50_000_000;

/// What is kept of a file in the cache: where it lies, and for an image that is not too large, what
/// is in it.
pub open spec fn kept_file(f: CachedFile) -> DownloadedFile {
    DownloadedFile {
        image: match f.bytes {
            Some(b) => if b@.len() <= MAX_CACHED_IMAGE && f.is_image {
                Some(b)
            } else {
                None
            },
            None => None,
        },
        path: Some(f.path),
    }
}

pub open spec fn with_cached(
    known: Map<Seq<char>, DownloadedFile>,
    found: Seq<CachedFile>,
) -> Map<Seq<char>, DownloadedFile>
    decreases found.len(),
{
    if found.len() == 0 {
        known
    } else {
        with_cached(known, found.drop_last()).insert(found.last().name@, kept_file(found.last()))
    }
}

impl AppState {
    /// Takes up the files that lie in the cache.
    pub fn load_cached_files(&mut self, found: Vec<CachedFile>)
        ensures
            *final(self) == (AppState {
                files: Files { downloaded: final(self).files.downloaded, ..old(self).files },
                ..*old(self)
            }),
            final(self).files.downloaded@ == with_cached(old(self).files.downloaded@, found@),
    {
        let ghost all = found@;
        let ghost start = *self;
        proof {
            assert(all.take(0) =~= Seq::empty());
        }
        for f in it: found
            invariant
                it.seq() == all,
                *self == (AppState {
                    files: Files { downloaded: self.files.downloaded, ..start.files },
                    ..start
                }),
                self.files.downloaded@ == with_cached(
                    start.files.downloaded@,
                    all.take(it.index() as int),
                ),
        {
            proof {
                let i = it.index() as int;
                assert(all.take(i + 1).drop_last() =~= all.take(i));
                assert(all.take(i + 1).last() == all[i]);
            }
            let image = match f.bytes {
                Some(b) => {
                    if b.len() <= MAX_CACHED_IMAGE && f.is_image {
                        Some(b)
                    } else {
                        None
                    }
                },
                None => None,
            };
            self.files.downloaded.insert(f.name, DownloadedFile { image, path: Some(f.path) });
        }
        proof {
            assert(all.take(all.len() as int) =~= all);
        }
    }
}

// ---------------------------------------------------------------------------
// Settings that were kept
// ---------------------------------------------------------------------------

/// The accent colour without any other choice.
pub open spec fn default_accent() -> Rgb {
    Rgb { r: 125, g: 92, b: 224 }
}

/// The accent colour in a settings file; the usual one where it cannot be read.
pub open spec fn accent_in(settings: Seq<char>) -> Rgb {
    match json_text(settings, "/accent"@) {
        Some(h) => match colour_of(trim_front_char(h, '#')) {
            Some(colour) => colour,
            None => default_accent(),
        },
        None => default_accent(),
    }
}

/// An accent colour that was kept comes back as it was.
pub proof fn kept_accents_come_back(settings: Seq<char>, c: Rgb)
    requires
        says(settings, "/accent"@, hex_colour(c)),
    ensures
        accent_in(settings) == c,
{
    colour_round_trip(c);
}

/// The accent colour in a settings file, if there is one that can be read.
pub fn accent_from_file(settings: Option<&str>) -> (c: Rgb)
    ensures
        c == match settings {
            Some(s) => accent_in(s@),
            None => default_accent(),
        },
{
    match settings {
        Some(s) => match json_text_at(s, "/accent") {
            Some(h) => match parse_hex_color(h.as_str()) {
                Some(c) => return c,
                None => {},
            },
            None => {},
        },
        None => {},
    }
    Rgb { r: 125, g: 92, b: 224 }
}

/// The id of this device: the kept one, or a new one, which is then to be kept.
pub fn device_id(kept: Option<&str>) -> (r: (String, bool))
    ensures
        match kept {
            Some(k) => if trim(k@).len() > 0 {
                r.0@ == trim(k@) && !r.1
            } else {
                is_random_id(r.0@) && r.1
            },
            None => is_random_id(r.0@) && r.1,
        },
{
    match kept {
        Some(k) => {
            let id = trim_text(k);
            if !id.as_str().is_empty() {
                return (id, false);
            }
        },
        None => {},
    }
    (new_random_id(), true)
}

/// A kept session is taken up where its server names the account.
pub fn restored(saved: Option<(String, String)>, user: Option<User>) -> (r: Option<
    (String, String, User),
>)
    ensures
        r == match (saved, user) {
            (Some(s), Some(u)) => Some((s.0, s.1, u)),
            _ => None,
        },
{
    match (saved, user) {
        (Some(s), Some(u)) => Some((s.0, s.1, u)),
        _ => None,
    }
}

/// A session is kept only if there is one.
pub fn worth_keeping(server: &str, token: &str) -> (b: bool)
    ensures
        b == (server@.len() > 0 && token@.len() > 0),
{
    !server.is_empty() && !token.is_empty()
}

/// The title of the window.
pub fn window_title(user: &Option<User>) -> (r: String)
    ensures
        r@ == match user {
            Some(u) => "FediTexter - "@ + u.username@,
            None => "FediTexter"@,
        },
{
    match user {
        Some(u) => concat2("FediTexter - ", u.username.as_str()),
        None => copy_text("FediTexter"),
    }
}

} // verus!
