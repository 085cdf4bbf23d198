//! The desktop client at its start, and what it keeps from one start to the next.

use std::collections::HashMap;

use vstd::prelude::*;

use crate::assoc::Assoc;
use crate::cache::{is_random_id, new_random_id};
use crate::chat::types::{OwnFile, Rgb, Spot};
use crate::colour::accent_to_hex;
use crate::colour::hex_colour;
use crate::desktop::requests::Call;
use crate::desktop::state::{
    Account, Cards, Composer, Desktop, KeptFile, Preview, Store, Talks, Texts, Window,
};
use crate::server::{completed, normalize_server};
use crate::text::{copy_text, has_prefix, starts_with, trim, trim_text};

verus! {

/// What is kept on disk.
pub struct LocalSettings {
    pub server: String,
    pub accent: Option<String>,
    pub device_id: Option<String>,
}

/// What a settings file says. `parsed` is what it says as JSON; a file that is no JSON holds nothing
/// but the server.
pub fn load_settings(raw: &str, parsed: Option<LocalSettings>) -> (r: Option<LocalSettings>)
    ensures
        ({
            let t = trim(raw@);
            if has_prefix(t, "{"@) {
                r == parsed
            } else if t.len() > 0 {
                r matches Some(s) && s.server@ == t && s.accent is None && s.device_id is None
            } else {
                r is None
            }
        }),
{
    let t = trim_text(raw);
    if starts_with(t.as_str(), "{") {
        return parsed;
    }
    if t.as_str().is_empty() {
        None
    } else {
        Some(LocalSettings { server: t, accent: None, device_id: None })
    }
}

/// The server that was last used.
pub fn load_saved_server(settings: &Option<LocalSettings>) -> (r: Option<String>)
    ensures
        r == match *settings {
            Some(s) => Some(s.server),
            None => None,
        },
{
    match settings {
        Some(s) => Some(s.server.clone()),
        None => None,
    }
}

/// What stands for a server's word on whether an address was verified: one that says nothing does
/// not ask for it.
pub fn default_email_verified() -> (b: bool)
    ensures
        b,
{
    true
}

/// Settings, or empty ones where there are none.
pub open spec fn settings_or_empty(s: Option<LocalSettings>, r: LocalSettings) -> bool {
    match s {
        Some(x) => r == x,
        None => r.server@.len() == 0 && r.accent is None && r.device_id is None,
    }
}

fn or_empty_settings(s: Option<LocalSettings>) -> (r: LocalSettings)
    ensures
        settings_or_empty(s, r),
{
    match s {
        Some(x) => x,
        None => LocalSettings { server: String::new(), accent: None, device_id: None },
    }
}

/// The id of this device, and the settings to be kept where it is a new one.
pub fn load_or_create_device_id(settings: Option<LocalSettings>) -> (r: (
    String,
    Option<LocalSettings>,
))
    ensures
        match settings {
            Some(LocalSettings { device_id: Some(d), .. }) => r.0 == d && r.1 is None,
            _ => {
                &&& is_random_id(r.0@)
                &&& r.1 matches Some(s)
                &&& s.device_id == Some(r.0)
                &&& match settings {
                    Some(x) => s.server == x.server && s.accent == x.accent,
                    None => s.server@.len() == 0 && s.accent is None,
                }
            },
        },
{
    let mut s = or_empty_settings(settings);
    match &s.device_id {
        Some(d) => {
            return (d.clone(), None);
        },
        None => {},
    }
    let d = new_random_id();
    s.device_id = Some(d.clone());
    (d, Some(s))
}

/// The settings with another server, without the blanks around it.
pub fn save_server(settings: Option<LocalSettings>, server: &str) -> (r: LocalSettings)
    ensures
        r.server@ == trim(server@),
        match settings {
            Some(s) => r.accent == s.accent && r.device_id == s.device_id,
            None => r.accent is None && r.device_id is None,
        },
{
    let mut s = or_empty_settings(settings);
    s.server = trim_text(server);
    s
}

/// The settings with the server and the accent colour of the window.
pub fn save_window(settings: Option<LocalSettings>, server: &str, accent: Rgb) -> (r: LocalSettings)
    ensures
        r.server@ == server@,
        r.accent matches Some(a) && a@ == hex_colour(accent),
        match settings {
            Some(s) => r.device_id == s.device_id,
            None => r.device_id is None,
        },
{
    let mut s = or_empty_settings(settings);
    s.server = copy_text(server);
    s.accent = Some(accent_to_hex(accent));
    s
}

/// The server at the start: that of a kept session, else the one of the environment, else the one
/// that was last used, else the own machine.
pub open spec fn first_server(
    session: Option<Seq<char>>,
    environment: Option<Seq<char>>,
    kept: Option<Seq<char>>,
) -> Seq<char> {
    completed(
        match (session, environment, kept) {
            (Some(s), _, _) => s,
            (None, Some(e), _) => e,
            (None, None, Some(k)) => k,
            _ => "localhost:3000"@,
        },
    )
}

pub open spec fn text_view(s: Option<&str>) -> Option<Seq<char>> {
    match s {
        Some(t) => Some(t@),
        None => None,
    }
}

pub fn start_server(session: Option<&str>, environment: Option<&str>, kept: Option<&str>) -> (r:
    String)
    ensures
        r@ == first_server(text_view(session), text_view(environment), text_view(kept)),
{
    match (session, environment, kept) {
        (Some(s), _, _) => normalize_server(s),
        (None, Some(e), _) => normalize_server(e),
        (None, None, Some(k)) => normalize_server(k),
        _ => normalize_server("localhost:3000"),
    }
}

// ---------------------------------------------------------------------------
// The client at its start
// ---------------------------------------------------------------------------

pub open spec fn fresh_talks(t: Talks, now: u64) -> bool {
    &&& t.conversations@.len() == 0 && t.messages@.len() == 0 && t.contacts@.len() == 0
    &&& t.hidden@.len() == 0
    &&& t.selected == -1
    &&& t.unread@ == Map::<u64, u32>::empty()
    &&& t.presence@ == Map::<u64, bool>::empty()
    &&& t.typing@ == Map::<u64, (String, u64)>::empty()
    &&& t.last_typing_sent == now
}

pub open spec fn fresh_store(s: Store, cache_dir: String) -> bool {
    &&& s.cache_dir == cache_dir
    &&& s.pending_attach is None
    &&& s.preview_cache@ == Map::<Seq<char>, Option<Preview>>::empty()
    &&& s.preview_requested@ == Map::<Seq<char>, ()>::empty()
    &&& s.p2p_status@ == Map::<Seq<char>, String>::empty()
    &&& s.downloaded@ == Map::<Seq<char>, KeptFile>::empty()
    &&& s.own_files@ == Map::<Seq<char>, OwnFile>::empty()
}

pub open spec fn closed_window() -> Window {
    Window {
        logged_in: false,
        needs_verify: false,
        email_verified: false,
        needs_2fa: false,
        needs_2fa_setup: false,
        totp_enabled: false,
        profile_open: false,
        context_open: false,
        confirm_delete_open: false,
        ws_connected: false,
        twofa_setup_open: false,
        twofa_disable_open: false,
    }
}

pub open spec fn fresh_texts(t: Texts) -> bool {
    &&& t.user_name@.len() == 0 && t.display_name_input@.len() == 0
    &&& t.error_message@.len() == 0 && t.info_message@.len() == 0
    &&& t.pending_token@.len() == 0 && t.twofa_secret@.len() == 0
    &&& t.new_conversation_input@.len() == 0
    &&& t.header_title@.len() == 0 && t.header_status@.len() == 0
    &&& t.pending_attach_name@.len() == 0 && t.confirm_delete_title@.len() == 0
    &&& t.selected_conversation == -1 && t.confirm_delete_id == -1
}

/// Nobody is logged in, and nothing is known or open.
pub open spec fn is_fresh(d: Desktop, now: u64, cache_dir: String) -> bool {
    &&& d.account == (Account { token: None, self_id: None, remember_me: true })
    &&& fresh_talks(d.talks, now)
    &&& fresh_store(d.store, cache_dir)
    &&& d.window == closed_window()
    &&& fresh_texts(d.texts)
    &&& d.cards.profile is None && d.cards.context_user_id == -1
    &&& d.cards.context_conversation_id == -1
    &&& !d.cards.context_blocked && !d.cards.context_muted
    &&& !d.composer.editing && d.composer.editing_id == -1 && !d.composer.original_open
    &&& d.composer.editing_body@.len() == 0 && d.composer.draft@.len() == 0
    &&& d.composer.original_text@.len() == 0
}

fn fresh_window() -> (w: Window)
    ensures
        w == closed_window(),
{
    Window {
        logged_in: false,
        needs_verify: false,
        email_verified: false,
        needs_2fa: false,
        needs_2fa_setup: false,
        totp_enabled: false,
        profile_open: false,
        context_open: false,
        confirm_delete_open: false,
        ws_connected: false,
        twofa_setup_open: false,
        twofa_disable_open: false,
    }
}

impl Desktop {
    /// The client at its start. `now` is a clock in milliseconds.
    pub fn new(now: u64, cache_dir: String) -> (d: Desktop)
        ensures
            is_fresh(d, now, cache_dir),
    {
        let talks = Talks {
            conversations: Vec::new(),
            messages: Vec::new(),
            selected: -1,
            contacts: Vec::new(),
            hidden: Vec::new(),
            unread: HashMap::new(),
            presence: HashMap::new(),
            typing: HashMap::new(),
            last_typing_sent: now,
        };
        let store = Store {
            cache_dir,
            pending_attach: None,
            preview_cache: Assoc::new(),
            preview_requested: Assoc::new(),
            p2p_status: Assoc::new(),
            downloaded: Assoc::new(),
            own_files: Assoc::new(),
        };
        let texts = Texts {
            user_name: String::new(),
            display_name_input: String::new(),
            error_message: String::new(),
            info_message: String::new(),
            pending_token: String::new(),
            twofa_secret: String::new(),
            new_conversation_input: String::new(),
            header_title: String::new(),
            header_status: String::new(),
            pending_attach_name: String::new(),
            selected_conversation: -1,
            confirm_delete_id: -1,
            confirm_delete_title: String::new(),
        };
        let cards = Cards {
            profile: None,
            context_user_id: -1,
            context_conversation_id: -1,
            context_spot: Spot { x_bits: 0, y_bits: 0 },
            context_blocked: false,
            context_muted: false,
        };
        let composer = Composer {
            editing: false,
            editing_id: -1,
            editing_body: String::new(),
            draft: String::new(),
            original_text: String::new(),
            original_open: false,
        };
        Desktop {
            account: Account { token: None, self_id: None, remember_me: true },
            talks,
            store,
            window: fresh_window(),
            texts,
            cards,
            composer,
        }
    }

    /// Takes up a file that lies in the cache.
    pub fn found_in_cache(&mut self, name: String, path: String)
        ensures
            *final(self) == (Desktop {
                store: Store { downloaded: final(self).store.downloaded, ..old(self).store },
                ..*old(self)
            }),
            final(self).store.downloaded@ == old(self).store.downloaded@.insert(
                name@,
                KeptFile { image_data: None, path: Some(path) },
            ),
    {
        self.store.downloaded.insert(name, KeptFile { image_data: None, path: Some(path) });
    }

    /// Asks the server whether a kept session still holds.
    pub fn take_up_session(&mut self, token: String) -> (call: Call)
        ensures
            *final(self) == (Desktop {
                account: Account { remember_me: true, ..old(self).account },
                ..*old(self)
            }),
            call == (Call::Restore { token }),
    {
        self.account.remember_me = true;
        Call::Restore { token }
    }
}

} // verus!
