//! The parts that the views are made of.

use vstd::prelude::*;
use vstd::utf8::encode_utf8;

use crate::chat::guilds::{find_guild, guild_index};
use crate::chat::msg::Msg;
use crate::chat::state::AppState;
use crate::chat::types::Guild;
use crate::identity::{letters_of, name_hash, name_hue, user_initials};
use crate::text::copy_text;

verus! {

/// A button.
pub enum Control {
    /// Something is under way, and the button turns.
    Spinner,
    /// The button cannot be pressed.
    Idle(String),
    Press { label: String, msg: Msg },
}

/// A button with a label that sends a message.
pub open spec fn is_press(c: Control, text: Seq<char>, m: Msg) -> bool {
    c matches Control::Press { label, msg } && label@ == text && msg == m
}

/// A button that turns while something is under way.
pub open spec fn is_busy_press(c: Control, busy: bool, text: Seq<char>, m: Msg) -> bool {
    if busy {
        c is Spinner
    } else {
        is_press(c, text, m)
    }
}

pub fn press(label: &str, msg: Msg) -> (c: Control)
    ensures
        is_press(c, label@, msg),
{
    Control::Press { label: copy_text(label), msg }
}

pub fn busy_press(busy: bool, label: &str, msg: Msg) -> (c: Control)
    ensures
        is_busy_press(c, busy, label@, msg),
{
    if busy {
        Control::Spinner
    } else {
        press(label, msg)
    }
}

/// What stands for a user: their picture, or letters on a colour.
pub enum Face {
    Picture { user_id: u64 },
    /// The hue of the colour is in degrees.
    Letters { text: String, hue: u32 },
}

/// The letters and the colour of a name.
pub open spec fn is_letters(f: Face, name: Seq<char>) -> bool {
    f matches Face::Letters { text, hue } && text@ == letters_of(name) && hue == name_hash(
        encode_utf8(name),
    ) % 360
}

/// The picture of a user, or the letters of a name where there is none.
pub open spec fn is_face(f: Face, avatars: Map<u64, Vec<u8>>, user: u64, name: Seq<char>) -> bool {
    if avatars.contains_key(user) {
        f == (Face::Picture { user_id: user })
    } else {
        is_letters(f, name)
    }
}

/// Letters on a colour.
pub fn avatar_circle(name: &str) -> (f: Face)
    ensures
        is_letters(f, name@),
{
    Face::Letters { text: user_initials(name), hue: name_hue(name) }
}

/// The picture of a user, or letters.
pub fn avatar_element(state: &AppState, user_id: u64, fallback_name: &str) -> (f: Face)
    ensures
        is_face(f, state.people.avatars@, user_id, fallback_name@),
{
    if state.people.avatars.contains_key(&user_id) {
        Face::Picture { user_id }
    } else {
        avatar_circle(fallback_name)
    }
}

/// A name to be shown: the display name, or the user name where there is none.
pub open spec fn name_of(display_name: Seq<char>, username: Seq<char>) -> Seq<char> {
    if display_name.len() == 0 {
        username
    } else {
        display_name
    }
}

pub fn name_or(display_name: &str, username: &str) -> (r: String)
    ensures
        r@ == name_of(display_name@, username@),
{
    if display_name.is_empty() {
        copy_text(username)
    } else {
        copy_text(display_name)
    }
}

/// A text that is shown unless it is empty.
pub open spec fn if_any(s: String) -> Option<String> {
    if s@.len() > 0 {
        Some(s)
    } else {
        None
    }
}

pub fn shown(s: &String) -> (r: Option<String>)
    ensures
        r == if_any(*s),
{
    if s.as_str().is_empty() {
        None
    } else {
        Some(s.clone())
    }
}

/// The guild that is open.
pub open spec fn open_guild(gs: Seq<Guild>, selected: Option<u64>) -> Option<Guild> {
    match selected {
        Some(id) => {
            let i = guild_index(gs, id);
            if i < gs.len() {
                Some(gs[i])
            } else {
                None
            }
        },
        None => None,
    }
}

pub fn selected_guild(state: &AppState) -> (r: Option<&Guild>)
    ensures
        match r {
            Some(g) => open_guild(state.guilds.guilds@, state.guilds.selected_guild) == Some(*g),
            None => open_guild(state.guilds.guilds@, state.guilds.selected_guild) is None,
        },
{
    match state.guilds.selected_guild {
        Some(id) => match find_guild(&state.guilds.guilds, id) {
            Some(i) => Some(&state.guilds.guilds[i]),
            None => None,
        },
        None => None,
    }
}

} // verus!
