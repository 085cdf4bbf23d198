//! Profiles, settings and the pictures of users.

use vstd::prelude::*;

use crate::chat::action::{no_actions, one_action, Action, Api};
use crate::chat::avatars::avatars_step;
use crate::chat::guilds::call;
use crate::chat::msg::ProfileMsg;
use crate::chat::state::{api_error_step, with_error, AppState, People, Session};
use crate::chat::types::{Profile, SettingsTab, User};
use crate::colour::{
    accent_to_hex, colour_of, hex_colour, is_hex_colour, strict_colour,
};
use crate::text::{concat2, copy_text, trim, trim_front_char, trim_start_char, trim_text};

verus! {

pub open spec fn is_blocked(p: Option<Profile>) -> bool {
    p matches Some(x) && x.blocked
}

pub open spec fn is_muted(p: Option<Profile>) -> bool {
    p matches Some(x) && x.muted
}

/// The request that changes how the user is treated.
pub open spec fn moderates(acts: Seq<Action>, user: u64, word: Seq<char>) -> bool {
    &&& acts.len() == 1
    &&& acts[0] matches Action::Call(Api::Moderate { user_id, verb })
    &&& user_id == user
    &&& verb@ == word
}

/// Whether the profile shows to others; it does unless the user said otherwise.
pub open spec fn shows_profile(u: Option<User>) -> bool {
    match u {
        Some(x) => x.profile_visible,
        None => true,
    }
}

/// A new picture was saved: the old one is forgotten and loaded anew.
pub open spec fn avatar_saved_step(pre: AppState, u: User, post: AppState, acts: Seq<Action>) -> bool {
    exists|mid: AppState| #[trigger] avatars_step(mid, post, acts) && {
        &&& mid == (AppState {
            session: Session { user: Some(u), info: mid.session.info, ..pre.session },
            people: People {
                avatar_busy: false,
                avatars: mid.people.avatars,
                avatar_attempted: mid.people.avatar_attempted,
                ..pre.people
            },
            ..pre
        })
        &&& mid.session.info@ == "Profile picture updated"@
        &&& mid.people.avatars@ == pre.people.avatars@.remove(u.id)
        &&& mid.people.avatar_attempted@ == pre.people.avatar_attempted@.remove(u.id)
    }
}

pub open spec fn avatar_failed_step(pre: AppState, e: String, post: AppState, acts: Seq<Action>) -> bool {
    exists|text: String| #[trigger] text@ == "avatar upload failed: "@ + e@ && api_error_step(
        AppState { people: People { avatar_busy: false, ..pre.people }, ..pre },
        text,
        post,
        acts,
    )
}

/// The settings open with what the account says now.
pub open spec fn toggle_settings_step(pre: AppState, post: AppState) -> bool {
    let open = !pre.people.settings_open;
    &&& post == (AppState {
        people: People {
            settings_open: open,
            display_name_input: match pre.session.user {
                Some(u) => if open {
                    u.display_name
                } else {
                    pre.people.display_name_input
                },
                None => pre.people.display_name_input,
            },
            bio_input: match pre.session.user {
                Some(u) => if open {
                    u.bio
                } else {
                    pre.people.bio_input
                },
                None => pre.people.bio_input,
            },
            accent_hex_input: post.people.accent_hex_input,
            ..pre.people
        },
        ..pre
    })
    &&& if open && pre.people.accent_hex_input@.len() == 0 {
        post.people.accent_hex_input@ == hex_colour(pre.people.accent)
    } else {
        post.people.accent_hex_input == pre.people.accent_hex_input
    }
}

/// What was typed as a colour, without blanks and the mark in front.
pub open spec fn typed_colour(s: Seq<char>) -> Seq<char> {
    trim_front_char(trim(s), '#')
}

pub open spec fn apply_accent_step(pre: AppState, post: AppState, acts: Seq<Action>) -> bool {
    let h = typed_colour(pre.people.accent_hex_input@);
    if is_hex_colour(h) {
        let c = colour_of(h)->0;
        post == (AppState { people: People { accent: c, ..pre.people }, ..pre }) && acts == seq![
            Action::SaveAccent(c),
        ]
    } else {
        &&& post == with_error(pre, post.session.error)
        &&& post.session.error@ == "Invalid hex colour (e.g. #7a5cf0)"@
        &&& acts.len() == 0
    }
}

pub open spec fn profile_step(
    pre: AppState,
    msg: ProfileMsg,
    post: AppState,
    acts: Seq<Action>,
) -> bool {
    match msg {
        ProfileMsg::ShowProfile(user_id) => post == pre && acts == seq![
            Action::Call(Api::LoadProfile { user_id }),
        ],
        ProfileMsg::ProfileLoaded(p) => avatars_step(
            AppState {
                people: People { profile: Some(p), profile_open: true, ..pre.people },
                ..pre
            },
            post,
            acts,
        ),
        ProfileMsg::CloseProfile => post == (AppState {
            people: People { profile_open: false, ..pre.people },
            ..pre
        }) && acts.len() == 0,
        ProfileMsg::ToggleBlock(id) => post == pre && moderates(
            acts,
            id,
            if is_blocked(pre.people.profile) {
                "unblock"@
            } else {
                "block"@
            },
        ),
        ProfileMsg::ToggleMute(id) => post == pre && moderates(
            acts,
            id,
            if is_muted(pre.people.profile) {
                "unmute"@
            } else {
                "mute"@
            },
        ),
        ProfileMsg::ModerationResult(Ok(p)) => avatars_step(
            AppState { people: People { profile: Some(p), ..pre.people }, ..pre },
            post,
            acts,
        ),
        ProfileMsg::ModerationResult(Err(e)) => api_error_step(pre, e, post, acts),
        ProfileMsg::DisplayNameChanged(s) => post == (AppState {
            people: People { display_name_input: s, ..pre.people },
            ..pre
        }) && acts.len() == 0,
        ProfileMsg::SaveSettings => post == pre && acts == seq![
            Action::Call(
                Api::SaveSettings {
                    display_name: pre.people.display_name_input,
                    bio: pre.people.bio_input,
                    profile_visible: shows_profile(pre.session.user),
                },
            ),
        ],
        ProfileMsg::SettingsResult(Ok(u)) => avatars_step(
            AppState { session: Session { user: Some(u), ..pre.session }, ..pre },
            post,
            acts,
        ),
        ProfileMsg::SettingsResult(Err(e)) => api_error_step(pre, e, post, acts),
        ProfileMsg::ToggleSettings => toggle_settings_step(pre, post) && acts.len() == 0,
        ProfileMsg::PickAvatar => post == pre && acts == seq![Action::PickAvatar],
        ProfileMsg::AvatarChosen(Ok(bytes)) => post == (AppState {
            people: People { avatar_busy: true, ..pre.people },
            ..pre
        }) && acts == seq![Action::PrepareAvatar { bytes }],
        ProfileMsg::AvatarChosen(Err(e)) => {
            &&& post == with_error(pre, post.session.error)
            &&& post.session.error@ == "avatar: "@ + e@
            &&& acts.len() == 0
        },
        ProfileMsg::AvatarPrepared(Ok(data_url)) => post == pre && acts == seq![
            Action::Call(Api::SetAvatar { data_url }),
        ],
        ProfileMsg::AvatarPrepared(Err(e)) => avatar_failed_step(pre, e, post, acts),
        ProfileMsg::AvatarSaved(Ok(u)) => avatar_saved_step(pre, u, post, acts),
        ProfileMsg::AvatarSaved(Err(e)) => avatar_failed_step(pre, e, post, acts),
        ProfileMsg::RemoveAvatar => post == pre && acts == seq![Action::Call(Api::RemoveAvatar)],
        ProfileMsg::AvatarFetched { user_id, result } => post == pre && acts == match result {
            Ok(bytes) => seq![Action::MakeAvatar { user_id, bytes }],
            Err(_) => Seq::empty(),
        },
        ProfileMsg::AvatarReady { user_id, png } => {
            &&& post == (AppState {
                people: People { avatars: post.people.avatars, ..pre.people },
                ..pre
            })
            &&& post.people.avatars@ == pre.people.avatars@.insert(user_id, png)
            &&& acts.len() == 0
        },
        ProfileMsg::SettingsTabChanged(t) => {
            let load = t == SettingsTab::Devices && pre.people.sessions@.len() == 0
                && !pre.people.sessions_busy;
            &&& post == (AppState {
                people: People {
                    settings_tab: t,
                    sessions_busy: load || pre.people.sessions_busy,
                    ..pre.people
                },
                ..pre
            })
            &&& acts == if load {
                seq![Action::Call(Api::LoadSessions)]
            } else {
                Seq::empty()
            }
        },
        ProfileMsg::BioChanged(s) => post == (AppState {
            people: People { bio_input: s, ..pre.people },
            ..pre
        }) && acts.len() == 0,
        ProfileMsg::ProfileVisibleToggled(visible) => post == pre && acts == seq![
            Action::Call(Api::SetProfileVisible { visible }),
        ],
        ProfileMsg::SessionsLoaded(Ok(sessions)) => post == (AppState {
            people: People { sessions_busy: false, sessions, ..pre.people },
            ..pre
        }) && acts.len() == 0,
        ProfileMsg::SessionsLoaded(Err(e)) => api_error_step(
            AppState { people: People { sessions_busy: false, ..pre.people }, ..pre },
            e,
            post,
            acts,
        ),
        ProfileMsg::RevokeSession(session_id) => post == pre && acts == seq![
            Action::Call(Api::RevokeSession { session_id }),
        ],
        ProfileMsg::SessionRevoked(Ok(())) => post == pre && acts == seq![
            Action::Call(Api::LoadSessions),
        ],
        ProfileMsg::SessionRevoked(Err(e)) => api_error_step(pre, e, post, acts),
        ProfileMsg::SetAccent(c) => post == (AppState {
            people: People { accent: c, ..pre.people },
            ..pre
        }) && acts == seq![Action::SaveAccent(c)],
        ProfileMsg::AccentHexChanged(s) => post == (AppState {
            people: People { accent_hex_input: s, ..pre.people },
            ..pre
        }) && acts.len() == 0,
        ProfileMsg::ApplyAccentHex => apply_accent_step(pre, post, acts),
    }
}

fn moderate(user_id: u64, verb: &str) -> (acts: Vec<Action>)
    ensures
        moderates(acts@, user_id, verb@),
{
    call(Api::Moderate { user_id, verb: copy_text(verb) })
}

impl AppState {
    fn save_settings(&self) -> (acts: Vec<Action>)
        ensures
            profile_step(*self, ProfileMsg::SaveSettings, *self, acts@),
    {
        let profile_visible = match &self.session.user {
            Some(u) => u.profile_visible,
            None => true,
        };
        call(
            Api::SaveSettings {
                display_name: self.people.display_name_input.clone(),
                bio: self.people.bio_input.clone(),
                profile_visible,
            },
        )
    }

    fn toggle_settings(&mut self)
        ensures
            toggle_settings_step(*old(self), *final(self)),
    {
        self.people.settings_open = !self.people.settings_open;
        if self.people.settings_open {
            match &self.session.user {
                Some(u) => {
                    self.people.display_name_input = u.display_name.clone();
                    self.people.bio_input = u.bio.clone();
                },
                None => {},
            }
            if self.people.accent_hex_input.as_str().is_empty() {
                self.people.accent_hex_input = accent_to_hex(self.people.accent);
            }
        }
    }

    fn avatar_saved(&mut self, u: User) -> (acts: Vec<Action>)
        ensures
            avatar_saved_step(*old(self), u, *final(self), acts@),
    {
        self.people.avatar_busy = false;
        self.people.avatars.remove(&u.id);
        self.people.avatar_attempted.remove(&u.id);
        self.session.user = Some(u);
        self.session.info = copy_text("Profile picture updated");
        let ghost mid = *self;
        let acts = self.ensure_avatars();
        proof {
            assert(avatars_step(mid, *self, acts@));
        }
        acts
    }

    fn avatar_failed(&mut self, e: String) -> (acts: Vec<Action>)
        ensures
            avatar_failed_step(*old(self), e, *final(self), acts@),
    {
        self.people.avatar_busy = false;
        let text = concat2("avatar upload failed: ", e.as_str());
        self.handle_api_error(text)
    }

    fn apply_accent(&mut self) -> (acts: Vec<Action>)
        ensures
            apply_accent_step(*old(self), *final(self), acts@),
    {
        let t = trim_text(self.people.accent_hex_input.as_str());
        let h = trim_start_char(t.as_str(), '#');
        match strict_colour(h.as_str()) {
            Some(c) => {
                self.people.accent = c;
                one_action(Action::SaveAccent(c))
            },
            None => {
                self.session.error = copy_text("Invalid hex colour (e.g. #7a5cf0)");
                no_actions()
            },
        }
    }

    pub fn update_profile(&mut self, msg: ProfileMsg) -> (acts: Vec<Action>)
        ensures
            profile_step(*old(self), msg, *final(self), acts@),
    {
        match msg {
            ProfileMsg::ShowProfile(user_id) => call(Api::LoadProfile { user_id }),
            ProfileMsg::ProfileLoaded(p) => {
                self.people.profile = Some(p);
                self.people.profile_open = true;
                self.ensure_avatars()
            },
            ProfileMsg::CloseProfile => {
                self.people.profile_open = false;
                no_actions()
            },
            ProfileMsg::ToggleBlock(id) => {
                let blocked = match &self.people.profile {
                    Some(p) => p.blocked,
                    None => false,
                };
                moderate(
                    id,
                    if blocked {
                        "unblock"
                    } else {
                        "block"
                    },
                )
            },
            ProfileMsg::ToggleMute(id) => {
                let muted = match &self.people.profile {
                    Some(p) => p.muted,
                    None => false,
                };
                moderate(
                    id,
                    if muted {
                        "unmute"
                    } else {
                        "mute"
                    },
                )
            },
            ProfileMsg::ModerationResult(Ok(p)) => {
                self.people.profile = Some(p);
                self.ensure_avatars()
            },
            ProfileMsg::ModerationResult(Err(e)) => self.handle_api_error(e),
            ProfileMsg::DisplayNameChanged(s) => {
                self.people.display_name_input = s;
                no_actions()
            },
            ProfileMsg::SaveSettings => self.save_settings(),
            ProfileMsg::SettingsResult(Ok(u)) => {
                self.session.user = Some(u);
                self.ensure_avatars()
            },
            ProfileMsg::SettingsResult(Err(e)) => self.handle_api_error(e),
            ProfileMsg::ToggleSettings => {
                self.toggle_settings();
                no_actions()
            },
            ProfileMsg::PickAvatar => one_action(Action::PickAvatar),
            ProfileMsg::AvatarChosen(Ok(bytes)) => {
                self.people.avatar_busy = true;
                one_action(Action::PrepareAvatar { bytes })
            },
            ProfileMsg::AvatarChosen(Err(e)) => {
                self.session.error = concat2("avatar: ", e.as_str());
                no_actions()
            },
            ProfileMsg::AvatarPrepared(Ok(data_url)) => call(Api::SetAvatar { data_url }),
            ProfileMsg::AvatarPrepared(Err(e)) => self.avatar_failed(e),
            ProfileMsg::AvatarSaved(Ok(u)) => self.avatar_saved(u),
            ProfileMsg::AvatarSaved(Err(e)) => self.avatar_failed(e),
            ProfileMsg::RemoveAvatar => call(Api::RemoveAvatar),
            ProfileMsg::AvatarFetched { user_id, result } => match result {
                Ok(bytes) => one_action(Action::MakeAvatar { user_id, bytes }),
                Err(_) => no_actions(),
            },
            ProfileMsg::AvatarReady { user_id, png } => {
                self.people.avatars.insert(user_id, png);
                no_actions()
            },
            ProfileMsg::SettingsTabChanged(t) => {
                self.people.settings_tab = t;
                if t == SettingsTab::Devices && self.people.sessions.len() == 0
                    && !self.people.sessions_busy {
                    self.people.sessions_busy = true;
                    call(Api::LoadSessions)
                } else {
                    no_actions()
                }
            },
            ProfileMsg::BioChanged(s) => {
                self.people.bio_input = s;
                no_actions()
            },
            ProfileMsg::ProfileVisibleToggled(visible) => call(
                Api::SetProfileVisible { visible },
            ),
            ProfileMsg::SessionsLoaded(Ok(sessions)) => {
                self.people.sessions_busy = false;
                self.people.sessions = sessions;
                no_actions()
            },
            ProfileMsg::SessionsLoaded(Err(e)) => {
                self.people.sessions_busy = false;
                self.handle_api_error(e)
            },
            ProfileMsg::RevokeSession(session_id) => call(Api::RevokeSession { session_id }),
            ProfileMsg::SessionRevoked(Ok(())) => call(Api::LoadSessions),
            ProfileMsg::SessionRevoked(Err(e)) => self.handle_api_error(e),
            ProfileMsg::SetAccent(c) => {
                self.people.accent = c;
                one_action(Action::SaveAccent(c))
            },
            ProfileMsg::AccentHexChanged(s) => {
                self.people.accent_hex_input = s;
                no_actions()
            },
            ProfileMsg::ApplyAccentHex => self.apply_accent(),
        }
    }
}

} // verus!
