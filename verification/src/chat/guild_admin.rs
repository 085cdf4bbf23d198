//! The settings of a guild: its channels, roles and bans.

use vstd::prelude::*;

use crate::chat::action::{no_actions, Action, Api};
use crate::chat::guilds::{call, find_guild, guild_index};
use crate::chat::msg::GuildAdminMsg;
use crate::chat::state::{api_error_step, AppState, Guilds};
use crate::chat::types::{Guild, GuildSettingsTab};
use crate::text::{trim, trim_text};

verus! {

/// The guilds with `g` in the place of the first one with its id.
pub open spec fn guild_replaced(gs: Seq<Guild>, g: Guild) -> Seq<Guild> {
    let i = guild_index(gs, g.id);
    if i < gs.len() {
        gs.update(i, g)
    } else {
        gs
    }
}

/// The details of the open guild are asked for again.
pub open spec fn reload_guild(g: Option<u64>) -> Seq<Action> {
    match g {
        Some(guild_id) => seq![Action::Call(Api::LoadGuild { guild_id })],
        None => Seq::empty(),
    }
}

pub open spec fn create_role_step(
    pre: AppState,
    guild: u64,
    post: AppState,
    acts: Seq<Action>,
) -> bool {
    let name = trim(pre.guilds.role_name_input@);
    if name.len() == 0 {
        post == pre && acts.len() == 0
    } else {
        &&& post == (AppState {
            guilds: Guilds { role_name_input: post.guilds.role_name_input, ..pre.guilds },
            ..pre
        })
        &&& post.guilds.role_name_input@.len() == 0
        &&& acts.len() == 1
        &&& acts[0] matches Action::Call(Api::CreateRole { guild_id, name: n })
        &&& guild_id == guild
        &&& n@ == name
    }
}

pub open spec fn guild_admin_step(
    pre: AppState,
    msg: GuildAdminMsg,
    post: AppState,
    acts: Seq<Action>,
) -> bool {
    match msg {
        GuildAdminMsg::OpenGuildSettings => {
            &&& acts == reload_guild(pre.guilds.selected_guild)
            &&& post == match pre.guilds.selected_guild {
                Some(_) => (AppState {
                    guilds: Guilds {
                        settings_open: true,
                        settings_tab: GuildSettingsTab::Channels,
                        ..pre.guilds
                    },
                    ..pre
                }),
                None => pre,
            }
        },
        GuildAdminMsg::CloseGuildSettings => post == (AppState {
            guilds: Guilds { settings_open: false, ..pre.guilds },
            ..pre
        }) && acts.len() == 0,
        GuildAdminMsg::GuildSettingsLoaded(Ok(g)) => {
            &&& post == (AppState {
                guilds: Guilds { guilds: post.guilds.guilds, ..pre.guilds },
                ..pre
            })
            &&& post.guilds.guilds@ == guild_replaced(pre.guilds.guilds@, g)
            &&& acts.len() == 0
        },
        GuildAdminMsg::GuildSettingsLoaded(Err(e)) => api_error_step(pre, e, post, acts),
        GuildAdminMsg::GuildSettingsTabChanged(t) => post == (AppState {
            guilds: Guilds { settings_tab: t, ..pre.guilds },
            ..pre
        }) && acts.len() == 0,
        GuildAdminMsg::RoleNameInput(s) => post == (AppState {
            guilds: Guilds { role_name_input: s, ..pre.guilds },
            ..pre
        }) && acts.len() == 0,
        GuildAdminMsg::CreateRoleSubmit(guild) => create_role_step(pre, guild, post, acts),
        GuildAdminMsg::DeleteRole { guild_id, role_id } => post == pre && acts == seq![
            Action::Call(Api::DeleteRole { guild_id, role_id }),
        ],
        GuildAdminMsg::AssignRole { guild_id, role_id, user_id, on } => post == pre && acts == seq![
            Action::Call(Api::AssignRole { guild_id, role_id, user_id, on }),
        ],
        GuildAdminMsg::RenameChannel { channel_id, name } => {
            &&& post == pre
            &&& acts == match pre.guilds.selected_guild {
                Some(guild_id) => seq![
                    Action::Call(Api::RenameChannel { guild_id, channel_id, name }),
                ],
                None => Seq::empty(),
            }
        },
        GuildAdminMsg::ChannelRenameInput { channel_id, value } => {
            &&& post == (AppState {
                guilds: Guilds {
                    channel_rename_inputs: post.guilds.channel_rename_inputs,
                    ..pre.guilds
                },
                ..pre
            })
            &&& post.guilds.channel_rename_inputs@ == pre.guilds.channel_rename_inputs@.insert(
                channel_id,
                value,
            )
            &&& acts.len() == 0
        },
        GuildAdminMsg::DeleteChannel { channel_id } => {
            &&& post == pre
            &&& acts == match pre.guilds.selected_guild {
                Some(guild_id) => seq![
                    Action::Call(Api::DeleteChannel { guild_id, channel_id }),
                ],
                None => Seq::empty(),
            }
        },
        GuildAdminMsg::BanMember { guild_id, user_id } => post == pre && acts == seq![
            Action::Call(Api::BanMember { guild_id, user_id }),
        ],
        GuildAdminMsg::UnbanMember { guild_id, user_id } => post == pre && acts == seq![
            Action::Call(Api::UnbanMember { guild_id, user_id }),
        ],
        GuildAdminMsg::GuildAdminAction(Ok(())) => post == pre && acts == reload_guild(
            pre.guilds.selected_guild,
        ),
        GuildAdminMsg::GuildAdminAction(Err(e)) => api_error_step(pre, e, post, acts),
    }
}

impl AppState {
    fn reload_open_guild(&self) -> (acts: Vec<Action>)
        ensures
            acts@ == reload_guild(self.guilds.selected_guild),
    {
        match self.guilds.selected_guild {
            Some(guild_id) => call(Api::LoadGuild { guild_id }),
            None => no_actions(),
        }
    }

    fn settings_loaded(&mut self, g: Guild)
        ensures
            *final(self) == (AppState {
                guilds: Guilds { guilds: final(self).guilds.guilds, ..old(self).guilds },
                ..*old(self)
            }),
            final(self).guilds.guilds@ == guild_replaced(old(self).guilds.guilds@, g),
    {
        match find_guild(&self.guilds.guilds, g.id) {
            Some(i) => {
                self.guilds.guilds.set(i, g);
            },
            None => {},
        }
    }

    #[verifier::rlimit(20)]
    pub fn update_guild_admin(&mut self, msg: GuildAdminMsg) -> (acts: Vec<Action>)
        ensures
            guild_admin_step(*old(self), msg, *final(self), acts@),
    {
        match msg {
            GuildAdminMsg::OpenGuildSettings => {
                if self.guilds.selected_guild.is_some() {
                    self.guilds.settings_open = true;
                    self.guilds.settings_tab = GuildSettingsTab::Channels;
                }
                self.reload_open_guild()
            },
            GuildAdminMsg::CloseGuildSettings => {
                self.guilds.settings_open = false;
                no_actions()
            },
            GuildAdminMsg::GuildSettingsLoaded(Ok(g)) => {
                self.settings_loaded(g);
                no_actions()
            },
            GuildAdminMsg::GuildSettingsLoaded(Err(e)) => self.handle_api_error(e),
            GuildAdminMsg::GuildSettingsTabChanged(t) => {
                self.guilds.settings_tab = t;
                no_actions()
            },
            GuildAdminMsg::RoleNameInput(s) => {
                self.guilds.role_name_input = s;
                no_actions()
            },
            GuildAdminMsg::CreateRoleSubmit(guild_id) => {
                let name = trim_text(self.guilds.role_name_input.as_str());
                if name.as_str().is_empty() {
                    return no_actions();
                }
                self.guilds.role_name_input = String::new();
                call(Api::CreateRole { guild_id, name })
            },
            GuildAdminMsg::DeleteRole { guild_id, role_id } => call(
                Api::DeleteRole { guild_id, role_id },
            ),
            GuildAdminMsg::AssignRole { guild_id, role_id, user_id, on } => call(
                Api::AssignRole { guild_id, role_id, user_id, on },
            ),
            GuildAdminMsg::RenameChannel { channel_id, name } => match self.guilds.selected_guild {
                Some(guild_id) => call(Api::RenameChannel { guild_id, channel_id, name }),
                None => no_actions(),
            },
            GuildAdminMsg::ChannelRenameInput { channel_id, value } => {
                self.guilds.channel_rename_inputs.insert(channel_id, value);
                no_actions()
            },
            GuildAdminMsg::DeleteChannel { channel_id } => match self.guilds.selected_guild {
                Some(guild_id) => call(Api::DeleteChannel { guild_id, channel_id }),
                None => no_actions(),
            },
            GuildAdminMsg::BanMember { guild_id, user_id } => call(
                Api::BanMember { guild_id, user_id },
            ),
            GuildAdminMsg::UnbanMember { guild_id, user_id } => call(
                Api::UnbanMember { guild_id, user_id },
            ),
            GuildAdminMsg::GuildAdminAction(Ok(())) => self.reload_open_guild(),
            GuildAdminMsg::GuildAdminAction(Err(e)) => self.handle_api_error(e),
        }
    }
}

} // verus!
