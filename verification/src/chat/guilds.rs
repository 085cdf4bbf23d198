//! Guilds, their channels, roles and members.

use vstd::prelude::*;

use crate::chat::action::{no_actions, one_action, two_actions, Action, Api};
use crate::chat::msg::GuildMsg;
use crate::chat::state::{api_error_step, AppState, Chats, Guilds, Menus, Session};
use crate::chat::types::{Guild, LeftTab};
use crate::text::{concat3, copy_text, trim, trim_text};

verus! {

/// The position of the first guild with `id`, or the length of the list where there is none.
pub open spec fn guild_index(gs: Seq<Guild>, id: u64) -> int
    decreases gs.len(),
{
    if gs.len() == 0 || gs[0].id == id {
        0
    } else {
        1 + guild_index(gs.drop_first(), id)
    }
}

proof fn lemma_guild_index(gs: Seq<Guild>, id: u64, i: int)
    requires
        0 <= i <= gs.len(),
        forall|j: int| 0 <= j < i ==> (#[trigger] gs[j]).id != id,
        i < gs.len() ==> gs[i].id == id,
    ensures
        guild_index(gs, id) == i,
    decreases i,
{
    if i > 0 {
        assert(gs[0].id != id);
        assert forall|j: int| 0 <= j < i - 1 implies (#[trigger] gs.drop_first()[j]).id != id by {
            assert(gs.drop_first()[j] == gs[j + 1]);
        }
        lemma_guild_index(gs.drop_first(), id, i - 1);
    }
}

/// The position of the first guild with `id`.
pub fn find_guild(gs: &Vec<Guild>, id: u64) -> (r: Option<usize>)
    ensures
        match r {
            Some(i) => i < gs.len() && i == guild_index(gs@, id) && gs@[i as int].id == id,
            None => guild_index(gs@, id) == gs@.len(),
        },
{
    let mut i: usize = 0;
    while i < gs.len()
        invariant
            i <= gs.len(),
            forall|j: int| 0 <= j < i ==> (#[trigger] gs@[j]).id != id,
        decreases gs.len() - i,
    {
        if gs[i].id == id {
            proof {
                lemma_guild_index(gs@, id, i as int);
            }
            return Some(i);
        }
        i += 1;
    }
    proof {
        lemma_guild_index(gs@, id, i as int);
    }
    None
}

/// The guilds and the conversations are asked for again.
pub open spec fn reload_all() -> Seq<Action> {
    seq![Action::Call(Api::LoadGuilds), Action::Call(Api::LoadConversations)]
}

pub open spec fn guild_busy(s: AppState, busy: bool) -> AppState {
    AppState { guilds: Guilds { busy, ..s.guilds }, ..s }
}

/// No conversation is open.
pub open spec fn conversation_left(pre: Chats, post: Chats) -> bool {
    &&& post == (Chats { selected_conversation: None, messages: post.messages, ..pre })
    &&& post.messages@.len() == 0
}

/// A text that is sent once it is not empty; `busy` shows while it is under way.
pub open spec fn create_guild_step(pre: AppState, post: AppState, acts: Seq<Action>) -> bool {
    let name = trim(pre.guilds.name_input@);
    if name.len() == 0 {
        post == guild_busy(pre, false) && acts.len() == 0
    } else {
        &&& post == guild_busy(pre, true)
        &&& acts.len() == 1
        &&& acts[0] matches Action::Call(Api::CreateGuild { name: n })
        &&& n@ == name
    }
}

pub open spec fn join_guild_step(pre: AppState, post: AppState, acts: Seq<Action>) -> bool {
    let code = trim(pre.guilds.join_code_input@);
    if code.len() == 0 {
        post == guild_busy(pre, false) && acts.len() == 0
    } else {
        &&& post == guild_busy(pre, true)
        &&& acts.len() == 1
        &&& acts[0] matches Action::Call(Api::JoinGuild { code: c })
        &&& c@ == code
    }
}

pub open spec fn create_channel_step(
    pre: AppState,
    guild: u64,
    post: AppState,
    acts: Seq<Action>,
) -> bool {
    let name = trim(pre.guilds.channel_name_input@);
    if name.len() == 0 {
        post == guild_busy(pre, false) && acts.len() == 0
    } else {
        &&& post == guild_busy(pre, true)
        &&& acts.len() == 1
        &&& acts[0] matches Action::Call(
            Api::CreateChannel { guild_id, name: n, channel_type },
        )
        &&& guild_id == guild
        &&& n@ == name
        &&& channel_type@ == (if pre.guilds.channel_is_voice {
            "voice"@
        } else {
            "text"@
        })
    }
}

pub open spec fn guild_step(pre: AppState, msg: GuildMsg, post: AppState, acts: Seq<Action>) -> bool {
    match msg {
        GuildMsg::GuildsLoaded(Ok(guilds)) => post == (AppState {
            guilds: Guilds { guilds, ..pre.guilds },
            ..pre
        }) && acts.len() == 0,
        GuildMsg::GuildsLoaded(Err(e)) => api_error_step(pre, e, post, acts),
        GuildMsg::SelectGuild(g) => {
            &&& post == (AppState {
                guilds: Guilds { selected_guild: g, left_tab: LeftTab::Servers, ..pre.guilds },
                chats: post.chats,
                menus: Menus { conv_menu_conv: None, ..pre.menus },
                ..pre
            })
            &&& conversation_left(pre.chats, post.chats)
            &&& acts.len() == 0
        },
        GuildMsg::SetLeftTab(tab) => {
            &&& post == (AppState {
                guilds: Guilds {
                    left_tab: tab,
                    selected_guild: if tab == LeftTab::Dms {
                        None
                    } else {
                        pre.guilds.selected_guild
                    },
                    ..pre.guilds
                },
                chats: post.chats,
                ..pre
            })
            &&& conversation_left(pre.chats, post.chats)
            &&& acts.len() == 0
        },
        GuildMsg::OpenGuildModal => post == (AppState {
            guilds: Guilds { modal_open: true, ..pre.guilds },
            ..pre
        }) && acts.len() == 0,
        GuildMsg::OpenServerModal => post == (AppState {
            guilds: Guilds { selected_guild: None, modal_open: true, ..pre.guilds },
            ..pre
        }) && acts.len() == 0,
        GuildMsg::CloseGuildModal => post == (AppState {
            guilds: Guilds { modal_open: false, ..pre.guilds },
            ..pre
        }) && acts.len() == 0,
        GuildMsg::GuildNameInput(s) => post == (AppState {
            guilds: Guilds { name_input: s, ..pre.guilds },
            ..pre
        }) && acts.len() == 0,
        GuildMsg::GuildJoinCodeInput(s) => post == (AppState {
            guilds: Guilds { join_code_input: s, ..pre.guilds },
            ..pre
        }) && acts.len() == 0,
        GuildMsg::CreateGuildSubmit => create_guild_step(pre, post, acts),
        GuildMsg::GuildCreated(Ok(_)) => {
            &&& post == (AppState {
                guilds: Guilds {
                    busy: false,
                    modal_open: false,
                    name_input: post.guilds.name_input,
                    selected_guild: None,
                    ..pre.guilds
                },
                ..pre
            })
            &&& post.guilds.name_input@.len() == 0
            &&& acts == reload_all()
        },
        GuildMsg::GuildCreated(Err(e)) => api_error_step(guild_busy(pre, false), e, post, acts),
        GuildMsg::JoinGuildSubmit => join_guild_step(pre, post, acts),
        GuildMsg::GuildJoined(Ok(())) => {
            &&& post == (AppState {
                guilds: Guilds {
                    busy: false,
                    modal_open: false,
                    join_code_input: post.guilds.join_code_input,
                    ..pre.guilds
                },
                ..pre
            })
            &&& post.guilds.join_code_input@.len() == 0
            &&& acts == reload_all()
        },
        GuildMsg::GuildJoined(Err(e)) => api_error_step(guild_busy(pre, false), e, post, acts),
        GuildMsg::CreateChannelSubmit(guild) => create_channel_step(pre, guild, post, acts),
        GuildMsg::ChannelCreated(Ok(())) => {
            &&& post == (AppState {
                guilds: Guilds {
                    busy: false,
                    channel_name_input: post.guilds.channel_name_input,
                    ..pre.guilds
                },
                ..pre
            })
            &&& post.guilds.channel_name_input@.len() == 0
            &&& acts == reload_all()
        },
        GuildMsg::ChannelCreated(Err(e)) => api_error_step(guild_busy(pre, false), e, post, acts),
        GuildMsg::ChannelNameInput(s) => post == (AppState {
            guilds: Guilds { channel_name_input: s, ..pre.guilds },
            ..pre
        }) && acts.len() == 0,
        GuildMsg::ChannelTypeChanged(v) => post == (AppState {
            guilds: Guilds { channel_is_voice: v, ..pre.guilds },
            ..pre
        }) && acts.len() == 0,
        GuildMsg::DeleteGuild(guild_id) => post == guild_busy(pre, true) && acts == seq![
            Action::Call(Api::DeleteGuild { guild_id }),
        ],
        GuildMsg::GuildDeleteResult(Ok(())) => post == (AppState {
            guilds: Guilds {
                busy: false,
                modal_open: false,
                selected_guild: None,
                ..pre.guilds
            },
            ..pre
        }) && acts == reload_all(),
        GuildMsg::GuildDeleteResult(Err(e)) => api_error_step(
            guild_busy(pre, false),
            e,
            post,
            acts,
        ),
        GuildMsg::CreateInvite(guild_id) => post == guild_busy(pre, true) && acts == seq![
            Action::Call(Api::CreateInvite { guild_id }),
        ],
        GuildMsg::InviteResult(Ok(code)) => {
            &&& post == (AppState {
                session: Session { info: post.session.info, ..pre.session },
                guilds: Guilds { busy: false, ..pre.guilds },
                ..pre
            })
            &&& post.session.info@ == "Invite code: "@ + code@ + " (valid 7 days)"@
            &&& acts.len() == 0
        },
        GuildMsg::InviteResult(Err(e)) => api_error_step(guild_busy(pre, false), e, post, acts),
        GuildMsg::SetRole { guild_id, user_id, is_admin } => post == pre && acts == seq![
            Action::Call(Api::SetAdmin { guild_id, user_id, is_admin }),
        ],
        GuildMsg::TransferOwner { guild_id, user_id } => post == pre && acts == seq![
            Action::Call(Api::TransferOwner { guild_id, user_id }),
        ],
        GuildMsg::KickMember { guild_id, user_id } => post == pre && acts == seq![
            Action::Call(Api::KickMember { guild_id, user_id }),
        ],
        GuildMsg::GuildMemberAction(Ok(())) => post == pre && acts == reload_all(),
        GuildMsg::GuildMemberAction(Err(e)) => api_error_step(pre, e, post, acts),
    }
}

pub fn call(api: Api) -> (acts: Vec<Action>)
    ensures
        acts@ == seq![Action::Call(api)],
{
    one_action(Action::Call(api))
}

fn reload() -> (acts: Vec<Action>)
    ensures
        acts@ == reload_all(),
{
    two_actions(Action::Call(Api::LoadGuilds), Action::Call(Api::LoadConversations))
}

impl AppState {
    fn leave_conversation(&mut self)
        ensures
            *final(self) == (AppState { chats: final(self).chats, ..*old(self) }),
            conversation_left(old(self).chats, final(self).chats),
    {
        self.chats.selected_conversation = None;
        self.chats.messages = Vec::new();
    }

    fn guild_failed(&mut self, e: String) -> (acts: Vec<Action>)
        ensures
            api_error_step(guild_busy(*old(self), false), e, *final(self), acts@),
    {
        self.guilds.busy = false;
        self.handle_api_error(e)
    }

    fn create_guild(&mut self) -> (acts: Vec<Action>)
        ensures
            create_guild_step(*old(self), *final(self), acts@),
    {
        let name = trim_text(self.guilds.name_input.as_str());
        if name.as_str().is_empty() {
            self.guilds.busy = false;
            return no_actions();
        }
        self.guilds.busy = true;
        call(Api::CreateGuild { name })
    }

    fn join_guild(&mut self) -> (acts: Vec<Action>)
        ensures
            join_guild_step(*old(self), *final(self), acts@),
    {
        let code = trim_text(self.guilds.join_code_input.as_str());
        if code.as_str().is_empty() {
            self.guilds.busy = false;
            return no_actions();
        }
        self.guilds.busy = true;
        call(Api::JoinGuild { code })
    }

    fn create_channel(&mut self, guild_id: u64) -> (acts: Vec<Action>)
        ensures
            create_channel_step(*old(self), guild_id, *final(self), acts@),
    {
        let name = trim_text(self.guilds.channel_name_input.as_str());
        if name.as_str().is_empty() {
            self.guilds.busy = false;
            return no_actions();
        }
        self.guilds.busy = true;
        let channel_type = if self.guilds.channel_is_voice {
            copy_text("voice")
        } else {
            copy_text("text")
        };
        call(Api::CreateChannel { guild_id, name, channel_type })
    }

    #[verifier::rlimit(20)]
    pub fn update_guild(&mut self, msg: GuildMsg) -> (acts: Vec<Action>)
        ensures
            guild_step(*old(self), msg, *final(self), acts@),
    {
        match msg {
            GuildMsg::GuildsLoaded(Ok(guilds)) => {
                self.guilds.guilds = guilds;
                no_actions()
            },
            GuildMsg::GuildsLoaded(Err(e)) => self.handle_api_error(e),
            GuildMsg::SelectGuild(g) => {
                self.guilds.selected_guild = g;
                self.guilds.left_tab = LeftTab::Servers;
                self.leave_conversation();
                self.menus.conv_menu_conv = None;
                no_actions()
            },
            GuildMsg::SetLeftTab(tab) => {
                self.guilds.left_tab = tab;
                if tab == LeftTab::Dms {
                    self.guilds.selected_guild = None;
                }
                self.leave_conversation();
                no_actions()
            },
            GuildMsg::OpenGuildModal => {
                self.guilds.modal_open = true;
                no_actions()
            },
            GuildMsg::OpenServerModal => {
                self.guilds.selected_guild = None;
                self.guilds.modal_open = true;
                no_actions()
            },
            GuildMsg::CloseGuildModal => {
                self.guilds.modal_open = false;
                no_actions()
            },
            GuildMsg::GuildNameInput(s) => {
                self.guilds.name_input = s;
                no_actions()
            },
            GuildMsg::GuildJoinCodeInput(s) => {
                self.guilds.join_code_input = s;
                no_actions()
            },
            GuildMsg::CreateGuildSubmit => self.create_guild(),
            GuildMsg::GuildCreated(Ok(_)) => {
                self.guilds.busy = false;
                self.guilds.modal_open = false;
                self.guilds.name_input = String::new();
                self.guilds.selected_guild = None;
                reload()
            },
            GuildMsg::GuildCreated(Err(e)) => self.guild_failed(e),
            GuildMsg::JoinGuildSubmit => self.join_guild(),
            GuildMsg::GuildJoined(Ok(())) => {
                self.guilds.busy = false;
                self.guilds.modal_open = false;
                self.guilds.join_code_input = String::new();
                reload()
            },
            GuildMsg::GuildJoined(Err(e)) => self.guild_failed(e),
            GuildMsg::CreateChannelSubmit(guild_id) => self.create_channel(guild_id),
            GuildMsg::ChannelCreated(Ok(())) => {
                self.guilds.busy = false;
                self.guilds.channel_name_input = String::new();
                reload()
            },
            GuildMsg::ChannelCreated(Err(e)) => self.guild_failed(e),
            GuildMsg::ChannelNameInput(s) => {
                self.guilds.channel_name_input = s;
                no_actions()
            },
            GuildMsg::ChannelTypeChanged(v) => {
                self.guilds.channel_is_voice = v;
                no_actions()
            },
            GuildMsg::DeleteGuild(guild_id) => {
                self.guilds.busy = true;
                call(Api::DeleteGuild { guild_id })
            },
            GuildMsg::GuildDeleteResult(Ok(())) => {
                self.guilds.busy = false;
                self.guilds.modal_open = false;
                self.guilds.selected_guild = None;
                reload()
            },
            GuildMsg::GuildDeleteResult(Err(e)) => self.guild_failed(e),
            GuildMsg::CreateInvite(guild_id) => {
                self.guilds.busy = true;
                call(Api::CreateInvite { guild_id })
            },
            GuildMsg::InviteResult(Ok(code)) => {
                self.guilds.busy = false;
                self.session.info = concat3("Invite code: ", code.as_str(), " (valid 7 days)");
                no_actions()
            },
            GuildMsg::InviteResult(Err(e)) => self.guild_failed(e),
            GuildMsg::SetRole { guild_id, user_id, is_admin } => call(
                Api::SetAdmin { guild_id, user_id, is_admin },
            ),
            GuildMsg::TransferOwner { guild_id, user_id } => call(
                Api::TransferOwner { guild_id, user_id },
            ),
            GuildMsg::KickMember { guild_id, user_id } => call(
                Api::KickMember { guild_id, user_id },
            ),
            GuildMsg::GuildMemberAction(Ok(())) => reload(),
            GuildMsg::GuildMemberAction(Err(e)) => self.handle_api_error(e),
        }
    }
}

} // verus!
