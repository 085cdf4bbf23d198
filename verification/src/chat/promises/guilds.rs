//! Servers of several channels: what is asked for, what is shown, and what is loaded again.

use vstd::prelude::*;

use crate::chat::action::{Action, Api, VoiceCommand};
use crate::chat::guild_admin::guild_replaced;
use crate::chat::guilds::guild_index;
use crate::chat::msg::{GuildAdminMsg, GuildMsg, Msg, VoiceMsg, WsHubEvent, WsMsg};
use crate::chat::state::{AppState, Frame};
use crate::chat::types::{Guild, LeftTab};
use crate::chat::update::step;
use crate::chat::ws::guild_of_channel;
use crate::text::trim;
use crate::voice::{VoiceEvent, VoiceVideoKind};

verus! {

/// What is asked for about a member, a role or a channel is asked for about that one, and by its own
/// request: a kick kicks and a ban bans.
pub proof fn members_are_treated_as_asked(
    pre: AppState,
    guild_id: u64,
    user_id: u64,
    id: u64,
    flag: bool,
    msg: Msg,
    now: u64,
    post: AppState,
    acts: Seq<Action>,
)
    requires
        step(pre, msg, now, post, acts),
    ensures
        msg == Msg::Guild(GuildMsg::KickMember { guild_id, user_id }) ==> post == pre && acts == seq![
            Action::Call(Api::KickMember { guild_id, user_id }),
        ],
        msg == Msg::GuildAdmin(GuildAdminMsg::BanMember { guild_id, user_id }) ==> post == pre && acts
            == seq![Action::Call(Api::BanMember { guild_id, user_id })],
        msg == Msg::GuildAdmin(GuildAdminMsg::UnbanMember { guild_id, user_id }) ==> post == pre
            && acts == seq![Action::Call(Api::UnbanMember { guild_id, user_id })],
        msg == Msg::Guild(GuildMsg::SetRole { guild_id, user_id, is_admin: flag }) ==> post == pre
            && acts == seq![Action::Call(Api::SetAdmin { guild_id, user_id, is_admin: flag })],
        msg == Msg::Guild(GuildMsg::TransferOwner { guild_id, user_id }) ==> post == pre && acts
            == seq![Action::Call(Api::TransferOwner { guild_id, user_id })],
        msg == Msg::GuildAdmin(
            GuildAdminMsg::AssignRole { guild_id, role_id: id, user_id, on: flag },
        ) ==> post == pre && acts == seq![
            Action::Call(Api::AssignRole { guild_id, role_id: id, user_id, on: flag }),
        ],
        msg == Msg::GuildAdmin(GuildAdminMsg::DeleteRole { guild_id, role_id: id }) ==> post == pre
            && acts == seq![Action::Call(Api::DeleteRole { guild_id, role_id: id })],
        msg == Msg::Guild(GuildMsg::DeleteGuild(guild_id)) ==> acts == seq![
            Action::Call(Api::DeleteGuild { guild_id }),
        ],
        msg == Msg::Guild(GuildMsg::CreateInvite(guild_id)) ==> acts == seq![
            Action::Call(Api::CreateInvite { guild_id }),
        ],
{
}

/// Servers, channels and roles are made under the name that was typed, without the blanks around it;
/// without a name nothing is made.
pub proof fn names_are_asked_for(
    pre: AppState,
    guild: u64,
    msg: Msg,
    now: u64,
    post: AppState,
    acts: Seq<Action>,
)
    requires
        step(pre, msg, now, post, acts),
    ensures
        msg == Msg::Guild(GuildMsg::CreateGuildSubmit) ==> (if trim(pre.guilds.name_input@).len()
            == 0 {
            acts.len() == 0
        } else {
            acts.len() == 1 && (acts[0] matches Action::Call(Api::CreateGuild { name }) && name@
                == trim(pre.guilds.name_input@))
        }),
        msg == Msg::Guild(GuildMsg::JoinGuildSubmit) ==> (if trim(pre.guilds.join_code_input@).len()
            == 0 {
            acts.len() == 0
        } else {
            acts.len() == 1 && (acts[0] matches Action::Call(Api::JoinGuild { code }) && code@ == trim(
                pre.guilds.join_code_input@,
            ))
        }),
        msg == Msg::Guild(GuildMsg::CreateChannelSubmit(guild)) ==> (if trim(
            pre.guilds.channel_name_input@,
        ).len() == 0 {
            acts.len() == 0
        } else {
            acts.len() == 1 && (acts[0] matches Action::Call(
                Api::CreateChannel { guild_id, name, channel_type },
            ) && guild_id == guild && name@ == trim(pre.guilds.channel_name_input@) && (
            pre.guilds.channel_is_voice ==> channel_type@ == "voice"@) && (
            !pre.guilds.channel_is_voice ==> channel_type@ == "text"@))
        }),
        msg == Msg::GuildAdmin(GuildAdminMsg::CreateRoleSubmit(guild)) ==> (if trim(
            pre.guilds.role_name_input@,
        ).len() == 0 {
            acts.len() == 0
        } else {
            acts.len() == 1 && (acts[0] matches Action::Call(Api::CreateRole { guild_id, name })
                && guild_id == guild && name@ == trim(pre.guilds.role_name_input@))
        }),
{
}

/// What is typed stands in its field.
pub proof fn forms_keep_what_is_typed(
    pre: AppState,
    s: String,
    id: u64,
    msg: Msg,
    now: u64,
    post: AppState,
    acts: Seq<Action>,
)
    requires
        step(pre, msg, now, post, acts),
    ensures
        msg == Msg::Guild(GuildMsg::GuildNameInput(s)) ==> post.guilds.name_input == s
            && post.guilds.join_code_input == pre.guilds.join_code_input,
        msg == Msg::Guild(GuildMsg::GuildJoinCodeInput(s)) ==> post.guilds.join_code_input == s
            && post.guilds.name_input == pre.guilds.name_input,
        msg == Msg::Guild(GuildMsg::ChannelNameInput(s)) ==> post.guilds.channel_name_input == s,
        msg == Msg::GuildAdmin(GuildAdminMsg::RoleNameInput(s)) ==> post.guilds.role_name_input == s,
        msg == Msg::GuildAdmin(GuildAdminMsg::ChannelRenameInput { channel_id: id, value: s })
            ==> post.guilds.channel_rename_inputs@.contains_key(id)
            && post.guilds.channel_rename_inputs@[id] == s,
        msg matches Msg::Guild(GuildMsg::ChannelTypeChanged(v)) ==> post.guilds.channel_is_voice == v,
        msg == Msg::Guild(GuildMsg::OpenGuildModal) ==> post.guilds.modal_open,
        msg == Msg::Guild(GuildMsg::CloseGuildModal) ==> !post.guilds.modal_open,
        msg == Msg::Guild(GuildMsg::OpenServerModal) ==> post.guilds.modal_open
            && post.guilds.selected_guild is None,
        msg == Msg::GuildAdmin(GuildAdminMsg::CloseGuildSettings) ==> !post.guilds.settings_open,
        msg matches Msg::GuildAdmin(GuildAdminMsg::GuildSettingsTabChanged(t))
            ==> post.guilds.settings_tab == t,
{
}

/// Channels are renamed and deleted in the server that is open, under the name that was given.
pub proof fn channels_belong_to_the_open_server(
    pre: AppState,
    guild: u64,
    channel_id: u64,
    name: String,
    msg: Msg,
    now: u64,
    post: AppState,
    acts: Seq<Action>,
)
    requires
        step(pre, msg, now, post, acts),
        pre.guilds.selected_guild == Some(guild),
    ensures
        msg == Msg::GuildAdmin(GuildAdminMsg::RenameChannel { channel_id, name }) ==> acts == seq![
            Action::Call(Api::RenameChannel { guild_id: guild, channel_id, name }),
        ],
        msg == Msg::GuildAdmin(GuildAdminMsg::DeleteChannel { channel_id }) ==> acts == seq![
            Action::Call(Api::DeleteChannel { guild_id: guild, channel_id }),
        ],
        msg == Msg::GuildAdmin(GuildAdminMsg::OpenGuildSettings) ==> post.guilds.settings_open && acts
            == seq![Action::Call(Api::LoadGuild { guild_id: guild })],
        msg == Msg::GuildAdmin(GuildAdminMsg::GuildAdminAction(Ok(()))) ==> acts == seq![
            Action::Call(Api::LoadGuild { guild_id: guild }),
        ],
{
}

/// What was changed is loaded again: after every change to the servers both they and the
/// conversations are asked for.
pub proof fn changes_are_loaded_again(
    pre: AppState,
    m: GuildMsg,
    now: u64,
    post: AppState,
    acts: Seq<Action>,
)
    requires
        step(pre, Msg::Guild(m), now, post, acts),
        (m matches GuildMsg::GuildCreated(Ok(_))) || m == GuildMsg::GuildJoined(Ok(())) || m
            == GuildMsg::ChannelCreated(Ok(())) || m == GuildMsg::GuildDeleteResult(Ok(())) || m
            == GuildMsg::GuildMemberAction(Ok(())),
    ensures
        acts.contains(Action::Call(Api::LoadGuilds)),
        acts.contains(Action::Call(Api::LoadConversations)),
        !(m is GuildMemberAction) ==> !post.guilds.busy,
        m is GuildCreated || m is GuildJoined || m is GuildDeleteResult ==> !post.guilds.modal_open,
{
    assert(acts[0] == Action::Call(Api::LoadGuilds));
    assert(acts[1] == Action::Call(Api::LoadConversations));
}

/// The servers that were loaded are those that are listed.
pub proof fn loaded_servers_are_listed(
    pre: AppState,
    guilds: Vec<Guild>,
    now: u64,
    post: AppState,
    acts: Seq<Action>,
)
    requires
        step(pre, Msg::Guild(GuildMsg::GuildsLoaded(Ok(guilds))), now, post, acts),
    ensures
        post.guilds.guilds == guilds,
        post.guilds.selected_guild == pre.guilds.selected_guild,
        acts.len() == 0,
{
}

proof fn lemma_guild_index_bounds(gs: Seq<Guild>, id: u64)
    ensures
        0 <= guild_index(gs, id) <= gs.len(),
        guild_index(gs, id) < gs.len() ==> gs[guild_index(gs, id)].id == id,
        forall|j: int| 0 <= j < gs.len() && (#[trigger] gs[j]).id == id ==> guild_index(gs, id) <= j,
    decreases gs.len(),
{
    if gs.len() > 0 && gs[0].id != id {
        let rest = gs.drop_first();
        lemma_guild_index_bounds(rest, id);
        assert forall|j: int| 0 <= j < gs.len() && (#[trigger] gs[j]).id == id implies guild_index(
            gs,
            id,
        ) <= j by {
            assert(rest[j - 1] == gs[j]);
        }
    }
}

/// The details of a server that were loaded take its place in the list, and no other place.
pub proof fn details_take_their_place(
    pre: AppState,
    g: Guild,
    now: u64,
    post: AppState,
    acts: Seq<Action>,
    j: int,
)
    requires
        step(pre, Msg::GuildAdmin(GuildAdminMsg::GuildSettingsLoaded(Ok(g))), now, post, acts),
        0 <= j < pre.guilds.guilds@.len(),
        pre.guilds.guilds@[j].id == g.id,
    ensures
        post.guilds.guilds@.len() == pre.guilds.guilds@.len(),
        exists|i: int| 0 <= i < post.guilds.guilds@.len() && #[trigger] post.guilds.guilds@[i] == g,
        forall|k: int|
            0 <= k < pre.guilds.guilds@.len() && (#[trigger] pre.guilds.guilds@[k]).id != g.id
                ==> post.guilds.guilds@[k] == pre.guilds.guilds@[k],
{
    let gs = pre.guilds.guilds@;
    lemma_guild_index_bounds(gs, g.id);
    let i = guild_index(gs, g.id);
    assert(gs[j].id == g.id);
    assert(guild_replaced(gs, g)[i] == g);
}

/// Picking a server or a tab leaves the conversation that was open.
pub proof fn picking_a_server_leaves_the_conversation(
    pre: AppState,
    g: Option<u64>,
    tab: LeftTab,
    msg: Msg,
    now: u64,
    post: AppState,
    acts: Seq<Action>,
)
    requires
        msg == Msg::Guild(GuildMsg::SelectGuild(g)) || msg == Msg::Guild(GuildMsg::SetLeftTab(tab)),
        step(pre, msg, now, post, acts),
    ensures
        post.chats.selected_conversation is None,
        post.chats.messages@.len() == 0,
        post.chats.conversations == pre.chats.conversations,
        msg == Msg::Guild(GuildMsg::SelectGuild(g)) ==> post.guilds.selected_guild == g
            && post.guilds.left_tab == LeftTab::Servers,
        msg == Msg::Guild(GuildMsg::SetLeftTab(tab)) ==> post.guilds.left_tab == tab && (tab
            == LeftTab::Dms ==> post.guilds.selected_guild is None),
{
}

/// An invitation is shown with its code.
pub proof fn invitations_show_their_code(
    pre: AppState,
    code: String,
    now: u64,
    post: AppState,
    acts: Seq<Action>,
)
    requires
        step(pre, Msg::Guild(GuildMsg::InviteResult(Ok(code))), now, post, acts),
    ensures
        exists|a: Seq<char>, b: Seq<char>| post.session.info@ == #[trigger] (a + code@ + b),
        !post.guilds.busy,
{
    assert(post.session.info@ == "Invite code: "@ + code@ + " (valid 7 days)"@);
}

// ---------------------------------------------------------------------------
// Voice channels
// ---------------------------------------------------------------------------

proof fn lemma_guild_of_channel(gs: Seq<Guild>, channel: u64)
    ensures
        guild_of_channel(gs, channel) matches Some(g) ==> exists|i: int, c: int|
            0 <= i < gs.len() && 0 <= c < gs[i].channels@.len() && (#[trigger] gs[i].channels@[c]).id
                == channel && gs[i].id == g,
        (exists|i: int, c: int|
            0 <= i < gs.len() && 0 <= c < gs[i].channels@.len() && (#[trigger] gs[i].channels@[c]).id
                == channel) ==> guild_of_channel(gs, channel) is Some,
    decreases gs.len(),
{
    if gs.len() > 0 {
        let rest = gs.drop_first();
        lemma_guild_of_channel(rest, channel);
        if crate::chat::ws::has_channel(gs[0].channels@, channel) {
            let c = choose|c: int|
                0 <= c < gs[0].channels@.len() && (#[trigger] gs[0].channels@[c]).id == channel;
            assert(gs[0].channels@[c].id == channel);
        } else {
            if guild_of_channel(rest, channel) is Some {
                let g = guild_of_channel(rest, channel)->0;
                let (i, c) = choose|i: int, c: int|
                    0 <= i < rest.len() && 0 <= c < rest[i].channels@.len() && (
                    #[trigger] rest[i].channels@[c]).id == channel && rest[i].id == g;
                assert(rest[i] == gs[i + 1]);
                assert(gs[i + 1].channels@[c].id == channel);
            }
            if exists|i: int, c: int|
                0 <= i < gs.len() && 0 <= c < gs[i].channels@.len() && (#[trigger] gs[i].channels@[c]).id
                    == channel {
                let (i, c) = choose|i: int, c: int|
                    0 <= i < gs.len() && 0 <= c < gs[i].channels@.len() && (
                    #[trigger] gs[i].channels@[c]).id == channel;
                assert(rest[i - 1] == gs[i]);
                assert(rest[i - 1].channels@[c].id == channel);
            }
        }
    }
}

/// A voice channel is joined in a server that has it, by the user who is logged in.
pub proof fn channels_are_joined_in_their_server(
    pre: AppState,
    channel: u64,
    now: u64,
    post: AppState,
    acts: Seq<Action>,
    i: int,
    c: int,
)
    requires
        step(pre, Msg::Voice(VoiceMsg::VoiceJoin(channel)), now, post, acts),
        pre.links.voice_ready,
        pre.session.user is Some,
        0 <= i < pre.guilds.guilds@.len(),
        0 <= c < pre.guilds.guilds@[i].channels@.len(),
        pre.guilds.guilds@[i].channels@[c].id == channel,
    ensures
        post == pre,
        acts.len() == 1,
        acts[0] matches Action::Voice(VoiceCommand::Join { guild_id, channel_id, user_id })
            && channel_id == channel && user_id == pre.session.user->0.id && exists|j: int, d: int|
            0 <= j < pre.guilds.guilds@.len() && 0 <= d < pre.guilds.guilds@[j].channels@.len() && (
            #[trigger] pre.guilds.guilds@[j].channels@[d]).id == channel && pre.guilds.guilds@[j].id
                == guild_id,
{
    lemma_guild_of_channel(pre.guilds.guilds@, channel);
    assert(pre.guilds.guilds@[i].channels@[c].id == channel);
}

/// The buttons of a call reach the voice manager, each as what it is; a lost socket ends the call.
pub proof fn buttons_reach_the_call(
    pre: AppState,
    msg: Msg,
    now: u64,
    post: AppState,
    acts: Seq<Action>,
)
    requires
        step(pre, msg, now, post, acts),
        pre.links.voice_ready,
    ensures
        msg == Msg::Voice(VoiceMsg::VoiceLeave) ==> acts == seq![Action::Voice(VoiceCommand::Leave)],
        msg == Msg::Voice(VoiceMsg::VoiceToggleMute) ==> acts == seq![
            Action::Voice(VoiceCommand::ToggleMute),
        ],
        msg == Msg::Voice(VoiceMsg::VoiceToggleCamera) ==> acts == seq![
            Action::Voice(VoiceCommand::ToggleCamera),
        ],
        msg == Msg::Voice(VoiceMsg::VoiceToggleScreen) ==> acts == seq![
            Action::Voice(VoiceCommand::ToggleScreen),
        ],
        msg == Msg::Ws(WsMsg::WsDisconnected) ==> acts == seq![Action::Voice(VoiceCommand::Leave)]
            && !post.links.ws_connected,
        msg == Msg::Ws(WsMsg::WsConnected) ==> post.links.ws_connected,
        msg matches Msg::Ws(WsMsg::WsEvent(WsHubEvent::VoiceState { channel_id, users })) ==> acts
            == seq![Action::Voice(VoiceCommand::State { channel_id, users })],
        msg matches Msg::Ws(
            WsMsg::WsEvent(WsHubEvent::VoicePresence { channel_id, user_id, username, joined }),
        ) ==> acts == seq![
            Action::Voice(VoiceCommand::Presence { channel_id, user_id, username, joined }),
        ],
{
}

/// The panel of a call opens with it and closes with it. A picture is shown as that of its sender and
/// source, and those of someone who left are gone, while those of the others stay.
pub proof fn pictures_follow_the_call(
    pre: AppState,
    ev: VoiceEvent,
    now: u64,
    post: AppState,
    acts: Seq<Action>,
    user: u64,
    source: VoiceVideoKind,
)
    requires
        step(pre, Msg::Voice(VoiceMsg::VoiceEvent(ev)), now, post, acts),
    ensures
        ev is Joined ==> post.links.voice_panel_open && !post.links.voice_frames@.contains_key(
            (user, source),
        ),
        ev is Left ==> !post.links.voice_panel_open && !post.links.voice_frames@.contains_key(
            (user, source),
        ),
        ev matches VoiceEvent::Video { user_id, kind, width, height, rgba } ==> (if (user, source) == (
            user_id,
            kind,
        ) {
            post.links.voice_frames@.contains_key((user, source))
                && post.links.voice_frames@[(user, source)] == (Frame { rgba, width, height })
        } else {
            post.links.voice_frames@.contains_key((user, source))
                == pre.links.voice_frames@.contains_key((user, source))
        }),
        ev matches VoiceEvent::MemberLeft { user_id } ==> (if user == user_id {
            !post.links.voice_frames@.contains_key((user, source))
        } else {
            post.links.voice_frames@.contains_key((user, source))
                == pre.links.voice_frames@.contains_key((user, source))
        }),
        acts.len() == 0,
{
}

} // verus!
