//! The dialogs about guilds.

use vstd::prelude::*;

use crate::chat::msg::{GuildAdminMsg, GuildMsg, Msg};
use crate::chat::state::{self_id, AppState};
use crate::chat::types::{Guild, GuildChannel, GuildMember, GuildRole, GuildSettingsTab};
use crate::chat::view::parts::{
    busy_press, if_any, is_busy_press, is_press, name_of, name_or, open_guild, press,
    selected_guild, shown, Control,
};
use crate::desktop::ui::holds_id;
use crate::identity::is_me;
use crate::text::{concat2, copy_text};

verus! {

// ---------------------------------------------------------------------------
// Making and joining
// ---------------------------------------------------------------------------

/// The dialog adds a channel to the open guild, or makes and joins guilds where none is open.
pub enum GuildModal {
    Channel { hint: String, name: String, voice: bool, on_return: Msg, submit: Control },
    Servers { name: String, create: Control, code: String, join: Control },
}

pub struct GuildModalView {
    pub body: GuildModal,
    pub error: Option<String>,
    pub info: Option<String>,
}

pub open spec fn is_guild_modal(m: GuildModal, s: AppState) -> bool {
    match open_guild(s.guilds.guilds@, s.guilds.selected_guild) {
        Some(g) => {
            let go = Msg::Guild(GuildMsg::CreateChannelSubmit(g.id));
            &&& m matches GuildModal::Channel { hint, name, voice, on_return, submit }
            &&& hint@ == "Add a channel to "@ + g.name@
            &&& name == s.guilds.channel_name_input
            &&& voice == s.guilds.channel_is_voice
            &&& on_return == go
            &&& is_busy_press(submit, s.guilds.busy, "Add channel"@, go)
        },
        None => {
            &&& m matches GuildModal::Servers { name, create, code, join }
            &&& name == s.guilds.name_input
            &&& is_busy_press(
                create,
                s.guilds.busy,
                "Create server"@,
                Msg::Guild(GuildMsg::CreateGuildSubmit),
            )
            &&& code == s.guilds.join_code_input
            &&& is_busy_press(
                join,
                s.guilds.busy,
                "Join server"@,
                Msg::Guild(GuildMsg::JoinGuildSubmit),
            )
        },
    }
}

pub fn view_guild_modal(state: &AppState) -> (v: GuildModalView)
    ensures
        is_guild_modal(v.body, *state),
        v.error == if_any(state.session.error),
        v.info == if_any(state.session.info),
{
    let busy = state.guilds.busy;
    let body = match selected_guild(state) {
        Some(g) => GuildModal::Channel {
            hint: concat2("Add a channel to ", g.name.as_str()),
            name: state.guilds.channel_name_input.clone(),
            voice: state.guilds.channel_is_voice,
            on_return: Msg::Guild(GuildMsg::CreateChannelSubmit(g.id)),
            submit: busy_press(
                busy,
                "Add channel",
                Msg::Guild(GuildMsg::CreateChannelSubmit(g.id)),
            ),
        },
        None => GuildModal::Servers {
            name: state.guilds.name_input.clone(),
            create: busy_press(busy, "Create server", Msg::Guild(GuildMsg::CreateGuildSubmit)),
            code: state.guilds.join_code_input.clone(),
            join: busy_press(busy, "Join server", Msg::Guild(GuildMsg::JoinGuildSubmit)),
        },
    };
    GuildModalView { body, error: shown(&state.session.error), info: shown(&state.session.info) }
}

// ---------------------------------------------------------------------------
// Settings
// ---------------------------------------------------------------------------

/// A channel in the settings: its sign, its name, and what it is to be called.
pub struct ChannelSetting {
    pub channel_id: u64,
    pub voice: bool,
    pub name: String,
    pub rename: String,
}

pub open spec fn is_channel_setting(
    r: ChannelSetting,
    ch: GuildChannel,
    inputs: Map<u64, String>,
) -> bool {
    &&& r.channel_id == ch.id
    &&& r.voice == (ch.channel_type@ == "voice"@)
    &&& r.name == ch.name
    &&& r.rename == if inputs.contains_key(ch.id) {
        inputs[ch.id]
    } else {
        ch.name
    }
}

/// Whether a member has a role, and the message that turns it over.
pub struct RoleToggle {
    pub name: String,
    pub on: bool,
    pub msg: Msg,
}

/// A role: what it is called, how it is deleted, and who has it.
pub struct RoleSetting {
    pub label: String,
    pub delete: Option<Msg>,
    pub members: Vec<RoleToggle>,
}

/// The members other than the user.
pub open spec fn other_guild_members(ms: Seq<GuildMember>, me: Option<u64>) -> Seq<GuildMember>
    decreases ms.len(),
{
    if ms.len() == 0 {
        Seq::empty()
    } else if me == Some(ms.last().id) {
        other_guild_members(ms.drop_last(), me)
    } else {
        other_guild_members(ms.drop_last(), me).push(ms.last())
    }
}

pub open spec fn is_role_toggle(t: RoleToggle, m: GuildMember, guild: u64, role: GuildRole) -> bool {
    let on = role.member_ids@.contains(m.id);
    &&& t.name@ == name_of(m.display_name@, m.username@)
    &&& t.on == on
    &&& t.msg == Msg::GuildAdmin(
        GuildAdminMsg::AssignRole {
            guild_id: guild,
            role_id: role.id,
            user_id: m.id,
            on: !on,
        },
    )
}

pub open spec fn are_role_toggles(
    ts: Seq<RoleToggle>,
    ms: Seq<GuildMember>,
    guild: u64,
    role: GuildRole,
) -> bool {
    &&& ts.len() == ms.len()
    &&& forall|i: int| 0 <= i < ms.len() ==> is_role_toggle(#[trigger] ts[i], ms[i], guild, role)
}

/// A role in the settings. The role of the admins is not handed out here, and only the owner deletes
/// roles.
pub open spec fn is_role_setting(
    r: RoleSetting,
    role: GuildRole,
    g: Guild,
    me: Option<u64>,
) -> bool {
    &&& r.label@ == role.name@ + (if role.is_admin {
        " (admin)"@
    } else {
        Seq::empty()
    })
    &&& r.delete == if role.is_admin || me != Some(g.owner_id) {
        None
    } else {
        Some(Msg::GuildAdmin(GuildAdminMsg::DeleteRole { guild_id: g.id, role_id: role.id }))
    }
    &&& if role.is_admin {
        r.members@.len() == 0
    } else {
        are_role_toggles(r.members@, other_guild_members(g.members@, me), g.id, role)
    }
}

/// A banned user.
pub struct BanRow {
    pub name: String,
    pub unban: Msg,
}

pub open spec fn is_ban_row(r: BanRow, m: GuildMember, guild: u64) -> bool {
    &&& r.name@ == name_of(m.display_name@, m.username@)
    &&& r.unban == Msg::GuildAdmin(
        GuildAdminMsg::UnbanMember { guild_id: guild, user_id: m.id },
    )
}

/// A member in the settings, and what can be done about them.
pub struct MemberRow {
    pub name: String,
    pub owner: bool,
    pub admin: bool,
    /// Making the member an admin, or taking that back.
    pub promotion: Option<Control>,
    pub transfer: Option<Msg>,
    pub ban: Option<Msg>,
}

/// Whether a user has a role that makes admins.
pub open spec fn is_admin(roles: Seq<GuildRole>, user: u64) -> bool {
    exists|i: int|
        0 <= i < roles.len() && (#[trigger] roles[i]).is_admin && roles[i].member_ids@.contains(user)
}

/// A member in the settings: the owner decides about admins and about the next owner, and whoever
/// manages the guild bans; nobody does anything to the owner.
pub open spec fn is_member_row(r: MemberRow, m: GuildMember, g: Guild, me: Option<u64>) -> bool {
    let owner = me == Some(g.owner_id);
    let target = m.id == g.owner_id;
    let admin = is_admin(g.roles@, m.id);
    &&& r.name@ == name_of(m.display_name@, m.username@)
    &&& r.owner == target
    &&& r.admin == admin
    &&& if owner && !target {
        &&& r.promotion matches Some(c)
        &&& is_press(
            c,
            if admin {
                "demote"@
            } else {
                "promote"@
            },
            Msg::Guild(GuildMsg::SetRole { guild_id: g.id, user_id: m.id, is_admin: !admin }),
        )
        &&& r.transfer == Some(
            Msg::Guild(GuildMsg::TransferOwner { guild_id: g.id, user_id: m.id }),
        )
    } else {
        r.promotion is None && r.transfer is None
    }
    &&& r.ban == if g.can_manage && !target {
        Some(Msg::GuildAdmin(GuildAdminMsg::BanMember { guild_id: g.id, user_id: m.id }))
    } else {
        None
    }
}

/// What the settings show.
#[allow(inconsistent_fields)]
pub enum GuildBody {
    /// The user may not manage the guild.
    Locked,
    Channels { rows: Vec<ChannelSetting>, name: String, voice: bool, add: Msg },
    Roles { rows: Vec<RoleSetting>, name: String, create: Msg },
    Bans { bans: Vec<BanRow>, members: Vec<MemberRow> },
}

pub struct GuildSettingsView {
    pub title: String,
    pub tab: GuildSettingsTab,
    pub body: GuildBody,
    /// Deleting the guild, for its owner.
    pub delete: Option<Msg>,
    pub error: Option<String>,
}

pub open spec fn is_guild_body(b: GuildBody, s: AppState, g: Guild) -> bool {
    let me = self_id(s.session.user);
    match s.guilds.settings_tab {
        GuildSettingsTab::Channels => {
            &&& b matches GuildBody::Channels { rows, name, voice, add }
            &&& rows@.len() == g.channels@.len()
            &&& forall|i: int|
                0 <= i < rows@.len() ==> is_channel_setting(
                    #[trigger] rows@[i],
                    g.channels@[i],
                    s.guilds.channel_rename_inputs@,
                )
            &&& name == s.guilds.channel_name_input
            &&& voice == s.guilds.channel_is_voice
            &&& add == Msg::Guild(GuildMsg::CreateChannelSubmit(g.id))
        },
        GuildSettingsTab::Roles => {
            &&& b matches GuildBody::Roles { rows, name, create }
            &&& rows@.len() == g.roles@.len()
            &&& forall|i: int|
                0 <= i < rows@.len() ==> is_role_setting(#[trigger] rows@[i], g.roles@[i], g, me)
            &&& name == s.guilds.role_name_input
            &&& create == Msg::GuildAdmin(GuildAdminMsg::CreateRoleSubmit(g.id))
        },
        GuildSettingsTab::Bans => {
            let others = other_guild_members(g.members@, me);
            &&& b matches GuildBody::Bans { bans, members }
            &&& bans@.len() == g.bans@.len()
            &&& forall|i: int|
                0 <= i < bans@.len() ==> is_ban_row(#[trigger] bans@[i], g.bans@[i], g.id)
            &&& are_member_rows(members@, others, g, me)
        },
    }
}

pub open spec fn are_member_rows(
    rows: Seq<MemberRow>,
    ms: Seq<GuildMember>,
    g: Guild,
    me: Option<u64>,
) -> bool {
    &&& rows.len() == ms.len()
    &&& forall|i: int| 0 <= i < ms.len() ==> is_member_row(#[trigger] rows[i], ms[i], g, me)
}

pub open spec fn is_guild_settings(v: GuildSettingsView, s: AppState) -> bool {
    let guild = open_guild(s.guilds.guilds@, s.guilds.selected_guild);
    &&& v.tab == s.guilds.settings_tab
    &&& v.error == if_any(s.session.error)
    &&& match guild {
        Some(g) => {
            &&& v.title@ == g.name@ + " settings"@
            &&& if g.can_manage {
                &&& is_guild_body(v.body, s, g)
                &&& v.delete == if self_id(s.session.user) == Some(g.owner_id) {
                    Some(Msg::Guild(GuildMsg::DeleteGuild(g.id)))
                } else {
                    None
                }
            } else {
                v.body is Locked && v.delete is None
            }
        },
        None => v.title@ == "Server settings"@ && v.body is Locked && v.delete is None,
    }
}

fn channel_setting(state: &AppState, ch: &GuildChannel) -> (r: ChannelSetting)
    ensures
        is_channel_setting(r, *ch, state.guilds.channel_rename_inputs@),
{
    let rename = match state.guilds.channel_rename_inputs.get(&ch.id) {
        Some(s) => s.clone(),
        None => ch.name.clone(),
    };
    ChannelSetting { channel_id: ch.id, voice: ch.is_voice(), name: ch.name.clone(), rename }
}

fn channel_settings(state: &AppState, g: &Guild) -> (rows: Vec<ChannelSetting>)
    ensures
        rows@.len() == g.channels@.len(),
        forall|i: int|
            0 <= i < rows@.len() ==> is_channel_setting(
                #[trigger] rows@[i],
                g.channels@[i],
                state.guilds.channel_rename_inputs@,
            ),
{
    let mut rows: Vec<ChannelSetting> = Vec::new();
    let mut i: usize = 0;
    while i < g.channels.len()
        invariant
            i <= g.channels.len(),
            rows.len() == i,
            forall|j: int|
                0 <= j < i ==> is_channel_setting(
                    #[trigger] rows@[j],
                    g.channels@[j],
                    state.guilds.channel_rename_inputs@,
                ),
        decreases g.channels.len() - i,
    {
        rows.push(channel_setting(state, &g.channels[i]));
        i += 1;
    }
    rows
}

fn role_toggles(g: &Guild, role: &GuildRole, me: Option<u64>) -> (ts: Vec<RoleToggle>)
    ensures
        are_role_toggles(ts@, other_guild_members(g.members@, me), g.id, *role),
{
    let ms = &g.members;
    let mut ts: Vec<RoleToggle> = Vec::new();
    let mut i: usize = 0;
    while i < ms.len()
        invariant
            i <= ms.len(),
            ms == g.members,
            are_role_toggles(ts@, other_guild_members(ms@.take(i as int), me), g.id, *role),
        decreases ms.len() - i,
    {
        proof {
            assert(ms@.take(i + 1).drop_last() =~= ms@.take(i as int));
        }
        let m = &ms[i];
        if !is_me(me, m.id) {
            let on = holds_id(&role.member_ids, m.id);
            let msg = Msg::GuildAdmin(
                GuildAdminMsg::AssignRole {
                    guild_id: g.id,
                    role_id: role.id,
                    user_id: m.id,
                    on: !on,
                },
            );
            let name = name_or(m.display_name.as_str(), m.username.as_str());
            ts.push(RoleToggle { name, on, msg });
        }
        i += 1;
    }
    proof {
        assert(ms@.take(i as int) =~= ms@);
    }
    ts
}

fn role_setting(g: &Guild, role: &GuildRole, me: Option<u64>) -> (r: RoleSetting)
    ensures
        is_role_setting(r, *role, *g, me),
{
    let label = if role.is_admin {
        concat2(role.name.as_str(), " (admin)")
    } else {
        role.name.clone()
    };
    proof {
        if !role.is_admin {
            assert(label@ =~= role.name@ + Seq::<char>::empty());
        }
    }
    let delete = if role.is_admin || !is_me(me, g.owner_id) {
        None
    } else {
        Some(Msg::GuildAdmin(GuildAdminMsg::DeleteRole { guild_id: g.id, role_id: role.id }))
    };
    let members = if role.is_admin {
        Vec::new()
    } else {
        role_toggles(g, role, me)
    };
    RoleSetting { label, delete, members }
}

fn role_settings(g: &Guild, me: Option<u64>) -> (rows: Vec<RoleSetting>)
    ensures
        rows@.len() == g.roles@.len(),
        forall|i: int|
            0 <= i < rows@.len() ==> is_role_setting(#[trigger] rows@[i], g.roles@[i], *g, me),
{
    let mut rows: Vec<RoleSetting> = Vec::new();
    let mut i: usize = 0;
    while i < g.roles.len()
        invariant
            i <= g.roles.len(),
            rows.len() == i,
            forall|j: int|
                0 <= j < i ==> is_role_setting(#[trigger] rows@[j], g.roles@[j], *g, me),
        decreases g.roles.len() - i,
    {
        rows.push(role_setting(g, &g.roles[i], me));
        i += 1;
    }
    rows
}

fn ban_rows(g: &Guild) -> (rows: Vec<BanRow>)
    ensures
        rows@.len() == g.bans@.len(),
        forall|i: int| 0 <= i < rows@.len() ==> is_ban_row(#[trigger] rows@[i], g.bans@[i], g.id),
{
    let mut rows: Vec<BanRow> = Vec::new();
    let mut i: usize = 0;
    while i < g.bans.len()
        invariant
            i <= g.bans.len(),
            rows.len() == i,
            forall|j: int| 0 <= j < i ==> is_ban_row(#[trigger] rows@[j], g.bans@[j], g.id),
        decreases g.bans.len() - i,
    {
        let m = &g.bans[i];
        rows.push(
            BanRow {
                name: name_or(m.display_name.as_str(), m.username.as_str()),
                unban: Msg::GuildAdmin(
                    GuildAdminMsg::UnbanMember { guild_id: g.id, user_id: m.id },
                ),
            },
        );
        i += 1;
    }
    rows
}

fn has_admin_role(roles: &Vec<GuildRole>, user: u64) -> (b: bool)
    ensures
        b == is_admin(roles@, user),
{
    let mut i: usize = 0;
    while i < roles.len()
        invariant
            i <= roles.len(),
            forall|j: int|
                0 <= j < i ==> !((#[trigger] roles@[j]).is_admin
                    && roles@[j].member_ids@.contains(user)),
        decreases roles.len() - i,
    {
        if roles[i].is_admin && holds_id(&roles[i].member_ids, user) {
            return true;
        }
        i += 1;
    }
    false
}

fn member_row(g: &Guild, m: &GuildMember, me: Option<u64>) -> (r: MemberRow)
    ensures
        is_member_row(r, *m, *g, me),
{
    let target = m.id == g.owner_id;
    let admin = has_admin_role(&g.roles, m.id);
    let (promotion, transfer) = if is_me(me, g.owner_id) && !target {
        let label = if admin {
            "demote"
        } else {
            "promote"
        };
        let promotion = press(
            label,
            Msg::Guild(GuildMsg::SetRole { guild_id: g.id, user_id: m.id, is_admin: !admin }),
        );
        let transfer = Msg::Guild(GuildMsg::TransferOwner { guild_id: g.id, user_id: m.id });
        (Some(promotion), Some(transfer))
    } else {
        (None, None)
    };
    let ban = if g.can_manage && !target {
        Some(Msg::GuildAdmin(GuildAdminMsg::BanMember { guild_id: g.id, user_id: m.id }))
    } else {
        None
    };
    MemberRow {
        name: name_or(m.display_name.as_str(), m.username.as_str()),
        owner: target,
        admin,
        promotion,
        transfer,
        ban,
    }
}

fn member_rows(g: &Guild, me: Option<u64>) -> (rows: Vec<MemberRow>)
    ensures
        are_member_rows(rows@, other_guild_members(g.members@, me), *g, me),
{
    let ms = &g.members;
    let mut rows: Vec<MemberRow> = Vec::new();
    let mut i: usize = 0;
    while i < ms.len()
        invariant
            i <= ms.len(),
            ms == g.members,
            are_member_rows(rows@, other_guild_members(ms@.take(i as int), me), *g, me),
        decreases ms.len() - i,
    {
        proof {
            assert(ms@.take(i + 1).drop_last() =~= ms@.take(i as int));
        }
        if !is_me(me, ms[i].id) {
            rows.push(member_row(g, &ms[i], me));
        }
        i += 1;
    }
    proof {
        assert(ms@.take(i as int) =~= ms@);
    }
    rows
}

fn guild_body(state: &AppState, g: &Guild) -> (b: GuildBody)
    ensures
        is_guild_body(b, *state, *g),
{
    let me = state.user_id();
    match state.guilds.settings_tab {
        GuildSettingsTab::Channels => GuildBody::Channels {
            rows: channel_settings(state, g),
            name: state.guilds.channel_name_input.clone(),
            voice: state.guilds.channel_is_voice,
            add: Msg::Guild(GuildMsg::CreateChannelSubmit(g.id)),
        },
        GuildSettingsTab::Roles => GuildBody::Roles {
            rows: role_settings(g, me),
            name: state.guilds.role_name_input.clone(),
            create: Msg::GuildAdmin(GuildAdminMsg::CreateRoleSubmit(g.id)),
        },
        GuildSettingsTab::Bans => GuildBody::Bans {
            bans: ban_rows(g),
            members: member_rows(g, me),
        },
    }
}

pub fn view_guild_settings(state: &AppState) -> (v: GuildSettingsView)
    ensures
        is_guild_settings(v, *state),
{
    let error = shown(&state.session.error);
    let tab = state.guilds.settings_tab;
    match selected_guild(state) {
        Some(g) => {
            let title = concat2(g.name.as_str(), " settings");
            if !g.can_manage {
                return GuildSettingsView { title, tab, body: GuildBody::Locked, delete: None, error };
            }
            let delete = if is_me(state.user_id(), g.owner_id) {
                Some(Msg::Guild(GuildMsg::DeleteGuild(g.id)))
            } else {
                None
            };
            GuildSettingsView { title, tab, body: guild_body(state, g), delete, error }
        },
        None => GuildSettingsView {
            title: copy_text("Server settings"),
            tab,
            body: GuildBody::Locked,
            delete: None,
            error,
        },
    }
}

/// The settings offer nothing that could be done to the owner.
pub proof fn owner_is_safe(r: MemberRow, m: GuildMember, g: Guild, me: Option<u64>)
    requires
        is_member_row(r, m, g, me),
        m.id == g.owner_id,
    ensures
        r.promotion is None,
        r.transfer is None,
        r.ban is None,
{
}

/// Whoever may not manage a guild is offered nothing to do to it.
pub proof fn locked_out(v: GuildSettingsView, s: AppState, g: Guild)
    requires
        is_guild_settings(v, s),
        open_guild(s.guilds.guilds@, s.guilds.selected_guild) == Some(g),
        !g.can_manage,
    ensures
        v.body is Locked,
        v.delete is None,
{
}

} // verus!
