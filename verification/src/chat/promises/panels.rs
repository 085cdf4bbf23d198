//! What the dialogs and panels show and offer.

use vstd::prelude::*;

use crate::chat::msg::{AuthMsg, GuildAdminMsg, GuildMsg, Msg, NewConvMsg, ProfileMsg, StickerMsg};
use crate::chat::state::{self_id, AppState};
use crate::chat::types::{
    Guild, GuildChannel, GuildMember, GuildRole, SearchUser, SessionInfo, StickerPack,
};
use crate::chat::view::forms::{
    is_2fa_view, is_auth_view, is_page, is_setup_view, is_verify_view, AuthView, CodeView, Page,
    SetupView,
};
use crate::chat::view::guilds::{
    is_ban_row, is_channel_setting, is_guild_modal, is_guild_settings, is_member_row,
    is_role_toggle, other_guild_members, BanRow, ChannelSetting, GuildBody, GuildModal,
    GuildSettingsView, MemberRow, RoleToggle,
};
use crate::chat::view::new_conv::{is_create, is_new_conv_view, picked, NewConvView};
use crate::chat::view::parts::{open_guild, Control};
use crate::chat::view::settings::{
    is_device_row, is_privacy, is_settings_view, DeviceRow, SettingsBody, SettingsView,
};
use crate::chat::view::stickers::{is_pack_view, is_sticker_panel, PackView, StickerPanel};
use crate::chat::view::voice::{channel_index, channel_name, is_voice_panel, VoicePanel};
use crate::voice::{VoiceManager, VoiceVideoKind};

verus! {

/// The sign-in form shows and sends what a sign-in takes, and the registration form what a
/// registration takes; each leads to the other.
pub proof fn forms_are_shown(v: AuthView, s: AppState)
    requires
        is_auth_view(v, s),
    ensures
        v.server == s.session.server,
        s.session.screen is Register ==> v.email == s.form.register_email && v.password
            == s.form.register_password && v.username == Some(s.form.register_username) && v.birthdate
            == Some(s.form.register_birthdate) && v.on_return == Msg::Auth(AuthMsg::RegisterSubmit),
        s.session.screen is Register && !s.session.auth_busy ==> (v.submit matches Control::Press {
            msg,
            ..
        } && msg == Msg::Auth(AuthMsg::RegisterSubmit)),
        s.session.screen is Register ==> (v.toggle matches Control::Press { msg, .. } && msg == Msg::Auth(
            AuthMsg::ShowRegister(false),
        )),
        s.session.screen is Login ==> v.email == s.form.login_email && v.password
            == s.form.login_password && v.username is None && v.birthdate is None && v.remember == Some(
            s.session.remember_me,
        ) && v.on_return == Msg::Auth(AuthMsg::LoginSubmit),
        s.session.screen is Login && !s.session.auth_busy ==> (v.submit matches Control::Press {
            msg,
            ..
        } && msg == Msg::Auth(AuthMsg::LoginSubmit)),
        s.session.screen is Login ==> (v.toggle matches Control::Press { msg, .. } && msg == Msg::Auth(
            AuthMsg::ShowRegister(true),
        )),
        s.session.auth_busy ==> v.submit is Spinner,
        s.session.error@.len() > 0 ==> v.error == Some(s.session.error),
        s.session.error@.len() == 0 ==> v.error is None,
{
}

/// A code is sent to what asked for it: that of an address, or that of a second factor.
pub proof fn codes_are_asked_for(mail: CodeView, second: CodeView, s: AppState)
    requires
        is_verify_view(mail, s),
        is_2fa_view(second, s),
    ensures
        mail.code == s.form.verify_code && mail.on_return == Msg::Auth(AuthMsg::VerifySubmit),
        second.code == s.form.twofa_code && second.on_return == Msg::Auth(AuthMsg::TwoFaSubmit),
        !s.session.auth_busy ==> (mail.submit matches Control::Press { msg, .. } && msg == Msg::Auth(
            AuthMsg::VerifySubmit,
        )),
        !s.session.auth_busy ==> (second.submit matches Control::Press { msg, .. } && msg == Msg::Auth(
            AuthMsg::TwoFaSubmit,
        )),
        s.session.auth_busy ==> mail.submit is Spinner && second.submit is Spinner,
{
}

/// A second factor is first asked for, then shown with its secret and switched on.
pub proof fn second_factors_are_set_up(v: SetupView, s: AppState, label: Seq<char>)
    requires
        is_setup_view(v, s, label),
    ensures
        s.session.twofa_setup is None ==> v.card is None,
        s.session.twofa_setup is None && !s.session.twofa_busy ==> (v.action matches Control::Press {
            msg,
            ..
        } && msg == Msg::Auth(AuthMsg::TwoFaSetup)),
        s.session.twofa_setup is Some && !s.session.twofa_busy ==> (v.action matches Control::Press {
            msg,
            ..
        } && msg == Msg::Auth(AuthMsg::TwoFaEnable)),
        s.session.twofa_setup matches Some(info) ==> (v.card matches Some(card) && card.secret@
            == "Secret: "@ + info.secret@ && card.code == s.session.twofa_toggle_code),
{
}

/// A role is given to a member who has it not, and taken from one who has it.
pub proof fn roles_are_switched(t: RoleToggle, m: GuildMember, guild: u64, role: GuildRole)
    requires
        is_role_toggle(t, m, guild, role),
    ensures
        t.on <==> role.member_ids@.contains(m.id),
        t.msg matches Msg::GuildAdmin(GuildAdminMsg::AssignRole { guild_id, role_id, user_id, on })
            && guild_id == guild && role_id == role.id && user_id == m.id && on != t.on,
{
}

/// A member can be made an administrator or lose that, can be made the owner, and can be banned: each
/// only by whom it is open to, and never the owner.
pub proof fn members_are_managed(r: MemberRow, m: GuildMember, g: Guild, me: Option<u64>)
    requires
        is_member_row(r, m, g, me),
    ensures
        r.owner <==> m.id == g.owner_id,
        r.ban is Some <==> g.can_manage && m.id != g.owner_id,
        r.ban matches Some(b) ==> b == Msg::GuildAdmin(
            GuildAdminMsg::BanMember { guild_id: g.id, user_id: m.id },
        ),
        r.transfer is Some <==> me == Some(g.owner_id) && m.id != g.owner_id,
        r.transfer matches Some(t) ==> t == Msg::Guild(
            GuildMsg::TransferOwner { guild_id: g.id, user_id: m.id },
        ),
        r.promotion is Some <==> me == Some(g.owner_id) && m.id != g.owner_id,
        r.promotion matches Some(p) ==> (p matches Control::Press { label, msg } && msg == Msg::Guild(
            GuildMsg::SetRole { guild_id: g.id, user_id: m.id, is_admin: !r.admin },
        ) && (r.admin ==> label@ == "demote"@) && (!r.admin ==> label@ == "promote"@)),
        r.admin <==> exists|i: int|
            0 <= i < g.roles@.len() && (#[trigger] g.roles@[i]).is_admin
                && g.roles@[i].member_ids@.contains(m.id),
{
}

/// Who was banned can be let in again.
pub proof fn bans_are_lifted(r: BanRow, m: GuildMember, guild: u64)
    requires
        is_ban_row(r, m, guild),
    ensures
        r.unban == Msg::GuildAdmin(GuildAdminMsg::UnbanMember { guild_id: guild, user_id: m.id }),
        m.display_name@.len() > 0 ==> r.name@ == m.display_name@,
        m.display_name@.len() == 0 ==> r.name@ == m.username@,
{
}

/// A channel is renamed from the name that it has, or from the one being typed.
pub proof fn channels_are_renamed(r: ChannelSetting, ch: GuildChannel, inputs: Map<u64, String>)
    requires
        is_channel_setting(r, ch, inputs),
    ensures
        r.channel_id == ch.id && r.name == ch.name,
        inputs.contains_key(ch.id) ==> r.rename == inputs[ch.id],
        !inputs.contains_key(ch.id) ==> r.rename == ch.name,
        r.voice <==> ch.channel_type@ == "voice"@,
{
}

/// With a server open the dialog adds a channel to it; with none it makes a server or joins one.
pub proof fn servers_are_added(m: GuildModal, s: AppState)
    requires
        is_guild_modal(m, s),
    ensures
        open_guild(s.guilds.guilds@, s.guilds.selected_guild) matches Some(g) ==> (
        m matches GuildModal::Channel { name, voice, on_return, .. } && name
            == s.guilds.channel_name_input && voice == s.guilds.channel_is_voice && on_return
            == Msg::Guild(GuildMsg::CreateChannelSubmit(g.id))),
        s.guilds.selected_guild is None ==> (m matches GuildModal::Servers { name, code, .. } && name
            == s.guilds.name_input && code == s.guilds.join_code_input),
        s.guilds.selected_guild is None && !s.guilds.busy ==> (m matches GuildModal::Servers {
            create: Control::Press { msg: c, .. },
            join: Control::Press { msg: j, .. },
            ..
        } && c == Msg::Guild(GuildMsg::CreateGuildSubmit) && j == Msg::Guild(
            GuildMsg::JoinGuildSubmit,
        )),
{
}

/// Only who manages a server sees its settings, and only its owner can delete it.
pub proof fn settings_are_for_managers(v: GuildSettingsView, s: AppState, g: Guild)
    requires
        is_guild_settings(v, s),
        open_guild(s.guilds.guilds@, s.guilds.selected_guild) == Some(g),
    ensures
        v.body is Locked <==> !g.can_manage,
        v.delete is Some <==> g.can_manage && self_id(s.session.user) == Some(g.owner_id),
        v.delete matches Some(d) ==> d == Msg::Guild(GuildMsg::DeleteGuild(g.id)),
        g.can_manage && s.guilds.settings_tab is Channels ==> (v.body matches GuildBody::Channels {
            rows,
            add,
            ..
        } && rows@.len() == g.channels@.len() && add == Msg::Guild(
            GuildMsg::CreateChannelSubmit(g.id),
        )),
        g.can_manage && s.guilds.settings_tab is Roles ==> (v.body matches GuildBody::Roles {
            rows,
            create,
            ..
        } && rows@.len() == g.roles@.len() && create == Msg::GuildAdmin(
            GuildAdminMsg::CreateRoleSubmit(g.id),
        )),
        g.can_manage && s.guilds.settings_tab is Bans ==> (v.body matches GuildBody::Bans { bans, .. }
            && bans@.len() == g.bans@.len()),
{
}

proof fn lemma_others(ms: Seq<GuildMember>, me: Option<u64>)
    ensures
        forall|m: GuildMember|
            other_guild_members(ms, me).contains(m) <==> ms.contains(m) && me != Some(m.id),
    decreases ms.len(),
{
    if ms.len() > 0 {
        let rest = ms.drop_last();
        lemma_others(rest, me);
        let v = other_guild_members(rest, me);
        let all = other_guild_members(ms, me);
        assert forall|m: GuildMember| all.contains(m) <==> ms.contains(m) && me != Some(m.id) by {
            assert(ms[ms.len() - 1] == ms.last());
            if ms.contains(m) {
                let i = choose|i: int| 0 <= i < ms.len() && ms[i] == m;
                if i < rest.len() {
                    assert(rest[i] == m);
                }
            }
            if rest.contains(m) {
                let i = choose|i: int| 0 <= i < rest.len() && rest[i] == m;
                assert(ms[i] == m);
            }
            if v.contains(m) {
                let i = choose|i: int| 0 <= i < v.len() && v[i] == m;
                assert(all[i] == m);
            }
            if all.len() > v.len() {
                assert(all[v.len() as int] == ms.last());
                if all.contains(m) && m != ms.last() {
                    let i = choose|i: int| 0 <= i < all.len() && all[i] == m;
                    assert(v[i] == m);
                }
            }
        }
    }
}

/// The list of members that can be managed has everyone but the user.
pub proof fn everyone_else_is_listed(ms: Seq<GuildMember>, me: Option<u64>, m: GuildMember)
    ensures
        other_guild_members(ms, me).contains(m) <==> ms.contains(m) && me != Some(m.id),
{
    lemma_others(ms, me);
}

/// Another device can be logged out; the one in use cannot.
pub proof fn devices_are_shown(r: DeviceRow, d: SessionInfo)
    requires
        is_device_row(r, d),
    ensures
        d.current ==> r.revoke is None,
        !d.current ==> r.revoke == Some(Msg::Profile(ProfileMsg::RevokeSession(d.id))),
{
}

/// Who can be seen by all can hide, and who is hidden can be shown again.
pub proof fn visibility_is_switched(b: SettingsBody, s: AppState)
    requires
        is_privacy(b, s),
    ensures
        s.session.user matches Some(u) ==> (b matches SettingsBody::Privacy {
            toggle: Control::Press { label, msg },
            ..
        } && msg == Msg::Profile(ProfileMsg::ProfileVisibleToggled(!u.profile_visible)) && (
        u.profile_visible ==> label@ == "Hide"@) && (!u.profile_visible ==> label@ == "Show"@)),
{
}

/// The settings show what is typed in them, and each tab its own.
pub proof fn settings_are_shown(v: SettingsView, s: AppState)
    requires
        is_settings_view(v, s),
    ensures
        v.tab == s.people.settings_tab,
        s.people.settings_tab is General ==> (v.body matches SettingsBody::General {
            display_name,
            bio,
            accent,
            accent_hex,
            ..
        } && display_name == s.people.display_name_input && bio == s.people.bio_input && accent
            == s.people.accent && accent_hex == s.people.accent_hex_input),
        s.people.settings_tab is Privacy ==> v.body is Privacy,
        s.people.settings_tab is Devices && s.people.sessions_busy ==> v.body is LoadingDevices,
        s.people.settings_tab is Devices && !s.people.sessions_busy ==> (
        v.body matches SettingsBody::Devices(rows) && rows@.len() == s.people.sessions@.len()),
        s.session.user matches Some(u) ==> v.username@ == "Username: "@ + u.username@ && v.email@
            == "Email: "@ + u.email@,
{
}

/// A chat takes one other user and a group at least two: then it can be made, and not before.
pub proof fn conversations_are_made_when_complete(c: Control, s: AppState)
    requires
        is_create(c, s),
        !s.new_conv.busy,
    ensures
        s.new_conv.kind is Direct ==> (c is Press <==> s.new_conv.selected@.len() == 1),
        s.new_conv.kind is Group ==> (c is Press <==> s.new_conv.selected@.len() >= 2),
        c matches Control::Press { label, msg } ==> msg == Msg::NewConv(NewConvMsg::NewConvCreate) && (
        s.new_conv.kind is Direct ==> label@ == "Start chat"@) && (s.new_conv.kind is Group ==> label@
            == "Create group"@),
{
}

/// Everyone who was found is shown under their name, and marked if picked.
pub proof fn found_users_are_shown(v: NewConvView, s: AppState, i: int)
    requires
        is_new_conv_view(v, s),
        0 <= i < s.new_conv.results@.len(),
    ensures
        v.results@.len() == s.new_conv.results@.len(),
        v.results@[i].user_id == s.new_conv.results@[i].id,
        v.results@[i].selected <==> s.new_conv.selected@.contains(s.new_conv.results@[i].id),
        s.new_conv.results@[i].display_name@.len() > 0 ==> v.results@[i].name@
            == s.new_conv.results@[i].display_name@,
        s.new_conv.results@[i].display_name@.len() == 0 ==> v.results@[i].name@
            == s.new_conv.results@[i].username@,
        s.new_conv.results@[i].domain@.len() > 0 ==> v.results@[i].handle@ == "@"@
            + s.new_conv.results@[i].username@ + "@"@ + s.new_conv.results@[i].domain@,
        v.kind == s.new_conv.kind && v.search == s.new_conv.search,
{
    assert(v.results@[i].user_id == s.new_conv.results@[i].id);
}

/// A sticker is sent by a click on it, and only whose pack it is can add to it or delete it.
pub proof fn stickers_are_shown(v: PackView, p: StickerPack, s: AppState, i: int)
    requires
        is_pack_view(v, p, s),
        0 <= i < p.stickers@.len(),
    ensures
        v.name == p.name,
        v.cells@.len() == p.stickers@.len(),
        v.cells@[i].sticker_id == p.stickers@[i].id,
        v.cells@[i].send == Msg::Sticker(StickerMsg::SendSticker(p.stickers@[i].id)),
        v.cells@[i].loaded <==> s.stickers.bytes@.contains_key(p.stickers@[i].id),
        v.owner is Some <==> self_id(s.session.user) == Some(p.owner_id),
        v.owner matches Some((add, delete)) ==> add == Msg::Sticker(
            StickerMsg::PickStickerImages(p.id),
        ) && delete == Msg::Sticker(StickerMsg::DeleteStickerPack(p.id)),
{
    assert(v.cells@[i].sticker_id == p.stickers@[i].id);
}

/// The panel shows every pack, and says where there are none or they are being loaded.
pub proof fn packs_are_shown(v: StickerPanel, s: AppState)
    requires
        is_sticker_panel(v, s),
    ensures
        v.packs@.len() == s.stickers.packs@.len(),
        s.stickers.busy ==> v.notice is Loading,
        !s.stickers.busy && s.stickers.packs@.len() == 0 ==> v.notice is NoPacks,
        !s.stickers.busy && s.stickers.packs@.len() > 0 ==> v.notice is Nothing,
        s.stickers.pack_create_open ==> v.new_pack == Some(s.stickers.pack_name_input),
        !s.stickers.pack_create_open ==> v.new_pack is None,
        v.search == s.stickers.search,
{
}

/// The panel of a call shows how the microphone, the camera and the screen stand, and every picture
/// that comes in, under the name of who sends it.
pub proof fn calls_are_shown(
    p: VoicePanel,
    s: AppState,
    v: VoiceManager,
    channel: u64,
    user: u64,
    kind: VoiceVideoKind,
)
    requires
        is_voice_panel(p, s, v, channel),
    ensures
        p.muted == v.muted && p.camera_on == v.camera_on && p.screen_on == v.screen_on,
        s.links.voice_frames@.contains_key((user, kind)) ==> exists|i: int|
            0 <= i < p.tiles@.len() && (#[trigger] p.tiles@[i]).user_id == user && p.tiles@[i].kind
                == kind && (v.members@.contains_key(user) ==> p.tiles@[i].name@ == v.members@[user]@),
        forall|i: int|
            0 <= i < p.tiles@.len() ==> s.links.voice_frames@.contains_key(
                ((#[trigger] p.tiles@[i]).user_id, p.tiles@[i].kind),
            ),
{
    if s.links.voice_frames@.contains_key((user, kind)) {
        let k = (user, kind);
        let i = choose|i: int|
            0 <= i < p.tiles@.len() && (#[trigger] p.tiles@[i]).user_id == k.0 && p.tiles@[i].kind
                == k.1;
        assert(p.tiles@[i].user_id == user);
    }
}

proof fn lemma_picked(us: Seq<SearchUser>, selected: Seq<u64>)
    ensures
        forall|u: SearchUser|
            picked(us, selected).contains(u) <==> us.contains(u) && selected.contains(u.id),
    decreases us.len(),
{
    if us.len() > 0 {
        let rest = us.drop_last();
        lemma_picked(rest, selected);
        let v = picked(rest, selected);
        let all = picked(us, selected);
        assert forall|u: SearchUser|
            all.contains(u) <==> us.contains(u) && selected.contains(u.id) by {
            assert(us[us.len() - 1] == us.last());
            if us.contains(u) {
                let i = choose|i: int| 0 <= i < us.len() && us[i] == u;
                if i < rest.len() {
                    assert(rest[i] == u);
                }
            }
            if rest.contains(u) {
                let i = choose|i: int| 0 <= i < rest.len() && rest[i] == u;
                assert(us[i] == u);
            }
            if v.contains(u) {
                let i = choose|i: int| 0 <= i < v.len() && v[i] == u;
                assert(all[i] == u);
            }
            if all.len() > v.len() {
                assert(all[v.len() as int] == us.last());
                if all.contains(u) && u != us.last() {
                    let i = choose|i: int| 0 <= i < all.len() && all[i] == u;
                    assert(v[i] == u);
                }
            }
        }
    }
}

/// Everyone who was picked stands above the list, and is dropped by a click.
pub proof fn picked_users_are_shown(v: NewConvView, s: AppState, u: SearchUser)
    requires
        is_new_conv_view(v, s),
        s.new_conv.results@.contains(u),
        s.new_conv.selected@.contains(u.id),
    ensures
        exists|i: int|
            0 <= i < v.chips@.len() && (#[trigger] v.chips@[i]).drop == Msg::NewConv(
                NewConvMsg::NewConvToggleUser(u.id),
            ),
{
    lemma_picked(s.new_conv.results@, s.new_conv.selected@);
    let us = picked(s.new_conv.results@, s.new_conv.selected@);
    assert(us.contains(u));
    let i = choose|i: int| 0 <= i < us.len() && us[i] == u;
    assert(v.chips@[i].drop == Msg::NewConv(NewConvMsg::NewConvToggleUser(us[i].id)));
}

proof fn lemma_channel_index(chs: Seq<GuildChannel>, id: u64)
    ensures
        0 <= channel_index(chs, id) <= chs.len(),
        channel_index(chs, id) < chs.len() ==> chs[channel_index(chs, id)].id == id,
        forall|i: int| 0 <= i < channel_index(chs, id) ==> (#[trigger] chs[i]).id != id,
    decreases chs.len(),
{
    if chs.len() > 0 && chs[0].id != id {
        lemma_channel_index(chs.drop_first(), id);
        let k = channel_index(chs.drop_first(), id);
        assert forall|i: int| 0 <= i < 1 + k implies (#[trigger] chs[i]).id != id by {
            if i > 0 {
                assert(chs.drop_first()[i - 1] == chs[i]);
            }
        }
        if k < chs.drop_first().len() {
            assert(chs.drop_first()[k] == chs[k + 1]);
        }
    }
}

/// A call is named after its channel.
pub proof fn calls_are_named(gs: Seq<Guild>, id: u64, name: Seq<char>, k: int)
    requires
        0 <= k < gs.len(),
        forall|i: int, j: int|
            0 <= i < gs.len() && 0 <= j < gs[i].channels@.len() && (#[trigger] gs[i].channels@[j]).id == id
                ==> gs[i].channels@[j].name@ == name,
        exists|j: int| 0 <= j < gs[k].channels@.len() && (#[trigger] gs[k].channels@[j]).id == id,
    ensures
        channel_name(gs, id) == name,
    decreases gs.len(),
{
    let chs = gs[0].channels@;
    lemma_channel_index(chs, id);
    let i = channel_index(chs, id);
    if i < chs.len() {
        assert(gs[0].channels@[i].id == id);
    } else if k > 0 {
        let rest = gs.drop_first();
        assert(rest[k - 1] == gs[k]);
        assert forall|a: int, j: int|
            0 <= a < rest.len() && 0 <= j < rest[a].channels@.len() && (#[trigger] rest[a].channels@[j]).id
                == id implies rest[a].channels@[j].name@ == name by {
            assert(rest[a] == gs[a + 1]);
            assert(gs[a + 1].channels@[j].id == id);
        }
        let j = choose|j: int| 0 <= j < gs[k].channels@.len() && (#[trigger] gs[k].channels@[j]).id == id;
        assert(rest[k - 1].channels@[j].id == id);
        calls_are_named(rest, id, name, k - 1);
    } else {
        let j = choose|j: int| 0 <= j < gs[k].channels@.len() && (#[trigger] gs[k].channels@[j]).id == id;
        assert(chs[j].id == id);
    }
}

/// Every screen has its page: the forms before a session is complete, and then the chat, or the
/// settings in front of it.
pub proof fn pages_follow_the_screen(p: Page, s: AppState)
    requires
        is_page(p, s),
    ensures
        s.session.screen is Login || s.session.screen is Register <==> p is Auth,
        s.session.screen is Verify ==> (p matches Page::Code(v) && v.on_return == Msg::Auth(
            AuthMsg::VerifySubmit,
        )),
        s.session.screen is TwoFa ==> (p matches Page::Code(v) && v.on_return == Msg::Auth(
            AuthMsg::TwoFaSubmit,
        )),
        s.session.screen is TwoFaSetup <==> p is Setup,
        s.session.screen is Chat && s.people.settings_open <==> p is Settings,
        s.session.screen is Chat && !s.people.settings_open <==> p is Chat,
{
}

} // verus!
