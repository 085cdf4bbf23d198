//! Users: profiles, settings, pictures, devices, and who a new conversation is with.

use vstd::prelude::*;

use crate::chat::action::{Action, Api};
use crate::chat::avatars::{
    all_wanted, avatars_step, picture_action, picture_actions, tried, wanted_of_conversations,
    wanted_of_hits, wanted_of_members,
};
use crate::chat::msg::{Msg, NewConvMsg, ProfileMsg};
use crate::chat::new_conv::without_id;
use crate::chat::state::AppState;
use crate::chat::types::{
    Conversation, Member, NewConvKind, Profile, Rgb, SearchUser, SessionInfo, User,
};
use crate::chat::update::step;
use crate::colour::hex_colour;

verus! {

/// A user is blocked or muted by the word that changes what holds now, and it is that user.
pub proof fn moderation_changes_what_holds(
    pre: AppState,
    id: u64,
    m: ProfileMsg,
    now: u64,
    post: AppState,
    acts: Seq<Action>,
)
    requires
        step(pre, Msg::Profile(m), now, post, acts),
        pre.people.profile is Some,
    ensures
        m == ProfileMsg::ToggleBlock(id) ==> acts.len() == 1 && (acts[0] matches Action::Call(
            Api::Moderate { user_id, verb },
        ) && user_id == id && (pre.people.profile->0.blocked ==> verb@ == "unblock"@) && (
        !pre.people.profile->0.blocked ==> verb@ == "block"@)),
        m == ProfileMsg::ToggleMute(id) ==> acts.len() == 1 && (acts[0] matches Action::Call(
            Api::Moderate { user_id, verb },
        ) && user_id == id && (pre.people.profile->0.muted ==> verb@ == "unmute"@) && (
        !pre.people.profile->0.muted ==> verb@ == "mute"@)),
{
}

/// A profile that is asked for is that of the user; the one that comes is shown, and one that was
/// changed takes its place.
pub proof fn profiles_are_shown(
    pre: AppState,
    id: u64,
    p: Profile,
    m: ProfileMsg,
    now: u64,
    post: AppState,
    acts: Seq<Action>,
)
    requires
        step(pre, Msg::Profile(m), now, post, acts),
    ensures
        m == ProfileMsg::ShowProfile(id) ==> acts == seq![
            Action::Call(Api::LoadProfile { user_id: id }),
        ],
        m == ProfileMsg::ProfileLoaded(p) ==> post.people.profile == Some(p)
            && post.people.profile_open,
        m == ProfileMsg::ModerationResult(Ok(p)) ==> post.people.profile == Some(p)
            && post.people.profile_open == pre.people.profile_open,
        m == ProfileMsg::CloseProfile ==> !post.people.profile_open,
{
}

/// The settings open with what the account says now, are saved as they were typed, and the account
/// that comes back is the one that is shown.
pub proof fn settings_are_saved_as_typed(
    pre: AppState,
    s: String,
    u: User,
    m: ProfileMsg,
    now: u64,
    post: AppState,
    acts: Seq<Action>,
)
    requires
        step(pre, Msg::Profile(m), now, post, acts),
    ensures
        m == ProfileMsg::ToggleSettings ==> post.people.settings_open != pre.people.settings_open,
        m == ProfileMsg::ToggleSettings && !pre.people.settings_open && pre.session.user is Some
            ==> post.people.display_name_input == pre.session.user->0.display_name
            && post.people.bio_input == pre.session.user->0.bio,
        m == ProfileMsg::DisplayNameChanged(s) ==> post.people.display_name_input == s
            && post.people.bio_input == pre.people.bio_input,
        m == ProfileMsg::BioChanged(s) ==> post.people.bio_input == s
            && post.people.display_name_input == pre.people.display_name_input,
        m == ProfileMsg::AccentHexChanged(s) ==> post.people.accent_hex_input == s,
        m == ProfileMsg::SaveSettings && pre.session.user is Some ==> acts == seq![
            Action::Call(
                Api::SaveSettings {
                    display_name: pre.people.display_name_input,
                    bio: pre.people.bio_input,
                    profile_visible: pre.session.user->0.profile_visible,
                },
            ),
        ],
        m matches ProfileMsg::ProfileVisibleToggled(visible) ==> acts == seq![
            Action::Call(Api::SetProfileVisible { visible }),
        ],
        m == ProfileMsg::SettingsResult(Ok(u)) ==> post.session.user == Some(u),
        m matches ProfileMsg::SettingsTabChanged(t) ==> post.people.settings_tab == t,
{
}

/// The accent colour that was chosen is the one that is used and kept.
pub proof fn accents_are_kept(
    pre: AppState,
    c: Rgb,
    now: u64,
    post: AppState,
    acts: Seq<Action>,
)
    requires
        step(pre, Msg::Profile(ProfileMsg::SetAccent(c)), now, post, acts),
    ensures
        post.people.accent == c,
        acts == seq![Action::SaveAccent(c)],
{
}

/// A colour that was typed is used and kept as one, or refused and left as it was.
pub proof fn typed_accents_are_used_or_refused(
    pre: AppState,
    now: u64,
    post: AppState,
    acts: Seq<Action>,
)
    requires
        step(pre, Msg::Profile(ProfileMsg::ApplyAccentHex), now, post, acts),
    ensures
        acts == seq![Action::SaveAccent(post.people.accent)] || (acts.len() == 0
            && post.people.accent == pre.people.accent && post.session.error@.len() > 0),
{
    reveal_strlit("Invalid hex colour (e.g. #7a5cf0)");
}

/// The devices of the account are listed as the server lists them, one that is logged out is the one
/// that was picked, and the list is loaded again after that.
pub proof fn devices_are_logged_out(
    pre: AppState,
    id: u64,
    sessions: Vec<SessionInfo>,
    m: ProfileMsg,
    now: u64,
    post: AppState,
    acts: Seq<Action>,
)
    requires
        step(pre, Msg::Profile(m), now, post, acts),
    ensures
        m == ProfileMsg::SessionsLoaded(Ok(sessions)) ==> post.people.sessions == sessions
            && !post.people.sessions_busy,
        m == ProfileMsg::RevokeSession(id) ==> acts == seq![
            Action::Call(Api::RevokeSession { session_id: id }),
        ],
        m == ProfileMsg::SessionRevoked(Ok(())) ==> acts == seq![Action::Call(Api::LoadSessions)],
        m == ProfileMsg::SettingsTabChanged(crate::chat::types::SettingsTab::Devices)
            && pre.people.sessions@.len() == 0 && !pre.people.sessions_busy ==> acts == seq![
            Action::Call(Api::LoadSessions),
        ],
{
}

/// A picture that was chosen is prepared, sent and shown: the old one is forgotten once the new one
/// was saved.
pub proof fn pictures_are_changed(
    pre: AppState,
    bytes: Vec<u8>,
    url: String,
    u: User,
    user_id: u64,
    m: ProfileMsg,
    now: u64,
    post: AppState,
    acts: Seq<Action>,
)
    requires
        step(pre, Msg::Profile(m), now, post, acts),
    ensures
        m == ProfileMsg::PickAvatar ==> acts == seq![Action::PickAvatar],
        m == ProfileMsg::AvatarChosen(Ok(bytes)) ==> acts == seq![Action::PrepareAvatar { bytes }]
            && post.people.avatar_busy,
        m == ProfileMsg::AvatarPrepared(Ok(url)) ==> acts == seq![
            Action::Call(Api::SetAvatar { data_url: url }),
        ],
        m == ProfileMsg::RemoveAvatar ==> acts == seq![Action::Call(Api::RemoveAvatar)],
        m == ProfileMsg::AvatarSaved(Ok(u)) ==> post.session.user == Some(u)
            && !post.people.avatar_busy && !post.people.avatars@.contains_key(u.id),
        m == (ProfileMsg::AvatarFetched { user_id, result: Ok(bytes) }) ==> acts == seq![
            Action::MakeAvatar { user_id, bytes },
        ],
        m == (ProfileMsg::AvatarReady { user_id, png: bytes }) ==> post.people.avatars@.contains_key(
            user_id,
        ) && post.people.avatars@[user_id] == bytes,
{
}

// ---------------------------------------------------------------------------
// Loading pictures
// ---------------------------------------------------------------------------

proof fn lemma_tried(done: Set<u64>, ws: Seq<(u64, String)>, id: u64)
    ensures
        tried(done, ws).contains(id) <==> done.contains(id) || exists|k: int|
            0 <= k < ws.len() && (#[trigger] ws[k]).0 == id,
    decreases ws.len(),
{
    if ws.len() > 0 {
        let init = ws.drop_last();
        lemma_tried(done, init, id);
        if exists|k: int| 0 <= k < init.len() && (#[trigger] init[k]).0 == id {
            let k = choose|k: int| 0 <= k < init.len() && (#[trigger] init[k]).0 == id;
            assert(ws[k].0 == id);
        }
        if ws.last().0 == id {
            assert(ws[ws.len() - 1].0 == id);
        }
        if exists|k: int| 0 <= k < ws.len() && (#[trigger] ws[k]).0 == id {
            let k = choose|k: int| 0 <= k < ws.len() && (#[trigger] ws[k]).0 == id;
            if k < init.len() {
                assert(init[k].0 == id);
            }
        }
    }
}

proof fn lemma_first_picture(done: Set<u64>, ws: Seq<(u64, String)>, k: int)
    requires
        0 <= k < ws.len(),
        !done.contains(ws[k].0),
        forall|j: int| 0 <= j < k ==> (#[trigger] ws[j]).0 != ws[k].0,
    ensures
        forall|i: int|
            0 <= i < picture_action(ws[k].0, ws[k].1).len() ==> picture_actions(done, ws).contains(
                #[trigger] picture_action(ws[k].0, ws[k].1)[i],
            ),
    decreases ws.len(),
{
    let init = ws.drop_last();
    let rest = picture_actions(done, init);
    let all = picture_actions(done, ws);
    let mine = picture_action(ws[k].0, ws[k].1);
    assert forall|i: int| 0 <= i < mine.len() implies all.contains(#[trigger] mine[i]) by {
        if k < init.len() {
            assert(init[k] == ws[k]);
            assert forall|j: int| 0 <= j < k implies (#[trigger] init[j]).0 != init[k].0 by {
                assert(init[j] == ws[j]);
            }
            lemma_first_picture(done, init, k);
            let n = choose|n: int| 0 <= n < rest.len() && rest[n] == mine[i];
            assert(all[n] == mine[i]);
        } else {
            lemma_tried(done, init, ws[k].0);
            assert(!tried(done, init).contains(ws[k].0)) by {
                if exists|j: int| 0 <= j < init.len() && (#[trigger] init[j]).0 == ws[k].0 {
                    let j = choose|j: int| 0 <= j < init.len() && (#[trigger] init[j]).0 == ws[k].0;
                    assert(ws[j].0 != ws[k].0);
                }
            }
            assert(all[rest.len() + i] == mine[i]);
        }
    }
}

/// A picture is got by what its address is: out of the address itself, or from the network; of any
/// other address nothing is asked for.
pub proof fn addresses_say_how_a_picture_is_got(id: u64, url: String)
    ensures
        url@.len() >= 5 && url@.take(5) == "data:"@ ==> picture_action(id, url) == seq![
            Action::AvatarFromDataUrl { user_id: id, url },
        ],
        url@.len() >= 7 && url@.take(7) == "http://"@ ==> picture_action(id, url) == seq![
            Action::FetchAvatar { user_id: id, url },
        ],
        url@.len() >= 8 && url@.take(8) == "https://"@ ==> picture_action(id, url) == seq![
            Action::FetchAvatar { user_id: id, url },
        ],
{
    reveal_strlit("data:");
    reveal_strlit("http://");
    reveal_strlit("https://");
    if url@.len() >= 5 {
        assert(url@.take(5) =~= url@.subrange(0, 5));
    }
    if url@.len() >= 7 {
        assert(url@.take(7) =~= url@.subrange(0, 7));
        assert(url@.subrange(0, 7)[0] == url@[0]);
        assert(url@.subrange(0, 5)[0] == url@[0]);
    }
    if url@.len() >= 8 {
        assert(url@.take(8) =~= url@.subrange(0, 8));
        assert(url@.subrange(0, 8)[0] == url@[0]);
    }
}

proof fn lemma_members_wanted(ms: Seq<Member>, k: int)
    requires
        0 <= k < ms.len(),
        ms[k].avatar_url is Some,
        ms[k].avatar_url->0@.len() > 0,
    ensures
        wanted_of_members(ms).contains((ms[k].id, ms[k].avatar_url->0)),
    decreases ms.len(),
{
    let init = ms.drop_last();
    let rest = wanted_of_members(init);
    let all = wanted_of_members(ms);
    let p = (ms[k].id, ms[k].avatar_url->0);
    if k < init.len() {
        assert(init[k] == ms[k]);
        lemma_members_wanted(init, k);
        let n = choose|n: int| 0 <= n < rest.len() && rest[n] == p;
        assert(all[n] == p);
    } else {
        assert(all[rest.len() as int] == p);
    }
}

proof fn lemma_conversations_wanted(cs: Seq<Conversation>, c: int, k: int)
    requires
        0 <= c < cs.len(),
        0 <= k < cs[c].members@.len(),
        cs[c].members@[k].avatar_url is Some,
        cs[c].members@[k].avatar_url->0@.len() > 0,
    ensures
        wanted_of_conversations(cs).contains(
            (cs[c].members@[k].id, cs[c].members@[k].avatar_url->0),
        ),
    decreases cs.len(),
{
    let init = cs.drop_last();
    let rest = wanted_of_conversations(init);
    let more = wanted_of_members(cs.last().members@);
    let all = wanted_of_conversations(cs);
    let p = (cs[c].members@[k].id, cs[c].members@[k].avatar_url->0);
    if c < init.len() {
        assert(init[c] == cs[c]);
        lemma_conversations_wanted(init, c, k);
        let n = choose|n: int| 0 <= n < rest.len() && rest[n] == p;
        assert(all[n] == p);
    } else {
        lemma_members_wanted(cs.last().members@, k);
        let n = choose|n: int| 0 <= n < more.len() && more[n] == p;
        assert(all[rest.len() + n] == p);
    }
}

proof fn lemma_hits_wanted(us: Seq<SearchUser>, k: int)
    requires
        0 <= k < us.len(),
        us[k].avatar_url is Some,
        us[k].avatar_url->0@.len() > 0,
    ensures
        wanted_of_hits(us).contains((us[k].id, us[k].avatar_url->0)),
    decreases us.len(),
{
    let init = us.drop_last();
    let rest = wanted_of_hits(init);
    let all = wanted_of_hits(us);
    let p = (us[k].id, us[k].avatar_url->0);
    if k < init.len() {
        assert(init[k] == us[k]);
        lemma_hits_wanted(init, k);
        let n = choose|n: int| 0 <= n < rest.len() && rest[n] == p;
        assert(all[n] == p);
    } else {
        assert(all[rest.len() as int] == p);
    }
}

/// Every user with an address for a picture is tried: the own account, whoever is in a conversation,
/// the open profile, and whoever was found.
pub proof fn everyone_with_a_picture_is_tried(
    pre: AppState,
    post: AppState,
    acts: Seq<Action>,
    c: int,
    k: int,
)
    requires
        avatars_step(pre, post, acts),
    ensures
        0 <= c < pre.chats.conversations@.len() && 0 <= k
            < pre.chats.conversations@[c].members@.len() ==> {
            let m = pre.chats.conversations@[c].members@[k];
            m.avatar_url is Some && m.avatar_url->0@.len() > 0
                ==> post.people.avatar_attempted@.contains(m.id)
        },
        0 <= k < pre.new_conv.results@.len() ==> {
            let u = pre.new_conv.results@[k];
            u.avatar_url is Some && u.avatar_url->0@.len() > 0
                ==> post.people.avatar_attempted@.contains(u.id)
        },
        pre.session.user matches Some(u) ==> (u.avatar_url is Some && u.avatar_url->0@.len() > 0
            ==> post.people.avatar_attempted@.contains(u.id)),
        pre.people.profile matches Some(p) ==> (p.avatar_url is Some && p.avatar_url->0@.len() > 0
            ==> post.people.avatar_attempted@.contains(p.id)),
        forall|id: u64| #[trigger]
            pre.people.avatar_attempted@.contains(id) ==> post.people.avatar_attempted@.contains(id),
{
    let own = crate::chat::avatars::wanted_of_user(pre.session.user);
    let convs = wanted_of_conversations(pre.chats.conversations@);
    let prof = crate::chat::avatars::wanted_of_profile(pre.people.profile);
    let hits = wanted_of_hits(pre.new_conv.results@);
    let all = all_wanted(pre);
    let done = pre.people.avatar_attempted@;
    assert forall|id: u64| #[trigger] done.contains(id) implies tried(done, all).contains(id) by {
        lemma_tried(done, all, id);
    }
    if 0 <= c < pre.chats.conversations@.len() && 0 <= k < pre.chats.conversations@[c].members@.len() {
        let m = pre.chats.conversations@[c].members@[k];
        if m.avatar_url is Some && m.avatar_url->0@.len() > 0 {
            lemma_conversations_wanted(pre.chats.conversations@, c, k);
            let p = (m.id, m.avatar_url->0);
            let n = choose|n: int| 0 <= n < convs.len() && convs[n] == p;
            assert(all[own.len() + n] == p);
            lemma_tried(done, all, m.id);
        }
    }
    if 0 <= k < pre.new_conv.results@.len() {
        let u = pre.new_conv.results@[k];
        if u.avatar_url is Some && u.avatar_url->0@.len() > 0 {
            lemma_hits_wanted(pre.new_conv.results@, k);
            let p = (u.id, u.avatar_url->0);
            let n = choose|n: int| 0 <= n < hits.len() && hits[n] == p;
            assert(all[own.len() + convs.len() + prof.len() + n] == p);
            lemma_tried(done, all, u.id);
        }
    }
    match pre.session.user {
        Some(u) => {
            if u.avatar_url is Some && u.avatar_url->0@.len() > 0 {
                assert(all[0].0 == u.id);
                lemma_tried(done, all, u.id);
            }
        },
        None => {},
    }
    match pre.people.profile {
        Some(p) => {
            if p.avatar_url is Some && p.avatar_url->0@.len() > 0 {
                assert(all[(own.len() + convs.len()) as int].0 == p.id);
                lemma_tried(done, all, p.id);
            }
        },
        None => {},
    }
}

/// The own picture is asked for by its address, where it was not tried yet.
pub proof fn the_own_picture_is_asked_for(pre: AppState, post: AppState, acts: Seq<Action>)
    requires
        avatars_step(pre, post, acts),
        pre.session.user is Some,
        pre.session.user->0.avatar_url is Some,
        !pre.people.avatar_attempted@.contains(pre.session.user->0.id),
    ensures
        ({
            let id = pre.session.user->0.id;
            let url = pre.session.user->0.avatar_url->0;
            &&& url@.len() >= 5 && url@.take(5) == "data:"@ ==> acts.contains(
                Action::AvatarFromDataUrl { user_id: id, url },
            )
            &&& url@.len() >= 8 && url@.take(8) == "https://"@ ==> acts.contains(
                Action::FetchAvatar { user_id: id, url },
            )
        }),
{
    let id = pre.session.user->0.id;
    let url = pre.session.user->0.avatar_url->0;
    addresses_say_how_a_picture_is_got(id, url);
    let all = all_wanted(pre);
    if url@.len() > 0 {
        assert(all[0] == (id, url));
        lemma_first_picture(pre.people.avatar_attempted@, all, 0);
        let mine = picture_action(id, url);
        if mine.len() > 0 {
            assert(picture_action(all[0].0, all[0].1)[0] == mine[0]);
            assert(acts.contains(mine[0]));
        }
    }
}

// ---------------------------------------------------------------------------
// New conversations
// ---------------------------------------------------------------------------

proof fn lemma_without_id(ids: Seq<u64>, id: u64, other: u64)
    ensures
        !without_id(ids, id).contains(id),
        other != id ==> (without_id(ids, id).contains(other) <==> ids.contains(other)),
    decreases ids.len(),
{
    if ids.len() > 0 {
        let init = ids.drop_last();
        lemma_without_id(init, id, other);
        let rest = without_id(init, id);
        let all = without_id(ids, id);
        if all.contains(id) {
            let k = choose|k: int| 0 <= k < all.len() && all[k] == id;
            if k < rest.len() {
                assert(rest[k] == id);
            }
        }
        if other != id {
            if all.contains(other) {
                let k = choose|k: int| 0 <= k < all.len() && all[k] == other;
                if k < rest.len() {
                    assert(rest[k] == other);
                    assert(rest.contains(other));
                    let n = choose|n: int| 0 <= n < init.len() && init[n] == other;
                    assert(ids[n] == other);
                } else {
                    assert(ids[ids.len() - 1] == other);
                }
            }
            if ids.contains(other) {
                let n = choose|n: int| 0 <= n < ids.len() && ids[n] == other;
                if n < init.len() {
                    assert(init[n] == other);
                    assert(rest.contains(other));
                    let k = choose|k: int| 0 <= k < rest.len() && rest[k] == other;
                    assert(all[k] == other);
                } else {
                    assert(all[all.len() - 1] == other);
                }
            }
        }
    }
}

/// A click on a user picks the user or takes the pick back. A group keeps the others who were picked,
/// a direct message is with one user only.
pub proof fn clicks_pick_users(
    pre: AppState,
    id: u64,
    now: u64,
    post: AppState,
    acts: Seq<Action>,
    other: u64,
)
    requires
        step(pre, Msg::NewConv(NewConvMsg::NewConvToggleUser(id)), now, post, acts),
        other != id,
    ensures
        post.new_conv.selected@.contains(id) != pre.new_conv.selected@.contains(id),
        pre.new_conv.kind == NewConvKind::Group ==> (post.new_conv.selected@.contains(other)
            <==> pre.new_conv.selected@.contains(other)),
        pre.new_conv.kind == NewConvKind::Direct && !pre.new_conv.selected@.contains(id)
            ==> post.new_conv.selected@ == seq![id],
        acts.len() == 0,
{
    let ids = pre.new_conv.selected@;
    lemma_without_id(ids, id, other);
    if !ids.contains(id) {
        if pre.new_conv.kind == NewConvKind::Direct {
            assert(seq![id][0] == id);
        } else {
            let all = ids.push(id);
            assert(all[ids.len() as int] == id);
            if ids.contains(other) {
                let k = choose|k: int| 0 <= k < ids.len() && ids[k] == other;
                assert(all[k] == other);
            }
            if all.contains(other) {
                let k = choose|k: int| 0 <= k < all.len() && all[k] == other;
                assert(ids[k] == other);
            }
        }
    }
}

/// A conversation is made with those who were picked, of the kind that was picked: a direct message
/// needs one other user, a group at least two, and with any other number nothing is made.
pub proof fn conversations_are_made_with_those_picked(
    pre: AppState,
    now: u64,
    post: AppState,
    acts: Seq<Action>,
)
    requires
        step(pre, Msg::NewConv(NewConvMsg::NewConvCreate), now, post, acts),
    ensures
        pre.new_conv.kind == NewConvKind::Direct ==> (acts.len() > 0 <==> pre.new_conv.selected@.len()
            == 1),
        pre.new_conv.kind == NewConvKind::Group ==> (acts.len() > 0 <==> pre.new_conv.selected@.len()
            >= 2),
        acts.len() > 0 ==> acts.len() == 1 && (acts[0] matches Action::Call(
            Api::CreateConversation { kind, member_ids },
        ) && member_ids@ == pre.new_conv.selected@ && (pre.new_conv.kind == NewConvKind::Direct
            ==> kind@ == "direct"@) && (pre.new_conv.kind == NewConvKind::Group ==> kind@
            == "group"@)) && post.new_conv.busy,
{
}

/// The conversation that was made is opened, the dialog closes, and the list is loaded again.
pub proof fn made_conversations_are_opened(
    pre: AppState,
    conv: Conversation,
    now: u64,
    post: AppState,
    acts: Seq<Action>,
)
    requires
        step(pre, Msg::NewConv(NewConvMsg::NewConvCreated(Ok(conv))), now, post, acts),
    ensures
        post.chats.selected_conversation == Some(conv.id),
        !post.new_conv.open,
        !post.new_conv.busy,
        acts == seq![Action::Call(Api::LoadConversations)],
{
}

/// The dialog opens empty and asks for everyone; what is typed is searched for; what is found is
/// listed; another kind starts over.
pub proof fn the_dialog_searches(
    pre: AppState,
    q: String,
    users: Vec<SearchUser>,
    kind: NewConvKind,
    m: NewConvMsg,
    now: u64,
    post: AppState,
    acts: Seq<Action>,
)
    requires
        step(pre, Msg::NewConv(m), now, post, acts),
    ensures
        m == NewConvMsg::OpenNewConv ==> post.new_conv.open && post.new_conv.selected@.len() == 0
            && acts.len() == 1 && (acts[0] matches Action::Call(Api::SearchUsers { query })
            && query@.len() == 0),
        m == NewConvMsg::CloseNewConv ==> !post.new_conv.open && acts.len() == 0,
        m == NewConvMsg::NewConvSearchChanged(q) ==> post.new_conv.search == q && acts == seq![
            Action::Call(Api::SearchUsers { query: q }),
        ],
        m == NewConvMsg::NewConvSearchResults(Ok(users)) ==> post.new_conv.results == users,
        m == NewConvMsg::NewConvKindChanged(kind) ==> post.new_conv.kind == kind
            && post.new_conv.selected@.len() == 0,
{
}

/// From a profile, the dialog opens with that user found and picked.
pub proof fn profiles_start_conversations(
    pre: AppState,
    now: u64,
    post: AppState,
    acts: Seq<Action>,
)
    requires
        pre.people.profile is Some,
        step(
            pre,
            Msg::NewConv(NewConvMsg::NewConvWithUser(pre.people.profile->0.id)),
            now,
            post,
            acts,
        ),
    ensures
        post.new_conv.open,
        !post.people.profile_open,
        post.new_conv.selected@ == seq![pre.people.profile->0.id],
        post.new_conv.results@.len() == 1,
        post.new_conv.results@[0].id == pre.people.profile->0.id,
        post.new_conv.results@[0].username == pre.people.profile->0.username,
        post.new_conv.results@[0].display_name == pre.people.profile->0.display_name,
        post.new_conv.results@[0].domain == pre.people.profile->0.domain,
{
}

/// The settings open with the accent in use, unless another one is being typed.
pub proof fn settings_show_the_accent(pre: AppState, now: u64, post: AppState, acts: Seq<Action>)
    requires
        step(pre, Msg::Profile(ProfileMsg::ToggleSettings), now, post, acts),
    ensures
        !pre.people.settings_open && pre.people.accent_hex_input@.len() == 0
            ==> post.people.accent_hex_input@ == hex_colour(pre.people.accent),
        pre.people.accent_hex_input@.len() > 0 ==> post.people.accent_hex_input
            == pre.people.accent_hex_input,
        post.people.accent == pre.people.accent,
{
}

} // verus!
