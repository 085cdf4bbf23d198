//! What holds of the client whatever message comes in.

use vstd::prelude::*;

use crate::chat::action::{Action, Api};
use crate::chat::auth::auth_step;
use crate::chat::conv::conv_step;
use crate::chat::files::file_step;
use crate::chat::guild_admin::guild_admin_step;
use crate::chat::guilds::guild_step;
use crate::chat::lists::{has_msg, ids_stay_unique, removed_is_absent, unique_ids};
use crate::chat::msg::{
    AuthMsg, ConvMsg, FileMsg, GuildAdminMsg, GuildMsg, Msg, NewConvMsg, ProfileMsg, StickerMsg,
    VoiceMsg, WsHubEvent, WsMsg,
};
use crate::chat::new_conv::new_conv_step;
use crate::chat::people::profile_step;
use crate::chat::state::AppState;
use crate::chat::stickers::sticker_step;
use crate::chat::types::{ApiMsg, Screen, User};
use crate::chat::update::step;
use crate::chat::ws::{voice_step, ws_step};
use crate::text::trim;

verus! {

/// The session and the screen are what they were.
pub open spec fn session_kept(pre: AppState, post: AppState) -> bool {
    &&& post.session.token == pre.session.token
    &&& post.session.server == pre.session.server
    &&& post.session.screen == pre.session.screen
    &&& post.session.pending_token == pre.session.pending_token
    &&& post.form == pre.form
}

proof fn lemma_conv_keeps(pre: AppState, m: ConvMsg, now: u64, post: AppState, acts: Seq<Action>)
    requires
        conv_step(pre, m, now, post, acts),
    ensures
        session_kept(pre, post),
{
}

proof fn lemma_new_conv_keeps(pre: AppState, m: NewConvMsg, post: AppState, acts: Seq<Action>)
    requires
        new_conv_step(pre, m, post, acts),
    ensures
        session_kept(pre, post),
{
}

proof fn lemma_guild_keeps(pre: AppState, m: GuildMsg, post: AppState, acts: Seq<Action>)
    requires
        guild_step(pre, m, post, acts),
    ensures
        session_kept(pre, post),
{
}

proof fn lemma_guild_admin_keeps(pre: AppState, m: GuildAdminMsg, post: AppState, acts: Seq<Action>)
    requires
        guild_admin_step(pre, m, post, acts),
    ensures
        session_kept(pre, post),
{
}

proof fn lemma_sticker_keeps(pre: AppState, m: StickerMsg, post: AppState, acts: Seq<Action>)
    requires
        sticker_step(pre, m, post, acts),
    ensures
        session_kept(pre, post),
{
}

proof fn lemma_profile_keeps(pre: AppState, m: ProfileMsg, post: AppState, acts: Seq<Action>)
    requires
        profile_step(pre, m, post, acts),
    ensures
        session_kept(pre, post),
{
}

proof fn lemma_file_keeps(pre: AppState, m: FileMsg, post: AppState, acts: Seq<Action>)
    requires
        file_step(pre, m, post, acts),
    ensures
        session_kept(pre, post),
{
}

proof fn lemma_voice_keeps(pre: AppState, m: VoiceMsg, post: AppState, acts: Seq<Action>)
    requires
        voice_step(pre, m, post, acts),
    ensures
        session_kept(pre, post),
{
}

proof fn lemma_ws_keeps(pre: AppState, m: WsMsg, now: u64, post: AppState, acts: Seq<Action>)
    requires
        ws_step(pre, m, now, post, acts),
    ensures
        session_kept(pre, post),
{
}

/// Nothing but logging in and out touches the session, the screen or what was typed into the login
/// forms.
pub proof fn only_logins_touch_the_session(
    pre: AppState,
    msg: Msg,
    now: u64,
    post: AppState,
    acts: Seq<Action>,
)
    requires
        step(pre, msg, now, post, acts),
        !(msg is Auth),
    ensures
        session_kept(pre, post),
{
    match msg {
        Msg::Conv(m) => lemma_conv_keeps(pre, m, now, post, acts),
        Msg::NewConv(m) => lemma_new_conv_keeps(pre, m, post, acts),
        Msg::Guild(m) => lemma_guild_keeps(pre, m, post, acts),
        Msg::GuildAdmin(m) => lemma_guild_admin_keeps(pre, m, post, acts),
        Msg::Sticker(m) => lemma_sticker_keeps(pre, m, post, acts),
        Msg::Profile(m) => lemma_profile_keeps(pre, m, post, acts),
        Msg::File(m) => lemma_file_keeps(pre, m, post, acts),
        Msg::Voice(m) => lemma_voice_keeps(pre, m, post, acts),
        Msg::Ws(m) => lemma_ws_keeps(pre, m, now, post, acts),
        _ => {},
    }
}

/// The account that a message lets in without asking for its second factor.
pub open spec fn let_in(msg: Msg) -> Option<User> {
    match msg {
        Msg::Auth(AuthMsg::LoginResult(Ok((_, u)))) => Some(u),
        Msg::Auth(AuthMsg::RegisterResult(Ok((_, u)))) => Some(u),
        Msg::Auth(AuthMsg::SessionRestored(Some((_, _, u)))) => Some(u),
        Msg::Auth(AuthMsg::VerifyResult(Ok(u))) => Some(u),
        _ => None,
    }
}

/// The chat opens only for accounts that have a second factor, for those whose second factor the
/// server has just accepted, and for those that have just set one up.
pub proof fn second_factor_is_mandatory(
    pre: AppState,
    msg: Msg,
    now: u64,
    post: AppState,
    acts: Seq<Action>,
)
    requires
        step(pre, msg, now, post, acts),
        pre.session.screen != Screen::Chat,
        post.session.screen == Screen::Chat,
    ensures
        match msg {
            Msg::Auth(AuthMsg::TwoFaResult(Ok(_))) => true,
            Msg::Auth(AuthMsg::TwoFaToggleResult(Ok(_))) => pre.session.screen == Screen::TwoFaSetup,
            _ => let_in(msg) matches Some(u) && u.totp_enabled,
        },
{
    if !(msg is Auth) {
        only_logins_touch_the_session(pre, msg, now, post, acts);
    }
}

/// A request whose session the server does not take any more leads back to the login: the message
/// that it asks for leaves neither the session nor anything that was loaded by it, and lets the kept
/// session be forgotten.
pub proof fn dead_sessions_lead_to_the_login(
    pre: AppState,
    e: String,
    now: u64,
    mid: AppState,
    asked: Seq<Action>,
    post: AppState,
    acts: Seq<Action>,
)
    requires
        e@ == "__auth_failed__"@,
        step(pre, Msg::Error(e), now, mid, asked),
        asked.len() == 1 && (asked[0] matches Action::Done(m) ==> step(mid, m, now, post, acts)),
    ensures
        mid == pre,
        asked.len() == 1 && asked[0] is Done,
        post.session.screen == Screen::Login,
        post.session.token is None && post.session.user is None,
        post.chats.messages@.len() == 0 && post.chats.conversations@.len() == 0,
        post.guilds.guilds@.len() == 0,
        acts.contains(Action::ForgetSession),
{
    assert(acts.last() == Action::ForgetSession);
}

/// Logging out leaves nothing of the session, and lets the kept one be forgotten.
pub proof fn logout_leaves_nothing(pre: AppState, now: u64, post: AppState, acts: Seq<Action>)
    requires
        step(pre, Msg::Auth(AuthMsg::Logout), now, post, acts),
    ensures
        post.session.screen == Screen::Login,
        post.session.token is None && post.session.user is None,
        post.chats.messages@.len() == 0 && post.chats.conversations@.len() == 0,
        post.chats.selected_conversation is None,
        post.files.own_files@.dom() =~= Set::empty(),
        post.files.pending_attachment is None,
        acts == seq![Action::ForgetSession],
{
}

// ---------------------------------------------------------------------------
// Messages
// ---------------------------------------------------------------------------

/// The list of messages that a message replaces the shown one by.
pub open spec fn loaded(msg: Msg) -> Option<Seq<ApiMsg>> {
    match msg {
        Msg::Conv(ConvMsg::MessagesLoaded { messages: Ok(ms), .. }) => Some(ms@),
        _ => None,
    }
}

/// How the list of messages may change: not at all, by one message more, less or other, to nothing,
/// or to the list that was loaded.
pub open spec fn listed_once(pre: AppState, loaded: Option<Seq<ApiMsg>>, post: AppState) -> bool {
    unique_ids(pre.chats.messages@) && (loaded matches Some(ms) ==> unique_ids(ms)) ==> unique_ids(
        post.chats.messages@,
    )
}

proof fn lemma_conv_lists(pre: AppState, m: ConvMsg, now: u64, post: AppState, acts: Seq<Action>)
    requires
        conv_step(pre, m, now, post, acts),
    ensures
        listed_once(pre, loaded(Msg::Conv(m)), post),
{
    let msgs = pre.chats.messages@;
    if unique_ids(msgs) {
        match m {
            ConvMsg::MessageSent(Ok(x)) => ids_stay_unique(msgs, x, 0),
            ConvMsg::EditResult(Ok(x)) => ids_stay_unique(msgs, x, 0),
            ConvMsg::DeleteResult(id) => {
                if msgs.len() > 0 {
                    ids_stay_unique(msgs, msgs[0], id);
                }
            },
            _ => {},
        }
    }
}

proof fn lemma_ws_lists(pre: AppState, m: WsMsg, now: u64, post: AppState, acts: Seq<Action>)
    requires
        ws_step(pre, m, now, post, acts),
    ensures
        listed_once(pre, None, post),
{
    let msgs = pre.chats.messages@;
    if unique_ids(msgs) {
        match m {
            WsMsg::WsEvent(WsHubEvent::Message { message }) => ids_stay_unique(msgs, message, 0),
            WsMsg::WsEvent(WsHubEvent::MessageEdited { message }) => ids_stay_unique(
                msgs,
                message,
                0,
            ),
            WsMsg::WsEvent(WsHubEvent::MessageDeleted { message_id, .. }) => {
                if msgs.len() > 0 {
                    ids_stay_unique(msgs, msgs[0], message_id);
                }
            },
            _ => {},
        }
    }
}

proof fn lemma_auth_lists(pre: AppState, m: AuthMsg, post: AppState, acts: Seq<Action>)
    requires
        auth_step(pre, m, post, acts),
    ensures
        listed_once(pre, None, post),
{
}

proof fn lemma_new_conv_lists(pre: AppState, m: NewConvMsg, post: AppState, acts: Seq<Action>)
    requires
        new_conv_step(pre, m, post, acts),
    ensures
        listed_once(pre, None, post),
{
}

proof fn lemma_guild_lists(pre: AppState, m: GuildMsg, post: AppState, acts: Seq<Action>)
    requires
        guild_step(pre, m, post, acts),
    ensures
        listed_once(pre, None, post),
{
}

proof fn lemma_guild_admin_lists(pre: AppState, m: GuildAdminMsg, post: AppState, acts: Seq<Action>)
    requires
        guild_admin_step(pre, m, post, acts),
    ensures
        listed_once(pre, None, post),
{
}

proof fn lemma_sticker_lists(pre: AppState, m: StickerMsg, post: AppState, acts: Seq<Action>)
    requires
        sticker_step(pre, m, post, acts),
    ensures
        listed_once(pre, None, post),
{
}

proof fn lemma_profile_lists(pre: AppState, m: ProfileMsg, post: AppState, acts: Seq<Action>)
    requires
        profile_step(pre, m, post, acts),
    ensures
        listed_once(pre, None, post),
{
}

proof fn lemma_file_lists(pre: AppState, m: FileMsg, post: AppState, acts: Seq<Action>)
    requires
        file_step(pre, m, post, acts),
    ensures
        listed_once(pre, None, post),
{
}

proof fn lemma_voice_lists(pre: AppState, m: VoiceMsg, post: AppState, acts: Seq<Action>)
    requires
        voice_step(pre, m, post, acts),
    ensures
        listed_once(pre, None, post),
{
}

/// No message is ever shown twice, as long as the server lists none twice.
pub proof fn messages_are_shown_once(
    pre: AppState,
    msg: Msg,
    now: u64,
    post: AppState,
    acts: Seq<Action>,
)
    requires
        step(pre, msg, now, post, acts),
        unique_ids(pre.chats.messages@),
        loaded(msg) matches Some(ms) ==> unique_ids(ms),
    ensures
        unique_ids(post.chats.messages@),
{
    match msg {
        Msg::Auth(m) => lemma_auth_lists(pre, m, post, acts),
        Msg::Conv(m) => lemma_conv_lists(pre, m, now, post, acts),
        Msg::NewConv(m) => lemma_new_conv_lists(pre, m, post, acts),
        Msg::Guild(m) => lemma_guild_lists(pre, m, post, acts),
        Msg::GuildAdmin(m) => lemma_guild_admin_lists(pre, m, post, acts),
        Msg::Sticker(m) => lemma_sticker_lists(pre, m, post, acts),
        Msg::Profile(m) => lemma_profile_lists(pre, m, post, acts),
        Msg::File(m) => lemma_file_lists(pre, m, post, acts),
        Msg::Voice(m) => lemma_voice_lists(pre, m, post, acts),
        Msg::Ws(m) => lemma_ws_lists(pre, m, now, post, acts),
        _ => {},
    }
}

/// The message that a pushed event is about.
pub open spec fn pushed(message: ApiMsg) -> Msg {
    Msg::Ws(WsMsg::WsEvent(WsHubEvent::Message { message }))
}

/// A message in another conversation never gets into the one that is open; it counts as unread.
pub proof fn other_conversations_stay_out(
    pre: AppState,
    message: ApiMsg,
    now: u64,
    post: AppState,
    acts: Seq<Action>,
)
    requires
        step(pre, pushed(message), now, post, acts),
        pre.chats.selected_conversation != Some(message.conversation_id),
    ensures
        post.chats.messages == pre.chats.messages,
        post.chats.unread@.contains_key(message.conversation_id),
{
}

/// A message in the open conversation shows up, and does not count as unread.
pub proof fn open_conversation_shows_messages(
    pre: AppState,
    message: ApiMsg,
    now: u64,
    post: AppState,
    acts: Seq<Action>,
)
    requires
        step(pre, pushed(message), now, post, acts),
        pre.chats.selected_conversation == Some(message.conversation_id),
    ensures
        has_msg(post.chats.messages@, message.id),
        post.chats.unread == pre.chats.unread,
{
    if !has_msg(pre.chats.messages@, message.id) {
        let all = post.chats.messages@;
        assert(all[all.len() - 1].id == message.id);
    }
}

/// A deleted message of the open conversation is gone.
pub proof fn deleted_messages_are_gone(
    pre: AppState,
    conversation_id: u64,
    message_id: u64,
    now: u64,
    post: AppState,
    acts: Seq<Action>,
)
    requires
        step(
            pre,
            Msg::Ws(
                WsMsg::WsEvent(WsHubEvent::MessageDeleted { conversation_id, message_id }),
            ),
            now,
            post,
            acts,
        ),
        pre.chats.selected_conversation == Some(conversation_id),
    ensures
        !has_msg(post.chats.messages@, message_id),
{
    removed_is_absent(pre.chats.messages@, message_id);
}

/// With nothing written and nothing picked, sending does nothing.
pub proof fn empty_messages_are_not_sent(pre: AppState, now: u64, post: AppState, acts: Seq<Action>)
    requires
        step(pre, Msg::Conv(ConvMsg::SendMessage), now, post, acts),
        trim(pre.chats.draft@).len() == 0,
        pre.files.pending_attachment is None,
    ensures
        post == pre,
        acts.len() == 0,
{
}

/// Two announcements of the user's typing lie at least two seconds apart.
pub proof fn typing_is_not_announced_twice(
    s0: AppState,
    first: String,
    t1: u64,
    s1: AppState,
    a1: Seq<Action>,
    second: String,
    t2: u64,
    s2: AppState,
    a2: Seq<Action>,
)
    requires
        step(s0, Msg::Conv(ConvMsg::DraftChanged(first)), t1, s1, a1),
        step(s1, Msg::Conv(ConvMsg::DraftChanged(second)), t2, s2, a2),
        a1.len() > 0,
        a2.len() > 0,
    ensures
        t2 >= t1 + 2000,
{
}

/// A file that was picked goes with one message only.
pub proof fn picked_files_are_sent_once(pre: AppState, now: u64, post: AppState, acts: Seq<Action>)
    requires
        step(pre, Msg::Conv(ConvMsg::SendMessage), now, post, acts),
        pre.chats.selected_conversation is Some,
    ensures
        post.files.pending_attachment is None,
        pre.files.pending_attachment is Some ==> acts.last() matches Action::Call(
            Api::SendMessage { .. },
        ),
{
}

} // verus!
