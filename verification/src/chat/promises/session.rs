//! Logging in: what is typed, where an account is led, and what is kept.

use vstd::prelude::*;

use crate::chat::action::{Action, Api, VoiceCommand};
use crate::chat::msg::{AuthMsg, Msg};
use crate::chat::start::{accent_in, is_fresh};
use crate::chat::state::AppState;
use crate::chat::types::{Rgb, Screen, TwoFaSetupInfo, User};
use crate::chat::update::step;
use crate::colour::{colour_round_trip, hex_colour};
use crate::json::json_text;

verus! {

/// What is typed into a form stands in its field, and no other field changes.
pub proof fn forms_keep_what_is_typed(
    pre: AppState,
    m: AuthMsg,
    s: String,
    now: u64,
    post: AppState,
    acts: Seq<Action>,
)
    requires
        step(pre, Msg::Auth(m), now, post, acts),
    ensures
        m == AuthMsg::LoginEmailChanged(s) ==> post.form.login_email == s
            && post.form.login_password == pre.form.login_password && post.session == pre.session,
        m == AuthMsg::LoginPasswordChanged(s) ==> post.form.login_password == s
            && post.form.login_email == pre.form.login_email && post.session == pre.session,
        m == AuthMsg::LoginServerChanged(s) ==> post.session.server == s && post.form == pre.form,
        m == AuthMsg::RegisterEmailChanged(s) ==> post.form.register_email == s
            && post.form.register_username == pre.form.register_username
            && post.form.register_password == pre.form.register_password,
        m == AuthMsg::RegisterUsernameChanged(s) ==> post.form.register_username == s
            && post.form.register_email == pre.form.register_email && post.form.register_password
            == pre.form.register_password,
        m == AuthMsg::RegisterPasswordChanged(s) ==> post.form.register_password == s
            && post.form.register_email == pre.form.register_email && post.form.register_username
            == pre.form.register_username,
        m == AuthMsg::RegisterBirthdateChanged(s) ==> post.form.register_birthdate == s
            && post.form.register_email == pre.form.register_email && post.form.register_username
            == pre.form.register_username,
        m == AuthMsg::TwoFaCodeChanged(s) ==> post.form.twofa_code == s && post.form.verify_code
            == pre.form.verify_code,
        m == AuthMsg::VerifyCodeChanged(s) ==> post.form.verify_code == s && post.form.twofa_code
            == pre.form.twofa_code,
        m == AuthMsg::TwoFaCodeInput(s) ==> post.session.twofa_toggle_code == s,
        m matches AuthMsg::RememberMeChanged(b) ==> post.session.remember_me == b,
        m matches AuthMsg::ShowRegister(b) ==> post.session.screen == if b {
            Screen::Register
        } else {
            Screen::Login
        },
{
}

/// What is submitted is what was typed, and the last error is gone.
pub proof fn forms_send_what_was_typed(
    pre: AppState,
    m: AuthMsg,
    now: u64,
    post: AppState,
    acts: Seq<Action>,
)
    requires
        step(pre, Msg::Auth(m), now, post, acts),
    ensures
        m == AuthMsg::LoginSubmit ==> acts == seq![
            Action::Call(
                Api::Login {
                    email: pre.form.login_email,
                    password: pre.form.login_password,
                    remember_me: pre.session.remember_me,
                },
            ),
        ] && post.session.error@.len() == 0 && post.session.auth_busy,
        m == AuthMsg::RegisterSubmit ==> acts == seq![
            Action::Call(
                Api::Register {
                    email: pre.form.register_email,
                    username: pre.form.register_username,
                    password: pre.form.register_password,
                    birthdate: pre.form.register_birthdate,
                },
            ),
        ] && post.session.error@.len() == 0 && post.session.auth_busy,
        m == AuthMsg::TwoFaSubmit && pre.session.pending_token is Some ==> acts.len() == 1 && (
        acts[0] matches Action::Call(Api::LoginTwoFa { pending_token, code, remember_me })
            && pending_token@ == pre.session.pending_token->0@ && code == pre.form.twofa_code
            && remember_me == pre.session.remember_me),
        m == AuthMsg::VerifySubmit ==> acts == seq![
            Action::Call(Api::Verify { code: pre.form.verify_code }),
        ],
        m == AuthMsg::TwoFaSetup ==> acts == seq![Action::Call(Api::TwoFaSetup)],
        m == AuthMsg::TwoFaEnable ==> acts == seq![
            Action::Call(Api::TwoFaEnable { code: pre.session.twofa_toggle_code }),
        ],
{
}

/// An account that logs in or registers is led by what is missing: an address that is not verified
/// first, then a second factor, and with both the chat opens and its conversations are loaded. The
/// session is the one that the server gave.
pub proof fn accounts_are_led_by_what_is_missing(
    pre: AppState,
    m: AuthMsg,
    token: String,
    user: User,
    now: u64,
    post: AppState,
    acts: Seq<Action>,
)
    requires
        m == AuthMsg::LoginResult(Ok((token, user))) || m == AuthMsg::RegisterResult(
            Ok((token, user)),
        ),
        step(pre, Msg::Auth(m), now, post, acts),
    ensures
        post.session.token == Some(token),
        post.session.user == Some(user),
        !post.session.auth_busy,
        !user.email_verified <==> post.session.screen == Screen::Verify,
        user.email_verified && !user.totp_enabled <==> post.session.screen == Screen::TwoFaSetup,
        user.email_verified && user.totp_enabled <==> post.session.screen == Screen::Chat,
        user.email_verified && user.totp_enabled ==> acts.len() > 0 && acts.last() == Action::Call(
            Api::LoadConversations,
        ),
        user.email_verified && !user.totp_enabled ==> acts.len() > 0 && acts.last() == Action::Done(
            Msg::Auth(AuthMsg::TwoFaSetup),
        ),
        forall|i: int|
            0 <= i < acts.len() && (#[trigger] acts[i]) == Action::Call(Api::LoadConversations) ==> (
            user.email_verified && user.totp_enabled),
{
}

/// A new session is kept for the next start just where the user asked for that; what is kept is the
/// server and the token of that session.
pub proof fn sessions_are_kept_on_request(
    pre: AppState,
    m: AuthMsg,
    token: String,
    user: User,
    now: u64,
    post: AppState,
    acts: Seq<Action>,
)
    requires
        m == AuthMsg::LoginResult(Ok((token, user))) || m == AuthMsg::RegisterResult(
            Ok((token, user)),
        ) || m == AuthMsg::TwoFaResult(Ok((token, user))),
        step(pre, Msg::Auth(m), now, post, acts),
    ensures
        pre.session.remember_me && pre.session.server@.len() > 0 && token@.len() > 0
            ==> acts.contains(Action::SaveSession { server: pre.session.server, token }),
        !pre.session.remember_me ==> forall|i: int|
            0 <= i < acts.len() ==> !((#[trigger] acts[i]) is SaveSession),
        forall|i: int|
            0 <= i < acts.len() && (#[trigger] acts[i]) is SaveSession ==> acts[i]
                == (Action::SaveSession { server: pre.session.server, token }),
{
    if pre.session.remember_me && pre.session.server@.len() > 0 && token@.len() > 0 {
        assert(acts[0] == Action::SaveSession { server: pre.session.server, token });
    }
}

/// A kept session that still holds is taken up again with its own server and token; one that does
/// not changes nothing.
pub proof fn kept_sessions_are_taken_up(
    pre: AppState,
    server: String,
    token: String,
    user: User,
    now: u64,
    post: AppState,
    acts: Seq<Action>,
)
    requires
        step(pre, Msg::Auth(AuthMsg::SessionRestored(Some((server, token, user)))), now, post, acts),
    ensures
        post.session.server == server,
        post.session.token == Some(token),
        post.session.user == Some(user),
        user.totp_enabled ==> post.session.screen == Screen::Chat && acts == seq![
            Action::Call(Api::LoadConversations),
        ],
        !user.totp_enabled ==> post.session.screen == Screen::TwoFaSetup && acts == seq![
            Action::Done(Msg::Auth(AuthMsg::TwoFaSetup)),
        ],
{
}

/// Without a kept session the start changes nothing.
pub proof fn nothing_kept_nothing_taken_up(pre: AppState, now: u64, post: AppState, acts: Seq<Action>)
    requires
        step(pre, Msg::Auth(AuthMsg::SessionRestored(None)), now, post, acts),
    ensures
        post == pre,
        acts.len() == 0,
{
}

/// A login that needs a second factor asks for it, and the code that is given goes with the token of
/// that login; an accepted code opens the chat.
pub proof fn second_factors_are_asked_for(
    pre: AppState,
    pending: String,
    now: u64,
    mid: AppState,
    a: Seq<Action>,
    sent: AppState,
    b: Seq<Action>,
    token: String,
    user: User,
    post: AppState,
    acts: Seq<Action>,
)
    requires
        step(pre, Msg::Auth(AuthMsg::LoginNeeds2fa(pending)), now, mid, a),
        step(mid, Msg::Auth(AuthMsg::TwoFaSubmit), now, sent, b),
        step(sent, Msg::Auth(AuthMsg::TwoFaResult(Ok((token, user)))), now, post, acts),
    ensures
        mid.session.screen == Screen::TwoFa,
        mid.session.token == pre.session.token,
        b.len() == 1 && (b[0] matches Action::Call(Api::LoginTwoFa { pending_token, code, remember_me })
            && pending_token@ == pending@),
        post.session.screen == Screen::Chat,
        post.session.token == Some(token),
        post.session.user == Some(user),
        acts.last() == Action::Call(Api::LoadConversations),
{
}

/// An address that was verified leads on: to the second factor where there is none, else to the chat.
pub proof fn verified_accounts_go_on(
    pre: AppState,
    user: User,
    now: u64,
    post: AppState,
    acts: Seq<Action>,
)
    requires
        step(pre, Msg::Auth(AuthMsg::VerifyResult(Ok(user))), now, post, acts),
    ensures
        post.session.user == Some(user),
        post.session.token == pre.session.token,
        user.totp_enabled ==> post.session.screen == Screen::Chat && acts == seq![
            Action::Call(Api::LoadConversations),
        ],
        !user.totp_enabled ==> post.session.screen == Screen::TwoFaSetup && acts == seq![
            Action::Done(Msg::Auth(AuthMsg::TwoFaSetup)),
        ],
{
}

/// A second factor is set up with what the server gave, and once it is on the chat opens for those
/// who came to set it up.
pub proof fn second_factors_are_set_up(
    pre: AppState,
    info: TwoFaSetupInfo,
    now: u64,
    mid: AppState,
    a: Seq<Action>,
    user: User,
    post: AppState,
    acts: Seq<Action>,
)
    requires
        step(pre, Msg::Auth(AuthMsg::TwoFaSetupResult(Ok(info))), now, mid, a),
        step(mid, Msg::Auth(AuthMsg::TwoFaToggleResult(Ok(user))), now, post, acts),
    ensures
        mid.session.twofa_setup == Some(info),
        !mid.session.twofa_busy,
        post.session.user == Some(user),
        post.session.twofa_setup is None,
        post.session.twofa_toggle_code@.len() == 0,
        pre.session.screen == Screen::TwoFaSetup ==> post.session.screen == Screen::Chat && acts
            == seq![Action::Call(Api::LoadConversations)],
        pre.session.screen != Screen::TwoFaSetup ==> post.session.screen == pre.session.screen
            && acts.len() == 0,
{
}

/// A login that fails is told why, and nothing else happens.
pub proof fn failed_logins_are_told_why(
    pre: AppState,
    e: String,
    now: u64,
    post: AppState,
    acts: Seq<Action>,
)
    requires
        step(pre, Msg::Auth(AuthMsg::LoginResult(Err(e))), now, post, acts),
    ensures
        post.session.error == e,
        !post.session.auth_busy,
        post.session.token == pre.session.token,
        post.session.screen == pre.session.screen,
        acts.len() == 0,
{
}

/// Any other error is shown as it is, and leaves the session alone.
pub proof fn errors_are_shown(pre: AppState, e: String, now: u64, post: AppState, acts: Seq<Action>)
    requires
        step(pre, Msg::Error(e), now, post, acts),
        e@ != "__auth_failed__"@,
    ensures
        post.session.error == e,
        post.session.token == pre.session.token,
        post.session.screen == pre.session.screen,
        post.chats == pre.chats,
        acts.len() == 0,
{
}

/// A session that is over is ended with its reason: the user is back at the login, the voice channel
/// is left, and the kept session is forgotten.
pub proof fn ended_sessions_leave_the_call(
    pre: AppState,
    reason: String,
    now: u64,
    post: AppState,
    acts: Seq<Action>,
)
    requires
        step(pre, Msg::Auth(AuthMsg::SessionExpired(reason)), now, post, acts),
    ensures
        post.session.screen == Screen::Login,
        post.session.token is None,
        post.session.user is None,
        post.session.error == reason,
        acts.contains(Action::ForgetSession),
        pre.links.voice_ready ==> acts.contains(Action::Voice(VoiceCommand::Leave)),
        !post.links.voice_panel_open,
        !post.links.ws_ready,
        !post.files.p2p_ready,
{
    assert(acts.last() == Action::ForgetSession);
    if pre.links.voice_ready {
        assert(acts[0] == Action::Voice(VoiceCommand::Leave));
    }
}

/// A client that was started is at the login, with no session and nothing to show, and keeps sessions.
pub proof fn clients_begin_at_the_login(s: AppState, now: u64, accent: Rgb, cache_dir: String)
    requires
        is_fresh(s, now, accent, cache_dir),
    ensures
        s.session.screen is Login && s.session.token is None && s.session.user is None,
        s.session.remember_me && !s.session.auth_busy && s.session.error@.len() == 0,
        s.chats.conversations@.len() == 0 && s.chats.messages@.len() == 0
            && s.chats.selected_conversation is None && s.chats.draft@.len() == 0,
        s.guilds.guilds@.len() == 0 && s.guilds.selected_guild is None && s.guilds.left_tab is Dms,
        forall|id: u64| !(#[trigger] s.chats.unread@.contains_key(id)),
        !s.files.p2p_ready && !s.links.ws_ready && !s.links.voice_ready && !s.links.ws_connected,
        s.people.accent == accent && s.files.cache_dir == cache_dir,
        s.menus.context_menu_msg is None && s.menus.conv_menu_conv is None,
{
}

/// The accent that was kept is the accent that is used; without one there is a default.
pub proof fn accents_are_read_back(settings: Seq<char>, c: Rgb)
    ensures
        json_text(settings, "/accent"@) == Some(hex_colour(c)) ==> accent_in(settings) == c,
        json_text(settings, "/accent"@) is None ==> accent_in(settings) == (Rgb { r: 125, g: 92, b: 224 }),
{
    colour_round_trip(c);
}

/// Once a login leads to the chat the socket counts as connected, and not before; the settings have
/// the name of the account.
pub proof fn chats_open_connected(
    pre: AppState,
    token: String,
    user: User,
    now: u64,
    post: AppState,
    acts: Seq<Action>,
)
    requires
        step(pre, Msg::Auth(AuthMsg::LoginResult(Ok((token, user)))), now, post, acts),
    ensures
        post.session.screen is Chat ==> post.links.ws_connected,
        !(post.session.screen is Chat) ==> post.links == pre.links,
        post.people.display_name_input == user.display_name,
        post.chats == pre.chats && post.guilds == pre.guilds,
{
}

} // verus!
