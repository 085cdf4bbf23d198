//! Logging in and out.
//!
//! A second factor is mandatory: an account without one is led to set it up before it sees a chat.

use vstd::prelude::*;

use crate::assoc::Assoc;
use crate::chat::action::{no_actions, one_action, Action, Api, VoiceCommand};
use crate::chat::msg::{AuthMsg, Msg};
use crate::chat::state::{
    api_error_step, AppState, Chats, Files, Frame, Guilds, Links, LoginForm, People,
    Session,
};
use crate::chat::types::{LeftTab, OwnFile, Screen, User};
use crate::text::{copy_text, or_empty, text_or_empty};
use crate::voice::VoiceVideoKind;

verus! {

/// The screen that an account is led to: first its address has to be verified, then a second
/// factor has to be set up.
pub open spec fn entry_screen(verified: bool, second_factor: bool) -> Screen {
    if !verified {
        Screen::Verify
    } else if !second_factor {
        Screen::TwoFaSetup
    } else {
        Screen::Chat
    }
}

/// What is asked for on the way to that screen.
pub open spec fn entry_actions(screen: Screen) -> Seq<Action> {
    match screen {
        Screen::Chat => seq![Action::Call(Api::LoadConversations)],
        Screen::TwoFaSetup => seq![Action::Done(Msg::Auth(AuthMsg::TwoFaSetup))],
        _ => Seq::empty(),
    }
}

/// A session is kept for the next start where the user wants that and there is one.
pub open spec fn kept(session: Session, token: String) -> Seq<Action> {
    if session.remember_me && session.server@.len() > 0 && token@.len() > 0 {
        seq![Action::SaveSession { server: session.server, token }]
    } else {
        Seq::empty()
    }
}

/// The socket counts as connected once the chat opens.
pub open spec fn chat_links(links: Links, screen: Screen) -> Links {
    if screen == Screen::Chat {
        Links { ws_connected: true, ..links }
    } else {
        links
    }
}

pub open spec fn login_ok_step(
    pre: AppState,
    token: String,
    user: User,
    post: AppState,
    acts: Seq<Action>,
) -> bool {
    let screen = entry_screen(user.email_verified, user.totp_enabled);
    &&& post == (AppState {
        session: Session {
            auth_busy: false,
            token: Some(token),
            user: Some(user),
            screen,
            ..pre.session
        },
        people: People { display_name_input: user.display_name, ..pre.people },
        links: chat_links(pre.links, screen),
        ..pre
    })
    &&& acts == kept(pre.session, token) + entry_actions(screen)
}

pub open spec fn restored_step(
    pre: AppState,
    server: String,
    token: String,
    user: User,
    post: AppState,
    acts: Seq<Action>,
) -> bool {
    let screen = entry_screen(true, user.totp_enabled);
    &&& post == (AppState {
        session: Session {
            server,
            token: Some(token),
            user: Some(user),
            screen,
            ..pre.session
        },
        people: People { display_name_input: user.display_name, ..pre.people },
        links: chat_links(pre.links, screen),
        ..pre
    })
    &&& acts == entry_actions(screen)
}

pub open spec fn register_ok_step(
    pre: AppState,
    token: String,
    user: User,
    post: AppState,
    acts: Seq<Action>,
) -> bool {
    let screen = entry_screen(user.email_verified, user.totp_enabled);
    &&& post == (AppState {
        session: Session {
            auth_busy: false,
            token: Some(token),
            user: Some(user),
            screen,
            ..pre.session
        },
        ..pre
    })
    &&& acts == kept(pre.session, token) + entry_actions(screen)
}

/// A request is under way and the last error is gone.
pub open spec fn submitted(pre: AppState, post: AppState) -> bool {
    &&& post == (AppState {
        session: Session { error: post.session.error, auth_busy: true, ..pre.session },
        ..pre
    })
    &&& post.session.error@.len() == 0
}

/// Everything that belongs to the session is gone, but for the error that is shown.
pub open spec fn logged_out(pre: AppState, post: AppState) -> bool {
    &&& post.session == (Session {
        token: None,
        user: None,
        screen: Screen::Login,
        auth_busy: false,
        error: post.session.error,
        ..pre.session
    })
    &&& post.chats == (Chats {
        conversations: post.chats.conversations,
        messages: post.chats.messages,
        selected_conversation: None,
        busy: false,
        loading_messages: false,
        ..pre.chats
    })
    &&& post.chats.conversations@.len() == 0
    &&& post.chats.messages@.len() == 0
    &&& post.files == (Files {
        pending_attachment: None,
        own_files: post.files.own_files,
        own_full: post.files.own_full,
        p2p_status: post.files.p2p_status,
        preview_loading: post.files.preview_loading,
        p2p_ready: false,
        picking_file: false,
        ..pre.files
    })
    &&& post.files.own_files@ == Map::<Seq<char>, OwnFile>::empty()
    &&& post.files.own_full@ == Map::<Seq<char>, Vec<u8>>::empty()
    &&& post.files.p2p_status@ == Map::<Seq<char>, String>::empty()
    &&& post.files.preview_loading@ == Map::<Seq<char>, ()>::empty()
    &&& post.people == (People { avatar_busy: false, ..pre.people })
    &&& post.guilds == (Guilds {
        left_tab: LeftTab::Dms,
        guilds: post.guilds.guilds,
        selected_guild: None,
        ..pre.guilds
    })
    &&& post.guilds.guilds@.len() == 0
    &&& post == (AppState {
        session: post.session,
        chats: post.chats,
        files: post.files,
        people: post.people,
        guilds: post.guilds,
        links: post.links,
        ..pre
    })
}

pub open spec fn expired_step(
    pre: AppState,
    reason: String,
    post: AppState,
    acts: Seq<Action>,
) -> bool {
    &&& logged_out(pre, post)
    &&& post.session.error == reason
    &&& post.links == (Links {
        ws_ready: false,
        voice_frames: post.links.voice_frames,
        voice_panel_open: false,
        ..pre.links
    })
    &&& post.links.voice_frames@ == Map::<(u64, VoiceVideoKind), Frame>::empty()
    &&& acts == if pre.links.voice_ready {
        seq![Action::Voice(VoiceCommand::Leave), Action::ForgetSession]
    } else {
        seq![Action::ForgetSession]
    }
}

pub open spec fn auth_step(pre: AppState, msg: AuthMsg, post: AppState, acts: Seq<Action>) -> bool {
    match msg {
        AuthMsg::LoginEmailChanged(s) => post == (AppState {
            form: LoginForm { login_email: s, ..pre.form },
            ..pre
        }) && acts.len() == 0,
        AuthMsg::LoginPasswordChanged(s) => post == (AppState {
            form: LoginForm { login_password: s, ..pre.form },
            ..pre
        }) && acts.len() == 0,
        AuthMsg::LoginServerChanged(s) => post == (AppState {
            session: Session { server: s, ..pre.session },
            ..pre
        }) && acts.len() == 0,
        AuthMsg::RememberMeChanged(b) => post == (AppState {
            session: Session { remember_me: b, ..pre.session },
            ..pre
        }) && acts.len() == 0,
        AuthMsg::LoginSubmit => submitted(pre, post) && acts == seq![
            Action::Call(
                Api::Login {
                    email: pre.form.login_email,
                    password: pre.form.login_password,
                    remember_me: pre.session.remember_me,
                },
            ),
        ],
        AuthMsg::LoginResult(Ok((token, user))) => login_ok_step(pre, token, user, post, acts),
        AuthMsg::LoginResult(Err(e)) => post == (AppState {
            session: Session { auth_busy: false, error: e, ..pre.session },
            ..pre
        }) && acts.len() == 0,
        AuthMsg::SessionRestored(Some((server, token, user))) => restored_step(
            pre,
            server,
            token,
            user,
            post,
            acts,
        ),
        AuthMsg::SessionRestored(None) => post == pre && acts.len() == 0,
        AuthMsg::LoginNeeds2fa(pending) => post == (AppState {
            session: Session {
                pending_token: Some(pending),
                screen: Screen::TwoFa,
                ..pre.session
            },
            ..pre
        }) && acts.len() == 0,
        AuthMsg::ShowRegister(b) => post == (AppState {
            session: Session {
                screen: if b {
                    Screen::Register
                } else {
                    Screen::Login
                },
                ..pre.session
            },
            ..pre
        }) && acts.len() == 0,
        AuthMsg::RegisterEmailChanged(s) => post == (AppState {
            form: LoginForm { register_email: s, ..pre.form },
            ..pre
        }) && acts.len() == 0,
        AuthMsg::RegisterUsernameChanged(s) => post == (AppState {
            form: LoginForm { register_username: s, ..pre.form },
            ..pre
        }) && acts.len() == 0,
        AuthMsg::RegisterPasswordChanged(s) => post == (AppState {
            form: LoginForm { register_password: s, ..pre.form },
            ..pre
        }) && acts.len() == 0,
        AuthMsg::RegisterBirthdateChanged(s) => post == (AppState {
            form: LoginForm { register_birthdate: s, ..pre.form },
            ..pre
        }) && acts.len() == 0,
        AuthMsg::RegisterSubmit => submitted(pre, post) && acts == seq![
            Action::Call(
                Api::Register {
                    email: pre.form.register_email,
                    username: pre.form.register_username,
                    password: pre.form.register_password,
                    birthdate: pre.form.register_birthdate,
                },
            ),
        ],
        AuthMsg::RegisterResult(Ok((token, user))) => register_ok_step(
            pre,
            token,
            user,
            post,
            acts,
        ),
        AuthMsg::RegisterResult(Err(e)) => api_error_step(
            AppState { session: Session { auth_busy: false, ..pre.session }, ..pre },
            e,
            post,
            acts,
        ),
        AuthMsg::TwoFaCodeChanged(s) => post == (AppState {
            form: LoginForm { twofa_code: s, ..pre.form },
            ..pre
        }) && acts.len() == 0,
        AuthMsg::TwoFaSubmit => {
            &&& submitted(pre, post)
            &&& acts.len() == 1
            &&& acts[0] matches Action::Call(Api::LoginTwoFa { pending_token, code, remember_me })
            &&& pending_token@ == or_empty(pre.session.pending_token)
            &&& code == pre.form.twofa_code
            &&& remember_me == pre.session.remember_me
        },
        AuthMsg::TwoFaResult(Ok((token, user))) => post == (AppState {
            session: Session {
                auth_busy: false,
                token: Some(token),
                user: Some(user),
                screen: Screen::Chat,
                ..pre.session
            },
            ..pre
        }) && acts == kept(pre.session, token) + entry_actions(Screen::Chat),
        AuthMsg::TwoFaResult(Err(e)) => api_error_step(
            AppState { session: Session { auth_busy: false, ..pre.session }, ..pre },
            e,
            post,
            acts,
        ),
        AuthMsg::VerifyCodeChanged(s) => post == (AppState {
            form: LoginForm { verify_code: s, ..pre.form },
            ..pre
        }) && acts.len() == 0,
        AuthMsg::VerifySubmit => submitted(pre, post) && acts == seq![
            Action::Call(Api::Verify { code: pre.form.verify_code }),
        ],
        AuthMsg::VerifyResult(Ok(user)) => {
            let screen = entry_screen(true, user.totp_enabled);
            post == (AppState {
                session: Session { auth_busy: false, user: Some(user), screen, ..pre.session },
                ..pre
            }) && acts == entry_actions(screen)
        },
        AuthMsg::VerifyResult(Err(e)) => api_error_step(pre, e, post, acts),
        AuthMsg::TwoFaSetup => post == (AppState {
            session: Session { twofa_busy: true, ..pre.session },
            ..pre
        }) && acts == seq![Action::Call(Api::TwoFaSetup)],
        AuthMsg::TwoFaSetupResult(Ok(info)) => post == (AppState {
            session: Session { twofa_busy: false, twofa_setup: Some(info), ..pre.session },
            ..pre
        }) && acts.len() == 0,
        AuthMsg::TwoFaSetupResult(Err(e)) => api_error_step(
            AppState { session: Session { twofa_busy: false, ..pre.session }, ..pre },
            e,
            post,
            acts,
        ),
        AuthMsg::TwoFaEnable => post == (AppState {
            session: Session { twofa_busy: true, ..pre.session },
            ..pre
        }) && acts == seq![
            Action::Call(Api::TwoFaEnable { code: pre.session.twofa_toggle_code }),
        ],
        AuthMsg::TwoFaToggleResult(Ok(user)) => {
            let entering = pre.session.screen == Screen::TwoFaSetup;
            &&& post == (AppState {
                session: Session {
                    twofa_busy: false,
                    twofa_setup: None,
                    twofa_toggle_code: post.session.twofa_toggle_code,
                    user: Some(user),
                    info: post.session.info,
                    screen: if entering {
                        Screen::Chat
                    } else {
                        pre.session.screen
                    },
                    ..pre.session
                },
                ..pre
            })
            &&& post.session.twofa_toggle_code@.len() == 0
            &&& post.session.info@ == "Two-factor authentication enabled"@
            &&& acts == if entering {
                entry_actions(Screen::Chat)
            } else {
                Seq::empty()
            }
        },
        AuthMsg::TwoFaToggleResult(Err(e)) => api_error_step(
            AppState { session: Session { twofa_busy: false, ..pre.session }, ..pre },
            e,
            post,
            acts,
        ),
        AuthMsg::TwoFaCodeInput(s) => post == (AppState {
            session: Session { twofa_toggle_code: s, ..pre.session },
            ..pre
        }) && acts.len() == 0,
        AuthMsg::Logout => {
            &&& logged_out(pre, post)
            &&& post.session.error == pre.session.error
            &&& post.links == (Links { ws_ready: false, ..pre.links })
            &&& acts == seq![Action::ForgetSession]
        },
        AuthMsg::SessionExpired(reason) => expired_step(pre, reason, post, acts),
    }
}

fn entry(screen: Screen) -> (acts: Vec<Action>)
    ensures
        acts@ == entry_actions(screen),
{
    match screen {
        Screen::Chat => one_action(Action::Call(Api::LoadConversations)),
        Screen::TwoFaSetup => one_action(Action::Done(Msg::Auth(AuthMsg::TwoFaSetup))),
        _ => no_actions(),
    }
}

fn entry_of(verified: bool, second_factor: bool) -> (screen: Screen)
    ensures
        screen == entry_screen(verified, second_factor),
{
    if !verified {
        Screen::Verify
    } else if !second_factor {
        Screen::TwoFaSetup
    } else {
        Screen::Chat
    }
}

impl AppState {
    fn keep_session(&self, token: &String, mut rest: Vec<Action>) -> (acts: Vec<Action>)
        ensures
            acts@ == kept(self.session, *token) + rest@,
    {
        let mut acts = no_actions();
        if self.session.remember_me && !self.session.server.as_str().is_empty()
            && !token.as_str().is_empty() {
            acts.push(
                Action::SaveSession { server: self.session.server.clone(), token: token.clone() },
            );
        }
        proof {
            assert(acts@ =~= kept(self.session, *token));
        }
        acts.append(&mut rest);
        acts
    }

    fn submit(&mut self)
        ensures
            submitted(*old(self), *final(self)),
    {
        self.session.error = String::new();
        self.session.auth_busy = true;
    }

    fn drop_session(&mut self)
        ensures
            logged_out(*old(self), *final(self)),
            final(self).session.error == old(self).session.error,
            final(self).links == (Links { ws_ready: false, ..old(self).links }),
    {
        self.session.token = None;
        self.session.user = None;
        self.session.screen = Screen::Login;
        self.chats.conversations = Vec::new();
        self.chats.messages = Vec::new();
        self.chats.selected_conversation = None;
        self.files.pending_attachment = None;
        self.files.own_files = Assoc::new();
        self.files.own_full = Assoc::new();
        self.files.p2p_status = Assoc::new();
        self.links.ws_ready = false;
        self.files.p2p_ready = false;
        self.chats.busy = false;
        self.chats.loading_messages = false;
        self.session.auth_busy = false;
        self.people.avatar_busy = false;
        self.files.picking_file = false;
        self.files.preview_loading = Assoc::new();
        self.guilds.left_tab = LeftTab::Dms;
        self.guilds.guilds = Vec::new();
        self.guilds.selected_guild = None;
    }

    fn login_ok(&mut self, token: String, user: User) -> (acts: Vec<Action>)
        ensures
            login_ok_step(*old(self), token, user, *final(self), acts@),
    {
        self.session.auth_busy = false;
        let screen = entry_of(user.email_verified, user.totp_enabled);
        let acts = self.keep_session(&token, entry(screen));
        self.session.token = Some(token);
        self.people.display_name_input = user.display_name.clone();
        self.session.user = Some(user);
        self.session.screen = screen;
        if screen == Screen::Chat {
            self.links.ws_connected = true;
        }
        acts
    }

    fn session_restored(&mut self, server: String, token: String, user: User) -> (acts: Vec<Action>)
        ensures
            restored_step(*old(self), server, token, user, *final(self), acts@),
    {
        self.session.server = server;
        self.session.token = Some(token);
        self.people.display_name_input = user.display_name.clone();
        let screen = entry_of(true, user.totp_enabled);
        self.session.user = Some(user);
        self.session.screen = screen;
        if screen == Screen::Chat {
            self.links.ws_connected = true;
        }
        entry(screen)
    }

    fn register_ok(&mut self, token: String, user: User) -> (acts: Vec<Action>)
        ensures
            register_ok_step(*old(self), token, user, *final(self), acts@),
    {
        self.session.auth_busy = false;
        let screen = entry_of(user.email_verified, user.totp_enabled);
        let acts = self.keep_session(&token, entry(screen));
        self.session.token = Some(token);
        self.session.user = Some(user);
        self.session.screen = screen;
        acts
    }

    fn session_expired(&mut self, reason: String) -> (acts: Vec<Action>)
        ensures
            expired_step(*old(self), reason, *final(self), acts@),
    {
        let mut acts = no_actions();
        if self.links.voice_ready {
            acts.push(Action::Voice(VoiceCommand::Leave));
        }
        self.links.voice_frames = Assoc::new();
        self.links.voice_panel_open = false;
        self.drop_session();
        acts.push(Action::ForgetSession);
        self.session.error = reason;
        proof {
            assert(acts@ =~= if old(self).links.voice_ready {
                seq![Action::Voice(VoiceCommand::Leave), Action::ForgetSession]
            } else {
                seq![Action::ForgetSession]
            });
        }
        acts
    }

    pub fn update_auth(&mut self, msg: AuthMsg) -> (acts: Vec<Action>)
        ensures
            auth_step(*old(self), msg, *final(self), acts@),
    {
        match msg {
            AuthMsg::LoginEmailChanged(s) => {
                self.form.login_email = s;
                no_actions()
            },
            AuthMsg::LoginPasswordChanged(s) => {
                self.form.login_password = s;
                no_actions()
            },
            AuthMsg::LoginServerChanged(s) => {
                self.session.server = s;
                no_actions()
            },
            AuthMsg::RememberMeChanged(b) => {
                self.session.remember_me = b;
                no_actions()
            },
            AuthMsg::LoginSubmit => {
                self.submit();
                one_action(
                    Action::Call(
                        Api::Login {
                            email: self.form.login_email.clone(),
                            password: self.form.login_password.clone(),
                            remember_me: self.session.remember_me,
                        },
                    ),
                )
            },
            AuthMsg::LoginResult(Ok((token, user))) => self.login_ok(token, user),
            AuthMsg::LoginResult(Err(e)) => {
                self.session.auth_busy = false;
                self.session.error = e;
                no_actions()
            },
            AuthMsg::SessionRestored(Some((server, token, user))) => self.session_restored(
                server,
                token,
                user,
            ),
            AuthMsg::SessionRestored(None) => no_actions(),
            AuthMsg::LoginNeeds2fa(pending) => {
                self.session.pending_token = Some(pending);
                self.session.screen = Screen::TwoFa;
                no_actions()
            },
            AuthMsg::ShowRegister(b) => {
                self.session.screen = if b {
                    Screen::Register
                } else {
                    Screen::Login
                };
                no_actions()
            },
            AuthMsg::RegisterEmailChanged(s) => {
                self.form.register_email = s;
                no_actions()
            },
            AuthMsg::RegisterUsernameChanged(s) => {
                self.form.register_username = s;
                no_actions()
            },
            AuthMsg::RegisterPasswordChanged(s) => {
                self.form.register_password = s;
                no_actions()
            },
            AuthMsg::RegisterBirthdateChanged(s) => {
                self.form.register_birthdate = s;
                no_actions()
            },
            AuthMsg::RegisterSubmit => {
                self.submit();
                one_action(
                    Action::Call(
                        Api::Register {
                            email: self.form.register_email.clone(),
                            username: self.form.register_username.clone(),
                            password: self.form.register_password.clone(),
                            birthdate: self.form.register_birthdate.clone(),
                        },
                    ),
                )
            },
            AuthMsg::RegisterResult(Ok((token, user))) => self.register_ok(token, user),
            AuthMsg::RegisterResult(Err(e)) => {
                self.session.auth_busy = false;
                self.handle_api_error(e)
            },
            AuthMsg::TwoFaCodeChanged(s) => {
                self.form.twofa_code = s;
                no_actions()
            },
            AuthMsg::TwoFaSubmit => {
                self.submit();
                one_action(
                    Action::Call(
                        Api::LoginTwoFa {
                            pending_token: text_or_empty(&self.session.pending_token),
                            code: self.form.twofa_code.clone(),
                            remember_me: self.session.remember_me,
                        },
                    ),
                )
            },
            AuthMsg::TwoFaResult(Ok((token, user))) => {
                self.session.auth_busy = false;
                let acts = self.keep_session(&token, entry(Screen::Chat));
                self.session.token = Some(token);
                self.session.user = Some(user);
                self.session.screen = Screen::Chat;
                acts
            },
            AuthMsg::TwoFaResult(Err(e)) => {
                self.session.auth_busy = false;
                self.handle_api_error(e)
            },
            AuthMsg::VerifyCodeChanged(s) => {
                self.form.verify_code = s;
                no_actions()
            },
            AuthMsg::VerifySubmit => {
                self.submit();
                one_action(Action::Call(Api::Verify { code: self.form.verify_code.clone() }))
            },
            AuthMsg::VerifyResult(Ok(user)) => {
                self.session.auth_busy = false;
                let screen = entry_of(true, user.totp_enabled);
                self.session.user = Some(user);
                self.session.screen = screen;
                entry(screen)
            },
            AuthMsg::VerifyResult(Err(e)) => self.handle_api_error(e),
            AuthMsg::TwoFaSetup => {
                self.session.twofa_busy = true;
                one_action(Action::Call(Api::TwoFaSetup))
            },
            AuthMsg::TwoFaSetupResult(Ok(info)) => {
                self.session.twofa_busy = false;
                self.session.twofa_setup = Some(info);
                no_actions()
            },
            AuthMsg::TwoFaSetupResult(Err(e)) => {
                self.session.twofa_busy = false;
                self.handle_api_error(e)
            },
            AuthMsg::TwoFaEnable => {
                self.session.twofa_busy = true;
                one_action(
                    Action::Call(Api::TwoFaEnable { code: self.session.twofa_toggle_code.clone() }),
                )
            },
            AuthMsg::TwoFaToggleResult(Ok(user)) => {
                self.session.twofa_busy = false;
                self.session.twofa_setup = None;
                self.session.twofa_toggle_code = String::new();
                self.session.user = Some(user);
                self.session.info = copy_text("Two-factor authentication enabled");
                if self.session.screen == Screen::TwoFaSetup {
                    self.session.screen = Screen::Chat;
                    entry(Screen::Chat)
                } else {
                    no_actions()
                }
            },
            AuthMsg::TwoFaToggleResult(Err(e)) => {
                self.session.twofa_busy = false;
                self.handle_api_error(e)
            },
            AuthMsg::TwoFaCodeInput(s) => {
                self.session.twofa_toggle_code = s;
                no_actions()
            },
            AuthMsg::Logout => {
                self.drop_session();
                one_action(Action::ForgetSession)
            },
            AuthMsg::SessionExpired(reason) => self.session_expired(reason),
        }
    }
}

} // verus!
