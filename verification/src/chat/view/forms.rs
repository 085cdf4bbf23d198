//! The forms in front of the chat.

use vstd::prelude::*;

use crate::chat::msg::{AuthMsg, Msg};
use crate::chat::state::AppState;
use crate::chat::types::Screen;
use crate::chat::view::parts::{
    busy_press, if_any, is_busy_press, is_press, press, shown, Control,
};
use crate::data_url::{data_url_bytes, data_url_content};
use crate::text::{concat2, copy_text};

verus! {

/// The form to log in by, or to make an account by.
pub struct AuthView {
    pub subtitle: String,
    pub server: String,
    pub email: String,
    pub username: Option<String>,
    pub password: String,
    pub birthdate: Option<String>,
    /// Whether the session is to be kept; a new account has no such choice.
    pub remember: Option<bool>,
    /// What the return key sends.
    pub on_return: Msg,
    pub submit: Control,
    /// The way to the other form.
    pub toggle: Control,
    pub error: Option<String>,
}

pub open spec fn is_auth_view(v: AuthView, s: AppState) -> bool {
    let new = s.session.screen == Screen::Register;
    &&& v.server == s.session.server
    &&& v.error == if_any(s.session.error)
    &&& if new {
        &&& v.subtitle@ == "Create account"@
        &&& v.email == s.form.register_email
        &&& v.username == Some(s.form.register_username)
        &&& v.password == s.form.register_password
        &&& v.birthdate == Some(s.form.register_birthdate)
        &&& v.remember is None
        &&& v.on_return == Msg::Auth(AuthMsg::RegisterSubmit)
        &&& is_busy_press(
            v.submit,
            s.session.auth_busy,
            "Create account"@,
            Msg::Auth(AuthMsg::RegisterSubmit),
        )
        &&& is_press(
            v.toggle,
            "Already have an account? Sign in"@,
            Msg::Auth(AuthMsg::ShowRegister(false)),
        )
    } else {
        &&& v.subtitle@ == "Sign in"@
        &&& v.email == s.form.login_email
        &&& v.username is None
        &&& v.password == s.form.login_password
        &&& v.birthdate is None
        &&& v.remember == Some(s.session.remember_me)
        &&& v.on_return == Msg::Auth(AuthMsg::LoginSubmit)
        &&& is_busy_press(
            v.submit,
            s.session.auth_busy,
            "Sign in"@,
            Msg::Auth(AuthMsg::LoginSubmit),
        )
        &&& is_press(v.toggle, "Create account"@, Msg::Auth(AuthMsg::ShowRegister(true)))
    }
}

pub fn view_auth(state: &AppState) -> (v: AuthView)
    ensures
        is_auth_view(v, *state),
{
    let busy = state.session.auth_busy;
    let error = shown(&state.session.error);
    let server = state.session.server.clone();
    if state.session.screen == Screen::Register {
        AuthView {
            subtitle: copy_text("Create account"),
            server,
            email: state.form.register_email.clone(),
            username: Some(state.form.register_username.clone()),
            password: state.form.register_password.clone(),
            birthdate: Some(state.form.register_birthdate.clone()),
            remember: None,
            on_return: Msg::Auth(AuthMsg::RegisterSubmit),
            submit: busy_press(busy, "Create account", Msg::Auth(AuthMsg::RegisterSubmit)),
            toggle: press(
                "Already have an account? Sign in",
                Msg::Auth(AuthMsg::ShowRegister(false)),
            ),
            error,
        }
    } else {
        AuthView {
            subtitle: copy_text("Sign in"),
            server,
            email: state.form.login_email.clone(),
            username: None,
            password: state.form.login_password.clone(),
            birthdate: None,
            remember: Some(state.session.remember_me),
            on_return: Msg::Auth(AuthMsg::LoginSubmit),
            submit: busy_press(busy, "Sign in", Msg::Auth(AuthMsg::LoginSubmit)),
            toggle: press("Create account", Msg::Auth(AuthMsg::ShowRegister(true))),
            error,
        }
    }
}

/// A form that asks for a code.
pub struct CodeView {
    pub title: String,
    pub hint: String,
    pub placeholder: String,
    pub code: String,
    pub on_return: Msg,
    pub submit: Control,
    pub error: Option<String>,
}

/// The form for the code that came by mail.
pub open spec fn is_verify_view(v: CodeView, s: AppState) -> bool {
    &&& v.title@ == "Verify email"@
    &&& v.hint@ == "Enter the code sent to your email"@
    &&& v.placeholder@ == "Code"@
    &&& v.code == s.form.verify_code
    &&& v.on_return == Msg::Auth(AuthMsg::VerifySubmit)
    &&& is_busy_press(
        v.submit,
        s.session.auth_busy,
        "Verify"@,
        Msg::Auth(AuthMsg::VerifySubmit),
    )
    &&& v.error == if_any(s.session.error)
}

/// The form for the second factor.
pub open spec fn is_2fa_view(v: CodeView, s: AppState) -> bool {
    &&& v.title@ == "Two-factor authentication"@
    &&& v.hint@ == "Enter your TOTP code"@
    &&& v.placeholder@ == "6-digit code"@
    &&& v.code == s.form.twofa_code
    &&& v.on_return == Msg::Auth(AuthMsg::TwoFaSubmit)
    &&& is_busy_press(
        v.submit,
        s.session.auth_busy,
        "Verify"@,
        Msg::Auth(AuthMsg::TwoFaSubmit),
    )
    &&& v.error == if_any(s.session.error)
}

pub fn view_verify(state: &AppState) -> (v: CodeView)
    ensures
        is_verify_view(v, *state),
{
    CodeView {
        title: copy_text("Verify email"),
        hint: copy_text("Enter the code sent to your email"),
        placeholder: copy_text("Code"),
        code: state.form.verify_code.clone(),
        on_return: Msg::Auth(AuthMsg::VerifySubmit),
        submit: busy_press(
            state.session.auth_busy,
            "Verify",
            Msg::Auth(AuthMsg::VerifySubmit),
        ),
        error: shown(&state.session.error),
    }
}

pub fn view_2fa(state: &AppState) -> (v: CodeView)
    ensures
        is_2fa_view(v, *state),
{
    CodeView {
        title: copy_text("Two-factor authentication"),
        hint: copy_text("Enter your TOTP code"),
        placeholder: copy_text("6-digit code"),
        code: state.form.twofa_code.clone(),
        on_return: Msg::Auth(AuthMsg::TwoFaSubmit),
        submit: busy_press(state.session.auth_busy, "Verify", Msg::Auth(AuthMsg::TwoFaSubmit)),
        error: shown(&state.session.error),
    }
}

/// What an authenticator app is set up by.
pub struct SetupCard {
    /// The picture to scan, where it could be read.
    pub qr: Option<Vec<u8>>,
    pub secret: String,
    pub code: String,
}

/// The second factor is set up: first it is asked for, then it is confirmed.
pub struct SetupView {
    pub card: Option<SetupCard>,
    pub action: Control,
}

/// The setup as it is shown; `label` is what the first button says.
pub open spec fn is_setup_view(v: SetupView, s: AppState, label: Seq<char>) -> bool {
    match s.session.twofa_setup {
        None => v.card is None && is_busy_press(
            v.action,
            s.session.twofa_busy,
            label,
            Msg::Auth(AuthMsg::TwoFaSetup),
        ),
        Some(info) => {
            &&& is_busy_press(
                v.action,
                s.session.twofa_busy,
                "Enable 2FA"@,
                Msg::Auth(AuthMsg::TwoFaEnable),
            )
            &&& v.card matches Some(card)
            &&& card.secret@ == "Secret: "@ + info.secret@
            &&& card.code == s.session.twofa_toggle_code
            &&& match card.qr {
                Some(b) => data_url_content(info.qr@) == Some(b@),
                None => data_url_content(info.qr@) is None,
            }
        },
    }
}

pub fn setup_view(state: &AppState, label: &str) -> (v: SetupView)
    ensures
        is_setup_view(v, *state, label@),
{
    let busy = state.session.twofa_busy;
    match &state.session.twofa_setup {
        None => SetupView {
            card: None,
            action: busy_press(busy, label, Msg::Auth(AuthMsg::TwoFaSetup)),
        },
        Some(info) => SetupView {
            card: Some(
                SetupCard {
                    qr: data_url_bytes(info.qr.as_str()),
                    secret: concat2("Secret: ", info.secret.as_str()),
                    code: state.session.twofa_toggle_code.clone(),
                },
            ),
            action: busy_press(busy, "Enable 2FA", Msg::Auth(AuthMsg::TwoFaEnable)),
        },
    }
}

/// The page that asks for the setup of the second factor, and what went wrong on it.
pub fn view_2fa_setup(state: &AppState) -> (v: (SetupView, Option<String>))
    ensures
        is_setup_view(v.0, *state, "Generate setup code"@),
        v.1 == if_any(state.session.error),
{
    (setup_view(state, "Generate setup code"), shown(&state.session.error))
}

/// The page that is shown.
pub enum Page {
    Auth(AuthView),
    Code(CodeView),
    Setup(SetupView, Option<String>),
    Settings,
    Chat,
}

/// A page is the one of the screen; the settings stand in front of the chat.
pub open spec fn is_page(p: Page, s: AppState) -> bool {
    match s.session.screen {
        Screen::Login | Screen::Register => p matches Page::Auth(v) && is_auth_view(v, s),
        Screen::Verify => p matches Page::Code(v) && is_verify_view(v, s),
        Screen::TwoFa => p matches Page::Code(v) && is_2fa_view(v, s),
        Screen::TwoFaSetup => p matches Page::Setup(v, e) && is_setup_view(
            v,
            s,
            "Generate setup code"@,
        ) && e == if_any(s.session.error),
        Screen::Chat => if s.people.settings_open {
            p is Settings
        } else {
            p is Chat
        },
    }
}

/// Which page is shown is a matter of the screen; the settings stand in front of the chat.
pub fn view(state: &AppState) -> (p: Page)
    ensures
        is_page(p, *state),
{
    match state.session.screen {
        Screen::Login | Screen::Register => Page::Auth(view_auth(state)),
        Screen::Verify => Page::Code(view_verify(state)),
        Screen::TwoFa => Page::Code(view_2fa(state)),
        Screen::TwoFaSetup => {
            let (v, e) = view_2fa_setup(state);
            Page::Setup(v, e)
        },
        Screen::Chat => {
            if state.people.settings_open {
                Page::Settings
            } else {
                Page::Chat
            }
        },
    }
}

} // verus!
