//! The bot: it logs in, stays online, and answers what it is told.

use std::collections::HashSet;

use vstd::prelude::*;
use vstd::utf8::encode_utf8;

use crate::chat::requests::{is_success, Reply};
use crate::chat::types::ApiMsg;
use crate::desktop::events::{AccountEvent, Event};
use crate::json::{json_flag, json_flag_at, json_text, json_text_or, text_or};
use crate::text::{
    concat2, concat5, copy_text, lower, same_ignoring_ascii_case, trim, trim_text,
};
use crate::totp::{base32_bytes, big_endian, hmac_sha1, password, totp_at};

verus! {

/// What the bot does about its login.
pub enum LoginStep {
    /// A second factor is asked for, and the bot has no secret to make it from.
    GiveUp,
    /// Try again in five seconds.
    Retry { seconds: u64 },
    SecondFactor { pending_token: String, code: String },
    Ready { token: String },
    /// Nothing happened to the login.
    Wait,
}

/// The second factor of the bot at a time, in seconds since 1970.
pub open spec fn code_at(secret: Seq<char>, seconds: u64) -> Seq<char> {
    password(hmac_sha1(base32_bytes(encode_utf8(secret)), big_endian(seconds / 30)))
}

/// The token in an answer, empty where there is none.
pub open spec fn token_in(body: Seq<char>) -> Seq<char> {
    text_or(json_text(body, "/token"@), Seq::empty())
}

/// What becomes of the answer to a login.
pub open spec fn login_step(reply: Reply, secret: Seq<char>, seconds: u64, next: LoginStep) -> bool {
    match reply {
        Reply::Lost(_) => next == (LoginStep::Retry { seconds: 5 }),
        Reply::Answer { code, body, .. } => if !is_success(code) {
            next == (LoginStep::Retry { seconds: 5 })
        } else if json_flag(body@, "/requires_2fa"@) == Some(true) {
            if secret.len() == 0 {
                next == LoginStep::GiveUp
            } else {
                &&& next matches LoginStep::SecondFactor { pending_token, code: c }
                &&& pending_token@ == text_or(json_text(body@, "/pending_token"@), Seq::empty())
                &&& c@ == code_at(secret, seconds)
            }
        } else {
            next matches LoginStep::Ready { token } && token@ == token_in(body@)
        },
    }
}

fn text_at(body: &str, pointer: &str) -> (r: String)
    ensures
        r@ == text_or(json_text(body@, pointer@), Seq::empty()),
{
    proof {
        reveal_strlit("");
        assert(""@ =~= Seq::empty());
    }
    json_text_or(body, pointer, "")
}

/// What becomes of the answer to a login.
pub fn login_answered(reply: &Reply, secret: &str, seconds: u64) -> (next: LoginStep)
    ensures
        login_step(*reply, secret@, seconds, next),
{
    match reply {
        Reply::Lost(_) => LoginStep::Retry { seconds: 5 },
        Reply::Answer { code, body, .. } => {
            if *code < 200 || *code > 299 {
                return LoginStep::Retry { seconds: 5 };
            }
            let two_steps = match json_flag_at(body.as_str(), "/requires_2fa") {
                Some(b) => b,
                None => false,
            };
            if !two_steps {
                return LoginStep::Ready { token: text_at(body.as_str(), "/token") };
            }
            if secret.is_empty() {
                return LoginStep::GiveUp;
            }
            LoginStep::SecondFactor {
                pending_token: text_at(body.as_str(), "/pending_token"),
                code: totp_at(secret, seconds),
            }
        },
    }
}

/// What becomes of the answer to the second factor.
pub fn second_factor_answered(reply: &Reply) -> (next: LoginStep)
    ensures
        match *reply {
            Reply::Answer { code, body, .. } if is_success(code) => next matches LoginStep::Ready {
                token,
            } && token@ == token_in(body@),
            _ => next == (LoginStep::Retry { seconds: 5 }),
        },
{
    match reply {
        Reply::Answer { code, body, .. } if 200 <= *code && *code <= 299 => LoginStep::Ready {
            token: text_at(body.as_str(), "/token"),
        },
        _ => LoginStep::Retry { seconds: 5 },
    }
}

/// What an event means for the login of a bot of the desktop client.
pub fn login_event(ev: &Event, secret: &str, seconds: u64) -> (next: LoginStep)
    ensures
        match *ev {
            Event::Account(AccountEvent::TwoFaRequired { pending_token }) => if secret@.len() == 0 {
                next == LoginStep::GiveUp
            } else {
                &&& next matches LoginStep::SecondFactor { pending_token: p, code }
                &&& p == pending_token
                &&& code@ == code_at(secret@, seconds)
            },
            Event::Account(AccountEvent::LoggedIn { token, .. }) => next == (LoginStep::Ready {
                token,
            }),
            Event::Account(AccountEvent::AuthFailed(_)) => next == (LoginStep::Retry { seconds: 5 }),
            _ => next == LoginStep::Wait,
        },
{
    match ev {
        Event::Account(AccountEvent::TwoFaRequired { pending_token }) => {
            if secret.is_empty() {
                return LoginStep::GiveUp;
            }
            LoginStep::SecondFactor {
                pending_token: pending_token.clone(),
                code: totp_at(secret, seconds),
            }
        },
        Event::Account(AccountEvent::LoggedIn { token, .. }) => LoginStep::Ready {
            token: token.clone(),
        },
        Event::Account(AccountEvent::AuthFailed(_)) => LoginStep::Retry { seconds: 5 },
        _ => LoginStep::Wait,
    }
}

/// Whose messages the bot leaves alone, and which messages it has seen.
pub struct Bot {
    pub ignored_sender: u64,
    pub seen: HashSet<u64>,
}

/// What the bot does about a message.
pub struct Heard {
    /// The file to fetch, and who has it.
    pub fetch: Option<(String, u64)>,
    pub reply: Option<String>,
}

/// What the bot answers: a file is acknowledged, a ping is answered, and any other text comes back.
pub open spec fn answer_to(m: ApiMsg) -> Option<Seq<char>> {
    let text = trim(m.body@);
    match m.file_id {
        Some(f) => {
            let name = match m.attachment_name {
                Some(n) => n@,
                None => "file"@,
            };
            Some("📎 got your file \""@ + name + "\" (id "@ + f@ + ")"@)
        },
        None => if lower(text) == lower("ping"@) {
            Some("pong"@)
        } else if text.len() > 0 {
            Some("🤖 echo: "@ + text)
        } else {
            None
        },
    }
}

/// A message is heard once, and only if somebody else wrote it.
pub open spec fn hears(b: Bot, m: ApiMsg) -> bool {
    m.sender_id != b.ignored_sender && !b.seen@.contains(m.id)
}

pub open spec fn hear_step(pre: Bot, m: ApiMsg, post: Bot, h: Heard) -> bool {
    &&& post.ignored_sender == pre.ignored_sender
    &&& if m.sender_id == pre.ignored_sender {
        post.seen@ == pre.seen@
    } else {
        post.seen@ == pre.seen@.insert(m.id)
    }
    &&& if hears(pre, m) {
        &&& h.fetch == match m.file_id {
            Some(f) => Some((f, m.sender_id)),
            None => None,
        }
        &&& match (h.reply, answer_to(m)) {
            (Some(r), Some(a)) => r@ == a,
            (None, None) => true,
            _ => false,
        }
    } else {
        h.fetch is None && h.reply is None
    }
}

fn reply_to(m: &ApiMsg) -> (r: Option<String>)
    ensures
        match (r, answer_to(*m)) {
            (Some(s), Some(a)) => s@ == a,
            (None, None) => true,
            _ => false,
        },
{
    match &m.file_id {
        Some(f) => {
            let name = match &m.attachment_name {
                Some(n) => n.clone(),
                None => copy_text("file"),
            };
            Some(concat5("📎 got your file \"", name.as_str(), "\" (id ", f.as_str(), ")"))
        },
        None => {
            let text = trim_text(m.body.as_str());
            if same_ignoring_ascii_case(text.as_str(), "ping") {
                Some(copy_text("pong"))
            } else if !text.as_str().is_empty() {
                Some(concat2("🤖 echo: ", text.as_str()))
            } else {
                None
            }
        },
    }
}

impl Bot {
    pub fn new(ignored_sender: u64) -> (b: Bot)
        ensures
            b.ignored_sender == ignored_sender,
            b.seen@ == Set::<u64>::empty(),
    {
        Bot { ignored_sender, seen: HashSet::new() }
    }

    /// Hears a message.
    pub fn hear(&mut self, m: &ApiMsg) -> (h: Heard)
        ensures
            hear_step(*old(self), *m, *final(self), h),
    {
        if m.sender_id == self.ignored_sender {
            return Heard { fetch: None, reply: None };
        }
        let known = self.seen.contains(&m.id);
        self.seen.insert(m.id);
        if known {
            return Heard { fetch: None, reply: None };
        }
        let fetch = match &m.file_id {
            Some(f) => Some((f.clone(), m.sender_id)),
            None => None,
        };
        Heard { fetch, reply: reply_to(m) }
    }
}

/// No message is answered twice, whatever comes in between.
pub proof fn answered_once(b0: Bot, m: ApiMsg, b1: Bot, h1: Heard, b2: Bot, b3: Bot, h2: Heard)
    requires
        hear_step(b0, m, b1, h1),
        b1.ignored_sender == b2.ignored_sender,
        forall|id: u64| #[trigger] b1.seen@.contains(id) ==> b2.seen@.contains(id),
        hear_step(b2, m, b3, h2),
    ensures
        h2.reply is None,
        h2.fetch is None,
{
    if m.sender_id != b0.ignored_sender {
        assert(b1.seen@.contains(m.id));
    }
}

/// The bot never answers the sender that it leaves alone, so it cannot talk to itself.
pub proof fn no_answer_to_the_ignored(b: Bot, m: ApiMsg, post: Bot, h: Heard)
    requires
        hear_step(b, m, post, h),
        m.sender_id == b.ignored_sender,
    ensures
        h.reply is None,
        h.fetch is None,
        post.seen@ == b.seen@,
{
}

} // verus!
