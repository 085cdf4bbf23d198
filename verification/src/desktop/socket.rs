//! The life of the desktop client's socket.

use vstd::prelude::*;

use crate::chat::msg::WsHubEvent;
use crate::desktop::events::{Event, FileEvent, PeopleEvent, TalkEvent};

verus! {

/// Where the socket stands.
#[derive(Clone, Copy, Debug, PartialEq, Eq, Structural)]
pub enum Stage {
    /// There is no session to connect with.
    Waiting,
    Connecting,
    Open,
    /// Three seconds go by before the next try.
    Pausing,
    Over,
}

/// What happens to the socket.
pub enum Happening {
    /// The session is this one now, or there is none.
    Token(Option<String>),
    ServerChanged,
    /// Nobody can change the session, the server, or ask for frames any more.
    Abandoned,
    BadAddress,
    Connected,
    Refused,
    Outgoing(String),
    SendFailed,
    /// A text came in; nothing for one that cannot be read.
    Text(Option<WsHubEvent>),
    Other,
    Closed,
    /// The pause is over; the session is this one now.
    Rested(Option<String>),
}

/// What the socket asks for.
pub enum Deed {
    Nothing,
    Connect { token: String },
    Send(String),
    Tell(Event),
    TellAndPause(Event, u64),
    Stop,
}

/// What a pushed event is to the client. Voice channels are not for this client.
pub open spec fn pushed(e: WsHubEvent) -> Option<Event> {
    match e {
        WsHubEvent::Message { message } => Some(Event::Talk(TalkEvent::WsMessage(message))),
        WsHubEvent::MessageEdited { message } => Some(
            Event::Talk(TalkEvent::WsMessageEdited(message)),
        ),
        WsHubEvent::MessageDeleted { conversation_id, message_id } => Some(
            Event::Talk(TalkEvent::WsMessageDeleted { conversation_id, message_id }),
        ),
        WsHubEvent::Signal { signal } => Some(Event::File(FileEvent::P2pSignal(signal))),
        WsHubEvent::Typing { conversation_id, from_user_id, from_username } => Some(
            Event::People(PeopleEvent::Typing { conversation_id, from_user_id, from_username }),
        ),
        WsHubEvent::Presence { user_id, online } => Some(
            Event::People(PeopleEvent::Presence { user_id, online }),
        ),
        _ => None,
    }
}

/// A session to connect with, or the wait for one.
pub open spec fn starts(token: Option<String>, next: Stage, deed: Deed) -> bool {
    match token {
        Some(t) => next == Stage::Connecting && deed == (Deed::Connect { token: t }),
        None => next == Stage::Waiting && deed == Deed::Nothing,
    }
}

/// What the socket does next. It follows the session and the server: where one of them changes, the
/// connection is given up and made anew after a pause.
pub open spec fn socket_step(stage: Stage, h: Happening, next: Stage, deed: Deed) -> bool {
    let lost = next == Stage::Pausing && deed == Deed::TellAndPause(
        Event::Talk(TalkEvent::WsStatus(false)),
        3,
    );
    let unmoved = next == stage && deed == Deed::Nothing;
    match stage {
        Stage::Waiting => match h {
            Happening::Token(t) => starts(t, next, deed),
            Happening::Abandoned => next == Stage::Over && deed == Deed::Stop,
            _ => unmoved,
        },
        Stage::Connecting => match h {
            Happening::BadAddress => lost,
            Happening::Refused => lost,
            Happening::Connected => next == Stage::Open && deed == Deed::Tell(
                Event::Talk(TalkEvent::WsStatus(true)),
            ),
            _ => unmoved,
        },
        Stage::Open => match h {
            Happening::Token(_) => lost,
            Happening::ServerChanged => lost,
            Happening::Abandoned => next == Stage::Over && deed == Deed::Stop,
            Happening::Outgoing(text) => next == Stage::Open && deed == Deed::Send(text),
            Happening::SendFailed => lost,
            Happening::Text(Some(e)) => next == Stage::Open && deed == match pushed(e) {
                Some(ev) => Deed::Tell(ev),
                None => Deed::Nothing,
            },
            Happening::Closed => lost,
            _ => unmoved,
        },
        Stage::Pausing => match h {
            Happening::Rested(t) => starts(t, next, deed),
            _ => unmoved,
        },
        Stage::Over => unmoved,
    }
}

fn lost() -> (r: (Stage, Deed))
    ensures
        r.0 == Stage::Pausing,
        r.1 == Deed::TellAndPause(Event::Talk(TalkEvent::WsStatus(false)), 3),
{
    (Stage::Pausing, Deed::TellAndPause(Event::Talk(TalkEvent::WsStatus(false)), 3))
}

fn start(token: Option<String>) -> (r: (Stage, Deed))
    ensures
        starts(token, r.0, r.1),
{
    match token {
        Some(token) => (Stage::Connecting, Deed::Connect { token }),
        None => (Stage::Waiting, Deed::Nothing),
    }
}

/// What a pushed event is to the client.
pub fn client_event(e: WsHubEvent) -> (r: Option<Event>)
    ensures
        r == pushed(e),
{
    match e {
        WsHubEvent::Message { message } => Some(Event::Talk(TalkEvent::WsMessage(message))),
        WsHubEvent::MessageEdited { message } => Some(
            Event::Talk(TalkEvent::WsMessageEdited(message)),
        ),
        WsHubEvent::MessageDeleted { conversation_id, message_id } => Some(
            Event::Talk(TalkEvent::WsMessageDeleted { conversation_id, message_id }),
        ),
        WsHubEvent::Signal { signal } => Some(Event::File(FileEvent::P2pSignal(signal))),
        WsHubEvent::Typing { conversation_id, from_user_id, from_username } => Some(
            Event::People(PeopleEvent::Typing { conversation_id, from_user_id, from_username }),
        ),
        WsHubEvent::Presence { user_id, online } => Some(
            Event::People(PeopleEvent::Presence { user_id, online }),
        ),
        _ => None,
    }
}

fn open(h: Happening) -> (r: (Stage, Deed))
    ensures
        socket_step(Stage::Open, h, r.0, r.1),
{
    match h {
        Happening::Token(_) => lost(),
        Happening::ServerChanged => lost(),
        Happening::Abandoned => (Stage::Over, Deed::Stop),
        Happening::Outgoing(text) => (Stage::Open, Deed::Send(text)),
        Happening::SendFailed => lost(),
        Happening::Text(Some(e)) => match client_event(e) {
            Some(ev) => (Stage::Open, Deed::Tell(ev)),
            None => (Stage::Open, Deed::Nothing),
        },
        Happening::Closed => lost(),
        _ => (Stage::Open, Deed::Nothing),
    }
}

/// What the socket does next.
pub fn spawn_ws(stage: Stage, h: Happening) -> (r: (Stage, Deed))
    ensures
        socket_step(stage, h, r.0, r.1),
{
    match stage {
        Stage::Waiting => match h {
            Happening::Token(t) => start(t),
            Happening::Abandoned => (Stage::Over, Deed::Stop),
            _ => (Stage::Waiting, Deed::Nothing),
        },
        Stage::Connecting => match h {
            Happening::BadAddress => lost(),
            Happening::Refused => lost(),
            Happening::Connected => (
                Stage::Open,
                Deed::Tell(Event::Talk(TalkEvent::WsStatus(true))),
            ),
            _ => (Stage::Connecting, Deed::Nothing),
        },
        Stage::Open => open(h),
        Stage::Pausing => match h {
            Happening::Rested(t) => start(t),
            _ => (Stage::Pausing, Deed::Nothing),
        },
        Stage::Over => (Stage::Over, Deed::Nothing),
    }
}

/// Without a session no connection is tried.
pub proof fn no_session_no_connection(stage: Stage, next: Stage, deed: Deed)
    requires
        stage == Stage::Waiting || stage == Stage::Pausing,
        socket_step(
            stage,
            if stage == Stage::Waiting {
                Happening::Token(None)
            } else {
                Happening::Rested(None)
            },
            next,
            deed,
        ),
    ensures
        next == Stage::Waiting,
        deed == Deed::Nothing,
{
}

} // verus!
