//! The life of the socket: connecting, staying connected, and trying again.

use vstd::prelude::*;

use crate::chat::msg::{AuthMsg, FileMsg, Msg, VoiceMsg, WsHubEvent, WsMsg};
use crate::chat::state::AppState;
use crate::chat::types::Screen;
use crate::p2p::P2pEvent;
use crate::text::copy_text;
use crate::voice::VoiceEvent;

verus! {

/// Where the socket stands.
#[derive(Clone, Copy, Debug, PartialEq, Eq, Structural)]
pub enum Stage {
    Connecting,
    Open,
    /// Three seconds go by before the next try.
    Pausing,
    /// No more tries are made.
    Over,
}

/// What happens to the socket.
pub enum Happening {
    /// The address of the server is not one of a socket.
    BadAddress,
    Connected,
    /// The server refused the connection; it may have said why.
    Refused { status: Option<u16> },
    /// A frame waits to be sent.
    Outgoing(String),
    /// Nobody can ask for frames any more.
    NoMoreOutgoing,
    SendFailed,
    P2p { event: P2pEvent, percent: u64, contents: Option<Vec<u8>> },
    Voice(VoiceEvent),
    /// A text came in; nothing for one that cannot be read.
    Text(Option<WsHubEvent>),
    /// Something that is no text came in.
    Other,
    /// The connection ended.
    Closed,
    /// The messages of the socket are not taken any more.
    Abandoned,
    /// The pause is over.
    Rested,
}

/// What the socket asks for.
pub enum Deed {
    Nothing,
    Send(String),
    Tell(Msg),
    Pause { seconds: u64 },
    /// Tell, and pause then.
    TellAndPause(Msg, u64),
    TellAndStop(Msg),
    Connect,
    Stop,
}

pub open spec fn dead_session() -> Seq<char> {
    "Your session was invalidated or expired. Please log in again."@
}

/// What the socket does next. A server that does not accept the session any more ends it; every
/// other trouble is followed by another try.
pub open spec fn socket_step(stage: Stage, h: Happening, next: Stage, deed: Deed) -> bool {
    let lost = next == Stage::Pausing && deed == Deed::TellAndPause(
        Msg::Ws(WsMsg::WsDisconnected),
        3,
    );
    let unmoved = next == stage && deed == Deed::Nothing;
    match stage {
        Stage::Connecting => match h {
            Happening::BadAddress => next == Stage::Pausing && deed == (Deed::Pause { seconds: 3 }),
            Happening::Connected => next == Stage::Open && deed == Deed::Tell(
                Msg::Ws(WsMsg::WsConnected),
            ),
            Happening::Refused { status } => if status == Some(401u16) || status == Some(403u16) {
                &&& next == Stage::Over
                &&& deed matches Deed::TellAndStop(Msg::Auth(AuthMsg::SessionExpired(reason)))
                &&& reason@ == dead_session()
            } else {
                lost
            },
            _ => unmoved,
        },
        Stage::Open => match h {
            Happening::Outgoing(text) => next == Stage::Open && deed == Deed::Send(text),
            Happening::NoMoreOutgoing => next == Stage::Over && deed == Deed::Stop,
            Happening::SendFailed => lost,
            Happening::P2p { event, percent, contents } => next == Stage::Open && deed == Deed::Tell(
                Msg::File(FileMsg::P2pEvent { event, percent, contents }),
            ),
            Happening::Voice(e) => next == Stage::Open && deed == Deed::Tell(
                Msg::Voice(VoiceMsg::VoiceEvent(e)),
            ),
            Happening::Text(Some(e)) => next == Stage::Open && deed == Deed::Tell(
                Msg::Ws(WsMsg::WsEvent(e)),
            ),
            Happening::Closed => lost,
            Happening::Abandoned => next == Stage::Over && deed == Deed::Stop,
            _ => unmoved,
        },
        Stage::Pausing => match h {
            Happening::Rested => next == Stage::Connecting && deed == Deed::Connect,
            _ => unmoved,
        },
        Stage::Over => unmoved,
    }
}

fn lost() -> (r: (Stage, Deed))
    ensures
        r.0 == Stage::Pausing,
        r.1 == Deed::TellAndPause(Msg::Ws(WsMsg::WsDisconnected), 3),
{
    (Stage::Pausing, Deed::TellAndPause(Msg::Ws(WsMsg::WsDisconnected), 3))
}

fn connecting(h: Happening) -> (r: (Stage, Deed))
    ensures
        socket_step(Stage::Connecting, h, r.0, r.1),
{
    match h {
        Happening::BadAddress => (Stage::Pausing, Deed::Pause { seconds: 3 }),
        Happening::Connected => (Stage::Open, Deed::Tell(Msg::Ws(WsMsg::WsConnected))),
        Happening::Refused { status } => match status {
            Some(code) => {
                if code == 401 || code == 403 {
                    let reason = copy_text(
                        "Your session was invalidated or expired. Please log in again.",
                    );
                    (Stage::Over, Deed::TellAndStop(Msg::Auth(AuthMsg::SessionExpired(reason))))
                } else {
                    lost()
                }
            },
            None => lost(),
        },
        _ => (Stage::Connecting, Deed::Nothing),
    }
}

fn open(h: Happening) -> (r: (Stage, Deed))
    ensures
        socket_step(Stage::Open, h, r.0, r.1),
{
    match h {
        Happening::Outgoing(text) => (Stage::Open, Deed::Send(text)),
        Happening::NoMoreOutgoing => (Stage::Over, Deed::Stop),
        Happening::SendFailed => lost(),
        Happening::P2p { event, percent, contents } => (
            Stage::Open,
            Deed::Tell(Msg::File(FileMsg::P2pEvent { event, percent, contents })),
        ),
        Happening::Voice(e) => (Stage::Open, Deed::Tell(Msg::Voice(VoiceMsg::VoiceEvent(e)))),
        Happening::Text(Some(e)) => (Stage::Open, Deed::Tell(Msg::Ws(WsMsg::WsEvent(e)))),
        Happening::Closed => lost(),
        Happening::Abandoned => (Stage::Over, Deed::Stop),
        _ => (Stage::Open, Deed::Nothing),
    }
}

/// What the socket does next.
pub fn ws_worker(stage: Stage, h: Happening) -> (r: (Stage, Deed))
    ensures
        socket_step(stage, h, r.0, r.1),
{
    match stage {
        Stage::Connecting => connecting(h),
        Stage::Open => open(h),
        Stage::Pausing => match h {
            Happening::Rested => (Stage::Connecting, Deed::Connect),
            _ => (Stage::Pausing, Deed::Nothing),
        },
        Stage::Over => (Stage::Over, Deed::Nothing),
    }
}

/// What the client listens to.
pub struct Listening {
    /// A message every second, for the typing of others to run out.
    pub every_second: bool,
    /// Clicks anywhere in the window.
    pub clicks: bool,
    /// The socket: the server and the token of its session.
    pub socket: Option<(String, String)>,
}

/// The socket, the clock and the mouse count while there is a session and the chat is shown.
pub fn subscription(state: &AppState) -> (r: Listening)
    ensures
        ({
            let on = state.session.token is Some && state.session.screen == Screen::Chat;
            &&& r.every_second == on
            &&& r.clicks == on
            &&& r.socket == match state.session.token {
                Some(t) => if on {
                    Some((state.session.server, t))
                } else {
                    None
                },
                None => None,
            }
        }),
{
    if state.session.screen == Screen::Chat {
        match &state.session.token {
            Some(t) => {
                return Listening {
                    every_second: true,
                    clicks: true,
                    socket: Some((state.session.server.clone(), t.clone())),
                };
            },
            None => {},
        }
    }
    Listening { every_second: false, clicks: false, socket: None }
}

/// A lost connection is tried again, unless the server refused the session.
pub proof fn lost_connections_are_retried(h: Happening, next: Stage, deed: Deed)
    requires
        socket_step(Stage::Open, h, next, deed),
        h is SendFailed || h is Closed,
    ensures
        next == Stage::Pausing,
        forall|n: Stage, d: Deed|
            socket_step(next, Happening::Rested, n, d) ==> n == Stage::Connecting && d == Deed::Connect,
{
}

/// A refused session is never tried again.
pub proof fn refused_sessions_are_over(status: u16, next: Stage, deed: Deed, h: Happening)
    requires
        status == 401 || status == 403,
        socket_step(Stage::Connecting, Happening::Refused { status: Some(status) }, next, deed),
    ensures
        forall|n: Stage, d: Deed| socket_step(next, h, n, d) ==> n == Stage::Over && d == Deed::Nothing,
{
}

} // verus!
