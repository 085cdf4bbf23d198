//! Playing a file: the clock, the commands of the user, and when a picture is shown.
//!
//! Times are in microseconds. `now` is a clock that does not run backwards.

use std::collections::VecDeque;

use vstd::prelude::*;

use crate::sound::{newest, push_bounded};
use crate::text::concat2;

verus! {

/// The samples per second of played sound.
pub const SAMPLE_RATE: u32 = 44_100;

/// How many samples of sound wait at most: about a second of two channels.
pub const AUDIO_RING_MAX: usize = 88_200;

/// The longest time that is slept at a stretch, so that commands are heard.
pub const SLICE: u64 = 50_000;

#[derive(Clone, Copy, Debug, PartialEq, Eq, Structural)]
pub enum PlayState {
    Stopped,
    Playing,
    Paused,
}

impl PlayState {
    pub open spec fn spec_from_u8(v: u8) -> PlayState {
        if v == 1 {
            PlayState::Playing
        } else if v == 2 {
            PlayState::Paused
        } else {
            PlayState::Stopped
        }
    }

    pub fn from_u8(v: u8) -> (s: PlayState)
        ensures
            s == PlayState::spec_from_u8(v),
    {
        match v {
            1 => PlayState::Playing,
            2 => PlayState::Paused,
            _ => PlayState::Stopped,
        }
    }
}

/// What the user wants.
#[derive(Clone, Copy, Debug, PartialEq, Eq, Structural)]
pub enum Cmd {
    Play,
    Pause,
    /// Go on from a position; one before the start means the start.
    Seek(i64),
    /// The volume, by the bit pattern of a single precision number.
    Volume(u32),
    Stop,
}

/// How a session ends: it starts anew elsewhere, or it is over.
#[derive(Clone, Copy, Debug, PartialEq, Eq, Structural)]
pub enum SessionExit {
    Seek(u64),
    Stop,
}

/// What a command comes to.
#[derive(Clone, Copy, Debug, PartialEq, Eq, Structural)]
pub enum CmdAction {
    Continue,
    SetVolume(u32),
    Exit(SessionExit),
}

/// The position of playback: `pos` at the time `base`, running while `playing`.
#[derive(Clone, Copy, Debug, PartialEq, Eq, Structural)]
pub struct Clock {
    pub playing: bool,
    pub pos: u64,
    pub base: u64,
}

/// The time from `base` to `now`, and none where `now` is earlier.
pub open spec fn elapsed(base: u64, now: u64) -> int {
    if now >= base {
        now - base
    } else {
        0
    }
}

pub open spec fn saturated(n: int) -> u64 {
    if n <= u64::MAX {
        n as u64
    } else {
        u64::MAX
    }
}

/// The position of a running clock.
pub open spec fn wall(c: Clock, now: u64) -> u64 {
    saturated(c.pos + elapsed(c.base, now))
}

/// A position that is not before the start.
pub open spec fn from_start(t: i64) -> u64 {
    if t >= 0 {
        t as u64
    } else {
        0
    }
}

pub open spec fn cmd_step(cmd: Cmd, pre: Clock, now: u64, post: Clock, act: CmdAction) -> bool {
    match cmd {
        Cmd::Stop => post == pre && act == CmdAction::Exit(SessionExit::Stop),
        Cmd::Seek(t) => post == pre && act == CmdAction::Exit(SessionExit::Seek(from_start(t))),
        Cmd::Play => act == CmdAction::Continue && post == if pre.playing {
            pre
        } else {
            Clock { playing: true, base: now, ..pre }
        },
        Cmd::Pause => act == CmdAction::Continue && post == if pre.playing {
            Clock { playing: false, pos: wall(pre, now), ..pre }
        } else {
            pre
        },
        Cmd::Volume(v) => post == pre && act == CmdAction::SetVolume(v),
    }
}

impl Clock {
    /// A clock that runs from a position.
    pub fn start(pos: u64, now: u64) -> (c: Clock)
        ensures
            c == (Clock { playing: true, pos, base: now }),
    {
        Clock { playing: true, pos, base: now }
    }

    /// The position of the clock while it runs.
    pub fn wall_pos(&self, now: u64) -> (p: u64)
        ensures
            p == wall(*self, now),
    {
        self.pos.saturating_add(now.saturating_sub(self.base))
    }
}

/// Handles a command.
pub fn handle_cmd(cmd: Cmd, clock: &mut Clock, now: u64) -> (act: CmdAction)
    ensures
        cmd_step(cmd, *old(clock), now, *final(clock), act),
{
    match cmd {
        Cmd::Stop => CmdAction::Exit(SessionExit::Stop),
        Cmd::Seek(t) => {
            let at: u64 = if t >= 0 {
                t as u64
            } else {
                0
            };
            CmdAction::Exit(SessionExit::Seek(at))
        },
        Cmd::Play => {
            if !clock.playing {
                clock.playing = true;
                clock.base = now;
            }
            CmdAction::Continue
        },
        Cmd::Pause => {
            if clock.playing {
                clock.pos = clock.wall_pos(now);
                clock.playing = false;
            }
            CmdAction::Continue
        },
        Cmd::Volume(v) => CmdAction::SetVolume(v),
    }
}

/// What the session is at.
#[derive(Clone, Copy, Debug, PartialEq, Eq, Structural)]
pub enum Phase {
    /// Commands are read until there are no more.
    Intake,
    /// The next packet of the file is read.
    Reading,
    /// Pictures are taken out of the decoder.
    Decoding,
    /// A picture waits for its time. `wall` is where the clock stood, `remain` what is left.
    Showing { at: u64, wall: u64, remain: u64 },
    /// The file is at its end.
    Ended,
}

pub struct Session {
    pub phase: Phase,
    pub clock: Clock,
    /// Where the session started.
    pub seek: u64,
    pub video: Option<usize>,
    pub audio: Option<usize>,
}

#[derive(Clone, Copy, Debug, PartialEq, Eq, Structural)]
pub enum SessionEvent {
    Command(Cmd),
    /// No command came, or the time that was slept is over.
    NoCommand,
    /// No command will ever come.
    Disconnected,
    /// A packet of a stream was read.
    Packet { stream: usize },
    EndOfFile,
    /// A picture was decoded; its time may lie before the start.
    Frame { at: i64 },
    /// There is no further picture.
    NoFrame,
}

#[derive(Clone, Copy, Debug, PartialEq, Eq, Structural)]
pub enum SessionAction {
    /// See whether there is a command.
    Poll,
    /// Playback is paused: sleep a little, then see whether there is a command.
    Idle,
    ReadPacket,
    /// Hand the packet to the video decoder and take a picture out of it.
    DecodeVideo,
    /// Hand the packet to the audio decoder and queue what comes out of it.
    DecodeAudio,
    /// Take the next picture out of the decoder.
    NextFrame,
    /// Keep the picture, and wait for a command for at most this long.
    Wait { micros: u64 },
    /// Show the picture that was kept last, then take the next one out of the decoder.
    Show,
    /// Report the end of the file, and wait for a command.
    ReportEnd,
    /// Wait for a command.
    Await,
    SetVolume(u32),
    Exit(SessionExit),
}

/// How long is slept until the next look for commands.
pub open spec fn slice(remain: u64) -> u64 {
    if remain <= 50_000 {
        remain
    } else {
        50_000
    }
}

/// The clock once a picture was shown: it stands where the picture or the clock was, whichever is
/// later, and runs from now on.
pub open spec fn anchored(c: Clock, at: u64, wall: u64, now: u64) -> Clock {
    Clock {
        pos: if at >= wall {
            at
        } else {
            wall
        },
        base: now,
        ..c
    }
}

/// A picture comes out of the decoder. One before the start is dropped, one that is due is shown,
/// and any other waits for its time.
pub open spec fn frame_step(pre: Session, at: i64, now: u64, post: Session, act: SessionAction) -> bool {
    let w = wall(pre.clock, now);
    if at < pre.seek {
        post == pre && act == SessionAction::NextFrame
    } else if at > w {
        let remain = (at - w) as u64;
        &&& post == (Session {
            phase: Phase::Showing { at: at as u64, wall: w, remain },
            ..pre
        })
        &&& act == SessionAction::Wait { micros: slice(remain) }
    } else {
        &&& post == (Session { clock: anchored(pre.clock, at as u64, w, now), ..pre })
        &&& act == SessionAction::Show
    }
}

/// A stretch of waiting is over.
pub open spec fn waited_step(
    pre: Session,
    at: u64,
    w: u64,
    remain: u64,
    now: u64,
    post: Session,
    act: SessionAction,
) -> bool {
    if remain > 50_000 {
        let rest = (remain - 50_000) as u64;
        &&& post == (Session { phase: Phase::Showing { at, wall: w, remain: rest }, ..pre })
        &&& act == SessionAction::Wait { micros: slice(rest) }
    } else {
        &&& post == (Session {
            phase: Phase::Decoding,
            clock: anchored(pre.clock, at, w, now),
            ..pre
        })
        &&& act == SessionAction::Show
    }
}

/// A command in the middle of playback; unless it ends the session, commands are read again.
pub open spec fn command_step(pre: Session, cmd: Cmd, now: u64, post: Session, act: SessionAction) -> bool {
    exists|c: CmdAction| #[trigger] cmd_step(cmd, pre.clock, now, post.clock, c) && match c {
        CmdAction::Continue => post == (Session {
            phase: Phase::Intake,
            clock: post.clock,
            ..pre
        }) && act == SessionAction::Poll,
        CmdAction::SetVolume(v) => post == (Session {
            phase: Phase::Intake,
            clock: post.clock,
            ..pre
        }) && act == SessionAction::SetVolume(v),
        CmdAction::Exit(e) => post == (Session { clock: post.clock, ..pre }) && act
            == SessionAction::Exit(e),
    }
}

pub open spec fn session_step(
    pre: Session,
    ev: SessionEvent,
    now: u64,
    post: Session,
    act: SessionAction,
) -> bool {
    match (pre.phase, ev) {
        (Phase::Intake, SessionEvent::Command(cmd)) => command_step(pre, cmd, now, post, act),
        (Phase::Intake, SessionEvent::NoCommand) => if pre.clock.playing {
            post == (Session { phase: Phase::Reading, ..pre }) && act == SessionAction::ReadPacket
        } else {
            post == pre && act == SessionAction::Idle
        },
        (Phase::Intake, SessionEvent::Disconnected) => {
            post == pre && act == SessionAction::Exit(SessionExit::Stop)
        },
        (Phase::Reading, SessionEvent::Packet { stream }) => if pre.video == Some(stream) {
            post == (Session { phase: Phase::Decoding, ..pre }) && act
                == SessionAction::DecodeVideo
        } else {
            &&& post == (Session { phase: Phase::Intake, ..pre })
            &&& act == if pre.audio == Some(stream) {
                SessionAction::DecodeAudio
            } else {
                SessionAction::Poll
            }
        },
        (Phase::Reading, SessionEvent::EndOfFile) => {
            post == (Session { phase: Phase::Ended, ..pre }) && act == SessionAction::ReportEnd
        },
        (Phase::Decoding, SessionEvent::Frame { at }) => frame_step(pre, at, now, post, act),
        (Phase::Decoding, SessionEvent::NoFrame) => {
            post == (Session { phase: Phase::Intake, ..pre }) && act == SessionAction::Poll
        },
        (Phase::Showing { at, wall, remain }, SessionEvent::Command(cmd)) => command_step(
            pre,
            cmd,
            now,
            post,
            act,
        ),
        (Phase::Showing { at, wall, remain }, SessionEvent::NoCommand) => waited_step(
            pre,
            at,
            wall,
            remain,
            now,
            post,
            act,
        ),
        (Phase::Showing { at, wall, remain }, SessionEvent::Disconnected) => waited_step(
            pre,
            at,
            wall,
            remain,
            now,
            post,
            act,
        ),
        (Phase::Ended, SessionEvent::Command(cmd)) => post == pre && act == match cmd {
            Cmd::Stop => SessionAction::Exit(SessionExit::Stop),
            Cmd::Seek(t) => SessionAction::Exit(SessionExit::Seek(from_start(t))),
            Cmd::Play => SessionAction::Exit(SessionExit::Seek(0)),
            _ => SessionAction::Await,
        },
        (Phase::Ended, _) => post == pre && act == SessionAction::Await,
        _ => post == pre && act == SessionAction::Poll,
    }
}

impl Session {
    /// Starts to play at a position. `video` and `audio` are the streams that can be decoded.
    pub fn open(seek: u64, video: Option<usize>, audio: Option<usize>, now: u64) -> (s: Session)
        ensures
            s.phase == Phase::Intake,
            s.clock == (Clock { playing: true, pos: seek, base: now }),
            s.seek == seek,
            s.video == video,
            s.audio == audio,
    {
        Session { phase: Phase::Intake, clock: Clock::start(seek, now), seek, video, audio }
    }

    /// What others are told of the state: 1 while playing, 2 while paused or at the end.
    pub fn state_code(&self) -> (c: u8)
        ensures
            c == if self.clock.playing && !(self.phase is Ended) {
                1u8
            } else {
                2u8
            },
    {
        match self.phase {
            Phase::Ended => 2,
            _ => if self.clock.playing {
                1
            } else {
                2
            },
        }
    }

    fn command(&mut self, cmd: Cmd, now: u64) -> (act: SessionAction)
        ensures
            command_step(*old(self), cmd, now, *final(self), act),
    {
        let c = handle_cmd(cmd, &mut self.clock, now);
        proof {
            assert(cmd_step(cmd, old(self).clock, now, self.clock, c));
        }
        match c {
            CmdAction::Continue => {
                self.phase = Phase::Intake;
                SessionAction::Poll
            },
            CmdAction::SetVolume(v) => {
                self.phase = Phase::Intake;
                SessionAction::SetVolume(v)
            },
            CmdAction::Exit(e) => SessionAction::Exit(e),
        }
    }

    fn anchor(&mut self, at: u64, w: u64, now: u64)
        ensures
            *final(self) == (Session {
                clock: anchored(old(self).clock, at, w, now),
                ..*old(self)
            }),
    {
        self.clock.pos = if at >= w {
            at
        } else {
            w
        };
        self.clock.base = now;
    }

    fn frame(&mut self, at: i64, now: u64) -> (act: SessionAction)
        ensures
            frame_step(*old(self), at, now, *final(self), act),
    {
        if at < 0 || (at as u64) < self.seek {
            return SessionAction::NextFrame;
        }
        let due: u64 = at as u64;
        let w: u64 = self.clock.wall_pos(now);
        if due > w {
            let remain: u64 = due - w;
            self.phase = Phase::Showing { at: due, wall: w, remain };
            SessionAction::Wait { micros: if remain <= SLICE { remain } else { SLICE } }
        } else {
            self.anchor(due, w, now);
            SessionAction::Show
        }
    }

    fn waited(&mut self, at: u64, w: u64, remain: u64, now: u64) -> (act: SessionAction)
        ensures
            waited_step(*old(self), at, w, remain, now, *final(self), act),
    {
        if remain > SLICE {
            let rest: u64 = remain - SLICE;
            self.phase = Phase::Showing { at, wall: w, remain: rest };
            SessionAction::Wait { micros: if rest <= SLICE { rest } else { SLICE } }
        } else {
            self.phase = Phase::Decoding;
            self.anchor(at, w, now);
            SessionAction::Show
        }
    }

    /// Handles what happened, and says what to do next.
    pub fn handle(&mut self, ev: SessionEvent, now: u64) -> (act: SessionAction)
        ensures
            session_step(*old(self), ev, now, *final(self), act),
    {
        match (self.phase, ev) {
            (Phase::Intake, SessionEvent::Command(cmd)) => self.command(cmd, now),
            (Phase::Intake, SessionEvent::NoCommand) => {
                if self.clock.playing {
                    self.phase = Phase::Reading;
                    SessionAction::ReadPacket
                } else {
                    SessionAction::Idle
                }
            },
            (Phase::Intake, SessionEvent::Disconnected) => SessionAction::Exit(SessionExit::Stop),
            (Phase::Reading, SessionEvent::Packet { stream }) => {
                let is_video = match self.video {
                    Some(v) => v == stream,
                    None => false,
                };
                let is_audio = match self.audio {
                    Some(a) => a == stream,
                    None => false,
                };
                if is_video {
                    self.phase = Phase::Decoding;
                    SessionAction::DecodeVideo
                } else {
                    self.phase = Phase::Intake;
                    if is_audio {
                        SessionAction::DecodeAudio
                    } else {
                        SessionAction::Poll
                    }
                }
            },
            (Phase::Reading, SessionEvent::EndOfFile) => {
                self.phase = Phase::Ended;
                SessionAction::ReportEnd
            },
            (Phase::Decoding, SessionEvent::Frame { at }) => self.frame(at, now),
            (Phase::Decoding, SessionEvent::NoFrame) => {
                self.phase = Phase::Intake;
                SessionAction::Poll
            },
            (Phase::Showing { .. }, SessionEvent::Command(cmd)) => self.command(cmd, now),
            (Phase::Showing { at, wall, remain }, SessionEvent::NoCommand) => self.waited(
                at,
                wall,
                remain,
                now,
            ),
            (Phase::Showing { at, wall, remain }, SessionEvent::Disconnected) => self.waited(
                at,
                wall,
                remain,
                now,
            ),
            (Phase::Ended, SessionEvent::Command(cmd)) => match cmd {
                Cmd::Stop => SessionAction::Exit(SessionExit::Stop),
                Cmd::Seek(t) => {
                    let at: u64 = if t >= 0 {
                        t as u64
                    } else {
                        0
                    };
                    SessionAction::Exit(SessionExit::Seek(at))
                },
                Cmd::Play => SessionAction::Exit(SessionExit::Seek(0)),
                _ => SessionAction::Await,
            },
            (Phase::Ended, _) => SessionAction::Await,
            _ => SessionAction::Poll,
        }
    }
}

// ---------------------------------------------------------------------------
// What the user interface is told
// ---------------------------------------------------------------------------

pub enum MediaEvent {
    /// A file was opened; its duration is in microseconds.
    Opened { duration: i64, has_audio: bool },
    Frame { width: u32, height: u32, rgba: Vec<u8> },
    Ended,
    Error(String),
}

/// A file that could be opened. `video` and `audio` are the streams that can be decoded.
#[derive(Clone, Copy, Debug, PartialEq, Eq, Structural)]
pub struct OpenedFile {
    pub duration: i64,
    pub video: Option<usize>,
    pub audio: Option<usize>,
}

/// Where a file has to be taken up before anything is read of it; at its start nothing has to be
/// done.
pub fn take_up_at(seek: u64) -> (r: Option<u64>)
    ensures
        r == if seek > 0 {
            Some(seek)
        } else {
            None
        },
{
    if seek > 0 {
        Some(seek)
    } else {
        None
    }
}

/// What comes of opening a file: one report, and a session just where it could be opened.
pub open spec fn opening(
    file: Result<OpenedFile, String>,
    seek: u64,
    now: u64,
    report: MediaEvent,
    session: Option<Session>,
) -> bool {
    match file {
        Ok(f) => {
            &&& report == (MediaEvent::Opened { duration: f.duration, has_audio: f.audio is Some })
            &&& session == Some(
                Session {
                    phase: Phase::Intake,
                    clock: Clock { playing: true, pos: seek, base: now },
                    seek,
                    video: f.video,
                    audio: f.audio,
                },
            )
        },
        Err(why) => {
            &&& report matches MediaEvent::Error(e)
            &&& e@ == "open: "@ + why@
            &&& session is None
        },
    }
}

/// Starts a session on a file that was opened, or could not be. The report goes out before anything
/// is read of the file.
pub fn open_session(file: Result<OpenedFile, String>, seek: u64, now: u64) -> (r: (
    MediaEvent,
    Option<Session>,
))
    ensures
        opening(file, seek, now, r.0, r.1),
{
    match file {
        Ok(f) => (
            MediaEvent::Opened { duration: f.duration, has_audio: f.audio.is_some() },
            Some(Session::open(seek, f.video, f.audio, now)),
        ),
        Err(why) => (MediaEvent::Error(concat2("open: ", why.as_str())), None),
    }
}

/// What an action of a session tells the user interface: `kept` is the picture that was kept last
/// and not shown yet.
pub open spec fn told(act: SessionAction, kept: Option<MediaEvent>) -> Option<MediaEvent> {
    match act {
        SessionAction::Show => kept,
        SessionAction::ReportEnd => Some(MediaEvent::Ended),
        _ => None,
    }
}

/// Reports an action of a session. A picture that was shown is not kept any longer.
pub fn report(act: SessionAction, kept: &mut Option<MediaEvent>) -> (r: Option<MediaEvent>)
    ensures
        r == told(act, *old(kept)),
        *final(kept) == if act is Show {
            None
        } else {
            *old(kept)
        },
{
    match act {
        SessionAction::Show => kept.take(),
        SessionAction::ReportEnd => Some(MediaEvent::Ended),
        _ => None,
    }
}

/// After a session: where the next one starts, if there is one.
pub fn next_start(exit: SessionExit) -> (r: Option<u64>)
    ensures
        r == match exit {
            SessionExit::Seek(t) => Some(t),
            SessionExit::Stop => None,
        },
{
    match exit {
        SessionExit::Seek(t) => Some(t),
        SessionExit::Stop => None,
    }
}

/// Queues decoded sound; the oldest of it is dropped beyond about a second.
pub fn push_audio<S>(ring: &mut VecDeque<S>, samples: Vec<S>)
    ensures
        final(ring)@ == newest(old(ring)@ + samples@, 88_200),
        final(ring)@.len() <= 88_200,
{
    push_bounded(ring, samples, AUDIO_RING_MAX);
}

// ---------------------------------------------------------------------------
// Laws
// ---------------------------------------------------------------------------

/// A file that could not be opened shows nothing: the error is all there is.
pub proof fn unopened_files_have_no_session(
    why: String,
    seek: u64,
    now: u64,
    report: MediaEvent,
    session: Option<Session>,
)
    requires
        opening(Err::<OpenedFile, String>(why), seek, now, report, session),
    ensures
        session is None,
        report is Error,
{
}

/// Of a file that was opened, commands are heard first and nothing is shown at once.
pub proof fn opened_files_hear_commands_first(
    file: OpenedFile,
    seek: u64,
    now: u64,
    report: MediaEvent,
    session: Option<Session>,
    ev: SessionEvent,
    later: u64,
    post: Session,
    act: SessionAction,
)
    requires
        opening(Ok::<OpenedFile, String>(file), seek, now, report, session),
        session matches Some(s) && session_step(s, ev, later, post, act),
    ensures
        report is Opened,
        !(act is Show),
        told(act, None) is None,
{
}

/// Pausing and going on loses no time: while playback is paused its position stands still, and it
/// goes on from where it was.
pub proof fn pause_keeps_the_position(c: Clock, a: u64, b: u64, paused: Clock, resumed: Clock)
    requires
        c.playing,
        a <= b,
        cmd_step(Cmd::Pause, c, a, paused, CmdAction::Continue),
        cmd_step(Cmd::Play, paused, b, resumed, CmdAction::Continue),
    ensures
        !paused.playing,
        resumed.playing,
        wall(resumed, b) == wall(c, a),
{
}

/// No picture is shown before its time, by more than one stretch of waiting that was cut short.
pub proof fn waits_are_short(pre: Session, ev: SessionEvent, now: u64, post: Session, act: SessionAction)
    requires
        session_step(pre, ev, now, post, act),
        act is Wait,
    ensures
        act->micros <= 50_000,
        post.phase is Showing,
{
}

/// Pictures that lie before the start of a session are never shown.
pub proof fn early_pictures_are_dropped(
    pre: Session,
    at: i64,
    now: u64,
    post: Session,
    act: SessionAction,
)
    requires
        pre.phase == Phase::Decoding,
        session_step(pre, SessionEvent::Frame { at }, now, post, act),
        at < pre.seek,
    ensures
        act == SessionAction::NextFrame,
        post == pre,
{
}

/// While playback is paused nothing is read or shown.
pub proof fn paused_shows_nothing(pre: Session, now: u64, post: Session, act: SessionAction)
    requires
        !pre.clock.playing,
        pre.phase == Phase::Intake,
        session_step(pre, SessionEvent::NoCommand, now, post, act),
    ensures
        act == SessionAction::Idle,
        post == pre,
{
}

/// A command to stop ends the session whatever it is at, once commands are heard.
pub proof fn stop_ends_the_session(pre: Session, now: u64, post: Session, act: SessionAction)
    requires
        pre.phase is Intake || pre.phase is Showing || pre.phase is Ended,
        session_step(pre, SessionEvent::Command(Cmd::Stop), now, post, act),
    ensures
        act == SessionAction::Exit(SessionExit::Stop),
{
}

} // verus!
