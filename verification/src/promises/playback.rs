//! Playing media, and the sound and pictures of calls.

use vstd::prelude::*;

use std::collections::VecDeque;

use crate::codec::{concatenated, fitted};
use crate::media::{
    opening, session_step, told, wall, Cmd, MediaEvent, OpenedFile, Phase, Session, SessionAction,
    SessionEvent, SessionExit,
};
use crate::planes::{copied, packed};
use crate::sound::{fronts, newest, popped, suits, Offered};
use crate::video::{capture_of, frame_steps, next_frame_no, picture_event, picture_step};
use crate::voice::{VoiceEvent, VoiceVideoKind};
use crate::yuv::{even_size, round16, I420};

verus! {

/// Commands are obeyed: playing starts and stops, the volume is set, and a jump goes to its place, or
/// to the start where that lies before it.
pub proof fn commands_are_obeyed(pre: Session, cmd: Cmd, now: u64, post: Session, act: SessionAction)
    requires
        pre.phase is Intake,
        session_step(pre, SessionEvent::Command(cmd), now, post, act),
    ensures
        cmd is Play ==> post.clock.playing && act is Poll,
        cmd is Pause ==> !post.clock.playing && act is Poll,
        cmd is Stop ==> act == SessionAction::Exit(SessionExit::Stop),
        cmd matches Cmd::Volume(v) ==> act == SessionAction::SetVolume(v) && post.clock == pre.clock,
        cmd matches Cmd::Seek(t) ==> (act matches SessionAction::Exit(SessionExit::Seek(to)) && (t >= 0
            ==> to == t) && (t < 0 ==> to == 0)),
{
}

/// A picture that is due is shown at once, one that is early is waited for, in pieces of at most a
/// twentieth of a second, and one from before the jump is passed over.
pub proof fn pictures_are_shown_in_time(
    pre: Session,
    at: i64,
    now: u64,
    post: Session,
    act: SessionAction,
)
    requires
        pre.phase is Decoding,
        session_step(pre, SessionEvent::Frame { at }, now, post, act),
    ensures
        at < pre.seek ==> act is NextFrame,
        pre.seek <= at <= wall(pre.clock, now) ==> act is Show && post.phase is Decoding,
        at >= pre.seek && at > wall(pre.clock, now) && at - wall(pre.clock, now) <= 50_000 ==> act == (
        SessionAction::Wait { micros: (at - wall(pre.clock, now)) as u64 }),
        at >= pre.seek && at - wall(pre.clock, now) > 50_000 ==> act == (SessionAction::Wait {
            micros: 50_000,
        }),
        at >= pre.seek && at > wall(pre.clock, now) ==> (post.phase matches Phase::Showing {
            at: a,
            remain,
            ..
        } && a == at && remain == at - wall(pre.clock, now)),
{
}

/// After a wait what is left of it is waited for, and then the picture is shown.
pub proof fn waits_come_to_an_end(
    pre: Session,
    at: u64,
    w: u64,
    remain: u64,
    now: u64,
    post: Session,
    act: SessionAction,
)
    requires
        pre.phase == (Phase::Showing { at, wall: w, remain }),
        session_step(pre, SessionEvent::NoCommand, now, post, act),
    ensures
        remain <= 50_000 ==> act is Show && post.phase is Decoding && post.clock.base == now && (at >= w
            ==> post.clock.pos == at),
        remain > 50_000 ==> (post.phase matches Phase::Showing { remain: r, .. } && r == remain - 50_000)
            && act is Wait,
{
}

/// A packet goes to the decoder of its stream, and the end of the file is reported; after it, playing
/// begins anew.
pub proof fn packets_reach_their_decoder(
    pre: Session,
    stream: usize,
    now: u64,
    post: Session,
    act: SessionAction,
)
    requires
        pre.phase is Reading,
        session_step(pre, SessionEvent::Packet { stream }, now, post, act),
    ensures
        pre.video == Some(stream) ==> act is DecodeVideo && post.phase is Decoding,
        pre.video != Some(stream) && pre.audio == Some(stream) ==> act is DecodeAudio
            && post.phase is Intake,
        pre.video != Some(stream) && pre.audio != Some(stream) ==> act is Poll && post.phase is Intake,
{
}

/// At its end a file is reported to have ended; from there it can be played again from the start.
pub proof fn files_end_and_begin_anew(
    pre: Session,
    now: u64,
    post: Session,
    act: SessionAction,
    cmd: Cmd,
    then: Session,
    last: SessionAction,
)
    requires
        pre.phase is Reading,
        session_step(pre, SessionEvent::EndOfFile, now, post, act),
        session_step(post, SessionEvent::Command(cmd), now, then, last),
    ensures
        act is ReportEnd,
        told(act, None) == Some(MediaEvent::Ended),
        cmd is Play ==> last == SessionAction::Exit(SessionExit::Seek(0)),
        cmd is Stop ==> last == SessionAction::Exit(SessionExit::Stop),
{
}

/// A playing session reads on; one that is paused does nothing.
pub proof fn playing_goes_on(pre: Session, now: u64, post: Session, act: SessionAction)
    requires
        pre.phase is Intake,
        session_step(pre, SessionEvent::NoCommand, now, post, act),
    ensures
        pre.clock.playing ==> act is ReadPacket && post.phase is Reading,
        !pre.clock.playing ==> act is Idle && post == pre,
        post.clock == pre.clock,
{
}

/// A file that was opened plays from where it was to begin, and its length is told; one that could not
/// be is reported with the reason.
pub proof fn opened_files_play(
    file: Result<OpenedFile, String>,
    seek: u64,
    now: u64,
    report: MediaEvent,
    session: Option<Session>,
)
    requires
        opening(file, seek, now, report, session),
    ensures
        file matches Ok(f) ==> (session matches Some(s) && s.clock.playing && s.clock.pos == seek
            && s.seek == seek && s.video == f.video && s.audio == f.audio && wall(s.clock, now) == seek),
        file matches Ok(f) ==> (report matches MediaEvent::Opened { duration, has_audio } && duration
            == f.duration && has_audio == (f.audio is Some)),
        file matches Err(why) ==> session is None && (report matches MediaEvent::Error(e) && e@
            == "open: "@ + why@),
{
}

/// The first picture of a capture can be shown by itself, and so can one in every `key_every` after it.
/// Every picture is handed on.
pub proof fn key_frames_come_regularly(frame_no: u64, key_every: u64, k: u64, picture: I420)
    requires
        key_every > 0,
        frame_no == k * key_every,
    ensures
        frame_steps(frame_no, key_every, picture).len() == 2,
        frame_steps(frame_no, key_every, picture)[0] is Intra,
        frame_steps(frame_no, key_every, picture).last() == picture_step(picture),
        key_every > 1 && frame_no < u64::MAX ==> frame_steps(
            next_frame_no(frame_no),
            key_every,
            picture,
        ) == seq![picture_step(picture)],
{
    assert(frame_no as int % key_every as int == 0) by (nonlinear_arith)
        requires
            key_every > 0,
            frame_no == k * key_every,
    ;
    if key_every > 1 && frame_no < u64::MAX {
        assert((frame_no + 1) as int % key_every as int == 1) by (nonlinear_arith)
            requires
                key_every > 1,
                frame_no == k * key_every,
        ;
    }
}

/// A picture that came in is shown as that of who sent it.
pub proof fn pictures_come_from_their_sender(
    peer_id: u64,
    kind: VoiceVideoKind,
    decoded: Option<(u32, u32, Vec<u8>)>,
)
    ensures
        decoded is None ==> picture_event(peer_id, kind, decoded) is None,
        decoded matches Some((w, h, pixels)) ==> (picture_event(peer_id, kind, decoded) matches Some(
            VoiceEvent::Video { user_id, kind: k, width, height, rgba },
        ) && user_id == peer_id && k == kind && width == w && height == h && rgba == pixels),
{
}

/// A screen is sent larger and more slowly than a camera.
pub proof fn screens_are_sent_larger()
    ensures
        capture_of(VoiceVideoKind::Screen).max_width == 2 * capture_of(VoiceVideoKind::Camera).max_width,
        capture_of(VoiceVideoKind::Screen).bits_per_second == 2 * capture_of(
            VoiceVideoKind::Camera,
        ).bits_per_second,
        capture_of(VoiceVideoKind::Screen).pause_millis > capture_of(VoiceVideoKind::Camera).pause_millis,
        capture_of(VoiceVideoKind::Camera).max_width == 640,
        capture_of(VoiceVideoKind::Camera).bits_per_second == 1_500_000,
        capture_of(VoiceVideoKind::Camera).pause_millis == 66,
        capture_of(VoiceVideoKind::Screen).pause_millis == 100,
        capture_of(VoiceVideoKind::Camera).key_every == 120,
        capture_of(VoiceVideoKind::Screen).key_every == 30,
{
}

/// Of what waits the newest is kept: all of it where there is room, and else the last `max`.
pub proof fn the_newest_is_kept<S>(s: Seq<S>, max: int, i: int)
    requires
        max >= 0,
    ensures
        s.len() <= max ==> newest(s, max) == s,
        s.len() > max ==> newest(s, max).len() == max,
        s.len() > max && 0 <= i < max ==> newest(s, max)[i] == s[s.len() - max + i],
{
}

proof fn lemma_fronts<S>(qs: Seq<(u64, VecDeque<S>)>, k: int)
    requires
        0 <= k < qs.len(),
    ensures
        qs[k].1@.len() > 0 ==> fronts(qs).contains(qs[k].1@[0]),
        fronts(qs).len() <= qs.len(),
        (forall|i: int| 0 <= i < qs.len() ==> (#[trigger] qs[i]).1@.len() > 0) ==> fronts(qs).len()
            == qs.len(),
        (forall|i: int| 0 <= i < qs.len() ==> (#[trigger] qs[i]).1@.len() == 0) ==> fronts(qs).len() == 0,
    decreases qs.len(),
{
    let rest = qs.drop_last();
    let v = fronts(rest);
    if rest.len() > 0 {
        lemma_fronts(
            rest,
            if k < rest.len() {
                k
            } else {
                0
            },
        );
    }
    assert forall|i: int| 0 <= i < rest.len() implies #[trigger] rest[i] == qs[i] by {}
    assert(qs.last() == qs[qs.len() - 1]);
    if k < rest.len() && qs[k].1@.len() > 0 {
        let x = qs[k].1@[0];
        let i = choose|i: int| 0 <= i < v.len() && v[i] == x;
        assert(fronts(qs)[i] == x);
    } else if qs[k].1@.len() > 0 {
        assert(fronts(qs)[v.len() as int] == qs[k].1@[0]);
    }
    if forall|i: int| 0 <= i < qs.len() ==> (#[trigger] qs[i]).1@.len() > 0 {
        assert forall|i: int| 0 <= i < rest.len() implies (#[trigger] rest[i]).1@.len() > 0 by {
            assert(qs[i].1@.len() > 0);
        }
    }
    if forall|i: int| 0 <= i < qs.len() ==> (#[trigger] qs[i]).1@.len() == 0 {
        assert forall|i: int| 0 <= i < rest.len() implies (#[trigger] rest[i]).1@.len() == 0 by {
            assert(qs[i].1@.len() == 0);
        }
    }
}

/// Every speaker with something to say is heard at once: the next sample of each is played, and taken
/// off what waits.
pub proof fn all_speakers_are_heard<S>(qs: Seq<(u64, VecDeque<S>)>, k: int)
    requires
        0 <= k < qs.len(),
    ensures
        qs[k].1@.len() > 0 ==> fronts(qs).contains(qs[k].1@[0]),
        qs[k].1@.len() > 0 ==> seq![qs[k].1@[0]] + popped(qs[k].1@) == qs[k].1@,
        qs[k].1@.len() == 0 ==> popped(qs[k].1@).len() == 0,
        (forall|i: int| 0 <= i < qs.len() ==> (#[trigger] qs[i]).1@.len() > 0) ==> fronts(qs).len()
            == qs.len(),
        (forall|i: int| 0 <= i < qs.len() ==> (#[trigger] qs[i]).1@.len() == 0) ==> fronts(qs).len() == 0,
{
    lemma_fronts(qs, k);
    if qs[k].1@.len() > 0 {
        assert(seq![qs[k].1@[0]] + popped(qs[k].1@) =~= qs[k].1@);
    }
}

/// A packet of sound has the length that it must have: what is missing is silence.
pub proof fn packets_are_filled_with_silence<S>(samples: Seq<S>, n: int, silence: S, i: int)
    requires
        0 <= i < n,
    ensures
        fitted(samples, n, silence).len() == n,
        i < samples.len() ==> fitted(samples, n, silence)[i] == samples[i],
        i >= samples.len() ==> fitted(samples, n, silence)[i] == silence,
{
}

/// The parts of a picture are put behind each other.
pub proof fn parts_are_put_together(ps: Seq<Vec<u8>>, p: Vec<u8>)
    ensures
        concatenated(ps.push(p)) == concatenated(ps) + p@,
        concatenated(Seq::empty()).len() == 0,
{
    assert(ps.push(p).drop_last() =~= ps);
}

/// A device suits where it takes such samples at that rate.
pub proof fn devices_suit_by_their_rate(o: Offered, rate: u32)
    ensures
        suits(o, rate) ==> o.float_samples && o.min_rate <= rate && rate <= o.max_rate,
        o.float_samples && o.min_rate <= rate && rate <= o.max_rate ==> suits(o, rate),
{
}

/// Rows are spread to a multiple of sixteen, by less than sixteen.
pub proof fn rows_are_spread(w: int)
    requires
        w >= 0,
    ensures
        round16(w) % 16 == 0,
        w <= round16(w) < w + 16,
{
}

/// A picture that is encoded has an even size, at most one less than it had, and at least two.
pub proof fn sizes_are_even(n: int)
    requires
        n >= 0,
    ensures
        even_size(n) % 2 == 0,
        even_size(n) >= 2,
        n >= 2 ==> n - 1 <= even_size(n) <= n,
{
}

proof fn lemma_packed(data: Seq<u8>, stride: int, len: int, rows: nat, r: int, c: int)
    requires
        0 <= len <= stride,
        rows * stride <= data.len(),
        0 <= r < rows,
        0 <= c < len,
    ensures
        packed(data, stride, len, rows).len() == rows * len,
        packed(data, stride, len, rows)[r * len + c] == data[r * stride + c],
    decreases rows,
{
    let before = (rows - 1) as nat;
    let from = before * stride;
    assert(from + len <= data.len() && from >= 0 && before * stride <= data.len()) by (nonlinear_arith)
        requires
            before == rows - 1,
            rows >= 1,
            from == before * stride,
            rows * stride <= data.len(),
            0 <= len <= stride,
    ;
    let piece = data.subrange(from, from + len);
    if before > 0 {
        lemma_packed(
            data,
            stride,
            len,
            before,
            if r < before {
                r
            } else {
                0
            },
            c,
        );
    }
    if before == 0 {
        assert(before * len == 0) by (nonlinear_arith)
            requires
                before == 0,
        ;
    }
    assert(packed(data, stride, len, before).len() == before * len);
    assert(rows * len == before * len + len) by (nonlinear_arith)
        requires
            before == rows - 1,
            rows >= 1,
    ;
    if r < before {
        assert(0 <= r * len + c < before * len) by (nonlinear_arith)
            requires
                0 <= r < before,
                0 <= c < len,
        ;
    } else {
        assert(r * len + c == before * len + c);
        assert(piece[c] == data[from + c]);
    }
}

/// Packing drops what lies behind each row, and moves nothing else.
pub proof fn rows_are_packed(data: Seq<u8>, stride: int, len: int, rows: nat, r: int, c: int)
    requires
        0 <= len <= stride,
        rows * stride <= data.len(),
        0 <= r < rows,
        0 <= c < len,
    ensures
        packed(data, stride, len, rows).len() == rows * len,
        packed(data, stride, len, rows)[r * len + c] == data[r * stride + c],
{
    lemma_packed(data, stride, len, rows, r, c);
}

/// Of a row as much is copied as both sides hold.
pub proof fn rows_are_copied_as_far_as_they_go(width: int, from: int, to: int)
    ensures
        copied(width, from, to) <= width && copied(width, from, to) <= from && copied(width, from, to) <= to,
        copied(width, from, to) == width || copied(width, from, to) == from || copied(width, from, to)
            == to,
{
}

} // verus!
