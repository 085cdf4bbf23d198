//! Files on their way, the login of the bot, and where things are kept.

use vstd::prelude::*;
use vstd::utf8::encode_utf8;

use crate::bot::{login_step, LoginStep};
use crate::cache::{files_dir, joined_path, media_dir};
use crate::chat::requests::Reply;
use crate::data_url::data_url;
use crate::desktop::settings::first_server;
use crate::img::{
    avatar_outcome, image_size, is_shrunk_jpeg, is_shrunk_png, jpeg_of, png_of, sticker_text,
    thumbnail_url, whole,
};
use crate::json::{json_flag, json_text};
use crate::p2p::{EventModel, ServingFile};
use crate::server::completed;
use crate::text::has_suffix;
use crate::totp::{base32_bytes, big_endian, hmac_sha1, password};
use crate::transfer::{
    acknowledges, chunk, chunk_count, receiver_step, sender_step, Receiver, ReceiverEvent,
    ReceiverModel, ReceiverStage, Sender, SenderAction, SenderEvent, SenderPhase,
};

verus! {

/// A chunk has 8192 bytes, but for the last one, which has what is left; there are as many as it
/// takes.
pub proof fn chunks_are_full(bytes: Seq<u8>, i: nat)
    requires
        i < chunk_count(bytes.len()),
    ensures
        i + 1 < chunk_count(bytes.len()) ==> chunk(bytes, i).len() == 8192,
        i + 1 == chunk_count(bytes.len()) ==> chunk(bytes, i).len() == bytes.len() - i * 8192,
        0 < chunk(bytes, i).len() <= 8192,
        forall|k: int| 0 <= k < chunk(bytes, i).len() ==> #[trigger] chunk(bytes, i)[k] == bytes[i * 8192 + k],
{
}

/// A sender that is ready goes on: it describes the file, sends chunk after chunk, says when all were
/// sent, and leaves once that was heard.
pub proof fn files_are_sent_to_the_end(
    pre: Sender,
    file: ServingFile,
    ev: SenderEvent,
    post: Sender,
    act: SenderAction,
)
    requires
        sender_step(pre, file, ev, post, act),
    ensures
        pre.phase is Opening && ev is Opened ==> (act matches SenderAction::Describe { event, .. }
            && event@ == (EventModel::Status { file_id: file.file_id@, status: "sending"@ }))
            && post.phase == (SenderPhase::Streaming { next: 0 }),
        pre.phase matches SenderPhase::Streaming { next } ==> (ev == SenderEvent::Sent(true) && next
            < chunk_count(file.bytes@.len()) ==> act is Chunk),
        pre.phase matches SenderPhase::Streaming { next } ==> (ev == SenderEvent::Sent(true) && next
            >= chunk_count(file.bytes@.len()) ==> act is Finish && post.phase is Waiting),
        pre.phase is Waiting ==> (ev matches SenderEvent::Text(t) ==> (acknowledges(t@) ==> act is Close
            && post.phase is Over) && (!acknowledges(t@) ==> act is Nothing && post == pre)),
        pre.phase is Waiting && (ev is Closed || ev is TimedOut) ==> act is Close && post.phase is Over,
{
}

/// A receiver tells that a download began, counts what comes, and tells of every half mebibyte.
pub proof fn downloads_are_reported(
    pre: Receiver,
    ev: ReceiverEvent,
    post: Receiver,
    act: Option<ReceiverModel>,
)
    requires
        pre.stage == ReceiverStage::Reading,
        receiver_step(pre, ev, post, act),
    ensures
        ev == ReceiverEvent::Created(true) ==> (pre.opening matches Some(d) ==> post.download == Some(d)
            && act == Some(
            ReceiverModel::Emit(
                EventModel::Status { file_id: d.file_id@, status: "downloading"@ },
            ),
        )),
        ev matches ReceiverEvent::Written { len, ok } ==> (ok ==> (pre.download matches Some(d) ==> (
        d.received + len <= u64::MAX ==> (post.download matches Some(e) && e.received == d.received + len
            && e.file_id == d.file_id && e.part == d.part)))),
        ev matches ReceiverEvent::Written { len, ok } ==> (ok ==> (pre.download matches Some(d) ==> (
        d.received + len <= u64::MAX && d.received as int / 524_288 < (d.received + len) / 524_288
            ==> act == Some(
            ReceiverModel::Emit(
                EventModel::Progress {
                    file_id: d.file_id@,
                    received: (d.received + len) as u64,
                    total: d.size,
                },
            ),
        )))),
{
    if let ReceiverEvent::Written { len, ok } = ev {
        if pre.download is Some {
            let a = pre.download->0.received as int;
            let b = a + len;
            if ok && b <= u64::MAX && a / 524_288 < b / 524_288 {
                assert(b % 0x1_0000_0000_0000_0000 == b);
                assert(b % 524_288 < len) by (nonlinear_arith)
                    requires
                        a >= 0,
                        b == a + len,
                        a / 524_288 < b / 524_288,
                ;
            }
        }
    }
}

/// The bot logs in again after five seconds where it was refused; it answers a demand for a second
/// factor by the password of the time, where it has a secret; and else it is ready.
pub proof fn the_bot_logs_in(reply: Reply, secret: Seq<char>, seconds: u64, next: LoginStep)
    requires
        login_step(reply, secret, seconds, next),
    ensures
        reply is Lost ==> next == (LoginStep::Retry { seconds: 5 }),
        reply matches Reply::Answer { code, body, .. } ==> (code >= 400 ==> next == (LoginStep::Retry {
            seconds: 5,
        })),
        reply matches Reply::Answer { code, body, .. } ==> (code == 200 && json_flag(
            body@,
            "/requires_2fa"@,
        ) == Some(true) && secret.len() == 0 ==> next is GiveUp),
        reply matches Reply::Answer { code, body, .. } ==> (code == 200 && json_flag(
            body@,
            "/requires_2fa"@,
        ) == Some(true) && secret.len() > 0 ==> (next matches LoginStep::SecondFactor {
            pending_token,
            code: c,
        } && c@ == password(
            hmac_sha1(base32_bytes(encode_utf8(secret)), big_endian(seconds / 30)),
        ) && (json_text(body@, "/pending_token"@) matches Some(t) ==> pending_token@ == t))),
        reply matches Reply::Answer { code, body, .. } ==> (code == 200 && json_flag(
            body@,
            "/requires_2fa"@,
        ) != Some(true) ==> (next matches LoginStep::Ready { token } && (json_text(body@, "/token"@) matches Some(
            t,
        ) ==> token@ == t))),
{
}

/// A name is put behind its directory with one slash between them.
pub proof fn files_lie_in_their_directory(dir: Seq<char>, name: Seq<char>)
    ensures
        dir.len() > 0 && dir.last() != '/' && name.len() > 0 && name[0] != '/' ==> joined_path(dir, name)
            == dir + "/"@ + name,
        dir.len() > 0 && dir.last() == '/' && name.len() > 0 && name[0] != '/' ==> joined_path(dir, name)
            == dir + name,
        dir.len() == 0 ==> joined_path(dir, name) == name,
        name.len() > 0 && name[0] == '/' ==> joined_path(dir, name) == name,
{
    reveal_strlit("/");
    if name.len() > 0 {
        assert(name.take(1)[0] == name[0]);
        if name[0] == '/' {
            assert(name.take(1) =~= "/"@);
        }
    }
    if dir.len() > 0 {
        let end = dir.skip(dir.len() - 1);
        assert(end[0] == dir.last());
        assert("/"@[0] == '/');
        if dir.last() == '/' {
            assert(end =~= "/"@);
        }
        assert(has_suffix(dir, "/"@) <==> dir.last() == '/');
    }
}

/// Files are kept in the home directory, or else where the client runs.
pub proof fn files_are_kept_at_home(home: Seq<char>)
    ensures
        home.len() > 0 && home.last() != '/' ==> files_dir(Some(home)) == home + "/"@
            + ".feditexter_files"@,
        files_dir(None) == "."@ + "/"@ + ".feditexter_files"@,
        home.len() > 0 && home.last() != '/' ==> media_dir(home) == home + "/"@ + "media"@,
{
    reveal_strlit(".feditexter_files");
    reveal_strlit("media");
    reveal_strlit(".");
    files_lie_in_their_directory(home, ".feditexter_files"@);
    files_lie_in_their_directory("."@, ".feditexter_files"@);
    files_lie_in_their_directory(home, "media"@);
}

/// The server of the session comes before the one of the environment, and that before the one that was
/// kept.
pub proof fn sessions_decide_the_server(a: Seq<char>, b: Option<Seq<char>>, c: Option<Seq<char>>)
    ensures
        first_server(Some(a), b, c) == completed(a),
        first_server(None, Some(a), c) == completed(a),
        first_server(None, None, Some(a)) == completed(a),
        first_server(None, None, None) == completed("localhost:3000"@),
{
}

/// A picture that is too large is made to fit, and one that is not is kept as it is; what is no picture
/// stays none.
pub proof fn pictures_are_made_to_fit(
    bytes: Seq<u8>,
    max: u32,
    box_size: (u32, u32),
    png: Option<Seq<u8>>,
    jpeg: Option<(Seq<u8>, bool)>,
)
    requires
        is_shrunk_png(bytes, max, box_size, png),
        is_shrunk_jpeg(bytes, max, box_size, jpeg),
        box_size.0 > 0 && box_size.1 > 0,
    ensures
        image_size(bytes) is None ==> png is None && jpeg is None,
        image_size(bytes) matches Some((w, h)) ==> (w <= max && h <= max ==> png == png_of(bytes) && jpeg
            == jpeg_of(bytes)),
        image_size(bytes) matches Some((w, h)) ==> (w > max || h > max ==> (jpeg matches Some((made, ok))
            && ok && (image_size(made) matches Some((x, y)) && x <= box_size.0 && y <= box_size.1 && (w > 0
            && h > 0 ==> x == box_size.0 || y == box_size.1)))),
        image_size(bytes) matches Some((w, h)) ==> (w > max || h > max ==> (png matches Some(made) ==> (
        image_size(made) matches Some((x, y)) && x <= box_size.0 && y <= box_size.1))),
{
}

/// A picture of the user goes out as a PNG in its address; what is none is refused.
pub proof fn avatars_are_checked(b: Seq<u8>)
    ensures
        avatar_outcome(true, Some(b)) == Ok::<Seq<char>, Seq<char>>(
            data_url("data:image/png;base64,"@, b),
        ),
        avatar_outcome(false, None) == Err::<Seq<char>, Seq<char>>("could not decode image"@),
        avatar_outcome(true, None) == Err::<Seq<char>, Seq<char>>("could not encode image"@),
        thumbnail_url(Some((b, true))) == data_url("data:image/jpeg;base64,"@, b),
        thumbnail_url(None).len() == 0,
        sticker_text(None).len() == 0,
        whole(Some((b, true))) == Some(b),
        whole(Some((b, false))) is None,
        whole(None) is None,
{
}

} // verus!
