//! The two ends of a file transfer.
//!
//! The sender streams a description of the file, its bytes in chunks, and a mark that it is done;
//! the receiver writes what comes to disk and acknowledges.

use vstd::prelude::*;

use crate::cache::{join_path, joined_path};
use crate::frames::{ack_frame, describes_file, done_frame, file_frame, says};
use crate::json::{
    json_number, json_number_at, json_text, json_text_at, json_text_or, text_or,
};
use crate::p2p::{EventModel, P2pEvent, ServingFile};
use crate::preview::{lossy_text, lossy_utf8};
use crate::text::{concat2, contains_text, copy_text, occurs_at, same_text, text_contains};

verus! {

/// The size of a chunk. A connection takes messages of up to 16 KiB.
pub const CHUNK: usize = 8192;

/// How many chunks a number of bytes makes.
pub open spec fn chunk_count(len: nat) -> nat {
    (len + 8191) / 8192
}

/// The bytes of a chunk; the last one may be shorter.
pub open spec fn chunk(bytes: Seq<u8>, i: nat) -> Seq<u8> {
    let from = (i * 8192) as int;
    let to = if from + 8192 <= bytes.len() {
        from + 8192
    } else {
        bytes.len() as int
    };
    bytes.subrange(from, to)
}

pub fn count_chunks(bytes: &Vec<u8>) -> (n: usize)
    ensures
        n == chunk_count(bytes@.len()),
{
    let len: usize = bytes.len();
    if len % CHUNK == 0 {
        len / CHUNK
    } else {
        len / CHUNK + 1
    }
}

pub fn chunk_at(bytes: &Vec<u8>, i: usize) -> (r: Vec<u8>)
    requires
        i < chunk_count(bytes@.len()),
    ensures
        r@ == chunk(bytes@, i as nat),
        0 < r@.len() <= 8192,
{
    let len: usize = bytes.len();
    proof {
        assert(i * 8192 < len) by (nonlinear_arith)
            requires
                i < (len + 8191) / 8192,
        ;
    }
    let from: usize = i * CHUNK;
    let to: usize = if len - from >= CHUNK {
        from + CHUNK
    } else {
        len
    };
    let mut r: Vec<u8> = Vec::new();
    let mut k: usize = from;
    while k < to
        invariant
            from <= k <= to <= bytes.len(),
            r@ == bytes@.subrange(from as int, k as int),
        decreases to - k,
    {
        r.push(bytes[k]);
        k += 1;
        proof {
            assert(r@ =~= bytes@.subrange(from as int, k as int));
        }
    }
    r
}

/// The chunks from the first on, one behind the other.
pub open spec fn glued(bytes: Seq<u8>, n: nat) -> Seq<u8>
    decreases n,
{
    if n == 0 {
        Seq::empty()
    } else {
        glued(bytes, (n - 1) as nat) + chunk(bytes, (n - 1) as nat)
    }
}

proof fn lemma_glued(bytes: Seq<u8>, n: nat)
    requires
        n <= chunk_count(bytes.len()),
    ensures
        glued(bytes, n) == bytes.take(
            if n * 8192 <= bytes.len() {
                (n * 8192) as int
            } else {
                bytes.len() as int
            },
        ),
    decreases n,
{
    if n > 0 {
        let m = (n - 1) as nat;
        lemma_glued(bytes, m);
        assert(m * 8192 < bytes.len());
        let from = (m * 8192) as int;
        let to = if from + 8192 <= bytes.len() {
            from + 8192
        } else {
            bytes.len() as int
        };
        assert(bytes.take(from) + bytes.subrange(from, to) =~= bytes.take(to));
    } else {
        assert(bytes.take(0) =~= Seq::empty());
    }
}

/// The chunks of a file, put together, are the file.
pub proof fn chunks_make_the_file(bytes: Seq<u8>)
    ensures
        glued(bytes, chunk_count(bytes.len())) == bytes,
{
    lemma_glued(bytes, chunk_count(bytes.len()));
    assert(chunk_count(bytes.len()) * 8192 >= bytes.len());
    assert(bytes.take(bytes.len() as int) =~= bytes);
}

// ---------------------------------------------------------------------------
// The sender
// ---------------------------------------------------------------------------

#[derive(Clone, Copy, Debug, PartialEq, Eq, Structural)]
pub enum SenderPhase {
    /// The connection is not open yet.
    Opening,
    /// The description went out; `next` is the chunk to send.
    Streaming { next: usize },
    /// Everything that could be sent was; the acknowledgement is awaited.
    Waiting,
    /// The connection can be closed.
    Over,
}

/// What happened to the connection.
pub enum SenderEvent {
    Opened,
    /// What was asked to be sent was sent, or could not be.
    Sent(bool),
    /// A text came from the receiver.
    Text(Vec<u8>),
    Closed,
    TimedOut,
    /// Anything else.
    Other,
}

/// What the sender does next.
pub enum SenderAction {
    Nothing,
    /// Tell the user that the file is being sent, and send its description.
    Describe { event: P2pEvent, frame: String },
    /// Send a chunk.
    Chunk(Vec<u8>),
    /// Send the mark that all chunks were sent.
    Finish { frame: String },
    /// Close the connection.
    Close,
}

pub struct Sender {
    pub phase: SenderPhase,
}

/// Whether a text acknowledges the file.
pub open spec fn acknowledges(bytes: Seq<u8>) -> bool {
    contains_text(lossy_utf8(bytes), "ack"@)
}

/// The next chunk of a stream, or its end.
pub open spec fn streams(bytes: Seq<u8>, next: nat, post: Sender, act: SenderAction) -> bool {
    if next < chunk_count(bytes.len()) {
        &&& post.phase == SenderPhase::Streaming { next: (next + 1) as usize }
        &&& act matches SenderAction::Chunk(c)
        &&& c@ == chunk(bytes, next)
    } else {
        &&& post.phase == SenderPhase::Waiting
        &&& act matches SenderAction::Finish { frame }
        &&& says(frame@, "/type"@, "done"@)
    }
}

/// One step of the sender of a file.
pub open spec fn sender_step(
    pre: Sender,
    file: ServingFile,
    ev: SenderEvent,
    post: Sender,
    act: SenderAction,
) -> bool {
    match (pre.phase, ev) {
        (SenderPhase::Opening, SenderEvent::Opened) => {
            &&& post.phase == (SenderPhase::Streaming { next: 0 })
            &&& act matches SenderAction::Describe { event, frame }
            &&& event@ == (EventModel::Status { file_id: file.file_id@, status: "sending"@ })
            &&& describes_file(frame@, file)
        },
        (SenderPhase::Opening, SenderEvent::Closed) => {
            post.phase == SenderPhase::Waiting && act is Nothing
        },
        (SenderPhase::Streaming { next }, SenderEvent::Sent(ok)) => if ok {
            streams(file.bytes@, next as nat, post, act)
        } else {
            post.phase == SenderPhase::Waiting && act is Nothing
        },
        (SenderPhase::Waiting, SenderEvent::Text(t)) => if acknowledges(t@) {
            post.phase == SenderPhase::Over && act is Close
        } else {
            post == pre && act is Nothing
        },
        (SenderPhase::Waiting, SenderEvent::Closed) => {
            post.phase == SenderPhase::Over && act is Close
        },
        (SenderPhase::Waiting, SenderEvent::TimedOut) => {
            post.phase == SenderPhase::Over && act is Close
        },
        _ => post == pre && act is Nothing,
    }
}

impl Sender {
    pub fn new() -> (s: Sender)
        ensures
            s.phase == SenderPhase::Opening,
    {
        Sender { phase: SenderPhase::Opening }
    }

    /// How many seconds to wait for the receiver before the connection counts as timed out.
    pub fn wait_seconds(&self) -> (r: Option<u64>)
        ensures
            r == if self.phase == SenderPhase::Waiting {
                Some(30u64)
            } else {
                None
            },
    {
        match self.phase {
            SenderPhase::Waiting => Some(30),
            _ => None,
        }
    }

    /// Handles what happened to the connection over which a file is sent.
    pub fn handle(&mut self, file: &ServingFile, ev: SenderEvent) -> (act: SenderAction)
        ensures
            sender_step(*old(self), *file, ev, *final(self), act),
    {
        match (self.phase, ev) {
            (SenderPhase::Opening, SenderEvent::Opened) => {
                self.phase = SenderPhase::Streaming { next: 0 };
                SenderAction::Describe {
                    event: P2pEvent::Status {
                        file_id: file.file_id.clone(),
                        status: copy_text("sending"),
                    },
                    frame: file_frame(file),
                }
            },
            (SenderPhase::Opening, SenderEvent::Closed) => {
                self.phase = SenderPhase::Waiting;
                SenderAction::Nothing
            },
            (SenderPhase::Streaming { next }, SenderEvent::Sent(ok)) => {
                if !ok {
                    self.phase = SenderPhase::Waiting;
                    return SenderAction::Nothing;
                }
                let n = count_chunks(&file.bytes);
                if next < n {
                    let c = chunk_at(&file.bytes, next);
                    self.phase = SenderPhase::Streaming { next: next + 1 };
                    SenderAction::Chunk(c)
                } else {
                    self.phase = SenderPhase::Waiting;
                    SenderAction::Finish { frame: done_frame() }
                }
            },
            (SenderPhase::Waiting, SenderEvent::Text(t)) => {
                let text = lossy_text(&t);
                if text_contains(text.as_str(), "ack") {
                    self.phase = SenderPhase::Over;
                    SenderAction::Close
                } else {
                    SenderAction::Nothing
                }
            },
            (SenderPhase::Waiting, SenderEvent::Closed) => {
                self.phase = SenderPhase::Over;
                SenderAction::Close
            },
            (SenderPhase::Waiting, SenderEvent::TimedOut) => {
                self.phase = SenderPhase::Over;
                SenderAction::Close
            },
            _ => SenderAction::Nothing,
        }
    }
}

// ---------------------------------------------------------------------------
// The receiver
// ---------------------------------------------------------------------------

/// A file that is being received.
pub struct Download {
    pub file_id: String,
    pub size: u64,
    pub name: String,
    pub mime: String,
    /// How many bytes were written.
    pub received: u64,
    /// Where they were written to.
    pub part: String,
}

/// Where the receiver of a file stands.
#[derive(Clone, Copy, Debug, PartialEq, Eq, Structural)]
pub enum ReceiverStage {
    Reading,
    /// The mark for the end was read; the sender is given time to close the connection.
    Leaving,
    /// The connection can be closed.
    Over,
}

pub struct Receiver {
    /// The directory of received files.
    pub dir: String,
    /// A file that is about to be created.
    pub opening: Option<Download>,
    pub download: Option<Download>,
    pub stage: ReceiverStage,
}

/// What came over the connection, or became of what was asked for.
pub enum ReceiverEvent {
    Text(Vec<u8>),
    /// The file that was asked for was created, or could not be.
    Created(bool),
    /// A chunk was written, or could not be. Its length is that of the chunk.
    Written { len: u64, ok: bool },
    /// The connection is over.
    Closed,
    /// The sender did not close the connection in time.
    TimedOut,
}

/// What the receiver does next.
pub enum ReceiverAction {
    /// Create a file to write to.
    Create { path: String },
    Emit(P2pEvent),
    /// Move the written file to its place, count it as received, report it and answer the sender.
    Complete { file_id: String, part: String, path: String, event: P2pEvent, answer: String },
    /// Close the connection, delete an unfinished file, and report it.
    Abandon { part: String, event: P2pEvent },
    /// Close the connection.
    Close,
}

/// What an action of the receiver says.
pub enum ReceiverModel {
    Create { path: Seq<char> },
    Emit(EventModel),
    Complete {
        file_id: Seq<char>,
        part: Seq<char>,
        path: Seq<char>,
        event: EventModel,
        answer: Seq<char>,
    },
    Abandon { part: Seq<char>, event: EventModel },
    Close,
}

impl View for ReceiverAction {
    type V = ReceiverModel;

    open spec fn view(&self) -> ReceiverModel {
        match *self {
            ReceiverAction::Create { path } => ReceiverModel::Create { path: path@ },
            ReceiverAction::Emit(e) => ReceiverModel::Emit(e@),
            ReceiverAction::Complete { file_id, part, path, event, answer } => {
                ReceiverModel::Complete {
                    file_id: file_id@,
                    part: part@,
                    path: path@,
                    event: event@,
                    answer: answer@,
                }
            },
            ReceiverAction::Abandon { part, event } => ReceiverModel::Abandon {
                part: part@,
                event: event@,
            },
            ReceiverAction::Close => ReceiverModel::Close,
        }
    }
}

pub open spec fn said(a: Option<ReceiverAction>) -> Option<ReceiverModel> {
    match a {
        Some(x) => Some(x@),
        None => None,
    }
}

/// A description of a file opens a download, with its defaults for what is left out.
pub open spec fn described(dir: Seq<char>, text: Seq<char>, d: Download) -> bool {
    &&& d.file_id@ == text_or(json_text(text, "/file_id"@), Seq::empty())
    &&& d.size == match json_number(text, "/size"@) {
        Some(n) => n,
        None => 0,
    }
    &&& d.name@ == text_or(json_text(text, "/name"@), "file"@)
    &&& d.mime@ == text_or(json_text(text, "/mime"@), "application/octet-stream"@)
    &&& d.received == 0
    &&& d.part@ == joined_path(dir, d.file_id@ + ".part"@)
}

/// The kind of a text that comes over the connection.
pub open spec fn frame_kind(text: Seq<char>) -> Option<Seq<char>> {
    json_text(text, "/type"@)
}

/// Progress is reported about every 512 KiB.
pub open spec fn reports(received: int, len: int) -> bool {
    received % 524288 < len
}

/// A file that arrived in full: it gets its place, the user is told of it, and the sender is
/// answered.
pub open spec fn completion(dir: Seq<char>, d: Download) -> ReceiverModel {
    let path = joined_path(dir, d.file_id@);
    ReceiverModel::Complete {
        file_id: d.file_id@,
        part: d.part@,
        path,
        event: EventModel::Complete { file_id: d.file_id@, mime: d.mime@, name: d.name@, path },
        answer: "{\"type\":\"ack\"}"@,
    }
}

/// The end of a connection: an unfinished file is deleted, and the user is told of it.
pub open spec fn parting(d: Option<Download>) -> ReceiverModel {
    match d {
        Some(d) => ReceiverModel::Abandon {
            part: d.part@,
            event: EventModel::Failed { file_id: d.file_id@, reason: "transfer interrupted"@ },
        },
        None => ReceiverModel::Close,
    }
}

/// The receiver is done with the connection.
pub open spec fn over_step(pre: Receiver, post: Receiver, act: Option<ReceiverModel>) -> bool {
    &&& post == (Receiver { download: None, stage: ReceiverStage::Over, ..pre })
    &&& act == Some(parting(pre.download))
}

pub open spec fn text_step(
    pre: Receiver,
    text: Seq<char>,
    post: Receiver,
    act: Option<ReceiverModel>,
) -> bool {
    match frame_kind(text) {
        Some(kind) => if kind == "file"@ {
            &&& post == (Receiver { opening: post.opening, download: None, ..pre })
            &&& post.opening matches Some(d)
            &&& described(pre.dir@, text, d)
            &&& act == Some(ReceiverModel::Create { path: d.part@ })
        } else if kind == "done"@ {
            &&& post == (Receiver { download: None, stage: ReceiverStage::Leaving, ..pre })
            &&& act == match pre.download {
                Some(d) => Some(completion(pre.dir@, d)),
                None => None,
            }
        } else {
            post == pre && act is None
        },
        None => post == pre && act is None,
    }
}

pub open spec fn written_step(
    pre: Receiver,
    len: u64,
    ok: bool,
    post: Receiver,
    act: Option<ReceiverModel>,
) -> bool {
    match pre.download {
        Some(d) => if ok {
            let received = ((d.received + len) % 0x1_0000_0000_0000_0000) as u64;
            &&& post == (Receiver { download: Some(Download { received, ..d }), ..pre })
            &&& act == if reports(received as int, len as int) {
                Some(
                    ReceiverModel::Emit(
                        EventModel::Progress { file_id: d.file_id@, received, total: d.size },
                    ),
                )
            } else {
                None
            }
        } else {
            over_step(pre, post, act)
        },
        None => post == pre && act is None,
    }
}

/// One step of the receiver. Once the mark for the end was read, only the end of the connection
/// matters.
pub open spec fn receiver_step(
    pre: Receiver,
    ev: ReceiverEvent,
    post: Receiver,
    act: Option<ReceiverModel>,
) -> bool {
    match (pre.stage, ev) {
        (ReceiverStage::Reading, ReceiverEvent::Text(t)) => text_step(
            pre,
            lossy_utf8(t@),
            post,
            act,
        ),
        (ReceiverStage::Reading, ReceiverEvent::Created(ok)) => match pre.opening {
            Some(d) => if ok {
                &&& post == (Receiver { opening: None, download: Some(d), ..pre })
                &&& act == Some(
                    ReceiverModel::Emit(
                        EventModel::Status { file_id: d.file_id@, status: "downloading"@ },
                    ),
                )
            } else {
                post == (Receiver { opening: None, ..pre }) && act is None
            },
            None => post == pre && act is None,
        },
        (ReceiverStage::Reading, ReceiverEvent::Written { len, ok }) => written_step(
            pre,
            len,
            ok,
            post,
            act,
        ),
        (ReceiverStage::Reading, ReceiverEvent::Closed) => over_step(pre, post, act),
        (ReceiverStage::Leaving, ReceiverEvent::Closed) => over_step(pre, post, act),
        (ReceiverStage::Leaving, ReceiverEvent::TimedOut) => over_step(pre, post, act),
        _ => post == pre && act is None,
    }
}

impl Receiver {
    pub fn new(dir: String) -> (r: Receiver)
        ensures
            r.dir == dir,
            r.opening is None,
            r.download is None,
            r.stage == ReceiverStage::Reading,
    {
        Receiver { dir, opening: None, download: None, stage: ReceiverStage::Reading }
    }

    /// How many seconds the sender is given to close the connection.
    pub fn wait_seconds(&self) -> (r: Option<u64>)
        ensures
            r == if self.stage == ReceiverStage::Leaving {
                Some(10u64)
            } else {
                None
            },
    {
        match self.stage {
            ReceiverStage::Leaving => Some(10),
            _ => None,
        }
    }

    /// Whether a chunk that comes now is to be written.
    pub fn accepts_chunks(&self) -> (b: bool)
        ensures
            b == (self.download is Some && self.stage == ReceiverStage::Reading),
    {
        match self.stage {
            ReceiverStage::Reading => self.download.is_some(),
            _ => false,
        }
    }

    fn part_ways(&mut self) -> (act: Option<ReceiverAction>)
        ensures
            over_step(*old(self), *final(self), said(act)),
    {
        self.stage = ReceiverStage::Over;
        match self.download.take() {
            Some(d) => Some(
                ReceiverAction::Abandon {
                    part: d.part,
                    event: P2pEvent::Failed {
                        file_id: d.file_id,
                        reason: copy_text("transfer interrupted"),
                    },
                },
            ),
            None => Some(ReceiverAction::Close),
        }
    }

    fn describe(&self, text: &str) -> (d: Download)
        ensures
            described(self.dir@, text@, d),
    {
        proof {
            reveal_strlit("");
            assert(""@ =~= Seq::empty());
        }
        let file_id = json_text_or(text, "/file_id", "");
        let size: u64 = match json_number_at(text, "/size") {
            Some(n) => n,
            None => 0,
        };
        let part_name = concat2(file_id.as_str(), ".part");
        Download {
            size,
            name: json_text_or(text, "/name", "file"),
            mime: json_text_or(text, "/mime", "application/octet-stream"),
            received: 0,
            part: join_path(self.dir.as_str(), part_name.as_str()),
            file_id,
        }
    }

    fn text(&mut self, text: &str) -> (act: Option<ReceiverAction>)
        ensures
            text_step(*old(self), text@, *final(self), said(act)),
    {
        let kind = match json_text_at(text, "/type") {
            Some(k) => k,
            None => return None,
        };
        if same_text(kind.as_str(), "file") {
            let d = self.describe(text);
            let path = d.part.clone();
            self.download = None;
            self.opening = Some(d);
            Some(ReceiverAction::Create { path })
        } else if same_text(kind.as_str(), "done") {
            self.stage = ReceiverStage::Leaving;
            match self.download.take() {
                Some(d) => {
                    let path = join_path(self.dir.as_str(), d.file_id.as_str());
                    Some(
                        ReceiverAction::Complete {
                            file_id: d.file_id.clone(),
                            part: d.part,
                            path: path.clone(),
                            event: P2pEvent::Complete {
                                file_id: d.file_id,
                                mime: d.mime,
                                name: d.name,
                                path,
                            },
                            answer: ack_frame(),
                        },
                    )
                },
                None => None,
            }
        } else {
            None
        }
    }

    fn written(&mut self, len: u64, ok: bool) -> (act: Option<ReceiverAction>)
        ensures
            written_step(*old(self), len, ok, *final(self), said(act)),
    {
        match self.download.take() {
            Some(d) => {
                if !ok {
                    self.download = Some(d);
                    return self.part_ways();
                }
                let received: u64 = d.received.wrapping_add(len);
                let act = if received % 524288 < len {
                    Some(
                        ReceiverAction::Emit(
                            P2pEvent::Progress {
                                file_id: d.file_id.clone(),
                                received,
                                total: d.size,
                            },
                        ),
                    )
                } else {
                    None
                };
                self.download = Some(Download { received, ..d });
                act
            },
            None => None,
        }
    }

    /// Handles what came over the connection.
    pub fn handle(&mut self, ev: ReceiverEvent) -> (act: Option<ReceiverAction>)
        ensures
            receiver_step(*old(self), ev, *final(self), said(act)),
    {
        match (self.stage, ev) {
            (ReceiverStage::Reading, ReceiverEvent::Text(t)) => {
                let text = lossy_text(&t);
                self.text(text.as_str())
            },
            (ReceiverStage::Reading, ReceiverEvent::Created(ok)) => match self.opening.take() {
                Some(d) => {
                    if !ok {
                        return None;
                    }
                    let file_id = d.file_id.clone();
                    self.download = Some(d);
                    Some(
                        ReceiverAction::Emit(
                            P2pEvent::Status { file_id, status: copy_text("downloading") },
                        ),
                    )
                },
                None => None,
            },
            (ReceiverStage::Reading, ReceiverEvent::Written { len, ok }) => self.written(len, ok),
            (ReceiverStage::Reading, ReceiverEvent::Closed) => self.part_ways(),
            (ReceiverStage::Leaving, ReceiverEvent::Closed) => self.part_ways(),
            (ReceiverStage::Leaving, ReceiverEvent::TimedOut) => self.part_ways(),
            _ => None,
        }
    }
}

// ---------------------------------------------------------------------------
// Laws
// ---------------------------------------------------------------------------

/// Sending goes through the chunks in order: when the mark for the end goes out, all of them went
/// out before it.
pub proof fn all_chunks_go_out(
    pre: Sender,
    file: ServingFile,
    ev: SenderEvent,
    post: Sender,
    act: SenderAction,
)
    requires
        sender_step(pre, file, ev, post, act),
        act is Finish,
    ensures
        pre.phase matches SenderPhase::Streaming { next } && next >= chunk_count(file.bytes@.len()),
{
}

/// Every chunk that goes out is the next one, and counts up by one.
pub proof fn chunks_go_out_in_order(
    pre: Sender,
    file: ServingFile,
    ev: SenderEvent,
    post: Sender,
    act: SenderAction,
)
    requires
        sender_step(pre, file, ev, post, act),
        act is Chunk,
    ensures
        pre.phase matches SenderPhase::Streaming { next } && act->Chunk_0@ == chunk(
            file.bytes@,
            next as nat,
        ) && post.phase == (SenderPhase::Streaming { next: (next + 1) as usize }),
{
}

/// A file that was described, written without an error and marked as done is completed under the
/// id, the name and the type of its description, whatever number of chunks it came in.
pub proof fn description_names_the_file(
    opened: Receiver,
    written: Receiver,
    len: u64,
    act: Option<ReceiverModel>,
    done: Seq<char>,
    last: Receiver,
    end: Option<ReceiverModel>,
)
    requires
        opened.download is Some,
        written_step(opened, len, true, written, act),
        frame_kind(done) == Some("done"@),
        text_step(written, done, last, end),
    ensures
        end == Some(completion(opened.dir@, opened.download->0)),
        last.download is None,
{
    reveal_strlit("file");
    reveal_strlit("done");
    assert("file"@[0] != "done"@[0]);
}

/// A connection that ends before the file is done, and a write that fails, leave no unfinished file
/// behind, and the user is told that the transfer was interrupted.
pub proof fn interrupted_files_are_deleted(
    pre: Receiver,
    ev: ReceiverEvent,
    post: Receiver,
    act: Option<ReceiverModel>,
)
    requires
        pre.stage == ReceiverStage::Reading,
        pre.download is Some,
        ev is Closed || (ev matches ReceiverEvent::Written { len, ok } && !ok),
        receiver_step(pre, ev, post, act),
    ensures
        act == Some(
            ReceiverModel::Abandon {
                part: pre.download->0.part@,
                event: EventModel::Failed {
                    file_id: pre.download->0.file_id@,
                    reason: "transfer interrupted"@,
                },
            },
        ),
        post.download is None,
        post.stage == ReceiverStage::Over,
{
}

/// Once a receiver is done with its connection nothing follows: the user is told of the end once,
/// and no file is completed or acknowledged any more.
pub proof fn over_is_over(
    pre: Receiver,
    ev: ReceiverEvent,
    post: Receiver,
    act: Option<ReceiverModel>,
)
    requires
        pre.stage == ReceiverStage::Over,
        receiver_step(pre, ev, post, act),
    ensures
        post == pre,
        act is None,
{
}

/// A file that was completed is not reported as interrupted afterwards.
pub proof fn completed_files_are_kept(
    done: Receiver,
    ev: ReceiverEvent,
    post: Receiver,
    act: Option<ReceiverModel>,
)
    requires
        done.stage == ReceiverStage::Leaving,
        done.download is None,
        receiver_step(done, ev, post, act),
    ensures
        act is None || act == Some(ReceiverModel::Close),
        post.download is None,
        post.stage == ReceiverStage::Leaving || post.stage == ReceiverStage::Over,
{
}

/// The answer of a receiver is understood by the sender.
pub proof fn acknowledgement_is_understood(answer: Seq<u8>)
    requires
        lossy_utf8(answer) == "{\"type\":\"ack\"}"@,
    ensures
        acknowledges(answer),
{
    reveal_strlit("{\"type\":\"ack\"}");
    reveal_strlit("ack");
    let text = "{\"type\":\"ack\"}"@;
    assert(text.subrange(9, 12) =~= "ack"@);
    assert(occurs_at(text, "ack"@, 9));
}

/// What a sender describes is what the receiver opens: the id, the size, the name and the type.
pub proof fn description_arrives(
    start: Receiver,
    frame: Seq<char>,
    file: ServingFile,
    asked: Receiver,
    create: Option<ReceiverModel>,
    opened: Receiver,
    told: Option<ReceiverModel>,
)
    requires
        start.stage == ReceiverStage::Reading,
        describes_file(frame, file),
        text_step(start, frame, asked, create),
        receiver_step(asked, ReceiverEvent::Created(true), opened, told),
    ensures
        is_download_of(opened, file),
        opened.download->0.received == 0,
        opened.stage == ReceiverStage::Reading,
        opened.dir == start.dir,
{
}

/// A receiver that is receiving a file.
pub open spec fn is_download_of(r: Receiver, file: ServingFile) -> bool {
    &&& r.download matches Some(d)
    &&& d.file_id@ == file.file_id@
    &&& d.size == file.size
    &&& d.name@ == file.name@
    &&& d.mime@ == file.mime@
}

/// The two ends of a transfer, and what was written so far.
pub struct Line {
    pub sender: Sender,
    pub receiver: Receiver,
    pub written: Seq<u8>,
}

/// The receiver has written the chunks that the sender has sent.
pub open spec fn in_step(l: Line, file: ServingFile) -> bool {
    &&& l.sender.phase matches SenderPhase::Streaming { next }
    &&& next <= chunk_count(file.bytes@.len())
    &&& l.written == glued(file.bytes@, next as nat)
    &&& is_download_of(l.receiver, file)
    &&& l.receiver.stage == ReceiverStage::Reading
}

/// Every chunk that gets through leaves the two ends in step.
pub proof fn chunks_arrive_in_order(
    pre: Line,
    file: ServingFile,
    act: SenderAction,
    post: Line,
    told: Option<ReceiverModel>,
)
    requires
        in_step(pre, file),
        sender_step(pre.sender, file, SenderEvent::Sent(true), post.sender, act),
        act matches SenderAction::Chunk(c) && post.written == pre.written + c@ && receiver_step(
            pre.receiver,
            ReceiverEvent::Written { len: c@.len() as u64, ok: true },
            post.receiver,
            told,
        ),
    ensures
        in_step(post, file),
{
    let len: usize = file.bytes.len();
    assert(file.bytes@.len() == len);
    let next = pre.sender.phase->next;
    assert((next + 1) as usize == next + 1);
}

/// A file that arrives is the file that was sent: when the mark for the end is read, every byte of
/// it was written, and it is completed under its own id, name and type.
pub proof fn file_arrives_whole(
    pre: Line,
    file: ServingFile,
    sender: Sender,
    act: SenderAction,
    receiver: Receiver,
    end: Option<ReceiverModel>,
)
    requires
        in_step(pre, file),
        sender_step(pre.sender, file, SenderEvent::Sent(true), sender, act),
        act matches SenderAction::Finish { frame } && text_step(
            pre.receiver,
            frame@,
            receiver,
            end,
        ),
    ensures
        pre.written == file.bytes@,
        end matches Some(ReceiverModel::Complete { file_id, part, path, event, answer }) && {
            &&& file_id == file.file_id@
            &&& path == joined_path(pre.receiver.dir@, file.file_id@)
            &&& event == (EventModel::Complete {
                file_id: file.file_id@,
                mime: file.mime@,
                name: file.name@,
                path,
            })
            &&& answer == "{\"type\":\"ack\"}"@
        },
{
    chunks_make_the_file(file.bytes@);
    reveal_strlit("file");
    reveal_strlit("done");
    assert("file"@[0] != "done"@[0]);
}

} // verus!
