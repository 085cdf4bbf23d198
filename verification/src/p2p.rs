//! Peer-to-peer file transfer: who holds which file, who is connected, and what is under way.
//!
//! The server keeps nothing but the description of a file. Whoever wants it sends a `fetch` signal
//! to its sender, who answers with the `offer` of a connection; the other side sends an `answer`,
//! both exchange `ice` candidates, and the bytes travel over that connection.

use vstd::prelude::*;

use crate::assoc::{lemma_lookup_found, Assoc, Key};
use crate::text::{concat2, copy_text, or_empty, same_text, text_or_empty, texts};

verus! {

/// A signaling message that the server relays.
pub struct SignalEvent {
    pub file_id: String,
    pub kind: String,
    pub data: Option<String>,
    pub from_username: Option<String>,
    pub from_user_id: Option<u64>,
}

/// What the transfer manager tells the user interface.
pub enum P2pEvent {
    Status { file_id: String, status: String },
    Progress { file_id: String, received: u64, total: u64 },
    /// The transfer is done; `path` is the file on disk.
    Complete { file_id: String, mime: String, name: String, path: String },
    Failed { file_id: String, reason: String },
}

/// What an event says.
pub enum EventModel {
    Status { file_id: Seq<char>, status: Seq<char> },
    Progress { file_id: Seq<char>, received: u64, total: u64 },
    Complete { file_id: Seq<char>, mime: Seq<char>, name: Seq<char>, path: Seq<char> },
    Failed { file_id: Seq<char>, reason: Seq<char> },
}

impl View for P2pEvent {
    type V = EventModel;

    open spec fn view(&self) -> EventModel {
        match *self {
            P2pEvent::Status { file_id, status } => EventModel::Status {
                file_id: file_id@,
                status: status@,
            },
            P2pEvent::Progress { file_id, received, total } => EventModel::Progress {
                file_id: file_id@,
                received,
                total,
            },
            P2pEvent::Complete { file_id, mime, name, path } => EventModel::Complete {
                file_id: file_id@,
                mime: mime@,
                name: name@,
                path: path@,
            },
            P2pEvent::Failed { file_id, reason } => EventModel::Failed {
                file_id: file_id@,
                reason: reason@,
            },
        }
    }
}

/// A file that is held ready for other users.
pub struct ServingFile {
    pub file_id: String,
    pub mime: String,
    pub name: String,
    pub size: u64,
    pub bytes: Vec<u8>,
}

/// How many seconds a requested file may take to start to come.
pub const FETCH_SECONDS: u64 = 120;

/// What the manager asks its surroundings to do.
pub enum P2pAction {
    Emit(P2pEvent),
    /// Send a signal to another user.
    Signal { kind: String, to_user_id: u64, file_id: String, data: Option<String> },
    /// Report the timeout of a request after some seconds.
    Watch { file_id: String, seconds: u64 },
    /// Open a connection, offer it to the peer, and stream the file over it.
    Offer { file_id: String, peer_id: u64 },
    /// Open a connection for the offer of a peer, and answer it.
    Answer { file_id: String, peer_id: u64, sdp: String },
    /// Hand the answer of a peer to the connection.
    SetRemote { file_id: String, peer_id: u64, sdp: String },
    /// Hand a candidate of a peer to the connection.
    AddIce { file_id: String, peer_id: u64, candidate: String },
    /// Close the connection.
    Close { file_id: String, peer_id: u64 },
}

/// What an action says.
pub enum P2pModel {
    Emit(EventModel),
    Signal { kind: Seq<char>, to_user_id: u64, file_id: Seq<char>, data: Option<Seq<char>> },
    Watch { file_id: Seq<char>, seconds: u64 },
    Offer { file_id: Seq<char>, peer_id: u64 },
    Answer { file_id: Seq<char>, peer_id: u64, sdp: Seq<char> },
    SetRemote { file_id: Seq<char>, peer_id: u64, sdp: Seq<char> },
    AddIce { file_id: Seq<char>, peer_id: u64, candidate: Seq<char> },
    Close { file_id: Seq<char>, peer_id: u64 },
}

impl View for P2pAction {
    type V = P2pModel;

    open spec fn view(&self) -> P2pModel {
        match *self {
            P2pAction::Emit(e) => P2pModel::Emit(e@),
            P2pAction::Signal { kind, to_user_id, file_id, data } => P2pModel::Signal {
                kind: kind@,
                to_user_id,
                file_id: file_id@,
                data: match data {
                    Some(d) => Some(d@),
                    None => None,
                },
            },
            P2pAction::Watch { file_id, seconds } => P2pModel::Watch {
                file_id: file_id@,
                seconds,
            },
            P2pAction::Offer { file_id, peer_id } => P2pModel::Offer { file_id: file_id@, peer_id },
            P2pAction::Answer { file_id, peer_id, sdp } => P2pModel::Answer {
                file_id: file_id@,
                peer_id,
                sdp: sdp@,
            },
            P2pAction::SetRemote { file_id, peer_id, sdp } => P2pModel::SetRemote {
                file_id: file_id@,
                peer_id,
                sdp: sdp@,
            },
            P2pAction::AddIce { file_id, peer_id, candidate } => P2pModel::AddIce {
                file_id: file_id@,
                peer_id,
                candidate: candidate@,
            },
            P2pAction::Close { file_id, peer_id } => P2pModel::Close { file_id: file_id@, peer_id },
        }
    }
}

/// What some actions say.
pub open spec fn asked(acts: Seq<P2pAction>) -> Seq<P2pModel> {
    acts.map_values(|a: P2pAction| a@)
}

fn ask(acts: &mut Vec<P2pAction>, a: P2pAction)
    ensures
        asked(final(acts)@) == asked(old(acts)@).push(a@),
{
    acts.push(a);
    proof {
        assert(asked(acts@) =~= asked(old(acts)@).push(a@));
    }
}

fn nothing() -> (acts: Vec<P2pAction>)
    ensures
        asked(acts@) == Seq::<P2pModel>::empty(),
{
    let acts: Vec<P2pAction> = Vec::new();
    proof {
        assert(asked(acts@) =~= Seq::<P2pModel>::empty());
    }
    acts
}

pub open spec fn status(file_id: Seq<char>, text: Seq<char>) -> P2pModel {
    P2pModel::Emit(EventModel::Status { file_id, status: text })
}

pub open spec fn failed(file_id: Seq<char>, reason: Seq<char>) -> P2pModel {
    P2pModel::Emit(EventModel::Failed { file_id, reason })
}

pub struct P2pManager {
    /// The files that are held ready.
    pub serving: Assoc<String, ServingFile>,
    /// The open connections, by file and peer: a file may go to several peers at once.
    pub peers: Assoc<(String, u64), ()>,
    /// The candidates that came before their connection.
    pub pending_ice: Assoc<(String, u64), Vec<String>>,
    /// The files that were asked for.
    pub fetched: Assoc<String, ()>,
    /// The files that were asked for and did not start to come, with whom was asked.
    pub pending: Assoc<String, u64>,
    /// The files that were received in full.
    pub done: Assoc<String, ()>,
}

/// Whether a file was asked for, is on its way or is there.
pub open spec fn is_known(m: P2pManager, file_id: Seq<char>) -> bool {
    ||| m.fetched@.contains_key(file_id)
    ||| m.done@.contains_key(file_id)
    ||| m.pending@.contains_key(file_id)
}

/// A file is asked for once.
pub open spec fn fetch_step(
    pre: P2pManager,
    file_id: Seq<char>,
    sender_id: u64,
    post: P2pManager,
    acts: Seq<P2pModel>,
) -> bool {
    if is_known(pre, file_id) {
        post == pre && acts.len() == 0
    } else {
        &&& post == (P2pManager { pending: post.pending, fetched: post.fetched, ..pre })
        &&& post.pending@ == pre.pending@.insert(file_id, sender_id)
        &&& post.fetched@ == pre.fetched@.insert(file_id, ())
        &&& acts == seq![
            status(file_id, "waiting"@),
            P2pModel::Signal { kind: "fetch"@, to_user_id: sender_id, file_id, data: None },
            P2pModel::Watch { file_id, seconds: 120 },
        ]
    }
}

/// A file is asked for again, whatever became of it.
pub open spec fn retry_step(
    pre: P2pManager,
    file_id: Seq<char>,
    sender_id: u64,
    post: P2pManager,
    acts: Seq<P2pModel>,
) -> bool {
    &&& post == (P2pManager {
        pending: post.pending,
        fetched: post.fetched,
        done: post.done,
        ..pre
    })
    &&& post.pending@ == pre.pending@.insert(file_id, sender_id)
    &&& post.fetched@ == pre.fetched@.insert(file_id, ())
    &&& post.done@ == pre.done@.remove(file_id)
    &&& acts == seq![
        status(file_id, "waiting"@),
        P2pModel::Signal { kind: "fetch"@, to_user_id: sender_id, file_id, data: None },
        P2pModel::Watch { file_id, seconds: 120 },
    ]
}

/// A file that did not start to come in time is given up.
pub open spec fn timeout_step(
    pre: P2pManager,
    file_id: Seq<char>,
    post: P2pManager,
    acts: Seq<P2pModel>,
) -> bool {
    &&& post == (P2pManager { pending: post.pending, ..pre })
    &&& post.pending@ == pre.pending@.remove(file_id)
    &&& acts == if pre.pending@.contains_key(file_id) {
        seq![failed(file_id, "sender offline or connection timed out"@)]
    } else {
        Seq::empty()
    }
}

/// The candidates that wait for a connection.
pub open spec fn waiting_ice(m: P2pManager, key: (Seq<char>, u64)) -> Seq<Seq<char>> {
    if m.pending_ice@.contains_key(key) {
        texts(m.pending_ice@[key]@)
    } else {
        Seq::empty()
    }
}

/// The candidates of a connection, handed to it one by one.
pub open spec fn ice_actions(key: (Seq<char>, u64), candidates: Seq<Seq<char>>) -> Seq<P2pModel> {
    candidates.map_values(
        |c: Seq<char>| P2pModel::AddIce { file_id: key.0, peer_id: key.1, candidate: c },
    )
}

/// A connection is there; what came too early is handed to it.
pub open spec fn register_step(
    pre: P2pManager,
    key: (Seq<char>, u64),
    post: P2pManager,
    acts: Seq<P2pModel>,
) -> bool {
    &&& post == (P2pManager { peers: post.peers, pending_ice: post.pending_ice, ..pre })
    &&& post.peers@ == pre.peers@.insert(key, ())
    &&& post.pending_ice@ == pre.pending_ice@.remove(key)
    &&& acts == ice_actions(key, waiting_ice(pre, key))
}

/// A connection is over.
pub open spec fn finish_step(
    pre: P2pManager,
    key: (Seq<char>, u64),
    post: P2pManager,
    acts: Seq<P2pModel>,
) -> bool {
    &&& post == (P2pManager { pending: post.pending, peers: post.peers, ..pre })
    &&& post.pending@ == pre.pending@.remove(key.0)
    &&& post.peers@ == pre.peers@.remove(key)
    &&& acts == if pre.peers@.contains_key(key) {
        seq![P2pModel::Close { file_id: key.0, peer_id: key.1 }]
    } else {
        Seq::empty()
    }
}

/// A candidate goes to its connection, or waits for it.
pub open spec fn ice_step(
    pre: P2pManager,
    key: (Seq<char>, u64),
    candidate: Seq<char>,
    post: P2pManager,
    acts: Seq<P2pModel>,
) -> bool {
    if pre.peers@.contains_key(key) {
        post == pre && acts == seq![
            P2pModel::AddIce { file_id: key.0, peer_id: key.1, candidate },
        ]
    } else {
        &&& post == (P2pManager { pending_ice: post.pending_ice, ..pre })
        &&& post.pending_ice@ == pre.pending_ice@.insert(key, post.pending_ice@[key])
        &&& texts(post.pending_ice@[key]@) == waiting_ice(pre, key).push(candidate)
        &&& acts.len() == 0
    }
}

/// The connections of a file, closed one by one.
pub open spec fn closes(pairs: Seq<((String, u64), ())>, file_id: Seq<char>) -> Seq<P2pModel>
    decreases pairs.len(),
{
    if pairs.len() == 0 {
        Seq::empty()
    } else if pairs.last().0.0@ == file_id {
        closes(pairs.drop_last(), file_id).push(
            P2pModel::Close { file_id, peer_id: pairs.last().0.1 },
        )
    } else {
        closes(pairs.drop_last(), file_id)
    }
}

/// A transfer failed: all connections of the file are closed.
pub open spec fn fail_step(
    pre: P2pManager,
    file_id: Seq<char>,
    reason: Seq<char>,
    post: P2pManager,
    acts: Seq<P2pModel>,
) -> bool {
    &&& post == (P2pManager { pending: post.pending, peers: post.peers, ..pre })
    &&& post.pending@ == pre.pending@.remove(file_id)
    &&& forall|k: (Seq<char>, u64)| #[trigger]
        post.peers@.contains_key(k) <==> pre.peers@.contains_key(k) && k.0 != file_id
    &&& acts == closes(pre.peers.pairs@, file_id).push(failed(file_id, reason))
}

pub open spec fn signal_step(
    pre: P2pManager,
    sig: SignalEvent,
    readable: bool,
    post: P2pManager,
    acts: Seq<P2pModel>,
) -> bool {
    let id = sig.file_id@;
    let data = or_empty(sig.data);
    let unchanged = post == pre && acts.len() == 0;
    match sig.from_user_id {
        None => unchanged,
        Some(peer) => {
            let key = (id, peer);
            if peer == 0 {
                unchanged
            } else if sig.kind@ == "fetch"@ {
                post == pre && acts == if pre.serving@.contains_key(id) {
                    seq![P2pModel::Offer { file_id: id, peer_id: peer }]
                } else {
                    seq![
                        P2pModel::Signal {
                            kind: "cancel"@,
                            to_user_id: peer,
                            file_id: id,
                            data: None,
                        },
                    ]
                }
            } else if sig.kind@ == "offer"@ {
                post == pre && acts == if readable {
                    seq![P2pModel::Answer { file_id: id, peer_id: peer, sdp: data }]
                } else {
                    Seq::empty()
                }
            } else if sig.kind@ == "answer"@ {
                post == pre && acts == if readable && pre.peers@.contains_key(key) {
                    seq![P2pModel::SetRemote { file_id: id, peer_id: peer, sdp: data }]
                } else {
                    Seq::empty()
                }
            } else if sig.kind@ == "ice"@ {
                if readable {
                    ice_step(pre, key, data, post, acts)
                } else {
                    unchanged
                }
            } else if sig.kind@ == "cancel"@ {
                &&& acts.len() > 0
                &&& finish_step(pre, key, post, acts.drop_last())
                &&& acts.last() == failed(id, "sender is no longer online"@)
            } else {
                unchanged
            }
        },
    }
}

/// How a connection stands.
#[derive(Clone, Copy, Debug, PartialEq, Eq, Structural)]
pub enum Connection {
    New,
    Connecting,
    Connected,
    Disconnected,
    Failed,
    Closed,
}

/// A connection that came up starts the transfer, one that failed ends it.
pub open spec fn connection_step(
    pre: P2pManager,
    file_id: Seq<char>,
    state: Connection,
    post: P2pManager,
    acts: Seq<P2pModel>,
) -> bool {
    match state {
        Connection::Connected => started_step(pre, file_id, post, acts),
        Connection::Failed => fail_step(pre, file_id, "connection failed"@, post, acts),
        _ => post == pre && acts.len() == 0,
    }
}

/// The connection of a file stands: the file is not waited for any more.
pub open spec fn started_step(
    pre: P2pManager,
    file_id: Seq<char>,
    post: P2pManager,
    acts: Seq<P2pModel>,
) -> bool {
    &&& post == (P2pManager { pending: post.pending, ..pre })
    &&& post.pending@ == pre.pending@.remove(file_id)
    &&& acts == seq![status(file_id, "connecting"@)]
}

impl P2pManager {
    pub fn new() -> (m: P2pManager)
        ensures
            m.serving@ == Map::<Seq<char>, ServingFile>::empty(),
            m.peers@ == Map::<(Seq<char>, u64), ()>::empty(),
            m.pending_ice@ == Map::<(Seq<char>, u64), Vec<String>>::empty(),
            m.fetched@ == Map::<Seq<char>, ()>::empty(),
            m.pending@ == Map::<Seq<char>, u64>::empty(),
            m.done@ == Map::<Seq<char>, ()>::empty(),
    {
        P2pManager {
            serving: Assoc::new(),
            peers: Assoc::new(),
            pending_ice: Assoc::new(),
            fetched: Assoc::new(),
            pending: Assoc::new(),
            done: Assoc::new(),
        }
    }

    /// Holds a file ready for those who fetch it.
    pub fn serve(&mut self, file: ServingFile)
        ensures
            *final(self) == (P2pManager { serving: final(self).serving, ..*old(self) }),
            final(self).serving@ == old(self).serving@.insert(file.file_id@, file),
    {
        self.serving.insert(file.file_id.clone(), file);
    }

    /// The file that is held ready under an id.
    pub fn served(&self, file_id: &String) -> (r: Option<&ServingFile>)
        ensures
            match r {
                Some(f) => self.serving@.contains_key(file_id@) && self.serving@[file_id@] == *f,
                None => !self.serving@.contains_key(file_id@),
            },
    {
        self.serving.get(file_id)
    }

    /// Asks `sender_id` for a file, unless that was done before.
    pub fn fetch(&mut self, file_id: &str, sender_id: u64) -> (acts: Vec<P2pAction>)
        ensures
            fetch_step(*old(self), file_id@, sender_id, *final(self), asked(acts@)),
    {
        let key = copy_text(file_id);
        let mut acts = nothing();
        if self.fetched.contains(&key) || self.done.contains(&key) || self.pending.contains(&key) {
            return acts;
        }
        self.pending.insert(key.clone(), sender_id);
        self.fetched.insert(key.clone(), ());
        ask(
            &mut acts,
            P2pAction::Emit(
                P2pEvent::Status { file_id: key.clone(), status: copy_text("waiting") },
            ),
        );
        ask(
            &mut acts,
            P2pAction::Signal {
                kind: copy_text("fetch"),
                to_user_id: sender_id,
                file_id: key.clone(),
                data: None,
            },
        );
        ask(&mut acts, P2pAction::Watch { file_id: key, seconds: FETCH_SECONDS });
        proof {
            assert(asked(acts@) =~= seq![
                status(file_id@, "waiting"@),
                P2pModel::Signal {
                    kind: "fetch"@,
                    to_user_id: sender_id,
                    file_id: file_id@,
                    data: None,
                },
                P2pModel::Watch { file_id: file_id@, seconds: 120 },
            ]);
        }
        acts
    }

    /// Asks for a file again.
    pub fn retry_fetch(&mut self, file_id: &str, sender_id: u64) -> (acts: Vec<P2pAction>)
        ensures
            retry_step(*old(self), file_id@, sender_id, *final(self), asked(acts@)),
    {
        let key = copy_text(file_id);
        self.fetched.remove(&key);
        self.pending.remove(&key);
        self.done.remove(&key);
        let acts = self.fetch(file_id, sender_id);
        proof {
            let id = file_id@;
            assert(self.pending@ =~= old(self).pending@.insert(id, sender_id));
            assert(self.fetched@ =~= old(self).fetched@.insert(id, ()));
        }
        acts
    }

    /// Two minutes have passed since a file was asked for.
    pub fn timed_out(&mut self, file_id: &str) -> (acts: Vec<P2pAction>)
        ensures
            timeout_step(*old(self), file_id@, *final(self), asked(acts@)),
    {
        let key = copy_text(file_id);
        let mut acts = nothing();
        if self.pending.contains(&key) {
            let reason = copy_text("sender offline or connection timed out");
            ask(&mut acts, P2pAction::Emit(P2pEvent::Failed { file_id: key.clone(), reason }));
        }
        self.pending.remove(&key);
        proof {
            assert(asked(acts@) =~= if old(self).pending@.contains_key(file_id@) {
                seq![failed(file_id@, "sender offline or connection timed out"@)]
            } else {
                Seq::empty()
            });
        }
        acts
    }

    /// A connection was opened.
    pub fn register_peer(&mut self, file_id: &str, peer_id: u64) -> (acts: Vec<P2pAction>)
        ensures
            register_step(*old(self), (file_id@, peer_id), *final(self), asked(acts@)),
    {
        let key = (copy_text(file_id), peer_id);
        let ghost list = waiting_ice(*self, (file_id@, peer_id));
        let ghost all = ice_actions((file_id@, peer_id), list);
        let mut acts = nothing();
        match self.pending_ice.get(&key) {
            Some(waiting) => {
                let mut i: usize = 0;
                while i < waiting.len()
                    invariant
                        i <= waiting.len(),
                        list == texts(waiting@),
                        all == ice_actions((file_id@, peer_id), list),
                        asked(acts@) == all.take(i as int),
                    decreases waiting.len() - i,
                {
                    let candidate = waiting[i].clone();
                    ask(
                        &mut acts,
                        P2pAction::AddIce { file_id: copy_text(file_id), peer_id, candidate },
                    );
                    i += 1;
                    proof {
                        assert(asked(acts@) =~= all.take(i as int));
                    }
                }
            },
            None => {},
        }
        proof {
            assert(asked(acts@) =~= all);
        }
        self.pending_ice.remove(&key);
        self.peers.insert(key, ());
        acts
    }

    /// A connection is over.
    pub fn finish_peer(&mut self, file_id: &str, peer_id: u64) -> (acts: Vec<P2pAction>)
        ensures
            finish_step(*old(self), (file_id@, peer_id), *final(self), asked(acts@)),
    {
        let key = (copy_text(file_id), peer_id);
        let mut acts = nothing();
        self.pending.remove(&key.0);
        if self.peers.contains(&key) {
            ask(&mut acts, P2pAction::Close { file_id: copy_text(file_id), peer_id });
        }
        self.peers.remove(&key);
        proof {
            assert(asked(acts@) =~= if old(self).peers@.contains_key((file_id@, peer_id)) {
                seq![P2pModel::Close { file_id: file_id@, peer_id }]
            } else {
                Seq::empty()
            });
        }
        acts
    }

    /// The connection of a file stands.
    pub fn transfer_started(&mut self, file_id: &str) -> (acts: Vec<P2pAction>)
        ensures
            started_step(*old(self), file_id@, *final(self), asked(acts@)),
    {
        let key = copy_text(file_id);
        let mut acts = nothing();
        self.pending.remove(&key);
        ask(
            &mut acts,
            P2pAction::Emit(P2pEvent::Status { file_id: key, status: copy_text("connecting") }),
        );
        proof {
            assert(asked(acts@) =~= seq![status(file_id@, "connecting"@)]);
        }
        acts
    }

    /// The connection of a file changed.
    pub fn connection_changed(&mut self, file_id: &str, state: Connection) -> (acts: Vec<P2pAction>)
        ensures
            connection_step(*old(self), file_id@, state, *final(self), asked(acts@)),
    {
        match state {
            Connection::Connected => self.transfer_started(file_id),
            Connection::Failed => self.fail_file(file_id, "connection failed"),
            _ => nothing(),
        }
    }

    /// A file was received in full.
    pub fn complete(&mut self, file_id: &str)
        ensures
            *final(self) == (P2pManager {
                pending: final(self).pending,
                done: final(self).done,
                ..*old(self)
            }),
            final(self).pending@ == old(self).pending@.remove(file_id@),
            final(self).done@ == old(self).done@.insert(file_id@, ()),
    {
        let key = copy_text(file_id);
        self.pending.remove(&key);
        self.done.insert(key, ());
    }

    /// The transfer of a file failed.
    pub fn fail_file(&mut self, file_id: &str, reason: &str) -> (acts: Vec<P2pAction>)
        ensures
            fail_step(*old(self), file_id@, reason@, *final(self), asked(acts@)),
    {
        let id = copy_text(file_id);
        self.pending.remove(&id);
        let ghost start = *self;
        let ghost pairs = self.peers.pairs@;
        let ghost before = self.peers@;
        let keys = self.peers.keys();
        let mut acts = nothing();
        let mut i: usize = 0;
        while i < keys.len()
            invariant
                i <= keys.len(),
                id@ == file_id@,
                pairs == start.peers.pairs@,
                before == start.peers@,
                keys.len() == pairs.len(),
                forall|j: int|
                    0 <= j < keys.len() ==> (#[trigger] keys@[j]).key() == pairs[j].0.key(),
                forall|k: (Seq<char>, u64)| #[trigger]
                    before.contains_key(k) ==> exists|j: int|
                        0 <= j < keys.len() && keys@[j].key() == k,
                *self == (P2pManager { peers: self.peers, ..start }),
                forall|k: (Seq<char>, u64)| #[trigger]
                    self.peers@.contains_key(k) <==> before.contains_key(k) && (k.0 != file_id@ || !(
                    exists|j: int| 0 <= j < i && keys@[j].key() == k)),
                asked(acts@) == closes(pairs.take(i as int), file_id@),
            decreases keys.len() - i,
        {
            let ghost held = self.peers@;
            let ghost k0 = keys@[i as int].key();
            proof {
                assert(pairs.take(i + 1).drop_last() =~= pairs.take(i as int));
                assert(pairs.take(i + 1).last() == pairs[i as int]);
            }
            if same_text(keys[i].0.as_str(), file_id) {
                ask(&mut acts, P2pAction::Close { file_id: id.clone(), peer_id: keys[i].1 });
                self.peers.remove(&keys[i]);
            }
            proof {
                assert forall|k: (Seq<char>, u64)| #[trigger]
                    self.peers@.contains_key(k) <==> before.contains_key(k) && (k.0 != file_id@ || !(
                    exists|j: int| 0 <= j < i + 1 && keys@[j].key() == k)) by {
                    if exists|j: int| 0 <= j < i + 1 && keys@[j].key() == k {
                        let j = choose|j: int| 0 <= j < i + 1 && keys@[j].key() == k;
                        if j < i {
                            assert(exists|j: int| 0 <= j < i && keys@[j].key() == k);
                        }
                    }
                    if exists|j: int| 0 <= j < i && keys@[j].key() == k {
                        let j = choose|j: int| 0 <= j < i && keys@[j].key() == k;
                        assert(0 <= j < i + 1 && keys@[j].key() == k);
                    }
                    if k == k0 {
                        assert(0 <= i < i + 1 && keys@[i as int].key() == k);
                    }
                }
            }
            i += 1;
        }
        proof {
            assert(pairs.take(i as int) =~= pairs);
        }
        ask(&mut acts, P2pAction::Emit(P2pEvent::Failed { file_id: id, reason: copy_text(reason) }));
        acts
    }

    fn on_ice(&mut self, file_id: &str, peer_id: u64, candidate: String) -> (acts: Vec<P2pAction>)
        ensures
            ice_step(*old(self), (file_id@, peer_id), candidate@, *final(self), asked(acts@)),
    {
        let key = (copy_text(file_id), peer_id);
        let mut acts = nothing();
        if self.peers.contains(&key) {
            ask(
                &mut acts,
                P2pAction::AddIce { file_id: copy_text(file_id), peer_id, candidate },
            );
            proof {
                assert(asked(acts@) =~= seq![
                    P2pModel::AddIce { file_id: file_id@, peer_id, candidate: candidate@ },
                ]);
            }
            return acts;
        }
        let mut list: Vec<String> = Vec::new();
        match self.pending_ice.get(&key) {
            Some(waiting) => {
                let mut i: usize = 0;
                while i < waiting.len()
                    invariant
                        i <= waiting.len(),
                        texts(list@) == texts(waiting@).take(i as int),
                    decreases waiting.len() - i,
                {
                    let ghost sofar = list@;
                    list.push(waiting[i].clone());
                    proof {
                        assert(texts(list@) =~= texts(sofar).push(waiting@[i as int]@));
                        assert(texts(list@) =~= texts(waiting@).take(i + 1));
                    }
                    i += 1;
                }
            },
            None => {},
        }
        proof {
            assert(texts(list@) =~= waiting_ice(*self, (file_id@, peer_id)));
        }
        let ghost sofar = list@;
        list.push(candidate);
        proof {
            assert(texts(list@) =~= texts(sofar).push(candidate@));
        }
        self.pending_ice.insert(key, list);
        acts
    }

    /// Handles a signal. `readable` says that its data is what its kind calls for: a session
    /// description for `offer` and `answer`, a candidate for `ice`.
    pub fn handle_signal(&mut self, sig: SignalEvent, readable: bool) -> (acts: Vec<P2pAction>)
        ensures
            signal_step(*old(self), sig, readable, *final(self), asked(acts@)),
    {
        let peer_id: u64 = match sig.from_user_id {
            Some(p) => p,
            None => 0,
        };
        let mut acts = nothing();
        if peer_id == 0 {
            return acts;
        }
        let kind = sig.kind.as_str();
        let id = sig.file_id.as_str();
        let data = text_or_empty(&sig.data);
        if same_text(kind, "fetch") {
            if self.serving.contains(&sig.file_id) {
                ask(&mut acts, P2pAction::Offer { file_id: copy_text(id), peer_id });
                proof {
                    assert(asked(acts@) =~= seq![
                        P2pModel::Offer { file_id: sig.file_id@, peer_id },
                    ]);
                }
            } else {
                ask(
                    &mut acts,
                    P2pAction::Signal {
                        kind: copy_text("cancel"),
                        to_user_id: peer_id,
                        file_id: copy_text(id),
                        data: None,
                    },
                );
                proof {
                    assert(asked(acts@) =~= seq![
                        P2pModel::Signal {
                            kind: "cancel"@,
                            to_user_id: peer_id,
                            file_id: sig.file_id@,
                            data: None,
                        },
                    ]);
                }
            }
        } else if same_text(kind, "offer") {
            if readable {
                ask(
                    &mut acts,
                    P2pAction::Answer { file_id: copy_text(id), peer_id, sdp: data },
                );
                proof {
                    assert(asked(acts@) =~= seq![
                        P2pModel::Answer { file_id: sig.file_id@, peer_id, sdp: or_empty(sig.data) },
                    ]);
                }
            }
        } else if same_text(kind, "answer") {
            let key = (copy_text(id), peer_id);
            if readable && self.peers.contains(&key) {
                ask(
                    &mut acts,
                    P2pAction::SetRemote { file_id: copy_text(id), peer_id, sdp: data },
                );
                proof {
                    assert(asked(acts@) =~= seq![
                        P2pModel::SetRemote {
                            file_id: sig.file_id@,
                            peer_id,
                            sdp: or_empty(sig.data),
                        },
                    ]);
                }
            }
        } else if same_text(kind, "ice") {
            if readable {
                return self.on_ice(id, peer_id, data);
            }
        } else if same_text(kind, "cancel") {
            let mut over = self.finish_peer(id, peer_id);
            let ghost sofar = asked(over@);
            let reason = copy_text("sender is no longer online");
            ask(&mut over, P2pAction::Emit(P2pEvent::Failed { file_id: copy_text(id), reason }));
            proof {
                assert(asked(over@).drop_last() =~= sofar);
            }
            return over;
        }
        acts
    }
}

// ---------------------------------------------------------------------------
// Laws
// ---------------------------------------------------------------------------

/// A file is asked for once: a second request changes nothing and asks for nothing.
pub proof fn fetch_is_idempotent(
    pre: P2pManager,
    mid: P2pManager,
    post: P2pManager,
    file_id: Seq<char>,
    first: u64,
    second: u64,
    a: Seq<P2pModel>,
    b: Seq<P2pModel>,
)
    requires
        fetch_step(pre, file_id, first, mid, a),
        fetch_step(mid, file_id, second, post, b),
    ensures
        post == mid,
        b.len() == 0,
{
}

/// A candidate is never lost: one that comes before its connection is handed to it, behind those
/// that came earlier, as soon as the connection is there.
pub proof fn early_candidates_are_delivered(
    pre: P2pManager,
    mid: P2pManager,
    post: P2pManager,
    key: (Seq<char>, u64),
    candidate: Seq<char>,
    a: Seq<P2pModel>,
    b: Seq<P2pModel>,
)
    requires
        !pre.peers@.contains_key(key),
        ice_step(pre, key, candidate, mid, a),
        register_step(mid, key, post, b),
    ensures
        b == ice_actions(key, waiting_ice(pre, key)).push(
            P2pModel::AddIce { file_id: key.0, peer_id: key.1, candidate },
        ),
        waiting_ice(post, key).len() == 0,
{
    assert(b =~= ice_actions(key, waiting_ice(pre, key)).push(
        P2pModel::AddIce { file_id: key.0, peer_id: key.1, candidate },
    ));
}

/// A failure of one file leaves the connections of all others as they are, and none of its own.
pub proof fn failure_stays_with_its_file(
    pre: P2pManager,
    post: P2pManager,
    file_id: Seq<char>,
    reason: Seq<char>,
    acts: Seq<P2pModel>,
    key: (Seq<char>, u64),
)
    requires
        fail_step(pre, file_id, reason, post, acts),
    ensures
        key.0 == file_id ==> !post.peers@.contains_key(key),
        key.0 != file_id ==> (post.peers@.contains_key(key) <==> pre.peers@.contains_key(key)),
{
}

/// A request that was not answered in time can be made again.
pub proof fn retry_after_timeout(
    pre: P2pManager,
    mid: P2pManager,
    post: P2pManager,
    file_id: Seq<char>,
    sender_id: u64,
    a: Seq<P2pModel>,
    b: Seq<P2pModel>,
)
    requires
        timeout_step(pre, file_id, mid, a),
        retry_step(mid, file_id, sender_id, post, b),
    ensures
        post.pending@.contains_key(file_id),
        post.pending@[file_id] == sender_id,
        b.contains(
            P2pModel::Signal { kind: "fetch"@, to_user_id: sender_id, file_id, data: None },
        ),
{
    assert(b[1] == P2pModel::Signal {
        kind: "fetch"@,
        to_user_id: sender_id,
        file_id,
        data: None,
    });
}

// ---------------------------------------------------------------------------
// Addresses
// ---------------------------------------------------------------------------

/// The addresses that a connection is bound to: this machine's own, and the one by which it reaches
/// other machines, where that is another.
pub open spec fn bound_addresses(primary: Option<Seq<char>>) -> Seq<Seq<char>> {
    match primary {
        Some(ip) => if ip == "127.0.0.1"@ {
            seq!["127.0.0.1:0"@]
        } else {
            seq!["127.0.0.1:0"@, ip + ":0"@]
        },
        None => seq!["127.0.0.1:0"@],
    }
}

pub fn udp_addrs(primary: Option<&str>) -> (r: Vec<String>)
    ensures
        texts(r@) == bound_addresses(
            match primary {
                Some(ip) => Some(ip@),
                None => None,
            },
        ),
{
    let mut r: Vec<String> = Vec::new();
    r.push(copy_text("127.0.0.1:0"));
    proof {
        assert(texts(r@) =~= seq!["127.0.0.1:0"@]);
    }
    match primary {
        Some(ip) => {
            if !same_text(ip, "127.0.0.1") {
                let at = concat2(ip, ":0");
                r.push(at);
                proof {
                    assert(texts(r@) =~= seq!["127.0.0.1:0"@, ip@ + ":0"@]);
                }
            }
        },
        None => {},
    }
    r
}

// ---------------------------------------------------------------------------
// How a transfer is established
// ---------------------------------------------------------------------------

proof fn lemma_kinds()
    ensures
        "fetch"@ != "offer"@,
        "fetch"@ != "answer"@,
        "fetch"@ != "ice"@,
        "fetch"@ != "cancel"@,
        "offer"@ != "answer"@,
        "offer"@ != "ice"@,
        "offer"@ != "cancel"@,
        "answer"@ != "ice"@,
        "answer"@ != "cancel"@,
        "ice"@ != "cancel"@,
{
    reveal_strlit("fetch");
    reveal_strlit("offer");
    reveal_strlit("answer");
    reveal_strlit("ice");
    reveal_strlit("cancel");
    assert("fetch"@[0] == 'f');
    assert("offer"@[0] == 'o');
    assert("answer"@[0] == 'a');
    assert("ice"@[0] == 'i');
    assert("cancel"@[0] == 'c');
}

/// A readable answer of a peer reaches the connection that was opened for that file and peer, with
/// its own text and once; without a connection it reaches nothing.
pub proof fn answers_reach_their_connection(
    pre: P2pManager,
    sig: SignalEvent,
    peer: u64,
    post: P2pManager,
    acts: Seq<P2pModel>,
)
    requires
        peer != 0,
        sig.from_user_id == Some(peer),
        sig.kind@ == "answer"@,
        sig.data is Some,
        signal_step(pre, sig, true, post, acts),
    ensures
        post == pre,
        pre.peers@.contains_key((sig.file_id@, peer)) ==> acts.len() == 1 && acts[0]
            == (P2pModel::SetRemote { file_id: sig.file_id@, peer_id: peer, sdp: sig.data->0@ }),
        !pre.peers@.contains_key((sig.file_id@, peer)) ==> acts.len() == 0,
{
    lemma_kinds();
}

/// A connection that was registered stays until it is closed: another one that is registered, a
/// file that is served or asked for, and signals of other kinds leave it where it is.
pub proof fn connections_stay_open(
    pre: P2pManager,
    sig: SignalEvent,
    readable: bool,
    post: P2pManager,
    acts: Seq<P2pModel>,
    key: (Seq<char>, u64),
)
    requires
        pre.peers@.contains_key(key),
        signal_step(pre, sig, readable, post, acts),
        sig.kind@ != "cancel"@,
    ensures
        post.peers@.contains_key(key),
        !acts.contains(P2pModel::Close { file_id: key.0, peer_id: key.1 }),
{
    lemma_kinds();
}

/// An exchange from beginning to end. The one who wants a file asks its sender, who offers a
/// connection and opens it; the offer is answered with a connection of its own, and the answer is
/// handed to the first one. Then both ends have the other's description.
pub proof fn an_exchange_connects_both_ends(
    b0: P2pManager,
    file_id: Seq<char>,
    sender: u64,
    b1: P2pManager,
    asked_b: Seq<P2pModel>,
    receiver: u64,
    a0: P2pManager,
    fetch: SignalEvent,
    a1: P2pManager,
    offered: Seq<P2pModel>,
    a2: P2pManager,
    early_a: Seq<P2pModel>,
    offer: SignalEvent,
    b2: P2pManager,
    answered: Seq<P2pModel>,
    b3: P2pManager,
    early_b: Seq<P2pModel>,
    answer: SignalEvent,
    a3: P2pManager,
    set: Seq<P2pModel>,
)
    requires
        sender != 0,
        receiver != 0,
        !b0.fetched@.contains_key(file_id),
        !b0.done@.contains_key(file_id),
        !b0.pending@.contains_key(file_id),
        fetch_step(b0, file_id, sender, b1, asked_b),
        a0.serving@.contains_key(file_id),
        fetch.kind@ == "fetch"@ && fetch.file_id@ == file_id && fetch.from_user_id == Some(receiver),
        signal_step(a0, fetch, true, a1, offered),
        register_step(a1, (file_id, receiver), a2, early_a),
        offer.kind@ == "offer"@ && offer.file_id@ == file_id && offer.from_user_id == Some(sender)
            && offer.data is Some,
        signal_step(b1, offer, true, b2, answered),
        register_step(b2, (file_id, sender), b3, early_b),
        answer.kind@ == "answer"@ && answer.file_id@ == file_id && answer.from_user_id == Some(
            receiver,
        ) && answer.data is Some,
        signal_step(a2, answer, true, a3, set),
    ensures
        exists|i: int|
            0 <= i < asked_b.len() && asked_b[i] == (P2pModel::Signal {
                kind: "fetch"@,
                to_user_id: sender,
                file_id,
                data: None,
            }),
        b1.pending@.contains_key(file_id) && b1.pending@[file_id] == sender,
        offered.len() == 1 && offered[0] == (P2pModel::Offer { file_id, peer_id: receiver }),
        answered.len() == 1 && answered[0] == (P2pModel::Answer {
            file_id,
            peer_id: sender,
            sdp: offer.data->0@,
        }),
        set.len() == 1 && set[0] == (P2pModel::SetRemote {
            file_id,
            peer_id: receiver,
            sdp: answer.data->0@,
        }),
        a3.peers@.contains_key((file_id, receiver)),
        b3.peers@.contains_key((file_id, sender)),
{
    lemma_kinds();
    assert(asked_b[1] == P2pModel::Signal {
        kind: "fetch"@,
        to_user_id: sender,
        file_id,
        data: None,
    });
}

/// What is asked for is looked after: the sender is asked for the file once, the user sees that it is
/// waited for, and a timeout is set.
pub proof fn files_are_asked_for(
    pre: P2pManager,
    file_id: Seq<char>,
    sender_id: u64,
    post: P2pManager,
    acts: Seq<P2pModel>,
    other: Seq<char>,
)
    requires
        fetch_step(pre, file_id, sender_id, post, acts),
        other != file_id,
    ensures
        pre.fetched@.contains_key(file_id) || pre.done@.contains_key(file_id)
            || pre.pending@.contains_key(file_id) ==> post == pre && acts.len() == 0,
        !(pre.fetched@.contains_key(file_id) || pre.done@.contains_key(file_id)
            || pre.pending@.contains_key(file_id)) ==> {
            &&& acts.len() == 3
            &&& acts[0] == P2pModel::Emit(EventModel::Status { file_id, status: "waiting"@ })
            &&& acts[1] == (P2pModel::Signal {
                kind: "fetch"@,
                to_user_id: sender_id,
                file_id,
                data: None,
            })
            &&& acts[2] is Watch && acts[2]->Watch_file_id == file_id
            &&& post.pending@.contains_key(file_id) && post.pending@[file_id] == sender_id
            &&& post.fetched@.contains_key(file_id)
        },
        post.pending@.contains_key(other) == pre.pending@.contains_key(other),
        post.fetched@.contains_key(other) == pre.fetched@.contains_key(other),
        post.done == pre.done,
        post.serving == pre.serving,
        post.peers == pre.peers,
{
}

/// A retry asks the sender again, whatever became of the file before; only that file is touched.
pub proof fn retries_ask_again(
    pre: P2pManager,
    file_id: Seq<char>,
    sender_id: u64,
    post: P2pManager,
    acts: Seq<P2pModel>,
    other: Seq<char>,
)
    requires
        retry_step(pre, file_id, sender_id, post, acts),
        other != file_id,
    ensures
        exists|i: int|
            0 <= i < acts.len() && acts[i] == (P2pModel::Signal {
                kind: "fetch"@,
                to_user_id: sender_id,
                file_id,
                data: None,
            }),
        acts.contains(P2pModel::Emit(EventModel::Status { file_id, status: "waiting"@ })),
        exists|i: int|
            0 <= i < acts.len() && (#[trigger] acts[i]) is Watch && acts[i]->Watch_file_id == file_id,
        !post.done@.contains_key(file_id),
        post.pending@.contains_key(file_id) && post.pending@[file_id] == sender_id,
        post.pending@.contains_key(other) == pre.pending@.contains_key(other),
        post.done@.contains_key(other) == pre.done@.contains_key(other),
{
    assert(acts[1] == P2pModel::Signal {
        kind: "fetch"@,
        to_user_id: sender_id,
        file_id,
        data: None,
    });
    assert(acts[0] == P2pModel::Emit(EventModel::Status { file_id, status: "waiting"@ }));
    assert(acts[2] is Watch);
}

/// A timeout is reported just where the file is still waited for, and afterwards it is not.
pub proof fn timeouts_are_reported(
    pre: P2pManager,
    file_id: Seq<char>,
    post: P2pManager,
    acts: Seq<P2pModel>,
    other: Seq<char>,
)
    requires
        timeout_step(pre, file_id, post, acts),
        other != file_id,
    ensures
        !post.pending@.contains_key(file_id),
        pre.pending@.contains_key(file_id) ==> acts.len() == 1 && (acts[0] matches P2pModel::Emit(
            EventModel::Failed { file_id: f, reason },
        ) && f == file_id && reason == "sender offline or connection timed out"@),
        !pre.pending@.contains_key(file_id) ==> acts.len() == 0,
        post.pending@.contains_key(other) == pre.pending@.contains_key(other),
        post.peers == pre.peers && post.serving == pre.serving && post.done == pre.done,
{
}

/// What a signal does. A file that is served is offered to whoever asks for it, and one that is not
/// is refused; an offer is answered with its own text; a candidate goes to its connection; a refusal
/// ends the connection and is reported. What comes from nobody, or cannot be read, does nothing.
pub proof fn signals_are_answered(
    pre: P2pManager,
    sig: SignalEvent,
    readable: bool,
    post: P2pManager,
    acts: Seq<P2pModel>,
)
    requires
        signal_step(pre, sig, readable, post, acts),
    ensures
        sig.from_user_id is None || sig.from_user_id == Some(0u64) ==> post == pre && acts.len() == 0,
        sig.from_user_id matches Some(peer) ==> (peer != 0 ==> {
            let key = (sig.file_id@, peer);
            &&& sig.kind@ == "fetch"@ && pre.serving@.contains_key(sig.file_id@) ==> acts.len() == 1
                && acts[0] == (P2pModel::Offer { file_id: sig.file_id@, peer_id: peer })
            &&& sig.kind@ == "fetch"@ && !pre.serving@.contains_key(sig.file_id@) ==> acts.len() == 1
                && acts[0] == (P2pModel::Signal {
                kind: "cancel"@,
                to_user_id: peer,
                file_id: sig.file_id@,
                data: None,
            })
            &&& sig.kind@ == "offer"@ && readable && sig.data is Some ==> acts.len() == 1 && acts[0]
                == (P2pModel::Answer { file_id: sig.file_id@, peer_id: peer, sdp: sig.data->0@ })
            &&& (sig.kind@ == "offer"@ || sig.kind@ == "answer"@ || sig.kind@ == "ice"@) && !readable
                ==> post == pre && acts.len() == 0
            &&& sig.kind@ == "ice"@ && readable && sig.data is Some && pre.peers@.contains_key(key)
                ==> acts.len() == 1 && acts[0] == (P2pModel::AddIce {
                file_id: sig.file_id@,
                peer_id: peer,
                candidate: sig.data->0@,
            })
            &&& sig.kind@ == "ice"@ && readable && sig.data is Some && !pre.peers@.contains_key(key)
                ==> acts.len() == 0 && post.pending_ice@.contains_key(key)
                && post.pending_ice@[key]@.len() > 0 && post.pending_ice@[key]@.last()@
                == sig.data->0@
            &&& sig.kind@ == "cancel"@ ==> {
                &&& !post.peers@.contains_key(key)
                &&& !post.pending@.contains_key(sig.file_id@)
                &&& pre.peers@.contains_key(key) ==> acts.contains(
                    P2pModel::Close { file_id: sig.file_id@, peer_id: peer },
                )
                &&& acts.last() matches P2pModel::Emit(EventModel::Failed { file_id, reason })
                &&& file_id == sig.file_id@ && reason == "sender is no longer online"@
            }
        }),
{
    lemma_kinds();
    match sig.from_user_id {
        Some(peer) => {
            let key = (sig.file_id@, peer);
            if peer != 0 && sig.kind@ == "cancel"@ && pre.peers@.contains_key(key) {
                let over = acts.drop_last();
                assert(over.len() == 1);
                assert(acts[0] == over[0]);
            }
            if peer != 0 && sig.kind@ == "ice"@ && readable && sig.data is Some
                && !pre.peers@.contains_key(key) {
                let list = post.pending_ice@[key]@;
                assert(texts(list).len() == list.len());
                assert(texts(list).last() == list.last()@);
            }
        },
        None => {},
    }
}

/// Every candidate that came early is handed to its connection once, in order, as soon as there is
/// one.
pub proof fn candidates_come_in_order(
    pre: P2pManager,
    key: (Seq<char>, u64),
    post: P2pManager,
    acts: Seq<P2pModel>,
)
    requires
        register_step(pre, key, post, acts),
    ensures
        post.peers@.contains_key(key),
        !post.pending_ice@.contains_key(key),
        pre.pending_ice@.contains_key(key) ==> acts.len() == pre.pending_ice@[key]@.len() && forall|
            i: int,
        |
            0 <= i < acts.len() ==> #[trigger] acts[i] == (P2pModel::AddIce {
                file_id: key.0,
                peer_id: key.1,
                candidate: pre.pending_ice@[key]@[i]@,
            }),
        !pre.pending_ice@.contains_key(key) ==> acts.len() == 0,
{
}

proof fn lemma_closes(pairs: Seq<((String, u64), ())>, file_id: Seq<char>)
    ensures
        forall|k: int|
            0 <= k < pairs.len() && (#[trigger] pairs[k]).0.0@ == file_id ==> closes(
                pairs,
                file_id,
            ).contains(P2pModel::Close { file_id, peer_id: pairs[k].0.1 }),
        forall|i: int|
            0 <= i < closes(pairs, file_id).len() ==> (#[trigger] closes(pairs, file_id)[i]) is Close
                && closes(pairs, file_id)[i]->Close_file_id == file_id,
    decreases pairs.len(),
{
    if pairs.len() > 0 {
        let init = pairs.drop_last();
        lemma_closes(init, file_id);
        let rest = closes(init, file_id);
        let all = closes(pairs, file_id);
        assert forall|k: int| 0 <= k < pairs.len() && (#[trigger] pairs[k]).0.0@ == file_id implies all.contains(
            P2pModel::Close { file_id, peer_id: pairs[k].0.1 },
        ) by {
            let c = P2pModel::Close { file_id, peer_id: pairs[k].0.1 };
            if k < init.len() {
                assert(init[k] == pairs[k]);
                let i = choose|i: int| 0 <= i < rest.len() && rest[i] == c;
                assert(all[i] == c);
            } else {
                assert(all[all.len() - 1] == c);
            }
        }
    }
}

/// A transfer that failed is over: each connection of its file is closed, none of another file is,
/// and the failure is reported last, with its reason.
pub proof fn failed_transfers_are_closed(
    pre: P2pManager,
    file_id: Seq<char>,
    reason: Seq<char>,
    post: P2pManager,
    acts: Seq<P2pModel>,
    peer: u64,
)
    requires
        fail_step(pre, file_id, reason, post, acts),
    ensures
        pre.peers@.contains_key((file_id, peer)) ==> acts.contains(
            P2pModel::Close { file_id, peer_id: peer },
        ),
        forall|i: int|
            0 <= i < acts.len() && (#[trigger] acts[i]) is Close ==> acts[i]->Close_file_id == file_id,
        acts.len() > 0 && acts.last() == P2pModel::Emit(EventModel::Failed { file_id, reason }),
        !post.pending@.contains_key(file_id),
        !post.peers@.contains_key((file_id, peer)),
{
    let pairs = pre.peers.pairs@;
    lemma_closes(pairs, file_id);
    let over = closes(pairs, file_id);
    if pre.peers@.contains_key((file_id, peer)) {
        lemma_lookup_found(pairs, (file_id, peer));
        let k = choose|k: int| 0 <= k < pairs.len() && (#[trigger] pairs[k]).0.key() == (file_id, peer);
        assert(pairs[k].0.0@ == file_id);
        let c = P2pModel::Close { file_id, peer_id: peer };
        let i = choose|i: int| 0 <= i < over.len() && over[i] == c;
        assert(acts[i] == c);
    }
    assert forall|i: int| 0 <= i < acts.len() && (#[trigger] acts[i]) is Close implies acts[i]->Close_file_id
        == file_id by {
        if i < over.len() {
            assert(acts[i] == over[i]);
        }
    }
}

/// A connection that comes up is reported and not waited for any more; one that fails ends the
/// transfer; nothing else matters.
pub proof fn connections_are_followed(
    pre: P2pManager,
    file_id: Seq<char>,
    state: Connection,
    post: P2pManager,
    acts: Seq<P2pModel>,
)
    requires
        connection_step(pre, file_id, state, post, acts),
    ensures
        state == Connection::Connected ==> acts.len() == 1 && acts[0] == P2pModel::Emit(
            EventModel::Status { file_id, status: "connecting"@ },
        ) && !post.pending@.contains_key(file_id) && post.peers == pre.peers,
        state == Connection::Failed ==> acts.len() > 0 && acts.last() == P2pModel::Emit(
            EventModel::Failed { file_id, reason: "connection failed"@ },
        ) && !post.pending@.contains_key(file_id),
        state != Connection::Connected && state != Connection::Failed ==> post == pre && acts.len()
            == 0,
{
}

/// A connection is bound to this machine itself and to the address by which it reaches others,
/// which is not named twice.
pub proof fn addresses_are_distinct(primary: Option<Seq<char>>)
    ensures
        bound_addresses(primary).len() >= 1,
        bound_addresses(primary)[0] == "127.0.0.1:0"@,
        primary matches Some(ip) ==> exists|i: int|
            0 <= i < bound_addresses(primary).len() && bound_addresses(primary)[i] == ip + ":0"@,
        primary is None ==> bound_addresses(primary).len() == 1,
        bound_addresses(primary).len() <= 2,
        bound_addresses(primary).len() == 2 ==> bound_addresses(primary)[0]
            != bound_addresses(primary)[1],
{
    reveal_strlit("127.0.0.1");
    reveal_strlit(":0");
    reveal_strlit("127.0.0.1:0");
    assert("127.0.0.1"@ + ":0"@ =~= "127.0.0.1:0"@);
    match primary {
        Some(ip) => {
            if ip != "127.0.0.1"@ {
                assert(bound_addresses(primary)[1] == ip + ":0"@);
                if ip + ":0"@ == "127.0.0.1:0"@ {
                    assert((ip + ":0"@).len() == 11);
                    assert(ip =~= (ip + ":0"@).take(9));
                    assert("127.0.0.1"@ =~= ("127.0.0.1:0"@).take(9));
                }
            } else {
                assert(bound_addresses(primary)[0] == ip + ":0"@);
            }
        },
        None => {},
    }
}

} // verus!
