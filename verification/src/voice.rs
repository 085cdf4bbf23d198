//! Voice channels: who is in the channel, who is connected, and what is being captured.
//!
//! Whoever joins a channel gets the list of those in it and offers each of them a connection; those
//! who are there answer. Every connection carries a microphone, a camera and a screen track, so
//! turning a camera on or off only starts or stops the writing of pictures.

use std::collections::HashMap;

use vstd::prelude::*;

use crate::assoc::{distinct_keys, Assoc, Key};
use crate::ids::ids_of;
use crate::number::{decimal, u64_text};
use crate::p2p::{Connection, SignalEvent};
use crate::text::{
    concat2, contains_text, copy_text, has_prefix, or_empty, same_text, starts_with, text_contains,
    text_or_empty, texts,
};

verus! {

/// Which source a video track carries.
#[derive(Clone, Copy, Debug, PartialEq, Eq, Hash, Structural)]
pub enum VoiceVideoKind {
    Camera,
    Screen,
}

/// What the voice manager tells the user interface.
pub enum VoiceEvent {
    Joined { guild_id: u64, channel_id: u64 },
    MemberJoined { user_id: u64, username: String },
    MemberLeft { user_id: u64 },
    /// One decoded picture of another member.
    Video { user_id: u64, kind: VoiceVideoKind, width: u32, height: u32, rgba: Vec<u8> },
    Left,
    Error(String),
}

impl Key for (u64, VoiceVideoKind) {
    type Model = (u64, VoiceVideoKind);

    open spec fn key(&self) -> (u64, VoiceVideoKind) {
        *self
    }

    fn same(&self, other: &(u64, VoiceVideoKind)) -> (b: bool) {
        self.0 == other.0 && self.1 == other.1
    }

    fn duplicate(&self) -> (r: (u64, VoiceVideoKind)) {
        (self.0, self.1)
    }
}

/// What the manager asks its surroundings to do.
pub enum VoiceAction {
    Emit(VoiceEvent),
    /// Tell the server that the user joins a channel.
    SendJoin { guild_id: u64, channel_id: u64 },
    /// Tell the server that the user leaves a channel.
    SendLeave { guild_id: u64, channel_id: u64 },
    /// Send a signal to another member of the channel.
    Signal { kind: String, to_user_id: u64, file_id: String, data: String },
    /// Open a connection and offer it to a member.
    Offer { peer_id: u64 },
    /// Answer the offer of a member, over the connection that is there or else a new one.
    Answer { peer_id: u64, sdp: String, existing: bool },
    SetRemote { peer_id: u64, sdp: String },
    AddIce { peer_id: u64, candidate: String },
    Close { peer_id: u64 },
    /// Forget the tracks of a member and what waits to be played of it.
    DropTracks { peer_id: u64 },
    StartAudio,
    StopAudio,
    StartCapture(VoiceVideoKind),
    StopCapture(VoiceVideoKind),
}

pub struct VoiceManager {
    pub channel_id: Option<u64>,
    pub guild_id: Option<u64>,
    pub self_user_id: u64,
    pub members: HashMap<u64, String>,
    /// The members with whom there is a connection.
    pub peers: Assoc<u64, ()>,
    /// The candidates that came before their connection.
    pub pending_ice: HashMap<u64, Vec<String>>,
    pub muted: bool,
    pub camera_on: bool,
    pub screen_on: bool,
    /// Whether the camera is being captured.
    pub camera_capture: bool,
    /// Whether the screen is being captured.
    pub screen_capture: bool,
    pub audio_running: bool,
    /// Whether there are audio streams to be shut down.
    pub audio_open: bool,
}

impl VoiceManager {
    /// No connection is held twice.
    pub open spec fn wf(&self) -> bool {
        self.peers.distinct()
    }
}

/// A connection ends: its candidates are forgotten and it is closed.
pub open spec fn hangup_step(
    pre: VoiceManager,
    peer_id: u64,
    post: VoiceManager,
    acts: Seq<VoiceAction>,
) -> bool {
    &&& post == (VoiceManager { peers: post.peers, pending_ice: post.pending_ice, ..pre })
    &&& post.peers@ == pre.peers@.remove(peer_id)
    &&& post.pending_ice@ == pre.pending_ice@.remove(peer_id)
    &&& (pre.wf() ==> post.wf())
    &&& acts == hangup_actions(pre.peers@.contains_key(peer_id), peer_id)
}

pub open spec fn hangup_actions(connected: bool, peer_id: u64) -> Seq<VoiceAction> {
    if connected {
        seq![VoiceAction::Close { peer_id }, VoiceAction::DropTracks { peer_id }]
    } else {
        seq![VoiceAction::DropTracks { peer_id }]
    }
}

/// The end of every connection of a list.
pub open spec fn hangups(peers: Seq<(u64, ())>) -> Seq<VoiceAction>
    decreases peers.len(),
{
    if peers.len() == 0 {
        Seq::empty()
    } else {
        hangups(peers.drop_last()) + hangup_actions(true, peers.last().0)
    }
}

/// What ends with the channel: the server is told, connections, sound and captures end.
pub open spec fn leave_actions(s: VoiceManager) -> Seq<VoiceAction> {
    let told = match (s.guild_id, s.channel_id) {
        (Some(guild_id), Some(channel_id)) => seq![
            VoiceAction::SendLeave { guild_id, channel_id },
        ],
        _ => Seq::empty(),
    };
    let sound = if s.audio_open {
        seq![VoiceAction::StopAudio]
    } else {
        Seq::empty()
    };
    let camera = if s.camera_capture {
        seq![VoiceAction::StopCapture(VoiceVideoKind::Camera)]
    } else {
        Seq::empty()
    };
    let screen = if s.screen_capture {
        seq![VoiceAction::StopCapture(VoiceVideoKind::Screen)]
    } else {
        Seq::empty()
    };
    told + hangups(s.peers.pairs@) + sound + camera + screen + seq![
        VoiceAction::Emit(VoiceEvent::Left),
    ]
}

/// Outside of any channel; only whether the user is muted stays.
pub open spec fn left(pre: VoiceManager, post: VoiceManager) -> bool {
    &&& post == (VoiceManager {
        channel_id: None,
        guild_id: None,
        members: post.members,
        peers: post.peers,
        pending_ice: post.pending_ice,
        camera_on: false,
        screen_on: false,
        camera_capture: false,
        screen_capture: false,
        audio_running: false,
        audio_open: false,
        ..pre
    })
    &&& post.members@ == Map::<u64, String>::empty()
    &&& post.peers@ == Map::<u64, ()>::empty()
    &&& post.pending_ice@ == pre.pending_ice@.remove_keys(pre.peers@.dom())
}

/// The members once a list of users was gone through; a later entry of a user counts.
pub open spec fn members_of(users: Seq<(u64, String)>) -> Map<u64, String>
    decreases users.len(),
{
    if users.len() == 0 {
        Map::empty()
    } else {
        members_of(users.drop_last()).insert(users.last().0, users.last().1)
    }
}

/// Every user of a list that is not connected is offered a connection.
pub open spec fn offers(users: Seq<(u64, String)>, peers: Map<u64, ()>) -> Seq<VoiceAction>
    decreases users.len(),
{
    if users.len() == 0 {
        Seq::empty()
    } else {
        let rest = offers(users.drop_last(), peers);
        if peers.contains_key(users.last().0) {
            rest
        } else {
            rest.push(VoiceAction::Offer { peer_id: users.last().0 })
        }
    }
}

/// The server told who is in the channel that the user joined.
pub open spec fn state_step(
    pre: VoiceManager,
    channel_id: u64,
    users: Seq<(u64, String)>,
    post: VoiceManager,
    acts: Seq<VoiceAction>,
) -> bool {
    if pre.channel_id != Some(channel_id) {
        post == pre && acts.len() == 0
    } else {
        let sound = if pre.audio_running {
            Seq::empty()
        } else {
            seq![VoiceAction::StartAudio]
        };
        let news = match pre.guild_id {
            Some(guild_id) => seq![
                VoiceAction::Emit(VoiceEvent::Joined { guild_id, channel_id }),
            ],
            None => Seq::empty(),
        };
        &&& post == (VoiceManager {
            members: post.members,
            audio_running: true,
            audio_open: pre.audio_open || !pre.audio_running,
            ..pre
        })
        &&& post.members@ == members_of(users)
        &&& acts == sound + offers(users, pre.peers@) + news
    }
}

/// Another user joined or left the channel. The one who joins offers the connection.
pub open spec fn presence_step(
    pre: VoiceManager,
    channel_id: u64,
    user_id: u64,
    username: String,
    joined: bool,
    post: VoiceManager,
    acts: Seq<VoiceAction>,
) -> bool {
    if pre.channel_id != Some(channel_id) {
        post == pre && acts.len() == 0
    } else if joined {
        if user_id == pre.self_user_id {
            post == pre && acts.len() == 0
        } else {
            &&& post == (VoiceManager { members: post.members, ..pre })
            &&& post.members@ == pre.members@.insert(user_id, username)
            &&& acts == seq![VoiceAction::Emit(VoiceEvent::MemberJoined { user_id, username })]
        }
    } else {
        &&& post == (VoiceManager {
            members: post.members,
            peers: post.peers,
            pending_ice: post.pending_ice,
            ..pre
        })
        &&& post.members@ == pre.members@.remove(user_id)
        &&& post.peers@ == pre.peers@.remove(user_id)
        &&& post.pending_ice@ == pre.pending_ice@.remove(user_id)
        &&& acts == hangup_actions(pre.peers@.contains_key(user_id), user_id).push(
            VoiceAction::Emit(VoiceEvent::MemberLeft { user_id }),
        )
    }
}

/// The candidates that wait for a connection.
pub open spec fn waiting(m: VoiceManager, peer_id: u64) -> Seq<Seq<char>> {
    if m.pending_ice@.contains_key(peer_id) {
        texts(m.pending_ice@[peer_id]@)
    } else {
        Seq::empty()
    }
}

/// The candidates of a connection are handed to it one by one.
pub open spec fn hands_over(acts: Seq<VoiceAction>, peer: u64, candidates: Seq<Seq<char>>) -> bool {
    &&& acts.len() == candidates.len()
    &&& forall|i: int|
        0 <= i < acts.len() ==> ((#[trigger] acts[i]) matches VoiceAction::AddIce {
            peer_id,
            candidate,
        } && peer_id == peer && candidate@ == candidates[i])
}

pub open spec fn ice_step(
    pre: VoiceManager,
    peer_id: u64,
    candidate: Seq<char>,
    post: VoiceManager,
    acts: Seq<VoiceAction>,
) -> bool {
    if pre.peers@.contains_key(peer_id) {
        post == pre && hands_over(acts, peer_id, seq![candidate])
    } else {
        &&& post == (VoiceManager { pending_ice: post.pending_ice, ..pre })
        &&& post.pending_ice@ == pre.pending_ice@.insert(peer_id, post.pending_ice@[peer_id])
        &&& waiting(post, peer_id) == waiting(pre, peer_id).push(candidate)
        &&& acts.len() == 0
    }
}

pub open spec fn register_step(
    pre: VoiceManager,
    peer_id: u64,
    post: VoiceManager,
    acts: Seq<VoiceAction>,
) -> bool {
    &&& post == (VoiceManager { peers: post.peers, pending_ice: post.pending_ice, ..pre })
    &&& post.peers@ == pre.peers@.insert(peer_id, ())
    &&& post.pending_ice@ == pre.pending_ice@.remove(peer_id)
    &&& hands_over(acts, peer_id, waiting(pre, peer_id))
}

/// A channel was joined, after the one that the user was in was left.
pub open spec fn join_step(
    pre: VoiceManager,
    guild_id: u64,
    channel_id: u64,
    self_user_id: u64,
    post: VoiceManager,
    acts: Seq<VoiceAction>,
) -> bool {
    &&& post.channel_id == Some(channel_id)
    &&& post.guild_id == Some(guild_id)
    &&& post.self_user_id == self_user_id
    &&& match pre.channel_id {
        Some(_) => {
            &&& left(
                pre,
                (VoiceManager {
                    channel_id: None,
                    guild_id: None,
                    self_user_id: pre.self_user_id,
                    ..post
                }),
            )
            &&& acts == leave_actions(pre).push(VoiceAction::SendJoin { guild_id, channel_id })
        },
        None => {
            &&& post == (VoiceManager {
                channel_id: Some(channel_id),
                guild_id: Some(guild_id),
                self_user_id,
                ..pre
            })
            &&& acts == seq![VoiceAction::SendJoin { guild_id, channel_id }]
        },
    }
}

/// The connection with a member changed.
pub open spec fn changed_step(
    pre: VoiceManager,
    peer_id: u64,
    state: Connection,
    post: VoiceManager,
    acts: Seq<VoiceAction>,
) -> bool {
    if state == Connection::Failed || state == Connection::Closed || state
        == Connection::Disconnected {
        hangup_step(pre, peer_id, post, acts)
    } else {
        post == pre && acts.len() == 0
    }
}

/// The signal to another member of the channel that the user is in.
pub open spec fn is_signal(
    m: VoiceManager,
    kind: Seq<char>,
    to: u64,
    data: Seq<char>,
    act: Option<VoiceAction>,
) -> bool {
    match m.channel_id {
        Some(c) => act matches Some(VoiceAction::Signal { kind: k, to_user_id, file_id, data: d })
            && k@ == kind && to_user_id == to && file_id@ == "voice-"@ + decimal(c as nat) && d@
            == data,
        None => act is None,
    }
}

pub open spec fn signal_step(
    pre: VoiceManager,
    sig: SignalEvent,
    readable: bool,
    post: VoiceManager,
    acts: Seq<VoiceAction>,
) -> bool {
    let unchanged = post == pre && acts.len() == 0;
    let data = or_empty(sig.data);
    match sig.from_user_id {
        None => unchanged,
        Some(peer) => if peer == 0 || !has_prefix(sig.file_id@, "voice-"@) {
            unchanged
        } else if sig.kind@ == "voice_offer"@ {
            if readable {
                &&& post == pre
                &&& acts.len() == 1
                &&& acts[0] matches VoiceAction::Answer { peer_id, sdp, existing }
                &&& peer_id == peer
                &&& sdp@ == data
                &&& existing == pre.peers@.contains_key(peer)
            } else {
                unchanged
            }
        } else if sig.kind@ == "voice_answer"@ {
            if readable && pre.peers@.contains_key(peer) {
                &&& post == pre
                &&& acts.len() == 1
                &&& acts[0] matches VoiceAction::SetRemote { peer_id, sdp }
                &&& peer_id == peer
                &&& sdp@ == data
            } else {
                unchanged
            }
        } else if sig.kind@ == "voice_ice"@ {
            if readable {
                ice_step(pre, peer, data, post, acts)
            } else {
                unchanged
            }
        } else if sig.kind@ == "voice_hangup"@ {
            hangup_step(pre, peer, post, acts)
        } else {
            unchanged
        },
    }
}

/// The end of a capture, where there is one.
pub open spec fn stops(capture: bool, kind: VoiceVideoKind) -> Seq<VoiceAction> {
    if capture {
        seq![VoiceAction::StopCapture(kind)]
    } else {
        Seq::empty()
    }
}

/// Turning a source on or off starts or ends its capture; turning it to what it is does nothing.
pub open spec fn capture_actions(
    now: bool,
    on: bool,
    capture: bool,
    kind: VoiceVideoKind,
) -> Seq<VoiceAction> {
    if now == on {
        Seq::empty()
    } else if on {
        stops(capture, kind).push(VoiceAction::StartCapture(kind))
    } else {
        stops(capture, kind)
    }
}

/// The ids of a list grow.
pub open spec fn ids_grow(list: Seq<(u64, String)>) -> bool {
    forall|i: int, j: int|
        0 <= i < j < list.len() ==> (#[trigger] list[i]).0 < (#[trigger] list[j]).0
}

/// The list of members, ordered by id, each with their name.
pub open spec fn is_member_list(list: Seq<(u64, String)>, members: Map<u64, String>) -> bool {
    &&& ids_grow(list)
    &&& forall|i: int|
        0 <= i < list.len() ==> members.contains_key((#[trigger] list[i]).0) && members[list[i].0]
            == list[i].1
    &&& forall|id: u64| #[trigger]
        members.contains_key(id) ==> exists|i: int| 0 <= i < list.len() && list[i].0 == id
}

fn put_sorted(list: &mut Vec<(u64, String)>, id: u64, name: String)
    requires
        ids_grow(old(list)@),
        forall|i: int| 0 <= i < old(list)@.len() ==> (#[trigger] old(list)@[i]).0 != id,
    ensures
        ids_grow(final(list)@),
        exists|p: int|
            0 <= p <= old(list)@.len() && final(list)@ == old(list)@.insert(p, (id, name)),
{
    let mut p: usize = 0;
    while p < list.len() && list[p].0 < id
        invariant
            list@ == old(list)@,
            p <= list.len(),
            forall|i: int| 0 <= i < p ==> (#[trigger] list@[i]).0 < id,
        decreases list.len() - p,
    {
        p += 1;
    }
    let ghost before = list@;
    let ghost item = (id, name);
    proof {
        assert forall|k: int| p <= k < before.len() implies (#[trigger] before[k]).0 > id by {
            assert(before[p as int].0 != id);
            if k > p {
                assert(before[p as int].0 < before[k].0);
            }
        }
    }
    list.insert(p, (id, name));
    proof {
        let after = before.insert(p as int, item);
        assert(list@ == after);
        assert forall|i: int, j: int| 0 <= i < j < after.len() implies (#[trigger] after[i]).0 < (
        #[trigger] after[j]).0 by {
            if i < p {
                assert(after[i] == before[i]);
                if j < p {
                    assert(after[j] == before[j]);
                } else if j > p {
                    assert(after[j] == before[j - 1]);
                }
            } else if i == p {
                assert(after[j] == before[j - 1]);
            } else {
                assert(after[i] == before[i - 1]);
                assert(after[j] == before[j - 1]);
            }
        }
    }
}

impl VoiceManager {
    pub fn new() -> (m: VoiceManager)
        ensures
            m.channel_id is None && m.guild_id is None && m.self_user_id == 0,
            m.members@ == Map::<u64, String>::empty(),
            m.peers@ == Map::<u64, ()>::empty(),
            m.pending_ice@ == Map::<u64, Vec<String>>::empty(),
            !m.muted && !m.camera_on && !m.screen_on && !m.camera_capture && !m.screen_capture,
            !m.audio_running && !m.audio_open,
            m.wf(),
    {
        VoiceManager {
            channel_id: None,
            guild_id: None,
            self_user_id: 0,
            members: HashMap::new(),
            peers: Assoc::new(),
            pending_ice: HashMap::new(),
            muted: false,
            camera_on: false,
            screen_on: false,
            camera_capture: false,
            screen_capture: false,
            audio_running: false,
            audio_open: false,
        }
    }

    /// The channel that the user is in.
    pub fn in_channel(&self) -> (r: Option<u64>)
        ensures
            r == self.channel_id,
    {
        self.channel_id
    }

    /// The members of the channel, ordered by id.
    pub fn members(&self) -> (r: Vec<(u64, String)>)
        ensures
            is_member_list(r@, self.members@),
    {
        let keys = ids_of(&self.members);
        let ghost all = self.members@;
        let mut r: Vec<(u64, String)> = Vec::new();
        let mut i: usize = 0;
        while i < keys.len()
            invariant
                i <= keys.len(),
                all == self.members@,
                keys@.no_duplicates(),
                forall|k: u64| #[trigger] all.contains_key(k) <==> keys@.contains(k),
                ids_grow(r@),
                forall|a: int|
                    0 <= a < r@.len() ==> all.contains_key((#[trigger] r@[a]).0) && all[r@[a].0]
                        == r@[a].1,
                forall|j: int|
                    0 <= j < i ==> exists|a: int|
                        0 <= a < r@.len() && (#[trigger] r@[a]).0 == #[trigger] keys@[j],
                forall|a: int|
                    0 <= a < r@.len() ==> exists|j: int|
                        0 <= j < i && #[trigger] keys@[j] == (#[trigger] r@[a]).0,
            decreases keys.len() - i,
        {
            let id = keys[i];
            proof {
                assert forall|a: int| 0 <= a < r@.len() implies (#[trigger] r@[a]).0 != id by {
                    let j = choose|j: int| 0 <= j < i && keys@[j] == r@[a].0;
                    assert(keys@[j] != keys@[i as int]);
                }
                assert(keys@.contains(id));
                assert(all.contains_key(id));
            }
            match self.members.get(&id) {
                Some(name) => {
                    let ghost before = r@;
                    let name = name.clone();
                    put_sorted(&mut r, id, name);
                    proof {
                        let p = choose|p: int|
                            0 <= p <= before.len() && r@ == before.insert(p, (id, name));
                        assert(r@[p] == (id, name));
                        assert forall|a: int| 0 <= a < r@.len() implies all.contains_key(
                            (#[trigger] r@[a]).0,
                        ) && all[r@[a].0] == r@[a].1 && exists|j: int|
                            0 <= j < i + 1 && #[trigger] keys@[j] == r@[a].0 by {
                            if a < p {
                                assert(r@[a] == before[a]);
                                let j = choose|j: int| 0 <= j < i && keys@[j] == before[a].0;
                                assert(keys@[j] == r@[a].0);
                            } else if a > p {
                                assert(r@[a] == before[a - 1]);
                                let j = choose|j: int| 0 <= j < i && keys@[j] == before[a - 1].0;
                                assert(keys@[j] == r@[a].0);
                            } else {
                                assert(keys@[i as int] == r@[a].0);
                            }
                        }
                        assert forall|j: int| 0 <= j < i + 1 implies exists|a: int|
                            0 <= a < r@.len() && (#[trigger] r@[a]).0 == #[trigger] keys@[j] by {
                            if j < i {
                                let a = choose|a: int|
                                    0 <= a < before.len() && before[a].0 == keys@[j];
                                if a < p {
                                    assert(r@[a] == before[a]);
                                } else {
                                    assert(r@[a + 1] == before[a]);
                                }
                            } else {
                                assert(r@[p].0 == keys@[j]);
                            }
                        }
                    }
                },
                None => {},
            }
            i += 1;
        }
        proof {
            assert forall|id: u64| #[trigger] all.contains_key(id) implies exists|a: int|
                0 <= a < r@.len() && r@[a].0 == id by {
                let j = choose|j: int| 0 <= j < keys.len() && keys@[j] == id;
                assert(keys@[j] == id);
            }
        }
        r
    }

    pub fn is_muted(&self) -> (b: bool)
        ensures
            b == self.muted,
    {
        self.muted
    }

    pub fn camera_on(&self) -> (b: bool)
        ensures
            b == self.camera_on,
    {
        self.camera_on
    }

    pub fn screen_on(&self) -> (b: bool)
        ensures
            b == self.screen_on,
    {
        self.screen_on
    }

    /// The connection with a member changed: one that is down is given up.
    pub fn connection_changed(&mut self, peer_id: u64, state: Connection) -> (acts: Vec<VoiceAction>)
        ensures
            changed_step(*old(self), peer_id, state, *final(self), acts@),
    {
        match state {
            Connection::Failed | Connection::Closed | Connection::Disconnected => self.hangup_peer(
                peer_id,
            ),
            _ => Vec::new(),
        }
    }

    /// Ends the connection with a member.
    pub fn hangup_peer(&mut self, peer_id: u64) -> (acts: Vec<VoiceAction>)
        ensures
            hangup_step(*old(self), peer_id, *final(self), acts@),
    {
        let mut acts: Vec<VoiceAction> = Vec::new();
        self.pending_ice.remove(&peer_id);
        if self.peers.contains(&peer_id) {
            acts.push(VoiceAction::Close { peer_id });
        }
        self.peers.remove(&peer_id);
        acts.push(VoiceAction::DropTracks { peer_id });
        proof {
            assert(acts@ =~= hangup_actions(old(self).peers@.contains_key(peer_id), peer_id));
        }
        acts
    }

    fn hangup_all(&mut self) -> (acts: Vec<VoiceAction>)
        requires
            old(self).wf(),
        ensures
            *final(self) == (VoiceManager {
                peers: final(self).peers,
                pending_ice: final(self).pending_ice,
                ..*old(self)
            }),
            final(self).peers@ == Map::<u64, ()>::empty(),
            final(self).wf(),
            final(self).pending_ice@ == old(self).pending_ice@.remove_keys(old(self).peers@.dom()),
            acts@ == hangups(old(self).peers.pairs@),
    {
        let keys = self.peers.keys();
        let ghost start = *self;
        let ghost pairs = self.peers.pairs@;
        let mut acts: Vec<VoiceAction> = Vec::new();
        let mut i: usize = 0;
        while i < keys.len()
            invariant
                i <= keys.len(),
                keys.len() == pairs.len(),
                pairs == start.peers.pairs@,
                distinct_keys(pairs),
                forall|j: int| 0 <= j < keys.len() ==> (#[trigger] keys@[j]) == pairs[j].0,
                forall|j: int|
                    0 <= j < keys.len() ==> start.peers@.contains_key(#[trigger] keys@[j]),
                forall|k: u64| #[trigger]
                    start.peers@.contains_key(k) ==> exists|j: int|
                        0 <= j < keys.len() && keys@[j] == k,
                *self == (VoiceManager {
                    peers: self.peers,
                    pending_ice: self.pending_ice,
                    ..start
                }),
                self.wf(),
                forall|k: u64| #[trigger]
                    self.peers@.contains_key(k) <==> start.peers@.contains_key(k)
                        && !keys@.take(i as int).contains(k),
                forall|k: u64| #[trigger]
                    self.pending_ice@.contains_key(k) <==> start.pending_ice@.contains_key(k)
                        && !keys@.take(i as int).contains(k),
                forall|k: u64| #[trigger]
                    self.pending_ice@.contains_key(k) ==> self.pending_ice@[k]
                        == start.pending_ice@[k],
                acts@ == hangups(pairs.take(i as int)),
            decreases keys.len() - i,
        {
            let peer = keys[i];
            proof {
                assert(pairs.take(i + 1).drop_last() =~= pairs.take(i as int));
                assert(keys@.take(i + 1) =~= keys@.take(i as int).push(peer));
                assert(start.peers@.contains_key(keys@[i as int]));
                assert(!keys@.take(i as int).contains(peer)) by {
                    if keys@.take(i as int).contains(peer) {
                        let j = choose|j: int| 0 <= j < i && keys@.take(i as int)[j] == peer;
                        assert(pairs[j].0.key() != pairs[i as int].0.key());
                    }
                }
                assert forall|k: u64| keys@.take(i + 1).contains(k) <==> (keys@.take(
                    i as int,
                ).contains(k) || k == peer) by {
                    let prev = keys@.take(i as int);
                    let next = prev.push(peer);
                    if prev.contains(k) {
                        let j = choose|j: int| 0 <= j < prev.len() && prev[j] == k;
                        assert(next[j] == k);
                    }
                    if k == peer {
                        assert(next[i as int] == k);
                    }
                    if next.contains(k) {
                        let j = choose|j: int| 0 <= j < next.len() && next[j] == k;
                        if j < i {
                            assert(prev[j] == k);
                        }
                    }
                }
            }
            let mut more = self.hangup_peer(peer);
            acts.append(&mut more);
            i += 1;
        }
        proof {
            assert(pairs.take(i as int) =~= pairs);
            assert(keys@.take(i as int) =~= keys@);
            assert forall|k: u64| start.peers@.contains_key(k) <==> keys@.contains(k) by {
                if start.peers@.contains_key(k) {
                    let j = choose|j: int| 0 <= j < keys.len() && keys@[j] == k;
                    assert(keys@.contains(k));
                }
            }
            assert(self.peers@ =~= Map::<u64, ()>::empty());
            assert(self.pending_ice@ =~= start.pending_ice@.remove_keys(start.peers@.dom()));
        }
        acts
    }

    /// Leaves the channel.
    pub fn leave(&mut self) -> (acts: Vec<VoiceAction>)
        requires
            old(self).wf(),
        ensures
            left(*old(self), *final(self)),
            final(self).wf(),
            acts@ == leave_actions(*old(self)),
    {
        let mut acts: Vec<VoiceAction> = Vec::new();
        match (self.guild_id, self.channel_id) {
            (Some(guild_id), Some(channel_id)) => {
                acts.push(VoiceAction::SendLeave { guild_id, channel_id });
            },
            _ => {},
        }
        self.guild_id = None;
        self.channel_id = None;
        self.members = HashMap::new();
        let mut over = self.hangup_all();
        acts.append(&mut over);
        if self.audio_open {
            acts.push(VoiceAction::StopAudio);
        }
        if self.camera_capture {
            acts.push(VoiceAction::StopCapture(VoiceVideoKind::Camera));
        }
        if self.screen_capture {
            acts.push(VoiceAction::StopCapture(VoiceVideoKind::Screen));
        }
        self.audio_open = false;
        self.audio_running = false;
        self.camera_on = false;
        self.screen_on = false;
        self.camera_capture = false;
        self.screen_capture = false;
        acts.push(VoiceAction::Emit(VoiceEvent::Left));
        proof {
            assert(acts@ =~= leave_actions(*old(self)));
        }
        acts
    }

    /// Joins a channel, leaving the one that the user is in.
    pub fn join(&mut self, guild_id: u64, channel_id: u64, self_user_id: u64) -> (acts: Vec<
        VoiceAction,
    >)
        requires
            old(self).wf(),
        ensures
            final(self).wf(),
            join_step(*old(self), guild_id, channel_id, self_user_id, *final(self), acts@),
    {
        let mut acts: Vec<VoiceAction> = Vec::new();
        if self.channel_id.is_some() {
            acts = self.leave();
        }
        self.channel_id = Some(channel_id);
        self.guild_id = Some(guild_id);
        self.self_user_id = self_user_id;
        acts.push(VoiceAction::SendJoin { guild_id, channel_id });
        proof {
            if old(self).channel_id is None {
                assert(acts@ =~= seq![VoiceAction::SendJoin { guild_id, channel_id }]);
            }
        }
        acts
    }

    pub fn set_muted(&mut self, muted: bool)
        ensures
            *final(self) == (VoiceManager { muted, ..*old(self) }),
    {
        self.muted = muted;
    }

    pub fn set_camera(&mut self, on: bool) -> (acts: Vec<VoiceAction>)
        ensures
            *final(self) == (VoiceManager {
                camera_on: on,
                camera_capture: if old(self).camera_on == on {
                    old(self).camera_capture
                } else {
                    on
                },
                ..*old(self)
            }),
            acts@ == capture_actions(
                old(self).camera_on,
                on,
                old(self).camera_capture,
                VoiceVideoKind::Camera,
            ),
    {
        let mut acts: Vec<VoiceAction> = Vec::new();
        if self.camera_on == on {
            return acts;
        }
        self.camera_on = on;
        if self.camera_capture {
            acts.push(VoiceAction::StopCapture(VoiceVideoKind::Camera));
        }
        proof {
            assert(acts@ =~= stops(old(self).camera_capture, VoiceVideoKind::Camera));
        }
        if on {
            acts.push(VoiceAction::StartCapture(VoiceVideoKind::Camera));
        }
        self.camera_capture = on;
        acts
    }

    pub fn set_screen(&mut self, on: bool) -> (acts: Vec<VoiceAction>)
        ensures
            *final(self) == (VoiceManager {
                screen_on: on,
                screen_capture: if old(self).screen_on == on {
                    old(self).screen_capture
                } else {
                    on
                },
                ..*old(self)
            }),
            acts@ == capture_actions(
                old(self).screen_on,
                on,
                old(self).screen_capture,
                VoiceVideoKind::Screen,
            ),
    {
        let mut acts: Vec<VoiceAction> = Vec::new();
        if self.screen_on == on {
            return acts;
        }
        self.screen_on = on;
        if self.screen_capture {
            acts.push(VoiceAction::StopCapture(VoiceVideoKind::Screen));
        }
        proof {
            assert(acts@ =~= stops(old(self).screen_capture, VoiceVideoKind::Screen));
        }
        if on {
            acts.push(VoiceAction::StartCapture(VoiceVideoKind::Screen));
        }
        self.screen_capture = on;
        acts
    }

    /// The signal to another member, where the user is in a channel.
    pub fn send_signal(&self, kind: &str, to_user_id: u64, data: &str) -> (r: Option<VoiceAction>)
        ensures
            is_signal(*self, kind@, to_user_id, data@, r),
    {
        match self.channel_id {
            Some(c) => {
                let file_id = concat2("voice-", u64_text(c).as_str());
                Some(
                    VoiceAction::Signal {
                        kind: copy_text(kind),
                        to_user_id,
                        file_id,
                        data: copy_text(data),
                    },
                )
            },
            None => None,
        }
    }

    /// Handles the list of those in a channel.
    pub fn handle_voice_state(&mut self, channel_id: u64, users: Vec<(u64, String)>) -> (acts: Vec<
        VoiceAction,
    >)
        requires
            old(self).wf(),
        ensures
            state_step(*old(self), channel_id, users@, *final(self), acts@),
            final(self).wf(),
    {
        let mut acts: Vec<VoiceAction> = Vec::new();
        match self.channel_id {
            Some(c) => {
                if c != channel_id {
                    return acts;
                }
            },
            None => return acts,
        }
        if !self.audio_running {
            acts.push(VoiceAction::StartAudio);
            self.audio_running = true;
            self.audio_open = true;
        }
        let ghost sound = acts@;
        let ghost start = *self;
        let ghost list = users@;
        let mut members: HashMap<u64, String> = HashMap::new();
        proof {
            assert(sound =~= sound + offers(list.take(0), self.peers@));
        }
        for u in it: users
            invariant
                it.seq() == list,
                *self == start,
                members@ == members_of(list.take(it.index() as int)),
                acts@ == sound + offers(list.take(it.index() as int), self.peers@),
        {
            proof {
                let i = it.index() as int;
                assert(list.take(i + 1).drop_last() =~= list.take(i));
                assert(list.take(i + 1).last() == u);
            }
            let ghost sofar = acts@;
            let (id, name) = u;
            members.insert(id, name);
            if !self.peers.contains(&id) {
                acts.push(VoiceAction::Offer { peer_id: id });
            }
            proof {
                assert(acts@ =~= sound + offers(list.take(it.index() + 1), self.peers@));
            }
        }
        proof {
            assert(list.take(list.len() as int) =~= list);
        }
        self.members = members;
        let ghost offered = acts@;
        match self.guild_id {
            Some(guild_id) => {
                acts.push(VoiceAction::Emit(VoiceEvent::Joined { guild_id, channel_id }));
            },
            None => {},
        }
        proof {
            let first = if old(self).audio_running {
                Seq::empty()
            } else {
                seq![VoiceAction::StartAudio]
            };
            let news = match old(self).guild_id {
                Some(guild_id) => seq![
                    VoiceAction::Emit(VoiceEvent::Joined { guild_id, channel_id }),
                ],
                None => Seq::empty(),
            };
            assert(sound =~= first);
            assert(acts@ =~= offered + news);
        }
        acts
    }

    /// Handles that another user joined or left a channel.
    pub fn handle_voice_presence(
        &mut self,
        channel_id: u64,
        user_id: u64,
        username: String,
        joined: bool,
    ) -> (acts: Vec<VoiceAction>)
        requires
            old(self).wf(),
        ensures
            presence_step(
                *old(self),
                channel_id,
                user_id,
                username,
                joined,
                *final(self),
                acts@,
            ),
            final(self).wf(),
    {
        let mut acts: Vec<VoiceAction> = Vec::new();
        match self.channel_id {
            Some(c) => {
                if c != channel_id {
                    return acts;
                }
            },
            None => return acts,
        }
        if joined {
            if user_id != self.self_user_id {
                self.members.insert(user_id, username.clone());
                acts.push(VoiceAction::Emit(VoiceEvent::MemberJoined { user_id, username }));
                proof {
                    assert(acts@ =~= seq![
                        VoiceAction::Emit(VoiceEvent::MemberJoined { user_id, username }),
                    ]);
                }
            }
            acts
        } else {
            self.members.remove(&user_id);
            let mut over = self.hangup_peer(user_id);
            over.push(VoiceAction::Emit(VoiceEvent::MemberLeft { user_id }));
            over
        }
    }

    fn on_ice(&mut self, peer_id: u64, candidate: String) -> (acts: Vec<VoiceAction>)
        ensures
            ice_step(*old(self), peer_id, candidate@, *final(self), acts@),
            old(self).wf() ==> final(self).wf(),
    {
        let mut acts: Vec<VoiceAction> = Vec::new();
        if self.peers.contains(&peer_id) {
            acts.push(VoiceAction::AddIce { peer_id, candidate });
            return acts;
        }
        let mut list: Vec<String> = Vec::new();
        match self.pending_ice.get(&peer_id) {
            Some(early) => {
                let mut i: usize = 0;
                while i < early.len()
                    invariant
                        i <= early.len(),
                        texts(list@) == texts(early@).take(i as int),
                    decreases early.len() - i,
                {
                    let ghost sofar = list@;
                    list.push(early[i].clone());
                    proof {
                        assert(texts(list@) =~= texts(sofar).push(early@[i as int]@));
                        assert(texts(list@) =~= texts(early@).take(i + 1));
                    }
                    i += 1;
                }
            },
            None => {},
        }
        proof {
            assert(texts(list@) =~= waiting(*self, peer_id));
        }
        let ghost sofar = list@;
        list.push(candidate);
        proof {
            assert(texts(list@) =~= texts(sofar).push(candidate@));
        }
        self.pending_ice.insert(peer_id, list);
        acts
    }

    /// A connection was opened; what came too early is handed to it.
    pub fn register_peer(&mut self, peer_id: u64) -> (acts: Vec<VoiceAction>)
        ensures
            register_step(*old(self), peer_id, *final(self), acts@),
            old(self).wf() ==> final(self).wf(),
    {
        let mut acts: Vec<VoiceAction> = Vec::new();
        match self.pending_ice.get(&peer_id) {
            Some(early) => {
                let mut i: usize = 0;
                while i < early.len()
                    invariant
                        i <= early.len(),
                        hands_over(acts@, peer_id, texts(early@).take(i as int)),
                    decreases early.len() - i,
                {
                    acts.push(VoiceAction::AddIce { peer_id, candidate: early[i].clone() });
                    i += 1;
                }
                proof {
                    assert(texts(early@).take(i as int) =~= texts(early@));
                }
            },
            None => {},
        }
        self.pending_ice.remove(&peer_id);
        self.peers.insert(peer_id, ());
        acts
    }

    /// Handles a signal. `readable` says that its data is what its kind calls for: a session
    /// description for an offer and an answer, a candidate for `voice_ice`.
    pub fn handle_signal(&mut self, sig: SignalEvent, readable: bool) -> (acts: Vec<VoiceAction>)
        ensures
            signal_step(*old(self), sig, readable, *final(self), acts@),
            old(self).wf() ==> final(self).wf(),
    {
        let peer_id: u64 = match sig.from_user_id {
            Some(p) => p,
            None => 0,
        };
        let mut acts: Vec<VoiceAction> = Vec::new();
        if peer_id == 0 || !starts_with(sig.file_id.as_str(), "voice-") {
            return acts;
        }
        let kind = sig.kind.as_str();
        let data = text_or_empty(&sig.data);
        if same_text(kind, "voice_offer") {
            if readable {
                let existing = self.peers.contains(&peer_id);
                acts.push(VoiceAction::Answer { peer_id, sdp: data, existing });
            }
        } else if same_text(kind, "voice_answer") {
            if readable && self.peers.contains(&peer_id) {
                acts.push(VoiceAction::SetRemote { peer_id, sdp: data });
            }
        } else if same_text(kind, "voice_ice") {
            if readable {
                return self.on_ice(peer_id, data);
            }
        } else if same_text(kind, "voice_hangup") {
            return self.hangup_peer(peer_id);
        }
        acts
    }

    /// Sound could not be started; the user is told why.
    pub fn audio_failed(&mut self, why: String) -> (act: VoiceAction)
        ensures
            *final(self) == (VoiceManager {
                audio_running: false,
                audio_open: false,
                ..*old(self)
            }),
            act == VoiceAction::Emit(VoiceEvent::Error(why)),
    {
        self.audio_running = false;
        self.audio_open = false;
        VoiceAction::Emit(VoiceEvent::Error(why))
    }

    /// Whether a frame of sound goes out, with `tracks` connections to write it to.
    pub fn sends_sound(&self, tracks: usize) -> (b: bool)
        ensures
            b == (!self.muted && tracks > 0),
    {
        !self.muted && tracks > 0
    }
}

// ---------------------------------------------------------------------------
// Tracks
// ---------------------------------------------------------------------------

/// What a track of another member carries; sound unless its id says otherwise.
pub open spec fn track_source(id: Seq<char>) -> Option<VoiceVideoKind> {
    if contains_text(id, "camera"@) {
        Some(VoiceVideoKind::Camera)
    } else if contains_text(id, "screen"@) {
        Some(VoiceVideoKind::Screen)
    } else {
        None
    }
}

pub fn track_kind(id: &str) -> (r: Option<VoiceVideoKind>)
    ensures
        r == track_source(id@),
{
    if text_contains(id, "camera") {
        Some(VoiceVideoKind::Camera)
    } else if text_contains(id, "screen") {
        Some(VoiceVideoKind::Screen)
    } else {
        None
    }
}

/// The next number for a stream, which is never zero. `counter` starts at one.
pub fn gen_ssrc(counter: &mut u32) -> (s: u32)
    ensures
        s == (if *old(counter) == 0 {
            1
        } else {
            *old(counter)
        }),
        s != 0,
        *final(counter) == (*old(counter) + 1) % 0x1_0000_0000,
{
    let s: u32 = *counter;
    *counter = s.wrapping_add(1);
    if s == 0 {
        1
    } else {
        s
    }
}

/// How a track is encoded.
pub struct Codec {
    pub mime_type: String,
    pub clock_rate: u32,
    pub channels: u16,
    pub parameters: String,
}

pub fn opus_codec() -> (c: Codec)
    ensures
        c.mime_type@ == "audio/opus"@,
        c.clock_rate == 48_000,
        c.channels == 2,
        c.parameters@ == "minptime=10;useinbandfec=1"@,
{
    Codec {
        mime_type: copy_text("audio/opus"),
        clock_rate: 48_000,
        channels: 2,
        parameters: copy_text("minptime=10;useinbandfec=1"),
    }
}

pub fn h264_codec() -> (c: Codec)
    ensures
        c.mime_type@ == "video/H264"@,
        c.clock_rate == 90_000,
        c.channels == 0,
        c.parameters@
            == "level-asymmetry-allowed=1;packetization-mode=1;profile-level-id=42001f"@,
{
    Codec {
        mime_type: copy_text("video/H264"),
        clock_rate: 90_000,
        channels: 0,
        parameters: copy_text(
            "level-asymmetry-allowed=1;packetization-mode=1;profile-level-id=42001f",
        ),
    }
}

/// A track that goes out on every connection.
pub struct LocalTrack {
    pub stream: &'static str,
    pub id: &'static str,
    /// The source of a video track; none for the microphone.
    pub source: Option<VoiceVideoKind>,
    pub ssrc: u32,
}

/// The tracks of a connection: microphone, camera and screen, each under a number of its own.
pub fn local_tracks(counter: &mut u32) -> (r: (LocalTrack, LocalTrack, LocalTrack))
    ensures
        *final(counter) == (*old(counter) + 3) % 0x1_0000_0000,
        r.0.stream@ == "feditex-audio"@ && r.0.id@ == "feditex-mic"@ && r.0.source is None,
        r.1.stream@ == "feditex-video"@ && r.1.id@ == "feditex-camera"@,
        r.1.source == Some(VoiceVideoKind::Camera),
        r.2.stream@ == "feditex-video"@ && r.2.id@ == "feditex-screen"@,
        r.2.source == Some(VoiceVideoKind::Screen),
        r.0.ssrc != 0 && r.1.ssrc != 0 && r.2.ssrc != 0,
        *old(counter) != 0 && *old(counter) < 0xffff_fffe ==> r.0.ssrc == *old(counter)
            && r.1.ssrc == *old(counter) + 1 && r.2.ssrc == *old(counter) + 2,
{
    let a: u32 = gen_ssrc(counter);
    let b: u32 = gen_ssrc(counter);
    let c: u32 = gen_ssrc(counter);
    (
        LocalTrack { stream: "feditex-audio", id: "feditex-mic", source: None, ssrc: a },
        LocalTrack {
            stream: "feditex-video",
            id: "feditex-camera",
            source: Some(VoiceVideoKind::Camera),
            ssrc: b,
        },
        LocalTrack {
            stream: "feditex-video",
            id: "feditex-screen",
            source: Some(VoiceVideoKind::Screen),
            ssrc: c,
        },
    )
}

/// The own tracks are told apart on the other side by their ids.
pub proof fn tracks_are_told_apart()
    ensures
        track_source("feditex-mic"@) is None,
        track_source("feditex-camera"@) == Some(VoiceVideoKind::Camera),
        track_source("feditex-screen"@) == Some(VoiceVideoKind::Screen),
{
    reveal_strlit("feditex-mic");
    reveal_strlit("feditex-camera");
    reveal_strlit("feditex-screen");
    reveal_strlit("camera");
    reveal_strlit("screen");
    let mic = "feditex-mic"@;
    let screen = "feditex-screen"@;
    assert forall|i: int| !crate::text::occurs_at(mic, "camera"@, i) && !crate::text::occurs_at(
        mic,
        "screen"@,
        i,
    ) by {
        if 0 <= i && i + 6 <= mic.len() {
            assert(mic.subrange(i, i + 6)[5] == mic[i + 5]);
            assert("camera"@[5] == 'a');
            assert("screen"@[5] == 'n');
        }
    }
    assert forall|i: int| !crate::text::occurs_at(screen, "camera"@, i) by {
        if 0 <= i && i + 6 <= screen.len() {
            assert(screen.subrange(i, i + 6)[5] == screen[i + 5]);
            assert("camera"@[5] == 'a');
        }
    }
    assert("feditex-camera"@.subrange(8, 14) =~= "camera"@);
    assert(crate::text::occurs_at("feditex-camera"@, "camera"@, 8));
    assert(screen.subrange(8, 14) =~= "screen"@);
    assert(crate::text::occurs_at(screen, "screen"@, 8));
}

// ---------------------------------------------------------------------------
// Laws
// ---------------------------------------------------------------------------

/// Outside of a channel nothing of it is left: no member, no connection, no capture and no sound.
pub proof fn nothing_is_left_of_a_channel(pre: VoiceManager, post: VoiceManager)
    requires
        left(pre, post),
    ensures
        post.channel_id is None,
        post.members@.dom().finite() && post.members@.dom().len() == 0,
        post.peers@.dom().len() == 0,
        !post.camera_on && !post.screen_on && !post.audio_running,
        post.muted == pre.muted,
{
}

/// The one who joins offers the connections: news of someone joining never makes an offer.
pub proof fn only_joiners_offer(
    pre: VoiceManager,
    channel_id: u64,
    user_id: u64,
    username: String,
    joined: bool,
    post: VoiceManager,
    acts: Seq<VoiceAction>,
    i: int,
)
    requires
        presence_step(pre, channel_id, user_id, username, joined, post, acts),
        0 <= i < acts.len(),
    ensures
        !(acts[i] is Offer),
{
}

/// A candidate is never lost: one that comes before its connection is handed to it.
pub proof fn early_candidates_are_delivered(
    pre: VoiceManager,
    mid: VoiceManager,
    post: VoiceManager,
    peer_id: u64,
    candidate: Seq<char>,
    a: Seq<VoiceAction>,
    b: Seq<VoiceAction>,
)
    requires
        !pre.peers@.contains_key(peer_id),
        ice_step(pre, peer_id, candidate, mid, a),
        register_step(mid, peer_id, post, b),
    ensures
        hands_over(b, peer_id, waiting(pre, peer_id).push(candidate)),
        waiting(post, peer_id).len() == 0,
{
}

/// Messages for another channel change nothing.
pub proof fn other_channels_do_not_matter(
    pre: VoiceManager,
    channel_id: u64,
    users: Seq<(u64, String)>,
    post: VoiceManager,
    acts: Seq<VoiceAction>,
)
    requires
        pre.channel_id != Some(channel_id),
        state_step(pre, channel_id, users, post, acts),
    ensures
        post == pre,
        acts.len() == 0,
{
}

proof fn lemma_offers(users: Seq<(u64, String)>, peers: Map<u64, ()>)
    ensures
        forall|u: int|
            0 <= u < users.len() && !peers.contains_key((#[trigger] users[u]).0) ==> offers(
                users,
                peers,
            ).contains(VoiceAction::Offer { peer_id: users[u].0 }),
        forall|i: int|
            0 <= i < offers(users, peers).len() ==> ((#[trigger] offers(users, peers)[i]) matches VoiceAction::Offer {
                peer_id,
            } && !peers.contains_key(peer_id) && exists|u: int|
                0 <= u < users.len() && (#[trigger] users[u]).0 == peer_id),
    decreases users.len(),
{
    if users.len() > 0 {
        let init = users.drop_last();
        let rest = offers(init, peers);
        let all = offers(users, peers);
        lemma_offers(init, peers);
        assert forall|u: int|
            0 <= u < users.len() && !peers.contains_key((#[trigger] users[u]).0) implies all.contains(
            VoiceAction::Offer { peer_id: users[u].0 },
        ) by {
            let o = VoiceAction::Offer { peer_id: users[u].0 };
            if u < init.len() {
                assert(init[u] == users[u]);
                assert(rest.contains(o));
                let k = choose|k: int| 0 <= k < rest.len() && rest[k] == o;
                assert(all[k] == o);
            } else {
                assert(all[all.len() - 1] == o);
            }
        }
        assert forall|i: int| 0 <= i < all.len() implies ((#[trigger] all[i]) matches VoiceAction::Offer {
            peer_id,
        } && !peers.contains_key(peer_id) && exists|u: int|
            0 <= u < users.len() && (#[trigger] users[u]).0 == peer_id) by {
            if i < rest.len() {
                assert(all[i] == rest[i]);
                let id = rest[i]->Offer_peer_id;
                let u = choose|u: int| 0 <= u < init.len() && (#[trigger] init[u]).0 == id;
                assert(users[u].0 == id);
            } else {
                assert(users[users.len() - 1].0 == all[i]->Offer_peer_id);
            }
        }
    }
}

/// Whoever is in the channel that the user joined is offered a connection, unless there is one, and
/// nobody else is. The sound runs from then on, and the user is told.
pub proof fn everyone_in_the_channel_is_offered_a_connection(
    pre: VoiceManager,
    channel_id: u64,
    users: Seq<(u64, String)>,
    post: VoiceManager,
    acts: Seq<VoiceAction>,
)
    requires
        pre.channel_id == Some(channel_id),
        state_step(pre, channel_id, users, post, acts),
    ensures
        forall|u: int|
            0 <= u < users.len() && !pre.peers@.contains_key((#[trigger] users[u]).0) ==> exists|i: int|
                0 <= i < acts.len() && acts[i] == (VoiceAction::Offer { peer_id: users[u].0 }),
        forall|i: int|
            0 <= i < acts.len() && (#[trigger] acts[i]) is Offer ==> !pre.peers@.contains_key(
                acts[i]->Offer_peer_id,
            ) && exists|u: int|
                0 <= u < users.len() && (#[trigger] users[u]).0 == acts[i]->Offer_peer_id,
        post.audio_running,
        !pre.audio_running <==> exists|i: int| 0 <= i < acts.len() && (#[trigger] acts[i]) is StartAudio,
        pre.guild_id matches Some(guild_id) ==> acts.len() > 0 && acts.last() == VoiceAction::Emit(
            VoiceEvent::Joined { guild_id, channel_id },
        ),
        post.peers == pre.peers,
        post.channel_id == pre.channel_id,
{
    lemma_offers(users, pre.peers@);
    let mid = offers(users, pre.peers@);
    let a: int = if pre.audio_running {
        0
    } else {
        1
    };
    assert(acts.subrange(a, a + mid.len()) =~= mid);
    assert forall|u: int|
        0 <= u < users.len() && !pre.peers@.contains_key((#[trigger] users[u]).0) implies exists|i: int|
        0 <= i < acts.len() && acts[i] == (VoiceAction::Offer { peer_id: users[u].0 }) by {
        let o = VoiceAction::Offer { peer_id: users[u].0 };
        assert(mid.contains(o));
        let k = choose|k: int| 0 <= k < mid.len() && mid[k] == o;
        assert(acts[a + k] == mid[k]);
    }
    assert forall|i: int| 0 <= i < acts.len() && (#[trigger] acts[i]) is Offer implies !pre.peers@.contains_key(
        acts[i]->Offer_peer_id,
    ) && exists|u: int| 0 <= u < users.len() && (#[trigger] users[u]).0 == acts[i]->Offer_peer_id by {
        assert(a <= i < a + mid.len());
        assert(acts[i] == mid[i - a]);
    }
    if !pre.audio_running {
        assert(acts[0] is StartAudio);
    } else {
        assert forall|i: int| 0 <= i < acts.len() implies !((#[trigger] acts[i]) is StartAudio) by {
            if i < mid.len() {
                assert(acts[i] == mid[i]);
            }
        }
    }
}

proof fn lemma_members_of(users: Seq<(u64, String)>, id: u64)
    ensures
        members_of(users).contains_key(id) <==> exists|u: int|
            0 <= u < users.len() && (#[trigger] users[u]).0 == id,
        members_of(users).contains_key(id) ==> exists|u: int|
            0 <= u < users.len() && (#[trigger] users[u]) == (id, members_of(users)[id]),
    decreases users.len(),
{
    if users.len() > 0 {
        let init = users.drop_last();
        lemma_members_of(init, id);
        assert forall|u: int| 0 <= u < init.len() implies users[u] == #[trigger] init[u] by {}
        if users.last().0 == id {
            assert(users[users.len() - 1].0 == id);
            assert(users[users.len() - 1] == (id, members_of(users)[id]));
        } else {
            if exists|u: int| 0 <= u < users.len() && (#[trigger] users[u]).0 == id {
                let u = choose|u: int| 0 <= u < users.len() && (#[trigger] users[u]).0 == id;
                assert(init[u].0 == id);
            }
            if members_of(init).contains_key(id) {
                let u = choose|u: int|
                    0 <= u < init.len() && (#[trigger] init[u]) == (id, members_of(init)[id]);
                assert(users[u] == (id, members_of(users)[id]));
            }
        }
    }
}

/// The members of the channel are those whom the server lists, under the names that it lists.
pub proof fn members_are_those_listed(
    pre: VoiceManager,
    channel_id: u64,
    users: Seq<(u64, String)>,
    post: VoiceManager,
    acts: Seq<VoiceAction>,
    id: u64,
)
    requires
        pre.channel_id == Some(channel_id),
        state_step(pre, channel_id, users, post, acts),
    ensures
        post.members@.contains_key(id) <==> exists|u: int|
            0 <= u < users.len() && (#[trigger] users[u]).0 == id,
        post.members@.contains_key(id) ==> exists|u: int|
            0 <= u < users.len() && (#[trigger] users[u]) == (id, post.members@[id]),
{
    lemma_members_of(users, id);
}

/// Someone who joins is a member from then on and someone who leaves is none; the connection with
/// someone who left is closed. The user is told, and nothing changes for the other members.
pub proof fn members_come_and_go(
    pre: VoiceManager,
    channel_id: u64,
    user_id: u64,
    username: String,
    joined: bool,
    post: VoiceManager,
    acts: Seq<VoiceAction>,
    other: u64,
)
    requires
        pre.channel_id == Some(channel_id),
        user_id != pre.self_user_id,
        other != user_id,
        presence_step(pre, channel_id, user_id, username, joined, post, acts),
    ensures
        post.members@.contains_key(user_id) == joined,
        joined ==> post.members@[user_id] == username,
        joined ==> acts.contains(VoiceAction::Emit(VoiceEvent::MemberJoined { user_id, username })),
        joined ==> post.peers == pre.peers,
        !joined ==> acts.last() == VoiceAction::Emit(VoiceEvent::MemberLeft { user_id }),
        !joined ==> !post.peers@.contains_key(user_id),
        !joined && pre.peers@.contains_key(user_id) ==> acts.contains(
            VoiceAction::Close { peer_id: user_id },
        ),
        !joined ==> acts.contains(VoiceAction::DropTracks { peer_id: user_id }),
        post.members@.contains_key(other) == pre.members@.contains_key(other),
        post.members@.contains_key(other) ==> post.members@[other] == pre.members@[other],
        post.peers@.contains_key(other) == pre.peers@.contains_key(other),
        !acts.contains(VoiceAction::Close { peer_id: other }),
        !acts.contains(VoiceAction::DropTracks { peer_id: other }),
{
    if joined {
        assert(acts[0] == VoiceAction::Emit(VoiceEvent::MemberJoined { user_id, username }));
    } else if pre.peers@.contains_key(user_id) {
        assert(acts[0] == VoiceAction::Close { peer_id: user_id });
        assert(acts[1] == VoiceAction::DropTracks { peer_id: user_id });
    } else {
        assert(acts[0] == VoiceAction::DropTracks { peer_id: user_id });
    }
}

proof fn lemma_hangups(peers: Seq<(u64, ())>)
    ensures
        forall|k: int|
            0 <= k < peers.len() ==> hangups(peers).contains(
                VoiceAction::Close { peer_id: (#[trigger] peers[k]).0 },
            ) && hangups(peers).contains(VoiceAction::DropTracks { peer_id: peers[k].0 }),
    decreases peers.len(),
{
    if peers.len() > 0 {
        let init = peers.drop_last();
        lemma_hangups(init);
        let rest = hangups(init);
        let all = hangups(peers);
        assert forall|k: int| 0 <= k < peers.len() implies all.contains(
            VoiceAction::Close { peer_id: (#[trigger] peers[k]).0 },
        ) && all.contains(VoiceAction::DropTracks { peer_id: peers[k].0 }) by {
            let c = VoiceAction::Close { peer_id: peers[k].0 };
            let d = VoiceAction::DropTracks { peer_id: peers[k].0 };
            if k < init.len() {
                assert(init[k] == peers[k]);
                let i = choose|i: int| 0 <= i < rest.len() && rest[i] == c;
                let j = choose|j: int| 0 <= j < rest.len() && rest[j] == d;
                assert(all[i] == c);
                assert(all[j] == d);
            } else {
                assert(all[rest.len() as int] == c);
                assert(all[rest.len() as int + 1] == d);
            }
        }
    }
}

/// Leaving ends the call: every connection is closed, the server is told which channel was left,
/// sound and captures stop, and the user is told last of all.
pub proof fn leaving_ends_the_call(pre: VoiceManager, peer: u64)
    ensures
        pre.peers@.contains_key(peer) ==> leave_actions(pre).contains(
            VoiceAction::Close { peer_id: peer },
        ) && leave_actions(pre).contains(VoiceAction::DropTracks { peer_id: peer }),
        pre.guild_id is Some && pre.channel_id is Some ==> leave_actions(pre).contains(
            VoiceAction::SendLeave {
                guild_id: pre.guild_id->0,
                channel_id: pre.channel_id->0,
            },
        ),
        pre.audio_open ==> leave_actions(pre).contains(VoiceAction::StopAudio),
        pre.camera_capture ==> leave_actions(pre).contains(
            VoiceAction::StopCapture(VoiceVideoKind::Camera),
        ),
        pre.screen_capture ==> leave_actions(pre).contains(
            VoiceAction::StopCapture(VoiceVideoKind::Screen),
        ),
        leave_actions(pre).last() == VoiceAction::Emit(VoiceEvent::Left),
{
    let acts = leave_actions(pre);
    let pairs = pre.peers.pairs@;
    let told: int = if pre.guild_id is Some && pre.channel_id is Some {
        1
    } else {
        0
    };
    let over = hangups(pairs);
    let sound: int = if pre.audio_open {
        1
    } else {
        0
    };
    let camera: int = if pre.camera_capture {
        1
    } else {
        0
    };
    lemma_hangups(pairs);
    assert(acts.subrange(told, told + over.len()) =~= over);
    if pre.peers@.contains_key(peer) {
        crate::assoc::lemma_lookup_found(pairs, peer);
        let k = choose|k: int| 0 <= k < pairs.len() && (#[trigger] pairs[k]).0 == peer;
        let c = VoiceAction::Close { peer_id: peer };
        let d = VoiceAction::DropTracks { peer_id: peer };
        assert(over.contains(c) && over.contains(d)) by {
            assert(pairs[k].0 == peer);
        }
        let i = choose|i: int| 0 <= i < over.len() && over[i] == c;
        let j = choose|j: int| 0 <= j < over.len() && over[j] == d;
        assert(acts[told + i] == over[i]);
        assert(acts[told + j] == over[j]);
    }
    if told == 1 {
        assert(acts[0] == VoiceAction::SendLeave {
            guild_id: pre.guild_id->0,
            channel_id: pre.channel_id->0,
        });
    }
    let n = told + over.len();
    if pre.audio_open {
        assert(acts[n] == VoiceAction::StopAudio);
    }
    if pre.camera_capture {
        assert(acts[n + sound] == VoiceAction::StopCapture(VoiceVideoKind::Camera));
    }
    if pre.screen_capture {
        assert(acts[n + sound + camera] == VoiceAction::StopCapture(VoiceVideoKind::Screen));
    }
}

/// A readable answer of a member reaches the connection with it, and only that: two steps after it
/// was opened the connection has its remote description.
pub proof fn answers_reach_their_connection(
    pre: VoiceManager,
    peer: u64,
    mid: VoiceManager,
    early: Seq<VoiceAction>,
    sig: SignalEvent,
    post: VoiceManager,
    acts: Seq<VoiceAction>,
)
    requires
        peer != 0,
        register_step(pre, peer, mid, early),
        sig.from_user_id == Some(peer),
        sig.file_id@.len() >= 6 && sig.file_id@.take(6) == "voice-"@,
        sig.kind@ == "voice_answer"@,
        sig.data is Some,
        signal_step(mid, sig, true, post, acts),
    ensures
        post == mid,
        acts.len() == 1,
        acts[0] matches VoiceAction::SetRemote { peer_id, sdp } && peer_id == peer && sdp@
            == sig.data->0@,
{
    lemma_voice_kinds();
    assert(sig.file_id@.subrange(0, 6) =~= sig.file_id@.take(6));
    reveal_strlit("voice-");
}

proof fn lemma_voice_kinds()
    ensures
        "voice_offer"@ != "voice_answer"@,
        "voice_offer"@ != "voice_ice"@,
        "voice_offer"@ != "voice_hangup"@,
        "voice_answer"@ != "voice_ice"@,
        "voice_answer"@ != "voice_hangup"@,
        "voice_ice"@ != "voice_hangup"@,
{
    reveal_strlit("voice_offer");
    reveal_strlit("voice_answer");
    reveal_strlit("voice_ice");
    reveal_strlit("voice_hangup");
    assert("voice_offer"@[6] == 'o');
    assert("voice_answer"@[6] == 'a');
    assert("voice_ice"@[6] == 'i');
    assert("voice_hangup"@[6] == 'h');
}

/// What a signal of another member does: an offer is answered, with its own text and over the
/// connection that is there; an answer without a connection is dropped; a hangup ends the connection.
/// Whatever cannot be read, comes from nobody or is meant for a file changes nothing.
pub proof fn signals_are_answered(
    pre: VoiceManager,
    sig: SignalEvent,
    readable: bool,
    post: VoiceManager,
    acts: Seq<VoiceAction>,
)
    requires
        signal_step(pre, sig, readable, post, acts),
    ensures
        sig.from_user_id is None ==> post == pre && acts.len() == 0,
        sig.from_user_id == Some(0u64) ==> post == pre && acts.len() == 0,
        !(sig.file_id@.len() >= 6 && sig.file_id@.take(6) == "voice-"@) ==> post == pre && acts.len()
            == 0,
        sig.from_user_id matches Some(peer) ==> (peer != 0 && sig.file_id@.len() >= 6
            && sig.file_id@.take(6) == "voice-"@ ==> {
            &&& sig.kind@ == "voice_offer"@ && readable && sig.data is Some ==> acts.len() == 1 && (
            acts[0] matches VoiceAction::Answer { peer_id, sdp, existing } && peer_id == peer && sdp@
                == sig.data->0@ && existing == pre.peers@.contains_key(peer))
            &&& (sig.kind@ == "voice_offer"@ || sig.kind@ == "voice_answer"@ || sig.kind@
                == "voice_ice"@) && !readable ==> post == pre && acts.len() == 0
            &&& sig.kind@ == "voice_answer"@ && !pre.peers@.contains_key(peer) ==> acts.len() == 0
            &&& sig.kind@ == "voice_ice"@ && readable && sig.data is Some && pre.peers@.contains_key(
                peer,
            ) ==> acts.len() == 1 && (acts[0] matches VoiceAction::AddIce { peer_id, candidate }
                && peer_id == peer && candidate@ == sig.data->0@)
            &&& sig.kind@ == "voice_hangup"@ ==> !post.peers@.contains_key(peer) && (
            pre.peers@.contains_key(peer) ==> acts.contains(VoiceAction::Close { peer_id: peer }))
        }),
{
    lemma_voice_kinds();
    reveal_strlit("voice-");
    if sig.file_id@.len() >= 6 {
        assert(sig.file_id@.subrange(0, 6) =~= sig.file_id@.take(6));
    }
    if sig.from_user_id is Some && pre.peers@.contains_key(sig.from_user_id->0) {
        let peer = sig.from_user_id->0;
        let both = hangup_actions(true, peer);
        assert(both[0] == VoiceAction::Close { peer_id: peer });
    }
}

/// Every candidate gets to its connection once, in the order in which the candidates came: as soon
/// as there is a connection where they came early.
pub proof fn candidates_come_in_order(
    pre: VoiceManager,
    peer: u64,
    post: VoiceManager,
    acts: Seq<VoiceAction>,
    other: u64,
)
    requires
        register_step(pre, peer, post, acts),
        other != peer,
    ensures
        post.peers@.contains_key(peer),
        pre.pending_ice@.contains_key(peer) ==> acts.len() == pre.pending_ice@[peer]@.len()
            && forall|i: int|
            0 <= i < acts.len() ==> ((#[trigger] acts[i]) matches VoiceAction::AddIce {
                peer_id,
                candidate,
            } && peer_id == peer && candidate@ == pre.pending_ice@[peer]@[i]@),
        !pre.pending_ice@.contains_key(peer) ==> acts.len() == 0,
        !post.pending_ice@.contains_key(peer),
        post.peers@.contains_key(other) == pre.peers@.contains_key(other),
        post.pending_ice@.contains_key(other) == pre.pending_ice@.contains_key(other),
{
    if pre.pending_ice@.contains_key(peer) {
        let list = pre.pending_ice@[peer]@;
        assert forall|i: int| 0 <= i < list.len() implies #[trigger] texts(list)[i] == list[i]@ by {}
    }
}

/// A source that is turned on is captured from then on, one that is turned off is not; nothing
/// happens to one that is what it should be already.
pub proof fn captures_follow_the_switch(now: bool, on: bool, capture: bool, kind: VoiceVideoKind)
    ensures
        ({
            let acts = capture_actions(now, on, capture, kind);
            &&& now == on ==> acts.len() == 0
            &&& now != on && on ==> acts.last() == VoiceAction::StartCapture(kind) && acts.len() > 0
            &&& now != on && !on ==> !acts.contains(VoiceAction::StartCapture(kind))
            &&& now != on && capture ==> acts.contains(VoiceAction::StopCapture(kind))
            &&& !capture ==> !acts.contains(VoiceAction::StopCapture(kind))
            &&& forall|i: int|
                0 <= i < acts.len() ==> (#[trigger] acts[i]) == VoiceAction::StartCapture(kind)
                    || acts[i] == VoiceAction::StopCapture(kind)
        }),
{
    let acts = capture_actions(now, on, capture, kind);
    if now != on && capture {
        assert(acts[0] == VoiceAction::StopCapture(kind));
    }
}

/// A track whose id names the camera shows the camera, else one whose id names the screen shows the
/// screen; any other carries sound.
pub proof fn tracks_are_read_by_their_id(id: Seq<char>, i: int)
    requires
        0 <= i && i + 6 <= id.len(),
    ensures
        id.subrange(i, i + 6) == "camera"@ ==> track_source(id) == Some(VoiceVideoKind::Camera),
        id.subrange(i, i + 6) == "screen"@ ==> track_source(id) is Some,
        track_source(id) == Some(VoiceVideoKind::Camera) ==> exists|k: int|
            0 <= k && k + 6 <= id.len() && #[trigger] id.subrange(k, k + 6) == "camera"@,
        track_source(id) == Some(VoiceVideoKind::Screen) ==> exists|k: int|
            0 <= k && k + 6 <= id.len() && #[trigger] id.subrange(k, k + 6) == "screen"@,
{
    reveal_strlit("camera");
    reveal_strlit("screen");
    if id.subrange(i, i + 6) == "camera"@ {
        assert(crate::text::occurs_at(id, "camera"@, i));
    }
    if id.subrange(i, i + 6) == "screen"@ {
        assert(crate::text::occurs_at(id, "screen"@, i));
    }
    if contains_text(id, "camera"@) {
        let k = choose|k: int| crate::text::occurs_at(id, "camera"@, k);
        assert(id.subrange(k, k + 6) == "camera"@);
    }
    if contains_text(id, "screen"@) {
        let k = choose|k: int| crate::text::occurs_at(id, "screen"@, k);
        assert(id.subrange(k, k + 6) == "screen"@);
    }
}

/// Joining a channel says so to the server; the channel that the user was in is left first.
pub proof fn joining_is_announced(
    pre: VoiceManager,
    guild_id: u64,
    channel_id: u64,
    self_user_id: u64,
    post: VoiceManager,
    acts: Seq<VoiceAction>,
)
    requires
        join_step(pre, guild_id, channel_id, self_user_id, post, acts),
    ensures
        acts.len() > 0,
        acts.last() == (VoiceAction::SendJoin { guild_id, channel_id }),
        post.channel_id == Some(channel_id) && post.guild_id == Some(guild_id),
        post.self_user_id == self_user_id,
        pre.channel_id is None ==> acts.len() == 1,
        pre.channel_id is Some ==> post.peers@ == Map::<u64, ()>::empty() && post.members@ == Map::<
            u64,
            String,
        >::empty(),
{
}

/// A connection that is lost is closed; any other change is waited for.
pub proof fn lost_connections_are_closed(
    pre: VoiceManager,
    peer_id: u64,
    state: Connection,
    post: VoiceManager,
    acts: Seq<VoiceAction>,
)
    requires
        changed_step(pre, peer_id, state, post, acts),
    ensures
        state is Failed || state is Closed || state is Disconnected ==> !post.peers@.contains_key(peer_id)
            && acts.contains(VoiceAction::DropTracks { peer_id }),
        (state is Failed || state is Closed || state is Disconnected) && pre.peers@.contains_key(peer_id)
            ==> acts.contains(VoiceAction::Close { peer_id }),
        state is New || state is Connecting || state is Connected ==> post == pre && acts.len() == 0,
{
    let up = pre.peers@.contains_key(peer_id);
    let list = hangup_actions(up, peer_id);
    assert(list.last() == VoiceAction::DropTracks { peer_id });
    assert(list[list.len() - 1] == VoiceAction::DropTracks { peer_id });
    if up {
        assert(list[0] == VoiceAction::Close { peer_id });
    }
}

/// An offer that one member sends is answered by the other.
pub proof fn signals_are_understood(
    a: VoiceManager,
    from: u64,
    data: Seq<char>,
    to: u64,
    sent: Option<VoiceAction>,
    b: VoiceManager,
    sig: SignalEvent,
    post: VoiceManager,
    acts: Seq<VoiceAction>,
)
    requires
        a.channel_id is Some,
        is_signal(a, "voice_offer"@, to, data, sent),
        from != 0,
        sig.from_user_id == Some(from),
        sent matches Some(VoiceAction::Signal { kind, file_id, data: d, .. }) && sig.kind == kind
            && sig.file_id == file_id && sig.data == Some(d),
        signal_step(b, sig, true, post, acts),
    ensures
        sent matches Some(VoiceAction::Signal { to_user_id, .. }) && to_user_id == to,
        acts.len() == 1,
        acts[0] matches VoiceAction::Answer { peer_id, sdp, .. } && peer_id == from && sdp@ == data,
{
    reveal_strlit("voice-");
    let c = a.channel_id->0;
    let name = "voice-"@ + decimal(c as nat);
    assert(name.subrange(0, 6) =~= "voice-"@);
    assert(name.take(6) =~= "voice-"@);
}

/// A signal goes to whom it is for, in the name of the channel; without a channel there is none.
pub proof fn members_are_signalled(
    m: VoiceManager,
    kind: Seq<char>,
    to: u64,
    data: Seq<char>,
    sent: Option<VoiceAction>,
)
    requires
        is_signal(m, kind, to, data, sent),
    ensures
        m.channel_id is None ==> sent is None,
        m.channel_id matches Some(c) ==> (sent matches Some(
            VoiceAction::Signal { kind: k, to_user_id, file_id, data: d },
        ) && k@ == kind && to_user_id == to && d@ == data && file_id@ == "voice-"@ + decimal(c as nat)),
{
}

} // verus!
