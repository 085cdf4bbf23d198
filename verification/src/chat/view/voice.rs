//! The panel of the voice channel that the user is in.

use vstd::prelude::*;

use crate::chat::state::{self_id, AppState, Frame};
use crate::chat::types::{Guild, GuildChannel};
use crate::identity::is_me;
use crate::number::{decimal, u64_text};
use crate::text::{concat2, copy_text};
use crate::voice::{is_member_list, VoiceManager, VoiceVideoKind};

verus! {

/// A picture of a member.
pub struct Tile {
    pub user_id: u64,
    pub kind: VoiceVideoKind,
    pub name: String,
}

pub struct VoicePanel {
    pub channel: String,
    /// The members by name, the user marked.
    pub members: Vec<String>,
    pub muted: bool,
    pub camera_on: bool,
    pub screen_on: bool,
    pub tiles: Vec<Tile>,
}

/// The position of a channel in a list, or the length of the list.
pub open spec fn channel_index(chs: Seq<GuildChannel>, id: u64) -> int
    decreases chs.len(),
{
    if chs.len() == 0 || chs[0].id == id {
        0
    } else {
        1 + channel_index(chs.drop_first(), id)
    }
}

/// What a voice channel is called in the first guild that has it.
pub open spec fn channel_name(gs: Seq<Guild>, id: u64) -> Seq<char>
    decreases gs.len(),
{
    if gs.len() == 0 {
        "Voice"@
    } else {
        let chs = gs[0].channels@;
        let i = channel_index(chs, id);
        if i < chs.len() {
            chs[i].name@
        } else {
            channel_name(gs.drop_first(), id)
        }
    }
}

/// A member as the panel shows them.
pub open spec fn member_label(m: (u64, String), me: Option<u64>) -> Seq<char> {
    if me == Some(m.0) {
        m.1@ + " (you)"@
    } else {
        m.1@
    }
}

/// The labels show the members, ordered by id.
pub open spec fn are_labels(labels: Seq<String>, members: Map<u64, String>, me: Option<u64>) -> bool {
    exists|list: Seq<(u64, String)>| #[trigger] is_member_list(list, members) && {
        &&& labels.len() == list.len()
        &&& forall|i: int| 0 <= i < list.len() ==> (#[trigger] labels[i])@ == member_label(list[i], me)
    }
}

/// What stands below a picture: the name of the member, or of a user that is none.
pub open spec fn tile_name(members: Map<u64, String>, user: u64) -> Seq<char> {
    if members.contains_key(user) {
        members[user]@
    } else {
        "User "@ + decimal(user as nat)
    }
}

/// There is a picture for every frame, and for nothing else.
pub open spec fn are_tiles(
    tiles: Seq<Tile>,
    frames: Map<(u64, VoiceVideoKind), Frame>,
    members: Map<u64, String>,
) -> bool {
    &&& forall|i: int|
        0 <= i < tiles.len() ==> frames.contains_key(
            ((#[trigger] tiles[i]).user_id, tiles[i].kind),
        ) && tiles[i].name@ == tile_name(members, tiles[i].user_id)
    &&& forall|k: (u64, VoiceVideoKind)| #[trigger]
        frames.contains_key(k) ==> exists|i: int|
            0 <= i < tiles.len() && (#[trigger] tiles[i]).user_id == k.0 && tiles[i].kind == k.1
}

pub open spec fn is_voice_panel(p: VoicePanel, s: AppState, v: VoiceManager, channel: u64) -> bool {
    &&& p.channel@ == "#"@ + channel_name(s.guilds.guilds@, channel)
    &&& are_labels(p.members@, v.members@, self_id(s.session.user))
    &&& p.muted == v.muted
    &&& p.camera_on == v.camera_on
    &&& p.screen_on == v.screen_on
    &&& are_tiles(p.tiles@, s.links.voice_frames@, v.members@)
}

proof fn lemma_channel_index(chs: Seq<GuildChannel>, id: u64, i: int)
    requires
        0 <= i <= chs.len(),
        forall|j: int| 0 <= j < i ==> (#[trigger] chs[j]).id != id,
        i < chs.len() ==> chs[i].id == id,
    ensures
        channel_index(chs, id) == i,
    decreases i,
{
    if i > 0 {
        assert(chs[0].id != id);
        assert forall|j: int| 0 <= j < i - 1 implies (#[trigger] chs.drop_first()[j]).id != id by {
            assert(chs.drop_first()[j] == chs[j + 1]);
        }
        lemma_channel_index(chs.drop_first(), id, i - 1);
    }
}

/// The first channel of a list with an id.
pub fn find_channel(chs: &Vec<GuildChannel>, id: u64) -> (r: Option<usize>)
    ensures
        match r {
            Some(i) => i < chs.len() && i == channel_index(chs@, id),
            None => channel_index(chs@, id) == chs@.len(),
        },
{
    let mut i: usize = 0;
    while i < chs.len()
        invariant
            i <= chs.len(),
            forall|j: int| 0 <= j < i ==> (#[trigger] chs@[j]).id != id,
        decreases chs.len() - i,
    {
        if chs[i].id == id {
            proof {
                lemma_channel_index(chs@, id, i as int);
            }
            return Some(i);
        }
        i += 1;
    }
    proof {
        lemma_channel_index(chs@, id, i as int);
    }
    None
}

fn name_of_channel(gs: &Vec<Guild>, id: u64) -> (r: String)
    ensures
        r@ == channel_name(gs@, id),
{
    let mut i: usize = 0;
    proof {
        assert(gs@.skip(0) =~= gs@);
    }
    while i < gs.len()
        invariant
            i <= gs.len(),
            channel_name(gs@, id) == channel_name(gs@.skip(i as int), id),
        decreases gs.len() - i,
    {
        proof {
            assert(gs@.skip(i as int)[0] == gs@[i as int]);
            assert(gs@.skip(i as int).drop_first() =~= gs@.skip(i + 1));
        }
        match find_channel(&gs[i].channels, id) {
            Some(k) => return gs[i].channels[k].name.clone(),
            None => {},
        }
        i += 1;
    }
    copy_text("Voice")
}

fn labels(list: &Vec<(u64, String)>, me: Option<u64>) -> (r: Vec<String>)
    ensures
        r@.len() == list@.len(),
        forall|i: int| 0 <= i < r@.len() ==> (#[trigger] r@[i])@ == member_label(list@[i], me),
{
    let mut r: Vec<String> = Vec::new();
    let mut i: usize = 0;
    while i < list.len()
        invariant
            i <= list.len(),
            r.len() == i,
            forall|j: int| 0 <= j < i ==> (#[trigger] r@[j])@ == member_label(list@[j], me),
        decreases list.len() - i,
    {
        if is_me(me, list[i].0) {
            r.push(concat2(list[i].1.as_str(), " (you)"));
        } else {
            r.push(list[i].1.clone());
        }
        i += 1;
    }
    r
}

fn tiles(state: &AppState, v: &VoiceManager) -> (r: Vec<Tile>)
    ensures
        are_tiles(r@, state.links.voice_frames@, v.members@),
{
    let keys = state.links.voice_frames.keys();
    let ghost frames = state.links.voice_frames@;
    let mut r: Vec<Tile> = Vec::new();
    let mut i: usize = 0;
    while i < keys.len()
        invariant
            i <= keys.len(),
            r.len() == i,
            frames == state.links.voice_frames@,
            forall|j: int| 0 <= j < keys.len() ==> frames.contains_key(#[trigger] keys@[j]),
            forall|j: int|
                0 <= j < i ==> (#[trigger] r@[j]).user_id == keys@[j].0 && r@[j].kind == keys@[j].1
                    && r@[j].name@ == tile_name(v.members@, r@[j].user_id),
        decreases keys.len() - i,
    {
        let user_id = keys[i].0;
        let kind = keys[i].1;
        let name = match v.members.get(&user_id) {
            Some(n) => n.clone(),
            None => concat2("User ", u64_text(user_id).as_str()),
        };
        r.push(Tile { user_id, kind, name });
        i += 1;
    }
    proof {
        assert forall|k: int| 0 <= k < r@.len() implies frames.contains_key(
            ((#[trigger] r@[k]).user_id, r@[k].kind),
        ) by {
            assert(frames.contains_key(keys@[k]));
        }
        assert forall|k: (u64, VoiceVideoKind)| #[trigger] frames.contains_key(k) implies exists|
            j: int,
        |
            0 <= j < r@.len() && (#[trigger] r@[j]).user_id == k.0 && r@[j].kind == k.1 by {
            let j = choose|j: int| 0 <= j < keys@.len() && keys@[j] == k;
            assert(r@[j].user_id == k.0);
        }
    }
    r
}

/// The panel of the voice channel that the user is in, if they are in one.
pub fn view_voice_panel(state: &AppState, voice: &VoiceManager) -> (r: Option<VoicePanel>)
    requires
        voice.wf(),
    ensures
        match voice.channel_id {
            Some(c) if state.links.voice_ready => r matches Some(p) && is_voice_panel(
                p,
                *state,
                *voice,
                c,
            ),
            _ => r is None,
        },
{
    if !state.links.voice_ready {
        return None;
    }
    let channel = match voice.in_channel() {
        Some(c) => c,
        None => return None,
    };
    let name = name_of_channel(&state.guilds.guilds, channel);
    let list = voice.members();
    let me = state.user_id();
    let members = labels(&list, me);
    proof {
        assert(is_member_list(list@, voice.members@));
    }
    Some(
        VoicePanel {
            channel: concat2("#", name.as_str()),
            members,
            muted: voice.is_muted(),
            camera_on: voice.camera_on(),
            screen_on: voice.screen_on(),
            tiles: tiles(state, voice),
        },
    )
}

} // verus!
