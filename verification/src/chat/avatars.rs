//! Loading the pictures of users.

use std::collections::HashSet;

use vstd::prelude::*;

use crate::chat::action::Action;
use crate::chat::state::{AppState, People};
use crate::chat::types::{Conversation, Member, Profile, SearchUser, User};
use crate::links::{is_link, is_web_link};
use crate::text::{has_prefix, starts_with};

verus! {

/// A user with an address for a picture, as a list of at most one.
pub open spec fn wanted(id: u64, url: Option<String>) -> Seq<(u64, String)> {
    match url {
        Some(u) => if u@.len() > 0 {
            seq![(id, u)]
        } else {
            Seq::empty()
        },
        None => Seq::empty(),
    }
}

pub open spec fn wanted_of_members(ms: Seq<Member>) -> Seq<(u64, String)>
    decreases ms.len(),
{
    if ms.len() == 0 {
        Seq::empty()
    } else {
        wanted_of_members(ms.drop_last()) + wanted(ms.last().id, ms.last().avatar_url)
    }
}

pub open spec fn wanted_of_conversations(cs: Seq<Conversation>) -> Seq<(u64, String)>
    decreases cs.len(),
{
    if cs.len() == 0 {
        Seq::empty()
    } else {
        wanted_of_conversations(cs.drop_last()) + wanted_of_members(cs.last().members@)
    }
}

pub open spec fn wanted_of_hits(us: Seq<SearchUser>) -> Seq<(u64, String)>
    decreases us.len(),
{
    if us.len() == 0 {
        Seq::empty()
    } else {
        wanted_of_hits(us.drop_last()) + wanted(us.last().id, us.last().avatar_url)
    }
}

pub open spec fn wanted_of_user(u: Option<User>) -> Seq<(u64, String)> {
    match u {
        Some(x) => wanted(x.id, x.avatar_url),
        None => Seq::empty(),
    }
}

pub open spec fn wanted_of_profile(p: Option<Profile>) -> Seq<(u64, String)> {
    match p {
        Some(x) => wanted(x.id, x.avatar_url),
        None => Seq::empty(),
    }
}

/// Every known user with an address for a picture: the own account, the members of the
/// conversations, the open profile, and the hits of the search.
pub open spec fn all_wanted(s: AppState) -> Seq<(u64, String)> {
    wanted_of_user(s.session.user) + wanted_of_conversations(s.chats.conversations@)
        + wanted_of_profile(s.people.profile) + wanted_of_hits(s.new_conv.results@)
}

/// How one picture is got: out of the address itself, or from the network.
pub open spec fn picture_action(id: u64, url: String) -> Seq<Action> {
    if has_prefix(url@, "data:"@) {
        seq![Action::AvatarFromDataUrl { user_id: id, url }]
    } else if is_web_link(url@) {
        seq![Action::FetchAvatar { user_id: id, url }]
    } else {
        Seq::empty()
    }
}

/// The users that were tried once some addresses were gone through.
pub open spec fn tried(done: Set<u64>, ws: Seq<(u64, String)>) -> Set<u64>
    decreases ws.len(),
{
    if ws.len() == 0 {
        done
    } else {
        tried(done, ws.drop_last()).insert(ws.last().0)
    }
}

/// What is asked for when some addresses are gone through: each user is tried once.
pub open spec fn picture_actions(done: Set<u64>, ws: Seq<(u64, String)>) -> Seq<Action>
    decreases ws.len(),
{
    if ws.len() == 0 {
        Seq::empty()
    } else {
        let rest = picture_actions(done, ws.drop_last());
        let (id, url) = ws.last();
        if tried(done, ws.drop_last()).contains(id) {
            rest
        } else {
            rest + picture_action(id, url)
        }
    }
}

/// Every known user's picture was tried; nothing else changed.
pub open spec fn avatars_step(pre: AppState, post: AppState, acts: Seq<Action>) -> bool {
    &&& post == (AppState {
        people: People { avatar_attempted: post.people.avatar_attempted, ..pre.people },
        ..pre
    })
    &&& post.people.avatar_attempted@ == tried(pre.people.avatar_attempted@, all_wanted(pre))
    &&& acts == picture_actions(pre.people.avatar_attempted@, all_wanted(pre))
}

fn push_wanted(list: &mut Vec<(u64, String)>, id: u64, url: &Option<String>)
    ensures
        final(list)@ == old(list)@ + wanted(id, *url),
{
    match url {
        Some(u) => {
            if !u.as_str().is_empty() {
                list.push((id, u.clone()));
            }
        },
        None => {},
    }
    proof {
        assert(list@ =~= old(list)@ + wanted(id, *url));
    }
}

fn push_members(list: &mut Vec<(u64, String)>, ms: &Vec<Member>)
    ensures
        final(list)@ == old(list)@ + wanted_of_members(ms@),
{
    let mut i: usize = 0;
    proof {
        assert(list@ =~= old(list)@ + wanted_of_members(ms@.take(0)));
    }
    while i < ms.len()
        invariant
            i <= ms.len(),
            list@ == old(list)@ + wanted_of_members(ms@.take(i as int)),
        decreases ms.len() - i,
    {
        proof {
            assert(ms@.take(i + 1).drop_last() =~= ms@.take(i as int));
        }
        push_wanted(list, ms[i].id, &ms[i].avatar_url);
        i += 1;
        proof {
            assert(list@ =~= old(list)@ + wanted_of_members(ms@.take(i as int)));
        }
    }
    proof {
        assert(ms@.take(i as int) =~= ms@);
    }
}

fn push_conversations(list: &mut Vec<(u64, String)>, cs: &Vec<Conversation>)
    ensures
        final(list)@ == old(list)@ + wanted_of_conversations(cs@),
{
    let mut i: usize = 0;
    proof {
        assert(list@ =~= old(list)@ + wanted_of_conversations(cs@.take(0)));
    }
    while i < cs.len()
        invariant
            i <= cs.len(),
            list@ == old(list)@ + wanted_of_conversations(cs@.take(i as int)),
        decreases cs.len() - i,
    {
        proof {
            assert(cs@.take(i + 1).drop_last() =~= cs@.take(i as int));
        }
        push_members(list, &cs[i].members);
        i += 1;
        proof {
            assert(list@ =~= old(list)@ + wanted_of_conversations(cs@.take(i as int)));
        }
    }
    proof {
        assert(cs@.take(i as int) =~= cs@);
    }
}

fn push_hits(list: &mut Vec<(u64, String)>, us: &Vec<SearchUser>)
    ensures
        final(list)@ == old(list)@ + wanted_of_hits(us@),
{
    let mut i: usize = 0;
    proof {
        assert(list@ =~= old(list)@ + wanted_of_hits(us@.take(0)));
    }
    while i < us.len()
        invariant
            i <= us.len(),
            list@ == old(list)@ + wanted_of_hits(us@.take(i as int)),
        decreases us.len() - i,
    {
        proof {
            assert(us@.take(i + 1).drop_last() =~= us@.take(i as int));
        }
        push_wanted(list, us[i].id, &us[i].avatar_url);
        i += 1;
        proof {
            assert(list@ =~= old(list)@ + wanted_of_hits(us@.take(i as int)));
        }
    }
    proof {
        assert(us@.take(i as int) =~= us@);
    }
}

/// Goes through some addresses and asks for the picture of each user that was not tried yet.
pub fn try_pictures(done: &mut HashSet<u64>, ws: &Vec<(u64, String)>) -> (acts: Vec<Action>)
    ensures
        final(done)@ == tried(old(done)@, ws@),
        acts@ == picture_actions(old(done)@, ws@),
{
    let mut acts: Vec<Action> = Vec::new();
    let mut i: usize = 0;
    while i < ws.len()
        invariant
            i <= ws.len(),
            done@ == tried(old(done)@, ws@.take(i as int)),
            acts@ == picture_actions(old(done)@, ws@.take(i as int)),
        decreases ws.len() - i,
    {
        proof {
            assert(ws@.take(i + 1).drop_last() =~= ws@.take(i as int));
        }
        let id = ws[i].0;
        if !done.contains(&id) {
            let url = ws[i].1.clone();
            let ghost sofar = acts@;
            if starts_with(url.as_str(), "data:") {
                acts.push(Action::AvatarFromDataUrl { user_id: id, url });
            } else if is_link(url.as_str()) {
                acts.push(Action::FetchAvatar { user_id: id, url });
            }
            proof {
                assert(acts@ =~= sofar + picture_action(id, ws@[i as int].1));
            }
            done.insert(id);
        } else {
            proof {
                assert(done@.insert(id) =~= done@);
            }
        }
        i += 1;
    }
    proof {
        assert(ws@.take(i as int) =~= ws@);
    }
    acts
}

impl AppState {
    /// Asks for the picture of every known user that was not tried yet.
    pub fn ensure_avatars(&mut self) -> (acts: Vec<Action>)
        ensures
            avatars_step(*old(self), *final(self), acts@),
    {
        let mut list: Vec<(u64, String)> = Vec::new();
        match &self.session.user {
            Some(u) => push_wanted(&mut list, u.id, &u.avatar_url),
            None => {},
        }
        proof {
            assert(list@ =~= wanted_of_user(self.session.user));
        }
        push_conversations(&mut list, &self.chats.conversations);
        match &self.people.profile {
            Some(p) => push_wanted(&mut list, p.id, &p.avatar_url),
            None => {},
        }
        push_hits(&mut list, &self.new_conv.results);
        proof {
            assert(list@ =~= all_wanted(*self));
        }
        try_pictures(&mut self.people.avatar_attempted, &list)
    }
}

proof fn lemma_tried_grows(done: Set<u64>, ws: Seq<(u64, String)>, id: u64)
    requires
        done.contains(id),
    ensures
        tried(done, ws).contains(id),
    decreases ws.len(),
{
    if ws.len() > 0 {
        lemma_tried_grows(done, ws.drop_last(), id);
    }
}

proof fn lemma_tried_all(done: Set<u64>, ws: Seq<(u64, String)>, k: int)
    requires
        0 <= k < ws.len(),
    ensures
        tried(done, ws).contains(ws[k].0),
    decreases ws.len(),
{
    if k < ws.len() - 1 {
        lemma_tried_all(done, ws.drop_last(), k);
    }
}

proof fn lemma_all_tried_nothing_asked(done: Set<u64>, ws: Seq<(u64, String)>)
    requires
        forall|k: int| 0 <= k < ws.len() ==> done.contains((#[trigger] ws[k]).0),
    ensures
        picture_actions(done, ws).len() == 0,
    decreases ws.len(),
{
    if ws.len() > 0 {
        assert forall|k: int| 0 <= k < ws.drop_last().len() implies done.contains(
            (#[trigger] ws.drop_last()[k]).0,
        ) by {
            assert(ws.drop_last()[k] == ws[k]);
        }
        lemma_all_tried_nothing_asked(done, ws.drop_last());
        assert(done.contains(ws[ws.len() - 1].0));
        lemma_tried_grows(done, ws.drop_last(), ws.last().0);
    }
}

/// A user's picture is asked for once: going through the same users again asks for nothing.
pub proof fn pictures_are_tried_once(pre: AppState, mid: AppState, post: AppState, first: Seq<
    Action,
>, second: Seq<Action>)
    requires
        avatars_step(pre, mid, first),
        avatars_step(mid, post, second),
    ensures
        second.len() == 0,
{
    let ws = all_wanted(pre);
    assert forall|k: int| 0 <= k < ws.len() implies mid.people.avatar_attempted@.contains(
        (#[trigger] ws[k]).0,
    ) by {
        lemma_tried_all(pre.people.avatar_attempted@, ws, k);
    }
    lemma_all_tried_nothing_asked(mid.people.avatar_attempted@, ws);
}

} // verus!
