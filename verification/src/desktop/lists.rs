//! Merging what the server sends into the lists of the desktop client.

use vstd::prelude::*;

use crate::chat::types::{ApiMsg, Conversation};
use crate::desktop::state::{to_window_id, window_id, Desktop, Talks};
use crate::ordered::{
    ascending, find, holds, others, position, remove_id, removed_is_gone, sort, sorted,
    sorting_sorts, swapped, Identified,
};

verus! {

/// The conversations with one added or replaced, ordered by id.
pub open spec fn merged_conversation(s: Seq<Conversation>, c: Conversation) -> Seq<Conversation> {
    if holds(s, c.id) {
        sorted(swapped(s, c))
    } else {
        sorted(s.push(c))
    }
}

/// The messages with one replaced in its place, or added in the order of the ids.
pub open spec fn merged_message(s: Seq<ApiMsg>, m: ApiMsg) -> Seq<ApiMsg> {
    if holds(s, m.id) {
        swapped(s, m)
    } else {
        sorted(s.push(m))
    }
}

/// A message goes into the list of the open conversation only.
pub open spec fn message_merged(pre: Desktop, m: ApiMsg, post: Desktop) -> bool {
    &&& post == (Desktop { talks: Talks { messages: post.talks.messages, ..pre.talks }, ..pre })
    &&& post.talks.messages@ == if pre.talks.selected == window_id(m.conversation_id) {
        merged_message(pre.talks.messages@, m)
    } else {
        pre.talks.messages@
    }
}

pub open spec fn conversation_merged(pre: Desktop, c: Conversation, post: Desktop) -> bool {
    &&& post == (Desktop {
        talks: Talks { conversations: post.talks.conversations, ..pre.talks },
        ..pre
    })
    &&& post.talks.conversations@ == merged_conversation(pre.talks.conversations@, c)
}

pub open spec fn message_removed(pre: Desktop, conv: u64, id: u64, post: Desktop) -> bool {
    &&& post == (Desktop { talks: Talks { messages: post.talks.messages, ..pre.talks }, ..pre })
    &&& post.talks.messages@ == if pre.talks.selected == window_id(conv) {
        others(pre.talks.messages@, id)
    } else {
        pre.talks.messages@
    }
}

/// The conversations once a list of them was merged.
pub open spec fn merged_all(s: Seq<Conversation>, cs: Seq<Conversation>) -> Seq<Conversation>
    decreases cs.len(),
{
    if cs.len() == 0 {
        s
    } else {
        merged_conversation(merged_all(s, cs.drop_last()), cs.last())
    }
}

impl Desktop {
    pub fn merge_conversation(&mut self, c: Conversation)
        ensures
            conversation_merged(*old(self), c, *final(self)),
    {
        let mut held: Vec<Conversation> = Vec::new();
        std::mem::swap(&mut held, &mut self.talks.conversations);
        match find(&held, c.id) {
            Some(i) => {
                held.set(i, c);
            },
            None => {
                held.push(c);
            },
        }
        self.talks.conversations = sort(held);
    }

    pub fn merge_conversations(&mut self, list: Vec<Conversation>)
        ensures
            *final(self) == (Desktop {
                talks: Talks {
                    conversations: final(self).talks.conversations,
                    ..old(self).talks
                },
                ..*old(self)
            }),
            final(self).talks.conversations@ == merged_all(
                old(self).talks.conversations@,
                list@,
            ),
    {
        let ghost all = list@;
        let ghost start = *self;
        for c in it: list
            invariant
                it.seq() == all,
                *self == (Desktop {
                    talks: Talks { conversations: self.talks.conversations, ..start.talks },
                    ..start
                }),
                self.talks.conversations@ == merged_all(
                    start.talks.conversations@,
                    all.take(it.index() as int),
                ),
        {
            proof {
                let i = it.index() as int;
                assert(all.take(i + 1).drop_last() =~= all.take(i));
                assert(all.take(i + 1).last() == c);
            }
            self.merge_conversation(c);
        }
        proof {
            assert(all.take(all.len() as int) =~= all);
        }
    }

    pub fn merge_message(&mut self, m: ApiMsg)
        ensures
            message_merged(*old(self), m, *final(self)),
    {
        if self.talks.selected != to_window_id(m.conversation_id) {
            return;
        }
        match find(&self.talks.messages, m.id) {
            Some(i) => {
                self.talks.messages.set(i, m);
            },
            None => {
                let mut held: Vec<ApiMsg> = Vec::new();
                std::mem::swap(&mut held, &mut self.talks.messages);
                held.push(m);
                self.talks.messages = sort(held);
            },
        }
    }

    pub fn merge_message_deleted(&mut self, conversation_id: u64, message_id: u64)
        ensures
            message_removed(*old(self), conversation_id, message_id, *final(self)),
    {
        if self.talks.selected != to_window_id(conversation_id) {
            return;
        }
        let mut held: Vec<ApiMsg> = Vec::new();
        std::mem::swap(&mut held, &mut self.talks.messages);
        self.talks.messages = remove_id(held, message_id);
    }
}

// ---------------------------------------------------------------------------
// Laws
// ---------------------------------------------------------------------------

proof fn lemma_position_bounds<T: Identified>(s: Seq<T>, id: u64)
    requires
        holds(s, id),
    ensures
        0 <= position(s, id) < s.len(),
        s[position(s, id)].ident() == id,
    decreases s.len(),
{
    if s[0].ident() != id {
        let k = choose|k: int| 0 <= k < s.len() && (#[trigger] s[k]).ident() == id;
        assert(s.drop_first()[k - 1] == s[k]);
        assert(s.drop_first()[k - 1].ident() == id);
        lemma_position_bounds(s.drop_first(), id);
        assert(s.drop_first()[position(s.drop_first(), id)] == s[position(s, id)]);
    }
}

/// The messages of the open conversation stay in the order of their ids when one is merged.
pub proof fn merging_keeps_message_order(s: Seq<ApiMsg>, m: ApiMsg)
    requires
        ascending(s),
    ensures
        ascending(merged_message(s, m)),
        holds(merged_message(s, m), m.id),
{
    if holds(s, m.id) {
        lemma_position_bounds(s, m.id);
        let p = position(s, m.id);
        let r = swapped(s, m);
        assert(r[p].ident() == m.id);
        assert forall|i: int, j: int| 0 <= i <= j < r.len() implies (#[trigger] r[i]).ident() <= (
        #[trigger] r[j]).ident() by {
            assert(s[i].ident() <= s[j].ident());
        }
    } else {
        let pushed = s.push(m);
        sorting_sorts(pushed);
        broadcast use vstd::seq_lib::group_to_multiset_ensures;

        assert(pushed[s.len() as int] == m);
        assert(pushed.contains(m));
        assert(sorted(pushed).to_multiset().count(m) > 0);
        assert(sorted(pushed).contains(m));
        let k = choose|k: int| 0 <= k < sorted(pushed).len() && sorted(pushed)[k] == m;
        assert(sorted(pushed)[k].ident() == m.id);
    }
}

/// The conversations are in the order of their ids once one was merged.
pub proof fn merging_orders_conversations(s: Seq<Conversation>, c: Conversation)
    ensures
        ascending(merged_conversation(s, c)),
{
    if holds(s, c.id) {
        sorting_sorts(swapped(s, c));
    } else {
        sorting_sorts(s.push(c));
    }
}

proof fn lemma_first_position<T: Identified>(s: Seq<T>, id: u64, i: int)
    requires
        holds(s, id),
        0 <= i < position(s, id),
    ensures
        s[i].ident() != id,
    decreases s.len(),
{
    if i > 0 {
        lemma_position_bounds(s, id);
        let p = position(s, id);
        assert(s.drop_first()[p - 1] == s[p]);
        assert(s.drop_first()[p - 1].ident() == id);
        lemma_first_position(s.drop_first(), id, i - 1);
        assert(s.drop_first()[i - 1] == s[i]);
    }
}

/// Merging a message twice is merging it once.
pub proof fn merging_twice_is_merging_once(s: Seq<ApiMsg>, m: ApiMsg)
    requires
        ascending(s),
    ensures
        merged_message(merged_message(s, m), m) == merged_message(s, m),
{
    let r = merged_message(s, m);
    merging_keeps_message_order(s, m);
    lemma_position_bounds(r, m.id);
    let p = position(r, m.id);
    if holds(s, m.id) {
        lemma_position_bounds(s, m.id);
        let q = position(s, m.id);
        assert(r[q] == m);
        if q < p {
            lemma_first_position(r, m.id, q);
        }
        if p < q {
            lemma_first_position(s, m.id, p);
            assert(r[p] == s[p]);
        }
    } else {
        let pushed = s.push(m);
        sorting_sorts(pushed);
        broadcast use vstd::seq_lib::group_to_multiset_ensures;

        assert(r.contains(r[p]));
        assert(r.to_multiset().count(r[p]) > 0);
        assert(pushed.contains(r[p]));
        let k = choose|k: int| 0 <= k < pushed.len() && pushed[k] == r[p];
        if k < s.len() {
            assert(s[k].ident() == m.id);
        }
        assert(r[p] == m);
    }
    assert(swapped(r, m) =~= r);
}

/// A deleted message of the open conversation is not in the list any more.
pub proof fn deleted_messages_are_gone(pre: Desktop, conv: u64, id: u64, post: Desktop)
    requires
        message_removed(pre, conv, id, post),
        pre.talks.selected == window_id(conv),
    ensures
        !holds(post.talks.messages@, id),
{
    removed_is_gone(pre.talks.messages@, id);
}

/// Messages of other conversations do not touch the list of the open one.
pub proof fn other_conversations_stay_out(pre: Desktop, m: ApiMsg, post: Desktop)
    requires
        message_merged(pre, m, post),
        pre.talks.selected != window_id(m.conversation_id),
    ensures
        post.talks.messages@ == pre.talks.messages@,
{
}

} // verus!
