//! Lists of messages: finding, adding, replacing and taking out by id.

use vstd::prelude::*;

use crate::chat::types::ApiMsg;

verus! {

/// The position of the first message with `id`, or the length of the list where there is none.
pub open spec fn msg_index(msgs: Seq<ApiMsg>, id: u64) -> int
    decreases msgs.len(),
{
    if msgs.len() == 0 || msgs[0].id == id {
        0
    } else {
        1 + msg_index(msgs.drop_first(), id)
    }
}

pub open spec fn has_msg(msgs: Seq<ApiMsg>, id: u64) -> bool {
    exists|i: int| 0 <= i < msgs.len() && (#[trigger] msgs[i]).id == id
}

/// The list with `m` behind it, unless a message with its id is there.
pub open spec fn with_msg(msgs: Seq<ApiMsg>, m: ApiMsg) -> Seq<ApiMsg> {
    if has_msg(msgs, m.id) {
        msgs
    } else {
        msgs.push(m)
    }
}

/// The list with `m` in the place of the first message with its id.
pub open spec fn replaced(msgs: Seq<ApiMsg>, m: ApiMsg) -> Seq<ApiMsg> {
    let i = msg_index(msgs, m.id);
    if i < msgs.len() {
        msgs.update(i, m)
    } else {
        msgs
    }
}

/// The list without the messages with `id`.
pub open spec fn without_msg(msgs: Seq<ApiMsg>, id: u64) -> Seq<ApiMsg>
    decreases msgs.len(),
{
    if msgs.len() == 0 {
        Seq::empty()
    } else if msgs.last().id == id {
        without_msg(msgs.drop_last(), id)
    } else {
        without_msg(msgs.drop_last(), id).push(msgs.last())
    }
}

proof fn lemma_msg_index(msgs: Seq<ApiMsg>, id: u64, i: int)
    requires
        0 <= i <= msgs.len(),
        forall|j: int| 0 <= j < i ==> (#[trigger] msgs[j]).id != id,
        i < msgs.len() ==> msgs[i].id == id,
    ensures
        msg_index(msgs, id) == i,
    decreases i,
{
    if i > 0 {
        assert(msgs[0].id != id);
        assert forall|j: int| 0 <= j < i - 1 implies (#[trigger] msgs.drop_first()[j]).id != id by {
            assert(msgs.drop_first()[j] == msgs[j + 1]);
        }
        lemma_msg_index(msgs.drop_first(), id, i - 1);
    }
}

/// The position of the first message with `id`.
pub fn find_msg(msgs: &Vec<ApiMsg>, id: u64) -> (r: Option<usize>)
    ensures
        match r {
            Some(i) => i < msgs.len() && i == msg_index(msgs@, id) && msgs@[i as int].id == id
                && has_msg(msgs@, id),
            None => msg_index(msgs@, id) == msgs@.len() && !has_msg(msgs@, id),
        },
{
    let mut i: usize = 0;
    while i < msgs.len()
        invariant
            i <= msgs.len(),
            forall|j: int| 0 <= j < i ==> (#[trigger] msgs@[j]).id != id,
        decreases msgs.len() - i,
    {
        if msgs[i].id == id {
            proof {
                lemma_msg_index(msgs@, id, i as int);
            }
            return Some(i);
        }
        i += 1;
    }
    proof {
        lemma_msg_index(msgs@, id, i as int);
    }
    None
}

pub fn add_msg(msgs: &mut Vec<ApiMsg>, m: ApiMsg)
    ensures
        final(msgs)@ == with_msg(old(msgs)@, m),
{
    if find_msg(msgs, m.id).is_none() {
        msgs.push(m);
    }
}

pub fn replace_msg(msgs: &mut Vec<ApiMsg>, m: ApiMsg)
    ensures
        final(msgs)@ == replaced(old(msgs)@, m),
{
    match find_msg(msgs, m.id) {
        Some(i) => {
            msgs.set(i, m);
        },
        None => {},
    }
}

pub fn remove_msg(msgs: &mut Vec<ApiMsg>, id: u64)
    ensures
        final(msgs)@ == without_msg(old(msgs)@, id),
{
    let ghost before = msgs@;
    let mut held: Vec<ApiMsg> = Vec::new();
    std::mem::swap(&mut held, msgs);
    let mut rest: Vec<ApiMsg> = Vec::new();
    proof {
        assert(before.take(0) =~= Seq::empty());
    }
    for m in it: held
        invariant
            it.seq() == before,
            rest@ == without_msg(before.take(it.index() as int), id),
    {
        proof {
            let i = it.index() as int;
            assert(before.take(i + 1).drop_last() =~= before.take(i));
            assert(before.take(i + 1).last() == before[i]);
        }
        if m.id != id {
            rest.push(m);
        }
    }
    proof {
        assert(before.take(before.len() as int) =~= before);
    }
    *msgs = rest;
}

/// A message that was taken out is not in the list.
pub proof fn removed_is_absent(msgs: Seq<ApiMsg>, id: u64)
    ensures
        !has_msg(without_msg(msgs, id), id),
    decreases msgs.len(),
{
    if msgs.len() > 0 {
        removed_is_absent(msgs.drop_last(), id);
        let rest = without_msg(msgs.drop_last(), id);
        if msgs.last().id != id {
            assert forall|i: int| 0 <= i < rest.len() + 1 implies (#[trigger] rest.push(
                msgs.last(),
            )[i]).id != id by {
                if i < rest.len() {
                    assert(rest[i].id != id);
                }
            }
        }
    }
}

/// No two messages of a list have one id.
pub open spec fn unique_ids(msgs: Seq<ApiMsg>) -> bool {
    forall|i: int, j: int|
        0 <= i < j < msgs.len() ==> (#[trigger] msgs[i]).id != (#[trigger] msgs[j]).id
}

/// A list of messages with distinct ids stays one when a message is added, replaced or taken out.
pub proof fn ids_stay_unique(msgs: Seq<ApiMsg>, m: ApiMsg, id: u64)
    requires
        unique_ids(msgs),
    ensures
        unique_ids(with_msg(msgs, m)),
        unique_ids(replaced(msgs, m)),
        unique_ids(without_msg(msgs, id)),
{
    lemma_without_unique(msgs, id);
    lemma_index_bounds(msgs, m.id);
}

proof fn lemma_index_bounds(msgs: Seq<ApiMsg>, id: u64)
    ensures
        0 <= msg_index(msgs, id) <= msgs.len(),
        msg_index(msgs, id) < msgs.len() ==> msgs[msg_index(msgs, id)].id == id,
    decreases msgs.len(),
{
    if msgs.len() > 0 && msgs[0].id != id {
        lemma_index_bounds(msgs.drop_first(), id);
    }
}

proof fn lemma_without_members(msgs: Seq<ApiMsg>, id: u64, k: int)
    requires
        0 <= k < without_msg(msgs, id).len(),
    ensures
        exists|i: int| 0 <= i < msgs.len() && msgs[i] == without_msg(msgs, id)[k],
    decreases msgs.len(),
{
    if msgs.len() > 0 {
        let rest = without_msg(msgs.drop_last(), id);
        if k < rest.len() {
            lemma_without_members(msgs.drop_last(), id, k);
            let i = choose|i: int|
                0 <= i < msgs.drop_last().len() && msgs.drop_last()[i] == rest[k];
            assert(msgs[i] == without_msg(msgs, id)[k]);
        } else {
            assert(msgs[msgs.len() - 1] == without_msg(msgs, id)[k]);
        }
    }
}

proof fn lemma_without_unique(msgs: Seq<ApiMsg>, id: u64)
    requires
        unique_ids(msgs),
    ensures
        unique_ids(without_msg(msgs, id)),
    decreases msgs.len(),
{
    if msgs.len() > 0 {
        let rest = without_msg(msgs.drop_last(), id);
        lemma_without_unique(msgs.drop_last(), id);
        let all = without_msg(msgs, id);
        assert forall|i: int, j: int| 0 <= i < j < all.len() implies (#[trigger] all[i]).id != (
        #[trigger] all[j]).id by {
            if j < rest.len() {
                assert(rest[i].id != rest[j].id);
            } else {
                lemma_without_members(msgs.drop_last(), id, i);
                let a = choose|a: int|
                    0 <= a < msgs.drop_last().len() && msgs.drop_last()[a] == rest[i];
                assert(msgs[a].id != msgs[msgs.len() - 1].id);
            }
        }
    }
}

/// A message takes the place of the one with its id: it is in the list, the list is as long as it
/// was, and every other message is where it was. Where no message has its id the list stays.
pub proof fn replaced_takes_the_place(msgs: Seq<ApiMsg>, m: ApiMsg)
    ensures
        replaced(msgs, m).len() == msgs.len(),
        (exists|i: int| 0 <= i < msgs.len() && (#[trigger] msgs[i]).id == m.id) ==> exists|i: int|
            0 <= i < msgs.len() && #[trigger] replaced(msgs, m)[i] == m && msgs[i].id == m.id,
        forall|k: int|
            0 <= k < msgs.len() && (#[trigger] msgs[k]).id != m.id ==> replaced(msgs, m)[k] == msgs[k],
        (forall|i: int| 0 <= i < msgs.len() ==> (#[trigger] msgs[i]).id != m.id) ==> replaced(msgs, m)
            == msgs,
{
    lemma_index_bounds(msgs, m.id);
    let i = msg_index(msgs, m.id);
    if exists|j: int| 0 <= j < msgs.len() && (#[trigger] msgs[j]).id == m.id {
        let j = choose|j: int| 0 <= j < msgs.len() && (#[trigger] msgs[j]).id == m.id;
        lemma_index_below(msgs, m.id, j);
        assert(replaced(msgs, m)[i] == m);
    }
}

proof fn lemma_index_below(msgs: Seq<ApiMsg>, id: u64, j: int)
    requires
        0 <= j < msgs.len(),
        msgs[j].id == id,
    ensures
        msg_index(msgs, id) <= j,
    decreases j,
{
    if msgs[0].id != id {
        assert(msgs.drop_first()[j - 1] == msgs[j]);
        lemma_index_below(msgs.drop_first(), id, j - 1);
    }
}

/// What is left of a list without an id: every message with another id, and none with that one.
pub proof fn others_are_left(msgs: Seq<ApiMsg>, id: u64)
    ensures
        forall|k: int|
            0 <= k < msgs.len() && (#[trigger] msgs[k]).id != id ==> without_msg(msgs, id).contains(
                msgs[k],
            ),
        forall|i: int|
            0 <= i < without_msg(msgs, id).len() ==> (#[trigger] without_msg(msgs, id)[i]).id != id
                && msgs.contains(without_msg(msgs, id)[i]),
    decreases msgs.len(),
{
    if msgs.len() > 0 {
        let init = msgs.drop_last();
        others_are_left(init, id);
        let rest = without_msg(init, id);
        let all = without_msg(msgs, id);
        assert forall|k: int| 0 <= k < msgs.len() && (#[trigger] msgs[k]).id != id implies all.contains(
            msgs[k],
        ) by {
            if k < init.len() {
                assert(init[k] == msgs[k]);
                let i = choose|i: int| 0 <= i < rest.len() && rest[i] == msgs[k];
                assert(all[i] == msgs[k]);
            } else {
                assert(all[all.len() - 1] == msgs[k]);
            }
        }
        assert forall|i: int| 0 <= i < all.len() implies (#[trigger] all[i]).id != id && msgs.contains(
            all[i],
        ) by {
            if i < rest.len() {
                assert(all[i] == rest[i]);
                let k = choose|k: int| 0 <= k < init.len() && init[k] == rest[i];
                assert(msgs[k] == all[i]);
            } else {
                assert(msgs[msgs.len() - 1] == all[i]);
            }
        }
    }
}

/// A new message comes behind the others; one that is there already is not added again.
pub proof fn new_messages_come_last(msgs: Seq<ApiMsg>, m: ApiMsg)
    ensures
        (exists|i: int| 0 <= i < msgs.len() && (#[trigger] msgs[i]).id == m.id) ==> with_msg(msgs, m)
            == msgs,
        (forall|i: int| 0 <= i < msgs.len() ==> (#[trigger] msgs[i]).id != m.id) ==> {
            &&& with_msg(msgs, m).len() == msgs.len() + 1
            &&& with_msg(msgs, m).last() == m
            &&& with_msg(msgs, m).drop_last() == msgs
        },
{
    if !(exists|i: int| 0 <= i < msgs.len() && (#[trigger] msgs[i]).id == m.id) {
        assert(msgs.push(m).drop_last() =~= msgs);
    }
}

/// The position that is found is that of the first message with the id.
pub proof fn the_first_message_is_found(msgs: Seq<ApiMsg>, id: u64)
    ensures
        0 <= msg_index(msgs, id) <= msgs.len(),
        forall|j: int| 0 <= j < msg_index(msgs, id) ==> (#[trigger] msgs[j]).id != id,
        msg_index(msgs, id) < msgs.len() ==> msgs[msg_index(msgs, id)].id == id,
{
    lemma_index_bounds(msgs, id);
    assert forall|j: int| 0 <= j < msg_index(msgs, id) implies (#[trigger] msgs[j]).id != id by {
        if msgs[j].id == id {
            lemma_index_below(msgs, id, j);
        }
    }
}

} // verus!
