//! Lists of things with an id: finding, replacing, and keeping them in the order of their ids.

use vstd::prelude::*;

use crate::chat::types::{ApiMsg, Conversation};

verus! {

/// A thing with an id.
pub trait Identified: Sized {
    spec fn ident(&self) -> u64;

    fn id_of(&self) -> (id: u64)
        ensures
            id == self.ident(),
    ;
}

impl Identified for Conversation {
    open spec fn ident(&self) -> u64 {
        self.id
    }

    fn id_of(&self) -> (id: u64) {
        self.id
    }
}

impl Identified for ApiMsg {
    open spec fn ident(&self) -> u64 {
        self.id
    }

    fn id_of(&self) -> (id: u64) {
        self.id
    }
}

/// The position of the first thing with `id`, or the length of the list where there is none.
pub open spec fn position<T: Identified>(s: Seq<T>, id: u64) -> int
    decreases s.len(),
{
    if s.len() == 0 || s[0].ident() == id {
        0
    } else {
        1 + position(s.drop_first(), id)
    }
}

pub open spec fn holds<T: Identified>(s: Seq<T>, id: u64) -> bool {
    exists|i: int| 0 <= i < s.len() && (#[trigger] s[i]).ident() == id
}

/// The things whose id is not `id`.
pub open spec fn others<T: Identified>(s: Seq<T>, id: u64) -> Seq<T>
    decreases s.len(),
{
    if s.len() == 0 {
        Seq::empty()
    } else if s.last().ident() == id {
        others(s.drop_last(), id)
    } else {
        others(s.drop_last(), id).push(s.last())
    }
}

/// How many things at the front of a list have an id of at most `id`.
pub open spec fn place<T: Identified>(s: Seq<T>, id: u64) -> int
    decreases s.len(),
{
    if s.len() == 0 || s[0].ident() > id {
        0
    } else {
        1 + place(s.drop_first(), id)
    }
}

/// A list with a thing put in front of the first one with a larger id.
pub open spec fn put<T: Identified>(s: Seq<T>, x: T) -> Seq<T> {
    s.insert(place(s, x.ident()), x)
}

/// A list in the order of the ids; things with one id keep their order.
pub open spec fn sorted<T: Identified>(s: Seq<T>) -> Seq<T>
    decreases s.len(),
{
    if s.len() == 0 {
        Seq::empty()
    } else {
        put(sorted(s.drop_last()), s.last())
    }
}

/// A list with `x` in the place of the first thing with its id.
pub open spec fn swapped<T: Identified>(s: Seq<T>, x: T) -> Seq<T> {
    s.update(position(s, x.ident()), x)
}

proof fn lemma_position<T: Identified>(s: Seq<T>, id: u64, i: int)
    requires
        0 <= i <= s.len(),
        forall|j: int| 0 <= j < i ==> (#[trigger] s[j]).ident() != id,
        i < s.len() ==> s[i].ident() == id,
    ensures
        position(s, id) == i,
    decreases i,
{
    if i > 0 {
        assert(s[0].ident() != id);
        assert forall|j: int| 0 <= j < i - 1 implies (#[trigger] s.drop_first()[j]).ident() != id by {
            assert(s.drop_first()[j] == s[j + 1]);
        }
        lemma_position(s.drop_first(), id, i - 1);
    }
}

proof fn lemma_place<T: Identified>(s: Seq<T>, id: u64, i: int)
    requires
        0 <= i <= s.len(),
        forall|j: int| 0 <= j < i ==> (#[trigger] s[j]).ident() <= id,
        i < s.len() ==> s[i].ident() > id,
    ensures
        place(s, id) == i,
    decreases i,
{
    if i > 0 {
        assert(s[0].ident() <= id);
        assert forall|j: int| 0 <= j < i - 1 implies (#[trigger] s.drop_first()[j]).ident() <= id by {
            assert(s.drop_first()[j] == s[j + 1]);
        }
        lemma_place(s.drop_first(), id, i - 1);
    }
}

/// The position of the first thing with `id`.
pub fn find<T: Identified>(v: &Vec<T>, id: u64) -> (r: Option<usize>)
    ensures
        match r {
            Some(i) => i < v.len() && i == position(v@, id) && v@[i as int].ident() == id && holds(
                v@,
                id,
            ),
            None => position(v@, id) == v@.len() && !holds(v@, id),
        },
{
    let mut i: usize = 0;
    while i < v.len()
        invariant
            i <= v.len(),
            forall|j: int| 0 <= j < i ==> (#[trigger] v@[j]).ident() != id,
        decreases v.len() - i,
    {
        if v[i].id_of() == id {
            proof {
                lemma_position(v@, id, i as int);
            }
            return Some(i);
        }
        i += 1;
    }
    proof {
        lemma_position(v@, id, i as int);
    }
    None
}

pub fn put_in<T: Identified>(v: &mut Vec<T>, x: T)
    ensures
        final(v)@ == put(old(v)@, x),
{
    let id = x.id_of();
    let mut i: usize = 0;
    while i < v.len() && v[i].id_of() <= id
        invariant
            v@ == old(v)@,
            i <= v.len(),
            forall|j: int| 0 <= j < i ==> (#[trigger] v@[j]).ident() <= id,
        decreases v.len() - i,
    {
        i += 1;
    }
    proof {
        lemma_place(v@, id, i as int);
    }
    v.insert(i, x);
}

pub fn sort<T: Identified>(v: Vec<T>) -> (r: Vec<T>)
    ensures
        r@ == sorted(v@),
{
    let ghost all = v@;
    let mut r: Vec<T> = Vec::new();
    proof {
        assert(all.take(0) =~= Seq::empty());
    }
    for x in it: v
        invariant
            it.seq() == all,
            r@ == sorted(all.take(it.index() as int)),
    {
        proof {
            let i = it.index() as int;
            assert(all.take(i + 1).drop_last() =~= all.take(i));
            assert(all.take(i + 1).last() == x);
        }
        put_in(&mut r, x);
    }
    proof {
        assert(all.take(all.len() as int) =~= all);
    }
    r
}

pub fn remove_id<T: Identified>(v: Vec<T>, id: u64) -> (r: Vec<T>)
    ensures
        r@ == others(v@, id),
{
    let ghost all = v@;
    let mut r: Vec<T> = Vec::new();
    proof {
        assert(all.take(0) =~= Seq::empty());
    }
    for x in it: v
        invariant
            it.seq() == all,
            r@ == others(all.take(it.index() as int), id),
    {
        proof {
            let i = it.index() as int;
            assert(all.take(i + 1).drop_last() =~= all.take(i));
            assert(all.take(i + 1).last() == x);
        }
        if x.id_of() != id {
            r.push(x);
        }
    }
    proof {
        assert(all.take(all.len() as int) =~= all);
    }
    r
}

// ---------------------------------------------------------------------------
// Laws
// ---------------------------------------------------------------------------

/// The ids of a list never get smaller.
pub open spec fn ascending<T: Identified>(s: Seq<T>) -> bool {
    forall|i: int, j: int|
        0 <= i <= j < s.len() ==> (#[trigger] s[i]).ident() <= (#[trigger] s[j]).ident()
}

proof fn lemma_place_bounds<T: Identified>(s: Seq<T>, id: u64)
    ensures
        0 <= place(s, id) <= s.len(),
        forall|j: int| 0 <= j < place(s, id) ==> (#[trigger] s[j]).ident() <= id,
        place(s, id) < s.len() ==> s[place(s, id)].ident() > id,
    decreases s.len(),
{
    if s.len() > 0 && s[0].ident() <= id {
        lemma_place_bounds(s.drop_first(), id);
        assert forall|j: int| 0 <= j < place(s, id) implies (#[trigger] s[j]).ident() <= id by {
            if j > 0 {
                assert(s.drop_first()[j - 1] == s[j]);
            }
        }
    }
}

/// Putting a thing into an ordered list keeps the order, and adds that thing and nothing else.
pub proof fn put_keeps_order<T: Identified>(s: Seq<T>, x: T)
    requires
        ascending(s),
    ensures
        ascending(put(s, x)),
        put(s, x).to_multiset() == s.to_multiset().insert(x),
{
    let p = place(s, x.ident());
    lemma_place_bounds(s, x.ident());
    let r = put(s, x);
    assert forall|i: int, j: int| 0 <= i <= j < r.len() implies (#[trigger] r[i]).ident() <= (
    #[trigger] r[j]).ident() by {
        if i < p {
            assert(r[i] == s[i]);
        }
        if i > p {
            assert(r[i] == s[i - 1]);
        }
        if j < p {
            assert(r[j] == s[j]);
        }
        if j > p {
            assert(r[j] == s[j - 1]);
        }
        if i < p && j > p {
            assert(s[i].ident() <= s[j - 1].ident());
        }
        if i == p && j > p {
            assert(s[p].ident() <= s[j - 1].ident());
        }
    }
    vstd::seq_lib::to_multiset_insert(s, p, x);
}

/// Sorting orders a list by id and neither adds nor loses anything.
pub proof fn sorting_sorts<T: Identified>(s: Seq<T>)
    ensures
        ascending(sorted(s)),
        sorted(s).to_multiset() == s.to_multiset(),
        sorted(s).len() == s.len(),
    decreases s.len(),
{
    if s.len() > 0 {
        sorting_sorts(s.drop_last());
        put_keeps_order(sorted(s.drop_last()), s.last());
        assert(s.drop_last().push(s.last()) =~= s);
        s.drop_last().to_multiset_ensures();
        lemma_place_bounds(sorted(s.drop_last()), s.last().ident());
    } else {
        assert(s =~= Seq::empty());
    }
}

/// A list that is in order stays as it is when it is sorted.
pub proof fn sorting_keeps_sorted<T: Identified>(s: Seq<T>)
    requires
        ascending(s),
    ensures
        sorted(s) == s,
    decreases s.len(),
{
    if s.len() > 0 {
        let init = s.drop_last();
        assert forall|i: int, j: int| 0 <= i <= j < init.len() implies (#[trigger] init[i]).ident()
            <= (#[trigger] init[j]).ident() by {
            assert(s[i].ident() <= s[j].ident());
        }
        sorting_keeps_sorted(init);
        assert forall|j: int| 0 <= j < init.len() implies (#[trigger] init[j]).ident()
            <= s.last().ident() by {
            assert(s[j].ident() <= s[s.len() - 1].ident());
        }
        lemma_place(init, s.last().ident(), init.len() as int);
        assert(put(init, s.last()) =~= s);
    } else {
        assert(s =~= Seq::empty());
    }
}

/// What was taken out of a list is not in it.
pub proof fn removed_is_gone<T: Identified>(s: Seq<T>, id: u64)
    ensures
        !holds(others(s, id), id),
    decreases s.len(),
{
    if s.len() > 0 {
        removed_is_gone(s.drop_last(), id);
        let rest = others(s.drop_last(), id);
        if s.last().ident() != id {
            assert forall|i: int| 0 <= i < rest.len() + 1 implies (#[trigger] rest.push(
                s.last(),
            )[i]).ident() != id by {
                if i < rest.len() {
                    assert(rest[i].ident() != id);
                }
            }
        }
    }
}

/// The thing takes the place of the first one with its id; the list keeps its length and every other
/// thing its place.
pub proof fn swapping_takes_the_place<T: Identified>(s: Seq<T>, x: T)
    requires
        holds(s, x.ident()),
    ensures
        swapped(s, x).len() == s.len(),
        exists|i: int| 0 <= i < s.len() && #[trigger] swapped(s, x)[i] == x,
        forall|k: int|
            0 <= k < s.len() && (#[trigger] s[k]).ident() != x.ident() ==> swapped(s, x)[k] == s[k],
{
    the_first_is_found(s, x.ident());
    let j = choose|j: int| 0 <= j < s.len() && (#[trigger] s[j]).ident() == x.ident();
    let i = position(s, x.ident());
    if i == s.len() {
        assert(s[j].ident() != x.ident());
    }
    assert(swapped(s, x)[i] == x);
}

/// The position of an id is that of the first thing with it, where there is one.
pub proof fn the_first_is_found<T: Identified>(s: Seq<T>, id: u64)
    ensures
        0 <= position(s, id) <= s.len(),
        forall|j: int| 0 <= j < position(s, id) ==> (#[trigger] s[j]).ident() != id,
        position(s, id) < s.len() ==> s[position(s, id)].ident() == id,
    decreases s.len(),
{
    if s.len() > 0 && s[0].ident() != id {
        let t = s.drop_first();
        the_first_is_found(t, id);
        assert forall|j: int| 0 <= j < position(s, id) implies (#[trigger] s[j]).ident() != id by {
            if j > 0 {
                assert(t[j - 1] == s[j]);
            }
        }
    }
}

/// Taking an id out leaves every thing with another id.
pub proof fn others_are_left<T: Identified>(s: Seq<T>, id: u64)
    ensures
        forall|k: int| 0 <= k < s.len() && (#[trigger] s[k]).ident() != id ==> others(s, id).contains(s[k]),
        forall|i: int|
            0 <= i < others(s, id).len() ==> (#[trigger] others(s, id)[i]).ident() != id && s.contains(
                others(s, id)[i],
            ),
    decreases s.len(),
{
    if s.len() > 0 {
        let init = s.drop_last();
        others_are_left(init, id);
        let rest = others(init, id);
        let all = others(s, id);
        assert forall|k: int| 0 <= k < s.len() && (#[trigger] s[k]).ident() != id implies all.contains(
            s[k],
        ) by {
            if k < init.len() {
                assert(init[k] == s[k]);
                let i = choose|i: int| 0 <= i < rest.len() && rest[i] == s[k];
                assert(all[i] == s[k]);
            } else {
                assert(all[all.len() - 1] == s[k]);
            }
        }
        assert forall|i: int| 0 <= i < all.len() implies (#[trigger] all[i]).ident() != id && s.contains(
            all[i],
        ) by {
            if i < rest.len() {
                assert(all[i] == rest[i]);
                let k = choose|k: int| 0 <= k < init.len() && init[k] == rest[i];
                assert(s[k] == all[i]);
            } else {
                assert(s[s.len() - 1] == all[i]);
            }
        }
    }
}

/// Sorting keeps every thing and adds none.
pub proof fn sorting_keeps_everything<T: Identified>(s: Seq<T>, x: T)
    ensures
        sorted(s).contains(x) <==> s.contains(x),
        sorted(s).len() == s.len(),
{
    sorting_sorts(s);
    s.to_multiset_ensures();
    sorted(s).to_multiset_ensures();
    assert(s.contains(x) <==> s.to_multiset().count(x) > 0);
    assert(sorted(s).contains(x) <==> sorted(s).to_multiset().count(x) > 0);
}

} // verus!
