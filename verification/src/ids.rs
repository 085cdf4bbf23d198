//! Maps from ids.

use std::collections::HashMap;

use vstd::prelude::*;
use vstd::std_specs::iter::IteratorSpec;

verus! {

/// The ids of a map, each once, in no order that can be relied on.
pub fn ids_of<V>(m: &HashMap<u64, V>) -> (r: Vec<u64>)
    ensures
        r@.no_duplicates(),
        forall|k: u64| #[trigger] m@.contains_key(k) <==> r@.contains(k),
{
    let mut r: Vec<u64> = Vec::new();
    let ghost all = m.keys().remaining();
    for k in it: m.keys()
        invariant
            it.seq() == all,
            r@ == all.unref().take(it.index() as int),
    {
        r.push(*k);
        proof {
            assert(r@ =~= all.unref().take(it.index() + 1));
        }
    }
    proof {
        assert(all.unref().take(all.len() as int) =~= all.unref());
        assert forall|k: u64| #[trigger] m@.contains_key(k) <==> r@.contains(k) by {
            assert(all.unref().to_set().contains(k) <==> m@.dom().contains(k));
        }
    }
    r
}

} // verus!
