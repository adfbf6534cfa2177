//! Keys of hash maps.
use std::collections::HashMap;
use vstd::prelude::*;
use vstd::std_specs::hash::spec_keys_iter;
use vstd::std_specs::iter::IteratorSpec;

verus! {

/// Whether a list holds each key of a map once and nothing else.
pub open spec fn lists_keys<V>(keys: Seq<i64>, m: Map<i64, V>) -> bool {
    &&& keys.no_duplicates()
    &&& keys.to_set() == m.dom()
    &&& keys.len() == m.dom().len()
}

/// The keys of a map, in some order.
pub fn keys_of<V>(m: &HashMap<i64, V>) -> (r: Vec<i64>)
    ensures
        lists_keys(r@, m@),
        forall|k: i64| #[trigger] r@.contains(k) <==> m@.contains_key(k),
{
    broadcast use vstd::std_specs::hash::group_hash_axioms;

    let mut r: Vec<i64> = Vec::new();
    let ghost all = spec_keys_iter(m).remaining();
    for k in it: m.keys()
        invariant
            it.seq() == all,
            r@ == all.unref().take(it.index()),
    {
        r.push(*k);
        assert(r@ =~= all.unref().take(it.index() + 1));
    }
    proof {
        assert(r@ =~= all.unref());
        assert(all.unref().to_set() == m@.dom());
        assert forall|i: int, j: int| 0 <= i < j < r@.len() implies r@[i] != r@[j] by {
            assert(all[i] != all[j]);
        }
        assert forall|k: i64| #[trigger] r@.contains(k) implies m@.contains_key(k) by {
            assert(r@.to_set().contains(k));
        }
        assert forall|k: i64| m@.contains_key(k) implies #[trigger] r@.contains(k) by {
            assert(r@.to_set().contains(k));
        }
    }
    r
}

} // verus!
