//! The list of profiles that the user picks from.
use crate::model::Profile;
use std::collections::BTreeMap;
use vstd::prelude::*;
use vstd::std_specs::btree::{axiom_increasing_seq_meaning, increasing_seq, spec_btree_map_iter};
use vstd::std_specs::cmp::OrdSpec;
use vstd::std_specs::iter::IteratorSpec;

verus! {

#[derive(Debug, Clone)]
pub enum Message {
    Select(usize),
}

/// The ids of `profiles`, each once, in ascending order: the order in which
/// the list presents them, whatever the order in which they were added.
pub fn profile_ids(profiles: &BTreeMap<usize, Profile>) -> (r: Vec<usize>)
    ensures
        forall|i: int, j: int| 0 <= i < j < r@.len() ==> r@[i] < r@[j],
        forall|k: usize| profiles@.contains_key(k) <==> r@.contains(k),
{
    let mut r: Vec<usize> = Vec::new();
    for entry in it: profiles.iter()
        invariant
            r@ == it.seq().take(it.index()).map_values(|e: (&usize, &Profile)| *e.0),
    {
        r.push(*entry.0);
    }
    proof {
        let entries = spec_btree_map_iter(profiles).remaining();
        let keys = entries.map_values(|e: (&usize, &Profile)| *e.0);
        assert(r@ == keys);
        assert(increasing_seq(keys));
        axiom_increasing_seq_meaning(keys);
        assert forall|i: int, j: int| 0 <= i < j < r@.len() implies r@[i] < r@[j] by {
            assert(keys[i].cmp_spec(&keys[j]) is Less);
        }
        assert forall|k: usize| profiles@.contains_key(k) implies r@.contains(k) by {
            assert(entries.contains((&k, &profiles@[k])));
            let i = choose|i: int| 0 <= i < entries.len() && entries[i] == (&k, &profiles@[k]);
            assert(r@[i] == k);
        }
        assert forall|k: usize| r@.contains(k) implies profiles@.contains_key(k) by {
            let i = choose|i: int| 0 <= i < r@.len() && r@[i] == k;
            assert(profiles@.contains_key(*entries[i].0));
        }
    }
    r
}

} // verus!
