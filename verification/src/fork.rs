use std::collections::BTreeMap;

use vstd::prelude::*;
use vstd::std_specs::btree::spec_values_iter;
use vstd::std_specs::iter::IteratorSpec;

verus! {

/// What a clone's poll reads and writes of the state that all clones of one
/// forked stream share.
pub struct Fork<V> {
    /// Items of the base stream kept for clones that have not seen them yet,
    /// each under the index at which it was queued.
    pub queue: BTreeMap<usize, V>,
    /// The index under which the next item of the base stream is queued.
    pub next_queue_index: usize,
    /// For each registered clone, by its id: whether that clone should still
    /// see the next item that the base stream yields.
    pub clones: BTreeMap<usize, bool>,
}

/// Every index in the queue was handed out before `next`.
pub open spec fn indices_below<V>(queue: Map<usize, V>, next: usize) -> bool {
    forall|k: usize| #[trigger] queue.contains_key(k) ==> k < next
}

/// Some registered clone should still see the next item of the base stream.
pub open spec fn some_clone_waits_for_base(clones: Map<usize, bool>) -> bool {
    exists|id: usize| #[trigger] clones.contains_key(id) && clones[id]
}

/// `k` is the greatest index in the queue.
pub open spec fn is_greatest_index<V>(queue: Map<usize, V>, k: usize) -> bool {
    &&& queue.contains_key(k)
    &&& forall|j: usize| #[trigger] queue.contains_key(j) ==> j <= k
}

/// Calls `BTreeMap::last_key_value`, whose documentation says that it returns
/// the last key-value pair of the map, whose key is the greatest key in the
/// map, and `None` on an empty map. The contract claims exactly that of the
/// key, which is all that is handed back.
#[verifier::external_body]
pub(crate) fn greatest_queue_index<V>(queue: &BTreeMap<usize, V>) -> (r: Option<usize>)
    ensures
        r is None <==> queue@.is_empty(),
        r matches Some(k) ==> is_greatest_index(queue@, k),
{
    queue.last_key_value().map(|(k, _)| *k)
}

impl<V> Fork<V> {
    /// The fork's invariant: no queued item sits at or above the index that
    /// the next item will take.
    pub open spec fn well_formed(&self) -> bool {
        indices_below(self.queue@, self.next_queue_index)
    }

    /// Whether some registered clone should still see the next item of the
    /// base stream.
    pub fn some_clone_should_still_see_base_item(&self) -> (b: bool)
        ensures
            b == some_clone_waits_for_base(self.clones@),
    {
        let ghost all: Seq<bool> = spec_values_iter(&self.clones).remaining().unref();
        let mut found = false;
        for waits in it: self.clones.values()
            invariant
                it.seq().unref() == all,
                all.to_set() == self.clones@.values(),
                found == exists|i: int| 0 <= i < it.index() && all[i],
        {
            if *waits {
                found = true;
            }
        }
        proof {
            if found {
                let i = choose|i: int| 0 <= i < all.len() && all[i];
                assert(all.to_set().contains(all[i]));
                assert(self.clones@.values().contains(true));
            } else if some_clone_waits_for_base(self.clones@) {
                let id = choose|id: usize| #[trigger] self.clones@.contains_key(id) && self.clones@[id];
                assert(self.clones@.values().contains(true));
                assert(all.to_set().contains(true));
                assert(all.contains(true));
            }
        }
        found
    }
}

} // verus!
