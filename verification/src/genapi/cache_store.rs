//! The cache of the values that were read from the device.
//!
//! A register may name nodes whose change makes its cached value stale.
//! The cache keeps, for each such node, the registers that name it, and
//! marks their entries as not valid when the node changes.

use crate::genapi::node::{NodeData, NodeId};
use crate::genapi::node_store::{present, NodeStore};
use crate::genapi::value_store::ValueId;
use std::collections::HashMap;
use vstd::prelude::*;

verus! {

broadcast use vstd::std_specs::hash::group_hash_axioms;

/// An entry of the cache: the value of a node and whether it can still be
/// relied on.
#[derive(Debug, Clone, Copy, PartialEq, Eq, Structural)]
pub struct CacheData {
    /// The identifier of the cached value.
    pub value_id: ValueId,
    /// Whether the value is that of the device.
    pub is_valid: bool,
}

impl CacheData {
    /// An entry for the value `value_id`.
    pub fn new(value_id: ValueId, is_valid: bool) -> (data: CacheData)
        ensures
            data == (CacheData { value_id, is_valid }),
    {
        CacheData { value_id, is_valid }
    }
}

/// A cache of values of nodes. What storing and invalidating do to the
/// entries is for each cache to say.
pub trait CacheStore {
    /// The entries of the cache, by node.
    spec fn cache(&self) -> Map<NodeId, CacheData>;

    /// The entries of the cache after `store(node_id, value_id)`.
    spec fn after_store(&self, node_id: NodeId, value_id: ValueId) -> Map<NodeId, CacheData>;

    /// The entries of the cache after `invalidate_by(id)`.
    spec fn after_invalidate(&self, id: NodeId) -> Map<NodeId, CacheData>;

    /// Takes note that the node `node_id` has a value read from the
    /// device.
    fn store(&mut self, node_id: NodeId, value_id: ValueId)
        ensures
            final(self).cache() == old(self).after_store(node_id, value_id),
    ;

    /// The entry of the node `node_id`, if it has one.
    fn value(&self, node_id: NodeId) -> (data: Option<CacheData>)
        ensures
            data == (if self.cache().contains_key(node_id) {
                Some(self.cache()[node_id])
            } else {
                None
            }),
    ;

    /// Takes note that the node `id` has changed.
    fn invalidate_by(&mut self, id: NodeId)
        ensures
            final(self).cache() == old(self).after_invalidate(id),
    ;
}

/// `id`, once for each time that `invalidator` stands in `invalidators`.
pub open spec fn occurrences(id: NodeId, invalidators: Seq<NodeId>, invalidator: NodeId) -> Seq<
    NodeId,
>
    decreases invalidators.len(),
{
    if invalidators.len() == 0 {
        Seq::empty()
    } else if invalidators.last() == invalidator {
        occurrences(id, invalidators.drop_last(), invalidator).push(id)
    } else {
        occurrences(id, invalidators.drop_last(), invalidator)
    }
}

/// The registers among `nodes` that name `invalidator` as one of their
/// invalidators, in the order of `nodes`, each once for each time it names
/// it.
pub open spec fn listed(nodes: Seq<NodeData>, invalidator: NodeId) -> Seq<NodeId>
    decreases nodes.len(),
{
    if nodes.len() == 0 {
        Seq::empty()
    } else {
        match nodes.last().spec_register() {
            Some(register) => listed(nodes.drop_last(), invalidator) + occurrences(
                register.base.id,
                register.register_base.p_invalidators@,
                invalidator,
            ),
            None => listed(nodes.drop_last(), invalidator),
        }
    }
}

/// The entries after a value of the node `node_id` was read: an entry that
/// is there becomes valid and keeps its value; where there is none, one is
/// made for `value_id`.
pub open spec fn stored(cache: Map<NodeId, CacheData>, node_id: NodeId, value_id: ValueId) -> Map<
    NodeId,
    CacheData,
> {
    if cache.contains_key(node_id) {
        cache.insert(node_id, CacheData { value_id: cache[node_id].value_id, is_valid: true })
    } else {
        cache.insert(node_id, CacheData { value_id, is_valid: true })
    }
}

/// The entries after those of `targets` were marked as not valid.
pub open spec fn invalidated(cache: Map<NodeId, CacheData>, targets: Seq<NodeId>) -> Map<
    NodeId,
    CacheData,
> {
    Map::new(
        |id: NodeId| cache.contains_key(id),
        |id: NodeId|
            if targets.contains(id) {
                CacheData { value_id: cache[id].value_id, is_valid: false }
            } else {
                cache[id]
            },
    )
}

/// The entries of a map keyed by the index of a node, keyed by the node.
pub open spec fn by_node(entries: Map<u32, CacheData>) -> Map<NodeId, CacheData> {
    Map::new(|id: NodeId| entries.contains_key(id.0), |id: NodeId| entries[id.0])
}

/// What a map keyed by the index of a node holds for `id`; no entry stands
/// for no nodes.
pub open spec fn targets_in(entries: Map<u32, Vec<NodeId>>, id: NodeId) -> Seq<NodeId> {
    if entries.contains_key(id.0) {
        entries[id.0]@
    } else {
        Seq::empty()
    }
}

/// The cache that keeps an entry for each node that was read.
#[derive(Debug)]
pub struct DefaultCacheStore {
    store: HashMap<u32, CacheData>,
    invalidators: HashMap<u32, Vec<NodeId>>,
}

impl DefaultCacheStore {
    /// The nodes whose entries a change of `id` makes stale.
    pub closed spec fn targets(&self, id: NodeId) -> Seq<NodeId> {
        targets_in(self.invalidators@, id)
    }

    /// An empty cache for the nodes of `node_store`: it knows for each node
    /// which registers of the store name it as an invalidator.
    pub fn new<S: NodeStore>(node_store: &S) -> (cache: DefaultCacheStore)
        ensures
            cache.cache() == Map::<NodeId, CacheData>::empty(),
            forall|id: NodeId|
                #[trigger] cache.targets(id) == listed(present(node_store.slots()), id),
    {
        let mut invalidators: HashMap<u32, Vec<NodeId>> = HashMap::new();
        let nodes = node_store.visit_nodes();
        let ghost all = present(node_store.slots());
        let mut i: usize = 0;
        while i < nodes.len()
            invariant
                i <= nodes@.len(),
                nodes@.len() == all.len(),
                forall|k: int| 0 <= k < nodes@.len() ==> *#[trigger] nodes@[k] == all[k],
                forall|id: NodeId|
                    #[trigger] targets_in(invalidators@, id) == listed(
                        all.subrange(0, i as int),
                        id,
                    ),
            decreases nodes.len() - i,
        {
            let ghost before = all.subrange(0, i as int);
            proof {
                let after = all.subrange(0, i + 1);
                assert(after.drop_last() =~= before);
                assert(after.last() == all[i as int]);
            }
            match nodes[i].register() {
                None => {},
                Some(register) => {
                    let id = register.node_base().id();
                    let p_invalidators = register.register_base().p_invalidators();
                    let mut j: usize = 0;
                    while j < p_invalidators.len()
                        invariant
                            j <= p_invalidators@.len(),
                            forall|inv: NodeId|
                                #[trigger] targets_in(invalidators@, inv) == listed(before, inv)
                                    + occurrences(id, p_invalidators@.subrange(0, j as int), inv),
                        decreases p_invalidators.len() - j,
                    {
                        let invalidator = p_invalidators[j];
                        let ghost was = invalidators@;
                        proof {
                            let now = p_invalidators@.subrange(0, j + 1);
                            assert(now.drop_last() =~= p_invalidators@.subrange(0, j as int));
                            assert(now.last() == invalidator);
                        }
                        let mut entry = match invalidators.remove(&invalidator.0) {
                            Some(entry) => entry,
                            None => Vec::new(),
                        };
                        entry.push(id);
                        invalidators.insert(invalidator.0, entry);
                        assert forall|inv: NodeId|
                            #[trigger] targets_in(invalidators@, inv) == listed(before, inv)
                                + occurrences(id, p_invalidators@.subrange(0, j + 1), inv) by {
                            assert(targets_in(was, inv) == listed(before, inv) + occurrences(
                                id,
                                p_invalidators@.subrange(0, j as int),
                                inv,
                            ));
                            if inv == invalidator {
                                assert(inv.0 == invalidator.0);
                                assert(targets_in(invalidators@, inv) =~= targets_in(was, inv).push(
                                    id,
                                ));
                                assert(targets_in(invalidators@, inv) =~= listed(before, inv)
                                    + occurrences(id, p_invalidators@.subrange(0, j + 1), inv));
                            } else {
                                assert(inv.0 != invalidator.0);
                                assert(targets_in(invalidators@, inv) == targets_in(was, inv));
                            }
                        }
                        j = j + 1;
                    }
                    assert(p_invalidators@.subrange(0, j as int) =~= p_invalidators@);
                },
            }
            assert forall|id: NodeId|
                #[trigger] targets_in(invalidators@, id) == listed(all.subrange(0, i + 1), id) by {
                assert(targets_in(invalidators@, id) =~= listed(all.subrange(0, i + 1), id));
            }
            i = i + 1;
        }
        assert(all.subrange(0, i as int) =~= all);
        let cache = DefaultCacheStore { store: HashMap::new(), invalidators };
        assert(cache.cache() =~= Map::<NodeId, CacheData>::empty());
        cache
    }
}

impl CacheStore for DefaultCacheStore {
    closed spec fn cache(&self) -> Map<NodeId, CacheData> {
        by_node(self.store@)
    }

    open spec fn after_store(&self, node_id: NodeId, value_id: ValueId) -> Map<NodeId, CacheData> {
        stored(self.cache(), node_id, value_id)
    }

    open spec fn after_invalidate(&self, id: NodeId) -> Map<NodeId, CacheData> {
        invalidated(self.cache(), self.targets(id))
    }

    fn store(&mut self, node_id: NodeId, value_id: ValueId)
        ensures
            forall|id: NodeId| #[trigger] final(self).targets(id) == old(self).targets(id),
    {
        let entry = match self.store.get(&node_id.0) {
            Some(entry) => CacheData::new(entry.value_id, true),
            None => CacheData::new(value_id, true),
        };
        self.store.insert(node_id.0, entry);
        assert(by_node(self.store@) =~= stored(by_node(old(self).store@), node_id, value_id));
    }

    fn value(&self, node_id: NodeId) -> (data: Option<CacheData>) {
        match self.store.get(&node_id.0) {
            Some(entry) => Some(*entry),
            None => None,
        }
    }

    fn invalidate_by(&mut self, id: NodeId)
        ensures
            forall|other: NodeId| #[trigger] final(self).targets(other) == old(self).targets(other),
    {
        match self.invalidators.get(&id.0) {
            None => {
                assert(by_node(self.store@) =~= invalidated(
                    by_node(old(self).store@),
                    targets_in(old(self).invalidators@, id),
                ));
            },
            Some(target_nodes) => {
                let mut k: usize = 0;
                while k < target_nodes.len()
                    invariant
                        k <= target_nodes@.len(),
                        self.invalidators == old(self).invalidators,
                        by_node(self.store@) == invalidated(
                            by_node(old(self).store@),
                            target_nodes@.subrange(0, k as int),
                        ),
                    decreases target_nodes.len() - k,
                {
                    let n = target_nodes[k];
                    let ghost was = self.store@;
                    let ghost done = target_nodes@.subrange(0, k as int);
                    let ghost now = target_nodes@.subrange(0, k + 1);
                    let found = match self.store.get(&n.0) {
                        Some(entry) => Some(CacheData::new(entry.value_id, false)),
                        None => None,
                    };
                    match found {
                        Some(entry) => {
                            self.store.insert(n.0, entry);
                        },
                        None => {},
                    }
                    proof {
                        assert(now =~= done.push(n));
                        assert forall|id: NodeId| now.contains(id) <==> (done.contains(id) || id
                            == n) by {
                            if done.contains(id) {
                                let at = choose|at: int| 0 <= at < done.len() && done[at] == id;
                                assert(now[at] == id);
                            }
                            if id == n {
                                assert(now[k as int] == id);
                            }
                        }
                        let first = by_node(old(self).store@);
                        assert(by_node(was) == invalidated(first, done));
                        assert forall|id: NodeId|
                            by_node(self.store@).contains_key(id) == invalidated(
                                first,
                                now,
                            ).contains_key(id) by {
                            assert(by_node(was).contains_key(id) == first.contains_key(id));
                        }
                        assert forall|id: NodeId| #[trigger]
                            by_node(self.store@).contains_key(id) implies by_node(self.store@)[id]
                            == invalidated(first, now)[id] by {
                            assert(by_node(was).contains_key(id) == first.contains_key(id));
                            assert(by_node(was).contains_key(id));
                            assert(by_node(was)[id] == invalidated(first, done)[id]);
                            assert(by_node(was)[id] == was[id.0]);
                            if id == n {
                                assert(now.contains(id));
                            } else {
                                assert(id.0 != n.0);
                            }
                        }
                        assert(by_node(self.store@) =~= invalidated(first, now));
                    }
                    k = k + 1;
                }
                assert(target_nodes@.subrange(0, k as int) =~= target_nodes@);
            },
        }
    }
}

/// The cache that keeps nothing.
#[derive(Default, Copy, Clone, Debug)]
pub struct CacheSink {
    _priv: (),
}

impl CacheSink {
    /// A cache that keeps nothing.
    pub fn new() -> (sink: CacheSink)
        ensures
            sink.cache() == Map::<NodeId, CacheData>::empty(),
    {
        CacheSink { _priv: () }
    }
}

impl CacheStore for CacheSink {
    open spec fn cache(&self) -> Map<NodeId, CacheData> {
        Map::empty()
    }

    open spec fn after_store(&self, node_id: NodeId, value_id: ValueId) -> Map<NodeId, CacheData> {
        Map::empty()
    }

    open spec fn after_invalidate(&self, id: NodeId) -> Map<NodeId, CacheData> {
        Map::empty()
    }

    fn store(&mut self, node_id: NodeId, value_id: ValueId) {
    }

    fn value(&self, node_id: NodeId) -> (data: Option<CacheData>) {
        None
    }

    fn invalidate_by(&mut self, id: NodeId) {
    }
}

impl<T: CacheStore> CacheStore for &mut T {
    open spec fn cache(&self) -> Map<NodeId, CacheData> {
        (**self).cache()
    }

    open spec fn after_store(&self, node_id: NodeId, value_id: ValueId) -> Map<NodeId, CacheData> {
        (**self).after_store(node_id, value_id)
    }

    open spec fn after_invalidate(&self, id: NodeId) -> Map<NodeId, CacheData> {
        (**self).after_invalidate(id)
    }

    fn store(&mut self, node_id: NodeId, value_id: ValueId) {
        (**self).store(node_id, value_id)
    }

    fn value(&self, node_id: NodeId) -> (data: Option<CacheData>) {
        (**self).value(node_id)
    }

    fn invalidate_by(&mut self, id: NodeId) {
        (**self).invalidate_by(id)
    }
}

} // verus!
