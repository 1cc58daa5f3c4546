//! The store of the nodes of a feature description.
//!
//! A node is known by its name before it is known by what it holds: a name
//! gets its identifier when it is first met, and the node is stored under
//! that identifier when its description has been read.

use crate::genapi::node::{NodeData, NodeId};
use string_interner::{StringInterner, Symbol};
use vstd::prelude::*;

verus! {

/// The nodes among `slots`, in the order of the slots.
pub open spec fn present(slots: Seq<Option<NodeData>>) -> Seq<NodeData>
    decreases slots.len(),
{
    if slots.len() == 0 {
        Seq::empty()
    } else {
        match slots.last() {
            Some(data) => present(slots.drop_last()).push(data),
            None => present(slots.drop_last()),
        }
    }
}

/// What is stored under `id` in `slots`; identifiers beyond the last slot
/// hold nothing.
pub open spec fn node_at(slots: Seq<Option<NodeData>>, id: NodeId) -> Option<NodeData> {
    if id.0 < slots.len() {
        slots[id.0 as int]
    } else {
        None
    }
}

/// A store of nodes.
pub trait NodeStore {
    /// The names that the store has given an identifier, each at the index
    /// that is its identifier.
    spec fn names(&self) -> Seq<Seq<char>>;

    /// What is stored under each identifier, by the index of the
    /// identifier; identifiers beyond the last slot hold nothing.
    spec fn slots(&self) -> Seq<Option<NodeData>>;

    /// Whether the store can give `name` an identifier: it has one, or
    /// there is an identifier left.
    spec fn can_name(&self, name: Seq<char>) -> bool;

    /// The identifier of `name`. A name that the store has not met gets the
    /// next identifier; one that it has met keeps the one it has.
    fn id_by_name(&mut self, name: &str) -> (id: NodeId)
        requires
            old(self).can_name(name@),
        ensures
            final(self).slots() == old(self).slots(),
            old(self).names().contains(name@) ==> final(self).names() == old(self).names(),
            !old(self).names().contains(name@) ==> final(self).names() == old(self).names().push(
                name@,
            ),
            id.0 < final(self).names().len(),
            final(self).names()[id.0 as int] == name@,
    ;

    /// The node stored under `id`, if there is one.
    fn node_opt(&self, id: NodeId) -> (data: Option<&NodeData>)
        ensures
            match data {
                Some(node) => node_at(self.slots(), id) == Some(*node),
                None => node_at(self.slots(), id).is_none(),
            },
    ;

    /// Stores `data` under `id`, which must be a valid identifier that
    /// holds nothing yet.
    fn store_node(&mut self, id: NodeId, data: NodeData)
        requires
            id.0 < u32::MAX,
            node_at(old(self).slots(), id).is_none(),
        ensures
            final(self).names() == old(self).names(),
            node_at(final(self).slots(), id) == Some(data),
            forall|other: NodeId|
                other != id ==> #[trigger] node_at(final(self).slots(), other) == node_at(
                    old(self).slots(),
                    other,
                ),
    ;

    /// The nodes in the store, in the order of their identifiers, for the
    /// caller to visit.
    fn visit_nodes(&self) -> (nodes: Vec<&NodeData>)
        ensures
            nodes@.len() == present(self.slots()).len(),
            forall|i: int|
                0 <= i < nodes@.len() ==> *#[trigger] nodes@[i] == present(self.slots())[i],
    ;

    /// The node stored under `id`, which must be there.
    fn node(&self, id: NodeId) -> (data: &NodeData)
        requires
            node_at(self.slots(), id) is Some,
        ensures
            node_at(self.slots(), id) == Some(*data),
    {
        self.node_opt(id).unwrap()
    }
}

/// The interner of `string_interner` that gives names their symbols:
/// `StringInterner` with its default symbol, backend and hasher.
#[verifier::external_body]
#[derive(Debug)]
pub struct NameInterner {
    inner: StringInterner,
}

/// The strings that an interner holds, each at the index of its symbol.
pub uninterp spec fn interned(interner: NameInterner) -> Seq<Seq<char>>;

/// Calls `StringInterner::new`, which makes an interner that holds no
/// string.
#[verifier::external_body]
fn interner_new() -> (interner: NameInterner)
    ensures
        interned(interner) == Seq::<Seq<char>>::empty(),
{
    NameInterner { inner: StringInterner::new() }
}

/// Calls `StringInterner::get_or_intern` and gives the index of the symbol
/// that it returns. A string that the interner holds keeps its symbol and
/// nothing changes. Any other string is added behind those that are held,
/// so that the index of its symbol is their number; the call panics where
/// that number is no index of a symbol, which the largest `u32` is not. The
/// index of a symbol is one less than a `u32` that is not zero.
#[verifier::external_body]
fn interner_get_or_intern(interner: &mut NameInterner, name: &str) -> (index: usize)
    requires
        interned(*old(interner)).contains(name@) || interned(*old(interner)).len() < u32::MAX,
    ensures
        interned(*old(interner)).contains(name@) ==> interned(*final(interner)) == interned(
            *old(interner),
        ),
        !interned(*old(interner)).contains(name@) ==> interned(*final(interner)) == interned(
            *old(interner),
        ).push(name@) && index == interned(*old(interner)).len(),
        index < interned(*final(interner)).len(),
        index < u32::MAX,
        interned(*final(interner))[index as int] == name@,
{
    interner.inner.get_or_intern(name).to_usize()
}

/// Calls `StringInterner::get` and gives the index of the symbol that it
/// returns: that of `name` where the interner holds it, `None` where it
/// does not.
#[verifier::external_body]
fn interner_get(interner: &NameInterner, name: &str) -> (index: Option<usize>)
    ensures
        match index {
            Some(i) => {
                &&& i < interned(*interner).len()
                &&& i < u32::MAX
                &&& interned(*interner)[i as int] == name@
            },
            None => !interned(*interner).contains(name@),
        },
{
    match interner.inner.get(name) {
        Some(symbol) => Some(symbol.to_usize()),
        None => None,
    }
}

/// Calls `StringInterner::len`, which gives the number of strings that the
/// interner holds.
#[verifier::external_body]
fn interner_len(interner: &NameInterner) -> (len: usize)
    ensures
        len == interned(*interner).len(),
{
    interner.inner.len()
}

/// The node store that keeps its nodes in a vector, by identifier.
#[derive(Debug)]
pub struct DefaultNodeStore {
    interner: NameInterner,
    store: Vec<Option<NodeData>>,
}

impl DefaultNodeStore {
    /// A store without names and without nodes.
    pub fn new() -> (store: DefaultNodeStore)
        ensures
            store.names() == Seq::<Seq<char>>::empty(),
            store.slots() == Seq::<Option<NodeData>>::empty(),
    {
        DefaultNodeStore { interner: interner_new(), store: Vec::new() }
    }
}

impl DefaultNodeStore {
    /// The identifier of `name`, as `id_by_name` gives it, or `None` where
    /// the store has not met the name and has no identifier left for it.
    pub fn try_id_by_name(&mut self, name: &str) -> (id: Option<NodeId>)
        ensures
            id is Some <==> (*old(self)).can_name(name@),
            (*final(self)).slots() == (*old(self)).slots(),
            match id {
                Some(node_id) => {
                    &&& (*old(self)).names().contains(name@) ==> (*final(self)).names() == (*old(
                        self,
                    )).names()
                    &&& !(*old(self)).names().contains(name@) ==> (*final(self)).names() == (*old(
                        self,
                    )).names().push(name@)
                    &&& node_id.0 < (*final(self)).names().len()
                    &&& (*final(self)).names()[node_id.0 as int] == name@
                },
                None => (*final(self)).names() == (*old(self)).names(),
            },
    {
        match interner_get(&self.interner, name) {
            Some(index) => {
                assert(interned(self.interner).contains(name@));
                Some(NodeId(index as u32))
            },
            None => {
                if interner_len(&self.interner) < u32::MAX as usize {
                    Some(self.id_by_name(name))
                } else {
                    None
                }
            },
        }
    }
}

impl NodeStore for DefaultNodeStore {
    closed spec fn names(&self) -> Seq<Seq<char>> {
        interned(self.interner)
    }

    closed spec fn slots(&self) -> Seq<Option<NodeData>> {
        self.store@
    }

    open spec fn can_name(&self, name: Seq<char>) -> bool {
        self.names().contains(name) || self.names().len() < u32::MAX
    }

    fn id_by_name(&mut self, name: &str) -> (id: NodeId) {
        let index: usize = interner_get_or_intern(&mut self.interner, name);
        NodeId(index as u32)
    }

    fn node_opt(&self, id: NodeId) -> (data: Option<&NodeData>) {
        let index: usize = id.to_usize();
        if index < self.store.len() {
            self.store[index].as_ref()
        } else {
            None
        }
    }

    fn store_node(&mut self, id: NodeId, data: NodeData) {
        let index: usize = id.to_usize();
        while self.store.len() <= index
            invariant
                index == id.0,
                id.0 < u32::MAX,
                self.interner == old(self).interner,
                old(self).store@.len() <= self.store@.len(),
                forall|i: int|
                    0 <= i < old(self).store@.len() ==> self.store@[i] == old(self).store@[i],
                forall|i: int|
                    old(self).store@.len() <= i < self.store@.len() ==> self.store@[i] is None,
            decreases index + 1 - self.store.len(),
        {
            self.store.push(None);
        }
        self.store.set(index, Some(data));
    }

    fn visit_nodes(&self) -> (nodes: Vec<&NodeData>) {
        let mut nodes: Vec<&NodeData> = Vec::new();
        let mut i: usize = 0;
        while i < self.store.len()
            invariant
                i <= self.store@.len(),
                nodes@.len() == present(self.store@.subrange(0, i as int)).len(),
                forall|k: int|
                    0 <= k < nodes@.len() ==> *#[trigger] nodes@[k] == present(
                        self.store@.subrange(0, i as int),
                    )[k],
            decreases self.store.len() - i,
        {
            proof {
                let before = self.store@.subrange(0, i as int);
                let after = self.store@.subrange(0, i + 1);
                assert(after.drop_last() =~= before);
                assert(after.last() == self.store@[i as int]);
            }
            match &self.store[i] {
                Some(data) => {
                    nodes.push(data);
                },
                None => {},
            }
            i = i + 1;
        }
        assert(self.store@.subrange(0, i as int) =~= self.store@);
        nodes
    }
}

impl Default for DefaultNodeStore {
    fn default() -> (store: DefaultNodeStore)
        ensures
            store.names() == Seq::<Seq<char>>::empty(),
            store.slots() == Seq::<Option<NodeData>>::empty(),
    {
        Self::new()
    }
}

impl<T: NodeStore> NodeStore for &mut T {
    open spec fn names(&self) -> Seq<Seq<char>> {
        (**self).names()
    }

    open spec fn slots(&self) -> Seq<Option<NodeData>> {
        (**self).slots()
    }

    open spec fn can_name(&self, name: Seq<char>) -> bool {
        (**self).can_name(name)
    }

    fn id_by_name(&mut self, name: &str) -> (id: NodeId) {
        (**self).id_by_name(name)
    }

    fn node_opt(&self, id: NodeId) -> (data: Option<&NodeData>) {
        (**self).node_opt(id)
    }

    fn store_node(&mut self, id: NodeId, data: NodeData) {
        (**self).store_node(id, data)
    }

    fn visit_nodes(&self) -> (nodes: Vec<&NodeData>) {
        (**self).visit_nodes()
    }
}

} // verus!
