use vstd::prelude::*;
use crate::handle_arena::arena_contents;
use crate::handle_arena::arena_get;
use crate::handle_arena::arena_insert;
use crate::handle_arena::arena_new;
use crate::handle_arena::HandleArena;
use crate::handle_arena::VERSION_BIT;

verus! {

/// The largest number of nodes that a store can hold.
pub const MAX_NODES: usize = 0xFFFF_FFFE;

/// The key of a node in the store that issued it.
///
/// A handle means nothing to another store: used there it names no node or
/// some node of that store.
#[derive(Clone, Copy, Debug, PartialEq, Eq, Structural)]
pub struct NodeHandle {
    pub raw: u64,
}

/// A node placed on the canvas.
pub struct NodeRecord<N, P> {
    pub handle: NodeHandle,
    pub node: N,
    /// Where the node was placed, in graph space.
    pub position: P,
}

/// The nodes of a graph, in the order in which they were added, each under
/// a handle of its own. Nothing is ever removed.
pub struct NodeStore<N, P> {
    arena: HandleArena,
    records: Vec<NodeRecord<N, P>>,
}

/// Where no handle occurs twice, the place of a handle is the one place
/// at which it stands.
pub proof fn lemma_place_of(handles: Seq<NodeHandle>, i: int)
    requires
        handles.no_duplicates(),
        0 <= i < handles.len(),
    ensures
        handles.contains(handles[i]),
        handles.index_of(handles[i]) == i,
{
    let handle = handles[i];
    assert(handles.contains(handle));
    let j = handles.index_of(handle);
    assert(j == i);
}

proof fn lemma_version_bit(key: u64)
    ensures
        key & VERSION_BIT == VERSION_BIT <==> key | VERSION_BIT == key,
{
    assert(key & 0x1_0000_0000 == 0x1_0000_0000 <==> key | 0x1_0000_0000 == key) by (bit_vector);
}

impl<N, P> View for NodeStore<N, P> {
    type V = Seq<NodeRecord<N, P>>;

    closed spec fn view(&self) -> Seq<NodeRecord<N, P>> {
        self.records@
    }
}

impl<N, P> NodeStore<N, P> {
    /// The handles of the nodes, in the order in which the nodes were added.
    pub open spec fn handles(&self) -> Seq<NodeHandle> {
        Seq::new(self@.len(), |i: int| self@[i].handle)
    }

    /// The nodes, in the order in which they were added.
    pub open spec fn nodes(&self) -> Seq<N> {
        Seq::new(self@.len(), |i: int| self@[i].node)
    }

    /// The positions of the nodes, in the order in which the nodes were added.
    pub open spec fn positions(&self) -> Seq<P> {
        Seq::new(self@.len(), |i: int| self@[i].position)
    }

    /// The store's invariant: its handles are those that its arena issued,
    /// each for the place of its record.
    pub closed spec fn wf(&self) -> bool {
        let contents = arena_contents(self.arena);
        &&& contents.dom().finite()
        &&& contents.dom().len() == self.records.len()
        &&& self.records.len() <= MAX_NODES
        &&& forall|i: int|
            0 <= i < self.records.len() ==> {
                let key = (#[trigger] self.records[i]).handle.raw;
                &&& contents.dom().contains(key)
                &&& contents[key] == i
                &&& key & VERSION_BIT == VERSION_BIT
            }
        &&& forall|key: u64| #[trigger]
            contents.dom().contains(key) ==> contents[key] < self.records.len()
                && self.records[contents[key] as int].handle.raw == key
    }

    /// In a well-formed store no handle occurs twice, and there are at most
    /// `MAX_NODES` nodes.
    pub proof fn lemma_wf(&self)
        requires
            self.wf(),
        ensures
            self.handles().no_duplicates(),
            self@.len() <= MAX_NODES,
    {
        assert forall|i: int, j: int|
            0 <= i < self.handles().len() && 0 <= j < self.handles().len() && i != j implies self.handles()[i]
            != self.handles()[j] by {
            assert(self.records[i].handle == self.handles()[i]);
            assert(self.records[j].handle == self.handles()[j]);
        }
    }

    /// A store without nodes.
    pub fn new() -> (r: Self)
        ensures
            r.wf(),
            r@.len() == 0,
    {
        NodeStore { arena: arena_new(), records: Vec::new() }
    }

    /// The number of nodes.
    pub fn len(&self) -> (r: usize)
        ensures
            r == self@.len(),
    {
        self.records.len()
    }

    /// Adds a node behind the others and returns the handle made for it,
    /// which no node had before.
    pub fn insert(&mut self, node: N, position: P) -> (handle: NodeHandle)
        requires
            old(self).wf(),
            old(self)@.len() < MAX_NODES,
        ensures
            final(self).wf(),
            final(self)@ == old(self)@.push(NodeRecord { handle, node, position }),
            !old(self).handles().contains(handle),
    {
        let index = self.records.len();
        let key = arena_insert(&mut self.arena, index);
        let handle = NodeHandle { raw: key };
        self.records.push(NodeRecord { handle, node, position });
        proof {
            let old_contents = arena_contents(old(self).arena);
            let contents = arena_contents(self.arena);
            assert(contents.dom() =~= old_contents.dom().insert(key));
            assert forall|i: int| 0 <= i < self.records.len() implies {
                let k = (#[trigger] self.records[i]).handle.raw;
                &&& contents.dom().contains(k)
                &&& contents[k] == i
                &&& k & VERSION_BIT == VERSION_BIT
            } by {
                if i < index {
                    assert(self.records[i] == old(self).records[i]);
                }
            }
            assert forall|k: u64| #[trigger] contents.dom().contains(k) implies contents[k]
                < self.records.len() && self.records[contents[k] as int].handle.raw == k by {
                if k != key {
                    assert(old_contents.dom().contains(k));
                    assert(self.records[contents[k] as int] == old(self).records[contents[k] as int]);
                }
            }
            if old(self).handles().contains(handle) {
                let i = old(self).handles().index_of(handle);
                assert(old_contents.dom().contains(old(self).records[i].handle.raw));
            }
        }
        handle
    }

    /// The place of the node with the handle, if the store has one.
    pub fn find(&self, handle: NodeHandle) -> (r: Option<usize>)
        requires
            self.wf(),
        ensures
            match r {
                Some(i) => i < self@.len() && self.handles()[i as int] == handle
                    && self.handles().index_of(handle) == i,
                None => !self.handles().contains(handle),
            },
    {
        let key = handle.raw;
        proof {
            lemma_version_bit(key);
        }
        if key & VERSION_BIT != VERSION_BIT {
            proof {
                if self.handles().contains(handle) {
                    let i = self.handles().index_of(handle);
                    assert(self.records[i].handle.raw == key);
                }
            }
            return None;
        }
        let found = arena_get(&self.arena, key);
        proof {
            match found {
                Some(i) => {
                    assert(arena_contents(self.arena).dom().contains(key));
                    assert(self.records[i as int].handle.raw == key);
                    assert(self.handles()[i as int] == handle);
                    self.lemma_wf();
                    lemma_place_of(self.handles(), i as int);
                },
                None => {
                    if self.handles().contains(handle) {
                        let i = self.handles().index_of(handle);
                        assert(self.records[i].handle.raw == key);
                    }
                },
            }
        }
        found
    }

    /// The record at a place.
    pub fn record(&self, index: usize) -> (r: &NodeRecord<N, P>)
        requires
            index < self@.len(),
        ensures
            *r == self@[index as int],
    {
        &self.records[index]
    }

    /// The node at a place, to be changed. Its handle and its position stay.
    pub fn node_mut(&mut self, index: usize) -> (r: &mut N)
        requires
            old(self).wf(),
            index < old(self)@.len(),
        ensures
            *r == old(self).nodes()[index as int],
            final(self).wf(),
            final(self).handles() == old(self).handles(),
            final(self).positions() == old(self).positions(),
            final(self).nodes() == old(self).nodes().update(index as int, *final(r)),
    {
        &mut self.records[index].node
    }
}

} // verus!
