use vstd::prelude::*;
use crate::evaluation::after_links;
use crate::evaluation::nodes_after_links;
use crate::evaluation::transmissions;
use crate::evaluation::transmit_link;
use crate::evaluation::transmitted;
use crate::evaluation::EvalState;
use crate::gesture::advance_gesture;
use crate::gesture::gesture_step;
use crate::gesture::DragState;
use crate::gesture::GestureOutcome;
use crate::gesture::RenderedConnector;
use crate::link::Link;
use crate::node::Node;
use crate::node::NodeBody;
use crate::node_store::NodeHandle;
use crate::node_store::NodeStore;
use crate::node_store::MAX_NODES;
use crate::value::Value;

verus! {

/// What a graph holds.
pub struct GraphView<N, P> {
    /// The handles of the placed nodes, in the order in which the nodes were
    /// added.
    pub handles: Seq<NodeHandle>,
    /// The placed nodes, in the same order.
    pub nodes: Seq<N>,
    /// Their positions in graph space, in the same order.
    pub positions: Seq<P>,
    /// The prototypes offered for spawning, in the order in which they were
    /// registered.
    pub prototypes: Seq<N>,
    /// The links, in the order in which they were made.
    pub links: Seq<Link>,
    /// The drag that is under way, if one is.
    pub drag: Option<DragState<P>>,
    /// Whether a drag was let go in the tick before and found no target.
    pub retry_pending: bool,
    pub selector_panel_enabled: bool,
}

/// The connectors that a node shows in one tick.
#[derive(Clone, Debug, PartialEq, Eq)]
pub struct NodeFrame {
    pub handle: NodeHandle,
    pub body: NodeBody,
}

/// A graph of nodes and of links between their connectors, with a palette of
/// prototypes from which new nodes are spawned.
pub struct NodeGraph<N, P> {
    store: NodeStore<N, P>,
    registered_nodes: Vec<N>,
    pub selector_panel_enabled: bool,
    link_drag_info: Option<DragState<P>>,
    next_frame_link_dropped: bool,
    links: Vec<Link>,
}

impl<N, P> View for NodeGraph<N, P> {
    type V = GraphView<N, P>;

    closed spec fn view(&self) -> GraphView<N, P> {
        GraphView {
            handles: self.store.handles(),
            nodes: self.store.nodes(),
            positions: self.store.positions(),
            prototypes: self.registered_nodes@,
            links: self.links@,
            drag: self.link_drag_info,
            retry_pending: self.next_frame_link_dropped,
            selector_panel_enabled: self.selector_panel_enabled,
        }
    }
}

/// Each node after it has been asked for its body.
pub open spec fn after_bodies<N: Node>(nodes: Seq<N>) -> Seq<N> {
    Seq::new(nodes.len(), |i: int| nodes[i].after_body())
}

/// The links after a tick of the gesture: a link that the tick made stands
/// behind the others.
pub open spec fn links_after(links: Seq<Link>, outcome: GestureOutcome) -> Seq<Link> {
    match outcome {
        GestureOutcome::Linked(link) => links.push(link),
        _ => links,
    }
}

/// A spawned node is independent of its prototype: whatever the node is
/// changed into after it was spawned, the palette holds what it held before
/// the spawn, and so do the nodes that were placed before.
pub proof fn law_spawned_node_is_independent<N, P>(
    before: GraphView<N, P>,
    spawned: GraphView<N, P>,
    changed: GraphView<N, P>,
    handle: NodeHandle,
    copy: N,
    position: P,
    node: N,
)
    requires
        before.handles.len() == before.nodes.len(),
        spawned == (GraphView {
            handles: before.handles.push(handle),
            nodes: before.nodes.push(copy),
            positions: before.positions.push(position),
            ..before
        }),
        changed == (GraphView {
            nodes: spawned.nodes.update(spawned.handles.index_of(handle), node),
            ..spawned
        }),
        !before.handles.contains(handle),
    ensures
        changed.prototypes == before.prototypes,
        changed.nodes == before.nodes.push(node),
        forall|i: int| 0 <= i < before.nodes.len() ==> changed.nodes[i] == before.nodes[i],
{
    let place = spawned.handles.index_of(handle);
    assert(spawned.handles[before.handles.len() as int] == handle);
    assert(0 <= place < spawned.handles.len() && spawned.handles[place] == handle);
    if place < before.handles.len() {
        assert(before.handles[place] == handle);
    }
    assert(changed.nodes =~= before.nodes.push(node));
}

impl<N: Node, P> NodeGraph<N, P> {
    /// The graph's invariant.
    pub closed spec fn wf(&self) -> bool {
        self.store.wf()
    }

    /// In a well-formed graph every node has a handle and a position of its
    /// own, no handle occurs twice, and there are at most `MAX_NODES` nodes.
    pub proof fn lemma_wf(&self)
        requires
            self.wf(),
        ensures
            self@.handles.len() == self@.nodes.len(),
            self@.positions.len() == self@.nodes.len(),
            self@.handles.no_duplicates(),
            self@.nodes.len() <= MAX_NODES,
    {
        self.store.lemma_wf();
    }

    /// A graph without nodes, prototypes or links, with no drag under way and
    /// the selector panel switched off.
    pub fn new() -> (r: Self)
        ensures
            r.wf(),
            r@.handles.len() == 0,
            r@.nodes.len() == 0,
            r@.positions.len() == 0,
            r@.prototypes.len() == 0,
            r@.links.len() == 0,
            r@.drag.is_none(),
            !r@.retry_pending,
            !r@.selector_panel_enabled,
    {
        NodeGraph {
            store: NodeStore::new(),
            registered_nodes: Vec::new(),
            selector_panel_enabled: false,
            link_drag_info: None,
            next_frame_link_dropped: false,
            links: Vec::new(),
        }
    }

    /// Registers a node for spawning from the palette, behind the prototypes
    /// registered before. A node registered twice is offered twice.
    pub fn register_node(&mut self, node: N)
        requires
            old(self).wf(),
        ensures
            final(self).wf(),
            final(self)@ == (GraphView {
                prototypes: old(self)@.prototypes.push(node),
                ..old(self)@
            }),
    {
        self.registered_nodes.push(node);
    }

    /// Places a node and returns the handle made for it, which no node of
    /// this graph had before.
    pub fn add_node(&mut self, node: N, position: P) -> (handle: NodeHandle)
        requires
            old(self).wf(),
            old(self)@.nodes.len() < MAX_NODES,
        ensures
            final(self).wf(),
            !old(self)@.handles.contains(handle),
            final(self)@ == (GraphView {
                handles: old(self)@.handles.push(handle),
                nodes: old(self)@.nodes.push(node),
                positions: old(self)@.positions.push(position),
                ..old(self)@
            }),
    {
        let handle = self.store.insert(node, position);
        proof {
            assert(self.store.handles() =~= old(self).store.handles().push(handle));
            assert(self.store.nodes() =~= old(self).store.nodes().push(node));
            assert(self.store.positions() =~= old(self).store.positions().push(position));
        }
        handle
    }

    /// The number of placed nodes.
    pub fn node_count(&self) -> (r: usize)
        ensures
            r == self@.nodes.len(),
    {
        self.store.len()
    }

    /// The links, in the order in which they were made.
    pub fn links(&self) -> (r: &Vec<Link>)
        ensures
            r@ == self@.links,
    {
        &self.links
    }

    /// The prototypes, in the order in which they were registered.
    pub fn registered_nodes(&self) -> (r: &Vec<N>)
        ensures
            r@ == self@.prototypes,
    {
        &self.registered_nodes
    }

    /// The drag that is under way, if one is.
    pub fn link_drag_info(&self) -> (r: &Option<DragState<P>>)
        ensures
            *r == self@.drag,
    {
        &self.link_drag_info
    }

    /// Whether a drag was let go in the tick before and found no target.
    pub fn next_frame_link_dropped(&self) -> (r: bool)
        ensures
            r == self@.retry_pending,
    {
        self.next_frame_link_dropped
    }

    /// The handle of the node at a place in the order of the nodes.
    pub fn handle_at(&self, index: usize) -> (r: Option<NodeHandle>)
        ensures
            r == (if index < self@.handles.len() {
                Some(self@.handles[index as int])
            } else {
                None
            }),
    {
        if index < self.store.len() {
            Some(self.store.record(index).handle)
        } else {
            None
        }
    }

    /// The place of the node with the handle in the order of the nodes, if
    /// the graph has such a node.
    pub fn place_of(&self, handle: NodeHandle) -> (r: Option<usize>)
        requires
            self.wf(),
        ensures
            match r {
                Some(i) => i < self@.handles.len() && self@.handles[i as int] == handle
                    && self@.handles.index_of(handle) == i,
                None => !self@.handles.contains(handle),
            },
    {
        self.store.find(handle)
    }

    /// The node with the handle, if the graph has one.
    pub fn node(&self, handle: NodeHandle) -> (r: Option<&N>)
        requires
            self.wf(),
        ensures
            match r {
                Some(node) => self@.handles.contains(handle) && *node
                    == self@.nodes[self@.handles.index_of(handle)],
                None => !self@.handles.contains(handle),
            },
    {
        match self.store.find(handle) {
            Some(i) => Some(&self.store.record(i).node),
            None => None,
        }
    }

    /// The position of the node with the handle, if the graph has one.
    pub fn position(&self, handle: NodeHandle) -> (r: Option<&P>)
        requires
            self.wf(),
        ensures
            match r {
                Some(position) => self@.handles.contains(handle) && *position
                    == self@.positions[self@.handles.index_of(handle)],
                None => !self@.handles.contains(handle),
            },
    {
        match self.store.find(handle) {
            Some(i) => Some(&self.store.record(i).position),
            None => None,
        }
    }

    /// The node with the handle, to be changed, if the graph has one.
    /// Nothing but that node changes.
    pub fn node_mut(&mut self, handle: NodeHandle) -> (r: Option<&mut N>)
        requires
            old(self).wf(),
        ensures
            final(self).wf(),
            match r {
                Some(node) => old(self)@.handles.contains(handle) && *node
                    == old(self)@.nodes[old(self)@.handles.index_of(handle)] && final(self)@ == (
                GraphView {
                    nodes: old(self)@.nodes.update(
                        old(self)@.handles.index_of(handle),
                        *final(node),
                    ),
                    ..old(self)@
                }),
                None => !old(self)@.handles.contains(handle) && final(self)@ == old(self)@,
            },
    {
        match self.store.find(handle) {
            Some(i) => Some(self.store.node_mut(i)),
            None => None,
        }
    }
}

impl<N: Node + Clone, P> NodeGraph<N, P> {
    /// Places a copy of a prototype, as a release of a drag from the palette
    /// does, and returns the copy's handle.
    ///
    /// Returns `None`, and changes nothing, where the palette has no such
    /// prototype or the graph is full. The palette stays as it was either
    /// way: what is done to the copy later is not done to the prototype.
    pub fn spawn(&mut self, prototype: usize, position: P) -> (r: Option<NodeHandle>)
        requires
            old(self).wf(),
        ensures
            final(self).wf(),
            r.is_some() <==> prototype < old(self)@.prototypes.len() && old(self)@.nodes.len()
                < MAX_NODES,
            r.is_none() ==> final(self)@ == old(self)@,
            r.is_some() ==> {
                &&& !old(self)@.handles.contains(r.unwrap())
                &&& final(self)@.nodes.len() == old(self)@.nodes.len() + 1
                &&& cloned(old(self)@.prototypes[prototype as int], final(self)@.nodes.last())
                &&& final(self)@ == (GraphView {
                    handles: old(self)@.handles.push(r.unwrap()),
                    nodes: old(self)@.nodes.push(final(self)@.nodes.last()),
                    positions: old(self)@.positions.push(position),
                    ..old(self)@
                })
            },
    {
        if prototype >= self.registered_nodes.len() || self.store.len() >= MAX_NODES {
            return None;
        }
        let node = self.registered_nodes[prototype].clone();
        let handle = self.add_node(node, position);
        Some(handle)
    }
}

impl<N: Node, P> NodeGraph<N, P> {
    /// The first half of a tick, before the nodes are drawn: asks every node
    /// for its body, in the order of the nodes, and returns what each of them
    /// shows in this tick.
    pub fn begin_tick(&mut self) -> (frames: Vec<NodeFrame>)
        requires
            old(self).wf(),
        ensures
            final(self).wf(),
            final(self)@ == (GraphView { nodes: after_bodies(old(self)@.nodes), ..old(self)@ }),
            frames@.len() == old(self)@.nodes.len(),
            forall|i: int|
                0 <= i < frames@.len() ==> {
                    &&& (#[trigger] frames@[i]).handle == old(self)@.handles[i]
                    &&& frames@[i].body.inputs@ == final(self)@.nodes[i].inputs()
                    &&& frames@[i].body.outputs@ == final(self)@.nodes[i].outputs()
                },
    {
        let ghost nodes0 = self.store.nodes();
        let count = self.store.len();
        let mut frames: Vec<NodeFrame> = Vec::new();
        let mut i: usize = 0;
        while i < count
            invariant
                i <= count,
                count == nodes0.len(),
                self.store.wf(),
                self.store.handles() == old(self).store.handles(),
                self.store.positions() == old(self).store.positions(),
                self.registered_nodes == old(self).registered_nodes,
                self.links == old(self).links,
                self.link_drag_info == old(self).link_drag_info,
                self.next_frame_link_dropped == old(self).next_frame_link_dropped,
                self.selector_panel_enabled == old(self).selector_panel_enabled,
                self.store.nodes().len() == count,
                forall|j: int|
                    0 <= j < count ==> #[trigger] self.store.nodes()[j] == (if j < i {
                        nodes0[j].after_body()
                    } else {
                        nodes0[j]
                    }),
                frames@.len() == i,
                forall|j: int|
                    0 <= j < i ==> {
                        &&& (#[trigger] frames@[j]).handle == self.store.handles()[j]
                        &&& frames@[j].body.inputs@ == self.store.nodes()[j].inputs()
                        &&& frames@[j].body.outputs@ == self.store.nodes()[j].outputs()
                    },
            decreases count - i,
        {
            let handle = self.store.record(i).handle;
            let body = self.store.node_mut(i).body();
            frames.push(NodeFrame { handle, body });
            i = i + 1;
        }
        proof {
            assert(self.store.nodes() =~= after_bodies(nodes0));
        }
        frames
    }

    /// Evaluates the links, in their order: each link that carries a value
    /// takes it from its output and hands it to its input.
    ///
    /// Returns, for each link, the value that it carried, or `None` where it
    /// carried none: where one of its nodes or connectors is not there, the
    /// output has no exchange, the input's type token is not the output's,
    /// or one of the two exchanges was already used by an earlier link of
    /// this evaluation.
    pub fn evaluate_links(&mut self) -> (sent: Vec<Option<Value>>)
        requires
            old(self).wf(),
        ensures
            final(self).wf(),
            sent@ == transmissions(old(self)@.handles, old(self)@.nodes, old(self)@.links),
            final(self)@ == (GraphView {
                nodes: nodes_after_links(old(self)@.handles, old(self)@.nodes, old(self)@.links),
                ..old(self)@
            }),
    {
        let ghost handles = self.store.handles();
        let ghost nodes0 = self.store.nodes();
        let ghost links = self.links@;
        let mut sent: Vec<Option<Value>> = Vec::new();
        let mut spent_outputs: Vec<(usize, usize)> = Vec::new();
        let mut spent_inputs: Vec<(usize, usize)> = Vec::new();
        let mut k: usize = 0;
        proof {
            assert(spent_outputs@.to_set() =~= Set::empty());
            assert(spent_inputs@.to_set() =~= Set::empty());
        }
        while k < self.links.len()
            invariant
                k <= links.len(),
                self.links@ == links,
                self.store.wf(),
                self.store.handles() == handles,
                self.store.positions() == old(self).store.positions(),
                self.registered_nodes == old(self).registered_nodes,
                self.links == old(self).links,
                self.link_drag_info == old(self).link_drag_info,
                self.next_frame_link_dropped == old(self).next_frame_link_dropped,
                self.selector_panel_enabled == old(self).selector_panel_enabled,
                (EvalState {
                    nodes: self.store.nodes(),
                    spent_outputs: spent_outputs@.to_set(),
                    spent_inputs: spent_inputs@.to_set(),
                }) == after_links(handles, nodes0, links, k as nat),
                sent@.len() == k,
                forall|j: int|
                    0 <= j < k ==> #[trigger] sent@[j] == transmitted(
                        handles,
                        after_links(handles, nodes0, links, j as nat),
                        links[j],
                    ),
            decreases links.len() - k,
        {
            let link = self.links[k];
            let one = transmit_link(&mut self.store, link, &mut spent_outputs, &mut spent_inputs);
            sent.push(one);
            k = k + 1;
        }
        proof {
            assert(sent@ =~= transmissions(handles, nodes0, links));
        }
        sent
    }
}

impl<N: Node, P: Copy> NodeGraph<N, P> {
    /// Advances the gesture by one tick, in which the given connectors were
    /// drawn, and adds the link if the tick made one.
    pub fn resolve_gesture(&mut self, rendered: &Vec<RenderedConnector<P>>) -> (outcome:
        GestureOutcome)
        requires
            old(self).wf(),
        ensures
            final(self).wf(),
            outcome == gesture_step(old(self)@.drag, old(self)@.retry_pending, rendered@).outcome,
            final(self)@ == (GraphView {
                links: links_after(old(self)@.links, outcome),
                drag: gesture_step(old(self)@.drag, old(self)@.retry_pending, rendered@).drag,
                retry_pending: gesture_step(
                    old(self)@.drag,
                    old(self)@.retry_pending,
                    rendered@,
                ).retry_pending,
                ..old(self)@
            }),
    {
        let drag = self.link_drag_info.take();
        let step = advance_gesture(drag, self.next_frame_link_dropped, rendered);
        self.link_drag_info = step.drag;
        self.next_frame_link_dropped = step.retry_pending;
        match step.outcome {
            GestureOutcome::Linked(link) => {
                self.links.push(link);
            },
            _ => {},
        }
        step.outcome
    }

    /// The second half of a tick, after the nodes were drawn: advances the
    /// gesture, then evaluates the links, the one that this tick made among
    /// them.
    pub fn end_tick(&mut self, rendered: &Vec<RenderedConnector<P>>) -> (r: (
        GestureOutcome,
        Vec<Option<Value>>,
    ))
        requires
            old(self).wf(),
        ensures
            final(self).wf(),
            r.0 == gesture_step(old(self)@.drag, old(self)@.retry_pending, rendered@).outcome,
            r.1@ == transmissions(
                old(self)@.handles,
                old(self)@.nodes,
                links_after(old(self)@.links, r.0),
            ),
            final(self)@ == (GraphView {
                nodes: nodes_after_links(
                    old(self)@.handles,
                    old(self)@.nodes,
                    links_after(old(self)@.links, r.0),
                ),
                links: links_after(old(self)@.links, r.0),
                drag: gesture_step(old(self)@.drag, old(self)@.retry_pending, rendered@).drag,
                retry_pending: gesture_step(
                    old(self)@.drag,
                    old(self)@.retry_pending,
                    rendered@,
                ).retry_pending,
                ..old(self)@
            }),
    {
        let outcome = self.resolve_gesture(rendered);
        let sent = self.evaluate_links();
        (outcome, sent)
    }
}

} // verus!
