use vstd::prelude::*;
use crate::link::Link;
use crate::node::input_type_at;
use crate::node::output_type_at;
use crate::node::Node;
use crate::node_store::NodeHandle;
use crate::node_store::NodeStore;
use crate::value::Value;

verus! {

/// Where an evaluation stands: the nodes as the links evaluated so far left
/// them, and the connectors whose exchange has been used in this tick, each
/// as the place of its node and its own place among the node's connectors.
pub struct EvalState<N> {
    pub nodes: Seq<N>,
    pub spent_outputs: Set<(usize, usize)>,
    pub spent_inputs: Set<(usize, usize)>,
}

/// The place of the node at which a link begins.
pub open spec fn source_place(handles: Seq<NodeHandle>, link: Link) -> int {
    handles.index_of(link.source.node)
}

/// The place of the node at which a link ends.
pub open spec fn dest_place(handles: Seq<NodeHandle>, link: Link) -> int {
    handles.index_of(link.dest.node)
}

/// Whether a link carries a value at this point of an evaluation.
///
/// It does if both of its nodes are there, both of its connectors are
/// there, the output has an exchange, the input has the output's type token,
/// and neither exchange has been used in this tick.
pub open spec fn can_transmit<N: Node>(
    handles: Seq<NodeHandle>,
    state: EvalState<N>,
    link: Link,
) -> bool {
    let s = source_place(handles, link);
    let d = dest_place(handles, link);
    &&& handles.contains(link.source.node)
    &&& handles.contains(link.dest.node)
    &&& output_type_at(state.nodes[s].outputs(), link.source.index as int) is Some
    &&& output_type_at(
        state.nodes[s].outputs(),
        link.source.index as int,
    ).unwrap().spec_has_exchange()
    &&& input_type_at(state.nodes[d].inputs(), link.dest.index as int) == output_type_at(
        state.nodes[s].outputs(),
        link.source.index as int,
    )
    &&& !state.spent_outputs.contains((s as usize, link.source.index))
    &&& !state.spent_inputs.contains((d as usize, link.dest.index))
}

/// The value that a link carries at this point of an evaluation, if it
/// carries one.
pub open spec fn transmitted<N: Node>(
    handles: Seq<NodeHandle>,
    state: EvalState<N>,
    link: Link,
) -> Option<Value> {
    if can_transmit(handles, state, link) {
        Some(state.nodes[source_place(handles, link)].produced(link.source.index as int))
    } else {
        None
    }
}

/// An evaluation after one more link.
///
/// A link that carries a value takes it from its output and hands it to its
/// input at once, and both exchanges are used up. A link that carries none
/// changes nothing.
pub open spec fn after_link<N: Node>(
    handles: Seq<NodeHandle>,
    state: EvalState<N>,
    link: Link,
) -> EvalState<N> {
    if can_transmit(handles, state, link) {
        let s = source_place(handles, link);
        let d = dest_place(handles, link);
        let value = state.nodes[s].produced(link.source.index as int);
        let produced = state.nodes.update(s, state.nodes[s].after_produce(link.source.index as int));
        EvalState {
            nodes: produced.update(d, produced[d].after_consume(link.dest.index as int, value)),
            spent_outputs: state.spent_outputs.insert((s as usize, link.source.index)),
            spent_inputs: state.spent_inputs.insert((d as usize, link.dest.index)),
        }
    } else {
        state
    }
}

/// An evaluation before its first link.
pub open spec fn eval_start<N>(nodes: Seq<N>) -> EvalState<N> {
    EvalState { nodes, spent_outputs: Set::empty(), spent_inputs: Set::empty() }
}

/// An evaluation after the first `count` links, taken in their order.
pub open spec fn after_links<N: Node>(
    handles: Seq<NodeHandle>,
    nodes: Seq<N>,
    links: Seq<Link>,
    count: nat,
) -> EvalState<N>
    decreases count,
{
    if count == 0 {
        eval_start(nodes)
    } else {
        after_link(handles, after_links(handles, nodes, links, (count - 1) as nat), links[count - 1])
    }
}

/// What each link carries in one evaluation of all the links in their order.
pub open spec fn transmissions<N: Node>(
    handles: Seq<NodeHandle>,
    nodes: Seq<N>,
    links: Seq<Link>,
) -> Seq<Option<Value>> {
    Seq::new(
        links.len(),
        |k: int| transmitted(handles, after_links(handles, nodes, links, k as nat), links[k]),
    )
}

/// The nodes after one evaluation of all the links in their order.
pub open spec fn nodes_after_links<N: Node>(
    handles: Seq<NodeHandle>,
    nodes: Seq<N>,
    links: Seq<Link>,
) -> Seq<N> {
    after_links(handles, nodes, links, links.len()).nodes
}

/// An evaluation of the links of a graph, in which every node has its
/// handle, has one result for each link and leaves as many nodes as there
/// were.
pub proof fn law_evaluation_keeps_counts<N: Node>(
    handles: Seq<NodeHandle>,
    nodes: Seq<N>,
    links: Seq<Link>,
)
    requires
        handles.len() == nodes.len(),
    ensures
        transmissions(handles, nodes, links).len() == links.len(),
        nodes_after_links(handles, nodes, links).len() == nodes.len(),
{
    lemma_links_keep_count(handles, nodes, links, links.len());
}

/// The links evaluated so far have left as many nodes as there were.
pub proof fn lemma_links_keep_count<N: Node>(
    handles: Seq<NodeHandle>,
    nodes: Seq<N>,
    links: Seq<Link>,
    count: nat,
)
    requires
        handles.len() == nodes.len(),
    ensures
        after_links(handles, nodes, links, count).nodes.len() == nodes.len(),
    decreases count,
{
    if count > 0 {
        lemma_links_keep_count(handles, nodes, links, (count - 1) as nat);
    }
}

/// A link carries a value only between an output with an exchange and an
/// input that has the output's type token, as its nodes show them when the
/// link's turn comes.
pub proof fn law_transmissions_typed<N: Node>(
    handles: Seq<NodeHandle>,
    nodes: Seq<N>,
    links: Seq<Link>,
    k: int,
)
    requires
        0 <= k < links.len(),
        transmissions(handles, nodes, links)[k] is Some,
    ensures
        output_type_at(
            after_links(handles, nodes, links, k as nat).nodes[source_place(
                handles,
                links[k],
            )].outputs(),
            links[k].source.index as int,
        ) is Some,
        output_type_at(
            after_links(handles, nodes, links, k as nat).nodes[source_place(
                handles,
                links[k],
            )].outputs(),
            links[k].source.index as int,
        ).unwrap().spec_has_exchange(),
        input_type_at(
            after_links(handles, nodes, links, k as nat).nodes[dest_place(handles, links[k])].inputs(),
            links[k].dest.index as int,
        ) == output_type_at(
            after_links(handles, nodes, links, k as nat).nodes[source_place(
                handles,
                links[k],
            )].outputs(),
            links[k].source.index as int,
        ),
{
}

/// Evaluating the links twice in succession, where the first evaluation left
/// every node as it was, carries the same values both times.
pub proof fn law_evaluation_repeats<N: Node>(
    handles: Seq<NodeHandle>,
    nodes: Seq<N>,
    links: Seq<Link>,
)
    requires
        nodes_after_links(handles, nodes, links) == nodes,
    ensures
        transmissions(handles, nodes_after_links(handles, nodes, links), links) == transmissions(
            handles,
            nodes,
            links,
        ),
        nodes_after_links(handles, nodes_after_links(handles, nodes, links), links) == nodes,
{
}

/// No exchange is used twice in one evaluation: of the links that carry a
/// value, no two share an output, and no two share an input.
pub proof fn law_exchanges_used_once<N: Node>(
    handles: Seq<NodeHandle>,
    nodes: Seq<N>,
    links: Seq<Link>,
    j: int,
    k: int,
)
    requires
        0 <= j < k < links.len(),
        transmissions(handles, nodes, links)[j] is Some,
        transmissions(handles, nodes, links)[k] is Some,
    ensures
        links[j].source != links[k].source,
        links[j].dest != links[k].dest,
{
    lemma_spent_grows(handles, nodes, links, j + 1, k);
}

/// The exchanges that are used up after some links are still used up after
/// more of them.
pub proof fn lemma_spent_grows<N: Node>(
    handles: Seq<NodeHandle>,
    nodes: Seq<N>,
    links: Seq<Link>,
    from: int,
    to: int,
)
    requires
        0 <= from <= to <= links.len(),
    ensures
        after_links(handles, nodes, links, from as nat).spent_outputs.subset_of(
            after_links(handles, nodes, links, to as nat).spent_outputs,
        ),
        after_links(handles, nodes, links, from as nat).spent_inputs.subset_of(
            after_links(handles, nodes, links, to as nat).spent_inputs,
        ),
    decreases to - from,
{
    if from < to {
        lemma_spent_grows(handles, nodes, links, from, to - 1);
    }
}

/// Whether a pair is in a list of pairs.
pub fn pair_in(pairs: &Vec<(usize, usize)>, first: usize, second: usize) -> (r: bool)
    ensures
        r == pairs@.to_set().contains((first, second)),
{
    let mut i: usize = 0;
    while i < pairs.len()
        invariant
            i <= pairs.len(),
            forall|j: int| 0 <= j < i ==> pairs@[j] != (first, second),
        decreases pairs.len() - i,
    {
        if pairs[i].0 == first && pairs[i].1 == second {
            assert(pairs@[i as int] == (first, second));
            return true;
        }
        i = i + 1;
    }
    false
}

/// Evaluates one link: if it carries a value, takes the value from the
/// output's exchange, hands it to the input's exchange, and records both
/// exchanges as used.
pub fn transmit_link<N: Node, P>(
    store: &mut NodeStore<N, P>,
    link: Link,
    spent_outputs: &mut Vec<(usize, usize)>,
    spent_inputs: &mut Vec<(usize, usize)>,
) -> (sent: Option<Value>)
    requires
        old(store).wf(),
    ensures
        final(store).wf(),
        final(store).handles() == old(store).handles(),
        final(store).positions() == old(store).positions(),
        sent == transmitted(
            old(store).handles(),
            (EvalState {
                nodes: old(store).nodes(),
                spent_outputs: old(spent_outputs)@.to_set(),
                spent_inputs: old(spent_inputs)@.to_set(),
            }),
            link,
        ),
        (EvalState {
            nodes: final(store).nodes(),
            spent_outputs: final(spent_outputs)@.to_set(),
            spent_inputs: final(spent_inputs)@.to_set(),
        }) == after_link(
            old(store).handles(),
            (EvalState {
                nodes: old(store).nodes(),
                spent_outputs: old(spent_outputs)@.to_set(),
                spent_inputs: old(spent_inputs)@.to_set(),
            }),
            link,
        ),
{
    broadcast use vstd::seq_lib::group_seq_properties;

    let s = match store.find(link.source.node) {
        Some(s) => s,
        None => {
            return None;
        },
    };
    let d = match store.find(link.dest.node) {
        Some(d) => d,
        None => {
            return None;
        },
    };
    let out_type = store.record(s).node.output_type(link.source.index);
    let in_type = store.record(d).node.input_type(link.dest.index);
    let token = match out_type {
        Some(token) => token,
        None => {
            return None;
        },
    };
    if !token.has_exchange() || in_type != Some(token) {
        return None;
    }
    if pair_in(spent_outputs, s, link.source.index) || pair_in(spent_inputs, d, link.dest.index) {
        return None;
    }
    let value = store.node_mut(s).produce(link.source.index);
    store.node_mut(d).consume(link.dest.index, value);
    spent_outputs.push((s, link.source.index));
    spent_inputs.push((d, link.dest.index));
    proof {
        assert(final(spent_outputs)@.to_set() =~= old(spent_outputs)@.to_set().insert(
            (s, link.source.index),
        ));
        assert(final(spent_inputs)@.to_set() =~= old(spent_inputs)@.to_set().insert(
            (d, link.dest.index),
        ));
    }
    Some(value)
}

} // verus!
