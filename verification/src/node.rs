use vstd::prelude::*;
use crate::node_input::NodeInput;
use crate::node_output::NodeOutput;
use crate::value::TypeToken;
use crate::value::Value;

verus! {

/// What a node shows for one tick: its input connectors and its output
/// connectors, each in the order in which they are drawn and numbered.
#[derive(Clone, Debug, PartialEq, Eq)]
pub struct NodeBody {
    pub inputs: Vec<NodeInput>,
    pub outputs: Vec<NodeOutput>,
}

/// A kind of node.
///
/// Once per tick the graph asks a node for its body. Until the next body the
/// node's connectors are those of that body: `inputs` and `outputs` describe
/// them, and the exchanges `produce` and `consume` are addressed by a
/// connector's place among them. An exchange leaves the connectors as they
/// are; only `body` may change them.
///
/// What a kind is and does is stated by the specification functions. Each
/// has a default: that of a node without connectors which nothing changes.
/// A kind with connectors or with a state of its own states its own.
pub trait Node: Sized {
    /// The title to display for the node.
    open spec fn spec_title(&self) -> Seq<char> {
        Seq::empty()
    }

    /// The input connectors of the latest body.
    open spec fn inputs(&self) -> Seq<NodeInput> {
        Seq::empty()
    }

    /// The output connectors of the latest body.
    open spec fn outputs(&self) -> Seq<NodeOutput> {
        Seq::empty()
    }

    /// The node after it has been asked for its body.
    open spec fn after_body(self) -> Self {
        self
    }

    /// The value that the output at `index` gives.
    open spec fn produced(&self, index: int) -> Value {
        Value::Flag(false)
    }

    /// The node after the output at `index` has given its value.
    open spec fn after_produce(self, index: int) -> Self {
        self
    }

    /// The node after the input at `index` has taken `value`.
    open spec fn after_consume(self, index: int, value: Value) -> Self {
        self
    }

    fn title(&self) -> (r: &str)
        ensures
            r@ == self.spec_title(),
    ;

    /// Starts the node's tick and returns the connectors it shows.
    fn body(&mut self) -> (r: NodeBody)
        ensures
            *final(self) == old(self).after_body(),
            r.inputs@ == final(self).inputs(),
            r.outputs@ == final(self).outputs(),
    ;

    /// The token of the input at `index`, if there is one.
    fn input_type(&self, index: usize) -> (r: Option<TypeToken>)
        ensures
            r == input_type_at(self.inputs(), index as int),
    ;

    /// The token of the output at `index`, if there is one.
    fn output_type(&self, index: usize) -> (r: Option<TypeToken>)
        ensures
            r == output_type_at(self.outputs(), index as int),
    ;

    /// The exchange of the output at `index`: gives one value of the
    /// output's kind.
    fn produce(&mut self, index: usize) -> (value: Value)
        requires
            index < old(self).outputs().len(),
            old(self).outputs()[index as int].output_type.spec_has_exchange(),
        ensures
            value == old(self).produced(index as int),
            value.spec_type_token() == old(self).outputs()[index as int].output_type,
            *final(self) == old(self).after_produce(index as int),
            final(self).inputs() == old(self).inputs(),
            final(self).outputs() == old(self).outputs(),
    ;

    /// The exchange of the input at `index`: takes one value of the input's
    /// kind.
    fn consume(&mut self, index: usize, value: Value)
        requires
            index < old(self).inputs().len(),
            old(self).inputs()[index as int].spec_accepts(value),
        ensures
            *final(self) == old(self).after_consume(index as int, value),
            final(self).inputs() == old(self).inputs(),
            final(self).outputs() == old(self).outputs(),
    ;
}

/// The token of the input at `index` of `inputs`, if there is one.
pub open spec fn input_type_at(inputs: Seq<NodeInput>, index: int) -> Option<TypeToken> {
    if 0 <= index < inputs.len() {
        Some(inputs[index].input_type)
    } else {
        None
    }
}

/// The token of the output at `index` of `outputs`, if there is one.
pub open spec fn output_type_at(outputs: Seq<NodeOutput>, index: int) -> Option<TypeToken> {
    if 0 <= index < outputs.len() {
        Some(outputs[index].output_type)
    } else {
        None
    }
}

} // verus!
