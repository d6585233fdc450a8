use vstd::prelude::*;
use crate::node::Node;
use crate::node::NodeBody;
use crate::node_output::NodeOutput;
use crate::value::TypeToken;
use crate::value::Value;
use crate::value::ValueKind;

verus! {

/// A node with one output that gives a byte which the user sets.
#[derive(Debug, PartialEq, Eq, Structural)]
pub struct SourceNode {
    pub value: u8,
}

impl Clone for SourceNode {
    fn clone(&self) -> (r: Self)
        ensures
            r == *self,
    {
        SourceNode { value: self.value }
    }
}

impl Default for SourceNode {
    fn default() -> (r: Self)
        ensures
            r.value == 0,
    {
        SourceNode { value: 0 }
    }
}

impl Node for SourceNode {
    open spec fn spec_title(&self) -> Seq<char> {
        "Source"@
    }

    open spec fn inputs(&self) -> Seq<crate::node_input::NodeInput> {
        seq![]
    }

    open spec fn outputs(&self) -> Seq<NodeOutput> {
        seq![NodeOutput { has_ui: true, output_type: TypeToken::Of(ValueKind::Byte) }]
    }

    open spec fn after_body(self) -> Self {
        self
    }

    open spec fn produced(&self, index: int) -> Value {
        Value::Byte(self.value)
    }

    open spec fn after_produce(self, index: int) -> Self {
        self
    }

    open spec fn after_consume(self, index: int, value: Value) -> Self {
        self
    }

    fn title(&self) -> (r: &str) {
        "Source"
    }

    fn body(&mut self) -> (r: NodeBody) {
        let mut outputs: Vec<NodeOutput> = Vec::new();
        outputs.push(NodeOutput::new(ValueKind::Byte));
        NodeBody { inputs: Vec::new(), outputs }
    }

    fn input_type(&self, index: usize) -> (r: Option<TypeToken>) {
        None
    }

    fn output_type(&self, index: usize) -> (r: Option<TypeToken>) {
        if index == 0 {
            Some(TypeToken::Of(ValueKind::Byte))
        } else {
            None
        }
    }

    fn produce(&mut self, index: usize) -> (value: Value) {
        Value::Byte(self.value)
    }

    fn consume(&mut self, index: usize, value: Value) {
    }
}

} // verus!
