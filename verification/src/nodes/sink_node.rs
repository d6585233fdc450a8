use vstd::prelude::*;
use crate::node::Node;
use crate::node::NodeBody;
use crate::node_input::NodeInput;
use crate::node_output::NodeOutput;
use crate::value::TypeToken;
use crate::value::Value;
use crate::value::ValueKind;

verus! {

/// A node with one input that keeps the latest byte it was given.
#[derive(Debug, PartialEq, Eq, Structural)]
pub struct SinkNode {
    pub value: u8,
}

impl Clone for SinkNode {
    fn clone(&self) -> (r: Self)
        ensures
            r == *self,
    {
        SinkNode { value: self.value }
    }
}

impl Default for SinkNode {
    fn default() -> (r: Self)
        ensures
            r.value == 0,
    {
        SinkNode { value: 0 }
    }
}

impl Node for SinkNode {
    open spec fn spec_title(&self) -> Seq<char> {
        "Sink"@
    }

    open spec fn inputs(&self) -> Seq<NodeInput> {
        seq![NodeInput { has_ui: true, input_type: TypeToken::Of(ValueKind::Byte) }]
    }

    open spec fn outputs(&self) -> Seq<NodeOutput> {
        seq![]
    }

    open spec fn after_body(self) -> Self {
        self
    }

    open spec fn produced(&self, index: int) -> Value {
        Value::Byte(self.value)
    }

    open spec fn after_produce(self, index: int) -> Self {
        self
    }

    open spec fn after_consume(self, index: int, value: Value) -> Self {
        match value {
            Value::Byte(b) => SinkNode { value: b },
            _ => self,
        }
    }

    fn title(&self) -> (r: &str) {
        "Sink"
    }

    fn body(&mut self) -> (r: NodeBody) {
        let mut inputs: Vec<NodeInput> = Vec::new();
        inputs.push(NodeInput::new(ValueKind::Byte));
        NodeBody { inputs, outputs: Vec::new() }
    }

    fn input_type(&self, index: usize) -> (r: Option<TypeToken>) {
        if index == 0 {
            Some(TypeToken::Of(ValueKind::Byte))
        } else {
            None
        }
    }

    fn output_type(&self, index: usize) -> (r: Option<TypeToken>) {
        None
    }

    fn produce(&mut self, index: usize) -> (value: Value) {
        Value::Byte(self.value)
    }

    fn consume(&mut self, index: usize, value: Value) {
        self.value = value.as_byte();
    }
}

} // verus!
