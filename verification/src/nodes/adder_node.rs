use vstd::prelude::*;
use crate::node::Node;
use crate::node::NodeBody;
use crate::node_input::NodeInput;
use crate::node_output::NodeOutput;
use crate::value::TypeToken;
use crate::value::Value;
use crate::value::ValueKind;

verus! {

/// The sum of two bytes, wrapped around at 256.
pub open spec fn wrapped_sum(a: u8, b: u8) -> u8 {
    ((a + b) % 256) as u8
}

/// A node with two byte inputs and one output that gives their sum, wrapped
/// around at 256.
#[derive(Debug, PartialEq, Eq, Structural)]
pub struct AdderNode {
    pub value_1: u8,
    pub value_2: u8,
}

impl Clone for AdderNode {
    fn clone(&self) -> (r: Self)
        ensures
            r == *self,
    {
        AdderNode { value_1: self.value_1, value_2: self.value_2 }
    }
}

impl Default for AdderNode {
    fn default() -> (r: Self)
        ensures
            r.value_1 == 0,
            r.value_2 == 0,
    {
        AdderNode { value_1: 0, value_2: 0 }
    }
}

impl AdderNode {
    pub open spec fn spec_sum(&self) -> u8 {
        wrapped_sum(self.value_1, self.value_2)
    }

    /// What the output gives: the sum of the two inputs' latest values.
    #[verifier::when_used_as_spec(spec_sum)]
    pub fn sum(&self) -> (r: u8)
        ensures
            r == self.spec_sum(),
    {
        self.value_1.wrapping_add(self.value_2)
    }
}

impl Node for AdderNode {
    open spec fn spec_title(&self) -> Seq<char> {
        "Adder"@
    }

    open spec fn inputs(&self) -> Seq<NodeInput> {
        seq![
            NodeInput { has_ui: true, input_type: TypeToken::Of(ValueKind::Byte) },
            NodeInput { has_ui: true, input_type: TypeToken::Of(ValueKind::Byte) },
        ]
    }

    open spec fn outputs(&self) -> Seq<NodeOutput> {
        seq![NodeOutput { has_ui: true, output_type: TypeToken::Of(ValueKind::Byte) }]
    }

    open spec fn after_body(self) -> Self {
        self
    }

    open spec fn produced(&self, index: int) -> Value {
        Value::Byte(self.spec_sum())
    }

    open spec fn after_produce(self, index: int) -> Self {
        self
    }

    open spec fn after_consume(self, index: int, value: Value) -> Self {
        match value {
            Value::Byte(b) => if index == 0 {
                AdderNode { value_1: b, value_2: self.value_2 }
            } else {
                AdderNode { value_1: self.value_1, value_2: b }
            },
            _ => self,
        }
    }

    fn title(&self) -> (r: &str) {
        "Adder"
    }

    fn body(&mut self) -> (r: NodeBody) {
        let mut inputs: Vec<NodeInput> = Vec::new();
        inputs.push(NodeInput::new(ValueKind::Byte));
        inputs.push(NodeInput::new(ValueKind::Byte));
        let mut outputs: Vec<NodeOutput> = Vec::new();
        outputs.push(NodeOutput::new(ValueKind::Byte));
        NodeBody { inputs, outputs }
    }

    fn input_type(&self, index: usize) -> (r: Option<TypeToken>) {
        if index < 2 {
            Some(TypeToken::Of(ValueKind::Byte))
        } else {
            None
        }
    }

    fn output_type(&self, index: usize) -> (r: Option<TypeToken>) {
        if index == 0 {
            Some(TypeToken::Of(ValueKind::Byte))
        } else {
            None
        }
    }

    fn produce(&mut self, index: usize) -> (value: Value) {
        Value::Byte(self.sum())
    }

    fn consume(&mut self, index: usize, value: Value) {
        let b = value.as_byte();
        if index == 0 {
            self.value_1 = b;
        } else {
            self.value_2 = b;
        }
    }
}

} // verus!
