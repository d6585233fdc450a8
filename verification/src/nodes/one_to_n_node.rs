use vstd::prelude::*;
use crate::node::Node;
use crate::node::NodeBody;
use crate::node_input::NodeInput;
use crate::node_output::NodeOutput;
use crate::value::TypeToken;
use crate::value::Value;
use crate::value::ValueKind;

verus! {

/// A node that hands the byte it was given to as many links as are drawn
/// from it.
///
/// Each output serves one link. A body shows as many outputs as the node
/// counted since the body before: one, and one more for each output that
/// gave its value, so that there is always a free output to draw from. The
/// count stops at 255.
#[derive(Debug, PartialEq, Eq, Structural)]
pub struct OneToNNode {
    pub value_1: u8,
    /// The number of outputs that the next body will show.
    pub output_count: u8,
    /// The number of outputs that the latest body showed.
    pub shown_outputs: u8,
}

impl Clone for OneToNNode {
    fn clone(&self) -> (r: Self)
        ensures
            r == *self,
    {
        OneToNNode {
            value_1: self.value_1,
            output_count: self.output_count,
            shown_outputs: self.shown_outputs,
        }
    }
}

impl Default for OneToNNode {
    fn default() -> (r: Self)
        ensures
            r.value_1 == 0,
            r.output_count == 0,
            r.shown_outputs == 0,
    {
        OneToNNode { value_1: 0, output_count: 0, shown_outputs: 0 }
    }
}

impl Node for OneToNNode {
    open spec fn spec_title(&self) -> Seq<char> {
        "OneToN"@
    }

    open spec fn inputs(&self) -> Seq<NodeInput> {
        seq![NodeInput { has_ui: false, input_type: TypeToken::Of(ValueKind::Byte) }]
    }

    open spec fn outputs(&self) -> Seq<NodeOutput> {
        Seq::new(
            self.shown_outputs as nat,
            |i: int| NodeOutput { has_ui: false, output_type: TypeToken::Of(ValueKind::Byte) },
        )
    }

    open spec fn after_body(self) -> Self {
        OneToNNode { value_1: self.value_1, output_count: 1, shown_outputs: self.output_count }
    }

    open spec fn produced(&self, index: int) -> Value {
        Value::Byte(self.value_1)
    }

    open spec fn after_produce(self, index: int) -> Self {
        OneToNNode {
            value_1: self.value_1,
            output_count: if self.output_count < 255 {
                (self.output_count + 1) as u8
            } else {
                255
            },
            shown_outputs: self.shown_outputs,
        }
    }

    open spec fn after_consume(self, index: int, value: Value) -> Self {
        match value {
            Value::Byte(b) => OneToNNode {
                value_1: b,
                output_count: self.output_count,
                shown_outputs: self.shown_outputs,
            },
            _ => self,
        }
    }

    fn title(&self) -> (r: &str) {
        "OneToN"
    }

    fn body(&mut self) -> (r: NodeBody) {
        let shown: u8 = self.output_count;
        let mut outputs: Vec<NodeOutput> = Vec::new();
        let mut i: u8 = 0;
        while i < shown
            invariant
                i <= shown,
                outputs@ == Seq::new(
                    i as nat,
                    |k: int| NodeOutput { has_ui: false, output_type: TypeToken::Of(ValueKind::Byte) },
                ),
            decreases shown - i,
        {
            outputs.push(NodeOutput::output(ValueKind::Byte));
            i = i + 1;
        }
        self.output_count = 1;
        self.shown_outputs = shown;
        let mut inputs: Vec<NodeInput> = Vec::new();
        inputs.push(NodeInput::input(ValueKind::Byte));
        NodeBody { inputs, outputs }
    }

    fn input_type(&self, index: usize) -> (r: Option<TypeToken>) {
        if index == 0 {
            Some(TypeToken::Of(ValueKind::Byte))
        } else {
            None
        }
    }

    fn output_type(&self, index: usize) -> (r: Option<TypeToken>) {
        if index < self.shown_outputs as usize {
            Some(TypeToken::Of(ValueKind::Byte))
        } else {
            None
        }
    }

    fn produce(&mut self, index: usize) -> (value: Value) {
        self.output_count = self.output_count.saturating_add(1);
        Value::Byte(self.value_1)
    }

    fn consume(&mut self, index: usize, value: Value) {
        self.value_1 = value.as_byte();
    }
}

} // verus!
