use vstd::prelude::*;
use crate::value::TypeToken;
use crate::value::Value;
use crate::value::ValueKind;

verus! {

/// An input connector of a node, as the node describes it for one tick.
///
/// An input may show a widget of its own beside the connector, and may take
/// values from a link. An input that takes no values cannot be linked.
/// An input can only be linked to an output of the same type.
#[derive(Clone, Copy, Debug, PartialEq, Eq, Structural)]
pub struct NodeInput {
    /// Whether the node draws a widget beside this connector.
    pub has_ui: bool,
    pub input_type: TypeToken,
}

impl NodeInput {
    /// An input with a widget that takes values of the given kind.
    pub fn new(kind: ValueKind) -> (r: Self)
        ensures
            r == (NodeInput { has_ui: true, input_type: TypeToken::Of(kind) }),
    {
        NodeInput { has_ui: true, input_type: TypeToken::Of(kind) }
    }

    /// An input with a widget that takes no values.
    pub fn ui() -> (r: Self)
        ensures
            r == (NodeInput { has_ui: true, input_type: TypeToken::EmptyInput }),
    {
        NodeInput { has_ui: true, input_type: TypeToken::EmptyInput }
    }

    /// An input without a widget that takes values of the given kind.
    pub fn input(kind: ValueKind) -> (r: Self)
        ensures
            r == (NodeInput { has_ui: false, input_type: TypeToken::Of(kind) }),
    {
        NodeInput { has_ui: false, input_type: TypeToken::Of(kind) }
    }

    /// An input without a widget that takes no values.
    pub fn none() -> (r: Self)
        ensures
            r == (NodeInput { has_ui: false, input_type: TypeToken::EmptyInput }),
    {
        NodeInput { has_ui: false, input_type: TypeToken::EmptyInput }
    }

    /// Whether this input may take the value: it has an exchange, and the
    /// value is of its kind.
    pub open spec fn spec_accepts(&self, value: Value) -> bool {
        self.input_type == value.spec_type_token()
    }

    #[verifier::when_used_as_spec(spec_accepts)]
    pub fn accepts(&self, value: Value) -> (r: bool)
        ensures
            r == self.spec_accepts(value),
    {
        self.input_type == value.type_token()
    }
}

} // verus!
