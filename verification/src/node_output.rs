use vstd::prelude::*;
use crate::value::TypeToken;
use crate::value::ValueKind;

verus! {

/// An output connector of a node, as the node describes it for one tick.
///
/// An output may show a widget of its own beside the connector, and may give
/// values to a link. An output that gives no values cannot be linked.
/// An output can only be linked to an input of the same type.
#[derive(Clone, Copy, Debug, PartialEq, Eq, Structural)]
pub struct NodeOutput {
    /// Whether the node draws a widget beside this connector.
    pub has_ui: bool,
    pub output_type: TypeToken,
}

impl NodeOutput {
    /// An output with a widget that gives values of the given kind.
    pub fn new(kind: ValueKind) -> (r: Self)
        ensures
            r == (NodeOutput { has_ui: true, output_type: TypeToken::Of(kind) }),
    {
        NodeOutput { has_ui: true, output_type: TypeToken::Of(kind) }
    }

    /// An output with a widget that gives no values.
    pub fn ui() -> (r: Self)
        ensures
            r == (NodeOutput { has_ui: true, output_type: TypeToken::EmptyOutput }),
    {
        NodeOutput { has_ui: true, output_type: TypeToken::EmptyOutput }
    }

    /// An output without a widget that gives values of the given kind.
    pub fn output(kind: ValueKind) -> (r: Self)
        ensures
            r == (NodeOutput { has_ui: false, output_type: TypeToken::Of(kind) }),
    {
        NodeOutput { has_ui: false, output_type: TypeToken::Of(kind) }
    }

    /// An output without a widget that gives no values.
    pub fn none() -> (r: Self)
        ensures
            r == (NodeOutput { has_ui: false, output_type: TypeToken::EmptyOutput }),
    {
        NodeOutput { has_ui: false, output_type: TypeToken::EmptyOutput }
    }
}

} // verus!
