use vstd::prelude::*;
use crate::node_store::NodeHandle;

verus! {

/// A connector of a node: the node's handle and the connector's place
/// among the node's inputs or among its outputs.
#[derive(Clone, Copy, Debug, PartialEq, Eq, Structural)]
pub struct ConnectorRef {
    pub node: NodeHandle,
    pub index: usize,
}

/// A directed edge from an output connector to an input connector.
#[derive(Clone, Copy, Debug, PartialEq, Eq, Structural)]
pub struct Link {
    /// The output that gives the value.
    pub source: ConnectorRef,
    /// The input that takes it.
    pub dest: ConnectorRef,
}

} // verus!
