//! A node-graph engine: typed values, nodes with input and output connectors,
//! a store of placed nodes, the drag gesture that links two connectors, and the
//! evaluation that carries values along the links once per tick.

pub mod value;
pub mod node_input;
pub mod node_output;
pub mod node;
pub mod nodes;
pub mod handle_arena;
pub mod node_store;
pub mod link;
pub mod gesture;
pub mod evaluation;
pub mod node_graph;
