//! Node kinds that exchange bytes.

pub mod adder_node;
pub mod one_to_n_node;
pub mod sink_node;
pub mod source_node;
