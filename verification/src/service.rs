//! The services of a node, each of which reads the messages of one kind.

pub mod error_control;
pub mod node_control;
