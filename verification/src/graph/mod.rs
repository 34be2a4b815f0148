//! Graphs laid out over a box.
pub mod graph;
pub mod simple_graph;

pub use graph::Graph;
pub use simple_graph::SimpleGraph;
