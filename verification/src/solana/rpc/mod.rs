//! The node as it is reached by remote procedure calls.

pub mod node;
