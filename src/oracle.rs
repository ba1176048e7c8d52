//! The knowledge store side: hashing, syntax trees, declaration and call
//! extraction, the persistent graph and the query engine.

pub mod edges;
pub mod graph;
pub mod hash;
pub mod query;
pub mod store;
pub mod syntax;
