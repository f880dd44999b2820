//! Small containers with stated and proved behaviour: a list of bounded
//! size with a cursor, kept in a ring of slots, the interfaces it offers,
//! and a graph and a tree.

pub mod base;
pub mod custom_errors;
pub mod dictionary;
pub mod graph;
pub mod lists;
pub mod tree;
