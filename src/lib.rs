//! A verified model of generic feature nodes: the metadata shared by every node,
//! the parser that reads it from an element, the rules that derive access rights,
//! and a node store with typed handles.

pub mod elem_type;
pub mod text;
pub mod xml;
pub mod node_base;
pub mod evaluator;
pub mod store;
pub mod node_kind;
