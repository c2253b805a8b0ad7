//! A serializable, traversable mirror of a compiler frontend's item tree,
//! together with a pass that attaches per-node resolved types to it.
//!
//! The crate has three layers. The data model ([`ids`], [`item`], [`ty`])
//! describes items, signatures, bodies and resolved types as plain owned
//! values with structural identity. The traversal framework ([`visit`])
//! walks that heterogeneous tree uniformly, one overridable capability per
//! node kind. The extraction pass ([`type_extract`]) drives a walk over a
//! mirrored module and records, for every node the type-checker resolved,
//! its type under the node's globally-stable identifier; the laws that the
//! pass obeys are stated and proved in [`laws`].

pub mod ids;
pub mod item;
pub mod laws;
pub mod ty;
pub mod type_extract;
pub mod type_map;
pub mod visit;
