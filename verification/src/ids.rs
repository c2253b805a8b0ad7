//! Self-contained identifier and source-position types for the mirrored tree.
//!
//! Every node of the mirror is addressed by a [`HirId`]: a pair of the owning
//! top-level definition ([`OwnerId`]) and an index that is unique only within
//! that owner ([`ItemLocalId`]). These are plain copyable values, assigned
//! once when the mirror is built and never reassigned, so the mirror can
//! outlive the compilation context that produced it.

use vstd::prelude::*;

verus! {

/// A source region, kept as plain offsets so the mirror owns no live handle.
#[derive(Debug, Clone, Copy, PartialEq, Eq, Structural)]
pub struct Span {
    pub lo: u32,
    pub hi: u32,
}

/// An interned name, copied out into an owned string.
#[derive(Debug, Clone, PartialEq, Eq)]
pub struct Symbol(pub String);

/// A name together with the position it was written at.
#[derive(Debug, Clone, PartialEq, Eq)]
pub struct Ident {
    pub name: Symbol,
    pub span: Span,
}

/// A definition visible across compilation units.
#[derive(Debug, Clone, Copy, PartialEq, Eq, Structural, Hash)]
pub struct DefId {
    pub krate: u32,
    pub index: u32,
}

/// A definition local to the current compilation unit.
#[derive(Debug, Clone, Copy, PartialEq, Eq, Structural, Hash)]
pub struct LocalDefId {
    pub local_def_index: u32,
}

/// The top-level definition that a set of tree nodes belongs to.
#[derive(Debug, Clone, Copy, PartialEq, Eq, Structural, Hash)]
pub struct OwnerId {
    pub def_id: LocalDefId,
}

/// An index that distinguishes nodes within one owner; never unique globally.
#[derive(Debug, Clone, Copy, PartialEq, Eq, Structural, Hash)]
pub struct ItemLocalId(pub u32);

/// The globally-stable address of one tree node: two such ids are equal
/// exactly when both the owner and the local index agree.
#[derive(Debug, Clone, Copy, PartialEq, Eq, Structural, Hash)]
pub struct HirId {
    pub owner: OwnerId,
    pub local_id: ItemLocalId,
}

/// The identifying token of a body; its owner component names the item
/// (function, const) the body belongs to.
#[derive(Debug, Clone, Copy, PartialEq, Eq, Structural, Hash)]
pub struct BodyId {
    pub hir_id: HirId,
}

/// What a path resolved to.
#[derive(Debug, Clone, PartialEq, Eq)]
pub enum Res {
    Def { def_id: DefId },
    Local { id: HirId },
    Error,
}

} // verus!
