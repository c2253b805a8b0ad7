//! The output of the extraction pass: an append-only mapping from node
//! identifier to resolved type, with unique keys.
//!
//! The map refuses a duplicate key instead of overwriting: within one pass
//! two distinct nodes never share an identifier, so a repeated key signals
//! a malformed input tree or a traversal fault, and overwriting would
//! silently attribute a type to the wrong node.

use vstd::prelude::*;

use crate::ids::HirId;
use crate::ty::Ty;

verus! {

/// The error a failed extraction reports.
#[derive(Debug, Clone, Copy, PartialEq, Eq, Structural)]
pub enum ExtractError {
    /// A body node was reached while no owning item had recorded its
    /// body token: the tree violates the item-owns-body invariant.
    MissingPendingOwner,
    /// Two type results mapped to the same node identifier.
    DuplicateKey { id: HirId },
}

/// Whether a key already occurs among recorded entries.
pub open spec fn entries_contain_key(entries: Seq<(HirId, Ty)>, key: HirId) -> bool {
    exists|i: int| 0 <= i < entries.len() && entries[i].0 == key
}

/// All recorded keys are pairwise distinct.
pub open spec fn entries_unique(entries: Seq<(HirId, Ty)>) -> bool {
    forall|i: int, j: int| 0 <= i < j < entries.len() ==> entries[i].0 != entries[j].0
}

/// The first value recorded under a key, if any.
pub open spec fn entries_lookup(entries: Seq<(HirId, Ty)>, key: HirId) -> Option<Ty>
    decreases entries.len(),
{
    if entries.len() == 0 {
        None
    } else if entries[0].0 == key {
        Some(entries[0].1)
    } else {
        entries_lookup(entries.drop_first(), key)
    }
}

/// A mapping from node identifier to resolved type, kept in insertion
/// order. Its view is the sequence of entries; every constructor and
/// method keeps the keys pairwise distinct ([`TypeMap::wf`]).
#[derive(Debug, PartialEq, Eq)]
pub struct TypeMap {
    entries: Vec<(HirId, Ty)>,
}

impl View for TypeMap {
    type V = Seq<(HirId, Ty)>;

    closed spec fn view(&self) -> Seq<(HirId, Ty)> {
        self.entries@
    }
}

impl TypeMap {
    /// Keys are pairwise distinct.
    pub open spec fn wf(&self) -> bool {
        entries_unique(self@)
    }

    /// An empty map.
    pub fn new() -> (r: TypeMap)
        ensures
            r@ == Seq::<(HirId, Ty)>::empty(),
            r.wf(),
    {
        TypeMap { entries: Vec::new() }
    }

    /// How many identifiers have a recorded type.
    pub fn len(&self) -> (r: usize)
        ensures
            r == self@.len(),
    {
        self.entries.len()
    }

    /// Whether a type was recorded under this identifier.
    pub fn contains_key(&self, key: &HirId) -> (r: bool)
        ensures
            r == entries_contain_key(self@, *key),
    {
        let n = self.entries.len();
        for i in 0..n
            invariant
                n == self@.len(),
                forall|j: int| 0 <= j < i ==> self@[j].0 != *key,
        {
            if self.entries[i].0 == *key {
                return true;
            }
        }
        false
    }

    /// The type recorded under this identifier, if any.
    pub fn get(&self, key: &HirId) -> (r: Option<&Ty>)
        ensures
            match r {
                Some(ty) => entries_lookup(self@, *key) == Some(*ty),
                None => entries_lookup(self@, *key) is None,
            },
    {
        proof {
            assert(self@.skip(0) =~= self@);
        }
        let n = self.entries.len();
        for i in 0..n
            invariant
                n == self@.len(),
                forall|j: int| 0 <= j < i ==> self@[j].0 != *key,
                entries_lookup(self@, *key) == entries_lookup(self@.skip(i as int), *key),
        {
            proof {
                assert(self@.skip(i as int).drop_first() =~= self@.skip(i + 1));
            }
            if self.entries[i].0 == *key {
                return Some(&self.entries[i].1);
            }
        }
        None
    }

    /// Record a type under an identifier. Appends when the key is fresh;
    /// reports the duplicate and leaves the map unchanged when it is not.
    pub fn insert(&mut self, key: HirId, ty: Ty) -> (r: Result<(), ExtractError>)
        ensures
            match r {
                Ok(()) => !entries_contain_key(old(self)@, key) && final (self)@ == old(
                    self,
                )@.push((key, ty)),
                Err(e) => entries_contain_key(old(self)@, key) && e == (ExtractError::DuplicateKey {
                    id: key,
                }) && final (self)@ == old(self)@,
            },
            old(self).wf() ==> final (self).wf(),
    {
        if self.contains_key(&key) {
            Err(ExtractError::DuplicateKey { id: key })
        } else {
            self.entries.push((key, ty));
            Ok(())
        }
    }
}

} // verus!
