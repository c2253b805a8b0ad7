//! Uniform traversal over the mirrored tree.
//!
//! For each walked node kind `K` there are two halves: a capability method
//! `visit_K` on the [`Visit`] trait, and a default free function `visit_K`
//! that recurses into `K`'s syntactic children in source order and does
//! nothing else. A visitor overrides the methods it cares about and hands
//! the rest to the matching free function, so composing overrides is purely
//! additive: overriding one kind never changes the walk of another.
//!
//! Every `visit_K` declaration carries `decreases` over its node, so every
//! verified visitor is a terminating walk. Verus does not let an
//! implementation apply one of the generic default functions to its own
//! type, so a visitor that wants default behavior for a kind restates the
//! same structural recursion through its own methods (the extraction pass
//! does so).
//!
//! The default walk reaches the bodies carried by static, const and
//! function items, and descends into nested modules and impl-associated
//! content. It does not yet descend into expressions, so a body nested
//! inside an expression (a closure's, for example) is not independently
//! visited.

use vstd::prelude::*;

use crate::item::Body;
use crate::item::Expr;
use crate::item::Impl;
use crate::item::Item;
use crate::item::ItemKind;
use crate::item::Mod;

verus! {

/// The capability set of a tree walk: one overridable method per walked
/// node kind. Each method is bounded by the node it visits, so every
/// implementation is a terminating traversal.
pub trait Visit: Sized {
    fn visit_mod(&mut self, m: &Mod)
        decreases *m,
    ;

    fn visit_item(&mut self, i: &Item)
        decreases *i,
    ;

    fn visit_item_kind(&mut self, k: &ItemKind)
        decreases *k,
    ;

    fn visit_body(&mut self, b: &Body)
        decreases *b,
    ;

    fn visit_impl(&mut self, i: &Impl)
        decreases *i,
    ;

    fn visit_expr(&mut self, e: &Expr)
        decreases *e,
    ;
}

/// The dispatch capability: a node invokes the visitor method that matches
/// its own kind, the single entry point for starting a walk.
pub trait Visitable {
    fn visit<V: Visit>(&self, v: &mut V);
}

impl Visitable for Mod {
    fn visit<V: Visit>(&self, v: &mut V) {
        v.visit_mod(self)
    }
}

impl Visitable for Item {
    fn visit<V: Visit>(&self, v: &mut V) {
        v.visit_item(self)
    }
}

impl Visitable for ItemKind {
    fn visit<V: Visit>(&self, v: &mut V) {
        v.visit_item_kind(self)
    }
}

impl Visitable for Body {
    fn visit<V: Visit>(&self, v: &mut V) {
        v.visit_body(self)
    }
}

impl Visitable for Impl {
    fn visit<V: Visit>(&self, v: &mut V) {
        v.visit_impl(self)
    }
}

impl Visitable for Expr {
    fn visit<V: Visit>(&self, v: &mut V) {
        v.visit_expr(self)
    }
}

/// Default walk of a module: visit its items in source order.
pub fn visit_mod<V: Visit>(v: &mut V, x: &Mod)
    decreases *x,
{
    let n = x.items.len();
    for idx in 0..n
        invariant
            n == x.items.len(),
        decreases n - idx,
    {
        proof {
            assert(decreases_to!(*x => x.items));
            assert(decreases_to!(x.items => x.items@));
            assert(decreases_to!(x.items@ => x.items@[idx as int]));
        }
        v.visit_item(&x.items[idx]);
    }
}

/// Default walk of an item: visit its kind.
pub fn visit_item<V: Visit>(v: &mut V, x: &Item)
    decreases *x,
{
    v.visit_item_kind(&x.kind);
}

/// Default walk of an item kind: reach the body a static, const or
/// function item carries, descend into a nested module or an impl block,
/// and leave every other kind alone.
pub fn visit_item_kind<V: Visit>(v: &mut V, x: &ItemKind)
    decreases *x,
{
    match x {
        ItemKind::ExternCrate { .. } => (),
        ItemKind::Use { .. } => (),
        ItemKind::Static { body, .. } => v.visit_body(body),
        ItemKind::Const { body, .. } => v.visit_body(body),
        ItemKind::Fn { body, .. } => v.visit_body(body),
        ItemKind::Mod { module } => v.visit_mod(module),
        ItemKind::TyAlias { .. } => (),
        ItemKind::Enum { .. } => (),
        ItemKind::Struct { .. } => (),
        ItemKind::Union { .. } => (),
        ItemKind::Trait { .. } => (),
        ItemKind::TraitAlias { .. } => (),
        ItemKind::Impl { implementation } => v.visit_impl(implementation),
        ItemKind::Macro { .. } => (),
        ItemKind::ForeignMod => (),
        ItemKind::GlobalAsm => (),
    }
}

/// Default walk of a body: visit its value expression.
pub fn visit_body<V: Visit>(v: &mut V, x: &Body)
    decreases *x,
{
    v.visit_expr(&x.value);
}

/// Default walk of an impl block: its associated items are references,
/// not nested content, so there is nothing to recurse into and the
/// visitor is left untouched.
pub fn visit_impl<V: Visit>(_v: &mut V, _x: &Impl)
    ensures
        *final (_v) == *old(_v),
    decreases *_x,
{
}

/// Default walk of an expression: expression-internal recursion is not
/// yet implemented, so bodies nested inside expressions are not reached
/// and the visitor is left untouched.
pub fn visit_expr<V: Visit>(_v: &mut V, _x: &Expr)
    ensures
        *final (_v) == *old(_v),
    decreases *_x,
{
}

} // verus!
