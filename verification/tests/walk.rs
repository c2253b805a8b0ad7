use key_wrapper::ids::{BodyId, HirId, Ident, ItemLocalId, LocalDefId, OwnerId, Span, Symbol};
use key_wrapper::item::{
    Body, Expr, FnDecl, FnHeader, FnRetTy, FnSig, Generics, Impl, ImplPolarity, ImplicitSelfKind,
    Item, ItemKind, Mod, ModSpans,
};
use key_wrapper::item::{Defaultness, HirTy, HirTyKind};
use key_wrapper::visit::{visit_body, visit_impl, visit_item, visit_item_kind, visit_mod, Visit};
use key_wrapper::visit::{visit_expr, Visitable};

fn sp() -> Span {
    Span { lo: 0, hi: 0 }
}

fn ident(name: &str) -> Ident {
    Ident { name: Symbol(name.to_string()), span: sp() }
}

fn owner(n: u32) -> OwnerId {
    OwnerId { def_id: LocalDefId { local_def_index: n } }
}

fn hir_id(o: u32, l: u32) -> HirId {
    HirId { owner: owner(o), local_id: ItemLocalId(l) }
}

fn body(o: u32) -> Body {
    Body { params: vec![], value: Expr { hir_id: hir_id(o, 1), span: sp() } }
}

fn generics() -> Generics {
    Generics { params: vec![], span: sp() }
}

fn fn_sig() -> FnSig {
    FnSig {
        header: FnHeader { safety: false, constness: false, asyncness: false },
        decl: FnDecl {
            inputs: vec![],
            output: FnRetTy::DefaultReturn(sp()),
            c_variadic: false,
            implicit_self: ImplicitSelfKind::NoSelf,
            lifetime_elision_allowed: false,
        },
        span: sp(),
    }
}

fn infer_ty(o: u32, l: u32) -> HirTy {
    HirTy { hir_id: hir_id(o, l), kind: Box::new(HirTyKind::Infer), span: sp() }
}

fn fn_item(name: &str, o: u32) -> Item {
    Item {
        ident: ident(name),
        owner_id: owner(o),
        kind: ItemKind::Fn {
            sig: fn_sig(),
            generics: generics(),
            body_id: BodyId { hir_id: hir_id(o, 0) },
            body: body(o),
        },
        span: sp(),
        vis_span: sp(),
    }
}

fn module(items: Vec<Item>) -> Mod {
    Mod { spans: ModSpans { inner_span: sp(), inject_use_span: sp() }, items }
}

/// A visitor that takes the default walk everywhere and counts what it sees.
struct Counter {
    bodies: usize,
    items: usize,
    impls: usize,
    exprs: usize,
}

impl Visit for Counter {
    fn visit_mod(&mut self, m: &Mod) {
        visit_mod(self, m)
    }

    fn visit_item(&mut self, i: &Item) {
        self.items += 1;
        visit_item(self, i)
    }

    fn visit_item_kind(&mut self, k: &ItemKind) {
        visit_item_kind(self, k)
    }

    fn visit_body(&mut self, b: &Body) {
        self.bodies += 1;
        visit_body(self, b)
    }

    fn visit_impl(&mut self, i: &Impl) {
        self.impls += 1;
        visit_impl(self, i)
    }

    fn visit_expr(&mut self, e: &Expr) {
        self.exprs += 1;
        visit_expr(self, e)
    }
}

fn counter() -> Counter {
    Counter { bodies: 0, items: 0, impls: 0, exprs: 0 }
}

#[test]
fn default_walk_reaches_each_body_once() {
    let inner = module(vec![fn_item("g", 2)]);
    let m = module(vec![
        fn_item("f", 1),
        Item {
            ident: ident("inner"),
            owner_id: owner(3),
            kind: ItemKind::Mod { module: inner },
            span: sp(),
            vis_span: sp(),
        },
    ]);
    let mut v = counter();
    v.visit_mod(&m);
    assert_eq!(v.bodies, 2);
    assert_eq!(v.items, 3);
    assert_eq!(v.exprs, 2);
}

#[test]
fn overriding_one_kind_leaves_the_rest_of_the_walk_alone() {
    struct BodiesOnly {
        bodies: usize,
    }
    impl Visit for BodiesOnly {
        fn visit_mod(&mut self, m: &Mod) {
            visit_mod(self, m)
        }

        fn visit_item(&mut self, i: &Item) {
            visit_item(self, i)
        }

        fn visit_item_kind(&mut self, k: &ItemKind) {
            visit_item_kind(self, k)
        }

        fn visit_body(&mut self, _b: &Body) {
            self.bodies += 1;
            // override: no recursion into the value expression
        }

        fn visit_impl(&mut self, i: &Impl) {
            visit_impl(self, i)
        }

        fn visit_expr(&mut self, e: &Expr) {
            visit_expr(self, e)
        }
    }
    let m = module(vec![fn_item("f", 1), fn_item("g", 2)]);
    let mut v = BodiesOnly { bodies: 0 };
    v.visit_mod(&m);
    assert_eq!(v.bodies, 2);
}

#[test]
fn dispatch_invokes_the_matching_method() {
    let m = module(vec![fn_item("f", 1)]);
    let mut v = counter();
    m.visit(&mut v);
    assert_eq!(v.bodies, 1);
    let b = body(4);
    b.visit(&mut v);
    assert_eq!(v.bodies, 2);
    let i = fn_item("h", 5);
    i.visit(&mut v);
    assert_eq!(v.bodies, 3);
    assert_eq!(v.items, 2);
}

#[test]
fn impl_blocks_are_visited_but_not_descended_into() {
    let impl_item = Item {
        ident: ident("impl_block"),
        owner_id: owner(7),
        kind: ItemKind::Impl {
            implementation: Impl {
                constness: false,
                safety: false,
                polarity: ImplPolarity::Positive,
                defaultness: Defaultness::Final,
                defaultness_span: None,
                generics: generics(),
                of_trait: None,
                self_ty: infer_ty(7, 2),
                items: vec![],
            },
        },
        span: sp(),
        vis_span: sp(),
    };
    let m = module(vec![impl_item]);
    let mut v = counter();
    v.visit_mod(&m);
    assert_eq!(v.impls, 1);
    assert_eq!(v.bodies, 0);
}
