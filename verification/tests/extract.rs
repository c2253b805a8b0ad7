use key_wrapper::ids::{
    BodyId, DefId, HirId, Ident, ItemLocalId, LocalDefId, OwnerId, Span, Symbol,
};
use key_wrapper::item::{
    Body, Expr, FnDecl, FnHeader, FnRetTy, FnSig, Generics, HirTy, HirTyKind, ImplicitSelfKind,
    Item, ItemKind, Mod, ModSpans, Variant, VariantData,
};
use key_wrapper::ty::{InferTy, IntTy, Ty, TyVid};
use key_wrapper::type_extract::{extract_types, BodyTypes, TypeckTable};
use key_wrapper::type_map::ExtractError;

fn sp() -> Span {
    Span { lo: 0, hi: 0 }
}

fn ident(name: &str) -> Ident {
    Ident { name: Symbol(name.to_string()), span: sp() }
}

fn owner(n: u32) -> OwnerId {
    OwnerId { def_id: LocalDefId { local_def_index: n } }
}

fn hir_id(o: u32, l: u32) -> HirId {
    HirId { owner: owner(o), local_id: ItemLocalId(l) }
}

fn body_id(o: u32) -> BodyId {
    BodyId { hir_id: hir_id(o, 0) }
}

fn body(o: u32) -> Body {
    Body { params: vec![], value: Expr { hir_id: hir_id(o, 1), span: sp() } }
}

fn generics() -> Generics {
    Generics { params: vec![], span: sp() }
}

fn fn_sig() -> FnSig {
    FnSig {
        header: FnHeader { safety: false, constness: false, asyncness: false },
        decl: FnDecl {
            inputs: vec![],
            output: FnRetTy::DefaultReturn(sp()),
            c_variadic: false,
            implicit_self: ImplicitSelfKind::NoSelf,
            lifetime_elision_allowed: false,
        },
        span: sp(),
    }
}

fn infer_ty(o: u32, l: u32) -> HirTy {
    HirTy { hir_id: hir_id(o, l), kind: Box::new(HirTyKind::Infer), span: sp() }
}

fn item(name: &str, o: u32, kind: ItemKind) -> Item {
    Item { ident: ident(name), owner_id: owner(o), kind, span: sp(), vis_span: sp() }
}

fn fn_item(name: &str, o: u32) -> Item {
    let kind = ItemKind::Fn {
        sig: fn_sig(),
        generics: generics(),
        body_id: body_id(o),
        body: body(o),
    };
    item(name, o, kind)
}

fn const_item(name: &str, o: u32) -> Item {
    let kind = ItemKind::Const {
        ty: infer_ty(o, 9),
        generics: generics(),
        body_id: body_id(o),
        body: body(o),
    };
    item(name, o, kind)
}

fn static_item(name: &str, o: u32) -> Item {
    let kind = ItemKind::Static { ty: infer_ty(o, 9), constant: false, body: body(o) };
    item(name, o, kind)
}

fn module(items: Vec<Item>) -> Mod {
    Mod { spans: ModSpans { inner_span: sp(), inject_use_span: sp() }, items }
}

fn table(bodies: Vec<BodyTypes>) -> TypeckTable {
    TypeckTable { bodies }
}

fn results(o: u32, node_types: Vec<(ItemLocalId, Ty)>) -> BodyTypes {
    BodyTypes { body_id: body_id(o), node_types }
}

#[test]
fn one_function_two_typed_subexpressions() {
    let m = module(vec![fn_item("f", 1)]);
    let t = table(vec![results(
        1,
        vec![(ItemLocalId(1), Ty::Bool), (ItemLocalId(2), Ty::Int(IntTy::I32))],
    )]);
    let map = extract_types(&m, t).unwrap();
    assert_eq!(map.len(), 2);
    assert_eq!(map.get(&hir_id(1, 1)), Some(&Ty::Bool));
    assert_eq!(map.get(&hir_id(1, 2)), Some(&Ty::Int(IntTy::I32)));
}

#[test]
fn nested_module_const_keyed_by_const_owner() {
    let inner = module(vec![const_item("c", 2)]);
    let outer = module(vec![item("inner", 1, ItemKind::Mod { module: inner })]);
    let t = table(vec![results(2, vec![(ItemLocalId(5), Ty::Char)])]);
    let map = extract_types(&outer, t).unwrap();
    assert_eq!(map.len(), 1);
    assert_eq!(map.get(&hir_id(2, 5)), Some(&Ty::Char));
    assert_eq!(map.get(&hir_id(1, 5)), None);
}

#[test]
fn body_without_pending_owner_is_fatal() {
    let m = module(vec![static_item("s", 1)]);
    let t = table(vec![results(1, vec![(ItemLocalId(1), Ty::Bool)])]);
    let r = extract_types(&m, t);
    assert_eq!(r.unwrap_err(), ExtractError::MissingPendingOwner);
}

#[test]
fn duplicate_key_is_fatal() {
    let m = module(vec![fn_item("f", 1)]);
    let t = table(vec![results(
        1,
        vec![(ItemLocalId(1), Ty::Bool), (ItemLocalId(1), Ty::Char)],
    )]);
    let r = extract_types(&m, t);
    assert_eq!(r.unwrap_err(), ExtractError::DuplicateKey { id: hir_id(1, 1) });
}

#[test]
fn empty_module_yields_empty_map() {
    let m = module(vec![]);
    let map = extract_types(&m, table(vec![])).unwrap();
    assert_eq!(map.len(), 0);
}

#[test]
fn body_without_table_entry_contributes_nothing() {
    let m = module(vec![fn_item("f", 1)]);
    let map = extract_types(&m, table(vec![])).unwrap();
    assert_eq!(map.len(), 0);
}

#[test]
fn sibling_items_processed_in_source_order() {
    let m = module(vec![fn_item("f", 1), fn_item("g", 2)]);
    let t = table(vec![
        results(2, vec![(ItemLocalId(3), Ty::Char)]),
        results(1, vec![(ItemLocalId(3), Ty::Bool)]),
    ]);
    let map = extract_types(&m, t).unwrap();
    assert_eq!(map.len(), 2);
    assert_eq!(map.get(&hir_id(1, 3)), Some(&Ty::Bool));
    assert_eq!(map.get(&hir_id(2, 3)), Some(&Ty::Char));
}

#[test]
fn rewalk_of_identical_mirrors_yields_equal_maps() {
    let build = || {
        let m = module(vec![fn_item("f", 1), const_item("c", 2)]);
        let t = table(vec![
            results(1, vec![(ItemLocalId(1), Ty::Bool), (ItemLocalId(2), Ty::Str)]),
            results(2, vec![(ItemLocalId(1), Ty::Int(IntTy::I64))]),
        ]);
        (m, t)
    };
    let (m1, t1) = build();
    let (m2, t2) = build();
    let map1 = extract_types(&m1, t1).unwrap();
    let map2 = extract_types(&m2, t2).unwrap();
    assert_eq!(map1.len(), map2.len());
    assert_eq!(map1.get(&hir_id(1, 1)), map2.get(&hir_id(1, 1)));
    assert_eq!(map1.get(&hir_id(1, 2)), map2.get(&hir_id(1, 2)));
    assert_eq!(map1.get(&hir_id(2, 1)), map2.get(&hir_id(2, 1)));
    assert_eq!(map1, map2);
}

#[test]
fn items_without_bodies_are_left_alone() {
    let enum_item = item(
        "e",
        3,
        ItemKind::Enum {
            def: key_wrapper::item::EnumDef {
                variants: vec![Variant {
                    ident: ident("v"),
                    hir_id: hir_id(3, 1),
                    def_id: LocalDefId { local_def_index: 4 },
                    data: VariantData::Unit(hir_id(3, 2), LocalDefId { local_def_index: 5 }),
                    disr_expr: None,
                    span: sp(),
                }],
            },
            generics: generics(),
        },
    );
    let use_item = item("u", 6, ItemKind::ExternCrate { symbol: None });
    let m = module(vec![enum_item, use_item]);
    let map = extract_types(&m, table(vec![])).unwrap();
    assert_eq!(map.len(), 0);
}

#[test]
fn inference_variables_are_recorded_as_reported() {
    let m = module(vec![fn_item("f", 1)]);
    let t = table(vec![results(1, vec![(ItemLocalId(1), Ty::Infer(InferTy::TyVar(TyVid(0))))])]);
    let map = extract_types(&m, t).unwrap();
    assert_eq!(map.get(&hir_id(1, 1)), Some(&Ty::Infer(InferTy::TyVar(TyVid(0)))));
}

#[test]
fn error_stops_later_bodies_from_being_recorded() {
    let m = module(vec![static_item("s", 1), fn_item("f", 2)]);
    let t = table(vec![results(2, vec![(ItemLocalId(1), Ty::Bool)])]);
    let r = extract_types(&m, t);
    assert_eq!(r.unwrap_err(), ExtractError::MissingPendingOwner);
}

#[test]
fn foreign_def_ids_survive_in_recorded_types() {
    let m = module(vec![fn_item("f", 1)]);
    let foreign = Ty::Foreign(DefId { krate: 7, index: 9 });
    let t = table(vec![results(1, vec![(ItemLocalId(4), foreign)])]);
    let map = extract_types(&m, t).unwrap();
    assert_eq!(map.get(&hir_id(1, 4)), Some(&Ty::Foreign(DefId { krate: 7, index: 9 })));
}
