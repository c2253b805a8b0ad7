//! The syntactic half of the mirror: items, signatures, syntactic type
//! expressions, and the bodies they carry.
//!
//! Each type here is purely structural data — equality and cloning, no
//! behavior — and owns all of its contents, so a mirrored tree can be kept,
//! compared and walked long after the frontend that produced it is gone.
//! Host shapes that the mirror does not yet model keep an intentionally
//! empty variant (for example foreign modules), so the tag set stays closed
//! and traversal stays total.

use vstd::prelude::*;

use crate::ids::BodyId;
use crate::ids::DefId;
use crate::ids::HirId;
use crate::ids::Ident;
use crate::ids::LocalDefId;
use crate::ids::OwnerId;
use crate::ids::Res;
use crate::ids::Span;
use crate::ids::Symbol;

verus! {

/// One top-level definition of the mirrored tree.
#[derive(Debug, PartialEq, Eq)]
pub struct Item {
    pub ident: Ident,
    pub owner_id: OwnerId,
    pub kind: ItemKind,
    pub span: Span,
    pub vis_span: Span,
}

/// The tagged variant that says which shape of item this is; exactly one
/// variant is active per item. `Fn` and `Const` carry both their body and
/// the body's identifying token; `Static` carries only the body.
#[derive(Debug, PartialEq, Eq)]
pub enum ItemKind {
    ExternCrate { symbol: Option<Symbol> },
    Use { path: UsePath, use_kind: UseKind },
    Static { ty: HirTy, constant: bool, body: Body },
    Const { ty: HirTy, generics: Generics, body_id: BodyId, body: Body },
    Fn { sig: FnSig, generics: Generics, body_id: BodyId, body: Body },
    Mod { module: Mod },
    TyAlias { ty: HirTy, generics: Generics },
    Enum { def: EnumDef, generics: Generics },
    Struct { data: VariantData, generics: Generics },
    Union { data: VariantData, generics: Generics },
    Trait {
        field1: bool,
        field2: bool,
        generics: Generics,
        bounds: GenericBounds,
        refs: Vec<TraitItemRef>,
    },
    TraitAlias { generics: Generics, bounds: GenericBounds },
    Impl { implementation: Impl },
    Macro { def: MacroDef, kind: MacroKind },
    ForeignMod,
    GlobalAsm,
}

/// Placeholder for macro definitions; carries no structural detail yet.
#[derive(Debug, Clone, PartialEq, Eq, Structural)]
pub struct MacroDef {}

/// Which kind of macro a macro item defines.
#[derive(Debug, Clone, PartialEq, Eq, Structural)]
pub enum MacroKind {
    Bang,
    Attr,
    Derive,
}

/// The executable or value-producing content of a function, const or
/// static item: its parameters in order, and the value expression.
#[derive(Debug, Clone, PartialEq, Eq)]
pub struct Body {
    pub params: Vec<Param>,
    pub value: Expr,
}

/// One formal parameter of a body.
#[derive(Debug, Clone, PartialEq, Eq)]
pub struct Param {
    pub hir_id: HirId,
    pub pat: Pat,
    pub ty_span: Span,
    pub span: Span,
}

/// A pattern node; the mirror keeps its address and position.
#[derive(Debug, Clone, PartialEq, Eq)]
pub struct Pat {
    pub hir_id: HirId,
    pub span: Span,
}

/// A value expression node; the mirror keeps its address and position.
/// Per-node resolved types are recorded separately, keyed by `hir_id`.
#[derive(Debug, Clone, PartialEq, Eq)]
pub struct Expr {
    pub hir_id: HirId,
    pub span: Span,
}

/// A function signature: header flags plus the declared inputs and output.
#[derive(Debug, PartialEq, Eq)]
pub struct FnSig {
    pub header: FnHeader,
    pub decl: FnDecl,
    pub span: Span,
}

/// The qualifier flags in front of a function.
#[derive(Debug, Clone, PartialEq, Eq, Structural)]
pub struct FnHeader {
    pub safety: bool,
    pub constness: bool,
    pub asyncness: bool,
}

/// A module: its span metadata and its items in source order.
#[derive(Debug, PartialEq, Eq)]
pub struct Mod {
    pub spans: ModSpans,
    pub items: Vec<Item>,
}

/// Position metadata of a module.
#[derive(Debug, Clone, Copy, PartialEq, Eq, Structural)]
pub struct ModSpans {
    pub inner_span: Span,
    pub inject_use_span: Span,
}

/// The variants of an enum definition, in source order.
#[derive(Debug, PartialEq, Eq)]
pub struct EnumDef {
    pub variants: Vec<Variant>,
}

/// One enum variant.
#[derive(Debug, PartialEq, Eq)]
pub struct Variant {
    pub ident: Ident,
    pub hir_id: HirId,
    pub def_id: LocalDefId,
    pub data: VariantData,
    pub disr_expr: Option<AnonConst>,
    pub span: Span,
}

/// The field layout shared by struct and union items and by enum variants:
/// named fields, tuple fields, or none.
#[derive(Debug, PartialEq, Eq)]
pub enum VariantData {
    Struct { fields: Vec<FieldDef>, recovered: bool },
    Tuple(Vec<FieldDef>, HirId, LocalDefId),
    Unit(HirId, LocalDefId),
}

/// One field of a struct, union or enum variant.
#[derive(Debug, PartialEq, Eq)]
pub struct FieldDef {
    pub span: Span,
    pub vis_span: Span,
    pub ident: Ident,
    pub hir_id: HirId,
    pub def_id: LocalDefId,
    pub ty: HirTy,
}

/// A reference from a trait item to one of its associated items.
#[derive(Debug, Clone, PartialEq, Eq)]
pub struct TraitItemRef {
    pub id: TraitItemId,
    pub ident: Ident,
    pub kind: AssocItemKind,
    pub span: Span,
}

/// The identifier of an associated item declared in a trait.
#[derive(Debug, Clone, Copy, PartialEq, Eq, Structural)]
pub struct TraitItemId {
    pub owner_id: OwnerId,
}

/// An impl block: its qualifier flags, the optional trait it implements,
/// the self type, and references to its associated items in order.
#[derive(Debug, PartialEq, Eq)]
pub struct Impl {
    pub constness: bool,
    pub safety: bool,
    pub polarity: ImplPolarity,
    pub defaultness: Defaultness,
    pub defaultness_span: Option<Span>,
    pub generics: Generics,
    pub of_trait: Option<TraitRef>,
    pub self_ty: HirTy,
    pub items: Vec<ImplItemRef>,
}

/// Whether an impl is a positive or a negative implementation.
#[derive(Debug, Clone, PartialEq, Eq)]
pub enum ImplPolarity {
    Positive,
    Negative(Span),
}

/// Whether an associated item is default and whether it has a value.
#[derive(Debug, Clone, PartialEq, Eq, Structural)]
pub enum Defaultness {
    Default { has_value: bool },
    Final,
}

/// A reference from an impl block to one of its associated items.
#[derive(Debug, Clone, PartialEq, Eq)]
pub struct ImplItemRef {
    pub id: ImplItemId,
    pub ident: Ident,
    pub kind: AssocItemKind,
    pub span: Span,
    pub trait_item_def_id: Option<DefId>,
}

/// The identifier of an associated item declared in an impl.
#[derive(Debug, Clone, Copy, PartialEq, Eq, Structural)]
pub struct ImplItemId {
    pub owner_id: OwnerId,
}

/// Which kind of associated item a trait or impl member is.
#[derive(Debug, Clone, PartialEq, Eq, Structural)]
pub enum AssocItemKind {
    Const,
    Fn { has_self: bool },
    Type,
}

/// A syntactic type expression as written in signatures and fields;
/// disjoint from the resolved types recorded for body nodes.
#[derive(Debug, PartialEq, Eq)]
pub struct HirTy {
    pub hir_id: HirId,
    pub kind: Box<HirTyKind>,
    pub span: Span,
}

/// The tagged variant of syntactic type expressions.
#[derive(Debug, PartialEq, Eq)]
pub enum HirTyKind {
    InferDelegation { def_id: DefId, kind: InferDelegationKind },
    Slice { ty: HirTy },
    Array { ty: HirTy, len: ArrayLen },
    Ptr { ty: MutHirTy },
    Ref { lifetime: Lifetime, ty: MutHirTy },
    BareFn { ty: BareFnHirTy },
    Never,
    Tup { tys: Vec<HirTy> },
    AnonAdt { item: Item },
    Path { path: QPath },
    TraitObject {
        refs: Vec<PolyTraitRef>,
        lifetime: Lifetime,
        syntax: TraitObjectSyntax,
    },
    Typeof { constant: AnonConst },
    Infer,
    Error,
    Pat { ty: HirTy, pat: Pat },
    OpaqueDef,
}

/// Where a delegated signature part takes its inferred type from.
#[derive(Debug, Clone, PartialEq, Eq, Structural)]
pub enum InferDelegationKind {
    Input(usize),
    Output,
}

/// The length of an array type: inferred, or given by a const body.
#[derive(Debug, Clone, PartialEq, Eq)]
pub enum ArrayLen {
    Infer(InferArg),
    Body(ConstArg),
}

/// An inferred argument position.
#[derive(Debug, Clone, Copy, PartialEq, Eq, Structural)]
pub struct InferArg {
    pub hir_id: HirId,
    pub span: Span,
}

/// A const argument, given by an anonymous const body.
#[derive(Debug, Clone, Copy, PartialEq, Eq, Structural)]
pub struct ConstArg {
    pub hir_id: HirId,
    pub anon: AnonConst,
}

/// An anonymous const, such as an array length expression.
#[derive(Debug, Clone, Copy, PartialEq, Eq, Structural)]
pub struct AnonConst {
    pub hir_id: HirId,
    pub def_id: LocalDefId,
    pub body: BodyId,
    pub span: Span,
}

/// A pointee type together with its mutability.
#[derive(Debug, PartialEq, Eq)]
pub struct MutHirTy {
    pub ty: HirTy,
    pub mutbl: bool,
}

/// A bare function pointer type.
#[derive(Debug, PartialEq, Eq)]
pub struct BareFnHirTy {
    pub safety: bool,
    pub generic_params: Vec<GenericParam>,
    pub decl: FnDecl,
    pub param_names: Vec<Ident>,
}

/// The declared inputs and output of a function.
#[derive(Debug, PartialEq, Eq)]
pub struct FnDecl {
    pub inputs: Vec<HirTy>,
    pub output: FnRetTy,
    pub c_variadic: bool,
    pub implicit_self: ImplicitSelfKind,
    pub lifetime_elision_allowed: bool,
}

/// A declared return type, or the default unit return.
#[derive(Debug, PartialEq, Eq)]
pub enum FnRetTy {
    DefaultReturn(Span),
    Return(HirTy),
}

/// How a method takes its receiver, or `NoSelf` for a free function.
#[derive(Debug, Clone, PartialEq, Eq, Structural)]
pub enum ImplicitSelfKind {
    Imm,
    Mut,
    RefImm,
    RefMut,
    NoSelf,
}

/// How a trait-object type was written, or `NoSyntax` for a bare path.
#[derive(Debug, Clone, PartialEq, Eq, Structural)]
pub enum TraitObjectSyntax {
    Dyn,
    DynStar,
    NoSyntax,
}

/// The shape of a use-import.
#[derive(Debug, Clone, PartialEq, Eq, Structural)]
pub enum UseKind {
    Single,
    Glob,
    ListStem,
}

/// The path of a use-import, with everything each segment resolved to.
#[derive(Debug, Clone, PartialEq, Eq)]
pub struct UsePath {
    pub span: Span,
    pub res: Vec<Res>,
    pub segments: Vec<Ident>,
}

/// A possibly qualified path written in a type position.
#[derive(Debug, PartialEq, Eq)]
pub enum QPath {
    Resolved { res: Res, segments: Vec<Ident> },
    TypeRelative { ty: HirTy, segment: Ident },
    LangItem,
}

/// The generic parameters a definition declares.
#[derive(Debug, Clone, PartialEq, Eq)]
pub struct Generics {
    pub params: Vec<GenericParam>,
    pub span: Span,
}

/// One declared generic parameter.
#[derive(Debug, Clone, PartialEq, Eq)]
pub struct GenericParam {
    pub hir_id: HirId,
    pub def_id: LocalDefId,
    pub name: Symbol,
    pub span: Span,
}

/// The bounds written on a trait or trait alias.
pub type GenericBounds = Vec<PolyTraitRef>;

/// A trait reference together with its bound generic parameters.
#[derive(Debug, Clone, PartialEq, Eq)]
pub struct PolyTraitRef {
    pub bound_generic_params: Vec<GenericParam>,
    pub trait_ref: TraitRef,
    pub span: Span,
}

/// A reference to a trait from an impl or a bound.
#[derive(Debug, Clone, Copy, PartialEq, Eq, Structural)]
pub struct TraitRef {
    pub def_id: DefId,
    pub hir_ref_id: HirId,
}

/// A lifetime as written.
#[derive(Debug, Clone, PartialEq, Eq)]
pub struct Lifetime {
    pub hir_id: HirId,
    pub ident: Ident,
}

} // verus!
