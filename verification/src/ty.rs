//! The semantic half of the mirror: resolved types as the type-checker
//! reports them, and the algebraic-data-type metadata they refer to.
//!
//! [`Ty`] is disjoint from the syntactic type expressions of signatures: it
//! mirrors what the host resolved a node to. The `Infer` and `Error`
//! variants exist only transiently; a fully elaborated extraction result
//! for a successfully checked body contains neither (see the laws module).

use vstd::prelude::*;

use crate::ids::DefId;
use crate::ids::Symbol;
use crate::item::FieldDef;
use crate::item::FnHeader;

verus! {

/// A resolved type.
#[derive(Debug, PartialEq, Eq)]
pub enum Ty {
    Bool,
    Char,
    Int(IntTy),
    Uint(UintTy),
    Float(FloatTy),
    Adt(AdtDef, Vec<GenericArg>),
    Foreign(DefId),
    Str,
    Array(Box<Ty>, Box<Const>),
    Pat(Box<Ty>, Box<Pattern>),
    Slice(Box<Ty>),
    RawPtr(Box<Ty>, bool),
    Ref(Box<Ty>, bool),
    FnDef(DefId, Vec<GenericArg>),
    FnPtr(Binder<FnSigTys>, FnHeader),
    Dynamic(Vec<Binder<ExistentialPredicate>>, DynKind),
    Closure(DefId, Vec<GenericArg>),
    CoroutineClosure(DefId, Vec<GenericArg>),
    Coroutine(DefId, Vec<GenericArg>),
    CoroutineWitness(DefId, Vec<GenericArg>),
    Never,
    Tuple(Vec<Box<Ty>>),
    Alias(AliasTyKind, AliasTy),
    Param(ParamTy),
    Bound(DebruijnIndex, BoundTy),
    Placeholder(Placeholder<BoundTy>),
    Infer(InferTy),
    Error,
}

/// The signed integer kinds.
#[derive(Debug, Clone, Copy, PartialEq, Eq, Structural)]
pub enum IntTy {
    Isize,
    I8,
    I16,
    I32,
    I64,
    I128,
}

/// The unsigned integer kinds.
#[derive(Debug, Clone, Copy, PartialEq, Eq, Structural)]
pub enum UintTy {
    Usize,
    U8,
    U16,
    U32,
    U64,
    U128,
}

/// The floating-point kinds, as tags only.
#[derive(Debug, Clone, Copy, PartialEq, Eq, Structural)]
pub enum FloatTy {
    F16,
    F32,
    F64,
    F128,
}

/// One generic argument of a resolved type.
#[derive(Debug, PartialEq, Eq)]
pub enum GenericArg {
    Type(Box<Ty>),
    Const(Box<Const>),
    Lifetime,
}

/// A full generic argument list.
pub type GenericArgs = Vec<GenericArg>;

/// The definition of an algebraic data type: its definition handle, its
/// variants keyed by index, and its flags. A well-formed definition maps
/// each variant index at most once ([`adt_def_wf`]).
#[derive(Debug, PartialEq, Eq)]
pub struct AdtDef {
    pub did: DefId,
    pub variants: Vec<(VariantIdx, VariantDef)>,
    pub flags: AdtFlags,
}

/// Well-formedness of an ADT definition: no variant index appears twice.
pub open spec fn adt_def_wf(d: AdtDef) -> bool {
    forall|i: int, j: int|
        0 <= i < j < d.variants@.len() ==> d.variants@[i].0 != d.variants@[j].0
}

/// Packed property flags of an ADT definition.
#[derive(Debug, Clone, Copy, PartialEq, Eq, Structural)]
pub struct AdtFlags(pub u16);

/// The position of a variant within its ADT.
#[derive(Debug, Clone, Copy, PartialEq, Eq, Structural, Hash)]
pub struct VariantIdx(pub u32);

/// One variant of an ADT: its fields keyed by index, an optional
/// constructor, and its discriminant. A well-formed variant maps each
/// field index at most once ([`variant_def_wf`]).
#[derive(Debug, PartialEq, Eq)]
pub struct VariantDef {
    pub def_id: DefId,
    pub ctor: Option<(CtorKind, DefId)>,
    pub name: Symbol,
    pub discr: VariantDiscr,
    pub fields: Vec<(FieldIdx, FieldDef)>,
    pub tainted: bool,
}

/// Well-formedness of a variant definition: no field index appears twice.
pub open spec fn variant_def_wf(v: VariantDef) -> bool {
    forall|i: int, j: int|
        0 <= i < j < v.fields@.len() ==> v.fields@[i].0 != v.fields@[j].0
}

/// The position of a field within its variant.
#[derive(Debug, Clone, Copy, PartialEq, Eq, Structural, Hash)]
pub struct FieldIdx(pub u32);

/// Which kind of constructor a variant has.
#[derive(Debug, Clone, Copy, PartialEq, Eq, Structural)]
pub enum CtorKind {
    Fn,
    Const,
}

/// A variant's discriminant: an explicit value, or an offset relative to
/// the previous variant.
#[derive(Debug, Clone, Copy, PartialEq, Eq, Structural)]
pub enum VariantDiscr {
    Explicit(DefId),
    Relative(u32),
}

/// A resolved const value or const expression.
#[derive(Debug, PartialEq, Eq)]
pub enum Const {
    Param(ParamConst),
    Infer(InferConst),
    Bound(DebruijnIndex, BoundVar),
    Placeholder(Placeholder<BoundVar>),
    Unevaluated(UnevaluatedConst),
    Value(Box<Ty>, ValTree),
    Error,
    Expr(ConstExpr),
}

/// A const generic parameter in value position.
#[derive(Debug, Clone, PartialEq, Eq)]
pub struct ParamConst {
    pub index: u32,
    pub name: Symbol,
}

/// A not-yet-resolved const.
#[derive(Debug, Clone, Copy, PartialEq, Eq, Structural)]
pub enum InferConst {
    Var(ConstVid),
    EffectVar(EffectVid),
    Fresh(u32),
}

/// A const inference variable.
#[derive(Debug, Clone, Copy, PartialEq, Eq, Structural)]
pub struct ConstVid(pub u32);

/// A symbolic const expression.
#[derive(Debug, PartialEq, Eq)]
pub struct ConstExpr {
    pub kind: ConstExprKind,
    pub args: Vec<GenericTyArgKind>,
}

/// The operator shape of a symbolic const expression.
#[derive(Debug, Clone, Copy, PartialEq, Eq, Structural)]
pub enum ConstExprKind {
    Binop(BinOp),
    UnOp(UnOp),
    FunctionCall,
    Cast(CastKind),
}

/// A binary operator.
#[derive(Debug, Clone, Copy, PartialEq, Eq, Structural)]
pub enum BinOp {
    Add,
    Sub,
    Mul,
    Div,
    Rem,
    BitXor,
    BitAnd,
    BitOr,
    Shl,
    Shr,
    Eq,
    Lt,
    Le,
    Ne,
    Ge,
    Gt,
}

/// A unary operator.
#[derive(Debug, Clone, Copy, PartialEq, Eq, Structural)]
pub enum UnOp {
    Deref,
    Not,
    Neg,
}

/// Which kind of cast a const expression performs.
#[derive(Debug, Clone, Copy, PartialEq, Eq, Structural)]
pub enum CastKind {
    As,
    Use,
}

/// An effect inference variable.
#[derive(Debug, Clone, Copy, PartialEq, Eq, Structural)]
pub struct EffectVid(pub u32);

/// A bound variable, counted by position.
#[derive(Debug, Clone, Copy, PartialEq, Eq, Structural)]
pub struct BoundVar(pub u32);

/// A const that has not been evaluated yet.
#[derive(Debug, PartialEq, Eq)]
pub struct UnevaluatedConst {
    pub def: DefId,
    pub args: GenericArgs,
}

/// An evaluated const value, as a tree of scalar leaves.
#[derive(Debug, PartialEq, Eq)]
pub enum ValTree {
    Leaf(ScalarInt),
    Branch(Vec<ValTree>),
}

/// A scalar constant: its raw bits and its width in bytes. A well-formed
/// scalar has a nonzero width ([`scalar_int_wf`]).
#[derive(Debug, Clone, Copy, PartialEq, Eq, Structural)]
pub struct ScalarInt {
    pub data: u128,
    pub size: u8,
}

/// Well-formedness of a scalar constant: the width is at least one byte.
pub open spec fn scalar_int_wf(s: ScalarInt) -> bool {
    s.size >= 1
}

/// A pattern refining a pattern type.
#[derive(Debug, PartialEq, Eq)]
pub enum Pattern {
    Range { start: Option<Const>, end: Option<Const>, include_end: bool },
}

/// A value together with the variables bound around it.
#[derive(Debug, PartialEq, Eq)]
pub struct Binder<T> {
    pub value: T,
    pub bound_vars: Vec<BoundVarKind>,
}

/// What kind of variable a binder binds.
#[derive(Debug, Clone, PartialEq, Eq)]
pub enum BoundVarKind {
    Ty(BoundTyKind),
    Region(BoundRegionKind),
    Const,
}

/// What a bound type variable stands for.
#[derive(Debug, Clone, PartialEq, Eq)]
pub enum BoundTyKind {
    Anon,
    Param(DefId, Symbol),
}

/// What a bound region variable stands for.
#[derive(Debug, Clone, PartialEq, Eq)]
pub enum BoundRegionKind {
    BrAnon,
    BrNamed(DefId, Symbol),
    BrEnv,
}

/// The input and output types of a function signature, output last.
#[derive(Debug, PartialEq, Eq)]
pub struct FnSigTys {
    pub inputs_and_output: Vec<Ty>,
}

/// One predicate of a trait-object type.
#[derive(Debug, PartialEq, Eq)]
pub enum ExistentialPredicate {
    Trait(ExistentialTraitRef),
    Projection(ExistentialProjection),
    AutoTrait(DefId),
}

/// A trait reference with the self type erased.
#[derive(Debug, PartialEq, Eq)]
pub struct ExistentialTraitRef {
    pub def_id: DefId,
    pub args: GenericArgs,
}

/// An associated-type binding with the self type erased.
#[derive(Debug, PartialEq, Eq)]
pub struct ExistentialProjection {
    pub def_id: DefId,
    pub args: Vec<GenericArg>,
    pub term: Term,
}

/// The right-hand side of an associated binding: a type or a const.
#[derive(Debug, PartialEq, Eq)]
pub enum Term {
    Ty(Box<Ty>),
    Const(Box<Const>),
}

/// How a trait object is dispatched.
#[derive(Debug, Clone, Copy, PartialEq, Eq, Structural)]
pub enum DynKind {
    Dyn,
    DynStar,
}

/// Which kind of alias type an alias is.
#[derive(Debug, Clone, Copy, PartialEq, Eq, Structural)]
pub enum AliasTyKind {
    Projection,
    Inherent,
    Opaque,
    Weak,
}

/// An alias type: its definition and its arguments.
#[derive(Debug, PartialEq, Eq)]
pub struct AliasTy {
    pub args: Vec<GenericTyArgKind>,
    pub def_id: DefId,
}

/// A generic argument restricted to types and consts.
#[derive(Debug, PartialEq, Eq)]
pub enum GenericTyArgKind {
    Type(Box<Ty>),
    Const(Box<Const>),
}

/// A type generic parameter in type position.
#[derive(Debug, Clone, PartialEq, Eq)]
pub struct ParamTy {
    pub index: u32,
    pub name: Symbol,
}

/// How many binders out a bound variable refers.
#[derive(Debug, Clone, Copy, PartialEq, Eq, Structural)]
pub struct DebruijnIndex(pub u32);

/// A bound type variable.
#[derive(Debug, Clone, PartialEq, Eq)]
pub struct BoundTy {
    pub var: BoundVar,
    pub kind: BoundTyKind,
}

/// A bound variable lifted out of its binder into a universe.
#[derive(Debug, Clone, PartialEq, Eq)]
pub struct Placeholder<T> {
    pub universe: UniverseIndex,
    pub bound: T,
}

/// The universe a placeholder lives in.
#[derive(Debug, Clone, Copy, PartialEq, Eq, Structural)]
pub struct UniverseIndex(pub u32);

/// A not-yet-resolved type: the inference-variable variants.
#[derive(Debug, Clone, Copy, PartialEq, Eq, Structural)]
pub enum InferTy {
    TyVar(TyVid),
    IntVar(IntVid),
    FloatVar(FloatVid),
    FreshTy(u32),
    FreshIntTy(u32),
    FreshFloatTy(u32),
}

/// A type inference variable.
#[derive(Debug, Clone, Copy, PartialEq, Eq, Structural)]
pub struct TyVid(pub u32);

/// An integer-kind inference variable.
#[derive(Debug, Clone, Copy, PartialEq, Eq, Structural)]
pub struct IntVid(pub u32);

/// A float-kind inference variable.
#[derive(Debug, Clone, Copy, PartialEq, Eq, Structural)]
pub struct FloatVid(pub u32);

/// Whether a resolved type is an inference variable or the error sentinel.
/// Such types appear only transiently while the host is still checking.
pub open spec fn ty_is_infer_or_error(t: Ty) -> bool {
    t is Infer || t is Error
}

} // verus!
