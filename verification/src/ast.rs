//! The syntax model the analysis works on: the shapes of types, generic
//! parameters, where-predicates and function signatures that the engine
//! inspects, together with their mathematical views.
//!
//! Each executable type has a mirror view type (suffix `V`) whose text fields
//! are `Seq<char>` and whose lists are `Seq`, reached through `DeepView`.

use vstd::prelude::*;

verus! {

/// A lifetime name: written by the author, or synthesized to replace an
/// elided lifetime. Synthesized names are numbered and never collide with
/// each other.
#[derive(Debug, Clone, PartialEq, Eq)]
pub enum LifetimeName {
    User(String),
    Synthesized(usize),
}

/// A lifetime position in a type as written: either elided or named.
#[derive(Debug, Clone, PartialEq, Eq)]
pub enum LifetimeRef {
    Elided,
    Named(LifetimeName),
}

/// One bound usable on a type parameter or an `impl Trait` type: a trait
/// path, or an outlives constraint.
#[derive(Debug, Clone, PartialEq, Eq)]
pub enum TypeParamBound {
    Trait { path: Vec<String> },
    Outlives { lifetime: LifetimeName },
}

/// One segment of a type path, with any lifetime arguments and with the
/// identifiers of simple type arguments.
#[derive(Debug, Clone, PartialEq, Eq)]
pub struct PathSegment {
    pub ident: String,
    pub lifetime_args: Vec<LifetimeRef>,
    pub type_arg_idents: Vec<String>,
}

/// A path type, such as `D`, `crate::App`, or `::lib::Impl<T>`.
#[derive(Debug, Clone, PartialEq, Eq)]
pub struct TypePath {
    pub qself: bool,
    pub leading_colon: bool,
    pub segments: Vec<PathSegment>,
}

/// The type forms the analysis distinguishes. Anything else is carried
/// opaquely as `Verbatim` and classified as a concrete type.
#[derive(Debug, PartialEq, Eq)]
pub enum TypeExpr {
    Reference { lifetime: LifetimeRef, mutable: bool, elem: Box<TypeExpr> },
    Paren { elem: Box<TypeExpr> },
    ImplTrait { bounds: Vec<TypeParamBound> },
    Path { path: TypePath },
    Unit,
    Verbatim { text: String },
    /// The synthesized reference to a per-function associated future type,
    /// `Self::Fut<ordinal><lifetimes>`; appears only in converted output.
    SelfFuture { ordinal: usize, lifetimes: Vec<LifetimeName> },
}

/// One generic parameter of a function or trait.
#[derive(Debug, Clone, PartialEq, Eq)]
pub enum GenericParam {
    Lifetime { name: LifetimeName },
    Type { ident: String, bounds: Vec<TypeParamBound> },
    Const { ident: String },
}

/// One predicate of a where-clause.
#[derive(Debug, PartialEq, Eq)]
pub enum WherePredicate {
    Type { bounded_ty: TypeExpr, bounds: Vec<TypeParamBound> },
    Lifetime { lifetime: LifetimeName, bounds: Vec<LifetimeName> },
}

/// A where-clause that is present (possibly with an empty predicate list,
/// which normalization removes).
#[derive(Debug, PartialEq, Eq)]
pub struct WhereClause {
    pub predicates: Vec<WherePredicate>,
}

/// The generic parameter list and where-clause of a function or trait.
#[derive(Debug, PartialEq, Eq)]
pub struct Generics {
    pub params: Vec<GenericParam>,
    pub where_clause: Option<WhereClause>,
}

/// A parameter pattern: a simple bindable name, or anything else. Patterns
/// that are not simple identifiers cannot be re-cited by a delegating call.
#[derive(Debug, Clone, PartialEq, Eq)]
pub enum ArgPat {
    Ident(String),
    Other,
}

/// A parameter: a `self` receiver, or a typed pattern.
#[derive(Debug, PartialEq, Eq)]
pub enum ParamKind {
    Receiver { reference: bool, lifetime: LifetimeRef, mutable: bool },
    Typed { pat: ArgPat, ty: TypeExpr },
}

/// One parameter with its source location.
#[derive(Debug, PartialEq, Eq)]
pub struct FnParam {
    pub span: usize,
    pub kind: ParamKind,
}

/// A return type: absent (the unit type) or written.
#[derive(Debug, PartialEq, Eq)]
pub enum ReturnType {
    Default,
    Ty(TypeExpr),
}

/// A function signature, the immutable input unit of one analysis. The
/// engine never mutates an input signature; it derives new structures.
#[derive(Debug, PartialEq, Eq)]
pub struct FnSignature {
    pub span: usize,
    pub ident: String,
    pub is_async: bool,
    pub generics: Generics,
    pub params: Vec<FnParam>,
    pub output: ReturnType,
}

// ------------------------------------------------------------------
// View types
// ------------------------------------------------------------------

#[verifier::ext_equal]
pub enum LifetimeNameV {
    User(Seq<char>),
    Synthesized(usize),
}

#[verifier::ext_equal]
pub enum LifetimeRefV {
    Elided,
    Named(LifetimeNameV),
}

#[verifier::ext_equal]
pub enum TypeParamBoundV {
    Trait { path: Seq<Seq<char>> },
    Outlives { lifetime: LifetimeNameV },
}

#[verifier::ext_equal]
pub struct PathSegmentV {
    pub ident: Seq<char>,
    pub lifetime_args: Seq<LifetimeRefV>,
    pub type_arg_idents: Seq<Seq<char>>,
}

#[verifier::ext_equal]
pub struct TypePathV {
    pub qself: bool,
    pub leading_colon: bool,
    pub segments: Seq<PathSegmentV>,
}

#[verifier::ext_equal]
pub enum TypeExprV {
    Reference { lifetime: LifetimeRefV, mutable: bool, elem: Box<TypeExprV> },
    Paren { elem: Box<TypeExprV> },
    ImplTrait { bounds: Seq<TypeParamBoundV> },
    Path { path: TypePathV },
    Unit,
    Verbatim { text: Seq<char> },
    SelfFuture { ordinal: usize, lifetimes: Seq<LifetimeNameV> },
}

#[verifier::ext_equal]
pub enum GenericParamV {
    Lifetime { name: LifetimeNameV },
    Type { ident: Seq<char>, bounds: Seq<TypeParamBoundV> },
    Const { ident: Seq<char> },
}

#[verifier::ext_equal]
pub enum WherePredicateV {
    Type { bounded_ty: TypeExprV, bounds: Seq<TypeParamBoundV> },
    Lifetime { lifetime: LifetimeNameV, bounds: Seq<LifetimeNameV> },
}

#[verifier::ext_equal]
pub struct WhereClauseV {
    pub predicates: Seq<WherePredicateV>,
}

#[verifier::ext_equal]
pub struct GenericsV {
    pub params: Seq<GenericParamV>,
    pub where_clause: Option<WhereClauseV>,
}

#[verifier::ext_equal]
pub enum ArgPatV {
    Ident(Seq<char>),
    Other,
}

#[verifier::ext_equal]
pub enum ParamKindV {
    Receiver { reference: bool, lifetime: LifetimeRefV, mutable: bool },
    Typed { pat: ArgPatV, ty: TypeExprV },
}

#[verifier::ext_equal]
pub struct FnParamV {
    pub span: usize,
    pub kind: ParamKindV,
}

#[verifier::ext_equal]
pub enum ReturnTypeV {
    Default,
    Ty(TypeExprV),
}

#[verifier::ext_equal]
pub struct FnSignatureV {
    pub span: usize,
    pub ident: Seq<char>,
    pub is_async: bool,
    pub generics: GenericsV,
    pub params: Seq<FnParamV>,
    pub output: ReturnTypeV,
}

// ------------------------------------------------------------------
// DeepView implementations
// ------------------------------------------------------------------

impl DeepView for LifetimeName {
    type V = LifetimeNameV;

    open spec fn deep_view(&self) -> LifetimeNameV {
        match self {
            LifetimeName::User(s) => LifetimeNameV::User(s@),
            LifetimeName::Synthesized(n) => LifetimeNameV::Synthesized(*n),
        }
    }
}

impl DeepView for LifetimeRef {
    type V = LifetimeRefV;

    open spec fn deep_view(&self) -> LifetimeRefV {
        match self {
            LifetimeRef::Elided => LifetimeRefV::Elided,
            LifetimeRef::Named(n) => LifetimeRefV::Named(n.deep_view()),
        }
    }
}

impl DeepView for TypeParamBound {
    type V = TypeParamBoundV;

    open spec fn deep_view(&self) -> TypeParamBoundV {
        match self {
            TypeParamBound::Trait { path } => TypeParamBoundV::Trait { path: path.deep_view() },
            TypeParamBound::Outlives { lifetime } => TypeParamBoundV::Outlives {
                lifetime: lifetime.deep_view(),
            },
        }
    }
}

impl DeepView for PathSegment {
    type V = PathSegmentV;

    open spec fn deep_view(&self) -> PathSegmentV {
        PathSegmentV {
            ident: self.ident@,
            lifetime_args: self.lifetime_args.deep_view(),
            type_arg_idents: self.type_arg_idents.deep_view(),
        }
    }
}

impl DeepView for TypePath {
    type V = TypePathV;

    open spec fn deep_view(&self) -> TypePathV {
        TypePathV {
            qself: self.qself,
            leading_colon: self.leading_colon,
            segments: self.segments.deep_view(),
        }
    }
}

/// The view of a type expression; recursive through reference and
/// parenthesis wrappers.
pub open spec fn view_type(t: TypeExpr) -> TypeExprV
    decreases t,
{
    match t {
        TypeExpr::Reference { lifetime, mutable, elem } => TypeExprV::Reference {
            lifetime: lifetime.deep_view(),
            mutable,
            elem: Box::new(view_type(*elem)),
        },
        TypeExpr::Paren { elem } => TypeExprV::Paren { elem: Box::new(view_type(*elem)) },
        TypeExpr::ImplTrait { bounds } => TypeExprV::ImplTrait { bounds: bounds.deep_view() },
        TypeExpr::Path { path } => TypeExprV::Path { path: path.deep_view() },
        TypeExpr::Unit => TypeExprV::Unit,
        TypeExpr::Verbatim { text } => TypeExprV::Verbatim { text: text@ },
        TypeExpr::SelfFuture { ordinal, lifetimes } => TypeExprV::SelfFuture {
            ordinal,
            lifetimes: lifetimes.deep_view(),
        },
    }
}

impl DeepView for TypeExpr {
    type V = TypeExprV;

    open spec fn deep_view(&self) -> TypeExprV {
        view_type(*self)
    }
}

impl DeepView for GenericParam {
    type V = GenericParamV;

    open spec fn deep_view(&self) -> GenericParamV {
        match self {
            GenericParam::Lifetime { name } => GenericParamV::Lifetime { name: name.deep_view() },
            GenericParam::Type { ident, bounds } => GenericParamV::Type {
                ident: ident@,
                bounds: bounds.deep_view(),
            },
            GenericParam::Const { ident } => GenericParamV::Const { ident: ident@ },
        }
    }
}

impl DeepView for WherePredicate {
    type V = WherePredicateV;

    open spec fn deep_view(&self) -> WherePredicateV {
        match self {
            WherePredicate::Type { bounded_ty, bounds } => WherePredicateV::Type {
                bounded_ty: bounded_ty.deep_view(),
                bounds: bounds.deep_view(),
            },
            WherePredicate::Lifetime { lifetime, bounds } => WherePredicateV::Lifetime {
                lifetime: lifetime.deep_view(),
                bounds: bounds.deep_view(),
            },
        }
    }
}

impl DeepView for WhereClause {
    type V = WhereClauseV;

    open spec fn deep_view(&self) -> WhereClauseV {
        WhereClauseV { predicates: self.predicates.deep_view() }
    }
}

impl DeepView for Generics {
    type V = GenericsV;

    open spec fn deep_view(&self) -> GenericsV {
        GenericsV { params: self.params.deep_view(), where_clause: self.where_clause.deep_view() }
    }
}

impl DeepView for ArgPat {
    type V = ArgPatV;

    open spec fn deep_view(&self) -> ArgPatV {
        match self {
            ArgPat::Ident(s) => ArgPatV::Ident(s@),
            ArgPat::Other => ArgPatV::Other,
        }
    }
}

impl DeepView for ParamKind {
    type V = ParamKindV;

    open spec fn deep_view(&self) -> ParamKindV {
        match self {
            ParamKind::Receiver { reference, lifetime, mutable } => ParamKindV::Receiver {
                reference: *reference,
                lifetime: lifetime.deep_view(),
                mutable: *mutable,
            },
            ParamKind::Typed { pat, ty } => ParamKindV::Typed {
                pat: pat.deep_view(),
                ty: ty.deep_view(),
            },
        }
    }
}

impl DeepView for FnParam {
    type V = FnParamV;

    open spec fn deep_view(&self) -> FnParamV {
        FnParamV { span: self.span, kind: self.kind.deep_view() }
    }
}

impl DeepView for ReturnType {
    type V = ReturnTypeV;

    open spec fn deep_view(&self) -> ReturnTypeV {
        match self {
            ReturnType::Default => ReturnTypeV::Default,
            ReturnType::Ty(t) => ReturnTypeV::Ty(t.deep_view()),
        }
    }
}

impl DeepView for FnSignature {
    type V = FnSignatureV;

    open spec fn deep_view(&self) -> FnSignatureV {
        FnSignatureV {
            span: self.span,
            ident: self.ident@,
            is_async: self.is_async,
            generics: self.generics.deep_view(),
            params: self.params.deep_view(),
            output: self.output.deep_view(),
        }
    }
}

} // verus!
