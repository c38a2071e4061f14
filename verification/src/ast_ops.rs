//! Structural operations on the syntax model: equality decided against the
//! view types, and duplication that provably preserves the view. The engine
//! never mutates an input signature, so every derived structure is built
//! through these.

use vstd::prelude::*;

use crate::ast::{
    ArgPat, FnParam, GenericParam, Generics, LifetimeName, LifetimeRef, ParamKind, PathSegment,
    ReturnType, TypeExpr, TypeParamBound, TypePath, WhereClause, WherePredicate,
};

verus! {

/// Equality of identifiers, decided by their views.
pub fn string_eq(a: &String, b: &String) -> (r: bool)
    ensures
        r == (a@ == b@),
{
    *a == *b
}

/// Equality of lifetime names, decided by their views.
pub fn lifetime_name_eq(a: &LifetimeName, b: &LifetimeName) -> (r: bool)
    ensures
        r == (a.deep_view() == b.deep_view()),
{
    match (a, b) {
        (LifetimeName::User(x), LifetimeName::User(y)) => string_eq(x, y),
        (LifetimeName::Synthesized(x), LifetimeName::Synthesized(y)) => x == y,
        _ => false,
    }
}

/// Equality of identifier lists, decided by their views.
pub fn strings_eq(a: &Vec<String>, b: &Vec<String>) -> (r: bool)
    ensures
        r == (a.deep_view() == b.deep_view()),
{
    if a.len() != b.len() {
        assert(a.deep_view().len() != b.deep_view().len());
        return false;
    }
    let mut i: usize = 0;
    while i < a.len()
        invariant
            i <= a.len(),
            a.len() == b.len(),
            forall|j: int| 0 <= j < i ==> a@[j]@ == b@[j]@,
        decreases a.len() - i,
    {
        if !string_eq(&a[i], &b[i]) {
            assert(a.deep_view()[i as int] != b.deep_view()[i as int]);
            return false;
        }
        i = i + 1;
    }
    proof {
        assert(a.deep_view() =~= b.deep_view());
    }
    true
}

/// Equality of single bounds, decided by their views.
pub fn bound_eq(a: &TypeParamBound, b: &TypeParamBound) -> (r: bool)
    ensures
        r == (a.deep_view() == b.deep_view()),
{
    match (a, b) {
        (TypeParamBound::Trait { path: pa }, TypeParamBound::Trait { path: pb }) => {
            strings_eq(pa, pb)
        },
        (TypeParamBound::Outlives { lifetime: la }, TypeParamBound::Outlives { lifetime: lb }) => {
            lifetime_name_eq(la, lb)
        },
        _ => false,
    }
}

/// Equality of bound lists, decided by their views.
pub fn bounds_eq(a: &Vec<TypeParamBound>, b: &Vec<TypeParamBound>) -> (r: bool)
    ensures
        r == (a.deep_view() == b.deep_view()),
{
    if a.len() != b.len() {
        assert(a.deep_view().len() != b.deep_view().len());
        return false;
    }
    let mut i: usize = 0;
    while i < a.len()
        invariant
            i <= a.len(),
            a.len() == b.len(),
            forall|j: int| 0 <= j < i ==> a@[j].deep_view() == b@[j].deep_view(),
        decreases a.len() - i,
    {
        if !bound_eq(&a[i], &b[i]) {
            assert(a.deep_view()[i as int] != b.deep_view()[i as int]);
            return false;
        }
        i = i + 1;
    }
    proof {
        assert(a.deep_view() =~= b.deep_view());
    }
    true
}

/// Structural equality of generic parameters, decided by their views. This
/// is the key the accumulator dedupes on.
pub fn generic_param_eq(a: &GenericParam, b: &GenericParam) -> (r: bool)
    ensures
        r == (a.deep_view() == b.deep_view()),
{
    match (a, b) {
        (GenericParam::Lifetime { name: na }, GenericParam::Lifetime { name: nb }) => {
            lifetime_name_eq(na, nb)
        },
        (
            GenericParam::Type { ident: ia, bounds: ba },
            GenericParam::Type { ident: ib, bounds: bb },
        ) => string_eq(ia, ib) && bounds_eq(ba, bb),
        (GenericParam::Const { ident: ia }, GenericParam::Const { ident: ib }) => string_eq(
            ia,
            ib,
        ),
        _ => false,
    }
}

// ------------------------------------------------------------------
// Duplication
// ------------------------------------------------------------------

/// Duplicates a lifetime name, preserving its view.
pub fn duplicate_lifetime_name(a: &LifetimeName) -> (r: LifetimeName)
    ensures
        r.deep_view() == a.deep_view(),
{
    match a {
        LifetimeName::User(s) => LifetimeName::User(s.clone()),
        LifetimeName::Synthesized(n) => LifetimeName::Synthesized(*n),
    }
}

/// Duplicates a lifetime position, preserving its view.
pub fn duplicate_lifetime_ref(a: &LifetimeRef) -> (r: LifetimeRef)
    ensures
        r.deep_view() == a.deep_view(),
{
    match a {
        LifetimeRef::Elided => LifetimeRef::Elided,
        LifetimeRef::Named(n) => LifetimeRef::Named(duplicate_lifetime_name(n)),
    }
}

/// Duplicates an identifier list, preserving its view.
pub fn duplicate_strings(a: &Vec<String>) -> (r: Vec<String>)
    ensures
        r.deep_view() == a.deep_view(),
{
    let mut out: Vec<String> = Vec::new();
    let mut i: usize = 0;
    while i < a.len()
        invariant
            i <= a.len(),
            out@.len() == i,
            forall|j: int| 0 <= j < i ==> out@[j]@ == a@[j]@,
        decreases a.len() - i,
    {
        out.push(a[i].clone());
        i = i + 1;
    }
    proof {
        assert(out.deep_view() =~= a.deep_view());
    }
    out
}

/// Duplicates a lifetime-name list, preserving its view.
pub fn duplicate_lifetime_names(a: &Vec<LifetimeName>) -> (r: Vec<LifetimeName>)
    ensures
        r.deep_view() == a.deep_view(),
{
    let mut out: Vec<LifetimeName> = Vec::new();
    let mut i: usize = 0;
    while i < a.len()
        invariant
            i <= a.len(),
            out@.len() == i,
            forall|j: int| 0 <= j < i ==> out@[j].deep_view() == a@[j].deep_view(),
        decreases a.len() - i,
    {
        out.push(duplicate_lifetime_name(&a[i]));
        i = i + 1;
    }
    proof {
        assert(out.deep_view() =~= a.deep_view());
    }
    out
}

/// Duplicates a bound, preserving its view.
pub fn duplicate_bound(a: &TypeParamBound) -> (r: TypeParamBound)
    ensures
        r.deep_view() == a.deep_view(),
{
    match a {
        TypeParamBound::Trait { path } => TypeParamBound::Trait { path: duplicate_strings(path) },
        TypeParamBound::Outlives { lifetime } => TypeParamBound::Outlives {
            lifetime: duplicate_lifetime_name(lifetime),
        },
    }
}

/// Duplicates a bound list, preserving its view.
pub fn duplicate_bounds(a: &Vec<TypeParamBound>) -> (r: Vec<TypeParamBound>)
    ensures
        r.deep_view() == a.deep_view(),
{
    let mut out: Vec<TypeParamBound> = Vec::new();
    let mut i: usize = 0;
    while i < a.len()
        invariant
            i <= a.len(),
            out@.len() == i,
            forall|j: int| 0 <= j < i ==> out@[j].deep_view() == a@[j].deep_view(),
        decreases a.len() - i,
    {
        out.push(duplicate_bound(&a[i]));
        i = i + 1;
    }
    proof {
        assert(out.deep_view() =~= a.deep_view());
    }
    out
}

/// Appends duplicates of all bounds in `src` to `dst`.
pub fn append_bounds(dst: &mut Vec<TypeParamBound>, src: &Vec<TypeParamBound>)
    ensures
        final(dst).deep_view() == old(dst).deep_view() + src.deep_view(),
{
    let mut i: usize = 0;
    while i < src.len()
        invariant
            i <= src.len(),
            dst@.len() == old(dst)@.len() + i,
            forall|j: int|
                0 <= j < old(dst)@.len() ==> dst@[j].deep_view() == old(dst)@[j].deep_view(),
            forall|j: int|
                0 <= j < i ==> dst@[old(dst)@.len() + j].deep_view() == src@[j].deep_view(),
        decreases src.len() - i,
    {
        dst.push(duplicate_bound(&src[i]));
        i = i + 1;
    }
    proof {
        assert(dst.deep_view() =~= old(dst).deep_view() + src.deep_view());
    }
}

/// Duplicates a lifetime-argument list, preserving its view.
pub fn duplicate_lifetime_refs(a: &Vec<LifetimeRef>) -> (r: Vec<LifetimeRef>)
    ensures
        r.deep_view() == a.deep_view(),
{
    let mut out: Vec<LifetimeRef> = Vec::new();
    let mut i: usize = 0;
    while i < a.len()
        invariant
            i <= a.len(),
            out@.len() == i,
            forall|j: int| 0 <= j < i ==> out@[j].deep_view() == a@[j].deep_view(),
        decreases a.len() - i,
    {
        out.push(duplicate_lifetime_ref(&a[i]));
        i = i + 1;
    }
    proof {
        assert(out.deep_view() =~= a.deep_view());
    }
    out
}

/// Duplicates a path segment, preserving its view.
pub fn duplicate_segment(a: &PathSegment) -> (r: PathSegment)
    ensures
        r.deep_view() == a.deep_view(),
{
    PathSegment {
        ident: a.ident.clone(),
        lifetime_args: duplicate_lifetime_refs(&a.lifetime_args),
        type_arg_idents: duplicate_strings(&a.type_arg_idents),
    }
}

/// Duplicates a type path, preserving its view.
pub fn duplicate_path(a: &TypePath) -> (r: TypePath)
    ensures
        r.deep_view() == a.deep_view(),
{
    let mut segments: Vec<PathSegment> = Vec::new();
    let mut i: usize = 0;
    while i < a.segments.len()
        invariant
            i <= a.segments.len(),
            segments@.len() == i,
            forall|j: int| 0 <= j < i ==> segments@[j].deep_view() == a.segments@[j].deep_view(),
        decreases a.segments.len() - i,
    {
        segments.push(duplicate_segment(&a.segments[i]));
        i = i + 1;
    }
    proof {
        assert(segments.deep_view() =~= a.segments.deep_view());
    }
    TypePath { qself: a.qself, leading_colon: a.leading_colon, segments }
}

/// Duplicates a type expression, preserving its view.
pub fn duplicate_type(a: &TypeExpr) -> (r: TypeExpr)
    ensures
        r.deep_view() == a.deep_view(),
    decreases a,
{
    match a {
        TypeExpr::Reference { lifetime, mutable, elem } => TypeExpr::Reference {
            lifetime: duplicate_lifetime_ref(lifetime),
            mutable: *mutable,
            elem: Box::new(duplicate_type(&**elem)),
        },
        TypeExpr::Paren { elem } => TypeExpr::Paren { elem: Box::new(duplicate_type(&**elem)) },
        TypeExpr::ImplTrait { bounds } => TypeExpr::ImplTrait { bounds: duplicate_bounds(bounds) },
        TypeExpr::Path { path } => TypeExpr::Path { path: duplicate_path(path) },
        TypeExpr::Unit => TypeExpr::Unit,
        TypeExpr::Verbatim { text } => TypeExpr::Verbatim { text: text.clone() },
        TypeExpr::SelfFuture { ordinal, lifetimes } => TypeExpr::SelfFuture {
            ordinal: *ordinal,
            lifetimes: duplicate_lifetime_names(lifetimes),
        },
    }
}

/// Duplicates a generic parameter, preserving its view.
pub fn duplicate_generic_param(a: &GenericParam) -> (r: GenericParam)
    ensures
        r.deep_view() == a.deep_view(),
{
    match a {
        GenericParam::Lifetime { name } => GenericParam::Lifetime {
            name: duplicate_lifetime_name(name),
        },
        GenericParam::Type { ident, bounds } => GenericParam::Type {
            ident: ident.clone(),
            bounds: duplicate_bounds(bounds),
        },
        GenericParam::Const { ident } => GenericParam::Const { ident: ident.clone() },
    }
}

/// Duplicates a where-predicate, preserving its view.
pub fn duplicate_where_predicate(a: &WherePredicate) -> (r: WherePredicate)
    ensures
        r.deep_view() == a.deep_view(),
{
    match a {
        WherePredicate::Type { bounded_ty, bounds } => WherePredicate::Type {
            bounded_ty: duplicate_type(bounded_ty),
            bounds: duplicate_bounds(bounds),
        },
        WherePredicate::Lifetime { lifetime, bounds } => WherePredicate::Lifetime {
            lifetime: duplicate_lifetime_name(lifetime),
            bounds: duplicate_lifetime_names(bounds),
        },
    }
}

/// Duplicates an argument pattern, preserving its view.
pub fn duplicate_pat(a: &ArgPat) -> (r: ArgPat)
    ensures
        r.deep_view() == a.deep_view(),
{
    match a {
        ArgPat::Ident(s) => ArgPat::Ident(s.clone()),
        ArgPat::Other => ArgPat::Other,
    }
}

/// Duplicates a parameter, preserving its view.
pub fn duplicate_fn_param(a: &FnParam) -> (r: FnParam)
    ensures
        r.deep_view() == a.deep_view(),
{
    let kind = match &a.kind {
        ParamKind::Receiver { reference, lifetime, mutable } => ParamKind::Receiver {
            reference: *reference,
            lifetime: duplicate_lifetime_ref(lifetime),
            mutable: *mutable,
        },
        ParamKind::Typed { pat, ty } => ParamKind::Typed {
            pat: duplicate_pat(pat),
            ty: duplicate_type(ty),
        },
    };
    FnParam { span: a.span, kind }
}

/// Duplicates a generic parameter list, preserving its view.
pub fn duplicate_generic_params(a: &Vec<GenericParam>) -> (r: Vec<GenericParam>)
    ensures
        r.deep_view() == a.deep_view(),
{
    let mut out: Vec<GenericParam> = Vec::new();
    let mut i: usize = 0;
    while i < a.len()
        invariant
            i <= a.len(),
            out@.len() == i,
            forall|j: int| 0 <= j < i ==> out@[j].deep_view() == a@[j].deep_view(),
        decreases a.len() - i,
    {
        out.push(duplicate_generic_param(&a[i]));
        i = i + 1;
    }
    proof {
        assert(out.deep_view() =~= a.deep_view());
    }
    out
}

/// Duplicates a where-predicate list, preserving its view.
pub fn duplicate_where_predicates(a: &Vec<WherePredicate>) -> (r: Vec<WherePredicate>)
    ensures
        r.deep_view() == a.deep_view(),
{
    let mut out: Vec<WherePredicate> = Vec::new();
    let mut i: usize = 0;
    while i < a.len()
        invariant
            i <= a.len(),
            out@.len() == i,
            forall|j: int| 0 <= j < i ==> out@[j].deep_view() == a@[j].deep_view(),
        decreases a.len() - i,
    {
        out.push(duplicate_where_predicate(&a[i]));
        i = i + 1;
    }
    proof {
        assert(out.deep_view() =~= a.deep_view());
    }
    out
}

/// Duplicates a generics item, preserving its view.
pub fn duplicate_generics(a: &Generics) -> (r: Generics)
    ensures
        r.deep_view() == a.deep_view(),
{
    let where_clause = match &a.where_clause {
        Option::Some(wc) => Option::Some(
            WhereClause { predicates: duplicate_where_predicates(&wc.predicates) },
        ),
        Option::None => Option::None,
    };
    Generics { params: duplicate_generic_params(&a.params), where_clause }
}

/// Duplicates a return type, preserving its view.
pub fn duplicate_return_type(a: &ReturnType) -> (r: ReturnType)
    ensures
        r.deep_view() == a.deep_view(),
{
    match a {
        ReturnType::Default => ReturnType::Default,
        ReturnType::Ty(t) => ReturnType::Ty(duplicate_type(t)),
    }
}

} // verus!
