//! The dependency-shape analyzer: classifies a function's first parameter
//! into a dependency shape, and as a side effect relocates the function's
//! generic parameters and where-predicates into the per-trait accumulator.

use vstd::prelude::*;

use crate::ast::{
    FnSignature, FnSignatureV, GenericParam, GenericParamV, Generics, GenericsV, ParamKind,
    ParamKindV, TypeExpr, TypeExprV, TypeParamBound, TypeParamBoundV, WherePredicate,
    WherePredicateV,
};
use crate::ast_ops::{
    append_bounds, duplicate_bounds, duplicate_generic_param, duplicate_type,
    duplicate_where_predicate, generic_param_eq, string_eq,
};
use crate::idents::{generic_idents_spec, CrateIdents, GenericIdents, GenericIdentsV};
use crate::lifetimes::return_has_elided;
use crate::opt::Opts;
use crate::signature::{
    convert_spec, use_fut_spec, EntraitSignature, EntraitSignatureV, SignatureConverter,
};

verus! {

/// The structural errors the analysis reports; never a panic. Each carries
/// the source location of the offending syntax.
#[derive(Clone, Copy, Debug, PartialEq, Eq, Structural)]
pub enum AnalysisErrorKind {
    /// A dependency parameter was required and the parameter list is empty.
    MissingDependencyParameter,
    /// A `self` receiver stands where a dependency parameter was expected.
    UnexpectedReceiver,
    /// A qualified-self path stands directly as the dependency type.
    MalformedTypePath,
    /// A concrete-dependency function was found in a multi-function module.
    ConcreteDependencyInModule,
    /// A parameter pattern is not a simple bindable name.
    NonIdentifierArgumentPattern,
}

#[derive(Clone, Copy, Debug, PartialEq, Eq, Structural)]
pub struct AnalysisError {
    pub kind: AnalysisErrorKind,
    pub span: usize,
}

/// How the first parameter expresses the function's dependencies.
#[derive(Debug, PartialEq, Eq)]
pub enum DependencyShape {
    /// No dependency argument is analyzed; a receiver must be synthesized.
    NoDependency,
    /// The parameter type is `impl Bound + ...`: bounds are captured
    /// directly, no named type parameter is consumed.
    InlineBounds { trait_bounds: Vec<TypeParamBound> },
    /// The parameter type names one of the function's own generic type
    /// parameters; its direct and where-clause bounds are merged.
    NamedGeneric { ident: String, trait_bounds: Vec<TypeParamBound> },
    /// The parameter type is a concrete type: a direct implementation
    /// target rather than a generic bound set.
    Concrete { span: usize, ty: TypeExpr },
}

#[verifier::ext_equal]
pub enum DependencyShapeV {
    NoDependency,
    InlineBounds { trait_bounds: Seq<TypeParamBoundV> },
    NamedGeneric { ident: Seq<char>, trait_bounds: Seq<TypeParamBoundV> },
    Concrete { span: usize, ty: TypeExprV },
}

impl DeepView for DependencyShape {
    type V = DependencyShapeV;

    open spec fn deep_view(&self) -> DependencyShapeV {
        match self {
            DependencyShape::NoDependency => DependencyShapeV::NoDependency,
            DependencyShape::InlineBounds { trait_bounds } => DependencyShapeV::InlineBounds {
                trait_bounds: trait_bounds.deep_view(),
            },
            DependencyShape::NamedGeneric { ident, trait_bounds } => {
                DependencyShapeV::NamedGeneric {
                    ident: ident@,
                    trait_bounds: trait_bounds.deep_view(),
                }
            },
            DependencyShape::Concrete { span, ty } => DependencyShapeV::Concrete {
                span: *span,
                ty: ty.deep_view(),
            },
        }
    }
}

/// The generic parameters and where-predicates accumulated for one
/// generated trait across all of its functions.
#[derive(Debug, PartialEq, Eq)]
pub struct TraitGenerics {
    pub params: Vec<GenericParam>,
    pub where_predicates: Vec<WherePredicate>,
}

#[verifier::ext_equal]
pub struct TraitGenericsV {
    pub params: Seq<GenericParamV>,
    pub where_predicates: Seq<WherePredicateV>,
}

impl DeepView for TraitGenerics {
    type V = TraitGenericsV;

    open spec fn deep_view(&self) -> TraitGenericsV {
        TraitGenericsV {
            params: self.params.deep_view(),
            where_predicates: self.where_predicates.deep_view(),
        }
    }
}

// ------------------------------------------------------------------
// The classification, as a pure function of the input syntax
// ------------------------------------------------------------------

/// Strips reference and parenthesis wrappers: classification is a function
/// of the wrapped type alone.
pub open spec fn unwrap_dep_type(t: TypeExprV) -> TypeExprV
    decreases t,
{
    match t {
        TypeExprV::Reference { lifetime, mutable, elem } => unwrap_dep_type(*elem),
        TypeExprV::Paren { elem } => unwrap_dep_type(*elem),
        _ => t,
    }
}

/// Whether a type is exactly the unqualified single-segment path `id`.
pub open spec fn is_ident_path(t: TypeExprV, id: Seq<char>) -> bool {
    match t {
        TypeExprV::Path { path } => !path.qself && !path.leading_colon && path.segments.len() == 1
            && path.segments[0].ident == id,
        _ => false,
    }
}

/// The first generic type parameter named `id`, from position `i` on.
pub open spec fn find_type_param_from(params: Seq<GenericParamV>, id: Seq<char>, i: int) -> Option<
    int,
>
    decreases params.len() - i,
{
    if i < 0 || i >= params.len() {
        Option::None
    } else {
        match params[i] {
            GenericParamV::Type { ident, bounds } => if ident == id {
                Option::Some(i)
            } else {
                find_type_param_from(params, id, i + 1)
            },
            _ => find_type_param_from(params, id, i + 1),
        }
    }
}

/// The first generic type parameter named `id`.
pub open spec fn find_type_param(params: Seq<GenericParamV>, id: Seq<char>) -> Option<int> {
    find_type_param_from(params, id, 0)
}

/// The where-predicates of a signature, an empty sequence when the
/// where-clause is absent.
pub open spec fn preds_of(g: GenericsV) -> Seq<WherePredicateV> {
    match g.where_clause {
        Option::Some(wc) => wc.predicates,
        Option::None => Seq::empty(),
    }
}

/// The dependency's trait-bound set for a named generic parameter: its
/// direct bounds, extended by the bounds of every where-predicate whose
/// bounded type is exactly that identifier, in where-clause order.
pub open spec fn merged_bounds_from(
    preds: Seq<WherePredicateV>,
    id: Seq<char>,
    i: int,
    acc: Seq<TypeParamBoundV>,
) -> Seq<TypeParamBoundV>
    decreases preds.len() - i,
{
    if i < 0 || i >= preds.len() {
        acc
    } else {
        let step = match preds[i] {
            WherePredicateV::Type { bounded_ty, bounds } => if is_ident_path(bounded_ty, id) {
                acc + bounds
            } else {
                acc
            },
            _ => acc,
        };
        merged_bounds_from(preds, id, i + 1, step)
    }
}

/// Classification of an (already unwrapped) dependency type against the
/// function's own generics. `span` is the dependency parameter's location.
pub open spec fn classify_dep_type(t: TypeExprV, g: GenericsV, span: usize) -> Result<
    DependencyShapeV,
    AnalysisError,
> {
    match t {
        TypeExprV::ImplTrait { bounds } => Result::Ok(
            DependencyShapeV::InlineBounds { trait_bounds: bounds },
        ),
        TypeExprV::Path { path } => if path.qself {
            Result::Err(AnalysisError { kind: AnalysisErrorKind::MalformedTypePath, span })
        } else if path.leading_colon || path.segments.len() != 1 {
            Result::Ok(DependencyShapeV::Concrete { span, ty: t })
        } else {
            let id = path.segments[0].ident;
            match find_type_param(g.params, id) {
                Option::Some(k) => {
                    let direct = match g.params[k] {
                        GenericParamV::Type { ident, bounds } => bounds,
                        _ => Seq::empty(),
                    };
                    Result::Ok(
                        DependencyShapeV::NamedGeneric {
                            ident: id,
                            trait_bounds: merged_bounds_from(preds_of(g), id, 0, direct),
                        },
                    )
                },
                Option::None => Result::Ok(DependencyShapeV::Concrete { span, ty: t }),
            }
        },
        _ => Result::Ok(DependencyShapeV::Concrete { span, ty: t }),
    }
}

/// The whole classification contract: what `analyze_fn_deps` returns for a
/// signature, as a pure function of the signature and the options.
pub open spec fn classify_spec(sig: FnSignatureV, no_deps: bool) -> Result<
    DependencyShapeV,
    AnalysisError,
> {
    if no_deps {
        Result::Ok(DependencyShapeV::NoDependency)
    } else if sig.params.len() == 0 {
        Result::Err(
            AnalysisError { kind: AnalysisErrorKind::MissingDependencyParameter, span: sig.span },
        )
    } else {
        match sig.params[0].kind {
            ParamKindV::Receiver { reference, lifetime, mutable } => Result::Err(
                AnalysisError {
                    kind: AnalysisErrorKind::UnexpectedReceiver,
                    span: sig.params[0].span,
                },
            ),
            ParamKindV::Typed { pat, ty } => classify_dep_type(
                unwrap_dep_type(ty),
                sig.generics,
                sig.params[0].span,
            ),
        }
    }
}

// ------------------------------------------------------------------
// The accumulator contribution, as a pure function
// ------------------------------------------------------------------

/// Whether the accumulated parameter list already holds `p`.
pub open spec fn contains_param(s: Seq<GenericParamV>, p: GenericParamV) -> bool {
    exists|i: int| 0 <= i < s.len() && s[i] == p
}

/// Appends `p` unless an identical parameter is already present.
pub open spec fn push_param(acc: Seq<GenericParamV>, p: GenericParamV) -> Seq<GenericParamV> {
    if contains_param(acc, p) {
        acc
    } else {
        acc.push(p)
    }
}

/// Relocates the function's generic parameters into the accumulator, from
/// position `i` on: lifetimes are dropped, the matched parameter (when
/// classification named one, at index `skip`) is consumed by the
/// dependency, and identical parameters are not repeated.
pub open spec fn relocate_params_from(
    params: Seq<GenericParamV>,
    skip: Option<int>,
    i: int,
    acc: Seq<GenericParamV>,
) -> Seq<GenericParamV>
    decreases params.len() - i,
{
    if i < 0 || i >= params.len() {
        acc
    } else {
        let keep = match params[i] {
            GenericParamV::Lifetime { name } => false,
            _ => skip != Option::Some(i),
        };
        let step = if keep {
            push_param(acc, params[i])
        } else {
            acc
        };
        relocate_params_from(params, skip, i + 1, step)
    }
}

/// Relocates where-predicates into the accumulator, from position `i` on.
/// When classification matched a named generic parameter, the predicates
/// bounding exactly that identifier were merged into the dependency's
/// bound set instead and do not move.
pub open spec fn relocate_preds_from(
    preds: Seq<WherePredicateV>,
    matched: Option<Seq<char>>,
    i: int,
    acc: Seq<WherePredicateV>,
) -> Seq<WherePredicateV>
    decreases preds.len() - i,
{
    if i < 0 || i >= preds.len() {
        acc
    } else {
        let moved = match matched {
            Option::None => true,
            Option::Some(id) => match preds[i] {
                WherePredicateV::Type { bounded_ty, bounds } => !is_ident_path(bounded_ty, id),
                _ => true,
            },
        };
        let step = if moved {
            acc.push(preds[i])
        } else {
            acc
        };
        relocate_preds_from(preds, matched, i + 1, step)
    }
}

/// The accumulator state after one classification outcome over the
/// generics `g`: unchanged on an error, extended by the relocated generics
/// otherwise.
pub open spec fn contribution_for(
    acc: TraitGenericsV,
    g: GenericsV,
    cls: Result<DependencyShapeV, AnalysisError>,
) -> TraitGenericsV {
    match cls {
        Result::Err(e) => acc,
        Result::Ok(shape) => {
            let (skip, matched) = match shape {
                DependencyShapeV::NamedGeneric { ident, trait_bounds } => (
                    find_type_param(g.params, ident),
                    Option::Some(ident),
                ),
                _ => (Option::<int>::None, Option::<Seq<char>>::None),
            };
            TraitGenericsV {
                params: relocate_params_from(g.params, skip, 0, acc.params),
                where_predicates: relocate_preds_from(
                    preds_of(g),
                    matched,
                    0,
                    acc.where_predicates,
                ),
            }
        },
    }
}

/// The accumulator state after analyzing one signature: unchanged on an
/// error, extended by the relocated generics otherwise.
pub open spec fn contribution(acc: TraitGenericsV, sig: FnSignatureV, no_deps: bool) -> TraitGenericsV {
    contribution_for(acc, sig.generics, classify_spec(sig, no_deps))
}

// ------------------------------------------------------------------
// The analyzer
// ------------------------------------------------------------------

/// Accumulates the trait-level generics while classifying, one function at
/// a time, the functions destined for one generated trait.
pub struct GenericsAnalyzer {
    trait_generics: TraitGenerics,
}

impl GenericsAnalyzer {
    /// The accumulated trait generics, abstractly.
    pub closed spec fn accum(&self) -> TraitGenericsV {
        self.trait_generics.deep_view()
    }

    /// A fresh analyzer with an empty accumulator.
    pub fn new() -> (r: GenericsAnalyzer)
        ensures
            r.accum() == (TraitGenericsV {
                params: Seq::<GenericParamV>::empty(),
                where_predicates: Seq::<WherePredicateV>::empty(),
            }),
    {
        let r = GenericsAnalyzer {
            trait_generics: TraitGenerics { params: Vec::new(), where_predicates: Vec::new() },
        };
        proof {
            assert(r.accum() =~= TraitGenericsV {
                params: Seq::<GenericParamV>::empty(),
                where_predicates: Seq::<WherePredicateV>::empty(),
            });
        }
        r
    }

    /// Finalizes the analyzer, handing the accumulated generics to the
    /// trait declaration.
    pub fn into_trait_generics(self) -> (r: TraitGenerics)
        ensures
            r.deep_view() == self.accum(),
    {
        self.trait_generics
    }

    /// Appends `p` to the accumulated parameters unless an identical one
    /// is already there.
    fn push_param_dedup(&mut self, p: GenericParam)
        ensures
            final(self).accum().params == push_param(old(self).accum().params, p.deep_view()),
            final(self).accum().where_predicates == old(self).accum().where_predicates,
    {
        let n = self.trait_generics.params.len();
        let mut i: usize = 0;
        while i < n
            invariant
                i <= n,
                n == self.trait_generics.params.len(),
                forall|j: int|
                    0 <= j < i ==> self.trait_generics.params.deep_view()[j] != p.deep_view(),
            decreases n - i,
        {
            if generic_param_eq(&self.trait_generics.params[i], &p) {
                assert(self.accum().params[i as int] == p.deep_view());
                assert(contains_param(self.accum().params, p.deep_view()));
                return ;
            }
            i = i + 1;
        }
        assert(!contains_param(self.accum().params, p.deep_view()));
        self.trait_generics.params.push(p);
        proof {
            assert(self.accum().params =~= push_param(old(self).accum().params, p.deep_view()));
        }
    }

    /// Relocates all of a function's type and const generic parameters and
    /// its entire where-clause into the accumulator; used for every shape
    /// without a matched named parameter.
    fn relocate_all(&mut self, generics: &Generics)
        ensures
            final(self).accum().params == relocate_params_from(
                generics.deep_view().params,
                Option::None,
                0,
                old(self).accum().params,
            ),
            final(self).accum().where_predicates == relocate_preds_from(
                preds_of(generics.deep_view()),
                Option::None,
                0,
                old(self).accum().where_predicates,
            ),
    {
        let ghost gv = generics.deep_view();
        let n = generics.params.len();
        let mut i: usize = 0;
        while i < n
            invariant
                i <= n,
                n == generics.params.len(),
                gv == generics.deep_view(),
                relocate_params_from(gv.params, Option::None, 0, old(self).accum().params)
                    == relocate_params_from(gv.params, Option::None, i as int, self.accum().params),
                self.accum().where_predicates == old(self).accum().where_predicates,
            decreases n - i,
        {
            let ghost prev = self.accum().params;
            match &generics.params[i] {
                GenericParam::Lifetime { name } => {},
                _ => {
                    let p = duplicate_generic_param(&generics.params[i]);
                    assert(p.deep_view() == gv.params[i as int]);
                    self.push_param_dedup(p);
                },
            }
            proof {
                assert(relocate_params_from(gv.params, Option::None, i as int, prev)
                    == relocate_params_from(gv.params, Option::None, i + 1, self.accum().params));
            }
            i = i + 1;
        }
        match &generics.where_clause {
            Option::Some(wc) => {
                let m = wc.predicates.len();
                let mut k: usize = 0;
                while k < m
                    invariant
                        k <= m,
                        m == wc.predicates.len(),
                        preds_of(gv) == wc.predicates.deep_view(),
                        relocate_preds_from(
                            preds_of(gv),
                            Option::None,
                            0,
                            old(self).accum().where_predicates,
                        ) == relocate_preds_from(
                            preds_of(gv),
                            Option::None,
                            k as int,
                            self.accum().where_predicates,
                        ),
                        self.accum().params == relocate_params_from(
                            gv.params,
                            Option::None,
                            0,
                            old(self).accum().params,
                        ),
                    decreases m - k,
                {
                    let ghost prev = self.accum().where_predicates;
                    let pred = duplicate_where_predicate(&wc.predicates[k]);
                    assert(pred.deep_view() == preds_of(gv)[k as int]);
                    self.trait_generics.where_predicates.push(pred);
                    proof {
                        assert(self.accum().where_predicates =~= prev.push(
                            preds_of(gv)[k as int],
                        ));
                        assert(relocate_preds_from(preds_of(gv), Option::None, k as int, prev)
                            == relocate_preds_from(
                            preds_of(gv),
                            Option::None,
                            k + 1,
                            self.accum().where_predicates,
                        ));
                    }
                    k = k + 1;
                }
            },
            Option::None => {},
        }
    }

    /// Relocates all generic parameters but the matched one (at `skip`),
    /// lifetimes excluded, leaving the accumulated predicates untouched.
    fn relocate_params_skip(&mut self, generics: &Generics, skip: usize)
        ensures
            final(self).accum().params == relocate_params_from(
                generics.deep_view().params,
                Option::Some(skip as int),
                0,
                old(self).accum().params,
            ),
            final(self).accum().where_predicates == old(self).accum().where_predicates,
    {
        let ghost gv = generics.deep_view();
        let n = generics.params.len();
        let mut i: usize = 0;
        while i < n
            invariant
                i <= n,
                n == generics.params.len(),
                gv == generics.deep_view(),
                relocate_params_from(gv.params, Option::Some(skip as int), 0, old(self).accum().params)
                    == relocate_params_from(
                    gv.params,
                    Option::Some(skip as int),
                    i as int,
                    self.accum().params,
                ),
                self.accum().where_predicates == old(self).accum().where_predicates,
            decreases n - i,
        {
            let ghost prev = self.accum().params;
            if i != skip {
                match &generics.params[i] {
                    GenericParam::Lifetime { name } => {},
                    _ => {
                        let p = duplicate_generic_param(&generics.params[i]);
                        assert(p.deep_view() == gv.params[i as int]);
                        self.push_param_dedup(p);
                    },
                }
            }
            proof {
                assert(relocate_params_from(gv.params, Option::Some(skip as int), i as int, prev)
                    == relocate_params_from(
                    gv.params,
                    Option::Some(skip as int),
                    i + 1,
                    self.accum().params,
                ));
            }
            i = i + 1;
        }
    }

    /// Walks the where-clause once: predicates bounding exactly `id` have
    /// their bounds merged into the dependency's bound set (starting from
    /// the direct bounds in `direct`), every other predicate moves to the
    /// accumulator unchanged.
    fn merge_and_relocate_preds(&mut self, generics: &Generics, id: &String, direct: Vec<
        TypeParamBound,
    >) -> (r: Vec<TypeParamBound>)
        ensures
            r.deep_view() == merged_bounds_from(
                preds_of(generics.deep_view()),
                id@,
                0,
                direct.deep_view(),
            ),
            final(self).accum().where_predicates == relocate_preds_from(
                preds_of(generics.deep_view()),
                Option::Some(id@),
                0,
                old(self).accum().where_predicates,
            ),
            final(self).accum().params == old(self).accum().params,
    {
        let ghost gv = generics.deep_view();
        let mut bounds = direct;
        match &generics.where_clause {
            Option::Some(wc) => {
                let m = wc.predicates.len();
                let mut k: usize = 0;
                while k < m
                    invariant
                        k <= m,
                        m == wc.predicates.len(),
                        preds_of(gv) == wc.predicates.deep_view(),
                        gv == generics.deep_view(),
                        merged_bounds_from(preds_of(gv), id@, 0, direct.deep_view())
                            == merged_bounds_from(preds_of(gv), id@, k as int, bounds.deep_view()),
                        relocate_preds_from(
                            preds_of(gv),
                            Option::Some(id@),
                            0,
                            old(self).accum().where_predicates,
                        ) == relocate_preds_from(
                            preds_of(gv),
                            Option::Some(id@),
                            k as int,
                            self.accum().where_predicates,
                        ),
                        self.accum().params == old(self).accum().params,
                    decreases m - k,
                {
                    let ghost prev_bounds = bounds.deep_view();
                    let ghost prev_preds = self.accum().where_predicates;
                    let moved = match &wc.predicates[k] {
                        WherePredicate::Type { bounded_ty, bounds: pb } => {
                            if type_is_ident(bounded_ty, id) {
                                append_bounds(&mut bounds, pb);
                                false
                            } else {
                                true
                            }
                        },
                        WherePredicate::Lifetime { lifetime, bounds: pb } => true,
                    };
                    if moved {
                        let pred = duplicate_where_predicate(&wc.predicates[k]);
                        assert(pred.deep_view() == preds_of(gv)[k as int]);
                        self.trait_generics.where_predicates.push(pred);
                        proof {
                            assert(self.accum().where_predicates =~= prev_preds.push(
                                preds_of(gv)[k as int],
                            ));
                        }
                    }
                    proof {
                        assert(merged_bounds_from(preds_of(gv), id@, k as int, prev_bounds)
                            == merged_bounds_from(preds_of(gv), id@, k + 1, bounds.deep_view()));
                        assert(relocate_preds_from(
                            preds_of(gv),
                            Option::Some(id@),
                            k as int,
                            prev_preds,
                        ) == relocate_preds_from(
                            preds_of(gv),
                            Option::Some(id@),
                            k + 1,
                            self.accum().where_predicates,
                        ));
                    }
                    k = k + 1;
                }
            },
            Option::None => {},
        }
        bounds
    }

    /// Looks for a generic type parameter named `id`; on a match, consumes
    /// it: its direct and where-clause bounds become the dependency's bound
    /// set, and every other generic parameter and where-predicate moves to
    /// the accumulator.
    fn find_deps_generic_bounds(&mut self, generics: &Generics, id: &String) -> (r: Option<
        DependencyShape,
    >)
        ensures
            ({
                let gv = generics.deep_view();
                match find_type_param(gv.params, id@) {
                    Option::None => r matches Option::None && final(self).accum() == old(
                        self,
                    ).accum(),
                    Option::Some(k) => match r {
                        Option::Some(shape) => {
                            let direct = match gv.params[k] {
                                GenericParamV::Type { ident, bounds } => bounds,
                                _ => Seq::empty(),
                            };
                            &&& shape.deep_view() == (DependencyShapeV::NamedGeneric {
                                ident: id@,
                                trait_bounds: merged_bounds_from(preds_of(gv), id@, 0, direct),
                            })
                            &&& final(self).accum().params == relocate_params_from(
                                gv.params,
                                Option::Some(k),
                                0,
                                old(self).accum().params,
                            )
                            &&& final(self).accum().where_predicates == relocate_preds_from(
                                preds_of(gv),
                                Option::Some(id@),
                                0,
                                old(self).accum().where_predicates,
                            )
                        },
                        Option::None => false,
                    },
                }
            }),
    {
        let ghost gv = generics.deep_view();
        let n = generics.params.len();
        let mut i: usize = 0;
        while i < n
            invariant
                i <= n,
                n == generics.params.len(),
                gv == generics.deep_view(),
                self == old(self),
                find_type_param(gv.params, id@) == find_type_param_from(gv.params, id@, i as int),
            decreases n - i,
        {
            let is_match = match &generics.params[i] {
                GenericParam::Type { ident, bounds } => string_eq(ident, id),
                _ => false,
            };
            if is_match {
                assert(find_type_param(gv.params, id@) == Option::Some(i as int));
                let direct = match &generics.params[i] {
                    GenericParam::Type { ident, bounds } => duplicate_bounds(bounds),
                    _ => Vec::new(),
                };
                self.relocate_params_skip(generics, i);
                let trait_bounds = self.merge_and_relocate_preds(generics, id, direct);
                return Option::Some(
                    DependencyShape::NamedGeneric { ident: id.clone(), trait_bounds },
                );
            }
            i = i + 1;
        }
        Option::None
    }

    /// Classifies an (already unwrapped, or still wrapped) dependency type;
    /// reference and parenthesis wrappers are stripped transparently.
    fn extract_deps_from_type(&mut self, generics: &Generics, span: usize, ty: &TypeExpr) -> (r:
        Result<DependencyShape, AnalysisError>)
        ensures
            ({
                let cls = classify_dep_type(
                    unwrap_dep_type(ty.deep_view()),
                    generics.deep_view(),
                    span,
                );
                &&& match r {
                    Result::Ok(shape) => cls == Result::<DependencyShapeV, AnalysisError>::Ok(
                        shape.deep_view(),
                    ),
                    Result::Err(e) => cls == Result::<DependencyShapeV, AnalysisError>::Err(e),
                }
                &&& final(self).accum() == contribution_for(
                    old(self).accum(),
                    generics.deep_view(),
                    cls,
                )
            }),
        decreases ty,
    {
        match ty {
            TypeExpr::Reference { lifetime, mutable, elem } => self.extract_deps_from_type(
                generics,
                span,
                &**elem,
            ),
            TypeExpr::Paren { elem } => self.extract_deps_from_type(generics, span, &**elem),
            TypeExpr::ImplTrait { bounds } => {
                let trait_bounds = duplicate_bounds(bounds);
                self.relocate_all(generics);
                Result::Ok(DependencyShape::InlineBounds { trait_bounds })
            },
            TypeExpr::Path { path } => {
                if path.qself {
                    return Result::Err(
                        AnalysisError { kind: AnalysisErrorKind::MalformedTypePath, span },
                    );
                }
                if path.leading_colon || path.segments.len() != 1 {
                    let c = DependencyShape::Concrete { span, ty: duplicate_type(ty) };
                    self.relocate_all(generics);
                    return Result::Ok(c);
                }
                match self.find_deps_generic_bounds(generics, &path.segments[0].ident) {
                    Option::Some(shape) => Result::Ok(shape),
                    Option::None => {
                        let c = DependencyShape::Concrete { span, ty: duplicate_type(ty) };
                        self.relocate_all(generics);
                        Result::Ok(c)
                    },
                }
            },
            _ => {
                let c = DependencyShape::Concrete { span, ty: duplicate_type(ty) };
                self.relocate_all(generics);
                Result::Ok(c)
            },
        }
    }

    /// Classification: decides the dependency shape of the signature's
    /// first parameter, and relocates the signature's generics into the
    /// accumulator. With `no_deps` set no parameter is inspected, but the
    /// generics still migrate to the trait level. Returns exactly the
    /// outcome `classify_spec` describes, and never changes the
    /// accumulator on an error.
    pub fn analyze_fn_deps(&mut self, sig: &FnSignature, opts: &Opts) -> (r: Result<
        DependencyShape,
        AnalysisError,
    >)
        ensures
            match r {
                Result::Ok(shape) => classify_spec(sig.deep_view(), opts.no_deps)
                    == Result::<DependencyShapeV, AnalysisError>::Ok(shape.deep_view()),
                Result::Err(e) => classify_spec(sig.deep_view(), opts.no_deps)
                    == Result::<DependencyShapeV, AnalysisError>::Err(e),
            },
            final(self).accum() == contribution(old(self).accum(), sig.deep_view(), opts.no_deps),
    {
        if opts.no_deps {
            self.relocate_all(&sig.generics);
            return Result::Ok(DependencyShape::NoDependency);
        }
        if sig.params.len() == 0 {
            return Result::Err(
                AnalysisError {
                    kind: AnalysisErrorKind::MissingDependencyParameter,
                    span: sig.span,
                },
            );
        }
        let first = &sig.params[0];
        match &first.kind {
            ParamKind::Receiver { reference, lifetime, mutable } => Result::Err(
                AnalysisError { kind: AnalysisErrorKind::UnexpectedReceiver, span: first.span },
            ),
            ParamKind::Typed { pat, ty } => self.extract_deps_from_type(
                &sig.generics,
                first.span,
                ty,
            ),
        }
    }
}

// ------------------------------------------------------------------
// One analyzed function, and the per-trait dependency mode
// ------------------------------------------------------------------

/// Whether one function or a whole module of functions feeds the trait.
#[derive(Clone, Copy, Debug, PartialEq, Eq, Structural)]
pub enum FnInputMode {
    SingleFn,
    Module,
}

/// The dependency mode of a whole generated trait: still parameterized, or
/// pinned to one concrete implementing type.
#[derive(Debug, PartialEq, Eq)]
pub enum TraitDependencyMode {
    Generic { idents: GenericIdents },
    Concrete { ty: TypeExpr },
}

#[verifier::ext_equal]
pub enum TraitDependencyModeV {
    Generic { idents: GenericIdentsV },
    Concrete { ty: TypeExprV },
}

impl DeepView for TraitDependencyMode {
    type V = TraitDependencyModeV;

    open spec fn deep_view(&self) -> TraitDependencyModeV {
        match self {
            TraitDependencyMode::Generic { idents } => TraitDependencyModeV::Generic {
                idents: idents.deep_view(),
            },
            TraitDependencyMode::Concrete { ty } => TraitDependencyModeV::Concrete {
                ty: ty.deep_view(),
            },
        }
    }
}

/// One fully analyzed function: its input signature, its dependency shape,
/// and its converted trait-method signature.
#[derive(Debug, PartialEq, Eq)]
pub struct TraitFn {
    pub input_sig: FnSignature,
    pub deps: DependencyShape,
    pub entrait_sig: EntraitSignature,
}

#[verifier::ext_equal]
pub struct TraitFnV {
    pub input_sig: FnSignatureV,
    pub deps: DependencyShapeV,
    pub entrait_sig: EntraitSignatureV,
}

impl DeepView for TraitFn {
    type V = TraitFnV;

    open spec fn deep_view(&self) -> TraitFnV {
        TraitFnV {
            input_sig: self.input_sig.deep_view(),
            deps: self.deps.deep_view(),
            entrait_sig: self.entrait_sig.deep_view(),
        }
    }
}

impl TraitFn {
    /// The trait-method-shaped signature of this function.
    pub fn sig(&self) -> (r: &FnSignature)
        ensures
            r.deep_view() == self.entrait_sig.sig.deep_view(),
    {
        &self.entrait_sig.sig
    }
}

/// The trait-level mode the classified functions resolve to, scanning from
/// position `i` on: the first concrete dependency in a module input is a
/// hard error, a lone one pins the whole trait, and none at all leaves the
/// trait generic with a fresh identifier context.
pub open spec fn resolve_mode_from(fns: Seq<TraitFnV>, is_module: bool, i: int) -> Result<
    TraitDependencyModeV,
    AnalysisError,
>
    decreases fns.len() - i,
{
    if i < 0 || i >= fns.len() {
        Result::Ok(TraitDependencyModeV::Generic { idents: generic_idents_spec() })
    } else {
        match fns[i].deps {
            DependencyShapeV::Concrete { span, ty } => if is_module {
                Result::Err(
                    AnalysisError { kind: AnalysisErrorKind::ConcreteDependencyInModule, span },
                )
            } else {
                Result::Ok(TraitDependencyModeV::Concrete { ty })
            },
            _ => resolve_mode_from(fns, is_module, i + 1),
        }
    }
}

/// The trait-level mode of the whole function set.
pub open spec fn resolve_mode_spec(fns: Seq<TraitFnV>, is_module: bool) -> Result<
    TraitDependencyModeV,
    AnalysisError,
> {
    resolve_mode_from(fns, is_module, 0)
}

/// Scans the classified functions destined for one trait and resolves the
/// trait's dependency mode; a concrete-dependency function inside a
/// multi-function module is rejected rather than silently contradicting
/// the shared-trait model.
pub fn detect_trait_dependency_mode(input_mode: FnInputMode, trait_fns: &Vec<TraitFn>) -> (r:
    Result<TraitDependencyMode, AnalysisError>)
    ensures
        match r {
            Result::Ok(m) => resolve_mode_spec(trait_fns.deep_view(), input_mode is Module)
                == Result::<TraitDependencyModeV, AnalysisError>::Ok(m.deep_view()),
            Result::Err(e) => resolve_mode_spec(trait_fns.deep_view(), input_mode is Module)
                == Result::<TraitDependencyModeV, AnalysisError>::Err(e),
        },
{
    let ghost fv = trait_fns.deep_view();
    let ghost is_module = input_mode is Module;
    let n = trait_fns.len();
    let mut i: usize = 0;
    while i < n
        invariant
            i <= n,
            n == trait_fns.len(),
            fv == trait_fns.deep_view(),
            is_module == (input_mode is Module),
            resolve_mode_spec(fv, is_module) == resolve_mode_from(fv, is_module, i as int),
        decreases n - i,
    {
        let tf = &trait_fns[i];
        proof {
            assert(tf.deep_view() == fv[i as int]);
        }
        match &tf.deps {
            DependencyShape::Concrete { span, ty } => {
                return match input_mode {
                    FnInputMode::Module => Result::Err(
                        AnalysisError {
                            kind: AnalysisErrorKind::ConcreteDependencyInModule,
                            span: *span,
                        },
                    ),
                    FnInputMode::SingleFn => Result::Ok(
                        TraitDependencyMode::Concrete { ty: duplicate_type(ty) },
                    ),
                };
            },
            _ => {},
        }
        i = i + 1;
    }
    Result::Ok(TraitDependencyMode::Generic { idents: GenericIdents::new() })
}

/// Classifies and converts one function for the trait under construction.
pub struct TraitFnAnalyzer {
    /// Whether the converter injects the auxiliary dynamic-implementation
    /// parameter.
    pub inject_dyn_impl_param: bool,
    /// The location synthesized tokens inherit.
    pub trait_span: usize,
    pub crate_idents: CrateIdents,
    pub opts: Opts,
}

impl TraitFnAnalyzer {
    /// Runs the dependency-shape analysis and the signature conversion for
    /// one function: the classification feeds the shared accumulator, and
    /// the converted signature is exactly what `convert_spec` describes
    /// for the classified shape. The first error wins; the accumulator is
    /// only extended by a successful classification.
    pub fn analyze(self, input_sig: FnSignature, fn_index: usize, analyzer: &mut GenericsAnalyzer)
        -> (r: Result<TraitFn, AnalysisError>)
        requires
            self.inject_dyn_impl_param ==> input_sig.params@.len() > 0,
            use_fut_spec(input_sig.deep_view(), self.opts) ==> !return_has_elided(
                input_sig.deep_view().output,
            ),
        ensures
            final(analyzer).accum() == contribution(
                old(analyzer).accum(),
                input_sig.deep_view(),
                self.opts.no_deps,
            ),
            ({
                let sigv = input_sig.deep_view();
                let cls = classify_spec(sigv, self.opts.no_deps);
                match r {
                    Result::Ok(tf) => {
                        &&& tf.input_sig.deep_view() == sigv
                        &&& cls == Result::<DependencyShapeV, AnalysisError>::Ok(
                            tf.deps.deep_view(),
                        )
                        &&& convert_spec(
                            sigv,
                            tf.deps.deep_view(),
                            self.inject_dyn_impl_param,
                            use_fut_spec(sigv, self.opts),
                            fn_index,
                            self.trait_span,
                            self.crate_idents.entrait@,
                            generic_idents_spec().impl_t,
                        ) == Result::<EntraitSignatureV, AnalysisError>::Ok(
                            tf.entrait_sig.deep_view(),
                        )
                    },
                    Result::Err(e) => match cls {
                        Result::Err(ce) => e == ce,
                        Result::Ok(shape) => convert_spec(
                            sigv,
                            shape,
                            self.inject_dyn_impl_param,
                            use_fut_spec(sigv, self.opts),
                            fn_index,
                            self.trait_span,
                            self.crate_idents.entrait@,
                            generic_idents_spec().impl_t,
                        ) == Result::<EntraitSignatureV, AnalysisError>::Err(e),
                    },
                }
            }),
    {
        let deps = match analyzer.analyze_fn_deps(&input_sig, &self.opts) {
            Result::Ok(d) => d,
            Result::Err(e) => {
                return Result::Err(e);
            },
        };
        let converter = SignatureConverter {
            crate_idents: self.crate_idents,
            trait_span: self.trait_span,
            opts: self.opts,
            inject_dyn_impl_param: self.inject_dyn_impl_param,
            fn_index,
        };
        match converter.convert_fn_to_trait_fn(&input_sig, &deps) {
            Result::Ok(entrait_sig) => Result::Ok(TraitFn { input_sig, deps, entrait_sig }),
            Result::Err(e) => Result::Err(e),
        }
    }
}

/// Whether a written type is exactly the unqualified single-segment path
/// naming `id`.
pub fn type_is_ident(t: &TypeExpr, id: &String) -> (r: bool)
    ensures
        r == is_ident_path(t.deep_view(), id@),
{
    match t {
        TypeExpr::Path { path } => !path.qself && !path.leading_colon && path.segments.len() == 1
            && string_eq(&path.segments[0].ident, id),
        _ => false,
    }
}

} // verus!
