//! The signature converter: rewrites a standalone function signature into a
//! trait method signature. A receiver is inserted or rewritten from the
//! dependency parameter, an auxiliary dynamic-implementation parameter may
//! be injected, an `async` return may become an associated future, and the
//! generics the dependency consumed are stripped from the surviving
//! signature.

use vstd::prelude::*;

use crate::analyze_generics::{
    is_ident_path, AnalysisError, AnalysisErrorKind, DependencyShape, DependencyShapeV,
};
use crate::ast::{
    ArgPat, ArgPatV, FnParam, FnParamV, FnSignature, FnSignatureV, GenericParam, GenericParamV,
    Generics, GenericsV, LifetimeRef, LifetimeRefV, ParamKind, ParamKindV, PathSegment,
    PathSegmentV, ReturnType, TypeExpr, TypeExprV, TypePath, TypePathV, WhereClause, WhereClauseV,
    WherePredicate, WherePredicateV,
};
use crate::ast_ops::{
    duplicate_fn_param, duplicate_generic_param, duplicate_generics, duplicate_lifetime_ref,
    duplicate_return_type, duplicate_where_predicate, string_eq,
};
use crate::future::{convert_future_spec, FutDecl, FutDeclV, FutImpl, FutImplV};
use crate::idents::{generic_idents_spec, CrateIdents, GenericIdents};
use crate::lifetimes::{return_has_elided, LifetimeFact, LifetimeFactV};
use crate::opt::{AsyncStrategy, Opts};

verus! {

/// How the trait method's receiver comes to be.
#[derive(Clone, Copy, Debug, PartialEq, Eq, Structural)]
pub enum ReceiverGeneration {
    /// A `&self` parameter is prepended: no dependency parameter exists,
    /// or none is left to rewrite and a receiver must host the future.
    Insert,
    /// The dependency parameter is itself a reference: its mutability-free
    /// form becomes the receiver, keeping an explicit lifetime.
    Rewrite,
    /// The dependency parameter is not a reference: it is replaced
    /// outright with a plain `&self`.
    RewriteToPlain,
    /// No transformation: a dependency-carrying function with no
    /// parameters and no future conversion. Deliberately kept a silent
    /// no-op rather than an error, matching the edge case's treatment as a
    /// no-op receiver policy.
    NoOp,
}

/// The converter's output: the trait-method-shaped signature, the optional
/// matched future fragment pair, and the lifetime catalogue behind them.
#[derive(Debug, PartialEq, Eq)]
pub struct EntraitSignature {
    pub sig: FnSignature,
    pub associated_fut_decl: Option<FutDecl>,
    pub associated_fut_impl: Option<FutImpl>,
    pub lifetimes: Vec<LifetimeFact>,
}

#[verifier::ext_equal]
pub struct EntraitSignatureV {
    pub sig: FnSignatureV,
    pub associated_fut_decl: Option<FutDeclV>,
    pub associated_fut_impl: Option<FutImplV>,
    pub lifetimes: Seq<LifetimeFactV>,
}

impl DeepView for EntraitSignature {
    type V = EntraitSignatureV;

    open spec fn deep_view(&self) -> EntraitSignatureV {
        EntraitSignatureV {
            sig: self.sig.deep_view(),
            associated_fut_decl: self.associated_fut_decl.deep_view(),
            associated_fut_impl: self.associated_fut_impl.deep_view(),
            lifetimes: self.lifetimes.deep_view(),
        }
    }
}

/// Whether this signature, under these options, converts to the
/// associated-future form.
pub open spec fn use_fut_spec(sig: FnSignatureV, opts: Opts) -> bool {
    opts.async_strategy == AsyncStrategy::AssociatedFuture && sig.is_async
}

impl FnSignature {
    /// Whether this signature, under these options, converts to the
    /// associated-future form.
    pub fn use_associated_future(&self, opts: &Opts) -> (r: bool)
        ensures
            r == use_fut_spec(self.deep_view(), *opts),
    {
        match opts.async_strategy {
            AsyncStrategy::AssociatedFuture => self.is_async,
            _ => false,
        }
    }
}

// ------------------------------------------------------------------
// The conversion, as a pure function
// ------------------------------------------------------------------

/// Whether a shape carries a dependency parameter to rewrite.
pub open spec fn shape_has_dep(d: DependencyShapeV) -> bool {
    !(d is NoDependency)
}

/// The receiver-generation policy, chosen once per conversion.
pub open spec fn receiver_generation_spec(
    deps: DependencyShapeV,
    sig: FnSignatureV,
    use_fut: bool,
) -> ReceiverGeneration {
    if !shape_has_dep(deps) {
        ReceiverGeneration::Insert
    } else if sig.params.len() == 0 {
        if use_fut {
            ReceiverGeneration::Insert
        } else {
            ReceiverGeneration::NoOp
        }
    } else {
        match sig.params[0].kind {
            ParamKindV::Typed { pat, ty } => match ty {
                TypeExprV::Reference { lifetime, mutable, elem } => ReceiverGeneration::Rewrite,
                _ => ReceiverGeneration::RewriteToPlain,
            },
            _ => ReceiverGeneration::NoOp,
        }
    }
}

/// The prepended `&self` parameter, located at the trait's span.
pub open spec fn inserted_receiver(span: usize) -> FnParamV {
    FnParamV {
        span,
        kind: ParamKindV::Receiver {
            reference: true,
            lifetime: LifetimeRefV::Elided,
            mutable: false,
        },
    }
}

/// The parameter list after the receiver policy is applied.
pub open spec fn apply_receiver(
    params: Seq<FnParamV>,
    rg: ReceiverGeneration,
    trait_span: usize,
) -> Seq<FnParamV> {
    match rg {
        ReceiverGeneration::Insert => seq![inserted_receiver(trait_span)] + params,
        ReceiverGeneration::Rewrite => {
            let lt = match params[0].kind {
                ParamKindV::Typed { pat, ty } => match ty {
                    TypeExprV::Reference { lifetime, mutable, elem } => lifetime,
                    _ => LifetimeRefV::Elided,
                },
                _ => LifetimeRefV::Elided,
            };
            params.update(
                0,
                FnParamV {
                    span: params[0].span,
                    kind: ParamKindV::Receiver { reference: true, lifetime: lt, mutable: false },
                },
            )
        },
        ReceiverGeneration::RewriteToPlain => params.update(
            0,
            FnParamV {
                span: params[0].span,
                kind: ParamKindV::Receiver {
                    reference: true,
                    lifetime: LifetimeRefV::Elided,
                    mutable: false,
                },
            },
        ),
        ReceiverGeneration::NoOp => params,
    }
}

/// The auxiliary dynamic-implementation parameter,
/// `__impl: &::<entrait>::Impl<<impl_t>>`.
pub open spec fn aux_param_spec(entrait: Seq<char>, impl_t: Seq<char>, span: usize) -> FnParamV {
    FnParamV {
        span,
        kind: ParamKindV::Typed {
            pat: ArgPatV::Ident("__impl"@),
            ty: TypeExprV::Reference {
                lifetime: LifetimeRefV::Elided,
                mutable: false,
                elem: Box::new(
                    TypeExprV::Path {
                        path: TypePathV {
                            qself: false,
                            leading_colon: true,
                            segments: seq![
                                PathSegmentV {
                                    ident: entrait,
                                    lifetime_args: Seq::empty(),
                                    type_arg_idents: Seq::empty(),
                                },
                                PathSegmentV {
                                    ident: "Impl"@,
                                    lifetime_args: Seq::empty(),
                                    type_arg_idents: seq![impl_t],
                                },
                            ],
                        },
                    },
                ),
            },
        },
    }
}

/// The surviving generic parameters once the matched one is removed, from
/// position `i` on.
pub open spec fn strip_params_from(
    params: Seq<GenericParamV>,
    id: Seq<char>,
    i: int,
    out: Seq<GenericParamV>,
) -> Seq<GenericParamV>
    decreases params.len() - i,
{
    if i < 0 || i >= params.len() {
        out
    } else {
        let dropped = match params[i] {
            GenericParamV::Type { ident, bounds } => ident == id,
            _ => false,
        };
        let step = if dropped {
            out
        } else {
            out.push(params[i])
        };
        strip_params_from(params, id, i + 1, step)
    }
}

/// The surviving where-predicates once those bounding exactly the matched
/// identifier are dropped, from position `i` on.
pub open spec fn strip_preds_from(
    preds: Seq<WherePredicateV>,
    id: Seq<char>,
    i: int,
    out: Seq<WherePredicateV>,
) -> Seq<WherePredicateV>
    decreases preds.len() - i,
{
    if i < 0 || i >= preds.len() {
        out
    } else {
        let dropped = match preds[i] {
            WherePredicateV::Type { bounded_ty, bounds } => is_ident_path(bounded_ty, id),
            _ => false,
        };
        let step = if dropped {
            out
        } else {
            out.push(preds[i])
        };
        strip_preds_from(preds, id, i + 1, step)
    }
}

/// The signature generics once the matched named-generic parameter (if
/// any) is removed and its predicates dropped.
pub open spec fn strip_matched(g: GenericsV, deps: DependencyShapeV) -> GenericsV {
    match deps {
        DependencyShapeV::NamedGeneric { ident, trait_bounds } => GenericsV {
            params: strip_params_from(g.params, ident, 0, Seq::empty()),
            where_clause: match g.where_clause {
                Option::Some(wc) => Option::Some(
                    WhereClauseV { predicates: strip_preds_from(wc.predicates, ident, 0, Seq::empty()) },
                ),
                Option::None => Option::None,
            },
        },
        _ => g,
    }
}

/// A present-but-empty where-clause is normalized to absent.
pub open spec fn tidy_generics_spec(g: GenericsV) -> GenericsV {
    GenericsV {
        params: g.params,
        where_clause: match g.where_clause {
            Option::Some(wc) => if wc.predicates.len() == 0 {
                Option::None
            } else {
                Option::Some(wc)
            },
            Option::None => Option::None,
        },
    }
}

/// The location of the first parameter pattern that is not a simple
/// identifier, from position `i` on: such a pattern cannot be re-cited by
/// the delegating call.
pub open spec fn first_non_ident_pattern_from(params: Seq<FnParamV>, i: int) -> Option<usize>
    decreases params.len() - i,
{
    if i < 0 || i >= params.len() {
        Option::None
    } else {
        match params[i].kind {
            ParamKindV::Typed { pat, ty } => if !(pat is Ident) {
                Option::Some(params[i].span)
            } else {
                first_non_ident_pattern_from(params, i + 1)
            },
            _ => first_non_ident_pattern_from(params, i + 1),
        }
    }
}

/// The parameter list with the auxiliary parameter in the second slot,
/// immediately after the receiver, when it is requested.
pub open spec fn inject_aux(params1: Seq<FnParamV>, aux: FnParamV, inject: bool) -> Seq<FnParamV> {
    if inject {
        seq![params1[0], aux] + params1.skip(1)
    } else {
        params1
    }
}

/// The whole conversion from a standalone `fn` signature to a trait method
/// signature, as a pure function of its inputs.
pub open spec fn convert_spec(
    sig: FnSignatureV,
    deps: DependencyShapeV,
    inject: bool,
    use_fut: bool,
    ordinal: usize,
    trait_span: usize,
    entrait: Seq<char>,
    impl_t: Seq<char>,
) -> Result<EntraitSignatureV, AnalysisError> {
    let rg = receiver_generation_spec(deps, sig, use_fut);
    let params1 = apply_receiver(sig.params, rg, trait_span);
    let params2 = inject_aux(params1, aux_param_spec(entrait, impl_t, trait_span), inject);
    let sig1 = FnSignatureV { params: params2, ..sig };
    let (sig2, fut_decl, fut_impl, facts) = if use_fut {
        let (s, d, im, f) = convert_future_spec(sig1, ordinal);
        (s, Option::Some(d), Option::Some(im), f)
    } else {
        (sig1, Option::None, Option::None, Seq::empty())
    };
    let sig3 = FnSignatureV {
        generics: tidy_generics_spec(strip_matched(sig2.generics, deps)),
        ..sig2
    };
    match first_non_ident_pattern_from(sig3.params, 0) {
        Option::Some(span) => Result::Err(
            AnalysisError { kind: AnalysisErrorKind::NonIdentifierArgumentPattern, span },
        ),
        Option::None => Result::Ok(
            EntraitSignatureV {
                sig: sig3,
                associated_fut_decl: fut_decl,
                associated_fut_impl: fut_impl,
                lifetimes: facts,
            },
        ),
    }
}

// ------------------------------------------------------------------
// The executable converter
// ------------------------------------------------------------------

/// Appends duplicates of `src[start..]` to `out`.
fn append_param_duplicates(out: &mut Vec<FnParam>, src: &Vec<FnParam>, start: usize)
    requires
        start <= src@.len(),
    ensures
        final(out).deep_view() == old(out).deep_view() + src.deep_view().skip(start as int),
{
    let n = src.len();
    let mut i: usize = start;
    while i < n
        invariant
            start <= i <= n,
            n == src.len(),
            out@.len() == old(out)@.len() + i - start,
            forall|j: int|
                0 <= j < old(out)@.len() ==> out.deep_view()[j] == old(out).deep_view()[j],
            forall|j: int|
                start <= j < i ==> out.deep_view()[old(out)@.len() + j - start]
                    == src.deep_view()[j],
        decreases n - i,
    {
        out.push(duplicate_fn_param(&src[i]));
        i = i + 1;
    }
    proof {
        assert(out.deep_view() =~= old(out).deep_view() + src.deep_view().skip(start as int));
    }
}

/// The location of the first parameter pattern that is not a simple
/// identifier.
fn first_non_ident(params: &Vec<FnParam>) -> (r: Option<usize>)
    ensures
        r == first_non_ident_pattern_from(params.deep_view(), 0),
{
    let ghost pv = params.deep_view();
    let n = params.len();
    let mut i: usize = 0;
    while i < n
        invariant
            i <= n,
            n == params.len(),
            pv == params.deep_view(),
            first_non_ident_pattern_from(pv, 0) == first_non_ident_pattern_from(pv, i as int),
        decreases n - i,
    {
        let p = &params[i];
        proof {
            assert(p.deep_view() == pv[i as int]);
        }
        match &p.kind {
            ParamKind::Typed { pat, ty } => {
                let bad = match pat {
                    ArgPat::Ident(name) => false,
                    ArgPat::Other => true,
                };
                if bad {
                    return Option::Some(p.span);
                }
            },
            _ => {},
        }
        i = i + 1;
    }
    Option::None
}

/// The surviving generics once the matched named-generic parameter is
/// removed and the predicates bounding it are dropped.
fn strip_matched_exec(g: &Generics, id: &String) -> (r: Generics)
    ensures
        r.deep_view() == (GenericsV {
            params: strip_params_from(g.deep_view().params, id@, 0, Seq::empty()),
            where_clause: match g.deep_view().where_clause {
                Option::Some(wc) => Option::Some(
                    WhereClauseV {
                        predicates: strip_preds_from(wc.predicates, id@, 0, Seq::empty()),
                    },
                ),
                Option::None => Option::None,
            },
        }),
{
    let ghost gv = g.deep_view();
    let n = g.params.len();
    let mut params: Vec<GenericParam> = Vec::new();
    proof {
        assert(params.deep_view() =~= Seq::<GenericParamV>::empty());
    }
    let mut i: usize = 0;
    while i < n
        invariant
            i <= n,
            n == g.params.len(),
            gv == g.deep_view(),
            strip_params_from(gv.params, id@, 0, Seq::empty()) == strip_params_from(
                gv.params,
                id@,
                i as int,
                params.deep_view(),
            ),
        decreases n - i,
    {
        let ghost prev = params.deep_view();
        let dropped = match &g.params[i] {
            GenericParam::Type { ident, bounds } => string_eq(ident, id),
            _ => false,
        };
        if !dropped {
            params.push(duplicate_generic_param(&g.params[i]));
            proof {
                assert(params.deep_view() =~= prev.push(gv.params[i as int]));
            }
        }
        i = i + 1;
    }
    let where_clause = match &g.where_clause {
        Option::Some(wc) => {
            let m = wc.predicates.len();
            let mut predicates: Vec<WherePredicate> = Vec::new();
            proof {
                assert(predicates.deep_view() =~= Seq::<WherePredicateV>::empty());
            }
            let mut k: usize = 0;
            while k < m
                invariant
                    k <= m,
                    m == wc.predicates.len(),
                    gv == g.deep_view(),
                    gv.where_clause == Option::Some(
                        WhereClauseV { predicates: wc.predicates.deep_view() },
                    ),
                    strip_preds_from(wc.predicates.deep_view(), id@, 0, Seq::empty())
                        == strip_preds_from(
                        wc.predicates.deep_view(),
                        id@,
                        k as int,
                        predicates.deep_view(),
                    ),
                decreases m - k,
            {
                let ghost prev = predicates.deep_view();
                let dropped = match &wc.predicates[k] {
                    WherePredicate::Type { bounded_ty, bounds } => crate::analyze_generics::type_is_ident(
                        bounded_ty,
                        id,
                    ),
                    _ => false,
                };
                if !dropped {
                    predicates.push(duplicate_where_predicate(&wc.predicates[k]));
                    proof {
                        assert(predicates.deep_view() =~= prev.push(
                            wc.predicates.deep_view()[k as int],
                        ));
                    }
                }
                k = k + 1;
            }
            Option::Some(WhereClause { predicates })
        },
        Option::None => Option::None,
    };
    Generics { params, where_clause }
}

/// Normalizes a present-but-empty where-clause to absent.
fn tidy_generics(g: &mut Generics)
    ensures
        final(g).deep_view() == tidy_generics_spec(old(g).deep_view()),
{
    let empty = match &g.where_clause {
        Option::Some(wc) => wc.predicates.len() == 0,
        Option::None => false,
    };
    if empty {
        g.where_clause = Option::None;
        proof {
            assert(g.deep_view() =~= tidy_generics_spec(old(g).deep_view()));
        }
    }
}

/// Rewrites one standalone function signature into a trait method
/// signature, for one dependency shape.
pub struct SignatureConverter {
    /// The identifier registry of this transformation unit.
    pub crate_idents: CrateIdents,
    /// The location synthesized parameters inherit.
    pub trait_span: usize,
    pub opts: Opts,
    /// Whether to insert the auxiliary dynamic-implementation parameter in
    /// the second slot.
    pub inject_dyn_impl_param: bool,
    /// The function's ordinal within its processing batch; names the
    /// associated future.
    pub fn_index: usize,
}

impl SignatureConverter {
    /// The receiver-generation policy for this signature and shape.
    pub fn detect_receiver_generation(&self, sig: &FnSignature, deps: &DependencyShape, use_fut: bool)
        -> (r: ReceiverGeneration)
        ensures
            r == receiver_generation_spec(deps.deep_view(), sig.deep_view(), use_fut),
    {
        match deps {
            DependencyShape::NoDependency => ReceiverGeneration::Insert,
            _ => {
                if sig.params.len() == 0 {
                    if use_fut {
                        ReceiverGeneration::Insert
                    } else {
                        ReceiverGeneration::NoOp
                    }
                } else {
                    let p0 = &sig.params[0];
                    proof {
                        assert(p0.deep_view() == sig.deep_view().params[0]);
                    }
                    match &p0.kind {
                        ParamKind::Typed { pat, ty } => match ty {
                            TypeExpr::Reference { lifetime, mutable, elem } => {
                                ReceiverGeneration::Rewrite
                            },
                            _ => ReceiverGeneration::RewriteToPlain,
                        },
                        ParamKind::Receiver { reference, lifetime, mutable } => {
                            ReceiverGeneration::NoOp
                        },
                    }
                }
            },
        }
    }

    /// The auxiliary dynamic-implementation parameter.
    fn aux_param(&self) -> (r: FnParam)
        ensures
            r.deep_view() == aux_param_spec(
                self.crate_idents.entrait@,
                generic_idents_spec().impl_t,
                self.trait_span,
            ),
    {
        let ghost spec_aux = aux_param_spec(
            self.crate_idents.entrait@,
            generic_idents_spec().impl_t,
            self.trait_span,
        );
        let gi = GenericIdents::new();
        let mut type_args: Vec<String> = Vec::new();
        type_args.push(gi.impl_t);
        proof {
            assert(type_args.deep_view() =~= seq![generic_idents_spec().impl_t]);
        }
        let mut segments: Vec<PathSegment> = Vec::new();
        let seg0 = PathSegment {
            ident: self.crate_idents.entrait.clone(),
            lifetime_args: Vec::new(),
            type_arg_idents: Vec::new(),
        };
        let seg1 = PathSegment {
            ident: "Impl".to_owned(),
            lifetime_args: Vec::new(),
            type_arg_idents: type_args,
        };
        let ghost spec_segs = match spec_aux.kind {
            ParamKindV::Typed { pat, ty } => match ty {
                TypeExprV::Reference { lifetime, mutable, elem } => match *elem {
                    TypeExprV::Path { path } => path.segments,
                    _ => Seq::empty(),
                },
                _ => Seq::empty(),
            },
            _ => Seq::empty(),
        };
        let ghost seg0v = seg0.deep_view();
        let ghost seg1v = seg1.deep_view();
        proof {
            assert(seg0v =~= spec_segs[0]);
            assert(seg1v =~= spec_segs[1]);
        }
        segments.push(seg0);
        segments.push(seg1);
        proof {
            assert(segments.deep_view() =~= seq![seg0v, seg1v]);
            assert(segments.deep_view() =~= spec_segs);
        }
        let inner = TypeExpr::Path {
            path: TypePath { qself: false, leading_colon: true, segments },
        };
        let ghost inner_v = inner.deep_view();
        proof {
            assert(inner_v =~= TypeExprV::Path {
                path: TypePathV { qself: false, leading_colon: true, segments: spec_segs },
            });
        }
        let r = FnParam {
            span: self.trait_span,
            kind: ParamKind::Typed {
                pat: ArgPat::Ident("__impl".to_owned()),
                ty: TypeExpr::Reference {
                    lifetime: LifetimeRef::Elided,
                    mutable: false,
                    elem: Box::new(inner),
                },
            },
        };
        proof {
            assert(r.deep_view() =~~= aux_param_spec(
                self.crate_idents.entrait@,
                generic_idents_spec().impl_t,
                self.trait_span,
            ));
        }
        r
    }

    /// Convert from a standalone `fn` signature to a trait `fn` signature:
    /// exactly the outcome `convert_spec` describes. The auxiliary
    /// parameter is only ever requested for signatures that still have a
    /// parameter, and a signature headed for future conversion carries no
    /// elided return lifetime — the caller has prevented both upstream.
    pub fn convert_fn_to_trait_fn(&self, sig: &FnSignature, deps: &DependencyShape) -> (r: Result<
        EntraitSignature,
        AnalysisError,
    >)
        requires
            self.inject_dyn_impl_param ==> sig.params@.len() > 0,
            use_fut_spec(sig.deep_view(), self.opts) ==> !return_has_elided(
                sig.deep_view().output,
            ),
        ensures
            ({
                let spec_r = convert_spec(
                    sig.deep_view(),
                    deps.deep_view(),
                    self.inject_dyn_impl_param,
                    use_fut_spec(sig.deep_view(), self.opts),
                    self.fn_index,
                    self.trait_span,
                    self.crate_idents.entrait@,
                    generic_idents_spec().impl_t,
                );
                match r {
                    Result::Ok(es) => spec_r == Result::<EntraitSignatureV, AnalysisError>::Ok(
                        es.deep_view(),
                    ),
                    Result::Err(e) => spec_r == Result::<EntraitSignatureV, AnalysisError>::Err(e),
                }
            }),
    {
        let ghost sv = sig.deep_view();
        let use_fut = sig.use_associated_future(&self.opts);
        let rg = self.detect_receiver_generation(sig, deps, use_fut);
        let ghost params1 = apply_receiver(sv.params, rg, self.trait_span);
        let ghost auxv = aux_param_spec(
            self.crate_idents.entrait@,
            generic_idents_spec().impl_t,
            self.trait_span,
        );
        let ghost params2 = inject_aux(params1, auxv, self.inject_dyn_impl_param);

        let mut params: Vec<FnParam> = Vec::new();
        let nonempty = match rg {
            ReceiverGeneration::Insert => {
                params.push(
                    FnParam {
                        span: self.trait_span,
                        kind: ParamKind::Receiver {
                            reference: true,
                            lifetime: LifetimeRef::Elided,
                            mutable: false,
                        },
                    },
                );
                proof {
                    assert(params.deep_view() =~= seq![inserted_receiver(self.trait_span)]);
                }
                true
            },
            ReceiverGeneration::Rewrite => {
                let p0 = &sig.params[0];
                proof {
                    assert(p0.deep_view() == sv.params[0]);
                }
                let lt = match &p0.kind {
                    ParamKind::Typed { pat, ty } => match ty {
                        TypeExpr::Reference { lifetime, mutable, elem } => duplicate_lifetime_ref(
                            lifetime,
                        ),
                        _ => LifetimeRef::Elided,
                    },
                    _ => LifetimeRef::Elided,
                };
                params.push(
                    FnParam {
                        span: p0.span,
                        kind: ParamKind::Receiver { reference: true, lifetime: lt, mutable: false },
                    },
                );
                proof {
                    assert(params.deep_view() =~= seq![params1[0]]);
                }
                true
            },
            ReceiverGeneration::RewriteToPlain => {
                let p0 = &sig.params[0];
                proof {
                    assert(p0.deep_view() == sv.params[0]);
                }
                params.push(
                    FnParam {
                        span: p0.span,
                        kind: ParamKind::Receiver {
                            reference: true,
                            lifetime: LifetimeRef::Elided,
                            mutable: false,
                        },
                    },
                );
                proof {
                    assert(params.deep_view() =~= seq![params1[0]]);
                }
                true
            },
            ReceiverGeneration::NoOp => {
                if sig.params.len() > 0 {
                    let p0 = &sig.params[0];
                    proof {
                        assert(p0.deep_view() == sv.params[0]);
                    }
                    params.push(duplicate_fn_param(p0));
                    proof {
                        assert(params.deep_view() =~= seq![params1[0]]);
                    }
                    true
                } else {
                    false
                }
            },
        };
        if nonempty {
            if self.inject_dyn_impl_param {
                let ghost before = params.deep_view();
                params.push(self.aux_param());
                proof {
                    assert(params.deep_view() =~= before.push(auxv));
                }
            }
            let start: usize = match rg {
                ReceiverGeneration::Insert => 0,
                _ => 1,
            };
            append_param_duplicates(&mut params, &sig.params, start);
            proof {
                assert(params.deep_view() =~= params2);
            }
        } else {
            proof {
                assert(params.deep_view() =~= params2);
            }
        }

        let mut new_sig = FnSignature {
            span: sig.span,
            ident: sig.ident.clone(),
            is_async: sig.is_async,
            generics: duplicate_generics(&sig.generics),
            params,
            output: duplicate_return_type(&sig.output),
        };
        proof {
            assert(new_sig.deep_view() =~= (FnSignatureV { params: params2, ..sv }));
        }
        let ghost sig1 = FnSignatureV { params: params2, ..sv };

        let mut es = EntraitSignature {
            sig: new_sig,
            associated_fut_decl: Option::None,
            associated_fut_impl: Option::None,
            lifetimes: Vec::new(),
        };
        if use_fut {
            es.convert_to_associated_future(self.fn_index);
        } else {
            proof {
                assert(es.lifetimes.deep_view() =~= Seq::<LifetimeFactV>::empty());
            }
        }

        match deps {
            DependencyShape::NamedGeneric { ident, trait_bounds } => {
                let g2 = strip_matched_exec(&es.sig.generics, ident);
                es.sig.generics = g2;
            },
            _ => {},
        }
        proof {
            let sig2 = if use_fut_spec(sv, self.opts) {
                convert_future_spec(sig1, self.fn_index).0
            } else {
                sig1
            };
            assert(es.sig.generics.deep_view() == strip_matched(sig2.generics, deps.deep_view()));
        }
        tidy_generics(&mut es.sig.generics);

        match first_non_ident(&es.sig.params) {
            Option::Some(span) => Result::Err(
                AnalysisError { kind: AnalysisErrorKind::NonIdentifierArgumentPattern, span },
            ),
            Option::None => {
                proof {
                    assert(convert_spec(
                        sv,
                        deps.deep_view(),
                        self.inject_dyn_impl_param,
                        use_fut_spec(sv, self.opts),
                        self.fn_index,
                        self.trait_span,
                        self.crate_idents.entrait@,
                        generic_idents_spec().impl_t,
                    ) =~= Result::<EntraitSignatureV, AnalysisError>::Ok(es.deep_view()));
                }
                Result::Ok(es)
            },
        }
    }
}

} // verus!
