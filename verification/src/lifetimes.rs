//! The lifetime analyzer: walks a (post-receiver-rewrite) parameter list
//! and return type, replaces every elided lifetime with a fresh synthesized
//! name, and catalogues every distinct lifetime with its source. The
//! catalogue order is deterministic — first seen, receiver lifetimes before
//! argument lifetimes — and later becomes the generic-parameter order of
//! the associated future type.

use vstd::prelude::*;

use crate::ast::{
    FnParam, FnParamV, LifetimeName, LifetimeNameV, LifetimeRef, LifetimeRefV, ParamKind,
    ParamKindV, PathSegment, PathSegmentV, ReturnType, ReturnTypeV, TypeExpr, TypeExprV, TypePath,
    TypePathV,
};
use crate::ast_ops::{
    duplicate_lifetime_name, duplicate_lifetime_ref, duplicate_pat, duplicate_strings,
    lifetime_name_eq,
};

verus! {

/// Where a catalogued lifetime was seen first.
#[derive(Clone, Copy, Debug, PartialEq, Eq, Structural)]
pub enum SigComponent {
    Receiver,
    Argument,
    Return,
}

/// One catalogued lifetime: its name, the signature component it was first
/// seen in, and whether the author wrote it or it replaced an elided one.
#[derive(Debug, Clone, PartialEq, Eq)]
pub struct LifetimeFact {
    pub name: LifetimeName,
    pub source: SigComponent,
    pub user_provided: bool,
}

#[verifier::ext_equal]
pub struct LifetimeFactV {
    pub name: LifetimeNameV,
    pub source: SigComponent,
    pub user_provided: bool,
}

impl DeepView for LifetimeFact {
    type V = LifetimeFactV;

    open spec fn deep_view(&self) -> LifetimeFactV {
        LifetimeFactV {
            name: self.name.deep_view(),
            source: self.source,
            user_provided: self.user_provided,
        }
    }
}

/// The analyzer state: the catalogue so far and the number of names
/// synthesized so far.
#[verifier::ext_equal]
pub struct LtStateV {
    pub facts: Seq<LifetimeFactV>,
    pub counter: int,
}

/// The empty catalogue.
pub open spec fn lt_state_init() -> LtStateV {
    LtStateV { facts: Seq::empty(), counter: 0 }
}

/// Whether a lifetime of this name is already catalogued.
pub open spec fn has_fact(facts: Seq<LifetimeFactV>, n: LifetimeNameV) -> bool {
    exists|i: int| 0 <= i < facts.len() && facts[i].name == n
}

/// Records one lifetime position: an elided lifetime is given the next
/// synthesized name and catalogued as not user-provided; a named lifetime
/// keeps its name and is catalogued once, first seen source winning.
pub open spec fn record_lifetime(st: LtStateV, lt: LifetimeRefV, src: SigComponent) -> (
    LifetimeRefV,
    LtStateV,
) {
    match lt {
        LifetimeRefV::Elided => {
            let name = LifetimeNameV::Synthesized(st.counter as usize);
            (
                LifetimeRefV::Named(name),
                LtStateV {
                    facts: st.facts.push(
                        LifetimeFactV { name, source: src, user_provided: false },
                    ),
                    counter: st.counter + 1,
                },
            )
        },
        LifetimeRefV::Named(n) => if has_fact(st.facts, n) {
            (lt, st)
        } else {
            (
                lt,
                LtStateV {
                    facts: st.facts.push(LifetimeFactV { name: n, source: src, user_provided: true }),
                    counter: st.counter,
                },
            )
        },
    }
}

/// Records the lifetime arguments of one path segment, from position `i` on.
pub open spec fn record_args_from(
    args: Seq<LifetimeRefV>,
    src: SigComponent,
    i: int,
    out: Seq<LifetimeRefV>,
    st: LtStateV,
) -> (Seq<LifetimeRefV>, LtStateV)
    decreases args.len() - i,
{
    if i < 0 || i >= args.len() {
        (out, st)
    } else {
        let (a, st1) = record_lifetime(st, args[i], src);
        record_args_from(args, src, i + 1, out.push(a), st1)
    }
}

/// Records the lifetime arguments of a path's segments, from position `i` on.
pub open spec fn record_segments_from(
    segs: Seq<PathSegmentV>,
    src: SigComponent,
    i: int,
    out: Seq<PathSegmentV>,
    st: LtStateV,
) -> (Seq<PathSegmentV>, LtStateV)
    decreases segs.len() - i,
{
    if i < 0 || i >= segs.len() {
        (out, st)
    } else {
        let (new_args, st1) = record_args_from(
            segs[i].lifetime_args,
            src,
            0,
            Seq::empty(),
            st,
        );
        let seg = PathSegmentV {
            ident: segs[i].ident,
            lifetime_args: new_args,
            type_arg_idents: segs[i].type_arg_idents,
        };
        record_segments_from(segs, src, i + 1, out.push(seg), st1)
    }
}

/// Walks one type: every reference lifetime and every lifetime-carrying
/// generic argument is recorded, and the rewritten type names what was
/// elided.
pub open spec fn collect_type(t: TypeExprV, st: LtStateV, src: SigComponent) -> (
    TypeExprV,
    LtStateV,
)
    decreases t,
{
    match t {
        TypeExprV::Reference { lifetime, mutable, elem } => {
            let (lt2, st1) = record_lifetime(st, lifetime, src);
            let (e2, st2) = collect_type(*elem, st1, src);
            (TypeExprV::Reference { lifetime: lt2, mutable, elem: Box::new(e2) }, st2)
        },
        TypeExprV::Paren { elem } => {
            let (e2, st1) = collect_type(*elem, st, src);
            (TypeExprV::Paren { elem: Box::new(e2) }, st1)
        },
        TypeExprV::Path { path } => {
            let (segs, st1) = record_segments_from(path.segments, src, 0, Seq::empty(), st);
            (
                TypeExprV::Path {
                    path: TypePathV {
                        qself: path.qself,
                        leading_colon: path.leading_colon,
                        segments: segs,
                    },
                },
                st1,
            )
        },
        _ => (t, st),
    }
}

/// Walks the parameter list from position `i` on. The first parameter is
/// the receiver: its lifetimes are catalogued as receiver-sourced, every
/// other parameter's as argument-sourced.
pub open spec fn collect_params_from(
    params: Seq<FnParamV>,
    i: int,
    out: Seq<FnParamV>,
    st: LtStateV,
) -> (Seq<FnParamV>, LtStateV)
    decreases params.len() - i,
{
    if i < 0 || i >= params.len() {
        (out, st)
    } else {
        let src = if i == 0 {
            SigComponent::Receiver
        } else {
            SigComponent::Argument
        };
        let (kind, st1) = match params[i].kind {
            ParamKindV::Receiver { reference, lifetime, mutable } => if reference {
                let (lt2, st1) = record_lifetime(st, lifetime, src);
                (ParamKindV::Receiver { reference, lifetime: lt2, mutable }, st1)
            } else {
                (params[i].kind, st)
            },
            ParamKindV::Typed { pat, ty } => {
                let (t2, st1) = collect_type(ty, st, src);
                (ParamKindV::Typed { pat, ty: t2 }, st1)
            },
        };
        collect_params_from(
            params,
            i + 1,
            out.push(FnParamV { span: params[i].span, kind }),
            st1,
        )
    }
}

/// Walks the return type: occurrences there are return-sourced. Elided
/// return lifetimes are prevented upstream by construction.
pub open spec fn collect_output(output: ReturnTypeV, st: LtStateV) -> (ReturnTypeV, LtStateV) {
    match output {
        ReturnTypeV::Default => (output, st),
        ReturnTypeV::Ty(t) => {
            let (t2, st1) = collect_type(t, st, SigComponent::Return);
            (ReturnTypeV::Ty(t2), st1)
        },
    }
}

/// The whole analysis: the de-elided parameter list and return type, and
/// the ordered lifetime catalogue.
pub open spec fn collect_signature(params: Seq<FnParamV>, output: ReturnTypeV) -> (
    Seq<FnParamV>,
    ReturnTypeV,
    Seq<LifetimeFactV>,
) {
    let (p2, st1) = collect_params_from(params, 0, Seq::empty(), lt_state_init());
    let (o2, st2) = collect_output(output, st1);
    (p2, o2, st2.facts)
}

/// Whether a type still carries an elided lifetime position.
pub open spec fn type_has_elided(t: TypeExprV) -> bool
    decreases t,
{
    match t {
        TypeExprV::Reference { lifetime, mutable, elem } => lifetime is Elided || type_has_elided(
            *elem,
        ),
        TypeExprV::Paren { elem } => type_has_elided(*elem),
        TypeExprV::Path { path } => exists|i: int, j: int|
            0 <= i < path.segments.len() && 0 <= j < path.segments[i].lifetime_args.len()
                && path.segments[i].lifetime_args[j] is Elided,
        _ => false,
    }
}

/// Whether a return type carries an elided lifetime. A signature headed
/// for associated-future conversion must not: every return lifetime must
/// already appear, written out, in the parameters.
pub open spec fn return_has_elided(o: ReturnTypeV) -> bool {
    match o {
        ReturnTypeV::Default => false,
        ReturnTypeV::Ty(t) => type_has_elided(t),
    }
}

// ------------------------------------------------------------------
// The executable collector
// ------------------------------------------------------------------

/// Accumulates the catalogue while rewriting. `synth` is the number of
/// names synthesized so far; it never exceeds the catalogue length.
pub struct LifetimeCollector {
    facts: Vec<LifetimeFact>,
    synth: usize,
}

impl LifetimeCollector {
    /// The analyzer state, abstractly.
    pub closed spec fn st(&self) -> LtStateV {
        LtStateV { facts: self.facts.deep_view(), counter: self.synth as int }
    }

    /// The counter stays within the catalogue: the next synthesized name
    /// is representable.
    pub closed spec fn wf(&self) -> bool {
        self.synth <= self.facts.len()
    }

    /// A collector with an empty catalogue.
    pub fn new() -> (r: LifetimeCollector)
        ensures
            r.st() == lt_state_init(),
            r.wf(),
    {
        let r = LifetimeCollector { facts: Vec::new(), synth: 0 };
        proof {
            assert(r.st() =~= lt_state_init());
        }
        r
    }

    /// Hands the catalogue out, in recorded order.
    pub fn into_facts(self) -> (r: Vec<LifetimeFact>)
        ensures
            r.deep_view() == self.st().facts,
    {
        self.facts
    }

    /// Whether a lifetime of this name is already catalogued.
    fn has_name(&self, n: &LifetimeName) -> (r: bool)
        ensures
            r == has_fact(self.st().facts, n.deep_view()),
    {
        let m = self.facts.len();
        let mut i: usize = 0;
        while i < m
            invariant
                i <= m,
                m == self.facts.len(),
                forall|j: int| 0 <= j < i ==> self.facts.deep_view()[j].name != n.deep_view(),
            decreases m - i,
        {
            if lifetime_name_eq(&self.facts[i].name, n) {
                assert(self.st().facts[i as int].name == n.deep_view());
                return true;
            }
            i = i + 1;
        }
        false
    }

    /// Records one lifetime position, returning what now stands in it.
    fn record(&mut self, lt: &LifetimeRef, src: SigComponent) -> (r: LifetimeRef)
        requires
            old(self).wf(),
        ensures
            final(self).wf(),
            (r.deep_view(), final(self).st()) == record_lifetime(old(self).st(), lt.deep_view(), src),
    {
        match lt {
            LifetimeRef::Elided => {
                let name_val = self.synth;
                self.facts.push(
                    LifetimeFact {
                        name: LifetimeName::Synthesized(name_val),
                        source: src,
                        user_provided: false,
                    },
                );
                let n = self.facts.len();
                assert(self.synth < n);
                self.synth = self.synth + 1;
                proof {
                    assert(final(self).st() =~= record_lifetime(
                        old(self).st(),
                        lt.deep_view(),
                        src,
                    ).1);
                }
                LifetimeRef::Named(LifetimeName::Synthesized(name_val))
            },
            LifetimeRef::Named(n) => {
                if self.has_name(n) {
                    duplicate_lifetime_ref(lt)
                } else {
                    self.facts.push(
                        LifetimeFact {
                            name: duplicate_lifetime_name(n),
                            source: src,
                            user_provided: true,
                        },
                    );
                    proof {
                        assert(final(self).st() =~= record_lifetime(
                            old(self).st(),
                            lt.deep_view(),
                            src,
                        ).1);
                    }
                    duplicate_lifetime_ref(lt)
                }
            },
        }
    }

    /// Walks one type, rewriting it and extending the catalogue.
    fn collect_type_m(&mut self, t: &TypeExpr, src: SigComponent) -> (r: TypeExpr)
        requires
            old(self).wf(),
        ensures
            final(self).wf(),
            (r.deep_view(), final(self).st()) == collect_type(t.deep_view(), old(self).st(), src),
        decreases t,
    {
        match t {
            TypeExpr::Reference { lifetime, mutable, elem } => {
                let lt2 = self.record(lifetime, src);
                let e2 = self.collect_type_m(&**elem, src);
                TypeExpr::Reference { lifetime: lt2, mutable: *mutable, elem: Box::new(e2) }
            },
            TypeExpr::Paren { elem } => {
                let e2 = self.collect_type_m(&**elem, src);
                TypeExpr::Paren { elem: Box::new(e2) }
            },
            TypeExpr::Path { path } => {
                let ghost st0 = self.st();
                let ghost segs_v = path.segments.deep_view();
                let m = path.segments.len();
                let mut segments: Vec<PathSegment> = Vec::new();
                proof {
                    assert(segments.deep_view() =~= Seq::<PathSegmentV>::empty());
                }
                let mut i: usize = 0;
                while i < m
                    invariant
                        i <= m,
                        m == path.segments.len(),
                        segs_v == path.segments.deep_view(),
                        self.wf(),
                        record_segments_from(segs_v, src, 0, Seq::empty(), st0)
                            == record_segments_from(
                            segs_v,
                            src,
                            i as int,
                            segments.deep_view(),
                            self.st(),
                        ),
                    decreases m - i,
                {
                    let seg = &path.segments[i];
                    let ghost args_v = seg.lifetime_args.deep_view();
                    let ghost st_seg = self.st();
                    let ka = seg.lifetime_args.len();
                    let mut new_args: Vec<LifetimeRef> = Vec::new();
                    proof {
                        assert(new_args.deep_view() =~= Seq::<LifetimeRefV>::empty());
                    }
                    let mut k: usize = 0;
                    while k < ka
                        invariant
                            k <= ka,
                            ka == seg.lifetime_args.len(),
                            args_v == seg.lifetime_args.deep_view(),
                            self.wf(),
                            record_args_from(args_v, src, 0, Seq::empty(), st_seg)
                                == record_args_from(
                                args_v,
                                src,
                                k as int,
                                new_args.deep_view(),
                                self.st(),
                            ),
                        decreases ka - k,
                    {
                        let ghost prev_args = new_args.deep_view();
                        let a = self.record(&seg.lifetime_args[k], src);
                        new_args.push(a);
                        proof {
                            assert(new_args.deep_view() =~= prev_args.push(a.deep_view()));
                        }
                        k = k + 1;
                    }
                    let new_seg = PathSegment {
                        ident: seg.ident.clone(),
                        lifetime_args: new_args,
                        type_arg_idents: duplicate_strings(&seg.type_arg_idents),
                    };
                    let ghost prev_segs = segments.deep_view();
                    proof {
                        assert(seg.deep_view() == segs_v[i as int]);
                        let (spec_args, spec_st) = record_args_from(
                            segs_v[i as int].lifetime_args,
                            src,
                            0,
                            Seq::empty(),
                            st_seg,
                        );
                        assert(new_args.deep_view() == spec_args);
                        assert(self.st() == spec_st);
                        assert(new_seg.deep_view() =~= PathSegmentV {
                            ident: segs_v[i as int].ident,
                            lifetime_args: spec_args,
                            type_arg_idents: segs_v[i as int].type_arg_idents,
                        });
                    }
                    segments.push(new_seg);
                    proof {
                        assert(segments.deep_view() =~= prev_segs.push(new_seg.deep_view()));
                    }
                    i = i + 1;
                }
                let r = TypeExpr::Path {
                    path: TypePath {
                        qself: path.qself,
                        leading_colon: path.leading_colon,
                        segments,
                    },
                };
                proof {
                    assert(r.deep_view() =~= collect_type(t.deep_view(), st0, src).0);
                }
                r
            },
            TypeExpr::ImplTrait { bounds } => {
                let r = TypeExpr::ImplTrait { bounds: crate::ast_ops::duplicate_bounds(bounds) };
                proof {
                    assert(r.deep_view() =~= t.deep_view());
                }
                r
            },
            TypeExpr::Unit => TypeExpr::Unit,
            TypeExpr::Verbatim { text } => TypeExpr::Verbatim { text: text.clone() },
            TypeExpr::SelfFuture { ordinal, lifetimes } => {
                let r = TypeExpr::SelfFuture {
                    ordinal: *ordinal,
                    lifetimes: crate::ast_ops::duplicate_lifetime_names(lifetimes),
                };
                proof {
                    assert(r.deep_view() =~= t.deep_view());
                }
                r
            },
        }
    }

    /// Walks the whole parameter list, the first entry as the receiver.
    fn collect_params(&mut self, params: &Vec<FnParam>) -> (r: Vec<FnParam>)
        requires
            old(self).wf(),
        ensures
            final(self).wf(),
            (r.deep_view(), final(self).st()) == collect_params_from(
                params.deep_view(),
                0,
                Seq::empty(),
                old(self).st(),
            ),
    {
        let ghost pv = params.deep_view();
        let ghost st0 = self.st();
        let n = params.len();
        let mut out: Vec<FnParam> = Vec::new();
        proof {
            assert(out.deep_view() =~= Seq::<FnParamV>::empty());
        }
        let mut i: usize = 0;
        while i < n
            invariant
                i <= n,
                n == params.len(),
                pv == params.deep_view(),
                self.wf(),
                collect_params_from(pv, 0, Seq::empty(), st0) == collect_params_from(
                    pv,
                    i as int,
                    out.deep_view(),
                    self.st(),
                ),
            decreases n - i,
        {
            let src = if i == 0 {
                SigComponent::Receiver
            } else {
                SigComponent::Argument
            };
            let p = &params[i];
            proof {
                assert(p.deep_view() == pv[i as int]);
            }
            let kind = match &p.kind {
                ParamKind::Receiver { reference, lifetime, mutable } => {
                    if *reference {
                        let lt2 = self.record(lifetime, src);
                        ParamKind::Receiver { reference: true, lifetime: lt2, mutable: *mutable }
                    } else {
                        ParamKind::Receiver {
                            reference: false,
                            lifetime: duplicate_lifetime_ref(lifetime),
                            mutable: *mutable,
                        }
                    }
                },
                ParamKind::Typed { pat, ty } => {
                    let t2 = self.collect_type_m(ty, src);
                    ParamKind::Typed { pat: duplicate_pat(pat), ty: t2 }
                },
            };
            let ghost prev_out = out.deep_view();
            let new_param = FnParam { span: p.span, kind };
            out.push(new_param);
            proof {
                assert(out.deep_view() =~= prev_out.push(new_param.deep_view()));
            }
            i = i + 1;
        }
        out
    }

    /// Walks the return type.
    fn collect_output_m(&mut self, output: &ReturnType) -> (r: ReturnType)
        requires
            old(self).wf(),
        ensures
            final(self).wf(),
            (r.deep_view(), final(self).st()) == collect_output(output.deep_view(), old(self).st()),
    {
        match output {
            ReturnType::Default => ReturnType::Default,
            ReturnType::Ty(t) => {
                let t2 = self.collect_type_m(t, SigComponent::Return);
                ReturnType::Ty(t2)
            },
        }
    }
}

/// The lifetime analysis: the de-elided parameter list and return type,
/// and the lifetime catalogue, in recorded order.
pub fn de_elide_and_collect(params: &Vec<FnParam>, output: &ReturnType) -> (r: (
    Vec<FnParam>,
    ReturnType,
    Vec<LifetimeFact>,
))
    ensures
        ({
            let (p2, o2, facts) = collect_signature(params.deep_view(), output.deep_view());
            &&& r.0.deep_view() == p2
            &&& r.1.deep_view() == o2
            &&& r.2.deep_view() == facts
        }),
{
    let mut coll = LifetimeCollector::new();
    let p2 = coll.collect_params(params);
    let o2 = coll.collect_output_m(output);
    let facts = coll.into_facts();
    (p2, o2, facts)
}

} // verus!
