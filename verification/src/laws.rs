//! Laws the analysis obeys, proved over the same spec functions the
//! executable functions are verified against.

use vstd::prelude::*;

use crate::analyze_generics::{
    classify_spec, contains_param, contribution, is_ident_path, push_param, relocate_params_from,
    AnalysisError, DependencyShapeV, TraitGenericsV,
};
use crate::ast::{
    FnParamV, FnSignatureV, GenericParamV, LifetimeRefV, ParamKindV, ReturnTypeV, TypeExprV,
    TypeParamBoundV, WherePredicateV,
};
use crate::future::{convert_future_spec, fut_ident_spec};
use crate::lifetimes::{
    collect_params_from, collect_signature, collect_type, lt_state_init,
    record_args_from, record_lifetime, record_segments_from, LifetimeFactV, LtStateV, SigComponent,
};
use crate::signature::{
    apply_receiver, aux_param_spec, convert_spec, inject_aux, receiver_generation_spec,
    strip_matched, strip_params_from, strip_preds_from, tidy_generics_spec, EntraitSignatureV,
};

verus! {

/// Whether a generic parameter is a type parameter of this name.
pub open spec fn is_type_param_named(p: GenericParamV, id: Seq<char>) -> bool {
    match p {
        GenericParamV::Type { ident, bounds } => ident == id,
        _ => false,
    }
}

/// Whether a where-predicate bounds exactly this identifier.
pub open spec fn is_pred_on(p: WherePredicateV, id: Seq<char>) -> bool {
    match p {
        WherePredicateV::Type { bounded_ty, bounds } => is_ident_path(bounded_ty, id),
        _ => false,
    }
}

/// Whether a generic parameter survives relocation: a type or const
/// parameter, never a lifetime.
pub open spec fn is_relocatable(p: GenericParamV) -> bool {
    !(p is Lifetime)
}

/// No parameter occurs twice.
pub open spec fn no_dup_params(s: Seq<GenericParamV>) -> bool {
    forall|a: int, b: int| 0 <= a < b < s.len() ==> s[a] != s[b]
}

/// The type and const parameters, in order, from position `i` on.
pub open spec fn relocatable_from(params: Seq<GenericParamV>, i: int) -> Seq<GenericParamV>
    decreases params.len() - i,
{
    if i < 0 || i >= params.len() {
        Seq::empty()
    } else if is_relocatable(params[i]) {
        seq![params[i]] + relocatable_from(params, i + 1)
    } else {
        relocatable_from(params, i + 1)
    }
}

proof fn lemma_push_param_keeps(acc: Seq<GenericParamV>, p: GenericParamV, q: GenericParamV)
    requires
        contains_param(acc, q),
    ensures
        contains_param(push_param(acc, p), q),
{
    let i = choose|i: int| 0 <= i < acc.len() && acc[i] == q;
    if !contains_param(acc, p) {
        assert(push_param(acc, p)[i] == q);
    }
}

proof fn lemma_push_param_adds(acc: Seq<GenericParamV>, p: GenericParamV)
    ensures
        contains_param(push_param(acc, p), p),
{
    if !contains_param(acc, p) {
        assert(push_param(acc, p)[acc.len() as int] == p);
    }
}

proof fn lemma_relocate_keeps(
    params: Seq<GenericParamV>,
    skip: Option<int>,
    i: int,
    acc: Seq<GenericParamV>,
    q: GenericParamV,
)
    requires
        contains_param(acc, q),
    ensures
        contains_param(relocate_params_from(params, skip, i, acc), q),
    decreases params.len() - i,
{
    if 0 <= i < params.len() {
        let keep = match params[i] {
            GenericParamV::Lifetime { name } => false,
            _ => skip != Option::Some(i),
        };
        let step = if keep {
            push_param(acc, params[i])
        } else {
            acc
        };
        if keep {
            lemma_push_param_keeps(acc, params[i], q);
        }
        lemma_relocate_keeps(params, skip, i + 1, step, q);
    }
}

proof fn lemma_relocate_adds(
    params: Seq<GenericParamV>,
    skip: Option<int>,
    i: int,
    acc: Seq<GenericParamV>,
)
    requires
        0 <= i,
    ensures
        forall|j: int|
            i <= j < params.len() && is_relocatable(#[trigger] params[j]) && skip
                != Option::Some(j) ==> contains_param(
                relocate_params_from(params, skip, i, acc),
                params[j],
            ),
    decreases params.len() - i,
{
    if i < params.len() {
        let keep = match params[i] {
            GenericParamV::Lifetime { name } => false,
            _ => skip != Option::Some(i),
        };
        let step = if keep {
            push_param(acc, params[i])
        } else {
            acc
        };
        lemma_relocate_adds(params, skip, i + 1, step);
        if keep {
            lemma_push_param_adds(acc, params[i]);
            lemma_relocate_keeps(params, skip, i + 1, step, params[i]);
        }
    }
}

proof fn lemma_push_param_no_dup(acc: Seq<GenericParamV>, p: GenericParamV)
    requires
        no_dup_params(acc),
    ensures
        no_dup_params(push_param(acc, p)),
{
    if !contains_param(acc, p) {
        let r = acc.push(p);
        assert forall|a: int, b: int| 0 <= a < b < r.len() implies r[a] != r[b] by {
            if b == acc.len() {
                assert(r[a] == acc[a]);
                assert(!(exists|i: int| 0 <= i < acc.len() && acc[i] == p));
            }
        }
    }
}

proof fn lemma_relocate_no_dup(
    params: Seq<GenericParamV>,
    skip: Option<int>,
    i: int,
    acc: Seq<GenericParamV>,
)
    requires
        no_dup_params(acc),
    ensures
        no_dup_params(relocate_params_from(params, skip, i, acc)),
    decreases params.len() - i,
{
    if 0 <= i < params.len() {
        let keep = match params[i] {
            GenericParamV::Lifetime { name } => false,
            _ => skip != Option::Some(i),
        };
        let step = if keep {
            push_param(acc, params[i])
        } else {
            acc
        };
        if keep {
            lemma_push_param_no_dup(acc, params[i]);
        }
        lemma_relocate_no_dup(params, skip, i + 1, step);
    }
}

proof fn lemma_relocate_fresh_order(
    params: Seq<GenericParamV>,
    i: int,
    acc: Seq<GenericParamV>,
)
    requires
        0 <= i,
        forall|j: int|
            i <= j < params.len() && is_relocatable(#[trigger] params[j]) ==> !contains_param(
                acc,
                params[j],
            ),
        forall|j1: int, j2: int|
            i <= j1 < j2 < params.len() && is_relocatable(#[trigger] params[j1]) && is_relocatable(
                #[trigger] params[j2],
            ) ==> params[j1] != params[j2],
    ensures
        relocate_params_from(params, Option::None, i, acc) == acc + relocatable_from(params, i),
    decreases params.len() - i,
{
    if i >= params.len() {
        assert(acc + relocatable_from(params, i) =~= acc);
    } else {
        if is_relocatable(params[i]) {
            assert(!contains_param(acc, params[i]));
            let step = acc.push(params[i]);
            assert(push_param(acc, params[i]) == step);
            assert forall|j: int|
                i + 1 <= j < params.len() && is_relocatable(#[trigger] params[j]) implies
                !contains_param(step, params[j]) by {
                assert(params[j] != params[i]);
                if contains_param(step, params[j]) {
                    let k = choose|k: int| 0 <= k < step.len() && step[k] == params[j];
                    if k < acc.len() {
                        assert(contains_param(acc, params[j]));
                    }
                }
            }
            lemma_relocate_fresh_order(params, i + 1, step);
            assert(acc.push(params[i]) + relocatable_from(params, i + 1) =~= acc + (seq![
                params[i],
            ] + relocatable_from(params, i + 1)));
        } else {
            lemma_relocate_fresh_order(params, i + 1, acc);
        }
    }
}

proof fn lemma_strip_params_clean(
    params: Seq<GenericParamV>,
    id: Seq<char>,
    i: int,
    out: Seq<GenericParamV>,
)
    requires
        forall|j: int| 0 <= j < out.len() ==> !is_type_param_named(#[trigger] out[j], id),
    ensures
        forall|j: int|
            0 <= j < strip_params_from(params, id, i, out).len() ==> !is_type_param_named(
                #[trigger] strip_params_from(params, id, i, out)[j],
                id,
            ),
    decreases params.len() - i,
{
    if 0 <= i < params.len() {
        let dropped = match params[i] {
            GenericParamV::Type { ident, bounds } => ident == id,
            _ => false,
        };
        let step = if dropped {
            out
        } else {
            out.push(params[i])
        };
        assert(forall|j: int| 0 <= j < step.len() ==> !is_type_param_named(#[trigger] step[j], id));
        lemma_strip_params_clean(params, id, i + 1, step);
        assert(strip_params_from(params, id, i, out) == strip_params_from(params, id, i + 1, step));
    } else {
        assert(strip_params_from(params, id, i, out) == out);
    }
}

proof fn lemma_strip_preds_clean(
    preds: Seq<WherePredicateV>,
    id: Seq<char>,
    i: int,
    out: Seq<WherePredicateV>,
)
    requires
        forall|j: int| 0 <= j < out.len() ==> !is_pred_on(#[trigger] out[j], id),
    ensures
        forall|j: int|
            0 <= j < strip_preds_from(preds, id, i, out).len() ==> !is_pred_on(
                #[trigger] strip_preds_from(preds, id, i, out)[j],
                id,
            ),
    decreases preds.len() - i,
{
    if 0 <= i < preds.len() {
        let dropped = match preds[i] {
            WherePredicateV::Type { bounded_ty, bounds } => is_ident_path(bounded_ty, id),
            _ => false,
        };
        let step = if dropped {
            out
        } else {
            out.push(preds[i])
        };
        assert(forall|j: int| 0 <= j < step.len() ==> !is_pred_on(#[trigger] step[j], id));
        lemma_strip_preds_clean(preds, id, i + 1, step);
        assert(strip_preds_from(preds, id, i, out) == strip_preds_from(preds, id, i + 1, step));
    } else {
        assert(strip_preds_from(preds, id, i, out) == out);
    }
}

// ------------------------------------------------------------------
// The laws
// ------------------------------------------------------------------

/// Law: for a function classified as depending on a named generic
/// parameter, the matched identifier never appears in the converted trait
/// method signature — not in its generic parameter list and not as the
/// bounded type of any surviving where-predicate.
pub proof fn lemma_named_generic_consumed(
    sig: FnSignatureV,
    ident: Seq<char>,
    trait_bounds: Seq<TypeParamBoundV>,
    inject: bool,
    use_fut: bool,
    ordinal: usize,
    trait_span: usize,
    entrait: Seq<char>,
    impl_t: Seq<char>,
    es: EntraitSignatureV,
)
    requires
        convert_spec(
            sig,
            DependencyShapeV::NamedGeneric { ident, trait_bounds },
            inject,
            use_fut,
            ordinal,
            trait_span,
            entrait,
            impl_t,
        ) == Result::<EntraitSignatureV, AnalysisError>::Ok(es),
    ensures
        forall|j: int|
            0 <= j < es.sig.generics.params.len() ==> !is_type_param_named(
                #[trigger] es.sig.generics.params[j],
                ident,
            ),
        match es.sig.generics.where_clause {
            Option::Some(wc) => forall|j: int|
                0 <= j < wc.predicates.len() ==> !is_pred_on(#[trigger] wc.predicates[j], ident),
            Option::None => true,
        },
{
    let deps = DependencyShapeV::NamedGeneric { ident, trait_bounds };
    let rg = receiver_generation_spec(deps, sig, use_fut);
    let params1 = apply_receiver(sig.params, rg, trait_span);
    let params2 = inject_aux(params1, aux_param_spec(entrait, impl_t, trait_span), inject);
    let sig1 = FnSignatureV { params: params2, ..sig };
    let sig2 = if use_fut {
        convert_future_spec(sig1, ordinal).0
    } else {
        sig1
    };
    let g3 = tidy_generics_spec(strip_matched(sig2.generics, deps));
    assert(es.sig.generics == g3);
    lemma_strip_params_clean(sig2.generics.params, ident, 0, Seq::empty());
    match sig2.generics.where_clause {
        Option::Some(wc) => {
            lemma_strip_preds_clean(wc.predicates, ident, 0, Seq::empty());
        },
        Option::None => {},
    }
}

/// Law: for a function whose classification consumed no named generic
/// parameter — inline bounds, a concrete type, or no dependency at all —
/// every one of the function's own type and const generic parameters
/// appears in the trait's accumulated parameter list after its
/// contribution. None are dropped.
pub proof fn lemma_relocation_complete(
    acc: TraitGenericsV,
    sig: FnSignatureV,
    no_deps: bool,
    shape: DependencyShapeV,
)
    requires
        classify_spec(sig, no_deps) == Result::<DependencyShapeV, AnalysisError>::Ok(shape),
        !(shape is NamedGeneric),
    ensures
        forall|j: int|
            0 <= j < sig.generics.params.len() && is_relocatable(
                #[trigger] sig.generics.params[j],
            ) ==> contains_param(contribution(acc, sig, no_deps).params, sig.generics.params[j]),
{
    lemma_relocate_adds(sig.generics.params, Option::None, 0, acc.params);
}

/// Law: parameters identical across the functions feeding one trait are
/// never duplicated in the accumulated list — a contribution keeps the
/// list free of repeats.
pub proof fn lemma_relocation_no_duplicates(acc: TraitGenericsV, sig: FnSignatureV, no_deps: bool)
    requires
        no_dup_params(acc.params),
    ensures
        no_dup_params(contribution(acc, sig, no_deps).params),
{
    match classify_spec(sig, no_deps) {
        Result::Ok(shape) => {
            match shape {
                DependencyShapeV::NamedGeneric { ident, trait_bounds } => {
                    lemma_relocate_no_dup(
                        sig.generics.params,
                        crate::analyze_generics::find_type_param(sig.generics.params, ident),
                        0,
                        acc.params,
                    );
                },
                _ => {
                    lemma_relocate_no_dup(sig.generics.params, Option::None, 0, acc.params);
                },
            }
        },
        Result::Err(e) => {},
    }
}

/// Law: a contribution that consumed no named generic parameter appends
/// the function's type and const parameters in their original order — when
/// none of them is already accumulated, the accumulated list is extended
/// by exactly that relocatable sub-list, in order.
pub proof fn lemma_relocation_order(
    acc: TraitGenericsV,
    sig: FnSignatureV,
    no_deps: bool,
    shape: DependencyShapeV,
)
    requires
        classify_spec(sig, no_deps) == Result::<DependencyShapeV, AnalysisError>::Ok(shape),
        !(shape is NamedGeneric),
        forall|j: int|
            0 <= j < sig.generics.params.len() && is_relocatable(
                #[trigger] sig.generics.params[j],
            ) ==> !contains_param(acc.params, sig.generics.params[j]),
        forall|j1: int, j2: int|
            0 <= j1 < j2 < sig.generics.params.len() && is_relocatable(
                #[trigger] sig.generics.params[j1],
            ) && is_relocatable(#[trigger] sig.generics.params[j2]) ==> sig.generics.params[j1]
                != sig.generics.params[j2],
    ensures
        contribution(acc, sig, no_deps).params == acc.params + relocatable_from(
            sig.generics.params,
            0,
        ),
{
    lemma_relocate_fresh_order(sig.generics.params, 0, acc.params);
}

/// Law: the associated-future declaration and definition fragments are
/// emitted together or not at all, and when they are, they agree on the
/// future's identifier name and on the full generic-parameter list,
/// lifetime for lifetime, as well as on the output type and the
/// receiver-lifetime bounds.
pub proof fn lemma_future_fragments_agree(
    sig: FnSignatureV,
    deps: DependencyShapeV,
    inject: bool,
    use_fut: bool,
    ordinal: usize,
    trait_span: usize,
    entrait: Seq<char>,
    impl_t: Seq<char>,
    es: EntraitSignatureV,
)
    requires
        convert_spec(sig, deps, inject, use_fut, ordinal, trait_span, entrait, impl_t)
            == Result::<EntraitSignatureV, AnalysisError>::Ok(es),
    ensures
        (es.associated_fut_decl is Some) == use_fut,
        (es.associated_fut_impl is Some) == use_fut,
        match (es.associated_fut_decl, es.associated_fut_impl) {
            (Option::Some(d), Option::Some(im)) => {
                &&& d.ordinal == im.ordinal
                &&& fut_ident_spec(d.ordinal) == fut_ident_spec(im.ordinal)
                &&& d.lifetimes == im.lifetimes
                &&& d.output == im.output
                &&& d.self_bounds == im.self_bounds
            },
            (Option::None, Option::None) => true,
            _ => false,
        },
{
}

/// No two catalogue facts share an author-written lifetime name.
pub open spec fn user_names_unique(facts: Seq<LifetimeFactV>) -> bool {
    forall|i: int, j: int|
        #![trigger facts[i].name, facts[j].name]
        0 <= i < j < facts.len() ==> !(facts[i].name is User && facts[i].name == facts[j].name)
}

proof fn lemma_record_user_unique(st: LtStateV, lt: LifetimeRefV, src: SigComponent)
    requires
        user_names_unique(st.facts),
    ensures
        user_names_unique(record_lifetime(st, lt, src).1.facts),
{
    let facts2 = record_lifetime(st, lt, src).1.facts;
    match lt {
        LifetimeRefV::Elided => {
            assert forall|i: int, j: int|
                #![trigger facts2[i].name, facts2[j].name]
                0 <= i < j < facts2.len() implies !(facts2[i].name is User && facts2[i].name
                == facts2[j].name) by {
                if j == st.facts.len() {
                    assert(!(facts2[j].name is User));
                }
            }
        },
        LifetimeRefV::Named(n) => {
            if !crate::lifetimes::has_fact(st.facts, n) {
                assert forall|i: int, j: int|
                    #![trigger facts2[i].name, facts2[j].name]
                    0 <= i < j < facts2.len() implies !(facts2[i].name is User && facts2[i].name
                    == facts2[j].name) by {
                    if j == st.facts.len() {
                        assert(st.facts[i].name != n);
                    }
                }
            }
        },
    }
}

proof fn lemma_args_user_unique(
    args: Seq<LifetimeRefV>,
    src: SigComponent,
    i: int,
    out: Seq<LifetimeRefV>,
    st: LtStateV,
)
    requires
        user_names_unique(st.facts),
    ensures
        user_names_unique(record_args_from(args, src, i, out, st).1.facts),
    decreases args.len() - i,
{
    if 0 <= i < args.len() {
        let (a, st1) = record_lifetime(st, args[i], src);
        lemma_record_user_unique(st, args[i], src);
        lemma_args_user_unique(args, src, i + 1, out.push(a), st1);
    }
}

proof fn lemma_segments_user_unique(
    segs: Seq<crate::ast::PathSegmentV>,
    src: SigComponent,
    i: int,
    out: Seq<crate::ast::PathSegmentV>,
    st: LtStateV,
)
    requires
        user_names_unique(st.facts),
    ensures
        user_names_unique(record_segments_from(segs, src, i, out, st).1.facts),
    decreases segs.len() - i,
{
    if 0 <= i < segs.len() {
        let (new_args, st1) = record_args_from(
            segs[i].lifetime_args,
            src,
            0,
            Seq::empty(),
            st,
        );
        lemma_args_user_unique(segs[i].lifetime_args, src, 0, Seq::empty(), st);
        let seg = crate::ast::PathSegmentV {
            ident: segs[i].ident,
            lifetime_args: new_args,
            type_arg_idents: segs[i].type_arg_idents,
        };
        lemma_segments_user_unique(segs, src, i + 1, out.push(seg), st1);
    }
}

proof fn lemma_type_user_unique(t: TypeExprV, st: LtStateV, src: SigComponent)
    requires
        user_names_unique(st.facts),
    ensures
        user_names_unique(collect_type(t, st, src).1.facts),
    decreases t,
{
    match t {
        TypeExprV::Reference { lifetime, mutable, elem } => {
            let (lt2, st1) = record_lifetime(st, lifetime, src);
            lemma_record_user_unique(st, lifetime, src);
            lemma_type_user_unique(*elem, st1, src);
        },
        TypeExprV::Paren { elem } => {
            lemma_type_user_unique(*elem, st, src);
        },
        TypeExprV::Path { path } => {
            lemma_segments_user_unique(path.segments, src, 0, Seq::empty(), st);
        },
        _ => {},
    }
}

proof fn lemma_params_user_unique(
    params: Seq<FnParamV>,
    i: int,
    out: Seq<FnParamV>,
    st: LtStateV,
)
    requires
        user_names_unique(st.facts),
    ensures
        user_names_unique(collect_params_from(params, i, out, st).1.facts),
    decreases params.len() - i,
{
    if 0 <= i < params.len() {
        let src = if i == 0 {
            SigComponent::Receiver
        } else {
            SigComponent::Argument
        };
        let (kind, st1) = match params[i].kind {
            ParamKindV::Receiver { reference, lifetime, mutable } => if reference {
                let (lt2, st1) = record_lifetime(st, lifetime, src);
                lemma_record_user_unique(st, lifetime, src);
                (ParamKindV::Receiver { reference, lifetime: lt2, mutable }, st1)
            } else {
                (params[i].kind, st)
            },
            ParamKindV::Typed { pat, ty } => {
                let (t2, st1) = collect_type(ty, st, src);
                lemma_type_user_unique(ty, st, src);
                (ParamKindV::Typed { pat, ty: t2 }, st1)
            },
        };
        lemma_params_user_unique(
            params,
            i + 1,
            out.push(FnParamV { span: params[i].span, kind }),
            st1,
        );
    }
}

/// Law: the same author-written lifetime appearing in several positions of
/// a signature contributes exactly one fact to the catalogue — no two
/// facts of the lifetime analysis share a written name.
pub proof fn lemma_catalogue_dedupes_written_names(params: Seq<FnParamV>, output: ReturnTypeV)
    ensures
        ({
            let (p2, o2, facts) = collect_signature(params, output);
            user_names_unique(facts)
        }),
{
    let st0 = lt_state_init();
    lemma_params_user_unique(params, 0, Seq::empty(), st0);
    let (p2, st1) = collect_params_from(params, 0, Seq::empty(), st0);
    match output {
        ReturnTypeV::Default => {},
        ReturnTypeV::Ty(t) => {
            lemma_type_user_unique(t, st1, SigComponent::Return);
        },
    }
}

/// Law: classification is a pure function of the signature and the
/// options, and so is its accumulator contribution — re-running on the
/// same input yields a value-equal shape and a value-equal contribution.
/// No hidden state reaches the outcome; the only integer input is the
/// per-function ordinal that names the associated future.
pub proof fn lemma_classification_idempotent(
    sig1: FnSignatureV,
    sig2: FnSignatureV,
    no_deps1: bool,
    no_deps2: bool,
    acc1: TraitGenericsV,
    acc2: TraitGenericsV,
)
    requires
        sig1 == sig2,
        no_deps1 == no_deps2,
        acc1 == acc2,
    ensures
        classify_spec(sig1, no_deps1) == classify_spec(sig2, no_deps2),
        contribution(acc1, sig1, no_deps1) == contribution(acc2, sig2, no_deps2),
{
}

} // verus!
