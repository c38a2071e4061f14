//! Signature conversion: receiver policies, generics stripping, the
//! auxiliary parameter, and the associated-future form.

use entrait::analyze_generics::{
    AnalysisError, AnalysisErrorKind, DependencyShape, GenericsAnalyzer,
};
use entrait::ast::{
    ArgPat, FnParam, FnSignature, GenericParam, Generics, LifetimeName, LifetimeRef, ParamKind,
    PathSegment, ReturnType, TypeExpr, TypeParamBound, TypePath,
};
use entrait::future::fut_ident_chars;
use entrait::idents::CrateIdents;
use entrait::lifetimes::SigComponent;
use entrait::opt::{AsyncStrategy, Opts};
use entrait::signature::{EntraitSignature, ReceiverGeneration, SignatureConverter};

fn path_ty(name: &str) -> TypeExpr {
    TypeExpr::Path {
        path: TypePath {
            qself: false,
            leading_colon: false,
            segments: vec![PathSegment {
                ident: name.to_string(),
                lifetime_args: vec![],
                type_arg_idents: vec![],
            }],
        },
    }
}

fn ref_ty(inner: TypeExpr) -> TypeExpr {
    TypeExpr::Reference {
        lifetime: LifetimeRef::Elided,
        mutable: false,
        elem: Box::new(inner),
    }
}

fn typed_param(span: usize, name: &str, ty: TypeExpr) -> FnParam {
    FnParam {
        span,
        kind: ParamKind::Typed {
            pat: ArgPat::Ident(name.to_string()),
            ty,
        },
    }
}

fn trait_bound(name: &str) -> TypeParamBound {
    TypeParamBound::Trait {
        path: vec![name.to_string()],
    }
}

fn no_generics() -> Generics {
    Generics {
        params: vec![],
        where_clause: None,
    }
}

fn converter(opts: Opts, inject: bool, fn_index: usize) -> SignatureConverter {
    SignatureConverter {
        crate_idents: CrateIdents::new(),
        trait_span: 99,
        opts,
        inject_dyn_impl_param: inject,
        fn_index,
    }
}

fn plain_receiver(span: usize) -> FnParam {
    FnParam {
        span,
        kind: ParamKind::Receiver {
            reference: true,
            lifetime: LifetimeRef::Elided,
            mutable: false,
        },
    }
}

fn classify(sig: &FnSignature) -> DependencyShape {
    let mut analyzer = GenericsAnalyzer::new();
    analyzer.analyze_fn_deps(sig, &Opts::standard()).unwrap()
}

/// Round-trip: `fn get(state: &State) -> i32` becomes exactly
/// `fn get(&self) -> i32`, with the rewrite receiver policy and no
/// lifetime facts.
#[test]
fn round_trip_reference_receiver() {
    let sig = FnSignature {
        span: 1,
        ident: "get".to_string(),
        is_async: false,
        generics: no_generics(),
        params: vec![typed_param(10, "state", ref_ty(path_ty("State")))],
        output: ReturnType::Ty(path_ty("i32")),
    };
    let shape = classify(&sig);
    let conv = converter(Opts::standard(), false, 0);
    assert_eq!(
        conv.detect_receiver_generation(&sig, &shape, false),
        ReceiverGeneration::Rewrite
    );
    let es = conv.convert_fn_to_trait_fn(&sig, &shape).unwrap();
    let expected = EntraitSignature {
        sig: FnSignature {
            span: 1,
            ident: "get".to_string(),
            is_async: false,
            generics: no_generics(),
            params: vec![plain_receiver(10)],
            output: ReturnType::Ty(path_ty("i32")),
        },
        associated_fut_decl: None,
        associated_fut_impl: None,
        lifetimes: vec![],
    };
    assert_eq!(es, expected);
}

/// `fn foo<D: Bar>(deps: &D, x: i32) -> i32` yields the trait method
/// `fn foo(&self, x: i32) -> i32;` — the matched generic parameter is gone
/// and the empty generics normalize to absent.
#[test]
fn named_generic_conversion() {
    let sig = FnSignature {
        span: 1,
        ident: "foo".to_string(),
        is_async: false,
        generics: Generics {
            params: vec![GenericParam::Type {
                ident: "D".to_string(),
                bounds: vec![trait_bound("Bar")],
            }],
            where_clause: None,
        },
        params: vec![
            typed_param(10, "deps", ref_ty(path_ty("D"))),
            typed_param(11, "x", path_ty("i32")),
        ],
        output: ReturnType::Ty(path_ty("i32")),
    };
    let shape = classify(&sig);
    let es = converter(Opts::standard(), false, 0)
        .convert_fn_to_trait_fn(&sig, &shape)
        .unwrap();
    assert_eq!(
        es.sig.params,
        vec![plain_receiver(10), typed_param(11, "x", path_ty("i32"))]
    );
    assert!(es.sig.generics.params.is_empty());
    assert_eq!(es.sig.generics.where_clause, None);
    assert_eq!(es.sig.output, ReturnType::Ty(path_ty("i32")));
}

/// `fn foo(deps: &impl Bar) -> i32` leaves no generic parameter in the
/// trait method signature at all.
#[test]
fn inline_bounds_conversion() {
    let sig = FnSignature {
        span: 1,
        ident: "foo".to_string(),
        is_async: false,
        generics: no_generics(),
        params: vec![typed_param(
            10,
            "deps",
            ref_ty(TypeExpr::ImplTrait {
                bounds: vec![trait_bound("Bar")],
            }),
        )],
        output: ReturnType::Ty(path_ty("i32")),
    };
    let shape = classify(&sig);
    let es = converter(Opts::standard(), false, 0)
        .convert_fn_to_trait_fn(&sig, &shape)
        .unwrap();
    assert_eq!(es.sig.params, vec![plain_receiver(10)]);
    assert!(es.sig.generics.params.is_empty());
}

/// A dependency parameter that is not a reference is replaced outright
/// with a plain `&self`.
#[test]
fn rewrite_to_plain_policy() {
    let sig = FnSignature {
        span: 1,
        ident: "foo".to_string(),
        is_async: false,
        generics: no_generics(),
        params: vec![typed_param(10, "deps", path_ty("App"))],
        output: ReturnType::Default,
    };
    let shape = classify(&sig);
    let conv = converter(Opts::standard(), false, 0);
    assert_eq!(
        conv.detect_receiver_generation(&sig, &shape, false),
        ReceiverGeneration::RewriteToPlain
    );
    let es = conv.convert_fn_to_trait_fn(&sig, &shape).unwrap();
    assert_eq!(es.sig.params, vec![plain_receiver(10)]);
}

/// An explicit lifetime on the dependency reference is kept on the
/// rewritten receiver.
#[test]
fn rewrite_keeps_explicit_lifetime() {
    let sig = FnSignature {
        span: 1,
        ident: "foo".to_string(),
        is_async: false,
        generics: no_generics(),
        params: vec![FnParam {
            span: 10,
            kind: ParamKind::Typed {
                pat: ArgPat::Ident("deps".to_string()),
                ty: TypeExpr::Reference {
                    lifetime: LifetimeRef::Named(LifetimeName::User("a".to_string())),
                    mutable: true,
                    elem: Box::new(path_ty("App")),
                },
            },
        }],
        output: ReturnType::Default,
    };
    let shape = classify(&sig);
    let es = converter(Opts::standard(), false, 0)
        .convert_fn_to_trait_fn(&sig, &shape)
        .unwrap();
    // the receiver keeps the lifetime but sheds the mutability
    assert_eq!(
        es.sig.params,
        vec![FnParam {
            span: 10,
            kind: ParamKind::Receiver {
                reference: true,
                lifetime: LifetimeRef::Named(LifetimeName::User("a".to_string())),
                mutable: false,
            },
        }]
    );
}

/// With no dependency, a `&self` receiver is prepended at the trait's
/// location.
#[test]
fn insert_policy_for_no_dependency() {
    let sig = FnSignature {
        span: 1,
        ident: "foo".to_string(),
        is_async: false,
        generics: no_generics(),
        params: vec![typed_param(10, "x", path_ty("i32"))],
        output: ReturnType::Default,
    };
    let shape = DependencyShape::NoDependency;
    let conv = converter(Opts::standard(), false, 0);
    assert_eq!(
        conv.detect_receiver_generation(&sig, &shape, false),
        ReceiverGeneration::Insert
    );
    let es = conv.convert_fn_to_trait_fn(&sig, &shape).unwrap();
    assert_eq!(
        es.sig.params,
        vec![plain_receiver(99), typed_param(10, "x", path_ty("i32"))]
    );
}

/// The auxiliary dynamic-implementation parameter lands in the second
/// slot, right after the receiver.
#[test]
fn aux_param_second_slot() {
    let sig = FnSignature {
        span: 1,
        ident: "foo".to_string(),
        is_async: false,
        generics: no_generics(),
        params: vec![
            typed_param(10, "deps", ref_ty(path_ty("App"))),
            typed_param(11, "x", path_ty("i32")),
        ],
        output: ReturnType::Default,
    };
    let shape = classify(&sig);
    let es = converter(Opts::standard(), true, 0)
        .convert_fn_to_trait_fn(&sig, &shape)
        .unwrap();
    assert_eq!(es.sig.params.len(), 3);
    assert_eq!(es.sig.params[0], plain_receiver(10));
    let expected_aux = FnParam {
        span: 99,
        kind: ParamKind::Typed {
            pat: ArgPat::Ident("__impl".to_string()),
            ty: TypeExpr::Reference {
                lifetime: LifetimeRef::Elided,
                mutable: false,
                elem: Box::new(TypeExpr::Path {
                    path: TypePath {
                        qself: false,
                        leading_colon: true,
                        segments: vec![
                            PathSegment {
                                ident: "entrait".to_string(),
                                lifetime_args: vec![],
                                type_arg_idents: vec![],
                            },
                            PathSegment {
                                ident: "Impl".to_string(),
                                lifetime_args: vec![],
                                type_arg_idents: vec!["EntraitT".to_string()],
                            },
                        ],
                    },
                }),
            },
        },
    };
    assert_eq!(es.sig.params[1], expected_aux);
    assert_eq!(es.sig.params[2], typed_param(11, "x", path_ty("i32")));
}

/// A parameter pattern that is not a simple identifier is a structural
/// error: the delegating call could not cite it.
#[test]
fn non_ident_pattern_rejected() {
    let sig = FnSignature {
        span: 1,
        ident: "foo".to_string(),
        is_async: false,
        generics: no_generics(),
        params: vec![
            typed_param(10, "deps", ref_ty(path_ty("App"))),
            FnParam {
                span: 12,
                kind: ParamKind::Typed {
                    pat: ArgPat::Other,
                    ty: path_ty("i32"),
                },
            },
        ],
        output: ReturnType::Default,
    };
    let shape = classify(&sig);
    let r = converter(Opts::standard(), false, 0).convert_fn_to_trait_fn(&sig, &shape);
    assert_eq!(
        r,
        Err(AnalysisError {
            kind: AnalysisErrorKind::NonIdentifierArgumentPattern,
            span: 12,
        })
    );
}

fn future_opts() -> Opts {
    let mut opts = Opts::standard();
    opts.async_strategy = AsyncStrategy::AssociatedFuture;
    opts
}

/// An async function converted to the associated-future form: asyncness
/// cleared, the receiver's elided lifetime synthesized and grown into a
/// generic parameter, the return type an ordinal-named associated type,
/// and the declaration/definition pair agreeing lifetime-for-lifetime.
#[test]
fn associated_future_conversion() {
    let sig = FnSignature {
        span: 1,
        ident: "fetch".to_string(),
        is_async: true,
        generics: Generics {
            params: vec![GenericParam::Type {
                ident: "D".to_string(),
                bounds: vec![trait_bound("Bar")],
            }],
            where_clause: None,
        },
        params: vec![
            typed_param(10, "deps", ref_ty(path_ty("D"))),
            typed_param(11, "x", path_ty("i32")),
        ],
        output: ReturnType::Ty(path_ty("i32")),
    };
    let shape = classify(&sig);
    let es = converter(future_opts(), false, 0)
        .convert_fn_to_trait_fn(&sig, &shape)
        .unwrap();

    assert!(!es.sig.is_async);
    let synth0 = LifetimeName::Synthesized(0);
    // the receiver carries the synthesized lifetime
    assert_eq!(
        es.sig.params[0],
        FnParam {
            span: 10,
            kind: ParamKind::Receiver {
                reference: true,
                lifetime: LifetimeRef::Named(synth0.clone()),
                mutable: false,
            },
        }
    );
    // the synthesized lifetime became a generic parameter; the matched
    // type parameter is gone
    assert_eq!(
        es.sig.generics.params,
        vec![GenericParam::Lifetime {
            name: synth0.clone(),
        }]
    );
    // the return type is the ordinal-named associated future
    assert_eq!(
        es.sig.output,
        ReturnType::Ty(TypeExpr::SelfFuture {
            ordinal: 0,
            lifetimes: vec![synth0.clone()],
        })
    );
    // one receiver-sourced, synthesized lifetime fact
    assert_eq!(es.lifetimes.len(), 1);
    assert_eq!(es.lifetimes[0].name, synth0);
    assert_eq!(es.lifetimes[0].source, SigComponent::Receiver);
    assert!(!es.lifetimes[0].user_provided);
    // the fragments are a matched pair
    let decl = es.associated_fut_decl.unwrap();
    let fimpl = es.associated_fut_impl.unwrap();
    assert_eq!(decl.ordinal, fimpl.ordinal);
    assert_eq!(decl.lifetimes, fimpl.lifetimes);
    assert_eq!(decl.output, fimpl.output);
    assert_eq!(decl.self_bounds, fimpl.self_bounds);
    assert_eq!(decl.ordinal, 0);
    assert_eq!(decl.lifetimes, vec![synth0.clone()]);
    assert_eq!(decl.output, path_ty("i32"));
    assert_eq!(decl.self_bounds, vec![synth0]);
}

/// Lifetimes are catalogued first-seen, receiver before arguments, and an
/// argument lifetime does not bound `Self`.
#[test]
fn lifetime_catalogue_order() {
    let sig = FnSignature {
        span: 1,
        ident: "fetch".to_string(),
        is_async: true,
        generics: Generics {
            params: vec![GenericParam::Type {
                ident: "D".to_string(),
                bounds: vec![],
            }],
            where_clause: None,
        },
        params: vec![
            typed_param(10, "deps", ref_ty(path_ty("D"))),
            typed_param(11, "x", ref_ty(path_ty("str"))),
        ],
        output: ReturnType::Default,
    };
    let shape = classify(&sig);
    let es = converter(future_opts(), false, 3)
        .convert_fn_to_trait_fn(&sig, &shape)
        .unwrap();
    assert_eq!(es.lifetimes.len(), 2);
    assert_eq!(es.lifetimes[0].name, LifetimeName::Synthesized(0));
    assert_eq!(es.lifetimes[0].source, SigComponent::Receiver);
    assert_eq!(es.lifetimes[1].name, LifetimeName::Synthesized(1));
    assert_eq!(es.lifetimes[1].source, SigComponent::Argument);
    let decl = es.associated_fut_decl.unwrap();
    assert_eq!(decl.ordinal, 3);
    assert_eq!(
        decl.lifetimes,
        vec![LifetimeName::Synthesized(0), LifetimeName::Synthesized(1)]
    );
    // only the receiver lifetime bounds Self
    assert_eq!(decl.self_bounds, vec![LifetimeName::Synthesized(0)]);
    // the future's name comes from the ordinal
    assert_eq!(fut_ident_chars(3), vec!['F', 'u', 't', '3']);
}

/// A lifetime the author wrote keeps its name, is catalogued once with the
/// first-seen source, and grows no fresh generic parameter.
#[test]
fn user_lifetime_kept_and_deduplicated() {
    let user_a = LifetimeName::User("a".to_string());
    let named_ref = |inner: TypeExpr| TypeExpr::Reference {
        lifetime: LifetimeRef::Named(user_a.clone()),
        mutable: false,
        elem: Box::new(inner),
    };
    let sig = FnSignature {
        span: 1,
        ident: "fetch".to_string(),
        is_async: true,
        generics: Generics {
            params: vec![
                GenericParam::Lifetime {
                    name: user_a.clone(),
                },
                GenericParam::Type {
                    ident: "D".to_string(),
                    bounds: vec![],
                },
            ],
            where_clause: None,
        },
        params: vec![
            typed_param(10, "deps", named_ref(path_ty("D"))),
            typed_param(11, "x", named_ref(path_ty("str"))),
        ],
        output: ReturnType::Default,
    };
    let shape = classify(&sig);
    let es = converter(future_opts(), false, 0)
        .convert_fn_to_trait_fn(&sig, &shape)
        .unwrap();
    // one fact only, receiver-sourced, user-provided
    assert_eq!(es.lifetimes.len(), 1);
    assert_eq!(es.lifetimes[0].name, user_a);
    assert_eq!(es.lifetimes[0].source, SigComponent::Receiver);
    assert!(es.lifetimes[0].user_provided);
    // no fresh lifetime parameter was added: only the author's one stays
    assert_eq!(
        es.sig.generics.params,
        vec![GenericParam::Lifetime {
            name: user_a.clone(),
        }]
    );
    let decl = es.associated_fut_decl.unwrap();
    assert_eq!(decl.lifetimes, vec![user_a.clone()]);
    assert_eq!(decl.self_bounds, vec![user_a]);
}

/// Ordinal naming is decimal: ordinal 0 yields `Fut0`, 1 yields `Fut1`,
/// and multi-digit ordinals render in full.
#[test]
fn future_ordinal_names() {
    assert_eq!(fut_ident_chars(0), vec!['F', 'u', 't', '0']);
    assert_eq!(fut_ident_chars(1), vec!['F', 'u', 't', '1']);
    assert_eq!(
        fut_ident_chars(42),
        vec!['F', 'u', 't', '4', '2']
    );
    assert_eq!(
        fut_ident_chars(1900),
        vec!['F', 'u', 't', '1', '9', '0', '0']
    );
}

/// Without future conversion, an async signature keeps its asyncness and
/// produces no fragments.
#[test]
fn plain_async_untouched() {
    let sig = FnSignature {
        span: 1,
        ident: "fetch".to_string(),
        is_async: true,
        generics: no_generics(),
        params: vec![typed_param(10, "deps", ref_ty(path_ty("App")))],
        output: ReturnType::Default,
    };
    let shape = classify(&sig);
    let es = converter(Opts::standard(), false, 0)
        .convert_fn_to_trait_fn(&sig, &shape)
        .unwrap();
    assert!(es.sig.is_async);
    assert_eq!(es.associated_fut_decl, None);
    assert_eq!(es.associated_fut_impl, None);
    assert!(es.lifetimes.is_empty());
}

/// With no dependency and no parameters, an async function still gets a
/// receiver: one is inserted at the trait's location to host the future.
#[test]
fn insert_receiver_hosts_future() {
    let sig = FnSignature {
        span: 1,
        ident: "tick".to_string(),
        is_async: true,
        generics: no_generics(),
        params: vec![],
        output: ReturnType::Default,
    };
    let shape = DependencyShape::NoDependency;
    let conv = converter(future_opts(), false, 7);
    assert_eq!(
        conv.detect_receiver_generation(&sig, &shape, true),
        ReceiverGeneration::Insert
    );
    let es = conv.convert_fn_to_trait_fn(&sig, &shape).unwrap();
    let synth0 = LifetimeName::Synthesized(0);
    assert_eq!(
        es.sig.params,
        vec![FnParam {
            span: 99,
            kind: ParamKind::Receiver {
                reference: true,
                lifetime: LifetimeRef::Named(synth0.clone()),
                mutable: false,
            },
        }]
    );
    assert_eq!(
        es.sig.output,
        ReturnType::Ty(TypeExpr::SelfFuture {
            ordinal: 7,
            lifetimes: vec![synth0.clone()],
        })
    );
    let decl = es.associated_fut_decl.unwrap();
    assert_eq!(decl.output, TypeExpr::Unit);
    assert_eq!(decl.self_bounds, vec![synth0]);
    assert_eq!(fut_ident_chars(7), vec!['F', 'u', 't', '7']);
}
