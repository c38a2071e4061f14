//! Dependency-shape classification and generics relocation, on concrete
//! signatures.

use entrait::analyze_generics::{
    detect_trait_dependency_mode, AnalysisError, AnalysisErrorKind, DependencyShape, FnInputMode,
    GenericsAnalyzer, TraitDependencyMode, TraitFn, TraitFnAnalyzer,
};
use entrait::ast::{
    ArgPat, FnParam, FnSignature, GenericParam, Generics, LifetimeName, LifetimeRef, ParamKind,
    PathSegment, ReturnType, TypeExpr, TypeParamBound, TypePath, WhereClause, WherePredicate,
};
use entrait::idents::CrateIdents;
use entrait::opt::Opts;

fn path_ty(name: &str) -> TypeExpr {
    TypeExpr::Path {
        path: TypePath {
            qself: false,
            leading_colon: false,
            segments: vec![PathSegment {
                ident: name.to_string(),
                lifetime_args: vec![],
                type_arg_idents: vec![],
            }],
        },
    }
}

fn ref_ty(inner: TypeExpr) -> TypeExpr {
    TypeExpr::Reference {
        lifetime: LifetimeRef::Elided,
        mutable: false,
        elem: Box::new(inner),
    }
}

fn typed_param(span: usize, name: &str, ty: TypeExpr) -> FnParam {
    FnParam {
        span,
        kind: ParamKind::Typed {
            pat: ArgPat::Ident(name.to_string()),
            ty,
        },
    }
}

fn trait_bound(name: &str) -> TypeParamBound {
    TypeParamBound::Trait {
        path: vec![name.to_string()],
    }
}

fn plain_sig(name: &str, generics: Generics, params: Vec<FnParam>, output: ReturnType) -> FnSignature {
    FnSignature {
        span: 1,
        ident: name.to_string(),
        is_async: false,
        generics,
        params,
        output,
    }
}

fn no_generics() -> Generics {
    Generics {
        params: vec![],
        where_clause: None,
    }
}

/// `fn foo<D: Bar>(deps: &D, x: i32) -> i32` is a named-generic dependency
/// on `D` with bound set `{Bar}`.
#[test]
fn named_generic_shape() {
    let generics = Generics {
        params: vec![GenericParam::Type {
            ident: "D".to_string(),
            bounds: vec![trait_bound("Bar")],
        }],
        where_clause: None,
    };
    let sig = plain_sig(
        "foo",
        generics,
        vec![
            typed_param(10, "deps", ref_ty(path_ty("D"))),
            typed_param(11, "x", path_ty("i32")),
        ],
        ReturnType::Ty(path_ty("i32")),
    );
    let mut analyzer = GenericsAnalyzer::new();
    let shape = analyzer.analyze_fn_deps(&sig, &Opts::standard()).unwrap();
    assert_eq!(
        shape,
        DependencyShape::NamedGeneric {
            ident: "D".to_string(),
            trait_bounds: vec![trait_bound("Bar")],
        }
    );
    // the matched parameter is consumed: nothing reaches the accumulator
    let tg = analyzer.into_trait_generics();
    assert!(tg.params.is_empty());
    assert!(tg.where_predicates.is_empty());
}

/// `fn foo(deps: &impl Bar) -> i32` captures inline bounds directly.
#[test]
fn inline_bounds_shape() {
    let sig = plain_sig(
        "foo",
        no_generics(),
        vec![typed_param(
            10,
            "deps",
            ref_ty(TypeExpr::ImplTrait {
                bounds: vec![trait_bound("Bar")],
            }),
        )],
        ReturnType::Ty(path_ty("i32")),
    );
    let mut analyzer = GenericsAnalyzer::new();
    let shape = analyzer.analyze_fn_deps(&sig, &Opts::standard()).unwrap();
    assert_eq!(
        shape,
        DependencyShape::InlineBounds {
            trait_bounds: vec![trait_bound("Bar")],
        }
    );
}

/// `fn foo(deps: &AppState) -> i32` is a concrete dependency: no error in
/// single-function mode.
#[test]
fn concrete_shape_single_fn() {
    let sig = plain_sig(
        "foo",
        no_generics(),
        vec![typed_param(10, "deps", ref_ty(path_ty("AppState")))],
        ReturnType::Ty(path_ty("i32")),
    );
    let mut analyzer = GenericsAnalyzer::new();
    let shape = analyzer.analyze_fn_deps(&sig, &Opts::standard()).unwrap();
    assert_eq!(
        shape,
        DependencyShape::Concrete {
            span: 10,
            ty: path_ty("AppState"),
        }
    );
}

fn analyze_one(sig: FnSignature, index: usize, analyzer: &mut GenericsAnalyzer) -> TraitFn {
    let tfa = TraitFnAnalyzer {
        inject_dyn_impl_param: false,
        trait_span: 0,
        crate_idents: CrateIdents::new(),
        opts: Opts::standard(),
    };
    tfa.analyze(sig, index, analyzer).unwrap()
}

/// A module mixing a named-generic function with a concrete-dependency
/// function is rejected.
#[test]
fn concrete_in_module_rejected() {
    let sig_a = plain_sig(
        "a",
        Generics {
            params: vec![GenericParam::Type {
                ident: "D".to_string(),
                bounds: vec![trait_bound("Bar")],
            }],
            where_clause: None,
        },
        vec![typed_param(10, "deps", ref_ty(path_ty("D")))],
        ReturnType::Default,
    );
    let sig_b = plain_sig(
        "b",
        no_generics(),
        vec![typed_param(20, "deps", ref_ty(path_ty("App")))],
        ReturnType::Ty(path_ty("i32")),
    );
    let mut analyzer = GenericsAnalyzer::new();
    let fns = vec![
        analyze_one(sig_a, 0, &mut analyzer),
        analyze_one(sig_b, 1, &mut analyzer),
    ];
    let r = detect_trait_dependency_mode(FnInputMode::Module, &fns);
    assert_eq!(
        r,
        Err(AnalysisError {
            kind: AnalysisErrorKind::ConcreteDependencyInModule,
            span: 20,
        })
    );
    // in single-function mode the same concrete function pins the trait
    let single = vec![fns.into_iter().nth(1).unwrap()];
    let r2 = detect_trait_dependency_mode(FnInputMode::SingleFn, &single);
    match r2.unwrap() {
        TraitDependencyMode::Concrete { ty } => assert_eq!(ty, path_ty("App")),
        TraitDependencyMode::Generic { .. } => panic!("expected a concrete mode"),
    }
}

/// A set with no concrete dependency resolves to the generic mode with the
/// stable synthesized identifier.
#[test]
fn generic_mode_idents() {
    let fns: Vec<TraitFn> = vec![];
    match detect_trait_dependency_mode(FnInputMode::Module, &fns).unwrap() {
        TraitDependencyMode::Generic { idents } => assert_eq!(idents.impl_t, "EntraitT"),
        TraitDependencyMode::Concrete { .. } => panic!("expected the generic mode"),
    }
}

/// A function with no parameter cannot supply a dependency.
#[test]
fn missing_dependency_parameter() {
    let sig = plain_sig("foo", no_generics(), vec![], ReturnType::Default);
    let mut analyzer = GenericsAnalyzer::new();
    let r = analyzer.analyze_fn_deps(&sig, &Opts::standard());
    assert_eq!(
        r,
        Err(AnalysisError {
            kind: AnalysisErrorKind::MissingDependencyParameter,
            span: 1,
        })
    );
}

/// A `self` receiver in the dependency position is rejected.
#[test]
fn unexpected_receiver() {
    let sig = plain_sig(
        "foo",
        no_generics(),
        vec![FnParam {
            span: 33,
            kind: ParamKind::Receiver {
                reference: true,
                lifetime: LifetimeRef::Elided,
                mutable: false,
            },
        }],
        ReturnType::Default,
    );
    let mut analyzer = GenericsAnalyzer::new();
    let r = analyzer.analyze_fn_deps(&sig, &Opts::standard());
    assert_eq!(
        r,
        Err(AnalysisError {
            kind: AnalysisErrorKind::UnexpectedReceiver,
            span: 33,
        })
    );
}

/// A qualified-self path as the dependency type is malformed.
#[test]
fn qualified_self_rejected() {
    let sig = plain_sig(
        "foo",
        no_generics(),
        vec![typed_param(
            7,
            "deps",
            TypeExpr::Path {
                path: TypePath {
                    qself: true,
                    leading_colon: false,
                    segments: vec![PathSegment {
                        ident: "Output".to_string(),
                        lifetime_args: vec![],
                        type_arg_idents: vec![],
                    }],
                },
            },
        )],
        ReturnType::Default,
    );
    let mut analyzer = GenericsAnalyzer::new();
    let r = analyzer.analyze_fn_deps(&sig, &Opts::standard());
    assert_eq!(
        r,
        Err(AnalysisError {
            kind: AnalysisErrorKind::MalformedTypePath,
            span: 7,
        })
    );
    // the accumulator is untouched by a failed classification
    assert!(analyzer.into_trait_generics().params.is_empty());
}

/// A multi-segment path is accepted as a concrete dependency.
#[test]
fn multi_segment_path_is_concrete() {
    let ty = TypeExpr::Path {
        path: TypePath {
            qself: false,
            leading_colon: false,
            segments: vec![
                PathSegment {
                    ident: "app".to_string(),
                    lifetime_args: vec![],
                    type_arg_idents: vec![],
                },
                PathSegment {
                    ident: "State".to_string(),
                    lifetime_args: vec![],
                    type_arg_idents: vec![],
                },
            ],
        },
    };
    let sig = plain_sig(
        "foo",
        no_generics(),
        vec![typed_param(4, "deps", ref_ty(entrait::ast_ops::duplicate_type(&ty)))],
        ReturnType::Default,
    );
    let mut analyzer = GenericsAnalyzer::new();
    let shape = analyzer.analyze_fn_deps(&sig, &Opts::standard()).unwrap();
    assert_eq!(shape, DependencyShape::Concrete { span: 4, ty });
}

/// With `no_deps`, no parameter is inspected but the function's own
/// generics still migrate to the trait level.
#[test]
fn no_deps_still_relocates_generics() {
    let generics = Generics {
        params: vec![
            GenericParam::Lifetime {
                name: LifetimeName::User("a".to_string()),
            },
            GenericParam::Type {
                ident: "T".to_string(),
                bounds: vec![trait_bound("Clone")],
            },
            GenericParam::Const {
                ident: "N".to_string(),
            },
        ],
        where_clause: Some(WhereClause {
            predicates: vec![WherePredicate::Type {
                bounded_ty: path_ty("T"),
                bounds: vec![trait_bound("Send")],
            }],
        }),
    };
    let sig = plain_sig("foo", generics, vec![], ReturnType::Default);
    let mut opts = Opts::standard();
    opts.no_deps = true;
    let mut analyzer = GenericsAnalyzer::new();
    let shape = analyzer.analyze_fn_deps(&sig, &opts).unwrap();
    assert_eq!(shape, DependencyShape::NoDependency);
    let tg = analyzer.into_trait_generics();
    // lifetimes are dropped, type and const parameters move in order
    assert_eq!(
        tg.params,
        vec![
            GenericParam::Type {
                ident: "T".to_string(),
                bounds: vec![trait_bound("Clone")],
            },
            GenericParam::Const {
                ident: "N".to_string(),
            },
        ]
    );
    assert_eq!(
        tg.where_predicates,
        vec![WherePredicate::Type {
            bounded_ty: path_ty("T"),
            bounds: vec![trait_bound("Send")],
        }]
    );
}

/// A named-generic match merges the where-clause bounds naming the matched
/// parameter into the dependency's bound set; everything else moves.
#[test]
fn named_generic_merges_where_bounds() {
    let generics = Generics {
        params: vec![
            GenericParam::Type {
                ident: "D".to_string(),
                bounds: vec![trait_bound("Bar")],
            },
            GenericParam::Type {
                ident: "T".to_string(),
                bounds: vec![],
            },
        ],
        where_clause: Some(WhereClause {
            predicates: vec![
                WherePredicate::Type {
                    bounded_ty: path_ty("D"),
                    bounds: vec![trait_bound("Baz")],
                },
                WherePredicate::Type {
                    bounded_ty: path_ty("T"),
                    bounds: vec![trait_bound("Send")],
                },
            ],
        }),
    };
    let sig = plain_sig(
        "foo",
        generics,
        vec![typed_param(10, "deps", ref_ty(path_ty("D")))],
        ReturnType::Default,
    );
    let mut analyzer = GenericsAnalyzer::new();
    let shape = analyzer.analyze_fn_deps(&sig, &Opts::standard()).unwrap();
    assert_eq!(
        shape,
        DependencyShape::NamedGeneric {
            ident: "D".to_string(),
            trait_bounds: vec![trait_bound("Bar"), trait_bound("Baz")],
        }
    );
    let tg = analyzer.into_trait_generics();
    assert_eq!(
        tg.params,
        vec![GenericParam::Type {
            ident: "T".to_string(),
            bounds: vec![],
        }]
    );
    assert_eq!(
        tg.where_predicates,
        vec![WherePredicate::Type {
            bounded_ty: path_ty("T"),
            bounds: vec![trait_bound("Send")],
        }]
    );
}

/// Two functions sharing an identical generic parameter contribute it to
/// the accumulator once.
#[test]
fn accumulator_dedupes_identical_params() {
    let make_sig = |name: &str| {
        plain_sig(
            name,
            Generics {
                params: vec![GenericParam::Type {
                    ident: "T".to_string(),
                    bounds: vec![trait_bound("Clone")],
                }],
                where_clause: None,
            },
            vec![typed_param(
                10,
                "deps",
                ref_ty(TypeExpr::ImplTrait {
                    bounds: vec![trait_bound("Bar")],
                }),
            )],
            ReturnType::Default,
        )
    };
    let mut analyzer = GenericsAnalyzer::new();
    analyzer.analyze_fn_deps(&make_sig("a"), &Opts::standard()).unwrap();
    analyzer.analyze_fn_deps(&make_sig("b"), &Opts::standard()).unwrap();
    let tg = analyzer.into_trait_generics();
    assert_eq!(
        tg.params,
        vec![GenericParam::Type {
            ident: "T".to_string(),
            bounds: vec![trait_bound("Clone")],
        }]
    );
}

/// Re-running classification on the same input yields a value-equal shape
/// and a value-equal accumulator contribution.
#[test]
fn classification_idempotent() {
    let make_sig = || {
        plain_sig(
            "foo",
            Generics {
                params: vec![
                    GenericParam::Type {
                        ident: "D".to_string(),
                        bounds: vec![trait_bound("Bar")],
                    },
                    GenericParam::Type {
                        ident: "T".to_string(),
                        bounds: vec![trait_bound("Send")],
                    },
                ],
                where_clause: None,
            },
            vec![typed_param(10, "deps", ref_ty(path_ty("D")))],
            ReturnType::Ty(path_ty("i32")),
        )
    };
    let mut a1 = GenericsAnalyzer::new();
    let mut a2 = GenericsAnalyzer::new();
    let s1 = a1.analyze_fn_deps(&make_sig(), &Opts::standard()).unwrap();
    let s2 = a2.analyze_fn_deps(&make_sig(), &Opts::standard()).unwrap();
    assert_eq!(s1, s2);
    assert_eq!(a1.into_trait_generics(), a2.into_trait_generics());
}

/// A parenthesized and referenced wrapper is unwrapped transparently.
#[test]
fn wrappers_unwrapped() {
    let sig = plain_sig(
        "foo",
        no_generics(),
        vec![typed_param(
            10,
            "deps",
            ref_ty(TypeExpr::Paren {
                elem: Box::new(TypeExpr::ImplTrait {
                    bounds: vec![trait_bound("Bar")],
                }),
            }),
        )],
        ReturnType::Default,
    );
    let mut analyzer = GenericsAnalyzer::new();
    let shape = analyzer.analyze_fn_deps(&sig, &Opts::standard()).unwrap();
    assert_eq!(
        shape,
        DependencyShape::InlineBounds {
            trait_bounds: vec![trait_bound("Bar")],
        }
    );
}

/// A non-path, non-impl type falls back to a concrete dependency.
#[test]
fn other_type_is_concrete() {
    let verbatim = TypeExpr::Verbatim {
        text: "[u8; 4]".to_string(),
    };
    let sig = plain_sig(
        "foo",
        no_generics(),
        vec![typed_param(10, "deps", entrait::ast_ops::duplicate_type(&verbatim))],
        ReturnType::Default,
    );
    let mut analyzer = GenericsAnalyzer::new();
    let shape = analyzer.analyze_fn_deps(&sig, &Opts::standard()).unwrap();
    assert_eq!(
        shape,
        DependencyShape::Concrete {
            span: 10,
            ty: verbatim,
        }
    );
}

/// A leading-separator path is accepted as a concrete dependency on an
/// externally-defined type.
#[test]
fn leading_colon_path_is_concrete() {
    let ty = TypeExpr::Path {
        path: TypePath {
            qself: false,
            leading_colon: true,
            segments: vec![PathSegment {
                ident: "App".to_string(),
                lifetime_args: vec![],
                type_arg_idents: vec![],
            }],
        },
    };
    let sig = plain_sig(
        "foo",
        no_generics(),
        vec![typed_param(5, "deps", ref_ty(entrait::ast_ops::duplicate_type(&ty)))],
        ReturnType::Default,
    );
    let mut analyzer = GenericsAnalyzer::new();
    let shape = analyzer.analyze_fn_deps(&sig, &Opts::standard()).unwrap();
    assert_eq!(shape, DependencyShape::Concrete { span: 5, ty });
}
