//! Analysis engine for turning standalone function signatures into trait
//! method signatures, for an inversion-of-control pattern: a function whose
//! first parameter names its dependencies is classified by the shape of that
//! parameter, its generic parameters and where-predicates are relocated
//! between the function and the generated trait, and the signature is
//! rewritten with a `self` receiver, optionally in associated-future form.

pub mod analyze_generics;
pub mod ast;
pub mod ast_ops;
pub mod future;
pub mod idents;
pub mod laws;
pub mod lifetimes;
pub mod opt;
pub mod signature;
