//! Option flags recognized by the analysis pass.

use vstd::prelude::*;

verus! {

/// How an `async` input function is represented on the generated trait.
#[derive(Clone, Copy, PartialEq, Eq, Structural, Debug)]
pub enum AsyncStrategy {
    /// Keep the method `async` as written.
    Plain,
    /// Box the future behind an attribute-based rewrite.
    BoxedTrait,
    /// Replace the `async` return with a named associated future type.
    AssociatedFuture,
}

/// The option bag handed to the analysis pass.
///
/// `debug_print` and `export_mocks` have no effect on the analysis itself;
/// they are carried through for the downstream code generator.
#[derive(Clone, Copy, PartialEq, Eq, Structural, Debug)]
pub struct Opts {
    /// Disables dependency-parameter analysis: every function is classified
    /// as taking no dependency, and a receiver is synthesized.
    pub no_deps: bool,
    pub async_strategy: AsyncStrategy,
    pub debug_print: bool,
    pub export_mocks: bool,
}

impl Opts {
    /// The default option bag: dependency analysis on, `async` kept as written.
    pub fn standard() -> (r: Opts)
        ensures
            r == (Opts {
                no_deps: false,
                async_strategy: AsyncStrategy::Plain,
                debug_print: false,
                export_mocks: false,
            }),
    {
        Opts {
            no_deps: false,
            async_strategy: AsyncStrategy::Plain,
            debug_print: false,
            export_mocks: false,
        }
    }
}

} // verus!
