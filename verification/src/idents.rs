//! The identifier registry: stable synthesized identifiers, scoped to one
//! transformation unit, for the generic "application" type parameter and
//! for the support-library path segments that generated code refers to.

use vstd::prelude::*;

verus! {

/// Path segments of the support libraries that generated code names.
#[derive(Debug, Clone, PartialEq, Eq)]
pub struct CrateIdents {
    pub entrait: String,
    pub core: String,
}

#[verifier::ext_equal]
pub struct CrateIdentsV {
    pub entrait: Seq<char>,
    pub core: Seq<char>,
}

impl DeepView for CrateIdents {
    type V = CrateIdentsV;

    open spec fn deep_view(&self) -> CrateIdentsV {
        CrateIdentsV { entrait: self.entrait@, core: self.core@ }
    }
}

impl CrateIdents {
    /// The stable registry contents.
    pub fn new() -> (r: CrateIdents)
        ensures
            r.entrait@ == "entrait"@,
            r.core@ == "core"@,
    {
        CrateIdents { entrait: "entrait".to_owned(), core: "core".to_owned() }
    }
}

/// The synthesized generic type parameter standing for the application
/// type in generated implementations.
#[derive(Debug, Clone, PartialEq, Eq)]
pub struct GenericIdents {
    pub impl_t: String,
}

#[verifier::ext_equal]
pub struct GenericIdentsV {
    pub impl_t: Seq<char>,
}

impl DeepView for GenericIdents {
    type V = GenericIdentsV;

    open spec fn deep_view(&self) -> GenericIdentsV {
        GenericIdentsV { impl_t: self.impl_t@ }
    }
}

/// The view of a freshly created identifier context.
pub open spec fn generic_idents_spec() -> GenericIdentsV {
    GenericIdentsV { impl_t: "EntraitT"@ }
}

impl GenericIdents {
    /// A fresh identifier context for one generated trait.
    pub fn new() -> (r: GenericIdents)
        ensures
            r.deep_view() == generic_idents_spec(),
    {
        GenericIdents { impl_t: "EntraitT".to_owned() }
    }
}

} // verus!
