//! The associated-future form: a per-function, ordinal-named associated
//! type stands in for the future an `async` function would return. The
//! declaration and definition token fragments are produced as a matched
//! pair, built from the same catalogue, so they always agree.

use vstd::prelude::*;

use crate::ast::{
    FnSignature, FnSignatureV, GenericParam, GenericParamV, GenericsV, LifetimeName,
    LifetimeNameV, ReturnType, ReturnTypeV, TypeExpr, TypeExprV,
};
use crate::ast_ops::{duplicate_lifetime_name, duplicate_lifetime_names, duplicate_type};
use crate::lifetimes::{
    collect_signature, de_elide_and_collect, LifetimeFact, LifetimeFactV, SigComponent,
};
use crate::signature::EntraitSignature;

verus! {

// ------------------------------------------------------------------
// The ordinal name: function ordinal 0 yields Fut0, ordinal 1 yields Fut1
// ------------------------------------------------------------------

/// The decimal digit character for `d`.
pub open spec fn digit_char(d: int) -> char {
    if d == 0 {
        '0'
    } else if d == 1 {
        '1'
    } else if d == 2 {
        '2'
    } else if d == 3 {
        '3'
    } else if d == 4 {
        '4'
    } else if d == 5 {
        '5'
    } else if d == 6 {
        '6'
    } else if d == 7 {
        '7'
    } else if d == 8 {
        '8'
    } else {
        '9'
    }
}

/// The decimal rendering of `n`, most significant digit first.
pub open spec fn decimal_digits(n: int) -> Seq<char>
    decreases n,
{
    if n < 10 {
        seq![digit_char(n)]
    } else {
        decimal_digits(n / 10) + seq![digit_char(n % 10)]
    }
}

/// The name of the associated future of the function at `ordinal`.
pub open spec fn fut_ident_spec(ordinal: usize) -> Seq<char> {
    seq!['F', 'u', 't'] + decimal_digits(ordinal as int)
}

/// The decimal digit character for `d`.
fn digit_char_of(d: usize) -> (c: char)
    requires
        d < 10,
    ensures
        c == digit_char(d as int),
{
    if d == 0 {
        '0'
    } else if d == 1 {
        '1'
    } else if d == 2 {
        '2'
    } else if d == 3 {
        '3'
    } else if d == 4 {
        '4'
    } else if d == 5 {
        '5'
    } else if d == 6 {
        '6'
    } else if d == 7 {
        '7'
    } else if d == 8 {
        '8'
    } else {
        '9'
    }
}

/// Appends the decimal rendering of `n`.
fn push_decimal_digits(n: usize, out: &mut Vec<char>)
    ensures
        final(out)@ == old(out)@ + decimal_digits(n as int),
    decreases n,
{
    if n < 10 {
        out.push(digit_char_of(n));
        proof {
            assert(out@ =~= old(out)@ + decimal_digits(n as int));
        }
    } else {
        push_decimal_digits(n / 10, out);
        out.push(digit_char_of(n % 10));
        proof {
            assert(out@ =~= old(out)@ + decimal_digits(n as int));
        }
    }
}

/// The characters of the associated future's name for one function
/// ordinal: `Fut` followed by the ordinal in decimal.
pub fn fut_ident_chars(ordinal: usize) -> (r: Vec<char>)
    ensures
        r@ == fut_ident_spec(ordinal),
{
    let mut out: Vec<char> = Vec::new();
    out.push('F');
    out.push('u');
    out.push('t');
    proof {
        assert(out@ =~= seq!['F', 'u', 't']);
    }
    push_decimal_digits(ordinal, &mut out);
    out
}

// ------------------------------------------------------------------
// The matched declaration/definition fragment pair
// ------------------------------------------------------------------

/// The associated future's declaration fragment: on the trait,
/// `type Fut<ordinal><lifetimes>: Future<Output = output> + Send
/// where Self: <self_bounds>;`.
#[derive(Debug, PartialEq, Eq)]
pub struct FutDecl {
    pub ordinal: usize,
    pub lifetimes: Vec<LifetimeName>,
    pub output: TypeExpr,
    pub self_bounds: Vec<LifetimeName>,
}

/// The associated future's definition fragment: on the implementation,
/// `type Fut<ordinal><lifetimes> = impl Future<Output = output>
/// where Self: <self_bounds>;`.
#[derive(Debug, PartialEq, Eq)]
pub struct FutImpl {
    pub ordinal: usize,
    pub lifetimes: Vec<LifetimeName>,
    pub output: TypeExpr,
    pub self_bounds: Vec<LifetimeName>,
}

#[verifier::ext_equal]
pub struct FutDeclV {
    pub ordinal: usize,
    pub lifetimes: Seq<LifetimeNameV>,
    pub output: TypeExprV,
    pub self_bounds: Seq<LifetimeNameV>,
}

#[verifier::ext_equal]
pub struct FutImplV {
    pub ordinal: usize,
    pub lifetimes: Seq<LifetimeNameV>,
    pub output: TypeExprV,
    pub self_bounds: Seq<LifetimeNameV>,
}

impl DeepView for FutDecl {
    type V = FutDeclV;

    open spec fn deep_view(&self) -> FutDeclV {
        FutDeclV {
            ordinal: self.ordinal,
            lifetimes: self.lifetimes.deep_view(),
            output: self.output.deep_view(),
            self_bounds: self.self_bounds.deep_view(),
        }
    }
}

impl DeepView for FutImpl {
    type V = FutImplV;

    open spec fn deep_view(&self) -> FutImplV {
        FutImplV {
            ordinal: self.ordinal,
            lifetimes: self.lifetimes.deep_view(),
            output: self.output.deep_view(),
            self_bounds: self.self_bounds.deep_view(),
        }
    }
}

// ------------------------------------------------------------------
// From the catalogue to the future's parameter lists
// ------------------------------------------------------------------

/// The catalogued lifetime names from position `i` on, in order.
pub open spec fn fact_names_from(
    facts: Seq<LifetimeFactV>,
    i: int,
    out: Seq<LifetimeNameV>,
) -> Seq<LifetimeNameV>
    decreases facts.len() - i,
{
    if i < 0 || i >= facts.len() {
        out
    } else {
        fact_names_from(facts, i + 1, out.push(facts[i].name))
    }
}

/// All catalogued lifetime names, in catalogue order: the future's
/// generic-parameter list.
pub open spec fn fact_names(facts: Seq<LifetimeFactV>) -> Seq<LifetimeNameV> {
    fact_names_from(facts, 0, Seq::empty())
}

/// The receiver-sourced lifetime names from position `i` on.
pub open spec fn receiver_names_from(
    facts: Seq<LifetimeFactV>,
    i: int,
    out: Seq<LifetimeNameV>,
) -> Seq<LifetimeNameV>
    decreases facts.len() - i,
{
    if i < 0 || i >= facts.len() {
        out
    } else {
        let step = if facts[i].source == SigComponent::Receiver {
            out.push(facts[i].name)
        } else {
            out
        };
        receiver_names_from(facts, i + 1, step)
    }
}

/// The receiver-sourced lifetime names, in catalogue order: each demands
/// `Self: 'lifetime` in the future's where-clause.
pub open spec fn receiver_names(facts: Seq<LifetimeFactV>) -> Seq<LifetimeNameV> {
    receiver_names_from(facts, 0, Seq::empty())
}

/// The generic parameters grown out of the synthesized (not user-provided)
/// lifetimes, from position `i` on, appended to `out`.
pub open spec fn append_synthesized_from(
    facts: Seq<LifetimeFactV>,
    i: int,
    out: Seq<GenericParamV>,
) -> Seq<GenericParamV>
    decreases facts.len() - i,
{
    if i < 0 || i >= facts.len() {
        out
    } else {
        let step = if !facts[i].user_provided {
            out.push(GenericParamV::Lifetime { name: facts[i].name })
        } else {
            out
        };
        append_synthesized_from(facts, i + 1, step)
    }
}

/// The unit type standing in for an absent return type.
pub open spec fn output_type_of(output: ReturnTypeV) -> TypeExprV {
    match output {
        ReturnTypeV::Default => TypeExprV::Unit,
        ReturnTypeV::Ty(t) => t,
    }
}

/// The whole conversion to associated-future form, as a pure function: the
/// rewritten signature, the matched fragment pair, and the catalogue.
pub open spec fn convert_future_spec(sig: FnSignatureV, ordinal: usize) -> (
    FnSignatureV,
    FutDeclV,
    FutImplV,
    Seq<LifetimeFactV>,
) {
    let (p2, o2, facts) = collect_signature(sig.params, sig.output);
    let names = fact_names(facts);
    let new_sig = FnSignatureV {
        span: sig.span,
        ident: sig.ident,
        is_async: false,
        generics: GenericsV {
            params: append_synthesized_from(facts, 0, sig.generics.params),
            where_clause: sig.generics.where_clause,
        },
        params: p2,
        output: ReturnTypeV::Ty(TypeExprV::SelfFuture { ordinal, lifetimes: names }),
    };
    let out_ty = output_type_of(o2);
    let decl = FutDeclV {
        ordinal,
        lifetimes: names,
        output: out_ty,
        self_bounds: receiver_names(facts),
    };
    let fimpl = FutImplV {
        ordinal,
        lifetimes: names,
        output: out_ty,
        self_bounds: receiver_names(facts),
    };
    (new_sig, decl, fimpl, facts)
}

// ------------------------------------------------------------------
// Executable helpers over the catalogue
// ------------------------------------------------------------------

/// All catalogued lifetime names, in order.
pub fn fact_names_exec(facts: &Vec<LifetimeFact>) -> (r: Vec<LifetimeName>)
    ensures
        r.deep_view() == fact_names(facts.deep_view()),
{
    let ghost fv = facts.deep_view();
    let n = facts.len();
    let mut out: Vec<LifetimeName> = Vec::new();
    proof {
        assert(out.deep_view() =~= Seq::<LifetimeNameV>::empty());
    }
    let mut i: usize = 0;
    while i < n
        invariant
            i <= n,
            n == facts.len(),
            fv == facts.deep_view(),
            fact_names(fv) == fact_names_from(fv, i as int, out.deep_view()),
        decreases n - i,
    {
        let ghost prev = out.deep_view();
        out.push(duplicate_lifetime_name(&facts[i].name));
        proof {
            assert(out.deep_view() =~= prev.push(fv[i as int].name));
        }
        i = i + 1;
    }
    out
}

/// The receiver-sourced lifetime names, in order.
pub fn receiver_names_exec(facts: &Vec<LifetimeFact>) -> (r: Vec<LifetimeName>)
    ensures
        r.deep_view() == receiver_names(facts.deep_view()),
{
    let ghost fv = facts.deep_view();
    let n = facts.len();
    let mut out: Vec<LifetimeName> = Vec::new();
    proof {
        assert(out.deep_view() =~= Seq::<LifetimeNameV>::empty());
    }
    let mut i: usize = 0;
    while i < n
        invariant
            i <= n,
            n == facts.len(),
            fv == facts.deep_view(),
            receiver_names(fv) == receiver_names_from(fv, i as int, out.deep_view()),
        decreases n - i,
    {
        let ghost prev = out.deep_view();
        let is_receiver = match facts[i].source {
            SigComponent::Receiver => true,
            _ => false,
        };
        if is_receiver {
            out.push(duplicate_lifetime_name(&facts[i].name));
            proof {
                assert(out.deep_view() =~= prev.push(fv[i as int].name));
            }
        }
        i = i + 1;
    }
    out
}

/// Appends, for every synthesized (not user-provided) lifetime in the
/// catalogue, a fresh lifetime generic parameter.
fn synthesized_params_append(params: &mut Vec<GenericParam>, facts: &Vec<LifetimeFact>)
    ensures
        final(params).deep_view() == append_synthesized_from(
            facts.deep_view(),
            0,
            old(params).deep_view(),
        ),
{
    let ghost fv = facts.deep_view();
    let ghost gp0 = old(params).deep_view();
    let n = facts.len();
    let mut i: usize = 0;
    while i < n
        invariant
            i <= n,
            n == facts.len(),
            fv == facts.deep_view(),
            append_synthesized_from(fv, 0, gp0) == append_synthesized_from(
                fv,
                i as int,
                params.deep_view(),
            ),
        decreases n - i,
    {
        let ghost prev = params.deep_view();
        if !facts[i].user_provided {
            params.push(GenericParam::Lifetime { name: duplicate_lifetime_name(&facts[i].name) });
            proof {
                assert(params.deep_view() =~= prev.push(
                    GenericParamV::Lifetime { name: fv[i as int].name },
                ));
            }
        }
        i = i + 1;
    }
}

/// Converts a signature in place to the associated-future form: asyncness
/// is cleared, every synthesized lifetime becomes a fresh generic
/// parameter, the return type becomes the ordinal-named associated type
/// applied to the whole catalogue, and the matched declaration/definition
/// pair is built from the same catalogue. Elided return lifetimes are
/// prevented upstream.
pub fn future_convert(sig: &mut FnSignature, ordinal: usize) -> (r: (
    FutDecl,
    FutImpl,
    Vec<LifetimeFact>,
))
    ensures
        ({
            let (new_sig, decl, fimpl, facts) = convert_future_spec(
                old(sig).deep_view(),
                ordinal,
            );
            &&& final(sig).deep_view() == new_sig
            &&& r.0.deep_view() == decl
            &&& r.1.deep_view() == fimpl
            &&& r.2.deep_view() == facts
        }),
{
    let ghost sv = sig.deep_view();
    let (new_params, de_elided_output, facts) = de_elide_and_collect(&sig.params, &sig.output);
    sig.params = new_params;
    sig.is_async = false;

    // grow the synthesized lifetimes into generic parameters
    synthesized_params_append(&mut sig.generics.params, &facts);

    let names = fact_names_exec(&facts);
    sig.output = ReturnType::Ty(
        TypeExpr::SelfFuture { ordinal, lifetimes: names },
    );

    let out_ty = match &de_elided_output {
        ReturnType::Default => TypeExpr::Unit,
        ReturnType::Ty(t) => duplicate_type(t),
    };
    let self_bounds = receiver_names_exec(&facts);
    let decl = FutDecl {
        ordinal,
        lifetimes: fact_names_exec(&facts),
        output: out_ty,
        self_bounds,
    };
    let fimpl = FutImpl {
        ordinal,
        lifetimes: fact_names_exec(&facts),
        output: duplicate_type(&decl.output),
        self_bounds: receiver_names_exec(&facts),
    };
    (decl, fimpl, facts)
}

impl EntraitSignature {
    /// Converts this signature in place to the associated-future form,
    /// producing the declaration and definition fragments as a matched
    /// pair together with the lifetime catalogue behind them.
    pub fn convert_to_associated_future(&mut self, ordinal: usize)
        ensures
            ({
                let (new_sig, decl, fimpl, facts) = convert_future_spec(
                    old(self).sig.deep_view(),
                    ordinal,
                );
                &&& final(self).sig.deep_view() == new_sig
                &&& final(self).associated_fut_decl.deep_view() == Option::Some(decl)
                &&& final(self).associated_fut_impl.deep_view() == Option::Some(fimpl)
                &&& final(self).lifetimes.deep_view() == facts
            }),
    {
        let (decl, fimpl, facts) = future_convert(&mut self.sig, ordinal);
        self.associated_fut_decl = Option::Some(decl);
        self.associated_fut_impl = Option::Some(fimpl);
        self.lifetimes = facts;
    }
}

} // verus!
