//! What an impl of [`Zonbi`](crate::shape::Zonbi) for a structure does to the
//! generic parameters of the structure.
//!
//! Such an impl names two instantiations of the structure. `Casted` is the
//! structure with every lifetime replaced by the scope of the impl. The
//! canonical form, whose `TypeId` is the identity, is the structure with every
//! lifetime replaced by `'static`. Type and const parameters stay as they are
//! in both. A derive macro decides by these functions and writes what they
//! say.
//!
//! The parameters are read from the `syn::Generics` of the declaration, or
//! given as a list of kinds.

use syn::GenericParam;
use syn::Generics;
use vstd::prelude::*;

verus! {

/// `syn::Generics`: the generic parameters and the where clause of a
/// declaration. Verus carries it through as an opaque value.
#[verifier::external_type_specification]
#[verifier::external_body]
pub struct ExGenerics(Generics);

/// The kind of one generic parameter of a structure.
#[derive(Clone, Copy, Debug, PartialEq, Eq, Structural)]
pub enum Param {
    /// A lifetime, as `'a`.
    Lifetime,
    /// A type, as `T`.
    Type,
    /// A constant, as `const N: usize`.
    Const,
}

/// One generic argument of an instantiation of the structure.
#[derive(Clone, Copy, Debug, PartialEq, Eq, Structural)]
pub enum Arg {
    /// The scope of the impl.
    Scope,
    /// The lifetime `'static`.
    Static,
    /// The parameter at this place of the structure's list, by its own name.
    Own(usize),
}

/// The kinds of the parameters that `generics.params` holds, in their order.
pub uninterp spec fn param_kinds(generics: Generics) -> Seq<Param>;

/// Walks `generics.params` by `syn::punctuated::Punctuated::iter`, which hands
/// the parameters out first to last, and tells the variants of
/// `syn::GenericParam` apart: one kind for each parameter, in their order.
#[verifier::external_body]
fn kinds_of(generics: &Generics) -> (kinds: Vec<Param>)
    ensures
        kinds@ == param_kinds(*generics),
{
    let mut kinds = Vec::new();
    for param in generics.params.iter() {
        kinds.push(
            match param {
                GenericParam::Lifetime(_) => Param::Lifetime,
                GenericParam::Type(_) => Param::Type,
                GenericParam::Const(_) => Param::Const,
            },
        );
    }
    kinds
}

/// The argument at place `at` of the instantiation in which `lifetime` stands
/// for every lifetime.
pub open spec fn spec_arg(params: Seq<Param>, at: int, lifetime: Arg) -> Arg {
    if params[at] == Param::Lifetime {
        lifetime
    } else {
        Arg::Own(at as usize)
    }
}

/// The arguments of the instantiation in which `lifetime` stands for every
/// lifetime: one for each parameter, in the order of the parameters.
pub open spec fn spec_args(params: Seq<Param>, lifetime: Arg) -> Seq<Arg> {
    Seq::new(params.len(), |at: int| spec_arg(params, at, lifetime))
}

/// Returns the arguments of the instantiation in which `lifetime` stands for
/// every lifetime.
pub fn instantiate(params: &Vec<Param>, lifetime: Arg) -> (args: Vec<Arg>)
    ensures
        args@ == spec_args(params@, lifetime),
{
    let mut args: Vec<Arg> = Vec::new();
    let mut at: usize = 0;
    while at < params.len()
        invariant
            at <= params.len(),
            args@ == spec_args(params@.take(at as int), lifetime),
        decreases params.len() - at,
    {
        let arg = match params[at] {
            Param::Lifetime => lifetime,
            Param::Type | Param::Const => Arg::Own(at),
        };
        args.push(arg);
        at = at + 1;
    }
    args
}

/// Returns the arguments of `Casted`: every lifetime is the scope of the impl.
pub fn casted_args(params: &Vec<Param>) -> (args: Vec<Arg>)
    ensures
        args@ == spec_args(params@, Arg::Scope),
{
    instantiate(params, Arg::Scope)
}

/// Returns the arguments of the canonical form: every lifetime is `'static`.
pub fn canonical_args(params: &Vec<Param>) -> (args: Vec<Arg>)
    ensures
        args@ == spec_args(params@, Arg::Static),
{
    instantiate(params, Arg::Static)
}

/// Returns the arguments of `Casted` for the declaration that has `generics`.
pub fn casted_args_of(generics: &Generics) -> (args: Vec<Arg>)
    ensures
        args@ == spec_args(param_kinds(*generics), Arg::Scope),
{
    let params = kinds_of(generics);
    casted_args(&params)
}

/// Returns the arguments of the canonical form for the declaration that has
/// `generics`.
pub fn canonical_args_of(generics: &Generics) -> (args: Vec<Arg>)
    ensures
        args@ == spec_args(param_kinds(*generics), Arg::Static),
{
    let params = kinds_of(generics);
    canonical_args(&params)
}

/// The two instantiations differ in the lifetimes only: where one has the
/// scope the other has `'static`, and everywhere else they agree.
pub proof fn lemma_casted_and_canonical_agree(params: Seq<Param>, at: int)
    requires
        0 <= at < params.len(),
    ensures
        spec_args(params, Arg::Scope).len() == params.len(),
        spec_args(params, Arg::Static).len() == params.len(),
        params[at] == Param::Lifetime ==> spec_args(params, Arg::Scope)[at] == Arg::Scope
            && spec_args(params, Arg::Static)[at] == Arg::Static,
        params[at] != Param::Lifetime ==> spec_args(params, Arg::Scope)[at] == spec_args(
            params,
            Arg::Static,
        )[at],
{
}

/// A structure without lifetimes has one instantiation: `Casted` and the
/// canonical form are the structure itself.
pub proof fn lemma_no_lifetime_no_change(params: Seq<Param>)
    requires
        forall|at: int| 0 <= at < params.len() ==> params[at] != Param::Lifetime,
    ensures
        spec_args(params, Arg::Scope) == spec_args(params, Arg::Static),
{
    assert(spec_args(params, Arg::Scope) =~= spec_args(params, Arg::Static));
}

} // verus!
