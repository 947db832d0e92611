//! Symbols: named, typed variables with a disambiguator.

use vstd::prelude::*;

use crate::ty::{type_view, IntoType, Type, TypeV};

verus! {

/// Symbol represents a named variable.
///
/// Two symbols with equal `name` and `ty` but different `id` are the same
/// binder instantiated in different scopes; the uniquifier rewrites `id`
/// so that every binder instantiation is globally distinct.
#[derive(Debug, PartialEq, Eq, Hash)]
#[verifier::ext_equal]
pub struct Symbol {
    pub name: String,
    pub ty: Type,
    pub id: u32,
}

/// The mathematical view of a symbol: its name text, its type's view,
/// and its disambiguator.
#[verifier::ext_equal]
pub struct SymV {
    pub name: Seq<char>,
    pub ty: TypeV,
    pub id: u32,
}

impl View for Symbol {
    type V = SymV;

    #[verifier::inline]
    open spec fn view(&self) -> SymV {
        SymV { name: self.name@, ty: type_view(self.ty), id: self.id }
    }
}

impl Clone for Symbol {
    /// Deep copy; the copy denotes the same symbol.
    fn clone(&self) -> (res: Self)
        ensures
            res@ == self@,
    {
        Symbol { name: self.name.clone(), ty: self.ty.clone(), id: self.id }
    }
}

impl Symbol {
    /// A symbol with the given name and type, and disambiguator 0.
    pub fn named<T: IntoType>(name: &str, ty: T) -> (res: Symbol)
        ensures
            res@ == (SymV { name: name@, ty: ty.type_vspec(), id: 0 }),
    {
        Symbol::new(name, ty, 0)
    }

    /// An anonymous symbol (named `_`) with the given type.
    pub fn unamed<T: IntoType>(ty: T) -> (res: Symbol)
        ensures
            res@ == (SymV { name: "_"@, ty: ty.type_vspec(), id: 0 }),
    {
        Symbol::named("_", ty)
    }

    /// A symbol with the given name, type and disambiguator.
    pub fn new<T: IntoType>(name: &str, ty: T, id: u32) -> (res: Symbol)
        ensures
            res@ == (SymV { name: name@, ty: ty.type_vspec(), id: id }),
    {
        Symbol { name: name.to_owned(), ty: ty.to_type(), id }
    }
}

/// Parameter represents one input of a staged function: the binder's
/// symbol and the type the binder was declared with.
#[derive(Debug, PartialEq, Eq, Hash)]
#[verifier::ext_equal]
pub struct Parameter {
    pub sym: Symbol,
    pub ty: Type,
}

impl Parameter {
    /// A parameter of the given symbol and declared type.
    pub fn new(sym: Symbol, ty: Type) -> (res: Parameter)
        ensures
            res.sym@ == sym@,
            res.ty@ == ty@,
    {
        Parameter { sym, ty }
    }
}

/// Structural comparison of two symbols: same name text, type and
/// disambiguator.
pub fn sym_eq(a: &Symbol, b: &Symbol) -> (r: bool)
    ensures
        r == (a@ == b@),
{
    let r = a.name.eq(&b.name) && crate::ty::type_eq(&a.ty, &b.ty) && a.id == b.id;
    proof {
        if r {
            assert(a@ =~= b@);
        }
    }
    r
}

} // verus!
