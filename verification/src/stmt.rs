//! The staged-graph statements: a symbol bound to a definition.

use vstd::prelude::*;

use crate::def::Def;
use crate::exp::Sym;

verus! {

/// One binding of a symbol to a definition.
#[derive(Debug, Clone, Copy, PartialEq, Eq, Structural)]
pub struct Assign {
    pub sym: Sym,
    pub def: Def,
}

/// A statement of the staged graph: so far only an assignment.
#[derive(Debug, Clone, Copy, PartialEq, Eq, Structural)]
pub enum Stmt {
    Assign(Assign),
}

impl Stmt {
    /// Bind `sym` to the definition `rhs`.
    pub fn assign(sym: Sym, rhs: Def) -> (r: Stmt)
        ensures
            r == Stmt::Assign(Assign { sym, def: rhs }),
    {
        Stmt::Assign(Assign { sym, def: rhs })
    }

    /// The bound symbol (the statement's left-hand side).
    pub fn sym(&self) -> (r: Sym)
        ensures
            r == self->Assign_0.sym,
    {
        match self {
            Stmt::Assign(a) => a.sym,
        }
    }

    /// The definition (the statement's right-hand side).
    pub fn def(&self) -> (r: Def)
        ensures
            r == self->Assign_0.def,
    {
        match self {
            Stmt::Assign(a) => a.def,
        }
    }

    /// The definition this statement gives `sym`, if it binds that
    /// symbol.
    pub fn defines(&self, sym: Sym) -> (r: Option<Def>)
        ensures
            self->Assign_0.sym == sym ==> r == Some(self->Assign_0.def),
            self->Assign_0.sym != sym ==> r is None,
    {
        match self {
            Stmt::Assign(a) => if a.sym == sym {
                Some(a.def)
            } else {
                None
            },
        }
    }

    /// The symbol this statement binds to `rhs`, if its definition is
    /// exactly `rhs`.
    pub fn defines_rhs(&self, rhs: &Def) -> (r: Option<Sym>)
        ensures
            self->Assign_0.def == *rhs ==> r == Some(self->Assign_0.sym),
            self->Assign_0.def != *rhs ==> r is None,
    {
        match self {
            Stmt::Assign(a) => if a.def == *rhs {
                Some(a.sym)
            } else {
                None
            },
        }
    }
}

} // verus!
