//! The staged-graph definitions: the right-hand sides a context can
//! register under a symbol.

use vstd::prelude::*;

use crate::exp::{Exp, Sym};

verus! {

/// An addition of two staged expressions.
#[derive(Debug, Clone, Copy, PartialEq, Eq, Structural)]
pub struct Plus(pub Exp, pub Exp);

/// A subtraction of two staged expressions.
#[derive(Debug, Clone, Copy, PartialEq, Eq, Structural)]
pub struct Minus(pub Exp, pub Exp);

/// A multiplication of two staged expressions.
#[derive(Debug, Clone, Copy, PartialEq, Eq, Structural)]
pub struct Times(pub Exp, pub Exp);

/// A division of two staged expressions.
#[derive(Debug, Clone, Copy, PartialEq, Eq, Structural)]
pub struct Divides(pub Exp, pub Exp);

/// A definition: what a staged-graph symbol stands for. `Nil` marks a
/// fresh input symbol with no definition.
#[derive(Debug, Clone, Copy, PartialEq, Eq, Structural)]
pub enum Def {
    Nil,
    Plus(Plus),
    Minus(Minus),
    Times(Times),
    Divides(Divides),
}

/// The symbols a pair of operands mentions, left to right.
pub open spec fn pair_syms(a: Exp, b: Exp) -> Seq<Sym> {
    match (a, b) {
        (Exp::Sym(x), Exp::Sym(y)) => seq![x, y],
        (Exp::Sym(x), _) => seq![x],
        (_, Exp::Sym(y)) => seq![y],
        _ => Seq::empty(),
    }
}

/// The symbols a definition depends on, left to right.
pub open spec fn def_syms(d: Def) -> Seq<Sym> {
    match d {
        Def::Nil => Seq::empty(),
        Def::Plus(p) => pair_syms(p.0, p.1),
        Def::Minus(m) => pair_syms(m.0, m.1),
        Def::Times(t) => pair_syms(t.0, t.1),
        Def::Divides(dv) => pair_syms(dv.0, dv.1),
    }
}

/// Extraction of the symbols a definition depends on.
pub trait DefEx {
    /// The symbols, as the executable extraction returns them.
    spec fn syms_spec(&self) -> Seq<Sym>;

    /// Extract the symbols this definition depends on.
    fn syms(&self) -> (r: Vec<Sym>)
        ensures
            r@ == self.syms_spec(),
    ;
}

/// Collect the symbols of a pair of operands.
fn pair_syms_exec(a: Exp, b: Exp) -> (r: Vec<Sym>)
    ensures
        r@ == pair_syms(a, b),
{
    let mut v: Vec<Sym> = Vec::new();
    match (a, b) {
        (Exp::Sym(x), Exp::Sym(y)) => {
            v.push(x);
            v.push(y);
            proof {
                assert(v@ =~= seq![x, y]);
            }
        },
        (Exp::Sym(x), _) => {
            v.push(x);
            proof {
                assert(v@ =~= seq![x]);
            }
        },
        (_, Exp::Sym(y)) => {
            v.push(y);
            proof {
                assert(v@ =~= seq![y]);
            }
        },
        _ => {
            proof {
                assert(v@ =~= Seq::<Sym>::empty());
            }
        },
    }
    v
}

impl DefEx for Plus {
    open spec fn syms_spec(&self) -> Seq<Sym> {
        pair_syms(self.0, self.1)
    }

    fn syms(&self) -> (r: Vec<Sym>) {
        pair_syms_exec(self.0, self.1)
    }
}

impl DefEx for Minus {
    open spec fn syms_spec(&self) -> Seq<Sym> {
        pair_syms(self.0, self.1)
    }

    fn syms(&self) -> (r: Vec<Sym>) {
        pair_syms_exec(self.0, self.1)
    }
}

impl DefEx for Times {
    open spec fn syms_spec(&self) -> Seq<Sym> {
        pair_syms(self.0, self.1)
    }

    fn syms(&self) -> (r: Vec<Sym>) {
        pair_syms_exec(self.0, self.1)
    }
}

impl DefEx for Divides {
    open spec fn syms_spec(&self) -> Seq<Sym> {
        pair_syms(self.0, self.1)
    }

    fn syms(&self) -> (r: Vec<Sym>) {
        pair_syms_exec(self.0, self.1)
    }
}

impl DefEx for Def {
    open spec fn syms_spec(&self) -> Seq<Sym> {
        def_syms(*self)
    }

    fn syms(&self) -> (r: Vec<Sym>) {
        match self {
            Def::Nil => {
                let v: Vec<Sym> = Vec::new();
                proof {
                    assert(v@ =~= Seq::<Sym>::empty());
                }
                v
            },
            Def::Plus(p) => pair_syms_exec(p.0, p.1),
            Def::Minus(m) => pair_syms_exec(m.0, m.1),
            Def::Times(t) => pair_syms_exec(t.0, t.1),
            Def::Divides(dv) => pair_syms_exec(dv.0, dv.1),
        }
    }
}

} // verus!
