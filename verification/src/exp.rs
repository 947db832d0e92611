//! The staged-graph expression: a constant or a numbered symbol that a
//! `Context` has registered. This is the flat, graph-building
//! counterpart of the tree API, used when common subexpressions are to
//! be shared by construction.

use vstd::prelude::*;

use crate::def::Def;

verus! {

/// A symbol of the staged graph, numbered by the context that created
/// it.
#[derive(Debug, Clone, Copy, PartialEq, Eq, Hash, Structural)]
pub struct Sym(pub usize);

/// A staged graph expression: a constant, or a symbol standing for a
/// registered definition.
#[derive(Debug, Clone, Copy, PartialEq, Eq, Structural)]
pub enum Exp {
    Const(i64),
    Sym(Sym),
}

/// A value that is either already an expression or still a definition
/// waiting to be registered with a context.
#[derive(Debug, Clone, Copy, PartialEq, Eq, Structural)]
pub enum ExpOrDef {
    Exp(Exp),
    Def(Def),
}

impl Exp {
    /// A constant expression.
    pub fn cst(value: i64) -> (r: Exp)
        ensures
            r == Exp::Const(value),
    {
        Exp::Const(value)
    }

    /// The constant carried, if this is a constant.
    pub fn as_cst(&self) -> (r: Option<i64>)
        ensures
            (self matches Exp::Const(v) ==> r == Some(*v)),
            !(self is Const) ==> r is None,
    {
        match self {
            Exp::Const(value) => Some(*value),
            _ => None,
        }
    }

    /// The symbol carried, if this is a symbol.
    pub fn as_sym(&self) -> (r: Option<Sym>)
        ensures
            (self matches Exp::Sym(s) ==> r == Some(*s)),
            !(self is Sym) ==> r is None,
    {
        match self {
            Exp::Sym(sym) => Some(*sym),
            _ => None,
        }
    }

    /// Addition: two constants fold to their sum; anything else becomes
    /// an addition definition. The caller keeps a constant fold within
    /// the value range.
    pub fn add(self, other: Exp) -> (r: ExpOrDef)
        requires
            self matches Exp::Const(x) && other matches Exp::Const(y) ==> i64::MIN <= x + y
                <= i64::MAX,
        ensures
            r == (match (self, other) {
                (Exp::Const(x), Exp::Const(y)) => ExpOrDef::Exp(Exp::Const((x + y) as i64)),
                _ => ExpOrDef::Def(Def::Plus(crate::def::Plus(self, other))),
            }),
    {
        match (self, other) {
            (Exp::Const(x), Exp::Const(y)) => ExpOrDef::Exp(Exp::Const(x + y)),
            _ => ExpOrDef::Def(Def::Plus(crate::def::Plus(self, other))),
        }
    }

    /// Subtraction; see `add`.
    pub fn sub(self, other: Exp) -> (r: ExpOrDef)
        requires
            self matches Exp::Const(x) && other matches Exp::Const(y) ==> i64::MIN <= x - y
                <= i64::MAX,
        ensures
            r == (match (self, other) {
                (Exp::Const(x), Exp::Const(y)) => ExpOrDef::Exp(Exp::Const((x - y) as i64)),
                _ => ExpOrDef::Def(Def::Minus(crate::def::Minus(self, other))),
            }),
    {
        match (self, other) {
            (Exp::Const(x), Exp::Const(y)) => ExpOrDef::Exp(Exp::Const(x - y)),
            _ => ExpOrDef::Def(Def::Minus(crate::def::Minus(self, other))),
        }
    }

    /// Multiplication; see `add`.
    pub fn mul(self, other: Exp) -> (r: ExpOrDef)
        requires
            self matches Exp::Const(x) && other matches Exp::Const(y) ==> i64::MIN <= x * y
                <= i64::MAX,
        ensures
            r == (match (self, other) {
                (Exp::Const(x), Exp::Const(y)) => ExpOrDef::Exp(Exp::Const((x * y) as i64)),
                _ => ExpOrDef::Def(Def::Times(crate::def::Times(self, other))),
            }),
    {
        match (self, other) {
            (Exp::Const(x), Exp::Const(y)) => ExpOrDef::Exp(Exp::Const(x * y)),
            _ => ExpOrDef::Def(Def::Times(crate::def::Times(self, other))),
        }
    }

    /// Truncating division; the caller keeps a constant fold away from
    /// division by zero and from the one overflowing quotient.
    pub fn div(self, other: Exp) -> (r: ExpOrDef)
        requires
            self matches Exp::Const(x) && other matches Exp::Const(y) ==> y != 0 && !(x
                == i64::MIN && y == -1),
        ensures
            r == (match (self, other) {
                (Exp::Const(x), Exp::Const(y)) => ExpOrDef::Exp(
                    Exp::Const(crate::arith::trunc_div_i(x as int, y as int) as i64),
                ),
                _ => ExpOrDef::Def(Def::Divides(crate::def::Divides(self, other))),
            }),
    {
        match (self, other) {
            (Exp::Const(x), Exp::Const(y)) => ExpOrDef::Exp(Exp::Const(crate::arith::div_i64(x, y))),
            _ => ExpOrDef::Def(Def::Divides(crate::def::Divides(self, other))),
        }
    }
}

} // verus!
