//! Staged variables: a phantom-typed handle over an expression tree.
//! The phantom tag is an ergonomic convenience; every combinator still
//! checks the type algebra dynamically before producing a node, and
//! fails with a typed error on a violation.

use core::marker::PhantomData;

use vstd::prelude::*;

use crate::bin_op::{BinOp, BinOpType};
use crate::builder::{merge_exprs, merge_spec_e};
use crate::error::{Error, ErrorV};
use crate::expr::{
    expr_ty, expr_ty_vspec, Eval, Expr, ExprV, For, Iter, IterV, Lambda, Merge, Vector,
};
use crate::lit::{LitV, Literal};
use crate::sym::{SymV, Symbol};
use crate::ty::{
    type_eq, AppenderType, Bool, BuilderType, DictMergerType, GroupMergerType, IntoType,
    MergerType, Type, TypeV, VecMergerType, VectorType, U64,
};
use crate::unary_op::{UnaryOp, UnaryOpType};

verus! {

/// Conversion of a host value into an expression: literals embed as
/// literal nodes, staged variables yield their tree.
pub trait IntoExpr: Sized {
    /// The view of the expression this value denotes.
    spec fn expr_vspec(&self) -> ExprV;

    /// Convert into the denoted expression.
    fn to_expr(self) -> (e: Expr)
        ensures
            e@ == self.expr_vspec(),
    ;
}

impl IntoExpr for Expr {
    open spec fn expr_vspec(&self) -> ExprV {
        (*self)@
    }

    fn to_expr(self) -> (e: Expr) {
        self
    }
}

impl IntoExpr for Literal {
    open spec fn expr_vspec(&self) -> ExprV {
        ExprV::Literal((*self)@)
    }

    fn to_expr(self) -> (e: Expr) {
        Expr::Literal(self)
    }
}

impl IntoExpr for bool {
    open spec fn expr_vspec(&self) -> ExprV {
        ExprV::Literal(LitV::Bool(*self))
    }

    fn to_expr(self) -> (e: Expr) {
        Expr::Literal(Literal::Bool(self))
    }
}

impl IntoExpr for u8 {
    open spec fn expr_vspec(&self) -> ExprV {
        ExprV::Literal(LitV::U8(*self))
    }

    fn to_expr(self) -> (e: Expr) {
        Expr::Literal(Literal::U8(self))
    }
}

impl IntoExpr for u32 {
    open spec fn expr_vspec(&self) -> ExprV {
        ExprV::Literal(LitV::U32(*self))
    }

    fn to_expr(self) -> (e: Expr) {
        Expr::Literal(Literal::U32(self))
    }
}

impl IntoExpr for i32 {
    open spec fn expr_vspec(&self) -> ExprV {
        ExprV::Literal(LitV::I32(*self))
    }

    fn to_expr(self) -> (e: Expr) {
        Expr::Literal(Literal::I32(self))
    }
}

impl IntoExpr for u64 {
    open spec fn expr_vspec(&self) -> ExprV {
        ExprV::Literal(LitV::U64(*self))
    }

    fn to_expr(self) -> (e: Expr) {
        Expr::Literal(Literal::U64(self))
    }
}

impl IntoExpr for i64 {
    open spec fn expr_vspec(&self) -> ExprV {
        ExprV::Literal(LitV::I64(*self))
    }

    fn to_expr(self) -> (e: Expr) {
        Expr::Literal(Literal::I64(self))
    }
}

impl IntoExpr for String {
    open spec fn expr_vspec(&self) -> ExprV {
        ExprV::Literal(LitV::Str((*self)@))
    }

    fn to_expr(self) -> (e: Expr) {
        Expr::Literal(Literal::Str(self))
    }
}

/// Var represents a staged value of (phantom) category `T` in the
/// program under construction. The wrapped expression is the value's
/// whole identity; the tag records the category the host-language API
/// ascribes to it.
#[derive(Debug, PartialEq, Eq, Hash)]
pub struct Var<T> {
    pub expr: Expr,
    pub marker: PhantomData<T>,
}

impl<T> Clone for Var<T> {
    /// Deep copy; the copy denotes the same staged value.
    fn clone(&self) -> (res: Self)
        ensures
            res.expr@ == self.expr@,
    {
        Var { expr: self.expr.clone(), marker: PhantomData }
    }
}

impl<T> IntoExpr for Var<T> {
    open spec fn expr_vspec(&self) -> ExprV {
        self.expr@
    }

    fn to_expr(self) -> (e: Expr) {
        self.expr
    }
}

/// What folding or rebuilding a binary combinator over `l` and `r`
/// yields: two literals whose fold the literal algebra defines become
/// the folded literal (or the algebra's error); anything else becomes a
/// type-checked node.
pub open spec fn var_bin_spec(op: BinOpType, l: ExprV, r: ExprV) -> Result<ExprV, ErrorV> {
    if l matches ExprV::Literal(la) && r matches ExprV::Literal(rb) && crate::lit::bin_fold_defined(
        la,
        rb,
        op,
    ) {
        match crate::lit::apply_bin_op_spec(l->Literal_0, r->Literal_0, op) {
            Ok(res) => Ok(ExprV::Literal(res)),
            Err(e) => Err(e),
        }
    } else {
        BinOp::checked_spec(op, l, r)
    }
}

/// The view of a `Result` carrying an expression or an error.
pub open spec fn expr_res_view(r: Result<Expr, Error>) -> Result<ExprV, ErrorV> {
    match r {
        Ok(e) => Ok(e@),
        Err(er) => Err(er@),
    }
}

/// Fold or build a binary combinator; see `var_bin_spec`.
fn var_bin(op: BinOpType, l: Expr, r: Expr) -> (res: Result<Expr, Error>)
    ensures
        expr_res_view(res) == var_bin_spec(op, l@, r@),
{
    let fold: bool = match (&l, &r) {
        (Expr::Literal(la), Expr::Literal(rb)) => crate::simplify::can_fold_bin(la, rb, op),
        _ => false,
    };
    if fold {
        let la = match l {
            Expr::Literal(x) => x,
            _ => vstd::pervasive::unreached(),
        };
        let rb = match r {
            Expr::Literal(x) => x,
            _ => vstd::pervasive::unreached(),
        };
        match la.apply_bin_op(&rb, op) {
            Ok(resl) => Ok(Expr::Literal(resl)),
            Err(e) => Err(e),
        }
    } else {
        match BinOp::checked(op, l, r) {
            Ok(b) => Ok(Expr::BinOp(b)),
            Err(e) => Err(e),
        }
    }
}

impl<T> Var<T> {
    /// Wrap an expression as a staged value. The caller ascribes the
    /// phantom category; the dynamic checks of every combinator remain
    /// in force.
    pub fn new(expr: Expr) -> (res: Self)
        ensures
            res.expr@ == expr@,
    {
        Var { expr, marker: PhantomData }
    }

    /// A staged value referencing `sym`.
    pub fn symbol(sym: Symbol) -> (res: Self)
        ensures
            res.expr@ == ExprV::Symbol(sym@),
    {
        Var { expr: Expr::Symbol(sym), marker: PhantomData }
    }

    /// A staged value referencing a fresh symbol with the given name and
    /// type (disambiguator 0).
    pub fn new_symbol<U: IntoType>(name: &str, ty: U) -> (res: Self)
        ensures
            res.expr@ == ExprV::Symbol(SymV { name: name@, ty: ty.type_vspec(), id: 0 }),
    {
        Var::symbol(Symbol::named(name, ty))
    }

    /// Build a binary combinator over two staged values of one
    /// category, folding literals; see `var_bin_spec`.
    pub fn bin_op(self, other: Self, op: BinOpType) -> (res: Result<Self, Error>)
        ensures
            match res {
                Ok(v) => var_bin_spec(op, self.expr@, other.expr@) == Ok::<ExprV, ErrorV>(v.expr@),
                Err(e) => var_bin_spec(op, self.expr@, other.expr@) == Err::<ExprV, ErrorV>(e@),
            },
    {
        match var_bin(op, self.expr, other.expr) {
            Ok(e) => Ok(Var::new(e)),
            Err(e) => Err(e),
        }
    }
}

impl Var<Bool> {
    /// A staged boolean literal.
    pub fn lit_bool(value: bool) -> (res: Self)
        ensures
            res.expr@ == ExprV::Literal(LitV::Bool(value)),
    {
        Var::new(Expr::Literal(Literal::Bool(value)))
    }

    /// Wrap a boolean-typed expression; fails with `TypeError` when the
    /// expression is not of type `Bool`.
    pub fn expr_bool(expr: Expr) -> (res: Result<Self, Error>)
        ensures
            match res {
                Ok(v) => expr_ty_vspec(expr@) is Bool && v.expr@ == expr@,
                Err(e) => !(expr_ty_vspec(expr@) is Bool) && e@ == (ErrorV::TypeError {
                    left: expr_ty_vspec(expr@),
                    right: TypeV::Bool,
                }),
            },
    {
        let t = expr_ty(&expr);
        if t.is_bool() {
            Ok(Var::new(expr))
        } else {
            Err(Error::TypeError { left: t, right: Type::Bool(Bool) })
        }
    }

    /// Logical negation: a boolean literal folds, a double negation
    /// unwraps, anything else becomes a checked `Not` node.
    pub fn not(self) -> (res: Result<Self, Error>)
        ensures
            match res {
                Ok(v) => var_not_spec(self.expr@) == Ok::<ExprV, ErrorV>(v.expr@),
                Err(e) => var_not_spec(self.expr@) == Err::<ExprV, ErrorV>(e@),
            },
    {
        match self.expr {
            Expr::Literal(Literal::Bool(v)) => Ok(Var::lit_bool(!v)),
            Expr::UnaryOp(u) => {
                if matches!(u.op_ty, UnaryOpType::Not) {
                    let inner = *u.value;
                    match Var::expr_bool(inner) {
                        Ok(v) => Ok(v),
                        Err(e) => Err(e),
                    }
                } else {
                    match UnaryOp::not(Expr::UnaryOp(u)) {
                        Ok(n) => Ok(Var::new(Expr::UnaryOp(n))),
                        Err(e) => Err(e),
                    }
                }
            },
            other => match UnaryOp::not(other) {
                Ok(n) => Ok(Var::new(Expr::UnaryOp(n))),
                Err(e) => Err(e),
            },
        }
    }
}

/// What logical negation of a staged boolean yields: a literal folds, a
/// `Not` node unwraps to its (boolean) operand, anything else becomes a
/// checked `Not` node.
pub open spec fn var_not_spec(e: ExprV) -> Result<ExprV, ErrorV> {
    match e {
        ExprV::Literal(LitV::Bool(v)) => Ok(ExprV::Literal(LitV::Bool(!v))),
        ExprV::UnaryOp { op_ty: UnaryOpType::Not, value } => if expr_ty_vspec(*value) is Bool {
            Ok(*value)
        } else {
            Err(ErrorV::TypeError { left: expr_ty_vspec(*value), right: TypeV::Bool })
        },
        _ => UnaryOp::not_spec(e),
    }
}

impl Var<crate::ty::Str> {
    /// A staged string literal.
    pub fn lit_string(value: String) -> (res: Self)
        ensures
            res.expr@ == ExprV::Literal(LitV::Str(value@)),
    {
        Var::new(Expr::Literal(Literal::Str(value)))
    }

    /// Wrap a string-typed expression; fails with `TypeError` when the
    /// expression is not of type `Str`.
    pub fn expr_string(expr: Expr) -> (res: Result<Self, Error>)
        ensures
            match res {
                Ok(v) => expr_ty_vspec(expr@) is Str && v.expr@ == expr@,
                Err(e) => !(expr_ty_vspec(expr@) is Str) && e@ == (ErrorV::TypeError {
                    left: expr_ty_vspec(expr@),
                    right: TypeV::Str,
                }),
            },
    {
        let t = expr_ty(&expr);
        if t.is_str() {
            Ok(Var::new(expr))
        } else {
            Err(Error::TypeError { left: t, right: Type::Str(crate::ty::Str) })
        }
    }

    /// Equality test on two staged strings.
    pub fn eq(self, other: Self) -> (res: Result<Var<Bool>, Error>)
        ensures
            match res {
                Ok(v) => var_bin_spec(BinOpType::Equal, self.expr@, other.expr@) == Ok::<
                    ExprV,
                    ErrorV,
                >(v.expr@),
                Err(e) => var_bin_spec(BinOpType::Equal, self.expr@, other.expr@) == Err::<
                    ExprV,
                    ErrorV,
                >(e@),
            },
    {
        match var_bin(BinOpType::Equal, self.expr, other.expr) {
            Ok(e) => Ok(Var::new(e)),
            Err(e) => Err(e),
        }
    }

    /// Inequality test on two staged strings.
    pub fn ne(self, other: Self) -> (res: Result<Var<Bool>, Error>)
        ensures
            match res {
                Ok(v) => var_bin_spec(BinOpType::NotEqual, self.expr@, other.expr@) == Ok::<
                    ExprV,
                    ErrorV,
                >(v.expr@),
                Err(e) => var_bin_spec(BinOpType::NotEqual, self.expr@, other.expr@) == Err::<
                    ExprV,
                    ErrorV,
                >(e@),
            },
    {
        match var_bin(BinOpType::NotEqual, self.expr, other.expr) {
            Ok(e) => Ok(Var::new(e)),
            Err(e) => Err(e),
        }
    }
}


impl Var<crate::ty::U8> {
    /// A staged `U8` literal.
    pub fn lit_u8(value: u8) -> (res: Self)
        ensures
            res.expr@ == ExprV::Literal(LitV::U8(value)),
    {
        Var::new(Expr::Literal(Literal::U8(value)))
    }

    /// Wrap a `U8`-typed expression; fails with `TypeError` otherwise.
    pub fn expr_u8(expr: Expr) -> (res: Result<Self, Error>)
        ensures
            match res {
                Ok(v) => expr_ty_vspec(expr@) is U8 && v.expr@ == expr@,
                Err(e) => !(expr_ty_vspec(expr@) is U8) && e@ == (ErrorV::TypeError {
                    left: expr_ty_vspec(expr@),
                    right: TypeV::U8,
                }),
            },
    {
        let t = expr_ty(&expr);
        if t.is_u8() {
            Ok(Var::new(expr))
        } else {
            Err(Error::TypeError { left: t, right: Type::U8(crate::ty::U8) })
        }
    }

    /// Equality test on two staged values.
    pub fn eq(self, other: Self) -> (res: Result<Var<Bool>, Error>)
        ensures
            expr_res_view(var_res_expr(res)) == var_bin_spec(
                BinOpType::Equal,
                self.expr@,
                other.expr@,
            ),
    {
        match var_bin(BinOpType::Equal, self.expr, other.expr) {
            Ok(e) => Ok(Var::new(e)),
            Err(e) => Err(e),
        }
    }

    /// Inequality test on two staged values.
    pub fn ne(self, other: Self) -> (res: Result<Var<Bool>, Error>)
        ensures
            expr_res_view(var_res_expr(res)) == var_bin_spec(
                BinOpType::NotEqual,
                self.expr@,
                other.expr@,
            ),
    {
        match var_bin(BinOpType::NotEqual, self.expr, other.expr) {
            Ok(e) => Ok(Var::new(e)),
            Err(e) => Err(e),
        }
    }

    /// Addition: literals fold, anything else becomes a checked node.
    pub fn add(self, other: Self) -> (res: Result<Self, Error>)
        ensures
            expr_res_view(var_res_expr(res)) == var_bin_spec(
                BinOpType::Add,
                self.expr@,
                other.expr@,
            ),
    {
        self.bin_op(other, BinOpType::Add)
    }

    /// Subtraction: literals fold, anything else becomes a checked node.
    pub fn sub(self, other: Self) -> (res: Result<Self, Error>)
        ensures
            expr_res_view(var_res_expr(res)) == var_bin_spec(
                BinOpType::Subtract,
                self.expr@,
                other.expr@,
            ),
    {
        self.bin_op(other, BinOpType::Subtract)
    }

    /// Multiplication: literals fold, anything else becomes a checked
    /// node.
    pub fn mul(self, other: Self) -> (res: Result<Self, Error>)
        ensures
            expr_res_view(var_res_expr(res)) == var_bin_spec(
                BinOpType::Multiply,
                self.expr@,
                other.expr@,
            ),
    {
        self.bin_op(other, BinOpType::Multiply)
    }

    /// Division: literals fold, anything else becomes a checked node.
    pub fn div(self, other: Self) -> (res: Result<Self, Error>)
        ensures
            expr_res_view(var_res_expr(res)) == var_bin_spec(
                BinOpType::Divide,
                self.expr@,
                other.expr@,
            ),
    {
        self.bin_op(other, BinOpType::Divide)
    }
}

impl Var<crate::ty::U32> {
    /// A staged `U32` literal.
    pub fn lit_u32(value: u32) -> (res: Self)
        ensures
            res.expr@ == ExprV::Literal(LitV::U32(value)),
    {
        Var::new(Expr::Literal(Literal::U32(value)))
    }

    /// Wrap a `U32`-typed expression; fails with `TypeError` otherwise.
    pub fn expr_u32(expr: Expr) -> (res: Result<Self, Error>)
        ensures
            match res {
                Ok(v) => expr_ty_vspec(expr@) is U32 && v.expr@ == expr@,
                Err(e) => !(expr_ty_vspec(expr@) is U32) && e@ == (ErrorV::TypeError {
                    left: expr_ty_vspec(expr@),
                    right: TypeV::U32,
                }),
            },
    {
        let t = expr_ty(&expr);
        if t.is_u32() {
            Ok(Var::new(expr))
        } else {
            Err(Error::TypeError { left: t, right: Type::U32(crate::ty::U32) })
        }
    }

    /// Equality test on two staged values.
    pub fn eq(self, other: Self) -> (res: Result<Var<Bool>, Error>)
        ensures
            expr_res_view(var_res_expr(res)) == var_bin_spec(
                BinOpType::Equal,
                self.expr@,
                other.expr@,
            ),
    {
        match var_bin(BinOpType::Equal, self.expr, other.expr) {
            Ok(e) => Ok(Var::new(e)),
            Err(e) => Err(e),
        }
    }

    /// Inequality test on two staged values.
    pub fn ne(self, other: Self) -> (res: Result<Var<Bool>, Error>)
        ensures
            expr_res_view(var_res_expr(res)) == var_bin_spec(
                BinOpType::NotEqual,
                self.expr@,
                other.expr@,
            ),
    {
        match var_bin(BinOpType::NotEqual, self.expr, other.expr) {
            Ok(e) => Ok(Var::new(e)),
            Err(e) => Err(e),
        }
    }

    /// Addition: literals fold, anything else becomes a checked node.
    pub fn add(self, other: Self) -> (res: Result<Self, Error>)
        ensures
            expr_res_view(var_res_expr(res)) == var_bin_spec(
                BinOpType::Add,
                self.expr@,
                other.expr@,
            ),
    {
        self.bin_op(other, BinOpType::Add)
    }

    /// Subtraction: literals fold, anything else becomes a checked node.
    pub fn sub(self, other: Self) -> (res: Result<Self, Error>)
        ensures
            expr_res_view(var_res_expr(res)) == var_bin_spec(
                BinOpType::Subtract,
                self.expr@,
                other.expr@,
            ),
    {
        self.bin_op(other, BinOpType::Subtract)
    }

    /// Multiplication: literals fold, anything else becomes a checked
    /// node.
    pub fn mul(self, other: Self) -> (res: Result<Self, Error>)
        ensures
            expr_res_view(var_res_expr(res)) == var_bin_spec(
                BinOpType::Multiply,
                self.expr@,
                other.expr@,
            ),
    {
        self.bin_op(other, BinOpType::Multiply)
    }

    /// Division: literals fold, anything else becomes a checked node.
    pub fn div(self, other: Self) -> (res: Result<Self, Error>)
        ensures
            expr_res_view(var_res_expr(res)) == var_bin_spec(
                BinOpType::Divide,
                self.expr@,
                other.expr@,
            ),
    {
        self.bin_op(other, BinOpType::Divide)
    }
}

impl Var<crate::ty::I32> {
    /// A staged `I32` literal.
    pub fn lit_i32(value: i32) -> (res: Self)
        ensures
            res.expr@ == ExprV::Literal(LitV::I32(value)),
    {
        Var::new(Expr::Literal(Literal::I32(value)))
    }

    /// Wrap a `I32`-typed expression; fails with `TypeError` otherwise.
    pub fn expr_i32(expr: Expr) -> (res: Result<Self, Error>)
        ensures
            match res {
                Ok(v) => expr_ty_vspec(expr@) is I32 && v.expr@ == expr@,
                Err(e) => !(expr_ty_vspec(expr@) is I32) && e@ == (ErrorV::TypeError {
                    left: expr_ty_vspec(expr@),
                    right: TypeV::I32,
                }),
            },
    {
        let t = expr_ty(&expr);
        if t.is_i32() {
            Ok(Var::new(expr))
        } else {
            Err(Error::TypeError { left: t, right: Type::I32(crate::ty::I32) })
        }
    }

    /// Equality test on two staged values.
    pub fn eq(self, other: Self) -> (res: Result<Var<Bool>, Error>)
        ensures
            expr_res_view(var_res_expr(res)) == var_bin_spec(
                BinOpType::Equal,
                self.expr@,
                other.expr@,
            ),
    {
        match var_bin(BinOpType::Equal, self.expr, other.expr) {
            Ok(e) => Ok(Var::new(e)),
            Err(e) => Err(e),
        }
    }

    /// Inequality test on two staged values.
    pub fn ne(self, other: Self) -> (res: Result<Var<Bool>, Error>)
        ensures
            expr_res_view(var_res_expr(res)) == var_bin_spec(
                BinOpType::NotEqual,
                self.expr@,
                other.expr@,
            ),
    {
        match var_bin(BinOpType::NotEqual, self.expr, other.expr) {
            Ok(e) => Ok(Var::new(e)),
            Err(e) => Err(e),
        }
    }

    /// Addition: literals fold, anything else becomes a checked node.
    pub fn add(self, other: Self) -> (res: Result<Self, Error>)
        ensures
            expr_res_view(var_res_expr(res)) == var_bin_spec(
                BinOpType::Add,
                self.expr@,
                other.expr@,
            ),
    {
        self.bin_op(other, BinOpType::Add)
    }

    /// Subtraction: literals fold, anything else becomes a checked node.
    pub fn sub(self, other: Self) -> (res: Result<Self, Error>)
        ensures
            expr_res_view(var_res_expr(res)) == var_bin_spec(
                BinOpType::Subtract,
                self.expr@,
                other.expr@,
            ),
    {
        self.bin_op(other, BinOpType::Subtract)
    }

    /// Multiplication: literals fold, anything else becomes a checked
    /// node.
    pub fn mul(self, other: Self) -> (res: Result<Self, Error>)
        ensures
            expr_res_view(var_res_expr(res)) == var_bin_spec(
                BinOpType::Multiply,
                self.expr@,
                other.expr@,
            ),
    {
        self.bin_op(other, BinOpType::Multiply)
    }

    /// Division: literals fold, anything else becomes a checked node.
    pub fn div(self, other: Self) -> (res: Result<Self, Error>)
        ensures
            expr_res_view(var_res_expr(res)) == var_bin_spec(
                BinOpType::Divide,
                self.expr@,
                other.expr@,
            ),
    {
        self.bin_op(other, BinOpType::Divide)
    }
}

impl Var<crate::ty::U64> {
    /// A staged `U64` literal.
    pub fn lit_u64(value: u64) -> (res: Self)
        ensures
            res.expr@ == ExprV::Literal(LitV::U64(value)),
    {
        Var::new(Expr::Literal(Literal::U64(value)))
    }

    /// Wrap a `U64`-typed expression; fails with `TypeError` otherwise.
    pub fn expr_u64(expr: Expr) -> (res: Result<Self, Error>)
        ensures
            match res {
                Ok(v) => expr_ty_vspec(expr@) is U64 && v.expr@ == expr@,
                Err(e) => !(expr_ty_vspec(expr@) is U64) && e@ == (ErrorV::TypeError {
                    left: expr_ty_vspec(expr@),
                    right: TypeV::U64,
                }),
            },
    {
        let t = expr_ty(&expr);
        if t.is_u64() {
            Ok(Var::new(expr))
        } else {
            Err(Error::TypeError { left: t, right: Type::U64(crate::ty::U64) })
        }
    }

    /// Equality test on two staged values.
    pub fn eq(self, other: Self) -> (res: Result<Var<Bool>, Error>)
        ensures
            expr_res_view(var_res_expr(res)) == var_bin_spec(
                BinOpType::Equal,
                self.expr@,
                other.expr@,
            ),
    {
        match var_bin(BinOpType::Equal, self.expr, other.expr) {
            Ok(e) => Ok(Var::new(e)),
            Err(e) => Err(e),
        }
    }

    /// Inequality test on two staged values.
    pub fn ne(self, other: Self) -> (res: Result<Var<Bool>, Error>)
        ensures
            expr_res_view(var_res_expr(res)) == var_bin_spec(
                BinOpType::NotEqual,
                self.expr@,
                other.expr@,
            ),
    {
        match var_bin(BinOpType::NotEqual, self.expr, other.expr) {
            Ok(e) => Ok(Var::new(e)),
            Err(e) => Err(e),
        }
    }

    /// Addition: literals fold, anything else becomes a checked node.
    pub fn add(self, other: Self) -> (res: Result<Self, Error>)
        ensures
            expr_res_view(var_res_expr(res)) == var_bin_spec(
                BinOpType::Add,
                self.expr@,
                other.expr@,
            ),
    {
        self.bin_op(other, BinOpType::Add)
    }

    /// Subtraction: literals fold, anything else becomes a checked node.
    pub fn sub(self, other: Self) -> (res: Result<Self, Error>)
        ensures
            expr_res_view(var_res_expr(res)) == var_bin_spec(
                BinOpType::Subtract,
                self.expr@,
                other.expr@,
            ),
    {
        self.bin_op(other, BinOpType::Subtract)
    }

    /// Multiplication: literals fold, anything else becomes a checked
    /// node.
    pub fn mul(self, other: Self) -> (res: Result<Self, Error>)
        ensures
            expr_res_view(var_res_expr(res)) == var_bin_spec(
                BinOpType::Multiply,
                self.expr@,
                other.expr@,
            ),
    {
        self.bin_op(other, BinOpType::Multiply)
    }

    /// Division: literals fold, anything else becomes a checked node.
    pub fn div(self, other: Self) -> (res: Result<Self, Error>)
        ensures
            expr_res_view(var_res_expr(res)) == var_bin_spec(
                BinOpType::Divide,
                self.expr@,
                other.expr@,
            ),
    {
        self.bin_op(other, BinOpType::Divide)
    }
}

impl Var<crate::ty::I64> {
    /// A staged `I64` literal.
    pub fn lit_i64(value: i64) -> (res: Self)
        ensures
            res.expr@ == ExprV::Literal(LitV::I64(value)),
    {
        Var::new(Expr::Literal(Literal::I64(value)))
    }

    /// Wrap a `I64`-typed expression; fails with `TypeError` otherwise.
    pub fn expr_i64(expr: Expr) -> (res: Result<Self, Error>)
        ensures
            match res {
                Ok(v) => expr_ty_vspec(expr@) is I64 && v.expr@ == expr@,
                Err(e) => !(expr_ty_vspec(expr@) is I64) && e@ == (ErrorV::TypeError {
                    left: expr_ty_vspec(expr@),
                    right: TypeV::I64,
                }),
            },
    {
        let t = expr_ty(&expr);
        if t.is_i64() {
            Ok(Var::new(expr))
        } else {
            Err(Error::TypeError { left: t, right: Type::I64(crate::ty::I64) })
        }
    }

    /// Equality test on two staged values.
    pub fn eq(self, other: Self) -> (res: Result<Var<Bool>, Error>)
        ensures
            expr_res_view(var_res_expr(res)) == var_bin_spec(
                BinOpType::Equal,
                self.expr@,
                other.expr@,
            ),
    {
        match var_bin(BinOpType::Equal, self.expr, other.expr) {
            Ok(e) => Ok(Var::new(e)),
            Err(e) => Err(e),
        }
    }

    /// Inequality test on two staged values.
    pub fn ne(self, other: Self) -> (res: Result<Var<Bool>, Error>)
        ensures
            expr_res_view(var_res_expr(res)) == var_bin_spec(
                BinOpType::NotEqual,
                self.expr@,
                other.expr@,
            ),
    {
        match var_bin(BinOpType::NotEqual, self.expr, other.expr) {
            Ok(e) => Ok(Var::new(e)),
            Err(e) => Err(e),
        }
    }

    /// Addition: literals fold, anything else becomes a checked node.
    pub fn add(self, other: Self) -> (res: Result<Self, Error>)
        ensures
            expr_res_view(var_res_expr(res)) == var_bin_spec(
                BinOpType::Add,
                self.expr@,
                other.expr@,
            ),
    {
        self.bin_op(other, BinOpType::Add)
    }

    /// Subtraction: literals fold, anything else becomes a checked node.
    pub fn sub(self, other: Self) -> (res: Result<Self, Error>)
        ensures
            expr_res_view(var_res_expr(res)) == var_bin_spec(
                BinOpType::Subtract,
                self.expr@,
                other.expr@,
            ),
    {
        self.bin_op(other, BinOpType::Subtract)
    }

    /// Multiplication: literals fold, anything else becomes a checked
    /// node.
    pub fn mul(self, other: Self) -> (res: Result<Self, Error>)
        ensures
            expr_res_view(var_res_expr(res)) == var_bin_spec(
                BinOpType::Multiply,
                self.expr@,
                other.expr@,
            ),
    {
        self.bin_op(other, BinOpType::Multiply)
    }

    /// Division: literals fold, anything else becomes a checked node.
    pub fn div(self, other: Self) -> (res: Result<Self, Error>)
        ensures
            expr_res_view(var_res_expr(res)) == var_bin_spec(
                BinOpType::Divide,
                self.expr@,
                other.expr@,
            ),
    {
        self.bin_op(other, BinOpType::Divide)
    }
}

/// Forget which staged category a result carries, keeping its tree.
pub open spec fn var_res_expr<T>(r: Result<Var<T>, Error>) -> Result<Expr, Error> {
    match r {
        Ok(v) => Ok(v.expr),
        Err(e) => Err(e),
    }
}


/// What numeric negation of a staged signed value yields: a literal
/// folds (unless it is the smallest value, which has no negation), a
/// `Neg` node unwraps to its operand, anything else becomes a checked
/// `Neg` node.
pub open spec fn var_neg_spec(e: ExprV) -> Result<ExprV, ErrorV> {
    match e {
        ExprV::Literal(LitV::I32(v)) => if v != i32::MIN {
            Ok(ExprV::Literal(LitV::I32((-v) as i32)))
        } else {
            UnaryOp::neg_spec(e)
        },
        ExprV::Literal(LitV::I64(v)) => if v != i64::MIN {
            Ok(ExprV::Literal(LitV::I64((-v) as i64)))
        } else {
            UnaryOp::neg_spec(e)
        },
        ExprV::UnaryOp { op_ty: UnaryOpType::Neg, value } => if expr_ty_vspec(*value) is I32
            || expr_ty_vspec(*value) is I64 {
            Ok(*value)
        } else {
            Err(ErrorV::TypeError { left: expr_ty_vspec(*value), right: expr_ty_vspec(*value) })
        },
        _ => UnaryOp::neg_spec(e),
    }
}

impl Var<crate::ty::I32> {
    /// Numeric negation; see `var_neg_spec`.
    pub fn neg(self) -> (res: Result<Self, Error>)
        ensures
            expr_res_view(var_res_expr(res)) == var_neg_spec(self.expr@),
    {
        match self.expr {
            Expr::Literal(Literal::I32(v)) => {
                if v != i32::MIN {
                    Ok(Var::new(Expr::Literal(Literal::I32(-v))))
                } else {
                    match UnaryOp::neg(Expr::Literal(Literal::I32(v))) {
                        Ok(n) => Ok(Var::new(Expr::UnaryOp(n))),
                        Err(e) => Err(e),
                    }
                }
            },
            Expr::Literal(Literal::I64(v)) => {
                if v != i64::MIN {
                    Ok(Var::new(Expr::Literal(Literal::I64(-v))))
                } else {
                    match UnaryOp::neg(Expr::Literal(Literal::I64(v))) {
                        Ok(n) => Ok(Var::new(Expr::UnaryOp(n))),
                        Err(e) => Err(e),
                    }
                }
            },
            Expr::UnaryOp(u) => {
                if matches!(u.op_ty, UnaryOpType::Neg) {
                    let inner = *u.value;
                    let t = expr_ty(&inner);
                    if t.is_i32() || t.is_i64() {
                        Ok(Var::new(inner))
                    } else {
                        let t2 = t.clone();
                        Err(Error::TypeError { left: t, right: t2 })
                    }
                } else {
                    match UnaryOp::neg(Expr::UnaryOp(u)) {
                        Ok(n) => Ok(Var::new(Expr::UnaryOp(n))),
                        Err(e) => Err(e),
                    }
                }
            },
            other => match UnaryOp::neg(other) {
                Ok(n) => Ok(Var::new(Expr::UnaryOp(n))),
                Err(e) => Err(e),
            },
        }
    }
}

impl Var<crate::ty::I64> {
    /// Numeric negation; see `var_neg_spec`.
    pub fn neg(self) -> (res: Result<Self, Error>)
        ensures
            expr_res_view(var_res_expr(res)) == var_neg_spec(self.expr@),
    {
        match self.expr {
            Expr::Literal(Literal::I32(v)) => {
                if v != i32::MIN {
                    Ok(Var::new(Expr::Literal(Literal::I32(-v))))
                } else {
                    match UnaryOp::neg(Expr::Literal(Literal::I32(v))) {
                        Ok(n) => Ok(Var::new(Expr::UnaryOp(n))),
                        Err(e) => Err(e),
                    }
                }
            },
            Expr::Literal(Literal::I64(v)) => {
                if v != i64::MIN {
                    Ok(Var::new(Expr::Literal(Literal::I64(-v))))
                } else {
                    match UnaryOp::neg(Expr::Literal(Literal::I64(v))) {
                        Ok(n) => Ok(Var::new(Expr::UnaryOp(n))),
                        Err(e) => Err(e),
                    }
                }
            },
            Expr::UnaryOp(u) => {
                if matches!(u.op_ty, UnaryOpType::Neg) {
                    let inner = *u.value;
                    let t = expr_ty(&inner);
                    if t.is_i32() || t.is_i64() {
                        Ok(Var::new(inner))
                    } else {
                        let t2 = t.clone();
                        Err(Error::TypeError { left: t, right: t2 })
                    }
                } else {
                    match UnaryOp::neg(Expr::UnaryOp(u)) {
                        Ok(n) => Ok(Var::new(Expr::UnaryOp(n))),
                        Err(e) => Err(e),
                    }
                }
            },
            other => match UnaryOp::neg(other) {
                Ok(n) => Ok(Var::new(Expr::UnaryOp(n))),
                Err(e) => Err(e),
            },
        }
    }
}

/// What evaluating a staged builder yields: an `Eval` node whose result
/// type is derived by the builder algebra; `InvalidOperation` when the
/// expression is not builder-typed; when a result type is expected, a
/// `TypeError` naming the derived and the expected type on a mismatch.
pub open spec fn var_eval_spec(b: ExprV, expected: Option<TypeV>) -> Result<ExprV, ErrorV> {
    match expr_ty_vspec(b).eval_spec() {
        Err(e) => Err(e),
        Ok(rt) => match expected {
            Some(want) => if rt == want {
                Ok(ExprV::Eval(Box::new(b)))
            } else {
                Err(ErrorV::TypeError { left: rt, right: want })
            },
            None => Ok(ExprV::Eval(Box::new(b))),
        },
    }
}

/// Evaluate a staged builder expression, optionally against an expected
/// result type; see `var_eval_spec`.
fn var_eval(b: Expr, expected: Option<Type>) -> (res: Result<Expr, Error>)
    ensures
        expr_res_view(res) == var_eval_spec(
            b@,
            match expected {
                Some(t) => Some(t@),
                None => None,
            },
        ),
{
    let bt = expr_ty(&b);
    match bt.eval() {
        Err(e) => Err(e),
        Ok(rt) => match expected {
            Some(want) => {
                if type_eq(&rt, &want) {
                    Ok(Expr::Eval(Eval(Box::new(b))))
                } else {
                    Err(Error::TypeError { left: rt, right: want })
                }
            },
            None => Ok(Expr::Eval(Eval(Box::new(b)))),
        },
    }
}

impl<B: BuilderType> Var<B> {
    /// The parallel-for combinator: iterate `it`, threading a builder
    /// of this category. The body is handed three fresh symbols - the
    /// builder, the `U64` index, and the element of the builder's merge
    /// type - and must return the updated builder, whose type must equal
    /// this builder's type.
    pub fn pfor<T2, F: FnOnce(Var<B>, Var<u64>, Var<T2>) -> Var<B>>(
        self,
        it: Var<VectorType>,
        f: F,
    ) -> (res: Result<Var<B>, Error>)
        requires
            forall|b: Var<B>, i: Var<u64>, ex: Var<T2>| call_requires(f, (b, i, ex)),
        ensures
            match res {
                Ok(v) => exists|b: Var<B>, i: Var<u64>, ex: Var<T2>, out: Var<B>|
                    {
                        &&& pfor_args_ok(self.expr@, b, i, ex)
                        &&& #[trigger] call_ensures(f, (b, i, ex), out)
                        &&& expr_ty_vspec(out.expr@) == expr_ty_vspec(self.expr@)
                        &&& v.expr@ == pfor_node_spec(self.expr@, it.expr@, out.expr@)
                    },
                Err(e) => (expr_ty_vspec(self.expr@).merge_spec() matches Err(me) && e@ == me)
                    || exists|b: Var<B>, i: Var<u64>, ex: Var<T2>, out: Var<B>|
                    {
                        &&& pfor_args_ok(self.expr@, b, i, ex)
                        &&& #[trigger] call_ensures(f, (b, i, ex), out)
                        &&& expr_ty_vspec(out.expr@) != expr_ty_vspec(self.expr@)
                        &&& e@ == (ErrorV::TypeError {
                            left: expr_ty_vspec(self.expr@),
                            right: expr_ty_vspec(out.expr@),
                        })
                    },
            },
    {
        let ghost selfv = self.expr@;
        let bty = expr_ty(&self.expr);
        let mt = match bty.clone().merge() {
            Ok(t) => t,
            Err(e) => {
                return Err(e);
            },
        };
        let sym_b = Symbol::named("b", bty.clone());
        let sym_i = Symbol::named("i", U64);
        let sym_e = Symbol::named("e", mt);
        let b: Var<B> = Var::symbol(sym_b.clone());
        let i: Var<u64> = Var::symbol(sym_i.clone());
        let e: Var<T2> = Var::symbol(sym_e.clone());
        let ghost bg = b;
        let ghost ig = i;
        let ghost eg = e;
        let body = f(b, i, e);
        let body_ty = expr_ty(&body.expr);
        if !type_eq(&body_ty, &bty) {
            return Err(Error::TypeError { left: bty, right: body_ty });
        }
        let iter = Iter { data: Box::new(it.expr), start: None, end: None };
        let mut iters: Vec<Iter> = Vec::new();
        iters.push(iter);
        let func = Lambda {
            params: three_syms(sym_b, sym_i, sym_e),
            body: Box::new(body.expr),
        };
        let pfor = For {
            iters,
            builder: Box::new(self.expr),
            func: Box::new(Expr::Lambda(func)),
        };
        let out = Var::new(Expr::For(pfor));
        proof {
            broadcast use crate::expr::lemma_iter_seq_view_len, crate::expr::lemma_iter_seq_view_index;

            reveal_with_fuel(crate::expr::expr_view, 3);
            assert(out.expr@->For_iters =~= seq![
                IterV { data: Box::new(it.expr@), start: None, end: None },
            ]);
            assert(out.expr@->For_func->Lambda_params =~= seq![sym_b@, sym_i@, sym_e@]);
            assert(out.expr@ =~= pfor_node_spec(selfv, it.expr@, body.expr@));
            assert(pfor_args_ok(selfv, bg, ig, eg));
        }
        Ok(out)
    }
}

/// The three fresh symbols handed to a `pfor` body denote the builder,
/// the index and the element: their trees are symbol references named
/// `b`, `i` and `e`, typed by the builder's type, `U64`, and the
/// builder's merge type.
pub open spec fn pfor_args_ok<B, T2>(bexpr: ExprV, b: Var<B>, i: Var<u64>, ex: Var<T2>) -> bool {
    &&& b.expr@ == ExprV::Symbol(
        SymV { name: "b"@, ty: expr_ty_vspec(bexpr), id: 0 },
    )
    &&& i.expr@ == ExprV::Symbol(SymV { name: "i"@, ty: TypeV::U64, id: 0 })
    &&& (ex.expr@ matches ExprV::Symbol(s) && s.name == "e"@ && s.id == 0
        && expr_ty_vspec(bexpr).merge_spec() == Ok::<TypeV, ErrorV>(s.ty))
}

/// The `For` node a `pfor` builds: one unbounded data source, the prior
/// builder, and a three-parameter lambda around the rewritten body.
pub open spec fn pfor_node_spec(bexpr: ExprV, data: ExprV, body: ExprV) -> ExprV {
    ExprV::For {
        iters: seq![IterV { data: Box::new(data), start: None, end: None }],
        builder: Box::new(bexpr),
        func: Box::new(
            ExprV::Lambda {
                params: seq![
                    SymV { name: "b"@, ty: expr_ty_vspec(bexpr), id: 0 },
                    SymV { name: "i"@, ty: TypeV::U64, id: 0 },
                    SymV {
                        name: "e"@,
                        ty: expr_ty_vspec(bexpr).merge_spec()->Ok_0,
                        id: 0,
                    },
                ],
                body: Box::new(body),
            },
        ),
    }
}

/// Build the three-element parameter list `[a, b, c]`.
fn three_syms(a: Symbol, b: Symbol, c: Symbol) -> (r: Vec<Symbol>)
    ensures
        crate::expr::sym_seq_view(r@) =~= seq![a@, b@, c@],
{
    let mut v: Vec<Symbol> = Vec::new();
    v.push(a);
    v.push(b);
    v.push(c);
    v
}

impl Var<AppenderType> {
    /// A fresh appender builder over the given item type.
    pub fn appender<U: IntoType>(item_ty: U) -> (res: Self)
        ensures
            res.expr@ == (ExprV::NewAppender { item_ty: item_ty.type_vspec() }),
    {
        Var::new(
            Expr::NewAppender(crate::expr::NewAppender { item_ty: item_ty.to_type() }),
        )
    }

    /// Evaluate the appender into a staged vector; see `var_eval_spec`.
    pub fn eval(self) -> (res: Result<Var<VectorType>, Error>)
        ensures
            expr_res_view(var_res_expr(res)) == var_eval_spec(self.expr@, None),
    {
        match var_eval(self.expr, None) {
            Ok(e) => Ok(Var::new(e)),
            Err(e) => Err(e),
        }
    }

    /// Merge one item, yielding the updated appender; see
    /// `merge_spec_e`.
    pub fn merge<I: IntoExpr>(self, item: I) -> (res: Result<Self, Error>)
        ensures
            expr_res_view(var_res_expr(res)) == merge_spec_e(self.expr@, item.expr_vspec()),
    {
        match merge_exprs(self.expr, item.to_expr()) {
            Ok(m) => Ok(Var::new(Expr::Merge(m))),
            Err(e) => Err(e),
        }
    }
}

impl Var<MergerType> {
    /// A fresh merger builder over the given item type and reducing
    /// operator.
    pub fn merger<U: IntoType>(item_ty: U, op_ty: BinOpType) -> (res: Self)
        ensures
            res.expr@ == (ExprV::NewMerger { item_ty: item_ty.type_vspec(), op_ty: op_ty }),
    {
        Var::new(
            Expr::NewMerger(crate::expr::NewMerger { item_ty: item_ty.to_type(), op_ty }),
        )
    }

    /// Evaluate the merger against the expected result type; see
    /// `var_eval_spec`.
    pub fn eval<U: IntoType>(self, item_ty: U) -> (res: Result<Var<U>, Error>)
        ensures
            expr_res_view(var_res_expr(res)) == var_eval_spec(
                self.expr@,
                Some(item_ty.type_vspec()),
            ),
    {
        match var_eval(self.expr, Some(item_ty.to_type())) {
            Ok(e) => Ok(Var::new(e)),
            Err(e) => Err(e),
        }
    }

    /// Merge one item, yielding the updated merger; see `merge_spec_e`.
    pub fn merge<I: IntoExpr>(self, item: I) -> (res: Result<Self, Error>)
        ensures
            expr_res_view(var_res_expr(res)) == merge_spec_e(self.expr@, item.expr_vspec()),
    {
        match merge_exprs(self.expr, item.to_expr()) {
            Ok(m) => Ok(Var::new(Expr::Merge(m))),
            Err(e) => Err(e),
        }
    }
}

impl Var<DictMergerType> {
    /// A fresh dictmerger builder over the given key and value types and
    /// reducing operator.
    pub fn dictmerger<K: IntoType, V: IntoType>(key_ty: K, value_ty: V, op_ty: BinOpType) -> (res:
        Self)
        ensures
            res.expr@ == (ExprV::NewDictMerger {
                key_ty: key_ty.type_vspec(),
                value_ty: value_ty.type_vspec(),
                op_ty: op_ty,
            }),
    {
        Var::new(
            Expr::NewDictMerger(
                crate::expr::NewDictMerger {
                    key_ty: key_ty.to_type(),
                    value_ty: value_ty.to_type(),
                    op_ty,
                },
            ),
        )
    }

    /// Evaluate the dictmerger into a staged dictionary; see
    /// `var_eval_spec`.
    pub fn eval(self) -> (res: Result<Var<crate::ty::DictType>, Error>)
        ensures
            expr_res_view(var_res_expr(res)) == var_eval_spec(self.expr@, None),
    {
        match var_eval(self.expr, None) {
            Ok(e) => Ok(Var::new(e)),
            Err(e) => Err(e),
        }
    }

    /// Merge one `(key, value)` pair, yielding the updated dictmerger;
    /// see `merge_spec_e`.
    pub fn merge<I: IntoExpr>(self, item: I) -> (res: Result<Self, Error>)
        ensures
            expr_res_view(var_res_expr(res)) == merge_spec_e(self.expr@, item.expr_vspec()),
    {
        match merge_exprs(self.expr, item.to_expr()) {
            Ok(m) => Ok(Var::new(Expr::Merge(m))),
            Err(e) => Err(e),
        }
    }
}

impl Var<GroupMergerType> {
    /// A fresh groupmerger builder over the given key and value types.
    pub fn groupmerger<K: IntoType, V: IntoType>(key_ty: K, value_ty: V) -> (res: Self)
        ensures
            res.expr@ == (ExprV::NewGroupMerger {
                key_ty: key_ty.type_vspec(),
                value_ty: value_ty.type_vspec(),
            }),
    {
        Var::new(
            Expr::NewGroupMerger(
                crate::expr::NewGroupMerger {
                    key_ty: key_ty.to_type(),
                    value_ty: value_ty.to_type(),
                },
            ),
        )
    }

    /// Evaluate the groupmerger into a staged dictionary; see
    /// `var_eval_spec`.
    pub fn eval(self) -> (res: Result<Var<crate::ty::DictType>, Error>)
        ensures
            expr_res_view(var_res_expr(res)) == var_eval_spec(self.expr@, None),
    {
        match var_eval(self.expr, None) {
            Ok(e) => Ok(Var::new(e)),
            Err(e) => Err(e),
        }
    }

    /// Merge one `(key, value)` pair, yielding the updated groupmerger;
    /// see `merge_spec_e`.
    pub fn merge<I: IntoExpr>(self, item: I) -> (res: Result<Self, Error>)
        ensures
            expr_res_view(var_res_expr(res)) == merge_spec_e(self.expr@, item.expr_vspec()),
    {
        match merge_exprs(self.expr, item.to_expr()) {
            Ok(m) => Ok(Var::new(Expr::Merge(m))),
            Err(e) => Err(e),
        }
    }
}

impl Var<VecMergerType> {
    /// A fresh vecmerger builder over the given item type and reducing
    /// operator.
    pub fn vecmerger<U: IntoType>(item_ty: U, op_ty: BinOpType) -> (res: Self)
        ensures
            res.expr@ == (ExprV::NewVecMerger { item_ty: item_ty.type_vspec(), op_ty: op_ty }),
    {
        Var::new(
            Expr::NewVecMerger(crate::expr::NewVecMerger { item_ty: item_ty.to_type(), op_ty }),
        )
    }

    /// Evaluate the vecmerger into a staged vector; see `var_eval_spec`.
    pub fn eval(self) -> (res: Result<Var<VectorType>, Error>)
        ensures
            expr_res_view(var_res_expr(res)) == var_eval_spec(self.expr@, None),
    {
        match var_eval(self.expr, None) {
            Ok(e) => Ok(Var::new(e)),
            Err(e) => Err(e),
        }
    }

    /// Merge one item, yielding the updated vecmerger; see
    /// `merge_spec_e`.
    pub fn merge<I: IntoExpr>(self, item: I) -> (res: Result<Self, Error>)
        ensures
            expr_res_view(var_res_expr(res)) == merge_spec_e(self.expr@, item.expr_vspec()),
    {
        match merge_exprs(self.expr, item.to_expr()) {
            Ok(m) => Ok(Var::new(Expr::Merge(m))),
            Err(e) => Err(e),
        }
    }
}

impl Var<VectorType> {
    /// A staged vector of the given items; the item type is taken from
    /// the first item, so the list must not be empty (use an appender to
    /// build a vector from nothing).
    pub fn vector<I: IntoExpr>(items: Vec<I>) -> (res: Result<Self, Error>)
        ensures
            match res {
                Ok(v) => items@.len() > 0 && (v.expr@ matches ExprV::NewVector {
                    item_ty,
                    items: its,
                } && item_ty == expr_ty_vspec(items@[0].expr_vspec()) && its.len() == items@.len()
                    && (forall|k: int|
                    0 <= k < items@.len() ==> its[k] == items@[k].expr_vspec())),
                Err(e) => items@.len() == 0 && e@ == (ErrorV::TypeError {
                    left: TypeV::Unknown,
                    right: TypeV::Unknown,
                }),
            },
    {
        let mut items = items;
        if items.len() == 0 {
            return Err(Error::TypeError { left: Type::Unknown, right: Type::Unknown });
        }
        let ghost itemsg = items@;
        let mut exprs: Vec<Expr> = Vec::new();
        while items.len() != 0
            invariant
                items@.len() + exprs@.len() == itemsg.len(),
                forall|k: int|
                    0 <= k < exprs@.len() ==> #[trigger] exprs@[k]@ == itemsg[k].expr_vspec(),
                forall|k: int|
                    0 <= k < items@.len() ==> #[trigger] items@[k] == itemsg[
                        exprs@.len() + k
                    ],
            decreases items@.len(),
        {
            let ghost before = items@;
            let first = items.remove(0);
            proof {
                assert(first == itemsg[exprs@.len() as int]);
                assert(items@ =~= before.skip(1));
            }
            exprs.push(first.to_expr());
        }
        let item_ty = expr_ty(&exprs[0]);
        let ghost ex = exprs@;
        let out = Var::new(Expr::NewVector(Vector { item_ty, items: exprs }));
        proof {
            broadcast use crate::expr::lemma_expr_seq_view_len, crate::expr::lemma_expr_seq_view_index;

            assert(out.expr@->NewVector_items == crate::expr::expr_seq_view(ex));
            assert(out.expr@->NewVector_items.len() == itemsg.len());
            assert forall|k: int| 0 <= k < itemsg.len() implies out.expr@->NewVector_items[k]
                == itemsg[k].expr_vspec() by {
                assert(ex[k]@ == itemsg[k].expr_vspec());
            }
            assert(out.expr@->NewVector_item_ty == expr_ty_vspec(itemsg[0].expr_vspec()));
        }
        Ok(out)
    }
}

/// Marker trait for staged values of builder category, exposing the
/// underlying expression.
pub trait BuilderVar: Sized {
    /// The wrapped expression.
    fn expr(self) -> Expr;
}

impl BuilderVar for Var<AppenderType> {
    fn expr(self) -> Expr {
        self.expr
    }
}

} // verus!
