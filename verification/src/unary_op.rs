//! Unary operators and the type-checked unary-operation node.

use vstd::prelude::*;

use crate::error::{Error, ErrorV};
use crate::expr::{expr_ty_vspec, Expr, ExprV};
use crate::ty::{Type, TypeV};

verus! {

/// The closed set of unary operators. Only `Not` and `Neg` take part in
/// construction-time checking and constant folding; the transcendental
/// operators are carried through for the code generator.
#[derive(Debug, Clone, Copy, PartialEq, Eq, Hash)]
pub enum UnaryOpType {
    /// Inverts a boolean expression.
    Not,
    /// Negates a signed numerical expression.
    Neg,
    Exp,
    Log,
    Sqrt,
    Sin,
    Cos,
    Tan,
    ASin,
    ACos,
    ATan,
    Sinh,
    Cosh,
    Tanh,
    Erf,
}

/// A unary operation applied to a single child expression.
#[derive(Debug, PartialEq, Eq, Hash)]
#[verifier::ext_equal]
pub struct UnaryOp {
    pub op_ty: UnaryOpType,
    pub value: Box<Expr>,
}

impl UnaryOp {
    /// A logical-not node over `value`. Succeeds exactly when the operand
    /// type is `Bool`; otherwise fails with a `TypeError` carrying the
    /// found and the expected type.
    pub fn not(value: Expr) -> (r: Result<UnaryOp, Error>)
        ensures
            unary_res_view(r) == Self::not_spec(value@),
    {
        let t = crate::expr::expr_ty(&value);
        if t.is_bool() {
            Ok(UnaryOp { op_ty: UnaryOpType::Not, value: Box::new(value) })
        } else {
            Err(Error::TypeError { left: t, right: Type::Bool(crate::ty::Bool) })
        }
    }

    /// A negation node over `value`. Succeeds exactly when the operand
    /// type is a signed integer kind (`I32` or `I64`); otherwise fails
    /// with a `TypeError` carrying the found type.
    pub fn neg(value: Expr) -> (r: Result<UnaryOp, Error>)
        ensures
            unary_res_view(r) == Self::neg_spec(value@),
    {
        let t = crate::expr::expr_ty(&value);
        if t.is_i32() || t.is_i64() {
            Ok(UnaryOp { op_ty: UnaryOpType::Neg, value: Box::new(value) })
        } else {
            let t2 = t.clone();
            Err(Error::TypeError { left: t, right: t2 })
        }
    }

    /// What `not` returns for the given operand view: the node when the
    /// operand is boolean, else a `TypeError` with the found and the
    /// expected type.
    pub open spec fn not_spec(value: ExprV) -> Result<ExprV, ErrorV> {
        if expr_ty_vspec(value) is Bool {
            Ok(ExprV::UnaryOp { op_ty: UnaryOpType::Not, value: Box::new(value) })
        } else {
            Err(ErrorV::TypeError { left: expr_ty_vspec(value), right: TypeV::Bool })
        }
    }

    /// What `neg` returns for the given operand view: the node when the
    /// operand is a signed integer kind, else a `TypeError` with the
    /// found type.
    pub open spec fn neg_spec(value: ExprV) -> Result<ExprV, ErrorV> {
        if expr_ty_vspec(value) is I32 || expr_ty_vspec(value) is I64 {
            Ok(ExprV::UnaryOp { op_ty: UnaryOpType::Neg, value: Box::new(value) })
        } else {
            Err(ErrorV::TypeError { left: expr_ty_vspec(value), right: expr_ty_vspec(value) })
        }
    }
}

/// The view of a `Result` carrying a unary-operation node or an error.
pub open spec fn unary_res_view(r: Result<UnaryOp, Error>) -> Result<ExprV, ErrorV> {
    match r {
        Ok(u) => Ok(ExprV::UnaryOp { op_ty: u.op_ty, value: Box::new((*u.value)@) }),
        Err(e) => Err(e@),
    }
}

impl View for UnaryOp {
    type V = ExprV;

    #[verifier::inline]
    open spec fn view(&self) -> ExprV {
        ExprV::UnaryOp { op_ty: self.op_ty, value: Box::new(crate::expr::expr_view(*self.value)) }
    }
}

impl Clone for UnaryOp {
    /// Deep copy; the copy has the same view.
    fn clone(&self) -> (res: Self)
        ensures
            res@ == self@,
        decreases self,
    {
        UnaryOp { op_ty: self.op_ty, value: Box::new((*self.value).clone()) }
    }
}

} // verus!
