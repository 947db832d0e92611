//! Binary operators and the type-checked binary-operation node.

use vstd::prelude::*;

use crate::error::{Error, ErrorV};
use crate::expr::{expr_ty_vspec, Expr, ExprV};
use crate::ty::{type_eq, Type, TypeV};

verus! {

/// The closed set of binary operators.
#[derive(Debug, Clone, Copy, PartialEq, Eq, Hash)]
pub enum BinOpType {
    Add,
    Subtract,
    Multiply,
    Divide,
    Modulo,
    Equal,
    NotEqual,
    LessThan,
    LessThanOrEqual,
    GreaterThan,
    GreaterThanOrEqual,
    LogicalAnd,
    LogicalOr,
    BitwiseAnd,
    BitwiseOr,
    Xor,
    Max,
    Min,
    Pow,
}

impl BinOpType {
    /// Operators whose result has the type of the left operand.
    pub open spec fn is_arith_like(self) -> bool {
        match self {
            BinOpType::Add | BinOpType::Subtract | BinOpType::Multiply | BinOpType::Divide
                | BinOpType::Modulo | BinOpType::BitwiseAnd | BinOpType::BitwiseOr
                | BinOpType::Xor | BinOpType::Max | BinOpType::Min | BinOpType::Pow => true,
            _ => false,
        }
    }

    /// Operators whose result is boolean: comparisons and logical
    /// connectives.
    pub open spec fn is_bool_result(self) -> bool {
        !self.is_arith_like()
    }
}

/// A binary operation applied to two child expressions.
#[derive(Debug, PartialEq, Eq, Hash)]
#[verifier::ext_equal]
pub struct BinOp {
    pub op_ty: BinOpType,
    pub left: Box<Expr>,
    pub right: Box<Expr>,
}

/// `op` accepts operands of types `lt` (left) and `rt` (right): the two
/// types must be equal, and must lie in the operator's domain. Arithmetic
/// and `Max`/`Min`/`Pow` need a numeric scalar, comparisons an ordered
/// scalar, logical connectives `Bool`, and bitwise operators an integer.
pub open spec fn bin_op_domain_ok(op: BinOpType, lt: TypeV, rt: TypeV) -> bool {
    lt == rt && match op {
        BinOpType::Add | BinOpType::Subtract | BinOpType::Multiply | BinOpType::Divide
            | BinOpType::Modulo | BinOpType::Pow => is_numeric_ty(lt),
        BinOpType::Equal | BinOpType::NotEqual => lt.is_scalar(),
        BinOpType::LessThan | BinOpType::LessThanOrEqual | BinOpType::GreaterThan
            | BinOpType::GreaterThanOrEqual => lt.is_scalar(),
        BinOpType::Max | BinOpType::Min => is_numeric_ty(lt) || lt is Str,
        BinOpType::LogicalAnd | BinOpType::LogicalOr => lt is Bool,
        BinOpType::BitwiseAnd | BinOpType::BitwiseOr | BinOpType::Xor => is_integer_ty(lt),
    }
}

/// The numeric scalar kinds: all integer and floating-point kinds.
pub open spec fn is_numeric_ty(t: TypeV) -> bool {
    is_integer_ty(t) || t is F32 || t is F64
}

/// The integer scalar kinds.
pub open spec fn is_integer_ty(t: TypeV) -> bool {
    t is U8 || t is U32 || t is I32 || t is U64 || t is I64
}

/// Whether `t` is a numeric scalar kind.
pub fn numeric_ty(t: &Type) -> (r: bool)
    ensures
        r == is_numeric_ty(t@),
{
    match t {
        Type::U8(_) | Type::U32(_) | Type::I32(_) | Type::U64(_) | Type::I64(_) | Type::F32(_)
            | Type::F64(_) => true,
        _ => false,
    }
}

/// Whether `t` is an integer scalar kind.
pub fn integer_ty(t: &Type) -> (r: bool)
    ensures
        r == is_integer_ty(t@),
{
    match t {
        Type::U8(_) | Type::U32(_) | Type::I32(_) | Type::U64(_) | Type::I64(_) => true,
        _ => false,
    }
}

impl BinOp {
    /// Type-check and build a node applying `op` to `left` and `right`.
    /// Succeeds exactly when both operand types are equal and in the
    /// operator's domain; otherwise fails with a `TypeError` carrying the
    /// two operand types.
    pub fn checked(op: BinOpType, left: Expr, right: Expr) -> (r: Result<BinOp, Error>)
        ensures
            bin_res_view(r) == Self::checked_spec(op, left@, right@),
    {
        let lt = crate::expr::expr_ty(&left);
        let rt = crate::expr::expr_ty(&right);
        let ok: bool = if !type_eq(&lt, &rt) {
            false
        } else {
            match op {
                BinOpType::Add | BinOpType::Subtract | BinOpType::Multiply | BinOpType::Divide
                    | BinOpType::Modulo | BinOpType::Pow => numeric_ty(&lt),
                BinOpType::Equal | BinOpType::NotEqual => lt.is_scalar(),
                BinOpType::LessThan | BinOpType::LessThanOrEqual | BinOpType::GreaterThan
                    | BinOpType::GreaterThanOrEqual => lt.is_scalar(),
                BinOpType::Max | BinOpType::Min => numeric_ty(&lt) || lt.is_str(),
                BinOpType::LogicalAnd | BinOpType::LogicalOr => lt.is_bool(),
                BinOpType::BitwiseAnd | BinOpType::BitwiseOr | BinOpType::Xor => integer_ty(&lt),
            }
        };
        if ok {
            Ok(BinOp { op_ty: op, left: Box::new(left), right: Box::new(right) })
        } else {
            Err(Error::TypeError { left: lt, right: rt })
        }
    }

    /// An addition node over `left` and `right`, type-checked.
    pub fn add(left: Expr, right: Expr) -> (r: Result<BinOp, Error>)
        ensures
            bin_res_view(r) == Self::checked_spec(BinOpType::Add, left@, right@),
    {
        BinOp::checked(BinOpType::Add, left, right)
    }

    /// A subtraction node over `left` and `right`, type-checked.
    pub fn sub(left: Expr, right: Expr) -> (r: Result<BinOp, Error>)
        ensures
            bin_res_view(r) == Self::checked_spec(BinOpType::Subtract, left@, right@),
    {
        BinOp::checked(BinOpType::Subtract, left, right)
    }

    /// A multiplication node over `left` and `right`, type-checked.
    pub fn mul(left: Expr, right: Expr) -> (r: Result<BinOp, Error>)
        ensures
            bin_res_view(r) == Self::checked_spec(BinOpType::Multiply, left@, right@),
    {
        BinOp::checked(BinOpType::Multiply, left, right)
    }

    /// A division node over `left` and `right`, type-checked.
    pub fn div(left: Expr, right: Expr) -> (r: Result<BinOp, Error>)
        ensures
            bin_res_view(r) == Self::checked_spec(BinOpType::Divide, left@, right@),
    {
        BinOp::checked(BinOpType::Divide, left, right)
    }

    /// An equality-test node over `left` and `right`, type-checked.
    pub fn eq(left: Expr, right: Expr) -> (r: Result<BinOp, Error>)
        ensures
            bin_res_view(r) == Self::checked_spec(BinOpType::Equal, left@, right@),
    {
        BinOp::checked(BinOpType::Equal, left, right)
    }

    /// An inequality-test node over `left` and `right`, type-checked.
    pub fn ne(left: Expr, right: Expr) -> (r: Result<BinOp, Error>)
        ensures
            bin_res_view(r) == Self::checked_spec(BinOpType::NotEqual, left@, right@),
    {
        BinOp::checked(BinOpType::NotEqual, left, right)
    }

    /// What `checked` returns for the given operator and operand views.
    pub open spec fn checked_spec(op: BinOpType, left: ExprV, right: ExprV) -> Result<
        ExprV,
        ErrorV,
    > {
        if bin_op_domain_ok(op, expr_ty_vspec(left), expr_ty_vspec(right)) {
            Ok(ExprV::BinOp { op_ty: op, left: Box::new(left), right: Box::new(right) })
        } else {
            Err(ErrorV::TypeError { left: expr_ty_vspec(left), right: expr_ty_vspec(right) })
        }
    }
}

/// The view of a `Result` carrying a binary-operation node or an error.
pub open spec fn bin_res_view(r: Result<BinOp, Error>) -> Result<ExprV, ErrorV> {
    match r {
        Ok(b) => Ok(ExprV::BinOp {
            op_ty: b.op_ty,
            left: Box::new((*b.left)@),
            right: Box::new((*b.right)@),
        }),
        Err(e) => Err(e@),
    }
}


impl View for BinOp {
    type V = ExprV;

    #[verifier::inline]
    open spec fn view(&self) -> ExprV {
        ExprV::BinOp {
            op_ty: self.op_ty,
            left: Box::new(crate::expr::expr_view(*self.left)),
            right: Box::new(crate::expr::expr_view(*self.right)),
        }
    }
}

impl Clone for BinOp {
    /// Deep copy; the copy has the same view.
    fn clone(&self) -> (res: Self)
        ensures
            res@ == self@,
        decreases self,
    {
        BinOp {
            op_ty: self.op_ty,
            left: Box::new((*self.left).clone()),
            right: Box::new((*self.right).clone()),
        }
    }
}

} // verus!
