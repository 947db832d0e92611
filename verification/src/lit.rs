//! Literal constants and the per-kind literal algebra.
//!
//! A literal carries exactly one concrete scalar. Floating-point values
//! are stored as their raw bit patterns, which makes literal equality
//! bitwise and total; ordering instead uses the numeric partial order
//! recovered from the bits (see `crate::ieee`) and fails on NaN.

use core::cmp::Ordering;

use vstd::prelude::*;

use crate::arith::{div_i32, div_i64, rem_i32, rem_i64, trunc_div_i, trunc_rem_i};
use crate::bin_op::BinOpType;
use crate::error::{Error, ErrorV};
use crate::ieee::{
    bits32_is_nan, bits32_key, bits64_is_nan, bits64_key, nan_bits32, nan_bits64, order_key32,
    order_key64,
};
use crate::lex::{lex_cmp, str_cmp};
use crate::ty::{type_eq, Bool, Str, Type, TypeInference, TypeV, F32, F64, I32, I64, U32, U64, U8};
use crate::unary_op::UnaryOpType;

verus! {

/// A constant value known at staging time, one variant per scalar kind.
/// The `F32` and `F64` variants hold raw bit patterns.
#[derive(Debug, PartialEq, Eq, Hash)]
#[verifier::ext_equal]
pub enum Literal {
    Bool(bool),
    U8(u8),
    I32(i32),
    I64(i64),
    U32(u32),
    U64(u64),
    F32(u32),
    F64(u64),
    Str(String),
}

/// The mathematical view of a literal: the same closed set of scalar
/// kinds, with string contents as a character sequence.
#[verifier::ext_equal]
pub enum LitV {
    Bool(bool),
    U8(u8),
    I32(i32),
    I64(i64),
    U32(u32),
    U64(u64),
    F32(u32),
    F64(u64),
    Str(Seq<char>),
}

impl LitV {
    /// The scalar type of this literal.
    pub open spec fn ty_spec(self) -> TypeV {
        match self {
            LitV::Bool(_) => TypeV::Bool,
            LitV::U8(_) => TypeV::U8,
            LitV::I32(_) => TypeV::I32,
            LitV::I64(_) => TypeV::I64,
            LitV::U32(_) => TypeV::U32,
            LitV::U64(_) => TypeV::U64,
            LitV::F32(_) => TypeV::F32,
            LitV::F64(_) => TypeV::F64,
            LitV::Str(_) => TypeV::Str,
        }
    }
}

impl View for Literal {
    type V = LitV;

    #[verifier::inline]
    open spec fn view(&self) -> LitV {
        match *self {
            Literal::Bool(v) => LitV::Bool(v),
            Literal::U8(v) => LitV::U8(v),
            Literal::I32(v) => LitV::I32(v),
            Literal::I64(v) => LitV::I64(v),
            Literal::U32(v) => LitV::U32(v),
            Literal::U64(v) => LitV::U64(v),
            Literal::F32(v) => LitV::F32(v),
            Literal::F64(v) => LitV::F64(v),
            Literal::Str(ref v) => LitV::Str(v@),
        }
    }
}

impl Clone for Literal {
    /// Deep copy; the copy is equal to the original.
    fn clone(&self) -> (res: Self)
        ensures
            res == *self,
    {
        match self {
            Literal::Bool(v) => Literal::Bool(*v),
            Literal::U8(v) => Literal::U8(*v),
            Literal::I32(v) => Literal::I32(*v),
            Literal::I64(v) => Literal::I64(*v),
            Literal::U32(v) => Literal::U32(*v),
            Literal::U64(v) => Literal::U64(*v),
            Literal::F32(v) => Literal::F32(*v),
            Literal::F64(v) => Literal::F64(*v),
            Literal::Str(v) => Literal::Str(v.clone()),
        }
    }
}

impl Literal {
    /// The boolean value, if this is a `Bool` literal.
    pub fn as_bool(&self) -> (r: Option<bool>)
        ensures
            (self matches Literal::Bool(v) ==> r == Some(*v)),
            !(self is Bool) ==> r is None,
    {
        match self {
            Literal::Bool(v) => Some(*v),
            _ => None,
        }
    }

    /// The value, if this is a `U8` literal.
    pub fn as_u8(&self) -> (r: Option<u8>)
        ensures
            (self matches Literal::U8(v) ==> r == Some(*v)),
            !(self is U8) ==> r is None,
    {
        match self {
            Literal::U8(v) => Some(*v),
            _ => None,
        }
    }

    /// The value, if this is an `I32` literal.
    pub fn as_i32(&self) -> (r: Option<i32>)
        ensures
            (self matches Literal::I32(v) ==> r == Some(*v)),
            !(self is I32) ==> r is None,
    {
        match self {
            Literal::I32(v) => Some(*v),
            _ => None,
        }
    }

    /// The value, if this is a `U32` literal.
    pub fn as_u32(&self) -> (r: Option<u32>)
        ensures
            (self matches Literal::U32(v) ==> r == Some(*v)),
            !(self is U32) ==> r is None,
    {
        match self {
            Literal::U32(v) => Some(*v),
            _ => None,
        }
    }

    /// The value, if this is an `I64` literal.
    pub fn as_i64(&self) -> (r: Option<i64>)
        ensures
            (self matches Literal::I64(v) ==> r == Some(*v)),
            !(self is I64) ==> r is None,
    {
        match self {
            Literal::I64(v) => Some(*v),
            _ => None,
        }
    }

    /// The value, if this is a `U64` literal.
    pub fn as_u64(&self) -> (r: Option<u64>)
        ensures
            (self matches Literal::U64(v) ==> r == Some(*v)),
            !(self is U64) ==> r is None,
    {
        match self {
            Literal::U64(v) => Some(*v),
            _ => None,
        }
    }

    /// The raw bit pattern, if this is an `F32` literal.
    pub fn as_f32_bits(&self) -> (r: Option<u32>)
        ensures
            (self matches Literal::F32(v) ==> r == Some(*v)),
            !(self is F32) ==> r is None,
    {
        match self {
            Literal::F32(v) => Some(*v),
            _ => None,
        }
    }

    /// The raw bit pattern, if this is an `F64` literal.
    pub fn as_f64_bits(&self) -> (r: Option<u64>)
        ensures
            (self matches Literal::F64(v) ==> r == Some(*v)),
            !(self is F64) ==> r is None,
    {
        match self {
            Literal::F64(v) => Some(*v),
            _ => None,
        }
    }

    /// A copy of the text, if this is a `Str` literal.
    pub fn as_string(&self) -> (r: Option<String>)
        ensures
            (self matches Literal::Str(v) ==> r == Some(*v)),
            !(self is Str) ==> r is None,
    {
        match self {
            Literal::Str(v) => Some(v.clone()),
            _ => None,
        }
    }
}

impl TypeInference for Literal {
    open spec fn ty_vspec(&self) -> TypeV {
        self@.ty_spec()
    }

    fn ty(&self) -> (t: Type) {
        match self {
            Literal::Bool(_) => Type::Bool(Bool),
            Literal::U8(_) => Type::U8(U8),
            Literal::I32(_) => Type::I32(I32),
            Literal::I64(_) => Type::I64(I64),
            Literal::U32(_) => Type::U32(U32),
            Literal::U64(_) => Type::U64(U64),
            Literal::F32(_) => Type::F32(F32),
            Literal::F64(_) => Type::F64(F64),
            Literal::Str(_) => Type::Str(Str),
        }
    }
}


/// The arithmetic operators of the literal algebra.
pub open spec fn is_arith_op(op: BinOpType) -> bool {
    match op {
        BinOpType::Add | BinOpType::Subtract | BinOpType::Multiply | BinOpType::Divide
            | BinOpType::Modulo => true,
        _ => false,
    }
}

/// The native `u8` operation neither overflows nor divides by zero.
pub open spec fn arith_ok_u8(op: BinOpType, x: u8, y: u8) -> bool {
    match op {
        BinOpType::Add => x + y <= u8::MAX,
        BinOpType::Subtract => x - y >= 0,
        BinOpType::Multiply => x * y <= u8::MAX,
        BinOpType::Divide | BinOpType::Modulo => y != 0,
        _ => true,
    }
}

/// The native `u32` operation neither overflows nor divides by zero.
pub open spec fn arith_ok_u32(op: BinOpType, x: u32, y: u32) -> bool {
    match op {
        BinOpType::Add => x + y <= u32::MAX,
        BinOpType::Subtract => x - y >= 0,
        BinOpType::Multiply => x * y <= u32::MAX,
        BinOpType::Divide | BinOpType::Modulo => y != 0,
        _ => true,
    }
}

/// The native `u64` operation neither overflows nor divides by zero.
pub open spec fn arith_ok_u64(op: BinOpType, x: u64, y: u64) -> bool {
    match op {
        BinOpType::Add => x + y <= u64::MAX,
        BinOpType::Subtract => x - y >= 0,
        BinOpType::Multiply => x * y <= u64::MAX,
        BinOpType::Divide | BinOpType::Modulo => y != 0,
        _ => true,
    }
}

/// The native `i32` operation neither overflows nor divides by zero.
pub open spec fn arith_ok_i32(op: BinOpType, x: i32, y: i32) -> bool {
    match op {
        BinOpType::Add => i32::MIN <= x + y <= i32::MAX,
        BinOpType::Subtract => i32::MIN <= x - y <= i32::MAX,
        BinOpType::Multiply => i32::MIN <= x * y <= i32::MAX,
        BinOpType::Divide | BinOpType::Modulo => y != 0 && !(x == i32::MIN && y == -1),
        _ => true,
    }
}

/// The native `i64` operation neither overflows nor divides by zero.
pub open spec fn arith_ok_i64(op: BinOpType, x: i64, y: i64) -> bool {
    match op {
        BinOpType::Add => i64::MIN <= x + y <= i64::MAX,
        BinOpType::Subtract => i64::MIN <= x - y <= i64::MAX,
        BinOpType::Multiply => i64::MIN <= x * y <= i64::MAX,
        BinOpType::Divide | BinOpType::Modulo => y != 0 && !(x == i64::MIN && y == -1),
        _ => true,
    }
}

/// The literal algebra can fold `op` over `a` and `b` in this crate:
/// `Pow` is not part of the algebra, floating-point arithmetic is left to
/// the code generator, and an integer operation must neither overflow nor
/// divide by zero (the native operation would panic there, as the
/// algebra's caller is expected to know).
pub open spec fn bin_fold_defined(a: LitV, b: LitV, op: BinOpType) -> bool {
    op != BinOpType::Pow && match (a, b) {
        (LitV::U8(x), LitV::U8(y)) => arith_ok_u8(op, x, y),
        (LitV::U32(x), LitV::U32(y)) => arith_ok_u32(op, x, y),
        (LitV::U64(x), LitV::U64(y)) => arith_ok_u64(op, x, y),
        (LitV::I32(x), LitV::I32(y)) => arith_ok_i32(op, x, y),
        (LitV::I64(x), LitV::I64(y)) => arith_ok_i64(op, x, y),
        (LitV::F32(_), LitV::F32(_)) => !is_arith_op(op),
        (LitV::F64(_), LitV::F64(_)) => !is_arith_op(op),
        _ => true,
    }
}

/// Three-way comparison of two integers.
pub open spec fn int_cmp(x: int, y: int) -> Ordering {
    if x < y {
        Ordering::Less
    } else if x == y {
        Ordering::Equal
    } else {
        Ordering::Greater
    }
}

/// Three-way comparison of two booleans; `false` precedes `true`.
pub open spec fn bool_cmp(x: bool, y: bool) -> Ordering {
    if x == y {
        Ordering::Equal
    } else if !x {
        Ordering::Less
    } else {
        Ordering::Greater
    }
}

/// Ordering comparison of two literals of the same kind. Floating-point
/// kinds use the numeric partial order recovered from the bits and fail
/// with `ComparisonError` on NaN; mixed kinds fail with `TypeError`.
pub open spec fn cmp_spec(a: LitV, b: LitV) -> Result<Ordering, ErrorV> {
    match (a, b) {
        (LitV::Bool(x), LitV::Bool(y)) => Ok(bool_cmp(x, y)),
        (LitV::U8(x), LitV::U8(y)) => Ok(int_cmp(x as int, y as int)),
        (LitV::U32(x), LitV::U32(y)) => Ok(int_cmp(x as int, y as int)),
        (LitV::I32(x), LitV::I32(y)) => Ok(int_cmp(x as int, y as int)),
        (LitV::U64(x), LitV::U64(y)) => Ok(int_cmp(x as int, y as int)),
        (LitV::I64(x), LitV::I64(y)) => Ok(int_cmp(x as int, y as int)),
        (LitV::F32(x), LitV::F32(y)) => if nan_bits32(x) || nan_bits32(y) {
            Err(ErrorV::ComparisonError { left: TypeV::F32, right: TypeV::F32 })
        } else {
            Ok(int_cmp(order_key32(x), order_key32(y)))
        },
        (LitV::F64(x), LitV::F64(y)) => if nan_bits64(x) || nan_bits64(y) {
            Err(ErrorV::ComparisonError { left: TypeV::F64, right: TypeV::F64 })
        } else {
            Ok(int_cmp(order_key64(x), order_key64(y)))
        },
        (LitV::Str(x), LitV::Str(y)) => Ok(lex_cmp(x, y)),
        _ => Err(ErrorV::TypeError { left: a.ty_spec(), right: b.ty_spec() }),
    }
}

/// Bitwise equality of two literals of the same kind. A floating-point
/// literal equals another exactly when their bit patterns are equal.
pub open spec fn lit_eq_val(a: LitV, b: LitV) -> bool {
    a == b
}

/// The fold of an arithmetic operator over two literals of the same
/// kind: the native operation on integer kinds; a `TypeError` on the
/// non-numeric kinds. (Floating-point pairs are outside the algebra and
/// excluded by `bin_fold_defined`.)
pub open spec fn arith_spec(a: LitV, b: LitV, op: BinOpType) -> Result<LitV, ErrorV> {
    match (a, b) {
        (LitV::U8(x), LitV::U8(y)) => Ok(
            LitV::U8(
                match op {
                    BinOpType::Add => (x + y) as u8,
                    BinOpType::Subtract => (x - y) as u8,
                    BinOpType::Multiply => (x * y) as u8,
                    BinOpType::Divide => (x as int / y as int) as u8,
                    _ => (x as int % y as int) as u8,
                },
            ),
        ),
        (LitV::U32(x), LitV::U32(y)) => Ok(
            LitV::U32(
                match op {
                    BinOpType::Add => (x + y) as u32,
                    BinOpType::Subtract => (x - y) as u32,
                    BinOpType::Multiply => (x * y) as u32,
                    BinOpType::Divide => (x as int / y as int) as u32,
                    _ => (x as int % y as int) as u32,
                },
            ),
        ),
        (LitV::U64(x), LitV::U64(y)) => Ok(
            LitV::U64(
                match op {
                    BinOpType::Add => (x + y) as u64,
                    BinOpType::Subtract => (x - y) as u64,
                    BinOpType::Multiply => (x * y) as u64,
                    BinOpType::Divide => (x as int / y as int) as u64,
                    _ => (x as int % y as int) as u64,
                },
            ),
        ),
        (LitV::I32(x), LitV::I32(y)) => Ok(
            LitV::I32(
                match op {
                    BinOpType::Add => (x + y) as i32,
                    BinOpType::Subtract => (x - y) as i32,
                    BinOpType::Multiply => (x * y) as i32,
                    BinOpType::Divide => trunc_div_i(x as int, y as int) as i32,
                    _ => trunc_rem_i(x as int, y as int) as i32,
                },
            ),
        ),
        (LitV::I64(x), LitV::I64(y)) => Ok(
            LitV::I64(
                match op {
                    BinOpType::Add => (x + y) as i64,
                    BinOpType::Subtract => (x - y) as i64,
                    BinOpType::Multiply => (x * y) as i64,
                    BinOpType::Divide => trunc_div_i(x as int, y as int) as i64,
                    _ => trunc_rem_i(x as int, y as int) as i64,
                },
            ),
        ),
        _ => Err(ErrorV::TypeError { left: a.ty_spec(), right: b.ty_spec() }),
    }
}

/// The fold of a bitwise operator over two literals of the same kind:
/// defined on the integer kinds only.
pub open spec fn bit_spec(a: LitV, b: LitV, op: BinOpType) -> Result<LitV, ErrorV> {
    match (a, b) {
        (LitV::U8(x), LitV::U8(y)) => Ok(
            LitV::U8(
                match op {
                    BinOpType::BitwiseAnd => x & y,
                    BinOpType::BitwiseOr => x | y,
                    _ => x ^ y,
                },
            ),
        ),
        (LitV::U32(x), LitV::U32(y)) => Ok(
            LitV::U32(
                match op {
                    BinOpType::BitwiseAnd => x & y,
                    BinOpType::BitwiseOr => x | y,
                    _ => x ^ y,
                },
            ),
        ),
        (LitV::U64(x), LitV::U64(y)) => Ok(
            LitV::U64(
                match op {
                    BinOpType::BitwiseAnd => x & y,
                    BinOpType::BitwiseOr => x | y,
                    _ => x ^ y,
                },
            ),
        ),
        (LitV::I32(x), LitV::I32(y)) => Ok(
            LitV::I32(
                match op {
                    BinOpType::BitwiseAnd => x & y,
                    BinOpType::BitwiseOr => x | y,
                    _ => x ^ y,
                },
            ),
        ),
        (LitV::I64(x), LitV::I64(y)) => Ok(
            LitV::I64(
                match op {
                    BinOpType::BitwiseAnd => x & y,
                    BinOpType::BitwiseOr => x | y,
                    _ => x ^ y,
                },
            ),
        ),
        _ => Err(ErrorV::TypeError { left: a.ty_spec(), right: b.ty_spec() }),
    }
}

/// The fold of `Max` or `Min` over two literals of the same kind,
/// defined through the ordering comparison. When the operands compare
/// equal the right operand is returned, for `Max` and for `Min` alike.
/// Booleans have no maximum or minimum in this algebra.
pub open spec fn maxmin_spec(a: LitV, b: LitV, is_max: bool) -> Result<LitV, ErrorV> {
    match (a, b) {
        (LitV::Bool(_), LitV::Bool(_)) => Err(
            ErrorV::TypeError { left: TypeV::Bool, right: TypeV::Bool },
        ),
        _ => match cmp_spec(a, b) {
            Err(e) => Err(e),
            Ok(o) => Ok(
                if is_max {
                    if o is Greater {
                        a
                    } else {
                        b
                    }
                } else {
                    if o is Less {
                        a
                    } else {
                        b
                    }
                },
            ),
        },
    }
}

/// The fold of a logical connective over two literals: booleans only.
pub open spec fn logical_spec(a: LitV, b: LitV, op: BinOpType) -> Result<LitV, ErrorV> {
    match (a, b) {
        (LitV::Bool(x), LitV::Bool(y)) => Ok(
            LitV::Bool(
                match op {
                    BinOpType::LogicalAnd => x && y,
                    _ => x || y,
                },
            ),
        ),
        _ => Err(ErrorV::TypeError { left: a.ty_spec(), right: b.ty_spec() }),
    }
}

/// The complete per-kind literal algebra: what folding `op` over the
/// literals `a` and `b` yields. Mixed kinds fail with `TypeError`; an
/// undefined order fails with `ComparisonError`; `Pow` is not part of
/// the algebra.
pub open spec fn apply_bin_op_spec(a: LitV, b: LitV, op: BinOpType) -> Result<LitV, ErrorV> {
    if a.ty_spec() != b.ty_spec() {
        Err(ErrorV::TypeError { left: a.ty_spec(), right: b.ty_spec() })
    } else {
        match op {
            BinOpType::Add | BinOpType::Subtract | BinOpType::Multiply | BinOpType::Divide
                | BinOpType::Modulo => arith_spec(a, b, op),
            BinOpType::Equal => Ok(LitV::Bool(lit_eq_val(a, b))),
            BinOpType::NotEqual => Ok(LitV::Bool(!lit_eq_val(a, b))),
            BinOpType::GreaterThan => match cmp_spec(a, b) {
                Err(e) => Err(e),
                Ok(o) => Ok(LitV::Bool(o is Greater)),
            },
            BinOpType::GreaterThanOrEqual => match cmp_spec(a, b) {
                Err(e) => Err(e),
                Ok(o) => Ok(LitV::Bool(o is Greater || o is Equal)),
            },
            BinOpType::LessThan => match cmp_spec(a, b) {
                Err(e) => Err(e),
                Ok(o) => Ok(LitV::Bool(o is Less)),
            },
            BinOpType::LessThanOrEqual => match cmp_spec(a, b) {
                Err(e) => Err(e),
                Ok(o) => Ok(LitV::Bool(o is Less || o is Equal)),
            },
            BinOpType::LogicalAnd | BinOpType::LogicalOr => logical_spec(a, b, op),
            BinOpType::BitwiseAnd | BinOpType::BitwiseOr | BinOpType::Xor => bit_spec(a, b, op),
            BinOpType::Max => maxmin_spec(a, b, true),
            BinOpType::Min => maxmin_spec(a, b, false),
            BinOpType::Pow => Err(ErrorV::TypeError { left: a.ty_spec(), right: b.ty_spec() }),
        }
    }
}

/// What the unary algebra can fold in this crate: negating the smallest
/// signed value would overflow the native operation.
pub open spec fn unary_fold_defined(a: LitV, op: UnaryOpType) -> bool {
    match op {
        UnaryOpType::Neg => !(a == LitV::I32(i32::MIN)) && !(a == LitV::I64(i64::MIN)),
        _ => true,
    }
}

/// The per-kind unary literal algebra: `Not` inverts a boolean, `Neg`
/// negates a signed integer; everything else is outside an operator's
/// domain and fails with `TypeError`.
pub open spec fn apply_unary_op_spec(a: LitV, op: UnaryOpType) -> Result<LitV, ErrorV> {
    match op {
        UnaryOpType::Not => match a {
            LitV::Bool(v) => Ok(LitV::Bool(!v)),
            _ => Err(ErrorV::TypeError { left: a.ty_spec(), right: TypeV::Bool }),
        },
        UnaryOpType::Neg => match a {
            LitV::I32(v) => Ok(LitV::I32((-v) as i32)),
            LitV::I64(v) => Ok(LitV::I64((-v) as i64)),
            _ => Err(ErrorV::TypeError { left: a.ty_spec(), right: a.ty_spec() }),
        },
        _ => Err(ErrorV::TypeError { left: a.ty_spec(), right: a.ty_spec() }),
    }
}

/// The view of a `Result` carrying a literal or an error.
pub open spec fn lit_res_view(r: Result<Literal, Error>) -> Result<LitV, ErrorV> {
    match r {
        Ok(l) => Ok(l@),
        Err(e) => Err(e@),
    }
}

/// Ordering comparison of two literals; see `cmp_spec`.
fn try_cmp(this: &Literal, that: &Literal) -> (r: Result<Ordering, Error>)
    ensures
        match r {
            Ok(o) => cmp_spec(this@, that@) == Ok::<Ordering, ErrorV>(o),
            Err(e) => cmp_spec(this@, that@) == Err::<Ordering, ErrorV>(e@),
        },
{
    match (this, that) {
        (Literal::Bool(x), Literal::Bool(y)) => Ok(
            if *x == *y {
                Ordering::Equal
            } else if !*x {
                Ordering::Less
            } else {
                Ordering::Greater
            },
        ),
        (Literal::U8(x), Literal::U8(y)) => Ok(
            if *x < *y {
                Ordering::Less
            } else if *x == *y {
                Ordering::Equal
            } else {
                Ordering::Greater
            },
        ),
        (Literal::U32(x), Literal::U32(y)) => Ok(
            if *x < *y {
                Ordering::Less
            } else if *x == *y {
                Ordering::Equal
            } else {
                Ordering::Greater
            },
        ),
        (Literal::I32(x), Literal::I32(y)) => Ok(
            if *x < *y {
                Ordering::Less
            } else if *x == *y {
                Ordering::Equal
            } else {
                Ordering::Greater
            },
        ),
        (Literal::U64(x), Literal::U64(y)) => Ok(
            if *x < *y {
                Ordering::Less
            } else if *x == *y {
                Ordering::Equal
            } else {
                Ordering::Greater
            },
        ),
        (Literal::I64(x), Literal::I64(y)) => Ok(
            if *x < *y {
                Ordering::Less
            } else if *x == *y {
                Ordering::Equal
            } else {
                Ordering::Greater
            },
        ),
        (Literal::F32(x), Literal::F32(y)) => {
            if bits32_is_nan(*x) || bits32_is_nan(*y) {
                Err(
                    Error::ComparisonError {
                        left: Type::F32(F32),
                        right: Type::F32(F32),
                    },
                )
            } else {
                let kx = bits32_key(*x);
                let ky = bits32_key(*y);
                Ok(
                    if kx < ky {
                        Ordering::Less
                    } else if kx == ky {
                        Ordering::Equal
                    } else {
                        Ordering::Greater
                    },
                )
            }
        },
        (Literal::F64(x), Literal::F64(y)) => {
            if bits64_is_nan(*x) || bits64_is_nan(*y) {
                Err(
                    Error::ComparisonError {
                        left: Type::F64(F64),
                        right: Type::F64(F64),
                    },
                )
            } else {
                let kx = bits64_key(*x);
                let ky = bits64_key(*y);
                Ok(
                    if kx < ky {
                        Ordering::Less
                    } else if kx == ky {
                        Ordering::Equal
                    } else {
                        Ordering::Greater
                    },
                )
            }
        },
        (Literal::Str(x), Literal::Str(y)) => Ok(str_cmp(x.as_str(), y.as_str())),
        _ => {
            let lt = this.ty();
            let rt = that.ty();
            Err(Error::TypeError { left: lt, right: rt })
        },
    }
}

/// Bitwise equality of two literals of the same kind.
fn lit_eq_exec(this: &Literal, that: &Literal) -> (r: bool)
    requires
        this@.ty_spec() == that@.ty_spec(),
    ensures
        r == lit_eq_val(this@, that@),
{
    let r = match (this, that) {
        (Literal::Bool(x), Literal::Bool(y)) => *x == *y,
        (Literal::U8(x), Literal::U8(y)) => *x == *y,
        (Literal::U32(x), Literal::U32(y)) => *x == *y,
        (Literal::I32(x), Literal::I32(y)) => *x == *y,
        (Literal::U64(x), Literal::U64(y)) => *x == *y,
        (Literal::I64(x), Literal::I64(y)) => *x == *y,
        (Literal::F32(x), Literal::F32(y)) => *x == *y,
        (Literal::F64(x), Literal::F64(y)) => *x == *y,
        (Literal::Str(x), Literal::Str(y)) => x.eq(y),
        _ => vstd::pervasive::unreached(),
    };
    proof {
        if r {
            assert(this@ =~= that@);
        }
    }
    r
}

/// Fold an arithmetic operator over two literals of the same kind; see
/// `arith_spec`.
fn try_arith(this: &Literal, that: &Literal, op: BinOpType) -> (r: Result<Literal, Error>)
    requires
        is_arith_op(op),
        this@.ty_spec() == that@.ty_spec(),
        bin_fold_defined(this@, that@, op),
    ensures
        lit_res_view(r) == arith_spec(this@, that@, op),
{
    match (this, that) {
        (Literal::U8(x), Literal::U8(y)) => Ok(
            Literal::U8(
                match op {
                    BinOpType::Add => *x + *y,
                    BinOpType::Subtract => *x - *y,
                    BinOpType::Multiply => *x * *y,
                    BinOpType::Divide => *x / *y,
                    _ => *x % *y,
                },
            ),
        ),
        (Literal::U32(x), Literal::U32(y)) => Ok(
            Literal::U32(
                match op {
                    BinOpType::Add => *x + *y,
                    BinOpType::Subtract => *x - *y,
                    BinOpType::Multiply => *x * *y,
                    BinOpType::Divide => *x / *y,
                    _ => *x % *y,
                },
            ),
        ),
        (Literal::U64(x), Literal::U64(y)) => Ok(
            Literal::U64(
                match op {
                    BinOpType::Add => *x + *y,
                    BinOpType::Subtract => *x - *y,
                    BinOpType::Multiply => *x * *y,
                    BinOpType::Divide => *x / *y,
                    _ => *x % *y,
                },
            ),
        ),
        (Literal::I32(x), Literal::I32(y)) => Ok(
            Literal::I32(
                match op {
                    BinOpType::Add => *x + *y,
                    BinOpType::Subtract => *x - *y,
                    BinOpType::Multiply => *x * *y,
                    BinOpType::Divide => div_i32(*x, *y),
                    _ => rem_i32(*x, *y),
                },
            ),
        ),
        (Literal::I64(x), Literal::I64(y)) => Ok(
            Literal::I64(
                match op {
                    BinOpType::Add => *x + *y,
                    BinOpType::Subtract => *x - *y,
                    BinOpType::Multiply => *x * *y,
                    BinOpType::Divide => div_i64(*x, *y),
                    _ => rem_i64(*x, *y),
                },
            ),
        ),
        (Literal::Bool(_), Literal::Bool(_)) | (Literal::Str(_), Literal::Str(_)) => {
            let lt = this.ty();
            let rt = that.ty();
            Err(Error::TypeError { left: lt, right: rt })
        },
        _ => vstd::pervasive::unreached(),
    }
}

/// Fold a bitwise operator over two literals of the same kind; see
/// `bit_spec`.
fn try_bits(this: &Literal, that: &Literal, op: BinOpType) -> (r: Result<Literal, Error>)
    requires
        op == BinOpType::BitwiseAnd || op == BinOpType::BitwiseOr || op == BinOpType::Xor,
        this@.ty_spec() == that@.ty_spec(),
    ensures
        lit_res_view(r) == bit_spec(this@, that@, op),
{
    match (this, that) {
        (Literal::U8(x), Literal::U8(y)) => Ok(
            Literal::U8(
                match op {
                    BinOpType::BitwiseAnd => *x & *y,
                    BinOpType::BitwiseOr => *x | *y,
                    _ => *x ^ *y,
                },
            ),
        ),
        (Literal::U32(x), Literal::U32(y)) => Ok(
            Literal::U32(
                match op {
                    BinOpType::BitwiseAnd => *x & *y,
                    BinOpType::BitwiseOr => *x | *y,
                    _ => *x ^ *y,
                },
            ),
        ),
        (Literal::U64(x), Literal::U64(y)) => Ok(
            Literal::U64(
                match op {
                    BinOpType::BitwiseAnd => *x & *y,
                    BinOpType::BitwiseOr => *x | *y,
                    _ => *x ^ *y,
                },
            ),
        ),
        (Literal::I32(x), Literal::I32(y)) => Ok(
            Literal::I32(
                match op {
                    BinOpType::BitwiseAnd => *x & *y,
                    BinOpType::BitwiseOr => *x | *y,
                    _ => *x ^ *y,
                },
            ),
        ),
        (Literal::I64(x), Literal::I64(y)) => Ok(
            Literal::I64(
                match op {
                    BinOpType::BitwiseAnd => *x & *y,
                    BinOpType::BitwiseOr => *x | *y,
                    _ => *x ^ *y,
                },
            ),
        ),
        _ => {
            let lt = this.ty();
            let rt = that.ty();
            Err(Error::TypeError { left: lt, right: rt })
        },
    }
}

impl Literal {
    /// Fold a binary operator over this literal and another, per the
    /// literal algebra (`apply_bin_op_spec`): the native operation for
    /// same-kind operands, `TypeError` for mixed kinds, and
    /// `ComparisonError` where the order is undefined. The caller keeps
    /// the fold inside the algebra (`bin_fold_defined`): no `Pow`, no
    /// floating-point arithmetic, and no integer overflow or division by
    /// zero.
    #[verifier::rlimit(60)]
    pub fn apply_bin_op(&self, other: &Self, op_ty: BinOpType) -> (r: Result<Literal, Error>)
        requires
            bin_fold_defined(self@, other@, op_ty),
        ensures
            lit_res_view(r) == apply_bin_op_spec(self@, other@, op_ty),
    {
        let lt = self.ty();
        let rt = other.ty();
        if !type_eq(&lt, &rt) {
            return Err(Error::TypeError { left: lt, right: rt });
        }
        match op_ty {
            BinOpType::Add | BinOpType::Subtract | BinOpType::Multiply | BinOpType::Divide
                | BinOpType::Modulo => try_arith(self, other, op_ty),
            BinOpType::Equal => Ok(Literal::Bool(lit_eq_exec(self, other))),
            BinOpType::NotEqual => Ok(Literal::Bool(!lit_eq_exec(self, other))),
            BinOpType::GreaterThan => match try_cmp(self, other) {
                Ok(o) => Ok(Literal::Bool(matches!(o, Ordering::Greater))),
                Err(e) => Err(e),
            },
            BinOpType::GreaterThanOrEqual => match try_cmp(self, other) {
                Ok(o) => Ok(Literal::Bool(!matches!(o, Ordering::Less))),
                Err(e) => Err(e),
            },
            BinOpType::LessThan => match try_cmp(self, other) {
                Ok(o) => Ok(Literal::Bool(matches!(o, Ordering::Less))),
                Err(e) => Err(e),
            },
            BinOpType::LessThanOrEqual => match try_cmp(self, other) {
                Ok(o) => Ok(Literal::Bool(!matches!(o, Ordering::Greater))),
                Err(e) => Err(e),
            },
            BinOpType::LogicalAnd | BinOpType::LogicalOr => match (self, other) {
                (Literal::Bool(x), Literal::Bool(y)) => Ok(
                    Literal::Bool(
                        match op_ty {
                            BinOpType::LogicalAnd => *x && *y,
                            _ => *x || *y,
                        },
                    ),
                ),
                _ => Err(Error::TypeError { left: lt, right: rt }),
            },
            BinOpType::BitwiseAnd | BinOpType::BitwiseOr | BinOpType::Xor => try_bits(
                self,
                other,
                op_ty,
            ),
            BinOpType::Max => match (self, other) {
                (Literal::Bool(_), Literal::Bool(_)) => Err(
                    Error::TypeError { left: lt, right: rt },
                ),
                _ => match try_cmp(self, other) {
                    Err(e) => Err(e),
                    Ok(o) => Ok(
                        if matches!(o, Ordering::Greater) {
                            self.clone()
                        } else {
                            other.clone()
                        },
                    ),
                },
            },
            BinOpType::Min => match (self, other) {
                (Literal::Bool(_), Literal::Bool(_)) => Err(
                    Error::TypeError { left: lt, right: rt },
                ),
                _ => match try_cmp(self, other) {
                    Err(e) => Err(e),
                    Ok(o) => Ok(
                        if matches!(o, Ordering::Less) {
                            self.clone()
                        } else {
                            other.clone()
                        },
                    ),
                },
            },
            BinOpType::Pow => vstd::pervasive::unreached(),
        }
    }

    /// Fold a unary operator over this literal, per the unary algebra
    /// (`apply_unary_op_spec`). The caller keeps the fold inside the
    /// algebra (`unary_fold_defined`): negating the smallest signed value
    /// is excluded.
    pub fn apply_unary_op(&self, op_ty: UnaryOpType) -> (r: Result<Literal, Error>)
        requires
            unary_fold_defined(self@, op_ty),
        ensures
            lit_res_view(r) == apply_unary_op_spec(self@, op_ty),
    {
        match op_ty {
            UnaryOpType::Not => match self {
                Literal::Bool(v) => Ok(Literal::Bool(!*v)),
                _ => {
                    let lt = self.ty();
                    Err(Error::TypeError { left: lt, right: Type::Bool(Bool) })
                },
            },
            UnaryOpType::Neg => match self {
                Literal::I32(v) => Ok(Literal::I32(-*v)),
                Literal::I64(v) => Ok(Literal::I64(-*v)),
                _ => {
                    let lt = self.ty();
                    let lt2 = lt.clone();
                    Err(Error::TypeError { left: lt, right: lt2 })
                },
            },
            _ => {
                let lt = self.ty();
                let lt2 = lt.clone();
                Err(Error::TypeError { left: lt, right: lt2 })
            },
        }
    }
}

/// When two literals compare equal (and a maximum or minimum is defined
/// for their kind), `Max` and `Min` both return the right operand. The
/// tie-break is observable where equal-ordered operands have distinct
/// representations, such as positive and negative floating-point zero.
pub proof fn lemma_max_min_tie(a: LitV, b: LitV)
    requires
        cmp_spec(a, b) == Ok::<Ordering, ErrorV>(Ordering::Equal),
        !(a is Bool),
    ensures
        apply_bin_op_spec(a, b, BinOpType::Max) == Ok::<LitV, ErrorV>(b),
        apply_bin_op_spec(a, b, BinOpType::Min) == Ok::<LitV, ErrorV>(b),
{
    assert(a.ty_spec() == b.ty_spec());
}

/// Literal equality is bitwise, not numeric: two floating-point literals
/// are equal exactly when their bit patterns are equal, so two NaN
/// payloads are distinct literals and the two signed zeros are distinct
/// literals.
pub proof fn lemma_literal_eq_bitwise(x: u32, y: u32)
    ensures
        lit_eq_val(LitV::F32(x), LitV::F32(y)) <==> x == y,
{
}

/// The two 32-bit floating-point zeros are distinct literals, yet their
/// ordering comparison reports them equal (signed zero has a defined
/// order, unlike NaN, which fails the comparison).
pub proof fn lemma_signed_zero_order()
    ensures
        !lit_eq_val(LitV::F32(0x8000_0000), LitV::F32(0)),
        cmp_spec(LitV::F32(0x8000_0000), LitV::F32(0)) == Ok::<Ordering, ErrorV>(Ordering::Equal),
{
    assert((0x8000_0000u32 >> 23) & 0xff != 0xff || 0x8000_0000u32 & 0x7fffff == 0)
        by (bit_vector);
    assert((0u32 >> 23) & 0xff != 0xff || 0u32 & 0x7fffff == 0) by (bit_vector);
    assert(0x8000_0000u32 >> 31 == 1) by (bit_vector);
    assert(0x8000_0000u32 & 0x7fff_ffff == 0) by (bit_vector);
    assert(0u32 >> 31 == 0) by (bit_vector);
    assert(0u32 & 0x7fff_ffff == 0) by (bit_vector);
    assert(order_key32(0x8000_0000) == 0);
    assert(order_key32(0) == 0);
}

} // verus!
