//! The per-kind literal algebra: folding, bitwise equality of
//! floating-point literals, the partial order, and the max/min
//! tie-break.

use lms::{BinOpType, Error, Literal, UnaryOpType};

#[test]
fn arith_folds_exact_values() {
    let add = Literal::U8(200).apply_bin_op(&Literal::U8(55), BinOpType::Add);
    assert_eq!(add.unwrap(), Literal::U8(255));
    let sub = Literal::I64(-5).apply_bin_op(&Literal::I64(7), BinOpType::Subtract);
    assert_eq!(sub.unwrap(), Literal::I64(-12));
    let mul = Literal::U32(6).apply_bin_op(&Literal::U32(7), BinOpType::Multiply);
    assert_eq!(mul.unwrap(), Literal::U32(42));
    // Native division truncates toward zero; the remainder keeps the
    // dividend's sign.
    let div = Literal::I32(-7).apply_bin_op(&Literal::I32(2), BinOpType::Divide);
    assert_eq!(div.unwrap(), Literal::I32(-3));
    let rem = Literal::I32(-7).apply_bin_op(&Literal::I32(2), BinOpType::Modulo);
    assert_eq!(rem.unwrap(), Literal::I32(-1));
    let quo = Literal::U64(17).apply_bin_op(&Literal::U64(5), BinOpType::Divide);
    assert_eq!(quo.unwrap(), Literal::U64(3));
}

#[test]
fn bitwise_and_logical_folds() {
    let and = Literal::U8(0b1100).apply_bin_op(&Literal::U8(0b1010), BinOpType::BitwiseAnd);
    assert_eq!(and.unwrap(), Literal::U8(0b1000));
    let or = Literal::I64(1).apply_bin_op(&Literal::I64(2), BinOpType::BitwiseOr);
    assert_eq!(or.unwrap(), Literal::I64(3));
    let xor = Literal::U32(5).apply_bin_op(&Literal::U32(3), BinOpType::Xor);
    assert_eq!(xor.unwrap(), Literal::U32(6));
    let lo = Literal::Bool(true).apply_bin_op(&Literal::Bool(false), BinOpType::LogicalOr);
    assert_eq!(lo.unwrap(), Literal::Bool(true));
    let la = Literal::Bool(true).apply_bin_op(&Literal::Bool(false), BinOpType::LogicalAnd);
    assert_eq!(la.unwrap(), Literal::Bool(false));
    // Bitwise operators are for integers only.
    let bad = Literal::Bool(true).apply_bin_op(&Literal::Bool(true), BinOpType::BitwiseAnd);
    assert!(matches!(bad, Err(Error::TypeError { .. })));
}

#[test]
fn mixed_kinds_are_a_type_error() {
    let r = Literal::I32(1).apply_bin_op(&Literal::I64(1), BinOpType::Add);
    assert!(matches!(r, Err(Error::TypeError { .. })));
    let r2 = Literal::Bool(true).apply_bin_op(&Literal::I32(1), BinOpType::Equal);
    assert!(matches!(r2, Err(Error::TypeError { .. })));
}

#[test]
fn string_order_is_lexicographic() {
    let lt = Literal::Str(String::from("abc"))
        .apply_bin_op(&Literal::Str(String::from("abd")), BinOpType::LessThan);
    assert_eq!(lt.unwrap(), Literal::Bool(true));
    let pre = Literal::Str(String::from("ab"))
        .apply_bin_op(&Literal::Str(String::from("abc")), BinOpType::LessThan);
    assert_eq!(pre.unwrap(), Literal::Bool(true));
    let eq = Literal::Str(String::from("ab"))
        .apply_bin_op(&Literal::Str(String::from("ab")), BinOpType::Equal);
    assert_eq!(eq.unwrap(), Literal::Bool(true));
}

#[test]
fn float_literal_equality_is_bitwise() {
    // Two NaN payloads are distinct literals.
    let nan1 = f32::NAN.to_bits();
    let nan2 = f32::NAN.to_bits() | 1;
    assert_ne!(Literal::F32(nan1), Literal::F32(nan2));
    // The two signed zeros are distinct literals...
    let pz = 0.0_f32.to_bits();
    let nz = (-0.0_f32).to_bits();
    assert_ne!(Literal::F32(pz), Literal::F32(nz));
    let eq = Literal::F32(pz).apply_bin_op(&Literal::F32(nz), BinOpType::Equal);
    assert_eq!(eq.unwrap(), Literal::Bool(false));
    // ...but their order is defined and reports them equal.
    let le = Literal::F32(pz).apply_bin_op(&Literal::F32(nz), BinOpType::LessThanOrEqual);
    assert_eq!(le.unwrap(), Literal::Bool(true));
    let ge = Literal::F32(pz).apply_bin_op(&Literal::F32(nz), BinOpType::GreaterThanOrEqual);
    assert_eq!(ge.unwrap(), Literal::Bool(true));
    let lt = Literal::F32(pz).apply_bin_op(&Literal::F32(nz), BinOpType::LessThan);
    assert_eq!(lt.unwrap(), Literal::Bool(false));
}

#[test]
fn nan_comparison_fails() {
    let nan = f64::NAN.to_bits();
    let one = 1.0_f64.to_bits();
    let r = Literal::F64(nan).apply_bin_op(&Literal::F64(one), BinOpType::LessThan);
    assert!(matches!(r, Err(Error::ComparisonError { .. })));
    // Max and Min go through the same ordering and fail on NaN too.
    let m = Literal::F64(one).apply_bin_op(&Literal::F64(nan), BinOpType::Max);
    assert!(matches!(m, Err(Error::ComparisonError { .. })));
}

#[test]
fn float_order_follows_numeric_order() {
    let a = 1.5_f32.to_bits();
    let b = (-2.5_f32).to_bits();
    let r = Literal::F32(b).apply_bin_op(&Literal::F32(a), BinOpType::LessThan);
    assert_eq!(r.unwrap(), Literal::Bool(true));
    let mx = Literal::F32(b).apply_bin_op(&Literal::F32(a), BinOpType::Max);
    assert_eq!(mx.unwrap(), Literal::F32(a));
}

#[test]
fn max_min_tie_break_returns_right() {
    // Equal operands: both Max and Min return the right operand.
    let mx = Literal::I32(5).apply_bin_op(&Literal::I32(5), BinOpType::Max);
    assert_eq!(mx.unwrap(), Literal::I32(5));
    let mn = Literal::I32(5).apply_bin_op(&Literal::I32(5), BinOpType::Min);
    assert_eq!(mn.unwrap(), Literal::I32(5));
    // Observable with the two float zeros, which compare equal but have
    // distinct bit patterns: the right operand's bits come back.
    let pz = 0.0_f32.to_bits();
    let nz = (-0.0_f32).to_bits();
    let mx = Literal::F32(pz).apply_bin_op(&Literal::F32(nz), BinOpType::Max);
    assert_eq!(mx.unwrap(), Literal::F32(nz));
    let mn = Literal::F32(pz).apply_bin_op(&Literal::F32(nz), BinOpType::Min);
    assert_eq!(mn.unwrap(), Literal::F32(nz));
    let mx2 = Literal::F32(nz).apply_bin_op(&Literal::F32(pz), BinOpType::Max);
    assert_eq!(mx2.unwrap(), Literal::F32(pz));
}

#[test]
fn strict_max_returns_left() {
    let mx = Literal::I32(9).apply_bin_op(&Literal::I32(5), BinOpType::Max);
    assert_eq!(mx.unwrap(), Literal::I32(9));
    let mn = Literal::I32(9).apply_bin_op(&Literal::I32(5), BinOpType::Min);
    assert_eq!(mn.unwrap(), Literal::I32(5));
}

#[test]
fn unary_folds() {
    let not = Literal::Bool(true).apply_unary_op(UnaryOpType::Not);
    assert_eq!(not.unwrap(), Literal::Bool(false));
    let neg = Literal::I64(41).apply_unary_op(UnaryOpType::Neg);
    assert_eq!(neg.unwrap(), Literal::I64(-41));
    let bad = Literal::I32(1).apply_unary_op(UnaryOpType::Not);
    assert!(matches!(bad, Err(Error::TypeError { .. })));
}
