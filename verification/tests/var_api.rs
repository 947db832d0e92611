//! The staged-variable construction API: literal folding, builders,
//! the parallel-for combinator, and the type checks every combinator
//! performs.

use lms::var::Var;
use lms::{BinOpType, Error, Expr, GetField, Literal, Symbol, Type, TypeInference, I32, U32};

#[test]
fn test_var_lit_add() {
    let v1 = Var::lit_i32(1);
    let v2 = Var::lit_i32(2);
    let v3 = v1.add(v2).unwrap();
    assert_eq!(Var::lit_i32(3), v3);
    let v4 = Var::lit_i32(4);
    assert_eq!(Var::lit_i32(8), v4.add(Var::lit_i32(4)).unwrap());
}

#[test]
fn test_var_appender() {
    let a1 = Var::appender(I32);
    let a2 = a1.merge(1).unwrap();
    let a3 = a2.merge(2).unwrap();
    let a4 = a3.merge(3).unwrap();
    println!("{:?}", a4.eval().unwrap().expr);
}

#[test]
fn test_var_merger() {
    let m1 = Var::merger(I32, BinOpType::Add);
    let m2 = m1.merge(1).unwrap();
    let m3 = m2.merge(2).unwrap();
    let m4 = m3.merge(3).unwrap();
    println!("{:?}", m4.eval(I32).unwrap().expr);
}

#[test]
fn test_var_vector() {
    let v1 = Var::vector(vec![1, 2, 3]).unwrap();
    let m1 = Var::merger(I32, BinOpType::Add);
    let m2 = m1.pfor(v1, |b, _i, e: Var<i32>| b.merge(e).unwrap()).unwrap();
    println!("{:?}", m2.expr);
}

#[test]
fn construction_rejects_mixed_binop() {
    // Adding a boolean to an integer is rejected at construction time.
    let r = lms::BinOp::add(
        Expr::Literal(Literal::Bool(true)),
        Expr::Literal(Literal::I32(1)),
    );
    assert!(matches!(r, Err(Error::TypeError { .. })));
}

#[test]
fn construction_rejects_bad_merge() {
    // Merging a string into an appender of I32 is rejected.
    let a = Var::appender(I32);
    let r = a.merge(String::from("x"));
    assert!(matches!(r, Err(Error::TypeError { .. })));
}

#[test]
fn construction_rejects_get_field_on_scalar() {
    // Projecting a field out of a non-tuple is rejected.
    let r = GetField::checked(Expr::Literal(Literal::I32(1)), 0);
    assert!(matches!(r, Err(Error::TypeError { .. })));
}

#[test]
fn merge_on_non_builder_is_invalid() {
    // A merge through a symbol of non-builder type is an invalid
    // operation of the builder algebra.
    let s: Var<I32> = Var::new_symbol("x", I32);
    let bad: Var<lms::AppenderType> = Var::new(s.expr);
    let r = bad.merge(1);
    assert!(matches!(r, Err(Error::InvalidOperation { .. })));
}

#[test]
fn eval_type_mismatch_is_rejected() {
    // Evaluating a merger of I32 against an expected type of U32 fails
    // with a TypeError naming both types.
    let m = Var::merger(I32, BinOpType::Add);
    let r = m.eval(U32);
    match r {
        Err(Error::TypeError { left, right }) => {
            assert_eq!(left, Type::I32(I32));
            assert_eq!(right, Type::U32(U32));
        }
        other => panic!("expected a type error, got {:?}", other),
    }
}

#[test]
fn type_algebra_round_trip_concrete() {
    // merge and eval of each builder kind, on concrete types.
    let app = Type::Appender(lms::AppenderType { item_ty: Box::new(Type::I32(I32)) });
    assert_eq!(app.clone().merge().unwrap(), Type::I32(I32));
    assert_eq!(
        app.eval().unwrap(),
        Type::Vector(lms::VectorType { item_ty: Box::new(Type::I32(I32)) })
    );
    let gm = Type::GroupMerger(lms::GroupMergerType {
        key_ty: Box::new(Type::U32(U32)),
        value_ty: Box::new(Type::I32(I32)),
    });
    let merged = gm.clone().merge().unwrap();
    match merged {
        Type::Tuple(tt) => {
            assert_eq!(tt.0.len(), 2);
            assert_eq!(tt.0[0], Type::U32(U32));
            assert_eq!(tt.0[1], Type::I32(I32));
        }
        other => panic!("expected a tuple, got {:?}", other),
    }
    let evaled = gm.eval().unwrap();
    assert_eq!(
        evaled,
        Type::Dict(lms::DictType {
            key_ty: Box::new(Type::U32(U32)),
            value_ty: Box::new(Type::Vector(lms::VectorType {
                item_ty: Box::new(Type::I32(I32)),
            })),
        })
    );
}

#[test]
fn eval_on_non_builder_is_invalid() {
    let r = Type::I32(I32).eval();
    assert!(matches!(r, Err(Error::InvalidOperation { .. })));
    let r2 = Type::Bool(lms::Bool).merge();
    assert!(matches!(r2, Err(Error::InvalidOperation { .. })));
}

#[test]
fn symbol_carries_declared_type() {
    let s = Symbol::named("v", I32);
    assert_eq!(s.ty(), Type::I32(I32));
    assert_eq!(s.id, 0);
}

#[test]
fn empty_vector_is_rejected() {
    // A staged vector needs at least one item to take its type from;
    // an appender builds a vector from nothing.
    let items: Vec<i32> = vec![];
    let r = Var::vector(items);
    assert!(matches!(r, Err(Error::TypeError { .. })));
}

#[test]
fn not_folds_and_unwraps() {
    // A literal folds; a double negation unwraps to the operand.
    let v = Var::lit_bool(true).not().unwrap();
    assert_eq!(v, Var::lit_bool(false));
    let b: Var<lms::Bool> = Var::new_symbol("p", lms::Bool);
    let nn = b.clone().not().unwrap().not().unwrap();
    assert_eq!(nn, b);
}

#[test]
fn neg_folds_and_unwraps() {
    let v = Var::lit_i32(5).neg().unwrap();
    assert_eq!(v, Var::lit_i32(-5));
    let x: Var<I32> = Var::new_symbol("x", I32);
    let nn = x.clone().neg().unwrap().neg().unwrap();
    assert_eq!(nn, x);
}
