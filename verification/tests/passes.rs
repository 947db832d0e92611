//! The rewriting passes: constant folding with symbol substitution, and
//! symbol uniquification.

use lms::var::Var;
use lms::{
    extract, simplify, sym_uniquify, uniquify, BinOpType, Bindings, Error, Expr, Literal, Symbol,
    I32,
};

#[test]
fn test_simplify_bin_op() {
    let mut syms = Bindings::new();
    syms.insert(Symbol::named("a", I32), Literal::I32(1));

    let v1: Var<I32> = Var::new_symbol("a", I32);
    let mut v2 = v1.add(Var::lit_i32(1)).unwrap().expr;
    simplify(&mut v2, &syms).unwrap();
    assert_eq!(2, v2.as_lit().unwrap().as_i32().unwrap());

    let v3a: Var<I32> = Var::new_symbol("a", I32);
    let mut v3 = Var::lit_i32(1).add(v3a).unwrap().add(Var::lit_i32(1)).unwrap().expr;
    simplify(&mut v3, &syms).unwrap();
    assert_eq!(3, v3.as_lit().unwrap().as_i32().unwrap());

    let mut v4 = Var::lit_i32(1).expr;
    simplify(&mut v4, &syms).unwrap();
    assert_eq!(1, v4.as_lit().unwrap().as_i32().unwrap());
}

#[test]
fn test_simplify_unary_op() {
    let mut syms = Bindings::new();
    syms.insert(Symbol::named("a", I32), Literal::I32(1));
    let v1: Var<I32> = Var::new_symbol("a", I32);
    let mut v2 = v1.neg().unwrap().expr;
    simplify(&mut v2, &syms).unwrap();
    assert_eq!(-1, v2.as_lit().unwrap().as_i32().unwrap());
}

#[test]
fn simplify_reports_no_change_on_literals() {
    // An already fully-folded tree comes back unchanged, with the
    // change flag false.
    let syms = Bindings::new();
    let mut e = Var::lit_i32(7).expr;
    let before = e.clone();
    let changed = simplify(&mut e, &syms).unwrap();
    assert!(!changed);
    assert_eq!(before, e);
}

#[test]
fn simplify_folds_bound_symbol() {
    // A symbol bound to 1 makes `a + 1` fold to the literal 2, and the
    // pass reports a change.
    let mut syms = Bindings::new();
    syms.insert(Symbol::named("a", I32), Literal::I32(1));
    let a: Var<I32> = Var::new_symbol("a", I32);
    let mut e = a.add(Var::lit_i32(1)).unwrap().expr;
    let changed = simplify(&mut e, &syms).unwrap();
    assert!(changed);
    assert_eq!(e, Expr::Literal(Literal::I32(2)));
}

#[test]
fn simplify_leaves_unbound_symbols() {
    let syms = Bindings::new();
    let a: Var<I32> = Var::new_symbol("a", I32);
    let mut e = a.add(Var::lit_i32(1)).unwrap().expr;
    let before = e.clone();
    let changed = simplify(&mut e, &syms).unwrap();
    assert!(!changed);
    assert_eq!(before, e);
}

#[test]
fn simplify_leaves_integer_faults_unfolded() {
    // A division by zero cannot be folded; the node stays in the tree.
    let syms = Bindings::new();
    let mut e = lms::Expr::BinOp(
        lms::BinOp::checked(
            BinOpType::Divide,
            Expr::Literal(Literal::I32(1)),
            Expr::Literal(Literal::I32(0)),
        )
        .unwrap(),
    );
    let before = e.clone();
    let changed = simplify(&mut e, &syms).unwrap();
    assert!(!changed);
    assert_eq!(before, e);
}

#[test]
fn test_extract_symbols() {
    let v1: Var<I32> = Var::new_symbol("a", I32);
    let v2 = v1.add(Var::lit_i32(100)).unwrap();
    assert_eq!(1, extract(&v2.expr).len());
    let v3 = v2.add(Var::new_symbol("b", I32)).unwrap();
    assert_eq!(2, extract(&v3.expr).len());
}

#[test]
fn extract_deduplicates() {
    let a1: Var<I32> = Var::new_symbol("a", I32);
    let a2: Var<I32> = Var::new_symbol("a", I32);
    let e = a1.add(a2).unwrap();
    assert_eq!(1, extract(&e.expr).len());
}

fn two_loop_tree() -> Expr {
    let v2 = Var::merger(I32, BinOpType::Max);
    let v3 = Var::vector(vec![1, 2, 3]).unwrap();
    let v4 = v2
        .pfor(v3.clone(), |b, _i, e: Var<i32>| b.merge(e).unwrap())
        .unwrap()
        .eval(I32)
        .unwrap();
    let v5 = Var::merger(I32, BinOpType::Min);
    let v6 = v5
        .pfor(v3, |b, _i, e: Var<i32>| b.merge(e).unwrap())
        .unwrap()
        .eval(I32)
        .unwrap();
    v4.add(v6).unwrap().expr
}

#[test]
fn sym_uniquify_test_uniquify() {
    let mut v7 = two_loop_tree();
    println!("{:?}", v7);
    sym_uniquify(&mut v7).unwrap();
    println!("{:?}", v7);
}

#[test]
fn uniquify_test_uniquify() {
    let mut v7 = two_loop_tree();
    println!("{:?}", v7);
    uniquify(&mut v7).unwrap();
    println!("{:?}", v7);
}

/// The element parameter of the lambda inside `Eval(For(..))`.
fn element_param(side: &Expr) -> Symbol {
    let ev = match side {
        Expr::Eval(ev) => &ev.0,
        other => panic!("expected an eval node, got {:?}", other),
    };
    let f = match ev.as_ref() {
        Expr::For(f) => f,
        other => panic!("expected a loop node, got {:?}", other),
    };
    match f.func.as_ref() {
        Expr::Lambda(lm) => lm.params[2].clone(),
        other => panic!("expected a lambda, got {:?}", other),
    }
}

#[test]
fn uniquify_separates_sibling_binders() {
    // Two sibling loops both bind an element parameter named "e"; after
    // uniquification the two binders carry distinct disambiguators.
    let mut v7 = two_loop_tree();
    uniquify(&mut v7).unwrap();
    let (left, right) = match &v7 {
        Expr::BinOp(b) => (b.left.as_ref(), b.right.as_ref()),
        other => panic!("expected a binary node, got {:?}", other),
    };
    let e1 = element_param(left);
    let e2 = element_param(right);
    assert_eq!(e1.name, "e");
    assert_eq!(e2.name, "e");
    assert_ne!(e1.id, e2.id);
}

#[test]
fn uniquify_rejects_unbound_reference() {
    // A tree referencing a symbol never introduced by an enclosing
    // lambda fails with UndefinedSymbol.
    let mut e = Expr::Symbol(Symbol::named("q", I32));
    let r = uniquify(&mut e);
    assert!(matches!(r, Err(Error::UndefinedSymbol { .. })));
}

#[test]
fn simplify_propagates_fold_errors() {
    // A hand-built node mixing kinds cannot fold; the algebra's error
    // surfaces and the tree is left as it was.
    let syms = Bindings::new();
    let mut e = Expr::BinOp(lms::BinOp {
        op_ty: BinOpType::Add,
        left: Box::new(Expr::Literal(Literal::Bool(true))),
        right: Box::new(Expr::Literal(Literal::I32(1))),
    });
    let before = e.clone();
    let r = simplify(&mut e, &syms);
    assert!(matches!(r, Err(Error::TypeError { .. })));
    assert_eq!(before, e);
}
