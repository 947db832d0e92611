//! The staged-graph layer: constant folding through the context, shared
//! definitions, and topological scheduling.

use lms::{build_topo, Context, Def, DefEx, Exp, ExpOrDef, Plus, Stmt, Sym};

#[test]
fn test_const_arith() {
    let mut ctx = Context::new();

    let v1 = ctx.eval(Exp::cst(1).add(Exp::cst(2)));
    assert_eq!(Exp::Const(3), v1);
    let v2 = ctx.eval(Exp::cst(2).sub(Exp::cst(1)));
    assert_eq!(Exp::Const(1), v2);
    let v3 = ctx.eval(Exp::cst(2).mul(Exp::cst(2)));
    assert_eq!(Exp::Const(4), v3);
    let v4 = ctx.eval(Exp::cst(6).div(Exp::cst(2)));
    assert_eq!(Exp::Const(3), v4);

    let v1 = ctx.eval(Exp::cst(1).add(Exp::cst(2)));
    assert_eq!(Exp::Const(3), v1);
    let v2 = ctx.eval(Exp::cst(2).sub(Exp::cst(1)));
    assert_eq!(Exp::Const(1), v2);
    let v3 = ctx.eval(Exp::cst(2).mul(Exp::cst(2)));
    assert_eq!(Exp::Const(4), v3);
    let v4 = ctx.eval(Exp::cst(6).div(Exp::cst(2)));
    assert_eq!(Exp::Const(3), v4);

    let v1 = ctx.eval(Exp::cst(1).add(Exp::cst(2)));
    assert_eq!(Exp::Const(3), v1);
    let v2 = ctx.eval(Exp::cst(2).sub(Exp::cst(1)));
    assert_eq!(Exp::Const(1), v2);
    let v3 = ctx.eval(Exp::cst(2).mul(Exp::cst(2)));
    assert_eq!(Exp::Const(4), v3);
    let v4 = ctx.eval(Exp::cst(6).div(Exp::cst(2)));
    assert_eq!(Exp::Const(3), v4);
}

fn pow(input: Exp, n: u32, ctx: &mut Context) -> Exp {
    if n == 0 {
        Exp::Const(1)
    } else if n == 1 {
        input
    } else {
        let v = pow(input, n - 1, ctx);
        ctx.eval(input.mul(v))
    }
}

#[test]
fn test_build_topo() {
    let mut ctx = Context::new();
    let input = ctx.fresh();
    let result = pow(input, 2, &mut ctx);
    println!("global defs:");
    for d in &ctx.global_defs {
        println!("{:?}", d);
    }
    let topo = build_topo(&ctx.global_defs, result.as_sym().unwrap());
    println!("topo:");
    for s in &topo {
        println!("{:?}", s);
    }
}

#[test]
fn context_shares_equal_definitions() {
    // Registering the same definition twice yields the same symbol.
    let mut ctx = Context::new();
    let a = ctx.fresh();
    let d = Def::Plus(Plus(a, Exp::Const(1)));
    let s1 = ctx.to_atomic(d);
    let s2 = ctx.to_atomic(d);
    assert_eq!(s1, s2);
    assert_eq!(2, ctx.global_defs.len());
}

#[test]
fn context_finds_statements() {
    let mut ctx = Context::new();
    let a = ctx.fresh();
    let d = Def::Plus(Plus(a, Exp::Const(1)));
    let st = ctx.find_or_create_stmt(d);
    assert_eq!(st.def(), d);
    assert_eq!(ctx.find_stmt_by_def(&d), Some(st));
    assert_eq!(ctx.find_stmt_by_sym(&st.sym()), Some(st));
    assert_eq!(ctx.find_stmt_by_sym(&Sym(99)), None);
    assert_eq!(st.defines(st.sym()), Some(d));
    assert_eq!(st.defines_rhs(&d), Some(st.sym()));
    assert_eq!(st.defines_rhs(&Def::Nil), None);
    let nil = Stmt::assign(Sym(7), Def::Nil);
    assert_eq!(nil.def().syms().len(), 0);
    assert_eq!(d.syms().len(), 1);
}

#[test]
fn eval_if_picks_constant_branch() {
    let mut ctx = Context::new();
    let t = ExpOrDef::Exp(Exp::Const(10));
    let e = ExpOrDef::Exp(Exp::Const(20));
    let r = ctx.eval_if(ExpOrDef::Exp(Exp::Const(1)), t, e);
    assert_eq!(r, Exp::Const(10));
    let r2 = ctx.eval_if(ExpOrDef::Exp(Exp::Const(0)), t, e);
    assert_eq!(r2, Exp::Const(20));
}

#[test]
fn topo_orders_dependencies_first() {
    let mut ctx = Context::new();
    let input = ctx.fresh();
    let result = pow(input, 3, &mut ctx);
    let topo = build_topo(&ctx.global_defs, result.as_sym().unwrap());
    // Every dependency of a scheduled statement appears earlier.
    for (k, s) in topo.iter().enumerate() {
        let st = ctx.global_defs[s.0];
        for dep in st.def().syms() {
            let pos = topo.iter().position(|x| *x == dep).unwrap();
            assert!(pos < k);
        }
    }
    // The result is scheduled.
    assert!(topo.contains(result.as_sym().as_ref().unwrap()));
}
