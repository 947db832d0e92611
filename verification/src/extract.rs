//! Symbol extraction: walk a tree and gather every symbol occurrence
//! (binder parameters included), keeping the first occurrence of each
//! distinct symbol.

use vstd::prelude::*;

use crate::expr::{sym_seq_view, Expr, ExprV, Iter, IterV};
use crate::sym::{sym_eq, SymV, Symbol};

verus! {

/// Whether `s` occurs in `acc`.
pub open spec fn seq_has_sym(acc: Seq<SymV>, s: SymV) -> bool {
    acc.contains(s)
}

/// Append `s` unless already present.
pub open spec fn add_sym(acc: Seq<SymV>, s: SymV) -> Seq<SymV> {
    if acc.contains(s) {
        acc
    } else {
        acc.push(s)
    }
}

/// Add each parameter in declaration order.
pub open spec fn add_params(acc: Seq<SymV>, ps: Seq<SymV>) -> Seq<SymV>
    decreases ps.len(),
{
    if ps.len() == 0 {
        acc
    } else {
        add_params(add_sym(acc, ps[0]), ps.skip(1))
    }
}

/// The symbols gathered from `e`, appended (first occurrence first) to
/// `acc`: a symbol reference adds itself; a lambda adds its parameters
/// and then walks the children of its body; every other node walks its
/// children left to right.
pub open spec fn collect_spec(e: ExprV, acc: Seq<SymV>) -> Seq<SymV>
    decreases e, 1int,
{
    match e {
        ExprV::Symbol(s) => add_sym(acc, s),
        ExprV::Lambda { params, body } => collect_children_spec(*body, add_params(acc, params)),
        _ => collect_children_spec(e, acc),
    }
}

/// The symbols gathered from the children of `e`, appended to `acc`.
pub open spec fn collect_children_spec(e: ExprV, acc: Seq<SymV>) -> Seq<SymV>
    decreases e, 0int,
{
    match e {
        ExprV::Broadcast(v) => collect_spec(*v, acc),
        ExprV::BinOp { left, right, .. } => collect_spec(*right, collect_spec(*left, acc)),
        ExprV::UnaryOp { value, .. } => collect_spec(*value, acc),
        ExprV::Cast { value, .. } => collect_spec(*value, acc),
        ExprV::GetField { tuple, .. } => collect_spec(*tuple, acc),
        ExprV::Length(v) => collect_spec(*v, acc),
        ExprV::Lookup { data, index } => collect_spec(*index, collect_spec(*data, acc)),
        ExprV::IfThenElse { i, t, e: els } => collect_spec(
            *els,
            collect_spec(*t, collect_spec(*i, acc)),
        ),
        ExprV::For { iters, builder, func } => collect_spec(
            *func,
            collect_spec(*builder, collect_iters_spec(iters, acc)),
        ),
        ExprV::Merge { builder, value } => collect_spec(*value, collect_spec(*builder, acc)),
        ExprV::Lambda { params, body } => collect_children_spec(*body, add_params(acc, params)),
        ExprV::NewVector { items, .. } => collect_exprs_spec(items, acc),
        ExprV::Eval(v) => collect_spec(*v, acc),
        _ => acc,
    }
}

/// The symbols gathered from a list of expressions, left to right.
pub open spec fn collect_exprs_spec(es: Seq<ExprV>, acc: Seq<SymV>) -> Seq<SymV>
    decreases es, 0int,
{
    if es.len() == 0 {
        acc
    } else {
        collect_exprs_spec(es.skip(1), collect_spec(es[0], acc))
    }
}

/// The symbols gathered from a list of data sources, left to right.
pub open spec fn collect_iters_spec(its: Seq<IterV>, acc: Seq<SymV>) -> Seq<SymV>
    decreases its, 0int,
{
    if its.len() == 0 {
        acc
    } else {
        collect_iters_spec(its.skip(1), collect_iter_spec(its[0], acc))
    }
}

/// The symbols gathered from one data source: its data, then its bounds.
pub open spec fn collect_iter_spec(it: IterV, acc: Seq<SymV>) -> Seq<SymV>
    decreases it, 0int,
{
    let a1 = collect_spec(*it.data, acc);
    let a2 = match it.start {
        Some(s) => collect_spec(*s, a1),
        None => a1,
    };
    match it.end {
        Some(en) => collect_spec(*en, a2),
        None => a2,
    }
}

/// Whether `s` already occurs in `acc`.
fn contains_sym(acc: &Vec<Symbol>, s: &Symbol) -> (r: bool)
    ensures
        r == seq_has_sym(sym_seq_view(acc@), s@),
{
    let mut i: usize = 0;
    while i < acc.len()
        invariant
            i <= acc@.len(),
            forall|k: int| 0 <= k < i ==> sym_seq_view(acc@)[k] != s@,
        decreases acc@.len() - i,
    {
        if sym_eq(&acc[i], s) {
            proof {
                assert(sym_seq_view(acc@)[i as int] == s@);
            }
            return true;
        }
        i += 1;
    }
    proof {
        assert forall|k: int| 0 <= k < sym_seq_view(acc@).len() implies sym_seq_view(acc@)[k]
            != s@ by {
        }
    }
    false
}

/// Gather the symbols of `e` into `acc`; see `collect_spec`.
#[verifier::rlimit(100)]
#[verifier::spinoff_prover]
fn collect(e: &Expr, acc: &mut Vec<Symbol>)
    ensures
        sym_seq_view(final(acc)@) == collect_spec(e@, sym_seq_view(old(acc)@)),
    decreases e, 1int, 0int,
{
    match e {
        Expr::Symbol(s) => {
            if !contains_sym(acc, s) {
                acc.push(s.clone());
                proof {
                    assert(sym_seq_view(acc@) =~= sym_seq_view(old(acc)@).push(s@));
                }
            }
        },
        Expr::Lambda(lm) => {
            add_params_exec(&lm.params, acc);
            collect_children(&lm.body, acc);
        },
        _ => {
            collect_children(e, acc);
        },
    }
}

/// Gather the symbols of the children of `e`; see
/// `collect_children_spec`.
#[verifier::rlimit(100)]
#[verifier::spinoff_prover]
fn collect_children(e: &Expr, acc: &mut Vec<Symbol>)
    ensures
        sym_seq_view(final(acc)@) == collect_children_spec(e@, sym_seq_view(old(acc)@)),
    decreases e, 0int, 0int,
{
    match e {
        Expr::Broadcast(b) => {
            collect(&b.value, acc);
        },
        Expr::BinOp(b) => {
            collect(&b.left, acc);
            collect(&b.right, acc);
        },
        Expr::UnaryOp(u) => {
            collect(&u.value, acc);
        },
        Expr::Cast(c) => {
            collect(&c.value, acc);
        },
        Expr::GetField(g) => {
            collect(&g.tuple, acc);
        },
        Expr::Length(l) => {
            collect(&l.0, acc);
        },
        Expr::Lookup(lk) => {
            collect(&lk.data, acc);
            collect(&lk.index, acc);
        },
        Expr::IfThenElse(ite) => {
            collect(&ite.i, acc);
            collect(&ite.t, acc);
            collect(&ite.e, acc);
        },
        Expr::For(f) => {
            proof {
                assert(crate::expr::iter_seq_view(f.iters@).skip(0) =~= crate::expr::iter_seq_view(
                    f.iters@,
                ));
            }
            collect_iters(&f.iters, 0, acc);
            collect(&f.builder, acc);
            collect(&f.func, acc);
        },
        Expr::Merge(m) => {
            collect(&m.builder, acc);
            collect(&m.value, acc);
        },
        Expr::Lambda(lm) => {
            add_params_exec(&lm.params, acc);
            collect_children(&lm.body, acc);
        },
        Expr::NewVector(v) => {
            proof {
                assert(crate::expr::expr_seq_view(v.items@).skip(0) =~= crate::expr::expr_seq_view(
                    v.items@,
                ));
            }
            collect_exprs(&v.items, 0, acc);
        },
        Expr::Eval(ev) => {
            collect(&ev.0, acc);
        },
        _ => {
        },
    }
}

/// Gather the symbols of the expressions from position `i` on.
#[verifier::rlimit(100)]
#[verifier::spinoff_prover]
fn collect_exprs(es: &Vec<Expr>, i: usize, acc: &mut Vec<Symbol>)
    requires
        i <= es@.len(),
    ensures
        sym_seq_view(final(acc)@) == collect_exprs_spec(
            crate::expr::expr_seq_view(es@).skip(i as int),
            sym_seq_view(old(acc)@),
        ),
    decreases es@, 1int, es@.len() - i,
{
    broadcast use crate::expr::lemma_expr_seq_view_len, crate::expr::lemma_expr_seq_view_index;

    let ghost tail = crate::expr::expr_seq_view(es@).skip(i as int);
    if i == es.len() {
        proof {
            assert(tail =~= Seq::<ExprV>::empty());
        }
        return ;
    }
    proof {
        assert(tail[0] == es@[i as int]@);
        assert(tail.skip(1) =~= crate::expr::expr_seq_view(es@).skip(i as int + 1));
    }
    collect(&es[i], acc);
    collect_exprs(es, i + 1, acc);
}

/// Gather the symbols of the data sources from position `i` on.
#[verifier::rlimit(100)]
#[verifier::spinoff_prover]
fn collect_iters(its: &Vec<Iter>, i: usize, acc: &mut Vec<Symbol>)
    requires
        i <= its@.len(),
    ensures
        sym_seq_view(final(acc)@) == collect_iters_spec(
            crate::expr::iter_seq_view(its@).skip(i as int),
            sym_seq_view(old(acc)@),
        ),
    decreases its@, 1int, its@.len() - i,
{
    broadcast use crate::expr::lemma_iter_seq_view_len, crate::expr::lemma_iter_seq_view_index;

    let ghost tail = crate::expr::iter_seq_view(its@).skip(i as int);
    if i == its.len() {
        proof {
            assert(tail =~= Seq::<IterV>::empty());
        }
        return ;
    }
    proof {
        assert(tail[0] == its@[i as int]@);
        assert(tail.skip(1) =~= crate::expr::iter_seq_view(its@).skip(i as int + 1));
    }
    let it = &its[i];
    let ghost a0 = sym_seq_view(acc@);
    collect(&it.data, acc);
    match &it.start {
        Some(b) => {
            collect(b, acc);
        },
        None => {
        },
    }
    match &it.end {
        Some(b) => {
            collect(b, acc);
        },
        None => {
        },
    }
    proof {
        assert(sym_seq_view(acc@) == collect_iter_spec(tail[0], a0));
    }
    collect_iters(its, i + 1, acc);
}

/// Add each parameter, in declaration order, unless already gathered.
fn add_params_exec(ps: &Vec<Symbol>, acc: &mut Vec<Symbol>)
    ensures
        sym_seq_view(final(acc)@) == add_params(sym_seq_view(old(acc)@), sym_seq_view(ps@)),
{
    let ghost full = sym_seq_view(ps@);
    proof {
        assert(full.skip(0) =~= full);
    }
    let mut i: usize = 0;
    while i < ps.len()
        invariant
            i <= ps@.len(),
            full == sym_seq_view(ps@),
            add_params(sym_seq_view(old(acc)@), full) == add_params(
                sym_seq_view(acc@),
                full.skip(i as int),
            ),
        decreases ps@.len() - i,
    {
        let ghost pre = sym_seq_view(acc@);
        proof {
            assert(full.skip(i as int)[0] == ps@[i as int]@);
            assert(full.skip(i as int).skip(1) =~= full.skip(i as int + 1));
        }
        if !contains_sym(acc, &ps[i]) {
            acc.push(ps[i].clone());
            proof {
                assert(sym_seq_view(acc@) =~= pre.push(ps@[i as int]@));
            }
        }
        i += 1;
    }
    proof {
        assert(full.skip(i as int) =~= Seq::<SymV>::empty());
    }
}

/// Gather every symbol occurring in `expr` (binder parameters included),
/// first occurrence first, each distinct symbol once; see `collect_spec`.
pub fn extract(expr: &Expr) -> (r: Vec<Symbol>)
    ensures
        sym_seq_view(r@) == collect_spec(expr@, Seq::empty()),
{
    let mut syms: Vec<Symbol> = Vec::new();
    proof {
        assert(sym_seq_view(syms@) =~= Seq::<SymV>::empty());
    }
    collect(expr, &mut syms);
    syms
}

} // verus!
