//! Symbol uniquification: a scope-aware rewrite that gives every binder
//! instantiation a globally distinct disambiguator, so that a tree built
//! from possibly-colliding local names can be flattened into one global
//! namespace.
//!
//! The pass keeps, per symbol, a stack of active disambiguators, and per
//! name, a monotonic counter. Entering a lambda pushes one disambiguator
//! per parameter (in declaration order); every symbol reference inside a
//! body is rewritten to the top of its stack; leaving the lambda pops in
//! reverse order. Referencing a symbol with no active binder fails with
//! `UndefinedSymbol`.

use vstd::prelude::*;

use crate::bin_op::BinOp;
use crate::error::{Error, ErrorV};
use crate::expr::{
    Broadcast, Cast, Eval, Expr, ExprV, For, GetField, IfThenElse, Iter, IterV, Lambda, Length,
    Lookup, Merge, Vector,
};
use crate::expr::sym_seq_view;
use crate::sym::{sym_eq, SymV, Symbol};
use vstd::pervasive::VecAdditionalExecFns;
use crate::unary_op::UnaryOp;

verus! {

/// The mathematical view of the uniquifier's state: per-symbol stacks of
/// active disambiguators, and per-name counters.
#[verifier::ext_equal]
pub struct UStateV {
    pub stacks: Seq<(SymV, Seq<u32>)>,
    pub counters: Seq<(Seq<char>, u32)>,
}

/// The index of the first stack entry for `s`, if any.
pub open spec fn stack_idx(st: Seq<(SymV, Seq<u32>)>, s: SymV) -> Option<int>
    decreases st,
{
    if st.len() == 0 {
        None
    } else if st[0].0 == s {
        Some(0)
    } else {
        match stack_idx(st.skip(1), s) {
            Some(i) => Some(i + 1),
            None => None,
        }
    }
}

/// The index of the first counter entry for `name`, if any.
pub open spec fn counter_idx(cs: Seq<(Seq<char>, u32)>, name: Seq<char>) -> Option<int>
    decreases cs,
{
    if cs.len() == 0 {
        None
    } else if cs[0].0 == name {
        Some(0)
    } else {
        match counter_idx(cs.skip(1), name) {
            Some(i) => Some(i + 1),
            None => None,
        }
    }
}

/// The stack of active disambiguators for `s` (empty when `s` has no
/// entry).
pub open spec fn scope_of(u: UStateV, s: SymV) -> Seq<u32> {
    match stack_idx(u.stacks, s) {
        Some(i) => u.stacks[i].1,
        None => Seq::empty(),
    }
}

/// The running counter for `name` (zero when `name` has no entry yet).
pub open spec fn counter_of(u: UStateV, name: Seq<char>) -> u32 {
    match counter_idx(u.counters, name) {
        Some(i) => u.counters[i].1,
        None => 0,
    }
}

/// The disambiguator a push of `sym` assigns: the symbol's own
/// disambiguator when it outruns the name's counter, else the counter
/// plus one.
pub open spec fn assigned_id(u: UStateV, sym: SymV) -> u32 {
    let c0 = counter_of(u, sym.name);
    if sym.id > c0 {
        sym.id
    } else {
        (c0 + 1) as u32
    }
}

/// A push of `sym` stays within the counter range: pushing a name whose
/// counter has reached the maximum would wrap.
pub open spec fn push_ok(u: UStateV, sym: SymV) -> bool {
    sym.id > counter_of(u, sym.name) || counter_of(u, sym.name) < u32::MAX
}

/// The state after pushing a new binder instantiation of `sym`: the
/// name's counter advances to the assigned disambiguator, which is also
/// pushed onto the symbol's stack.
pub open spec fn push_spec(u: UStateV, sym: SymV) -> UStateV {
    let nc = assigned_id(u, sym);
    let stacks = match stack_idx(u.stacks, sym) {
        Some(i) => u.stacks.update(i, (sym, u.stacks[i].1.push(nc))),
        None => u.stacks.push((sym, seq![nc])),
    };
    let counters = match counter_idx(u.counters, sym.name) {
        Some(i) => u.counters.update(i, (sym.name, nc)),
        None => u.counters.push((sym.name, nc)),
    };
    UStateV { stacks, counters }
}

/// What rewriting a reference to `sym` yields: the symbol carrying the
/// disambiguator on top of its stack, or `UndefinedSymbol` when no
/// binder is active.
pub open spec fn get_spec(u: UStateV, sym: SymV) -> Result<SymV, ErrorV> {
    let q = scope_of(u, sym);
    if q.len() == 0 {
        Err(ErrorV::UndefinedSymbol { sym })
    } else {
        Ok(SymV { name: sym.name, ty: sym.ty, id: q.last() })
    }
}

/// The state after popping one binder instantiation of `sym`, or
/// `UndefinedSymbol` when nothing is pushed (a bug guard, not a
/// user-facing error).
pub open spec fn pop_spec(u: UStateV, sym: SymV) -> Result<UStateV, ErrorV> {
    match stack_idx(u.stacks, sym) {
        None => Err(ErrorV::UndefinedSymbol { sym }),
        Some(i) => if u.stacks[i].1.len() == 0 {
            Err(ErrorV::UndefinedSymbol { sym })
        } else {
            Ok(
                UStateV {
                    stacks: u.stacks.update(i, (sym, u.stacks[i].1.drop_last())),
                    counters: u.counters,
                },
            )
        },
    }
}

/// Push and rewrite each parameter, in declaration order.
pub open spec fn params_spec(u: UStateV, ps: Seq<SymV>) -> Result<(UStateV, Seq<SymV>), ErrorV>
    decreases ps.len(),
{
    if ps.len() == 0 {
        Ok((u, Seq::empty()))
    } else if !push_ok(u, ps[0]) {
        Err(ErrorV::UndefinedSymbol { sym: ps[0] })
    } else {
        let u1 = push_spec(u, ps[0]);
        match get_spec(u1, ps[0]) {
            Err(e) => Err(e),
            Ok(p2) => match params_spec(u1, ps.skip(1)) {
                Err(e) => Err(e),
                Ok((u2, rest)) => Ok((u2, seq![p2] + rest)),
            },
        }
    }
}

/// Pop the parameters in reverse declaration order.
pub open spec fn pops_spec(u: UStateV, ps: Seq<SymV>) -> Result<UStateV, ErrorV>
    decreases ps.len(),
{
    if ps.len() == 0 {
        Ok(u)
    } else {
        match pop_spec(u, ps.last()) {
            Err(e) => Err(e),
            Ok(u1) => pops_spec(u1, ps.drop_last()),
        }
    }
}

/// What the scope-aware rewrite yields on `e` in state `u`: every symbol
/// reference is rewritten to its active disambiguator; a lambda pushes
/// its parameters, rewrites its body, and pops them again; every other
/// node rewrites its children left to right.
pub open spec fn transform_spec(u: UStateV, e: ExprV) -> Result<(UStateV, ExprV), ErrorV>
    decreases e,
{
    match e {
        ExprV::Literal(_) => Ok((u, e)),
        ExprV::Symbol(s) => match get_spec(u, s) {
            Err(er) => Err(er),
            Ok(s2) => Ok((u, ExprV::Symbol(s2))),
        },
        ExprV::Broadcast(v) => match transform_spec(u, *v) {
            Err(er) => Err(er),
            Ok((u1, v2)) => Ok((u1, ExprV::Broadcast(Box::new(v2)))),
        },
        ExprV::BinOp { op_ty, left, right } => match transform_spec(u, *left) {
            Err(er) => Err(er),
            Ok((u1, l2)) => match transform_spec(u1, *right) {
                Err(er) => Err(er),
                Ok((u2, r2)) => Ok(
                    (u2, ExprV::BinOp { op_ty, left: Box::new(l2), right: Box::new(r2) }),
                ),
            },
        },
        ExprV::UnaryOp { op_ty, value } => match transform_spec(u, *value) {
            Err(er) => Err(er),
            Ok((u1, v2)) => Ok((u1, ExprV::UnaryOp { op_ty, value: Box::new(v2) })),
        },
        ExprV::Cast { ty, value } => match transform_spec(u, *value) {
            Err(er) => Err(er),
            Ok((u1, v2)) => Ok((u1, ExprV::Cast { ty, value: Box::new(v2) })),
        },
        ExprV::GetField { tuple, index } => match transform_spec(u, *tuple) {
            Err(er) => Err(er),
            Ok((u1, t2)) => Ok((u1, ExprV::GetField { tuple: Box::new(t2), index })),
        },
        ExprV::Length(v) => match transform_spec(u, *v) {
            Err(er) => Err(er),
            Ok((u1, v2)) => Ok((u1, ExprV::Length(Box::new(v2)))),
        },
        ExprV::Lookup { data, index } => match transform_spec(u, *data) {
            Err(er) => Err(er),
            Ok((u1, d2)) => match transform_spec(u1, *index) {
                Err(er) => Err(er),
                Ok((u2, i2)) => Ok(
                    (u2, ExprV::Lookup { data: Box::new(d2), index: Box::new(i2) }),
                ),
            },
        },
        ExprV::IfThenElse { i, t, e: els } => match transform_spec(u, *i) {
            Err(er) => Err(er),
            Ok((u1, i2)) => match transform_spec(u1, *t) {
                Err(er) => Err(er),
                Ok((u2, t2)) => match transform_spec(u2, *els) {
                    Err(er) => Err(er),
                    Ok((u3, e2)) => Ok(
                        (
                            u3,
                            ExprV::IfThenElse {
                                i: Box::new(i2),
                                t: Box::new(t2),
                                e: Box::new(e2),
                            },
                        ),
                    ),
                },
            },
        },
        ExprV::For { iters, builder, func } => match iters_spec(u, iters) {
            Err(er) => Err(er),
            Ok((u1, it2)) => match transform_spec(u1, *builder) {
                Err(er) => Err(er),
                Ok((u2, b2)) => match transform_spec(u2, *func) {
                    Err(er) => Err(er),
                    Ok((u3, f2)) => Ok(
                        (
                            u3,
                            ExprV::For {
                                iters: it2,
                                builder: Box::new(b2),
                                func: Box::new(f2),
                            },
                        ),
                    ),
                },
            },
        },
        ExprV::Merge { builder, value } => match transform_spec(u, *builder) {
            Err(er) => Err(er),
            Ok((u1, b2)) => match transform_spec(u1, *value) {
                Err(er) => Err(er),
                Ok((u2, v2)) => Ok(
                    (u2, ExprV::Merge { builder: Box::new(b2), value: Box::new(v2) }),
                ),
            },
        },
        ExprV::Lambda { params, body } => match params_spec(u, params) {
            Err(er) => Err(er),
            Ok((u1, ps2)) => match transform_spec(u1, *body) {
                Err(er) => Err(er),
                Ok((u2, b2)) => match pops_spec(u2, params) {
                    Err(er) => Err(er),
                    Ok(u3) => Ok((u3, ExprV::Lambda { params: ps2, body: Box::new(b2) })),
                },
            },
        },
        ExprV::NewVector { item_ty, items } => match exprs_spec(u, items) {
            Err(er) => Err(er),
            Ok((u1, it2)) => Ok((u1, ExprV::NewVector { item_ty, items: it2 })),
        },
        ExprV::Eval(v) => match transform_spec(u, *v) {
            Err(er) => Err(er),
            Ok((u1, v2)) => Ok((u1, ExprV::Eval(Box::new(v2)))),
        },
        _ => Ok((u, e)),
    }
}

/// Rewrite a list of expressions left to right, threading the state.
pub open spec fn exprs_spec(u: UStateV, es: Seq<ExprV>) -> Result<(UStateV, Seq<ExprV>), ErrorV>
    decreases es,
{
    if es.len() == 0 {
        Ok((u, Seq::empty()))
    } else {
        match transform_spec(u, es[0]) {
            Err(er) => Err(er),
            Ok((u1, e2)) => match exprs_spec(u1, es.skip(1)) {
                Err(er) => Err(er),
                Ok((u2, rest)) => Ok((u2, seq![e2] + rest)),
            },
        }
    }
}

/// Rewrite a list of data sources left to right, threading the state.
pub open spec fn iters_spec(u: UStateV, its: Seq<IterV>) -> Result<(UStateV, Seq<IterV>), ErrorV>
    decreases its,
{
    if its.len() == 0 {
        Ok((u, Seq::empty()))
    } else {
        match iter_spec(u, its[0]) {
            Err(er) => Err(er),
            Ok((u1, i2)) => match iters_spec(u1, its.skip(1)) {
                Err(er) => Err(er),
                Ok((u2, rest)) => Ok((u2, seq![i2] + rest)),
            },
        }
    }
}

/// Rewrite one data source: its data, then its optional bounds.
pub open spec fn iter_spec(u: UStateV, it: IterV) -> Result<(UStateV, IterV), ErrorV>
    decreases it,
{
    match transform_spec(u, *it.data) {
        Err(er) => Err(er),
        Ok((u1, d2)) => match it.start {
            Some(s) => match transform_spec(u1, *s) {
                Err(er) => Err(er),
                Ok((u2, s2)) => match it.end {
                    Some(en) => match transform_spec(u2, *en) {
                        Err(er) => Err(er),
                        Ok((u3, e2)) => Ok(
                            (
                                u3,
                                IterV {
                                    data: Box::new(d2),
                                    start: Some(Box::new(s2)),
                                    end: Some(Box::new(e2)),
                                },
                            ),
                        ),
                    },
                    None => Ok(
                        (u2, IterV { data: Box::new(d2), start: Some(Box::new(s2)), end: None }),
                    ),
                },
            },
            None => match it.end {
                Some(en) => match transform_spec(u1, *en) {
                    Err(er) => Err(er),
                    Ok((u2, e2)) => Ok(
                        (u2, IterV { data: Box::new(d2), start: None, end: Some(Box::new(e2)) }),
                    ),
                },
                None => Ok((u1, IterV { data: Box::new(d2), start: None, end: None })),
            },
        },
    }
}

/// The uniquifier's executable state; see `UStateV`.
struct Uniquifier {
    stack: Vec<(Symbol, Vec<u32>)>,
    next_unique_id: Vec<(String, u32)>,
}

/// The views of the stack entries.
pub open spec fn stack_seq_view(s: Seq<(Symbol, Vec<u32>)>) -> Seq<(SymV, Seq<u32>)>
    decreases s,
{
    if s.len() == 0 {
        Seq::empty()
    } else {
        seq![(s[0].0@, s[0].1@)] + stack_seq_view(s.skip(1))
    }
}

/// The views of the counter entries.
pub open spec fn counter_seq_view(s: Seq<(String, u32)>) -> Seq<(Seq<char>, u32)>
    decreases s,
{
    if s.len() == 0 {
        Seq::empty()
    } else {
        seq![(s[0].0@, s[0].1)] + counter_seq_view(s.skip(1))
    }
}

/// A list of views is as long as the list it views.
proof fn lemma_stack_seq_view_len(s: Seq<(Symbol, Vec<u32>)>)
    ensures
        stack_seq_view(s).len() == s.len(),
    decreases s,
{
    if s.len() != 0 {
        lemma_stack_seq_view_len(s.skip(1));
    }
}

/// A list of views holds, position by position, the views of the list
/// it views.
proof fn lemma_stack_seq_view_index(s: Seq<(Symbol, Vec<u32>)>, i: int)
    requires
        0 <= i < s.len(),
    ensures
        stack_seq_view(s)[i] == (s[i].0@, s[i].1@),
    decreases s,
{
    lemma_stack_seq_view_len(s);
    if i > 0 {
        lemma_stack_seq_view_index(s.skip(1), i - 1);
    }
}

/// A list of views is as long as the list it views.
proof fn lemma_counter_seq_view_len(s: Seq<(String, u32)>)
    ensures
        counter_seq_view(s).len() == s.len(),
    decreases s,
{
    if s.len() != 0 {
        lemma_counter_seq_view_len(s.skip(1));
    }
}

/// A list of views holds, position by position, the views of the list
/// it views.
proof fn lemma_counter_seq_view_index(s: Seq<(String, u32)>, i: int)
    requires
        0 <= i < s.len(),
    ensures
        counter_seq_view(s)[i] == (s[i].0@, s[i].1),
    decreases s,
{
    lemma_counter_seq_view_len(s);
    if i > 0 {
        lemma_counter_seq_view_index(s.skip(1), i - 1);
    }
}

impl View for Uniquifier {
    type V = UStateV;

    closed spec fn view(&self) -> UStateV {
        UStateV {
            stacks: stack_seq_view(self.stack@),
            counters: counter_seq_view(self.next_unique_id@),
        }
    }
}

/// The first stack index whose symbol matches `s`, scanning forward.
fn find_stack_entry(v: &Vec<(Symbol, Vec<u32>)>, s: &Symbol) -> (r: Option<usize>)
    ensures
        match r {
            Some(i) => i < v@.len() && stack_idx(stack_seq_view(v@), s@) == Some(i as int),
            None => stack_idx(stack_seq_view(v@), s@) is None,
        },
{
    let ghost m = stack_seq_view(v@);
    proof {
        lemma_stack_seq_view_len(v@);
    }
    let mut i: usize = 0;
    while i < v.len()
        invariant
            i <= v@.len(),
            m == stack_seq_view(v@),
            m.len() == v@.len(),
            forall|k: int| 0 <= k < i ==> #[trigger] m[k].0 != s@,
        decreases v@.len() - i,
    {
        proof {
            lemma_stack_seq_view_len(v@);
            lemma_stack_seq_view_index(v@, i as int);
        }
        if sym_eq(&v[i].0, s) {
            proof {
                lemma_stack_idx_prefix(m, s@, i as int);
            }
            return Some(i);
        }
        i += 1;
    }
    proof {
        lemma_stack_idx_prefix(m, s@, i as int);
    }
    None
}

/// A found index lies in range and names the symbol searched for.
proof fn lemma_stack_idx_valid(m: Seq<(SymV, Seq<u32>)>, s: SymV)
    ensures
        stack_idx(m, s) matches Some(i) ==> 0 <= i < m.len() && m[i].0 == s,
    decreases m,
{
    if m.len() > 0 && m[0].0 != s {
        lemma_stack_idx_valid(m.skip(1), s);
    }
}

/// A found index lies in range and names the name searched for.
proof fn lemma_counter_idx_valid(m: Seq<(Seq<char>, u32)>, name: Seq<char>)
    ensures
        counter_idx(m, name) matches Some(i) ==> 0 <= i < m.len() && m[i].0 == name,
    decreases m,
{
    if m.len() > 0 && m[0].0 != name {
        lemma_counter_idx_valid(m.skip(1), name);
    }
}

/// With no match before `i`, the first match of `s` is the first match
/// at or after `i`.
proof fn lemma_stack_idx_prefix(m: Seq<(SymV, Seq<u32>)>, s: SymV, i: int)
    requires
        0 <= i <= m.len(),
        forall|k: int| 0 <= k < i ==> m[k].0 != s,
    ensures
        i < m.len() && m[i].0 == s ==> stack_idx(m, s) == Some(i),
        i == m.len() ==> stack_idx(m, s) is None,
    decreases i,
{
    if i == 0 {
        if 0 < m.len() && m[0].0 == s {
        } else if m.len() == 0 {
        }
    } else {
        lemma_stack_idx_prefix(m.skip(1), s, i - 1);
        assert(forall|k: int| 0 <= k < i - 1 ==> m.skip(1)[k].0 != s);
        assert(m[0].0 != s);
        if i < m.len() && m[i].0 == s {
            assert(m.skip(1)[i - 1].0 == s);
        }
    }
}

/// The first counter index whose name matches, scanning forward.
fn find_counter_entry(v: &Vec<(String, u32)>, name: &String) -> (r: Option<usize>)
    ensures
        match r {
            Some(i) => i < v@.len() && counter_idx(counter_seq_view(v@), name@) == Some(i as int),
            None => counter_idx(counter_seq_view(v@), name@) is None,
        },
{
    let ghost m = counter_seq_view(v@);
    proof {
        lemma_counter_seq_view_len(v@);
    }
    let mut i: usize = 0;
    while i < v.len()
        invariant
            i <= v@.len(),
            m == counter_seq_view(v@),
            m.len() == v@.len(),
            forall|k: int| 0 <= k < i ==> #[trigger] m[k].0 != name@,
        decreases v@.len() - i,
    {
        proof {
            lemma_counter_seq_view_len(v@);
            lemma_counter_seq_view_index(v@, i as int);
        }
        if v[i].0.eq(name) {
            proof {
                lemma_counter_idx_prefix(m, name@, i as int);
            }
            return Some(i);
        }
        i += 1;
    }
    proof {
        lemma_counter_idx_prefix(m, name@, i as int);
    }
    None
}

/// With no match before `i`, the first match of `name` is the first
/// match at or after `i`.
proof fn lemma_counter_idx_prefix(m: Seq<(Seq<char>, u32)>, name: Seq<char>, i: int)
    requires
        0 <= i <= m.len(),
        forall|k: int| 0 <= k < i ==> m[k].0 != name,
    ensures
        i < m.len() && m[i].0 == name ==> counter_idx(m, name) == Some(i),
        i == m.len() ==> counter_idx(m, name) is None,
    decreases i,
{
    if i == 0 {
    } else {
        lemma_counter_idx_prefix(m.skip(1), name, i - 1);
        assert(forall|k: int| 0 <= k < i - 1 ==> m.skip(1)[k].0 != name);
        if i < m.len() && m[i].0 == name {
            assert(m.skip(1)[i - 1].0 == name);
        }
    }
}

impl Uniquifier {
    /// A fresh state: no active binders, no counters.
    fn new() -> (res: Uniquifier)
        ensures
            res@.stacks.len() == 0,
            res@.counters.len() == 0,
    {
        let res = Uniquifier { stack: Vec::new(), next_unique_id: Vec::new() };
        proof {
            lemma_stack_seq_view_len(res.stack@);
            lemma_counter_seq_view_len(res.next_unique_id@);
        }
        res
    }

    /// Push a new binder instantiation of `sym`; see `push_spec`. Fails
    /// only when the name's counter is exhausted.
    fn push(&mut self, sym: &Symbol) -> (r: Result<(), Error>)
        ensures
            match r {
                Ok(_) => push_ok(old(self)@, sym@) && final(self)@ == push_spec(old(self)@, sym@),
                Err(e) => !push_ok(old(self)@, sym@) && final(self)@ == old(self)@ && e@ == (
                ErrorV::UndefinedSymbol { sym: sym@ }),
            },
    {
        let ghost u0 = self@;
        let c0: u32 = match find_counter_entry(&self.next_unique_id, &sym.name) {
            Some(i) => self.next_unique_id[i].1,
            None => 0,
        };
        proof {
            lemma_counter_idx_valid(u0.counters, sym@.name);
            assert(c0 == counter_of(u0, sym@.name)) by {
                match counter_idx(u0.counters, sym@.name) {
                    Some(i) => {
                        lemma_counter_seq_view_index(self.next_unique_id@, i);
                    },
                    None => {
                    },
                }
            }
        }
        if !(sym.id > c0) && c0 == u32::MAX {
            return Err(Error::UndefinedSymbol { sym: sym.clone() });
        }
        let nc: u32 = if sym.id > c0 {
            sym.id
        } else {
            c0 + 1
        };
        proof {
            assert(nc == assigned_id(u0, sym@));
        }
        match find_counter_entry(&self.next_unique_id, &sym.name) {
            Some(i) => {
                let name2 = sym.name.clone();
                self.next_unique_id.set(i, (name2, nc));
                proof {
                    lemma_counter_view_update(old(self).next_unique_id@, i as int, (sym.name, nc));
                }
            },
            None => {
                let name2 = sym.name.clone();
                self.next_unique_id.push((name2, nc));
                proof {
                    lemma_counter_view_push(old(self).next_unique_id@, (sym.name, nc));
                }
            },
        }
        match find_stack_entry(&self.stack, sym) {
            Some(i) => {
                proof {
                    lemma_stack_idx_valid(u0.stacks, sym@);
                    lemma_stack_seq_view_index(old(self).stack@, i as int);
                }
                let sym2 = self.stack[i].0.clone();
                let mut q = copy_u32_vec(&self.stack[i].1);
                q.push(nc);
                self.stack.set(i, (sym2, q));
                proof {
                    lemma_stack_view_update(old(self).stack@, i as int, self.stack@[i as int]);
                    assert(u0.stacks[i as int].0 == sym@);
                    assert(self@.stacks =~= push_spec(u0, sym@).stacks);
                }
            },
            None => {
                let s2 = sym.clone();
                let mut q: Vec<u32> = Vec::new();
                q.push(nc);
                self.stack.push((s2, q));
                proof {
                    lemma_stack_view_push(old(self).stack@, self.stack@.last());
                    assert(q@ =~= seq![nc]);
                    assert(self@.stacks =~= push_spec(u0, sym@).stacks);
                }
            },
        }
        proof {
            assert(self@.counters =~= push_spec(u0, sym@).counters);
            assert(self@ =~= push_spec(u0, sym@));
        }
        Ok(())
    }

    /// Rewrite a reference to `sym` to its active disambiguator; see
    /// `get_spec`.
    fn get(&self, sym: &Symbol) -> (r: Result<Symbol, Error>)
        ensures
            match r {
                Ok(s2) => get_spec(self@, sym@) == Ok::<SymV, ErrorV>(s2@),
                Err(e) => get_spec(self@, sym@) == Err::<SymV, ErrorV>(e@),
            },
    {
        match find_stack_entry(&self.stack, sym) {
            None => Err(Error::UndefinedSymbol { sym: sym.clone() }),
            Some(i) => {
                proof {
                    lemma_stack_idx_valid(self@.stacks, sym@);
                    lemma_stack_seq_view_index(self.stack@, i as int);
                }
                if self.stack[i].1.len() == 0 {
                    Err(Error::UndefinedSymbol { sym: sym.clone() })
                } else {
                    let id = self.stack[i].1[self.stack[i].1.len() - 1];
                    let res = Symbol { name: sym.name.clone(), ty: sym.ty.clone(), id };
                    proof {
                        assert(res@ =~= get_spec(self@, sym@)->Ok_0);
                    }
                    Ok(res)
                }
            },
        }
    }

    /// Pop one binder instantiation of `sym`; see `pop_spec`.
    fn pop(&mut self, sym: &Symbol) -> (r: Result<(), Error>)
        ensures
            match r {
                Ok(_) => pop_spec(old(self)@, sym@) == Ok::<UStateV, ErrorV>(final(self)@),
                Err(e) => pop_spec(old(self)@, sym@) == Err::<UStateV, ErrorV>(e@) && final(self)@
                    == old(self)@,
            },
    {
        let ghost u0 = self@;
        match find_stack_entry(&self.stack, sym) {
            None => Err(Error::UndefinedSymbol { sym: sym.clone() }),
            Some(i) => {
                proof {
                    lemma_stack_idx_valid(u0.stacks, sym@);
                    lemma_stack_seq_view_index(self.stack@, i as int);
                }
                if self.stack[i].1.len() == 0 {
                    Err(Error::UndefinedSymbol { sym: sym.clone() })
                } else {
                    let sym2 = self.stack[i].0.clone();
                    let mut q = copy_u32_vec(&self.stack[i].1);
                    q.pop();
                    self.stack.set(i, (sym2, q));
                    proof {
                        lemma_stack_view_update(old(self).stack@, i as int, self.stack@[i as int]);
                        assert(self.stack@[i as int].1@ =~= u0.stacks[i as int].1.drop_last());
                        assert(self@.stacks =~= pop_spec(u0, sym@)->Ok_0.stacks);
                        assert(self@ =~= pop_spec(u0, sym@)->Ok_0);
                    }
                    Ok(())
                }
            },
        }
    }
}

/// A plain copy of a list of disambiguators.
fn copy_u32_vec(v: &Vec<u32>) -> (res: Vec<u32>)
    ensures
        res@ == v@,
{
    let mut out: Vec<u32> = Vec::new();
    let mut i: usize = 0;
    while i < v.len()
        invariant
            i <= v@.len(),
            out@.len() == i,
            forall|k: int| 0 <= k < i ==> out@[k] == v@[k],
        decreases v@.len() - i,
    {
        out.push(v[i]);
        i += 1;
    }
    proof {
        assert(out@ =~= v@);
    }
    out
}

/// Updating one entry updates the same position of the view.
proof fn lemma_stack_view_update(s: Seq<(Symbol, Vec<u32>)>, i: int, x: (Symbol, Vec<u32>))
    requires
        0 <= i < s.len(),
    ensures
        stack_seq_view(s.update(i, x)) =~= stack_seq_view(s).update(i, (x.0@, x.1@)),
    decreases s,
{
    lemma_stack_seq_view_len(s);
    lemma_stack_seq_view_len(s.update(i, x));
    assert forall|k: int| 0 <= k < s.len() implies stack_seq_view(s.update(i, x))[k]
        == stack_seq_view(s).update(i, (x.0@, x.1@))[k] by {
        lemma_stack_seq_view_index(s.update(i, x), k);
        lemma_stack_seq_view_index(s, k);
    }
}

/// Appending one entry appends its view.
proof fn lemma_stack_view_push(s: Seq<(Symbol, Vec<u32>)>, x: (Symbol, Vec<u32>))
    ensures
        stack_seq_view(s.push(x)) =~= stack_seq_view(s).push((x.0@, x.1@)),
{
    lemma_stack_seq_view_len(s);
    lemma_stack_seq_view_len(s.push(x));
    assert forall|k: int| 0 <= k < s.len() + 1 implies stack_seq_view(s.push(x))[k]
        == stack_seq_view(s).push((x.0@, x.1@))[k] by {
        lemma_stack_seq_view_index(s.push(x), k);
        if k < s.len() {
            lemma_stack_seq_view_index(s, k);
        }
    }
}

/// Updating one entry updates the same position of the view.
proof fn lemma_counter_view_update(s: Seq<(String, u32)>, i: int, x: (String, u32))
    requires
        0 <= i < s.len(),
    ensures
        counter_seq_view(s.update(i, x)) =~= counter_seq_view(s).update(i, (x.0@, x.1)),
{
    lemma_counter_seq_view_len(s);
    lemma_counter_seq_view_len(s.update(i, x));
    assert forall|k: int| 0 <= k < s.len() implies counter_seq_view(s.update(i, x))[k]
        == counter_seq_view(s).update(i, (x.0@, x.1))[k] by {
        lemma_counter_seq_view_index(s.update(i, x), k);
        lemma_counter_seq_view_index(s, k);
    }
}

/// Appending one entry appends its view.
proof fn lemma_counter_view_push(s: Seq<(String, u32)>, x: (String, u32))
    ensures
        counter_seq_view(s.push(x)) =~= counter_seq_view(s).push((x.0@, x.1)),
{
    lemma_counter_seq_view_len(s);
    lemma_counter_seq_view_len(s.push(x));
    assert forall|k: int| 0 <= k < s.len() + 1 implies counter_seq_view(s.push(x))[k]
        == counter_seq_view(s).push((x.0@, x.1))[k] by {
        lemma_counter_seq_view_index(s.push(x), k);
        if k < s.len() {
            lemma_counter_seq_view_index(s, k);
        }
    }
}


impl Uniquifier {
    /// Rewrite one expression; see `transform_spec`.
    #[verifier::rlimit(100)]
    #[verifier::spinoff_prover]
    fn transform_expr(&mut self, e: Expr) -> (r: Result<Expr, Error>)
        ensures
            match r {
                Ok(e2) => transform_spec(old(self)@, e@) == Ok::<(UStateV, ExprV), ErrorV>(
                    (final(self)@, e2@),
                ),
                Err(er) => transform_spec(old(self)@, e@) == Err::<(UStateV, ExprV), ErrorV>(er@),
            },
        decreases e,
    {
        let ghost ev = e@;
        match e {
            Expr::Literal(l) => Ok(Expr::Literal(l)),
            Expr::Symbol(s) => match self.get(&s) {
                Ok(s2) => Ok(Expr::Symbol(s2)),
                Err(er) => Err(er),
            },
            Expr::Broadcast(b) => {
                let v2 = match self.transform_expr(*b.value) {
                    Ok(x) => x,
                    Err(er) => {
                        return Err(er);
                    },
                };
                Ok(Expr::Broadcast(Broadcast { value: Box::new(v2) }))
            },
            Expr::BinOp(b) => {
                let BinOp { op_ty, left, right } = b;
                let l2 = match self.transform_expr(*left) {
                    Ok(x) => x,
                    Err(er) => {
                        return Err(er);
                    },
                };
                let r2 = match self.transform_expr(*right) {
                    Ok(x) => x,
                    Err(er) => {
                        return Err(er);
                    },
                };
                Ok(Expr::BinOp(BinOp { op_ty, left: Box::new(l2), right: Box::new(r2) }))
            },
            Expr::UnaryOp(u) => {
                let UnaryOp { op_ty, value } = u;
                let v2 = match self.transform_expr(*value) {
                    Ok(x) => x,
                    Err(er) => {
                        return Err(er);
                    },
                };
                Ok(Expr::UnaryOp(UnaryOp { op_ty, value: Box::new(v2) }))
            },
            Expr::Cast(c) => {
                let Cast { ty, value } = c;
                let v2 = match self.transform_expr(*value) {
                    Ok(x) => x,
                    Err(er) => {
                        return Err(er);
                    },
                };
                Ok(Expr::Cast(Cast { ty, value: Box::new(v2) }))
            },
            Expr::GetField(g) => {
                let GetField { tuple, index } = g;
                let t2 = match self.transform_expr(*tuple) {
                    Ok(x) => x,
                    Err(er) => {
                        return Err(er);
                    },
                };
                Ok(Expr::GetField(GetField { tuple: Box::new(t2), index }))
            },
            Expr::Length(l) => {
                let v2 = match self.transform_expr(*l.0) {
                    Ok(x) => x,
                    Err(er) => {
                        return Err(er);
                    },
                };
                Ok(Expr::Length(Length(Box::new(v2))))
            },
            Expr::Lookup(lk) => {
                let Lookup { data, index } = lk;
                let d2 = match self.transform_expr(*data) {
                    Ok(x) => x,
                    Err(er) => {
                        return Err(er);
                    },
                };
                let i2 = match self.transform_expr(*index) {
                    Ok(x) => x,
                    Err(er) => {
                        return Err(er);
                    },
                };
                Ok(Expr::Lookup(Lookup { data: Box::new(d2), index: Box::new(i2) }))
            },
            Expr::IfThenElse(ite) => {
                let IfThenElse { i, t, e: els } = ite;
                let i2 = match self.transform_expr(*i) {
                    Ok(x) => x,
                    Err(er) => {
                        return Err(er);
                    },
                };
                let t2 = match self.transform_expr(*t) {
                    Ok(x) => x,
                    Err(er) => {
                        return Err(er);
                    },
                };
                let e2 = match self.transform_expr(*els) {
                    Ok(x) => x,
                    Err(er) => {
                        return Err(er);
                    },
                };
                Ok(
                    Expr::IfThenElse(
                        IfThenElse { i: Box::new(i2), t: Box::new(t2), e: Box::new(e2) },
                    ),
                )
            },
            Expr::For(f) => {
                let For { iters, builder, func } = f;
                let it2 = match self.transform_iters(iters) {
                    Ok(x) => x,
                    Err(er) => {
                        return Err(er);
                    },
                };
                let b2 = match self.transform_expr(*builder) {
                    Ok(x) => x,
                    Err(er) => {
                        return Err(er);
                    },
                };
                let f2 = match self.transform_expr(*func) {
                    Ok(x) => x,
                    Err(er) => {
                        return Err(er);
                    },
                };
                let out = Expr::For(For { iters: it2, builder: Box::new(b2), func: Box::new(f2) });
                proof {
                    assert(out@->For_iters =~= transform_spec(old(self)@, ev)->Ok_0.1->For_iters);
                    assert(out@ =~= transform_spec(old(self)@, ev)->Ok_0.1);
                }
                Ok(out)
            },
            Expr::Merge(m) => {
                let Merge { builder, value } = m;
                let b2 = match self.transform_expr(*builder) {
                    Ok(x) => x,
                    Err(er) => {
                        return Err(er);
                    },
                };
                let v2 = match self.transform_expr(*value) {
                    Ok(x) => x,
                    Err(er) => {
                        return Err(er);
                    },
                };
                Ok(Expr::Merge(Merge { builder: Box::new(b2), value: Box::new(v2) }))
            },
            Expr::Lambda(lm) => {
                let Lambda { params, body } = lm;
                proof {
                    assert(sym_seq_view(params@).skip(0) =~= sym_seq_view(params@));
                }
                let ps2 = match self.transform_params(&params, 0) {
                    Ok(x) => x,
                    Err(er) => {
                        return Err(er);
                    },
                };
                let b2 = match self.transform_expr(*body) {
                    Ok(x) => x,
                    Err(er) => {
                        return Err(er);
                    },
                };
                proof {
                    assert(sym_seq_view(params@).take(params@.len() as int) =~= sym_seq_view(
                        params@,
                    ));
                }
                match self.pop_params(&params, params.len()) {
                    Ok(_) => {
                    },
                    Err(er) => {
                        return Err(er);
                    },
                };
                let out = Expr::Lambda(Lambda { params: ps2, body: Box::new(b2) });
                proof {
                    assert(out@->Lambda_params =~= transform_spec(
                        old(self)@,
                        ev,
                    )->Ok_0.1->Lambda_params);
                    assert(out@ =~= transform_spec(old(self)@, ev)->Ok_0.1);
                }
                Ok(out)
            },
            Expr::NewVector(v) => {
                let Vector { item_ty, items } = v;
                let it2 = match self.transform_exprs(items) {
                    Ok(x) => x,
                    Err(er) => {
                        return Err(er);
                    },
                };
                let out = Expr::NewVector(Vector { item_ty, items: it2 });
                proof {
                    assert(out@->NewVector_items =~= transform_spec(
                        old(self)@,
                        ev,
                    )->Ok_0.1->NewVector_items);
                    assert(out@ =~= transform_spec(old(self)@, ev)->Ok_0.1);
                }
                Ok(out)
            },
            Expr::Eval(evx) => {
                let v2 = match self.transform_expr(*evx.0) {
                    Ok(x) => x,
                    Err(er) => {
                        return Err(er);
                    },
                };
                Ok(Expr::Eval(Eval(Box::new(v2))))
            },
            other => Ok(other),
        }
    }

    /// Rewrite a list of expressions left to right; see `exprs_spec`.
    #[verifier::rlimit(100)]
    #[verifier::spinoff_prover]
    fn transform_exprs(&mut self, v: Vec<Expr>) -> (r: Result<Vec<Expr>, Error>)
        ensures
            match r {
                Ok(v2) => exprs_spec(old(self)@, crate::expr::expr_seq_view(v@)) == Ok::<
                    (UStateV, Seq<ExprV>),
                    ErrorV,
                >((final(self)@, crate::expr::expr_seq_view(v2@))),
                Err(er) => exprs_spec(old(self)@, crate::expr::expr_seq_view(v@)) == Err::<
                    (UStateV, Seq<ExprV>),
                    ErrorV,
                >(er@),
            },
        decreases v@,
    {
        broadcast use crate::expr::lemma_expr_seq_view_len, crate::expr::lemma_expr_seq_view_index;

        let mut v = v;
        if v.len() == 0 {
            proof {
                assert(crate::expr::expr_seq_view(v@) =~= Seq::<ExprV>::empty());
            }
            return Ok(v);
        }
        let ghost v0 = v@;
        let first = v.remove(0);
        proof {
            assert(v@ =~= v0.skip(1));
            assert(crate::expr::expr_seq_view(v0)[0] == first@);
            assert(crate::expr::expr_seq_view(v0).skip(1) =~= crate::expr::expr_seq_view(v@));
        }
        let first2 = match self.transform_expr(first) {
            Ok(x) => x,
            Err(er) => {
                return Err(er);
            },
        };
        let rest2 = match self.transform_exprs(v) {
            Ok(x) => x,
            Err(er) => {
                return Err(er);
            },
        };
        let mut out = rest2;
        out.insert(0, first2);
        proof {
            assert(crate::expr::expr_seq_view(out@) =~= seq![first2@] + crate::expr::expr_seq_view(
                out@.skip(1),
            ));
            assert(out@.skip(1) =~= rest2@);
        }
        Ok(out)
    }

    /// Rewrite a list of data sources left to right; see `iters_spec`.
    #[verifier::rlimit(100)]
    #[verifier::spinoff_prover]
    fn transform_iters(&mut self, v: Vec<Iter>) -> (r: Result<Vec<Iter>, Error>)
        ensures
            match r {
                Ok(v2) => iters_spec(old(self)@, crate::expr::iter_seq_view(v@)) == Ok::<
                    (UStateV, Seq<IterV>),
                    ErrorV,
                >((final(self)@, crate::expr::iter_seq_view(v2@))),
                Err(er) => iters_spec(old(self)@, crate::expr::iter_seq_view(v@)) == Err::<
                    (UStateV, Seq<IterV>),
                    ErrorV,
                >(er@),
            },
        decreases v@,
    {
        broadcast use crate::expr::lemma_iter_seq_view_len, crate::expr::lemma_iter_seq_view_index;

        let mut v = v;
        if v.len() == 0 {
            proof {
                assert(crate::expr::iter_seq_view(v@) =~= Seq::<IterV>::empty());
            }
            return Ok(v);
        }
        let ghost v0 = v@;
        let first = v.remove(0);
        proof {
            assert(v@ =~= v0.skip(1));
            assert(crate::expr::iter_seq_view(v0)[0] == first@);
            assert(crate::expr::iter_seq_view(v0).skip(1) =~= crate::expr::iter_seq_view(v@));
        }
        let first2 = match self.transform_iter(first) {
            Ok(x) => x,
            Err(er) => {
                return Err(er);
            },
        };
        let rest2 = match self.transform_iters(v) {
            Ok(x) => x,
            Err(er) => {
                return Err(er);
            },
        };
        let mut out = rest2;
        out.insert(0, first2);
        proof {
            assert(crate::expr::iter_seq_view(out@) =~= seq![first2@] + crate::expr::iter_seq_view(
                out@.skip(1),
            ));
            assert(out@.skip(1) =~= rest2@);
        }
        Ok(out)
    }

    /// Rewrite one data source; see `iter_spec`.
    #[verifier::rlimit(100)]
    #[verifier::spinoff_prover]
    fn transform_iter(&mut self, it: Iter) -> (r: Result<Iter, Error>)
        ensures
            match r {
                Ok(it2) => iter_spec(old(self)@, it@) == Ok::<(UStateV, IterV), ErrorV>(
                    (final(self)@, it2@),
                ),
                Err(er) => iter_spec(old(self)@, it@) == Err::<(UStateV, IterV), ErrorV>(er@),
            },
        decreases it,
    {
        let Iter { data, start, end } = it;
        let d2 = match self.transform_expr(*data) {
            Ok(x) => x,
            Err(er) => {
                return Err(er);
            },
        };
        let s2 = match start {
            Some(b) => match self.transform_expr(*b) {
                Ok(x) => Some(Box::new(x)),
                Err(er) => {
                    return Err(er);
                },
            },
            None => None,
        };
        let e2 = match end {
            Some(b) => match self.transform_expr(*b) {
                Ok(x) => Some(Box::new(x)),
                Err(er) => {
                    return Err(er);
                },
            },
            None => None,
        };
        Ok(Iter { data: Box::new(d2), start: s2, end: e2 })
    }

    /// Push and rewrite the parameters from position `i` on; see
    /// `params_spec`.
    #[verifier::rlimit(100)]
    #[verifier::spinoff_prover]
    fn transform_params(&mut self, ps: &Vec<Symbol>, i: usize) -> (r: Result<Vec<Symbol>, Error>)
        requires
            i <= ps@.len(),
        ensures
            match r {
                Ok(v2) => params_spec(old(self)@, sym_seq_view(ps@).skip(i as int)) == Ok::<
                    (UStateV, Seq<SymV>),
                    ErrorV,
                >((final(self)@, sym_seq_view(v2@))),
                Err(er) => params_spec(old(self)@, sym_seq_view(ps@).skip(i as int)) == Err::<
                    (UStateV, Seq<SymV>),
                    ErrorV,
                >(er@),
            },
        decreases ps@.len() - i,
    {
        let ghost tail = sym_seq_view(ps@).skip(i as int);
        if i == ps.len() {
            let out: Vec<Symbol> = Vec::new();
            proof {
                assert(tail =~= Seq::<SymV>::empty());
                assert(sym_seq_view(out@) =~= Seq::<SymV>::empty());
            }
            return Ok(out);
        }
        proof {
            assert(tail[0] == ps@[i as int]@);
        }
        match self.push(&ps[i]) {
            Ok(_) => {
            },
            Err(er) => {
                return Err(er);
            },
        };
        let p2 = match self.get(&ps[i]) {
            Ok(x) => x,
            Err(er) => {
                return Err(er);
            },
        };
        proof {
            assert(sym_seq_view(ps@).skip(i as int).skip(1) =~= sym_seq_view(ps@).skip(
                i as int + 1,
            ));
        }
        let rest2 = match self.transform_params(ps, i + 1) {
            Ok(x) => x,
            Err(er) => {
                return Err(er);
            },
        };
        let mut out = rest2;
        out.insert(0, p2);
        proof {
            assert(sym_seq_view(out@) =~= seq![p2@] + sym_seq_view(out@.skip(1)));
            assert(out@.skip(1) =~= rest2@);
            assert(sym_seq_view(out@.skip(1)) =~= sym_seq_view(rest2@));
        }
        Ok(out)
    }

    /// Pop the first `j` parameters, in reverse order; see `pops_spec`.
    #[verifier::rlimit(100)]
    #[verifier::spinoff_prover]
    fn pop_params(&mut self, ps: &Vec<Symbol>, j: usize) -> (r: Result<(), Error>)
        requires
            j <= ps@.len(),
        ensures
            match r {
                Ok(_) => pops_spec(old(self)@, sym_seq_view(ps@).take(j as int)) == Ok::<
                    UStateV,
                    ErrorV,
                >(final(self)@),
                Err(er) => pops_spec(old(self)@, sym_seq_view(ps@).take(j as int)) == Err::<
                    UStateV,
                    ErrorV,
                >(er@),
            },
        decreases j,
    {
        let ghost pre = sym_seq_view(ps@).take(j as int);
        if j == 0 {
            proof {
                assert(pre =~= Seq::<SymV>::empty());
            }
            return Ok(());
        }
        proof {
            assert(pre.last() == ps@[j - 1]@);
            assert(pre.drop_last() =~= sym_seq_view(ps@).take(j - 1));
        }
        match self.pop(&ps[j - 1]) {
            Ok(_) => {
            },
            Err(er) => {
                return Err(er);
            },
        };
        self.pop_params(ps, j - 1)
    }
}

/// The state the uniquifier starts from: no binders, no counters.
pub open spec fn init_ustate() -> UStateV {
    UStateV { stacks: Seq::empty(), counters: Seq::empty() }
}

/// Uniquify the symbols of `expr` in place: starting from an empty
/// scope, rewrite every binder and reference so that distinct binder
/// instantiations carry globally distinct disambiguators (see
/// `transform_spec`). A reference with no enclosing binder fails with
/// `UndefinedSymbol`; on an error the tree is left as it was.
pub fn uniquify(expr: &mut Expr) -> (r: Result<(), Error>)
    ensures
        match r {
            Ok(_) => (transform_spec(init_ustate(), old(expr)@) matches Ok(p)
                && p.1 == final(expr)@),
            Err(er) => transform_spec(init_ustate(), old(expr)@) == Err::<
                (UStateV, ExprV),
                ErrorV,
            >(er@) && final(expr)@ == old(expr)@,
        },
{
    let mut su = Uniquifier::new();
    proof {
        assert(su@ =~= init_ustate());
    }
    let work = expr.clone();
    match su.transform_expr(work) {
        Ok(e2) => {
            *expr = e2;
            Ok(())
        },
        Err(er) => Err(er),
    }
}

/// Uniquify the symbols of `expr` in place; the same rewrite as
/// `uniquify`.
pub fn sym_uniquify(expr: &mut Expr) -> (r: Result<(), Error>)
    ensures
        match r {
            Ok(_) => (transform_spec(init_ustate(), old(expr)@) matches Ok(p)
                && p.1 == final(expr)@),
            Err(er) => transform_spec(init_ustate(), old(expr)@) == Err::<
                (UStateV, ExprV),
                ErrorV,
            >(er@) && final(expr)@ == old(expr)@,
        },
{
    uniquify(expr)
}

/// A reference to a symbol with no active binder fails with
/// `UndefinedSymbol`; in particular, a tree consisting of a free symbol
/// reference fails from the initial (empty) scope.
pub proof fn lemma_unbound_reference_fails(u: UStateV, s: SymV)
    requires
        scope_of(u, s).len() == 0,
    ensures
        transform_spec(u, ExprV::Symbol(s)) == Err::<(UStateV, ExprV), ErrorV>(
            ErrorV::UndefinedSymbol { sym: s },
        ),
{
}

/// From the empty scope, every symbol is unbound.
pub proof fn lemma_init_scope_empty(s: SymV)
    ensures
        scope_of(init_ustate(), s).len() == 0,
{
}


/// Updating the first entry for `name` keeps it the first entry.
proof fn lemma_counter_idx_update(cs: Seq<(Seq<char>, u32)>, name: Seq<char>, i: int, v: u32)
    requires
        counter_idx(cs, name) == Some(i),
    ensures
        counter_idx(cs.update(i, (name, v)), name) == Some(i),
    decreases cs,
{
    lemma_counter_idx_valid(cs, name);
    if cs[0].0 == name {
    } else {
        lemma_counter_idx_update(cs.skip(1), name, i - 1, v);
        assert(cs.update(i, (name, v)).skip(1) =~= cs.skip(1).update(i - 1, (name, v)));
    }
}

/// A name with no entry finds the appended entry.
proof fn lemma_counter_idx_append(cs: Seq<(Seq<char>, u32)>, name: Seq<char>, v: u32)
    requires
        counter_idx(cs, name) is None,
    ensures
        counter_idx(cs.push((name, v)), name) == Some(cs.len() as int),
    decreases cs,
{
    if cs.len() == 0 {
        assert(cs.push((name, v))[0].0 == name);
    } else {
        lemma_counter_idx_append(cs.skip(1), name, v);
        assert(cs.push((name, v)).skip(1) =~= cs.skip(1).push((name, v)));
    }
}

/// A push advances the pushed name's counter strictly: the assigned
/// disambiguator always exceeds the counter it was computed from.
pub proof fn lemma_push_advances(u: UStateV, s: SymV)
    requires
        push_ok(u, s),
    ensures
        counter_of(push_spec(u, s), s.name) == assigned_id(u, s),
        assigned_id(u, s) > counter_of(u, s.name),
{
    lemma_counter_idx_valid(u.counters, s.name);
    match counter_idx(u.counters, s.name) {
        Some(i) => {
            lemma_counter_idx_update(u.counters, s.name, i, assigned_id(u, s));
        },
        None => {
            lemma_counter_idx_append(u.counters, s.name, assigned_id(u, s));
        },
    }
}

/// Two binder instantiations of one name pushed in sequence receive
/// distinct disambiguators: the second always exceeds the first,
/// whatever the binders' own declared disambiguators were. This is what
/// makes two sibling loop parameters that share a source name come out
/// as two distinct symbols.
pub proof fn lemma_sibling_binders_distinct(u: UStateV, s1: SymV, s2: SymV)
    requires
        s1.name == s2.name,
        push_ok(u, s1),
        push_ok(push_spec(u, s1), s2),
    ensures
        assigned_id(push_spec(u, s1), s2) > assigned_id(u, s1),
{
    lemma_push_advances(u, s1);
    lemma_push_advances(push_spec(u, s1), s2);
}


/// Updating the first entry for `s` (keeping its key) leaves every
/// first-match index unchanged.
proof fn lemma_stack_idx_update(st: Seq<(SymV, Seq<u32>)>, i: int, q: Seq<u32>, t: SymV)
    requires
        0 <= i < st.len(),
    ensures
        stack_idx(st.update(i, (st[i].0, q)), t) == stack_idx(st, t),
    decreases st,
{
    let st2 = st.update(i, (st[i].0, q));
    assert(st2[0].0 == st[0].0);
    if st[0].0 == t {
    } else {
        if i == 0 {
            assert(st2.skip(1) =~= st.skip(1));
        } else {
            lemma_stack_idx_update(st.skip(1), i - 1, q, t);
            assert(st2.skip(1) =~= st.skip(1).update(i - 1, (st.skip(1)[i - 1].0, q)));
        }
    }
}

/// Appending an entry does not disturb the index of any present symbol,
/// and gives an absent symbol equal to the new key the appended index.
proof fn lemma_stack_idx_append(st: Seq<(SymV, Seq<u32>)>, x: (SymV, Seq<u32>), t: SymV)
    ensures
        stack_idx(st, t) is Some ==> stack_idx(st.push(x), t) == stack_idx(st, t),
        stack_idx(st, t) is None && t == x.0 ==> stack_idx(st.push(x), t) == Some(st.len() as int),
        stack_idx(st, t) is None && t != x.0 ==> stack_idx(st.push(x), t) is None,
    decreases st,
{
    if st.len() == 0 {
        assert(st.push(x)[0] == x);
        assert(st.push(x).skip(1) =~= Seq::<(SymV, Seq<u32>)>::empty());
    } else {
        lemma_stack_idx_append(st.skip(1), x, t);
        assert(st.push(x)[0] == st[0]);
        assert(st.push(x).skip(1) =~= st.skip(1).push(x));
        assert(st.push(x).len() == st.len() + 1);
        if st[0].0 != t && stack_idx(st, t) is None && t != x.0 {
            assert(stack_idx(st.skip(1), t) is None);
            assert(stack_idx(st.skip(1).push(x), t) is None);
            assert(stack_idx(st.push(x).skip(1), t) is None);
            assert(stack_idx(st.push(x), t) is None);
        }
    }
}

/// What a push does to every scope: the pushed symbol's scope gains the
/// assigned disambiguator on top; every other symbol's scope is
/// untouched.
proof fn lemma_push_scope(u: UStateV, s: SymV, t: SymV)
    ensures
        t == s ==> scope_of(push_spec(u, s), t) == scope_of(u, s).push(assigned_id(u, s)),
        t != s ==> scope_of(push_spec(u, s), t) == scope_of(u, t),
{
    lemma_stack_idx_valid(u.stacks, s);
    lemma_stack_idx_valid(u.stacks, t);
    let nc = assigned_id(u, s);
    match stack_idx(u.stacks, s) {
        Some(i) => {
            assert(u.stacks[i].0 == s);
            lemma_stack_idx_update(u.stacks, i, u.stacks[i].1.push(nc), t);
            lemma_stack_idx_valid(push_spec(u, s).stacks, t);
        },
        None => {
            lemma_stack_idx_append(u.stacks, (s, seq![nc]), t);
            if t == s {
                assert(scope_of(u, s) =~= Seq::<u32>::empty());
                assert(scope_of(push_spec(u, s), s) =~= Seq::<u32>::empty().push(nc));
            }
        },
    }
}

/// What a successful pop does to every scope: the popped symbol's scope
/// loses its top; every other symbol's scope is untouched.
proof fn lemma_pop_scope(u: UStateV, s: SymV, t: SymV)
    requires
        pop_spec(u, s) is Ok,
    ensures
        t == s ==> scope_of(pop_spec(u, s)->Ok_0, t) == scope_of(u, s).drop_last(),
        t != s ==> scope_of(pop_spec(u, s)->Ok_0, t) == scope_of(u, t),
{
    lemma_stack_idx_valid(u.stacks, s);
    lemma_stack_idx_valid(u.stacks, t);
    match stack_idx(u.stacks, s) {
        Some(i) => {
            assert(u.stacks[i].0 == s);
            lemma_stack_idx_update(u.stacks, i, u.stacks[i].1.drop_last(), t);
            lemma_stack_idx_valid(pop_spec(u, s)->Ok_0.stacks, t);
        },
        None => {
        },
    }
}

/// Popping a non-empty parameter list pops the suffix first and the
/// head parameter last.
proof fn lemma_pops_cons(u: UStateV, p: SymV, rest: Seq<SymV>)
    ensures
        pops_spec(u, seq![p] + rest) == (match pops_spec(u, rest) {
            Ok(w) => pop_spec(w, p),
            Err(e) => Err(e),
        }),
    decreases rest.len(),
{
    let ps = seq![p] + rest;
    assert(ps.len() == 1 + rest.len());
    if rest.len() == 0 {
        assert(ps.last() == p);
        assert(ps.drop_last() =~= Seq::<SymV>::empty());
        assert(pops_spec(u, rest) == Ok::<UStateV, ErrorV>(u));
        match pop_spec(u, p) {
            Ok(u1) => {
                assert(pops_spec(u, ps) == pops_spec(u1, ps.drop_last()));
                assert(pops_spec(u1, ps.drop_last()) == Ok::<UStateV, ErrorV>(u1));
            },
            Err(e) => {
                assert(pops_spec(u, ps) == Err::<UStateV, ErrorV>(e));
            },
        }
    } else {
        assert(ps.last() == rest.last());
        assert(ps.drop_last() =~= seq![p] + rest.drop_last());
        match pop_spec(u, rest.last()) {
            Ok(u1) => {
                lemma_pops_cons(u1, p, rest.drop_last());
                assert(pops_spec(u, ps) == pops_spec(u1, ps.drop_last()));
                assert(pops_spec(u, rest) == pops_spec(u1, rest.drop_last()));
            },
            Err(e) => {
                assert(pops_spec(u, ps) == Err::<UStateV, ErrorV>(e));
                assert(pops_spec(u, rest) == Err::<UStateV, ErrorV>(e));
            },
        }
    }
}

/// Balanced pushes and pops: if the parameters were pushed from `u`,
/// and an intermediate state `u2` shows the same scopes as the state
/// after the pushes, then a successful reverse pop restores every scope
/// of `u`.
proof fn lemma_pops_balance(u: UStateV, u2: UStateV, ps: Seq<SymV>)
    requires
        params_spec(u, ps) is Ok,
        forall|t: SymV| scope_of(u2, t) == scope_of(params_spec(u, ps)->Ok_0.0, t),
        pops_spec(u2, ps) is Ok,
    ensures
        forall|t: SymV| scope_of(pops_spec(u2, ps)->Ok_0, t) == scope_of(u, t),
    decreases ps.len(),
{
    if ps.len() == 0 {
    } else {
        let p = ps[0];
        let rest = ps.skip(1);
        assert(ps =~= seq![p] + rest);
        let u1 = push_spec(u, p);
        lemma_pops_cons(u2, p, rest);
        match pops_spec(u2, rest) {
            Ok(w) => {
                lemma_pops_balance(u1, u2, rest);
                assert forall|t: SymV| scope_of(pop_spec(w, p)->Ok_0, t) == scope_of(
                    u,
                    t,
                ) by {
                    lemma_pop_scope(w, p, t);
                    lemma_push_scope(u, p, t);
                    lemma_push_scope(u, p, p);
                    assert(scope_of(w, p) == scope_of(u, p).push(assigned_id(u, p)));
                    assert(scope_of(u, p).push(assigned_id(u, p)).drop_last() =~= scope_of(u, p));
                }
            },
            Err(_) => {
            },
        }
    }
}

/// The scope-aware rewrite leaves every visible binding exactly as it
/// found it: whatever a subtree pushes, it pops again. In particular a
/// symbol in use outside two sibling loops is unaffected by the loops'
/// own binders.
pub proof fn lemma_transform_preserves_scopes(u: UStateV, e: ExprV)
    requires
        transform_spec(u, e) is Ok,
    ensures
        forall|t: SymV| scope_of(transform_spec(u, e)->Ok_0.0, t) == scope_of(u, t),
    decreases e, 0int,
{
    match e {
        ExprV::Broadcast(v) => {
            lemma_transform_preserves_scopes(u, *v);
        },
        ExprV::BinOp { left, right, .. } => {
            lemma_transform_preserves_scopes(u, *left);
            let u1 = transform_spec(u, *left)->Ok_0.0;
            lemma_transform_preserves_scopes(u1, *right);
        },
        ExprV::UnaryOp { value, .. } => {
            lemma_transform_preserves_scopes(u, *value);
        },
        ExprV::Cast { value, .. } => {
            lemma_transform_preserves_scopes(u, *value);
        },
        ExprV::GetField { tuple, .. } => {
            lemma_transform_preserves_scopes(u, *tuple);
        },
        ExprV::Length(v) => {
            lemma_transform_preserves_scopes(u, *v);
        },
        ExprV::Lookup { data, index } => {
            lemma_transform_preserves_scopes(u, *data);
            let u1 = transform_spec(u, *data)->Ok_0.0;
            lemma_transform_preserves_scopes(u1, *index);
        },
        ExprV::IfThenElse { i, t, e: els } => {
            lemma_transform_preserves_scopes(u, *i);
            let u1 = transform_spec(u, *i)->Ok_0.0;
            lemma_transform_preserves_scopes(u1, *t);
            let u2 = transform_spec(u1, *t)->Ok_0.0;
            lemma_transform_preserves_scopes(u2, *els);
        },
        ExprV::For { iters, builder, func } => {
            lemma_iters_preserve_scopes(u, iters);
            let u1 = iters_spec(u, iters)->Ok_0.0;
            lemma_transform_preserves_scopes(u1, *builder);
            let u2 = transform_spec(u1, *builder)->Ok_0.0;
            lemma_transform_preserves_scopes(u2, *func);
        },
        ExprV::Merge { builder, value } => {
            lemma_transform_preserves_scopes(u, *builder);
            let u1 = transform_spec(u, *builder)->Ok_0.0;
            lemma_transform_preserves_scopes(u1, *value);
        },
        ExprV::Lambda { params, body } => {
            let u1 = params_spec(u, params)->Ok_0.0;
            lemma_transform_preserves_scopes(u1, *body);
            let u2 = transform_spec(u1, *body)->Ok_0.0;
            lemma_pops_balance(u, u2, params);
        },
        ExprV::NewVector { items, .. } => {
            lemma_exprs_preserve_scopes(u, items);
        },
        ExprV::Eval(v) => {
            lemma_transform_preserves_scopes(u, *v);
        },
        _ => {
        },
    }
}

/// Rewriting a list of expressions preserves every scope.
proof fn lemma_exprs_preserve_scopes(u: UStateV, es: Seq<ExprV>)
    requires
        exprs_spec(u, es) is Ok,
    ensures
        forall|t: SymV| scope_of(exprs_spec(u, es)->Ok_0.0, t) == scope_of(u, t),
    decreases es, 0int,
{
    if es.len() != 0 {
        lemma_transform_preserves_scopes(u, es[0]);
        let u1 = transform_spec(u, es[0])->Ok_0.0;
        lemma_exprs_preserve_scopes(u1, es.skip(1));
    }
}

/// Rewriting a list of data sources preserves every scope.
proof fn lemma_iters_preserve_scopes(u: UStateV, its: Seq<IterV>)
    requires
        iters_spec(u, its) is Ok,
    ensures
        forall|t: SymV| scope_of(iters_spec(u, its)->Ok_0.0, t) == scope_of(u, t),
    decreases its, 0int,
{
    if its.len() != 0 {
        lemma_iter_preserves_scopes(u, its[0]);
        let u1 = iter_spec(u, its[0])->Ok_0.0;
        lemma_iters_preserve_scopes(u1, its.skip(1));
    }
}

/// Rewriting one data source preserves every scope.
proof fn lemma_iter_preserves_scopes(u: UStateV, it: IterV)
    requires
        iter_spec(u, it) is Ok,
    ensures
        forall|t: SymV| scope_of(iter_spec(u, it)->Ok_0.0, t) == scope_of(u, t),
    decreases it, 0int,
{
    lemma_transform_preserves_scopes(u, *it.data);
    let u1 = transform_spec(u, *it.data)->Ok_0.0;
    match it.start {
        Some(sx) => {
            lemma_transform_preserves_scopes(u1, *sx);
            let u2 = transform_spec(u1, *sx)->Ok_0.0;
            match it.end {
                Some(en) => {
                    lemma_transform_preserves_scopes(u2, *en);
                },
                None => {
                },
            }
        },
        None => {
            match it.end {
                Some(en) => {
                    lemma_transform_preserves_scopes(u1, *en);
                },
                None => {
                },
            }
        },
    }
}

} // verus!
