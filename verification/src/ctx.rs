//! The staged-graph context: registers definitions under fresh,
//! consecutively numbered symbols, sharing a symbol when the same
//! definition is registered twice (hash-consing by search).

use vstd::prelude::*;

use crate::def::{def_syms, Def};
use crate::exp::{Exp, ExpOrDef, Sym};
use crate::stmt::{Assign, Stmt};

verus! {

/// Every symbol a definition depends on is numbered below `n`.
pub open spec fn deps_below(d: Def, n: int) -> bool {
    forall|k: int| 0 <= k < def_syms(d).len() ==> (#[trigger] def_syms(d)[k]).0 < n
}

/// A well-formed statement list: statement `i` binds symbol `i`, and
/// depends only on earlier symbols.
pub open spec fn ctx_wf(defs: Seq<Stmt>) -> bool {
    forall|i: int|
        0 <= i < defs.len() ==> (#[trigger] defs[i])->Assign_0.sym.0 == i && deps_below(
            defs[i]->Assign_0.def,
            i,
        )
}

/// The first statement index whose definition is `d`, if any.
pub open spec fn first_def_at(defs: Seq<Stmt>, d: Def) -> Option<int>
    decreases defs,
{
    if defs.len() == 0 {
        None
    } else if defs[0]->Assign_0.def == d {
        Some(0)
    } else {
        match first_def_at(defs.skip(1), d) {
            Some(i) => Some(i + 1),
            None => None,
        }
    }
}

/// With no match before `i`, the first match of `d` is the first match
/// at or after `i`.
proof fn lemma_first_def_at_prefix(defs: Seq<Stmt>, d: Def, i: int)
    requires
        0 <= i <= defs.len(),
        forall|k: int| 0 <= k < i ==> (#[trigger] defs[k])->Assign_0.def != d,
    ensures
        i < defs.len() && defs[i]->Assign_0.def == d ==> first_def_at(defs, d) == Some(i),
        i == defs.len() ==> first_def_at(defs, d) is None,
    decreases i,
{
    if i > 0 {
        lemma_first_def_at_prefix(defs.skip(1), d, i - 1);
        assert(forall|k: int| 0 <= k < i - 1 ==> (#[trigger] defs.skip(1)[k])->Assign_0.def != d);
        if i < defs.len() && defs[i]->Assign_0.def == d {
            assert(defs.skip(1)[i - 1]->Assign_0.def == d);
        }
    }
}

/// The context of the staged graph: the statements registered so far,
/// in creation order, each binding the next symbol number.
#[derive(Debug)]
pub struct Context {
    pub sym_id: usize,
    pub global_defs: Vec<Stmt>,
}

impl Context {
    /// The context's statements are well-formed and the next symbol
    /// number is the statement count.
    pub open spec fn wf(&self) -> bool {
        ctx_wf(self.global_defs@) && self.sym_id == self.global_defs@.len()
    }

    /// A fresh, empty context.
    pub fn new() -> (r: Context)
        ensures
            r.wf(),
            r.global_defs@.len() == 0,
    {
        Context { sym_id: 0, global_defs: Vec::new() }
    }

    /// A fresh input symbol with no definition.
    pub fn fresh(&mut self) -> (r: Exp)
        requires
            old(self).wf(),
            old(self).global_defs@.len() < usize::MAX,
        ensures
            final(self).wf(),
            final(self).global_defs@ == old(self).global_defs@.push(
                Stmt::Assign(Assign { sym: Sym(old(self).global_defs@.len() as usize), def: Def::Nil }),
            ),
            r == Exp::Sym(Sym(old(self).global_defs@.len() as usize)),
    {
        let s = Sym(self.sym_id);
        self.sym_id = self.sym_id + 1;
        self.global_defs.push(Stmt::assign(s, Def::Nil));
        proof {
            assert(final(self).wf()) by {
                assert forall|i: int|
                    0 <= i < self.global_defs@.len() implies (#[trigger] self.global_defs@[
                    i
                ])->Assign_0.sym.0 == i && deps_below(self.global_defs@[i]->Assign_0.def, i) by {
                    if i < old(self).global_defs@.len() {
                        assert(old(self).global_defs@[i] == self.global_defs@[i]);
                    }
                }
            }
        }
        Exp::Sym(s)
    }

    /// The statement binding `s`, if `s` has been created.
    pub fn find_stmt_by_sym(&self, s: &Sym) -> (r: Option<Stmt>)
        requires
            self.wf(),
        ensures
            s.0 < self.global_defs@.len() ==> r == Some(self.global_defs@[s.0 as int]),
            s.0 >= self.global_defs@.len() ==> r is None,
    {
        if s.0 < self.global_defs.len() {
            Some(self.global_defs[s.0])
        } else {
            None
        }
    }

    /// The first statement whose definition is `d`, if any.
    pub fn find_stmt_by_def(&self, d: &Def) -> (r: Option<Stmt>)
        ensures
            match r {
                Some(st) => (first_def_at(self.global_defs@, *d) matches Some(i) && st
                    == self.global_defs@[i]),
                None => first_def_at(self.global_defs@, *d) is None,
            },
    {
        let mut i: usize = 0;
        while i < self.global_defs.len()
            invariant
                i <= self.global_defs@.len(),
                forall|k: int|
                    0 <= k < i ==> (#[trigger] self.global_defs@[k])->Assign_0.def != *d,
            decreases self.global_defs@.len() - i,
        {
            match self.global_defs[i].defines_rhs(d) {
                Some(_) => {
                    proof {
                        lemma_first_def_at_prefix(self.global_defs@, *d, i as int);
                    }
                    return Some(self.global_defs[i]);
                },
                None => {
                },
            }
            i += 1;
        }
        proof {
            lemma_first_def_at_prefix(self.global_defs@, *d, i as int);
        }
        None
    }

    /// The statement for `d`: the one already registered when `d` is
    /// known, else a new statement binding `d` to the next symbol.
    pub fn find_or_create_stmt(&mut self, d: Def) -> (r: Stmt)
        requires
            old(self).wf(),
            old(self).global_defs@.len() < usize::MAX,
            deps_below(d, old(self).global_defs@.len() as int),
        ensures
            final(self).wf(),
            match first_def_at(old(self).global_defs@, d) {
                Some(i) => final(self).global_defs@ == old(self).global_defs@ && r == old(
                    self,
                ).global_defs@[i],
                None => final(self).global_defs@ == old(self).global_defs@.push(
                    Stmt::Assign(Assign { sym: Sym(old(self).global_defs@.len() as usize), def: d }),
                ) && r == Stmt::Assign(Assign { sym: Sym(old(self).global_defs@.len() as usize), def: d }),
            },
    {
        match self.find_stmt_by_def(&d) {
            Some(st) => st,
            None => {
                let s = Sym(self.sym_id);
                let st = Stmt::assign(s, d);
                self.sym_id = self.sym_id + 1;
                self.global_defs.push(st);
                proof {
                    assert(final(self).wf()) by {
                        assert forall|i: int|
                            0 <= i < self.global_defs@.len() implies (#[trigger] self.global_defs@[
                            i
                        ])->Assign_0.sym.0 == i && deps_below(
                            self.global_defs@[i]->Assign_0.def,
                            i,
                        ) by {
                            if i < old(self).global_defs@.len() {
                                assert(old(self).global_defs@[i] == self.global_defs@[i]);
                            }
                        }
                    }
                }
                st
            },
        }
    }

    /// The expression for `d`: a symbol reference to `d`'s statement,
    /// shared when `d` is already registered.
    pub fn to_atomic(&mut self, d: Def) -> (r: Exp)
        requires
            old(self).wf(),
            old(self).global_defs@.len() < usize::MAX,
            deps_below(d, old(self).global_defs@.len() as int),
        ensures
            final(self).wf(),
            match first_def_at(old(self).global_defs@, d) {
                Some(i) => final(self).global_defs@ == old(self).global_defs@ && r == Exp::Sym(
                    old(self).global_defs@[i]->Assign_0.sym,
                ),
                None => final(self).global_defs@ == old(self).global_defs@.push(
                    Stmt::Assign(Assign { sym: Sym(old(self).global_defs@.len() as usize), def: d }),
                ) && r == Exp::Sym(Sym(old(self).global_defs@.len() as usize)),
            },
    {
        let st = self.find_or_create_stmt(d);
        Exp::Sym(st.sym())
    }

    /// Evaluate an intermediate value: an expression stays as it is; a
    /// definition is registered (or found) and becomes a symbol
    /// reference.
    pub fn eval(&mut self, v: ExpOrDef) -> (r: Exp)
        requires
            old(self).wf(),
            old(self).global_defs@.len() < usize::MAX,
            (v matches ExpOrDef::Def(d) ==> deps_below(d, old(self).global_defs@.len() as int)),
        ensures
            final(self).wf(),
            match v {
                ExpOrDef::Exp(e) => final(self).global_defs@ == old(self).global_defs@ && r == e,
                ExpOrDef::Def(d) => match first_def_at(old(self).global_defs@, d) {
                    Some(i) => final(self).global_defs@ == old(self).global_defs@ && r == Exp::Sym(
                        old(self).global_defs@[i]->Assign_0.sym,
                    ),
                    None => final(self).global_defs@ == old(self).global_defs@.push(
                        Stmt::Assign(Assign { sym: Sym(old(self).global_defs@.len() as usize), def: d }),
                    ) && r == Exp::Sym(Sym(old(self).global_defs@.len() as usize)),
                },
            },
    {
        match v {
            ExpOrDef::Exp(e) => e,
            ExpOrDef::Def(d) => self.to_atomic(d),
        }
    }

    /// Evaluate a conditional whose condition is a known constant (zero
    /// is false): only the taken branch is registered.
    pub fn eval_if(&mut self, cond: ExpOrDef, then_v: ExpOrDef, else_v: ExpOrDef) -> (r: Exp)
        requires
            old(self).wf(),
            old(self).global_defs@.len() < usize::MAX,
            cond matches ExpOrDef::Exp(e) && e is Const,
            (then_v matches ExpOrDef::Def(d) ==> deps_below(
                d,
                old(self).global_defs@.len() as int,
            )),
            (else_v matches ExpOrDef::Def(d) ==> deps_below(
                d,
                old(self).global_defs@.len() as int,
            )),
        ensures
            final(self).wf(),
            cond->Exp_0->Const_0 != 0 ==> eval_picked(
                old(self).global_defs@,
                then_v,
                r,
                final(self).global_defs@,
            ),
            cond->Exp_0->Const_0 == 0 ==> eval_picked(
                old(self).global_defs@,
                else_v,
                r,
                final(self).global_defs@,
            ),
    {
        let c = match cond {
            ExpOrDef::Exp(Exp::Const(c)) => c,
            _ => vstd::pervasive::unreached(),
        };
        if c != 0 {
            self.eval(then_v)
        } else {
            self.eval(else_v)
        }
    }
}

/// The relation `eval` establishes between the statements before and
/// after, its argument, and its result.
pub open spec fn eval_picked(defs0: Seq<Stmt>, v: ExpOrDef, r: Exp, defs1: Seq<Stmt>) -> bool {
    match v {
        ExpOrDef::Exp(e) => defs1 == defs0 && r == e,
        ExpOrDef::Def(d) => match first_def_at(defs0, d) {
            Some(i) => defs1 == defs0 && r == Exp::Sym(defs0[i]->Assign_0.sym),
            None => defs1 == defs0.push(Stmt::Assign(Assign { sym: Sym(defs0.len() as usize), def: d })) && r
                == Exp::Sym(Sym(defs0.len() as usize)),
        },
    }
}

} // verus!
