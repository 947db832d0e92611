//! Constant folding: a recursive, change-flagged rewrite that substitutes
//! known symbol values and folds literal sub-expressions through the
//! literal algebra.

use vstd::prelude::*;

use crate::bin_op::{BinOp, BinOpType};
use crate::error::{Error, ErrorV};
use crate::expr::{Expr, ExprV};
use crate::lit::{
    apply_bin_op_spec, apply_unary_op_spec, bin_fold_defined, unary_fold_defined, LitV, Literal,
};
use crate::sym::{sym_eq, SymV, Symbol};
use crate::unary_op::{UnaryOp, UnaryOpType};

verus! {

/// A finite mapping from symbols to literal values, fed to the
/// simplifier: a symbol bound here is replaced by its literal.
pub struct Bindings {
    entries: Vec<(Symbol, Literal)>,
}

/// The views of a list of symbol/literal pairs.
pub open spec fn pair_seq_view(s: Seq<(Symbol, Literal)>) -> Seq<(SymV, LitV)>
    decreases s,
{
    if s.len() == 0 {
        Seq::empty()
    } else {
        seq![(s[0].0@, s[0].1@)] + pair_seq_view(s.skip(1))
    }
}

/// A list of views is as long as the list it views.
pub broadcast proof fn lemma_pair_seq_view_len(s: Seq<(Symbol, Literal)>)
    ensures
        (#[trigger] pair_seq_view(s)).len() == s.len(),
    decreases s,
{
    if s.len() != 0 {
        lemma_pair_seq_view_len(s.skip(1));
    }
}

/// A list of views holds, position by position, the views of the list it
/// views.
pub broadcast proof fn lemma_pair_seq_view_index(s: Seq<(Symbol, Literal)>, i: int)
    requires
        0 <= i < s.len(),
    ensures
        #[trigger] pair_seq_view(s)[i] == (s[i].0@, s[i].1@),
    decreases s,
{
    lemma_pair_seq_view_len(s);
    if i > 0 {
        lemma_pair_seq_view_index(s.skip(1), i - 1);
    }
}

/// The literal bound to `s`, if any: the first binding whose symbol view
/// equals `s` wins.
pub open spec fn find_spec(m: Seq<(SymV, LitV)>, s: SymV) -> Option<LitV>
    decreases m,
{
    if m.len() == 0 {
        None
    } else if m[0].0 == s {
        Some(m[0].1)
    } else {
        find_spec(m.skip(1), s)
    }
}

/// Skipping a prefix without a match does not change the lookup.
proof fn lemma_find_skip(m: Seq<(SymV, LitV)>, s: SymV, i: int)
    requires
        0 <= i <= m.len(),
        forall|k: int| 0 <= k < i ==> m[k].0 != s,
    ensures
        find_spec(m, s) == find_spec(m.skip(i), s),
    decreases i,
{
    if i > 0 {
        lemma_find_skip(m.skip(1), s, i - 1);
        assert(m.skip(1).skip(i - 1) =~= m.skip(i));
        assert(forall|k: int| 0 <= k < i - 1 ==> m.skip(1)[k].0 != s);
    } else {
        assert(m.skip(0) =~= m);
    }
}

impl View for Bindings {
    type V = Seq<(SymV, LitV)>;

    closed spec fn view(&self) -> Seq<(SymV, LitV)> {
        pair_seq_view(self.entries@)
    }
}

impl Bindings {
    /// An empty mapping.
    pub fn new() -> (res: Bindings)
        ensures
            res@ == Seq::<(SymV, LitV)>::empty(),
            forall|s: SymV| find_spec(res@, s) is None,
    {
        let res = Bindings { entries: Vec::new() };
        proof {
            assert(res@ =~= Seq::<(SymV, LitV)>::empty());
        }
        res
    }

    /// Bind `sym` to `value`; the new binding shadows any earlier one
    /// for the same symbol.
    pub fn insert(&mut self, sym: Symbol, value: Literal)
        ensures
            final(self)@ == seq![(sym@, value@)] + old(self)@,
            find_spec(final(self)@, sym@) == Some(value@),
            forall|s: SymV|
                s != sym@ ==> #[trigger] find_spec(final(self)@, s) == find_spec(old(self)@, s),
    {
        let ghost oldv = self@;
        let ghost sv = sym@;
        let ghost lv = value@;
        self.entries.insert(0, (sym, value));
        proof {
            broadcast use lemma_pair_seq_view_len, lemma_pair_seq_view_index;

            assert(self.entries@.skip(1) =~= old(self).entries@);
            assert(self@ =~= seq![(sv, lv)] + oldv);
            assert((seq![(sv, lv)] + oldv).skip(1) =~= oldv);
            assert forall|s: SymV| s != sv implies #[trigger] find_spec(self@, s) == find_spec(
                oldv,
                s,
            ) by {
                assert(self@[0].0 == sv);
                assert(self@.skip(1) =~= oldv);
            }
        }
    }

    /// How many bindings are held (shadowed bindings included).
    pub fn len(&self) -> (n: usize)
        ensures
            n == self@.len(),
    {
        proof {
            broadcast use lemma_pair_seq_view_len;

        }
        self.entries.len()
    }

    /// The literal bound to `sym`, if any.
    pub fn get(&self, sym: &Symbol) -> (r: Option<&Literal>)
        ensures
            match r {
                Some(l) => find_spec(self@, sym@) == Some(l@),
                None => find_spec(self@, sym@) is None,
            },
    {
        let ghost m = self@;
        proof {
            broadcast use lemma_pair_seq_view_len;

        }
        let mut i: usize = 0;
        while i < self.entries.len()
            invariant
                i <= self.entries@.len(),
                m == pair_seq_view(self.entries@),
                forall|k: int| 0 <= k < i ==> #[trigger] m[k].0 != sym@,
                m.len() == self.entries@.len(),
            decreases self.entries@.len() - i,
        {
            broadcast use lemma_pair_seq_view_len, lemma_pair_seq_view_index;

            if sym_eq(&self.entries[i].0, sym) {
                proof {
                    lemma_find_skip(m, sym@, i as int);
                    assert(m.skip(i as int)[0] == m[i as int]);
                }
                return Some(&self.entries[i].1);
            }
            i += 1;
        }
        proof {
            lemma_find_skip(m, sym@, i as int);
            assert(m.skip(i as int).len() == 0);
        }
        None
    }
}

/// What one simplification pass yields on the tree `e` under the
/// bindings `m`:
/// - a bound symbol becomes its literal (changed);
/// - a binary or unary node first simplifies its children; when they are
///   all literals and the fold lies inside the literal algebra, the node
///   becomes the folded literal (changed), and a fold the algebra
///   rejects (mixed kinds, an undefined order) fails with that error;
/// - a fold outside the algebra (`Pow`, floating-point arithmetic, an
///   integer fault, a transcendental operator) leaves the node in place;
/// - every other node kind is left unchanged.
///
/// The returned flag says whether anything changed, so a caller can
/// re-run the pass to a fixed point.
pub open spec fn simplify_spec(e: ExprV, m: Seq<(SymV, LitV)>) -> Result<(ExprV, bool), ErrorV>
    decreases e,
{
    match e {
        ExprV::Symbol(s) => match find_spec(m, s) {
            Some(l) => Ok((ExprV::Literal(l), true)),
            None => Ok((e, false)),
        },
        ExprV::BinOp { op_ty, left, right } => match simplify_spec(*left, m) {
            Err(er) => Err(er),
            Ok((l2, cl)) => match simplify_spec(*right, m) {
                Err(er) => Err(er),
                Ok((r2, cr)) => if l2 is Literal && r2 is Literal {
                    let la = l2->Literal_0;
                    let rb = r2->Literal_0;
                    if bin_fold_defined(la, rb, op_ty) {
                        match apply_bin_op_spec(la, rb, op_ty) {
                            Ok(res) => Ok((ExprV::Literal(res), true)),
                            Err(er) => Err(er),
                        }
                    } else {
                        Ok(
                            (
                                ExprV::BinOp { op_ty, left: Box::new(l2), right: Box::new(r2) },
                                cl || cr,
                            ),
                        )
                    }
                } else if cl || cr {
                    Ok((ExprV::BinOp { op_ty, left: Box::new(l2), right: Box::new(r2) }, true))
                } else {
                    Ok((e, false))
                },
            },
        },
        ExprV::UnaryOp { op_ty, value } => match simplify_spec(*value, m) {
            Err(er) => Err(er),
            Ok((v2, cv)) => if v2 is Literal && (op_ty == UnaryOpType::Not || op_ty
                == UnaryOpType::Neg) {
                let lv = v2->Literal_0;
                if unary_fold_defined(lv, op_ty) {
                    match apply_unary_op_spec(lv, op_ty) {
                        Ok(res) => Ok((ExprV::Literal(res), true)),
                        Err(er) => Err(er),
                    }
                } else {
                    Ok((ExprV::UnaryOp { op_ty, value: Box::new(v2) }, cv))
                }
            } else if cv {
                Ok((ExprV::UnaryOp { op_ty, value: Box::new(v2) }, true))
            } else {
                Ok((e, false))
            },
        },
        _ => Ok((e, false)),
    }
}

/// The view of a simplification result.
pub open spec fn simp_res_view(r: Result<(Expr, bool), Error>) -> Result<(ExprV, bool), ErrorV> {
    match r {
        Ok((e, c)) => Ok((e@, c)),
        Err(er) => Err(er@),
    }
}

/// Whether the literal algebra can fold `op` over `la` and `rb`; decides
/// `bin_fold_defined`.
pub fn can_fold_bin(la: &Literal, rb: &Literal, op: BinOpType) -> (r: bool)
    ensures
        r == bin_fold_defined(la@, rb@, op),
{
    let arith = match op {
        BinOpType::Add | BinOpType::Subtract | BinOpType::Multiply | BinOpType::Divide
            | BinOpType::Modulo => true,
        _ => false,
    };
    match op {
        BinOpType::Pow => false,
        _ => match (la, rb) {
            (Literal::U8(x), Literal::U8(y)) => match op {
                BinOpType::Add => *x <= u8::MAX - *y,
                BinOpType::Subtract => *x >= *y,
                BinOpType::Multiply => x.checked_mul(*y).is_some(),
                BinOpType::Divide | BinOpType::Modulo => *y != 0,
                _ => true,
            },
            (Literal::U32(x), Literal::U32(y)) => match op {
                BinOpType::Add => *x <= u32::MAX - *y,
                BinOpType::Subtract => *x >= *y,
                BinOpType::Multiply => x.checked_mul(*y).is_some(),
                BinOpType::Divide | BinOpType::Modulo => *y != 0,
                _ => true,
            },
            (Literal::U64(x), Literal::U64(y)) => match op {
                BinOpType::Add => *x <= u64::MAX - *y,
                BinOpType::Subtract => *x >= *y,
                BinOpType::Multiply => x.checked_mul(*y).is_some(),
                BinOpType::Divide | BinOpType::Modulo => *y != 0,
                _ => true,
            },
            (Literal::I32(x), Literal::I32(y)) => match op {
                BinOpType::Add => x.checked_add(*y).is_some(),
                BinOpType::Subtract => x.checked_sub(*y).is_some(),
                BinOpType::Multiply => x.checked_mul(*y).is_some(),
                BinOpType::Divide | BinOpType::Modulo => *y != 0 && !(*x == i32::MIN && *y == -1),
                _ => true,
            },
            (Literal::I64(x), Literal::I64(y)) => match op {
                BinOpType::Add => x.checked_add(*y).is_some(),
                BinOpType::Subtract => x.checked_sub(*y).is_some(),
                BinOpType::Multiply => x.checked_mul(*y).is_some(),
                BinOpType::Divide | BinOpType::Modulo => *y != 0 && !(*x == i64::MIN && *y == -1),
                _ => true,
            },
            (Literal::F32(_), Literal::F32(_)) => !arith,
            (Literal::F64(_), Literal::F64(_)) => !arith,
            _ => true,
        },
    }
}

/// Whether the unary algebra can fold `op` over `lv`; decides
/// `unary_fold_defined`.
fn can_fold_unary(lv: &Literal, op: UnaryOpType) -> (r: bool)
    ensures
        r == unary_fold_defined(lv@, op),
{
    match op {
        UnaryOpType::Neg => match lv {
            Literal::I32(v) => *v != i32::MIN,
            Literal::I64(v) => *v != i64::MIN,
            _ => true,
        },
        _ => true,
    }
}

/// A pass that reports no change returns the tree exactly as it was.
pub proof fn lemma_simplify_unchanged(e: ExprV, m: Seq<(SymV, LitV)>)
    ensures
        (simplify_spec(e, m) matches Ok((e2, ch)) && !ch) ==> simplify_spec(e, m)->Ok_0.0 == e,
    decreases e,
{
    match e {
        ExprV::BinOp { op_ty, left, right } => {
            lemma_simplify_unchanged(*left, m);
            lemma_simplify_unchanged(*right, m);
            match simplify_spec(*left, m) {
                Ok((l2, cl)) => match simplify_spec(*right, m) {
                    Ok((r2, cr)) => {
                        if !cl && !cr {
                            assert(ExprV::BinOp {
                                op_ty,
                                left: Box::new(l2),
                                right: Box::new(r2),
                            } =~= e);
                        }
                    },
                    Err(_) => {
                    },
                },
                Err(_) => {
                },
            }
        },
        ExprV::UnaryOp { op_ty, value } => {
            lemma_simplify_unchanged(*value, m);
            match simplify_spec(*value, m) {
                Ok((v2, cv)) => {
                    if !cv {
                        assert(ExprV::UnaryOp { op_ty, value: Box::new(v2) } =~= e);
                    }
                },
                Err(_) => {
                },
            }
        },
        _ => {
        },
    }
}

/// One simplification pass over an owned tree; see `simplify_spec`.
#[verifier::rlimit(100)]
#[verifier::spinoff_prover]
fn simp(e: Expr, syms: &Bindings) -> (r: Result<(Expr, bool), Error>)
    ensures
        simp_res_view(r) == simplify_spec(e@, syms@),
    decreases e,
{
    let ghost ev = e@;
    match e {
        Expr::Symbol(s) => match syms.get(&s) {
            Some(l) => {
                let l2 = l.clone();
                Ok((Expr::Literal(l2), true))
            },
            None => Ok((Expr::Symbol(s), false)),
        },
        Expr::BinOp(b) => {
            let BinOp { op_ty, left, right } = b;
            let (l2, cl) = match simp(*left, syms) {
                Ok(p) => p,
                Err(er) => {
                    return Err(er);
                },
            };
            let (r2, cr) = match simp(*right, syms) {
                Ok(p) => p,
                Err(er) => {
                    return Err(er);
                },
            };
            let fold: u8 = match (&l2, &r2) {
                (Expr::Literal(la), Expr::Literal(rb)) => if can_fold_bin(la, rb, op_ty) {
                    2
                } else {
                    1
                },
                _ => 0,
            };
            if fold == 2 {
                let la = match l2 {
                    Expr::Literal(l) => l,
                    _ => vstd::pervasive::unreached(),
                };
                let rb = match r2 {
                    Expr::Literal(l) => l,
                    _ => vstd::pervasive::unreached(),
                };
                match la.apply_bin_op(&rb, op_ty) {
                    Ok(res) => Ok((Expr::Literal(res), true)),
                    Err(er) => Err(er),
                }
            } else {
                let changed = cl || cr;
                let out = Expr::BinOp(BinOp { op_ty, left: Box::new(l2), right: Box::new(r2) });
                proof {
                    if fold == 0 && !changed {
                        lemma_simplify_unchanged(*ev->BinOp_left, syms@);
                        lemma_simplify_unchanged(*ev->BinOp_right, syms@);
                        assert(out@ =~= ev);
                    }
                }
                Ok((out, changed))
            }
        },
        Expr::UnaryOp(u) => {
            let UnaryOp { op_ty, value } = u;
            let (v2, cv) = match simp(*value, syms) {
                Ok(p) => p,
                Err(er) => {
                    return Err(er);
                },
            };
            let foldable = match op_ty {
                UnaryOpType::Not | UnaryOpType::Neg => true,
                _ => false,
            };
            let fold: u8 = match &v2 {
                Expr::Literal(lv) => if foldable {
                    if can_fold_unary(lv, op_ty) {
                        2
                    } else {
                        1
                    }
                } else {
                    0
                },
                _ => 0,
            };
            if fold == 2 {
                let lv = match v2 {
                    Expr::Literal(l) => l,
                    _ => vstd::pervasive::unreached(),
                };
                match lv.apply_unary_op(op_ty) {
                    Ok(res) => Ok((Expr::Literal(res), true)),
                    Err(er) => Err(er),
                }
            } else {
                let changed = cv;
                let out = Expr::UnaryOp(UnaryOp { op_ty, value: Box::new(v2) });
                proof {
                    if !cv && fold != 1 {
                        lemma_simplify_unchanged(*ev->UnaryOp_value, syms@);
                        assert(out@ =~= ev);
                    }
                }
                Ok((out, changed))
            }
        },
        other => Ok((other, false)),
    }
}

/// Simplify the tree in place: substitute bound symbols and fold literal
/// sub-expressions (see `simplify_spec`). Returns whether anything
/// changed, so the caller can re-run to a fixed point; on an error the
/// tree is left as it was.
pub fn simplify(expr: &mut Expr, syms: &Bindings) -> (r: Result<bool, Error>)
    ensures
        match r {
            Ok(ch) => simplify_spec(old(expr)@, syms@) == Ok::<(ExprV, bool), ErrorV>(
                (final(expr)@, ch),
            ),
            Err(er) => simplify_spec(old(expr)@, syms@) == Err::<(ExprV, bool), ErrorV>(er@)
                && final(expr)@ == old(expr)@,
        },
{
    let work = expr.clone();
    match simp(work, syms) {
        Ok((e2, ch)) => {
            *expr = e2;
            Ok(ch)
        },
        Err(er) => Err(er),
    }
}

/// Simplifying a literal leaf returns it unchanged and reports no
/// change: the pass is idempotent on fully-folded trees.
pub proof fn lemma_simplify_literal_fixpoint(e: ExprV, m: Seq<(SymV, LitV)>)
    requires
        e is Literal,
    ensures
        simplify_spec(e, m) == Ok::<(ExprV, bool), ErrorV>((e, false)),
{
}

/// Simplifying a binary node over two literals folds it through the
/// literal algebra whenever the algebra defines the fold.
pub proof fn lemma_simplify_folds_literals(
    la: LitV,
    rb: LitV,
    op: BinOpType,
    m: Seq<(SymV, LitV)>,
)
    requires
        bin_fold_defined(la, rb, op),
        apply_bin_op_spec(la, rb, op) is Ok,
    ensures
        simplify_spec(
            ExprV::BinOp {
                op_ty: op,
                left: Box::new(ExprV::Literal(la)),
                right: Box::new(ExprV::Literal(rb)),
            },
            m,
        ) == Ok::<(ExprV, bool), ErrorV>(
            (ExprV::Literal(apply_bin_op_spec(la, rb, op)->Ok_0), true),
        ),
{
    reveal_with_fuel(simplify_spec, 2);
}

} // verus!
