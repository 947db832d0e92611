//! Topological scheduling of the staged graph: order the statements a
//! result depends on so that every dependency comes before its user.

use vstd::prelude::*;

use crate::ctx::{ctx_wf, deps_below};
use crate::def::{def_syms, DefEx};
use crate::exp::Sym;
use crate::stmt::Stmt;

verus! {

/// The schedule invariant: every listed symbol is in range, marked
/// symbols are exactly the listed ones, nothing is listed twice, and
/// every dependency of a listed symbol is listed earlier.
pub open spec fn topo_inv(defs: Seq<Stmt>, marked: Seq<bool>, topo: Seq<Sym>) -> bool {
    &&& marked.len() == defs.len()
    &&& (forall|k: int| 0 <= k < topo.len() ==> (#[trigger] topo[k]).0 < defs.len())
    &&& (forall|k: int| 0 <= k < topo.len() ==> marked[(#[trigger] topo[k]).0 as int])
    &&& (forall|i: int|
        0 <= i < defs.len() && marked[i] ==> exists|k: int|
            0 <= k < topo.len() && (#[trigger] topo[k]).0 == i)
    &&& (forall|k1: int, k2: int|
        0 <= k1 < topo.len() && 0 <= k2 < topo.len() && k1 != k2 ==> #[trigger] topo[k1]
            != #[trigger] topo[k2])
    &&& (forall|k: int, j: int|
        0 <= k < topo.len() && 0 <= j < def_syms(defs[topo[k].0 as int]->Assign_0.def).len()
            ==> exists|k2: int|
            0 <= k2 < k && topo[k2] == #[trigger] def_syms(
                defs[topo[k].0 as int]->Assign_0.def,
            )[j])
}

/// Schedule `sym` and (first) everything it depends on.
fn build_topo_rec(
    defs: &Vec<Stmt>,
    marked: &mut Vec<bool>,
    topo: &mut Vec<Sym>,
    sym: Sym,
)
    requires
        ctx_wf(defs@),
        sym.0 < defs@.len(),
        topo_inv(defs@, old(marked)@, old(topo)@),
    ensures
        topo_inv(defs@, final(marked)@, final(topo)@),
        final(marked)@.len() == old(marked)@.len(),
        old(topo)@.is_prefix_of(final(topo)@),
        forall|i: int| 0 <= i < old(marked)@.len() && old(marked)@[i] ==> final(marked)@[i],
        forall|i: int|
            sym.0 < i < old(marked)@.len() ==> final(marked)@[i] == old(marked)@[i],
        final(marked)@[sym.0 as int],
    decreases sym.0,
{
    if marked[sym.0] {
        return ;
    }
    let st = defs[sym.0];
    let deps = st.def().syms();
    let ghost depseq = def_syms(defs@[sym.0 as int]->Assign_0.def);
    let mut j: usize = 0;
    while j < deps.len()
        invariant
            ctx_wf(defs@),
            sym.0 < defs@.len(),
            deps@ == depseq,
            depseq == def_syms(defs@[sym.0 as int]->Assign_0.def),
            deps_below(defs@[sym.0 as int]->Assign_0.def, sym.0 as int),
            j <= deps@.len(),
            topo_inv(defs@, marked@, topo@),
            marked@.len() == old(marked)@.len(),
            old(topo)@.is_prefix_of(topo@),
            forall|i: int|
                0 <= i < old(marked)@.len() && old(marked)@[i] ==> marked@[i],
            forall|i: int|
                sym.0 < i < old(marked)@.len() ==> marked@[i] == old(marked)@[i],
            !marked@[sym.0 as int],
            forall|k: int|
                0 <= k < j ==> marked@[(#[trigger] deps@[k]).0 as int],
        decreases deps@.len() - j,
    {
        let d = deps[j];
        proof {
            assert(depseq[j as int].0 < sym.0);
        }
        build_topo_rec(defs, marked, topo, d);
        j += 1;
    }
    proof {
        assert(!marked@[sym.0 as int]);
    }
    let ghost m0 = marked@;
    let ghost t0 = topo@;
    marked.set(sym.0, true);
    topo.push(sym);
    proof {
        let m1 = marked@;
        let t1 = topo@;
        assert(t1 == t0.push(sym));
        assert(t1.len() == t0.len() + 1);
        assert(t1[t0.len() as int] == sym);
        assert forall|i: int|
            0 <= i < defs@.len() && m1[i] implies exists|k: int|
            0 <= k < t1.len() && (#[trigger] t1[k]).0 == i by {
            if i == sym.0 as int {
                assert(t1[t0.len() as int].0 == i);
            } else {
                assert(m0[i]);
                let k0 = choose|k: int| 0 <= k < t0.len() && (#[trigger] t0[k]).0 == i;
                assert(t1[k0].0 == i);
            }
        }
        assert forall|k: int| 0 <= k < t0.len() implies t0[k] != sym by {
            assert(m0[(t0[k]).0 as int]);
        }
        assert forall|k: int, j2: int|
            0 <= k < t1.len() && 0 <= j2 < def_syms(defs@[t1[k].0 as int]->Assign_0.def).len()
                implies exists|k2: int|
            0 <= k2 < k && t1[k2] == #[trigger] def_syms(
                defs@[t1[k].0 as int]->Assign_0.def,
            )[j2] by {
            if k == t0.len() as int {
                let dep = def_syms(defs@[sym.0 as int]->Assign_0.def)[j2];
                assert(m0[dep.0 as int]);
                let k2 = choose|k2: int| 0 <= k2 < t0.len() && (#[trigger] t0[k2]).0 == dep.0 as int;
                assert(t0[k2] == dep);
                assert(t1[k2] == dep);
            } else {
                let dep = def_syms(defs@[t0[k].0 as int]->Assign_0.def)[j2];
                let k2 = choose|k2: int| 0 <= k2 < k && #[trigger] t0[k2] == dep;
                assert(t1[k2] == dep);
            }
        }
        assert(topo_inv(defs@, m1, t1));
    }
}

/// Order the statements that `result` (transitively) depends on, each
/// dependency before its user, `result` itself last, nothing twice; see
/// `topo_inv` for the full schedule invariant the result satisfies.
pub fn build_topo(defs: &Vec<Stmt>, result: Sym) -> (topo: Vec<Sym>)
    requires
        ctx_wf(defs@),
        result.0 < defs@.len(),
    ensures
        topo@.len() > 0,
        exists|k: int| 0 <= k < topo@.len() && #[trigger] topo@[k] == result,
        forall|k1: int, k2: int|
            0 <= k1 < topo@.len() && 0 <= k2 < topo@.len() && k1 != k2 ==> #[trigger] topo@[k1]
                != #[trigger] topo@[k2],
        forall|k: int, j: int|
            0 <= k < topo@.len() && 0 <= j < def_syms(
                defs@[topo@[k].0 as int]->Assign_0.def,
            ).len() ==> exists|k2: int|
                0 <= k2 < k && topo@[k2] == #[trigger] def_syms(
                    defs@[topo@[k].0 as int]->Assign_0.def,
                )[j],
        forall|k: int| 0 <= k < topo@.len() ==> (#[trigger] topo@[k]).0 < defs@.len(),
    {
    let mut marked: Vec<bool> = Vec::new();
    let mut i: usize = 0;
    let n = defs.len();
    while i < n
        invariant
            marked@.len() == i,
            i <= defs@.len(),
            n == defs@.len(),
            forall|k: int| 0 <= k < i ==> !(#[trigger] marked@[k]),
        decreases n - i,
    {
        marked.push(false);
        i += 1;
    }
    let mut topo: Vec<Sym> = Vec::new();
    proof {
        assert(topo_inv(defs@, marked@, topo@));
    }
    build_topo_rec(defs, &mut marked, &mut topo, result);
    proof {
        let k = choose|k: int| 0 <= k < topo@.len() && (#[trigger] topo@[k]).0 == result.0 as int;
        assert(topo@[k] == result);
    }
    topo
}

} // verus!
