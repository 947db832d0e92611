//! The builder-merge protocol: every expression that denotes a builder
//! (a fresh builder, a previous merge, a loop, or a symbol of builder
//! type) can accept one more item, yielding a `Merge` node; the item's
//! type is checked against the builder type's merge algebra.

use vstd::prelude::*;

use crate::error::{Error, ErrorV};
use crate::expr::{
    expr_ty, expr_ty_vspec, Expr, ExprV, For, Merge, NewAppender, NewDictMerger, NewGroupMerger,
    NewMerger, NewVecMerger,
};
use crate::sym::Symbol;
use crate::ty::{type_eq, ty_res_view, Type, TypeV};

verus! {

/// What merging `item` into the builder expression `b` yields: the
/// `Merge` node when `b` has a builder type and `item` has exactly the
/// type that builder accepts; `InvalidOperation` when `b` is not a
/// builder; a `TypeError` naming the accepted and the found type when
/// the item does not fit.
pub open spec fn merge_spec_e(b: ExprV, item: ExprV) -> Result<ExprV, ErrorV> {
    match expr_ty_vspec(b).merge_spec() {
        Err(e) => Err(e),
        Ok(mt) => if expr_ty_vspec(item) == mt {
            Ok(ExprV::Merge { builder: Box::new(b), value: Box::new(item) })
        } else {
            Err(ErrorV::TypeError { left: mt, right: expr_ty_vspec(item) })
        },
    }
}

/// The view of a `Result` carrying a merge node or an error.
pub open spec fn merge_res_view(r: Result<Merge, Error>) -> Result<ExprV, ErrorV> {
    match r {
        Ok(m) => Ok(ExprV::Merge { builder: Box::new((*m.builder)@), value: Box::new((*m.value)@) }),
        Err(e) => Err(e@),
    }
}

/// Merge `item` into the builder expression `b`; see `merge_spec_e`.
pub fn merge_exprs(b: Expr, item: Expr) -> (r: Result<Merge, Error>)
    ensures
        merge_res_view(r) == merge_spec_e(b@, item@),
{
    let bt = expr_ty(&b);
    match bt.merge() {
        Err(e) => Err(e),
        Ok(mt) => {
            let it = expr_ty(&item);
            if type_eq(&it, &mt) {
                Ok(Merge { builder: Box::new(b), value: Box::new(item) })
            } else {
                Err(Error::TypeError { left: mt, right: it })
            }
        },
    }
}

/// Base trait of every expression that can accept one more merged item.
pub trait Builder: Sized {
    /// The view of the builder expression this value denotes.
    spec fn as_expr_v(&self) -> ExprV;

    /// Merge `item`, yielding the updated builder expression; see
    /// `merge_spec_e`.
    fn merge(self, item: Expr) -> (r: Result<Merge, Error>)
        ensures
            merge_res_view(r) == merge_spec_e(self.as_expr_v(), item@),
    ;

    /// The result type of evaluating this builder; see
    /// `TypeV::eval_spec`.
    fn eval_type(&self) -> (r: Result<Type, Error>)
        ensures
            ty_res_view(r) == expr_ty_vspec(self.as_expr_v()).eval_spec(),
    ;
}

impl Builder for NewAppender {
    open spec fn as_expr_v(&self) -> ExprV {
        self@
    }

    fn merge(self, item: Expr) -> (r: Result<Merge, Error>) {
        merge_exprs(Expr::NewAppender(self), item)
    }

    fn eval_type(&self) -> (r: Result<Type, Error>) {
        let t = crate::ty::TypeInference::ty(self);
        t.eval()
    }
}

impl Builder for NewMerger {
    open spec fn as_expr_v(&self) -> ExprV {
        self@
    }

    fn merge(self, item: Expr) -> (r: Result<Merge, Error>) {
        merge_exprs(Expr::NewMerger(self), item)
    }

    fn eval_type(&self) -> (r: Result<Type, Error>) {
        let t = crate::ty::TypeInference::ty(self);
        t.eval()
    }
}

impl Builder for NewDictMerger {
    open spec fn as_expr_v(&self) -> ExprV {
        self@
    }

    fn merge(self, item: Expr) -> (r: Result<Merge, Error>) {
        merge_exprs(Expr::NewDictMerger(self), item)
    }

    fn eval_type(&self) -> (r: Result<Type, Error>) {
        let t = crate::ty::TypeInference::ty(self);
        t.eval()
    }
}

impl Builder for NewGroupMerger {
    open spec fn as_expr_v(&self) -> ExprV {
        self@
    }

    fn merge(self, item: Expr) -> (r: Result<Merge, Error>) {
        merge_exprs(Expr::NewGroupMerger(self), item)
    }

    fn eval_type(&self) -> (r: Result<Type, Error>) {
        let t = crate::ty::TypeInference::ty(self);
        t.eval()
    }
}

impl Builder for NewVecMerger {
    open spec fn as_expr_v(&self) -> ExprV {
        self@
    }

    fn merge(self, item: Expr) -> (r: Result<Merge, Error>) {
        merge_exprs(Expr::NewVecMerger(self), item)
    }

    fn eval_type(&self) -> (r: Result<Type, Error>) {
        let t = crate::ty::TypeInference::ty(self);
        t.eval()
    }
}

impl Builder for Merge {
    open spec fn as_expr_v(&self) -> ExprV {
        self@
    }

    fn merge(self, item: Expr) -> (r: Result<Merge, Error>) {
        merge_exprs(Expr::Merge(self), item)
    }

    fn eval_type(&self) -> (r: Result<Type, Error>) {
        let t = crate::ty::TypeInference::ty(self);
        t.eval()
    }
}

impl Builder for For {
    open spec fn as_expr_v(&self) -> ExprV {
        self@
    }

    fn merge(self, item: Expr) -> (r: Result<Merge, Error>) {
        merge_exprs(Expr::For(self), item)
    }

    fn eval_type(&self) -> (r: Result<Type, Error>) {
        let t = crate::ty::TypeInference::ty(self);
        t.eval()
    }
}

impl Builder for Symbol {
    open spec fn as_expr_v(&self) -> ExprV {
        ExprV::Symbol(self@)
    }

    fn merge(self, item: Expr) -> (r: Result<Merge, Error>) {
        merge_exprs(Expr::Symbol(self), item)
    }

    fn eval_type(&self) -> (r: Result<Type, Error>) {
        let t = self.ty.clone();
        t.eval()
    }
}

} // verus!
