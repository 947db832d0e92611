//! The expression tree: the closed set of node kinds, its mathematical
//! view, and type inference over it.

use vstd::prelude::*;

use crate::bin_op::BinOp;
use crate::bin_op::BinOpType;
use crate::error::{Error, ErrorV};
use crate::lit::{LitV, Literal};
use crate::sym::{SymV, Symbol};
use crate::ty::{type_view, Bool, DictType, Type, TypeInference, TypeV, VectorType, U64};
use crate::unary_op::{UnaryOp, UnaryOpType};

verus! {

/// Broadcasts a scalar into a vector of identical items.
#[derive(Debug, PartialEq, Eq, Hash)]
#[verifier::ext_equal]
pub struct Broadcast {
    pub value: Box<Expr>,
}

/// Casts a scalar expression to another type.
#[derive(Debug, PartialEq, Eq, Hash)]
#[verifier::ext_equal]
pub struct Cast {
    pub ty: Type,
    pub value: Box<Expr>,
}

/// Accesses a tuple field at a given index.
#[derive(Debug, PartialEq, Eq, Hash)]
#[verifier::ext_equal]
pub struct GetField {
    pub tuple: Box<Expr>,
    pub index: u32,
}

/// The length of a vector, as a `U64`.
#[derive(Debug, PartialEq, Eq, Hash)]
#[verifier::ext_equal]
pub struct Length(pub Box<Expr>);

/// Looks a value up in a dictionary.
#[derive(Debug, PartialEq, Eq, Hash)]
#[verifier::ext_equal]
pub struct Lookup {
    pub data: Box<Expr>,
    pub index: Box<Expr>,
}

/// Evaluates one of two branches based on a condition.
#[derive(Debug, PartialEq, Eq, Hash)]
#[verifier::ext_equal]
pub struct IfThenElse {
    pub i: Box<Expr>,
    pub t: Box<Expr>,
    pub e: Box<Expr>,
}

/// One parallel data source of a `For`, with optional bounds; absent
/// bounds mean the whole source.
#[derive(Debug, PartialEq, Eq, Hash)]
#[verifier::ext_equal]
pub struct Iter {
    pub data: Box<Expr>,
    pub start: Option<Box<Expr>>,
    pub end: Option<Box<Expr>>,
}

/// Updates a builder in parallel by iterating over data sources.
#[derive(Debug, PartialEq, Eq, Hash)]
#[verifier::ext_equal]
pub struct For {
    pub iters: Vec<Iter>,
    pub builder: Box<Expr>,
    pub func: Box<Expr>,
}

/// Feeds one value into a builder, yielding the updated builder.
#[derive(Debug, PartialEq, Eq, Hash)]
#[verifier::ext_equal]
pub struct Merge {
    pub builder: Box<Expr>,
    pub value: Box<Expr>,
}

/// An anonymous function: parameter symbols and a body.
#[derive(Debug, PartialEq, Eq, Hash)]
#[verifier::ext_equal]
pub struct Lambda {
    pub params: Vec<Symbol>,
    pub body: Box<Expr>,
}

/// Constructs a new vector from item expressions; the item type is kept
/// so that an empty vector still has a type.
#[derive(Debug, PartialEq, Eq, Hash)]
#[verifier::ext_equal]
pub struct Vector {
    pub item_ty: Type,
    pub items: Vec<Expr>,
}

/// Constructs a new, empty dictionary.
#[derive(Debug, PartialEq, Eq, Hash)]
#[verifier::ext_equal]
pub struct NewDict {
    pub key_ty: Type,
    pub value_ty: Type,
}

/// Constructs a new tuple from element expressions.
#[derive(Debug, PartialEq, Eq, Hash)]
#[verifier::ext_equal]
pub struct NewTuple(pub Vec<Expr>);

/// Constructs a new appender builder.
#[derive(Debug, PartialEq, Eq, Hash)]
#[verifier::ext_equal]
pub struct NewAppender {
    pub item_ty: Type,
}

/// Constructs a new merger builder.
#[derive(Debug, PartialEq, Eq, Hash)]
#[verifier::ext_equal]
pub struct NewMerger {
    pub item_ty: Type,
    pub op_ty: BinOpType,
}

/// Constructs a new dictmerger builder.
#[derive(Debug, PartialEq, Eq, Hash)]
#[verifier::ext_equal]
pub struct NewDictMerger {
    pub key_ty: Type,
    pub value_ty: Type,
    pub op_ty: BinOpType,
}

/// Constructs a new groupmerger builder.
#[derive(Debug, PartialEq, Eq, Hash)]
#[verifier::ext_equal]
pub struct NewGroupMerger {
    pub key_ty: Type,
    pub value_ty: Type,
}

/// Constructs a new vecmerger builder.
#[derive(Debug, PartialEq, Eq, Hash)]
#[verifier::ext_equal]
pub struct NewVecMerger {
    pub item_ty: Type,
    pub op_ty: BinOpType,
}

/// Consumes a builder and yields its result value.
#[derive(Debug, PartialEq, Eq, Hash)]
#[verifier::ext_equal]
pub struct Eval(pub Box<Expr>);

/// Expr is the closed, recursive expression tree of the staged language.
#[derive(Debug, PartialEq, Eq, Hash)]
#[verifier::ext_equal]
pub enum Expr {
    /// A literal constant.
    Literal(Literal),
    /// An identifier.
    Symbol(Symbol),
    /// Broadcasts a scalar into a vector.
    Broadcast(Broadcast),
    /// Applies a binary operator to two children.
    BinOp(BinOp),
    /// Applies a unary operator to one child.
    UnaryOp(UnaryOp),
    /// Casts a scalar expression to another type.
    Cast(Cast),
    /// Accesses a tuple field at a given index.
    GetField(GetField),
    /// The length of a vector as a `U64`.
    Length(Length),
    /// Looks a value up in a dictionary.
    Lookup(Lookup),
    /// Evaluates one of two branches based on a condition.
    IfThenElse(IfThenElse),
    /// Updates a builder in parallel by iterating over data.
    For(For),
    /// Feeds one value into a builder.
    Merge(Merge),
    /// An anonymous function.
    Lambda(Lambda),
    /// Constructs a new vector.
    NewVector(Vector),
    /// Constructs a new dictionary.
    NewDict(NewDict),
    /// Constructs a new appender.
    NewAppender(NewAppender),
    /// Constructs a new merger.
    NewMerger(NewMerger),
    /// Constructs a new dictmerger.
    NewDictMerger(NewDictMerger),
    /// Constructs a new groupmerger.
    NewGroupMerger(NewGroupMerger),
    /// Constructs a new vecmerger.
    NewVecMerger(NewVecMerger),
    /// Consumes a builder and yields its result.
    Eval(Eval),
}

/// The mathematical view of one `For` data source.
#[verifier::ext_equal]
pub struct IterV {
    pub data: Box<ExprV>,
    pub start: Option<Box<ExprV>>,
    pub end: Option<Box<ExprV>>,
}

/// The mathematical view of an expression tree: the same closed set of
/// node kinds, over `Seq` and views.
#[verifier::ext_equal]
pub enum ExprV {
    Literal(LitV),
    Symbol(SymV),
    Broadcast(Box<ExprV>),
    BinOp { op_ty: BinOpType, left: Box<ExprV>, right: Box<ExprV> },
    UnaryOp { op_ty: UnaryOpType, value: Box<ExprV> },
    Cast { ty: TypeV, value: Box<ExprV> },
    GetField { tuple: Box<ExprV>, index: u32 },
    Length(Box<ExprV>),
    Lookup { data: Box<ExprV>, index: Box<ExprV> },
    IfThenElse { i: Box<ExprV>, t: Box<ExprV>, e: Box<ExprV> },
    For { iters: Seq<IterV>, builder: Box<ExprV>, func: Box<ExprV> },
    Merge { builder: Box<ExprV>, value: Box<ExprV> },
    Lambda { params: Seq<SymV>, body: Box<ExprV> },
    NewVector { item_ty: TypeV, items: Seq<ExprV> },
    NewDict { key_ty: TypeV, value_ty: TypeV },
    NewAppender { item_ty: TypeV },
    NewMerger { item_ty: TypeV, op_ty: BinOpType },
    NewDictMerger { key_ty: TypeV, value_ty: TypeV, op_ty: BinOpType },
    NewGroupMerger { key_ty: TypeV, value_ty: TypeV },
    NewVecMerger { item_ty: TypeV, op_ty: BinOpType },
    Eval(Box<ExprV>),
}

/// The view of an expression.
pub open spec fn expr_view(e: Expr) -> ExprV
    decreases e,
{
    match e {
        Expr::Literal(l) => ExprV::Literal(l@),
        Expr::Symbol(s) => ExprV::Symbol(s@),
        Expr::Broadcast(b) => ExprV::Broadcast(Box::new(expr_view(*b.value))),
        Expr::BinOp(b) => ExprV::BinOp {
            op_ty: b.op_ty,
            left: Box::new(expr_view(*b.left)),
            right: Box::new(expr_view(*b.right)),
        },
        Expr::UnaryOp(u) => ExprV::UnaryOp { op_ty: u.op_ty, value: Box::new(expr_view(*u.value)) },
        Expr::Cast(c) => ExprV::Cast { ty: c.ty@, value: Box::new(expr_view(*c.value)) },
        Expr::GetField(g) => ExprV::GetField {
            tuple: Box::new(expr_view(*g.tuple)),
            index: g.index,
        },
        Expr::Length(l) => ExprV::Length(Box::new(expr_view(*l.0))),
        Expr::Lookup(lk) => ExprV::Lookup {
            data: Box::new(expr_view(*lk.data)),
            index: Box::new(expr_view(*lk.index)),
        },
        Expr::IfThenElse(ite) => ExprV::IfThenElse {
            i: Box::new(expr_view(*ite.i)),
            t: Box::new(expr_view(*ite.t)),
            e: Box::new(expr_view(*ite.e)),
        },
        Expr::For(f) => ExprV::For {
            iters: iter_seq_view(f.iters@),
            builder: Box::new(expr_view(*f.builder)),
            func: Box::new(expr_view(*f.func)),
        },
        Expr::Merge(m) => ExprV::Merge {
            builder: Box::new(expr_view(*m.builder)),
            value: Box::new(expr_view(*m.value)),
        },
        Expr::Lambda(lm) => ExprV::Lambda {
            params: sym_seq_view(lm.params@),
            body: Box::new(expr_view(*lm.body)),
        },
        Expr::NewVector(v) => ExprV::NewVector {
            item_ty: v.item_ty@,
            items: expr_seq_view(v.items@),
        },
        Expr::NewDict(d) => ExprV::NewDict { key_ty: d.key_ty@, value_ty: d.value_ty@ },
        Expr::NewAppender(a) => ExprV::NewAppender { item_ty: a.item_ty@ },
        Expr::NewMerger(m) => ExprV::NewMerger { item_ty: m.item_ty@, op_ty: m.op_ty },
        Expr::NewDictMerger(dm) => ExprV::NewDictMerger {
            key_ty: dm.key_ty@,
            value_ty: dm.value_ty@,
            op_ty: dm.op_ty,
        },
        Expr::NewGroupMerger(gm) => ExprV::NewGroupMerger {
            key_ty: gm.key_ty@,
            value_ty: gm.value_ty@,
        },
        Expr::NewVecMerger(vm) => ExprV::NewVecMerger { item_ty: vm.item_ty@, op_ty: vm.op_ty },
        Expr::Eval(ev) => ExprV::Eval(Box::new(expr_view(*ev.0))),
    }
}

/// The view of one data source.
pub open spec fn iter_view(it: Iter) -> IterV
    decreases it,
{
    IterV {
        data: Box::new(expr_view(*it.data)),
        start: match it.start {
            Some(b) => Some(Box::new(expr_view(*b))),
            None => None,
        },
        end: match it.end {
            Some(b) => Some(Box::new(expr_view(*b))),
            None => None,
        },
    }
}

/// The views of a list of expressions.
pub open spec fn expr_seq_view(s: Seq<Expr>) -> Seq<ExprV>
    decreases s,
{
    if s.len() == 0 {
        Seq::empty()
    } else {
        seq![expr_view(s[0])] + expr_seq_view(s.skip(1))
    }
}

/// The views of a list of symbols.
pub open spec fn sym_seq_view(s: Seq<Symbol>) -> Seq<SymV> {
    Seq::new(s.len(), |i: int| s[i]@)
}

/// The views of a list of data sources.
pub open spec fn iter_seq_view(s: Seq<Iter>) -> Seq<IterV>
    decreases s,
{
    if s.len() == 0 {
        Seq::empty()
    } else {
        seq![iter_view(s[0])] + iter_seq_view(s.skip(1))
    }
}

/// A list of views is as long as the list it views.
pub broadcast proof fn lemma_expr_seq_view_len(s: Seq<Expr>)
    ensures
        (#[trigger] expr_seq_view(s)).len() == s.len(),
    decreases s,
{
    if s.len() != 0 {
        lemma_expr_seq_view_len(s.skip(1));
    }
}

/// A list of views holds, position by position, the views of the list it
/// views.
pub broadcast proof fn lemma_expr_seq_view_index(s: Seq<Expr>, i: int)
    requires
        0 <= i < s.len(),
    ensures
        #[trigger] expr_seq_view(s)[i] == expr_view(s[i]),
    decreases s,
{
    lemma_expr_seq_view_len(s);
    if i > 0 {
        lemma_expr_seq_view_index(s.skip(1), i - 1);
    }
}

/// A list of views is as long as the list it views.
pub broadcast proof fn lemma_iter_seq_view_len(s: Seq<Iter>)
    ensures
        (#[trigger] iter_seq_view(s)).len() == s.len(),
    decreases s,
{
    if s.len() != 0 {
        lemma_iter_seq_view_len(s.skip(1));
    }
}

/// A list of views holds, position by position, the views of the list it
/// views.
pub broadcast proof fn lemma_iter_seq_view_index(s: Seq<Iter>, i: int)
    requires
        0 <= i < s.len(),
    ensures
        #[trigger] iter_seq_view(s)[i] == iter_view(s[i]),
    decreases s,
{
    lemma_iter_seq_view_len(s);
    if i > 0 {
        lemma_iter_seq_view_index(s.skip(1), i - 1);
    }
}


impl View for Expr {
    type V = ExprV;

    #[verifier::inline]
    open spec fn view(&self) -> ExprV {
        expr_view(*self)
    }
}

impl View for Iter {
    type V = IterV;

    #[verifier::inline]
    open spec fn view(&self) -> IterV {
        iter_view(*self)
    }
}


impl View for Broadcast {
    type V = ExprV;

    #[verifier::inline]
    open spec fn view(&self) -> ExprV {
        ExprV::Broadcast(Box::new(expr_view(*self.value)))
    }
}

impl View for Cast {
    type V = ExprV;

    #[verifier::inline]
    open spec fn view(&self) -> ExprV {
        ExprV::Cast { ty: type_view(self.ty), value: Box::new(expr_view(*self.value)) }
    }
}

impl View for GetField {
    type V = ExprV;

    #[verifier::inline]
    open spec fn view(&self) -> ExprV {
        ExprV::GetField { tuple: Box::new(expr_view(*self.tuple)), index: self.index }
    }
}

impl View for Length {
    type V = ExprV;

    #[verifier::inline]
    open spec fn view(&self) -> ExprV {
        ExprV::Length(Box::new(expr_view(*self.0)))
    }
}

impl View for Lookup {
    type V = ExprV;

    #[verifier::inline]
    open spec fn view(&self) -> ExprV {
        ExprV::Lookup {
            data: Box::new(expr_view(*self.data)),
            index: Box::new(expr_view(*self.index)),
        }
    }
}

impl View for IfThenElse {
    type V = ExprV;

    #[verifier::inline]
    open spec fn view(&self) -> ExprV {
        ExprV::IfThenElse {
            i: Box::new(expr_view(*self.i)),
            t: Box::new(expr_view(*self.t)),
            e: Box::new(expr_view(*self.e)),
        }
    }
}

impl View for For {
    type V = ExprV;

    #[verifier::inline]
    open spec fn view(&self) -> ExprV {
        ExprV::For {
            iters: iter_seq_view(self.iters@),
            builder: Box::new(expr_view(*self.builder)),
            func: Box::new(expr_view(*self.func)),
        }
    }
}

impl View for Merge {
    type V = ExprV;

    #[verifier::inline]
    open spec fn view(&self) -> ExprV {
        ExprV::Merge {
            builder: Box::new(expr_view(*self.builder)),
            value: Box::new(expr_view(*self.value)),
        }
    }
}

impl View for Lambda {
    type V = ExprV;

    #[verifier::inline]
    open spec fn view(&self) -> ExprV {
        ExprV::Lambda { params: sym_seq_view(self.params@), body: Box::new(expr_view(*self.body)) }
    }
}

impl View for Vector {
    type V = ExprV;

    #[verifier::inline]
    open spec fn view(&self) -> ExprV {
        ExprV::NewVector { item_ty: type_view(self.item_ty), items: expr_seq_view(self.items@) }
    }
}

impl View for NewDict {
    type V = ExprV;

    #[verifier::inline]
    open spec fn view(&self) -> ExprV {
        ExprV::NewDict { key_ty: type_view(self.key_ty), value_ty: type_view(self.value_ty) }
    }
}

impl View for NewTuple {
    type V = Seq<ExprV>;

    #[verifier::inline]
    open spec fn view(&self) -> Seq<ExprV> {
        expr_seq_view(self.0@)
    }
}

impl View for NewAppender {
    type V = ExprV;

    #[verifier::inline]
    open spec fn view(&self) -> ExprV {
        ExprV::NewAppender { item_ty: type_view(self.item_ty) }
    }
}

impl View for NewMerger {
    type V = ExprV;

    #[verifier::inline]
    open spec fn view(&self) -> ExprV {
        ExprV::NewMerger { item_ty: type_view(self.item_ty), op_ty: self.op_ty }
    }
}

impl View for NewDictMerger {
    type V = ExprV;

    #[verifier::inline]
    open spec fn view(&self) -> ExprV {
        ExprV::NewDictMerger {
            key_ty: type_view(self.key_ty),
            value_ty: type_view(self.value_ty),
            op_ty: self.op_ty,
        }
    }
}

impl View for NewGroupMerger {
    type V = ExprV;

    #[verifier::inline]
    open spec fn view(&self) -> ExprV {
        ExprV::NewGroupMerger {
            key_ty: type_view(self.key_ty),
            value_ty: type_view(self.value_ty),
        }
    }
}

impl View for NewVecMerger {
    type V = ExprV;

    #[verifier::inline]
    open spec fn view(&self) -> ExprV {
        ExprV::NewVecMerger { item_ty: type_view(self.item_ty), op_ty: self.op_ty }
    }
}

impl View for Eval {
    type V = ExprV;

    #[verifier::inline]
    open spec fn view(&self) -> ExprV {
        ExprV::Eval(Box::new(expr_view(*self.0)))
    }
}

/// The type of an expression, derived purely from the node and its
/// children. Nodes whose type cannot be derived (a lambda, or an
/// ill-formed projection that the construction API would have rejected)
/// are `Unknown`.
pub open spec fn expr_ty_vspec(e: ExprV) -> TypeV
    decreases e,
{
    match e {
        ExprV::Literal(l) => l.ty_spec(),
        ExprV::Symbol(s) => s.ty,
        ExprV::Broadcast(value) => TypeV::Vector(Box::new(expr_ty_vspec(*value))),
        ExprV::BinOp { op_ty, left, .. } => if op_ty.is_bool_result() {
            TypeV::Bool
        } else {
            expr_ty_vspec(*left)
        },
        ExprV::UnaryOp { op_ty, value } => match op_ty {
            UnaryOpType::Not => TypeV::Bool,
            UnaryOpType::Neg => expr_ty_vspec(*value),
            _ => TypeV::Unknown,
        },
        ExprV::Cast { ty, .. } => ty,
        ExprV::GetField { tuple, index } => match expr_ty_vspec(*tuple) {
            TypeV::Tuple(ts) => if index < ts.len() {
                ts[index as int]
            } else {
                TypeV::Unknown
            },
            _ => TypeV::Unknown,
        },
        ExprV::Length(_) => TypeV::U64,
        ExprV::Lookup { data, .. } => match expr_ty_vspec(*data) {
            TypeV::Dict(_, v) => *v,
            _ => TypeV::Unknown,
        },
        ExprV::IfThenElse { t, .. } => expr_ty_vspec(*t),
        ExprV::For { builder, .. } => expr_ty_vspec(*builder),
        ExprV::Merge { builder, .. } => expr_ty_vspec(*builder),
        ExprV::Lambda { .. } => TypeV::Unknown,
        ExprV::NewVector { item_ty, .. } => TypeV::Vector(Box::new(item_ty)),
        ExprV::NewDict { key_ty, value_ty } => TypeV::Dict(Box::new(key_ty), Box::new(value_ty)),
        ExprV::NewAppender { item_ty } => TypeV::Appender(Box::new(item_ty)),
        ExprV::NewMerger { item_ty, op_ty } => TypeV::Merger(Box::new(item_ty), op_ty),
        ExprV::NewDictMerger { key_ty, value_ty, op_ty } => TypeV::DictMerger(
            Box::new(key_ty),
            Box::new(value_ty),
            op_ty,
        ),
        ExprV::NewGroupMerger { key_ty, value_ty } => TypeV::GroupMerger(
            Box::new(key_ty),
            Box::new(value_ty),
        ),
        ExprV::NewVecMerger { item_ty, op_ty } => TypeV::VecMerger(Box::new(item_ty), op_ty),
        ExprV::Eval(b) => match expr_ty_vspec(*b).eval_spec() {
            Ok(t) => t,
            Err(_) => TypeV::Unknown,
        },
    }
}

/// Compute the type of an expression; see `expr_ty_vspec`.
pub fn expr_ty(e: &Expr) -> (t: Type)
    ensures
        t@ == expr_ty_vspec(e@),
    decreases e,
{
    match e {
        Expr::Literal(l) => l.ty(),
        Expr::Symbol(s) => s.ty.clone(),
        Expr::Broadcast(b) => Type::Vector(VectorType { item_ty: Box::new(expr_ty(&b.value)) }),
        Expr::BinOp(b) => match b.op_ty {
            BinOpType::Equal | BinOpType::NotEqual | BinOpType::LessThan
                | BinOpType::LessThanOrEqual | BinOpType::GreaterThan
                | BinOpType::GreaterThanOrEqual | BinOpType::LogicalAnd
                | BinOpType::LogicalOr => Type::Bool(Bool),
            _ => expr_ty(&b.left),
        },
        Expr::UnaryOp(u) => match u.op_ty {
            UnaryOpType::Not => Type::Bool(Bool),
            UnaryOpType::Neg => expr_ty(&u.value),
            _ => Type::Unknown,
        },
        Expr::Cast(c) => c.ty.clone(),
        Expr::GetField(g) => {
            let tt = expr_ty(&g.tuple);
            match tt {
                Type::Tuple(tt) => {
                    proof {
                        crate::ty::lemma_type_seq_view_len(tt.0@);
                    }
                    if (g.index as usize) < tt.0.len() {
                        proof {
                            crate::ty::lemma_type_seq_view_index(tt.0@, g.index as int);
                        }
                        tt.0[g.index as usize].clone()
                    } else {
                        Type::Unknown
                    }
                },
                _ => Type::Unknown,
            }
        },
        Expr::Length(_) => Type::U64(U64),
        Expr::Lookup(lk) => {
            let dt = expr_ty(&lk.data);
            match dt {
                Type::Dict(d) => *d.value_ty,
                _ => Type::Unknown,
            }
        },
        Expr::IfThenElse(ite) => expr_ty(&ite.t),
        Expr::For(f) => expr_ty(&f.builder),
        Expr::Merge(m) => expr_ty(&m.builder),
        Expr::Lambda(_) => Type::Unknown,
        Expr::NewVector(v) => Type::Vector(VectorType { item_ty: Box::new(v.item_ty.clone()) }),
        Expr::NewDict(d) => Type::Dict(
            DictType { key_ty: Box::new(d.key_ty.clone()), value_ty: Box::new(d.value_ty.clone()) },
        ),
        Expr::NewAppender(a) => Type::Appender(
            crate::ty::AppenderType { item_ty: Box::new(a.item_ty.clone()) },
        ),
        Expr::NewMerger(m) => Type::Merger(
            crate::ty::MergerType { item_ty: Box::new(m.item_ty.clone()), op_ty: m.op_ty },
        ),
        Expr::NewDictMerger(dm) => Type::DictMerger(
            crate::ty::DictMergerType {
                key_ty: Box::new(dm.key_ty.clone()),
                value_ty: Box::new(dm.value_ty.clone()),
                op_ty: dm.op_ty,
            },
        ),
        Expr::NewGroupMerger(gm) => Type::GroupMerger(
            crate::ty::GroupMergerType {
                key_ty: Box::new(gm.key_ty.clone()),
                value_ty: Box::new(gm.value_ty.clone()),
            },
        ),
        Expr::NewVecMerger(vm) => Type::VecMerger(
            crate::ty::VecMergerType { item_ty: Box::new(vm.item_ty.clone()), op_ty: vm.op_ty },
        ),
        Expr::Eval(ev) => {
            let bt = expr_ty(&ev.0);
            match bt.eval() {
                Ok(t) => t,
                Err(_) => Type::Unknown,
            }
        },
    }
}

impl Expr {
    /// The symbol, if this expression is a symbol reference.
    pub fn as_symbol(&self) -> (r: Option<&Symbol>)
        ensures
            (self matches Expr::Symbol(s) ==> r == Some(s)),
            !(self is Symbol) ==> r is None,
    {
        match self {
            Expr::Symbol(sym) => Some(sym),
            _ => None,
        }
    }

    /// Whether this expression is a symbol reference.
    pub fn is_symbol(&self) -> (r: bool)
        ensures
            r == (self is Symbol),
    {
        match self {
            Expr::Symbol(_) => true,
            _ => false,
        }
    }

    /// The literal, if this expression is a literal constant.
    pub fn as_lit(&self) -> (r: Option<&Literal>)
        ensures
            (self matches Expr::Literal(l) ==> r == Some(l)),
            !(self is Literal) ==> r is None,
    {
        match self {
            Expr::Literal(lit) => Some(lit),
            _ => None,
        }
    }

    /// Whether this expression is a literal constant.
    pub fn is_lit(&self) -> (r: bool)
        ensures
            r == (self is Literal),
    {
        match self {
            Expr::Literal(_) => true,
            _ => false,
        }
    }
}

impl TypeInference for Expr {
    open spec fn ty_vspec(&self) -> TypeV {
        expr_ty_vspec(expr_view(*self))
    }

    fn ty(&self) -> (t: Type) {
        expr_ty(self)
    }
}

impl TypeInference for BinOp {
    open spec fn ty_vspec(&self) -> TypeV {
        if self.op_ty.is_bool_result() {
            TypeV::Bool
        } else {
            expr_ty_vspec(expr_view(*self.left))
        }
    }

    fn ty(&self) -> (t: Type) {
        match self.op_ty {
            BinOpType::Equal | BinOpType::NotEqual | BinOpType::LessThan
                | BinOpType::LessThanOrEqual | BinOpType::GreaterThan
                | BinOpType::GreaterThanOrEqual | BinOpType::LogicalAnd
                | BinOpType::LogicalOr => Type::Bool(Bool),
            _ => expr_ty(&self.left),
        }
    }
}

impl TypeInference for Symbol {
    open spec fn ty_vspec(&self) -> TypeV {
        type_view(self.ty)
    }

    fn ty(&self) -> (t: Type) {
        self.ty.clone()
    }
}

impl TypeInference for Broadcast {
    open spec fn ty_vspec(&self) -> TypeV {
        TypeV::Vector(Box::new(expr_ty_vspec(expr_view(*self.value))))
    }

    fn ty(&self) -> (t: Type) {
        Type::Vector(VectorType { item_ty: Box::new(expr_ty(&self.value)) })
    }
}

impl TypeInference for Cast {
    open spec fn ty_vspec(&self) -> TypeV {
        type_view(self.ty)
    }

    fn ty(&self) -> (t: Type) {
        self.ty.clone()
    }
}

impl TypeInference for Length {
    open spec fn ty_vspec(&self) -> TypeV {
        TypeV::U64
    }

    fn ty(&self) -> (t: Type) {
        Type::U64(U64)
    }
}

impl TypeInference for IfThenElse {
    open spec fn ty_vspec(&self) -> TypeV {
        expr_ty_vspec(expr_view(*self.t))
    }

    fn ty(&self) -> (t: Type) {
        expr_ty(&self.t)
    }
}

impl TypeInference for For {
    open spec fn ty_vspec(&self) -> TypeV {
        expr_ty_vspec(expr_view(*self.builder))
    }

    fn ty(&self) -> (t: Type) {
        expr_ty(&self.builder)
    }
}

impl TypeInference for Merge {
    open spec fn ty_vspec(&self) -> TypeV {
        expr_ty_vspec(expr_view(*self.builder))
    }

    fn ty(&self) -> (t: Type) {
        expr_ty(&self.builder)
    }
}

impl TypeInference for Vector {
    open spec fn ty_vspec(&self) -> TypeV {
        TypeV::Vector(Box::new(type_view(self.item_ty)))
    }

    fn ty(&self) -> (t: Type) {
        Type::Vector(VectorType { item_ty: Box::new(self.item_ty.clone()) })
    }
}

impl TypeInference for NewDict {
    open spec fn ty_vspec(&self) -> TypeV {
        TypeV::Dict(Box::new(type_view(self.key_ty)), Box::new(type_view(self.value_ty)))
    }

    fn ty(&self) -> (t: Type) {
        Type::Dict(
            DictType {
                key_ty: Box::new(self.key_ty.clone()),
                value_ty: Box::new(self.value_ty.clone()),
            },
        )
    }
}

impl TypeInference for NewAppender {
    open spec fn ty_vspec(&self) -> TypeV {
        TypeV::Appender(Box::new(type_view(self.item_ty)))
    }

    fn ty(&self) -> (t: Type) {
        Type::Appender(crate::ty::AppenderType { item_ty: Box::new(self.item_ty.clone()) })
    }
}

impl TypeInference for NewMerger {
    open spec fn ty_vspec(&self) -> TypeV {
        TypeV::Merger(Box::new(type_view(self.item_ty)), self.op_ty)
    }

    fn ty(&self) -> (t: Type) {
        Type::Merger(
            crate::ty::MergerType { item_ty: Box::new(self.item_ty.clone()), op_ty: self.op_ty },
        )
    }
}

impl TypeInference for NewDictMerger {
    open spec fn ty_vspec(&self) -> TypeV {
        TypeV::DictMerger(
            Box::new(type_view(self.key_ty)),
            Box::new(type_view(self.value_ty)),
            self.op_ty,
        )
    }

    fn ty(&self) -> (t: Type) {
        Type::DictMerger(
            crate::ty::DictMergerType {
                key_ty: Box::new(self.key_ty.clone()),
                value_ty: Box::new(self.value_ty.clone()),
                op_ty: self.op_ty,
            },
        )
    }
}

impl TypeInference for NewGroupMerger {
    open spec fn ty_vspec(&self) -> TypeV {
        TypeV::GroupMerger(Box::new(type_view(self.key_ty)), Box::new(type_view(self.value_ty)))
    }

    fn ty(&self) -> (t: Type) {
        Type::GroupMerger(
            crate::ty::GroupMergerType {
                key_ty: Box::new(self.key_ty.clone()),
                value_ty: Box::new(self.value_ty.clone()),
            },
        )
    }
}

impl TypeInference for NewVecMerger {
    open spec fn ty_vspec(&self) -> TypeV {
        TypeV::VecMerger(Box::new(type_view(self.item_ty)), self.op_ty)
    }

    fn ty(&self) -> (t: Type) {
        Type::VecMerger(
            crate::ty::VecMergerType { item_ty: Box::new(self.item_ty.clone()), op_ty: self.op_ty },
        )
    }
}

impl TypeInference for Eval {
    open spec fn ty_vspec(&self) -> TypeV {
        match expr_ty_vspec(expr_view(*self.0)).eval_spec() {
            Ok(t) => t,
            Err(_) => TypeV::Unknown,
        }
    }

    fn ty(&self) -> (t: Type) {
        let bt = expr_ty(&self.0);
        match bt.eval() {
            Ok(t) => t,
            Err(_) => Type::Unknown,
        }
    }
}

/// Deep copy of a list of expressions.
pub fn clone_expr_vec(v: &Vec<Expr>) -> (res: Vec<Expr>)
    ensures
        res@.len() == v@.len(),
        forall|k: int| 0 <= k < v@.len() ==> #[trigger] res@[k]@ == v@[k]@,
    decreases v@,
{
    let mut out: Vec<Expr> = Vec::new();
    let mut i: usize = 0;
    while i < v.len()
        invariant
            i <= v@.len(),
            out@.len() == i,
            forall|k: int| 0 <= k < i ==> #[trigger] out@[k]@ == v@[k]@,
        decreases v@.len() - i,
    {
        out.push(v[i].clone());
        i += 1;
    }
    out
}

/// Deep copy of a list of iteration sources.
pub fn clone_iter_vec(v: &Vec<Iter>) -> (res: Vec<Iter>)
    ensures
        res@.len() == v@.len(),
        forall|k: int| 0 <= k < v@.len() ==> #[trigger] res@[k]@ == v@[k]@,
    decreases v@,
{
    let mut out: Vec<Iter> = Vec::new();
    let mut i: usize = 0;
    while i < v.len()
        invariant
            i <= v@.len(),
            out@.len() == i,
            forall|k: int| 0 <= k < i ==> #[trigger] out@[k]@ == v@[k]@,
        decreases v@.len() - i,
    {
        out.push(v[i].clone());
        i += 1;
    }
    out
}

/// Deep copy of a list of symbols.
pub fn clone_sym_vec(v: &Vec<Symbol>) -> (res: Vec<Symbol>)
    ensures
        res@.len() == v@.len(),
        forall|k: int| 0 <= k < v@.len() ==> (#[trigger] res@[k])@ == v@[k]@,
{
    let mut out: Vec<Symbol> = Vec::new();
    let mut i: usize = 0;
    while i < v.len()
        invariant
            i <= v@.len(),
            out@.len() == i,
            forall|k: int| 0 <= k < i ==> (#[trigger] out@[k])@ == v@[k]@,
        decreases v@.len() - i,
    {
        out.push(v[i].clone());
        i += 1;
    }
    out
}

impl Clone for Broadcast {
    /// Deep copy; the copy has the same view.
    fn clone(&self) -> (res: Self)
        ensures
            res@ == self@,
        decreases self,
    {
        Broadcast { value: Box::new((*self.value).clone()) }
    }
}

impl Clone for Cast {
    /// Deep copy; the copy has the same view.
    fn clone(&self) -> (res: Self)
        ensures
            res@ == self@,
        decreases self,
    {
        Cast { ty: self.ty.clone(), value: Box::new((*self.value).clone()) }
    }
}

impl Clone for GetField {
    /// Deep copy; the copy has the same view.
    fn clone(&self) -> (res: Self)
        ensures
            res@ == self@,
        decreases self,
    {
        GetField { tuple: Box::new((*self.tuple).clone()), index: self.index }
    }
}

impl Clone for Length {
    /// Deep copy; the copy has the same view.
    fn clone(&self) -> (res: Self)
        ensures
            res@ == self@,
        decreases self,
    {
        Length(Box::new((*self.0).clone()))
    }
}

impl Clone for Lookup {
    /// Deep copy; the copy has the same view.
    fn clone(&self) -> (res: Self)
        ensures
            res@ == self@,
        decreases self,
    {
        Lookup { data: Box::new((*self.data).clone()), index: Box::new((*self.index).clone()) }
    }
}

impl Clone for IfThenElse {
    /// Deep copy; the copy has the same view.
    fn clone(&self) -> (res: Self)
        ensures
            res@ == self@,
        decreases self,
    {
        IfThenElse {
            i: Box::new((*self.i).clone()),
            t: Box::new((*self.t).clone()),
            e: Box::new((*self.e).clone()),
        }
    }
}

impl Clone for Iter {
    /// Deep copy; the copy has the same view.
    fn clone(&self) -> (res: Self)
        ensures
            res@ == self@,
        decreases self,
    {
        let start = match &self.start {
            Some(b) => Some(Box::new((**b).clone())),
            None => None,
        };
        let end = match &self.end {
            Some(b) => Some(Box::new((**b).clone())),
            None => None,
        };
        Iter { data: Box::new((*self.data).clone()), start, end }
    }
}

impl Clone for For {
    /// Deep copy; the copy has the same view.
    fn clone(&self) -> (res: Self)
        ensures
            res@ == self@,
        decreases self,
    {
        let res = For {
            iters: clone_iter_vec(&self.iters),
            builder: Box::new((*self.builder).clone()),
            func: Box::new((*self.func).clone()),
        };
        proof {
            broadcast use lemma_iter_seq_view_len, lemma_iter_seq_view_index;

            assert(res@->For_iters =~= self@->For_iters);
            assert(res@ =~= self@);
        }
        res
    }
}

impl Clone for Merge {
    /// Deep copy; the copy has the same view.
    fn clone(&self) -> (res: Self)
        ensures
            res@ == self@,
        decreases self,
    {
        Merge { builder: Box::new((*self.builder).clone()), value: Box::new((*self.value).clone()) }
    }
}

impl Clone for Lambda {
    /// Deep copy; the copy has the same view.
    fn clone(&self) -> (res: Self)
        ensures
            res@ == self@,
        decreases self,
    {
        let res = Lambda {
            params: clone_sym_vec(&self.params),
            body: Box::new((*self.body).clone()),
        };
        proof {
            assert(res@->Lambda_params =~= self@->Lambda_params);
            assert(res@ =~= self@);
        }
        res
    }
}

impl Clone for Vector {
    /// Deep copy; the copy has the same view.
    fn clone(&self) -> (res: Self)
        ensures
            res@ == self@,
        decreases self,
    {
        let res = Vector { item_ty: self.item_ty.clone(), items: clone_expr_vec(&self.items) };
        proof {
            broadcast use lemma_expr_seq_view_len, lemma_expr_seq_view_index;

            assert(res@->NewVector_items =~= self@->NewVector_items);
            assert(res@ =~= self@);
        }
        res
    }
}

impl Clone for NewDict {
    /// Deep copy; the copy has the same view.
    fn clone(&self) -> (res: Self)
        ensures
            res@ == self@,
    {
        NewDict { key_ty: self.key_ty.clone(), value_ty: self.value_ty.clone() }
    }
}

impl Clone for NewTuple {
    /// Deep copy; the copy has the same view.
    fn clone(&self) -> (res: Self)
        ensures
            res@ == self@,
        decreases self,
    {
        let res = NewTuple(clone_expr_vec(&self.0));
        proof {
            broadcast use lemma_expr_seq_view_len, lemma_expr_seq_view_index;

            assert(res@ =~= self@);
        }
        res
    }
}

impl Clone for NewAppender {
    /// Deep copy; the copy has the same view.
    fn clone(&self) -> (res: Self)
        ensures
            res@ == self@,
    {
        NewAppender { item_ty: self.item_ty.clone() }
    }
}

impl Clone for NewMerger {
    /// Deep copy; the copy has the same view.
    fn clone(&self) -> (res: Self)
        ensures
            res@ == self@,
    {
        NewMerger { item_ty: self.item_ty.clone(), op_ty: self.op_ty }
    }
}

impl Clone for NewDictMerger {
    /// Deep copy; the copy has the same view.
    fn clone(&self) -> (res: Self)
        ensures
            res@ == self@,
    {
        NewDictMerger {
            key_ty: self.key_ty.clone(),
            value_ty: self.value_ty.clone(),
            op_ty: self.op_ty,
        }
    }
}

impl Clone for NewGroupMerger {
    /// Deep copy; the copy has the same view.
    fn clone(&self) -> (res: Self)
        ensures
            res@ == self@,
    {
        NewGroupMerger { key_ty: self.key_ty.clone(), value_ty: self.value_ty.clone() }
    }
}

impl Clone for NewVecMerger {
    /// Deep copy; the copy has the same view.
    fn clone(&self) -> (res: Self)
        ensures
            res@ == self@,
    {
        NewVecMerger { item_ty: self.item_ty.clone(), op_ty: self.op_ty }
    }
}

impl Clone for Eval {
    /// Deep copy; the copy has the same view.
    fn clone(&self) -> (res: Self)
        ensures
            res@ == self@,
        decreases self,
    {
        Eval(Box::new((*self.0).clone()))
    }
}

impl Clone for Expr {
    /// Deep copy; the copy has the same view.
    fn clone(&self) -> (res: Self)
        ensures
            res@ == self@,
        decreases self,
    {
        match self {
            Expr::Literal(l) => Expr::Literal(l.clone()),
            Expr::Symbol(s) => Expr::Symbol(s.clone()),
            Expr::Broadcast(b) => Expr::Broadcast(b.clone()),
            Expr::BinOp(b) => Expr::BinOp(b.clone()),
            Expr::UnaryOp(u) => Expr::UnaryOp(u.clone()),
            Expr::Cast(c) => Expr::Cast(c.clone()),
            Expr::GetField(g) => Expr::GetField(g.clone()),
            Expr::Length(l) => Expr::Length(l.clone()),
            Expr::Lookup(lk) => Expr::Lookup(lk.clone()),
            Expr::IfThenElse(ite) => Expr::IfThenElse(ite.clone()),
            Expr::For(f) => Expr::For(f.clone()),
            Expr::Merge(m) => Expr::Merge(m.clone()),
            Expr::Lambda(lm) => Expr::Lambda(lm.clone()),
            Expr::NewVector(v) => Expr::NewVector(v.clone()),
            Expr::NewDict(d) => Expr::NewDict(d.clone()),
            Expr::NewAppender(a) => Expr::NewAppender(a.clone()),
            Expr::NewMerger(m) => Expr::NewMerger(m.clone()),
            Expr::NewDictMerger(dm) => Expr::NewDictMerger(dm.clone()),
            Expr::NewGroupMerger(gm) => Expr::NewGroupMerger(gm.clone()),
            Expr::NewVecMerger(vm) => Expr::NewVecMerger(vm.clone()),
            Expr::Eval(ev) => Expr::Eval(ev.clone()),
        }
    }
}


impl GetField {
    /// What projecting field `index` out of `tuple` yields: the node
    /// when the source is tuple-typed and the index is in range;
    /// otherwise a `TypeError` carrying the source's type.
    pub open spec fn checked_spec(tuple: ExprV, index: u32) -> Result<ExprV, ErrorV> {
        match expr_ty_vspec(tuple) {
            TypeV::Tuple(ts) => if index < ts.len() {
                Ok(ExprV::GetField { tuple: Box::new(tuple), index })
            } else {
                Err(ErrorV::TypeError { left: TypeV::Tuple(ts), right: TypeV::Tuple(ts) })
            },
            other => Err(ErrorV::TypeError { left: other, right: other }),
        }
    }

    /// Type-check and build a tuple projection; see `checked_spec`.
    pub fn checked(tuple: Expr, index: u32) -> (r: Result<GetField, Error>)
        ensures
            (match r {
                Ok(g) => Ok::<ExprV, ErrorV>(
                    ExprV::GetField { tuple: Box::new((*g.tuple)@), index: g.index },
                ),
                Err(e) => Err::<ExprV, ErrorV>(e@),
            }) == Self::checked_spec(tuple@, index),
    {
        let t = expr_ty(&tuple);
        match t {
            Type::Tuple(tt) => {
                proof {
                    crate::ty::lemma_type_seq_view_len(tt.0@);
                }
                if (index as usize) < tt.0.len() {
                    Ok(GetField { tuple: Box::new(tuple), index })
                } else {
                    let t1 = Type::Tuple(tt);
                    let t2 = t1.clone();
                    Err(Error::TypeError { left: t1, right: t2 })
                }
            },
            other => {
                let o2 = other.clone();
                Err(Error::TypeError { left: other, right: o2 })
            },
        }
    }
}

} // verus!
