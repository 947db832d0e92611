//! Typed intermediate representation for a staged, data-parallel DSL.
//!
//! Host code builds an expression tree through a type-checked
//! construction API; the tree can then be constant-folded (`simplify`)
//! and made hygienic (`uniquify`) before it is handed to a code
//! generator.

pub mod arith;
pub mod bin_op;
pub mod builder;
pub mod ctx;
pub mod def;
pub mod error;
pub mod expr;
pub mod exp;
pub mod extract;
pub mod ieee;
pub mod lex;
pub mod lit;
pub mod simplify;
pub mod stmt;
pub mod sym;
pub mod ty;
pub mod unary_op;
pub mod topo;
pub mod uniquify;
pub mod var;

pub use bin_op::{BinOp, BinOpType};
pub use builder::Builder;
pub use ctx::Context;
pub use def::{Def, DefEx, Divides, Minus, Plus, Times};
pub use exp::{Exp, ExpOrDef, Sym};
pub use error::Error;
pub use expr::{
    Broadcast, Cast, Eval, Expr, For, GetField, IfThenElse, Iter, Lambda, Length, Lookup, Merge,
    NewAppender, NewDict, NewDictMerger, NewGroupMerger, NewMerger, NewTuple, NewVecMerger, Vector,
};
pub use extract::extract;
pub use lit::Literal;
pub use simplify::{simplify, Bindings};
pub use stmt::{Assign, Stmt};
pub use sym::{Parameter, Symbol};
pub use ty::{
    AppenderType, Bool, BuilderType, DictMergerType, DictType, FunctionType, GroupMergerType,
    IntoType, LambdaType, MergerType, Str, TupleType, Type, TypeInference, VecMergerType,
    VectorType, F32, F64, I32, I64, U32, U64, U8,
};
pub use unary_op::{UnaryOp, UnaryOpType};
pub use topo::build_topo;
pub use uniquify::{sym_uniquify, uniquify};
pub use var::{BuilderVar, IntoExpr, Var};
