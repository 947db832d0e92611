//! The closed type universe of the staged language, with the two derived
//! operators on builder types: `eval` (builder -> result type) and `merge`
//! (builder -> accepted item type).
//!
//! Every executable type has a mathematical view (`TypeV`), a pure
//! recursive datatype over `Seq`; all contracts in this crate speak of
//! views.

use vstd::prelude::*;

use crate::bin_op::BinOpType;
use crate::error::{Error, ErrorV};

verus! {

/// Marker for the boolean scalar type.
#[derive(Debug, Clone, Copy, PartialEq, Eq, Hash)]
pub struct Bool;

/// Marker for the unsigned 8-bit scalar type.
#[derive(Debug, Clone, Copy, PartialEq, Eq, Hash)]
pub struct U8;

/// Marker for the unsigned 32-bit scalar type.
#[derive(Debug, Clone, Copy, PartialEq, Eq, Hash)]
pub struct U32;

/// Marker for the signed 32-bit scalar type.
#[derive(Debug, Clone, Copy, PartialEq, Eq, Hash)]
pub struct I32;

/// Marker for the unsigned 64-bit scalar type.
#[derive(Debug, Clone, Copy, PartialEq, Eq, Hash)]
pub struct U64;

/// Marker for the signed 64-bit scalar type.
#[derive(Debug, Clone, Copy, PartialEq, Eq, Hash)]
pub struct I64;

/// Marker for the 32-bit floating-point scalar type (values are carried
/// as raw bit patterns throughout this crate).
#[derive(Debug, Clone, Copy, PartialEq, Eq, Hash)]
pub struct F32;

/// Marker for the 64-bit floating-point scalar type (values are carried
/// as raw bit patterns throughout this crate).
#[derive(Debug, Clone, Copy, PartialEq, Eq, Hash)]
pub struct F64;

/// Marker for the string scalar type.
#[derive(Debug, Clone, Copy, PartialEq, Eq, Hash)]
pub struct Str;

/// Vector type: a variable-length list of items of one type.
#[derive(Debug, PartialEq, Eq, Hash)]
#[verifier::ext_equal]
pub struct VectorType {
    pub item_ty: Box<Type>,
}

/// Dict type: a dictionary from keys of one type to values of another.
#[derive(Debug, PartialEq, Eq, Hash)]
#[verifier::ext_equal]
pub struct DictType {
    pub key_ty: Box<Type>,
    pub value_ty: Box<Type>,
}

/// Tuple type: an ordered, heterogeneous sequence of types.
#[derive(Debug, PartialEq, Eq, Hash)]
#[verifier::ext_equal]
pub struct TupleType(pub Vec<Type>);

/// Lambda type: argument types and return type of an anonymous function.
#[derive(Debug, PartialEq, Eq, Hash)]
#[verifier::ext_equal]
pub struct LambdaType {
    pub args_ty: Vec<Type>,
    pub ret_ty: Box<Type>,
}

/// Function type: argument types and return type of a named function.
#[derive(Debug, PartialEq, Eq, Hash)]
#[verifier::ext_equal]
pub struct FunctionType {
    pub args_ty: Vec<Type>,
    pub ret_ty: Box<Type>,
}

/// Appender builder type: appends items to a list.
#[derive(Debug, PartialEq, Eq, Hash)]
#[verifier::ext_equal]
pub struct AppenderType {
    pub item_ty: Box<Type>,
}

/// Merger builder type: reduces items to a single value with an operator.
#[derive(Debug, PartialEq, Eq, Hash)]
#[verifier::ext_equal]
pub struct MergerType {
    pub item_ty: Box<Type>,
    pub op_ty: BinOpType,
}

/// DictMerger builder type: merges values by key with an operator.
#[derive(Debug, PartialEq, Eq, Hash)]
#[verifier::ext_equal]
pub struct DictMergerType {
    pub key_ty: Box<Type>,
    pub value_ty: Box<Type>,
    pub op_ty: BinOpType,
}

/// GroupMerger builder type: groups values into lists by key.
#[derive(Debug, PartialEq, Eq, Hash)]
#[verifier::ext_equal]
pub struct GroupMergerType {
    pub key_ty: Box<Type>,
    pub value_ty: Box<Type>,
}

/// VecMerger builder type: updates vector elements with an operator.
#[derive(Debug, PartialEq, Eq, Hash)]
#[verifier::ext_equal]
pub struct VecMergerType {
    pub item_ty: Box<Type>,
    pub op_ty: BinOpType,
}

/// Type classifies each staged value and defines its behavior.
#[derive(Debug, PartialEq, Eq, Hash)]
#[verifier::ext_equal]
pub enum Type {
    /// The boolean scalar.
    Bool(Bool),
    /// The unsigned 8-bit scalar.
    U8(U8),
    /// The unsigned 32-bit scalar.
    U32(U32),
    /// The signed 32-bit scalar.
    I32(I32),
    /// The unsigned 64-bit scalar.
    U64(U64),
    /// The signed 64-bit scalar.
    I64(I64),
    /// The 32-bit floating-point scalar.
    F32(F32),
    /// The 64-bit floating-point scalar.
    F64(F64),
    /// The string scalar.
    Str(Str),
    /// A variable-length vector.
    Vector(VectorType),
    /// A dictionary mapping keys to values.
    Dict(DictType),
    /// An ordered tuple.
    Tuple(TupleType),
    /// A lambda with a list of arguments and a return type.
    Lambda(LambdaType),
    /// A builder that appends items to a list.
    Appender(AppenderType),
    /// A builder that reduces items to a scalar.
    Merger(MergerType),
    /// A builder that creates a dictionary.
    DictMerger(DictMergerType),
    /// A builder that creates groups.
    GroupMerger(GroupMergerType),
    /// A builder that constructs a vector by updating elements.
    VecMerger(VecMergerType),
    /// An unknown type, used only before type inference.
    Unknown,
}

/// The mathematical view of a `Type`: the same closed universe, over
/// `Seq` instead of `Vec`.
#[verifier::ext_equal]
pub enum TypeV {
    Bool,
    U8,
    U32,
    I32,
    U64,
    I64,
    F32,
    F64,
    Str,
    Vector(Box<TypeV>),
    Dict(Box<TypeV>, Box<TypeV>),
    Tuple(Seq<TypeV>),
    Lambda(Seq<TypeV>, Box<TypeV>),
    Appender(Box<TypeV>),
    Merger(Box<TypeV>, BinOpType),
    DictMerger(Box<TypeV>, Box<TypeV>, BinOpType),
    GroupMerger(Box<TypeV>, Box<TypeV>),
    VecMerger(Box<TypeV>, BinOpType),
    Unknown,
}

/// The view of a type.
pub open spec fn type_view(t: Type) -> TypeV
    decreases t,
{
    match t {
        Type::Bool(_) => TypeV::Bool,
        Type::U8(_) => TypeV::U8,
        Type::U32(_) => TypeV::U32,
        Type::I32(_) => TypeV::I32,
        Type::U64(_) => TypeV::U64,
        Type::I64(_) => TypeV::I64,
        Type::F32(_) => TypeV::F32,
        Type::F64(_) => TypeV::F64,
        Type::Str(_) => TypeV::Str,
        Type::Vector(v) => TypeV::Vector(Box::new(type_view(*v.item_ty))),
        Type::Dict(d) => TypeV::Dict(
            Box::new(type_view(*d.key_ty)),
            Box::new(type_view(*d.value_ty)),
        ),
        Type::Tuple(tt) => TypeV::Tuple(type_seq_view(tt.0@)),
        Type::Lambda(l) => TypeV::Lambda(
            type_seq_view(l.args_ty@),
            Box::new(type_view(*l.ret_ty)),
        ),
        Type::Appender(a) => TypeV::Appender(Box::new(type_view(*a.item_ty))),
        Type::Merger(m) => TypeV::Merger(Box::new(type_view(*m.item_ty)), m.op_ty),
        Type::DictMerger(dm) => TypeV::DictMerger(
            Box::new(type_view(*dm.key_ty)),
            Box::new(type_view(*dm.value_ty)),
            dm.op_ty,
        ),
        Type::GroupMerger(gm) => TypeV::GroupMerger(
            Box::new(type_view(*gm.key_ty)),
            Box::new(type_view(*gm.value_ty)),
        ),
        Type::VecMerger(vm) => TypeV::VecMerger(Box::new(type_view(*vm.item_ty)), vm.op_ty),
        Type::Unknown => TypeV::Unknown,
    }
}

/// The views of a list of types.
pub open spec fn type_seq_view(s: Seq<Type>) -> Seq<TypeV>
    decreases s,
{
    if s.len() == 0 {
        Seq::empty()
    } else {
        seq![type_view(s[0])] + type_seq_view(s.skip(1))
    }
}

/// A list of views is as long as the list it views.
pub broadcast proof fn lemma_type_seq_view_len(s: Seq<Type>)
    ensures
        (#[trigger] type_seq_view(s)).len() == s.len(),
    decreases s,
{
    if s.len() != 0 {
        lemma_type_seq_view_len(s.skip(1));
    }
}

/// A list of views holds, position by position, the views of the list it
/// views.
pub broadcast proof fn lemma_type_seq_view_index(s: Seq<Type>, i: int)
    requires
        0 <= i < s.len(),
    ensures
        #[trigger] type_seq_view(s)[i] == type_view(s[i]),
    decreases s,
{
    lemma_type_seq_view_len(s);
    if i > 0 {
        lemma_type_seq_view_index(s.skip(1), i - 1);
    }
}


impl View for Type {
    type V = TypeV;

    #[verifier::inline]
    open spec fn view(&self) -> TypeV {
        type_view(*self)
    }
}

/// Type inference on any staged value: every expression node can report
/// its type, derived purely from the node and its children.
pub trait TypeInference {
    /// The inferred type, as a view.
    spec fn ty_vspec(&self) -> TypeV;

    /// Compute the inferred type.
    fn ty(&self) -> (t: Type)
        ensures
            t@ == self.ty_vspec(),
    ;
}

impl TypeInference for Type {
    open spec fn ty_vspec(&self) -> TypeV {
        type_view(*self)
    }

    fn ty(&self) -> (t: Type) {
        self.clone()
    }
}

/// Conversion of a type-level value (a scalar marker or a structured type)
/// into the `Type` universe.
pub trait IntoType: Sized {
    /// The view of the `Type` this value denotes.
    spec fn type_vspec(&self) -> TypeV;

    /// Convert into the denoted `Type`.
    fn to_type(self) -> (t: Type)
        ensures
            t@ == self.type_vspec(),
    ;
}

impl IntoType for Bool {
    open spec fn type_vspec(&self) -> TypeV {
        TypeV::Bool
    }

    fn to_type(self) -> (t: Type) {
        Type::Bool(Bool)
    }
}

impl IntoType for U8 {
    open spec fn type_vspec(&self) -> TypeV {
        TypeV::U8
    }

    fn to_type(self) -> (t: Type) {
        Type::U8(U8)
    }
}

impl IntoType for U32 {
    open spec fn type_vspec(&self) -> TypeV {
        TypeV::U32
    }

    fn to_type(self) -> (t: Type) {
        Type::U32(U32)
    }
}

impl IntoType for I32 {
    open spec fn type_vspec(&self) -> TypeV {
        TypeV::I32
    }

    fn to_type(self) -> (t: Type) {
        Type::I32(I32)
    }
}

impl IntoType for U64 {
    open spec fn type_vspec(&self) -> TypeV {
        TypeV::U64
    }

    fn to_type(self) -> (t: Type) {
        Type::U64(U64)
    }
}

impl IntoType for I64 {
    open spec fn type_vspec(&self) -> TypeV {
        TypeV::I64
    }

    fn to_type(self) -> (t: Type) {
        Type::I64(I64)
    }
}

impl IntoType for F32 {
    open spec fn type_vspec(&self) -> TypeV {
        TypeV::F32
    }

    fn to_type(self) -> (t: Type) {
        Type::F32(F32)
    }
}

impl IntoType for F64 {
    open spec fn type_vspec(&self) -> TypeV {
        TypeV::F64
    }

    fn to_type(self) -> (t: Type) {
        Type::F64(F64)
    }
}

impl IntoType for Str {
    open spec fn type_vspec(&self) -> TypeV {
        TypeV::Str
    }

    fn to_type(self) -> (t: Type) {
        Type::Str(Str)
    }
}

impl IntoType for Type {
    open spec fn type_vspec(&self) -> TypeV {
        type_view(*self)
    }

    fn to_type(self) -> (t: Type) {
        self
    }
}

/// Marker trait for the five builder type descriptors.
pub trait BuilderType {

}

impl BuilderType for AppenderType {

}

impl BuilderType for MergerType {

}

impl BuilderType for DictMergerType {

}

impl BuilderType for GroupMergerType {

}

impl BuilderType for VecMergerType {

}

impl Clone for Type {
    /// Deep structural copy; the copy has the same view.
    fn clone(&self) -> (res: Self)
        ensures
            res@ == self@,
        decreases self,
    {
        broadcast use lemma_type_seq_view_len, lemma_type_seq_view_index;

        match self {
            Type::Bool(_) => Type::Bool(Bool),
            Type::U8(_) => Type::U8(U8),
            Type::U32(_) => Type::U32(U32),
            Type::I32(_) => Type::I32(I32),
            Type::U64(_) => Type::U64(U64),
            Type::I64(_) => Type::I64(I64),
            Type::F32(_) => Type::F32(F32),
            Type::F64(_) => Type::F64(F64),
            Type::Str(_) => Type::Str(Str),
            Type::Vector(v) => Type::Vector(VectorType { item_ty: Box::new((*v.item_ty).clone()) }),
            Type::Dict(d) => Type::Dict(
                DictType {
                    key_ty: Box::new((*d.key_ty).clone()),
                    value_ty: Box::new((*d.value_ty).clone()),
                },
            ),
            Type::Tuple(t) => {
                let items = clone_type_vec(&t.0);
                let res = Type::Tuple(TupleType(items));
                proof {
                    assert(type_seq_view(items@) =~= type_seq_view(t.0@));
                }
                res
            },
            Type::Lambda(l) => {
                let args = clone_type_vec(&l.args_ty);
                let ret = Box::new((*l.ret_ty).clone());
                let res = Type::Lambda(LambdaType { args_ty: args, ret_ty: ret });
                proof {
                    assert(type_seq_view(args@) =~= type_seq_view(l.args_ty@));
                }
                res
            },
            Type::Appender(a) => Type::Appender(
                AppenderType { item_ty: Box::new((*a.item_ty).clone()) },
            ),
            Type::Merger(m) => Type::Merger(
                MergerType { item_ty: Box::new((*m.item_ty).clone()), op_ty: m.op_ty },
            ),
            Type::DictMerger(dm) => Type::DictMerger(
                DictMergerType {
                    key_ty: Box::new((*dm.key_ty).clone()),
                    value_ty: Box::new((*dm.value_ty).clone()),
                    op_ty: dm.op_ty,
                },
            ),
            Type::GroupMerger(gm) => Type::GroupMerger(
                GroupMergerType {
                    key_ty: Box::new((*gm.key_ty).clone()),
                    value_ty: Box::new((*gm.value_ty).clone()),
                },
            ),
            Type::VecMerger(vm) => Type::VecMerger(
                VecMergerType { item_ty: Box::new((*vm.item_ty).clone()), op_ty: vm.op_ty },
            ),
            Type::Unknown => Type::Unknown,
        }
    }
}

/// Deep copy of a list of types.
fn clone_type_vec(v: &Vec<Type>) -> (res: Vec<Type>)
    ensures
        res@.len() == v@.len(),
        forall|k: int| 0 <= k < v@.len() ==> #[trigger] res@[k]@ == v@[k]@,
    decreases v@,
{
    let mut out: Vec<Type> = Vec::new();
    let mut i: usize = 0;
    while i < v.len()
        invariant
            i <= v@.len(),
            out@.len() == i,
            forall|k: int| 0 <= k < i ==> #[trigger] out@[k]@ == v@[k]@,
        decreases v@.len() - i,
    {
        out.push(v[i].clone());
        i += 1;
    }
    out
}

/// Structural equality of two types, decided on their views.
pub fn type_eq(a: &Type, b: &Type) -> (r: bool)
    ensures
        r == (a@ == b@),
    decreases a,
{
    broadcast use lemma_type_seq_view_len, lemma_type_seq_view_index;

    match (a, b) {
        (Type::Bool(_), Type::Bool(_)) => true,
        (Type::U8(_), Type::U8(_)) => true,
        (Type::U32(_), Type::U32(_)) => true,
        (Type::I32(_), Type::I32(_)) => true,
        (Type::U64(_), Type::U64(_)) => true,
        (Type::I64(_), Type::I64(_)) => true,
        (Type::F32(_), Type::F32(_)) => true,
        (Type::F64(_), Type::F64(_)) => true,
        (Type::Str(_), Type::Str(_)) => true,
        (Type::Vector(va), Type::Vector(vb)) => type_eq(&va.item_ty, &vb.item_ty),
        (Type::Dict(da), Type::Dict(db)) => type_eq(&da.key_ty, &db.key_ty) && type_eq(
            &da.value_ty,
            &db.value_ty,
        ),
        (Type::Tuple(ta), Type::Tuple(tb)) => type_vec_eq(&ta.0, &tb.0),
        (Type::Lambda(la), Type::Lambda(lb)) => type_vec_eq(&la.args_ty, &lb.args_ty) && type_eq(
            &la.ret_ty,
            &lb.ret_ty,
        ),
        (Type::Appender(aa), Type::Appender(ab)) => type_eq(&aa.item_ty, &ab.item_ty),
        (Type::Merger(ma), Type::Merger(mb)) => type_eq(&ma.item_ty, &mb.item_ty)
            && bin_op_type_eq(ma.op_ty, mb.op_ty),
        (Type::DictMerger(da), Type::DictMerger(db)) => type_eq(&da.key_ty, &db.key_ty) && type_eq(
            &da.value_ty,
            &db.value_ty,
        ) && bin_op_type_eq(da.op_ty, db.op_ty),
        (Type::GroupMerger(ga), Type::GroupMerger(gb)) => type_eq(&ga.key_ty, &gb.key_ty)
            && type_eq(&ga.value_ty, &gb.value_ty),
        (Type::VecMerger(va), Type::VecMerger(vb)) => type_eq(&va.item_ty, &vb.item_ty)
            && bin_op_type_eq(va.op_ty, vb.op_ty),
        (Type::Unknown, Type::Unknown) => true,
        _ => false,
    }
}

/// Equality of two binary-operator tags.
pub fn bin_op_type_eq(a: BinOpType, b: BinOpType) -> (r: bool)
    ensures
        r == (a == b),
{
    match (a, b) {
        (BinOpType::Add, BinOpType::Add) => true,
        (BinOpType::Subtract, BinOpType::Subtract) => true,
        (BinOpType::Multiply, BinOpType::Multiply) => true,
        (BinOpType::Divide, BinOpType::Divide) => true,
        (BinOpType::Modulo, BinOpType::Modulo) => true,
        (BinOpType::Equal, BinOpType::Equal) => true,
        (BinOpType::NotEqual, BinOpType::NotEqual) => true,
        (BinOpType::LessThan, BinOpType::LessThan) => true,
        (BinOpType::LessThanOrEqual, BinOpType::LessThanOrEqual) => true,
        (BinOpType::GreaterThan, BinOpType::GreaterThan) => true,
        (BinOpType::GreaterThanOrEqual, BinOpType::GreaterThanOrEqual) => true,
        (BinOpType::LogicalAnd, BinOpType::LogicalAnd) => true,
        (BinOpType::LogicalOr, BinOpType::LogicalOr) => true,
        (BinOpType::BitwiseAnd, BinOpType::BitwiseAnd) => true,
        (BinOpType::BitwiseOr, BinOpType::BitwiseOr) => true,
        (BinOpType::Xor, BinOpType::Xor) => true,
        (BinOpType::Max, BinOpType::Max) => true,
        (BinOpType::Min, BinOpType::Min) => true,
        (BinOpType::Pow, BinOpType::Pow) => true,
        _ => false,
    }
}

/// Structural equality of two lists of types, decided on their views.
fn type_vec_eq(a: &Vec<Type>, b: &Vec<Type>) -> (r: bool)
    ensures
        r == (type_seq_view(a@) == type_seq_view(b@)),
    decreases a@,
{
    broadcast use lemma_type_seq_view_len, lemma_type_seq_view_index;

    if a.len() != b.len() {
        proof {
            assert(type_seq_view(a@).len() != type_seq_view(b@).len());
        }
        return false;
    }
    let mut i: usize = 0;
    while i < a.len()
        invariant
            i <= a@.len(),
            a@.len() == b@.len(),
            forall|k: int| 0 <= k < i ==> #[trigger] a@[k]@ == b@[k]@,
        decreases a@.len() - i,
    {
        broadcast use lemma_type_seq_view_len, lemma_type_seq_view_index;

        if !type_eq(&a[i], &b[i]) {
            proof {
                assert(type_seq_view(a@)[i as int] != type_seq_view(b@)[i as int]);
            }
            return false;
        }
        i += 1;
    }
    proof {
        assert(type_seq_view(a@) =~= type_seq_view(b@));
    }
    true
}

impl TypeV {
    /// True of the nine scalar kinds.
    pub open spec fn is_scalar(self) -> bool {
        match self {
            TypeV::Bool | TypeV::U8 | TypeV::U32 | TypeV::I32 | TypeV::U64 | TypeV::I64
                | TypeV::F32 | TypeV::F64 | TypeV::Str => true,
            _ => false,
        }
    }

    /// True of the five builder kinds.
    pub open spec fn is_builder(self) -> bool {
        match self {
            TypeV::Appender(_) | TypeV::Merger(_, _) | TypeV::DictMerger(_, _, _)
                | TypeV::GroupMerger(_, _) | TypeV::VecMerger(_, _) => true,
            _ => false,
        }
    }

    /// The result type of evaluating a builder of this type, per the
    /// builder algebra; a non-builder type is an invalid operand.
    pub open spec fn eval_spec(self) -> Result<TypeV, ErrorV> {
        match self {
            TypeV::Appender(item) => Ok(TypeV::Vector(item)),
            TypeV::VecMerger(item, _) => Ok(TypeV::Vector(item)),
            TypeV::Merger(item, _) => Ok(*item),
            TypeV::DictMerger(k, v, _) => Ok(TypeV::Dict(k, v)),
            TypeV::GroupMerger(k, v) => Ok(TypeV::Dict(k, Box::new(TypeV::Vector(v)))),
            _ => Err(ErrorV::InvalidOperation { ty: self }),
        }
    }

    /// The type an item merged into a builder of this type must have; a
    /// non-builder type is an invalid operand.
    pub open spec fn merge_spec(self) -> Result<TypeV, ErrorV> {
        match self {
            TypeV::Appender(item) => Ok(*item),
            TypeV::VecMerger(item, _) => Ok(*item),
            TypeV::Merger(item, _) => Ok(*item),
            TypeV::DictMerger(k, v, _) => Ok(TypeV::Tuple(seq![*k, *v])),
            TypeV::GroupMerger(k, v) => Ok(TypeV::Tuple(seq![*k, *v])),
            _ => Err(ErrorV::InvalidOperation { ty: self }),
        }
    }
}

/// The view of a `Result` carrying a type or an error.
pub open spec fn ty_res_view(r: Result<Type, Error>) -> Result<TypeV, ErrorV> {
    match r {
        Ok(t) => Ok(t@),
        Err(e) => Err(e@),
    }
}

impl Type {
    /// Whether this type is one of the scalar kinds.
    #[inline]
    pub fn is_scalar(&self) -> (r: bool)
        ensures
            r == self@.is_scalar(),
    {
        match self {
            Type::Bool(_) | Type::U8(_) | Type::U32(_) | Type::I32(_) | Type::U64(_)
                | Type::I64(_) | Type::F32(_) | Type::F64(_) | Type::Str(_) => true,
            _ => false,
        }
    }

    /// Whether this type is one of the five builder kinds.
    #[inline]
    pub fn is_builder(&self) -> (r: bool)
        ensures
            r == self@.is_builder(),
    {
        match self {
            Type::Appender(_) | Type::Merger(_) | Type::DictMerger(_) | Type::GroupMerger(_)
                | Type::VecMerger(_) => true,
            _ => false,
        }
    }

    /// Whether this type is the boolean scalar.
    #[inline]
    pub fn is_bool(&self) -> (r: bool)
        ensures
            r == (self@ is Bool),
    {
        match self {
            Type::Bool(_) => true,
            _ => false,
        }
    }

    /// Whether this type is the unsigned 8-bit scalar.
    #[inline]
    pub fn is_u8(&self) -> (r: bool)
        ensures
            r == (self@ is U8),
    {
        match self {
            Type::U8(_) => true,
            _ => false,
        }
    }

    /// Whether this type is the unsigned 32-bit scalar.
    #[inline]
    pub fn is_u32(&self) -> (r: bool)
        ensures
            r == (self@ is U32),
    {
        match self {
            Type::U32(_) => true,
            _ => false,
        }
    }

    /// Whether this type is the signed 32-bit scalar.
    #[inline]
    pub fn is_i32(&self) -> (r: bool)
        ensures
            r == (self@ is I32),
    {
        match self {
            Type::I32(_) => true,
            _ => false,
        }
    }

    /// Whether this type is the unsigned 64-bit scalar.
    #[inline]
    pub fn is_u64(&self) -> (r: bool)
        ensures
            r == (self@ is U64),
    {
        match self {
            Type::U64(_) => true,
            _ => false,
        }
    }

    /// Whether this type is the signed 64-bit scalar.
    #[inline]
    pub fn is_i64(&self) -> (r: bool)
        ensures
            r == (self@ is I64),
    {
        match self {
            Type::I64(_) => true,
            _ => false,
        }
    }

    /// Whether this type is the 32-bit floating-point scalar.
    #[inline]
    pub fn is_f32(&self) -> (r: bool)
        ensures
            r == (self@ is F32),
    {
        match self {
            Type::F32(_) => true,
            _ => false,
        }
    }

    /// Whether this type is the 64-bit floating-point scalar.
    #[inline]
    pub fn is_f64(&self) -> (r: bool)
        ensures
            r == (self@ is F64),
    {
        match self {
            Type::F64(_) => true,
            _ => false,
        }
    }

    /// Whether this type is the string scalar.
    #[inline]
    pub fn is_str(&self) -> (r: bool)
        ensures
            r == (self@ is Str),
    {
        match self {
            Type::Str(_) => true,
            _ => false,
        }
    }

    /// Whether this type is a vector.
    #[inline]
    pub fn is_vector(&self) -> (r: bool)
        ensures
            r == (self@ is Vector),
    {
        match self {
            Type::Vector(_) => true,
            _ => false,
        }
    }

    /// The vector descriptor of a vector type.
    #[inline]
    pub fn vector(self) -> (r: VectorType)
        requires
            self@ is Vector,
        ensures
            self@ == TypeV::Vector(Box::new(r.item_ty@)),
    {
        match self {
            Type::Vector(vk) => vk,
            _ => vstd::pervasive::unreached(),
        }
    }

    /// Whether this type is a dictionary.
    #[inline]
    pub fn is_dict(&self) -> (r: bool)
        ensures
            r == (self@ is Dict),
    {
        match self {
            Type::Dict(_) => true,
            _ => false,
        }
    }

    /// The dictionary descriptor of a dictionary type.
    #[inline]
    pub fn dict(self) -> (r: DictType)
        requires
            self@ is Dict,
        ensures
            self@ == TypeV::Dict(Box::new(r.key_ty@), Box::new(r.value_ty@)),
    {
        match self {
            Type::Dict(dk) => dk,
            _ => vstd::pervasive::unreached(),
        }
    }

    /// Whether this type is an appender builder.
    #[inline]
    pub fn is_appender(&self) -> (r: bool)
        ensures
            r == (self@ is Appender),
    {
        match self {
            Type::Appender(_) => true,
            _ => false,
        }
    }

    /// The appender descriptor of an appender type.
    #[inline]
    pub fn appender(self) -> (r: AppenderType)
        requires
            self@ is Appender,
        ensures
            self@ == TypeV::Appender(Box::new(r.item_ty@)),
    {
        match self {
            Type::Appender(ak) => ak,
            _ => vstd::pervasive::unreached(),
        }
    }

    /// Whether this type is a merger builder.
    #[inline]
    pub fn is_merger(&self) -> (r: bool)
        ensures
            r == (self@ is Merger),
    {
        match self {
            Type::Merger(_) => true,
            _ => false,
        }
    }

    /// The merger descriptor of a merger type.
    #[inline]
    pub fn merger(self) -> (r: MergerType)
        requires
            self@ is Merger,
        ensures
            self@ == TypeV::Merger(Box::new(r.item_ty@), r.op_ty),
    {
        match self {
            Type::Merger(mk) => mk,
            _ => vstd::pervasive::unreached(),
        }
    }

    /// Whether this type is a dictmerger builder.
    #[inline]
    pub fn is_dictmerger(&self) -> (r: bool)
        ensures
            r == (self@ is DictMerger),
    {
        match self {
            Type::DictMerger(_) => true,
            _ => false,
        }
    }

    /// The dictmerger descriptor of a dictmerger type.
    #[inline]
    pub fn dictmerger(self) -> (r: DictMergerType)
        requires
            self@ is DictMerger,
        ensures
            self@ == TypeV::DictMerger(Box::new(r.key_ty@), Box::new(r.value_ty@), r.op_ty),
    {
        match self {
            Type::DictMerger(dmk) => dmk,
            _ => vstd::pervasive::unreached(),
        }
    }

    /// Whether this type is a groupmerger builder.
    #[inline]
    pub fn is_groupmerger(&self) -> (r: bool)
        ensures
            r == (self@ is GroupMerger),
    {
        match self {
            Type::GroupMerger(_) => true,
            _ => false,
        }
    }

    /// The groupmerger descriptor of a groupmerger type.
    #[inline]
    pub fn groupmerger(self) -> (r: GroupMergerType)
        requires
            self@ is GroupMerger,
        ensures
            self@ == TypeV::GroupMerger(Box::new(r.key_ty@), Box::new(r.value_ty@)),
    {
        match self {
            Type::GroupMerger(gmk) => gmk,
            _ => vstd::pervasive::unreached(),
        }
    }

    /// Whether this type is a vecmerger builder.
    #[inline]
    pub fn is_vecmerger(&self) -> (r: bool)
        ensures
            r == (self@ is VecMerger),
    {
        match self {
            Type::VecMerger(_) => true,
            _ => false,
        }
    }

    /// The vecmerger descriptor of a vecmerger type.
    #[inline]
    pub fn vecmerger(self) -> (r: VecMergerType)
        requires
            self@ is VecMerger,
        ensures
            self@ == TypeV::VecMerger(Box::new(r.item_ty@), r.op_ty),
    {
        match self {
            Type::VecMerger(vmk) => vmk,
            _ => vstd::pervasive::unreached(),
        }
    }

    /// Whether this type is a tuple.
    #[inline]
    pub fn is_tuple(&self) -> (r: bool)
        ensures
            r == (self@ is Tuple),
    {
        match self {
            Type::Tuple(_) => true,
            _ => false,
        }
    }

    /// The tuple descriptor of a tuple type.
    #[inline]
    pub fn tuple(self) -> (r: TupleType)
        requires
            self@ is Tuple,
        ensures
            self@ == TypeV::Tuple(type_seq_view(r.0@)),
    {
        match self {
            Type::Tuple(tk) => tk,
            _ => vstd::pervasive::unreached(),
        }
    }

    /// Whether this type is a lambda.
    #[inline]
    pub fn is_lambda(&self) -> (r: bool)
        ensures
            r == (self@ is Lambda),
    {
        match self {
            Type::Lambda(_) => true,
            _ => false,
        }
    }

    /// The lambda descriptor of a lambda type.
    #[inline]
    pub fn lambda(self) -> (r: LambdaType)
        requires
            self@ is Lambda,
        ensures
            self@ == TypeV::Lambda(type_seq_view(r.args_ty@), Box::new(r.ret_ty@)),
    {
        match self {
            Type::Lambda(lk) => lk,
            _ => vstd::pervasive::unreached(),
        }
    }

    /// Whether this type is still unknown.
    #[inline]
    pub fn is_unknown(&self) -> (r: bool)
        ensures
            r == (self@ is Unknown),
    {
        match self {
            Type::Unknown => true,
            _ => false,
        }
    }

    /// The result type of evaluating this builder type: an appender or
    /// vecmerger yields a vector of its items, a merger its item type, a
    /// dictmerger a dictionary, and a groupmerger a dictionary of vectors.
    /// Fails with `InvalidOperation` on a non-builder type.
    pub fn eval(self) -> (r: Result<Type, Error>)
        ensures
            ty_res_view(r) == self@.eval_spec(),
    {
        let ghost sv = self@;
        let r = match self {
            Type::Appender(a) => Ok(Type::Vector(VectorType { item_ty: a.item_ty })),
            Type::VecMerger(vm) => Ok(Type::Vector(VectorType { item_ty: vm.item_ty })),
            Type::Merger(m) => Ok(*m.item_ty),
            Type::DictMerger(dm) => Ok(
                Type::Dict(DictType { key_ty: dm.key_ty, value_ty: dm.value_ty }),
            ),
            Type::GroupMerger(gm) => Ok(
                Type::Dict(
                    DictType {
                        key_ty: gm.key_ty,
                        value_ty: Box::new(Type::Vector(VectorType { item_ty: gm.value_ty })),
                    },
                ),
            ),
            other => Err(Error::InvalidOperation { ty: other }),
        };
        proof {
            reveal_with_fuel(type_view, 3);
            assert(ty_res_view(r) =~~= sv.eval_spec());
        }
        r
    }

    /// The type an item passed to `merge` must have: the item type for an
    /// appender, merger or vecmerger, and a `(key, value)` tuple for a
    /// dictmerger or groupmerger. Fails with `InvalidOperation` on a
    /// non-builder type.
    pub fn merge(self) -> (r: Result<Type, Error>)
        ensures
            ty_res_view(r) == self@.merge_spec(),
    {
        broadcast use lemma_type_seq_view_len, lemma_type_seq_view_index;

        match self {
            Type::Appender(a) => Ok(*a.item_ty),
            Type::VecMerger(vm) => Ok(*vm.item_ty),
            Type::Merger(m) => Ok(*m.item_ty),
            Type::DictMerger(dm) => {
                let ghost kv = dm.key_ty@;
                let ghost vv = dm.value_ty@;
                let pair = two_types(*dm.key_ty, *dm.value_ty);
                let res = Type::Tuple(TupleType(pair));
                proof {
                    assert(pair@.len() == 2);
                    assert(type_seq_view(pair@).len() == 2);
                    assert(type_seq_view(pair@)[0] == pair@[0]@);
                    assert(type_seq_view(pair@)[1] == pair@[1]@);
                    assert(type_seq_view(pair@) =~= seq![kv, vv]);
                    assert(res@ == TypeV::Tuple(type_seq_view(pair@)));
                }
                Ok(res)
            },
            Type::GroupMerger(gm) => {
                let ghost kv = gm.key_ty@;
                let ghost vv = gm.value_ty@;
                let pair = two_types(*gm.key_ty, *gm.value_ty);
                let res = Type::Tuple(TupleType(pair));
                proof {
                    assert(pair@.len() == 2);
                    assert(type_seq_view(pair@).len() == 2);
                    assert(type_seq_view(pair@)[0] == pair@[0]@);
                    assert(type_seq_view(pair@)[1] == pair@[1]@);
                    assert(type_seq_view(pair@) =~= seq![kv, vv]);
                    assert(res@ == TypeV::Tuple(type_seq_view(pair@)));
                }
                Ok(res)
            },
            other => Err(Error::InvalidOperation { ty: other }),
        }
    }
}

/// Build the two-element type list `[a, b]`.
fn two_types(a: Type, b: Type) -> (r: Vec<Type>)
    ensures
        r@.len() == 2,
        r@[0]@ == a@,
        r@[1]@ == b@,
{
    let mut v: Vec<Type> = Vec::new();
    v.push(a);
    v.push(b);
    v
}


/// The round trip of the builder algebra: for every builder type built
/// from an item type (and operator where applicable), `merge` accepts
/// exactly the item the builder was declared with - the item type
/// itself, or the `(key, value)` tuple for the dict and group mergers -
/// and `eval` yields the table's result type.
pub proof fn lemma_builder_type_round_trip(t: TypeV, k: TypeV, v: TypeV, op: BinOpType)
    ensures
        TypeV::Appender(Box::new(t)).merge_spec() == Ok::<TypeV, ErrorV>(t),
        TypeV::Appender(Box::new(t)).eval_spec() == Ok::<TypeV, ErrorV>(
            TypeV::Vector(Box::new(t)),
        ),
        TypeV::Merger(Box::new(t), op).merge_spec() == Ok::<TypeV, ErrorV>(t),
        TypeV::Merger(Box::new(t), op).eval_spec() == Ok::<TypeV, ErrorV>(t),
        TypeV::VecMerger(Box::new(t), op).merge_spec() == Ok::<TypeV, ErrorV>(t),
        TypeV::VecMerger(Box::new(t), op).eval_spec() == Ok::<TypeV, ErrorV>(
            TypeV::Vector(Box::new(t)),
        ),
        TypeV::DictMerger(Box::new(k), Box::new(v), op).merge_spec() == Ok::<TypeV, ErrorV>(
            TypeV::Tuple(seq![k, v]),
        ),
        TypeV::DictMerger(Box::new(k), Box::new(v), op).eval_spec() == Ok::<TypeV, ErrorV>(
            TypeV::Dict(Box::new(k), Box::new(v)),
        ),
        TypeV::GroupMerger(Box::new(k), Box::new(v)).merge_spec() == Ok::<TypeV, ErrorV>(
            TypeV::Tuple(seq![k, v]),
        ),
        TypeV::GroupMerger(Box::new(k), Box::new(v)).eval_spec() == Ok::<TypeV, ErrorV>(
            TypeV::Dict(Box::new(k), Box::new(TypeV::Vector(Box::new(v)))),
        ),
{
}

} // verus!
