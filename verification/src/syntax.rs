//! Expressions, statements, terminators and basic blocks of the target
//! representation, with their views.
use crate::ir::{
    copy_type, BbName, CallingConvention, FnName, Int, IntType, LocalName, PtrType, Type, TypeView,
};
use vstd::prelude::*;

verus! {

#[derive(Clone, Copy, Debug, PartialEq, Eq, Structural)]
pub enum IntUnOp {
    Neg,
    BitNot,
}

#[derive(Clone, Copy, Debug, PartialEq, Eq, Structural)]
pub enum BoolUnOp {
    Not,
}

#[derive(Clone, Debug, PartialEq, Eq)]
pub enum CastOp {
    IntToInt(IntType),
    Transmute(Type),
}

pub enum CastOpView {
    IntToInt(IntType),
    Transmute(TypeView),
}

impl View for CastOp {
    type V = CastOpView;

    open spec fn view(&self) -> CastOpView {
        match *self {
            CastOp::IntToInt(ity) => CastOpView::IntToInt(ity),
            CastOp::Transmute(ty) => CastOpView::Transmute(ty@),
        }
    }
}

#[derive(Clone, Debug, PartialEq, Eq)]
pub enum UnOp {
    Int(IntUnOp),
    Bool(BoolUnOp),
    Cast(CastOp),
}

pub enum UnOpView {
    Int(IntUnOp),
    Bool(BoolUnOp),
    Cast(CastOpView),
}

impl View for UnOp {
    type V = UnOpView;

    open spec fn view(&self) -> UnOpView {
        match *self {
            UnOp::Int(op) => UnOpView::Int(op),
            UnOp::Bool(op) => UnOpView::Bool(op),
            UnOp::Cast(op) => UnOpView::Cast(op@),
        }
    }
}

#[derive(Clone, Copy, Debug, PartialEq, Eq, Structural)]
pub enum IntBinOp {
    Add,
    AddUnchecked,
    Sub,
    SubUnchecked,
    Mul,
    MulUnchecked,
    Div,
    Rem,
    Shl,
    ShlUnchecked,
    Shr,
    ShrUnchecked,
    BitAnd,
    BitOr,
    BitXor,
}

#[derive(Clone, Copy, Debug, PartialEq, Eq, Structural)]
pub enum IntBinOpWithOverflow {
    Add,
    Sub,
    Mul,
}

#[derive(Clone, Copy, Debug, PartialEq, Eq, Structural)]
pub enum BoolBinOp {
    BitAnd,
    BitOr,
    BitXor,
}

#[derive(Clone, Copy, Debug, PartialEq, Eq, Structural)]
pub enum RelOp {
    Lt,
    Le,
    Gt,
    Ge,
    Eq,
    Ne,
    /// Three-way comparison; its result is a signed byte.
    Cmp,
}

#[derive(Clone, Copy, Debug, PartialEq, Eq, Structural)]
pub enum BinOp {
    Int(IntBinOp),
    IntWithOverflow(IntBinOpWithOverflow),
    Bool(BoolBinOp),
    Rel(RelOp),
    PtrOffset { inbounds: bool },
}

#[derive(Clone, Copy, Debug, PartialEq, Eq, Structural)]
pub enum Constant {
    Int(Int),
    Bool(bool),
    FnPointer(FnName),
    /// A pointer with the given address that may not be used to access memory.
    PointerWithoutProvenance(Int),
}

#[derive(Clone, Copy, Debug, PartialEq, Eq, Structural)]
pub enum IntrinsicLockOp {
    Create,
    Acquire,
    Release,
}

/// The operations that the target representation can only express as the end
/// of a basic block.
#[derive(Clone, Copy, Debug, PartialEq, Eq, Structural)]
pub enum IntrinsicOp {
    Assume,
    Exit,
    Panic,
    PrintStdout,
    PrintStderr,
    Allocate,
    Deallocate,
    Spawn,
    Join,
    RawEq,
    AtomicStore,
    AtomicLoad,
    AtomicCompareExchange,
    AtomicFetchAndOp(IntBinOp),
    Lock(IntrinsicLockOp),
    PointerExposeProvenance,
    PointerWithExposedProvenance,
}

#[allow(inconsistent_fields)]
#[derive(Debug, PartialEq, Eq)]
pub enum ValueExpr {
    Constant(Constant, Type),
    /// An ordered list of values: a tuple, a struct or an array.
    Tuple(Vec<ValueExpr>, Type),
    Union { field: Int, expr: Box<ValueExpr>, union_ty: Type },
    /// The fields of the variant come as one tuple in `data`.
    Variant { discriminant: Int, data: Box<ValueExpr>, enum_ty: Type },
    GetDiscriminant { place: Box<PlaceExpr> },
    Load { source: Box<PlaceExpr> },
    AddrOf { target: Box<PlaceExpr>, ptr_ty: PtrType },
    UnOp { operator: UnOp, operand: Box<ValueExpr> },
    BinOp { operator: BinOp, left: Box<ValueExpr>, right: Box<ValueExpr> },
}

#[derive(Debug, PartialEq, Eq)]
pub enum PlaceExpr {
    Local(LocalName),
    Deref { operand: Box<ValueExpr>, ty: Type },
    Field { root: Box<PlaceExpr>, field: Int },
    Index { root: Box<PlaceExpr>, index: Box<ValueExpr> },
    Downcast { root: Box<PlaceExpr>, discriminant: Int },
}

#[allow(inconsistent_fields)]
pub enum ValueExprView {
    Constant(Constant, TypeView),
    Tuple(Seq<ValueExprView>, TypeView),
    Union { field: Int, expr: Box<ValueExprView>, union_ty: TypeView },
    Variant { discriminant: Int, data: Box<ValueExprView>, enum_ty: TypeView },
    GetDiscriminant { place: Box<PlaceExprView> },
    Load { source: Box<PlaceExprView> },
    AddrOf { target: Box<PlaceExprView>, ptr_ty: PtrType },
    UnOp { operator: UnOpView, operand: Box<ValueExprView> },
    BinOp { operator: BinOp, left: Box<ValueExprView>, right: Box<ValueExprView> },
}

pub enum PlaceExprView {
    Local(LocalName),
    Deref { operand: Box<ValueExprView>, ty: TypeView },
    Field { root: Box<PlaceExprView>, field: Int },
    Index { root: Box<PlaceExprView>, index: Box<ValueExprView> },
    Downcast { root: Box<PlaceExprView>, discriminant: Int },
}

pub open spec fn value_view(v: ValueExpr) -> ValueExprView
    decreases v,
{
    match v {
        ValueExpr::Constant(c, ty) => ValueExprView::Constant(c, ty@),
        ValueExpr::Tuple(items, ty) => ValueExprView::Tuple(
            Seq::new(
                items@.len(),
                |i: int|
                    if 0 <= i < items@.len() {
                        value_view(items@[i])
                    } else {
                        arbitrary()
                    },
            ),
            ty@,
        ),
        ValueExpr::Union { field, expr, union_ty } => ValueExprView::Union {
            field,
            expr: Box::new(value_view(*expr)),
            union_ty: union_ty@,
        },
        ValueExpr::Variant { discriminant, data, enum_ty } => ValueExprView::Variant {
            discriminant,
            data: Box::new(value_view(*data)),
            enum_ty: enum_ty@,
        },
        ValueExpr::GetDiscriminant { place } => ValueExprView::GetDiscriminant {
            place: Box::new(place_view(*place)),
        },
        ValueExpr::Load { source } => ValueExprView::Load { source: Box::new(place_view(*source)) },
        ValueExpr::AddrOf { target, ptr_ty } => ValueExprView::AddrOf {
            target: Box::new(place_view(*target)),
            ptr_ty,
        },
        ValueExpr::UnOp { operator, operand } => ValueExprView::UnOp {
            operator: operator@,
            operand: Box::new(value_view(*operand)),
        },
        ValueExpr::BinOp { operator, left, right } => ValueExprView::BinOp {
            operator,
            left: Box::new(value_view(*left)),
            right: Box::new(value_view(*right)),
        },
    }
}

pub open spec fn place_view(p: PlaceExpr) -> PlaceExprView
    decreases p,
{
    match p {
        PlaceExpr::Local(name) => PlaceExprView::Local(name),
        PlaceExpr::Deref { operand, ty } => PlaceExprView::Deref {
            operand: Box::new(value_view(*operand)),
            ty: ty@,
        },
        PlaceExpr::Field { root, field } => PlaceExprView::Field {
            root: Box::new(place_view(*root)),
            field,
        },
        PlaceExpr::Index { root, index } => PlaceExprView::Index {
            root: Box::new(place_view(*root)),
            index: Box::new(value_view(*index)),
        },
        PlaceExpr::Downcast { root, discriminant } => PlaceExprView::Downcast {
            root: Box::new(place_view(*root)),
            discriminant,
        },
    }
}

impl View for ValueExpr {
    type V = ValueExprView;

    open spec fn view(&self) -> ValueExprView {
        value_view(*self)
    }
}

impl View for PlaceExpr {
    type V = PlaceExprView;

    open spec fn view(&self) -> PlaceExprView {
        place_view(*self)
    }
}

/// The views of a list of values, in order.
pub open spec fn values_view(items: Seq<ValueExpr>) -> Seq<ValueExprView> {
    Seq::new(items.len(), |i: int| items[i]@)
}

/// The view of a tuple value in terms of `values_view`.
pub proof fn lemma_tuple_view(items: Vec<ValueExpr>, ty: Type)
    ensures
        ValueExpr::Tuple(items, ty)@ == ValueExprView::Tuple(values_view(items@), ty@),
{
    assert(ValueExpr::Tuple(items, ty)@->Tuple_0 =~= values_view(items@));
}

/// A deep copy of a unary operator.
pub fn copy_unop(op: &UnOp) -> (r: UnOp)
    ensures
        r@ == op@,
{
    match op {
        UnOp::Int(op) => UnOp::Int(*op),
        UnOp::Bool(op) => UnOp::Bool(*op),
        UnOp::Cast(CastOp::IntToInt(ity)) => UnOp::Cast(CastOp::IntToInt(*ity)),
        UnOp::Cast(CastOp::Transmute(ty)) => UnOp::Cast(CastOp::Transmute(copy_type(ty))),
    }
}

/// A deep copy of a value expression.
#[verifier::loop_isolation(false)]
pub fn copy_value(v: &ValueExpr) -> (r: ValueExpr)
    ensures
        r@ == v@,
    decreases v,
{
    broadcast use vstd::std_specs::vec::group_vec_axioms;

    match v {
        ValueExpr::Constant(c, ty) => ValueExpr::Constant(*c, copy_type(ty)),
        ValueExpr::Tuple(items, ty) => {
            let mut out: Vec<ValueExpr> = Vec::new();
            let mut i: usize = 0;
            while i < items.len()
                invariant
                    i <= items.len(),
                    out@.len() == i,
                    forall|j: int| 0 <= j < i ==> (#[trigger] out@[j])@ == items@[j]@,
                decreases items.len() - i,
            {
                let item = copy_value(&items[i]);
                out.push(item);
                i += 1;
            }
            let ty = copy_type(ty);
            proof {
                lemma_tuple_view(out, ty);
                lemma_tuple_view(*items, ty);
                assert(values_view(out@) =~= values_view(items@));
            }
            ValueExpr::Tuple(out, ty)
        },
        ValueExpr::Union { field, expr, union_ty } => ValueExpr::Union {
            field: *field,
            expr: Box::new(copy_value(expr)),
            union_ty: copy_type(union_ty),
        },
        ValueExpr::Variant { discriminant, data, enum_ty } => ValueExpr::Variant {
            discriminant: *discriminant,
            data: Box::new(copy_value(data)),
            enum_ty: copy_type(enum_ty),
        },
        ValueExpr::GetDiscriminant { place } => ValueExpr::GetDiscriminant {
            place: Box::new(copy_place(place)),
        },
        ValueExpr::Load { source } => ValueExpr::Load { source: Box::new(copy_place(source)) },
        ValueExpr::AddrOf { target, ptr_ty } => ValueExpr::AddrOf {
            target: Box::new(copy_place(target)),
            ptr_ty: *ptr_ty,
        },
        ValueExpr::UnOp { operator, operand } => ValueExpr::UnOp {
            operator: copy_unop(operator),
            operand: Box::new(copy_value(operand)),
        },
        ValueExpr::BinOp { operator, left, right } => ValueExpr::BinOp {
            operator: *operator,
            left: Box::new(copy_value(left)),
            right: Box::new(copy_value(right)),
        },
    }
}

/// A deep copy of a place expression.
pub fn copy_place(p: &PlaceExpr) -> (r: PlaceExpr)
    ensures
        r@ == p@,
    decreases p,
{
    match p {
        PlaceExpr::Local(name) => PlaceExpr::Local(*name),
        PlaceExpr::Deref { operand, ty } => PlaceExpr::Deref {
            operand: Box::new(copy_value(operand)),
            ty: copy_type(ty),
        },
        PlaceExpr::Field { root, field } => PlaceExpr::Field {
            root: Box::new(copy_place(root)),
            field: *field,
        },
        PlaceExpr::Index { root, index } => PlaceExpr::Index {
            root: Box::new(copy_place(root)),
            index: Box::new(copy_value(index)),
        },
        PlaceExpr::Downcast { root, discriminant } => PlaceExpr::Downcast {
            root: Box::new(copy_place(root)),
            discriminant: *discriminant,
        },
    }
}

impl Clone for ValueExpr {
    fn clone(&self) -> (r: Self)
        ensures
            r@ == self@,
    {
        copy_value(self)
    }
}

impl Clone for PlaceExpr {
    fn clone(&self) -> (r: Self)
        ensures
            r@ == self@,
    {
        copy_place(self)
    }
}

#[derive(Clone, Debug, PartialEq, Eq)]
pub enum ArgumentExpr {
    /// The callee gets a copy of the value.
    ByValue(ValueExpr),
    /// The callee gets the place itself, which the caller gives up.
    InPlace(PlaceExpr),
}

pub enum ArgumentExprView {
    ByValue(ValueExprView),
    InPlace(PlaceExprView),
}

impl View for ArgumentExpr {
    type V = ArgumentExprView;

    open spec fn view(&self) -> ArgumentExprView {
        match *self {
            ArgumentExpr::ByValue(v) => ArgumentExprView::ByValue(v@),
            ArgumentExpr::InPlace(p) => ArgumentExprView::InPlace(p@),
        }
    }
}

pub open spec fn arguments_view(items: Seq<ArgumentExpr>) -> Seq<ArgumentExprView> {
    Seq::new(items.len(), |i: int| items[i]@)
}

#[derive(Clone, Debug, PartialEq, Eq)]
pub enum Statement {
    Assign { destination: PlaceExpr, source: ValueExpr },
    PlaceMention(PlaceExpr),
    SetDiscriminant { destination: PlaceExpr, value: Int },
    Validate { place: PlaceExpr, fn_entry: bool },
    Deinit { place: PlaceExpr },
    StorageLive(LocalName),
    StorageDead(LocalName),
}

pub enum StatementView {
    Assign { destination: PlaceExprView, source: ValueExprView },
    PlaceMention(PlaceExprView),
    SetDiscriminant { destination: PlaceExprView, value: Int },
    Validate { place: PlaceExprView, fn_entry: bool },
    Deinit { place: PlaceExprView },
    StorageLive(LocalName),
    StorageDead(LocalName),
}

impl View for Statement {
    type V = StatementView;

    open spec fn view(&self) -> StatementView {
        match *self {
            Statement::Assign { destination, source } => StatementView::Assign {
                destination: destination@,
                source: source@,
            },
            Statement::PlaceMention(p) => StatementView::PlaceMention(p@),
            Statement::SetDiscriminant { destination, value } => StatementView::SetDiscriminant {
                destination: destination@,
                value,
            },
            Statement::Validate { place, fn_entry } => StatementView::Validate {
                place: place@,
                fn_entry,
            },
            Statement::Deinit { place } => StatementView::Deinit { place: place@ },
            Statement::StorageLive(l) => StatementView::StorageLive(l),
            Statement::StorageDead(l) => StatementView::StorageDead(l),
        }
    }
}

pub open spec fn statements_view(items: Seq<Statement>) -> Seq<StatementView> {
    Seq::new(items.len(), |i: int| items[i]@)
}

#[allow(inconsistent_fields)]
#[derive(Clone, Debug, PartialEq, Eq)]
pub enum Terminator {
    Goto(BbName),
    /// Jumps to the block of the first case whose integer equals `value`, and
    /// to `fallback` where there is none.
    Switch { value: ValueExpr, cases: Vec<(Int, BbName)>, fallback: BbName },
    Unreachable,
    Call {
        callee: ValueExpr,
        calling_convention: CallingConvention,
        arguments: Vec<ArgumentExpr>,
        ret: PlaceExpr,
        next_block: Option<BbName>,
    },
    Intrinsic {
        intrinsic: IntrinsicOp,
        arguments: Vec<ValueExpr>,
        ret: PlaceExpr,
        next_block: Option<BbName>,
    },
    Return,
}

#[allow(inconsistent_fields)]
pub enum TerminatorView {
    Goto(BbName),
    Switch { value: ValueExprView, cases: Seq<(Int, BbName)>, fallback: BbName },
    Unreachable,
    Call {
        callee: ValueExprView,
        calling_convention: CallingConvention,
        arguments: Seq<ArgumentExprView>,
        ret: PlaceExprView,
        next_block: Option<BbName>,
    },
    Intrinsic {
        intrinsic: IntrinsicOp,
        arguments: Seq<ValueExprView>,
        ret: PlaceExprView,
        next_block: Option<BbName>,
    },
    Return,
}

impl View for Terminator {
    type V = TerminatorView;

    open spec fn view(&self) -> TerminatorView {
        match *self {
            Terminator::Goto(b) => TerminatorView::Goto(b),
            Terminator::Switch { value, cases, fallback } => TerminatorView::Switch {
                value: value@,
                cases: cases@,
                fallback,
            },
            Terminator::Unreachable => TerminatorView::Unreachable,
            Terminator::Call { callee, calling_convention, arguments, ret, next_block } =>
                TerminatorView::Call {
                    callee: callee@,
                    calling_convention,
                    arguments: arguments_view(arguments@),
                    ret: ret@,
                    next_block,
                },
            Terminator::Intrinsic { intrinsic, arguments, ret, next_block } =>
                TerminatorView::Intrinsic {
                    intrinsic,
                    arguments: values_view(arguments@),
                    ret: ret@,
                    next_block,
                },
            Terminator::Return => TerminatorView::Return,
        }
    }
}

#[derive(Clone, Debug, PartialEq, Eq)]
pub struct BasicBlock {
    pub statements: Vec<Statement>,
    pub terminator: Terminator,
}

pub struct BasicBlockView {
    pub statements: Seq<StatementView>,
    pub terminator: TerminatorView,
}

impl View for BasicBlock {
    type V = BasicBlockView;

    open spec fn view(&self) -> BasicBlockView {
        BasicBlockView {
            statements: statements_view(self.statements@),
            terminator: self.terminator@,
        }
    }
}

} // verus!
