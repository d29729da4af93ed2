//! Small constructors for target expressions, each with the view of what it builds.
use crate::ir::{
    lemma_type_view, Align, FnName, Int, IntType, PtrType, Signedness, Size, Type, TypeView,
};
use crate::syntax::{
    BinOp, BoolUnOp, CastOp, CastOpView, Constant, IntrinsicOp, PlaceExpr,
    PlaceExprView, Terminator, TerminatorView, UnOp, UnOpView, ValueExpr, ValueExprView,
};
use vstd::prelude::*;

verus! {

/// The size of a pointer, in bytes.
pub const PTR_SIZE: u64 = 8;

pub open spec fn u8_type() -> IntType {
    IntType { signed: Signedness::Unsigned, size: Size { bytes: 1 } }
}

pub open spec fn usize_type() -> IntType {
    IntType { signed: Signedness::Unsigned, size: Size { bytes: PTR_SIZE } }
}

pub open spec fn load_view(place: PlaceExprView) -> ValueExprView {
    ValueExprView::Load { source: Box::new(place) }
}

pub fn load(place: PlaceExpr) -> (r: ValueExpr)
    ensures
        r@ == load_view(place@),
{
    ValueExpr::Load { source: Box::new(place) }
}

/// `v`, reinterpreted as a value of type `ty`.
pub open spec fn transmute_view(v: ValueExprView, ty: TypeView) -> ValueExprView {
    ValueExprView::UnOp { operator: UnOpView::Cast(CastOpView::Transmute(ty)), operand: Box::new(v) }
}

pub fn transmute(v: ValueExpr, ty: Type) -> (r: ValueExpr)
    ensures
        r@ == transmute_view(v@, ty@),
{
    ValueExpr::UnOp { operator: UnOp::Cast(CastOp::Transmute(ty)), operand: Box::new(v) }
}

/// The boolean `v` as an unsigned byte: 0 for false, 1 for true.
pub open spec fn bool_to_int_view(v: ValueExprView) -> ValueExprView {
    transmute_view(v, TypeView::Int(u8_type()))
}

pub fn bool_to_int(v: ValueExpr) -> (r: ValueExpr)
    ensures
        r@ == bool_to_int_view(v@),
{
    transmute(v, Type::Int(IntType { signed: Signedness::Unsigned, size: Size { bytes: 1 } }))
}

/// The negation of the boolean `v`.
pub open spec fn not_view(v: ValueExprView) -> ValueExprView {
    ValueExprView::UnOp { operator: UnOpView::Bool(BoolUnOp::Not), operand: Box::new(v) }
}

pub fn bool_not(v: ValueExpr) -> (r: ValueExpr)
    ensures
        r@ == not_view(v@),
{
    ValueExpr::UnOp { operator: UnOp::Bool(BoolUnOp::Not), operand: Box::new(v) }
}

pub open spec fn unop_view(operator: UnOpView, v: ValueExprView) -> ValueExprView {
    ValueExprView::UnOp { operator, operand: Box::new(v) }
}

pub fn unop(operator: UnOp, v: ValueExpr) -> (r: ValueExpr)
    ensures
        r@ == unop_view(operator@, v@),
{
    ValueExpr::UnOp { operator, operand: Box::new(v) }
}

pub open spec fn binop_view(operator: BinOp, l: ValueExprView, r: ValueExprView) -> ValueExprView {
    ValueExprView::BinOp { operator, left: Box::new(l), right: Box::new(r) }
}

pub fn binop(operator: BinOp, l: ValueExpr, r: ValueExpr) -> (v: ValueExpr)
    ensures
        v@ == binop_view(operator, l@, r@),
{
    ValueExpr::BinOp { operator, left: Box::new(l), right: Box::new(r) }
}

pub open spec fn const_bool_view(b: bool) -> ValueExprView {
    ValueExprView::Constant(Constant::Bool(b), TypeView::Bool)
}

pub fn const_bool(b: bool) -> (r: ValueExpr)
    ensures
        r@ == const_bool_view(b),
{
    ValueExpr::Constant(Constant::Bool(b), Type::Bool)
}

/// The address of the function `name`.
pub open spec fn fn_ptr_view(name: FnName) -> ValueExprView {
    ValueExprView::Constant(Constant::FnPointer(name), TypeView::Ptr(PtrType::FnPtr))
}

pub fn fn_ptr(name: FnName) -> (r: ValueExpr)
    ensures
        r@ == fn_ptr_view(name),
{
    ValueExpr::Constant(Constant::FnPointer(name), Type::Ptr(PtrType::FnPtr))
}

/// The integer `n` as a constant of the pointer-sized unsigned type.
pub open spec fn const_usize_view(n: Int) -> ValueExprView {
    ValueExprView::Constant(Constant::Int(n), TypeView::Int(usize_type()))
}

pub fn const_usize(n: Int) -> (r: ValueExpr)
    ensures
        r@ == const_usize_view(n),
{
    ValueExpr::Constant(
        Constant::Int(n),
        Type::Int(IntType { signed: Signedness::Unsigned, size: Size { bytes: PTR_SIZE } }),
    )
}

pub open spec fn addr_of_view(place: PlaceExprView, ptr_ty: PtrType) -> ValueExprView {
    ValueExprView::AddrOf { target: Box::new(place), ptr_ty }
}

pub fn addr_of(place: PlaceExpr, ptr_ty: PtrType) -> (r: ValueExpr)
    ensures
        r@ == addr_of_view(place@, ptr_ty),
{
    ValueExpr::AddrOf { target: Box::new(place), ptr_ty }
}

/// The type of the empty tuple.
pub open spec fn unit_type_view() -> TypeView {
    TypeView::Tuple { fields: Seq::empty(), size: Size { bytes: 0 }, align: Align { bytes: 1 } }
}

pub fn unit_type() -> (r: Type)
    ensures
        r@ == unit_type_view(),
{
    let r = Type::Tuple { fields: Vec::new(), size: Size { bytes: 0 }, align: Align { bytes: 1 } };
    proof {
        lemma_type_view(r);
        assert(r@->Tuple_fields =~= Seq::empty());
    }
    r
}

/// A place of size zero: where a result that holds nothing is put.
pub open spec fn zst_place_view() -> PlaceExprView {
    PlaceExprView::Deref {
        operand: Box::new(
            ValueExprView::Constant(
                Constant::PointerWithoutProvenance(Int::NonNeg(1)),
                TypeView::Ptr(PtrType::Raw),
            ),
        ),
        ty: unit_type_view(),
    }
}

pub fn zst_place() -> (r: PlaceExpr)
    ensures
        r@ == zst_place_view(),
{
    let ptr = ValueExpr::Constant(
        Constant::PointerWithoutProvenance(Int::NonNeg(1)),
        Type::Ptr(PtrType::Raw),
    );
    assert(ptr@ == ValueExprView::Constant(
        Constant::PointerWithoutProvenance(Int::NonNeg(1)),
        TypeView::Ptr(PtrType::Raw),
    ));
    PlaceExpr::Deref { operand: Box::new(ptr), ty: unit_type() }
}

/// The terminator that panics: it takes no argument and does not return.
pub open spec fn panic_view() -> TerminatorView {
    TerminatorView::Intrinsic {
        intrinsic: IntrinsicOp::Panic,
        arguments: Seq::empty(),
        ret: zst_place_view(),
        next_block: None,
    }
}

pub fn panic_terminator() -> (r: Terminator)
    ensures
        r@ == panic_view(),
{
    let r = Terminator::Intrinsic {
        intrinsic: IntrinsicOp::Panic,
        arguments: Vec::new(),
        ret: zst_place(),
        next_block: None,
    };
    assert(r@->Intrinsic_arguments =~= Seq::empty());
    r
}

} // verus!
