use minimize::ctxt::Ctxt;
use minimize::error::{ErrorKind, LowerError, Span};
use minimize::fn_ctxt::FnCtxt;
use minimize::ir::{
    Align, FnName, Int, IntType, LocalName, Mutability, PointeeInfo, PtrType, Signedness, Size,
    Type,
};
use minimize::source::{
    AggregateKind, BorrowKind, CastKind, ConstValue, IntClass, Layout, NullOp, PointerCoercion,
    Projection, ProjectionElem, SrcBinOp, SrcConst, SrcField, SrcMutability, SrcOperand,
    SrcPlace, SrcRvalue, SrcTy, SrcUnOp, SrcVariant, TagEncoding, TyKind, VariantsLayout,
};
use minimize::syntax::{
    BinOp, BoolBinOp, BoolUnOp, CastOp, Constant, IntBinOp, IntBinOpWithOverflow, IntUnOp,
    PlaceExpr, RelOp, UnOp, ValueExpr,
};

fn ty(kind: TyKind, size: u64, align: u64) -> SrcTy {
    SrcTy {
        kind,
        layout: Layout {
            sized: true,
            size,
            align,
            uninhabited: false,
            zero_valid: true,
            uninit_valid: true,
        },
        freeze: true,
    }
}

fn span() -> Span {
    Span { lo: 10, hi: 20 }
}

fn err<T>(kind: ErrorKind) -> Result<T, LowerError> {
    Err(LowerError { span: span(), kind })
}

fn ity(signed: bool, bytes: u64) -> Type {
    Type::Int(IntType {
        signed: if signed { Signedness::Signed } else { Signedness::Unsigned },
        size: Size { bytes },
    })
}

const BOOL: usize = 0;
const U8: usize = 1;
const I32: usize = 2;
const USIZE: usize = 3;
const PAIR: usize = 4;
const REF_PAIR: usize = 5;
const OPTION: usize = 6;
const ARRAY: usize = 7;
const UNION: usize = 8;
const ORDER: usize = 9;
const RAW: usize = 10;
const FN_PTR: usize = 11;
const FLOAT: usize = 12;
const FN_ITEM: usize = 13;
const U64: usize = 14;

fn types() -> Vec<SrcTy> {
    let field = |ty, offset| SrcField { ty, offset };
    vec![
        ty(TyKind::Bool, 1, 1),
        ty(TyKind::Uint { size: 1 }, 1, 1),
        ty(TyKind::Int { size: 4 }, 4, 4),
        ty(TyKind::Uint { size: 8 }, 8, 8),
        // (i32, bool)
        ty(TyKind::Tuple { fields: vec![field(I32, 0), field(BOOL, 4)] }, 8, 4),
        ty(TyKind::Ref { pointee: PAIR, mutbl: SrcMutability::Mut }, 8, 8),
        // Option<bool>
        ty(
            TyKind::Enum {
                discr_ty: IntClass { size: 8, signed: true },
                variants: vec![
                    SrcVariant { discr: 0, fields: vec![] },
                    SrcVariant { discr: 1, fields: vec![field(BOOL, 0)] },
                ],
                layout: VariantsLayout::Multiple {
                    tag: IntClass { size: 1, signed: false },
                    tag_offset: 0,
                    encoding: TagEncoding::Niche {
                        untagged_variant: 1,
                        first_variant: 0,
                        last_variant: 0,
                        niche_start: 2,
                    },
                },
            },
            1,
            1,
        ),
        ty(TyKind::Array { elem: I32, count: 3 }, 12, 4),
        ty(TyKind::Union { fields: vec![field(I32, 0), field(U8, 0)] }, 4, 4),
        // The result of a three-way comparison: less is -1, equal 0, greater 1.
        ty(
            TyKind::Enum {
                discr_ty: IntClass { size: 1, signed: true },
                variants: vec![
                    SrcVariant { discr: 0xff, fields: vec![] },
                    SrcVariant { discr: 0, fields: vec![] },
                    SrcVariant { discr: 1, fields: vec![] },
                ],
                layout: VariantsLayout::Multiple {
                    tag: IntClass { size: 1, signed: true },
                    tag_offset: 0,
                    encoding: TagEncoding::Direct,
                },
            },
            1,
            1,
        ),
        ty(TyKind::RawPtr { pointee: U8 }, 8, 8),
        ty(TyKind::FnPtr, 8, 8),
        ty(TyKind::Float, 4, 4),
        ty(TyKind::Other, 0, 1),
        ty(TyKind::Uint { size: 8 }, 8, 8),
    ]
}

/// Locals: 0 bool, 1 i32, 2 (i32, bool), 3 &mut (i32, bool), 4 Option<bool>, 5 [i32; 3],
/// 6 usize, 7 *const u8, 8 the union, 9 a float.
fn fcx() -> FnCtxt {
    let locals = vec![BOOL, I32, PAIR, REF_PAIR, OPTION, ARRAY, USIZE, RAW, UNION, FLOAT];
    FnCtxt::new(Ctxt::new(types(), Some(ORDER)), locals, 4)
}

fn local(n: usize) -> SrcPlace {
    SrcPlace { local: n, projection: vec![] }
}

fn copy(n: usize) -> SrcOperand {
    SrcOperand::Copy(local(n))
}

fn konst(ty: usize, bits: u128) -> SrcOperand {
    SrcOperand::Constant(SrcConst { ty, value: ConstValue::Int(bits) })
}

fn flag(b: bool) -> SrcOperand {
    SrcOperand::Constant(SrcConst { ty: BOOL, value: ConstValue::Bool(b) })
}

fn target_local(n: u64) -> PlaceExpr {
    PlaceExpr::Local(LocalName(n))
}

fn load(p: PlaceExpr) -> ValueExpr {
    ValueExpr::Load { source: Box::new(p) }
}

fn loaded(n: u64) -> ValueExpr {
    load(target_local(n))
}

fn lit(signed: bool, bytes: u64, value: Int) -> ValueExpr {
    ValueExpr::Constant(Constant::Int(value), ity(signed, bytes))
}

fn binop(operator: BinOp, l: ValueExpr, r: ValueExpr) -> ValueExpr {
    ValueExpr::BinOp { operator, left: Box::new(l), right: Box::new(r) }
}

fn unop(operator: UnOp, v: ValueExpr) -> ValueExpr {
    ValueExpr::UnOp { operator, operand: Box::new(v) }
}

fn transmute(v: ValueExpr, ty: Type) -> ValueExpr {
    unop(UnOp::Cast(CastOp::Transmute(ty)), v)
}

fn proj(elem: ProjectionElem, ty: usize) -> Projection {
    Projection { elem, ty }
}

fn pair_type() -> Type {
    Type::Tuple {
        fields: vec![(Size { bytes: 0 }, ity(true, 4)), (Size { bytes: 4 }, Type::Bool)],
        size: Size { bytes: 8 },
        align: Align { bytes: 4 },
    }
}

fn array_type() -> Type {
    Type::Array { elem: Box::new(ity(true, 4)), count: Int::NonNeg(3) }
}

#[test]
fn a_local_is_a_local() {
    let mut f = fcx();
    assert_eq!(f.translate_place(&local(2), span()), Ok(target_local(2)));
    assert_eq!(f.translate_place_smir(&local(0), span()), Ok(target_local(0)));
    assert_eq!(f.translate_place(&local(10), span()), err(ErrorKind::UnknownLocal));
    // A local needs a name and a type.
    f.locals.pop();
    assert_eq!(f.translate_place(&local(9), span()), err(ErrorKind::UnknownLocal));
    assert_eq!(f.translate_place(&local(8), span()), Ok(target_local(8)));
}

#[test]
fn projections_fold_from_the_left() {
    let mut f = fcx();
    // (*_3).1
    let place = SrcPlace {
        local: 3,
        projection: vec![proj(ProjectionElem::Deref, PAIR), proj(ProjectionElem::Field(1), BOOL)],
    };
    let deref = PlaceExpr::Deref { operand: Box::new(loaded(3)), ty: pair_type() };
    assert_eq!(
        f.translate_place(&place, span()),
        Ok(PlaceExpr::Field { root: Box::new(deref), field: Int::NonNeg(1) })
    );
    assert_eq!(f.place_ty(&place), Ok(BOOL));
    assert_eq!(f.place_ty(&local(3)), Ok(REF_PAIR));
    assert_eq!(f.place_ty(&local(33)), Err(ErrorKind::UnknownLocal));
}

#[test]
fn an_index_loads_the_local_that_holds_it() {
    let mut f = fcx();
    let place = SrcPlace { local: 5, projection: vec![proj(ProjectionElem::Index(6), I32)] };
    assert_eq!(
        f.translate_place(&place, span()),
        Ok(PlaceExpr::Index { root: Box::new(target_local(5)), index: Box::new(loaded(6)) })
    );
    let place = SrcPlace { local: 5, projection: vec![proj(ProjectionElem::Index(60), I32)] };
    assert_eq!(f.translate_place(&place, span()), err(ErrorKind::UnknownLocal));
}

#[test]
fn a_downcast_carries_the_discriminant() {
    let mut f = fcx();
    let place = |variant| SrcPlace {
        local: 4,
        projection: vec![
            proj(ProjectionElem::Downcast(variant), OPTION),
            proj(ProjectionElem::Field(0), BOOL),
        ],
    };
    let downcast =
        PlaceExpr::Downcast { root: Box::new(target_local(4)), discriminant: Int::NonNeg(1) };
    assert_eq!(
        f.translate_place(&place(1), span()),
        Ok(PlaceExpr::Field { root: Box::new(downcast), field: Int::NonNeg(0) })
    );
    assert_eq!(f.translate_place(&place(2), span()), err(ErrorKind::UnknownVariant));
    let on_bool =
        SrcPlace { local: 0, projection: vec![proj(ProjectionElem::Downcast(0), BOOL)] };
    assert_eq!(f.translate_place(&on_bool, span()), err(ErrorKind::UnknownVariant));
}

#[test]
fn unsupported_projections_are_refused() {
    let mut f = fcx();
    for elem in [ProjectionElem::ConstantIndex, ProjectionElem::Subslice, ProjectionElem::OpaqueCast]
    {
        let place = SrcPlace { local: 5, projection: vec![proj(elem, I32)] };
        assert_eq!(f.translate_place(&place, span()), err(ErrorKind::UnsupportedProjection));
    }
    // The first step that fails decides.
    let place = SrcPlace {
        local: 3,
        projection: vec![proj(ProjectionElem::Deref, FLOAT), proj(ProjectionElem::Subslice, I32)],
    };
    assert_eq!(f.translate_place(&place, span()), err(ErrorKind::UnsupportedType));
}

#[test]
fn copy_and_move_are_both_loads() {
    let mut f = fcx();
    assert_eq!(f.translate_operand(&SrcOperand::Copy(local(1)), span()), Ok(loaded(1)));
    assert_eq!(f.translate_operand(&SrcOperand::Move(local(1)), span()), Ok(loaded(1)));
    assert_eq!(f.translate_operand_smir(&SrcOperand::Move(local(1)), span()), Ok(loaded(1)));
    assert_eq!(f.operand_ty(&copy(1)), Ok(I32));
    assert_eq!(f.operand_ty(&konst(U8, 0)), Ok(U8));
}

#[test]
fn constants_are_literals_of_their_type() {
    let mut f = fcx();
    assert_eq!(f.translate_operand(&konst(U8, 200), span()), Ok(lit(false, 1, Int::NonNeg(200))));
    // -1 is held as Neg(0).
    assert_eq!(
        f.translate_operand(&konst(I32, 0xffff_ffff), span()),
        Ok(lit(true, 4, Int::Neg(0)))
    );
    assert_eq!(
        f.translate_operand(&flag(true), span()),
        Ok(ValueExpr::Constant(Constant::Bool(true), Type::Bool))
    );
    assert_eq!(f.translate_operand(&konst(BOOL, 1), span()), err(ErrorKind::UnsupportedConstant));
    let odd = |ty, value| SrcOperand::Constant(SrcConst { ty, value });
    assert_eq!(
        f.translate_operand(&odd(I32, ConstValue::Bool(true)), span()),
        err(ErrorKind::UnsupportedConstant)
    );
    assert_eq!(
        f.translate_operand(&odd(FN_ITEM, ConstValue::FnItem(3)), span()),
        err(ErrorKind::UnsupportedConstant)
    );
    assert_eq!(
        f.translate_operand(&odd(I32, ConstValue::Other), span()),
        err(ErrorKind::UnsupportedConstant)
    );
    assert_eq!(f.translate_operand(&konst(99, 1), span()), err(ErrorKind::UnknownType));
}

#[test]
fn the_operand_type_picks_the_operator() {
    let mut f = fcx();
    let lower = |f: &mut FnCtxt, op, l: usize, r: usize| {
        f.translate_rvalue(&SrcRvalue::BinaryOp(op, copy(l), copy(r)), span())
    };
    let on_ints = |op| Ok(binop(BinOp::Int(op), loaded(1), loaded(1)));
    assert_eq!(lower(&mut f, SrcBinOp::Add, 1, 1), on_ints(IntBinOp::Add));
    assert_eq!(lower(&mut f, SrcBinOp::Sub, 1, 1), on_ints(IntBinOp::Sub));
    assert_eq!(lower(&mut f, SrcBinOp::Mul, 1, 1), on_ints(IntBinOp::Mul));
    assert_eq!(lower(&mut f, SrcBinOp::Div, 1, 1), on_ints(IntBinOp::Div));
    assert_eq!(lower(&mut f, SrcBinOp::Rem, 1, 1), on_ints(IntBinOp::Rem));
    assert_eq!(lower(&mut f, SrcBinOp::Shl, 1, 1), on_ints(IntBinOp::Shl));
    assert_eq!(lower(&mut f, SrcBinOp::Shr, 1, 1), on_ints(IntBinOp::Shr));
    assert_eq!(lower(&mut f, SrcBinOp::AddUnchecked, 1, 1), on_ints(IntBinOp::AddUnchecked));
    assert_eq!(lower(&mut f, SrcBinOp::SubUnchecked, 1, 1), on_ints(IntBinOp::SubUnchecked));
    assert_eq!(lower(&mut f, SrcBinOp::MulUnchecked, 1, 1), on_ints(IntBinOp::MulUnchecked));
    assert_eq!(lower(&mut f, SrcBinOp::ShlUnchecked, 1, 1), on_ints(IntBinOp::ShlUnchecked));
    assert_eq!(lower(&mut f, SrcBinOp::ShrUnchecked, 1, 1), on_ints(IntBinOp::ShrUnchecked));
    // The same source operator is another target operator on booleans.
    assert_eq!(lower(&mut f, SrcBinOp::BitAnd, 1, 1), on_ints(IntBinOp::BitAnd));
    assert_eq!(lower(&mut f, SrcBinOp::BitOr, 1, 1), on_ints(IntBinOp::BitOr));
    assert_eq!(lower(&mut f, SrcBinOp::BitXor, 1, 1), on_ints(IntBinOp::BitXor));
    let on_bools = |op| Ok(binop(BinOp::Bool(op), loaded(0), loaded(0)));
    assert_eq!(lower(&mut f, SrcBinOp::BitAnd, 0, 0), on_bools(BoolBinOp::BitAnd));
    assert_eq!(lower(&mut f, SrcBinOp::BitOr, 0, 0), on_bools(BoolBinOp::BitOr));
    assert_eq!(lower(&mut f, SrcBinOp::BitXor, 0, 0), on_bools(BoolBinOp::BitXor));
    // Comparisons are the same on every type.
    for (l, r) in [(1, 1), (0, 0), (7, 7)] {
        let rel = |op| Ok(binop(BinOp::Rel(op), loaded(l as u64), loaded(r as u64)));
        assert_eq!(lower(&mut f, SrcBinOp::Lt, l, r), rel(RelOp::Lt));
        assert_eq!(lower(&mut f, SrcBinOp::Le, l, r), rel(RelOp::Le));
        assert_eq!(lower(&mut f, SrcBinOp::Gt, l, r), rel(RelOp::Gt));
        assert_eq!(lower(&mut f, SrcBinOp::Ge, l, r), rel(RelOp::Ge));
        assert_eq!(lower(&mut f, SrcBinOp::Eq, l, r), rel(RelOp::Eq));
        assert_eq!(lower(&mut f, SrcBinOp::Ne, l, r), rel(RelOp::Ne));
    }
    assert_eq!(
        lower(&mut f, SrcBinOp::Offset, 7, 6),
        Ok(binop(BinOp::PtrOffset { inbounds: true }, loaded(7), loaded(6)))
    );
    // What the type does not support is refused.
    assert_eq!(lower(&mut f, SrcBinOp::Add, 0, 0), err(ErrorKind::UnsupportedBinOp));
    assert_eq!(lower(&mut f, SrcBinOp::Add, 7, 6), err(ErrorKind::UnsupportedBinOp));
    assert_eq!(lower(&mut f, SrcBinOp::Offset, 1, 1), err(ErrorKind::UnsupportedBinOp));
    assert_eq!(lower(&mut f, SrcBinOp::BitAnd, 7, 7), err(ErrorKind::UnsupportedBinOp));
    assert_eq!(lower(&mut f, SrcBinOp::Add, 9, 9), err(ErrorKind::UnsupportedType));
}

#[test]
fn a_three_way_comparison_is_reinterpreted() {
    let mut f = fcx();
    let compare = SrcRvalue::BinaryOp(SrcBinOp::Cmp, copy(1), konst(I32, 5));
    let order = match f.cx.translate_ty(ORDER, span()) {
        Ok(t) => t,
        Err(e) => panic!("{:?}", e),
    };
    assert_eq!(
        f.translate_rvalue(&compare, span()),
        Ok(transmute(
            binop(BinOp::Rel(RelOp::Cmp), loaded(1), lit(true, 4, Int::NonNeg(5))),
            order
        ))
    );
    // Without the type of the result in the program there is nothing to reinterpret to.
    let locals = vec![BOOL, I32];
    let mut f = FnCtxt::new(Ctxt::new(types(), None), locals, 0);
    assert_eq!(f.translate_rvalue(&compare, span()), err(ErrorKind::UnknownType));
}

#[test]
fn checked_operations() {
    let mut f = fcx();
    let lower = |f: &mut FnCtxt, op| {
        f.translate_rvalue(&SrcRvalue::CheckedBinaryOp(op, copy(1), copy(1)), span())
    };
    let expected = |op| Ok(binop(BinOp::IntWithOverflow(op), loaded(1), loaded(1)));
    assert_eq!(lower(&mut f, SrcBinOp::Add), expected(IntBinOpWithOverflow::Add));
    assert_eq!(lower(&mut f, SrcBinOp::Sub), expected(IntBinOpWithOverflow::Sub));
    assert_eq!(lower(&mut f, SrcBinOp::Mul), expected(IntBinOpWithOverflow::Mul));
    assert_eq!(lower(&mut f, SrcBinOp::Div), err(ErrorKind::UnsupportedCheckedBinOp));
    assert_eq!(lower(&mut f, SrcBinOp::Shl), err(ErrorKind::UnsupportedCheckedBinOp));
}

#[test]
fn unary_operations() {
    let mut f = fcx();
    let lower =
        |f: &mut FnCtxt, op, l: usize| f.translate_rvalue(&SrcRvalue::UnaryOp(op, copy(l)), span());
    assert_eq!(lower(&mut f, SrcUnOp::Neg, 1), Ok(unop(UnOp::Int(IntUnOp::Neg), loaded(1))));
    assert_eq!(lower(&mut f, SrcUnOp::Not, 1), Ok(unop(UnOp::Int(IntUnOp::BitNot), loaded(1))));
    assert_eq!(lower(&mut f, SrcUnOp::Not, 0), Ok(unop(UnOp::Bool(BoolUnOp::Not), loaded(0))));
    assert_eq!(lower(&mut f, SrcUnOp::Neg, 0), err(ErrorKind::UnsupportedUnOp));
    assert_eq!(lower(&mut f, SrcUnOp::Not, 7), err(ErrorKind::UnsupportedUnOp));
    assert_eq!(lower(&mut f, SrcUnOp::PtrMetadata, 7), err(ErrorKind::UnsupportedUnOp));
}

#[test]
fn references_know_what_they_point_to() {
    let mut f = fcx();
    let pointee = PointeeInfo {
        size: Size { bytes: 8 },
        align: Align { bytes: 4 },
        inhabited: true,
        freeze: true,
    };
    let reference = |mutbl| {
        Ok(ValueExpr::AddrOf {
            target: Box::new(target_local(2)),
            ptr_ty: PtrType::Ref { mutbl, pointee },
        })
    };
    let lower =
        |f: &mut FnCtxt, kind| f.translate_rvalue(&SrcRvalue::Ref(kind, local(2)), span());
    assert_eq!(lower(&mut f, BorrowKind::Shared), reference(Mutability::Immutable));
    assert_eq!(lower(&mut f, BorrowKind::Fake), reference(Mutability::Immutable));
    assert_eq!(lower(&mut f, BorrowKind::Mut), reference(Mutability::Mutable));
    // The kind of pointer comes from the expression: a raw pointer stays raw.
    for mutbl in [SrcMutability::Mut, SrcMutability::Not] {
        assert_eq!(
            f.translate_rvalue(&SrcRvalue::AddressOf(mutbl, local(2)), span()),
            Ok(ValueExpr::AddrOf { target: Box::new(target_local(2)), ptr_ty: PtrType::Raw })
        );
    }
}

#[test]
fn aggregates() {
    let mut f = fcx();
    let tuple = SrcRvalue::Aggregate {
        kind: AggregateKind::Tuple,
        operands: vec![konst(I32, 7), flag(false)],
        ty: PAIR,
    };
    assert_eq!(
        f.translate_rvalue(&tuple, span()),
        Ok(ValueExpr::Tuple(
            vec![
                lit(true, 4, Int::NonNeg(7)),
                ValueExpr::Constant(Constant::Bool(false), Type::Bool)
            ],
            pair_type()
        ))
    );
    let array = SrcRvalue::Aggregate {
        kind: AggregateKind::Array,
        operands: vec![copy(1), copy(1), copy(1)],
        ty: ARRAY,
    };
    assert_eq!(
        f.translate_rvalue(&array, span()),
        Ok(ValueExpr::Tuple(vec![loaded(1), loaded(1), loaded(1)], array_type()))
    );
    let of_bool = SrcRvalue::Aggregate { kind: AggregateKind::Tuple, operands: vec![], ty: BOOL };
    assert_eq!(f.translate_rvalue(&of_bool, span()), err(ErrorKind::UnsupportedAggregate));
}

#[test]
fn a_union_is_built_from_one_field() {
    let mut f = fcx();
    let union_ty = match f.cx.translate_ty(UNION, span()) {
        Ok(t) => t,
        Err(e) => panic!("{:?}", e),
    };
    let build = |active_field, operands| SrcRvalue::Aggregate {
        kind: AggregateKind::Adt { variant: 0, active_field },
        operands,
        ty: UNION,
    };
    assert_eq!(
        f.translate_rvalue(&build(Some(1), vec![konst(U8, 9)]), span()),
        Ok(ValueExpr::Union {
            field: Int::NonNeg(1),
            expr: Box::new(lit(false, 1, Int::NonNeg(9))),
            union_ty,
        })
    );
    assert_eq!(
        f.translate_rvalue(&build(None, vec![konst(U8, 9)]), span()),
        err(ErrorKind::UnsupportedAggregate)
    );
    assert_eq!(
        f.translate_rvalue(&build(Some(1), vec![]), span()),
        err(ErrorKind::UnsupportedAggregate)
    );
    assert_eq!(
        f.translate_rvalue(&build(Some(1), vec![konst(U8, 9), konst(U8, 9)]), span()),
        err(ErrorKind::UnsupportedAggregate)
    );
}

#[test]
fn an_enum_value_holds_its_fields_as_one_tuple() {
    let mut f = fcx();
    let option = match f.cx.translate_ty(OPTION, span()) {
        Ok(t) => t,
        Err(e) => panic!("{:?}", e),
    };
    let build = |variant, operands| SrcRvalue::Aggregate {
        kind: AggregateKind::Adt { variant, active_field: None },
        operands,
        ty: OPTION,
    };
    let payload = |fields: Vec<(Size, Type)>, items| {
        ValueExpr::Tuple(
            items,
            Type::Tuple { fields, size: Size { bytes: 1 }, align: Align { bytes: 1 } },
        )
    };
    assert_eq!(
        f.translate_rvalue(&build(1, vec![copy(0)]), span()),
        Ok(ValueExpr::Variant {
            discriminant: Int::NonNeg(1),
            data: Box::new(payload(vec![(Size { bytes: 0 }, Type::Bool)], vec![loaded(0)])),
            enum_ty: option.clone(),
        })
    );
    assert_eq!(
        f.translate_rvalue(&build(0, vec![]), span()),
        Ok(ValueExpr::Variant {
            discriminant: Int::NonNeg(0),
            data: Box::new(payload(vec![], vec![])),
            enum_ty: option,
        })
    );
    assert_eq!(f.translate_rvalue(&build(2, vec![]), span()), err(ErrorKind::UnknownVariant));
    let not_adt =
        SrcRvalue::Aggregate { kind: AggregateKind::Closure, operands: vec![], ty: OPTION };
    assert_eq!(f.translate_rvalue(&not_adt, span()), err(ErrorKind::UnsupportedAggregate));
}

#[test]
fn lengths_and_discriminants() {
    let mut f = fcx();
    assert_eq!(
        f.translate_rvalue(&SrcRvalue::Len(local(5)), span()),
        Ok(lit(false, 8, Int::NonNeg(3)))
    );
    assert_eq!(
        f.translate_rvalue(&SrcRvalue::Len(local(2)), span()),
        err(ErrorKind::LengthOfNonArray)
    );
    assert_eq!(
        f.translate_rvalue(&SrcRvalue::Discriminant(local(4)), span()),
        Ok(ValueExpr::GetDiscriminant { place: Box::new(target_local(4)) })
    );
    assert_eq!(
        f.translate_rvalue(&SrcRvalue::CopyForDeref(local(3)), span()),
        Ok(loaded(3))
    );
    assert_eq!(f.translate_rvalue(&SrcRvalue::Use(copy(1)), span()), Ok(loaded(1)));
    assert_eq!(f.translate_rvalue_smir(&SrcRvalue::Use(copy(1)), span()), Ok(loaded(1)));
}

#[test]
fn repeat_copies_the_operand() {
    let mut f = fcx();
    let repeated = |n: usize| {
        Ok(ValueExpr::Tuple(
            vec![loaded(1); n],
            Type::Array { elem: Box::new(ity(true, 4)), count: Int::NonNeg(n as u128) },
        ))
    };
    assert_eq!(f.translate_rvalue(&SrcRvalue::Repeat(copy(1), 4), span()), repeated(4));
    assert_eq!(f.translate_rvalue(&SrcRvalue::Repeat(copy(1), 0), span()), repeated(0));
}

#[test]
fn casts() {
    let mut f = fcx();
    let cast = |kind, operand, ty| SrcRvalue::Cast(kind, operand, ty);
    let to_u8 = IntType { signed: Signedness::Unsigned, size: Size { bytes: 1 } };
    let to_usize = IntType { signed: Signedness::Unsigned, size: Size { bytes: 8 } };
    assert_eq!(
        f.translate_rvalue(&cast(CastKind::IntToInt, copy(1), U8), span()),
        Ok(unop(UnOp::Cast(CastOp::IntToInt(to_u8)), loaded(1)))
    );
    // A boolean first goes to an unsigned byte.
    assert_eq!(
        f.translate_rvalue(&cast(CastKind::IntToInt, copy(0), USIZE), span()),
        Ok(unop(UnOp::Cast(CastOp::IntToInt(to_usize)), transmute(loaded(0), ity(false, 1))))
    );
    assert_eq!(
        f.translate_rvalue(&cast(CastKind::IntToInt, copy(1), BOOL), span()),
        err(ErrorKind::UnsupportedCast)
    );
    assert_eq!(
        f.translate_rvalue(&cast(CastKind::IntToInt, copy(7), U8), span()),
        err(ErrorKind::UnsupportedCast)
    );
    for kind in [CastKind::Transmute, CastKind::PtrToPtr, CastKind::FnPtrToPtr] {
        assert_eq!(
            f.translate_rvalue(&cast(kind, copy(7), USIZE), span()),
            Ok(transmute(loaded(7), ity(false, 8)))
        );
    }
    for kind in [
        CastKind::FloatToInt,
        CastKind::FloatToFloat,
        CastKind::IntToFloat,
        CastKind::DynStar,
        CastKind::PointerCoercion(PointerCoercion::Unsize),
        CastKind::PointerCoercion(PointerCoercion::MutToConstPointer),
        CastKind::PointerCoercion(PointerCoercion::ArrayToPointer),
        CastKind::PointerCoercion(PointerCoercion::UnsafeFnPointer),
        CastKind::PointerCoercion(PointerCoercion::ClosureFnPointer),
    ] {
        assert_eq!(
            f.translate_rvalue(&cast(kind, copy(1), USIZE), span()),
            err(ErrorKind::UnsupportedCast)
        );
    }
    // Casts with an effect on provenance are no values: they belong to a statement.
    for kind in [CastKind::PointerExposeProvenance, CastKind::PointerWithExposedProvenance] {
        assert_eq!(
            f.translate_rvalue(&cast(kind, copy(7), USIZE), span()),
            err(ErrorKind::ProvenanceCastInExpression)
        );
    }
}

#[test]
fn a_function_gets_its_name_when_it_is_first_named() {
    let mut f = fcx();
    let reify = |id| {
        SrcRvalue::Cast(
            CastKind::PointerCoercion(PointerCoercion::ReifyFnPointer),
            SrcOperand::Constant(SrcConst { ty: FN_ITEM, value: ConstValue::FnItem(id) }),
            FN_PTR,
        )
    };
    let pointer =
        |n| Ok(ValueExpr::Constant(Constant::FnPointer(FnName(n)), Type::Ptr(PtrType::FnPtr)));
    assert_eq!(f.translate_rvalue(&reify(700), span()), pointer(0));
    assert_eq!(f.translate_rvalue(&reify(30), span()), pointer(1));
    assert_eq!(f.translate_rvalue(&reify(700), span()), pointer(0));
    assert_eq!(f.cx.get_fn_name(30), FnName(1));
    assert_eq!(f.cx.get_fn_name(31), FnName(2));
    assert_eq!(f.cx.fn_name_map.len(), 3);
    let of_local = SrcRvalue::Cast(
        CastKind::PointerCoercion(PointerCoercion::ReifyFnPointer),
        copy(1),
        FN_PTR,
    );
    assert_eq!(f.translate_rvalue(&of_local, span()), err(ErrorKind::UnsupportedCast));
    assert_eq!(f.cx.fn_name_map.len(), 3);
}

#[test]
fn checks_for_undefined_behaviour_are_off() {
    let mut f = fcx();
    assert_eq!(
        f.translate_rvalue(&SrcRvalue::NullaryOp(NullOp::UbChecks, BOOL), span()),
        Ok(ValueExpr::Constant(Constant::Bool(false), Type::Bool))
    );
    for op in [NullOp::SizeOf, NullOp::AlignOf, NullOp::OffsetOf] {
        assert_eq!(
            f.translate_rvalue(&SrcRvalue::NullaryOp(op, U8), span()),
            err(ErrorKind::UnsupportedRvalue)
        );
    }
    assert_eq!(
        f.translate_rvalue(&SrcRvalue::ShallowInitBox, span()),
        err(ErrorKind::UnsupportedRvalue)
    );
    assert_eq!(
        f.translate_rvalue(&SrcRvalue::ThreadLocalRef, span()),
        err(ErrorKind::UnsupportedRvalue)
    );
}

#[test]
fn expressions_leave_blocks_alone() {
    let mut f = fcx();
    let next = f.next_bb;
    let _ = f.translate_rvalue(&SrcRvalue::BinaryOp(SrcBinOp::Add, copy(1), copy(1)), span());
    let _ = f.translate_rvalue(&SrcRvalue::Len(local(2)), span());
    assert!(f.blocks.is_empty());
    assert_eq!(f.next_bb, next);
    assert_eq!(f.bb_name_map.len(), 4);
    let _ = U64;
}
