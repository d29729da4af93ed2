//! Lowering of places, operands and value-producing expressions.
use crate::ctxt::intern;
use crate::error::{refines, ErrorKind, LowerError, Span};
use crate::fn_ctxt::{Env, FnCtxt};
use crate::ir::{
    copy_type, lemma_type_view, FnName, Int, LocalName, PtrType, Type, TypeView, VariantView,
};
use crate::make::{
    addr_of, addr_of_view, binop, binop_view, bool_to_int, bool_to_int_view, const_bool,
    const_bool_view, const_usize, const_usize_view, fn_ptr, fn_ptr_view, load, load_view,
    transmute, transmute_view, unop, unop_view,
};
use crate::source::{
    AggregateKind, BorrowKind, CastKind, ConstValue, NullOp, PointerCoercion, Projection,
    ProjectionElem, SrcBinOp, SrcConst, SrcMutability, SrcOperand, SrcPlace, SrcRvalue, SrcTy,
    SrcUnOp, TyId,
};
use crate::syntax::{
    copy_value, lemma_tuple_view, values_view, BinOp, BoolBinOp, CastOp, CastOpView, Constant,
    IntBinOp,
    IntBinOpWithOverflow, IntUnOp, PlaceExpr, PlaceExprView, RelOp, UnOp, UnOpView, ValueExpr,
    ValueExprView,
};
use crate::ty::{
    discriminant_for_variant, int_from_bits, lemma_prepend_push, lower_int_bits, lower_mutbl,
    lower_ty, pointee_info, prepend, translate_mutbl,
};
use vstd::prelude::*;

verus! {

/// The target name of the source local `local`.
pub open spec fn local_name(env: Env, local: usize) -> Result<LocalName, ErrorKind> {
    if local < env.local_names.len() {
        Ok(env.local_names[local as int])
    } else {
        Err(ErrorKind::UnknownLocal)
    }
}

/// The type of a place: that of its last step, or of its local where it has no step.
pub open spec fn place_ty(env: Env, place: SrcPlace) -> Result<TyId, ErrorKind> {
    if place.projection@.len() > 0 {
        Ok(place.projection@.last().ty)
    } else if place.local < env.locals.len() {
        Ok(env.locals[place.local as int])
    } else {
        Err(ErrorKind::UnknownLocal)
    }
}

/// The type of an operand.
pub open spec fn operand_ty(env: Env, op: SrcOperand) -> Result<TyId, ErrorKind> {
    match op {
        SrcOperand::Constant(c) => Ok(c.ty),
        SrcOperand::Copy(place) => place_ty(env, place),
        SrcOperand::Move(place) => place_ty(env, place),
    }
}

/// One step of a place, applied to the place `root` that the steps before it gave.
///
/// A field keeps the kind of place; a dereference loads the pointer and
/// carries the type that it points to; an index loads the local that holds
/// the index, and checks no bounds; a downcast carries the discriminant of
/// the variant.
pub open spec fn lower_projection(env: Env, proj: Projection, root: PlaceExprView) -> Result<
    PlaceExprView,
    ErrorKind,
> {
    match proj.elem {
        ProjectionElem::Field(f) => Ok(
            PlaceExprView::Field { root: Box::new(root), field: Int::NonNeg(f as u128) },
        ),
        ProjectionElem::Deref => match lower_ty(env.tys, proj.ty) {
            Err(e) => Err(e),
            Ok(ty) => Ok(PlaceExprView::Deref { operand: Box::new(load_view(root)), ty }),
        },
        ProjectionElem::Index(local) => match local_name(env, local) {
            Err(e) => Err(e),
            Ok(name) => Ok(
                PlaceExprView::Index {
                    root: Box::new(root),
                    index: Box::new(load_view(PlaceExprView::Local(name))),
                },
            ),
        },
        ProjectionElem::Downcast(variant) => match discriminant_for_variant(
            env.tys,
            proj.ty,
            variant,
        ) {
            Err(e) => Err(e),
            Ok(discriminant) => Ok(PlaceExprView::Downcast { root: Box::new(root), discriminant }),
        },
        _ => Err(ErrorKind::UnsupportedProjection),
    }
}

/// The steps from index `i` on, applied in order to `root`.
pub open spec fn lower_projections(env: Env, projs: Seq<Projection>, i: int, root: PlaceExprView) -> Result<
    PlaceExprView,
    ErrorKind,
>
    decreases projs.len() - i,
{
    if i < 0 || i >= projs.len() {
        Ok(root)
    } else {
        match lower_projection(env, projs[i], root) {
            Err(e) => Err(e),
            Ok(next) => lower_projections(env, projs, i + 1, next),
        }
    }
}

/// The target place of a source place: its local, which must have a name
/// and a type, with its steps applied from left to right.
pub open spec fn lower_place(env: Env, place: SrcPlace) -> Result<PlaceExprView, ErrorKind> {
    match local_name(env, place.local) {
        Err(e) => Err(e),
        Ok(name) => if place.local < env.locals.len() {
            lower_projections(env, place.projection@, 0, PlaceExprView::Local(name))
        } else {
            Err(ErrorKind::UnknownLocal)
        },
    }
}

/// The target value of a constant: a literal of the constant's type.
pub open spec fn lower_const(tys: Seq<SrcTy>, c: SrcConst) -> Result<ValueExprView, ErrorKind> {
    match c.value {
        ConstValue::Int(bits) => match lower_ty(tys, c.ty) {
            Err(e) => Err(e),
            Ok(TypeView::Int(ity)) => match lower_int_bits(bits, ity) {
                Err(e) => Err(e),
                Ok(i) => Ok(ValueExprView::Constant(Constant::Int(i), TypeView::Int(ity))),
            },
            Ok(_) => Err(ErrorKind::UnsupportedConstant),
        },
        ConstValue::Bool(b) => match lower_ty(tys, c.ty) {
            Err(e) => Err(e),
            Ok(TypeView::Bool) => Ok(const_bool_view(b)),
            Ok(_) => Err(ErrorKind::UnsupportedConstant),
        },
        _ => Err(ErrorKind::UnsupportedConstant),
    }
}

/// The target value of an operand: a literal for a constant, and a load of
/// the place for a copy and for a move alike.
pub open spec fn lower_operand(env: Env, op: SrcOperand) -> Result<ValueExprView, ErrorKind> {
    match op {
        SrcOperand::Constant(c) => lower_const(env.tys, c),
        SrcOperand::Copy(place) => match lower_place(env, place) {
            Err(e) => Err(e),
            Ok(p) => Ok(load_view(p)),
        },
        SrcOperand::Move(place) => match lower_place(env, place) {
            Err(e) => Err(e),
            Ok(p) => Ok(load_view(p)),
        },
    }
}

/// The operands from index `i` on, in order.
pub open spec fn lower_operands_from(env: Env, ops: Seq<SrcOperand>, i: int) -> Result<
    Seq<ValueExprView>,
    ErrorKind,
>
    decreases ops.len() - i,
{
    if i < 0 || i >= ops.len() {
        Ok(Seq::empty())
    } else {
        match lower_operand(env, ops[i]) {
            Err(e) => Err(e),
            Ok(v) => prepend(seq![v], lower_operands_from(env, ops, i + 1)),
        }
    }
}

/// Arithmetic and bitwise operators on integers.
pub open spec fn lower_int_binop(op: SrcBinOp) -> Option<IntBinOp> {
    match op {
        SrcBinOp::Add => Some(IntBinOp::Add),
        SrcBinOp::Sub => Some(IntBinOp::Sub),
        SrcBinOp::Mul => Some(IntBinOp::Mul),
        SrcBinOp::Div => Some(IntBinOp::Div),
        SrcBinOp::Rem => Some(IntBinOp::Rem),
        SrcBinOp::Shl => Some(IntBinOp::Shl),
        SrcBinOp::Shr => Some(IntBinOp::Shr),
        SrcBinOp::BitAnd => Some(IntBinOp::BitAnd),
        SrcBinOp::BitOr => Some(IntBinOp::BitOr),
        SrcBinOp::BitXor => Some(IntBinOp::BitXor),
        SrcBinOp::AddUnchecked => Some(IntBinOp::AddUnchecked),
        SrcBinOp::SubUnchecked => Some(IntBinOp::SubUnchecked),
        SrcBinOp::MulUnchecked => Some(IntBinOp::MulUnchecked),
        SrcBinOp::ShlUnchecked => Some(IntBinOp::ShlUnchecked),
        SrcBinOp::ShrUnchecked => Some(IntBinOp::ShrUnchecked),
        _ => None,
    }
}

/// Comparisons, which are the same operator on every type.
pub open spec fn lower_rel_op(op: SrcBinOp) -> Option<RelOp> {
    match op {
        SrcBinOp::Lt => Some(RelOp::Lt),
        SrcBinOp::Le => Some(RelOp::Le),
        SrcBinOp::Gt => Some(RelOp::Gt),
        SrcBinOp::Ge => Some(RelOp::Ge),
        SrcBinOp::Eq => Some(RelOp::Eq),
        SrcBinOp::Ne => Some(RelOp::Ne),
        SrcBinOp::Cmp => Some(RelOp::Cmp),
        _ => None,
    }
}

/// Bitwise operators on booleans.
pub open spec fn lower_bool_binop(op: SrcBinOp) -> Option<BoolBinOp> {
    match op {
        SrcBinOp::BitAnd => Some(BoolBinOp::BitAnd),
        SrcBinOp::BitOr => Some(BoolBinOp::BitOr),
        SrcBinOp::BitXor => Some(BoolBinOp::BitXor),
        _ => None,
    }
}

/// The target operator for the source operator `op` on a left operand of
/// type `lty`: the type decides between the integer, the boolean and the
/// pointer form of an operator.
pub open spec fn select_binop(op: SrcBinOp, lty: TypeView) -> Option<BinOp> {
    if op == SrcBinOp::Offset {
        if lty is Ptr {
            Some(BinOp::PtrOffset { inbounds: true })
        } else {
            None
        }
    } else if lty is Int && lower_int_binop(op) is Some {
        Some(BinOp::Int(lower_int_binop(op)->0))
    } else if lower_rel_op(op) is Some {
        Some(BinOp::Rel(lower_rel_op(op)->0))
    } else if lty is Bool && lower_bool_binop(op) is Some {
        Some(BinOp::Bool(lower_bool_binop(op)->0))
    } else {
        None
    }
}

/// A binary operation. The result of a three-way comparison is a signed
/// byte, reinterpreted in the source's type of such results.
pub open spec fn lower_binary(env: Env, op: SrcBinOp, l: SrcOperand, r: SrcOperand) -> Result<
    ValueExprView,
    ErrorKind,
> {
    match operand_ty(env, l) {
        Err(e) => Err(e),
        Ok(lty) => match lower_ty(env.tys, lty) {
            Err(e) => Err(e),
            Ok(lty) => match lower_operand(env, l) {
                Err(e) => Err(e),
                Ok(lv) => match lower_operand(env, r) {
                    Err(e) => Err(e),
                    Ok(rv) => match select_binop(op, lty) {
                        None => Err(ErrorKind::UnsupportedBinOp),
                        Some(operator) => if op == SrcBinOp::Cmp {
                            match env.three_way_ty {
                                None => Err(ErrorKind::UnknownType),
                                Some(id) => match lower_ty(env.tys, id) {
                                    Err(e) => Err(e),
                                    Ok(ty) => Ok(
                                        transmute_view(binop_view(operator, lv, rv), ty),
                                    ),
                                },
                            }
                        } else {
                            Ok(binop_view(operator, lv, rv))
                        },
                    },
                },
            },
        },
    }
}

pub open spec fn lower_overflow_op(op: SrcBinOp) -> Option<IntBinOpWithOverflow> {
    match op {
        SrcBinOp::Add => Some(IntBinOpWithOverflow::Add),
        SrcBinOp::Sub => Some(IntBinOpWithOverflow::Sub),
        SrcBinOp::Mul => Some(IntBinOpWithOverflow::Mul),
        _ => None,
    }
}

/// An integer operation that also says whether it overflowed.
pub open spec fn lower_checked_binary(env: Env, op: SrcBinOp, l: SrcOperand, r: SrcOperand) -> Result<
    ValueExprView,
    ErrorKind,
> {
    match lower_operand(env, l) {
        Err(e) => Err(e),
        Ok(lv) => match lower_operand(env, r) {
            Err(e) => Err(e),
            Ok(rv) => match lower_overflow_op(op) {
                None => Err(ErrorKind::UnsupportedCheckedBinOp),
                Some(op) => Ok(binop_view(BinOp::IntWithOverflow(op), lv, rv)),
            },
        },
    }
}

/// The target operator for the unary operator `op` on an operand of type `ty`.
pub open spec fn select_unop(op: SrcUnOp, ty: TypeView) -> Option<UnOpView> {
    match op {
        SrcUnOp::Neg => if ty is Int {
            Some(UnOpView::Int(IntUnOp::Neg))
        } else {
            None
        },
        SrcUnOp::Not => if ty is Int {
            Some(UnOpView::Int(IntUnOp::BitNot))
        } else if ty is Bool {
            Some(UnOpView::Bool(crate::syntax::BoolUnOp::Not))
        } else {
            None
        },
        _ => None,
    }
}

pub open spec fn lower_unary(env: Env, op: SrcUnOp, operand: SrcOperand) -> Result<
    ValueExprView,
    ErrorKind,
> {
    match operand_ty(env, operand) {
        Err(e) => Err(e),
        Ok(ty) => match lower_ty(env.tys, ty) {
            Err(e) => Err(e),
            Ok(ty) => match lower_operand(env, operand) {
                Err(e) => Err(e),
                Ok(v) => match select_unop(op, ty) {
                    None => Err(ErrorKind::UnsupportedUnOp),
                    Some(operator) => Ok(unop_view(operator, v)),
                },
            },
        },
    }
}

/// Whether a borrow of this kind may write.
pub open spec fn borrow_mutability(kind: BorrowKind) -> SrcMutability {
    match kind {
        BorrowKind::Mut => SrcMutability::Mut,
        _ => SrcMutability::Not,
    }
}

/// A reference to a place: its address, as a reference that knows what it points to.
pub open spec fn lower_ref(env: Env, kind: BorrowKind, place: SrcPlace) -> Result<
    ValueExprView,
    ErrorKind,
> {
    match place_ty(env, place) {
        Err(e) => Err(e),
        Ok(ty) => match pointee_info(env.tys, ty) {
            Err(e) => Err(e),
            Ok(pointee) => match lower_place(env, place) {
                Err(e) => Err(e),
                Ok(p) => Ok(
                    addr_of_view(
                        p,
                        PtrType::Ref { mutbl: lower_mutbl(borrow_mutability(kind)), pointee },
                    ),
                ),
            },
        },
    }
}

/// The first variant with the discriminant `d`, from index `i` on.
pub open spec fn find_variant_from(variants: Seq<VariantView>, d: Int, i: int) -> Option<
    VariantView,
>
    decreases variants.len() - i,
{
    if i < 0 || i >= variants.len() {
        None
    } else if variants[i].discriminant == d {
        Some(variants[i])
    } else {
        find_variant_from(variants, d, i + 1)
    }
}

/// A value built from its parts. The type of the value decides what is
/// built: a union from its one field, a tuple or an array from the list of
/// its items, and an enum from the discriminant of the variant and the list
/// of the variant's fields as one tuple.
pub open spec fn lower_aggregate(env: Env, kind: AggregateKind, operands: Seq<SrcOperand>, ty: TyId) -> Result<
    ValueExprView,
    ErrorKind,
> {
    match lower_ty(env.tys, ty) {
        Err(e) => Err(e),
        Ok(t) => match t {
            TypeView::Union { .. } => match kind {
                AggregateKind::Adt { active_field: Some(f), .. } => if operands.len() != 1 {
                    Err(ErrorKind::UnsupportedAggregate)
                } else {
                    match lower_operand(env, operands[0]) {
                        Err(e) => Err(e),
                        Ok(v) => Ok(
                            ValueExprView::Union {
                                field: Int::NonNeg(f as u128),
                                expr: Box::new(v),
                                union_ty: t,
                            },
                        ),
                    }
                },
                _ => Err(ErrorKind::UnsupportedAggregate),
            },
            TypeView::Tuple { .. } | TypeView::Array { .. } => match lower_operands_from(
                env,
                operands,
                0,
            ) {
                Err(e) => Err(e),
                Ok(items) => Ok(ValueExprView::Tuple(items, t)),
            },
            TypeView::Enum { variants, .. } => match kind {
                AggregateKind::Adt { variant, .. } => match discriminant_for_variant(
                    env.tys,
                    ty,
                    variant,
                ) {
                    Err(e) => Err(e),
                    Ok(discriminant) => match lower_operands_from(env, operands, 0) {
                        Err(e) => Err(e),
                        Ok(items) => match find_variant_from(variants, discriminant, 0) {
                            None => Err(ErrorKind::UnknownVariant),
                            Some(v) => Ok(
                                ValueExprView::Variant {
                                    discriminant,
                                    data: Box::new(ValueExprView::Tuple(items, v.ty)),
                                    enum_ty: t,
                                },
                            ),
                        },
                    },
                },
                _ => Err(ErrorKind::UnsupportedAggregate),
            },
            _ => Err(ErrorKind::UnsupportedAggregate),
        },
    }
}

/// The length of an array place: a constant, read off the type.
pub open spec fn lower_len(env: Env, place: SrcPlace) -> Result<ValueExprView, ErrorKind> {
    match place_ty(env, place) {
        Err(e) => Err(e),
        Ok(ty) => match lower_ty(env.tys, ty) {
            Err(e) => Err(e),
            Ok(TypeView::Array { count, .. }) => Ok(const_usize_view(count)),
            Ok(_) => Err(ErrorKind::LengthOfNonArray),
        },
    }
}

/// An array of `count` copies of an operand.
pub open spec fn lower_repeat(env: Env, op: SrcOperand, count: u64) -> Result<
    ValueExprView,
    ErrorKind,
> {
    match operand_ty(env, op) {
        Err(e) => Err(e),
        Ok(ty) => match lower_ty(env.tys, ty) {
            Err(e) => Err(e),
            Ok(elem) => match lower_operand(env, op) {
                Err(e) => Err(e),
                Ok(v) => if count > usize::MAX {
                    Err(ErrorKind::TooLarge)
                } else {
                    Ok(
                        ValueExprView::Tuple(
                            Seq::new(count as nat, |i: int| v),
                            TypeView::Array {
                                elem: Box::new(elem),
                                count: Int::NonNeg(count as u128),
                            },
                        ),
                    )
                },
            },
        },
    }
}

/// A cast between integers. A boolean is first reinterpreted as an unsigned byte.
pub open spec fn lower_int_cast(env: Env, operand: SrcOperand, ty: TyId) -> Result<
    ValueExprView,
    ErrorKind,
> {
    match operand_ty(env, operand) {
        Err(e) => Err(e),
        Ok(from) => match lower_ty(env.tys, from) {
            Err(e) => Err(e),
            Ok(from) => match lower_operand(env, operand) {
                Err(e) => Err(e),
                Ok(v) => match lower_ty(env.tys, ty) {
                    Err(e) => Err(e),
                    Ok(TypeView::Int(to)) => match from {
                        TypeView::Int(_) => Ok(
                            unop_view(UnOpView::Cast(CastOpView::IntToInt(to)), v),
                        ),
                        TypeView::Bool => Ok(
                            unop_view(
                                UnOpView::Cast(CastOpView::IntToInt(to)),
                                bool_to_int_view(v),
                            ),
                        ),
                        _ => Err(ErrorKind::UnsupportedCast),
                    },
                    Ok(_) => Err(ErrorKind::UnsupportedCast),
                },
            },
        },
    }
}

/// A cast that keeps the bytes and changes the type.
pub open spec fn lower_transmute(env: Env, operand: SrcOperand, ty: TyId) -> Result<
    ValueExprView,
    ErrorKind,
> {
    match lower_operand(env, operand) {
        Err(e) => Err(e),
        Ok(v) => match lower_ty(env.tys, ty) {
            Err(e) => Err(e),
            Ok(ty) => Ok(transmute_view(v, ty)),
        },
    }
}

/// A cast, and the names of functions after it: the cast of a named
/// function to a function pointer asks for the function's name.
pub open spec fn lower_cast(
    env: Env,
    names: Map<u64, FnName>,
    kind: CastKind,
    operand: SrcOperand,
    ty: TyId,
) -> Result<(ValueExprView, Map<u64, FnName>), ErrorKind> {
    match kind {
        CastKind::IntToInt => with_names(lower_int_cast(env, operand, ty), names),
        CastKind::PointerExposeProvenance | CastKind::PointerWithExposedProvenance => Err(
            ErrorKind::ProvenanceCastInExpression,
        ),
        CastKind::Transmute | CastKind::PtrToPtr | CastKind::FnPtrToPtr => with_names(
            lower_transmute(env, operand, ty),
            names,
        ),
        CastKind::PointerCoercion(PointerCoercion::ReifyFnPointer) => match operand {
            SrcOperand::Constant(c) => match c.value {
                ConstValue::FnItem(id) => Ok((fn_ptr_view(intern(names, id).0), intern(names, id).1)),
                _ => Err(ErrorKind::UnsupportedCast),
            },
            _ => Err(ErrorKind::UnsupportedCast),
        },
        _ => Err(ErrorKind::UnsupportedCast),
    }
}

/// A result that leaves the names of functions as they are.
pub open spec fn with_names<T>(r: Result<T, ErrorKind>, names: Map<u64, FnName>) -> Result<
    (T, Map<u64, FnName>),
    ErrorKind,
> {
    match r {
        Err(e) => Err(e),
        Ok(v) => Ok((v, names)),
    }
}

/// The target value of a value-producing expression, and the names of
/// functions after it.
pub open spec fn lower_rvalue(env: Env, names: Map<u64, FnName>, rv: SrcRvalue) -> Result<
    (ValueExprView, Map<u64, FnName>),
    ErrorKind,
> {
    match rv {
        SrcRvalue::Use(op) => with_names(lower_operand(env, op), names),
        SrcRvalue::BinaryOp(op, l, r) => with_names(lower_binary(env, op, l, r), names),
        SrcRvalue::CheckedBinaryOp(op, l, r) => with_names(
            lower_checked_binary(env, op, l, r),
            names,
        ),
        SrcRvalue::UnaryOp(op, operand) => with_names(lower_unary(env, op, operand), names),
        SrcRvalue::Ref(kind, place) => with_names(lower_ref(env, kind, place), names),
        SrcRvalue::AddressOf(_, place) => with_names(
            match lower_place(env, place) {
                Err(e) => Err(e),
                Ok(p) => Ok(addr_of_view(p, PtrType::Raw)),
            },
            names,
        ),
        SrcRvalue::Aggregate { kind, operands, ty } => with_names(
            lower_aggregate(env, kind, operands@, ty),
            names,
        ),
        SrcRvalue::CopyForDeref(place) => with_names(
            match lower_place(env, place) {
                Err(e) => Err(e),
                Ok(p) => Ok(load_view(p)),
            },
            names,
        ),
        SrcRvalue::Len(place) => with_names(lower_len(env, place), names),
        SrcRvalue::Discriminant(place) => with_names(
            match lower_place(env, place) {
                Err(e) => Err(e),
                Ok(p) => Ok(ValueExprView::GetDiscriminant { place: Box::new(p) }),
            },
            names,
        ),
        SrcRvalue::Repeat(op, count) => with_names(lower_repeat(env, op, count), names),
        SrcRvalue::Cast(kind, operand, ty) => lower_cast(env, names, kind, operand, ty),
        SrcRvalue::NullaryOp(NullOp::UbChecks, _) => Ok((const_bool_view(false), names)),
        _ => Err(ErrorKind::UnsupportedRvalue),
    }
}

impl FnCtxt {
    /// The target name of a source local.
    pub fn local_name(&self, local: usize) -> (r: Result<LocalName, ErrorKind>)
        ensures
            r == local_name(self.env(), local),
    {
        if local < self.local_name_map.len() {
            Ok(self.local_name_map[local])
        } else {
            Err(ErrorKind::UnknownLocal)
        }
    }

    /// The type of a place.
    pub fn place_ty(&self, place: &SrcPlace) -> (r: Result<TyId, ErrorKind>)
        ensures
            r == place_ty(self.env(), *place),
    {
        let n = place.projection.len();
        if n > 0 {
            Ok(place.projection[n - 1].ty)
        } else if place.local < self.locals.len() {
            Ok(self.locals[place.local])
        } else {
            Err(ErrorKind::UnknownLocal)
        }
    }

    /// The type of an operand.
    pub fn operand_ty(&self, op: &SrcOperand) -> (r: Result<TyId, ErrorKind>)
        ensures
            r == operand_ty(self.env(), *op),
    {
        match op {
            SrcOperand::Constant(c) => Ok(c.ty),
            SrcOperand::Copy(place) => self.place_ty(place),
            SrcOperand::Move(place) => self.place_ty(place),
        }
    }

    /// Lowers a place. Only the type cache changes.
    pub fn translate_place_smir(&mut self, place: &SrcPlace, span: Span) -> (r: Result<
        PlaceExpr,
        LowerError,
    >)
        requires
            old(self).wf(),
        ensures
            final(self).wf(),
            final(self).only_cache_grew(old(self)),
            refines(r, lower_place(old(self).env(), *place), span),
    {
        let name = match self.local_name(place.local) {
            Ok(name) => name,
            Err(kind) => {
                return Err(LowerError::new(span, kind));
            },
        };
        if place.local >= self.locals.len() {
            return Err(LowerError::new(span, ErrorKind::UnknownLocal));
        }
        let mut expr = PlaceExpr::Local(name);
        let mut i: usize = 0;
        let ghost env = self.env();
        while i < place.projection.len()
            invariant
                i <= place.projection.len(),
                self.wf(),
                self.only_cache_grew(old(self)),
                env == old(self).env(),
                lower_place(env, *place) == lower_projections(
                    env,
                    place.projection@,
                    i as int,
                    expr@,
                ),
            decreases place.projection.len() - i,
        {
            let proj = place.projection[i];
            let next = match proj.elem {
                ProjectionElem::Field(f) => PlaceExpr::Field {
                    root: Box::new(expr),
                    field: Int::NonNeg(f as u128),
                },
                ProjectionElem::Deref => {
                    let ty = match self.cx.translate_ty(proj.ty, span) {
                        Ok(ty) => ty,
                        Err(e) => {
                            return Err(e);
                        },
                    };
                    PlaceExpr::Deref { operand: Box::new(load(expr)), ty }
                },
                ProjectionElem::Index(local) => {
                    let index = match self.local_name(local) {
                        Ok(name) => load(PlaceExpr::Local(name)),
                        Err(kind) => {
                            return Err(LowerError::new(span, kind));
                        },
                    };
                    PlaceExpr::Index { root: Box::new(expr), index: Box::new(index) }
                },
                ProjectionElem::Downcast(variant) => {
                    let discriminant = match self.cx.discriminant_for_variant(
                        proj.ty,
                        variant,
                        span,
                    ) {
                        Ok(d) => d,
                        Err(e) => {
                            return Err(e);
                        },
                    };
                    PlaceExpr::Downcast { root: Box::new(expr), discriminant }
                },
                _ => {
                    return Err(LowerError::new(span, ErrorKind::UnsupportedProjection));
                },
            };
            expr = next;
            i += 1;
        }
        Ok(expr)
    }

    /// Lowers a place.
    pub fn translate_place(&mut self, place: &SrcPlace, span: Span) -> (r: Result<
        PlaceExpr,
        LowerError,
    >)
        requires
            old(self).wf(),
        ensures
            final(self).wf(),
            final(self).only_cache_grew(old(self)),
            refines(r, lower_place(old(self).env(), *place), span),
    {
        self.translate_place_smir(place, span)
    }

    /// Lowers a constant.
    pub fn translate_const_smir(&mut self, c: &SrcConst, span: Span) -> (r: Result<
        ValueExpr,
        LowerError,
    >)
        requires
            old(self).wf(),
        ensures
            final(self).wf(),
            final(self).only_cache_grew(old(self)),
            refines(r, lower_const(old(self).env().tys, *c), span),
    {
        match c.value {
            ConstValue::Int(bits) => {
                match self.cx.translate_ty(c.ty, span) {
                    Err(e) => Err(e),
                    Ok(Type::Int(ity)) => match int_from_bits(bits, ity) {
                        Err(kind) => Err(LowerError::new(span, kind)),
                        Ok(i) => Ok(ValueExpr::Constant(Constant::Int(i), Type::Int(ity))),
                    },
                    Ok(_) => Err(LowerError::new(span, ErrorKind::UnsupportedConstant)),
                }
            },
            ConstValue::Bool(b) => {
                match self.cx.translate_ty(c.ty, span) {
                    Err(e) => Err(e),
                    Ok(Type::Bool) => Ok(const_bool(b)),
                    Ok(_) => Err(LowerError::new(span, ErrorKind::UnsupportedConstant)),
                }
            },
            _ => Err(LowerError::new(span, ErrorKind::UnsupportedConstant)),
        }
    }

    /// Lowers an operand. Only the type cache changes.
    pub fn translate_operand_smir(&mut self, operand: &SrcOperand, span: Span) -> (r: Result<
        ValueExpr,
        LowerError,
    >)
        requires
            old(self).wf(),
        ensures
            final(self).wf(),
            final(self).only_cache_grew(old(self)),
            refines(r, lower_operand(old(self).env(), *operand), span),
    {
        match operand {
            SrcOperand::Constant(c) => self.translate_const_smir(c, span),
            SrcOperand::Copy(place) => match self.translate_place_smir(place, span) {
                Ok(p) => Ok(load(p)),
                Err(e) => Err(e),
            },
            SrcOperand::Move(place) => match self.translate_place_smir(place, span) {
                Ok(p) => Ok(load(p)),
                Err(e) => Err(e),
            },
        }
    }

    /// Lowers an operand.
    pub fn translate_operand(&mut self, operand: &SrcOperand, span: Span) -> (r: Result<
        ValueExpr,
        LowerError,
    >)
        requires
            old(self).wf(),
        ensures
            final(self).wf(),
            final(self).only_cache_grew(old(self)),
            refines(r, lower_operand(old(self).env(), *operand), span),
    {
        self.translate_operand_smir(operand, span)
    }

    /// Lowers a list of operands, in order.
    pub fn translate_operands(&mut self, ops: &Vec<SrcOperand>, span: Span) -> (r: Result<
        Vec<ValueExpr>,
        LowerError,
    >)
        requires
            old(self).wf(),
        ensures
            final(self).wf(),
            final(self).only_cache_grew(old(self)),
            match r {
                Ok(v) => lower_operands_from(old(self).env(), ops@, 0) == Ok::<_, ErrorKind>(
                    values_view(v@),
                ),
                Err(e) => lower_operands_from(old(self).env(), ops@, 0) == Err::<
                    Seq<ValueExprView>,
                    _,
                >(e.kind) && e.span == span,
            },
    {
        let mut out: Vec<ValueExpr> = Vec::new();
        let mut i: usize = 0;
        let ghost env = self.env();
        proof {
            assert(values_view(out@) =~= Seq::empty());
            match lower_operands_from(env, ops@, 0) {
                Ok(rest) => {
                    assert(Seq::<ValueExprView>::empty() + rest =~= rest);
                },
                Err(_) => {},
            }
        }
        while i < ops.len()
            invariant
                i <= ops.len(),
                self.wf(),
                self.only_cache_grew(old(self)),
                env == old(self).env(),
                lower_operands_from(env, ops@, 0) == prepend(
                    values_view(out@),
                    lower_operands_from(env, ops@, i as int),
                ),
            decreases ops.len() - i,
        {
            let v = match self.translate_operand_smir(&ops[i], span) {
                Ok(v) => v,
                Err(e) => {
                    return Err(e);
                },
            };
            proof {
                lemma_prepend_push(values_view(out@), v@, lower_operands_from(env, ops@, i + 1));
                assert(values_view(out@.push(v)) =~= values_view(out@).push(v@));
            }
            out.push(v);
            i += 1;
        }
        proof {
            lemma_prepend_push(
                values_view(out@),
                arbitrary(),
                lower_operands_from(env, ops@, i as int),
            );
        }
        Ok(out)
    }
}

/// What `select_binop` prescribes.
pub fn choose_binop(op: SrcBinOp, lty: &Type) -> (r: Option<BinOp>)
    ensures
        r == select_binop(op, lty@),
{
    let is_int = match lty {
        Type::Int(_) => true,
        _ => false,
    };
    let is_bool = match lty {
        Type::Bool => true,
        _ => false,
    };
    let is_ptr = match lty {
        Type::Ptr(_) => true,
        _ => false,
    };
    match op {
        SrcBinOp::Offset => if is_ptr {
            Some(BinOp::PtrOffset { inbounds: true })
        } else {
            None
        },
        SrcBinOp::Add => if is_int {
            Some(BinOp::Int(IntBinOp::Add))
        } else {
            None
        },
        SrcBinOp::Sub => if is_int {
            Some(BinOp::Int(IntBinOp::Sub))
        } else {
            None
        },
        SrcBinOp::Mul => if is_int {
            Some(BinOp::Int(IntBinOp::Mul))
        } else {
            None
        },
        SrcBinOp::Div => if is_int {
            Some(BinOp::Int(IntBinOp::Div))
        } else {
            None
        },
        SrcBinOp::Rem => if is_int {
            Some(BinOp::Int(IntBinOp::Rem))
        } else {
            None
        },
        SrcBinOp::Shl => if is_int {
            Some(BinOp::Int(IntBinOp::Shl))
        } else {
            None
        },
        SrcBinOp::Shr => if is_int {
            Some(BinOp::Int(IntBinOp::Shr))
        } else {
            None
        },
        SrcBinOp::AddUnchecked => if is_int {
            Some(BinOp::Int(IntBinOp::AddUnchecked))
        } else {
            None
        },
        SrcBinOp::SubUnchecked => if is_int {
            Some(BinOp::Int(IntBinOp::SubUnchecked))
        } else {
            None
        },
        SrcBinOp::MulUnchecked => if is_int {
            Some(BinOp::Int(IntBinOp::MulUnchecked))
        } else {
            None
        },
        SrcBinOp::ShlUnchecked => if is_int {
            Some(BinOp::Int(IntBinOp::ShlUnchecked))
        } else {
            None
        },
        SrcBinOp::ShrUnchecked => if is_int {
            Some(BinOp::Int(IntBinOp::ShrUnchecked))
        } else {
            None
        },
        SrcBinOp::BitAnd => if is_int {
            Some(BinOp::Int(IntBinOp::BitAnd))
        } else if is_bool {
            Some(BinOp::Bool(BoolBinOp::BitAnd))
        } else {
            None
        },
        SrcBinOp::BitOr => if is_int {
            Some(BinOp::Int(IntBinOp::BitOr))
        } else if is_bool {
            Some(BinOp::Bool(BoolBinOp::BitOr))
        } else {
            None
        },
        SrcBinOp::BitXor => if is_int {
            Some(BinOp::Int(IntBinOp::BitXor))
        } else if is_bool {
            Some(BinOp::Bool(BoolBinOp::BitXor))
        } else {
            None
        },
        SrcBinOp::Lt => Some(BinOp::Rel(RelOp::Lt)),
        SrcBinOp::Le => Some(BinOp::Rel(RelOp::Le)),
        SrcBinOp::Gt => Some(BinOp::Rel(RelOp::Gt)),
        SrcBinOp::Ge => Some(BinOp::Rel(RelOp::Ge)),
        SrcBinOp::Eq => Some(BinOp::Rel(RelOp::Eq)),
        SrcBinOp::Ne => Some(BinOp::Rel(RelOp::Ne)),
        SrcBinOp::Cmp => Some(BinOp::Rel(RelOp::Cmp)),
    }
}

/// What `select_unop` prescribes.
pub fn choose_unop(op: SrcUnOp, ty: &Type) -> (r: Option<UnOp>)
    ensures
        match r {
            Some(o) => select_unop(op, ty@) == Some(o@),
            None => select_unop(op, ty@) is None,
        },
{
    match op {
        SrcUnOp::Neg => match ty {
            Type::Int(_) => Some(UnOp::Int(IntUnOp::Neg)),
            _ => None,
        },
        SrcUnOp::Not => match ty {
            Type::Int(_) => Some(UnOp::Int(IntUnOp::BitNot)),
            Type::Bool => Some(UnOp::Bool(crate::syntax::BoolUnOp::Not)),
            _ => None,
        },
        _ => None,
    }
}

/// The type of the first variant with the discriminant `d`.
pub fn find_variant_type(variants: &Vec<crate::ir::Variant>, d: Int) -> (r: Option<Type>)
    ensures
        match r {
            Some(ty) => find_variant_from(crate::ir::variants_view(variants@), d, 0) matches Some(v)
                && v.ty == ty@,
            None => find_variant_from(crate::ir::variants_view(variants@), d, 0) is None,
        },
{
    let ghost views = crate::ir::variants_view(variants@);
    let mut i: usize = 0;
    while i < variants.len()
        invariant
            i <= variants.len(),
            views == crate::ir::variants_view(variants@),
            find_variant_from(views, d, 0) == find_variant_from(views, d, i as int),
        decreases variants.len() - i,
    {
        if variants[i].discriminant == d {
            return Some(copy_type(&variants[i].ty));
        }
        i += 1;
    }
    None
}

impl FnCtxt {
    /// What `translate_rvalue_smir` owes for the result `r`, from the context
    /// `old` to the context `self`.
    pub open spec fn lowered_rvalue(
        &self,
        old: &FnCtxt,
        rv: SrcRvalue,
        span: Span,
        r: Result<ValueExpr, LowerError>,
    ) -> bool {
        match r {
            Ok(v) => lower_rvalue(old.env(), old.names(), rv) == Ok::<_, ErrorKind>(
                (v@, self.names()),
            ),
            Err(e) => lower_rvalue(old.env(), old.names(), rv) == Err::<
                (ValueExprView, Map<u64, FnName>),
                _,
            >(e.kind) && e.span == span && self.names() == old.names(),
        }
    }

    fn translate_binary(&mut self, op: SrcBinOp, l: &SrcOperand, r: &SrcOperand, span: Span) -> (res:
        Result<ValueExpr, LowerError>)
        requires
            old(self).wf(),
        ensures
            final(self).wf(),
            final(self).only_cache_grew(old(self)),
            refines(res, lower_binary(old(self).env(), op, *l, *r), span),
    {
        let lty = match self.operand_ty(l) {
            Ok(t) => t,
            Err(kind) => {
                return Err(LowerError::new(span, kind));
            },
        };
        let lty = match self.cx.translate_ty(lty, span) {
            Ok(t) => t,
            Err(e) => {
                return Err(e);
            },
        };
        let lv = match self.translate_operand_smir(l, span) {
            Ok(v) => v,
            Err(e) => {
                return Err(e);
            },
        };
        let rv = match self.translate_operand_smir(r, span) {
            Ok(v) => v,
            Err(e) => {
                return Err(e);
            },
        };
        let operator = match choose_binop(op, &lty) {
            Some(o) => o,
            None => {
                return Err(LowerError::new(span, ErrorKind::UnsupportedBinOp));
            },
        };
        match op {
            SrcBinOp::Cmp => {
                let id = match self.cx.three_way_ty {
                    Some(id) => id,
                    None => {
                        return Err(LowerError::new(span, ErrorKind::UnknownType));
                    },
                };
                match self.cx.translate_ty(id, span) {
                    Ok(ty) => Ok(transmute(binop(operator, lv, rv), ty)),
                    Err(e) => Err(e),
                }
            },
            _ => Ok(binop(operator, lv, rv)),
        }
    }

    fn translate_checked_binary(
        &mut self,
        op: SrcBinOp,
        l: &SrcOperand,
        r: &SrcOperand,
        span: Span,
    ) -> (res: Result<ValueExpr, LowerError>)
        requires
            old(self).wf(),
        ensures
            final(self).wf(),
            final(self).only_cache_grew(old(self)),
            refines(res, lower_checked_binary(old(self).env(), op, *l, *r), span),
    {
        let lv = match self.translate_operand_smir(l, span) {
            Ok(v) => v,
            Err(e) => {
                return Err(e);
            },
        };
        let rv = match self.translate_operand_smir(r, span) {
            Ok(v) => v,
            Err(e) => {
                return Err(e);
            },
        };
        let operator = match op {
            SrcBinOp::Add => IntBinOpWithOverflow::Add,
            SrcBinOp::Sub => IntBinOpWithOverflow::Sub,
            SrcBinOp::Mul => IntBinOpWithOverflow::Mul,
            _ => {
                return Err(LowerError::new(span, ErrorKind::UnsupportedCheckedBinOp));
            },
        };
        Ok(binop(BinOp::IntWithOverflow(operator), lv, rv))
    }

    fn translate_unary(&mut self, op: SrcUnOp, operand: &SrcOperand, span: Span) -> (res: Result<
        ValueExpr,
        LowerError,
    >)
        requires
            old(self).wf(),
        ensures
            final(self).wf(),
            final(self).only_cache_grew(old(self)),
            refines(res, lower_unary(old(self).env(), op, *operand), span),
    {
        let ty = match self.operand_ty(operand) {
            Ok(t) => t,
            Err(kind) => {
                return Err(LowerError::new(span, kind));
            },
        };
        let ty = match self.cx.translate_ty(ty, span) {
            Ok(t) => t,
            Err(e) => {
                return Err(e);
            },
        };
        let v = match self.translate_operand_smir(operand, span) {
            Ok(v) => v,
            Err(e) => {
                return Err(e);
            },
        };
        match choose_unop(op, &ty) {
            Some(operator) => Ok(unop(operator, v)),
            None => Err(LowerError::new(span, ErrorKind::UnsupportedUnOp)),
        }
    }

    fn translate_ref(&mut self, kind: BorrowKind, place: &SrcPlace, span: Span) -> (res: Result<
        ValueExpr,
        LowerError,
    >)
        requires
            old(self).wf(),
        ensures
            final(self).wf(),
            final(self).only_cache_grew(old(self)),
            refines(res, lower_ref(old(self).env(), kind, *place), span),
    {
        let ty = match self.place_ty(place) {
            Ok(t) => t,
            Err(kind) => {
                return Err(LowerError::new(span, kind));
            },
        };
        let pointee = match self.cx.pointee_info_of_smir(ty) {
            Ok(p) => p,
            Err(kind) => {
                return Err(LowerError::new(span, kind));
            },
        };
        let target = match self.translate_place_smir(place, span) {
            Ok(p) => p,
            Err(e) => {
                return Err(e);
            },
        };
        let mutbl = match kind {
            BorrowKind::Mut => SrcMutability::Mut,
            _ => SrcMutability::Not,
        };
        Ok(addr_of(target, PtrType::Ref { mutbl: translate_mutbl(mutbl), pointee }))
    }

    fn translate_aggregate(
        &mut self,
        kind: AggregateKind,
        operands: &Vec<SrcOperand>,
        ty: TyId,
        span: Span,
    ) -> (res: Result<ValueExpr, LowerError>)
        requires
            old(self).wf(),
        ensures
            final(self).wf(),
            final(self).only_cache_grew(old(self)),
            refines(res, lower_aggregate(old(self).env(), kind, operands@, ty), span),
    {
        let t = match self.cx.translate_ty(ty, span) {
            Ok(t) => t,
            Err(e) => {
                return Err(e);
            },
        };
        proof {
            lemma_type_view(t);
        }
        match &t {
            Type::Union { .. } => {
                match kind {
                    AggregateKind::Adt { active_field: Some(f), .. } => {
                        if operands.len() != 1 {
                            return Err(LowerError::new(span, ErrorKind::UnsupportedAggregate));
                        }
                        match self.translate_operand_smir(&operands[0], span) {
                            Ok(v) => Ok(
                                ValueExpr::Union {
                                    field: Int::NonNeg(f as u128),
                                    expr: Box::new(v),
                                    union_ty: t,
                                },
                            ),
                            Err(e) => Err(e),
                        }
                    },
                    _ => Err(LowerError::new(span, ErrorKind::UnsupportedAggregate)),
                }
            },
            Type::Tuple { .. } | Type::Array { .. } => {
                match self.translate_operands(operands, span) {
                    Ok(items) => {
                        proof {
                            lemma_tuple_view(items, t);
                        }
                        Ok(ValueExpr::Tuple(items, t))
                    },
                    Err(e) => Err(e),
                }
            },
            Type::Enum { variants, .. } => {
                match kind {
                    AggregateKind::Adt { variant, .. } => {
                        let discriminant = match self.cx.discriminant_for_variant(
                            ty,
                            variant,
                            span,
                        ) {
                            Ok(d) => d,
                            Err(e) => {
                                return Err(e);
                            },
                        };
                        let items = match self.translate_operands(operands, span) {
                            Ok(items) => items,
                            Err(e) => {
                                return Err(e);
                            },
                        };
                        let variant_ty = match find_variant_type(variants, discriminant) {
                            Some(ty) => ty,
                            None => {
                                return Err(LowerError::new(span, ErrorKind::UnknownVariant));
                            },
                        };
                        proof {
                            lemma_tuple_view(items, variant_ty);
                        }
                        let data = ValueExpr::Tuple(items, variant_ty);
                        Ok(ValueExpr::Variant { discriminant, data: Box::new(data), enum_ty: t })
                    },
                    _ => Err(LowerError::new(span, ErrorKind::UnsupportedAggregate)),
                }
            },
            _ => Err(LowerError::new(span, ErrorKind::UnsupportedAggregate)),
        }
    }

    fn translate_len(&mut self, place: &SrcPlace, span: Span) -> (res: Result<
        ValueExpr,
        LowerError,
    >)
        requires
            old(self).wf(),
        ensures
            final(self).wf(),
            final(self).only_cache_grew(old(self)),
            refines(res, lower_len(old(self).env(), *place), span),
    {
        let ty = match self.place_ty(place) {
            Ok(t) => t,
            Err(kind) => {
                return Err(LowerError::new(span, kind));
            },
        };
        match self.cx.translate_ty(ty, span) {
            Ok(Type::Array { elem: _, count }) => Ok(const_usize(count)),
            Ok(_) => Err(LowerError::new(span, ErrorKind::LengthOfNonArray)),
            Err(e) => Err(e),
        }
    }

    fn translate_repeat(&mut self, op: &SrcOperand, count: u64, span: Span) -> (res: Result<
        ValueExpr,
        LowerError,
    >)
        requires
            old(self).wf(),
        ensures
            final(self).wf(),
            final(self).only_cache_grew(old(self)),
            refines(res, lower_repeat(old(self).env(), *op, count), span),
    {
        let ty = match self.operand_ty(op) {
            Ok(t) => t,
            Err(kind) => {
                return Err(LowerError::new(span, kind));
            },
        };
        let elem = match self.cx.translate_ty(ty, span) {
            Ok(t) => t,
            Err(e) => {
                return Err(e);
            },
        };
        let v = match self.translate_operand_smir(op, span) {
            Ok(v) => v,
            Err(e) => {
                return Err(e);
            },
        };
        if count > usize::MAX as u64 {
            return Err(LowerError::new(span, ErrorKind::TooLarge));
        }
        let n: usize = count as usize;
        let mut items: Vec<ValueExpr> = Vec::new();
        let mut i: usize = 0;
        while i < n
            invariant
                i <= n,
                items@.len() == i,
                forall|j: int| 0 <= j < i ==> (#[trigger] items@[j])@ == v@,
            decreases n - i,
        {
            items.push(copy_value(&v));
            i += 1;
        }
        let ty = Type::Array { elem: Box::new(elem), count: Int::from_u64(count) };
        proof {
            lemma_tuple_view(items, ty);
            assert(values_view(items@) =~= Seq::new(count as nat, |i: int| v@));
        }
        Ok(ValueExpr::Tuple(items, ty))
    }

    fn translate_int_cast(&mut self, operand: &SrcOperand, ty: TyId, span: Span) -> (res: Result<
        ValueExpr,
        LowerError,
    >)
        requires
            old(self).wf(),
        ensures
            final(self).wf(),
            final(self).only_cache_grew(old(self)),
            refines(res, lower_int_cast(old(self).env(), *operand, ty), span),
    {
        let from = match self.operand_ty(operand) {
            Ok(t) => t,
            Err(kind) => {
                return Err(LowerError::new(span, kind));
            },
        };
        let from = match self.cx.translate_ty(from, span) {
            Ok(t) => t,
            Err(e) => {
                return Err(e);
            },
        };
        let v = match self.translate_operand_smir(operand, span) {
            Ok(v) => v,
            Err(e) => {
                return Err(e);
            },
        };
        let to = match self.cx.translate_ty(ty, span) {
            Ok(Type::Int(to)) => to,
            Ok(_) => {
                return Err(LowerError::new(span, ErrorKind::UnsupportedCast));
            },
            Err(e) => {
                return Err(e);
            },
        };
        let v = match from {
            Type::Int(_) => v,
            // A boolean first goes to an unsigned byte, and from there to the final type.
            Type::Bool => bool_to_int(v),
            _ => {
                return Err(LowerError::new(span, ErrorKind::UnsupportedCast));
            },
        };
        Ok(unop(UnOp::Cast(CastOp::IntToInt(to)), v))
    }

    fn translate_transmute(&mut self, operand: &SrcOperand, ty: TyId, span: Span) -> (res: Result<
        ValueExpr,
        LowerError,
    >)
        requires
            old(self).wf(),
        ensures
            final(self).wf(),
            final(self).only_cache_grew(old(self)),
            refines(res, lower_transmute(old(self).env(), *operand, ty), span),
    {
        let v = match self.translate_operand_smir(operand, span) {
            Ok(v) => v,
            Err(e) => {
                return Err(e);
            },
        };
        match self.cx.translate_ty(ty, span) {
            Ok(ty) => Ok(transmute(v, ty)),
            Err(e) => Err(e),
        }
    }

    fn translate_cast(&mut self, kind: CastKind, operand: &SrcOperand, ty: TyId, span: Span) -> (res:
        Result<ValueExpr, LowerError>)
        requires
            old(self).wf(),
        ensures
            final(self).wf(),
            final(self).same_blocks(old(self)),
            match res {
                Ok(v) => lower_cast(old(self).env(), old(self).names(), kind, *operand, ty) == Ok::<
                    _,
                    ErrorKind,
                >((v@, final(self).names())),
                Err(e) => lower_cast(old(self).env(), old(self).names(), kind, *operand, ty)
                    == Err::<(ValueExprView, Map<u64, FnName>), _>(e.kind) && e.span == span
                    && final(self).names() == old(self).names(),
            },
    {
        match kind {
            CastKind::IntToInt => self.translate_int_cast(operand, ty, span),
            CastKind::PointerExposeProvenance | CastKind::PointerWithExposedProvenance => Err(
                LowerError::new(span, ErrorKind::ProvenanceCastInExpression),
            ),
            CastKind::Transmute | CastKind::PtrToPtr | CastKind::FnPtrToPtr => {
                self.translate_transmute(operand, ty, span)
            },
            CastKind::PointerCoercion(PointerCoercion::ReifyFnPointer) => {
                match operand {
                    SrcOperand::Constant(c) => match c.value {
                        ConstValue::FnItem(id) => {
                            let name = self.cx.get_fn_name(id);
                            Ok(fn_ptr(name))
                        },
                        _ => Err(LowerError::new(span, ErrorKind::UnsupportedCast)),
                    },
                    _ => Err(LowerError::new(span, ErrorKind::UnsupportedCast)),
                }
            },
            _ => Err(LowerError::new(span, ErrorKind::UnsupportedCast)),
        }
    }

    /// Lowers a value-producing expression.
    ///
    /// The blocks built so far stay as they are; a function that the
    /// expression names is given a name if it has none.
    pub fn translate_rvalue_smir(&mut self, rv: &SrcRvalue, span: Span) -> (r: Result<
        ValueExpr,
        LowerError,
    >)
        requires
            old(self).wf(),
        ensures
            final(self).wf(),
            final(self).same_blocks(old(self)),
            final(self).lowered_rvalue(old(self), *rv, span, r),
    {
        match rv {
            SrcRvalue::Use(op) => self.translate_operand_smir(op, span),
            SrcRvalue::BinaryOp(op, l, r) => self.translate_binary(*op, l, r, span),
            SrcRvalue::CheckedBinaryOp(op, l, r) => self.translate_checked_binary(*op, l, r, span),
            SrcRvalue::UnaryOp(op, operand) => self.translate_unary(*op, operand, span),
            SrcRvalue::Ref(kind, place) => self.translate_ref(*kind, place, span),
            SrcRvalue::AddressOf(_, place) => match self.translate_place_smir(place, span) {
                Ok(p) => Ok(addr_of(p, PtrType::Raw)),
                Err(e) => Err(e),
            },
            SrcRvalue::Aggregate { kind, operands, ty } => self.translate_aggregate(
                *kind,
                operands,
                *ty,
                span,
            ),
            SrcRvalue::CopyForDeref(place) => match self.translate_place_smir(place, span) {
                Ok(p) => Ok(load(p)),
                Err(e) => Err(e),
            },
            SrcRvalue::Len(place) => self.translate_len(place, span),
            SrcRvalue::Discriminant(place) => match self.translate_place_smir(place, span) {
                Ok(p) => Ok(ValueExpr::GetDiscriminant { place: Box::new(p) }),
                Err(e) => Err(e),
            },
            SrcRvalue::Repeat(op, count) => self.translate_repeat(op, *count, span),
            SrcRvalue::Cast(kind, operand, ty) => self.translate_cast(*kind, operand, *ty, span),
            // Undefined behaviour is detected when the program is run, so
            // the program itself need not check for it.
            SrcRvalue::NullaryOp(NullOp::UbChecks, _) => Ok(const_bool(false)),
            _ => Err(LowerError::new(span, ErrorKind::UnsupportedRvalue)),
        }
    }

    /// Lowers a value-producing expression.
    pub fn translate_rvalue(&mut self, rv: &SrcRvalue, span: Span) -> (r: Result<
        ValueExpr,
        LowerError,
    >)
        requires
            old(self).wf(),
        ensures
            final(self).wf(),
            final(self).same_blocks(old(self)),
            final(self).lowered_rvalue(old(self), *rv, span, r),
    {
        self.translate_rvalue_smir(rv, span)
    }
}

} // verus!
