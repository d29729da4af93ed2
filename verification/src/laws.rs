//! What holds of the lowering as a whole, proved from the models of its parts.
use crate::bb::{
    bb_name, insert_block, lower_bb, lower_bb_from, lower_cases_from, lower_finish, lower_step,
    lower_stmt, lower_stmt_kind, lower_switch, lower_terminator, panic_block,
    StatementResultView, TerminatorResultView,
};
use crate::ctxt::Ctxt;
use crate::error::{refines, ErrorKind, LowerError, Span};
use crate::fn_ctxt::{blocks_kept, Env, State};
use crate::ir::{
    Align, BbName, FnName, Int, IntType, PtrType, Signedness, Size, Type, TypeView,
};
use crate::make::{bool_to_int_view, not_view, transmute_view, u8_type};
use crate::rvalue::{
    lower_aggregate, lower_operand, lower_operands_from, lower_projection, lower_projections,
    operand_ty, place_ty,
};
use crate::source::{
    AggregateKind, Projection, ProjectionElem, SrcBasicBlock, SrcField, SrcOperand, SrcPlace,
    SrcStatement, SrcStatementKind, SrcTerminator, SrcTerminatorKind, SrcTy, SrcVariant,
    SwitchTargets, TyId, TyKind, VariantsLayout,
};
use crate::syntax::{
    BasicBlockView, IntrinsicOp, PlaceExprView, StatementView, TerminatorView, ValueExprView,
};
use crate::ty::{
    discriminant_for_variant, int_type, is_pow2, lower_align, lower_enum, lower_fields_from,
    lower_int_bits, lower_non_enum_adt, lower_ty, lower_variant, lower_variants_from,
};
use vstd::prelude::*;

verus! {

/// Lowering a type is a function of the program. Two lowerings of one type
/// end alike, whatever was lowered in between; where they succeed they
/// give the same target type, and the second finds it in the cache.
pub proof fn lemma_same_type_twice(
    before: Ctxt,
    after_first: Ctxt,
    before_second: Ctxt,
    ty: TyId,
    first_span: Span,
    second_span: Span,
    first: Result<Type, LowerError>,
    second: Result<Type, LowerError>,
)
    requires
        after_first.wf(),
        after_first.follows(&before),
        refines(first, lower_ty(before.types@, ty), first_span),
        first is Ok ==> after_first.ty_cache@.contains_key(ty),
        before_second.wf(),
        before_second.follows(&after_first),
        refines(second, lower_ty(before_second.types@, ty), second_span),
    ensures
        first is Ok <==> second is Ok,
        first is Ok ==> first->Ok_0@ == second->Ok_0@,
        first is Ok ==> before_second.ty_cache@.contains_key(ty) && before_second.ty_cache@[ty]@
            == first->Ok_0@,
        first is Err ==> first->Err_0.kind == second->Err_0.kind,
{
}

/// A terminator changes no block that was built before it.
pub proof fn lemma_terminator_keeps_blocks(env: Env, st: State, term: SrcTerminator)
    ensures
        lower_terminator(env, st, term) matches Ok((_, after)) ==> blocks_kept(
            st.blocks,
            after.blocks,
        ) && st.next_bb <= after.next_bb,
{
    reveal(lower_terminator);
}

/// No block is ever replaced. Where the lowering of a block succeeds, the
/// name of the block was unused and is used afterwards, every block that
/// was built before is still there, and no name that was handed out is
/// handed out again.
pub proof fn lemma_block_names_unique(env: Env, st: State, name: BbName, bb: SrcBasicBlock)
    ensures
        lower_bb(env, st, name, bb) matches Ok(after) ==> {
            &&& !st.blocks.contains_key(name.0)
            &&& after.blocks.contains_key(name.0)
            &&& blocks_kept(st.blocks, after.blocks)
            &&& st.next_bb <= after.next_bb
        },
{
    lemma_blocks_from(env, st, name, Seq::empty(), bb.statements@, 0, bb.terminator);
}

/// `lemma_block_names_unique`, from any statement of the block on.
pub proof fn lemma_blocks_from(
    env: Env,
    st: State,
    cur: BbName,
    acc: Seq<StatementView>,
    stmts: Seq<SrcStatement>,
    i: int,
    term: SrcTerminator,
)
    ensures
        lower_bb_from(env, st, cur, acc, stmts, i, term) matches Ok(after) ==> {
            &&& !st.blocks.contains_key(cur.0)
            &&& after.blocks.contains_key(cur.0)
            &&& blocks_kept(st.blocks, after.blocks)
            &&& st.next_bb <= after.next_bb
        },
    decreases stmts.len() - i,
{
    if i < 0 || i >= stmts.len() {
        lemma_finish_keeps_blocks(env, st, cur, acc, term);
    } else {
        lemma_step_keeps_blocks(env, st, cur, acc, stmts[i]);
        match lower_step(env, st, cur, acc, stmts[i]) {
            Ok((next, name, statements)) => {
                lemma_blocks_from(env, next, name, statements, stmts, i + 1, term);
            },
            Err(_) => {},
        }
    }
}

/// A statement changes no block that was built before it. It either goes
/// to the block that is being built, or completes that block under its
/// name, which was unused.
pub proof fn lemma_step_keeps_blocks(
    env: Env,
    st: State,
    cur: BbName,
    acc: Seq<StatementView>,
    stmt: SrcStatement,
)
    ensures
        lower_step(env, st, cur, acc, stmt) matches Ok((next, name, _)) ==> {
            &&& blocks_kept(st.blocks, next.blocks)
            &&& st.next_bb <= next.next_bb
            &&& (name == cur && next.blocks == st.blocks) || (!st.blocks.contains_key(cur.0)
                && next.blocks.contains_key(cur.0))
        },
{
}

/// The terminator completes the block that is being built under its name,
/// which was unused, and changes no block that was built before it.
pub proof fn lemma_finish_keeps_blocks(
    env: Env,
    st: State,
    cur: BbName,
    acc: Seq<StatementView>,
    term: SrcTerminator,
)
    ensures
        lower_finish(env, st, cur, acc, term) matches Ok(after) ==> {
            &&& !st.blocks.contains_key(cur.0)
            &&& after.blocks.contains_key(cur.0)
            &&& blocks_kept(st.blocks, after.blocks)
            &&& st.next_bb <= after.next_bb
        },
{
    lemma_terminator_keeps_blocks(env, st, term);
}

/// A block is only put under a name that is unused.
pub proof fn lemma_insert_refuses_taken_name(
    blocks: Map<u64, BasicBlockView>,
    name: BbName,
    block: BasicBlockView,
)
    ensures
        blocks.contains_key(name.0) <==> insert_block(blocks, name, block) == Err::<
            Map<u64, BasicBlockView>,
            _,
        >(ErrorKind::DuplicateBlock),
        insert_block(blocks, name, block) matches Ok(after) ==> blocks_kept(blocks, after)
            && after[name.0] == block,
{
}

/// A statement that becomes an intrinsic splits the block, and the order
/// of the source is kept.
///
/// For a block of three statements of which the second becomes an
/// intrinsic: the block named `name` holds the first statement and ends in
/// the intrinsic, which goes on to a new block; the new block holds the
/// third statement and what the terminator became.
pub proof fn lemma_split_preserves_order(
    env: Env,
    st: State,
    name: BbName,
    bb: SrcBasicBlock,
    first: StatementView,
    intrinsic: IntrinsicOp,
    destination: PlaceExprView,
    arguments: Seq<ValueExprView>,
    third: StatementView,
    names: (Map<u64, FnName>, Map<u64, FnName>, Map<u64, FnName>),
    end: TerminatorResultView,
    after: State,
)
    requires
        bb.statements@.len() == 3,
        lower_stmt(env, st.names, bb.statements@[0]) == Ok::<_, LowerError>(
            (StatementResultView::Statement(first), names.0),
        ),
        lower_stmt(env, names.0, bb.statements@[1]) == Ok::<_, LowerError>(
            (StatementResultView::Intrinsic { intrinsic, destination, arguments }, names.1),
        ),
        lower_stmt(env, names.1, bb.statements@[2]) == Ok::<_, LowerError>(
            (StatementResultView::Statement(third), names.2),
        ),
        st.next_bb < u64::MAX,
        !st.blocks.contains_key(name.0),
        lower_terminator(
            env,
            State {
                names: names.2,
                blocks: st.blocks.insert(
                    name.0,
                    split_block(seq![first], intrinsic, destination, arguments, BbName(st.next_bb)),
                ),
                next_bb: (st.next_bb + 1) as u64,
            },
            bb.terminator,
        ) == Ok::<_, LowerError>((end, after)),
        !after.blocks.contains_key(st.next_bb),
    ensures
        lower_bb(env, st, name, bb) == Ok::<_, LowerError>(
            State {
                names: after.names,
                blocks: after.blocks.insert(
                    st.next_bb,
                    BasicBlockView {
                        statements: seq![third] + end.stmts,
                        terminator: end.terminator,
                    },
                ),
                next_bb: after.next_bb,
            },
        ),
        after.blocks[name.0] == split_block(
            seq![first],
            intrinsic,
            destination,
            arguments,
            BbName(st.next_bb),
        ),
{
    let stmts = bb.statements@;
    let term = bb.terminator;
    let block_a = split_block(seq![first], intrinsic, destination, arguments, BbName(st.next_bb));
    let st1 = State { names: names.0, blocks: st.blocks, next_bb: st.next_bb };
    let st2 = State {
        names: names.1,
        blocks: st.blocks.insert(name.0, block_a),
        next_bb: (st.next_bb + 1) as u64,
    };
    let st3 = State { names: names.2, blocks: st2.blocks, next_bb: st2.next_bb };
    let fresh = BbName(st.next_bb);
    lemma_step_statement(env, st, name, Seq::empty(), stmts[0], first, names.0);
    lemma_step_intrinsic(
        env,
        st1,
        name,
        seq![first],
        stmts[1],
        intrinsic,
        destination,
        arguments,
        names.1,
    );
    lemma_step_statement(env, st2, fresh, Seq::empty(), stmts[2], third, names.2);
    assert(Seq::<StatementView>::empty() + seq![first] =~= seq![first]);
    assert(Seq::<StatementView>::empty() + seq![third] =~= seq![third]);
    lemma_from_step(env, st, name, Seq::empty(), stmts, 0, term, st1, name, seq![first]);
    lemma_from_step(env, st1, name, seq![first], stmts, 1, term, st2, fresh, Seq::empty());
    lemma_from_step(env, st2, fresh, Seq::empty(), stmts, 2, term, st3, fresh, seq![third]);
    lemma_from_end(env, st3, fresh, seq![third], stmts, 3, term, end, after);
    lemma_terminator_keeps_blocks(env, st3, term);
    assert(st3.blocks.contains_key(name.0) && st3.blocks[name.0] == block_a);
}

/// The lowering of a block goes on after a statement from what the
/// statement left.
pub proof fn lemma_from_step(
    env: Env,
    st: State,
    cur: BbName,
    acc: Seq<StatementView>,
    stmts: Seq<SrcStatement>,
    i: int,
    term: SrcTerminator,
    next: State,
    name: BbName,
    statements: Seq<StatementView>,
)
    requires
        0 <= i < stmts.len(),
        lower_step(env, st, cur, acc, stmts[i]) == Ok::<_, LowerError>((next, name, statements)),
    ensures
        lower_bb_from(env, st, cur, acc, stmts, i, term) == lower_bb_from(
            env,
            next,
            name,
            statements,
            stmts,
            i + 1,
            term,
        ),
{
}

/// After the last statement, the terminator completes the block that is
/// being built: with the statements so far and those of the terminator.
pub proof fn lemma_from_end(
    env: Env,
    st: State,
    cur: BbName,
    acc: Seq<StatementView>,
    stmts: Seq<SrcStatement>,
    i: int,
    term: SrcTerminator,
    end: TerminatorResultView,
    after: State,
)
    requires
        i >= stmts.len(),
        lower_terminator(env, st, term) == Ok::<_, LowerError>((end, after)),
        !after.blocks.contains_key(cur.0),
    ensures
        lower_bb_from(env, st, cur, acc, stmts, i, term) == Ok::<_, LowerError>(
            State {
                names: after.names,
                blocks: after.blocks.insert(
                    cur.0,
                    BasicBlockView { statements: acc + end.stmts, terminator: end.terminator },
                ),
                next_bb: after.next_bb,
            },
        ),
{
}

/// A statement that becomes a statement goes to the end of the block
/// that is being built.
pub proof fn lemma_step_statement(
    env: Env,
    st: State,
    cur: BbName,
    acc: Seq<StatementView>,
    stmt: SrcStatement,
    lowered: StatementView,
    names: Map<u64, FnName>,
)
    requires
        lower_stmt(env, st.names, stmt) == Ok::<_, LowerError>(
            (StatementResultView::Statement(lowered), names),
        ),
    ensures
        lower_step(env, st, cur, acc, stmt) == Ok::<_, LowerError>(
            (State { names, blocks: st.blocks, next_bb: st.next_bb }, cur, acc + seq![lowered]),
        ),
{
    assert(acc.push(lowered) =~= acc + seq![lowered]);
}

/// A statement that becomes an intrinsic completes the block that is being
/// built: with the statements so far, and the intrinsic, which goes on to
/// a new block without statements.
pub proof fn lemma_step_intrinsic(
    env: Env,
    st: State,
    cur: BbName,
    acc: Seq<StatementView>,
    stmt: SrcStatement,
    intrinsic: IntrinsicOp,
    destination: PlaceExprView,
    arguments: Seq<ValueExprView>,
    names: Map<u64, FnName>,
)
    requires
        lower_stmt(env, st.names, stmt) == Ok::<_, LowerError>(
            (StatementResultView::Intrinsic { intrinsic, destination, arguments }, names),
        ),
        st.next_bb < u64::MAX,
        !st.blocks.contains_key(cur.0),
    ensures
        lower_step(env, st, cur, acc, stmt) == Ok::<_, LowerError>(
            (
                State {
                    names,
                    blocks: st.blocks.insert(
                        cur.0,
                        split_block(acc, intrinsic, destination, arguments, BbName(st.next_bb)),
                    ),
                    next_bb: (st.next_bb + 1) as u64,
                },
                BbName(st.next_bb),
                Seq::<StatementView>::empty(),
            ),
        ),
{
}

/// The block that a split ends: the statements so far, and the intrinsic
/// that goes on to `next`.
pub open spec fn split_block(
    statements: Seq<StatementView>,
    intrinsic: IntrinsicOp,
    destination: PlaceExprView,
    arguments: Seq<ValueExprView>,
    next: BbName,
) -> BasicBlockView {
    BasicBlockView {
        statements,
        terminator: TerminatorView::Intrinsic {
            intrinsic,
            arguments,
            ret: destination,
            next_block: Some(next),
        },
    }
}

/// An assertion becomes a switch on the condition as an unsigned byte,
/// negated first where the expected value is false: 1 goes on to the next
/// block, and anything else to a new block that holds no statement and panics.
pub proof fn lemma_assert_lowering(
    env: Env,
    st: State,
    term: SrcTerminator,
    cond: SrcOperand,
    expected: bool,
    target: usize,
)
    requires
        term.kind == (SrcTerminatorKind::Assert { cond, expected, target }),
    ensures
        lower_terminator(env, st, term) matches Ok((end, after)) ==> {
            &&& lower_operand(env, cond) matches Ok(v)
            &&& bb_name(env, target) matches Ok(next)
            &&& end.stmts == Seq::<StatementView>::empty()
            &&& end.terminator == (TerminatorView::Switch {
                value: bool_to_int_view(
                    if expected {
                        v
                    } else {
                        not_view(v)
                    },
                ),
                cases: seq![(Int::NonNeg(1), next)],
                fallback: BbName(st.next_bb),
            })
            &&& !st.blocks.contains_key(st.next_bb)
            &&& after.blocks == st.blocks.insert(st.next_bb, panic_block())
            &&& after.next_bb == st.next_bb + 1
            &&& after.names == st.names
        },
{
    reveal(lower_terminator);
}

/// A switch on a boolean switches on the boolean reinterpreted as an
/// unsigned byte, never on the boolean itself.
pub proof fn lemma_switch_on_bool(env: Env, discr: SrcOperand, targets: SwitchTargets)
    requires
        operand_ty(env, discr) matches Ok(ty) && lower_ty(env.tys, ty) == Ok::<_, ErrorKind>(
            TypeView::Bool,
        ),
    ensures
        lower_switch(env, discr, targets) matches Ok(t) ==> {
            &&& lower_operand(env, discr) matches Ok(v)
            &&& t matches TerminatorView::Switch { value, .. }
            &&& value == transmute_view(v, TypeView::Int(u8_type()))
            &&& value != v
        },
{
}

/// Constructors and queries agree on the discriminant of a variant: the
/// statement that sets the discriminant, the value that builds the
/// variant and the place that is cast down to the variant all carry the
/// discriminant that `discriminant_for_variant` gives for the variant.
pub proof fn lemma_discriminants_agree(
    env: Env,
    names: Map<u64, FnName>,
    place: SrcPlace,
    ty: TyId,
    variant: usize,
    active_field: Option<usize>,
    operands: Seq<SrcOperand>,
    root: PlaceExprView,
)
    requires
        place_ty(env, place) == Ok::<_, ErrorKind>(ty),
    ensures
        lower_stmt_kind(
            env,
            names,
            SrcStatementKind::SetDiscriminant { place, variant_index: variant },
        ) matches Ok((StatementResultView::Statement(s), _)) ==> s matches StatementView::SetDiscriminant {
            value,
            ..
        } && discriminant_for_variant(env.tys, ty, variant) == Ok::<_, ErrorKind>(value),
        lower_aggregate(env, AggregateKind::Adt { variant, active_field }, operands, ty) matches Ok(
            ValueExprView::Variant { discriminant, .. },
        ) ==> discriminant_for_variant(env.tys, ty, variant) == Ok::<_, ErrorKind>(discriminant),
        lower_projection(env, Projection { elem: ProjectionElem::Downcast(variant), ty }, root) matches Ok(
            PlaceExprView::Downcast { discriminant, .. },
        ) ==> discriminant_for_variant(env.tys, ty, variant) == Ok::<_, ErrorKind>(discriminant),
{
    reveal(lower_stmt_kind);
}

/// The variants of a lowered enum with a tag come in the order of the
/// source, and each carries the discriminant that
/// `discriminant_for_variant` gives for it.
pub proof fn lemma_enum_variants_carry_discriminants(tys: Seq<SrcTy>, ty: TyId, variant: usize)
    requires
        ty < tys.len(),
        tys[ty as int].kind matches TyKind::Enum { layout, variants, .. } && layout
            is Multiple && variant < variants@.len(),
    ensures
        lower_ty(tys, ty) matches Ok(TypeView::Enum { variants, .. }) ==> {
            &&& variant < variants.len()
            &&& discriminant_for_variant(tys, ty, variant) == Ok::<_, ErrorKind>(
                variants[variant as int].discriminant,
            )
        },
{
    match tys[ty as int].kind {
        TyKind::Enum { discr_ty, variants, layout } => {
            match lower_align(tys[ty as int].layout.align) {
                Some(align) => {
                    let size = Size { bytes: tys[ty as int].layout.size };
                    lemma_variants_from(
                        tys,
                        ty,
                        int_type(discr_ty),
                        variants@,
                        0,
                        layout,
                        size,
                        align,
                        variant as int,
                    );
                    assert(lower_ty(tys, ty) == lower_enum(
                        tys,
                        ty,
                        int_type(discr_ty),
                        variants@,
                        layout,
                        size,
                        align,
                    ));
                },
                None => {},
            }
        },
        _ => {},
    }
}

/// `lemma_enum_variants_carry_discriminants`, for the variants from index `i` on.
pub proof fn lemma_variants_from(
    tys: Seq<SrcTy>,
    owner: TyId,
    discr_ty: IntType,
    variants: Seq<SrcVariant>,
    i: int,
    layout: VariantsLayout,
    size: Size,
    align: Align,
    k: int,
)
    requires
        0 <= i <= k < variants.len(),
    ensures
        lower_variants_from(tys, owner, discr_ty, variants, i, layout, size, align) matches Ok(
            lowered,
        ) ==> {
            &&& lowered.len() == variants.len() - i
            &&& lower_int_bits(variants[k].discr, discr_ty) == Ok::<_, ErrorKind>(
                lowered[k - i].discriminant,
            )
        },
    decreases variants.len() - i,
{
    match lower_variants_from(tys, owner, discr_ty, variants, i, layout, size, align) {
        Ok(lowered) => {
            let rest = lower_variants_from(
                tys,
                owner,
                discr_ty,
                variants,
                i + 1,
                layout,
                size,
                align,
            )->Ok_0;
            let first = lower_variant(
                tys,
                owner,
                discr_ty,
                variants[i],
                i,
                layout,
                size,
                align,
            )->Ok_0;
            assert(lowered == seq![first] + rest);
            assert(lowered[0] == first);
            assert(lower_int_bits(variants[i].discr, discr_ty) == Ok::<_, ErrorKind>(
                first.discriminant,
            ));
            lemma_variants_len(tys, owner, discr_ty, variants, i + 1, layout, size, align);
            if k > i {
                lemma_variants_from(tys, owner, discr_ty, variants, i + 1, layout, size, align, k);
                assert(lowered[k - i] == rest[k - i - 1]);
            }
        },
        Err(_) => {},
    }
}

/// As many variants are lowered as the source has.
pub proof fn lemma_variants_len(
    tys: Seq<SrcTy>,
    owner: TyId,
    discr_ty: IntType,
    variants: Seq<SrcVariant>,
    i: int,
    layout: VariantsLayout,
    size: Size,
    align: Align,
)
    requires
        0 <= i <= variants.len(),
    ensures
        lower_variants_from(tys, owner, discr_ty, variants, i, layout, size, align) matches Ok(
            lowered,
        ) ==> lowered.len() == variants.len() - i,
    decreases variants.len() - i,
{
    if i < variants.len() {
        lemma_variants_len(tys, owner, discr_ty, variants, i + 1, layout, size, align);
    }
}

/// The fields of a type are lowered one by one, in order: where all can
/// be lowered, the field with index `k` keeps its offset and has the
/// target type of its source type, which comes before the owner in the
/// table.
pub proof fn lemma_fields_in_order(
    tys: Seq<SrcTy>,
    owner: TyId,
    fields: Seq<SrcField>,
    i: int,
    k: int,
)
    requires
        0 <= i <= k < fields.len(),
    ensures
        lower_fields_from(tys, owner, fields, i) matches Ok(lowered) ==> {
            &&& lowered.len() == fields.len() - i
            &&& fields[k].ty < owner
            &&& lowered[k - i].0 == (Size { bytes: fields[k].offset })
            &&& lower_ty(tys, fields[k].ty) == Ok::<_, ErrorKind>(lowered[k - i].1)
        },
    decreases fields.len() - i,
{
    match lower_fields_from(tys, owner, fields, i) {
        Ok(lowered) => {
            let first = (Size { bytes: fields[i].offset }, lower_ty(tys, fields[i].ty)->Ok_0);
            let rest = lower_fields_from(tys, owner, fields, i + 1)->Ok_0;
            assert(lowered == seq![first] + rest);
            assert(lowered[0] == first);
            lemma_fields_len(tys, owner, fields, i + 1);
            if k > i {
                lemma_fields_in_order(tys, owner, fields, i + 1, k);
                assert(lowered[k - i] == rest[k - i - 1]);
            }
        },
        Err(_) => {},
    }
}

/// As many fields are lowered as the source has.
pub proof fn lemma_fields_len(tys: Seq<SrcTy>, owner: TyId, fields: Seq<SrcField>, i: int)
    requires
        0 <= i <= fields.len(),
    ensures
        lower_fields_from(tys, owner, fields, i) matches Ok(lowered) ==> lowered.len()
            == fields.len() - i,
    decreases fields.len() - i,
{
    if i < fields.len() {
        lemma_fields_len(tys, owner, fields, i + 1);
    }
}

/// Where the fields of a type cannot be lowered, the error is that of the
/// first field that cannot: one that does not come before the owner in
/// the table, or one whose type cannot be lowered.
pub proof fn lemma_fields_first_error(
    tys: Seq<SrcTy>,
    owner: TyId,
    fields: Seq<SrcField>,
    i: int,
) -> (k: int)
    requires
        0 <= i <= fields.len(),
        lower_fields_from(tys, owner, fields, i) is Err,
    ensures
        i <= k < fields.len(),
        forall|j: int|
            i <= j < k ==> (#[trigger] fields[j]).ty < owner && lower_ty(tys, fields[j].ty) is Ok,
        lower_fields_from(tys, owner, fields, i)->Err_0 == if fields[k].ty >= owner {
            ErrorKind::UnknownType
        } else {
            lower_ty(tys, fields[k].ty)->Err_0
        },
        fields[k].ty >= owner || lower_ty(tys, fields[k].ty) is Err,
    decreases fields.len() - i,
{
    if fields[i].ty >= owner || lower_ty(tys, fields[i].ty) is Err {
        i
    } else {
        lemma_fields_first_error(tys, owner, fields, i + 1)
    }
}

/// Operands are lowered one by one, in order.
pub proof fn lemma_operands_in_order(env: Env, ops: Seq<SrcOperand>, i: int, k: int)
    requires
        0 <= i <= k < ops.len(),
    ensures
        lower_operands_from(env, ops, i) matches Ok(lowered) ==> {
            &&& lowered.len() == ops.len() - i
            &&& lower_operand(env, ops[k]) == Ok::<_, ErrorKind>(lowered[k - i])
        },
    decreases ops.len() - i,
{
    match lower_operands_from(env, ops, i) {
        Ok(lowered) => {
            let first = lower_operand(env, ops[i])->Ok_0;
            let rest = lower_operands_from(env, ops, i + 1)->Ok_0;
            assert(lowered == seq![first] + rest);
            assert(lowered[0] == first);
            lemma_operands_len(env, ops, i + 1);
            if k > i {
                lemma_operands_in_order(env, ops, i + 1, k);
                assert(lowered[k - i] == rest[k - i - 1]);
            }
        },
        Err(_) => {},
    }
}

/// As many operands are lowered as the source has.
pub proof fn lemma_operands_len(env: Env, ops: Seq<SrcOperand>, i: int)
    requires
        0 <= i <= ops.len(),
    ensures
        lower_operands_from(env, ops, i) matches Ok(lowered) ==> lowered.len() == ops.len() - i,
    decreases ops.len() - i,
{
    if i < ops.len() {
        lemma_operands_len(env, ops, i + 1);
    }
}

/// Where operands cannot be lowered, the error is that of the first
/// operand that cannot.
pub proof fn lemma_operands_first_error(env: Env, ops: Seq<SrcOperand>, i: int) -> (k: int)
    requires
        0 <= i <= ops.len(),
        lower_operands_from(env, ops, i) is Err,
    ensures
        i <= k < ops.len(),
        forall|j: int| i <= j < k ==> lower_operand(env, #[trigger] ops[j]) is Ok,
        lower_operand(env, ops[k]) is Err,
        lower_operands_from(env, ops, i)->Err_0 == lower_operand(env, ops[k])->Err_0,
    decreases ops.len() - i,
{
    if lower_operand(env, ops[i]) is Err {
        i
    } else {
        lemma_operands_first_error(env, ops, i + 1)
    }
}

/// The cases of a switch come in the order of the source: each value is
/// read in the type of the discriminant and goes to the block of its branch.
pub proof fn lemma_cases_in_order(
    env: Env,
    branches: Seq<(u128, usize)>,
    ty: IntType,
    i: int,
    k: int,
)
    requires
        0 <= i <= k < branches.len(),
    ensures
        lower_cases_from(env, branches, ty, i) matches Ok(cases) ==> {
            &&& cases.len() == branches.len() - i
            &&& lower_int_bits(branches[k].0, ty) == Ok::<_, ErrorKind>(cases[k - i].0)
            &&& bb_name(env, branches[k].1) == Ok::<_, ErrorKind>(cases[k - i].1)
        },
    decreases branches.len() - i,
{
    match lower_cases_from(env, branches, ty, i) {
        Ok(cases) => {
            let first = (lower_int_bits(branches[i].0, ty)->Ok_0, bb_name(env, branches[i].1)->Ok_0);
            let rest = lower_cases_from(env, branches, ty, i + 1)->Ok_0;
            assert(cases == seq![first] + rest);
            assert(cases[0] == first);
            lemma_cases_len(env, branches, ty, i + 1);
            if k > i {
                lemma_cases_in_order(env, branches, ty, i + 1, k);
                assert(cases[k - i] == rest[k - i - 1]);
            }
        },
        Err(_) => {},
    }
}

/// A switch has as many cases as the source has branches.
pub proof fn lemma_cases_len(env: Env, branches: Seq<(u128, usize)>, ty: IntType, i: int)
    requires
        0 <= i <= branches.len(),
    ensures
        lower_cases_from(env, branches, ty, i) matches Ok(cases) ==> cases.len() == branches.len()
            - i,
    decreases branches.len() - i,
{
    if i < branches.len() {
        lemma_cases_len(env, branches, ty, i + 1);
    }
}

/// A place is its local with its steps applied from left to right: with
/// one step more, it is the place without that step, and that step applied to it.
pub proof fn lemma_place_folds_left(env: Env, projs: Seq<Projection>, i: int, root: PlaceExprView)
    requires
        0 <= i <= projs.len(),
        projs.len() > 0,
    ensures
        lower_projections(env, projs, i, root) == match lower_projections(
            env,
            projs.drop_last(),
            i,
            root,
        ) {
            Err(e) => Err(e),
            Ok(p) => if i < projs.len() {
                lower_projection(env, projs.last(), p)
            } else {
                Ok(p)
            },
        },
    decreases projs.len() - i,
{
    let shorter = projs.drop_last();
    if i < shorter.len() {
        assert(shorter[i] == projs[i]);
        match lower_projection(env, projs[i], root) {
            Ok(next) => {
                lemma_place_folds_left(env, projs, i + 1, next);
            },
            Err(_) => {},
        }
    } else if i < projs.len() {
        assert(projs[i] == projs.last());
        match lower_projection(env, projs[i], root) {
            Ok(next) => {
                assert(lower_projections(env, projs, i + 1, next) == Ok::<_, ErrorKind>(next));
            },
            Err(_) => {},
        }
    }
}

/// A copy and a move lower alike: the difference matters to the analysis
/// of ownership, not to the value.
pub proof fn lemma_copy_and_move_alike(env: Env, place: SrcPlace)
    ensures
        lower_operand(env, SrcOperand::Copy(place)) == lower_operand(env, SrcOperand::Move(place)),
{
}

/// Lowering keeps the kind of a type: booleans stay booleans, integers
/// keep their size and their sign, tuples and structs become tuples,
/// unions stay unions, enums and the type without values become enums,
/// arrays keep their length, and every pointer becomes a pointer of its kind.
pub proof fn lemma_type_kind_is_kept(tys: Seq<SrcTy>, ty: TyId)
    ensures
        lower_ty(tys, ty) matches Ok(t) ==> ty < tys.len() && match tys[ty as int].kind {
            TyKind::Bool => t == TypeView::Bool,
            TyKind::Int { size } => t == TypeView::Int(
                IntType { signed: Signedness::Signed, size: Size { bytes: size } },
            ),
            TyKind::Uint { size } => t == TypeView::Int(
                IntType { signed: Signedness::Unsigned, size: Size { bytes: size } },
            ),
            TyKind::Tuple { .. } | TyKind::Struct { .. } => t is Tuple,
            TyKind::Union { .. } => t is Union,
            TyKind::Enum { .. } | TyKind::Never => t is Enum,
            TyKind::Array { count, .. } => t matches TypeView::Array { count: n, .. } && n@
                == count,
            TyKind::Ref { .. } => t matches TypeView::Ptr(PtrType::Ref { .. }),
            TyKind::Boxed { .. } => t matches TypeView::Ptr(PtrType::Box { .. }),
            TyKind::RawPtr { .. } => t == TypeView::Ptr(PtrType::Raw),
            TyKind::FnPtr => t == TypeView::Ptr(PtrType::FnPtr),
            _ => false,
        },
{
    reveal_with_fuel(lower_ty, 2);
    reveal_with_fuel(lower_non_enum_adt, 2);
    reveal_with_fuel(lower_enum, 2);
}

/// Size and alignment come from the layout: a lowered tuple, struct,
/// union or enum has the size and the alignment that the layout of its
/// source type gives, and the alignment is a power of two.
pub proof fn lemma_layout_is_kept(tys: Seq<SrcTy>, ty: TyId)
    requires
        ty < tys.len(),
    ensures
        lower_ty(tys, ty) matches Ok(TypeView::Tuple { size, align, .. }) ==> size.bytes
            == tys[ty as int].layout.size && align.bytes == tys[ty as int].layout.align
            && is_pow2(align.bytes as int),
        lower_ty(tys, ty) matches Ok(TypeView::Union { size, align, .. }) ==> size.bytes
            == tys[ty as int].layout.size && align.bytes == tys[ty as int].layout.align
            && is_pow2(align.bytes as int),
        lower_ty(tys, ty) matches Ok(TypeView::Enum { size, align, .. }) ==> (tys[ty as int].kind
            is Never && size.bytes == 0 && align.bytes == 1) || (size.bytes
            == tys[ty as int].layout.size && align.bytes == tys[ty as int].layout.align
            && is_pow2(align.bytes as int)),
{
    reveal_with_fuel(lower_ty, 2);
    reveal_with_fuel(lower_non_enum_adt, 2);
    reveal_with_fuel(lower_enum, 2);
}

} // verus!
