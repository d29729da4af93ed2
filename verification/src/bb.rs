//! Lowering of statements, terminators and whole basic blocks.
//!
//! A source statement becomes a target statement, or, where it stands for
//! an effect that the target can only express as the end of a block, an
//! intrinsic that ends the block being built and starts a new one.
use crate::ctxt::intern;
use crate::error::{located, ErrorKind, LowerError, Span};
use crate::fn_ctxt::{blocks_kept, Env, FnCtxt, State};
use crate::ir::{BbName, CallingConvention, FnName, Int, IntType, PtrType, Type, TypeView};
use crate::make::{
    addr_of, addr_of_view, binop, binop_view, bool_not, bool_to_int, bool_to_int_view,
    const_usize, const_usize_view, fn_ptr, fn_ptr_view, not_view, panic_terminator, panic_view,
    u8_type, zst_place, zst_place_view,
};
use crate::rvalue::{
    local_name, lower_operand, lower_place, lower_rvalue, operand_ty, place_ty,
};
use crate::source::{
    CastKind, Instance, Layout, RetagKind, SrcArg, SrcBasicBlock, SrcCallee, SrcOperand,
    SrcPlace, SrcRvalue, SrcStatement, SrcStatementKind, SrcTerminator, SrcTerminatorKind,
    SwitchTargets,
};
use crate::syntax::{
    arguments_view, statements_view, values_view, ArgumentExpr, ArgumentExprView, BasicBlock,
    BasicBlockView, BinOp, IntBinOp, IntrinsicLockOp, IntrinsicOp, PlaceExpr, PlaceExprView,
    Statement, StatementView, Terminator, TerminatorView, ValueExpr, ValueExprView,
};
use crate::ty::{
    discriminant_for_variant, int_from_bits, lemma_prepend_push, lower_calling_convention,
    lower_int_bits, lower_ty, prepend, translate_calling_convention,
};
use vstd::prelude::*;

verus! {

/// What a source statement becomes.
#[derive(Clone, Debug, PartialEq, Eq)]
pub enum StatementResult {
    Statement(Statement),
    /// An intrinsic that puts its result in `destination`. It ends the block
    /// being built; what follows the statement goes to a new block.
    Intrinsic { intrinsic: IntrinsicOp, destination: PlaceExpr, arguments: Vec<ValueExpr> },
}

pub enum StatementResultView {
    Statement(StatementView),
    Intrinsic { intrinsic: IntrinsicOp, destination: PlaceExprView, arguments: Seq<ValueExprView> },
}

impl View for StatementResult {
    type V = StatementResultView;

    open spec fn view(&self) -> StatementResultView {
        match *self {
            StatementResult::Statement(s) => StatementResultView::Statement(s@),
            StatementResult::Intrinsic { intrinsic, destination, arguments } =>
                StatementResultView::Intrinsic {
                    intrinsic,
                    destination: destination@,
                    arguments: values_view(arguments@),
                },
        }
    }
}

/// What a source terminator becomes: a terminator, and statements to run
/// at the end of the block before it.
#[derive(Clone, Debug, PartialEq, Eq)]
pub struct TerminatorResult {
    pub stmts: Vec<Statement>,
    pub terminator: Terminator,
}

pub struct TerminatorResultView {
    pub stmts: Seq<StatementView>,
    pub terminator: TerminatorView,
}

impl View for TerminatorResult {
    type V = TerminatorResultView;

    open spec fn view(&self) -> TerminatorResultView {
        TerminatorResultView { stmts: statements_view(self.stmts@), terminator: self.terminator@ }
    }
}

/// A terminator with no statement before it.
pub open spec fn only(terminator: TerminatorView) -> TerminatorResultView {
    TerminatorResultView { stmts: Seq::empty(), terminator }
}

/// The target name of the source block `block`.
pub open spec fn bb_name(env: Env, block: usize) -> Result<BbName, ErrorKind> {
    if block < env.bb_names.len() {
        Ok(env.bb_names[block as int])
    } else {
        Err(ErrorKind::UnknownBlock)
    }
}

/// The target name of the block that a call returns to, where it returns.
pub open spec fn lower_next_block(env: Env, target: Option<usize>) -> Result<
    Option<BbName>,
    ErrorKind,
> {
    match target {
        None => Ok(None),
        Some(t) => match bb_name(env, t) {
            Err(e) => Err(e),
            Ok(name) => Ok(Some(name)),
        },
    }
}

/// A jump to the block that a call returns to, which it must have.
pub open spec fn goto_target(env: Env, target: Option<usize>) -> Result<TerminatorView, ErrorKind> {
    match target {
        None => Err(ErrorKind::MissingTarget),
        Some(t) => match bb_name(env, t) {
            Err(e) => Err(e),
            Ok(name) => Ok(TerminatorView::Goto(name)),
        },
    }
}

/// What a statement becomes, and the names of functions after it.
///
/// An assignment of a cast that exposes or reconstructs the provenance of a
/// pointer, and a hint that a condition holds, become intrinsics. Every
/// other supported statement becomes one statement.
#[verifier::opaque]
pub open spec fn lower_stmt_kind(env: Env, names: Map<u64, FnName>, kind: SrcStatementKind) -> Result<
    (StatementResultView, Map<u64, FnName>),
    ErrorKind,
> {
    match kind {
        SrcStatementKind::Assign(place, rval) => match lower_place(env, place) {
            Err(e) => Err(e),
            Ok(destination) => match rval {
                SrcRvalue::Cast(CastKind::PointerExposeProvenance, operand, _) => match lower_operand(
                    env,
                    operand,
                ) {
                    Err(e) => Err(e),
                    Ok(v) => Ok(
                        (
                            StatementResultView::Intrinsic {
                                intrinsic: IntrinsicOp::PointerExposeProvenance,
                                destination,
                                arguments: seq![v],
                            },
                            names,
                        ),
                    ),
                },
                SrcRvalue::Cast(
                    CastKind::PointerWithExposedProvenance,
                    operand,
                    _,
                ) => match lower_operand(env, operand) {
                    Err(e) => Err(e),
                    Ok(v) => Ok(
                        (
                            StatementResultView::Intrinsic {
                                intrinsic: IntrinsicOp::PointerWithExposedProvenance,
                                destination,
                                arguments: seq![v],
                            },
                            names,
                        ),
                    ),
                },
                _ => match lower_rvalue(env, names, rval) {
                    Err(e) => Err(e),
                    Ok((source, names)) => Ok(
                        (
                            StatementResultView::Statement(
                                StatementView::Assign { destination, source },
                            ),
                            names,
                        ),
                    ),
                },
            },
        },
        SrcStatementKind::StorageLive(local) => match local_name(env, local) {
            Err(e) => Err(e),
            Ok(name) => Ok(
                (StatementResultView::Statement(StatementView::StorageLive(name)), names),
            ),
        },
        SrcStatementKind::StorageDead(local) => match local_name(env, local) {
            Err(e) => Err(e),
            Ok(name) => Ok(
                (StatementResultView::Statement(StatementView::StorageDead(name)), names),
            ),
        },
        SrcStatementKind::Retag(kind, place) => match lower_place(env, place) {
            Err(e) => Err(e),
            Ok(place) => Ok(
                (
                    StatementResultView::Statement(
                        StatementView::Validate { place, fn_entry: kind == RetagKind::FnEntry },
                    ),
                    names,
                ),
            ),
        },
        SrcStatementKind::Deinit(place) => match lower_place(env, place) {
            Err(e) => Err(e),
            Ok(place) => Ok((StatementResultView::Statement(StatementView::Deinit { place }), names)),
        },
        SrcStatementKind::SetDiscriminant { place, variant_index } => match place_ty(env, place) {
            Err(e) => Err(e),
            Ok(ty) => match discriminant_for_variant(env.tys, ty, variant_index) {
                Err(e) => Err(e),
                Ok(value) => match lower_place(env, place) {
                    Err(e) => Err(e),
                    Ok(destination) => Ok(
                        (
                            StatementResultView::Statement(
                                StatementView::SetDiscriminant { destination, value },
                            ),
                            names,
                        ),
                    ),
                },
            },
        },
        SrcStatementKind::Assume(op) => match lower_operand(env, op) {
            Err(e) => Err(e),
            Ok(v) => Ok(
                (
                    StatementResultView::Intrinsic {
                        intrinsic: IntrinsicOp::Assume,
                        destination: zst_place_view(),
                        arguments: seq![v],
                    },
                    names,
                ),
            ),
        },
        SrcStatementKind::PlaceMention(place) => match lower_place(env, place) {
            Err(e) => Err(e),
            Ok(place) => Ok(
                (StatementResultView::Statement(StatementView::PlaceMention(place)), names),
            ),
        },
        _ => Err(ErrorKind::UnsupportedStatement),
    }
}

/// What a statement becomes; an error is located at the statement.
pub open spec fn lower_stmt(env: Env, names: Map<u64, FnName>, stmt: SrcStatement) -> Result<
    (StatementResultView, Map<u64, FnName>),
    LowerError,
> {
    located(lower_stmt_kind(env, names, stmt.kind), stmt.span)
}

/// The intrinsic that a function of the crate `intrinsics` stands for.
pub open spec fn named_intrinsic(name: Seq<char>) -> Option<IntrinsicOp> {
    if name == "print"@ {
        Some(IntrinsicOp::PrintStdout)
    } else if name == "eprint"@ {
        Some(IntrinsicOp::PrintStderr)
    } else if name == "exit"@ {
        Some(IntrinsicOp::Exit)
    } else if name == "panic"@ {
        Some(IntrinsicOp::Panic)
    } else if name == "allocate"@ {
        Some(IntrinsicOp::Allocate)
    } else if name == "deallocate"@ {
        Some(IntrinsicOp::Deallocate)
    } else if name == "spawn"@ {
        Some(IntrinsicOp::Spawn)
    } else if name == "join"@ {
        Some(IntrinsicOp::Join)
    } else if name == "create_lock"@ {
        Some(IntrinsicOp::Lock(IntrinsicLockOp::Create))
    } else if name == "acquire"@ {
        Some(IntrinsicOp::Lock(IntrinsicLockOp::Acquire))
    } else if name == "release"@ {
        Some(IntrinsicOp::Lock(IntrinsicLockOp::Release))
    } else if name == "atomic_store"@ {
        Some(IntrinsicOp::AtomicStore)
    } else if name == "atomic_load"@ {
        Some(IntrinsicOp::AtomicLoad)
    } else if name == "compare_exchange"@ {
        Some(IntrinsicOp::AtomicCompareExchange)
    } else if name == "atomic_fetch_add"@ {
        Some(IntrinsicOp::AtomicFetchAndOp(IntBinOp::Add))
    } else if name == "atomic_fetch_sub"@ {
        Some(IntrinsicOp::AtomicFetchAndOp(IntBinOp::Sub))
    } else {
        None
    }
}

/// Whether `path` names one of the two panic entry points that take a
/// message. A call of either becomes a panic without the message.
pub open spec fn is_panic_path(path: Seq<char>) -> bool {
    path == "core::panicking::panic"@ || path == "core::panicking::panic_nounwind"@
}

/// What a type must allow for a validity assertion to pass.
#[derive(Clone, Copy, Debug, PartialEq, Eq, Structural)]
pub enum ValidityRequirement {
    Inhabited,
    Zero,
    Uninit,
}

/// The requirement that the built-in assertion `name` checks.
pub open spec fn validity_requirement(name: Seq<char>) -> Option<ValidityRequirement> {
    if name == "assert_inhabited"@ {
        Some(ValidityRequirement::Inhabited)
    } else if name == "assert_zero_valid"@ {
        Some(ValidityRequirement::Zero)
    } else if name == "assert_mem_uninitialized_valid"@ {
        Some(ValidityRequirement::Uninit)
    } else {
        None
    }
}

pub open spec fn requirement_met(layout: Layout, req: ValidityRequirement) -> bool {
    match req {
        ValidityRequirement::Inhabited => !layout.uninhabited,
        ValidityRequirement::Zero => layout.zero_valid,
        ValidityRequirement::Uninit => layout.uninit_valid,
    }
}

/// The values of the arguments from index `i` on; an error is located at
/// the argument.
pub open spec fn lower_arg_values_from(env: Env, args: Seq<SrcArg>, i: int) -> Result<
    Seq<ValueExprView>,
    LowerError,
>
    decreases args.len() - i,
{
    if i < 0 || i >= args.len() {
        Ok(Seq::empty())
    } else {
        match located(lower_operand(env, args[i].node), args[i].span) {
            Err(e) => Err(e),
            Ok(v) => prepend(seq![v], lower_arg_values_from(env, args, i + 1)),
        }
    }
}

/// An argument of a call: a moved place is passed in place, anything else by value.
pub open spec fn lower_argument(env: Env, arg: SrcArg) -> Result<ArgumentExprView, LowerError> {
    located(
        match arg.node {
            SrcOperand::Move(place) => match lower_place(env, place) {
                Err(e) => Err(e),
                Ok(p) => Ok(ArgumentExprView::InPlace(p)),
            },
            _ => match lower_operand(env, arg.node) {
                Err(e) => Err(e),
                Ok(v) => Ok(ArgumentExprView::ByValue(v)),
            },
        },
        arg.span,
    )
}

pub open spec fn lower_arguments_from(env: Env, args: Seq<SrcArg>, i: int) -> Result<
    Seq<ArgumentExprView>,
    LowerError,
>
    decreases args.len() - i,
{
    if i < 0 || i >= args.len() {
        Ok(Seq::empty())
    } else {
        match lower_argument(env, args[i]) {
            Err(e) => Err(e),
            Ok(a) => prepend(seq![a], lower_arguments_from(env, args, i + 1)),
        }
    }
}

/// The value of the argument with index `i`, which must be there.
pub open spec fn lower_nth_arg(env: Env, args: Seq<SrcArg>, i: int) -> Result<
    ValueExprView,
    ErrorKind,
> {
    if 0 <= i < args.len() {
        lower_operand(env, args[i].node)
    } else {
        Err(ErrorKind::MissingArgument)
    }
}

/// An assignment of `source` to the destination of a call, and a jump to
/// the block that the call returns to.
pub open spec fn assign_then_goto(
    env: Env,
    destination: SrcPlace,
    source: Result<ValueExprView, ErrorKind>,
    target: Option<usize>,
) -> Result<TerminatorResultView, ErrorKind> {
    match lower_place(env, destination) {
        Err(e) => Err(e),
        Ok(destination) => match source {
            Err(e) => Err(e),
            Ok(source) => match goto_target(env, target) {
                Err(e) => Err(e),
                Ok(terminator) => Ok(
                    TerminatorResultView {
                        stmts: seq![StatementView::Assign { destination, source }],
                        terminator,
                    },
                ),
            },
        },
    }
}

/// The layout of the type argument of a built-in, which must be there.
pub open spec fn type_arg_layout(env: Env, inst: Instance) -> Result<Layout, ErrorKind> {
    match inst.type_arg {
        None => Err(ErrorKind::MissingArgument),
        Some(ty) => if ty < env.tys.len() {
            Ok(env.tys[ty as int].layout)
        } else {
            Err(ErrorKind::UnknownType)
        },
    }
}

/// The size of the type argument, as a constant.
pub open spec fn size_of_type_arg(env: Env, inst: Instance) -> Result<ValueExprView, ErrorKind> {
    match type_arg_layout(env, inst) {
        Err(e) => Err(e),
        Ok(layout) => if layout.sized {
            Ok(const_usize_view(Int::NonNeg(layout.size as u128)))
        } else {
            Err(ErrorKind::UnsizedPointee)
        },
    }
}

/// The alignment of the type argument, as a constant.
pub open spec fn align_of_type_arg(env: Env, inst: Instance) -> Result<ValueExprView, ErrorKind> {
    match type_arg_layout(env, inst) {
        Err(e) => Err(e),
        Ok(layout) => if layout.sized {
            Ok(const_usize_view(Int::NonNeg(layout.align as u128)))
        } else {
            Err(ErrorKind::UnsizedPointee)
        },
    }
}

/// A validity assertion, decided here: a panic where the type does not
/// meet the requirement, and a jump to the next block where it does.
pub open spec fn lower_validity_assertion(
    env: Env,
    inst: Instance,
    req: ValidityRequirement,
    target: Option<usize>,
) -> Result<TerminatorResultView, ErrorKind> {
    match type_arg_layout(env, inst) {
        Err(e) => Err(e),
        Ok(layout) => if !requirement_met(layout, req) {
            Ok(only(panic_view()))
        } else {
            match goto_target(env, target) {
                Err(e) => Err(e),
                Ok(t) => Ok(only(t)),
            }
        },
    }
}

/// A pointer moved by a number of bytes, with wrapping arithmetic.
pub open spec fn lower_arith_offset(env: Env, args: Seq<SrcArg>) -> Result<
    ValueExprView,
    ErrorKind,
> {
    match lower_nth_arg(env, args, 0) {
        Err(e) => Err(e),
        Ok(l) => match lower_nth_arg(env, args, 1) {
            Err(e) => Err(e),
            Ok(r) => Ok(binop_view(BinOp::PtrOffset { inbounds: false }, l, r)),
        },
    }
}

/// An intrinsic terminator with the given arguments, which returns to `target`.
pub open spec fn lower_intrinsic_call(
    env: Env,
    intrinsic: IntrinsicOp,
    args: Seq<SrcArg>,
    destination: SrcPlace,
    target: Option<usize>,
    span: Span,
) -> Result<TerminatorResultView, LowerError> {
    match lower_arg_values_from(env, args, 0) {
        Err(e) => Err(e),
        Ok(arguments) => located(
            match lower_place(env, destination) {
                Err(e) => Err(e),
                Ok(ret) => match lower_next_block(env, target) {
                    Err(e) => Err(e),
                    Ok(next_block) => Ok(
                        only(TerminatorView::Intrinsic { intrinsic, arguments, ret, next_block }),
                    ),
                },
            },
            span,
        ),
    }
}

/// A call of a built-in of the source language.
pub open spec fn lower_rs_intrinsic(
    env: Env,
    inst: Instance,
    args: Seq<SrcArg>,
    destination: SrcPlace,
    target: Option<usize>,
    span: Span,
) -> Result<TerminatorResultView, LowerError> {
    let name = inst.item_name@;
    if validity_requirement(name) is Some {
        located(lower_validity_assertion(env, inst, validity_requirement(name)->0, target), span)
    } else if name == "raw_eq"@ {
        lower_intrinsic_call(env, IntrinsicOp::RawEq, args, destination, target, span)
    } else if name == "arith_offset"@ {
        located(assign_then_goto(env, destination, lower_arith_offset(env, args), target), span)
    } else if name == "size_of_val"@ {
        located(assign_then_goto(env, destination, size_of_type_arg(env, inst), target), span)
    } else if name == "min_align_of_val"@ {
        located(assign_then_goto(env, destination, align_of_type_arg(env, inst), target), span)
    } else if name == "unlikely"@ || name == "likely"@ {
        located(assign_then_goto(env, destination, lower_nth_arg(env, args, 0), target), span)
    } else {
        Err(LowerError { span, kind: ErrorKind::UnsupportedIntrinsic })
    }
}

/// A call of an ordinary function, and the names of functions after it.
pub open spec fn lower_fn_call(
    env: Env,
    names: Map<u64, FnName>,
    inst: Instance,
    args: Seq<SrcArg>,
    destination: SrcPlace,
    target: Option<usize>,
    span: Span,
) -> Result<(TerminatorResultView, Map<u64, FnName>), LowerError> {
    match lower_calling_convention(inst.conv) {
        None => Err(LowerError { span, kind: ErrorKind::UnsupportedCallingConvention }),
        Some(calling_convention) => match lower_arguments_from(env, args, 0) {
            Err(e) => Err(e),
            Ok(arguments) => located(
                match lower_place(env, destination) {
                    Err(e) => Err(e),
                    Ok(ret) => match lower_next_block(env, target) {
                        Err(e) => Err(e),
                        Ok(next_block) => Ok(
                            (
                                only(
                                    TerminatorView::Call {
                                        callee: fn_ptr_view(intern(names, inst.id).0),
                                        calling_convention,
                                        arguments,
                                        ret,
                                        next_block,
                                    },
                                ),
                                intern(names, inst.id).1,
                            ),
                        ),
                    },
                },
                span,
            ),
        },
    }
}

/// A call, and the names of functions after it. The callee decides:
/// a built-in of the source language, a function of the crate `intrinsics`,
/// one of the panic entry points, or an ordinary function.
pub open spec fn lower_call(
    env: Env,
    names: Map<u64, FnName>,
    func: SrcCallee,
    args: Seq<SrcArg>,
    destination: SrcPlace,
    target: Option<usize>,
    span: Span,
) -> Result<(TerminatorResultView, Map<u64, FnName>), LowerError> {
    match func {
        SrcCallee::Pointer(_) => Err(LowerError { span, kind: ErrorKind::UnsupportedCallee }),
        SrcCallee::Item(inst) => if inst.intrinsic {
            match lower_rs_intrinsic(env, inst, args, destination, target, span) {
                Err(e) => Err(e),
                Ok(t) => Ok((t, names)),
            }
        } else if inst.crate_name@ == "intrinsics"@ {
            match named_intrinsic(inst.item_name@) {
                None => Err(LowerError { span, kind: ErrorKind::UnsupportedIntrinsic }),
                Some(op) => match lower_intrinsic_call(env, op, args, destination, target, span) {
                    Err(e) => Err(e),
                    Ok(t) => Ok((t, names)),
                },
            }
        } else if is_panic_path(inst.path@) {
            Ok((only(panic_view()), names))
        } else {
            lower_fn_call(env, names, inst, args, destination, target, span)
        },
    }
}

/// The cases of a switch from index `i` on: each value, read in the type
/// of the discriminant, with the name of its block.
pub open spec fn lower_cases_from(env: Env, branches: Seq<(u128, usize)>, ty: IntType, i: int) -> Result<
    Seq<(Int, BbName)>,
    ErrorKind,
>
    decreases branches.len() - i,
{
    if i < 0 || i >= branches.len() {
        Ok(Seq::empty())
    } else {
        match lower_int_bits(branches[i].0, ty) {
            Err(e) => Err(e),
            Ok(value) => match bb_name(env, branches[i].1) {
                Err(e) => Err(e),
                Ok(name) => prepend(seq![(value, name)], lower_cases_from(env, branches, ty, i + 1)),
            },
        }
    }
}

/// A switch. The target switches on integers only: a boolean is first
/// reinterpreted as an unsigned byte.
pub open spec fn lower_switch(env: Env, discr: SrcOperand, targets: SwitchTargets) -> Result<
    TerminatorView,
    ErrorKind,
> {
    match operand_ty(env, discr) {
        Err(e) => Err(e),
        Ok(ty) => match lower_ty(env.tys, ty) {
            Err(e) => Err(e),
            Ok(ty) => match lower_operand(env, discr) {
                Err(e) => Err(e),
                Ok(v) => {
                    let picked = match ty {
                        TypeView::Bool => Some((bool_to_int_view(v), u8_type())),
                        TypeView::Int(ity) => Some((v, ity)),
                        _ => None,
                    };
                    match picked {
                        None => Err(ErrorKind::UnsupportedSwitchType),
                        Some((value, ity)) => match lower_cases_from(
                            env,
                            targets.branches@,
                            ity,
                            0,
                        ) {
                            Err(e) => Err(e),
                            Ok(cases) => match bb_name(env, targets.otherwise) {
                                Err(e) => Err(e),
                                Ok(fallback) => Ok(
                                    TerminatorView::Switch { value, cases, fallback },
                                ),
                            },
                        },
                    }
                },
            },
        }
    }
}

/// `blocks` with `block` under the name `name`, which must be unused.
pub open spec fn insert_block(blocks: Map<u64, BasicBlockView>, name: BbName, block: BasicBlockView) -> Result<
    Map<u64, BasicBlockView>,
    ErrorKind,
> {
    if blocks.contains_key(name.0) {
        Err(ErrorKind::DuplicateBlock)
    } else {
        Ok(blocks.insert(name.0, block))
    }
}

/// The block that panics: no statement, and the panic terminator.
pub open spec fn panic_block() -> BasicBlockView {
    BasicBlockView { statements: Seq::empty(), terminator: panic_view() }
}

/// An assertion that `cond` equals `expected`: a switch on the condition,
/// negated where `expected` is false, that goes on to `target` for 1 and
/// falls back to a new block that panics.
pub open spec fn lower_assert(env: Env, st: State, cond: SrcOperand, expected: bool, target: usize) -> Result<
    (TerminatorResultView, State),
    ErrorKind,
> {
    match lower_operand(env, cond) {
        Err(e) => Err(e),
        Ok(v) => {
            let condition = if expected {
                v
            } else {
                not_view(v)
            };
            if st.next_bb == u64::MAX {
                Err(ErrorKind::NamesExhausted)
            } else {
                let panic_bb = BbName(st.next_bb);
                match insert_block(st.blocks, panic_bb, panic_block()) {
                    Err(e) => Err(e),
                    Ok(blocks) => match bb_name(env, target) {
                        Err(e) => Err(e),
                        Ok(next_block) => Ok(
                            (
                                only(
                                    TerminatorView::Switch {
                                        value: bool_to_int_view(condition),
                                        cases: seq![(Int::NonNeg(1), next_block)],
                                        fallback: panic_bb,
                                    },
                                ),
                                State { names: st.names, blocks, next_bb: (st.next_bb + 1) as u64 },
                            ),
                        ),
                    },
                }
            }
        },
    }
}

/// The end of a value's life: a call of the destructor `drop_fn` with a
/// raw pointer to the place, which returns nothing and goes on to `target`.
pub open spec fn lower_drop(env: Env, names: Map<u64, FnName>, place: SrcPlace, target: usize, drop_fn: u64) -> Result<
    (TerminatorResultView, Map<u64, FnName>),
    ErrorKind,
> {
    match lower_place(env, place) {
        Err(e) => Err(e),
        Ok(p) => match bb_name(env, target) {
            Err(e) => Err(e),
            Ok(next) => Ok(
                (
                    only(
                        TerminatorView::Call {
                            callee: fn_ptr_view(intern(names, drop_fn).0),
                            calling_convention: CallingConvention::Rust,
                            arguments: seq![ArgumentExprView::ByValue(addr_of_view(p, PtrType::Raw))],
                            ret: zst_place_view(),
                            next_block: Some(next),
                        },
                    ),
                    intern(names, drop_fn).1,
                ),
            ),
        },
    }
}

/// `st` with other names of functions.
pub open spec fn with_state<T>(r: Result<(T, Map<u64, FnName>), ErrorKind>, st: State) -> Result<
    (T, State),
    ErrorKind,
> {
    match r {
        Err(e) => Err(e),
        Ok((v, names)) => Ok((v, State { names, blocks: st.blocks, next_bb: st.next_bb })),
    }
}

/// What a terminator becomes, and the state after it.
#[verifier::opaque]
pub open spec fn lower_terminator(env: Env, st: State, term: SrcTerminator) -> Result<
    (TerminatorResultView, State),
    LowerError,
> {
    match term.kind {
        SrcTerminatorKind::Return => Ok((only(TerminatorView::Return), st)),
        SrcTerminatorKind::Goto { target } => located(
            match bb_name(env, target) {
                Err(e) => Err(e),
                Ok(name) => Ok((only(TerminatorView::Goto(name)), st)),
            },
            term.span,
        ),
        SrcTerminatorKind::Call { func, args, destination, target } => match lower_call(
            env,
            st.names,
            func,
            args@,
            destination,
            target,
            term.span,
        ) {
            Err(e) => Err(e),
            Ok((t, names)) => Ok((t, State { names, blocks: st.blocks, next_bb: st.next_bb })),
        },
        SrcTerminatorKind::SwitchInt { discr, targets } => located(
            match lower_switch(env, discr, targets) {
                Err(e) => Err(e),
                Ok(t) => Ok((only(t), st)),
            },
            term.span,
        ),
        SrcTerminatorKind::Unreachable => Ok((only(TerminatorView::Unreachable), st)),
        SrcTerminatorKind::Assert { cond, expected, target } => located(
            lower_assert(env, st, cond, expected, target),
            term.span,
        ),
        SrcTerminatorKind::Drop { place, target, drop_fn } => located(
            with_state(lower_drop(env, st.names, place, target, drop_fn), st),
            term.span,
        ),
        _ => Err(LowerError { span: term.span, kind: ErrorKind::UnsupportedTerminator }),
    }
}

/// The state after the statement with index `i`, in a block that is being
/// built under the name `cur` and holds the statements `acc`: together with
/// the name and the statements of the block that is being built after it.
pub open spec fn lower_step(env: Env, st: State, cur: BbName, acc: Seq<StatementView>, stmt: SrcStatement) -> Result<
    (State, BbName, Seq<StatementView>),
    LowerError,
> {
    match lower_stmt(env, st.names, stmt) {
        Err(e) => Err(e),
        Ok((StatementResultView::Statement(s), names)) => Ok(
            (State { names, blocks: st.blocks, next_bb: st.next_bb }, cur, acc.push(s)),
        ),
        Ok((StatementResultView::Intrinsic { intrinsic, destination, arguments }, names)) => located(
            if st.next_bb == u64::MAX {
                Err(ErrorKind::NamesExhausted)
            } else {
                let next = BbName(st.next_bb);
                let block = BasicBlockView {
                    statements: acc,
                    terminator: TerminatorView::Intrinsic {
                        intrinsic,
                        arguments,
                        ret: destination,
                        next_block: Some(next),
                    },
                };
                match insert_block(st.blocks, cur, block) {
                    Err(e) => Err(e),
                    Ok(blocks) => Ok(
                        (
                            State { names, blocks, next_bb: (st.next_bb + 1) as u64 },
                            next,
                            Seq::empty(),
                        ),
                    ),
                }
            },
            stmt.span,
        ),
    }
}

/// The state after the terminator, which completes the block that is being
/// built under the name `cur`.
pub open spec fn lower_finish(env: Env, st: State, cur: BbName, acc: Seq<StatementView>, term: SrcTerminator) -> Result<
    State,
    LowerError,
> {
    match lower_terminator(env, st, term) {
        Err(e) => Err(e),
        Ok((t, st)) => located(
            match insert_block(
                st.blocks,
                cur,
                BasicBlockView { statements: acc + t.stmts, terminator: t.terminator },
            ) {
                Err(e) => Err(e),
                Ok(blocks) => Ok(State { names: st.names, blocks, next_bb: st.next_bb }),
            },
            term.span,
        ),
    }
}

/// The state after the statements from index `i` on and the terminator.
pub open spec fn lower_bb_from(
    env: Env,
    st: State,
    cur: BbName,
    acc: Seq<StatementView>,
    stmts: Seq<SrcStatement>,
    i: int,
    term: SrcTerminator,
) -> Result<State, LowerError>
    decreases stmts.len() - i,
{
    if i < 0 || i >= stmts.len() {
        lower_finish(env, st, cur, acc, term)
    } else {
        match lower_step(env, st, cur, acc, stmts[i]) {
            Err(e) => Err(e),
            Ok((st, cur, acc)) => lower_bb_from(env, st, cur, acc, stmts, i + 1, term),
        }
    }
}

/// The state after the source block `bb` was lowered into blocks of which
/// the first is named `name`.
pub open spec fn lower_bb(env: Env, st: State, name: BbName, bb: SrcBasicBlock) -> Result<
    State,
    LowerError,
> {
    lower_bb_from(env, st, name, Seq::empty(), bb.statements@, 0, bb.terminator)
}

/// Whether two strings hold the same characters.
pub fn str_equal(a: &str, b: &str) -> (r: bool)
    ensures
        r == (a@ == b@),
{
    let x = a.to_owned();
    let y = b.to_owned();
    x == y
}

/// Whether `name` is the path of a panic entry point that takes a message.
/// Such a call cannot be lowered as it stands; it is recognised here and
/// lowered without the message.
pub fn is_panic_fn(name: &str) -> (r: bool)
    ensures
        r == is_panic_path(name@),
{
    str_equal(name, "core::panicking::panic") || str_equal(
        name,
        "core::panicking::panic_nounwind",
    )
}

/// What `named_intrinsic` prescribes.
pub fn named_intrinsic_of(name: &str) -> (r: Option<IntrinsicOp>)
    ensures
        r == named_intrinsic(name@),
{
    if str_equal(name, "print") {
        Some(IntrinsicOp::PrintStdout)
    } else if str_equal(name, "eprint") {
        Some(IntrinsicOp::PrintStderr)
    } else if str_equal(name, "exit") {
        Some(IntrinsicOp::Exit)
    } else if str_equal(name, "panic") {
        Some(IntrinsicOp::Panic)
    } else if str_equal(name, "allocate") {
        Some(IntrinsicOp::Allocate)
    } else if str_equal(name, "deallocate") {
        Some(IntrinsicOp::Deallocate)
    } else if str_equal(name, "spawn") {
        Some(IntrinsicOp::Spawn)
    } else if str_equal(name, "join") {
        Some(IntrinsicOp::Join)
    } else if str_equal(name, "create_lock") {
        Some(IntrinsicOp::Lock(IntrinsicLockOp::Create))
    } else if str_equal(name, "acquire") {
        Some(IntrinsicOp::Lock(IntrinsicLockOp::Acquire))
    } else if str_equal(name, "release") {
        Some(IntrinsicOp::Lock(IntrinsicLockOp::Release))
    } else if str_equal(name, "atomic_store") {
        Some(IntrinsicOp::AtomicStore)
    } else if str_equal(name, "atomic_load") {
        Some(IntrinsicOp::AtomicLoad)
    } else if str_equal(name, "compare_exchange") {
        Some(IntrinsicOp::AtomicCompareExchange)
    } else if str_equal(name, "atomic_fetch_add") {
        Some(IntrinsicOp::AtomicFetchAndOp(IntBinOp::Add))
    } else if str_equal(name, "atomic_fetch_sub") {
        Some(IntrinsicOp::AtomicFetchAndOp(IntBinOp::Sub))
    } else {
        None
    }
}

/// What `validity_requirement` prescribes.
pub fn validity_requirement_of(name: &str) -> (r: Option<ValidityRequirement>)
    ensures
        r == validity_requirement(name@),
{
    if str_equal(name, "assert_inhabited") {
        Some(ValidityRequirement::Inhabited)
    } else if str_equal(name, "assert_zero_valid") {
        Some(ValidityRequirement::Zero)
    } else if str_equal(name, "assert_mem_uninitialized_valid") {
        Some(ValidityRequirement::Uninit)
    } else {
        None
    }
}

/// Whether a type with the layout `layout` meets `req`.
pub fn check_requirement(layout: Layout, req: ValidityRequirement) -> (r: bool)
    ensures
        r == requirement_met(layout, req),
{
    match req {
        ValidityRequirement::Inhabited => !layout.uninhabited,
        ValidityRequirement::Zero => layout.zero_valid,
        ValidityRequirement::Uninit => layout.uninit_valid,
    }
}

impl FnCtxt {
    /// The target name of a source block.
    pub fn bb_name(&self, block: usize) -> (r: Result<BbName, ErrorKind>)
        ensures
            r == bb_name(self.env(), block),
    {
        if block < self.bb_name_map.len() {
            Ok(self.bb_name_map[block])
        } else {
            Err(ErrorKind::UnknownBlock)
        }
    }

    fn next_block(&self, target: &Option<usize>) -> (r: Result<Option<BbName>, ErrorKind>)
        ensures
            r == lower_next_block(self.env(), *target),
    {
        match target {
            None => Ok(None),
            Some(t) => match self.bb_name(*t) {
                Ok(name) => Ok(Some(name)),
                Err(e) => Err(e),
            },
        }
    }

    fn goto_target(&self, target: &Option<usize>) -> (r: Result<Terminator, ErrorKind>)
        ensures
            match r {
                Ok(t) => goto_target(self.env(), *target) == Ok::<_, ErrorKind>(t@),
                Err(e) => goto_target(self.env(), *target) == Err::<TerminatorView, _>(e),
            },
    {
        match target {
            None => Err(ErrorKind::MissingTarget),
            Some(t) => match self.bb_name(*t) {
                Ok(name) => Ok(Terminator::Goto(name)),
                Err(e) => Err(e),
            },
        }
    }

    /// Puts a block under a name that must be unused. A block that is there stays.
    pub fn insert_block(&mut self, name: BbName, block: BasicBlock) -> (r: Result<(), ErrorKind>)
        ensures
            final(self).cx == old(self).cx,
            final(self).locals == old(self).locals,
            final(self).local_name_map == old(self).local_name_map,
            final(self).bb_name_map == old(self).bb_name_map,
            final(self).next_bb == old(self).next_bb,
            blocks_kept(old(self).blocks_view(), final(self).blocks_view()),
            match r {
                Ok(()) => insert_block(old(self).blocks_view(), name, block@) == Ok::<_, ErrorKind>(
                    final(self).blocks_view(),
                ),
                Err(e) => e == ErrorKind::DuplicateBlock && insert_block(
                    old(self).blocks_view(),
                    name,
                    block@,
                ) == Err::<Map<u64, BasicBlockView>, _>(e) && final(self).blocks@ == old(
                    self,
                ).blocks@,
            },
    {
        broadcast use vstd::std_specs::hash::group_hash_axioms;

        if self.blocks.contains_key(&name.0) {
            return Err(ErrorKind::DuplicateBlock);
        }
        let ghost view = block@;
        self.blocks.insert(name.0, block);
        assert(self.blocks_view() =~= old(self).blocks_view().insert(name.0, view));
        Ok(())
    }
}

impl FnCtxt {
    /// What `translate_stmt` owes for the result `r`, from the context
    /// `old` to the context `self`.
    pub open spec fn lowered_stmt(
        &self,
        old: &FnCtxt,
        stmt: SrcStatement,
        r: Result<StatementResult, LowerError>,
    ) -> bool {
        match r {
            Ok(s) => lower_stmt(old.env(), old.names(), stmt) == Ok::<_, LowerError>(
                (s@, self.names()),
            ),
            Err(e) => lower_stmt(old.env(), old.names(), stmt) == Err::<
                (StatementResultView, Map<u64, FnName>),
                _,
            >(e),
        }
    }

    fn intrinsic_statement(
        &mut self,
        intrinsic: IntrinsicOp,
        destination: PlaceExpr,
        operand: &SrcOperand,
        span: Span,
    ) -> (r: Result<StatementResult, LowerError>)
        requires
            old(self).wf(),
        ensures
            final(self).wf(),
            final(self).only_cache_grew(old(self)),
            match r {
                Ok(s) => lower_operand(old(self).env(), *operand) matches Ok(v) && s@ == (
                StatementResultView::Intrinsic { intrinsic, destination: destination@, arguments: seq![v] }),
                Err(e) => lower_operand(old(self).env(), *operand) == Err::<ValueExprView, _>(
                    e.kind,
                ) && e.span == span,
            },
    {
        let v = match self.translate_operand(operand, span) {
            Ok(v) => v,
            Err(e) => {
                return Err(e);
            },
        };
        let mut arguments: Vec<ValueExpr> = Vec::new();
        arguments.push(v);
        assert(values_view(arguments@) =~= seq![v@]);
        Ok(StatementResult::Intrinsic { intrinsic, destination, arguments })
    }

    fn translate_assign(&mut self, place: &SrcPlace, rval: &SrcRvalue, span: Span) -> (r: Result<
        StatementResult,
        LowerError,
    >)
        requires
            old(self).wf(),
        ensures
            final(self).wf(),
            final(self).same_blocks(old(self)),
            match r {
                Ok(s) => lower_stmt_kind(
                    old(self).env(),
                    old(self).names(),
                    SrcStatementKind::Assign(*place, *rval),
                ) == Ok::<_, ErrorKind>((s@, final(self).names())),
                Err(e) => lower_stmt_kind(
                    old(self).env(),
                    old(self).names(),
                    SrcStatementKind::Assign(*place, *rval),
                ) == Err::<(StatementResultView, Map<u64, FnName>), _>(e.kind) && e.span == span,
            },
    {
        reveal(lower_stmt_kind);
        let destination = match self.translate_place(place, span) {
            Ok(p) => p,
            Err(e) => {
                return Err(e);
            },
        };
        // Some of what the source takes for a value has an effect beyond
        // its result, and is an intrinsic in the target.
        match rval {
            SrcRvalue::Cast(CastKind::PointerExposeProvenance, operand, _) => {
                self.intrinsic_statement(
                    IntrinsicOp::PointerExposeProvenance,
                    destination,
                    operand,
                    span,
                )
            },
            SrcRvalue::Cast(CastKind::PointerWithExposedProvenance, operand, _) => {
                self.intrinsic_statement(
                    IntrinsicOp::PointerWithExposedProvenance,
                    destination,
                    operand,
                    span,
                )
            },
            _ => {
                match self.translate_rvalue(rval, span) {
                    Ok(source) => Ok(
                        StatementResult::Statement(Statement::Assign { destination, source }),
                    ),
                    Err(e) => Err(e),
                }
            },
        }
    }

    fn translate_stmt_kind(&mut self, kind: &SrcStatementKind, span: Span) -> (r: Result<
        StatementResult,
        LowerError,
    >)
        requires
            old(self).wf(),
        ensures
            final(self).wf(),
            final(self).same_blocks(old(self)),
            match r {
                Ok(s) => lower_stmt_kind(old(self).env(), old(self).names(), *kind) == Ok::<
                    _,
                    ErrorKind,
                >((s@, final(self).names())),
                Err(e) => lower_stmt_kind(old(self).env(), old(self).names(), *kind) == Err::<
                    (StatementResultView, Map<u64, FnName>),
                    _,
                >(e.kind) && e.span == span,
            },
    {
        reveal(lower_stmt_kind);
        match kind {
            SrcStatementKind::Assign(place, rval) => self.translate_assign(place, rval, span),
            SrcStatementKind::StorageLive(local) => match self.local_name(*local) {
                Ok(name) => Ok(StatementResult::Statement(Statement::StorageLive(name))),
                Err(kind) => Err(LowerError::new(span, kind)),
            },
            SrcStatementKind::StorageDead(local) => match self.local_name(*local) {
                Ok(name) => Ok(StatementResult::Statement(Statement::StorageDead(name))),
                Err(kind) => Err(LowerError::new(span, kind)),
            },
            SrcStatementKind::Retag(kind, place) => {
                let place = match self.translate_place(place, span) {
                    Ok(p) => p,
                    Err(e) => {
                        return Err(e);
                    },
                };
                let fn_entry = match kind {
                    RetagKind::FnEntry => true,
                    _ => false,
                };
                Ok(StatementResult::Statement(Statement::Validate { place, fn_entry }))
            },
            SrcStatementKind::Deinit(place) => match self.translate_place(place, span) {
                Ok(place) => Ok(StatementResult::Statement(Statement::Deinit { place })),
                Err(e) => Err(e),
            },
            SrcStatementKind::SetDiscriminant { place, variant_index } => {
                let ty = match self.place_ty(place) {
                    Ok(ty) => ty,
                    Err(kind) => {
                        return Err(LowerError::new(span, kind));
                    },
                };
                let value = match self.cx.discriminant_for_variant(ty, *variant_index, span) {
                    Ok(d) => d,
                    Err(e) => {
                        return Err(e);
                    },
                };
                match self.translate_place(place, span) {
                    Ok(destination) => Ok(
                        StatementResult::Statement(
                            Statement::SetDiscriminant { destination, value },
                        ),
                    ),
                    Err(e) => Err(e),
                }
            },
            SrcStatementKind::Assume(op) => {
                // The intrinsic returns nothing: its result goes to a place of size zero.
                self.intrinsic_statement(IntrinsicOp::Assume, zst_place(), op, span)
            },
            SrcStatementKind::PlaceMention(place) => match self.translate_place(place, span) {
                Ok(place) => Ok(StatementResult::Statement(Statement::PlaceMention(place))),
                Err(e) => Err(e),
            },
            _ => Err(LowerError::new(span, ErrorKind::UnsupportedStatement)),
        }
    }

    /// Lowers a statement: to a statement, or to an intrinsic that ends the
    /// block being built. The blocks built so far stay as they are.
    pub fn translate_stmt(&mut self, stmt: &SrcStatement) -> (r: Result<
        StatementResult,
        LowerError,
    >)
        requires
            old(self).wf(),
        ensures
            final(self).wf(),
            final(self).same_blocks(old(self)),
            final(self).lowered_stmt(old(self), *stmt, r),
    {
        self.translate_stmt_kind(&stmt.kind, stmt.span)
    }

    fn translate_arg_values(&mut self, args: &Vec<SrcArg>) -> (r: Result<
        Vec<ValueExpr>,
        LowerError,
    >)
        requires
            old(self).wf(),
        ensures
            final(self).wf(),
            final(self).only_cache_grew(old(self)),
            match r {
                Ok(v) => lower_arg_values_from(old(self).env(), args@, 0) == Ok::<_, LowerError>(
                    values_view(v@),
                ),
                Err(e) => lower_arg_values_from(old(self).env(), args@, 0) == Err::<
                    Seq<ValueExprView>,
                    _,
                >(e),
            },
    {
        let mut out: Vec<ValueExpr> = Vec::new();
        let mut i: usize = 0;
        let ghost env = self.env();
        proof {
            assert(values_view(out@) =~= Seq::empty());
            lemma_prepend_push(
                Seq::<ValueExprView>::empty(),
                arbitrary(),
                lower_arg_values_from(env, args@, 0),
            );
        }
        while i < args.len()
            invariant
                i <= args.len(),
                self.wf(),
                self.only_cache_grew(old(self)),
                env == old(self).env(),
                lower_arg_values_from(env, args@, 0) == prepend(
                    values_view(out@),
                    lower_arg_values_from(env, args@, i as int),
                ),
            decreases args.len() - i,
        {
            let v = match self.translate_operand(&args[i].node, args[i].span) {
                Ok(v) => v,
                Err(e) => {
                    return Err(e);
                },
            };
            proof {
                lemma_prepend_push(values_view(out@), v@, lower_arg_values_from(env, args@, i + 1));
                assert(values_view(out@.push(v)) =~= values_view(out@).push(v@));
            }
            out.push(v);
            i += 1;
        }
        proof {
            lemma_prepend_push(
                values_view(out@),
                arbitrary(),
                lower_arg_values_from(env, args@, i as int),
            );
        }
        Ok(out)
    }

    fn translate_argument(&mut self, arg: &SrcArg) -> (r: Result<ArgumentExpr, LowerError>)
        requires
            old(self).wf(),
        ensures
            final(self).wf(),
            final(self).only_cache_grew(old(self)),
            match r {
                Ok(a) => lower_argument(old(self).env(), *arg) == Ok::<_, LowerError>(a@),
                Err(e) => lower_argument(old(self).env(), *arg) == Err::<ArgumentExprView, _>(e),
            },
    {
        match &arg.node {
            SrcOperand::Move(place) => match self.translate_place(place, arg.span) {
                Ok(p) => Ok(ArgumentExpr::InPlace(p)),
                Err(e) => Err(e),
            },
            op => match self.translate_operand(op, arg.span) {
                Ok(v) => Ok(ArgumentExpr::ByValue(v)),
                Err(e) => Err(e),
            },
        }
    }

    fn translate_arguments(&mut self, args: &Vec<SrcArg>) -> (r: Result<
        Vec<ArgumentExpr>,
        LowerError,
    >)
        requires
            old(self).wf(),
        ensures
            final(self).wf(),
            final(self).only_cache_grew(old(self)),
            match r {
                Ok(v) => lower_arguments_from(old(self).env(), args@, 0) == Ok::<_, LowerError>(
                    arguments_view(v@),
                ),
                Err(e) => lower_arguments_from(old(self).env(), args@, 0) == Err::<
                    Seq<ArgumentExprView>,
                    _,
                >(e),
            },
    {
        let mut out: Vec<ArgumentExpr> = Vec::new();
        let mut i: usize = 0;
        let ghost env = self.env();
        proof {
            assert(arguments_view(out@) =~= Seq::empty());
            lemma_prepend_push(
                Seq::<ArgumentExprView>::empty(),
                arbitrary(),
                lower_arguments_from(env, args@, 0),
            );
        }
        while i < args.len()
            invariant
                i <= args.len(),
                self.wf(),
                self.only_cache_grew(old(self)),
                env == old(self).env(),
                lower_arguments_from(env, args@, 0) == prepend(
                    arguments_view(out@),
                    lower_arguments_from(env, args@, i as int),
                ),
            decreases args.len() - i,
        {
            let a = match self.translate_argument(&args[i]) {
                Ok(a) => a,
                Err(e) => {
                    return Err(e);
                },
            };
            proof {
                lemma_prepend_push(arguments_view(out@), a@, lower_arguments_from(env, args@, i + 1));
                assert(arguments_view(out@.push(a)) =~= arguments_view(out@).push(a@));
            }
            out.push(a);
            i += 1;
        }
        proof {
            lemma_prepend_push(
                arguments_view(out@),
                arbitrary(),
                lower_arguments_from(env, args@, i as int),
            );
        }
        Ok(out)
    }

    fn translate_nth_arg(&mut self, args: &Vec<SrcArg>, i: usize, span: Span) -> (r: Result<
        ValueExpr,
        LowerError,
    >)
        requires
            old(self).wf(),
        ensures
            final(self).wf(),
            final(self).only_cache_grew(old(self)),
            crate::error::refines(r, lower_nth_arg(old(self).env(), args@, i as int), span),
    {
        if i < args.len() {
            self.translate_operand(&args[i].node, span)
        } else {
            Err(LowerError::new(span, ErrorKind::MissingArgument))
        }
    }
}

impl FnCtxt {
    fn type_arg_layout(&self, inst: &Instance) -> (r: Result<Layout, ErrorKind>)
        ensures
            r == type_arg_layout(self.env(), *inst),
    {
        match inst.type_arg {
            None => Err(ErrorKind::MissingArgument),
            Some(ty) => if ty < self.cx.types.len() {
                Ok(self.cx.types[ty].layout)
            } else {
                Err(ErrorKind::UnknownType)
            },
        }
    }

    /// The size of the type argument of a built-in, as a constant.
    fn size_of(&self, inst: &Instance) -> (r: Result<ValueExpr, ErrorKind>)
        ensures
            match r {
                Ok(v) => size_of_type_arg(self.env(), *inst) == Ok::<_, ErrorKind>(v@),
                Err(e) => size_of_type_arg(self.env(), *inst) == Err::<ValueExprView, _>(e),
            },
    {
        match self.type_arg_layout(inst) {
            Err(e) => Err(e),
            Ok(layout) => if layout.sized {
                Ok(const_usize(Int::from_u64(layout.size)))
            } else {
                Err(ErrorKind::UnsizedPointee)
            },
        }
    }

    /// The alignment of the type argument of a built-in, as a constant.
    fn align_of(&self, inst: &Instance) -> (r: Result<ValueExpr, ErrorKind>)
        ensures
            match r {
                Ok(v) => align_of_type_arg(self.env(), *inst) == Ok::<_, ErrorKind>(v@),
                Err(e) => align_of_type_arg(self.env(), *inst) == Err::<ValueExprView, _>(e),
            },
    {
        match self.type_arg_layout(inst) {
            Err(e) => Err(e),
            Ok(layout) => if layout.sized {
                Ok(const_usize(Int::from_u64(layout.align)))
            } else {
                Err(ErrorKind::UnsizedPointee)
            },
        }
    }

    /// The assignment of `source` to `destination`, and a jump to `target`.
    fn assign_and_goto(
        &self,
        destination: PlaceExpr,
        source: ValueExpr,
        target: &Option<usize>,
    ) -> (r: Result<TerminatorResult, ErrorKind>)
        ensures
            match r {
                Ok(t) => goto_target(self.env(), *target) matches Ok(g) && t@ == (
                TerminatorResultView {
                    stmts: seq![
                        StatementView::Assign { destination: destination@, source: source@ },
                    ],
                    terminator: g,
                }),
                Err(e) => goto_target(self.env(), *target) == Err::<TerminatorView, _>(e),
            },
    {
        let stmt = Statement::Assign { destination, source };
        let terminator = match self.goto_target(target) {
            Ok(t) => t,
            Err(e) => {
                return Err(e);
            },
        };
        let mut stmts: Vec<Statement> = Vec::new();
        stmts.push(stmt);
        assert(statements_view(stmts@) =~= seq![stmt@]);
        Ok(TerminatorResult { stmts, terminator })
    }

    fn translate_intrinsic_call(
        &mut self,
        intrinsic: IntrinsicOp,
        args: &Vec<SrcArg>,
        destination: &SrcPlace,
        target: &Option<usize>,
        span: Span,
    ) -> (r: Result<TerminatorResult, LowerError>)
        requires
            old(self).wf(),
        ensures
            final(self).wf(),
            final(self).only_cache_grew(old(self)),
            match r {
                Ok(t) => lower_intrinsic_call(
                    old(self).env(),
                    intrinsic,
                    args@,
                    *destination,
                    *target,
                    span,
                ) == Ok::<_, LowerError>(t@),
                Err(e) => lower_intrinsic_call(
                    old(self).env(),
                    intrinsic,
                    args@,
                    *destination,
                    *target,
                    span,
                ) == Err::<TerminatorResultView, _>(e),
            },
    {
        let arguments = match self.translate_arg_values(args) {
            Ok(a) => a,
            Err(e) => {
                return Err(e);
            },
        };
        let ret = match self.translate_place(destination, span) {
            Ok(p) => p,
            Err(e) => {
                return Err(e);
            },
        };
        let next_block = match self.next_block(target) {
            Ok(n) => n,
            Err(kind) => {
                return Err(LowerError::new(span, kind));
            },
        };
        let r = TerminatorResult {
            stmts: Vec::new(),
            terminator: Terminator::Intrinsic { intrinsic, arguments, ret, next_block },
        };
        assert(statements_view(r.stmts@) =~= Seq::empty());
        Ok(r)
    }

    fn translate_validity_assertion(
        &self,
        inst: &Instance,
        req: ValidityRequirement,
        target: &Option<usize>,
    ) -> (r: Result<TerminatorResult, ErrorKind>)
        ensures
            match r {
                Ok(t) => lower_validity_assertion(self.env(), *inst, req, *target) == Ok::<
                    _,
                    ErrorKind,
                >(t@),
                Err(e) => lower_validity_assertion(self.env(), *inst, req, *target) == Err::<
                    TerminatorResultView,
                    _,
                >(e),
            },
    {
        let layout = match self.type_arg_layout(inst) {
            Ok(l) => l,
            Err(e) => {
                return Err(e);
            },
        };
        let should_panic = !check_requirement(layout, req);
        let terminator = if should_panic {
            panic_terminator()
        } else {
            match self.goto_target(target) {
                Ok(t) => t,
                Err(e) => {
                    return Err(e);
                },
            }
        };
        let r = TerminatorResult { stmts: Vec::new(), terminator };
        assert(statements_view(r.stmts@) =~= Seq::empty());
        Ok(r)
    }

    fn translate_arith_offset(
        &mut self,
        args: &Vec<SrcArg>,
        destination: &SrcPlace,
        target: &Option<usize>,
        span: Span,
    ) -> (r: Result<TerminatorResult, LowerError>)
        requires
            old(self).wf(),
        ensures
            final(self).wf(),
            final(self).only_cache_grew(old(self)),
            crate::error::refines(
                r,
                assign_then_goto(
                    old(self).env(),
                    *destination,
                    lower_arith_offset(old(self).env(), args@),
                    *target,
                ),
                span,
            ),
    {
        let destination = match self.translate_place(destination, span) {
            Ok(p) => p,
            Err(e) => {
                return Err(e);
            },
        };
        let l = match self.translate_nth_arg(args, 0, span) {
            Ok(v) => v,
            Err(e) => {
                return Err(e);
            },
        };
        let r = match self.translate_nth_arg(args, 1, span) {
            Ok(v) => v,
            Err(e) => {
                return Err(e);
            },
        };
        let val = binop(BinOp::PtrOffset { inbounds: false }, l, r);
        match self.assign_and_goto(destination, val, target) {
            Ok(t) => Ok(t),
            Err(kind) => Err(LowerError::new(span, kind)),
        }
    }

    fn translate_size_of_val(
        &mut self,
        inst: &Instance,
        destination: &SrcPlace,
        target: &Option<usize>,
        span: Span,
    ) -> (r: Result<TerminatorResult, LowerError>)
        requires
            old(self).wf(),
        ensures
            final(self).wf(),
            final(self).only_cache_grew(old(self)),
            crate::error::refines(
                r,
                assign_then_goto(
                    old(self).env(),
                    *destination,
                    size_of_type_arg(old(self).env(), *inst),
                    *target,
                ),
                span,
            ),
    {
        let destination = match self.translate_place(destination, span) {
            Ok(p) => p,
            Err(e) => {
                return Err(e);
            },
        };
        let size = match self.size_of(inst) {
            Ok(v) => v,
            Err(kind) => {
                return Err(LowerError::new(span, kind));
            },
        };
        match self.assign_and_goto(destination, size, target) {
            Ok(t) => Ok(t),
            Err(kind) => Err(LowerError::new(span, kind)),
        }
    }

    fn translate_min_align_of_val(
        &mut self,
        inst: &Instance,
        destination: &SrcPlace,
        target: &Option<usize>,
        span: Span,
    ) -> (r: Result<TerminatorResult, LowerError>)
        requires
            old(self).wf(),
        ensures
            final(self).wf(),
            final(self).only_cache_grew(old(self)),
            crate::error::refines(
                r,
                assign_then_goto(
                    old(self).env(),
                    *destination,
                    align_of_type_arg(old(self).env(), *inst),
                    *target,
                ),
                span,
            ),
    {
        let destination = match self.translate_place(destination, span) {
            Ok(p) => p,
            Err(e) => {
                return Err(e);
            },
        };
        let align = match self.align_of(inst) {
            Ok(v) => v,
            Err(kind) => {
                return Err(LowerError::new(span, kind));
            },
        };
        match self.assign_and_goto(destination, align, target) {
            Ok(t) => Ok(t),
            Err(kind) => Err(LowerError::new(span, kind)),
        }
    }

    fn translate_likely(
        &mut self,
        args: &Vec<SrcArg>,
        destination: &SrcPlace,
        target: &Option<usize>,
        span: Span,
    ) -> (r: Result<TerminatorResult, LowerError>)
        requires
            old(self).wf(),
        ensures
            final(self).wf(),
            final(self).only_cache_grew(old(self)),
            crate::error::refines(
                r,
                assign_then_goto(
                    old(self).env(),
                    *destination,
                    lower_nth_arg(old(self).env(), args@, 0),
                    *target,
                ),
                span,
            ),
    {
        let destination = match self.translate_place(destination, span) {
            Ok(p) => p,
            Err(e) => {
                return Err(e);
            },
        };
        let val = match self.translate_nth_arg(args, 0, span) {
            Ok(v) => v,
            Err(e) => {
                return Err(e);
            },
        };
        match self.assign_and_goto(destination, val, target) {
            Ok(t) => Ok(t),
            Err(kind) => Err(LowerError::new(span, kind)),
        }
    }

    /// Lowers a call of a built-in of the source language. Some are decided
    /// here and leave no call behind.
    pub fn translate_rs_intrinsic(
        &mut self,
        intrinsic: &Instance,
        args: &Vec<SrcArg>,
        destination: &SrcPlace,
        target: &Option<usize>,
        span: Span,
    ) -> (r: Result<TerminatorResult, LowerError>)
        requires
            old(self).wf(),
        ensures
            final(self).wf(),
            final(self).only_cache_grew(old(self)),
            match r {
                Ok(t) => lower_rs_intrinsic(
                    old(self).env(),
                    *intrinsic,
                    args@,
                    *destination,
                    *target,
                    span,
                ) == Ok::<_, LowerError>(t@),
                Err(e) => lower_rs_intrinsic(
                    old(self).env(),
                    *intrinsic,
                    args@,
                    *destination,
                    *target,
                    span,
                ) == Err::<TerminatorResultView, _>(e),
            },
    {
        let name = intrinsic.item_name.as_str();
        if let Some(req) = validity_requirement_of(name) {
            match self.translate_validity_assertion(intrinsic, req, target) {
                Ok(t) => Ok(t),
                Err(kind) => Err(LowerError::new(span, kind)),
            }
        } else if str_equal(name, "raw_eq") {
            self.translate_intrinsic_call(IntrinsicOp::RawEq, args, destination, target, span)
        } else if str_equal(name, "arith_offset") {
            self.translate_arith_offset(args, destination, target, span)
        } else if str_equal(name, "size_of_val") {
            self.translate_size_of_val(intrinsic, destination, target, span)
        } else if str_equal(name, "min_align_of_val") {
            self.translate_min_align_of_val(intrinsic, destination, target, span)
        } else if str_equal(name, "unlikely") || str_equal(name, "likely") {
            self.translate_likely(args, destination, target, span)
        } else {
            Err(LowerError::new(span, ErrorKind::UnsupportedIntrinsic))
        }
    }

    fn translate_fn_call(
        &mut self,
        inst: &Instance,
        args: &Vec<SrcArg>,
        destination: &SrcPlace,
        target: &Option<usize>,
        span: Span,
    ) -> (r: Result<TerminatorResult, LowerError>)
        requires
            old(self).wf(),
        ensures
            final(self).wf(),
            final(self).same_blocks(old(self)),
            match r {
                Ok(t) => lower_fn_call(
                    old(self).env(),
                    old(self).names(),
                    *inst,
                    args@,
                    *destination,
                    *target,
                    span,
                ) == Ok::<_, LowerError>((t@, final(self).names())),
                Err(e) => lower_fn_call(
                    old(self).env(),
                    old(self).names(),
                    *inst,
                    args@,
                    *destination,
                    *target,
                    span,
                ) == Err::<(TerminatorResultView, Map<u64, FnName>), _>(e),
            },
    {
        let calling_convention = match translate_calling_convention(inst.conv) {
            Some(c) => c,
            None => {
                return Err(LowerError::new(span, ErrorKind::UnsupportedCallingConvention));
            },
        };
        let arguments = match self.translate_arguments(args) {
            Ok(a) => a,
            Err(e) => {
                return Err(e);
            },
        };
        let ret = match self.translate_place(destination, span) {
            Ok(p) => p,
            Err(e) => {
                return Err(e);
            },
        };
        let next_block = match self.next_block(target) {
            Ok(n) => n,
            Err(kind) => {
                return Err(LowerError::new(span, kind));
            },
        };
        let callee = fn_ptr(self.cx.get_fn_name(inst.id));
        let r = TerminatorResult {
            stmts: Vec::new(),
            terminator: Terminator::Call { callee, calling_convention, arguments, ret, next_block },
        };
        assert(statements_view(r.stmts@) =~= Seq::empty());
        Ok(r)
    }

    /// Lowers a call.
    pub fn translate_call(
        &mut self,
        func: &SrcCallee,
        args: &Vec<SrcArg>,
        destination: &SrcPlace,
        target: &Option<usize>,
        span: Span,
    ) -> (r: Result<TerminatorResult, LowerError>)
        requires
            old(self).wf(),
        ensures
            final(self).wf(),
            final(self).same_blocks(old(self)),
            match r {
                Ok(t) => lower_call(
                    old(self).env(),
                    old(self).names(),
                    *func,
                    args@,
                    *destination,
                    *target,
                    span,
                ) == Ok::<_, LowerError>((t@, final(self).names())),
                Err(e) => lower_call(
                    old(self).env(),
                    old(self).names(),
                    *func,
                    args@,
                    *destination,
                    *target,
                    span,
                ) == Err::<(TerminatorResultView, Map<u64, FnName>), _>(e),
            },
    {
        // Only calls of named functions are supported, not calls through function pointers.
        let instance = match func {
            SrcCallee::Item(instance) => instance,
            SrcCallee::Pointer(_) => {
                return Err(LowerError::new(span, ErrorKind::UnsupportedCallee));
            },
        };
        if instance.intrinsic {
            return self.translate_rs_intrinsic(instance, args, destination, target, span);
        }
        if str_equal(instance.crate_name.as_str(), "intrinsics") {
            // A direct call of an intrinsic of the target.
            let intrinsic = match named_intrinsic_of(instance.item_name.as_str()) {
                Some(op) => op,
                None => {
                    return Err(LowerError::new(span, ErrorKind::UnsupportedIntrinsic));
                },
            };
            self.translate_intrinsic_call(intrinsic, args, destination, target, span)
        } else if is_panic_fn(instance.path.as_str()) {
            // The call takes a message, which cannot be lowered and is left out.
            let r = TerminatorResult { stmts: Vec::new(), terminator: panic_terminator() };
            assert(statements_view(r.stmts@) =~= Seq::empty());
            Ok(r)
        } else {
            self.translate_fn_call(instance, args, destination, target, span)
        }
    }
}

impl FnCtxt {
    fn translate_cases(&self, branches: &Vec<(u128, usize)>, ty: IntType) -> (r: Result<
        Vec<(Int, BbName)>,
        ErrorKind,
    >)
        ensures
            match r {
                Ok(c) => lower_cases_from(self.env(), branches@, ty, 0) == Ok::<_, ErrorKind>(c@),
                Err(e) => lower_cases_from(self.env(), branches@, ty, 0) == Err::<
                    Seq<(Int, BbName)>,
                    _,
                >(e),
            },
    {
        let mut out: Vec<(Int, BbName)> = Vec::new();
        let mut i: usize = 0;
        let ghost env = self.env();
        proof {
            lemma_prepend_push(
                Seq::<(Int, BbName)>::empty(),
                arbitrary(),
                lower_cases_from(env, branches@, ty, 0),
            );
        }
        while i < branches.len()
            invariant
                i <= branches.len(),
                env == self.env(),
                lower_cases_from(env, branches@, ty, 0) == prepend(
                    out@,
                    lower_cases_from(env, branches@, ty, i as int),
                ),
            decreases branches.len() - i,
        {
            let value = match int_from_bits(branches[i].0, ty) {
                Ok(v) => v,
                Err(e) => {
                    return Err(e);
                },
            };
            let name = match self.bb_name(branches[i].1) {
                Ok(n) => n,
                Err(e) => {
                    return Err(e);
                },
            };
            proof {
                lemma_prepend_push(out@, (value, name), lower_cases_from(env, branches@, ty, i + 1));
            }
            out.push((value, name));
            i += 1;
        }
        proof {
            lemma_prepend_push(out@, arbitrary(), lower_cases_from(env, branches@, ty, i as int));
        }
        Ok(out)
    }

    fn translate_switch(&mut self, discr: &SrcOperand, targets: &SwitchTargets, span: Span) -> (r:
        Result<Terminator, LowerError>)
        requires
            old(self).wf(),
        ensures
            final(self).wf(),
            final(self).only_cache_grew(old(self)),
            crate::error::refines(r, lower_switch(old(self).env(), *discr, *targets), span),
    {
        let ty = match self.operand_ty(discr) {
            Ok(t) => t,
            Err(kind) => {
                return Err(LowerError::new(span, kind));
            },
        };
        let ty = match self.cx.translate_ty(ty, span) {
            Ok(t) => t,
            Err(e) => {
                return Err(e);
            },
        };
        let discr_op = match self.translate_operand(discr, span) {
            Ok(v) => v,
            Err(e) => {
                return Err(e);
            },
        };
        let (value, int_ty) = match ty {
            // The target switches on integers only, so a boolean is cast first.
            Type::Bool => (
                bool_to_int(discr_op),
                IntType {
                    signed: crate::ir::Signedness::Unsigned,
                    size: crate::ir::Size { bytes: 1 },
                },
            ),
            Type::Int(ity) => (discr_op, ity),
            _ => {
                return Err(LowerError::new(span, ErrorKind::UnsupportedSwitchType));
            },
        };
        let cases = match self.translate_cases(&targets.branches, int_ty) {
            Ok(c) => c,
            Err(kind) => {
                return Err(LowerError::new(span, kind));
            },
        };
        let fallback = match self.bb_name(targets.otherwise) {
            Ok(n) => n,
            Err(kind) => {
                return Err(LowerError::new(span, kind));
            },
        };
        Ok(Terminator::Switch { value, cases, fallback })
    }

    fn translate_assert(&mut self, cond: &SrcOperand, expected: bool, target: usize, span: Span) -> (r:
        Result<TerminatorResult, LowerError>)
        requires
            old(self).wf(),
        ensures
            final(self).wf(),
            final(self).same_fn(old(self)),
            blocks_kept(old(self).blocks_view(), final(self).blocks_view()),
            match r {
                Ok(t) => lower_assert(old(self).env(), old(self).state(), *cond, expected, target)
                    == Ok::<_, ErrorKind>((t@, final(self).state())),
                Err(e) => lower_assert(old(self).env(), old(self).state(), *cond, expected, target)
                    == Err::<(TerminatorResultView, State), _>(e.kind) && e.span == span,
            },
    {
        let mut condition = match self.translate_operand(cond, span) {
            Ok(v) => v,
            Err(e) => {
                return Err(e);
            },
        };
        // The condition is to equal `expected`: it is inverted where
        // `expected` is false, and then tested for being true.
        if !expected {
            condition = bool_not(condition);
        }
        // The block to go to where the condition does not hold.
        let panic_bb = match self.fresh_bb_name() {
            Ok(n) => n,
            Err(kind) => {
                return Err(LowerError::new(span, kind));
            },
        };
        let panic_block = BasicBlock { statements: Vec::new(), terminator: panic_terminator() };
        assert(statements_view(panic_block.statements@) =~= Seq::empty());
        match self.insert_block(panic_bb, panic_block) {
            Ok(()) => {},
            Err(kind) => {
                return Err(LowerError::new(span, kind));
            },
        }
        let next_block = match self.bb_name(target) {
            Ok(n) => n,
            Err(kind) => {
                return Err(LowerError::new(span, kind));
            },
        };
        let mut cases: Vec<(Int, BbName)> = Vec::new();
        cases.push((Int::NonNeg(1), next_block));
        assert(cases@ =~= seq![(Int::NonNeg(1), next_block)]);
        let r = TerminatorResult {
            stmts: Vec::new(),
            terminator: Terminator::Switch {
                value: bool_to_int(condition),
                cases,
                fallback: panic_bb,
            },
        };
        assert(statements_view(r.stmts@) =~= Seq::empty());
        Ok(r)
    }

    fn translate_drop(&mut self, place: &SrcPlace, target: usize, drop_fn: u64, span: Span) -> (r:
        Result<TerminatorResult, LowerError>)
        requires
            old(self).wf(),
        ensures
            final(self).wf(),
            final(self).same_blocks(old(self)),
            match r {
                Ok(t) => lower_drop(old(self).env(), old(self).names(), *place, target, drop_fn)
                    == Ok::<_, ErrorKind>((t@, final(self).names())),
                Err(e) => lower_drop(old(self).env(), old(self).names(), *place, target, drop_fn)
                    == Err::<(TerminatorResultView, Map<u64, FnName>), _>(e.kind) && e.span
                    == span,
            },
    {
        let place = match self.translate_place(place, span) {
            Ok(p) => p,
            Err(e) => {
                return Err(e);
            },
        };
        let ptr_to_drop = addr_of(place, PtrType::Raw);
        let next = match self.bb_name(target) {
            Ok(n) => n,
            Err(kind) => {
                return Err(LowerError::new(span, kind));
            },
        };
        let callee = fn_ptr(self.cx.get_fn_name(drop_fn));
        let mut arguments: Vec<ArgumentExpr> = Vec::new();
        let arg = ArgumentExpr::ByValue(ptr_to_drop);
        arguments.push(arg);
        assert(arguments_view(arguments@) =~= seq![arg@]);
        let r = TerminatorResult {
            stmts: Vec::new(),
            terminator: Terminator::Call {
                callee,
                calling_convention: CallingConvention::Rust,
                arguments,
                ret: zst_place(),
                next_block: Some(next),
            },
        };
        assert(statements_view(r.stmts@) =~= Seq::empty());
        Ok(r)
    }

    /// What `translate_terminator` owes for the result `r`, from the
    /// context `old` to the context `self`.
    pub open spec fn lowered_terminator(
        &self,
        old: &FnCtxt,
        term: SrcTerminator,
        r: Result<TerminatorResult, LowerError>,
    ) -> bool {
        match r {
            Ok(t) => lower_terminator(old.env(), old.state(), term) == Ok::<_, LowerError>(
                (t@, self.state()),
            ),
            Err(e) => lower_terminator(old.env(), old.state(), term) == Err::<
                (TerminatorResultView, State),
                _,
            >(e),
        }
    }

    /// Lowers a terminator: to a terminator, and statements to run before
    /// it. An assertion adds the block that panics; no block that was built
    /// before is changed.
    pub fn translate_terminator(&mut self, terminator: &SrcTerminator) -> (r: Result<
        TerminatorResult,
        LowerError,
    >)
        requires
            old(self).wf(),
        ensures
            final(self).wf(),
            final(self).same_fn(old(self)),
            blocks_kept(old(self).blocks_view(), final(self).blocks_view()),
            final(self).lowered_terminator(old(self), *terminator, r),
    {
        reveal(lower_terminator);
        let span = terminator.span;
        let terminator = match &terminator.kind {
            SrcTerminatorKind::Return => Terminator::Return,
            SrcTerminatorKind::Goto { target } => match self.bb_name(*target) {
                Ok(name) => Terminator::Goto(name),
                Err(kind) => {
                    return Err(LowerError::new(span, kind));
                },
            },
            SrcTerminatorKind::Call { func, args, destination, target } => {
                return self.translate_call(func, args, destination, target, span);
            },
            SrcTerminatorKind::SwitchInt { discr, targets } => match self.translate_switch(
                discr,
                targets,
                span,
            ) {
                Ok(t) => t,
                Err(e) => {
                    return Err(e);
                },
            },
            SrcTerminatorKind::Unreachable => Terminator::Unreachable,
            SrcTerminatorKind::Assert { cond, expected, target } => {
                return self.translate_assert(cond, *expected, *target, span);
            },
            SrcTerminatorKind::Drop { place, target, drop_fn } => {
                return self.translate_drop(place, *target, *drop_fn, span);
            },
            _ => {
                return Err(LowerError::new(span, ErrorKind::UnsupportedTerminator));
            },
        };
        let r = TerminatorResult { terminator, stmts: Vec::new() };
        assert(statements_view(r.stmts@) =~= Seq::empty());
        Ok(r)
    }

    /// What `translate_bb` owes for the result `r`, from the context `old`
    /// to the context `self`.
    pub open spec fn lowered_bb(
        &self,
        old: &FnCtxt,
        name: BbName,
        bb: SrcBasicBlock,
        r: Result<(), LowerError>,
    ) -> bool {
        match r {
            Ok(()) => lower_bb(old.env(), old.state(), name, bb) == Ok::<_, LowerError>(
                self.state(),
            ),
            Err(e) => lower_bb(old.env(), old.state(), name, bb) == Err::<State, _>(e),
        }
    }

    /// Lowers the source block `bb` and puts what it becomes among the
    /// blocks, the first under the name `name`.
    ///
    /// More than one block may be added, since some source statements
    /// become terminators. A block is only ever added under an unused
    /// name: no block that was built before is changed.
    pub fn translate_bb(&mut self, name: BbName, bb: &SrcBasicBlock) -> (r: Result<(), LowerError>)
        requires
            old(self).wf(),
        ensures
            final(self).wf(),
            final(self).same_fn(old(self)),
            blocks_kept(old(self).blocks_view(), final(self).blocks_view()),
            final(self).lowered_bb(old(self), name, *bb, r),
    {
        let mut cur_block_name = name;
        let mut cur_block_statements: Vec<Statement> = Vec::new();
        let ghost env = self.env();
        let ghost all = lower_bb(env, self.state(), name, *bb);
        let mut i: usize = 0;
        assert(statements_view(cur_block_statements@) =~= Seq::empty());
        while i < bb.statements.len()
            invariant
                i <= bb.statements.len(),
                self.wf(),
                self.same_fn(old(self)),
                env == old(self).env(),
                blocks_kept(old(self).blocks_view(), self.blocks_view()),
                all == lower_bb(env, old(self).state(), name, *bb),
                all == lower_bb_from(
                    env,
                    self.state(),
                    cur_block_name,
                    statements_view(cur_block_statements@),
                    bb.statements@,
                    i as int,
                    bb.terminator,
                ),
            decreases bb.statements.len() - i,
        {
            match self.translate_step(cur_block_name, cur_block_statements, &bb.statements[i]) {
                Ok((name, statements)) => {
                    cur_block_name = name;
                    cur_block_statements = statements;
                },
                Err(e) => {
                    return Err(e);
                },
            }
            i += 1;
        }
        self.translate_finish(cur_block_name, cur_block_statements, &bb.terminator)
    }

    /// Lowers one statement of a block that is being built under the name
    /// `cur` and holds the statements `acc`, and gives back the name and the
    /// statements of the block that is being built after it.
    fn translate_step(&mut self, cur: BbName, acc: Vec<Statement>, stmt: &SrcStatement) -> (r:
        Result<(BbName, Vec<Statement>), LowerError>)
        requires
            old(self).wf(),
        ensures
            final(self).wf(),
            final(self).same_fn(old(self)),
            blocks_kept(old(self).blocks_view(), final(self).blocks_view()),
            match r {
                Ok((name, statements)) => lower_step(
                    old(self).env(),
                    old(self).state(),
                    cur,
                    statements_view(acc@),
                    *stmt,
                ) == Ok::<_, LowerError>((final(self).state(), name, statements_view(statements@))),
                Err(e) => lower_step(
                    old(self).env(),
                    old(self).state(),
                    cur,
                    statements_view(acc@),
                    *stmt,
                ) == Err::<(State, BbName, Seq<StatementView>), _>(e),
            },
    {
        let mut acc = acc;
        let ghost before = statements_view(acc@);
        match self.translate_stmt(stmt) {
            Err(e) => Err(e),
            Ok(StatementResult::Statement(s)) => {
                assert(statements_view(acc@.push(s)) =~= before.push(s@));
                acc.push(s);
                Ok((cur, acc))
            },
            Ok(StatementResult::Intrinsic { intrinsic, destination, arguments }) => {
                // The block being built ends here, with a jump to a new block.
                let next_bb = match self.fresh_bb_name() {
                    Ok(n) => n,
                    Err(kind) => {
                        return Err(LowerError::new(stmt.span, kind));
                    },
                };
                let terminator = Terminator::Intrinsic {
                    intrinsic,
                    arguments,
                    ret: destination,
                    next_block: Some(next_bb),
                };
                let cur_block = BasicBlock { statements: acc, terminator };
                match self.insert_block(cur, cur_block) {
                    Ok(()) => {},
                    Err(kind) => {
                        return Err(LowerError::new(stmt.span, kind));
                    },
                }
                // What follows goes to the new block.
                let fresh: Vec<Statement> = Vec::new();
                assert(statements_view(fresh@) =~= Seq::empty());
                Ok((next_bb, fresh))
            },
        }
    }

    /// Lowers the terminator and completes the block that is being built
    /// under the name `cur` and holds the statements `acc`.
    fn translate_finish(&mut self, cur: BbName, acc: Vec<Statement>, term: &SrcTerminator) -> (r:
        Result<(), LowerError>)
        requires
            old(self).wf(),
        ensures
            final(self).wf(),
            final(self).same_fn(old(self)),
            blocks_kept(old(self).blocks_view(), final(self).blocks_view()),
            match r {
                Ok(()) => lower_finish(
                    old(self).env(),
                    old(self).state(),
                    cur,
                    statements_view(acc@),
                    *term,
                ) == Ok::<_, LowerError>(final(self).state()),
                Err(e) => lower_finish(
                    old(self).env(),
                    old(self).state(),
                    cur,
                    statements_view(acc@),
                    *term,
                ) == Err::<State, _>(e),
            },
    {
        let mut acc = acc;
        let ghost before = statements_view(acc@);
        let TerminatorResult { stmts, terminator } = match self.translate_terminator(term) {
            Ok(t) => t,
            Err(e) => {
                return Err(e);
            },
        };
        let ghost tail = statements_view(stmts@);
        let mut stmts = stmts;
        acc.append(&mut stmts);
        assert(statements_view(acc@) =~= before + tail);
        let cur_block = BasicBlock { statements: acc, terminator };
        match self.insert_block(cur, cur_block) {
            Ok(()) => Ok(()),
            Err(kind) => Err(LowerError::new(term.span, kind)),
        }
    }
}

} // verus!
