use minimize::bb::{is_panic_fn, StatementResult, TerminatorResult};
use minimize::ctxt::Ctxt;
use minimize::error::{ErrorKind, LowerError, Span};
use minimize::fn_ctxt::FnCtxt;
use minimize::ir::{
    Align, BbName, CallingConvention, FnName, Int, IntType, LocalName, PtrType, Signedness,
    Size, Type,
};
use minimize::source::{
    CastKind, ConstValue, Conv, Instance, IntClass, Layout, Projection, ProjectionElem,
    RetagKind, SrcArg, SrcBasicBlock, SrcBinOp, SrcCallee, SrcConst, SrcField, SrcOperand,
    SrcPlace, SrcRvalue, SrcStatement, SrcStatementKind, SrcTerminator, SrcTerminatorKind,
    SrcTy, SrcVariant, SwitchTargets, TagEncoding, TyKind, VariantsLayout,
};
use minimize::syntax::{
    ArgumentExpr, BasicBlock, BinOp, BoolUnOp, CastOp, Constant, IntBinOp, IntrinsicLockOp,
    IntrinsicOp, PlaceExpr, Statement, Terminator, UnOp, ValueExpr,
};

fn ty(kind: TyKind, size: u64, align: u64) -> SrcTy {
    SrcTy {
        kind,
        layout: Layout {
            sized: true,
            size,
            align,
            uninhabited: false,
            zero_valid: true,
            uninit_valid: true,
        },
        freeze: true,
    }
}

fn span(n: u32) -> Span {
    Span { lo: n, hi: n + 1 }
}

fn err<T>(at: u32, kind: ErrorKind) -> Result<T, LowerError> {
    Err(LowerError { span: span(at), kind })
}

fn ity(signed: bool, bytes: u64) -> Type {
    Type::Int(IntType {
        signed: if signed { Signedness::Signed } else { Signedness::Unsigned },
        size: Size { bytes },
    })
}

const BOOL: usize = 0;
const U8: usize = 1;
const I32: usize = 2;
const USIZE: usize = 3;
const OPTION: usize = 4;
const RAW: usize = 5;
const UNIT: usize = 6;
const NEVER: usize = 7;
const UNSIZED: usize = 8;
const ISIZE: usize = 9;

fn types() -> Vec<SrcTy> {
    let mut never = ty(TyKind::Never, 0, 1);
    never.layout.uninhabited = true;
    never.layout.zero_valid = false;
    never.layout.uninit_valid = false;
    let mut unsized_ty = ty(TyKind::Str, 0, 1);
    unsized_ty.layout.sized = false;
    vec![
        ty(TyKind::Bool, 1, 1),
        ty(TyKind::Uint { size: 1 }, 1, 1),
        ty(TyKind::Int { size: 4 }, 4, 4),
        ty(TyKind::Uint { size: 8 }, 8, 8),
        ty(
            TyKind::Enum {
                discr_ty: IntClass { size: 8, signed: true },
                variants: vec![
                    SrcVariant { discr: 0, fields: vec![] },
                    SrcVariant { discr: 1, fields: vec![SrcField { ty: BOOL, offset: 0 }] },
                ],
                layout: VariantsLayout::Multiple {
                    tag: IntClass { size: 1, signed: false },
                    tag_offset: 0,
                    encoding: TagEncoding::Niche {
                        untagged_variant: 1,
                        first_variant: 0,
                        last_variant: 0,
                        niche_start: 2,
                    },
                },
            },
            1,
            1,
        ),
        ty(TyKind::RawPtr { pointee: U8 }, 8, 8),
        ty(TyKind::Tuple { fields: vec![] }, 0, 1),
        never,
        unsized_ty,
        ty(TyKind::Int { size: 8 }, 8, 8),
    ]
}

/// Locals: 0 bool, 1 i32, 2 usize, 3 Option<bool>, 4 *const u8, 5 (), 6 isize.
/// Source blocks 0 to 3 are named 0 to 3; the next unused name is 4.
fn fcx() -> FnCtxt {
    let locals = vec![BOOL, I32, USIZE, OPTION, RAW, UNIT, ISIZE];
    FnCtxt::new(Ctxt::new(types(), None), locals, 4)
}

fn local(n: usize) -> SrcPlace {
    SrcPlace { local: n, projection: vec![] }
}

fn copy(n: usize) -> SrcOperand {
    SrcOperand::Copy(local(n))
}

fn konst(ty: usize, bits: u128) -> SrcOperand {
    SrcOperand::Constant(SrcConst { ty, value: ConstValue::Int(bits) })
}

fn stmt(at: u32, kind: SrcStatementKind) -> SrcStatement {
    SrcStatement { span: span(at), kind }
}

fn term(at: u32, kind: SrcTerminatorKind) -> SrcTerminator {
    SrcTerminator { span: span(at), kind }
}

fn assign(at: u32, to: usize, rv: SrcRvalue) -> SrcStatement {
    stmt(at, SrcStatementKind::Assign(local(to), rv))
}

fn target_local(n: u64) -> PlaceExpr {
    PlaceExpr::Local(LocalName(n))
}

fn loaded(n: u64) -> ValueExpr {
    ValueExpr::Load { source: Box::new(target_local(n)) }
}

fn lit(signed: bool, bytes: u64, value: Int) -> ValueExpr {
    ValueExpr::Constant(Constant::Int(value), ity(signed, bytes))
}

fn transmute(v: ValueExpr, ty: Type) -> ValueExpr {
    ValueExpr::UnOp { operator: UnOp::Cast(CastOp::Transmute(ty)), operand: Box::new(v) }
}

fn not(v: ValueExpr) -> ValueExpr {
    ValueExpr::UnOp { operator: UnOp::Bool(BoolUnOp::Not), operand: Box::new(v) }
}

fn unit_type() -> Type {
    Type::Tuple { fields: vec![], size: Size { bytes: 0 }, align: Align { bytes: 1 } }
}

fn zst_place() -> PlaceExpr {
    PlaceExpr::Deref {
        operand: Box::new(ValueExpr::Constant(
            Constant::PointerWithoutProvenance(Int::NonNeg(1)),
            Type::Ptr(PtrType::Raw),
        )),
        ty: unit_type(),
    }
}

fn panic_terminator() -> Terminator {
    Terminator::Intrinsic {
        intrinsic: IntrinsicOp::Panic,
        arguments: vec![],
        ret: zst_place(),
        next_block: None,
    }
}

fn only(terminator: Terminator) -> Result<TerminatorResult, LowerError> {
    Ok(TerminatorResult { stmts: vec![], terminator })
}

fn statement(s: Statement) -> Result<StatementResult, LowerError> {
    Ok(StatementResult::Statement(s))
}

fn instance(crate_name: &str, item_name: &str) -> Instance {
    Instance {
        id: 42,
        intrinsic: false,
        crate_name: crate_name.to_string(),
        item_name: item_name.to_string(),
        path: format!("{}::{}", crate_name, item_name),
        conv: Conv::Rust,
        type_arg: None,
    }
}

fn builtin(item_name: &str, type_arg: Option<usize>) -> Instance {
    Instance { intrinsic: true, type_arg, ..instance("core", item_name) }
}

fn arg(at: u32, node: SrcOperand) -> SrcArg {
    SrcArg { node, span: span(at) }
}

fn call(at: u32, inst: Instance, args: Vec<SrcArg>, to: usize, target: Option<usize>) -> SrcTerminator {
    term(
        at,
        SrcTerminatorKind::Call { func: SrcCallee::Item(inst), args, destination: local(to), target },
    )
}

fn block(statements: Vec<SrcStatement>, terminator: SrcTerminator) -> SrcBasicBlock {
    SrcBasicBlock { statements, terminator }
}

fn expose(at: u32, to: usize, from: usize) -> SrcStatement {
    assign(at, to, SrcRvalue::Cast(CastKind::PointerExposeProvenance, copy(from), USIZE))
}

#[test]
fn panic_entry_points_are_recognised() {
    assert!(is_panic_fn("core::panicking::panic"));
    assert!(is_panic_fn("core::panicking::panic_nounwind"));
    assert!(!is_panic_fn("core::panicking::panic_fmt"));
    assert!(!is_panic_fn("core::panicking::pani"));
    assert!(!is_panic_fn("panic"));
    assert!(!is_panic_fn(""));
}

#[test]
fn statements_become_statements() {
    let mut f = fcx();
    assert_eq!(
        f.translate_stmt(&assign(1, 1, SrcRvalue::Use(konst(I32, 5)))),
        statement(Statement::Assign {
            destination: target_local(1),
            source: lit(true, 4, Int::NonNeg(5)),
        })
    );
    assert_eq!(
        f.translate_stmt(&stmt(1, SrcStatementKind::StorageLive(2))),
        statement(Statement::StorageLive(LocalName(2)))
    );
    assert_eq!(
        f.translate_stmt(&stmt(1, SrcStatementKind::StorageDead(2))),
        statement(Statement::StorageDead(LocalName(2)))
    );
    assert_eq!(
        f.translate_stmt(&stmt(1, SrcStatementKind::Retag(RetagKind::FnEntry, local(4)))),
        statement(Statement::Validate { place: target_local(4), fn_entry: true })
    );
    for kind in [RetagKind::Default, RetagKind::Raw, RetagKind::TwoPhase] {
        assert_eq!(
            f.translate_stmt(&stmt(1, SrcStatementKind::Retag(kind, local(4)))),
            statement(Statement::Validate { place: target_local(4), fn_entry: false })
        );
    }
    assert_eq!(
        f.translate_stmt(&stmt(1, SrcStatementKind::Deinit(local(3)))),
        statement(Statement::Deinit { place: target_local(3) })
    );
    assert_eq!(
        f.translate_stmt(&stmt(1, SrcStatementKind::PlaceMention(local(3)))),
        statement(Statement::PlaceMention(target_local(3)))
    );
    assert_eq!(
        f.translate_stmt(&stmt(
            1,
            SrcStatementKind::SetDiscriminant { place: local(3), variant_index: 1 }
        )),
        statement(Statement::SetDiscriminant {
            destination: target_local(3),
            value: Int::NonNeg(1),
        })
    );
}

#[test]
fn statement_errors_are_located_at_the_statement() {
    let mut f = fcx();
    for kind in [
        SrcStatementKind::FakeRead,
        SrcStatementKind::CopyNonOverlapping,
        SrcStatementKind::Coverage,
        SrcStatementKind::Nop,
    ] {
        assert_eq!(f.translate_stmt(&stmt(7, kind)), err(7, ErrorKind::UnsupportedStatement));
    }
    assert_eq!(
        f.translate_stmt(&stmt(8, SrcStatementKind::StorageLive(70))),
        err(8, ErrorKind::UnknownLocal)
    );
    assert_eq!(
        f.translate_stmt(&stmt(
            9,
            SrcStatementKind::SetDiscriminant { place: local(3), variant_index: 5 }
        )),
        err(9, ErrorKind::UnknownVariant)
    );
    assert_eq!(
        f.translate_stmt(&assign(10, 1, SrcRvalue::ThreadLocalRef)),
        err(10, ErrorKind::UnsupportedRvalue)
    );
    // The destination is lowered before the value.
    assert_eq!(
        f.translate_stmt(&assign(11, 90, SrcRvalue::ThreadLocalRef)),
        err(11, ErrorKind::UnknownLocal)
    );
}

#[test]
fn the_discriminant_set_and_the_discriminant_asked_agree() {
    for variant in [0, 1] {
        let mut f = fcx();
        let set = f.translate_stmt(&stmt(
            1,
            SrcStatementKind::SetDiscriminant { place: local(3), variant_index: variant },
        ));
        let built = f.translate_rvalue(
            &SrcRvalue::Aggregate {
                kind: minimize::source::AggregateKind::Adt { variant, active_field: None },
                operands: if variant == 1 { vec![copy(0)] } else { vec![] },
                ty: OPTION,
            },
            span(1),
        );
        let down = f.translate_place(
            &SrcPlace {
                local: 3,
                projection: vec![Projection { elem: ProjectionElem::Downcast(variant), ty: OPTION }],
            },
            span(1),
        );
        let asked = f.cx.discriminant_for_variant(OPTION, variant, span(1));
        let expected = Int::NonNeg(variant as u128);
        assert_eq!(asked, Ok(expected));
        match (set, built, down) {
            (
                Ok(StatementResult::Statement(Statement::SetDiscriminant { value, .. })),
                Ok(ValueExpr::Variant { discriminant: built, enum_ty, .. }),
                Ok(PlaceExpr::Downcast { discriminant: down, .. }),
            ) => {
                assert_eq!(value, expected);
                assert_eq!(built, expected);
                assert_eq!(down, expected);
                // The enum type has a variant with this discriminant.
                match enum_ty {
                    Type::Enum { variants, .. } => {
                        assert!(variants.iter().any(|v| v.discriminant == expected))
                    }
                    other => panic!("not an enum: {:?}", other),
                }
            }
            other => panic!("unexpected: {:?}", other),
        }
    }
}

#[test]
fn exposing_provenance_is_an_intrinsic() {
    let mut f = fcx();
    assert_eq!(
        f.translate_stmt(&expose(1, 2, 4)),
        Ok(StatementResult::Intrinsic {
            intrinsic: IntrinsicOp::PointerExposeProvenance,
            destination: target_local(2),
            arguments: vec![loaded(4)],
        })
    );
    let back = assign(
        1,
        4,
        SrcRvalue::Cast(CastKind::PointerWithExposedProvenance, copy(2), RAW),
    );
    assert_eq!(
        f.translate_stmt(&back),
        Ok(StatementResult::Intrinsic {
            intrinsic: IntrinsicOp::PointerWithExposedProvenance,
            destination: target_local(4),
            arguments: vec![loaded(2)],
        })
    );
    assert_eq!(
        f.translate_stmt(&stmt(1, SrcStatementKind::Assume(copy(0)))),
        Ok(StatementResult::Intrinsic {
            intrinsic: IntrinsicOp::Assume,
            destination: zst_place(),
            arguments: vec![loaded(0)],
        })
    );
    assert!(f.blocks.is_empty());
}

#[test]
fn a_block_without_intrinsics_is_one_block() {
    let mut f = fcx();
    let bb = block(
        vec![
            stmt(1, SrcStatementKind::StorageLive(1)),
            assign(2, 1, SrcRvalue::Use(konst(I32, 3))),
        ],
        term(3, SrcTerminatorKind::Goto { target: 2 }),
    );
    assert_eq!(f.translate_bb(BbName(0), &bb), Ok(()));
    assert_eq!(f.blocks.len(), 1);
    assert_eq!(f.next_bb, 4);
    assert_eq!(
        f.blocks.get(&0),
        Some(&BasicBlock {
            statements: vec![
                Statement::StorageLive(LocalName(1)),
                Statement::Assign {
                    destination: target_local(1),
                    source: lit(true, 4, Int::NonNeg(3)),
                },
            ],
            terminator: Terminator::Goto(BbName(2)),
        })
    );
}

#[test]
fn an_intrinsic_splits_the_block_and_keeps_the_order() {
    let mut f = fcx();
    let bb = block(
        vec![
            stmt(1, SrcStatementKind::StorageLive(2)),
            expose(2, 2, 4),
            stmt(3, SrcStatementKind::StorageDead(2)),
        ],
        term(4, SrcTerminatorKind::Return),
    );
    assert_eq!(f.translate_bb(BbName(1), &bb), Ok(()));
    assert_eq!(f.blocks.len(), 2);
    assert_eq!(f.next_bb, 5);
    // The first block holds what came before the intrinsic, and ends in it.
    assert_eq!(
        f.blocks.get(&1),
        Some(&BasicBlock {
            statements: vec![Statement::StorageLive(LocalName(2))],
            terminator: Terminator::Intrinsic {
                intrinsic: IntrinsicOp::PointerExposeProvenance,
                arguments: vec![loaded(4)],
                ret: target_local(2),
                next_block: Some(BbName(4)),
            },
        })
    );
    // The new block holds what came after it, and the terminator.
    assert_eq!(
        f.blocks.get(&4),
        Some(&BasicBlock {
            statements: vec![Statement::StorageDead(LocalName(2))],
            terminator: Terminator::Return,
        })
    );
}

#[test]
fn exposing_provenance_is_no_assignment() {
    let mut f = fcx();
    let bb = block(
        vec![expose(1, 2, 4), assign(2, 1, SrcRvalue::Use(konst(I32, 1)))],
        term(3, SrcTerminatorKind::Unreachable),
    );
    assert_eq!(f.translate_bb(BbName(0), &bb), Ok(()));
    let first = f.blocks.get(&0).cloned();
    let second = f.blocks.get(&4).cloned();
    match (first, second) {
        (Some(first), Some(second)) => {
            assert!(first.statements.is_empty());
            match first.terminator {
                Terminator::Intrinsic { intrinsic, ret, next_block, arguments } => {
                    assert_eq!(intrinsic, IntrinsicOp::PointerExposeProvenance);
                    assert_eq!(ret, target_local(2));
                    assert_eq!(arguments, vec![loaded(4)]);
                    assert_eq!(next_block, Some(BbName(4)));
                }
                other => panic!("not an intrinsic: {:?}", other),
            }
            assert_eq!(
                second.statements,
                vec![Statement::Assign {
                    destination: target_local(1),
                    source: lit(true, 4, Int::NonNeg(1)),
                }]
            );
            assert_eq!(second.terminator, Terminator::Unreachable);
        }
        other => panic!("blocks are missing: {:?}", other),
    }
}

#[test]
fn several_intrinsics_give_several_blocks() {
    let mut f = fcx();
    let bb = block(
        vec![
            stmt(1, SrcStatementKind::Assume(copy(0))),
            stmt(2, SrcStatementKind::Assume(copy(0))),
            stmt(3, SrcStatementKind::StorageLive(1)),
            expose(4, 2, 4),
        ],
        term(5, SrcTerminatorKind::Goto { target: 3 }),
    );
    assert_eq!(f.translate_bb(BbName(2), &bb), Ok(()));
    assert_eq!(f.blocks.len(), 4);
    assert_eq!(f.next_bb, 7);
    let next = |name: u64| match f.blocks.get(&name) {
        Some(BasicBlock { terminator: Terminator::Intrinsic { next_block, .. }, .. }) => {
            *next_block
        }
        other => panic!("no intrinsic at {}: {:?}", name, other),
    };
    assert_eq!(next(2), Some(BbName(4)));
    assert_eq!(next(4), Some(BbName(5)));
    assert_eq!(next(5), Some(BbName(6)));
    assert_eq!(
        f.blocks.get(&5).map(|b| b.statements.clone()),
        Some(vec![Statement::StorageLive(LocalName(1))])
    );
    assert_eq!(
        f.blocks.get(&6),
        Some(&BasicBlock { statements: vec![], terminator: Terminator::Goto(BbName(3)) })
    );
}

#[test]
fn a_block_is_never_replaced() {
    let mut f = fcx();
    let first = block(vec![], term(1, SrcTerminatorKind::Return));
    let second = block(vec![], term(2, SrcTerminatorKind::Unreachable));
    assert_eq!(f.translate_bb(BbName(0), &first), Ok(()));
    assert_eq!(f.translate_bb(BbName(0), &second), err(2, ErrorKind::DuplicateBlock));
    assert_eq!(f.blocks.len(), 1);
    assert_eq!(
        f.blocks.get(&0),
        Some(&BasicBlock { statements: vec![], terminator: Terminator::Return })
    );
    // Neither at a split: the block that the split completes has a taken name.
    let split = block(vec![expose(3, 2, 4)], term(4, SrcTerminatorKind::Return));
    assert_eq!(f.translate_bb(BbName(0), &split), err(3, ErrorKind::DuplicateBlock));
    assert_eq!(
        f.blocks.get(&0),
        Some(&BasicBlock { statements: vec![], terminator: Terminator::Return })
    );
    // A name that was not handed out collides with the new block of a split.
    let mut f = fcx();
    assert_eq!(f.translate_bb(BbName(4), &split), err(4, ErrorKind::DuplicateBlock));
    assert_eq!(f.insert_block(BbName(9), BasicBlock { statements: vec![], terminator: Terminator::Return }), Ok(()));
    assert_eq!(
        f.insert_block(BbName(9), BasicBlock { statements: vec![], terminator: Terminator::Unreachable }),
        Err(ErrorKind::DuplicateBlock)
    );
    assert_eq!(f.blocks.get(&9).map(|b| b.terminator.clone()), Some(Terminator::Return));
}

#[test]
fn names_run_out() {
    let mut f = fcx();
    f.next_bb = u64::MAX - 1;
    assert_eq!(f.fresh_bb_name(), Ok(BbName(u64::MAX - 1)));
    assert_eq!(f.fresh_bb_name(), Err(ErrorKind::NamesExhausted));
    assert_eq!(f.next_bb, u64::MAX);
    let split = block(vec![expose(3, 2, 4)], term(4, SrcTerminatorKind::Return));
    assert_eq!(f.translate_bb(BbName(0), &split), err(3, ErrorKind::NamesExhausted));
    let assert = term(5, SrcTerminatorKind::Assert { cond: copy(0), expected: true, target: 1 });
    assert_eq!(f.translate_terminator(&assert), err(5, ErrorKind::NamesExhausted));
    assert!(f.blocks.is_empty());
}

#[test]
fn simple_terminators() {
    let mut f = fcx();
    assert_eq!(f.translate_terminator(&term(1, SrcTerminatorKind::Return)), only(Terminator::Return));
    assert_eq!(
        f.translate_terminator(&term(1, SrcTerminatorKind::Unreachable)),
        only(Terminator::Unreachable)
    );
    assert_eq!(
        f.translate_terminator(&term(1, SrcTerminatorKind::Goto { target: 3 })),
        only(Terminator::Goto(BbName(3)))
    );
    assert_eq!(
        f.translate_terminator(&term(2, SrcTerminatorKind::Goto { target: 4 })),
        err(2, ErrorKind::UnknownBlock)
    );
    for kind in [
        SrcTerminatorKind::UnwindResume,
        SrcTerminatorKind::UnwindTerminate,
        SrcTerminatorKind::InlineAsm,
        SrcTerminatorKind::Other,
    ] {
        assert_eq!(f.translate_terminator(&term(3, kind)), err(3, ErrorKind::UnsupportedTerminator));
    }
    assert_eq!(f.bb_name(2), Ok(BbName(2)));
    assert_eq!(f.bb_name(4), Err(ErrorKind::UnknownBlock));
}

#[test]
fn an_assertion_is_a_switch_with_a_panic_block() {
    let mut f = fcx();
    let assert = term(1, SrcTerminatorKind::Assert { cond: copy(0), expected: true, target: 2 });
    assert_eq!(
        f.translate_terminator(&assert),
        only(Terminator::Switch {
            value: transmute(loaded(0), ity(false, 1)),
            cases: vec![(Int::NonNeg(1), BbName(2))],
            fallback: BbName(4),
        })
    );
    assert_eq!(f.next_bb, 5);
    assert_eq!(f.blocks.len(), 1);
    assert_eq!(
        f.blocks.get(&4),
        Some(&BasicBlock { statements: vec![], terminator: panic_terminator() })
    );
    // Where the condition is expected to be false, it is negated first.
    let refute = term(2, SrcTerminatorKind::Assert { cond: copy(0), expected: false, target: 3 });
    assert_eq!(
        f.translate_terminator(&refute),
        only(Terminator::Switch {
            value: transmute(not(loaded(0)), ity(false, 1)),
            cases: vec![(Int::NonNeg(1), BbName(3))],
            fallback: BbName(5),
        })
    );
    assert_eq!(
        f.blocks.get(&5),
        Some(&BasicBlock { statements: vec![], terminator: panic_terminator() })
    );
    let lost = term(3, SrcTerminatorKind::Assert { cond: copy(0), expected: true, target: 9 });
    assert_eq!(f.translate_terminator(&lost), err(3, ErrorKind::UnknownBlock));
}

#[test]
fn an_assertion_in_a_block() {
    let mut f = fcx();
    let bb = block(
        vec![stmt(1, SrcStatementKind::StorageLive(0))],
        term(2, SrcTerminatorKind::Assert { cond: copy(0), expected: true, target: 1 }),
    );
    assert_eq!(f.translate_bb(BbName(0), &bb), Ok(()));
    assert_eq!(f.blocks.len(), 2);
    assert_eq!(
        f.blocks.get(&0),
        Some(&BasicBlock {
            statements: vec![Statement::StorageLive(LocalName(0))],
            terminator: Terminator::Switch {
                value: transmute(loaded(0), ity(false, 1)),
                cases: vec![(Int::NonNeg(1), BbName(1))],
                fallback: BbName(4),
            },
        })
    );
    assert_eq!(
        f.blocks.get(&4),
        Some(&BasicBlock { statements: vec![], terminator: panic_terminator() })
    );
}

#[test]
fn a_switch_on_a_boolean_switches_on_a_byte() {
    let mut f = fcx();
    let switch = term(
        1,
        SrcTerminatorKind::SwitchInt {
            discr: copy(0),
            targets: SwitchTargets { branches: vec![(0, 1)], otherwise: 2 },
        },
    );
    match f.translate_terminator(&switch) {
        Ok(TerminatorResult { stmts, terminator: Terminator::Switch { value, cases, fallback } }) => {
            assert!(stmts.is_empty());
            assert_eq!(value, transmute(loaded(0), ity(false, 1)));
            assert_ne!(value, loaded(0));
            assert_eq!(cases, vec![(Int::NonNeg(0), BbName(1))]);
            assert_eq!(fallback, BbName(2));
        }
        other => panic!("not a switch: {:?}", other),
    }
    assert!(f.blocks.is_empty());
}

#[test]
fn a_switch_on_an_integer_reads_the_values_in_its_type() {
    let mut f = fcx();
    let switch = |discr, branches| {
        term(
            1,
            SrcTerminatorKind::SwitchInt { discr, targets: SwitchTargets { branches, otherwise: 0 } },
        )
    };
    assert_eq!(
        f.translate_terminator(&switch(copy(1), vec![(0xffff_ffff, 1), (7, 2), (0x8000_0000, 3)])),
        only(Terminator::Switch {
            value: loaded(1),
            cases: vec![
                (Int::Neg(0), BbName(1)),
                (Int::NonNeg(7), BbName(2)),
                (Int::Neg(0x7fff_ffff), BbName(3)),
            ],
            fallback: BbName(0),
        })
    );
    assert_eq!(
        f.translate_terminator(&switch(copy(2), vec![(0xffff_ffff, 1)])),
        only(Terminator::Switch {
            value: loaded(2),
            cases: vec![(Int::NonNeg(0xffff_ffff), BbName(1))],
            fallback: BbName(0),
        })
    );
    assert_eq!(
        f.translate_terminator(&switch(copy(4), vec![])),
        err(1, ErrorKind::UnsupportedSwitchType)
    );
    assert_eq!(
        f.translate_terminator(&switch(copy(1), vec![(1, 1), (2, 8)])),
        err(1, ErrorKind::UnknownBlock)
    );
}

#[test]
fn a_match_on_an_option() {
    // _2 = discriminant(_3); switchInt(move _2) -> [0: bb1, 1: bb2, otherwise: bb3]
    let mut f = fcx();
    let entry = block(
        vec![assign(1, 6, SrcRvalue::Discriminant(local(3)))],
        term(
            2,
            SrcTerminatorKind::SwitchInt {
                discr: SrcOperand::Move(local(6)),
                targets: SwitchTargets { branches: vec![(0, 1), (1, 2)], otherwise: 3 },
            },
        ),
    );
    let unreachable = block(vec![], term(3, SrcTerminatorKind::Unreachable));
    assert_eq!(f.translate_bb(BbName(0), &entry), Ok(()));
    assert_eq!(f.translate_bb(BbName(3), &unreachable), Ok(()));
    assert_eq!(
        f.blocks.get(&0),
        Some(&BasicBlock {
            statements: vec![Statement::Assign {
                destination: target_local(6),
                source: ValueExpr::GetDiscriminant { place: Box::new(target_local(3)) },
            }],
            terminator: Terminator::Switch {
                value: loaded(6),
                cases: vec![(Int::NonNeg(0), BbName(1)), (Int::NonNeg(1), BbName(2))],
                fallback: BbName(3),
            },
        })
    );
    // One case for each variant of the enum, and a fallback that is never reached.
    let discriminants: Vec<Int> = match f.cx.translate_ty(OPTION, span(0)) {
        Ok(Type::Enum { variants, .. }) => variants.iter().map(|v| v.discriminant).collect(),
        other => panic!("not an enum: {:?}", other),
    };
    assert_eq!(discriminants, vec![Int::NonNeg(0), Int::NonNeg(1)]);
    assert_eq!(
        f.blocks.get(&3),
        Some(&BasicBlock { statements: vec![], terminator: Terminator::Unreachable })
    );
}

#[test]
fn a_drop_calls_the_destructor() {
    let mut f = fcx();
    let drop = term(1, SrcTerminatorKind::Drop { place: local(3), target: 2, drop_fn: 900 });
    let expected = |name| {
        only(Terminator::Call {
            callee: ValueExpr::Constant(Constant::FnPointer(FnName(name)), Type::Ptr(PtrType::FnPtr)),
            calling_convention: CallingConvention::Rust,
            arguments: vec![ArgumentExpr::ByValue(ValueExpr::AddrOf {
                target: Box::new(target_local(3)),
                ptr_ty: PtrType::Raw,
            })],
            ret: zst_place(),
            next_block: Some(BbName(2)),
        })
    };
    assert_eq!(f.translate_terminator(&drop), expected(0));
    assert_eq!(f.cx.get_fn_name(5), FnName(1));
    assert_eq!(f.translate_terminator(&drop), expected(0));
}

#[test]
fn named_intrinsics() {
    let names = [
        ("print", IntrinsicOp::PrintStdout),
        ("eprint", IntrinsicOp::PrintStderr),
        ("exit", IntrinsicOp::Exit),
        ("panic", IntrinsicOp::Panic),
        ("allocate", IntrinsicOp::Allocate),
        ("deallocate", IntrinsicOp::Deallocate),
        ("spawn", IntrinsicOp::Spawn),
        ("join", IntrinsicOp::Join),
        ("create_lock", IntrinsicOp::Lock(IntrinsicLockOp::Create)),
        ("acquire", IntrinsicOp::Lock(IntrinsicLockOp::Acquire)),
        ("release", IntrinsicOp::Lock(IntrinsicLockOp::Release)),
        ("atomic_store", IntrinsicOp::AtomicStore),
        ("atomic_load", IntrinsicOp::AtomicLoad),
        ("compare_exchange", IntrinsicOp::AtomicCompareExchange),
        ("atomic_fetch_add", IntrinsicOp::AtomicFetchAndOp(IntBinOp::Add)),
        ("atomic_fetch_sub", IntrinsicOp::AtomicFetchAndOp(IntBinOp::Sub)),
    ];
    let mut f = fcx();
    for (name, intrinsic) in names {
        let t = call(
            1,
            instance("intrinsics", name),
            vec![arg(2, copy(1)), arg(3, SrcOperand::Move(local(2)))],
            5,
            Some(1),
        );
        assert_eq!(
            f.translate_terminator(&t),
            only(Terminator::Intrinsic {
                intrinsic,
                arguments: vec![loaded(1), loaded(2)],
                ret: target_local(5),
                next_block: Some(BbName(1)),
            })
        );
    }
    let t = call(1, instance("intrinsics", "exit"), vec![], 5, None);
    assert_eq!(
        f.translate_terminator(&t),
        only(Terminator::Intrinsic {
            intrinsic: IntrinsicOp::Exit,
            arguments: vec![],
            ret: target_local(5),
            next_block: None,
        })
    );
    let t = call(4, instance("intrinsics", "launch"), vec![], 5, None);
    assert_eq!(f.translate_terminator(&t), err(4, ErrorKind::UnsupportedIntrinsic));
    // The same name in another crate is an ordinary function.
    let t = call(4, instance("mine", "print"), vec![], 5, None);
    assert!(matches!(
        f.translate_terminator(&t),
        Ok(TerminatorResult { terminator: Terminator::Call { .. }, .. })
    ));
    assert!(f.cx.fn_name_map.contains_key(&42));
}

#[test]
fn an_argument_error_is_located_at_the_argument() {
    let mut f = fcx();
    let t = call(
        1,
        instance("intrinsics", "print"),
        vec![arg(2, copy(1)), arg(3, copy(77))],
        5,
        Some(1),
    );
    assert_eq!(f.translate_terminator(&t), err(3, ErrorKind::UnknownLocal));
    let t = call(1, instance("mine", "f"), vec![arg(2, copy(1)), arg(3, copy(77))], 5, Some(1));
    assert_eq!(f.translate_terminator(&t), err(3, ErrorKind::UnknownLocal));
    let t = call(1, instance("mine", "f"), vec![arg(2, copy(1))], 55, Some(1));
    assert_eq!(f.translate_terminator(&t), err(1, ErrorKind::UnknownLocal));
    let t = call(1, instance("mine", "f"), vec![arg(2, copy(1))], 5, Some(11));
    assert_eq!(f.translate_terminator(&t), err(1, ErrorKind::UnknownBlock));
}

#[test]
fn calls_of_the_panic_entry_points_lose_their_message() {
    let mut f = fcx();
    for path in ["core::panicking::panic", "core::panicking::panic_nounwind"] {
        let inst = Instance { path: path.to_string(), ..instance("core", "panic") };
        let t = call(1, inst, vec![arg(2, copy(77))], 5, None);
        assert_eq!(f.translate_terminator(&t), only(panic_terminator()));
    }
    assert!(f.cx.fn_name_map.is_empty());
}

#[test]
fn ordinary_calls() {
    let mut f = fcx();
    let t = call(
        1,
        Instance { conv: Conv::C, ..instance("mine", "f") },
        vec![arg(2, SrcOperand::Move(local(3))), arg(3, copy(1)), arg(4, konst(U8, 2))],
        5,
        Some(3),
    );
    assert_eq!(
        f.translate_terminator(&t),
        only(Terminator::Call {
            callee: ValueExpr::Constant(Constant::FnPointer(FnName(0)), Type::Ptr(PtrType::FnPtr)),
            calling_convention: CallingConvention::C,
            arguments: vec![
                ArgumentExpr::InPlace(target_local(3)),
                ArgumentExpr::ByValue(loaded(1)),
                ArgumentExpr::ByValue(lit(false, 1, Int::NonNeg(2))),
            ],
            ret: target_local(5),
            next_block: Some(BbName(3)),
        })
    );
    let t = call(6, Instance { conv: Conv::Other, ..instance("mine", "f") }, vec![], 5, None);
    assert_eq!(f.translate_terminator(&t), err(6, ErrorKind::UnsupportedCallingConvention));
    let through_pointer = term(
        7,
        SrcTerminatorKind::Call {
            func: SrcCallee::Pointer(copy(4)),
            args: vec![],
            destination: local(5),
            target: None,
        },
    );
    assert_eq!(f.translate_terminator(&through_pointer), err(7, ErrorKind::UnsupportedCallee));
    assert_eq!(
        f.translate_call(&SrcCallee::Pointer(copy(4)), &vec![], &local(5), &None, span(8)),
        err(8, ErrorKind::UnsupportedCallee)
    );
}

#[test]
fn validity_assertions_are_decided_when_lowering() {
    let mut f = fcx();
    for name in ["assert_inhabited", "assert_zero_valid", "assert_mem_uninitialized_valid"] {
        let holds = call(1, builtin(name, Some(I32)), vec![], 5, Some(2));
        assert_eq!(f.translate_terminator(&holds), only(Terminator::Goto(BbName(2))));
        let fails = call(1, builtin(name, Some(NEVER)), vec![], 5, Some(2));
        assert_eq!(f.translate_terminator(&fails), only(panic_terminator()));
        let fails = call(1, builtin(name, Some(NEVER)), vec![], 5, None);
        assert_eq!(f.translate_terminator(&fails), only(panic_terminator()));
        let nowhere = call(1, builtin(name, Some(I32)), vec![], 5, None);
        assert_eq!(f.translate_terminator(&nowhere), err(1, ErrorKind::MissingTarget));
        let untyped = call(1, builtin(name, None), vec![], 5, Some(2));
        assert_eq!(f.translate_terminator(&untyped), err(1, ErrorKind::MissingArgument));
    }
    // Each assertion has its own requirement.
    let mut types = types();
    types[I32].layout.zero_valid = false;
    let mut f = FnCtxt::new(Ctxt::new(types, None), vec![], 3);
    let ask = |name| call(1, builtin(name, Some(I32)), vec![], 0, Some(2));
    assert_eq!(f.translate_terminator(&ask("assert_inhabited")), only(Terminator::Goto(BbName(2))));
    assert_eq!(f.translate_terminator(&ask("assert_zero_valid")), only(panic_terminator()));
    assert_eq!(
        f.translate_terminator(&ask("assert_mem_uninitialized_valid")),
        only(Terminator::Goto(BbName(2)))
    );
}

#[test]
fn built_ins_that_become_assignments() {
    let mut f = fcx();
    let assigned = |source| {
        Ok(TerminatorResult {
            stmts: vec![Statement::Assign { destination: target_local(2), source }],
            terminator: Terminator::Goto(BbName(1)),
        })
    };
    let args = || vec![arg(8, copy(4)), arg(9, copy(6))];
    let t = call(1, builtin("arith_offset", None), args(), 2, Some(1));
    assert_eq!(
        f.translate_terminator(&t),
        assigned(ValueExpr::BinOp {
            operator: BinOp::PtrOffset { inbounds: false },
            left: Box::new(loaded(4)),
            right: Box::new(loaded(6)),
        })
    );
    let t = call(1, builtin("size_of_val", Some(I32)), args(), 2, Some(1));
    assert_eq!(f.translate_terminator(&t), assigned(lit(false, 8, Int::NonNeg(4))));
    let t = call(1, builtin("min_align_of_val", Some(USIZE)), args(), 2, Some(1));
    assert_eq!(f.translate_terminator(&t), assigned(lit(false, 8, Int::NonNeg(8))));
    for name in ["likely", "unlikely"] {
        let t = call(1, builtin(name, None), vec![arg(8, copy(0))], 2, Some(1));
        assert_eq!(f.translate_terminator(&t), assigned(loaded(0)));
    }
    let t = call(1, builtin("raw_eq", None), args(), 0, Some(1));
    assert_eq!(
        f.translate_terminator(&t),
        only(Terminator::Intrinsic {
            intrinsic: IntrinsicOp::RawEq,
            arguments: vec![loaded(4), loaded(6)],
            ret: target_local(0),
            next_block: Some(BbName(1)),
        })
    );
    assert_eq!(
        f.translate_rs_intrinsic(&builtin("likely", None), &vec![arg(8, copy(0))], &local(2), &Some(1), span(1)),
        assigned(loaded(0))
    );
}

#[test]
fn built_in_errors() {
    let mut f = fcx();
    let t = call(1, builtin("transmute", None), vec![], 2, Some(1));
    assert_eq!(f.translate_terminator(&t), err(1, ErrorKind::UnsupportedIntrinsic));
    // A built-in is a built-in whatever crate it is in.
    let t = call(1, Instance { intrinsic: true, ..instance("intrinsics", "print") }, vec![], 2, None);
    assert_eq!(f.translate_terminator(&t), err(1, ErrorKind::UnsupportedIntrinsic));
    let t = call(1, builtin("arith_offset", None), vec![arg(8, copy(4))], 2, Some(1));
    assert_eq!(f.translate_terminator(&t), err(1, ErrorKind::MissingArgument));
    let t = call(1, builtin("likely", None), vec![], 2, Some(1));
    assert_eq!(f.translate_terminator(&t), err(1, ErrorKind::MissingArgument));
    let t = call(1, builtin("likely", None), vec![arg(8, copy(0))], 2, None);
    assert_eq!(f.translate_terminator(&t), err(1, ErrorKind::MissingTarget));
    let t = call(1, builtin("size_of_val", Some(UNSIZED)), vec![], 2, Some(1));
    assert_eq!(f.translate_terminator(&t), err(1, ErrorKind::UnsizedPointee));
    let t = call(1, builtin("size_of_val", Some(99)), vec![], 2, Some(1));
    assert_eq!(f.translate_terminator(&t), err(1, ErrorKind::UnknownType));
    let t = call(1, builtin("min_align_of_val", None), vec![], 2, Some(1));
    assert_eq!(f.translate_terminator(&t), err(1, ErrorKind::MissingArgument));
    // The argument of these built-ins is located at the call.
    let t = call(1, builtin("likely", None), vec![arg(8, copy(70))], 2, Some(1));
    assert_eq!(f.translate_terminator(&t), err(1, ErrorKind::UnknownLocal));
}

#[test]
fn a_built_in_in_a_block() {
    let mut f = fcx();
    let bb = block(
        vec![stmt(1, SrcStatementKind::StorageLive(2))],
        call(2, builtin("size_of_val", Some(U8)), vec![], 2, Some(3)),
    );
    assert_eq!(f.translate_bb(BbName(1), &bb), Ok(()));
    assert_eq!(
        f.blocks.get(&1),
        Some(&BasicBlock {
            statements: vec![
                Statement::StorageLive(LocalName(2)),
                Statement::Assign {
                    destination: target_local(2),
                    source: lit(false, 8, Int::NonNeg(1)),
                },
            ],
            terminator: Terminator::Goto(BbName(3)),
        })
    );
}

#[test]
fn an_error_in_a_block_is_the_first_error() {
    let mut f = fcx();
    let bb = block(
        vec![
            stmt(1, SrcStatementKind::StorageLive(2)),
            stmt(2, SrcStatementKind::Nop),
            stmt(3, SrcStatementKind::StorageLive(200)),
        ],
        term(4, SrcTerminatorKind::Other),
    );
    assert_eq!(f.translate_bb(BbName(1), &bb), err(2, ErrorKind::UnsupportedStatement));
    let bb = block(
        vec![stmt(1, SrcStatementKind::StorageLive(2))],
        term(4, SrcTerminatorKind::Other),
    );
    assert_eq!(f.translate_bb(BbName(1), &bb), err(4, ErrorKind::UnsupportedTerminator));
    assert!(f.blocks.is_empty());
    let _ = SrcBinOp::Add;
}
