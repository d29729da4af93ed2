//! The source representation as the lowering reads it: types with the layout
//! facts that the front end computed for them, and typed control-flow graphs.
//!
//! Types live in a table and refer to each other by index. A type that holds
//! another by value comes after it in the table, so that the by-value
//! structure of every type is finite; a pointer may point to any entry.
use crate::error::Span;
use vstd::prelude::*;

verus! {

/// The index of a type in the type table.
pub type TyId = usize;

/// What the layout algorithm found for a type.
#[derive(Clone, Copy, Debug, PartialEq, Eq, Structural)]
pub struct Layout {
    /// Whether the size is statically known.
    pub sized: bool,
    /// Size in bytes.
    pub size: u64,
    /// Alignment in bytes.
    pub align: u64,
    /// Whether the type has no values.
    pub uninhabited: bool,
    /// Whether the all-zero bit pattern is a valid value.
    pub zero_valid: bool,
    /// Whether memory filled with an arbitrary byte pattern is a valid value.
    pub uninit_valid: bool,
}

/// The integer class that the layout algorithm assigned: width and signedness.
#[derive(Clone, Copy, Debug, PartialEq, Eq, Structural)]
pub struct IntClass {
    pub size: u64,
    pub signed: bool,
}

#[derive(Clone, Copy, Debug, PartialEq, Eq, Structural)]
pub struct SrcField {
    pub ty: TyId,
    /// Byte offset of the field, from the layout's field-offset table.
    pub offset: u64,
}

#[derive(Clone, Debug, PartialEq, Eq)]
pub struct SrcVariant {
    /// The bits of the variant's discriminant, to be read in the enum's discriminant type.
    pub discr: u128,
    pub fields: Vec<SrcField>,
}

#[derive(Clone, Copy, Debug, PartialEq, Eq, Structural)]
pub enum TagEncoding {
    /// The tag holds the discriminant.
    Direct,
    /// The variants `first_variant ..= last_variant`, but for `untagged_variant`,
    /// are encoded in bit patterns that are invalid for a field of the
    /// untagged variant: variant `v` as `niche_start + (v - first_variant)`,
    /// wrapping in the tag's width.
    Niche { untagged_variant: usize, first_variant: usize, last_variant: usize, niche_start: u128 },
}

#[derive(Clone, Copy, Debug, PartialEq, Eq, Structural)]
pub enum VariantsLayout {
    /// Only this variant has values; nothing is stored to tell it apart.
    Single { index: usize },
    Multiple { tag: IntClass, tag_offset: u64, encoding: TagEncoding },
}

#[derive(Clone, Copy, Debug, PartialEq, Eq, Structural)]
pub enum SrcMutability {
    Not,
    Mut,
}

#[derive(Clone, Debug, PartialEq, Eq)]
pub enum TyKind {
    Bool,
    Int { size: u64 },
    Uint { size: u64 },
    Tuple { fields: Vec<SrcField> },
    Boxed { pointee: TyId },
    Struct { fields: Vec<SrcField> },
    Union { fields: Vec<SrcField> },
    Enum { discr_ty: IntClass, variants: Vec<SrcVariant>, layout: VariantsLayout },
    Ref { pointee: TyId, mutbl: SrcMutability },
    RawPtr { pointee: TyId },
    Array { elem: TyId, count: u64 },
    FnPtr,
    Never,
    Char,
    Float,
    Str,
    Slice { elem: TyId },
    Other,
}

#[derive(Clone, Debug, PartialEq, Eq)]
pub struct SrcTy {
    pub kind: TyKind,
    pub layout: Layout,
    /// Whether the type has no interior mutability.
    pub freeze: bool,
}

#[derive(Clone, Copy, Debug, PartialEq, Eq, Structural)]
pub enum ProjectionElem {
    Deref,
    Field(usize),
    /// Index by the current value of a local.
    Index(usize),
    Downcast(usize),
    ConstantIndex,
    Subslice,
    OpaqueCast,
}

/// One step of a place, with the type of the place that the step leads to.
#[derive(Clone, Copy, Debug, PartialEq, Eq, Structural)]
pub struct Projection {
    pub elem: ProjectionElem,
    pub ty: TyId,
}

#[derive(Clone, Debug, PartialEq, Eq)]
pub struct SrcPlace {
    pub local: usize,
    pub projection: Vec<Projection>,
}

#[derive(Clone, Copy, Debug, PartialEq, Eq, Structural)]
pub enum ConstValue {
    /// The bits of an integer, to be read in the constant's type.
    Int(u128),
    Bool(bool),
    /// The zero-sized value that names a function.
    FnItem(u64),
    Other,
}

#[derive(Clone, Copy, Debug, PartialEq, Eq, Structural)]
pub struct SrcConst {
    pub ty: TyId,
    pub value: ConstValue,
}

#[derive(Clone, Debug, PartialEq, Eq)]
pub enum SrcOperand {
    Copy(SrcPlace),
    Move(SrcPlace),
    Constant(SrcConst),
}

#[derive(Clone, Copy, Debug, PartialEq, Eq, Structural)]
pub enum SrcBinOp {
    Add,
    AddUnchecked,
    Sub,
    SubUnchecked,
    Mul,
    MulUnchecked,
    Div,
    Rem,
    BitXor,
    BitAnd,
    BitOr,
    Shl,
    ShlUnchecked,
    Shr,
    ShrUnchecked,
    Eq,
    Lt,
    Le,
    Ne,
    Ge,
    Gt,
    Cmp,
    Offset,
}

#[derive(Clone, Copy, Debug, PartialEq, Eq, Structural)]
pub enum SrcUnOp {
    Not,
    Neg,
    PtrMetadata,
}

#[derive(Clone, Copy, Debug, PartialEq, Eq, Structural)]
pub enum BorrowKind {
    Shared,
    Fake,
    Mut,
}

#[derive(Clone, Copy, Debug, PartialEq, Eq, Structural)]
pub enum PointerCoercion {
    ReifyFnPointer,
    UnsafeFnPointer,
    ClosureFnPointer,
    MutToConstPointer,
    ArrayToPointer,
    Unsize,
}

#[derive(Clone, Copy, Debug, PartialEq, Eq, Structural)]
pub enum CastKind {
    PointerExposeProvenance,
    PointerWithExposedProvenance,
    PointerCoercion(PointerCoercion),
    IntToInt,
    FloatToInt,
    FloatToFloat,
    IntToFloat,
    PtrToPtr,
    FnPtrToPtr,
    Transmute,
    DynStar,
}

#[derive(Clone, Copy, Debug, PartialEq, Eq, Structural)]
pub enum AggregateKind {
    Array,
    Tuple,
    /// A struct, a union (where `active_field` says which field is written)
    /// or the variant `variant` of an enum.
    Adt { variant: usize, active_field: Option<usize> },
    Closure,
    Coroutine,
    RawPtr,
}

#[derive(Clone, Copy, Debug, PartialEq, Eq, Structural)]
pub enum NullOp {
    SizeOf,
    AlignOf,
    OffsetOf,
    UbChecks,
}

#[derive(Clone, Debug, PartialEq, Eq)]
pub enum SrcRvalue {
    Use(SrcOperand),
    BinaryOp(SrcBinOp, SrcOperand, SrcOperand),
    CheckedBinaryOp(SrcBinOp, SrcOperand, SrcOperand),
    UnaryOp(SrcUnOp, SrcOperand),
    Ref(BorrowKind, SrcPlace),
    AddressOf(SrcMutability, SrcPlace),
    /// `ty` is the type of the value that is built.
    Aggregate { kind: AggregateKind, operands: Vec<SrcOperand>, ty: TyId },
    CopyForDeref(SrcPlace),
    Len(SrcPlace),
    Discriminant(SrcPlace),
    Repeat(SrcOperand, u64),
    Cast(CastKind, SrcOperand, TyId),
    NullaryOp(NullOp, TyId),
    ShallowInitBox,
    ThreadLocalRef,
}

#[derive(Clone, Copy, Debug, PartialEq, Eq, Structural)]
pub enum RetagKind {
    FnEntry,
    TwoPhase,
    Raw,
    Default,
}

#[derive(Clone, Debug, PartialEq, Eq)]
pub enum SrcStatementKind {
    Assign(SrcPlace, SrcRvalue),
    StorageLive(usize),
    StorageDead(usize),
    Retag(RetagKind, SrcPlace),
    Deinit(SrcPlace),
    SetDiscriminant { place: SrcPlace, variant_index: usize },
    /// A hint that the operand is true.
    Assume(SrcOperand),
    PlaceMention(SrcPlace),
    FakeRead,
    CopyNonOverlapping,
    Coverage,
    Nop,
}

#[derive(Clone, Debug, PartialEq, Eq)]
pub struct SrcStatement {
    pub span: Span,
    pub kind: SrcStatementKind,
}

#[derive(Clone, Copy, Debug, PartialEq, Eq, Structural)]
pub enum Conv {
    C,
    Rust,
    Other,
}

/// A function as resolved by the front end.
#[derive(Clone, Debug, PartialEq, Eq)]
pub struct Instance {
    /// Identifies the function among all functions of the program.
    pub id: u64,
    /// Whether the function is a built-in of the source language.
    pub intrinsic: bool,
    /// Name of the crate that defines the function.
    pub crate_name: String,
    /// Simple name of the function.
    pub item_name: String,
    /// Full path of the function.
    pub path: String,
    pub conv: Conv,
    /// The first type argument, where there is one.
    pub type_arg: Option<TyId>,
}

#[derive(Clone, Debug, PartialEq, Eq)]
pub enum SrcCallee {
    Item(Instance),
    /// A function pointer held in an operand.
    Pointer(SrcOperand),
}

/// An argument of a call, with its own location.
#[derive(Clone, Debug, PartialEq, Eq)]
pub struct SrcArg {
    pub node: SrcOperand,
    pub span: Span,
}

#[derive(Clone, Debug, PartialEq, Eq)]
pub struct SwitchTargets {
    /// The bits of each value, to be read in the discriminant's type, with
    /// the block that it leads to.
    pub branches: Vec<(u128, usize)>,
    pub otherwise: usize,
}

#[allow(inconsistent_fields)]
#[derive(Clone, Debug, PartialEq, Eq)]
pub enum SrcTerminatorKind {
    Goto { target: usize },
    SwitchInt { discr: SrcOperand, targets: SwitchTargets },
    Return,
    Unreachable,
    /// `drop_fn` identifies the destructor of the place's type.
    Drop { place: SrcPlace, target: usize, drop_fn: u64 },
    Call { func: SrcCallee, args: Vec<SrcArg>, destination: SrcPlace, target: Option<usize> },
    Assert { cond: SrcOperand, expected: bool, target: usize },
    UnwindResume,
    UnwindTerminate,
    InlineAsm,
    Other,
}

#[derive(Clone, Debug, PartialEq, Eq)]
pub struct SrcTerminator {
    pub span: Span,
    pub kind: SrcTerminatorKind,
}

#[derive(Clone, Debug, PartialEq, Eq)]
pub struct SrcBasicBlock {
    pub statements: Vec<SrcStatement>,
    pub terminator: SrcTerminator,
}

} // verus!
