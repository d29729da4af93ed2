//! Why a lowering was refused.
use vstd::prelude::*;

verus! {

/// A region of the source text, kept only to say where a lowering was refused.
#[derive(Clone, Copy, Debug, PartialEq, Eq, Structural)]
pub struct Span {
    pub lo: u32,
    pub hi: u32,
}

/// The construct that the lowering does not support, or the inconsistency
/// that it met.
#[derive(Clone, Copy, Debug, PartialEq, Eq, Structural)]
pub enum ErrorKind {
    /// A type identifier that the type table does not hold, or a type that
    /// contains itself by value.
    UnknownType,
    /// A type constructor outside the supported subset.
    UnsupportedType,
    /// A pointer to a type without a statically known size.
    UnsizedPointee,
    /// An alignment that is not a power of two.
    InvalidAlign,
    /// An integer type whose size is not 1, 2, 4, 8 or 16 bytes.
    UnsupportedIntSize,
    /// A variant index that the enum does not have, or a discriminant asked
    /// of a type that is no enum.
    UnknownVariant,
    /// The size of a union, or the length of an array, exceeds what can be held in memory.
    TooLarge,
    UnknownLocal,
    UnknownBlock,
    UnsupportedProjection,
    UnsupportedConstant,
    UnsupportedBinOp,
    UnsupportedCheckedBinOp,
    UnsupportedUnOp,
    UnsupportedCast,
    /// A cast that exposes or reconstructs pointer provenance, met anywhere
    /// but as the whole right-hand side of an assignment.
    ProvenanceCastInExpression,
    UnsupportedAggregate,
    UnsupportedRvalue,
    /// The length of a place that is not an array.
    LengthOfNonArray,
    UnsupportedStatement,
    UnsupportedTerminator,
    /// A switch on a value that is neither an integer nor a boolean.
    UnsupportedSwitchType,
    /// A call through anything but a named function.
    UnsupportedCallee,
    UnsupportedIntrinsic,
    UnsupportedCallingConvention,
    /// An intrinsic that returns was called without a block to return to.
    MissingTarget,
    /// An intrinsic was called with too few arguments or type arguments.
    MissingArgument,
    /// A block was to be inserted under a name that is taken.
    DuplicateBlock,
    /// No unused name is left.
    NamesExhausted,
}

#[derive(Clone, Copy, Debug, PartialEq, Eq, Structural)]
pub struct LowerError {
    pub span: Span,
    pub kind: ErrorKind,
}

/// `r` is what the model `s` prescribes: the value whose view is `s`'s, or
/// the error of `s`'s kind at `span`.
pub open spec fn refines<T: View>(
    r: Result<T, LowerError>,
    s: Result<T::V, ErrorKind>,
    span: Span,
) -> bool {
    match r {
        Ok(v) => s == Ok::<T::V, ErrorKind>(v@),
        Err(e) => s == Err::<T::V, ErrorKind>(e.kind) && e.span == span,
    }
}

/// Like `refines`, for results that are their own model.
pub open spec fn agrees<T>(r: Result<T, LowerError>, s: Result<T, ErrorKind>, span: Span) -> bool {
    match r {
        Ok(v) => s == Ok::<T, ErrorKind>(v),
        Err(e) => s == Err::<T, ErrorKind>(e.kind) && e.span == span,
    }
}

/// Puts a location on the error of a model result.
pub open spec fn located<T>(s: Result<T, ErrorKind>, span: Span) -> Result<T, LowerError> {
    match s {
        Ok(v) => Ok(v),
        Err(kind) => Err(LowerError { span, kind }),
    }
}

impl LowerError {
    pub fn new(span: Span, kind: ErrorKind) -> (e: LowerError)
        ensures
            e == (LowerError { span, kind }),
    {
        LowerError { span, kind }
    }
}

} // verus!
