//! Lowering of a typed control-flow graph into a smaller target
//! representation that is made to be run and checked.
//!
//! The source comes as plain values: types with the layout that the front
//! end computed for them ([`source`]), and blocks of statements that end
//! in a terminator. The target ([`ir`], [`syntax`]) has its own types,
//! place and value expressions, statements and terminators.
//!
//! Lowering has three layers. Types are lowered first ([`ty`]), with the
//! data bytes of unions ([`chunks`]); then places, operands and
//! value-producing expressions ([`rvalue`]); then statements, terminators
//! and whole blocks ([`bb`]). Each layer has a mathematical model, a
//! function from source to the view of the target, and every executable
//! function returns what its model prescribes. [`laws`] holds what is
//! proved of the models as a whole.
//!
//! A construct outside the supported subset is never lowered in part:
//! the lowering returns an error that names the construct and where it
//! stands ([`error`]).
pub mod bb;
pub mod chunks;
pub mod ctxt;
pub mod error;
pub mod fn_ctxt;
pub mod ir;
pub mod laws;
pub mod make;
pub mod rvalue;
pub mod source;
pub mod syntax;
pub mod ty;
