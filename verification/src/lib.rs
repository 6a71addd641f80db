//! Build-time generator for patch/merge implementations.
//!
//! A *patch type* describes a partial update of a *target type*.  From a
//! schema of the patch type's fields and their merge annotations, this
//! library resolves one merge policy per field and emits the source text of
//! one `Patch` implementation per declared target.  A small value-level
//! interpreter of the same policies backs the stated merge laws.

use vstd::prelude::*;

pub mod apply;
pub mod emit;
pub mod extract;
pub mod laws;
pub mod parse;
pub mod record;
pub mod resolve;
pub mod schema;
pub mod text;
pub mod util;

verus! {

/// A struct other structs can be patched with.
///
/// Generated implementations are the usual producers of this capability:
/// each one consumes the patch and a target value and returns the updated
/// target value.
pub trait Patch<Target> {
    /// Apply self to target.
    fn apply(self, target: Target) -> Target;
}

} // verus!
