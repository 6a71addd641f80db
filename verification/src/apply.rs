//! Ready-made custom merge functions for `apply` annotations.

use vstd::prelude::*;

verus! {

/// Custom merge function that always takes the patch value.
///
/// A custom merge function is called with the target field's current value
/// on the left and the patch field's value on the right; this one discards
/// the current value, so the annotated field is overwritten directly.
pub fn direct<L, R>(_l: L, r: R) -> (res: R)
    ensures
        res == r,
{
    r
}

} // verus!
