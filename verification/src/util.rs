//! Small general-purpose lemmas shared by the library's proofs.

use vstd::prelude::*;

verus! {

/// Pushing onto a vector pushes the element's deep view onto the vector's
/// deep view.
pub proof fn lemma_deep_view_push<T: DeepView>(a: Vec<T>, b: Vec<T>, x: T)
    requires
        b@ == a@.push(x),
    ensures
        b.deep_view() =~= a.deep_view().push(x.deep_view()),
{
    assert forall|i: int| 0 <= i < b.deep_view().len() implies b.deep_view()[i]
        == a.deep_view().push(x.deep_view())[i] by {
        if i < a@.len() {
            assert(b@[i] == a@[i]);
        } else {
            assert(b@[i] == x);
        }
    }
}

/// Updating one element of a vector updates that position of the vector's
/// deep view with the element's deep view.
pub proof fn lemma_deep_view_update<T: DeepView>(a: Vec<T>, b: Vec<T>, j: int, x: T)
    requires
        0 <= j < a@.len(),
        b@ == a@.update(j, x),
    ensures
        b.deep_view() =~= a.deep_view().update(j, x.deep_view()),
{
    assert forall|i: int| 0 <= i < b.deep_view().len() implies b.deep_view()[i]
        == a.deep_view().update(j, x.deep_view())[i] by {
        if i == j {
            assert(b@[i] == x);
        } else {
            assert(b@[i] == a@[i]);
        }
    }
}

} // verus!
