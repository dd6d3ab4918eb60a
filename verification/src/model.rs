//! How values are read in contracts: each type of this crate stands for a
//! value made of sequences of characters, integers and the like.

use vstd::prelude::*;

verus! {

/// What the outcome of a remote call stands for.
pub open spec fn outcome_view<T: DeepView, E: DeepView>(outcome: Result<T, E>) -> Result<
    T::V,
    E::V,
> {
    match outcome {
        Ok(value) => Ok(value.deep_view()),
        Err(cause) => Err(cause.deep_view()),
    }
}

/// A vector with one more item stands for the sequence with one more item.
pub proof fn lemma_push_deep_view<T: DeepView>(v: Vec<T>, x: T)
    ensures
        forall|w: Vec<T>|
            #![trigger w@]
            w@ == v@.push(x) ==> w.deep_view() == v.deep_view().push(x.deep_view()),
{
    assert forall|w: Vec<T>| #![trigger w@] w@ == v@.push(x) implies w.deep_view()
        == v.deep_view().push(x.deep_view()) by {
        // Item by item, the two sequences are the same.
        assert(w.deep_view() =~= v.deep_view().push(x.deep_view()));
    }
}

} // verus!
