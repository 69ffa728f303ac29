//! Views of collections.

use vstd::prelude::*;

verus! {

/// The model of a vector that got one more element is the model it had,
/// with the model of the element at its end.
pub proof fn lemma_deep_view_push<T: DeepView>(elements: Seq<T>, value: T)
    ensures
        Seq::new(elements.push(value).len(), |i: int| elements.push(value)[i].deep_view())
            == Seq::new(elements.len(), |i: int| elements[i].deep_view()).push(value.deep_view()),
{
}

} // verus!
