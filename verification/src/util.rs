//! Facts about the deep view of a vector that the codec and the validator
//! lean on when they grow a vector element by element.

use vstd::prelude::*;

verus! {

/// The element-wise deep view of a sequence.
pub open spec fn seq_deep<T: DeepView>(s: Seq<T>) -> Seq<T::V> {
    Seq::new(s.len(), |i: int| s[i].deep_view())
}

/// A vector's deep view is the element-wise deep view of its contents.
pub broadcast proof fn lemma_vec_deep<T: DeepView>(v: Vec<T>)
    ensures
        #[trigger] v.deep_view() == seq_deep(v@),
{
    assert(v.deep_view() =~= seq_deep(v@));
}

/// Pushing commutes with the deep view.
pub broadcast proof fn lemma_seq_deep_push<T: DeepView>(s: Seq<T>, e: T)
    ensures
        #[trigger] seq_deep(s.push(e)) == seq_deep(s).push(e.deep_view()),
{
    assert(seq_deep(s.push(e)) =~= seq_deep(s).push(e.deep_view()));
}

/// A prefix one longer is the shorter prefix with the next element pushed.
pub proof fn lemma_take_succ<T>(s: Seq<T>, i: int)
    requires
        0 <= i < s.len(),
    ensures
        s.take(i + 1) == s.take(i).push(s[i]),
{
    assert(s.take(i + 1) =~= s.take(i).push(s[i]));
}

} // verus!
