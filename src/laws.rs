use vstd::prelude::*;

use crate::debuggable::{dispatch, placeholder_text, text_of, Debuggable, Repr};

verus! {

/// Where the type of `v` has a representation, the handle that the
/// dispatcher gives shows exactly the value's own representation.
pub proof fn lemma_value_text<T: Debuggable>(v: &T)
    requires
        T::has_repr(),
    ensures
        dispatch(v) == Repr::Value(v),
        text_of(dispatch(v)) == v.repr_view(),
{
}

/// Where the type of `v` has no representation, the handle that the
/// dispatcher gives shows the placeholder text, whatever `v` holds.
pub proof fn lemma_placeholder_text<T: Debuggable>(v: &T)
    requires
        !T::has_repr(),
    ensures
        dispatch(v) == Repr::<T>::Placeholder,
        text_of(dispatch(v)) == placeholder_text(),
{
}

/// Two handles that the dispatcher gives for the same value show the same
/// text: asking does not change anything.
pub proof fn lemma_dispatch_idempotent<'a, T: Debuggable>(
    v: &'a T,
    first: Repr<'a, T>,
    second: Repr<'a, T>,
)
    requires
        first == dispatch(v),
        second == dispatch(v),
    ensures
        first == second,
        text_of(first) == text_of(second),
{
}

/// Whether the dispatcher hands back the value or the placeholder depends on
/// the type alone: any two values of one type take the same branch.
pub proof fn lemma_branch_depends_on_type_only<T: Debuggable>(a: &T, b: &T)
    ensures
        (dispatch(a) is Value) == (dispatch(b) is Value),
        (dispatch(a) is Value) == T::has_repr(),
{
}

} // verus!
