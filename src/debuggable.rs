use vstd::prelude::*;

verus! {

/// The text shown for a value whose type has no representation.
pub const PLACEHOLDER: &'static str = "<no Debug impl>";

/// The characters of [`PLACEHOLDER`].
pub open spec fn placeholder_text() -> Seq<char> {
    PLACEHOLDER@
}

/// What the dispatcher hands back: a view of the value itself, or the
/// placeholder standing in for it.
pub enum Repr<'a, T> {
    Value(&'a T),
    Placeholder,
}

impl<'a, T: Debuggable> Repr<'a, T> {
    /// Whether the handle targets a value only where its type has a
    /// representation, as every handle from [`Debuggable::debug`] does.
    pub open spec fn wf(self) -> bool {
        self is Value ==> T::has_repr()
    }

    /// The text that this handle shows: the representation of the value it
    /// targets, or the placeholder.
    pub fn text(&self) -> (r: String)
        requires
            self.wf(),
        ensures
            r@ == text_of(*self),
    {
        match self {
            Repr::Value(v) => v.repr(),
            Repr::Placeholder => PLACEHOLDER.to_owned(),
        }
    }
}

/// The branch that [`Debuggable::debug`] takes for `v`: the value itself
/// where its type has a representation, the placeholder otherwise.
pub open spec fn dispatch<'a, T: Debuggable>(v: &'a T) -> Repr<'a, T> {
    if T::has_repr() {
        Repr::Value(v)
    } else {
        Repr::Placeholder
    }
}

/// The text that a handle shows.
pub open spec fn text_of<'a, T: Debuggable>(r: Repr<'a, T>) -> Seq<char> {
    match r {
        Repr::Value(v) => v.repr_view(),
        Repr::Placeholder => placeholder_text(),
    }
}

/// Types whose values can be asked for a representation.
///
/// A type with a text representation states `has_repr` and gives the text in
/// `repr_view` and `repr`. The values of a type without one show
/// [`PLACEHOLDER`].
pub trait Debuggable: Sized {
    /// Whether values of this type have a representation of their own.
    spec fn has_repr() -> bool;

    /// Tells at run time what [`Debuggable::has_repr`] states.
    fn represented() -> (b: bool)
        ensures
            b == Self::has_repr(),
    ;

    /// The representation of this value, where its type has one.
    spec fn repr_view(&self) -> Seq<char>;

    /// Builds the representation of this value.
    fn repr(&self) -> (r: String)
        requires
            Self::has_repr(),
        ensures
            r@ == self.repr_view(),
    ;

    /// The dispatcher: a handle on this value if its type has a
    /// representation, on the placeholder otherwise.
    fn debug(&self) -> (r: Repr<'_, Self>)
        ensures
            r == (if Self::has_repr() {
                Repr::Value(self)
            } else {
                Repr::Placeholder
            }),
    {
        if Self::represented() {
            Repr::Value(self)
        } else {
            Repr::Placeholder
        }
    }
}

/// The text that the handle of `v` shows: the representation of `v` where its
/// type has one, the placeholder otherwise.
pub fn debug_string<T: Debuggable>(v: &T) -> (r: String)
    ensures
        r@ == text_of(dispatch(v)),
        T::has_repr() ==> r@ == v.repr_view(),
        !T::has_repr() ==> r@ == placeholder_text(),
{
    let handle = v.debug();
    handle.text()
}

} // verus!
