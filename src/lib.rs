//! A representation for every value.
//!
//! Generic code often wants to show a value whose type it knows nothing about.
//! Each type opts in to [`Debuggable`]: a type whose values have a text
//! representation says so and says what that text is; the values of any other
//! type are shown as a fixed placeholder. Which of the two a value gets is
//! decided by its type alone.

mod debuggable;
mod formatting;
mod impls;
mod laws;

pub use debuggable::{
    debug_string, dispatch, placeholder_text, text_of, Debuggable, Repr, PLACEHOLDER,
};
pub use formatting::{decimal, digit_char, signed_decimal, str_debug};
pub use impls::Opaque;
pub use laws::{
    lemma_branch_depends_on_type_only, lemma_dispatch_idempotent, lemma_placeholder_text,
    lemma_value_text,
};
