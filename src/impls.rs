use vstd::prelude::*;

use crate::debuggable::Debuggable;
use crate::formatting::{decimal, signed_decimal, signed_repr, str_debug, str_repr, unsigned_repr};

verus! {

impl Debuggable for u8 {
    open spec fn has_repr() -> bool {
        true
    }

    fn represented() -> (b: bool) {
        true
    }

    open spec fn repr_view(&self) -> Seq<char> {
        decimal(*self as nat)
    }

    fn repr(&self) -> (r: String) {
        unsigned_repr(*self as u64)
    }
}

impl Debuggable for u16 {
    open spec fn has_repr() -> bool {
        true
    }

    fn represented() -> (b: bool) {
        true
    }

    open spec fn repr_view(&self) -> Seq<char> {
        decimal(*self as nat)
    }

    fn repr(&self) -> (r: String) {
        unsigned_repr(*self as u64)
    }
}

impl Debuggable for u32 {
    open spec fn has_repr() -> bool {
        true
    }

    fn represented() -> (b: bool) {
        true
    }

    open spec fn repr_view(&self) -> Seq<char> {
        decimal(*self as nat)
    }

    fn repr(&self) -> (r: String) {
        unsigned_repr(*self as u64)
    }
}

impl Debuggable for u64 {
    open spec fn has_repr() -> bool {
        true
    }

    fn represented() -> (b: bool) {
        true
    }

    open spec fn repr_view(&self) -> Seq<char> {
        decimal(*self as nat)
    }

    fn repr(&self) -> (r: String) {
        unsigned_repr(*self as u64)
    }
}

impl Debuggable for usize {
    open spec fn has_repr() -> bool {
        true
    }

    fn represented() -> (b: bool) {
        true
    }

    open spec fn repr_view(&self) -> Seq<char> {
        decimal(*self as nat)
    }

    fn repr(&self) -> (r: String) {
        unsigned_repr(*self as u64)
    }
}

impl Debuggable for i8 {
    open spec fn has_repr() -> bool {
        true
    }

    fn represented() -> (b: bool) {
        true
    }

    open spec fn repr_view(&self) -> Seq<char> {
        signed_decimal(*self as int)
    }

    fn repr(&self) -> (r: String) {
        signed_repr(*self as i64)
    }
}

impl Debuggable for i16 {
    open spec fn has_repr() -> bool {
        true
    }

    fn represented() -> (b: bool) {
        true
    }

    open spec fn repr_view(&self) -> Seq<char> {
        signed_decimal(*self as int)
    }

    fn repr(&self) -> (r: String) {
        signed_repr(*self as i64)
    }
}

impl Debuggable for i32 {
    open spec fn has_repr() -> bool {
        true
    }

    fn represented() -> (b: bool) {
        true
    }

    open spec fn repr_view(&self) -> Seq<char> {
        signed_decimal(*self as int)
    }

    fn repr(&self) -> (r: String) {
        signed_repr(*self as i64)
    }
}

impl Debuggable for i64 {
    open spec fn has_repr() -> bool {
        true
    }

    fn represented() -> (b: bool) {
        true
    }

    open spec fn repr_view(&self) -> Seq<char> {
        signed_decimal(*self as int)
    }

    fn repr(&self) -> (r: String) {
        signed_repr(*self as i64)
    }
}

impl Debuggable for isize {
    open spec fn has_repr() -> bool {
        true
    }

    fn represented() -> (b: bool) {
        true
    }

    open spec fn repr_view(&self) -> Seq<char> {
        signed_decimal(*self as int)
    }

    fn repr(&self) -> (r: String) {
        signed_repr(*self as i64)
    }
}

impl Debuggable for bool {
    open spec fn has_repr() -> bool {
        true
    }

    fn represented() -> (b: bool) {
        true
    }

    open spec fn repr_view(&self) -> Seq<char> {
        if *self {
            "true"@
        } else {
            "false"@
        }
    }

    fn repr(&self) -> (r: String) {
        if *self {
            "true".to_owned()
        } else {
            "false".to_owned()
        }
    }
}

impl Debuggable for String {
    open spec fn has_repr() -> bool {
        true
    }

    fn represented() -> (b: bool) {
        true
    }

    open spec fn repr_view(&self) -> Seq<char> {
        str_debug(self@)
    }

    fn repr(&self) -> (r: String) {
        str_repr(self.as_str())
    }
}

impl<'s> Debuggable for &'s str {
    open spec fn has_repr() -> bool {
        true
    }

    fn represented() -> (b: bool) {
        true
    }

    open spec fn repr_view(&self) -> Seq<char> {
        str_debug((*self)@)
    }

    fn repr(&self) -> (r: String) {
        str_repr(*self)
    }
}

/// Shows any value as the placeholder: its type claims no representation.
pub struct Opaque<T>(pub T);

impl<T> Debuggable for Opaque<T> {
    open spec fn has_repr() -> bool {
        false
    }

    fn represented() -> (b: bool) {
        false
    }

    open spec fn repr_view(&self) -> Seq<char> {
        Seq::empty()
    }

    fn repr(&self) -> (r: String) {
        String::new()
    }
}

} // verus!
