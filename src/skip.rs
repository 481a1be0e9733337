//! The omission capability, whether a field is left out of the serialized
//! document, and text arguments.

use vstd::prelude::*;

verus! {

/// A value that knows whether it should be omitted from serialized output.
pub trait ShouldSkip {
    /// Whether the value is omitted.
    spec fn skip_spec(&self) -> bool;

    /// Whether the value is omitted.
    fn should_skip(&self) -> (r: bool)
        ensures
            r == self.skip_spec(),
    ;
}

impl ShouldSkip for String {
    open spec fn skip_spec(&self) -> bool {
        self@.len() == 0
    }

    fn should_skip(&self) -> (r: bool) {
        self.as_str().is_empty()
    }
}

impl<T> ShouldSkip for Option<T> {
    open spec fn skip_spec(&self) -> bool {
        self is None
    }

    fn should_skip(&self) -> (r: bool) {
        self.is_none()
    }
}

impl<T> ShouldSkip for Vec<T> {
    open spec fn skip_spec(&self) -> bool {
        self@.len() == 0
    }

    fn should_skip(&self) -> (r: bool) {
        self.len() == 0
    }
}

/// A text argument: a string slice or an owned string.
pub trait IntoText {
    /// The characters the argument holds.
    spec fn text_spec(&self) -> Seq<char>;

    /// The argument as an owned string.
    fn into_text(self) -> (r: String)
        ensures
            r@ == self.text_spec(),
    ;
}

impl IntoText for String {
    open spec fn text_spec(&self) -> Seq<char> {
        self@
    }

    fn into_text(self) -> (r: String) {
        self
    }
}

impl<'a> IntoText for &'a str {
    open spec fn text_spec(&self) -> Seq<char> {
        self@
    }

    fn into_text(self) -> (r: String) {
        self.to_owned()
    }
}

} // verus!
