//! Per-type behaviour selected by a trait: each supported type renders a
//! tagged description of its value, and a generic entry point dispatches to
//! whichever implementation the argument carries.

use crate::text::i64_to_string;
use crate::text::spec_idec;
use vstd::prelude::*;
use vstd::string::StringExecFns;

verus! {

/// A type that knows how to describe one of its values.
pub trait TypeAction: Sized {
    /// The tagged description of the value.
    spec fn spec_message(self) -> Seq<char>;

    /// Render the tagged description of the value.
    fn handle(self) -> (r: String)
        ensures
            r@ == self.spec_message(),
    ;
}

impl TypeAction for i32 {
    open spec fn spec_message(self) -> Seq<char> {
        "i32: "@ + spec_idec(self as int)
    }

    fn handle(self) -> (r: String) {
        let mut r = "i32: ".to_owned();
        let digits = i64_to_string(self as i64);
        r.append(digits.as_str());
        r
    }
}

impl TypeAction for String {
    open spec fn spec_message(self) -> Seq<char> {
        "String: "@ + self@
    }

    fn handle(self) -> (r: String) {
        let mut r = "String: ".to_owned();
        r.append(self.as_str());
        r
    }
}

impl<'a> TypeAction for &'a str {
    open spec fn spec_message(self) -> Seq<char> {
        "&str: "@ + self@
    }

    fn handle(self) -> (r: String) {
        let mut r = "&str: ".to_owned();
        r.append(self);
        r
    }
}

/// Describe any value whose type implements [`TypeAction`].
pub fn test_types_trait<T: TypeAction>(value: T) -> (r: String)
    ensures
        r@ == value.spec_message(),
{
    value.handle()
}

} // verus!
