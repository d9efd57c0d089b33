//! The static-string wrapper for command templates and literal text.
//!
//! The host ABI receives every string as a pointer/length pair that must
//! reference data fixed before the call is made. That constraint is enforced
//! by the type system: a [`StaticText`] can only be built from a `&'static
//! str`, so no runtime-constructed string can reach the ABI boundary.

use vstd::prelude::*;

verus! {

/// A piece of text whose bytes are fixed for the whole run of the program.
///
/// Command templates may contain two placeholder tokens, resolved by a text
/// transform outside this library: one expands to the fixed register-space
/// objective name, the other to the input value supplied with the call. The
/// engine itself never rewrites the text; it hands the literal bytes across
/// the ABI unchanged.
#[derive(Clone, Copy)]
pub struct StaticText {
    text: &'static str,
}

impl View for StaticText {
    type V = Seq<char>;

    closed spec fn view(&self) -> Seq<char> {
        self.text@
    }
}

impl StaticText {
    /// Wraps a string with static lifetime; the view is the wrapped text.
    pub fn new(text: &'static str) -> (t: StaticText)
        ensures
            t@ == text@,
    {
        StaticText { text }
    }

    /// The wrapped text itself.
    pub fn text(&self) -> (r: &'static str)
        ensures
            r@ == self@,
    {
        self.text
    }
}

} // verus!
