//! Carrier for an error message on its way to the wire: the verified side
//! holds the text; the serialization shell around the library turns it into
//! a structured payload.

use vstd::prelude::*;

verus! {

/// An error message destined for a structured error payload.
pub struct ErrMsgJsonGenerator(String);

impl View for ErrMsgJsonGenerator {
    type V = Seq<char>;

    closed spec fn view(&self) -> Seq<char> {
        self.0@
    }
}

impl ErrMsgJsonGenerator {
    /// Wraps an owned message.
    pub fn new(s: String) -> (r: Self)
        ensures
            r@ == s@,
    {
        ErrMsgJsonGenerator(s)
    }

    /// Wraps a borrowed message.
    pub fn from_impl(s: &str) -> (r: Self)
        ensures
            r@ == s@,
    {
        ErrMsgJsonGenerator(s.to_owned())
    }

    /// Hands the message back out for serialization.
    pub fn into_message(self) -> (r: String)
        ensures
            r@ == self@,
    {
        self.0
    }
}

} // verus!
