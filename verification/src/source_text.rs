//! The text under parse.

use vstd::prelude::*;

verus! {

/// The text being parsed, borrowed for the length of the parse.
///
/// A state may read it when it is first made; nothing here changes it.
#[derive(Clone, Copy, Debug)]
pub struct SourceText<'src> {
    text: &'src [u8],
}

impl<'src> View for SourceText<'src> {
    type V = Seq<u8>;

    /// The bytes of the text, in order.
    closed spec fn view(&self) -> Seq<u8> {
        self.text@
    }
}

impl<'src> SourceText<'src> {
    /// Wraps `text` without copying it.
    pub fn make(text: &'src [u8]) -> (source_text: Self)
        ensures
            source_text@ == text@,
    {
        SourceText { text }
    }

    /// The bytes that were wrapped.
    pub fn text(&self) -> (text: &'src [u8])
        ensures
            text@ == self@,
    {
        self.text
    }
}

} // verus!
