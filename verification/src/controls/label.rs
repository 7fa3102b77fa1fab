//! A non-interactable piece of text.

use vstd::prelude::*;

verus! {

/// A non-interactable piece of text. Labels do not auto-wrap their text; they
/// expand as far as needed to fit.
pub struct Label {
    text: String,
}

impl Label {
    /// The text shown.
    pub closed spec fn text_spec(&self) -> Seq<char> {
        self.text@
    }

    /// Create a new label with the given string as its text.
    pub fn new(text: &str) -> (r: Label)
        ensures
            r.text_spec() == text@,
    {
        Label { text: text.to_owned() }
    }

    /// Get a copy of the existing text on the label.
    pub fn text(&self) -> (r: String)
        ensures
            r@ == self.text_spec(),
    {
        self.text.clone()
    }

    /// Set the text on the label.
    pub fn set_text(&mut self, text: &str)
        ensures
            final(self).text_spec() == text@,
    {
        self.text = text.to_owned();
    }
}

} // verus!
