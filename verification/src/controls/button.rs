//! A textual button which users can click on, causing a callback to run.

use crate::registry::Handle;
use vstd::prelude::*;

verus! {

/// A textual button which users can click on, causing a callback to run.
pub struct Button {
    text: String,
    clicked: Option<Handle>,
}

impl Button {
    /// The label shown on the button.
    pub closed spec fn text_spec(&self) -> Seq<char> {
        self.text@
    }

    /// The callback slot for click events.
    pub closed spec fn clicked_slot(&self) -> Option<Handle> {
        self.clicked
    }

    /// Create a new button with the given text as its label.
    pub fn new(text: &str) -> (r: Button)
        ensures
            r.text_spec() == text@,
            r.clicked_slot() is None,
    {
        Button { text: text.to_owned(), clicked: None }
    }

    /// Get a copy of the existing text on the button.
    pub fn text(&self) -> (r: String)
        ensures
            r@ == self.text_spec(),
    {
        self.text.clone()
    }

    /// Set the text on the button.
    pub fn set_text(&mut self, text: &str)
        ensures
            final(self).text_spec() == text@,
            final(self).clicked_slot() == old(self).clicked_slot(),
    {
        self.text = text.to_owned();
    }

    /// Registers the callback run when the button is clicked, fully
    /// superseding any previously registered one.
    pub fn on_clicked(&mut self, callback: Handle)
        ensures
            final(self).clicked_slot() == Some(callback),
            final(self).text_spec() == old(self).text_spec(),
    {
        self.clicked = Some(callback);
    }

    /// A user click: exactly one run of exactly the currently registered
    /// callback is owed, or nothing if no callback is registered. The button
    /// commits nothing.
    pub fn deliver_clicked(&self) -> (r: Option<Handle>)
        ensures
            r == self.clicked_slot(),
    {
        self.clicked
    }
}

} // verus!
