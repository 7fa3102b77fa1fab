//! Boolean selection control which can be checked or unchecked.

use crate::registry::Handle;
use crate::registry::Invocation;
use crate::ui::UI;
use vstd::prelude::*;

verus! {

/// Boolean selection control which can be checked or unchecked.
pub struct Checkbox {
    text: String,
    checked: bool,
    toggled: Option<Handle>,
}

impl Checkbox {
    /// The label shown beside the box.
    pub closed spec fn text_spec(&self) -> Seq<char> {
        self.text@
    }

    /// Whether the box is checked.
    pub closed spec fn checked_spec(&self) -> bool {
        self.checked
    }

    /// The callback slot for toggle events.
    pub closed spec fn toggled_slot(&self) -> Option<Handle> {
        self.toggled
    }

    /// Create a new checkbox with the given label, unchecked.
    pub fn new(text: &str) -> (r: Checkbox)
        ensures
            r.text_spec() == text@,
            !r.checked_spec(),
            r.toggled_slot() is None,
    {
        Checkbox { text: text.to_owned(), checked: false, toggled: None }
    }

    /// Whether the box is checked.
    pub fn checked(&self) -> (r: bool)
        ensures
            r == self.checked_spec(),
    {
        self.checked
    }

    /// Checks or unchecks the box programmatically. Quiet: never fires the
    /// toggled callback.
    pub fn set_checked(&mut self, checked: bool)
        ensures
            final(self).checked_spec() == checked,
            final(self).text_spec() == old(self).text_spec(),
            final(self).toggled_slot() == old(self).toggled_slot(),
    {
        self.checked = checked;
    }

    /// Registers the callback for user toggles, fully superseding any
    /// previously registered one. Requires an initialized toolkit.
    pub fn on_toggled(&mut self, _ctx: &UI, callback: Handle)
        ensures
            final(self).toggled_slot() == Some(callback),
            final(self).text_spec() == old(self).text_spec(),
            final(self).checked_spec() == old(self).checked_spec(),
    {
        self.toggled = Some(callback);
    }

    /// A user toggle: commits the new state and owes exactly one run of
    /// exactly the currently registered callback, with the committed state as
    /// its argument, or nothing if no callback is registered.
    pub fn deliver_toggled(&mut self, checked: bool) -> (r: Option<Invocation<bool>>)
        ensures
            final(self).checked_spec() == checked,
            final(self).text_spec() == old(self).text_spec(),
            final(self).toggled_slot() == old(self).toggled_slot(),
            r == match old(self).toggled_slot() {
                Some(h) => Some(Invocation { handle: h, arg: checked }),
                None => None::<Invocation<bool>>,
            },
    {
        self.checked = checked;
        match self.toggled {
            Some(h) => Some(Invocation { handle: h, arg: checked }),
            None => None,
        }
    }
}

} // verus!
