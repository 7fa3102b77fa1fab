//! A button-like control which allows the user to pick a color.
//!
//! The picked color itself is a quadruple of fractional components that the
//! native toolkit owns and hands out on request; the boundary layer owns only
//! the callback slot for change events, which is modelled here.

use crate::registry::Handle;
use crate::ui::UI;
use vstd::prelude::*;

verus! {

/// A button-like control which allows the user to pick a color.
pub struct ColorButton {
    changed: Option<Handle>,
}

impl ColorButton {
    /// The callback slot for changed events.
    pub closed spec fn changed_slot(&self) -> Option<Handle> {
        self.changed
    }

    /// Create a new color button with no callback registered.
    pub fn new() -> (r: ColorButton)
        ensures
            r.changed_slot() is None,
    {
        ColorButton { changed: None }
    }

    /// Registers the callback run when the selected color changed, fully
    /// superseding any previously registered one. Not fired by programmatic
    /// color changes. Requires an initialized toolkit.
    pub fn on_changed(&mut self, _ctx: &UI, callback: Handle)
        ensures
            final(self).changed_slot() == Some(callback),
    {
        self.changed = Some(callback);
    }

    /// A user-driven color change: exactly one run of exactly the currently
    /// registered callback is owed, or nothing if no callback is registered.
    pub fn deliver_changed(&self) -> (r: Option<Handle>)
        ensures
            r == self.changed_slot(),
    {
        self.changed
    }
}

} // verus!
