//! Text input mechanisms in various forms.
//!
//! All text buffers accept and return LF line endings; where the platform
//! stores CRLF pairs, they are added and removed at the boundary by the
//! controls, so host code never sees them. A buffer the native toolkit hands
//! over is copied before it reaches these models as a plain string, and the
//! native buffer itself is given back to the toolkit's own deallocator —
//! never to the host allocator.

use crate::registry::Handle;
use crate::registry::Invocation;
use crate::str_tools::from_toolkit_spec;
use crate::str_tools::from_toolkit_string;
use crate::str_tools::to_toolkit_spec;
use crate::str_tools::to_toolkit_string;
use crate::str_tools::LineEnding;
use vstd::prelude::*;
use vstd::string::StringExecFns;

verus! {

/// A control that holds an editable text buffer.
pub trait TextEntry {
    /// The text as the toolkit stores it, in the control's convention.
    spec fn stored_text(&self) -> Seq<char>;

    /// The line-ending convention the control stores text in; fixed by the
    /// platform when the control is created.
    spec fn convention_spec(&self) -> LineEnding;

    /// The callback slot for text-changed events.
    spec fn changed_slot(&self) -> Option<Handle>;

    /// Reads the text, converted back to LF endings.
    fn value(&self) -> (r: String)
        ensures
            r@ == from_toolkit_spec(self.stored_text(), self.convention_spec()),
    ;

    /// Sets the text programmatically, converting LF endings into the
    /// control's convention. A programmatic set commits the text quietly: it
    /// never fires the changed callback.
    fn set_value(&mut self, value: &str)
        ensures
            final(self).stored_text() == to_toolkit_spec(value@, old(self).convention_spec()),
            final(self).convention_spec() == old(self).convention_spec(),
            final(self).changed_slot() == old(self).changed_slot(),
    ;

    /// Registers the callback for text-changed events, fully superseding any
    /// previously registered one: every later change event is owed to
    /// `callback` and to nothing else.
    fn on_changed(&mut self, callback: Handle)
        ensures
            final(self).changed_slot() == Some(callback),
            final(self).stored_text() == old(self).stored_text(),
            final(self).convention_spec() == old(self).convention_spec(),
    ;
}

/// Single-line editable text buffer.
pub struct Entry {
    stored: String,
    convention: LineEnding,
    changed: Option<Handle>,
}

/// Multi-line editable text buffer.
pub struct MultilineEntry {
    stored: String,
    convention: LineEnding,
    changed: Option<Handle>,
    readonly: bool,
}

impl Entry {
    /// An empty entry storing text in the platform's convention.
    pub fn new(convention: LineEnding) -> (r: Entry)
        ensures
            r.stored_text() == Seq::<char>::empty(),
            r.convention_spec() == convention,
            r.changed_slot() is None,
    {
        Entry { stored: String::new(), convention, changed: None }
    }

    /// A user-driven edit: the toolkit has already committed `stored` (in its
    /// own convention) and the currently registered callback — and nothing
    /// else — is owed exactly one run, with the host view of the new text as
    /// its argument.
    pub fn deliver_changed(&mut self, stored: &str) -> (r: Option<Invocation<String>>)
        ensures
            final(self).stored_text() == stored@,
            final(self).convention_spec() == old(self).convention_spec(),
            final(self).changed_slot() == old(self).changed_slot(),
            match old(self).changed_slot() {
                Some(h) => r matches Some(inv) && inv.handle == h && inv.arg@ == from_toolkit_spec(
                    stored@,
                    old(self).convention_spec(),
                ),
                None => r is None,
            },
    {
        self.stored = stored.to_owned();
        match self.changed {
            Some(h) => Some(
                Invocation { handle: h, arg: from_toolkit_string(stored, self.convention) },
            ),
            None => None,
        }
    }
}

impl TextEntry for Entry {
    closed spec fn stored_text(&self) -> Seq<char> {
        self.stored@
    }

    closed spec fn convention_spec(&self) -> LineEnding {
        self.convention
    }

    closed spec fn changed_slot(&self) -> Option<Handle> {
        self.changed
    }

    fn value(&self) -> String {
        from_toolkit_string(self.stored.as_str(), self.convention)
    }

    fn set_value(&mut self, value: &str) {
        self.stored = to_toolkit_string(value, self.convention);
    }

    fn on_changed(&mut self, callback: Handle) {
        self.changed = Some(callback);
    }
}

impl MultilineEntry {
    /// Whether users are kept from editing the buffer.
    pub closed spec fn readonly_spec(&self) -> bool {
        self.readonly
    }

    /// An empty multi-line entry storing text in the platform's convention;
    /// its text wraps, and it starts out editable.
    pub fn new(convention: LineEnding) -> (r: MultilineEntry)
        ensures
            r.stored_text() == Seq::<char>::empty(),
            r.convention_spec() == convention,
            r.changed_slot() is None,
            !r.readonly_spec(),
    {
        MultilineEntry { stored: String::new(), convention, changed: None, readonly: false }
    }

    /// An empty multi-line entry that does not wrap or resize its text but
    /// shows horizontal scrollbars instead; wrapping is purely visual, so the
    /// committed state starts out the same as for `new`.
    pub fn new_nonwrapping(convention: LineEnding) -> (r: MultilineEntry)
        ensures
            r.stored_text() == Seq::<char>::empty(),
            r.convention_spec() == convention,
            r.changed_slot() is None,
            !r.readonly_spec(),
    {
        MultilineEntry { stored: String::new(), convention, changed: None, readonly: false }
    }

    /// Returns whether users are kept from editing the buffer.
    pub fn readonly(&self) -> (r: bool)
        ensures
            r == self.readonly_spec(),
    {
        self.readonly
    }

    /// Sets whether users are kept from editing the buffer. Programmatic
    /// changes stay possible either way.
    pub fn set_readonly(&mut self, readonly: bool)
        ensures
            final(self).readonly_spec() == readonly,
            final(self).stored_text() == old(self).stored_text(),
            final(self).convention_spec() == old(self).convention_spec(),
            final(self).changed_slot() == old(self).changed_slot(),
    {
        self.readonly = readonly;
    }

    /// Appends text at the end of the buffer, converting LF endings into the
    /// control's convention. Quiet, like `set_value`.
    pub fn append(&mut self, value: &str)
        ensures
            final(self).stored_text() == old(self).stored_text() + to_toolkit_spec(
                value@,
                old(self).convention_spec(),
            ),
            final(self).convention_spec() == old(self).convention_spec(),
            final(self).changed_slot() == old(self).changed_slot(),
            final(self).readonly_spec() == old(self).readonly_spec(),
    {
        let addition = to_toolkit_string(value, self.convention);
        self.stored.append(addition.as_str());
    }

    /// A user-driven edit: the toolkit has already committed `stored` (in its
    /// own convention) and the currently registered callback — and nothing
    /// else — is owed exactly one run, with the host view of the new text as
    /// its argument.
    pub fn deliver_changed(&mut self, stored: &str) -> (r: Option<Invocation<String>>)
        ensures
            final(self).stored_text() == stored@,
            final(self).convention_spec() == old(self).convention_spec(),
            final(self).changed_slot() == old(self).changed_slot(),
            final(self).readonly_spec() == old(self).readonly_spec(),
            match old(self).changed_slot() {
                Some(h) => r matches Some(inv) && inv.handle == h && inv.arg@ == from_toolkit_spec(
                    stored@,
                    old(self).convention_spec(),
                ),
                None => r is None,
            },
    {
        self.stored = stored.to_owned();
        match self.changed {
            Some(h) => Some(
                Invocation { handle: h, arg: from_toolkit_string(stored, self.convention) },
            ),
            None => None,
        }
    }
}

/// Single-line editable text buffer for secrets. Unlike the other text
/// buffers it converts nothing: what is typed is what is stored, byte for
/// byte, so no transformed copy of the secret is made at the boundary.
pub struct PasswordEntry {
    stored: String,
    changed: Option<Handle>,
}

impl PasswordEntry {
    /// An empty password entry.
    pub fn new() -> (r: PasswordEntry)
        ensures
            r.stored_text() == Seq::<char>::empty(),
            r.convention_spec() == LineEnding::Lf,
            r.changed_slot() is None,
    {
        PasswordEntry { stored: String::new(), changed: None }
    }

    /// A user-driven edit: the toolkit has already committed `stored`, and
    /// the currently registered callback — and nothing else — is owed exactly
    /// one run with the new text as its argument.
    pub fn deliver_changed(&mut self, stored: &str) -> (r: Option<Invocation<String>>)
        ensures
            final(self).stored_text() == stored@,
            final(self).changed_slot() == old(self).changed_slot(),
            match old(self).changed_slot() {
                Some(h) => r matches Some(inv) && inv.handle == h && inv.arg@ == stored@,
                None => r is None,
            },
    {
        self.stored = stored.to_owned();
        match self.changed {
            Some(h) => Some(Invocation { handle: h, arg: stored.to_owned() }),
            None => None,
        }
    }
}

impl TextEntry for PasswordEntry {
    closed spec fn stored_text(&self) -> Seq<char> {
        self.stored@
    }

    closed spec fn convention_spec(&self) -> LineEnding {
        LineEnding::Lf
    }

    closed spec fn changed_slot(&self) -> Option<Handle> {
        self.changed
    }

    fn value(&self) -> String {
        self.stored.clone()
    }

    fn set_value(&mut self, value: &str) {
        self.stored = value.to_owned();
    }

    fn on_changed(&mut self, callback: Handle) {
        self.changed = Some(callback);
    }
}

/// A text buffer suitable for searching. Some systems deliberately delay the
/// changed callback for a more natural feel.
pub struct SearchEntry {
    stored: String,
    convention: LineEnding,
    changed: Option<Handle>,
}

impl SearchEntry {
    /// An empty search entry storing text in the platform's convention.
    pub fn new(convention: LineEnding) -> (r: SearchEntry)
        ensures
            r.stored_text() == Seq::<char>::empty(),
            r.convention_spec() == convention,
            r.changed_slot() is None,
    {
        SearchEntry { stored: String::new(), convention, changed: None }
    }

    /// A user-driven edit: the toolkit has already committed `stored` (in its
    /// own convention) and the currently registered callback — and nothing
    /// else — is owed exactly one run, with the host view of the new text as
    /// its argument.
    pub fn deliver_changed(&mut self, stored: &str) -> (r: Option<Invocation<String>>)
        ensures
            final(self).stored_text() == stored@,
            final(self).convention_spec() == old(self).convention_spec(),
            final(self).changed_slot() == old(self).changed_slot(),
            match old(self).changed_slot() {
                Some(h) => r matches Some(inv) && inv.handle == h && inv.arg@ == from_toolkit_spec(
                    stored@,
                    old(self).convention_spec(),
                ),
                None => r is None,
            },
    {
        self.stored = stored.to_owned();
        match self.changed {
            Some(h) => Some(
                Invocation { handle: h, arg: from_toolkit_string(stored, self.convention) },
            ),
            None => None,
        }
    }
}

impl TextEntry for SearchEntry {
    closed spec fn stored_text(&self) -> Seq<char> {
        self.stored@
    }

    closed spec fn convention_spec(&self) -> LineEnding {
        self.convention
    }

    closed spec fn changed_slot(&self) -> Option<Handle> {
        self.changed
    }

    fn value(&self) -> String {
        from_toolkit_string(self.stored.as_str(), self.convention)
    }

    fn set_value(&mut self, value: &str) {
        self.stored = to_toolkit_string(value, self.convention);
    }

    fn on_changed(&mut self, callback: Handle) {
        self.changed = Some(callback);
    }
}

impl TextEntry for MultilineEntry {
    closed spec fn stored_text(&self) -> Seq<char> {
        self.stored@
    }

    closed spec fn convention_spec(&self) -> LineEnding {
        self.convention
    }

    closed spec fn changed_slot(&self) -> Option<Handle> {
        self.changed
    }

    fn value(&self) -> String {
        from_toolkit_string(self.stored.as_str(), self.convention)
    }

    fn set_value(&mut self, value: &str)
        ensures
            final(self).readonly_spec() == old(self).readonly_spec(),
    {
        self.stored = to_toolkit_string(value, self.convention);
    }

    fn on_changed(&mut self, callback: Handle)
        ensures
            final(self).readonly_spec() == old(self).readonly_spec(),
    {
        self.changed = Some(callback);
    }
}

} // verus!
