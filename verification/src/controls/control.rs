//! A generic UI control: the closed set of control variants, together with
//! the visibility and enablement every control shares.
//!
//! Any concrete control can be wrapped into a [`Control`] for composition
//! into containers. The set of variants is closed on purpose: what can stand
//! in a widget tree is enumerable, not an open-ended conversion.

use crate::controls::button::Button;
use crate::controls::checkbox::Checkbox;
use crate::controls::colorbutton::ColorButton;
use crate::controls::combobox::Combobox;
use crate::controls::combobox::EditableCombobox;
use crate::controls::datetimepicker::DateTimePicker;
use crate::controls::fontbutton::FontButton;
use crate::controls::form::Form;
use crate::controls::label::Label;
use crate::controls::numericentry::Slider;
use crate::controls::numericentry::Spinbox;
use crate::controls::radiobuttons::RadioButtons;
use crate::controls::table::Table;
use crate::controls::tabgroup::TabGroup;
use crate::controls::textentry::Entry;
use crate::controls::textentry::MultilineEntry;
use crate::controls::textentry::PasswordEntry;
use crate::controls::textentry::SearchEntry;
use vstd::prelude::*;

verus! {

/// Which concrete control a [`Control`] wraps.
pub enum ControlKind {
    Button(Button),
    Checkbox(Checkbox),
    ColorButton(ColorButton),
    Combobox(Combobox),
    DateTimePicker(DateTimePicker),
    EditableCombobox(EditableCombobox),
    FontButton(FontButton),
    Form(Form),
    Label(Label),
    MultilineEntry(MultilineEntry),
    PasswordEntry(PasswordEntry),
    RadioButtons(RadioButtons),
    SearchEntry(SearchEntry),
    Slider(Slider),
    Spinbox(Spinbox),
    TabGroup(TabGroup),
    Table(Table),
    TextEntry(Entry),
}

/// A generic UI control: one of the closed set of variants, with the state
/// every control shares. A freshly wrapped control is shown and enabled.
pub struct Control {
    kind: ControlKind,
    shown: bool,
    enabled: bool,
}

impl Control {
    /// The wrapped control.
    pub closed spec fn kind_spec(&self) -> ControlKind {
        self.kind
    }

    /// Whether the control is currently set to be displayed.
    pub closed spec fn shown_spec(&self) -> bool {
        self.shown
    }

    /// Whether the control can be interacted with.
    pub closed spec fn enabled_spec(&self) -> bool {
        self.enabled
    }

    /// Wraps a concrete control, shown and enabled.
    pub fn new(kind: ControlKind) -> (r: Control)
        ensures
            r.kind_spec() == kind,
            r.shown_spec(),
            r.enabled_spec(),
    {
        Control { kind, shown: true, enabled: true }
    }

    /// Returns true if this control is currently set to be displayed.
    pub fn is_shown(&self) -> (r: bool)
        ensures
            r == self.shown_spec(),
    {
        self.shown
    }

    /// Sets whether or not the control should be displayed.
    pub fn set_shown(&mut self, show: bool)
        ensures
            final(self).shown_spec() == show,
            final(self).kind_spec() == old(self).kind_spec(),
            final(self).enabled_spec() == old(self).enabled_spec(),
    {
        self.shown = show;
    }

    /// Returns true if the control is enabled (can be interacted with).
    pub fn is_enabled(&self) -> (r: bool)
        ensures
            r == self.enabled_spec(),
    {
        self.enabled
    }

    /// Sets the enable/disable state of the control. If disabled, a control
    /// cannot be interacted with, and visual cues to that effect are
    /// presented to the user.
    pub fn set_enabled(&mut self, enabled: bool)
        ensures
            final(self).enabled_spec() == enabled,
            final(self).kind_spec() == old(self).kind_spec(),
            final(self).shown_spec() == old(self).shown_spec(),
    {
        self.enabled = enabled;
    }

    /// Hands the wrapped control back out.
    pub fn into_kind(self) -> (r: ControlKind)
        ensures
            r == self.kind_spec(),
    {
        self.kind
    }

    /// A look at the wrapped control.
    pub fn kind(&self) -> (r: &ControlKind)
        ensures
            *r == self.kind_spec(),
    {
        &self.kind
    }
}

} // verus!
