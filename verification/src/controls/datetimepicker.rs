//! A control to enter a date and/or time.

use crate::registry::Handle;
use crate::ui::UI;
use vstd::prelude::*;

verus! {

/// The possible selections the `DateTimePicker` shall offer.
#[derive(Copy, Clone, Debug, PartialEq, Eq, Structural)]
pub enum DateTimePickerKind {
    DateTime,
    Date,
    Time,
}

/// A calendar date and wall-clock time, as plain fields. Fields the picker's
/// kind does not offer keep their Unix-epoch defaults.
#[derive(Copy, Clone, Debug, PartialEq, Eq, Structural)]
pub struct DateTime {
    pub year: i32,
    pub month: i32,
    pub day: i32,
    pub hour: i32,
    pub minute: i32,
    pub second: i32,
}

impl DateTime {
    /// The Unix-epoch instant, the picker's starting point.
    pub fn epoch() -> (r: DateTime)
        ensures
            r == (DateTime { year: 1970, month: 1, day: 1, hour: 0, minute: 0, second: 0 }),
    {
        DateTime { year: 1970, month: 1, day: 1, hour: 0, minute: 0, second: 0 }
    }
}

/// Allows to enter a date and/or time.
pub struct DateTimePicker {
    kind: DateTimePickerKind,
    datetime: DateTime,
    changed: Option<Handle>,
}

impl DateTimePicker {
    /// Which selections this picker offers.
    pub closed spec fn kind_spec(&self) -> DateTimePickerKind {
        self.kind
    }

    /// The instant the picker currently holds.
    pub closed spec fn datetime_spec(&self) -> DateTime {
        self.datetime
    }

    /// The callback slot for changed events.
    pub closed spec fn changed_slot(&self) -> Option<Handle> {
        self.changed
    }

    /// Create a new date and/or time picker, starting at the Unix epoch.
    pub fn new(mode: DateTimePickerKind) -> (r: DateTimePicker)
        ensures
            r.kind_spec() == mode,
            r.datetime_spec() == (DateTime {
                year: 1970,
                month: 1,
                day: 1,
                hour: 0,
                minute: 0,
                second: 0,
            }),
            r.changed_slot() is None,
    {
        DateTimePicker { kind: mode, datetime: DateTime::epoch(), changed: None }
    }

    /// Returns the date and/or time stored in the picker.
    pub fn datetime(&self) -> (r: DateTime)
        ensures
            r == self.datetime_spec(),
    {
        self.datetime
    }

    /// Sets date and time programmatically. Quiet: never fires the changed
    /// callback.
    pub fn set_datetime(&mut self, datetime: DateTime)
        ensures
            final(self).datetime_spec() == datetime,
            final(self).kind_spec() == old(self).kind_spec(),
            final(self).changed_slot() == old(self).changed_slot(),
    {
        self.datetime = datetime;
    }

    /// Registers the callback for user-driven changes, fully superseding any
    /// previously registered one. Requires an initialized toolkit.
    pub fn on_changed(&mut self, _ctx: &UI, callback: Handle)
        ensures
            final(self).changed_slot() == Some(callback),
            final(self).kind_spec() == old(self).kind_spec(),
            final(self).datetime_spec() == old(self).datetime_spec(),
    {
        self.changed = Some(callback);
    }

    /// A user-driven change: commits the picked instant and owes exactly one
    /// run of exactly the currently registered callback, or nothing if no
    /// callback is registered.
    pub fn deliver_changed(&mut self, datetime: DateTime) -> (r: Option<Handle>)
        ensures
            final(self).datetime_spec() == datetime,
            final(self).kind_spec() == old(self).kind_spec(),
            final(self).changed_slot() == old(self).changed_slot(),
            r == old(self).changed_slot(),
    {
        self.datetime = datetime;
        self.changed
    }
}

} // verus!
