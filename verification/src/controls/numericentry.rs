//! Numeric input mechanisms in various forms.

use crate::registry::Handle;
use crate::registry::Invocation;
use vstd::prelude::*;

verus! {

/// `v` forced into the closed interval from `lo` to `hi` (with `lo <= hi`).
pub open spec fn clamped(v: int, lo: int, hi: int) -> int {
    if v < lo {
        lo
    } else if v > hi {
        hi
    } else {
        v
    }
}

/// A control that holds one numeric value inside a fixed range.
pub trait NumericEntry {
    /// The value the control currently holds.
    spec fn numeric_value(&self) -> int;

    /// The smallest value the control can hold.
    spec fn min_value(&self) -> int;

    /// The largest value the control can hold.
    spec fn max_value(&self) -> int;

    /// The callback slot for value-changed events.
    spec fn changed_slot(&self) -> Option<Handle>;

    /// Reads the value the control currently holds.
    fn value(&self) -> (r: i32)
        ensures
            r as int == self.numeric_value(),
    ;

    /// Sets the value programmatically, clamped into the control's range.
    /// A programmatic set commits the value quietly: it never fires the
    /// changed callback.
    fn set_value(&mut self, value: i32)
        ensures
            final(self).numeric_value() == clamped(
                value as int,
                old(self).min_value(),
                old(self).max_value(),
            ),
            final(self).min_value() == old(self).min_value(),
            final(self).max_value() == old(self).max_value(),
            final(self).changed_slot() == old(self).changed_slot(),
    ;

    /// Registers the callback for value-changed events, fully superseding any
    /// previously registered one: every later change event is owed to
    /// `callback` and to nothing else.
    fn on_changed(&mut self, callback: Handle)
        ensures
            final(self).changed_slot() == Some(callback),
            final(self).numeric_value() == old(self).numeric_value(),
            final(self).min_value() == old(self).min_value(),
            final(self).max_value() == old(self).max_value(),
    ;
}

/// Numerical entry control which allows users to set any value in a range by
/// typing or incrementing/decrementing.
pub struct Spinbox {
    min: i32,
    max: i32,
    value: i32,
    changed: Option<Handle>,
}

/// Numerical entry which allows users to select a value by picking a location
/// along a line.
pub struct Slider {
    min: i32,
    max: i32,
    value: i32,
    changed: Option<Handle>,
}

impl Spinbox {
    /// Create a new Spinbox which can produce values from `min` to `max`
    /// (the bounds are put in order if they arrive swapped). It starts at the
    /// smallest value, with no callback registered.
    pub fn new(min: i32, max: i32) -> (r: Spinbox)
        ensures
            r.min_value() == if min <= max {
                min as int
            } else {
                max as int
            },
            r.max_value() == if min <= max {
                max as int
            } else {
                min as int
            },
            r.numeric_value() == r.min_value(),
            r.changed_slot() is None,
    {
        if min <= max {
            Spinbox { min, max, value: min, changed: None }
        } else {
            Spinbox { min: max, max: min, value: max, changed: None }
        }
    }

    /// Create a new Spinbox with the maximum possible range.
    pub fn new_unlimited() -> (r: Spinbox)
        ensures
            r.min_value() == i32::MIN,
            r.max_value() == i32::MAX,
            r.numeric_value() == i32::MIN,
            r.changed_slot() is None,
    {
        Spinbox::new(i32::MIN, i32::MAX)
    }

    /// A user- or toolkit-driven change: commits `value` (clamped into range)
    /// and decides what is owed — exactly one run of exactly the currently
    /// registered callback, with the committed value as its argument, or
    /// nothing if no callback is registered.
    pub fn deliver_changed(&mut self, value: i32) -> (r: Option<Invocation<i32>>)
        ensures
            final(self).numeric_value() == clamped(
                value as int,
                old(self).min_value(),
                old(self).max_value(),
            ),
            final(self).min_value() == old(self).min_value(),
            final(self).max_value() == old(self).max_value(),
            final(self).changed_slot() == old(self).changed_slot(),
            r == match old(self).changed_slot() {
                Some(h) => Some(
                    Invocation {
                        handle: h,
                        arg: clamped(
                            value as int,
                            old(self).min_value(),
                            old(self).max_value(),
                        ) as i32,
                    },
                ),
                None => None::<Invocation<i32>>,
            },
    {
        let committed = if value < self.min {
            self.min
        } else if value > self.max {
            self.max
        } else {
            value
        };
        self.value = committed;
        match self.changed {
            Some(h) => Some(Invocation { handle: h, arg: committed }),
            None => None,
        }
    }
}

impl NumericEntry for Spinbox {
    closed spec fn numeric_value(&self) -> int {
        self.value as int
    }

    closed spec fn min_value(&self) -> int {
        self.min as int
    }

    closed spec fn max_value(&self) -> int {
        self.max as int
    }

    closed spec fn changed_slot(&self) -> Option<Handle> {
        self.changed
    }

    fn value(&self) -> i32 {
        self.value
    }

    fn set_value(&mut self, value: i32) {
        if value < self.min {
            self.value = self.min;
        } else if value > self.max {
            self.value = self.max;
        } else {
            self.value = value;
        }
    }

    fn on_changed(&mut self, callback: Handle) {
        self.changed = Some(callback);
    }
}

impl Slider {
    /// Create a new Slider which can produce values from `min` to `max`
    /// (the bounds are put in order if they arrive swapped). It starts at the
    /// smallest value, with no callback registered.
    pub fn new(min: i32, max: i32) -> (r: Slider)
        ensures
            r.min_value() == if min <= max {
                min as int
            } else {
                max as int
            },
            r.max_value() == if min <= max {
                max as int
            } else {
                min as int
            },
            r.numeric_value() == r.min_value(),
            r.changed_slot() is None,
    {
        if min <= max {
            Slider { min, max, value: min, changed: None }
        } else {
            Slider { min: max, max: min, value: max, changed: None }
        }
    }

    /// A user- or toolkit-driven change: commits `value` (clamped into range)
    /// and decides what is owed — exactly one run of exactly the currently
    /// registered callback, with the committed value as its argument, or
    /// nothing if no callback is registered.
    pub fn deliver_changed(&mut self, value: i32) -> (r: Option<Invocation<i32>>)
        ensures
            final(self).numeric_value() == clamped(
                value as int,
                old(self).min_value(),
                old(self).max_value(),
            ),
            final(self).min_value() == old(self).min_value(),
            final(self).max_value() == old(self).max_value(),
            final(self).changed_slot() == old(self).changed_slot(),
            r == match old(self).changed_slot() {
                Some(h) => Some(
                    Invocation {
                        handle: h,
                        arg: clamped(
                            value as int,
                            old(self).min_value(),
                            old(self).max_value(),
                        ) as i32,
                    },
                ),
                None => None::<Invocation<i32>>,
            },
    {
        let committed = if value < self.min {
            self.min
        } else if value > self.max {
            self.max
        } else {
            value
        };
        self.value = committed;
        match self.changed {
            Some(h) => Some(Invocation { handle: h, arg: committed }),
            None => None,
        }
    }
}

impl NumericEntry for Slider {
    closed spec fn numeric_value(&self) -> int {
        self.value as int
    }

    closed spec fn min_value(&self) -> int {
        self.min as int
    }

    closed spec fn max_value(&self) -> int {
        self.max as int
    }

    closed spec fn changed_slot(&self) -> Option<Handle> {
        self.changed
    }

    fn value(&self) -> i32 {
        self.value
    }

    fn set_value(&mut self, value: i32) {
        if value < self.min {
            self.value = self.min;
        } else if value > self.max {
            self.value = self.max;
        } else {
            self.value = value;
        }
    }

    fn on_changed(&mut self, callback: Handle) {
        self.changed = Some(callback);
    }
}

} // verus!
