//! A set of toggles; only one can be selected at a time.

use crate::registry::Handle;
use crate::registry::Invocation;
use crate::ui::UI;
use vstd::prelude::*;

verus! {

/// A set of toggles; only one can be selected at a time.
pub struct RadioButtons {
    items: Vec<String>,
    selected: i32,
    on_selected: Option<Handle>,
}

impl RadioButtons {
    /// The toggle count fits the index type the boundary uses. Established by
    /// `new` and kept by every operation.
    pub closed spec fn wf(&self) -> bool {
        self.items@.len() <= i32::MAX
    }

    /// The toggle labels, in display order.
    pub closed spec fn items_spec(&self) -> Seq<Seq<char>> {
        self.items.deep_view()
    }

    /// The index of the selected toggle, or `-1` for none.
    pub closed spec fn selected_spec(&self) -> int {
        self.selected as int
    }

    /// The callback slot for selection events.
    pub closed spec fn selected_slot(&self) -> Option<Handle> {
        self.on_selected
    }

    /// A new set with no toggles and nothing selected.
    pub fn new() -> (r: RadioButtons)
        ensures
            r.wf(),
            r.items_spec() == Seq::<Seq<char>>::empty(),
            r.selected_spec() == -1,
            r.selected_slot() is None,
    {
        let r = RadioButtons { items: Vec::new(), selected: -1, on_selected: None };
        proof {
            assert(r.items_spec() =~= Seq::<Seq<char>>::empty());
        }
        r
    }

    /// Adds a toggle at the end of the set.
    pub fn append(&mut self, name: &str)
        requires
            old(self).items_spec().len() < i32::MAX,
        ensures
            final(self).wf(),
            final(self).items_spec() == old(self).items_spec().push(name@),
            final(self).selected_spec() == old(self).selected_spec(),
            final(self).selected_slot() == old(self).selected_slot(),
    {
        self.items.push(name.to_owned());
        proof {
            assert(self.items_spec() =~= old(self).items_spec().push(name@));
        }
    }

    /// Returns the index of the selected toggle, `-1` for none.
    pub fn selected(&self) -> (r: i32)
        ensures
            r as int == self.selected_spec(),
    {
        self.selected
    }

    /// Selects the toggle at `idx`, or deselects with `-1`, programmatically
    /// and quietly. An index the set has no toggle for is ignored.
    pub fn set_selected(&mut self, idx: i32)
        requires
            old(self).wf(),
        ensures
            final(self).wf(),
            final(self).items_spec() == old(self).items_spec(),
            final(self).selected_slot() == old(self).selected_slot(),
            final(self).selected_spec() == if -1 <= idx < old(self).items_spec().len() {
                idx as int
            } else {
                old(self).selected_spec()
            },
    {
        if idx >= -1 && ((idx == -1) || (idx as usize) < self.items.len()) {
            self.selected = idx;
        }
    }

    /// Registers the callback for user selections, fully superseding any
    /// previously registered one. Not fired by `set_selected`. Requires an
    /// initialized toolkit.
    pub fn on_selected(&mut self, _ctx: &UI, callback: Handle)
        ensures
            final(self).selected_slot() == Some(callback),
            final(self).items_spec() == old(self).items_spec(),
            final(self).selected_spec() == old(self).selected_spec(),
    {
        self.on_selected = Some(callback);
    }

    /// A user selection: commits the picked index and owes exactly one run of
    /// exactly the currently registered callback, with the picked index as
    /// its argument, or nothing if no callback is registered.
    pub fn deliver_selected(&mut self, index: i32) -> (r: Option<Invocation<i32>>)
        ensures
            final(self).wf() == old(self).wf(),
            final(self).items_spec() == old(self).items_spec(),
            final(self).selected_spec() == index,
            final(self).selected_slot() == old(self).selected_slot(),
            r == match old(self).selected_slot() {
                Some(h) => Some(Invocation { handle: h, arg: index }),
                None => None::<Invocation<i32>>,
            },
    {
        self.selected = index;
        match self.on_selected {
            Some(h) => Some(Invocation { handle: h, arg: index }),
            None => None,
        }
    }
}

} // verus!
