//! Controls to select one item from a predefined list of items.

use crate::registry::Handle;
use crate::registry::Invocation;
use crate::ui::UI;
use vstd::prelude::*;

verus! {

/// Allows the user to select any one of its options, from a list shown only
/// when selected.
pub struct Combobox {
    items: Vec<String>,
    selected: i32,
    on_selected: Option<Handle>,
}

impl Combobox {
    /// The option count fits the index type the boundary uses. Established by
    /// `new` and kept by every operation.
    pub closed spec fn wf(&self) -> bool {
        self.items@.len() <= i32::MAX
    }

    /// The options, in display order.
    pub closed spec fn items_spec(&self) -> Seq<Seq<char>> {
        self.items.deep_view()
    }

    /// The index of the selected option, or `-1` for none.
    pub closed spec fn selected_spec(&self) -> int {
        self.selected as int
    }

    /// The callback slot for selection events.
    pub closed spec fn selected_slot(&self) -> Option<Handle> {
        self.on_selected
    }

    /// Create a new Combobox with no options and nothing selected.
    pub fn new() -> (r: Combobox)
        ensures
            r.wf(),
            r.items_spec() == Seq::<Seq<char>>::empty(),
            r.selected_spec() == -1,
            r.selected_slot() is None,
    {
        let r = Combobox { items: Vec::new(), selected: -1, on_selected: None };
        proof {
            assert(r.items_spec() =~= Seq::<Seq<char>>::empty());
        }
        r
    }

    /// Adds a new option at the end of the combo box.
    pub fn append(&mut self, name: &str)
        requires
            old(self).items_spec().len() < i32::MAX,
        ensures
            final(self).wf(),
            final(self).items_spec() == old(self).items_spec().push(name@),
            final(self).selected_spec() == old(self).selected_spec(),
            final(self).selected_slot() == old(self).selected_slot(),
    {
        self.items.push(name.to_owned());
        proof {
            assert(self.items_spec() =~= old(self).items_spec().push(name@));
        }
    }

    /// Inserts an option at `index`; the option there and all options after
    /// it move down one place. An index outside `0 ..= count` inserts
    /// nothing. A selection pointing at an option keeps pointing at the same
    /// option.
    pub fn insert_at(&mut self, index: i32, name: &str)
        requires
            old(self).items_spec().len() < i32::MAX,
        ensures
            final(self).wf(),
            final(self).selected_slot() == old(self).selected_slot(),
            0 <= index <= old(self).items_spec().len() ==> {
                &&& final(self).items_spec() == old(self).items_spec().insert(index as int, name@)
                &&& final(self).selected_spec() == if index <= old(self).selected_spec() < old(
                    self,
                ).items_spec().len() {
                    old(self).selected_spec() + 1
                } else {
                    old(self).selected_spec()
                }
            },
            !(0 <= index <= old(self).items_spec().len()) ==> final(self).items_spec() == old(
                self,
            ).items_spec() && final(self).selected_spec() == old(self).selected_spec(),
    {
        if index >= 0 && (index as usize) <= self.items.len() {
            let n = self.items.len();
            self.items.insert(index as usize, name.to_owned());
            if self.selected >= index && (self.selected as usize) < n {
                self.selected = self.selected + 1;
            }
            proof {
                assert(self.items_spec() =~= old(self).items_spec().insert(index as int, name@));
            }
        }
    }

    /// Deletes the option at `index`; an index the combo box does not have
    /// deletes nothing. Deleting the index of the option currently selected
    /// moves the selection to the next option, or to `-1` if no such option
    /// exists; deleting an earlier option keeps the same option selected.
    pub fn delete(&mut self, index: i32)
        requires
            old(self).wf(),
        ensures
            final(self).wf(),
            final(self).selected_slot() == old(self).selected_slot(),
            0 <= index < old(self).items_spec().len() ==> {
                &&& final(self).items_spec() == old(self).items_spec().remove(index as int)
                &&& final(self).selected_spec() == if old(self).selected_spec() == index {
                    if index < old(self).items_spec().len() - 1 {
                        index as int
                    } else {
                        -1
                    }
                } else if old(self).selected_spec() > index {
                    old(self).selected_spec() - 1
                } else {
                    old(self).selected_spec()
                }
            },
            !(0 <= index < old(self).items_spec().len()) ==> final(self).items_spec() == old(
                self,
            ).items_spec() && final(self).selected_spec() == old(self).selected_spec(),
    {
        if index >= 0 && (index as usize) < self.items.len() {
            let last = self.items.len() - 1;
            self.items.remove(index as usize);
            if self.selected == index {
                if (index as usize) < last {
                } else {
                    self.selected = -1;
                }
            } else if self.selected > index {
                self.selected = self.selected - 1;
            }
            proof {
                assert(self.items_spec() =~= old(self).items_spec().remove(index as int));
            }
        }
    }

    /// Deletes all options; nothing is selected afterwards.
    pub fn clear(&mut self)
        ensures
            final(self).wf(),
            final(self).items_spec() == Seq::<Seq<char>>::empty(),
            final(self).selected_spec() == -1,
            final(self).selected_slot() == old(self).selected_slot(),
    {
        self.items.clear();
        self.selected = -1;
        proof {
            assert(self.items_spec() =~= Seq::<Seq<char>>::empty());
        }
    }

    /// Returns the number of options contained within the combo box.
    pub fn count(&self) -> (r: i32)
        requires
            self.wf(),
        ensures
            r as int == self.items_spec().len(),
    {
        self.items.len() as i32
    }

    /// Returns the index of the currently selected option, `-1` for none.
    pub fn selected(&self) -> (r: i32)
        ensures
            r as int == self.selected_spec(),
    {
        self.selected
    }

    /// Selects the option at `value`, or deselects with `-1`, programmatically
    /// and quietly. A value the combo box has no option for is ignored.
    pub fn set_selected(&mut self, value: i32)
        requires
            old(self).wf(),
        ensures
            final(self).wf(),
            final(self).items_spec() == old(self).items_spec(),
            final(self).selected_slot() == old(self).selected_slot(),
            final(self).selected_spec() == if -1 <= value < old(self).items_spec().len() {
                value as int
            } else {
                old(self).selected_spec()
            },
    {
        if value >= -1 && ((value == -1) || (value as usize) < self.items.len()) {
            self.selected = value;
        }
    }

    /// Registers the callback for user selections, fully superseding any
    /// previously registered one. Not fired by `set_selected`. Requires an
    /// initialized toolkit.
    pub fn on_selected(&mut self, _ctx: &UI, callback: Handle)
        ensures
            final(self).selected_slot() == Some(callback),
            final(self).items_spec() == old(self).items_spec(),
            final(self).selected_spec() == old(self).selected_spec(),
    {
        self.on_selected = Some(callback);
    }

    /// A user selection: commits the picked index and owes exactly one run of
    /// exactly the currently registered callback, with the picked index as
    /// its argument, or nothing if no callback is registered.
    pub fn deliver_selected(&mut self, index: i32) -> (r: Option<Invocation<i32>>)
        ensures
            final(self).wf() == old(self).wf(),
            final(self).items_spec() == old(self).items_spec(),
            final(self).selected_spec() == index,
            final(self).selected_slot() == old(self).selected_slot(),
            r == match old(self).selected_slot() {
                Some(h) => Some(Invocation { handle: h, arg: index }),
                None => None::<Invocation<i32>>,
            },
    {
        self.selected = index;
        match self.on_selected {
            Some(h) => Some(Invocation { handle: h, arg: index }),
            None => None,
        }
    }
}

/// A control to select one item from a predefined list of items or enter
/// ones own.
pub struct EditableCombobox {
    items: Vec<String>,
    text: String,
    changed: Option<Handle>,
}

impl EditableCombobox {
    /// The predefined options, in display order.
    pub closed spec fn items_spec(&self) -> Seq<Seq<char>> {
        self.items.deep_view()
    }

    /// The current text: either one of the options or what the user typed.
    pub closed spec fn text_spec(&self) -> Seq<char> {
        self.text@
    }

    /// The callback slot for changed events.
    pub closed spec fn changed_slot(&self) -> Option<Handle> {
        self.changed
    }

    /// Creates a new editable combobox with no options and empty text.
    pub fn new() -> (r: EditableCombobox)
        ensures
            r.items_spec() == Seq::<Seq<char>>::empty(),
            r.text_spec() == Seq::<char>::empty(),
            r.changed_slot() is None,
    {
        let r = EditableCombobox { items: Vec::new(), text: String::new(), changed: None };
        proof {
            assert(r.items_spec() =~= Seq::<Seq<char>>::empty());
        }
        r
    }

    /// Adds a new option at the end of the combobox.
    pub fn append(&mut self, name: &str)
        ensures
            final(self).items_spec() == old(self).items_spec().push(name@),
            final(self).text_spec() == old(self).text_spec(),
            final(self).changed_slot() == old(self).changed_slot(),
    {
        self.items.push(name.to_owned());
        proof {
            assert(self.items_spec() =~= old(self).items_spec().push(name@));
        }
    }

    /// Returns the text of the editable combobox: the text of one of the
    /// predefined options, or the text manually entered by the user.
    pub fn value(&self) -> (r: String)
        ensures
            r@ == self.text_spec(),
    {
        self.text.clone()
    }

    /// Sets the editable combobox text programmatically. Quiet: never fires
    /// the changed callback.
    pub fn set_value(&mut self, value: &str)
        ensures
            final(self).text_spec() == value@,
            final(self).items_spec() == old(self).items_spec(),
            final(self).changed_slot() == old(self).changed_slot(),
    {
        self.text = value.to_owned();
    }

    /// Registers the callback for when an option is selected or the user text
    /// changed, fully superseding any previously registered one. Not fired by
    /// `set_value`. Requires an initialized toolkit.
    pub fn on_changed(&mut self, _ctx: &UI, callback: Handle)
        ensures
            final(self).changed_slot() == Some(callback),
            final(self).items_spec() == old(self).items_spec(),
            final(self).text_spec() == old(self).text_spec(),
    {
        self.changed = Some(callback);
    }

    /// A user-driven change: commits the new text and owes exactly one run of
    /// exactly the currently registered callback, with the new text as its
    /// argument, or nothing if no callback is registered.
    pub fn deliver_changed(&mut self, text: &str) -> (r: Option<Invocation<String>>)
        ensures
            final(self).text_spec() == text@,
            final(self).items_spec() == old(self).items_spec(),
            final(self).changed_slot() == old(self).changed_slot(),
            match old(self).changed_slot() {
                Some(h) => r matches Some(inv) && inv.handle == h && inv.arg@ == text@,
                None => r is None,
            },
    {
        self.text = text.to_owned();
        match self.changed {
            Some(h) => Some(Invocation { handle: h, arg: text.to_owned() }),
            None => None,
        }
    }
}

} // verus!
