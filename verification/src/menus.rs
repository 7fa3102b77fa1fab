//! Menus that appear at the top of windows, and the items that go in them.
//!
//! The menu bar is unique per application: creating a new `Menu` shows it on
//! all windows that support displaying menus.

use crate::registry::Handle;
use vstd::prelude::*;

verus! {

/// A `MenuItem` represents an item that is shown in a `Menu`. Note that,
/// unlike many controls, the text on `MenuItem`s cannot be changed after
/// creation.
pub struct MenuItem {
    text: String,
    checkable: bool,
    enabled: bool,
    checked: bool,
    clicked: Option<Handle>,
}

impl MenuItem {
    /// The text shown on the item.
    pub closed spec fn text_spec(&self) -> Seq<char> {
        self.text@
    }

    /// Whether the item carries a check mark the user can toggle.
    pub closed spec fn checkable_spec(&self) -> bool {
        self.checkable
    }

    /// Whether the item can be selected.
    pub closed spec fn enabled_spec(&self) -> bool {
        self.enabled
    }

    /// Whether the item is checked.
    pub closed spec fn checked_spec(&self) -> bool {
        self.checked
    }

    /// The callback slot for click events.
    pub closed spec fn clicked_slot(&self) -> Option<Handle> {
        self.clicked
    }

    /// Enables the item, allowing it to be selected. This is the default
    /// state of a menu item.
    pub fn enable(&mut self)
        ensures
            final(self).enabled_spec(),
            final(self).text_spec() == old(self).text_spec(),
            final(self).checkable_spec() == old(self).checkable_spec(),
            final(self).checked_spec() == old(self).checked_spec(),
            final(self).clicked_slot() == old(self).clicked_slot(),
    {
        self.enabled = true;
    }

    /// Disables the item, preventing it from being selected and providing a
    /// visual cue to the user that it cannot be selected.
    pub fn disable(&mut self)
        ensures
            !final(self).enabled_spec(),
            final(self).text_spec() == old(self).text_spec(),
            final(self).checkable_spec() == old(self).checkable_spec(),
            final(self).checked_spec() == old(self).checked_spec(),
            final(self).clicked_slot() == old(self).clicked_slot(),
    {
        self.enabled = false;
    }

    /// Returns `true` if the menu item is checked, and false if it is not
    /// checked (or not checkable).
    pub fn checked(&self) -> (r: bool)
        ensures
            r == self.checked_spec(),
    {
        self.checked
    }

    /// Sets the menu item to either checked or unchecked based on the given
    /// value. Setting the checked value of a non-checkable menu item has no
    /// effect.
    pub fn set_checked(&mut self, checked: bool)
        ensures
            final(self).checked_spec() == if old(self).checkable_spec() {
                checked
            } else {
                old(self).checked_spec()
            },
            final(self).text_spec() == old(self).text_spec(),
            final(self).checkable_spec() == old(self).checkable_spec(),
            final(self).enabled_spec() == old(self).enabled_spec(),
            final(self).clicked_slot() == old(self).clicked_slot(),
    {
        if self.checkable {
            self.checked = checked;
        }
    }

    /// Registers the callback executed when the item is clicked/selected,
    /// fully superseding any previously registered one.
    pub fn on_clicked(&mut self, callback: Handle)
        ensures
            final(self).clicked_slot() == Some(callback),
            final(self).text_spec() == old(self).text_spec(),
            final(self).checkable_spec() == old(self).checkable_spec(),
            final(self).enabled_spec() == old(self).enabled_spec(),
            final(self).checked_spec() == old(self).checked_spec(),
    {
        self.clicked = Some(callback);
    }

    /// A user click: an enabled item owes exactly one run of exactly the
    /// currently registered callback; a disabled item cannot be selected and
    /// owes nothing. A checkable item commits its toggled state first, the
    /// way the native menu does before it reports the click.
    pub fn deliver_clicked(&mut self) -> (r: Option<Handle>)
        ensures
            old(self).enabled_spec() ==> r == old(self).clicked_slot(),
            !old(self).enabled_spec() ==> r is None,
            final(self).checked_spec() == if old(self).enabled_spec() && old(
                self,
            ).checkable_spec() {
                !old(self).checked_spec()
            } else {
                old(self).checked_spec()
            },
            final(self).text_spec() == old(self).text_spec(),
            final(self).checkable_spec() == old(self).checkable_spec(),
            final(self).enabled_spec() == old(self).enabled_spec(),
            final(self).clicked_slot() == old(self).clicked_slot(),
    {
        if self.enabled {
            if self.checkable {
                self.checked = !self.checked;
            }
            self.clicked
        } else {
            None
        }
    }
}

/// A `Menu` represents one of the top-level menus at the top of a window.
pub struct Menu {
    name: String,
    items: Vec<String>,
    separators: Vec<usize>,
}

impl Menu {
    /// The name shown in the menu bar.
    pub closed spec fn name_spec(&self) -> Seq<char> {
        self.name@
    }

    /// The texts of the appended items, in display order.
    pub closed spec fn items_spec(&self) -> Seq<Seq<char>> {
        self.items.deep_view()
    }

    /// Where the separating lines stand: for each separator, how many items
    /// had been appended when it was added.
    pub closed spec fn separators_spec(&self) -> Seq<int> {
        self.separators@.map_values(|p: usize| p as int)
    }

    /// Creates a new menu with the given name to be displayed in the menu
    /// bar.
    pub fn new(name: &str) -> (r: Menu)
        ensures
            r.name_spec() == name@,
            r.items_spec() == Seq::<Seq<char>>::empty(),
            r.separators_spec() == Seq::<int>::empty(),
    {
        let r = Menu { name: name.to_owned(), items: Vec::new(), separators: Vec::new() };
        proof {
            assert(r.items_spec() =~= Seq::<Seq<char>>::empty());
            assert(r.separators_spec() =~= Seq::<int>::empty());
        }
        r
    }

    /// Adds a new item with the given name to the menu, handing the item back
    /// to the caller.
    pub fn append_item(&mut self, name: &str) -> (r: MenuItem)
        ensures
            final(self).name_spec() == old(self).name_spec(),
            final(self).items_spec() == old(self).items_spec().push(name@),
            final(self).separators_spec() == old(self).separators_spec(),
            r.text_spec() == name@,
            !r.checkable_spec(),
            r.enabled_spec(),
            !r.checked_spec(),
            r.clicked_slot() is None,
    {
        self.items.push(name.to_owned());
        proof {
            assert(self.items_spec() =~= old(self).items_spec().push(name@));
        }
        MenuItem {
            text: name.to_owned(),
            checkable: false,
            enabled: true,
            checked: false,
            clicked: None,
        }
    }

    /// Adds a new item with the given name and a togglable check mark to the
    /// menu, handing the item back to the caller.
    pub fn append_check_item(&mut self, name: &str) -> (r: MenuItem)
        ensures
            final(self).name_spec() == old(self).name_spec(),
            final(self).items_spec() == old(self).items_spec().push(name@),
            final(self).separators_spec() == old(self).separators_spec(),
            r.text_spec() == name@,
            r.checkable_spec(),
            r.enabled_spec(),
            !r.checked_spec(),
            r.clicked_slot() is None,
    {
        self.items.push(name.to_owned());
        proof {
            assert(self.items_spec() =~= old(self).items_spec().push(name@));
        }
        MenuItem {
            text: name.to_owned(),
            checkable: true,
            enabled: true,
            checked: false,
            clicked: None,
        }
    }

    /// Adds a separating line after the items appended so far.
    pub fn append_separator(&mut self)
        ensures
            final(self).name_spec() == old(self).name_spec(),
            final(self).items_spec() == old(self).items_spec(),
            final(self).separators_spec() == old(self).separators_spec().push(
                old(self).items_spec().len() as int,
            ),
    {
        let pos: usize = self.items.len();
        self.separators.push(pos);
        proof {
            assert(self.separators_spec() =~= old(self).separators_spec().push(
                old(self).items_spec().len() as int,
            ));
        }
    }

    /// How many separating lines the menu holds.
    pub fn separator_count(&self) -> (r: usize)
        ensures
            r == self.separators_spec().len(),
    {
        self.separators.len()
    }

    /// Where the separator at `i` stands: how many items had been appended
    /// when it was added, or nothing for an `i` the menu has no separator
    /// for.
    pub fn separator_position(&self, i: usize) -> (r: Option<usize>)
        ensures
            match r {
                Some(p) => i < self.separators_spec().len() && p as int == self.separators_spec()[
                    i as int
                ],
                None => i >= self.separators_spec().len(),
            },
    {
        if i < self.separators.len() {
            Some(self.separators[i])
        } else {
            None
        }
    }
}

} // verus!
