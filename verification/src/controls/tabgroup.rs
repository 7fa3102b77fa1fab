//! A control that shows one of several groups of controls at a time, with a
//! named tab for each group.

use crate::error::UIError;
use vstd::prelude::*;

verus! {

/// The structure of a tab group: the names of its tabs, in display order.
/// Mid-session structural mistakes — removing a tab the group does not have —
/// are reported to the caller, never turned into a crash.
pub struct TabGroup {
    tabs: Vec<String>,
}

impl TabGroup {
    /// Structural validity: the tab count fits the index type the boundary
    /// uses. Established by `new` and kept by every operation.
    pub closed spec fn wf(&self) -> bool {
        self.tabs@.len() <= i32::MAX
    }

    /// The names of the tabs, in display order.
    pub closed spec fn tabs_spec(&self) -> Seq<Seq<char>> {
        self.tabs.deep_view()
    }

    /// A tab group with no tabs.
    pub fn new() -> (r: TabGroup)
        ensures
            r.wf(),
            r.tabs_spec() == Seq::<Seq<char>>::empty(),
    {
        let r = TabGroup { tabs: Vec::new() };
        proof {
            assert(r.tabs_spec() =~= Seq::<Seq<char>>::empty());
        }
        r
    }

    /// How many tabs the group holds.
    pub fn pages(&self) -> (r: i32)
        requires
            self.wf(),
        ensures
            r as int == self.tabs_spec().len(),
    {
        self.tabs.len() as i32
    }

    /// Appends a tab named `name` at the end of the group, returning the new
    /// tab's index.
    pub fn append(&mut self, name: &str) -> (idx: i32)
        requires
            old(self).tabs_spec().len() < i32::MAX,
        ensures
            final(self).wf(),
            final(self).tabs_spec() == old(self).tabs_spec().push(name@),
            idx as int == old(self).tabs_spec().len(),
    {
        let idx = self.tabs.len() as i32;
        self.tabs.push(name.to_owned());
        proof {
            assert(self.tabs_spec() =~= old(self).tabs_spec().push(name@));
        }
        idx
    }

    /// The name of the tab at `index`, if the group has one there.
    pub fn name(&self, index: i32) -> (r: Option<&String>)
        ensures
            match r {
                Some(name) => 0 <= index < self.tabs_spec().len() && name@ == self.tabs_spec()[
                    index as int
                ],
                None => !(0 <= index < self.tabs_spec().len()),
            },
    {
        if index >= 0 && (index as usize) < self.tabs.len() {
            Some(&self.tabs[index as usize])
        } else {
            None
        }
    }

    /// Requests removal of the tab at `index`.
    ///
    /// Inside the group, the tab is removed and the tabs after it move up one
    /// place. Outside the group, the group is left exactly as it was and the
    /// distinct structural error reports both the offending index and the
    /// group's size.
    pub fn delete(&mut self, index: i32) -> (r: Result<(), UIError>)
        requires
            old(self).wf(),
        ensures
            final(self).wf(),
            0 <= index < old(self).tabs_spec().len() ==> r is Ok && final(self).tabs_spec() == old(
                self,
            ).tabs_spec().remove(index as int),
            !(0 <= index < old(self).tabs_spec().len()) ==> final(self).tabs_spec() == old(
                self,
            ).tabs_spec() && r == Err::<(), UIError>(
                UIError::TabGroupIndexOutOfBounds {
                    index,
                    n: old(self).tabs_spec().len() as i32,
                },
            ),
    {
        if index >= 0 && (index as usize) < self.tabs.len() {
            self.tabs.remove(index as usize);
            proof {
                assert(self.tabs_spec() =~= old(self).tabs_spec().remove(index as int));
            }
            Ok(())
        } else {
            Err(UIError::TabGroupIndexOutOfBounds { index, n: self.tabs.len() as i32 })
        }
    }
}

} // verus!
