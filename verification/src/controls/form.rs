//! A container that labels its children.
//!
//! Labels and controls are organized into two panes, making both labels and
//! controls align with each other.

use vstd::prelude::*;

verus! {

/// How a child takes part in its container's layout.
#[derive(Copy, Clone, Debug, PartialEq, Eq, Structural)]
pub enum LayoutStrategy {
    /// The child takes exactly the room it needs.
    Compact,
    /// The child grows to fill the room the container has to spare.
    Stretchy,
}

/// One row of a form, as the contracts see it: the label shown beside the
/// child and how the child is laid out.
pub struct FormRowSpec {
    /// The label shown beside the child.
    pub label: Seq<char>,
    /// How the child is laid out.
    pub strategy: LayoutStrategy,
}

struct FormRow {
    label: String,
    strategy: LayoutStrategy,
}

impl View for FormRow {
    type V = FormRowSpec;

    closed spec fn view(&self) -> FormRowSpec {
        FormRowSpec { label: self.label@, strategy: self.strategy }
    }
}

/// A container that labels its children.
pub struct Form {
    rows: Vec<FormRow>,
    padded: bool,
}

impl Form {
    /// The row count fits the index type the boundary uses. Established by
    /// `new` and kept by every operation.
    pub closed spec fn wf(&self) -> bool {
        self.rows@.len() <= i32::MAX
    }

    /// The rows, in display order.
    pub closed spec fn rows_spec(&self) -> Seq<FormRowSpec> {
        self.rows@.map_values(|r: FormRow| r@)
    }

    /// Whether the form leaves space between its children.
    pub closed spec fn padded_spec(&self) -> bool {
        self.padded
    }

    /// Create a new Form with no rows and no padding between children.
    pub fn new() -> (r: Form)
        ensures
            r.wf(),
            r.rows_spec() == Seq::<FormRowSpec>::empty(),
            !r.padded_spec(),
    {
        let r = Form { rows: Vec::new(), padded: false };
        proof {
            assert(r.rows_spec() =~= Seq::<FormRowSpec>::empty());
        }
        r
    }

    /// Returns whether the form leaves space between its children.
    pub fn padded(&self) -> (r: bool)
        ensures
            r == self.padded_spec(),
    {
        self.padded
    }

    /// Sets whether the form leaves space between its children.
    pub fn set_padded(&mut self, padded: bool)
        ensures
            final(self).padded_spec() == padded,
            final(self).rows_spec() == old(self).rows_spec(),
            final(self).wf() == old(self).wf(),
    {
        self.padded = padded;
    }

    /// Appends a child with a label to the form.
    pub fn append(&mut self, label: &str, strategy: LayoutStrategy)
        requires
            old(self).rows_spec().len() < i32::MAX,
        ensures
            final(self).wf(),
            final(self).rows_spec() == old(self).rows_spec().push(
                FormRowSpec { label: label@, strategy },
            ),
            final(self).padded_spec() == old(self).padded_spec(),
    {
        self.rows.push(FormRow { label: label.to_owned(), strategy });
        proof {
            assert(self.rows_spec() =~= old(self).rows_spec().push(
                FormRowSpec { label: label@, strategy },
            ));
        }
    }

    /// Returns the number of children contained within the form.
    pub fn count(&self) -> (r: i32)
        requires
            self.wf(),
        ensures
            r as int == self.rows_spec().len(),
    {
        self.rows.len() as i32
    }

    /// Removes the child at `index` from the form; an index the form does not
    /// have removes nothing.
    pub fn delete(&mut self, index: i32)
        ensures
            old(self).wf() ==> final(self).wf(),
            final(self).padded_spec() == old(self).padded_spec(),
            0 <= index < old(self).rows_spec().len() ==> final(self).rows_spec() == old(
                self,
            ).rows_spec().remove(index as int),
            !(0 <= index < old(self).rows_spec().len()) ==> final(self).rows_spec() == old(
                self,
            ).rows_spec(),
    {
        if index >= 0 && (index as usize) < self.rows.len() {
            self.rows.remove(index as usize);
            proof {
                assert(self.rows_spec() =~= old(self).rows_spec().remove(index as int));
            }
        }
    }
}

} // verus!
