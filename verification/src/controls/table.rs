//! A tabular control that can be used to display and edit data.
//!
//! The table itself stores no cell data: it is a view on a model owned by the
//! application. What the control itself commits — which columns were
//! appended, the header's visibility and sort indicators, the selection and
//! its mode, and the callback slots — is modelled here.

use crate::registry::Handle;
use crate::registry::Invocation;
use vstd::prelude::*;

verus! {

/// An enum of possible `Table` cell/column types.
#[derive(Copy, Clone, Debug, PartialEq, Eq, Structural)]
pub enum TableValueType {
    String,
    Image,
    Int,
    Color,
}

/// Describes a visual sorting indicator for `Table` columns.
#[derive(Copy, Clone, Debug, PartialEq, Eq, Structural)]
pub enum SortIndicator {
    Unsorted,
    Ascending,
    Descending,
}

/// Describes how many `Table` rows can be selected.
#[derive(Copy, Clone, Debug, PartialEq, Eq, Structural)]
pub enum SelectionMode {
    NoSelection,
    ZeroOrOne,
    One,
    ZeroOrMany,
}

/// Whether a selection of `n` rows is legal under `mode`.
pub open spec fn selection_allowed(mode: SelectionMode, n: nat) -> bool {
    match mode {
        SelectionMode::NoSelection => n == 0,
        SelectionMode::ZeroOrOne => n <= 1,
        SelectionMode::One => n == 1,
        SelectionMode::ZeroOrMany => true,
    }
}

/// A structure holding additional information on text columns.
#[derive(Copy, Clone, Debug, PartialEq, Eq, Structural)]
pub struct TextColumnParameters {
    /// Index of the model column holding each row's text color, or `-1` for
    /// the default text color.
    pub text_color_column: i32,
}

impl Default for TextColumnParameters {
    fn default() -> (r: Self)
        ensures
            r.text_color_column == -1,
    {
        TextColumnParameters { text_color_column: -1 }
    }
}

/// One appended column, as the contracts see it: its header and which model
/// columns feed it.
pub enum ColumnSpec {
    Text { title: Seq<char>, text_model_column: int, state_model_column: int, text_color_column: int },
    Checkbox { title: Seq<char>, check_model_column: int, state_model_column: int },
    CheckboxText {
        title: Seq<char>,
        check_model_column: int,
        state_model_column: int,
        text_model_column: int,
        text_state_model_column: int,
    },
    ProgressBar { title: Seq<char>, model_column: int },
    Button { title: Seq<char>, btn_model_column: int, state_model_column: int },
}

enum TableColumn {
    Text { title: String, text_model_column: i32, state_model_column: i32, text_color_column: i32 },
    Checkbox { title: String, check_model_column: i32, state_model_column: i32 },
    CheckboxText {
        title: String,
        check_model_column: i32,
        state_model_column: i32,
        text_model_column: i32,
        text_state_model_column: i32,
    },
    ProgressBar { title: String, model_column: i32 },
    Button { title: String, btn_model_column: i32, state_model_column: i32 },
}

impl View for TableColumn {
    type V = ColumnSpec;

    closed spec fn view(&self) -> ColumnSpec {
        match self {
            TableColumn::Text { title, text_model_column, state_model_column, text_color_column } => {
                ColumnSpec::Text {
                    title: title@,
                    text_model_column: *text_model_column as int,
                    state_model_column: *state_model_column as int,
                    text_color_column: *text_color_column as int,
                }
            },
            TableColumn::Checkbox { title, check_model_column, state_model_column } => {
                ColumnSpec::Checkbox {
                    title: title@,
                    check_model_column: *check_model_column as int,
                    state_model_column: *state_model_column as int,
                }
            },
            TableColumn::CheckboxText {
                title,
                check_model_column,
                state_model_column,
                text_model_column,
                text_state_model_column,
            } => {
                ColumnSpec::CheckboxText {
                    title: title@,
                    check_model_column: *check_model_column as int,
                    state_model_column: *state_model_column as int,
                    text_model_column: *text_model_column as int,
                    text_state_model_column: *text_state_model_column as int,
                }
            },
            TableColumn::ProgressBar { title, model_column } => {
                ColumnSpec::ProgressBar { title: title@, model_column: *model_column as int }
            },
            TableColumn::Button { title, btn_model_column, state_model_column } => {
                ColumnSpec::Button {
                    title: title@,
                    btn_model_column: *btn_model_column as int,
                    state_model_column: *state_model_column as int,
                }
            },
        }
    }
}

/// What a `Table` commits, as the contracts see it.
pub struct TableView {
    /// The appended columns, in display order.
    pub columns: Seq<ColumnSpec>,
    /// The sort indicator shown in each column's header.
    pub sort: Seq<SortIndicator>,
    /// Whether the header row is shown.
    pub header_visible: bool,
    /// How many rows can be selected.
    pub selection_mode: SelectionMode,
    /// The selected rows.
    pub selection: Seq<i32>,
    /// The callback slot for selection-changed events.
    pub selection_changed: Option<Handle>,
    /// The callback slot for single clicks on a row.
    pub row_clicked: Option<Handle>,
    /// The callback slot for double clicks on a row.
    pub row_double_clicked: Option<Handle>,
    /// The callback slot for clicks on a column header.
    pub header_clicked: Option<Handle>,
}

/// The table control.
pub struct Table {
    columns: Vec<TableColumn>,
    sort: Vec<SortIndicator>,
    header_visible: bool,
    selection_mode: SelectionMode,
    selection: Vec<i32>,
    selection_changed: Option<Handle>,
    row_clicked: Option<Handle>,
    row_double_clicked: Option<Handle>,
    header_clicked: Option<Handle>,
}

impl View for Table {
    type V = TableView;

    closed spec fn view(&self) -> TableView {
        TableView {
            columns: self.columns@.map_values(|c: TableColumn| c@),
            sort: self.sort@,
            header_visible: self.header_visible,
            selection_mode: self.selection_mode,
            selection: self.selection@,
            selection_changed: self.selection_changed,
            row_clicked: self.row_clicked,
            row_double_clicked: self.row_double_clicked,
            header_clicked: self.header_clicked,
        }
    }
}

impl Table {
    /// Instantiates a new `Table`: no columns yet, a visible header, at most
    /// one row selectable, nothing selected and no callbacks registered.
    pub fn new() -> (r: Table)
        ensures
            r@.columns == Seq::<ColumnSpec>::empty(),
            r@.sort == Seq::<SortIndicator>::empty(),
            r@.header_visible,
            r@.selection_mode == SelectionMode::ZeroOrOne,
            r@.selection == Seq::<i32>::empty(),
            r@.selection_changed is None,
            r@.row_clicked is None,
            r@.row_double_clicked is None,
            r@.header_clicked is None,
    {
        let r = Table {
            columns: Vec::new(),
            sort: Vec::new(),
            header_visible: true,
            selection_mode: SelectionMode::ZeroOrOne,
            selection: Vec::new(),
            selection_changed: None,
            row_clicked: None,
            row_double_clicked: None,
            header_clicked: None,
        };
        proof {
            assert(r@.columns =~= Seq::<ColumnSpec>::empty());
        }
        r
    }

    /// How many columns have been appended.
    pub fn column_count(&self) -> (r: usize)
        ensures
            r == self@.columns.len(),
    {
        self.columns.len()
    }

    /// Appends a text column: `text_model_column` feeds the text shown,
    /// `state_model_column` says per row whether the text is editable.
    /// Its header starts with no sort indicator.
    pub fn append_text_column(&mut self, title: &str, text_model_column: i32, state_model_column: i32)
        ensures
            final(self)@ == (TableView {
                columns: old(self)@.columns.push(
                    ColumnSpec::Text {
                        title: title@,
                        text_model_column: text_model_column as int,
                        state_model_column: state_model_column as int,
                        text_color_column: -1,
                    },
                ),
                sort: old(self)@.sort.push(SortIndicator::Unsorted),
                ..old(self)@
            }),
    {
        self.append_text_column_with_params(
            title,
            text_model_column,
            state_model_column,
            TextColumnParameters { text_color_column: -1 },
        );
    }

    /// Appends a text column whose text color is fed by the model column
    /// named in `params`, or left default for `-1`.
    pub fn append_text_column_with_params(
        &mut self,
        title: &str,
        text_model_column: i32,
        state_model_column: i32,
        params: TextColumnParameters,
    )
        ensures
            final(self)@ == (TableView {
                columns: old(self)@.columns.push(
                    ColumnSpec::Text {
                        title: title@,
                        text_model_column: text_model_column as int,
                        state_model_column: state_model_column as int,
                        text_color_column: params.text_color_column as int,
                    },
                ),
                sort: old(self)@.sort.push(SortIndicator::Unsorted),
                ..old(self)@
            }),
    {
        self.columns.push(
            TableColumn::Text {
                title: title.to_owned(),
                text_model_column,
                state_model_column,
                text_color_column: params.text_color_column,
            },
        );
        self.sort.push(SortIndicator::Unsorted);
        proof {
            assert(self@.columns =~= old(self)@.columns.push(
                ColumnSpec::Text {
                    title: title@,
                    text_model_column: text_model_column as int,
                    state_model_column: state_model_column as int,
                    text_color_column: params.text_color_column as int,
                },
            ));
        }
    }

    /// Appends a column containing a checkbox fed by `check_model_column`
    /// (zero unchecked, anything else checked); `state_model_column` says per
    /// row whether the box is editable.
    pub fn append_checkbox_column(
        &mut self,
        title: &str,
        check_model_column: i32,
        state_model_column: i32,
    )
        ensures
            final(self)@ == (TableView {
                columns: old(self)@.columns.push(
                    ColumnSpec::Checkbox {
                        title: title@,
                        check_model_column: check_model_column as int,
                        state_model_column: state_model_column as int,
                    },
                ),
                sort: old(self)@.sort.push(SortIndicator::Unsorted),
                ..old(self)@
            }),
    {
        self.columns.push(
            TableColumn::Checkbox { title: title.to_owned(), check_model_column, state_model_column },
        );
        self.sort.push(SortIndicator::Unsorted);
        proof {
            assert(self@.columns =~= old(self)@.columns.push(
                ColumnSpec::Checkbox {
                    title: title@,
                    check_model_column: check_model_column as int,
                    state_model_column: state_model_column as int,
                },
            ));
        }
    }

    /// Appends a column containing a checkbox and text, each fed and gated by
    /// its own model column.
    pub fn append_checkbox_text_column(
        &mut self,
        title: &str,
        check_model_column: i32,
        state_model_column: i32,
        text_model_column: i32,
        text_state_model_column: i32,
    )
        ensures
            final(self)@ == (TableView {
                columns: old(self)@.columns.push(
                    ColumnSpec::CheckboxText {
                        title: title@,
                        check_model_column: check_model_column as int,
                        state_model_column: state_model_column as int,
                        text_model_column: text_model_column as int,
                        text_state_model_column: text_state_model_column as int,
                    },
                ),
                sort: old(self)@.sort.push(SortIndicator::Unsorted),
                ..old(self)@
            }),
    {
        self.columns.push(
            TableColumn::CheckboxText {
                title: title.to_owned(),
                check_model_column,
                state_model_column,
                text_model_column,
                text_state_model_column,
            },
        );
        self.sort.push(SortIndicator::Unsorted);
        proof {
            assert(self@.columns =~= old(self)@.columns.push(
                ColumnSpec::CheckboxText {
                    title: title@,
                    check_model_column: check_model_column as int,
                    state_model_column: state_model_column as int,
                    text_model_column: text_model_column as int,
                    text_state_model_column: text_state_model_column as int,
                },
            ));
        }
    }

    /// Appends a column containing a progress bar fed by `model_column`
    /// (values between -1 and 100).
    pub fn append_progressbar_column(&mut self, title: &str, model_column: i32)
        ensures
            final(self)@ == (TableView {
                columns: old(self)@.columns.push(
                    ColumnSpec::ProgressBar { title: title@, model_column: model_column as int },
                ),
                sort: old(self)@.sort.push(SortIndicator::Unsorted),
                ..old(self)@
            }),
    {
        self.columns.push(TableColumn::ProgressBar { title: title.to_owned(), model_column });
        self.sort.push(SortIndicator::Unsorted);
        proof {
            assert(self@.columns =~= old(self)@.columns.push(
                ColumnSpec::ProgressBar { title: title@, model_column: model_column as int },
            ));
        }
    }

    /// Appends a column containing a button whose text is fed by
    /// `btn_model_column`; `state_model_column` says per row whether the
    /// button is clickable.
    pub fn append_button_column(&mut self, title: &str, btn_model_column: i32, state_model_column: i32)
        ensures
            final(self)@ == (TableView {
                columns: old(self)@.columns.push(
                    ColumnSpec::Button {
                        title: title@,
                        btn_model_column: btn_model_column as int,
                        state_model_column: state_model_column as int,
                    },
                ),
                sort: old(self)@.sort.push(SortIndicator::Unsorted),
                ..old(self)@
            }),
    {
        self.columns.push(
            TableColumn::Button { title: title.to_owned(), btn_model_column, state_model_column },
        );
        self.sort.push(SortIndicator::Unsorted);
        proof {
            assert(self@.columns =~= old(self)@.columns.push(
                ColumnSpec::Button {
                    title: title@,
                    btn_model_column: btn_model_column as int,
                    state_model_column: state_model_column as int,
                },
            ));
        }
    }

    /// Returns whether or not the table header is visible.
    pub fn header_visible(&self) -> (r: bool)
        ensures
            r == self@.header_visible,
    {
        self.header_visible
    }

    /// Sets whether or not the table header is visible.
    pub fn set_header_visible(&mut self, visible: bool)
        ensures
            final(self)@ == (TableView { header_visible: visible, ..old(self)@ }),
    {
        self.header_visible = visible;
    }

    /// Returns the column's sort indicator displayed in the table header, or
    /// no indicator for a column the table does not have.
    pub fn sort_indicator(&self, column: i32) -> (r: SortIndicator)
        ensures
            0 <= column < self@.sort.len() ==> r == self@.sort[column as int],
            !(0 <= column < self@.sort.len()) ==> r == SortIndicator::Unsorted,
    {
        if column >= 0 && (column as usize) < self.sort.len() {
            self.sort[column as usize]
        } else {
            SortIndicator::Unsorted
        }
    }

    /// Sets the column's sort indicator displayed in the table header; purely
    /// visual, no sorting is performed. A column the table does not have is
    /// left alone.
    pub fn set_sort_indicator(&mut self, column: i32, indicator: SortIndicator)
        ensures
            0 <= column < old(self)@.sort.len() ==> final(self)@ == (TableView {
                sort: old(self)@.sort.update(column as int, indicator),
                ..old(self)@
            }),
            !(0 <= column < old(self)@.sort.len()) ==> final(self)@ == old(self)@,
    {
        if column >= 0 && (column as usize) < self.sort.len() {
            self.sort.set(column as usize, indicator);
        }
    }

    /// Returns the table selection mode.
    pub fn selection_mode(&self) -> (r: SelectionMode)
        ensures
            r == self@.selection_mode,
    {
        self.selection_mode
    }

    /// Sets the table selection mode. All rows are deselected if the existing
    /// selection is illegal in the new selection mode.
    pub fn set_selection_mode(&mut self, mode: SelectionMode)
        ensures
            final(self)@ == (TableView {
                selection_mode: mode,
                selection: if selection_allowed(mode, old(self)@.selection.len()) {
                    old(self)@.selection
                } else {
                    Seq::<i32>::empty()
                },
                ..old(self)@
            }),
    {
        self.selection_mode = mode;
        let n = self.selection.len();
        let legal = match mode {
            SelectionMode::NoSelection => n == 0,
            SelectionMode::ZeroOrOne => n <= 1,
            SelectionMode::One => n == 1,
            SelectionMode::ZeroOrMany => true,
        };
        if !legal {
            self.selection.clear();
        }
    }

    /// Returns the current table selection; empty if nothing is selected.
    pub fn selection(&self) -> (r: Vec<i32>)
        ensures
            r@ == self@.selection,
    {
        let mut out: Vec<i32> = Vec::new();
        let n = self.selection.len();
        let mut i: usize = 0;
        while i < n
            invariant
                n == self.selection@.len(),
                i <= n,
                out@ == self.selection@.take(i as int),
            decreases n - i,
        {
            out.push(self.selection[i]);
            proof {
                assert(out@ =~= self.selection@.take(i as int + 1));
            }
            i = i + 1;
        }
        proof {
            assert(out@ =~= self.selection@);
        }
        out
    }

    /// Sets the current table selection, clearing any previous selection.
    /// Selecting more rows than the selection mode allows for results in
    /// nothing happening.
    pub fn set_selection(&mut self, selection: &Vec<i32>)
        ensures
            selection_allowed(old(self)@.selection_mode, selection@.len()) ==> final(self)@ == (
            TableView { selection: selection@, ..old(self)@ }),
            !selection_allowed(old(self)@.selection_mode, selection@.len()) ==> final(self)@ == old(
                self,
            )@,
    {
        let n = selection.len();
        let legal = match self.selection_mode {
            SelectionMode::NoSelection => n == 0,
            SelectionMode::ZeroOrOne => n <= 1,
            SelectionMode::One => n == 1,
            SelectionMode::ZeroOrMany => true,
        };
        if legal {
            let mut copy: Vec<i32> = Vec::new();
            let mut i: usize = 0;
            while i < n
                invariant
                    n == selection@.len(),
                    i <= n,
                    copy@ == selection@.take(i as int),
                decreases n - i,
            {
                copy.push(selection[i]);
                proof {
                    assert(copy@ =~= selection@.take(i as int + 1));
                }
                i = i + 1;
            }
            proof {
                assert(copy@ =~= selection@);
            }
            self.selection = copy;
        }
    }

    /// Registers the callback for selection-changed events, fully superseding
    /// any previously registered one. Not fired by `set_selection` or by the
    /// deselection `set_selection_mode` performs.
    pub fn on_selection_changed(&mut self, callback: Handle)
        ensures
            final(self)@ == (TableView { selection_changed: Some(callback), ..old(self)@ }),
    {
        self.selection_changed = Some(callback);
    }

    /// Registers the callback for single clicks on a row, fully superseding
    /// any previously registered one.
    pub fn on_row_clicked(&mut self, callback: Handle)
        ensures
            final(self)@ == (TableView { row_clicked: Some(callback), ..old(self)@ }),
    {
        self.row_clicked = Some(callback);
    }

    /// Registers the callback for double clicks on a row, fully superseding
    /// any previously registered one.
    pub fn on_row_double_clicked(&mut self, callback: Handle)
        ensures
            final(self)@ == (TableView { row_double_clicked: Some(callback), ..old(self)@ }),
    {
        self.row_double_clicked = Some(callback);
    }

    /// Registers the callback for clicks on a column header, fully
    /// superseding any previously registered one.
    pub fn on_header_clicked(&mut self, callback: Handle)
        ensures
            final(self)@ == (TableView { header_clicked: Some(callback), ..old(self)@ }),
    {
        self.header_clicked = Some(callback);
    }

    /// A user-driven selection change: the toolkit has already committed the
    /// new selection, and the currently registered selection-changed callback
    /// — and nothing else — is owed exactly one run.
    pub fn deliver_selection_changed(&mut self, selection: &Vec<i32>) -> (r: Option<Handle>)
        ensures
            final(self)@ == (TableView { selection: selection@, ..old(self)@ }),
            r == old(self)@.selection_changed,
    {
        let mut copy: Vec<i32> = Vec::new();
        let n = selection.len();
        let mut i: usize = 0;
        while i < n
            invariant
                n == selection@.len(),
                i <= n,
                copy@ == selection@.take(i as int),
            decreases n - i,
        {
            copy.push(selection[i]);
            proof {
                assert(copy@ =~= selection@.take(i as int + 1));
            }
            i = i + 1;
        }
        proof {
            assert(copy@ =~= selection@);
        }
        self.selection = copy;
        self.selection_changed
    }

    /// A single click on `row`: the currently registered row-clicked callback
    /// — and nothing else — is owed exactly one run with the row index. The
    /// table commits nothing.
    pub fn deliver_row_clicked(&self, row: i32) -> (r: Option<Invocation<i32>>)
        ensures
            r == match self@.row_clicked {
                Some(h) => Some(Invocation { handle: h, arg: row }),
                None => None::<Invocation<i32>>,
            },
    {
        match self.row_clicked {
            Some(h) => Some(Invocation { handle: h, arg: row }),
            None => None,
        }
    }

    /// A double click on `row`: the currently registered double-click
    /// callback — and nothing else — is owed exactly one run with the row
    /// index. The table commits nothing.
    pub fn deliver_row_double_clicked(&self, row: i32) -> (r: Option<Invocation<i32>>)
        ensures
            r == match self@.row_double_clicked {
                Some(h) => Some(Invocation { handle: h, arg: row }),
                None => None::<Invocation<i32>>,
            },
    {
        match self.row_double_clicked {
            Some(h) => Some(Invocation { handle: h, arg: row }),
            None => None,
        }
    }

    /// A click on the header of `column`: the currently registered
    /// header-clicked callback — and nothing else — is owed exactly one run
    /// with the column index. The table commits nothing.
    pub fn deliver_header_clicked(&self, column: i32) -> (r: Option<Invocation<i32>>)
        ensures
            r == match self@.header_clicked {
                Some(h) => Some(Invocation { handle: h, arg: column }),
                None => None::<Invocation<i32>>,
            },
    {
        match self.header_clicked {
            Some(h) => Some(Invocation { handle: h, arg: column }),
            None => None,
        }
    }
}

} // verus!
