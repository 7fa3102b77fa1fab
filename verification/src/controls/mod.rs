//! Available user interface controls and related functionality.
//!
//! Each control here is the value model of one native widget: the state the
//! widget commits (its value, text, items, selection) together with its
//! callback slots. Registering a callback stores a registry handle in the
//! slot, fully superseding the previous one; a toolkit-driven event is
//! delivered to the control, which commits the new state and decides which
//! callback is owed a run. Programmatic setters never fire callbacks.

mod button;
mod checkbox;
mod colorbutton;
mod combobox;
mod control;
mod datetimepicker;
mod fontbutton;
mod form;
mod label;
mod numericentry;
mod radiobuttons;
mod tabgroup;
mod table;
mod textentry;

pub use self::button::Button;
pub use self::checkbox::Checkbox;
pub use self::colorbutton::ColorButton;
pub use self::combobox::Combobox;
pub use self::combobox::EditableCombobox;
pub use self::control::Control;
pub use self::control::ControlKind;
pub use self::datetimepicker::DateTime;
pub use self::datetimepicker::DateTimePicker;
pub use self::datetimepicker::DateTimePickerKind;
pub use self::fontbutton::FontButton;
pub use self::fontbutton::SlantStyle;
pub use self::fontbutton::StretchStyle;
pub use self::form::Form;
pub use self::form::FormRowSpec;
pub use self::form::LayoutStrategy;
pub use self::label::Label;
pub use self::numericentry::clamped;
pub use self::radiobuttons::RadioButtons;
pub use self::table::selection_allowed;
pub use self::table::ColumnSpec;
pub use self::table::SelectionMode;
pub use self::table::SortIndicator;
pub use self::table::Table;
pub use self::table::TableValueType;
pub use self::table::TableView;
pub use self::table::TextColumnParameters;
pub use self::tabgroup::TabGroup;
pub use self::textentry::Entry;
pub use self::textentry::MultilineEntry;
pub use self::textentry::PasswordEntry;
pub use self::textentry::SearchEntry;
pub use self::textentry::TextEntry;
pub use self::numericentry::NumericEntry;
pub use self::numericentry::Slider;
pub use self::numericentry::Spinbox;
