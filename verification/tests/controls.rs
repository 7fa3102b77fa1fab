use std::cell::Cell;
use std::rc::Rc;

use libui::controls::Button;
use libui::controls::Checkbox;
use libui::controls::Combobox;
use libui::controls::DateTime;
use libui::controls::DateTimePicker;
use libui::controls::DateTimePickerKind;
use libui::controls::ColorButton;
use libui::controls::Control;
use libui::controls::ControlKind;
use libui::controls::EditableCombobox;
use libui::controls::Entry;
use libui::controls::FontButton;
use libui::controls::Form;
use libui::controls::LayoutStrategy;
use libui::controls::MultilineEntry;
use libui::controls::NumericEntry;
use libui::controls::PasswordEntry;
use libui::controls::RadioButtons;
use libui::controls::SearchEntry;
use libui::controls::SelectionMode;
use libui::controls::SlantStyle;
use libui::controls::Slider;
use libui::controls::SortIndicator;
use libui::controls::Spinbox;
use libui::controls::StretchStyle;
use libui::controls::TabGroup;
use libui::controls::Table;
use libui::controls::TextEntry;
use libui::menus::Menu;
use libui::registry::invoke;
use libui::registry::invoke_unit;
use libui::registry::CallbackRegistry;
use libui::str_tools::LineEnding;
use libui::Toolkit;
use libui::UIError;
use libui::UI;

#[test]
fn initializing_twice_returns_a_distinct_error() {
    let mut toolkit = Toolkit::new(true);
    let first = UI::init(&mut toolkit);
    assert!(first.is_ok());
    let second = UI::init(&mut toolkit);
    match second {
        Err(e) => assert_eq!(e, UIError::MultipleInitError()),
        Ok(_) => panic!("a second initialization must not succeed"),
    }
}

#[test]
fn initializing_without_a_gui_subsystem_is_a_recoverable_error() {
    let mut toolkit = Toolkit::new(false);
    match UI::init(&mut toolkit) {
        Err(UIError::FailedInitError { error }) => {
            assert_eq!(error, "could not attach to the platform GUI subsystem");
        }
        _ => panic!("init without a GUI subsystem must fail with FailedInitError"),
    }
    // The failure does not count as an initialization.
    let retry = UI::init(&mut toolkit);
    match retry {
        Err(UIError::FailedInitError { .. }) => {}
        _ => panic!("retrying must fail the same way, not with MultipleInitError"),
    }
}

#[test]
fn error_messages_name_the_failure() {
    let multiple = UIError::MultipleInitError();
    assert_eq!(
        multiple.message(),
        "cannot initialize multiple instances of libui"
    );
    let failed = UIError::FailedInitError {
        error: String::from("no display"),
    };
    assert_eq!(
        failed.message(),
        "unable to initialize the underlying UI framework: no display"
    );
    let out_of_bounds = UIError::TabGroupIndexOutOfBounds { index: 5, n: 3 };
    assert_eq!(
        out_of_bounds.message(),
        "tab with index 5 is not in tab group of size 3"
    );
}

#[test]
fn out_of_bounds_message_renders_any_index_and_bound() {
    let negative = UIError::TabGroupIndexOutOfBounds { index: -1, n: 2 };
    assert_eq!(
        negative.message(),
        "tab with index -1 is not in tab group of size 2"
    );
    let zero = UIError::TabGroupIndexOutOfBounds { index: 0, n: 0 };
    assert_eq!(
        zero.message(),
        "tab with index 0 is not in tab group of size 0"
    );
    let extremes = UIError::TabGroupIndexOutOfBounds { index: i32::MIN, n: i32::MAX };
    assert_eq!(
        extremes.message(),
        "tab with index -2147483648 is not in tab group of size 2147483647"
    );
}

#[test]
fn removing_a_tab_out_of_bounds_reports_index_and_size_and_changes_nothing() {
    let mut tabs = TabGroup::new();
    tabs.append("General");
    tabs.append("Advanced");
    assert_eq!(tabs.pages(), 2);

    let result = tabs.delete(5);
    match result {
        Err(e) => assert_eq!(e, UIError::TabGroupIndexOutOfBounds { index: 5, n: 2 }),
        Ok(()) => panic!("removing tab 5 from a group of 2 must fail"),
    }
    assert_eq!(tabs.pages(), 2);
    assert_eq!(tabs.name(0).unwrap(), "General");
    assert_eq!(tabs.name(1).unwrap(), "Advanced");

    let negative = tabs.delete(-1);
    assert_eq!(
        negative.unwrap_err(),
        UIError::TabGroupIndexOutOfBounds { index: -1, n: 2 }
    );

    assert!(tabs.delete(0).is_ok());
    assert_eq!(tabs.pages(), 1);
    assert_eq!(tabs.name(0).unwrap(), "Advanced");
}

#[test]
fn numeric_callback_fires_only_for_delivered_changes() {
    let count = Rc::new(Cell::new(0));
    let last = Rc::new(Cell::new(0));
    let c = Rc::clone(&count);
    let l = Rc::clone(&last);

    let mut reg: CallbackRegistry<Box<dyn Fn(i32)>> = CallbackRegistry::new();
    let h = reg.register(Box::new(move |v: i32| {
        c.set(c.get() + 1);
        l.set(v);
    }));

    let mut spinbox = Spinbox::new(0, 100);
    spinbox.on_changed(h);

    // A programmatic set commits the value but fires nothing: it returns no
    // invocation at all, so there is nothing that could reach the callback.
    spinbox.set_value(50);
    assert_eq!(spinbox.value(), 50);
    assert_eq!(count.get(), 0);

    // A toolkit-driven change event fires the callback exactly once, with
    // exactly the committed value.
    let invocation = spinbox.deliver_changed(73).expect("a callback is registered");
    assert_eq!(spinbox.value(), 73);
    assert!(invoke(&reg, invocation.handle, invocation.arg));
    assert_eq!(count.get(), 1);
    assert_eq!(last.get(), 73);
}

#[test]
fn replacing_a_numeric_callback_supersedes_the_first() {
    let first = Rc::new(Cell::new(0));
    let second = Rc::new(Cell::new(0));
    let c1 = Rc::clone(&first);
    let c2 = Rc::clone(&second);

    let mut reg: CallbackRegistry<Box<dyn Fn(i32)>> = CallbackRegistry::new();
    let h1 = reg.register(Box::new(move |_v: i32| {
        c1.set(c1.get() + 1);
    }));

    let mut spinbox = Spinbox::new(0, 10);
    spinbox.on_changed(h1);

    // Registering the replacement in the same slot makes the old handle
    // stale; the control's slot now names the new one.
    let h2 = reg.replace(h1, Box::new(move |_v: i32| {
        c2.set(c2.get() + 1);
    }));
    spinbox.on_changed(h2);

    let invocation = spinbox.deliver_changed(3).unwrap();
    assert_eq!(invocation.handle, h2);
    assert!(invoke(&reg, invocation.handle, invocation.arg));
    assert_eq!(first.get(), 0);
    assert_eq!(second.get(), 1);

    // Even a stray invocation through the old handle cannot run the first
    // closure again.
    assert!(!invoke(&reg, h1, 3));
    assert_eq!(first.get(), 0);
}

#[test]
fn spinbox_clamps_into_its_range() {
    let mut spinbox = Spinbox::new(0, 100);
    assert_eq!(spinbox.value(), 0);
    spinbox.set_value(150);
    assert_eq!(spinbox.value(), 100);
    spinbox.set_value(-3);
    assert_eq!(spinbox.value(), 0);
    assert!(spinbox.deliver_changed(1000).is_none());
    assert_eq!(spinbox.value(), 100);
}

#[test]
fn spinbox_new_unlimited_spans_the_whole_range() {
    let mut spinbox = Spinbox::new_unlimited();
    assert_eq!(spinbox.value(), i32::MIN);
    spinbox.set_value(i32::MAX);
    assert_eq!(spinbox.value(), i32::MAX);
    spinbox.set_value(-7);
    assert_eq!(spinbox.value(), -7);
}

#[test]
fn slider_behaves_like_a_numeric_entry() {
    let mut slider = Slider::new(10, 20);
    assert_eq!(slider.value(), 10);
    slider.set_value(15);
    assert_eq!(slider.value(), 15);
    slider.set_value(99);
    assert_eq!(slider.value(), 20);

    let count = Rc::new(Cell::new(0));
    let c = Rc::clone(&count);
    let mut reg: CallbackRegistry<Box<dyn Fn(i32)>> = CallbackRegistry::new();
    let h = reg.register(Box::new(move |_v: i32| {
        c.set(c.get() + 1);
    }));
    slider.on_changed(h);
    let invocation = slider.deliver_changed(12).unwrap();
    assert_eq!(invocation.arg, 12);
    assert!(invoke(&reg, invocation.handle, invocation.arg));
    assert_eq!(count.get(), 1);
}

#[test]
fn text_entry_converts_line_endings_both_ways() {
    let mut entry = MultilineEntry::new(LineEnding::CrLf);
    entry.set_value("one\ntwo\n");
    assert_eq!(entry.value(), "one\ntwo\n");

    let mut plain = Entry::new(LineEnding::Lf);
    plain.set_value("hello");
    assert_eq!(plain.value(), "hello");
}

#[test]
fn text_entry_append_keeps_the_convention() {
    let mut entry = MultilineEntry::new(LineEnding::CrLf);
    entry.set_value("head\n");
    entry.append("tail\n");
    assert_eq!(entry.value(), "head\ntail\n");
}

#[test]
fn text_changed_event_hands_the_host_view_to_the_callback() {
    let seen = Rc::new(Cell::new(String::new()));
    let s = Rc::clone(&seen);

    let mut reg: CallbackRegistry<Box<dyn Fn(String)>> = CallbackRegistry::new();
    let h = reg.register(Box::new(move |text: String| {
        s.set(text);
    }));

    let mut entry = Entry::new(LineEnding::CrLf);
    entry.on_changed(h);
    let invocation = entry.deliver_changed("typed\r\nby hand").unwrap();
    assert!(invoke(&reg, invocation.handle, invocation.arg));
    assert_eq!(seen.take(), "typed\nby hand");
}

#[test]
fn button_click_reaches_the_registered_callback() {
    let count = Rc::new(Cell::new(0));
    let c = Rc::clone(&count);
    let mut reg: CallbackRegistry<Box<dyn Fn()>> = CallbackRegistry::new();
    let h = reg.register(Box::new(move || {
        c.set(c.get() + 1);
    }));

    let mut button = Button::new("Click me");
    assert_eq!(button.text(), "Click me");
    assert!(button.deliver_clicked().is_none());
    button.on_clicked(h);
    button.set_text("Again");
    assert_eq!(button.text(), "Again");

    let handle = button.deliver_clicked().unwrap();
    assert!(invoke_unit(&reg, handle));
    assert_eq!(count.get(), 1);
}

#[test]
fn checkbox_toggle_fires_with_the_committed_state() {
    let mut toolkit = Toolkit::new(true);
    let ui = UI::init(&mut toolkit).unwrap();

    let seen = Rc::new(Cell::new(false));
    let s = Rc::clone(&seen);
    let mut reg: CallbackRegistry<Box<dyn Fn(bool)>> = CallbackRegistry::new();
    let h = reg.register(Box::new(move |checked: bool| {
        s.set(checked);
    }));

    let mut checkbox = Checkbox::new("Enable");
    checkbox.on_toggled(&ui, h);
    checkbox.set_checked(true);
    assert!(checkbox.checked());
    assert!(!seen.get());

    let invocation = checkbox.deliver_toggled(false).unwrap();
    assert!(!checkbox.checked());
    assert!(invoke(&reg, invocation.handle, invocation.arg));
    assert!(!seen.get());
    let invocation = checkbox.deliver_toggled(true).unwrap();
    assert!(invoke(&reg, invocation.handle, invocation.arg));
    assert!(seen.get());
}

#[test]
fn combobox_delete_moves_the_selection_as_documented() {
    let mut toolkit = Toolkit::new(true);
    let ui = UI::init(&mut toolkit).unwrap();
    let mut reg: CallbackRegistry<Box<dyn Fn(i32)>> = CallbackRegistry::new();
    let h = reg.register(Box::new(|_v: i32| {}));

    let mut combo = Combobox::new();
    combo.on_selected(&ui, h);
    combo.append("a");
    combo.append("b");
    combo.append("c");
    assert_eq!(combo.count(), 3);
    assert_eq!(combo.selected(), -1);

    combo.set_selected(1);
    assert_eq!(combo.selected(), 1);

    // Deleting the selected option moves the selection to the next one.
    combo.delete(1);
    assert_eq!(combo.count(), 2);
    assert_eq!(combo.selected(), 1);

    // Deleting the selected option at the end leaves nothing selected.
    combo.delete(1);
    assert_eq!(combo.selected(), -1);

    combo.set_selected(0);
    combo.clear();
    assert_eq!(combo.count(), 0);
    assert_eq!(combo.selected(), -1);
}

#[test]
fn combobox_keeps_the_selected_option_across_inserts() {
    let mut combo = Combobox::new();
    combo.append("a");
    combo.append("c");
    combo.set_selected(1);
    combo.insert_at(1, "b");
    assert_eq!(combo.count(), 3);
    // "c" moved down one place; the selection follows it.
    assert_eq!(combo.selected(), 2);
    // An index outside the option list inserts nothing.
    combo.insert_at(9, "x");
    assert_eq!(combo.count(), 3);
}

#[test]
fn radiobuttons_select_and_deliver() {
    let mut toolkit = Toolkit::new(true);
    let ui = UI::init(&mut toolkit).unwrap();
    let last = Rc::new(Cell::new(-2));
    let l = Rc::clone(&last);
    let mut reg: CallbackRegistry<Box<dyn Fn(i32)>> = CallbackRegistry::new();
    let h = reg.register(Box::new(move |v: i32| {
        l.set(v);
    }));

    let mut radios = RadioButtons::new();
    radios.append("left");
    radios.append("right");
    radios.on_selected(&ui, h);
    radios.set_selected(0);
    assert_eq!(radios.selected(), 0);
    assert_eq!(last.get(), -2);

    let invocation = radios.deliver_selected(1).unwrap();
    assert!(invoke(&reg, invocation.handle, invocation.arg));
    assert_eq!(last.get(), 1);
    assert_eq!(radios.selected(), 1);
}

#[test]
fn table_selection_follows_the_mode() {
    let mut table = Table::new();
    table.append_text_column("Name", 0, -1);
    table.append_checkbox_column("Done", 1, -2);
    assert_eq!(table.column_count(), 2);

    // The default mode allows at most one selected row.
    table.set_selection(&vec![3]);
    assert_eq!(table.selection(), vec![3]);
    table.set_selection(&vec![1, 2]);
    assert_eq!(table.selection(), vec![3]);

    table.set_selection_mode(SelectionMode::ZeroOrMany);
    table.set_selection(&vec![1, 2]);
    assert_eq!(table.selection(), vec![1, 2]);

    // A mode the current selection is illegal under deselects all rows.
    table.set_selection_mode(SelectionMode::One);
    assert_eq!(table.selection(), Vec::<i32>::new());
}

#[test]
fn table_sort_indicators_are_per_column() {
    let mut table = Table::new();
    table.append_text_column("Name", 0, -1);
    table.append_button_column("Action", 1, -2);
    assert_eq!(table.sort_indicator(0), SortIndicator::Unsorted);
    table.set_sort_indicator(0, SortIndicator::Descending);
    assert_eq!(table.sort_indicator(0), SortIndicator::Descending);
    assert_eq!(table.sort_indicator(1), SortIndicator::Unsorted);
    // A column the table does not have is left alone.
    table.set_sort_indicator(7, SortIndicator::Ascending);
    assert_eq!(table.sort_indicator(7), SortIndicator::Unsorted);

    assert!(table.header_visible());
    table.set_header_visible(false);
    assert!(!table.header_visible());
}

#[test]
fn table_events_reach_their_callbacks() {
    let clicked = Rc::new(Cell::new(-1));
    let c = Rc::clone(&clicked);
    let mut reg: CallbackRegistry<Box<dyn Fn(i32)>> = CallbackRegistry::new();
    let row_h = reg.register(Box::new(move |row: i32| {
        c.set(row);
    }));

    let mut table = Table::new();
    assert!(table.deliver_row_clicked(0).is_none());
    table.on_row_clicked(row_h);
    let invocation = table.deliver_row_clicked(4).unwrap();
    assert!(invoke(&reg, invocation.handle, invocation.arg));
    assert_eq!(clicked.get(), 4);

    let mut unit_reg: CallbackRegistry<Box<dyn Fn()>> = CallbackRegistry::new();
    let sel_count = Rc::new(Cell::new(0));
    let sc = Rc::clone(&sel_count);
    let sel_h = unit_reg.register(Box::new(move || {
        sc.set(sc.get() + 1);
    }));
    table.on_selection_changed(sel_h);
    table.set_selection_mode(SelectionMode::ZeroOrMany);
    let handle = table.deliver_selection_changed(&vec![1, 2, 3]).unwrap();
    assert_eq!(table.selection(), vec![1, 2, 3]);
    assert!(invoke_unit(&unit_reg, handle));
    assert_eq!(sel_count.get(), 1);
}

#[test]
fn font_style_codes_decode_exactly() {
    assert_eq!(SlantStyle::try_from(0), Ok(SlantStyle::Normal));
    assert_eq!(SlantStyle::try_from(2), Ok(SlantStyle::Italic));
    assert_eq!(SlantStyle::try_from(3), Err(()));
    assert_eq!(SlantStyle::Italic.as_code(), 2);

    assert_eq!(StretchStyle::try_from(0), Ok(StretchStyle::UltraCondensed));
    assert_eq!(StretchStyle::try_from(4), Ok(StretchStyle::Normal));
    assert_eq!(StretchStyle::try_from(8), Ok(StretchStyle::UltraExpanded));
    assert_eq!(StretchStyle::try_from(9), Err(()));
    assert_eq!(StretchStyle::SemiExpanded.as_code(), 5);
}

#[test]
fn datetimepicker_set_is_quiet_and_delivery_fires() {
    let mut toolkit = Toolkit::new(true);
    let ui = UI::init(&mut toolkit).unwrap();
    let count = Rc::new(Cell::new(0));
    let c = Rc::clone(&count);
    let mut reg: CallbackRegistry<Box<dyn Fn()>> = CallbackRegistry::new();
    let h = reg.register(Box::new(move || {
        c.set(c.get() + 1);
    }));

    let mut picker = DateTimePicker::new(DateTimePickerKind::Date);
    assert_eq!(
        picker.datetime(),
        DateTime { year: 1970, month: 1, day: 1, hour: 0, minute: 0, second: 0 }
    );
    picker.on_changed(&ui, h);

    let noon = DateTime { year: 2001, month: 2, day: 3, hour: 12, minute: 0, second: 0 };
    picker.set_datetime(noon);
    assert_eq!(picker.datetime(), noon);
    assert_eq!(count.get(), 0);

    let later = DateTime { year: 2001, month: 2, day: 3, hour: 13, minute: 30, second: 0 };
    let handle = picker.deliver_changed(later).unwrap();
    assert!(invoke_unit(&reg, handle));
    assert_eq!(count.get(), 1);
    assert_eq!(picker.datetime(), later);
}

#[test]
fn form_rows_append_and_delete() {
    let mut form = Form::new();
    form.append("User", LayoutStrategy::Compact);
    form.append("Password", LayoutStrategy::Compact);
    form.append("Notes", LayoutStrategy::Stretchy);
    assert_eq!(form.count(), 3);
    form.delete(1);
    assert_eq!(form.count(), 2);
    // An index the form does not have removes nothing.
    form.delete(5);
    assert_eq!(form.count(), 2);
}

#[test]
fn form_padding_is_off_until_asked_for() {
    let mut form = Form::new();
    assert!(!form.padded());
    form.set_padded(true);
    assert!(form.padded());
    form.append("User", LayoutStrategy::Compact);
    form.delete(0);
    assert!(form.padded());
    form.set_padded(false);
    assert!(!form.padded());
}

#[test]
fn multiline_entry_readonly_gates_users_not_programs() {
    let mut entry = MultilineEntry::new_nonwrapping(LineEnding::Lf);
    assert!(!entry.readonly());
    entry.set_readonly(true);
    assert!(entry.readonly());
    // Programmatic changes stay possible and keep the flag.
    entry.set_value("still writable from code");
    assert_eq!(entry.value(), "still writable from code");
    assert!(entry.readonly());
    entry.set_readonly(false);
    assert!(!entry.readonly());
}

#[test]
fn menu_separators_stand_between_the_items_around_them() {
    let mut menu = Menu::new("File");
    let _open = menu.append_item("Open");
    let _save = menu.append_item("Save");
    menu.append_separator();
    let _exit = menu.append_item("Exit");
    assert_eq!(menu.separator_count(), 1);
    // The separator stands after the two items appended before it.
    assert_eq!(menu.separator_position(0), Some(2));
    assert_eq!(menu.separator_position(1), None);
}

#[test]
fn password_entry_never_transforms_the_secret() {
    let mut password = PasswordEntry::new();
    password.set_value("p\r\nss\nword");
    assert_eq!(password.value(), "p\r\nss\nword");

    let seen = Rc::new(Cell::new(String::new()));
    let s = Rc::clone(&seen);
    let mut reg: CallbackRegistry<Box<dyn Fn(String)>> = CallbackRegistry::new();
    let h = reg.register(Box::new(move |text: String| {
        s.set(text);
    }));
    password.on_changed(h);
    let invocation = password.deliver_changed("hunter\r\n2").unwrap();
    assert!(invoke(&reg, invocation.handle, invocation.arg));
    assert_eq!(seen.take(), "hunter\r\n2");
}

#[test]
fn search_entry_converts_like_the_other_buffers() {
    let mut search = SearchEntry::new(LineEnding::CrLf);
    search.set_value("a\nb");
    assert_eq!(search.value(), "a\nb");
}

#[test]
fn editable_combobox_changes_are_delivered_verbatim() {
    let mut toolkit = Toolkit::new(true);
    let ui = UI::init(&mut toolkit).unwrap();
    let seen = Rc::new(Cell::new(String::new()));
    let s = Rc::clone(&seen);
    let mut reg: CallbackRegistry<Box<dyn Fn(String)>> = CallbackRegistry::new();
    let h = reg.register(Box::new(move |text: String| {
        s.set(text);
    }));

    let mut combo = EditableCombobox::new();
    combo.append("preset one");
    combo.on_changed(&ui, h);
    combo.set_value("typed by program");
    assert_eq!(combo.value(), "typed by program");
    assert_eq!(seen.take(), "");

    let invocation = combo.deliver_changed("typed by user").unwrap();
    assert_eq!(combo.value(), "typed by user");
    assert!(invoke(&reg, invocation.handle, invocation.arg));
    assert_eq!(seen.take(), "typed by user");
}

#[test]
fn menu_items_toggle_and_respect_enablement() {
    let count = Rc::new(Cell::new(0));
    let c = Rc::clone(&count);
    let mut reg: CallbackRegistry<Box<dyn Fn()>> = CallbackRegistry::new();
    let h = reg.register(Box::new(move || {
        c.set(c.get() + 1);
    }));

    let mut menu = Menu::new("File");
    let mut plain = menu.append_item("Open");
    let mut toggle = menu.append_check_item("Word wrap");

    // A plain item has no check mark to set.
    plain.set_checked(true);
    assert!(!plain.checked());

    // A checkable item commits the toggle when clicked.
    toggle.on_clicked(h);
    let handle = toggle.deliver_clicked().unwrap();
    assert!(toggle.checked());
    assert!(invoke_unit(&reg, handle));
    assert_eq!(count.get(), 1);

    // A disabled item cannot be selected: nothing fires, nothing toggles.
    toggle.disable();
    assert!(toggle.deliver_clicked().is_none());
    assert!(toggle.checked());
    assert_eq!(count.get(), 1);
    toggle.enable();
    assert!(toggle.deliver_clicked().is_some());
    assert!(!toggle.checked());
}

#[test]
fn picker_buttons_own_only_their_callback_slot() {
    let mut toolkit = Toolkit::new(true);
    let ui = UI::init(&mut toolkit).unwrap();
    let count = Rc::new(Cell::new(0));
    let c = Rc::clone(&count);
    let mut reg: CallbackRegistry<Box<dyn Fn()>> = CallbackRegistry::new();
    let h = reg.register(Box::new(move || {
        c.set(c.get() + 1);
    }));

    let mut color = ColorButton::new();
    assert!(color.deliver_changed().is_none());
    color.on_changed(&ui, h);
    assert!(invoke_unit(&reg, color.deliver_changed().unwrap()));

    let c2 = Rc::clone(&count);
    let mut font_reg: CallbackRegistry<Box<dyn Fn()>> = CallbackRegistry::new();
    let fh = font_reg.register(Box::new(move || {
        c2.set(c2.get() + 1);
    }));
    let mut font = FontButton::new();
    assert!(font.deliver_changed().is_none());
    font.on_changed(&ui, fh);
    assert!(invoke_unit(&font_reg, font.deliver_changed().unwrap()));
    assert_eq!(count.get(), 2);
}

#[test]
fn any_control_wraps_into_the_closed_union() {
    let button = Button::new("Go");
    let mut control = Control::new(ControlKind::Button(button));
    assert!(control.is_shown());
    assert!(control.is_enabled());
    control.set_enabled(false);
    control.set_shown(false);
    assert!(!control.is_shown());
    assert!(!control.is_enabled());
    match control.into_kind() {
        ControlKind::Button(b) => assert_eq!(b.text(), "Go"),
        _ => panic!("the wrapped control must come back out"),
    }
}

#[test]
fn quit_is_requested_through_the_guard_and_consults_the_callback() {
    let mut toolkit = Toolkit::new(true);
    let ui = UI::init(&mut toolkit).unwrap();

    let asked = Rc::new(Cell::new(0));
    let a = Rc::clone(&asked);
    let mut reg: CallbackRegistry<Box<dyn Fn()>> = CallbackRegistry::new();
    let h = reg.register(Box::new(move || {
        a.set(a.get() + 1);
    }));

    ui.on_should_quit(&mut toolkit, h);
    let handle = ui.deliver_should_quit(&toolkit).unwrap();
    assert!(invoke_unit(&reg, handle));
    assert_eq!(asked.get(), 1);
    ui.quit(&mut toolkit);
}
