use std::cell::Cell;
use std::rc::Rc;

use libui::registry::invoke;
use libui::registry::invoke_unit;
use libui::registry::CallbackRegistry;

#[test]
fn invoking_a_registration_runs_the_closure_once_with_the_exact_argument() {
    let count = Rc::new(Cell::new(0));
    let last = Rc::new(Cell::new(0));
    let c = Rc::clone(&count);
    let l = Rc::clone(&last);

    let mut reg: CallbackRegistry<Box<dyn Fn(i32)>> = CallbackRegistry::new();
    let h = reg.register(Box::new(move |v: i32| {
        c.set(c.get() + 1);
        l.set(v);
    }));

    assert!(reg.is_live(h));
    let fired = invoke(&reg, h, 73);
    assert!(fired);
    assert_eq!(count.get(), 1);
    assert_eq!(last.get(), 73);
}

#[test]
fn invoking_a_unit_registration_runs_the_closure_once() {
    let count = Rc::new(Cell::new(0));
    let c = Rc::clone(&count);

    let mut reg: CallbackRegistry<Box<dyn Fn()>> = CallbackRegistry::new();
    let h = reg.register(Box::new(move || {
        c.set(c.get() + 1);
    }));

    assert!(invoke_unit(&reg, h));
    assert_eq!(count.get(), 1);
}

#[test]
fn a_shared_cell_stays_consistent_across_nested_callbacks() {
    // One callback writes the shared cell and, before it returns, triggers a
    // second callback that reads the same cell: the reader must see the whole
    // written value, never a torn one.
    let shared = Rc::new(Cell::new((0i32, 0i32)));
    let observed = Rc::new(Cell::new((0i32, 0i32)));

    let mut inner_reg: CallbackRegistry<Box<dyn Fn()>> = CallbackRegistry::new();
    let s_read = Rc::clone(&shared);
    let o = Rc::clone(&observed);
    let inner_h = inner_reg.register(Box::new(move || {
        o.set(s_read.get());
    }));

    let mut outer_reg: CallbackRegistry<Box<dyn Fn(i32)>> = CallbackRegistry::new();
    let s_write = Rc::clone(&shared);
    let outer_h = outer_reg.register(Box::new(move |v: i32| {
        s_write.set((v, -v));
        // Reentrant dispatch before the first callback returns.
        assert!(invoke_unit(&inner_reg, inner_h));
    }));

    assert!(invoke(&outer_reg, outer_h, 42));
    assert_eq!(observed.get(), (42, -42));
}

#[test]
fn replacing_a_registration_fully_supersedes_the_first() {
    let first_count = Rc::new(Cell::new(0));
    let second_count = Rc::new(Cell::new(0));
    let c1 = Rc::clone(&first_count);
    let c2 = Rc::clone(&second_count);

    let mut reg: CallbackRegistry<Box<dyn Fn(i32)>> = CallbackRegistry::new();
    let h1 = reg.register(Box::new(move |_v: i32| {
        c1.set(c1.get() + 1);
    }));
    assert!(invoke(&reg, h1, 1));
    assert_eq!(first_count.get(), 1);

    let h2 = reg.replace(h1, Box::new(move |_v: i32| {
        c2.set(c2.get() + 1);
    }));
    assert_ne!(h1, h2);
    assert!(!reg.is_live(h1));
    assert!(reg.is_live(h2));

    // The superseded closure never fires again.
    assert!(!invoke(&reg, h1, 2));
    assert_eq!(first_count.get(), 1);

    assert!(invoke(&reg, h2, 3));
    assert_eq!(second_count.get(), 1);
}

#[test]
fn a_freed_handle_reports_a_miss_instead_of_firing() {
    let count = Rc::new(Cell::new(0));
    let c = Rc::clone(&count);

    let mut reg: CallbackRegistry<Box<dyn Fn(i32)>> = CallbackRegistry::new();
    let h = reg.register(Box::new(move |_v: i32| {
        c.set(c.get() + 1);
    }));

    assert!(reg.free(h));
    assert!(!reg.is_live(h));
    assert!(reg.get(h).is_none());
    assert!(!invoke(&reg, h, 9));
    assert_eq!(count.get(), 0);

    // Freeing again reports that nothing was live.
    assert!(!reg.free(h));
}

#[test]
fn registrations_are_independent() {
    let a_count = Rc::new(Cell::new(0));
    let b_count = Rc::new(Cell::new(0));
    let ca = Rc::clone(&a_count);
    let cb = Rc::clone(&b_count);

    let mut reg: CallbackRegistry<Box<dyn Fn(i32)>> = CallbackRegistry::new();
    let ha = reg.register(Box::new(move |_v: i32| {
        ca.set(ca.get() + 1);
    }));
    let hb = reg.register(Box::new(move |_v: i32| {
        cb.set(cb.get() + 1);
    }));
    assert_ne!(ha, hb);

    assert!(reg.free(ha));
    assert!(reg.is_live(hb));
    assert!(invoke(&reg, hb, 0));
    assert_eq!(a_count.get(), 0);
    assert_eq!(b_count.get(), 1);
}
