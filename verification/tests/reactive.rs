use reactive_core::cell::{Cell, Runtime};
use reactive_core::signal::DerivedSignal;

#[test]
fn binding_updates_propagate() {
    let mut rt: Runtime<i32> = Runtime::new();
    let counter = Cell::new(&mut rt, 0);
    counter.set(&mut rt, 5);
    assert_eq!(*counter.get(&rt), 5);
}

#[test]
fn cell_observes_initial_value() {
    let mut rt: Runtime<i32> = Runtime::new();
    let c = Cell::new(&mut rt, 41);
    assert_eq!(*c.get(&rt), 41);
}

#[test]
fn string_cell_set_then_get() {
    let mut rt: Runtime<String> = Runtime::new();
    let name = Cell::new(&mut rt, String::from("World"));
    assert_eq!(name.get(&rt).as_str(), "World");
    name.set(&mut rt, String::from("Hello"));
    assert_eq!(name.get(&rt).as_str(), "Hello");
}

#[test]
fn get_is_idempotent_without_set() {
    let mut rt: Runtime<i32> = Runtime::new();
    let c = Cell::new(&mut rt, 7);
    let first: i32 = *c.get(&rt);
    let second: i32 = *c.get(&rt);
    let third: i32 = *c.get(&rt);
    assert_eq!(first, 7);
    assert_eq!(second, first);
    assert_eq!(third, first);
}

#[test]
fn derived_signal_tracks_source() {
    let mut rt: Runtime<i32> = Runtime::new();
    let c = Cell::new(&mut rt, 0);
    let d = DerivedSignal::from(&c, |x: i32| x * 2);
    assert_eq!(d.get(&rt), 0);
    c.set(&mut rt, 5);
    assert_eq!(*c.get(&rt), 5);
    assert_eq!(d.get(&rt), 10);
}

#[test]
fn two_signals_reflect_one_set_in_any_order() {
    let mut rt: Runtime<i32> = Runtime::new();
    let c = Cell::new(&mut rt, 1);
    let plus_one = DerivedSignal::from(&c, |x: i32| x + 1);
    let triple = DerivedSignal::from(&c, |x: i32| x * 3);
    c.set(&mut rt, 4);
    assert_eq!(plus_one.get(&rt), 5);
    assert_eq!(triple.get(&rt), 12);
    assert_eq!(triple.get(&rt), 12);
    assert_eq!(plus_one.get(&rt), 5);
}

#[test]
fn set_leaves_other_cells_unchanged() {
    let mut rt: Runtime<i32> = Runtime::new();
    let a = Cell::new(&mut rt, 10);
    let b = Cell::new(&mut rt, 20);
    a.set(&mut rt, 30);
    assert_eq!(*a.get(&rt), 30);
    assert_eq!(*b.get(&rt), 20);
}

#[test]
fn shared_handles_see_the_same_slot() {
    let mut rt: Runtime<i32> = Runtime::new();
    let c = Cell::new(&mut rt, 0);
    let alias = c;
    alias.set(&mut rt, 9);
    assert_eq!(*c.get(&rt), 9);
}
