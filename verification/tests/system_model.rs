use blinky::cell::GuardedCell;
use blinky::device::DeviceState;
use blinky::outputs::OutputSet;
use blinky::system::{handle_edge, handle_edge_event, step, EdgeSource, Event, System};

#[test]
fn handler_clears_latch_once_and_bumps_mode() {
    let mut source = EdgeSource { pending: true, clears: 0 };
    let mut device = DeviceState { counter: 5, mode: 7 };
    handle_edge(&mut source, &mut device);
    assert!(!source.pending);
    assert_eq!(source.clears, 1);
    assert_eq!(device.mode, 8);
    assert_eq!(device.counter, 5);
}

#[test]
fn handler_reaches_source_through_guarded_cell() {
    let mut cell: GuardedCell<EdgeSource> = GuardedCell::new();
    assert!(!cell.is_populated());
    cell.put(EdgeSource { pending: true, clears: 0 });
    assert!(cell.is_populated());
    let mut device = DeviceState::new();
    handle_edge_event(&mut cell, &mut device);
    assert!(!cell.borrow().pending);
    assert_eq!(cell.borrow().clears, 1);
    assert_eq!(device.mode, 1);
}

#[test]
fn guarded_cell_hands_back_what_was_put() {
    let mut cell: GuardedCell<u8> = GuardedCell::new();
    cell.put(42);
    assert_eq!(*cell.borrow(), 42);
    let v = cell.borrow_mut();
    *v = 7;
    assert_eq!(*cell.borrow(), 7);
    cell.put(9);
    assert_eq!(*cell.borrow(), 9);
}

#[test]
fn n_edges_advance_mode_by_n_with_n_clears() {
    let mut s = System::new();
    for _ in 0..5 {
        let diag = step(&mut s, Event::Edge);
        assert!(diag.is_none());
    }
    assert_eq!(s.device.mode, 5);
    assert_eq!(s.source.clears, 5);
    assert_eq!(s.device.counter, 0);
    assert!(!s.source.pending);
}

#[test]
fn mode_wraps_under_many_edges() {
    let mut s = System::new();
    for _ in 0..260 {
        step(&mut s, Event::Edge);
    }
    assert_eq!(s.device.mode, 4);
    assert_eq!(s.source.clears, 260);
}

#[test]
fn end_to_end_three_ticks_one_press_one_tick() {
    let mut s = System::new();
    assert_eq!(s.device.counter, 0);
    assert_eq!(s.device.mode, 0);

    for _ in 0..3 {
        step(&mut s, Event::Tick);
    }
    assert_eq!(s.device.counter, 3);
    let pre_press = s.outputs;
    assert_eq!(pre_press, OutputSet { led0: true, led1: true, led2: false });

    step(&mut s, Event::Edge);
    assert_eq!(s.device.mode, 1);

    step(&mut s, Event::Tick);
    assert_eq!(s.device.counter, 4);
    assert_eq!(s.outputs.led0, !pre_press.led0);
    assert_eq!(s.outputs.led1, !pre_press.led1);
    assert_eq!(s.outputs.led2, !pre_press.led2);
}

#[test]
fn toggle_mode_ignores_counter_value() {
    let mut s = System::new();
    step(&mut s, Event::Edge);
    let before = s.outputs;
    step(&mut s, Event::Tick);
    let after_one = s.outputs;
    assert_eq!(after_one.led0, !before.led0);
    assert_eq!(after_one.led1, !before.led1);
    assert_eq!(after_one.led2, !before.led2);
    step(&mut s, Event::Tick);
    assert_eq!(s.outputs, before);
}
