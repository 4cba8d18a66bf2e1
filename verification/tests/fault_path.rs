use blinky::fault::fault_message;
use blinky::system::{step, Event, System};

#[test]
fn fault_message_renders_positive_numbers() {
    assert_eq!(fault_message(0).as_str(), "we hit an exception 0");
    assert_eq!(fault_message(3).as_str(), "we hit an exception 3");
    assert_eq!(fault_message(100).as_str(), "we hit an exception 100");
    assert_eq!(fault_message(32767).as_str(), "we hit an exception 32767");
}

#[test]
fn fault_message_renders_negative_numbers() {
    assert_eq!(fault_message(-1).as_str(), "we hit an exception -1");
    assert_eq!(fault_message(-13).as_str(), "we hit an exception -13");
    assert_eq!(fault_message(-32768).as_str(), "we hit an exception -32768");
}

#[test]
fn fault_halts_the_system_for_good() {
    let mut s = System::new();
    step(&mut s, Event::Tick);
    let levels = s.outputs;
    let counter = s.device.counter;

    let diag = step(&mut s, Event::Fault(-13));
    assert_eq!(diag.unwrap().as_str(), "we hit an exception -13");
    assert!(s.halted);
    assert_eq!(s.outputs, levels);

    for _ in 0..4 {
        assert!(step(&mut s, Event::Tick).is_none());
        step(&mut s, Event::Edge);
    }
    assert_eq!(s.outputs, levels);
    assert_eq!(s.device.counter, counter);
    assert_eq!(s.device.mode, 0);
    assert!(s.halted);
}
