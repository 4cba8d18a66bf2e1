use blinky::device::{bumped_mode, mode_kind, next_counter, DeviceState, OutputMode};
use blinky::outputs::{pattern_for, toggled, OutputSet};

#[test]
fn counter_stays_in_three_bit_range() {
    let mut c: u8 = 0;
    for _ in 0..32 {
        c = next_counter(c);
        assert!(c < 8);
    }
}

#[test]
fn counter_wraps_after_seven() {
    assert_eq!(next_counter(6), 7);
    assert_eq!(next_counter(7), 0);
}

#[test]
fn mode_wraps_at_byte_boundary() {
    assert_eq!(bumped_mode(0), 1);
    assert_eq!(bumped_mode(254), 255);
    assert_eq!(bumped_mode(255), 0);
}

#[test]
fn mode_parity_selects_policy() {
    assert_eq!(mode_kind(0), OutputMode::Pattern);
    assert_eq!(mode_kind(1), OutputMode::Toggle);
    assert_eq!(mode_kind(2), OutputMode::Pattern);
    assert_eq!(mode_kind(255), OutputMode::Toggle);
}

#[test]
fn pattern_for_five_is_high_low_high() {
    let o = pattern_for(5);
    assert!(o.led0);
    assert!(!o.led1);
    assert!(o.led2);
}

#[test]
fn pattern_follows_counter_bits() {
    for c in 0u8..8 {
        let o = pattern_for(c);
        assert_eq!(o.led0, c & 1 != 0);
        assert_eq!(o.led1, c & 2 != 0);
        assert_eq!(o.led2, c & 4 != 0);
    }
}

#[test]
fn toggling_twice_restores_levels() {
    let o = OutputSet { led0: true, led1: false, led2: true };
    let once = toggled(&o);
    assert!(!once.led0);
    assert!(once.led1);
    assert!(!once.led2);
    let twice = toggled(&once);
    assert_eq!(twice, o);
}

#[test]
fn initial_state_is_pattern_mode_counter_zero() {
    let s = DeviceState::new();
    assert_eq!(s.counter, 0);
    assert_eq!(s.mode, 0);
    assert_eq!(mode_kind(s.mode), OutputMode::Pattern);
}
