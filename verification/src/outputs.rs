//! The ordered set of digital outputs the foreground loop drives, and the
//! two policies that compute their levels: pattern mode mirrors the
//! counter's bits, toggle mode inverts every output each tick.

use vstd::prelude::*;
use crate::device::{mode_kind_of, OutputMode, OUTPUT_COUNT};

verus! {

/// The levels of the three digital outputs, lowest-order bit first. Owned
/// exclusively by the foreground loop; the interrupt handler never touches
/// them.
#[derive(Clone, Copy, Debug, PartialEq, Eq, Structural)]
pub struct OutputSet {
    /// Output driven by bit 0 of the counter in pattern mode.
    pub led0: bool,
    /// Output driven by bit 1 of the counter in pattern mode.
    pub led1: bool,
    /// Output driven by bit 2 of the counter in pattern mode.
    pub led2: bool,
}

impl OutputSet {
    /// The level of output `i`, for `i` in `[0, OUTPUT_COUNT)`.
    pub open spec fn level(self, i: int) -> bool {
        if i == 0 {
            self.led0
        } else if i == 1 {
            self.led1
        } else {
            self.led2
        }
    }

    /// All outputs low, the levels before the first tick.
    pub fn all_low() -> (o: Self)
        ensures
            o == all_low_spec(),
    {
        OutputSet { led0: false, led1: false, led2: false }
    }
}

/// All outputs low.
pub open spec fn all_low_spec() -> OutputSet {
    OutputSet { led0: false, led1: false, led2: false }
}

/// Pattern mode: output `i` carries bit `i` of the counter, the counter
/// read as a 3-bit mask.
pub open spec fn pattern_spec(counter: u8) -> OutputSet {
    OutputSet { led0: counter & 1 != 0, led1: counter & 2 != 0, led2: counter & 4 != 0 }
}

/// Toggle mode: every output inverted, whatever the counter holds.
pub open spec fn toggled_spec(o: OutputSet) -> OutputSet {
    OutputSet { led0: !o.led0, led1: !o.led1, led2: !o.led2 }
}

/// Bit `i` of a counter value, stated by shifting.
pub open spec fn counter_bit(counter: u8, i: u8) -> bool {
    (counter >> i) & 1 == 1
}

/// The levels one tick writes: selected by the mode's parity, computed
/// from the freshly advanced counter in pattern mode and from the previous
/// levels in toggle mode.
pub open spec fn tick_outputs_spec(mode: u8, counter: u8, prev: OutputSet) -> OutputSet {
    match mode_kind_of(mode) {
        OutputMode::Pattern => pattern_spec(counter),
        OutputMode::Toggle => toggled_spec(prev),
    }
}

/// Compute the pattern-mode levels from the counter.
pub fn pattern_for(counter: u8) -> (o: OutputSet)
    ensures
        o == pattern_spec(counter),
{
    OutputSet { led0: counter & 1 != 0, led1: counter & 2 != 0, led2: counter & 4 != 0 }
}

/// Compute the toggle-mode levels from the previous levels.
pub fn toggled(o: &OutputSet) -> (t: OutputSet)
    ensures
        t == toggled_spec(*o),
{
    OutputSet { led0: !o.led0, led1: !o.led1, led2: !o.led2 }
}

/// Pattern-mode correctness: for each output index `i`, the pattern level
/// of output `i` equals bit `i` of the counter.
pub proof fn lemma_pattern_matches_counter_bits(counter: u8)
    ensures
        forall|i: u8|
            i < OUTPUT_COUNT ==> pattern_spec(counter).level(i as int) == counter_bit(counter, i),
{
    assert((counter & 1 != 0) == ((counter >> 0u8) & 1 == 1)) by (bit_vector);
    assert((counter & 2 != 0) == ((counter >> 1u8) & 1 == 1)) by (bit_vector);
    assert((counter & 4 != 0) == ((counter >> 2u8) & 1 == 1)) by (bit_vector);
    assert forall|i: u8|
        i < OUTPUT_COUNT implies pattern_spec(counter).level(i as int) == counter_bit(
        counter,
        i,
    ) by {
        if i == 0 {
        } else if i == 1 {
        } else {
            assert(i == 2);
        }
    }
}

/// Toggle-mode involution: inverting every output twice restores the
/// original levels, so two consecutive toggle-mode ticks cancel out.
pub proof fn lemma_toggle_involution(o: OutputSet)
    ensures
        toggled_spec(toggled_spec(o)) == o,
{
}

} // verus!
