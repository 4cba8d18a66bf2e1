//! The mutable application state shared between the foreground loop and the
//! background edge-interrupt handler: a 3-bit output counter and a
//! free-running `mode` byte whose parity selects the output policy.

use vstd::prelude::*;

verus! {

/// Number of independently driven outputs; the counter is interpreted as a
/// mask of this many bits.
pub const OUTPUT_COUNT: u8 = 3;

/// The counter wraps modulo this bound (one bit per output).
pub const COUNTER_WRAP: u8 = 8;

/// Which of the two output policies a `mode` value selects.
#[derive(Clone, Copy, Debug, PartialEq, Eq, Structural)]
pub enum OutputMode {
    /// Outputs mirror the counter's bits.
    Pattern,
    /// Every output is inverted on each tick, whatever the counter holds.
    Toggle,
}

/// The application state record. `counter` is advanced only by the
/// foreground loop; `mode` is advanced only by the edge-interrupt handler.
#[derive(Clone, Copy, Debug, PartialEq, Eq, Structural)]
pub struct DeviceState {
    /// Output-pattern counter, kept in `[0, COUNTER_WRAP)`.
    pub counter: u8,
    /// Free-running event counter; its parity selects the output policy.
    pub mode: u8,
}

impl DeviceState {
    /// The state invariant: the counter never escapes its 3-bit range.
    pub open spec fn wf(self) -> bool {
        self.counter < COUNTER_WRAP
    }

    /// The output policy the current `mode` selects.
    pub open spec fn mode_kind(self) -> OutputMode {
        mode_kind_of(self.mode)
    }

    /// Initial state: counter at zero, pattern mode.
    pub fn new() -> (s: Self)
        ensures
            s.wf(),
            s.counter == 0,
            s.mode == 0,
    {
        DeviceState { counter: 0, mode: 0 }
    }
}

/// The policy selected by a `mode` value: even means pattern, odd means
/// toggle.
pub open spec fn mode_kind_of(mode: u8) -> OutputMode {
    if mode % 2 == 0 {
        OutputMode::Pattern
    } else {
        OutputMode::Toggle
    }
}

/// The counter after one tick: one step around the 3-bit cycle.
pub open spec fn next_counter_spec(counter: u8) -> u8 {
    ((counter + 1) % (COUNTER_WRAP as int)) as u8
}

/// The mode after one qualifying edge: incremented with 8-bit wrap-around.
pub open spec fn bumped_mode_spec(mode: u8) -> u8 {
    ((mode + 1) % 256) as u8
}

/// Advance the output counter by one tick, wrapping modulo
/// [`COUNTER_WRAP`]. The foreground loop is this value's only writer.
pub fn next_counter(counter: u8) -> (next: u8)
    requires
        counter < COUNTER_WRAP,
    ensures
        next == next_counter_spec(counter),
        next < COUNTER_WRAP,
{
    (counter + 1) % COUNTER_WRAP
}

/// Advance the mode by one edge event, wrapping modulo 256.
pub fn bumped_mode(mode: u8) -> (next: u8)
    ensures
        next == bumped_mode_spec(mode),
{
    if mode == 255 {
        0
    } else {
        mode + 1
    }
}

/// Decide the output policy from the current mode, as the foreground loop
/// does once per tick after its critical-section read.
pub fn mode_kind(mode: u8) -> (kind: OutputMode)
    ensures
        kind == mode_kind_of(mode),
{
    if mode % 2 == 0 {
        OutputMode::Pattern
    } else {
        OutputMode::Toggle
    }
}

/// The counter never escapes its 3-bit range: advancing any in-range
/// counter lands back in range.
pub proof fn lemma_counter_stays_in_range(counter: u8)
    requires
        counter < COUNTER_WRAP,
    ensures
        next_counter_spec(counter) < COUNTER_WRAP,
{
}

} // verus!
