//! The whole control system as a state machine over discrete events: a
//! foreground tick, a rising edge serviced by the interrupt handler, and
//! an unhandled fault. Critical sections serialize the two contexts, so an
//! execution is a sequence of atomic steps; the laws about edge delivery,
//! mode visibility and the fail-stop fault policy are proved over that
//! model.

use vstd::prelude::*;
use crate::cell::GuardedCell;
use crate::device::{
    bumped_mode, bumped_mode_spec, mode_kind, next_counter, next_counter_spec, DeviceState,
    OutputMode,
};
use crate::fault::{fault_message, fault_message_spec};
use crate::outputs::{all_low_spec, pattern_for, tick_outputs_spec, toggled, OutputSet};

verus! {

/// The fixed period of the foreground loop's blocking wait, in
/// milliseconds; the loop's only timing configuration.
pub const TICK_INTERVAL_MS: u16 = 125;

/// The latched rising-edge interrupt source. `pending` is the hardware
/// latch; `clears` counts how many times the handler has acknowledged it,
/// so that "cleared exactly once per edge" is visible in contracts.
#[derive(Clone, Copy, Debug, PartialEq, Eq, Structural)]
pub struct EdgeSource {
    /// Whether the latch holds an unacknowledged edge.
    pub pending: bool,
    /// How many acknowledgements (pending-flag clears) have been issued.
    pub clears: u64,
}

/// A discrete event delivered to the system: one foreground tick, one
/// rising edge serviced by the handler, or an unhandled processor
/// exception carrying its number.
#[derive(Clone, Copy, Debug, PartialEq, Eq, Structural)]
pub enum Event {
    /// One iteration of the foreground control loop.
    Tick,
    /// One rising edge, latched and then serviced by the handler.
    Edge,
    /// An unhandled processor exception with its exception number.
    Fault(i16),
}

/// The complete system state: application state, physical output levels,
/// the edge source, and whether the fail-stop fault path has fired.
#[derive(Clone, Copy, Debug, PartialEq, Eq, Structural)]
pub struct System {
    /// Counter and mode shared between the two contexts.
    pub device: DeviceState,
    /// The physical output levels, foreground-owned.
    pub outputs: OutputSet,
    /// The edge-interrupt source.
    pub source: EdgeSource,
    /// Set once the fault path has fired; nothing changes afterwards.
    pub halted: bool,
}

impl System {
    /// The system invariant: the device state is well formed.
    pub open spec fn wf(self) -> bool {
        self.device.wf()
    }

    /// The state at the end of initialization: counter and mode at zero,
    /// all outputs low, no pending edge, running.
    pub fn new() -> (s: Self)
        ensures
            s == init_spec(),
            s.wf(),
    {
        System {
            device: DeviceState { counter: 0, mode: 0 },
            outputs: OutputSet { led0: false, led1: false, led2: false },
            source: EdgeSource { pending: false, clears: 0 },
            halted: false,
        }
    }
}

/// The initial system state.
pub open spec fn init_spec() -> System {
    System {
        device: DeviceState { counter: 0, mode: 0 },
        outputs: all_low_spec(),
        source: EdgeSource { pending: false, clears: 0 },
        halted: false,
    }
}

/// One foreground tick: advance the counter and drive the outputs by the
/// mode's policy. A halted system no longer ticks.
pub open spec fn tick_spec(s: System) -> System {
    if s.halted {
        s
    } else {
        System {
            device: DeviceState {
                counter: next_counter_spec(s.device.counter),
                mode: s.device.mode,
            },
            outputs: tick_outputs_spec(
                s.device.mode,
                next_counter_spec(s.device.counter),
                s.outputs,
            ),
            source: s.source,
            halted: false,
        }
    }
}

/// One rising edge: the latch is acknowledged exactly once and the mode
/// advances by one. Counter and outputs are untouched — the handler never
/// drives the pins.
pub open spec fn edge_spec(s: System) -> System {
    if s.halted {
        s
    } else {
        System {
            device: DeviceState {
                counter: s.device.counter,
                mode: bumped_mode_spec(s.device.mode),
            },
            outputs: s.outputs,
            source: EdgeSource { pending: false, clears: (s.source.clears + 1) as u64 },
            halted: false,
        }
    }
}

/// The fail-stop fault path: the system halts; state and outputs keep
/// their last values forever.
pub open spec fn fault_spec(s: System) -> System {
    System { device: s.device, outputs: s.outputs, source: s.source, halted: true }
}

/// The transition for one event.
pub open spec fn step_spec(s: System, ev: Event) -> System {
    match ev {
        Event::Tick => tick_spec(s),
        Event::Edge => edge_spec(s),
        Event::Fault(_) => fault_spec(s),
    }
}

/// The state after a whole sequence of events, first event first.
pub open spec fn run_events(s: System, evs: Seq<Event>) -> System
    decreases evs.len(),
{
    if evs.len() == 0 {
        s
    } else {
        run_events(step_spec(s, evs[0]), evs.drop_first())
    }
}

/// The control-loop body after the blocking delay: advance the counter,
/// then drive every output — to the counter's bits in pattern mode, to the
/// inverse of its previous level in toggle mode. The mode is read once and
/// never written here.
pub fn control_tick(device: &mut DeviceState, outputs: &mut OutputSet)
    requires
        old(device).wf(),
    ensures
        final(device).wf(),
        final(device).counter == next_counter_spec(old(device).counter),
        final(device).mode == old(device).mode,
        *final(outputs) == tick_outputs_spec(
            old(device).mode,
            next_counter_spec(old(device).counter),
            *old(outputs),
        ),
{
    device.counter = next_counter(device.counter);
    match mode_kind(device.mode) {
        OutputMode::Pattern => {
            *outputs = pattern_for(device.counter);
        },
        OutputMode::Toggle => {
            *outputs = toggled(outputs);
        },
    }
}

/// The edge-interrupt handler body, already inside the critical section:
/// acknowledge the latch exactly once, then advance the mode. The counter
/// is never written here.
pub fn handle_edge(source: &mut EdgeSource, device: &mut DeviceState)
    requires
        old(source).clears < u64::MAX,
    ensures
        !final(source).pending,
        final(source).clears == old(source).clears + 1,
        final(device).mode == bumped_mode_spec(old(device).mode),
        final(device).counter == old(device).counter,
{
    source.pending = false;
    source.clears = source.clears + 1;
    device.mode = bumped_mode(device.mode);
}

/// The edge-interrupt handler as entered from the background context: the
/// edge source still lives in its guarded cell, where initialization put
/// it. Entering before that transfer is an initialization-ordering bug and
/// is ruled out; the binary checks and fails loudly instead.
pub fn handle_edge_event(cell: &mut GuardedCell<EdgeSource>, device: &mut DeviceState)
    requires
        old(cell).is_init(),
        old(cell).value().clears < u64::MAX,
    ensures
        final(cell).is_init(),
        !final(cell).value().pending,
        final(cell).value().clears == old(cell).value().clears + 1,
        final(device).mode == bumped_mode_spec(old(device).mode),
        final(device).counter == old(device).counter,
{
    let source = cell.borrow_mut();
    handle_edge(source, device);
}

/// Apply one event to the system, returning the diagnostic line when the
/// event is an unhandled fault.
pub fn step(s: &mut System, ev: Event) -> (diag: Option<String>)
    requires
        old(s).wf(),
        ev is Edge ==> old(s).source.clears < u64::MAX,
    ensures
        *final(s) == step_spec(*old(s), ev),
        final(s).wf(),
        match ev {
            Event::Fault(k) => diag is Some && diag->0@ == fault_message_spec(k as int),
            _ => diag is None,
        },
{
    match ev {
        Event::Tick => {
            if !s.halted {
                let mut device = s.device;
                let mut outputs = s.outputs;
                control_tick(&mut device, &mut outputs);
                s.device = device;
                s.outputs = outputs;
            }
            None
        },
        Event::Edge => {
            if !s.halted {
                let mut source = s.source;
                let mut device = s.device;
                handle_edge(&mut source, &mut device);
                s.source = source;
                s.device = device;
            }
            None
        },
        Event::Fault(k) => {
            s.halted = true;
            Some(fault_message(k))
        },
    }
}

/// Edge accumulation: after `n` rising edges the mode has advanced by `n`
/// under 8-bit wrap arithmetic and the latch has been acknowledged exactly
/// `n` more times — no duplicate and no missed clears — while counter and
/// outputs are untouched.
pub proof fn lemma_edges_accumulate(s: System, n: nat)
    requires
        !s.halted,
        s.source.clears + n <= u64::MAX,
    ensures
        run_events(s, Seq::new(n, |i: int| Event::Edge)).device.mode == (s.device.mode + n) % 256,
        run_events(s, Seq::new(n, |i: int| Event::Edge)).source.clears == s.source.clears + n,
        run_events(s, Seq::new(n, |i: int| Event::Edge)).device.counter == s.device.counter,
        run_events(s, Seq::new(n, |i: int| Event::Edge)).outputs == s.outputs,
        !run_events(s, Seq::new(n, |i: int| Event::Edge)).halted,
        n > 0 ==> !run_events(s, Seq::new(n, |i: int| Event::Edge)).source.pending,
    decreases n,
{
    let evs = Seq::new(n, |i: int| Event::Edge);
    if n == 0 {
        assert(run_events(s, evs) == s);
    } else {
        let t = edge_spec(s);
        let rest = Seq::new((n - 1) as nat, |i: int| Event::Edge);
        assert(evs.drop_first() =~= rest);
        assert(run_events(s, evs) == run_events(t, rest));
        lemma_edges_accumulate(t, (n - 1) as nat);
        assert(t.device.mode == (s.device.mode + 1) % 256);
        assert(run_events(t, rest).device.mode == (t.device.mode + (n - 1)) % 256);
        assert(((s.device.mode + 1) % 256 + (n - 1)) % 256 == (s.device.mode + n) % 256) by {
            vstd::arithmetic::div_mod::lemma_add_mod_noop(
                (s.device.mode + 1) as int,
                (n - 1) as int,
                256,
            );
            vstd::arithmetic::div_mod::lemma_mod_twice((s.device.mode + n) as int, 256);
            vstd::arithmetic::div_mod::lemma_mod_twice((n - 1) as int, 256);
        }
    }
}

/// Mutual exclusion: the foreground's critical-section read of `mode` and
/// the handler's critical-section write are serialized, so the only
/// interleavings place the read wholly before or wholly after the write,
/// and the value observed is the pre-write or the post-write value — no
/// torn or intermediate value exists in any interleaving.
pub proof fn lemma_mode_read_not_torn(s: System, read_before_write: bool)
    requires
        !s.halted,
    ensures
        ({
            let observed = if read_before_write {
                s.device.mode
            } else {
                edge_spec(s).device.mode
            };
            observed == s.device.mode || observed == bumped_mode_spec(s.device.mode)
        }),
{
}

/// Two consecutive ticks in toggle mode restore the original output
/// levels: each tick inverts every output whatever the counter holds, and
/// inversion is an involution.
pub proof fn lemma_toggle_ticks_restore(s: System)
    requires
        !s.halted,
        s.device.mode % 2 == 1,
    ensures
        tick_spec(tick_spec(s)).outputs == s.outputs,
{
    crate::outputs::lemma_toggle_involution(s.outputs);
}

/// Fail-stop: once the fault path has fired, no later event changes the
/// system at all — in particular the output pins never change again.
pub proof fn lemma_halted_system_is_inert(s: System, evs: Seq<Event>)
    requires
        s.halted,
    ensures
        run_events(s, evs) == s,
    decreases evs.len(),
{
    if evs.len() > 0 {
        assert(step_spec(s, evs[0]) == s);
        lemma_halted_system_is_inert(s, evs.drop_first());
    }
}

} // verus!
