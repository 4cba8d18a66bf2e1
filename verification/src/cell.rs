//! A slot that passes ownership of a value between the foreground loop and
//! the background interrupt handler.
//!
//! In the running system the cell lives in a process-wide static: it starts
//! empty, initialization transfers a hardware handle into it exactly once
//! before the interrupt line is unmasked, and every later access happens
//! inside a critical section (all maskable interrupts disabled), so the two
//! contexts can never observe it concurrently. This module verifies the
//! ownership discipline itself — empty until populated, fail-fast on access
//! before population, the stored value handed out intact — while the
//! surrounding binary supplies the interrupt masking.

use vstd::pervasive::unreached;
use vstd::prelude::*;

verus! {

/// Owns at most one `T`; empty until initialization populates it.
pub struct GuardedCell<T> {
    slot: Option<T>,
}

impl<T> GuardedCell<T> {
    /// Whether initialization has transferred a value into the cell.
    pub closed spec fn is_init(self) -> bool {
        self.slot is Some
    }

    /// The stored value.
    pub closed spec fn value(self) -> T
        recommends
            self.is_init(),
    {
        self.slot->0
    }

    /// A fresh, empty cell, as it stands at process start.
    pub fn new() -> (c: Self)
        ensures
            !c.is_init(),
    {
        GuardedCell { slot: None }
    }

    /// Transfer ownership of `value` into the cell, replacing any previous
    /// content. Meant to be called exactly once, during initialization,
    /// before the background context can run.
    pub fn put(&mut self, value: T)
        ensures
            final(self).is_init(),
            final(self).value() == value,
    {
        self.slot = Some(value);
    }

    /// Whether the cell can be accessed yet; lets a caller fail loudly on
    /// an initialization-ordering bug instead of proceeding blindly.
    pub fn is_populated(&self) -> (b: bool)
        ensures
            b == self.is_init(),
    {
        self.slot.is_some()
    }

    /// Read access to the stored value. Accessing a never-populated cell is
    /// an unrecoverable initialization-ordering error, so it is ruled out
    /// here; a caller that cannot rule it out checks [`Self::is_populated`]
    /// first and aborts with a diagnostic.
    pub fn borrow(&self) -> (r: &T)
        requires
            self.is_init(),
        ensures
            *r == self.value(),
    {
        match &self.slot {
            Some(v) => v,
            None => unreached(),
        }
    }

    /// Exclusive access to the stored value, for the context that currently
    /// holds the critical section.
    pub fn borrow_mut(&mut self) -> (r: &mut T)
        requires
            old(self).is_init(),
        ensures
            *r == old(self).value(),
            final(self).is_init(),
            final(self).value() == *final(r),
    {
        match &mut self.slot {
            Some(v) => v,
            None => unreached(),
        }
    }
}

} // verus!
