//! The seed channel: a single-slot store for one externally supplied
//! unsigned integer. An external caller overwrites it at any time; the
//! state machine reads it without consuming it. Last write wins; there is
//! no queue and no history. The value 0 doubles as the "no seed yet"
//! sentinel, so a genuine seed of 0 is indistinguishable from unset.

use vstd::prelude::*;

verus! {

/// A process-wide single-slot seed store, owned by whoever embeds the
/// state machine and written from outside the simulation loop.
pub struct SeedChannel {
    pub value: u32,
}

impl SeedChannel {
    /// A fresh channel holds the sentinel 0: no seed yet.
    pub fn new() -> (c: SeedChannel)
        ensures
            c.value == 0,
    {
        SeedChannel { value: 0 }
    }

    /// Unconditional overwrite; no validation, any value at any time.
    pub fn write(&mut self, seed: u32)
        ensures
            final(self).value == seed,
    {
        self.value = seed;
    }

    /// Non-destructive read of the current value.
    pub fn read(&self) -> (r: u32)
        ensures
            r == self.value,
    {
        self.value
    }
}

} // verus!
