//! One-shot signal flags connecting the interrupt-level codec to the
//! task-level sequencer.
//!
//! In the running firmware each signal is a single flag set in one
//! context and consumed in the other; here the flag is explicit state
//! owned by the shared link context, so every set, take and clear is a
//! verified transition.

use vstd::prelude::*;

verus! {

/// A consumable boolean flag: `set_signal` raises it, `take_signal`
/// reports and lowers it, `clear` lowers it.
pub struct Signal {
    pub raised: bool,
}

impl Signal {
    /// Whether the signal is currently raised.
    pub open spec fn is_raised(self) -> bool {
        self.raised
    }

    /// A fresh, lowered signal.
    pub fn new() -> (r: Signal)
        ensures
            !r.raised,
    {
        Signal { raised: false }
    }

    /// Raise the signal.
    pub fn set_signal(&mut self)
        ensures
            final(self).raised,
    {
        self.raised = true;
    }

    /// Report whether the signal was raised, lowering it either way.
    pub fn take_signal(&mut self) -> (r: bool)
        ensures
            r == old(self).raised,
            !final(self).raised,
    {
        let r = self.raised;
        self.raised = false;
        r
    }

    /// Lower the signal.
    pub fn clear(&mut self)
        ensures
            !final(self).raised,
    {
        self.raised = false;
    }
}

} // verus!
