//! The one-shot comparator of the system timer, as the state of its registers.
use vstd::prelude::*;

verus! {

/// Register state of the target-mode comparator.
///
/// `armed` means the comparator is enabled and has not yet reached `target`;
/// `pending` is the latched interrupt bit, which stays set until cleared.
#[derive(Clone, Copy, Debug, PartialEq, Eq, Structural)]
pub struct AlarmSlot {
    pub target: u64,
    pub armed: bool,
    pub interrupt_enabled: bool,
    pub pending: bool,
}

/// The comparator after one counter edge at tick `now`: an armed comparator
/// whose target has been reached latches the pending bit and disarms.
pub open spec fn edge_spec(s: AlarmSlot, now: u64) -> AlarmSlot {
    if s.armed && s.target <= now {
        AlarmSlot { armed: false, pending: true, ..s }
    } else {
        s
    }
}

impl AlarmSlot {
    /// An idle comparator: disarmed, interrupt masked, nothing pending.
    pub fn new() -> (r: AlarmSlot)
        ensures
            r == (AlarmSlot { target: 0, armed: false, interrupt_enabled: false, pending: false }),
    {
        AlarmSlot { target: 0, armed: false, interrupt_enabled: false, pending: false }
    }

    /// Arms the comparator for tick `t`; a target at or before the current
    /// tick latches on the next edge.
    pub fn set_target(&mut self, t: u64)
        ensures
            *final(self) == (AlarmSlot { target: t, armed: true, ..*old(self) }),
    {
        self.target = t;
        self.armed = true;
    }

    /// Gates notification of the CPU; the target is left as it is.
    pub fn enable_interrupt(&mut self, enable: bool)
        ensures
            *final(self) == (AlarmSlot { interrupt_enabled: enable, ..*old(self) }),
    {
        self.interrupt_enabled = enable;
    }

    /// Clears the latched pending bit.
    pub fn clear_pending(&mut self)
        ensures
            *final(self) == (AlarmSlot { pending: false, ..*old(self) }),
    {
        self.pending = false;
    }

    /// Returns the comparator to the disarmed idle state.
    pub fn reset(&mut self)
        ensures
            *final(self) == (AlarmSlot { armed: false, ..*old(self) }),
    {
        self.armed = false;
    }

    /// One edge of the free-running counter, which now reads `now`.
    pub fn edge(&mut self, now: u64)
        ensures
            *final(self) == edge_spec(*old(self), now),
    {
        if self.armed && self.target <= now {
            self.armed = false;
            self.pending = true;
        }
    }

    /// Whether the CPU is being asked to run the alarm handler.
    pub fn interrupt_requested(&self) -> (r: bool)
        ensures
            r == (self.pending && self.interrupt_enabled),
    {
        self.pending && self.interrupt_enabled
    }
}

} // verus!
