//! The two countdown timers: delay and sound.
//!
//! A timer is an 8-bit counter with a saturating decrement. It is
//! decremented only by the external fixed-rate 60 Hz tick, never by
//! instruction execution: instructions only read and write the value. That
//! decoupling is what keeps program timing locked to real time regardless
//! of how fast instructions run.

use vstd::prelude::*;

verus! {

/// An 8-bit countdown timer, saturating at 0.
#[derive(Debug)]
pub struct Timer(u8);

impl View for Timer {
    type V = u8;

    closed spec fn view(&self) -> u8 {
        self.0
    }
}

impl Timer {
    /// Creates a timer at 0.
    pub fn new() -> (t: Timer)
        ensures
            t@ == 0,
    {
        Timer(0)
    }

    /// Counts down by one, saturating: a timer at 0 stays at 0 and never
    /// wraps.
    pub fn decrement(&mut self)
        ensures
            final(self)@ == if old(self)@ == 0 {
                0u8
            } else {
                (old(self)@ - 1) as u8
            },
    {
        if self.0 > 0 {
            self.0 = self.0 - 1;
        }
    }

    /// Sets the counter.
    pub fn set(&mut self, value: u8)
        ensures
            final(self)@ == value,
    {
        self.0 = value;
    }

    /// Reads the counter.
    pub fn get(&self) -> (value: u8)
        ensures
            value == self@,
    {
        self.0
    }
}

} // verus!
