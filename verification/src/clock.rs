//! The millisecond clock that the timer interrupt advances.
use vstd::prelude::*;

verus! {

/// 32-bit millisecond clock. The timer interrupt advances it and the idle
/// loop reads it; the firmware shares it between the two behind a lock.
#[derive(Debug)]
pub struct SystemClock(u32);

impl View for SystemClock {
    type V = u32;

    /// The count of milliseconds.
    closed spec fn view(&self) -> u32 {
        self.0
    }
}

impl SystemClock {
    /// A clock at zero.
    pub fn new() -> (r: SystemClock)
        ensures
            r@ == 0,
    {
        SystemClock(0)
    }

    /// Advances the clock by one millisecond, wrapping to zero after
    /// `u32::MAX`; called from the timer interrupt.
    pub fn inc_from_interrupt(&mut self)
        ensures
            final(self)@ == (old(self)@ + 1) % 0x1_0000_0000,
    {
        self.0 = self.0.wrapping_add(1);
    }

    /// The current count of milliseconds.
    pub fn get_raw(&self) -> (r: u32)
        ensures
            r == self@,
    {
        self.0
    }
}

/// The count after `n` timer ticks from `count`, one tick at a time as
/// `inc_from_interrupt` advances it.
pub open spec fn after_ticks(count: u32, n: nat) -> u32
    decreases n,
{
    if n == 0 {
        count
    } else {
        ((after_ticks(count, (n - 1) as nat) + 1) % 0x1_0000_0000) as u32
    }
}

/// No tick is lost: `n` ticks from `count` add `n` to it, modulo 2^32.
pub proof fn lemma_ticks_add_up(count: u32, n: nat)
    ensures
        after_ticks(count, n) == (count + n) % 0x1_0000_0000,
    decreases n,
{
    if n > 0 {
        lemma_ticks_add_up(count, (n - 1) as nat);
        assert(((count + (n - 1)) % 0x1_0000_0000 + 1) % 0x1_0000_0000 == (count + n) % 0x1_0000_0000)
            by (nonlinear_arith);
    }
}

} // verus!
