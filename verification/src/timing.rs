//! Cycle counts for the three phases of one protocol bit.
//!
//! A WS2812 bit period is split into a start phase (always high), a data
//! phase (high exactly when the bit is one) and a stop phase (always low).
//! The phase lengths are counted in state-machine clock cycles; their sum
//! is the length of every bit period and must match the divisor used to
//! derive the state-machine clock.

use vstd::prelude::*;

verus! {

/// Start-phase cycles: the line is high for at least this long in every bit.
pub const T1: u8 = 2;

/// Data-phase cycles: the line stays high for these when the bit is one.
pub const T2: u8 = 5;

/// Stop-phase cycles: the line is low for at least this long in every bit.
pub const T3: u8 = 3;

/// State-machine cycles per protocol bit; equals `T1 + T2 + T3`.
pub const CYCLES_PER_BIT: u32 = 10;

/// The three phase lengths of one protocol bit, in state-machine cycles.
pub struct BitTiming {
    pub t1: u8,
    pub t2: u8,
    pub t3: u8,
}

impl BitTiming {
    /// Each phase is non-empty, and each delay field `t - 1` fits the
    /// four instruction bits left beside a one-bit side-set.
    pub open spec fn wf(self) -> bool {
        &&& 0 < self.t1 <= 16
        &&& 0 < self.t2 <= 16
        &&& 0 < self.t3 <= 16
    }

    /// Length of one full bit period in state-machine cycles.
    pub open spec fn cycles_per_bit_spec(self) -> int {
        self.t1 + self.t2 + self.t3
    }

    /// The timing of the WS2812 protocol at 800 kHz: 2 + 5 + 3 cycles.
    pub fn ws2812() -> (t: BitTiming)
        ensures
            t.t1 == T1,
            t.t2 == T2,
            t.t3 == T3,
            t.wf(),
    {
        BitTiming { t1: T1, t2: T2, t3: T3 }
    }

    /// Total cycles of one bit period.
    pub fn cycles_per_bit(&self) -> (c: u32)
        requires
            self.wf(),
        ensures
            c == self.cycles_per_bit_spec(),
    {
        (self.t1 as u32) + (self.t2 as u32) + (self.t3 as u32)
    }
}

/// The bit period of the WS2812 timing equals the divisor that the clock
/// configuration spreads one bit over: ten cycles.
pub proof fn lemma_timing_divisor()
    ensures
        T1 + T2 + T3 == CYCLES_PER_BIT,
        CYCLES_PER_BIT == 10,
{
}

} // verus!
