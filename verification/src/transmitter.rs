//! The pixel transmitter: configuration and transfer state machine.
//!
//! A transmitter owns one state machine, one DMA channel and one output
//! pin for the whole program; this module holds everything about it that
//! is plain data. [`Ws2812::new`] derives the full peripheral
//! configuration (encoder program, clock divider, shift and FIFO setup)
//! and validates the clock at startup. [`Ws2812::write`] packs a frame
//! into the words a DMA transfer pushes to the shift register and marks a
//! transfer in flight; [`Ws2812::complete_write`] records its observed
//! completion. Because `write` demands an idle transmitter and leaves it
//! in flight, and only `complete_write` returns it to idle, two writes on
//! one transmitter can never overlap.

use vstd::prelude::*;
use crate::clock::ClockDivider;
use crate::clock::ClockError;
use crate::clock::clock_divider;
use crate::clock::divider_raw_spec;
use crate::clock::MAX_SYS_CLK_KHZ;
use crate::clock::bit_khz;
use crate::codec::Frame;
use crate::codec::packed_word;
use crate::codec::pack_frame;
use crate::encoder::EncoderProgram;
use crate::encoder::ws2812_program;
use crate::encoder::program_matches;
use crate::timing::BitTiming;
use crate::timing::CYCLES_PER_BIT;
use crate::timing::T1;
use crate::timing::T2;
use crate::timing::T3;

verus! {

/// Shift-register and FIFO setup for the transmitter's state machine:
/// auto-refill from the FIFO, 24-bit threshold (the pad byte is never
/// shifted out), shift out most significant bit first, and both FIFOs
/// joined into one deep transmit FIFO.
#[derive(Clone, Copy, PartialEq, Eq, Structural, Debug)]
pub struct ShiftSetup {
    pub auto_fill: bool,
    pub threshold: u8,
    pub shift_left: bool,
    pub fifo_tx_only: bool,
}

/// The full plain-data configuration of the transmitter's peripheral.
pub struct TransmitterConfig {
    pub program: EncoderProgram,
    pub divider: ClockDivider,
    pub shift: ShiftSetup,
}

/// Whether a DMA transfer is currently in flight.
#[derive(Clone, Copy, PartialEq, Eq, Structural, Debug)]
pub enum TransferState {
    Idle,
    InFlight,
}

/// The WS2812 transmitter: its fixed configuration, its fixed frame
/// length, and the state of the one transfer that may be in flight.
pub struct Ws2812 {
    config: TransmitterConfig,
    n: usize,
    state: TransferState,
}

/// The shift setup the protocol requires.
pub open spec fn shift_setup_spec() -> ShiftSetup {
    ShiftSetup { auto_fill: true, threshold: 24, shift_left: true, fifo_tx_only: true }
}

impl Ws2812 {
    /// Frame length fixed at construction.
    pub closed spec fn n_spec(self) -> int {
        self.n as int
    }

    pub closed spec fn state_spec(self) -> TransferState {
        self.state
    }

    pub closed spec fn config_spec(self) -> TransmitterConfig {
        self.config
    }

    /// The transmitter after a write begins: only the transfer state moves.
    pub closed spec fn after_write(self) -> Ws2812 {
        Ws2812 { state: TransferState::InFlight, ..self }
    }

    /// The transmitter after a completed transfer is observed.
    pub closed spec fn after_complete(self) -> Ws2812 {
        Ws2812 { state: TransferState::Idle, ..self }
    }

    /// Build a transmitter for `n` LEDs from the measured system clock.
    ///
    /// Succeeds exactly when the clock admits a valid divider; the
    /// configuration then holds the assembled WS2812 encoder program, the
    /// fixed-point divider for ten cycles per bit, and the protocol's
    /// shift setup, with no transfer in flight.
    pub fn new(sys_clk_khz: u32, n: usize) -> (r: Result<Ws2812, ClockError>)
        ensures
            r is Ok <==> MAX_SYS_CLK_KHZ > sys_clk_khz && sys_clk_khz as int >= bit_khz(
                CYCLES_PER_BIT,
            ),
            r is Err ==> r == if sys_clk_khz >= MAX_SYS_CLK_KHZ {
                Result::<Ws2812, ClockError>::Err(ClockError::TooFast)
            } else {
                Result::<Ws2812, ClockError>::Err(ClockError::TooSlow)
            },
            r is Ok ==> {
                let w = r->Ok_0;
                &&& w.n_spec() == n
                &&& w.state_spec() == TransferState::Idle
                &&& program_matches(
                    w.config_spec().program,
                    (BitTiming { t1: T1, t2: T2, t3: T3 }),
                )
                &&& w.config_spec().divider.raw == divider_raw_spec(sys_clk_khz, CYCLES_PER_BIT)
                &&& w.config_spec().shift == shift_setup_spec()
            },
    {
        let timing = BitTiming::ws2812();
        let program = ws2812_program(&timing);
        let divider = match clock_divider(sys_clk_khz, CYCLES_PER_BIT) {
            Ok(d) => d,
            Err(e) => {
                return Err(e);
            },
        };
        let shift = ShiftSetup { auto_fill: true, threshold: 24, shift_left: true, fifo_tx_only: true };
        Ok(Ws2812 {
            config: TransmitterConfig { program, divider, shift },
            n,
            state: TransferState::Idle,
        })
    }

    /// The configuration to mirror onto the peripheral.
    pub fn config(&self) -> (c: &TransmitterConfig)
        ensures
            *c == self.config_spec(),
    {
        &self.config
    }

    /// The fixed frame length.
    pub fn len(&self) -> (n: usize)
        ensures
            n == self.n_spec(),
    {
        self.n
    }

    /// Whether no transfer is in flight.
    pub fn is_idle(&self) -> (b: bool)
        ensures
            b == (self.state_spec() == TransferState::Idle),
    {
        match self.state {
            TransferState::Idle => true,
            TransferState::InFlight => false,
        }
    }

    /// Begin sending a frame: pack it into the words the DMA transfer
    /// pushes to the shift register, and mark the transfer in flight.
    ///
    /// A transmitter serializes its transfers: a write demands that the
    /// previous one has completed, and the frame must have the length
    /// fixed at construction.
    pub fn write(&mut self, frame: &Frame) -> (words: Vec<u32>)
        requires
            old(self).state_spec() == TransferState::Idle,
            frame@.len() == old(self).n_spec(),
        ensures
            *final(self) == old(self).after_write(),
            final(self).state_spec() == TransferState::InFlight,
            final(self).config_spec() == old(self).config_spec(),
            final(self).n_spec() == old(self).n_spec(),
            words@.len() == frame@.len(),
            forall|i: int| 0 <= i < frame@.len() ==> words@[i] == packed_word(frame@[i]),
    {
        let words = pack_frame(frame.pixels());
        self.state = TransferState::InFlight;
        words
    }

    /// Record that the in-flight transfer was observed complete.
    pub fn complete_write(&mut self)
        requires
            old(self).state_spec() == TransferState::InFlight,
        ensures
            *final(self) == old(self).after_complete(),
            final(self).state_spec() == TransferState::Idle,
            final(self).config_spec() == old(self).config_spec(),
            final(self).n_spec() == old(self).n_spec(),
    {
        self.state = TransferState::Idle;
    }
}

/// Writes on one transmitter are serialized: once a write has begun, the
/// transmitter is not idle, so no second write can begin — `write`
/// demands an idle transmitter — until the first transfer's completion
/// has been observed, which alone makes it idle again. Configuration and
/// frame length survive both steps unchanged.
pub proof fn lemma_write_serialized(w: Ws2812)
    requires
        w.state_spec() == TransferState::Idle,
    ensures
        w.after_write().state_spec() != TransferState::Idle,
        w.after_write().after_complete().state_spec() == TransferState::Idle,
        w.after_write().config_spec() == w.config_spec(),
        w.after_write().n_spec() == w.n_spec(),
        w.after_write().after_complete().config_spec() == w.config_spec(),
        w.after_write().after_complete().n_spec() == w.n_spec(),
{
}

} // verus!
