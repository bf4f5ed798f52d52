//! The state-machine clock divider.
//!
//! The encoder spends `CYCLES_PER_BIT` state-machine cycles on each
//! protocol bit, so the state machine must run at
//! `PROTOCOL_KHZ * CYCLES_PER_BIT` kHz. The divider is the ratio of the
//! system clock to that rate, held in 24.8 fixed point: eight fractional
//! bits keep the cumulative timing error within the protocol's pulse-width
//! tolerance. Frequencies are taken in kHz so every intermediate value
//! fits the 24-bit integer part.
//!
//! A system clock that cannot produce a valid divider is a configuration
//! error caught here at startup, before the encoder is enabled.

use vstd::prelude::*;
use vstd::arithmetic::div_mod::lemma_fundamental_div_mod;
use vstd::arithmetic::div_mod::lemma_remainder_upper;
use vstd::arithmetic::div_mod::lemma_remainder_lower;

verus! {

/// WS2812 protocol bit rate, in kHz.
pub const PROTOCOL_KHZ: u32 = 800;

/// The fixed-point scale of the divider: `raw` counts 1/256ths.
pub const DIVIDER_ONE: u32 = 256;

/// System clocks at or above 2^24 kHz are outside the divider's 24-bit
/// integer range.
pub const MAX_SYS_CLK_KHZ: u32 = 0x1000000;

/// The state-machine clock divider in 24.8 fixed point:
/// the divider's value is `raw / 256`.
#[derive(Clone, Copy, PartialEq, Eq, Structural, Debug)]
pub struct ClockDivider {
    pub raw: u32,
}

/// A system clock frequency from which no valid divider can be derived.
#[derive(Clone, Copy, PartialEq, Eq, Structural, Debug)]
pub enum ClockError {
    /// The system clock is slower than the required state-machine clock:
    /// the divider would fall below one.
    TooSlow,
    /// The system clock does not fit the divider's 24-bit integer range.
    TooFast,
}

/// The state-machine clock rate the encoder needs, in kHz.
pub open spec fn bit_khz(cycles_per_bit: u32) -> int {
    PROTOCOL_KHZ * cycles_per_bit
}

/// The divider's raw fixed-point value: the ratio of the system clock to
/// the required state-machine clock, in 1/256ths, rounded down.
pub open spec fn divider_raw_spec(sys_clk_khz: u32, cycles_per_bit: u32) -> int {
    (sys_clk_khz * 256) / bit_khz(cycles_per_bit)
}

/// Derive the state-machine clock divider from the system clock.
///
/// Succeeds exactly when the system clock fits the 24-bit integer range
/// and is at least the required state-machine clock rate, and then returns
/// the fixed-point ratio rounded down, which is at least one.
pub fn clock_divider(sys_clk_khz: u32, cycles_per_bit: u32) -> (r: Result<
    ClockDivider,
    ClockError,
>)
    requires
        0 < cycles_per_bit <= 1000,
    ensures
        r == if sys_clk_khz >= MAX_SYS_CLK_KHZ {
            Result::<ClockDivider, ClockError>::Err(ClockError::TooFast)
        } else if (sys_clk_khz as int) < bit_khz(cycles_per_bit) {
            Result::<ClockDivider, ClockError>::Err(ClockError::TooSlow)
        } else {
            Result::<ClockDivider, ClockError>::Ok(ClockDivider {
                raw: divider_raw_spec(sys_clk_khz, cycles_per_bit) as u32,
            })
        },
        r is Ok ==> DIVIDER_ONE <= r->Ok_0.raw,
{
    let bit: u32 = PROTOCOL_KHZ * cycles_per_bit;
    if sys_clk_khz >= MAX_SYS_CLK_KHZ {
        return Err(ClockError::TooFast);
    }
    if sys_clk_khz < bit {
        return Err(ClockError::TooSlow);
    }
    let scaled: u64 = (sys_clk_khz as u64) * 256;
    let raw64: u64 = scaled / (bit as u64);
    proof {
        lemma_div_bounds(scaled as int, bit as int);
        assert(bit as int * 256 <= scaled as int) by (nonlinear_arith)
            requires
                bit as int <= sys_clk_khz as int,
                scaled as int == sys_clk_khz as int * 256,
        ;
    }
    Ok(ClockDivider { raw: raw64 as u32 })
}

/// For a non-negative numerator and positive denominator, the quotient is
/// non-negative, at most the numerator, and grows with the numerator.
proof fn lemma_div_bounds(x: int, d: int)
    by (nonlinear_arith)
    requires
        0 <= x,
        0 < d,
    ensures
        0 <= x / d <= x,
        d * 256 <= x ==> 256 <= x / d,
{
}

/// Accuracy of the fixed-point divider: the represented value is never
/// above the exact ratio and falls short of it by less than one raw step,
/// that is, by less than 1/256.
pub proof fn lemma_divider_accuracy(sys_clk_khz: u32, cycles_per_bit: u32)
    requires
        0 < cycles_per_bit <= 1000,
    ensures
        divider_raw_spec(sys_clk_khz, cycles_per_bit) * bit_khz(cycles_per_bit) <= sys_clk_khz
            * 256,
        sys_clk_khz * 256 < (divider_raw_spec(sys_clk_khz, cycles_per_bit) + 1) * bit_khz(
            cycles_per_bit,
        ),
{
    let x = sys_clk_khz * 256;
    let d = bit_khz(cycles_per_bit);
    assert(0 < d) by (nonlinear_arith)
        requires
            d == 800 * cycles_per_bit,
            0 < cycles_per_bit,
    ;
    lemma_fundamental_div_mod(x, d);
    lemma_remainder_upper(x, d);
    lemma_remainder_lower(x, d);
    assert((x / d) * d == d * (x / d)) by (nonlinear_arith);
    assert((x / d + 1) * d == d * (x / d) + d) by (nonlinear_arith);
}

/// The reference configuration: a 125,000 kHz system clock at the 800 kHz
/// protocol rate with ten cycles per bit gives the divider 15.625 exactly,
/// raw value 4000, with no rounding error.
pub proof fn lemma_divider_reference_clock()
    ensures
        divider_raw_spec(125000, 10) == 4000,
        divider_raw_spec(125000, 10) * bit_khz(10) == 125000 * 256,
{
    assert(bit_khz(10) == 8000);
    assert(divider_raw_spec(125000, 10) == 4000);
    assert(4000 * 8000 == 32000000);
}

} // verus!
