//! The integer part of the color pipeline: evenly spaced hue rotation.
//!
//! The color engine derives one palette entry per LED by rotating the hue
//! of a darkened base color by `k * 360/n` degrees around the wheel of a
//! perceptual lightness/chroma/hue space. The perceptual conversions
//! themselves are floating-point work done outside this crate; what is
//! verified here is the angle schedule they are driven with. Angles are
//! held in millidegrees so that every step of an even division of the
//! circle is exact.

use vstd::prelude::*;
use vstd::arithmetic::div_mod::lemma_fundamental_div_mod;
use vstd::arithmetic::div_mod::lemma_mod_add_multiples_vanish;
use vstd::arithmetic::div_mod::lemma_small_mod;

verus! {

/// One full turn of the hue wheel, in millidegrees.
pub const FULL_TURN_MILLIDEG: u32 = 360000;

/// Number of LEDs on the ring, and of palette entries generated for it.
pub const NUM_LEDS: usize = 12;

/// The fixed lightness factor applied to the base color, in permille:
/// the engine darkens by 0.9 before rotating hues.
pub const DARKEN_PERMILLE: u32 = 900;

/// Pause between two transmitted frames of the animation, in milliseconds.
pub const FRAME_DELAY_MS: u64 = 10;

/// The hue step between neighbouring LEDs: `360/n` degrees in
/// millidegrees, exact when `n` divides the full turn.
pub open spec fn hue_step_spec(n: int) -> int {
    (FULL_TURN_MILLIDEG as int) / n
}

/// Hue offset of palette entry `k`: `k` steps around the wheel.
pub open spec fn hue_offset_spec(k: int, n: int) -> int {
    k * hue_step_spec(n)
}

/// A hue `k` steps past `base`, folded back onto the wheel.
pub open spec fn rotated_hue_spec(base: int, k: int, n: int) -> int {
    (base + hue_offset_spec(k, n)) % (FULL_TURN_MILLIDEG as int)
}

/// The hue step for a ring of `n` LEDs, in millidegrees.
pub fn hue_step_millideg(n: usize) -> (s: u32)
    requires
        0 < n,
        FULL_TURN_MILLIDEG as int % n as int == 0,
    ensures
        s == hue_step_spec(n as int),
        n <= FULL_TURN_MILLIDEG,
        1 <= s,
{
    proof {
        lemma_divisor_of_full_turn(n as int);
    }
    FULL_TURN_MILLIDEG / (n as u32)
}

/// A positive divisor of the full turn is at most the full turn, and the
/// corresponding step is at least one millidegree.
proof fn lemma_divisor_of_full_turn(n: int)
    requires
        0 < n,
        FULL_TURN_MILLIDEG as int % n == 0,
    ensures
        n <= FULL_TURN_MILLIDEG,
        1 <= hue_step_spec(n),
        n * hue_step_spec(n) == FULL_TURN_MILLIDEG,
{
    let full = FULL_TURN_MILLIDEG as int;
    if n > full {
        lemma_small_mod(FULL_TURN_MILLIDEG as nat, n as nat);
    }
    lemma_fundamental_div_mod(full, n);
    assert(n * hue_step_spec(n) == full);
    if hue_step_spec(n) < 1 {
        assert(n * hue_step_spec(n) <= 0) by (nonlinear_arith)
            requires
                0 < n,
                hue_step_spec(n) <= 0,
        ;
    }
}

/// The hue offsets of all `n` palette entries, in millidegrees:
/// entry `k` sits `k * 360/n` degrees past the base hue. Every offset
/// stays within the first turn of the wheel.
pub fn hue_offsets_millideg(n: usize) -> (offsets: Vec<u32>)
    requires
        0 < n,
        FULL_TURN_MILLIDEG as int % n as int == 0,
    ensures
        offsets@.len() == n,
        forall|k: int| 0 <= k < n ==> offsets@[k] == hue_offset_spec(k, n as int),
        forall|k: int| 0 <= k < n ==> offsets@[k] < FULL_TURN_MILLIDEG,
{
    let step: u32 = hue_step_millideg(n);
    proof {
        lemma_divisor_of_full_turn(n as int);
    }
    let mut offsets: Vec<u32> = Vec::new();
    let mut k: usize = 0;
    while k < n
        invariant
            k <= n,
            n <= FULL_TURN_MILLIDEG,
            step == hue_step_spec(n as int),
            1 <= step,
            n as int * step == FULL_TURN_MILLIDEG,
            offsets@.len() == k,
            forall|j: int| 0 <= j < k ==> offsets@[j] == hue_offset_spec(j, n as int),
            forall|j: int| 0 <= j < k ==> offsets@[j] < FULL_TURN_MILLIDEG,
        decreases n - k,
    {
        proof {
            assert(k as int * step + step <= n as int * step) by (nonlinear_arith)
                requires
                    (k as int) < (n as int),
                    0 <= step,
            ;
            assert(0 <= k as int * step) by (nonlinear_arith)
                requires
                    0 <= k as int,
                    0 <= step,
            ;
            assert(k as int * step < FULL_TURN_MILLIDEG);
        }
        let off: u32 = (k as u32) * step;
        offsets.push(off);
        k = k + 1;
    }
    offsets
}

/// Hue rotation closure: `n` consecutive hue deltas of `360/n` degrees
/// sum to exactly one full turn, and rotating by `n` further steps from
/// anywhere on the wheel returns to the same hue.
pub proof fn lemma_hue_rotation_closure(n: int)
    requires
        0 < n,
        FULL_TURN_MILLIDEG as int % n == 0,
    ensures
        forall|k: int| #[trigger] hue_offset_spec(k + 1, n) - hue_offset_spec(k, n)
            == hue_step_spec(n),
        n * hue_step_spec(n) == FULL_TURN_MILLIDEG,
        forall|base: int, k: int|
            rotated_hue_spec(base, k + n, n) == #[trigger] rotated_hue_spec(base, k, n),
{
    let full = FULL_TURN_MILLIDEG as int;
    let s = hue_step_spec(n);
    lemma_fundamental_div_mod(full, n);
    assert(n * s == full);
    assert forall|k: int| #[trigger] hue_offset_spec(k + 1, n) - hue_offset_spec(k, n) == s by {
        assert((k + 1) * s - k * s == s) by (nonlinear_arith);
    }
    assert forall|base: int, k: int|
        rotated_hue_spec(base, k + n, n) == #[trigger] rotated_hue_spec(base, k, n) by {
        assert((k + n) * s == k * s + n * s) by (nonlinear_arith);
        assert(base + hue_offset_spec(k + n, n) == full + (base + hue_offset_spec(k, n)));
        lemma_mod_add_multiples_vanish(base + hue_offset_spec(k, n), full);
    }
}

} // verus!
