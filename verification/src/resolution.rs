//! Frequency-to-duty-resolution algorithm.
//!
//! Given a target frequency and the platform's peripheral clock frequency,
//! the engine chooses the largest PWM duty resolution (bit width) that the
//! divided clock can still represent at that frequency, capped at the
//! hardware ceiling of 14 bits: `min(14, floor(log2(clock / frequency)))`.

use vstd::arithmetic::power2::{lemma_pow2_unfold, pow2};
use vstd::prelude::*;

verus! {

/// Hardware ceiling on the duty-resolution bit width, independent of the
/// requested frequency.
pub const MAX_DUTY_RESOLUTION: u8 = 14;

/// Floor of the base-2 logarithm: the largest `k` with `pow2(k) <= n` when
/// `n >= 1`, and 0 when `n == 0`.
pub open spec fn floor_log2(n: nat) -> nat
    decreases n,
{
    if n <= 1 {
        0
    } else {
        1 + floor_log2(n / 2)
    }
}

/// The duty resolution chosen for a clock-to-frequency ratio:
/// `min(14, floor_log2(ratio))`.
pub open spec fn resolution_for(ratio: nat) -> nat {
    if floor_log2(ratio) >= 14 {
        14
    } else {
        floor_log2(ratio)
    }
}

/// `floor_log2` really is the floor of the base-2 logarithm: `n` lies
/// between `pow2(floor_log2(n))` (inclusive) and twice that (exclusive).
pub proof fn lemma_floor_log2_bounds(n: nat)
    requires
        n >= 1,
    ensures
        pow2(floor_log2(n)) <= n < pow2(floor_log2(n) + 1),
    decreases n,
{
    if n <= 1 {
        vstd::arithmetic::power2::lemma2_to64();
    } else {
        lemma_floor_log2_bounds(n / 2);
        lemma_pow2_unfold(floor_log2(n));
        lemma_pow2_unfold(floor_log2(n) + 1);
    }
}

/// One halving step of the resolution search: matches the loop in
/// `duty_resolution`, which stops once the remaining ratio reaches 1 or the
/// resolution reaches the hardware ceiling.
pub open spec fn resolution_climb(value: nat, resolution: nat) -> nat
    decreases value,
{
    if value > 1 && resolution < 14 {
        resolution_climb(value / 2, resolution + 1)
    } else {
        resolution
    }
}

/// Climbing from `resolution` adds `floor_log2(value)` bits, saturating at
/// the 14-bit hardware ceiling.
proof fn lemma_resolution_climb(value: nat, resolution: nat)
    requires
        resolution <= 14,
    ensures
        resolution_climb(value, resolution) == if resolution + floor_log2(value) >= 14 {
            14nat
        } else {
            resolution + floor_log2(value)
        },
    decreases value,
{
    if value > 1 && resolution < 14 {
        lemma_resolution_climb(value / 2, resolution + 1);
    }
}

/// Chooses the largest duty resolution the timer hardware can support for
/// `frequency`, given the peripheral clock: `min(14, floor(log2(ratio)))`
/// for `ratio = clock_hz / frequency`.
///
/// Frequency 0 denotes silence, is handled by the caller, and never reaches
/// this algorithm. The result is always a valid resolution in `[0, 14]`.
pub fn duty_resolution(clock_hz: u32, frequency: u32) -> (resolution: u8)
    requires
        frequency > 0,
    ensures
        resolution == resolution_for((clock_hz / frequency) as nat),
        resolution <= MAX_DUTY_RESOLUTION,
{
    let ratio: u32 = clock_hz / frequency;
    let mut value: u32 = ratio;
    let mut resolution: u8 = 0;
    while value > 1 && resolution < 14
        invariant
            resolution <= 14,
            resolution_climb(value as nat, resolution as nat) == resolution_climb(
                ratio as nat,
                0,
            ),
        decreases value,
    {
        value = value / 2;
        resolution = resolution + 1;
    }
    proof {
        lemma_resolution_climb(ratio as nat, 0);
    }
    resolution
}

} // verus!
