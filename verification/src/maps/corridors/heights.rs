//! Wall heights: a fixed share of the corridor height plus a random share.

use vstd::prelude::*;

verus! {

/// One, in the fixed-point scale of variances and unit fractions: 24 fractional bits.
pub const UNIT: u32 = 0x100_0000;

/// The height of a wall, for a corridor of height `corridor_height`, a variance of
/// `variance / UNIT` and a uniform sample of `fraction / UNIT`:
/// `corridor_height * (1 - variance) + corridor_height * variance * sample`, rounded down.
pub open spec fn wall_height_of(corridor_height: int, variance: int, fraction: int) -> int {
    corridor_height * ((UNIT - variance) * UNIT + variance * fraction) / (UNIT * UNIT)
}

/// Whether some sample gives a wall the height `h`.
pub open spec fn is_wall_height(corridor_height: int, variance: int, h: int) -> bool {
    exists|fraction: int|
        0 <= fraction < UNIT && h == #[trigger] wall_height_of(corridor_height, variance, fraction)
}

/// A wall is never higher than the corridor, and never lower than the corridor's fixed
/// share; without variance it has exactly the corridor's height.
pub proof fn lemma_wall_height_bounds(corridor_height: int, variance: int, fraction: int)
    requires
        0 <= corridor_height,
        0 <= variance <= UNIT,
        0 <= fraction < UNIT,
    ensures
        corridor_height * (UNIT - variance) / (UNIT as int) <= wall_height_of(
            corridor_height,
            variance,
            fraction,
        ) <= corridor_height,
        variance == 0 ==> wall_height_of(corridor_height, variance, fraction) == corridor_height,
{
    let unit = UNIT as int;
    let weight = (unit - variance) * unit + variance * fraction;
    assert(0 <= variance * fraction <= variance * unit) by (nonlinear_arith)
        requires
            0 <= variance,
            0 <= fraction < unit,
    ;
    assert((unit - variance) * unit + variance * unit == unit * unit) by (nonlinear_arith);
    assert(corridor_height * ((unit - variance) * unit) <= corridor_height * weight
        <= corridor_height * (unit * unit)) by (nonlinear_arith)
        requires
            0 <= corridor_height,
            (unit - variance) * unit <= weight <= unit * unit,
    ;
    let square = unit * unit;
    assert(corridor_height * weight / square <= corridor_height) by (nonlinear_arith)
        requires
            corridor_height * weight <= corridor_height * square,
            square > 0,
    ;
    assert(corridor_height * (unit - variance) / unit <= corridor_height * weight / square)
        by (nonlinear_arith)
        requires
            corridor_height * ((unit - variance) * unit) <= corridor_height * weight,
            square == unit * unit,
            unit > 0,
    ;
    if variance == 0 {
        assert(corridor_height * square / square == corridor_height) by (nonlinear_arith)
            requires
                square > 0,
        ;
    }
}

/// The uniform sample that a 32-bit random word stands for: its 24 high bits, as a
/// fraction of `UNIT`.
pub fn unit_fraction(word: u32) -> (fraction: u32)
    ensures
        fraction == word / 256,
        fraction < UNIT,
{
    assert(word >> 8 == word / 256 && (word >> 8) < 0x100_0000u32) by (bit_vector);
    word >> 8
}

/// Computes the height of a wall from a uniform sample.
pub fn wall_height(corridor_height: u32, variance: u32, fraction: u32) -> (h: u32)
    requires
        variance <= UNIT,
        fraction < UNIT,
    ensures
        h == wall_height_of(corridor_height as int, variance as int, fraction as int),
{
    proof {
        lemma_wall_height_bounds(corridor_height as int, variance as int, fraction as int);
    }
    let unit: u64 = UNIT as u64;
    assert((unit - variance) * unit + variance * fraction <= unit * unit) by (nonlinear_arith)
        requires
            variance <= unit,
            fraction < unit,
    ;
    assert(variance * fraction <= unit * unit) by (nonlinear_arith)
        requires
            variance <= unit,
            fraction < unit,
    ;
    let weight: u64 = (unit - variance as u64) * unit + variance as u64 * fraction as u64;
    assert(corridor_height * weight <= 0xffff_ffff * 0x1_0000_0000_0000) by (nonlinear_arith)
        requires
            corridor_height <= 0xffff_ffff,
            weight <= 0x1_0000_0000_0000,
    ;
    let scaled: u128 = corridor_height as u128 * weight as u128;
    (scaled / 0x1_0000_0000_0000u128) as u32
}

} // verus!
