//! Positions from single-precision numbers. An axis reports its position as
//! an IEEE 754 binary32 number; the bridge works on fixed-point integers.
//! The number comes in as its 32 bits and is rounded to the nearest unit.

use vstd::prelude::*;
use vstd::arithmetic::power2::{
    lemma2_to64, lemma2_to64_rest, lemma_pow2_strictly_increases, lemma_pow2_unfold, pow2,
};
use crate::axis::{lemma_round_div_bound, lemma_round_div_nearest, round_div, AXIS_UNIT};

verus! {

/// The number of bits of the fraction field.
pub const FRACTION_BITS: u32 = 23;

/// The exponent field of the number one.
pub const EXPONENT_OF_ONE: u32 = 127;

/// The exponent field of the infinities and of what is not a number.
pub const EXPONENT_SPECIAL: u32 = 255;

/// Whether the sign bit is set.
pub open spec fn sign_bit(bits: u32) -> bool {
    bits >= 0x8000_0000
}

/// The exponent field: the eight bits below the sign.
pub open spec fn exponent_field(bits: u32) -> int {
    (bits as int / 0x80_0000) % 256
}

/// The fraction field: the lowest 23 bits.
pub open spec fn fraction_field(bits: u32) -> int {
    bits as int % 0x80_0000
}

/// Whether the bits stand for no number at all.
pub open spec fn is_nan(bits: u32) -> bool {
    exponent_field(bits) == EXPONENT_SPECIAL as int && fraction_field(bits) != 0
}

/// The magnitude of the number in units, clamped to one full deflection and
/// rounded to the nearest unit. A normal number below one is
/// `(2^23 + fraction) * 2^(exponent - 150)`, a subnormal one
/// `fraction * 2^(-149)`; one and all above it, infinity too, are a full
/// deflection; what is not a number counts as rest.
pub open spec fn magnitude_in_units(bits: u32) -> int {
    let exponent = exponent_field(bits);
    let fraction = fraction_field(bits);
    if exponent == EXPONENT_SPECIAL as int {
        if fraction == 0 {
            AXIS_UNIT as int
        } else {
            0
        }
    } else if exponent >= EXPONENT_OF_ONE as int {
        AXIS_UNIT as int
    } else if exponent == 0 {
        round_div(fraction * AXIS_UNIT as int, pow2(149) as int)
    } else {
        round_div((0x80_0000 + fraction) * AXIS_UNIT as int, pow2((150 - exponent) as nat) as int)
    }
}

/// The position that the bits of a number stand for.
pub open spec fn position_of_bits(bits: u32) -> int {
    if sign_bit(bits) {
        -magnitude_in_units(bits)
    } else {
        magnitude_in_units(bits)
    }
}

/// Two to the power of a small exponent.
fn power_of_two(exponent: u32) -> (power: u64)
    requires
        exponent <= 46,
    ensures
        power as nat == pow2(exponent as nat),
        1 <= power <= 0x4000_0000_0000,
{
    let mut power: u64 = 1;
    let mut done: u32 = 0;
    proof {
        lemma2_to64();
        lemma2_to64_rest();
    }
    while done < exponent
        invariant
            done <= exponent <= 46,
            power as nat == pow2(done as nat),
            pow2(46) == 0x4000_0000_0000,
        decreases exponent - done,
    {
        proof {
            lemma_pow2_unfold((done + 1) as nat);
            if done + 1 < 46 {
                lemma_pow2_strictly_increases((done + 1) as nat, 46);
            }
        }
        power = power * 2;
        done = done + 1;
    }
    proof {
        if exponent < 46 {
            lemma_pow2_strictly_increases(exponent as nat, 46);
        }
        lemma_pow2_strictly_increases(0, (exponent + 1) as nat);
        lemma_pow2_unfold((exponent + 1) as nat);
    }
    power
}

/// A numerator below half of the divisor rounds to zero.
pub proof fn lemma_round_div_small(n: int, d: int)
    requires
        0 <= n,
        2 * n < d,
    ensures
        round_div(n, d) == 0,
{
    lemma_round_div_nearest(n, d);
    let q = round_div(n, d);
    assert(q <= 0) by (nonlinear_arith)
        requires
            (2 * q - 1) * d <= 2 * n,
            2 * n < d,
            d > 0,
    ;
}

/// Reads a position from the bits of a single-precision number.
pub fn position_from_f32_bits(bits: u32) -> (position: i32)
    ensures
        position as int == position_of_bits(bits),
        -AXIS_UNIT <= position <= AXIS_UNIT,
        is_nan(bits) ==> position == 0,
{
    let negative: bool = bits >= 0x8000_0000;
    let exponent: u32 = (bits / 0x80_0000) % 256;
    let fraction: u32 = bits % 0x80_0000;
    let size: i32 = if exponent == EXPONENT_SPECIAL {
        if fraction == 0 {
            AXIS_UNIT
        } else {
            0
        }
    } else if exponent >= EXPONENT_OF_ONE {
        AXIS_UNIT
    } else if exponent < 104 {
        proof {
            let shift: nat = if exponent == 0 {
                149
            } else {
                (150 - exponent) as nat
            };
            let n: int = if exponent == 0 {
                fraction as int * AXIS_UNIT as int
            } else {
                (0x80_0000 + fraction as int) * AXIS_UNIT as int
            };
            lemma2_to64_rest();
            if shift > 47 {
                lemma_pow2_strictly_increases(47, shift);
            }
            assert(0 <= n < 0x100_0000 * 1_000_000);
            lemma_round_div_small(n, pow2(shift) as int);
        }
        0
    } else {
        let shift: u32 = 150 - exponent;
        let divisor: u64 = power_of_two(shift);
        let scaled: u64 = (0x80_0000 + fraction as u64) * 1_000_000;
        proof {
            lemma2_to64();
            if shift > 24 {
                lemma_pow2_strictly_increases(24, shift as nat);
            }
            assert(scaled <= 1_000_000 * divisor) by (nonlinear_arith)
                requires
                    scaled < 0x100_0000 * 1_000_000,
                    divisor >= 0x100_0000,
            ;
            lemma_round_div_bound(scaled as int, divisor as int, 1_000_000);
            lemma_round_div_nearest(scaled as int, divisor as int);
        }
        ((2 * scaled + divisor) / (2 * divisor)) as i32
    };
    if negative {
        -size
    } else {
        size
    }
}

/// The dead-zone threshold that the bits of a number stand for: the
/// position they stand for, but where they stand for no number the whole
/// travel, so that no position leaves the dead zone.
pub open spec fn threshold_of_bits(bits: u32) -> int {
    if is_nan(bits) {
        AXIS_UNIT as int
    } else {
        position_of_bits(bits)
    }
}

/// Reads a dead-zone threshold from the bits of a single-precision number.
pub fn threshold_from_f32_bits(bits: u32) -> (threshold: i32)
    ensures
        threshold as int == threshold_of_bits(bits),
        -AXIS_UNIT <= threshold <= AXIS_UNIT,
{
    let exponent: u32 = (bits / 0x80_0000) % 256;
    let fraction: u32 = bits % 0x80_0000;
    if exponent == EXPONENT_SPECIAL && fraction != 0 {
        AXIS_UNIT
    } else {
        position_from_f32_bits(bits)
    }
}

/// Under a threshold read from what is no number every position commands
/// the speed zero.
pub proof fn lemma_nan_threshold_stops(bits: u32, position: int, max_speed: int)
    requires
        is_nan(bits),
    ensures
        crate::axis::axis_speed(position, max_speed, threshold_of_bits(bits)) == 0,
{
}

/// The sign bit mirrors the position: the same bits with the other sign
/// stand for the opposite position.
pub proof fn lemma_sign_mirrors(bits: u32)
    requires
        !sign_bit(bits),
    ensures
        position_of_bits((bits + 0x8000_0000) as u32) == -position_of_bits(bits),
        position_of_bits(bits) >= 0,
{
    let mirrored = (bits + 0x8000_0000) as u32;
    assert(exponent_field(mirrored) == exponent_field(bits));
    assert(fraction_field(mirrored) == fraction_field(bits));
    let exponent = exponent_field(bits);
    let fraction = fraction_field(bits);
    lemma2_to64();
    vstd::arithmetic::power2::lemma_pow2_pos(149);
    if 0 < exponent < 127 {
        vstd::arithmetic::power2::lemma_pow2_pos((150 - exponent) as nat);
        lemma_round_div_nearest(
            (0x80_0000 + fraction) * AXIS_UNIT as int,
            pow2((150 - exponent) as nat) as int,
        );
    } else if exponent == 0 {
        lemma_round_div_nearest(fraction * AXIS_UNIT as int, pow2(149) as int);
    }
}

} // verus!
