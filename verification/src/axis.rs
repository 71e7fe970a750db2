//! Interpretation of single axis positions: pan and tilt speeds with a dead
//! zone, and absolute zoom positions.

use vstd::prelude::*;

verus! {

/// One full deflection of an axis, in the fixed-point units of a position.
pub const AXIS_UNIT: i32 = 1_000_000;

/// Beyond this deflection (0.99 of the full one) the zoom saturates.
pub const ZOOM_SATURATION: i32 = 990_000;

/// The zoom position of full telephoto.
pub const MAX_ZOOM_LEVEL: u16 = 16500;

/// The largest magnitude that a signed speed can take.
pub const SPEED_CEILING: i64 = 127;

/// A position limited to one full deflection on either side.
pub open spec fn clamp_position(position: int) -> int {
    if position < -(AXIS_UNIT as int) {
        -(AXIS_UNIT as int)
    } else if position > AXIS_UNIT as int {
        AXIS_UNIT as int
    } else {
        position
    }
}

/// The absolute value of an integer.
pub open spec fn magnitude(value: int) -> int {
    if value < 0 {
        -value
    } else {
        value
    }
}

/// How far the stick stands from its centre, after clamping.
pub open spec fn travel(position: int) -> int {
    magnitude(clamp_position(position))
}

/// The quotient `n / d` rounded to the nearest integer, a half rounding up
/// (for `n >= 0` and `d > 0`).
pub open spec fn round_div(n: int, d: int) -> int {
    (2 * n + d) / (2 * d)
}

/// The magnitude of the speed that a position commands: zero inside the dead
/// zone, and beyond it the rest of the travel rescaled linearly to
/// `0..=max_speed` and rounded. A threshold of a full deflection or more
/// leaves no travel to rescale, and the magnitude is zero.
pub open spec fn speed_magnitude(position: int, max_speed: int, threshold: int) -> int {
    let t = travel(position);
    if t < threshold || threshold >= AXIS_UNIT as int {
        0
    } else {
        let rounded = round_div(max_speed * (t - threshold), AXIS_UNIT as int - threshold);
        if rounded > SPEED_CEILING as int {
            SPEED_CEILING as int
        } else {
            rounded
        }
    }
}

/// The signed speed that a position commands: its magnitude with the sign of
/// the position.
pub open spec fn axis_speed(position: int, max_speed: int, threshold: int) -> int {
    if position < 0 {
        -speed_magnitude(position, max_speed, threshold)
    } else {
        speed_magnitude(position, max_speed, threshold)
    }
}

/// The absolute zoom position that a position commands: saturated at both
/// ends, linear in between, rounded down.
pub open spec fn zoom_level(position: int) -> int {
    if position > ZOOM_SATURATION as int {
        MAX_ZOOM_LEVEL as int
    } else if position < -(ZOOM_SATURATION as int) {
        0
    } else {
        (MAX_ZOOM_LEVEL as int * (position + AXIS_UNIT as int)) / (2 * AXIS_UNIT as int)
    }
}

/// `round_div(n, d)` is the integer nearest to `n / d`: it lies within a half
/// of the exact quotient, and a tie goes to the larger neighbour.
pub proof fn lemma_round_div_nearest(n: int, d: int)
    requires
        n >= 0,
        d > 0,
    ensures
        round_div(n, d) >= 0,
        (2 * round_div(n, d) - 1) * d <= 2 * n < (2 * round_div(n, d) + 1) * d,
{
    let q = round_div(n, d);
    let num = 2 * n + d;
    let den = 2 * d;
    vstd::arithmetic::div_mod::lemma_fundamental_div_mod(num, den);
    vstd::arithmetic::div_mod::lemma_mod_bound(num, den);
    vstd::arithmetic::div_mod::lemma_div_pos_is_pos(num, den);
    assert(num == den * q + num % den);
    assert(den * q == 2 * q * d) by (nonlinear_arith)
        requires
            den == 2 * d,
    ;
    assert((2 * q - 1) * d == 2 * q * d - d) by (nonlinear_arith);
    assert((2 * q + 1) * d == 2 * q * d + d) by (nonlinear_arith);
}

/// The rounded quotient does not exceed `k` when `n <= k * d`.
pub proof fn lemma_round_div_bound(n: int, d: int, k: int)
    requires
        n >= 0,
        d > 0,
        k >= 0,
        n <= k * d,
    ensures
        round_div(n, d) <= k,
{
    lemma_round_div_nearest(n, d);
    let q = round_div(n, d);
    assert(q <= k) by (nonlinear_arith)
        requires
            (2 * q - 1) * d <= 2 * n,
            n <= k * d,
            d > 0,
    ;
}

/// Interprets a position as a signed speed for pan or tilt.
pub fn interpret_axis_speed(axis_position: i32, axis_max: u8, move_threshold: i32) -> (speed: i8)
    ensures
        speed as int == axis_speed(axis_position as int, axis_max as int, move_threshold as int),
        -(axis_max as int) <= speed as int <= axis_max as int,
        speed > 0 ==> axis_position >= 0,
        speed > 0 && move_threshold >= 0 ==> axis_position > 0,
        speed < 0 ==> axis_position < 0,
        travel(axis_position as int) < move_threshold as int ==> speed == 0,
{
    let clamped: i32 = if axis_position < -AXIS_UNIT {
        -AXIS_UNIT
    } else if axis_position > AXIS_UNIT {
        AXIS_UNIT
    } else {
        axis_position
    };
    let distance: i64 = if clamped < 0 {
        -(clamped as i64)
    } else {
        clamped as i64
    };
    let threshold: i64 = move_threshold as i64;
    if distance < threshold || threshold >= AXIS_UNIT as i64 {
        return 0;
    }
    let span: i64 = AXIS_UNIT as i64 - threshold;
    let excess: i64 = distance - threshold;
    let top: i64 = axis_max as i64;
    proof {
        assert(0 <= top * excess <= top * span) by (nonlinear_arith)
            requires
                0 <= excess <= span,
                0 <= top,
        ;
        assert(top * span <= 255 * 0x1_0000_0000) by (nonlinear_arith)
            requires
                0 <= top <= 255,
                0 < span <= 0x1_0000_0000,
        ;
        lemma_round_div_bound(top * excess, span as int, top as int);
        lemma_round_div_nearest(top * excess, span as int);
        if excess == 0 {
            let q = round_div(top * excess, span as int);
            assert(top * excess == 0) by (nonlinear_arith)
                requires
                    excess == 0,
            ;
            assert(q <= 0) by (nonlinear_arith)
                requires
                    (2 * q - 1) * span <= 0,
                    span > 0,
            ;
        }
    }
    let scaled: i64 = top * excess;
    let rounded: i64 = (2 * scaled + span) / (2 * span);
    let capped: i8 = if rounded > SPEED_CEILING {
        127i8
    } else {
        rounded as i8
    };
    if axis_position < 0 {
        -capped
    } else {
        capped
    }
}

/// Interprets a position as an absolute zoom position.
pub fn interpret_zoom_level(axis_position: i32) -> (zoom: u16)
    ensures
        zoom as int == zoom_level(axis_position as int),
        zoom <= MAX_ZOOM_LEVEL,
{
    if axis_position > ZOOM_SATURATION {
        return MAX_ZOOM_LEVEL;
    }
    if axis_position < -ZOOM_SATURATION {
        return 0;
    }
    let shifted: i64 = axis_position as i64 + AXIS_UNIT as i64;
    assert(0 <= shifted <= 2_000_000);
    assert(MAX_ZOOM_LEVEL as i64 * shifted == 16500 * shifted);
    let scaled: i64 = MAX_ZOOM_LEVEL as i64 * shifted;
    let level: i64 = scaled / (2 * AXIS_UNIT as i64);
    assert(0 <= level <= MAX_ZOOM_LEVEL);
    level as u16
}

/// Where the speed is zero: inside the dead zone, and beyond it exactly
/// where the rescaled travel is less than a half and so rounds to zero.
pub proof fn lemma_zero_speed(position: int, max_speed: int, threshold: int)
    requires
        0 <= max_speed,
        threshold < AXIS_UNIT,
    ensures
        travel(position) < threshold ==> axis_speed(position, max_speed, threshold) == 0,
        axis_speed(position, max_speed, threshold) == 0 <==> (travel(position) < threshold || 2
            * (max_speed * (travel(position) - threshold)) < AXIS_UNIT - threshold),
{
    let t = travel(position);
    if t >= threshold {
        let n = max_speed * (t - threshold);
        let d = AXIS_UNIT as int - threshold;
        assert(n >= 0) by (nonlinear_arith)
            requires
                n == max_speed * (t - threshold),
                max_speed >= 0,
                t >= threshold,
        ;
        lemma_round_div_nearest(n, d);
        let q = round_div(n, d);
        assert(q == 0 ==> 2 * n < d) by (nonlinear_arith)
            requires
                2 * n < (2 * q + 1) * d,
        ;
        assert(2 * n < d ==> q <= 0) by (nonlinear_arith)
            requires
                (2 * q - 1) * d <= 2 * n,
                d > 0,
        ;
    }
}

/// For a position within one full deflection, a threshold in `[0, 1)` of it
/// and a rescaled travel that does not round to zero beyond the dead zone:
/// the speed is zero exactly inside the dead zone.
pub proof fn lemma_zero_speed_iff_dead_zone(position: int, max_speed: int, threshold: int)
    requires
        -AXIS_UNIT <= position <= AXIS_UNIT,
        0 <= threshold < AXIS_UNIT,
        0 <= max_speed,
        travel(position) >= threshold ==> 2 * (max_speed * (travel(position) - threshold))
            >= AXIS_UNIT - threshold,
    ensures
        axis_speed(position, max_speed, threshold) == 0 <==> travel(position) < threshold,
{
    lemma_zero_speed(position, max_speed, threshold);
}

/// A speed never exceeds the maximum in magnitude, and where it is not zero
/// it has the sign of the position (a position at rest counts as positive,
/// which shows only under a negative threshold).
pub proof fn lemma_speed_sign_and_bound(position: int, max_speed: int, threshold: int)
    requires
        0 <= max_speed,
    ensures
        -max_speed <= axis_speed(position, max_speed, threshold) <= max_speed,
        axis_speed(position, max_speed, threshold) > 0 ==> position >= 0,
        axis_speed(position, max_speed, threshold) < 0 ==> position < 0,
        threshold >= 0 && axis_speed(position, max_speed, threshold) > 0 ==> position > 0,
{
    let t = travel(position);
    if t >= threshold && threshold < AXIS_UNIT {
        let excess = t - threshold;
        let d = AXIS_UNIT as int - threshold;
        let n = max_speed * excess;
        assert(0 <= n <= max_speed * d) by (nonlinear_arith)
            requires
                n == max_speed * excess,
                0 <= excess <= d,
                0 <= max_speed,
        ;
        lemma_round_div_bound(n, d, max_speed);
        lemma_round_div_nearest(n, d);
        if excess == 0 {
            let q = round_div(n, d);
            assert(n == 0) by (nonlinear_arith)
                requires
                    n == max_speed * excess,
                    excess == 0,
            ;
            assert(q <= 0) by (nonlinear_arith)
                requires
                    (2 * q - 1) * d <= 0,
                    d > 0,
            ;
        }
    }
}

/// The zoom position never decreases as the position grows.
pub proof fn lemma_zoom_monotonic(lower: int, upper: int)
    requires
        lower <= upper,
    ensures
        0 <= zoom_level(lower) <= zoom_level(upper) <= MAX_ZOOM_LEVEL,
{
    lemma_zoom_in_range(lower);
    lemma_zoom_in_range(upper);
    if -(ZOOM_SATURATION as int) <= lower && upper <= ZOOM_SATURATION as int {
        let a = 16500 * (lower + 1_000_000);
        let b = 16500 * (upper + 1_000_000);
        vstd::arithmetic::div_mod::lemma_div_is_ordered(a, b, 2_000_000);
    }
}

/// Every zoom position lies within the camera's range.
pub proof fn lemma_zoom_in_range(position: int)
    ensures
        0 <= zoom_level(position) <= MAX_ZOOM_LEVEL,
{
}

} // verus!
