//! Fixed-point angles and trigonometry.
//!
//! An angle is measured in units of 1/65536 of a full turn, and a sine or
//! cosine value is a fixed-point fraction scaled by `FP_ONE`. The sine is
//! Bhaskara's rational approximation, evaluated exactly in integers, so every
//! value here is a deterministic function of its arguments.

use vstd::prelude::*;
use vstd::arithmetic::div_mod::{lemma_div_is_ordered, lemma_div_multiples_vanish, lemma_div_pos_is_pos, lemma_multiply_divide_lt};

verus! {

/// The fixed-point scale: a scaled quantity `q` stands for the real value
/// `q / FP_ONE`.
pub const FP_ONE: i64 = 65536;

/// A full turn (2*pi) in angle units.
pub const FULL_TURN: i64 = 65536;

/// Half a turn (pi) in angle units.
pub const HALF_TURN: i64 = 32768;

/// A quarter turn (pi/2) in angle units.
pub const QUARTER_TURN: i64 = 16384;

/// Sine of an angle in the first half-turn, scaled by `FP_ONE`:
/// Bhaskara's approximation `16 x (H - x) / (5 H^2 - 4 x (H - x))`
/// with `H == HALF_TURN`, rounded toward zero.
pub open spec fn half_sine_spec(x: int) -> int
    recommends
        0 <= x <= HALF_TURN,
{
    let p = x * (HALF_TURN - x);
    (16 * p * FP_ONE) / (5 * HALF_TURN * HALF_TURN - 4 * p)
}

/// Sine of any angle in `[0, FULL_TURN)`, scaled by `FP_ONE`: the second
/// half-turn mirrors the first with the opposite sign.
pub open spec fn sine_spec(a: int) -> int
    recommends
        0 <= a < FULL_TURN,
{
    if a <= HALF_TURN {
        half_sine_spec(a)
    } else {
        -half_sine_spec(a - HALF_TURN)
    }
}

/// Cosine of any angle in `[0, FULL_TURN)`, scaled by `FP_ONE`: the sine a
/// quarter turn ahead, wrapped around the full turn.
pub open spec fn cosine_spec(a: int) -> int
    recommends
        0 <= a < FULL_TURN,
{
    if a + QUARTER_TURN < FULL_TURN {
        sine_spec(a + QUARTER_TURN)
    } else {
        sine_spec(a + QUARTER_TURN - FULL_TURN)
    }
}

/// The angle of the fraction `i / n` of a full turn, in angle units,
/// rounded toward zero.
pub open spec fn turn_units_spec(i: int, n: int) -> int
    recommends
        0 <= i < n,
{
    (i * FULL_TURN) / n
}

/// Bhaskara's approximation never exceeds one: `4 x (H - x) <= H^2`.
proof fn lemma_half_sine_bound(x: int)
    requires
        0 <= x <= HALF_TURN,
    ensures
        0 <= x * (HALF_TURN - x) <= 16384 * 16384,
        0 <= half_sine_spec(x) <= FP_ONE,
{
    let p = x * (HALF_TURN - x);
    assert(0 <= p <= 16384 * 16384) by (nonlinear_arith)
        requires
            0 <= x <= 32768,
            p == x * (32768 - x),
    ;
    let num = 16 * p * FP_ONE;
    let den = 5 * HALF_TURN * HALF_TURN - 4 * p;
    assert(0 < den);
    assert(num <= FP_ONE * den);
    lemma_div_is_ordered(num, FP_ONE * den, den);
    lemma_div_multiples_vanish(FP_ONE as int, den);
    assert((den * FP_ONE) / den == FP_ONE);
    assert(0 <= num / den) by {
        lemma_div_is_ordered(0, num, den);
    };
}

/// Law: sine values never leave the unit interval, scaled by `FP_ONE`.
pub proof fn lemma_sine_range(a: int)
    requires
        0 <= a < FULL_TURN,
    ensures
        -FP_ONE <= sine_spec(a) <= FP_ONE,
{
    if a <= HALF_TURN {
        lemma_half_sine_bound(a);
    } else {
        lemma_half_sine_bound(a - HALF_TURN);
    }
}

/// Law: cosine values never leave the unit interval, scaled by `FP_ONE`.
pub proof fn lemma_cosine_range(a: int)
    requires
        0 <= a < FULL_TURN,
    ensures
        -FP_ONE <= cosine_spec(a) <= FP_ONE,
{
    if a + QUARTER_TURN < FULL_TURN {
        lemma_sine_range(a + QUARTER_TURN);
    } else {
        lemma_sine_range(a + QUARTER_TURN - FULL_TURN);
    }
}

/// Law: the angle of a proper fraction of a turn lies within the turn.
pub proof fn lemma_turn_units_range(i: int, n: int)
    requires
        0 <= i < n,
    ensures
        0 <= turn_units_spec(i, n) < FULL_TURN,
{
    lemma_div_pos_is_pos(i * FULL_TURN, n);
    lemma_multiply_divide_lt(i * FULL_TURN, n, FULL_TURN as int);
}

/// Sine of an angle in the first half-turn, scaled by `FP_ONE`.
pub fn half_sine(x: i64) -> (r: i64)
    requires
        0 <= x <= HALF_TURN,
    ensures
        r == half_sine_spec(x as int),
        0 <= r <= FP_ONE,
{
    proof {
        lemma_half_sine_bound(x as int);
    }
    let xu: u64 = x as u64;
    let p: u64 = xu * (32768 - xu);
    let num: u64 = 16 * p * 65536;
    let den: u64 = 5 * 32768 * 32768 - 4 * p;
    (num / den) as i64
}

/// Sine of any angle in `[0, FULL_TURN)`, scaled by `FP_ONE`.
pub fn sine(a: i64) -> (r: i64)
    requires
        0 <= a < FULL_TURN,
    ensures
        r == sine_spec(a as int),
        -FP_ONE <= r <= FP_ONE,
{
    if a <= HALF_TURN {
        half_sine(a)
    } else {
        -half_sine(a - HALF_TURN)
    }
}

/// Cosine of any angle in `[0, FULL_TURN)`, scaled by `FP_ONE`.
pub fn cosine(a: i64) -> (r: i64)
    requires
        0 <= a < FULL_TURN,
    ensures
        r == cosine_spec(a as int),
        -FP_ONE <= r <= FP_ONE,
{
    if a + QUARTER_TURN < FULL_TURN {
        sine(a + QUARTER_TURN)
    } else {
        sine(a + QUARTER_TURN - FULL_TURN)
    }
}

/// The angle of the fraction `i / n` of a full turn, in angle units.
pub fn turn_units(i: usize, n: usize) -> (r: i64)
    requires
        i < n,
        n <= 1000,
    ensures
        r == turn_units_spec(i as int, n as int),
        0 <= r < FULL_TURN,
{
    proof {
        lemma_turn_units_range(i as int, n as int);
    }
    let num: u64 = (i as u64) * 65536;
    let r: u64 = num / (n as u64);
    r as i64
}

} // verus!
