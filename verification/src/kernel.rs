//! The quartic (biweight) kernel, quantized to fixed-point integers.
//!
//! For a distance `d` and a bandwidth `radius`, the real-valued kernel is
//! `w(d) = (15/16) * (1 - (d/radius)^2)^2` for `d <= radius` and `0` beyond.
//! This module computes the weight as an integer numerator over the constant
//! denominator `16 * WEIGHT_SCALE * WEIGHT_SCALE`, quantizing the ratio
//! `d^2 / radius^2` by flooring it at `WEIGHT_SCALE` steps. The boundary
//! values are exact: the weight is exactly `15/16` at distance zero and
//! exactly `0` at distance `radius`.

use vstd::prelude::*;
use vstd::arithmetic::div_mod::{lemma_div_is_ordered, lemma_div_pos_is_pos};
use vstd::arithmetic::div_mod::lemma_div_multiples_vanish;
use vstd::arithmetic::mul::lemma_mul_inequality;

use crate::COORD_LIMIT;

verus! {

/// Fixed-point scale of kernel weights: a weight numerator `w` stands for the
/// real number `w / (16 * WEIGHT_SCALE * WEIGHT_SCALE)`.
pub const WEIGHT_SCALE: i64 = 100_000_000;

/// Largest squared distance the kernel accepts (`DIST_LIMIT` squared leaves
/// ample headroom below this).
pub const DSQ_LIMIT: i128 = 1_000_000_000_000_000_000_000_000_000;

/// The quartic kernel weight for squared distance `d_sq` and bandwidth `r`,
/// as a numerator over the denominator `16 * WEIGHT_SCALE * WEIGHT_SCALE`.
///
/// The ratio `d_sq / r^2` is quantized by flooring at `1 / WEIGHT_SCALE`
/// steps; a squared distance beyond `r^2` weighs nothing.
pub open spec fn kernel_weight_num(d_sq: int, r: int) -> int {
    let ws = WEIGHT_SCALE as int;
    if 0 <= d_sq <= r * r {
        let q = (d_sq * ws) / (r * r);
        15 * (ws - q) * (ws - q)
    } else {
        0
    }
}

/// The largest value `kernel_weight_num` can take: the weight of a point at
/// distance zero.
pub open spec fn max_weight_num() -> int {
    15 * (WEIGHT_SCALE as int) * (WEIGHT_SCALE as int)
}

/// Computes the quartic kernel weight numerator for a squared distance.
pub fn kernel_weight(d_sq: i128, radius: i64) -> (w: i128)
    requires
        0 <= d_sq <= DSQ_LIMIT,
        0 < radius <= COORD_LIMIT,
    ensures
        w == kernel_weight_num(d_sq as int, radius as int),
        0 <= w <= max_weight_num(),
{
    proof {
        assert(0 < (radius as int) * (radius as int) <= 1_000_000_000_000_000_000_000_000)
            by (nonlinear_arith)
            requires
                0 < radius <= 1_000_000_000_000,
        ;
    }
    let r_sq: i128 = (radius as i128) * (radius as i128);
    if d_sq <= r_sq {
        proof {
            assert((d_sq as int) * (WEIGHT_SCALE as int) <= DSQ_LIMIT as int * (
            WEIGHT_SCALE as int)) by (nonlinear_arith)
                requires
                    0 <= d_sq <= DSQ_LIMIT as int,
            ;
        }
        let q: i128 = (d_sq * (WEIGHT_SCALE as i128)) / r_sq;
        proof {
            let ws = WEIGHT_SCALE as int;
            lemma_div_pos_is_pos(d_sq as int * ws, r_sq as int);
            lemma_mul_inequality(d_sq as int, r_sq as int, ws);
            lemma_div_is_ordered(d_sq as int * ws, r_sq as int * ws, r_sq as int);
            lemma_div_multiples_vanish(ws, r_sq as int);
            assert(r_sq as int * ws == ws * r_sq as int) by (nonlinear_arith);
            assert(0 <= q <= ws);
        }
        let t: i128 = (WEIGHT_SCALE as i128) - q;
        proof {
            assert(0 <= 15 * (t as int) * (t as int) <= 15 * (WEIGHT_SCALE as int) * (
            WEIGHT_SCALE as int)) by (nonlinear_arith)
                requires
                    0 <= t <= WEIGHT_SCALE as int,
            ;
        }
        15 * t * t
    } else {
        0
    }
}

/// The kernel weight is never negative and never exceeds the weight at
/// distance zero.
pub proof fn lemma_kernel_weight_bounds(d_sq: int, r: int)
    requires
        0 < r,
    ensures
        0 <= kernel_weight_num(d_sq, r) <= max_weight_num(),
{
    let ws = WEIGHT_SCALE as int;
    assert(0 < r * r) by (nonlinear_arith)
        requires
            0 < r,
    ;
    if 0 <= d_sq <= r * r {
        let q = (d_sq * ws) / (r * r);
        lemma_div_pos_is_pos(d_sq * ws, r * r);
        lemma_mul_inequality(d_sq, r * r, ws);
        lemma_div_is_ordered(d_sq * ws, r * r * ws, r * r);
        lemma_div_multiples_vanish(ws, r * r);
        assert(r * r * ws == ws * (r * r)) by (nonlinear_arith);
        assert(0 <= q <= ws);
        assert(0 <= 15 * (ws - q) * (ws - q) <= 15 * ws * ws) by (nonlinear_arith)
            requires
                0 <= q <= ws,
        ;
    }
}

/// At the kernel's boundary the weight vanishes exactly, and at distance zero
/// it is exactly `15/16` of the denominator: `weight(r^2) == 0` and
/// `weight(0) == 15 * WEIGHT_SCALE * WEIGHT_SCALE`.
pub proof fn lemma_kernel_boundary(r: int)
    requires
        0 < r,
    ensures
        kernel_weight_num(r * r, r) == 0,
        kernel_weight_num(0, r) == max_weight_num(),
{
    let ws = WEIGHT_SCALE as int;
    assert(0 < r * r) by (nonlinear_arith)
        requires
            0 < r,
    ;
    lemma_div_multiples_vanish(ws, r * r);
    assert(r * r * ws == ws * (r * r)) by (nonlinear_arith);
    assert((r * r * ws) / (r * r) == ws);
    lemma_div_pos_is_pos(0, r * r);
    assert((0int * ws) / (r * r) == 0) by {
        assert(0int * ws == 0) by (nonlinear_arith);
        lemma_div_multiples_vanish(0, r * r);
        assert(r * r * 0 == 0) by (nonlinear_arith);
    }
}

/// The kernel weight is non-increasing in the squared distance: a point
/// farther from the cell center never weighs more.
pub proof fn lemma_kernel_monotonic(d_sq1: int, d_sq2: int, r: int)
    requires
        0 <= d_sq1 <= d_sq2,
        0 < r,
    ensures
        kernel_weight_num(d_sq2, r) <= kernel_weight_num(d_sq1, r),
{
    let ws = WEIGHT_SCALE as int;
    assert(0 < r * r) by (nonlinear_arith)
        requires
            0 < r,
    ;
    lemma_kernel_weight_bounds(d_sq1, r);
    lemma_kernel_weight_bounds(d_sq2, r);
    if d_sq2 <= r * r {
        let q1 = (d_sq1 * ws) / (r * r);
        let q2 = (d_sq2 * ws) / (r * r);
        lemma_mul_inequality(d_sq1, d_sq2, ws);
        lemma_div_is_ordered(d_sq1 * ws, d_sq2 * ws, r * r);
        lemma_div_pos_is_pos(d_sq1 * ws, r * r);
        lemma_mul_inequality(d_sq2, r * r, ws);
        lemma_div_is_ordered(d_sq2 * ws, r * r * ws, r * r);
        lemma_div_multiples_vanish(ws, r * r);
        assert(r * r * ws == ws * (r * r)) by (nonlinear_arith);
        assert(0 <= q1 <= q2 <= ws);
        assert(15 * (ws - q2) * (ws - q2) <= 15 * (ws - q1) * (ws - q1)) by (nonlinear_arith)
            requires
                0 <= q1 <= q2 <= ws,
        ;
    }
}

/// The monotonicity of the kernel restated over plain distances: as the
/// distance grows from `0` to `r`, the weight never increases.
pub proof fn lemma_kernel_monotonic_in_distance(d1: int, d2: int, r: int)
    requires
        0 <= d1 <= d2,
        0 < r,
    ensures
        kernel_weight_num(d2 * d2, r) <= kernel_weight_num(d1 * d1, r),
{
    assert(0 <= d1 * d1 <= d2 * d2) by (nonlinear_arith)
        requires
            0 <= d1 <= d2,
    ;
    lemma_kernel_monotonic(d1 * d1, d2 * d2, r);
}

} // verus!
