//! Scale-factor computation for an active drag.
//!
//! Scale and DPI factors are fixed-point integers counted in millionths, so
//! `SCALE_ONE` stands for a factor of one. While a drag is active the handle
//! recomputes, on every pointer move, the candidate scale
//! `start_scale * max(cur_x / start_x, cur_y / start_y)` and clamps it to the
//! configured range. The ratios are taken over physical pixels: both the
//! current and the start position are multiplied by the DPI factor captured
//! when the drag started, which keeps the gesture consistent when the live
//! DPI factor changes mid-drag and, as proved here, makes the physical-pixel
//! ratio agree exactly with the logical one.

use vstd::arithmetic::div_mod::{lemma_div_denominator, lemma_div_is_ordered, lemma_div_multiples_vanish};
use vstd::arithmetic::mul::{lemma_mul_is_associative, lemma_mul_is_commutative, lemma_mul_nonnegative, lemma_mul_strict_inequality};
use vstd::prelude::*;

use crate::geometry::COORD_LIMIT;
use crate::geometry::coord_in_range;

verus! {

/// A scale factor of one, in millionths.
pub const SCALE_ONE: u64 = 1_000_000;

/// Largest scale factor value the arithmetic accepts (a factor of 64).
pub const SCALE_LIMIT: u64 = 64_000_000;

/// Largest DPI factor value the arithmetic accepts (a factor of 16).
pub const DPI_LIMIT: u64 = 16_000_000;

/// The default lower clamp bound: half scale. Below it the toolkit rounds
/// one-pixel borders away, so smaller factors are never requested.
pub const DEFAULT_MIN_SCALE: u64 = 500_000;

/// Whether a value is a representable positive scale factor.
pub open spec fn scale_in_range(s: int) -> bool {
    1 <= s <= SCALE_LIMIT
}

/// Whether a value is a representable positive DPI factor.
pub open spec fn dpi_in_range(d: int) -> bool {
    1 <= d <= DPI_LIMIT
}

/// Whether the horizontal ratio `cx / sx` is at least the vertical ratio
/// `cy / sy`, stated by cross-multiplication; meaningful when `sx` and `sy`
/// are positive.
pub open spec fn x_ratio_dominates(cx: int, cy: int, sx: int, sy: int) -> bool {
    cx * sy >= cy * sx
}

/// Numerator of the dominant-axis ratio: the current coordinate of the axis
/// whose ratio of current to start position is the larger.
pub open spec fn dominant_num(cx: int, cy: int, sx: int, sy: int) -> int {
    if x_ratio_dominates(cx, cy, sx, sy) {
        cx
    } else {
        cy
    }
}

/// Denominator of the dominant-axis ratio: the start coordinate of the same
/// axis.
pub open spec fn dominant_den(cx: int, cy: int, sx: int, sy: int) -> int {
    if x_ratio_dominates(cx, cy, sx, sy) {
        sx
    } else {
        sy
    }
}

/// The unclamped candidate scale: the start scale multiplied by the dominant
/// ratio, rounded down to a whole number of millionths.
pub open spec fn scale_candidate(start_scale: int, num: int, den: int) -> int
    recommends
        den > 0,
{
    (start_scale * num) / den
}

/// Clamps a candidate scale to the configured range: values above the upper
/// bound (where one is configured) are reported as exactly that bound, and
/// values below the lower bound as exactly the lower bound.
pub open spec fn clamp_scale(v: int, min_scale: int, max_scale: Option<u64>) -> int {
    let capped: int = match max_scale {
        Option::Some(m) => if v > m { m as int } else { v },
        Option::None => v,
    };
    if capped < min_scale {
        min_scale
    } else {
        capped
    }
}

/// The scale factor requested for a pointer move to `(cx, cy)` during a drag
/// that started at `(sx, sy)` with scale `start_scale`: the clamped product of
/// the start scale with the dominant-axis ratio of current to start position.
pub open spec fn requested_scale(
    start_scale: int,
    min_scale: int,
    max_scale: Option<u64>,
    sx: int,
    sy: int,
    cx: int,
    cy: int,
) -> int
    recommends
        sx > 0,
        sy > 0,
{
    clamp_scale(
        scale_candidate(
            start_scale,
            dominant_num(cx, cy, sx, sy),
            dominant_den(cx, cy, sx, sy),
        ),
        min_scale,
        max_scale,
    )
}

/// Uniform scaling: when the current position relates to the start position
/// by the same ratio on both axes, the dominant ratio is exactly that common
/// ratio, stated by cross-multiplication against either axis.
pub proof fn lemma_uniform_scaling(cx: int, cy: int, sx: int, sy: int)
    requires
        sx > 0,
        sy > 0,
        cx * sy == cy * sx,
    ensures
        dominant_num(cx, cy, sx, sy) * sx == cx * dominant_den(cx, cy, sx, sy),
        dominant_num(cx, cy, sx, sy) * sy == cy * dominant_den(cx, cy, sx, sy),
{
    lemma_mul_is_commutative(cx, sx);
    lemma_mul_is_commutative(cy, sy);
    lemma_mul_is_commutative(cy, sx);
    lemma_mul_is_commutative(cx, sy);
}

/// Uniform scaling at the candidate level: when the current position is the
/// start position times an exact whole factor `k` on both axes, the
/// unclamped candidate is exactly `start_scale * k` — no averaging and no
/// rounding loss.
pub proof fn lemma_uniform_scaling_candidate(start_scale: int, k: int, sx: int, sy: int)
    requires
        sx > 0,
        sy > 0,
    ensures
        scale_candidate(
            start_scale,
            dominant_num(k * sx, k * sy, sx, sy),
            dominant_den(k * sx, k * sy, sx, sy),
        ) == start_scale * k,
{
    assert((k * sx) * sy == (k * sy) * sx) by (nonlinear_arith);
    assert(dominant_num(k * sx, k * sy, sx, sy) == k * sx);
    assert(dominant_den(k * sx, k * sy, sx, sy) == sx);
    lemma_mul_is_associative(start_scale, k, sx);
    assert(start_scale * (k * sx) == (start_scale * k) * sx);
    lemma_mul_is_commutative(start_scale * k, sx);
    lemma_div_multiples_vanish(start_scale * k, sx);
}

/// Dominant-axis selection: whichever axis has the strictly larger ratio of
/// current to start position is the one whose ratio becomes the relative
/// scale.
pub proof fn lemma_dominant_axis(cx: int, cy: int, sx: int, sy: int)
    requires
        sx > 0,
        sy > 0,
        cx * sy != cy * sx,
    ensures
        cx * sy > cy * sx ==> dominant_num(cx, cy, sx, sy) == cx && dominant_den(
            cx,
            cy,
            sx,
            sy,
        ) == sx,
        cx * sy < cy * sx ==> dominant_num(cx, cy, sx, sy) == cy && dominant_den(
            cx,
            cy,
            sx,
            sy,
        ) == sy,
{
}

/// The dominant ratio is no smaller than either axis ratio, stated by
/// cross-multiplication.
pub proof fn lemma_dominant_ratio_is_max(cx: int, cy: int, sx: int, sy: int)
    requires
        sx > 0,
        sy > 0,
    ensures
        dominant_num(cx, cy, sx, sy) * sx >= cx * dominant_den(cx, cy, sx, sy),
        dominant_num(cx, cy, sx, sy) * sy >= cy * dominant_den(cx, cy, sx, sy),
{
    lemma_mul_is_commutative(cx, sx);
    lemma_mul_is_commutative(cy, sy);
    lemma_mul_is_commutative(cy, sx);
    lemma_mul_is_commutative(cx, sy);
}

/// Clamp boundaries: a candidate below the lower bound is reported as exactly
/// the lower bound, one above the upper bound (where one is configured) as
/// exactly the upper bound, and one inside the range unchanged.
pub proof fn lemma_clamp_boundaries(v: int, min_scale: int, max_scale: Option<u64>)
    requires
        match max_scale {
            Option::Some(m) => min_scale <= m,
            Option::None => true,
        },
    ensures
        v < min_scale ==> clamp_scale(v, min_scale, max_scale) == min_scale,
        max_scale matches Option::Some(m) ==> (v > m ==> clamp_scale(v, min_scale, max_scale)
            == m),
        min_scale <= v && (max_scale matches Option::Some(m) ==> v <= m) ==> clamp_scale(
            v,
            min_scale,
            max_scale,
        ) == v,
{
}

/// Freezing the DPI factor: multiplying both the current and the start
/// coordinate by the same positive DPI factor leaves the rounded candidate
/// scale unchanged, so the physical-pixel computation agrees exactly with the
/// logical one.
pub proof fn lemma_dpi_factor_cancels(start_scale: int, d: int, cx: int, sx: int)
    requires
        d > 0,
        sx > 0,
        start_scale >= 0,
        cx >= 0,
    ensures
        (start_scale * (cx * d)) / (sx * d) == (start_scale * cx) / sx,
{
    let a: int = start_scale * cx;
    lemma_mul_is_associative(start_scale, cx, d);
    assert(start_scale * (cx * d) == a * d);
    lemma_mul_nonnegative(start_scale, cx);
    lemma_mul_nonnegative(a, d);
    lemma_div_denominator(a * d, d, sx);
    assert(((a * d) / d) / sx == (a * d) / (d * sx));
    lemma_mul_is_commutative(a, d);
    lemma_div_multiples_vanish(a, d);
    assert((a * d) / d == a);
    lemma_mul_is_commutative(sx, d);
}

/// Compute the scale factor to request for a pointer move during a drag.
///
/// `start_scale` is the scale factor captured when the drag started, `dpi`
/// the DPI factor captured at the same moment, `(start_x, start_y)` the
/// logical cursor position at the drag start and `(cur_x, cur_y)` the current
/// logical cursor position. Both positions are converted to physical pixels
/// with the captured DPI factor; the result is the start scale multiplied by
/// the larger of the two axis ratios of current to start position, rounded
/// down to millionths and clamped to `[min_scale, max_scale]` (with no upper
/// clamp when `max_scale` is `None`).
pub fn compute_scale_request(
    start_scale: u64,
    min_scale: u64,
    max_scale: Option<u64>,
    dpi: u64,
    start_x: i64,
    start_y: i64,
    cur_x: i64,
    cur_y: i64,
) -> (r: u64)
    requires
        scale_in_range(start_scale as int),
        scale_in_range(min_scale as int),
        match max_scale {
            Option::Some(m) => scale_in_range(m as int) && min_scale <= m,
            Option::None => true,
        },
        dpi_in_range(dpi as int),
        0 < start_x <= COORD_LIMIT,
        0 < start_y <= COORD_LIMIT,
        coord_in_range(cur_x as int),
        coord_in_range(cur_y as int),
    ensures
        r == requested_scale(
            start_scale as int,
            min_scale as int,
            max_scale,
            start_x as int,
            start_y as int,
            cur_x as int,
            cur_y as int,
        ),
        min_scale <= r,
        match max_scale {
            Option::Some(m) => r <= m,
            Option::None => true,
        },
{
    let ghost gnum: int = dominant_num(cur_x as int, cur_y as int, start_x as int, start_y as int);
    let ghost gden: int = dominant_den(cur_x as int, cur_y as int, start_x as int, start_y as int);
    let ghost gcand: int = scale_candidate(start_scale as int, gnum, gden);

    proof {
        lemma_mul_bounds_scale(cur_x as int, dpi as int);
        lemma_mul_bounds_scale(cur_y as int, dpi as int);
        lemma_mul_bounds_scale(start_x as int, dpi as int);
        lemma_mul_bounds_scale(start_y as int, dpi as int);
        lemma_mul_positive_sign(start_x as int, dpi as int);
        lemma_mul_positive_sign(start_y as int, dpi as int);
    }
    // Convert to physical pixels with the DPI factor frozen at drag start.
    let pcx: i64 = cur_x * (dpi as i64);
    let pcy: i64 = cur_y * (dpi as i64);
    let psx: i64 = start_x * (dpi as i64);
    let psy: i64 = start_y * (dpi as i64);

    // Pick the dominant axis by cross-multiplied ratio comparison.
    proof {
        lemma_mul_bounds_physical_pair(pcx as int, psy as int);
        lemma_mul_bounds_physical_pair(pcy as int, psx as int);
    }
    let x_dominates: bool = (pcx as i128) * (psy as i128) >= (pcy as i128) * (psx as i128);
    proof {
        lemma_scaled_ratio_comparison(
            cur_x as int,
            cur_y as int,
            start_x as int,
            start_y as int,
            dpi as int,
        );
        assert(x_dominates == x_ratio_dominates(
            cur_x as int,
            cur_y as int,
            start_x as int,
            start_y as int,
        ));
    }
    let (num, den): (i64, i64) = if x_dominates {
        (pcx, psx)
    } else {
        (pcy, psy)
    };
    let ghost lnum: int = if x_dominates {
        cur_x as int
    } else {
        cur_y as int
    };
    let ghost lden: int = if x_dominates {
        start_x as int
    } else {
        start_y as int
    };
    assert(num == lnum * dpi && den == lden * dpi && gnum == lnum && gden == lden);

    if num <= 0 {
        // A non-positive dominant ratio always clamps to the lower bound.
        proof {
            lemma_nonpositive_numerator_sign(lnum, dpi as int);
            lemma_mul_nonpositive_left(start_scale as int, lnum);
            lemma_div_is_ordered(start_scale as int * lnum, 0, lden);
            assert(gcand <= 0);
        }
        min_scale
    } else {
        proof {
            lemma_positive_numerator_sign(lnum, dpi as int);
            assert(0 <= start_scale * num <= SCALE_LIMIT * (COORD_LIMIT * DPI_LIMIT))
                by (nonlinear_arith)
                requires
                    1 <= start_scale <= SCALE_LIMIT,
                    0 < num <= COORD_LIMIT * DPI_LIMIT,
            ;
        }
        let prod: u128 = (start_scale as u128) * (num as u128);
        let q: u128 = prod / (den as u128);
        proof {
            lemma_dpi_factor_cancels(start_scale as int, dpi as int, lnum, lden);
            lemma_mul_is_associative(start_scale as int, lnum, dpi as int);
            assert(q == gcand);
            lemma_candidate_upper_bound(start_scale as int, lnum, lden);
        }
        let cand: u64 = q as u64;
        let capped: u64 = match max_scale {
            Option::Some(m) => if cand > m {
                m
            } else {
                cand
            },
            Option::None => cand,
        };
        if capped < min_scale {
            min_scale
        } else {
            capped
        }
    }
}

/// Bounds the physical-pixel product of a coordinate with a DPI factor.
proof fn lemma_mul_bounds_scale(c: int, d: int)
    by (nonlinear_arith)
    requires
        -COORD_LIMIT <= c <= COORD_LIMIT,
        1 <= d <= DPI_LIMIT,
    ensures
        -(COORD_LIMIT * DPI_LIMIT) <= c * d <= COORD_LIMIT * DPI_LIMIT,
{
}

/// Bounds the product of two physical-pixel coordinates.
proof fn lemma_mul_bounds_physical_pair(a: int, b: int)
    by (nonlinear_arith)
    requires
        -(COORD_LIMIT * DPI_LIMIT) <= a <= COORD_LIMIT * DPI_LIMIT,
        -(COORD_LIMIT * DPI_LIMIT) <= b <= COORD_LIMIT * DPI_LIMIT,
    ensures
        -((COORD_LIMIT * DPI_LIMIT) * (COORD_LIMIT * DPI_LIMIT)) <= a * b <= (COORD_LIMIT
            * DPI_LIMIT) * (COORD_LIMIT * DPI_LIMIT),
{
}

/// The product of two positive factors is positive.
proof fn lemma_mul_positive_sign(a: int, b: int)
    by (nonlinear_arith)
    requires
        a > 0,
        b > 0,
    ensures
        a * b > 0,
{
}

/// A non-positive physical coordinate comes from a non-positive logical one.
proof fn lemma_nonpositive_numerator_sign(c: int, d: int)
    by (nonlinear_arith)
    requires
        d > 0,
        c * d <= 0,
    ensures
        c <= 0,
{
}

/// A positive physical coordinate comes from a positive logical one.
proof fn lemma_positive_numerator_sign(c: int, d: int)
    by (nonlinear_arith)
    requires
        d > 0,
        c * d > 0,
    ensures
        c > 0,
{
}

/// Multiplying a non-negative value by a non-positive one is non-positive.
proof fn lemma_mul_nonpositive_left(a: int, b: int)
    by (nonlinear_arith)
    requires
        a >= 0,
        b <= 0,
    ensures
        a * b <= 0,
{
}

/// Scaling both sides of a cross-multiplied ratio comparison by the same
/// positive DPI factor does not change its outcome.
proof fn lemma_scaled_ratio_comparison(cx: int, cy: int, sx: int, sy: int, d: int)
    requires
        d > 0,
    ensures
        ((cx * d) * (sy * d) >= (cy * d) * (sx * d)) == x_ratio_dominates(cx, cy, sx, sy),
{
    assert((cx * d) * (sy * d) == (cx * sy) * (d * d)) by (nonlinear_arith);
    assert((cy * d) * (sx * d) == (cy * sx) * (d * d)) by (nonlinear_arith);
    assert(d * d > 0) by (nonlinear_arith)
        requires
            d > 0,
    ;
    if cx * sy >= cy * sx {
        lemma_mul_inequality_right(cy * sx, cx * sy, d * d);
    } else {
        lemma_mul_strict_inequality(cx * sy, cy * sx, d * d);
    }
}

/// Multiplying both sides of an inequality by a positive factor preserves it.
proof fn lemma_mul_inequality_right(a: int, b: int, f: int)
    by (nonlinear_arith)
    requires
        a <= b,
        f > 0,
    ensures
        a * f <= b * f,
{
}

/// The candidate scale for a positive dominant ratio stays within the
/// fixed-width range.
proof fn lemma_candidate_upper_bound(start_scale: int, num: int, den: int)
    requires
        1 <= start_scale <= SCALE_LIMIT,
        1 <= num <= COORD_LIMIT,
        1 <= den,
    ensures
        0 <= (start_scale * num) / den <= SCALE_LIMIT * COORD_LIMIT,
{
    assert(0 <= start_scale * num <= SCALE_LIMIT * COORD_LIMIT) by (nonlinear_arith)
        requires
            1 <= start_scale <= SCALE_LIMIT,
            1 <= num <= COORD_LIMIT,
    ;
    lemma_div_is_ordered(0, start_scale * num, den);
    lemma_div_is_ordered_upper(start_scale * num, den);
}

/// Dividing a non-negative value by a positive divisor never increases it.
proof fn lemma_div_is_ordered_upper(x: int, den: int)
    by (nonlinear_arith)
    requires
        0 <= x,
        1 <= den,
    ensures
        x / den <= x,
{
}

} // verus!
