//! Solving the output dimensions of a resize.
//!
//! Given a source size and a bounding box, the solver picks the largest
//! dimensions that fit the box while preserving the aspect ratio. All
//! intermediate arithmetic is widened to 64 bits so that sources near the
//! `u32` limits are handled without overflow.

use vstd::arithmetic::div_mod::{lemma_div_is_ordered, lemma_div_multiples_vanish,
    lemma_fundamental_div_mod, lemma_mod_bound};
use vstd::prelude::*;

verus! {

/// The bound that actually applies on one axis: a bound of zero means
/// "unbounded", which is treated as the source dimension itself.
pub open spec fn effective_bound(source: u32, bound: u32) -> u32 {
    if bound > 0 {
        bound
    } else {
        source
    }
}

/// A quotient floored to integer division but never allowed to reach zero.
pub open spec fn floor_at_least_one(q: int) -> int {
    if q < 1 {
        1
    } else {
        q
    }
}

/// The dimensions a `x` by `y` source is resized to so that it fits inside
/// `nx` by `ny` (zero meaning "unbounded" on that axis) with its aspect
/// ratio preserved. The binding axis is chosen by comparing the cross
/// products `bx * y` and `x * by`; the non-binding axis is floored to
/// integer division and clamped to a minimum of one.
pub open spec fn spec_resize_dimensions(x: u32, y: u32, nx: u32, ny: u32) -> (u32, u32)
    recommends
        x >= 1,
        y >= 1,
{
    let bx = effective_bound(x, nx) as int;
    let by = effective_bound(y, ny) as int;
    if bx * (y as int) <= (x as int) * by {
        (effective_bound(x, nx), floor_at_least_one((y as int) * bx / (x as int)) as u32)
    } else {
        (floor_at_least_one((x as int) * by / (y as int)) as u32, effective_bound(y, ny))
    }
}

/// Calculates the width and height an image should be resized to.
/// Preserves aspect ratio so that both dimensions are contained within the
/// given `nx` and `ny`. If `nx` or `ny` are 0, their value is replaced by
/// `x` or `y` respectively, allowing for easier downscaling to a desired
/// size in one dimension.
pub fn resize_dimensions(x: u32, y: u32, nx: u32, ny: u32) -> (r: (u32, u32))
    requires
        x >= 1,
        y >= 1,
    ensures
        r == spec_resize_dimensions(x, y, nx, ny),
        r.0 >= 1,
        r.1 >= 1,
{
    let nx = if nx > 0 {
        nx
    } else {
        x
    };
    let ny = if ny > 0 {
        ny
    } else {
        y
    };

    proof {
        lemma_u32_products_fit(x, y, nx, ny);
    }
    let ratio: u64 = (x as u64) * (ny as u64);
    let nratio: u64 = (nx as u64) * (y as u64);

    let use_y = nratio <= ratio;

    let intermediate: u64 = if use_y {
        proof {
            lemma_scaled_quotient_bounded(y as int, nx as int, x as int, ny as int);
        }
        (y as u64) * (nx as u64) / (x as u64)
    } else {
        proof {
            assert((ny as int) * (x as int) <= (y as int) * (nx as int)) by (nonlinear_arith)
                requires
                    (nx as int) * (y as int) > (x as int) * (ny as int),
            ;
            lemma_scaled_quotient_bounded(x as int, ny as int, y as int, nx as int);
        }
        (x as u64) * (ny as u64) / (y as u64)
    };
    let intermediate: u64 = if intermediate < 1 {
        1
    } else {
        intermediate
    };

    if use_y {
        (nx, intermediate as u32)
    } else {
        (intermediate as u32, ny)
    }
}

/// The products of two `u32` values fit in a `u64`.
proof fn lemma_u32_products_fit(x: u32, y: u32, nx: u32, ny: u32)
    ensures
        (x as int) * (ny as int) <= u64::MAX,
        (nx as int) * (y as int) <= u64::MAX,
        (y as int) * (nx as int) <= u64::MAX,
        (x as int) * (ny as int) >= 0,
        (nx as int) * (y as int) >= 0,
        (y as int) * (nx as int) >= 0,
{
    assert((x as int) * (ny as int) <= u64::MAX && (nx as int) * (y as int) <= u64::MAX
        && (y as int) * (nx as int) <= u64::MAX && (x as int) * (ny as int) >= 0 && (nx as int) * (
    y as int) >= 0 && (y as int) * (nx as int) >= 0) by (nonlinear_arith)
        requires
            x <= u32::MAX,
            y <= u32::MAX,
            nx <= u32::MAX,
            ny <= u32::MAX,
    ;
}

/// When the cross product `b * a` is at most `c * d`, the scaled quotient
/// `a * b / c` is bounded by `d`.
proof fn lemma_scaled_quotient_bounded(a: int, b: int, c: int, d: int)
    requires
        c >= 1,
        d >= 0,
        b * a <= c * d,
    ensures
        a * b / c <= d,
{
    assert(a * b == b * a) by (nonlinear_arith);
    assert(c * d == d * c) by (nonlinear_arith);
    lemma_div_is_ordered(a * b, c * d, c);
    lemma_div_multiples_vanish(d, c);
}

/// The solver never returns a zero dimension for a non-degenerate source.
pub proof fn lemma_resize_dimensions_nonzero(x: u32, y: u32, nx: u32, ny: u32)
    requires
        x >= 1,
        y >= 1,
    ensures
        spec_resize_dimensions(x, y, nx, ny).0 >= 1,
        spec_resize_dimensions(x, y, nx, ny).1 >= 1,
{
    let bx = effective_bound(x, nx) as int;
    let by = effective_bound(y, ny) as int;
    if bx * (y as int) <= (x as int) * by {
        lemma_scaled_quotient_bounded(y as int, bx, x as int, by);
    } else {
        assert(by * (x as int) <= (y as int) * bx) by (nonlinear_arith)
            requires
                bx * (y as int) > (x as int) * by,
        ;
        lemma_scaled_quotient_bounded(x as int, by, y as int, bx);
    }
}

/// Both solved dimensions are contained within the effective bounds.
pub proof fn lemma_resize_dimensions_fits(x: u32, y: u32, nx: u32, ny: u32)
    requires
        x >= 1,
        y >= 1,
    ensures
        spec_resize_dimensions(x, y, nx, ny).0 <= effective_bound(x, nx),
        spec_resize_dimensions(x, y, nx, ny).1 <= effective_bound(y, ny),
{
    let bx = effective_bound(x, nx) as int;
    let by = effective_bound(y, ny) as int;
    if bx * (y as int) <= (x as int) * by {
        lemma_scaled_quotient_bounded(y as int, bx, x as int, by);
    } else {
        assert(by * (x as int) <= (y as int) * bx) by (nonlinear_arith)
            requires
                bx * (y as int) > (x as int) * by,
        ;
        lemma_scaled_quotient_bounded(x as int, by, y as int, bx);
    }
}

/// A floored quotient stays within one divisor of its numerator, even
/// after the clamp to one.
proof fn lemma_clamped_quotient_close(num: int, den: int)
    requires
        num >= 0,
        den >= 1,
    ensures
        den * floor_at_least_one(num / den) <= num + den,
        num < den * (floor_at_least_one(num / den) + 1),
{
    lemma_fundamental_div_mod(num, den);
    lemma_mod_bound(num, den);
    let q = num / den;
    if q < 1 {
        assert(floor_at_least_one(q) == 1);
        assert(den * 1 == den && den * (1 + 1) == den + den) by (nonlinear_arith);
        assert(num < den) by (nonlinear_arith)
            requires
                num == den * q + num % den,
                q <= 0,
                0 <= num % den < den,
                num >= 0,
                den >= 1,
        ;
    } else {
        assert(den * (q + 1) == den * q + den) by (nonlinear_arith);
    }
}

/// Aspect ratio is preserved within integer-rounding tolerance: the cross
/// products of the solved dimensions and the source dimensions differ by
/// less than one rounding unit of the axis that was derived by division.
pub proof fn lemma_resize_dimensions_aspect_ratio(x: u32, y: u32, nx: u32, ny: u32)
    requires
        x >= 1,
        y >= 1,
    ensures
        ({
            let r = spec_resize_dimensions(x, y, nx, ny);
            let bx = effective_bound(x, nx) as int;
            let by = effective_bound(y, ny) as int;
            if bx * (y as int) <= (x as int) * by {
                (y as int) * (r.0 as int) < (x as int) * ((r.1 as int) + 1) && (x as int) * (
                r.1 as int) <= (y as int) * (r.0 as int) + (x as int)
            } else {
                (x as int) * (r.1 as int) < (y as int) * ((r.0 as int) + 1) && (y as int) * (
                r.0 as int) <= (x as int) * (r.1 as int) + (y as int)
            }
        }),
{
    let bx = effective_bound(x, nx) as int;
    let by = effective_bound(y, ny) as int;
    if bx * (y as int) <= (x as int) * by {
        lemma_scaled_quotient_bounded(y as int, bx, x as int, by);
        lemma_clamped_quotient_close((y as int) * bx, x as int);
        assert((y as int) * bx == bx * (y as int)) by (nonlinear_arith);
    } else {
        assert(by * (x as int) <= (y as int) * bx) by (nonlinear_arith)
            requires
                bx * (y as int) > (x as int) * by,
        ;
        lemma_scaled_quotient_bounded(x as int, by, y as int, bx);
        lemma_clamped_quotient_close((x as int) * by, y as int);
        assert((x as int) * by == by * (x as int)) by (nonlinear_arith);
    }
}

/// A zero width bound behaves exactly as a bound equal to the source width.
pub proof fn lemma_resize_dimensions_zero_width_bound(x: u32, y: u32, ny: u32)
    requires
        x >= 1,
        y >= 1,
    ensures
        spec_resize_dimensions(x, y, 0, ny) == spec_resize_dimensions(x, y, x, ny),
{
}

/// A zero height bound behaves exactly as a bound equal to the source height.
pub proof fn lemma_resize_dimensions_zero_height_bound(x: u32, y: u32, nx: u32)
    requires
        x >= 1,
        y >= 1,
    ensures
        spec_resize_dimensions(x, y, nx, 0) == spec_resize_dimensions(x, y, nx, y),
{
}

} // verus!
