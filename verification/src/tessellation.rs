//! Integer circle tessellation.
//!
//! Circles are tessellated into a fixed fan of 32 segments.  Perimeter
//! offsets are computed in fixed point: a direction table holds the
//! cosine and sine of each segment angle scaled by 65536, and a radius is
//! scaled by a table entry with the product divided back down to the
//! nearest pixel.  Everything is integer arithmetic, so the offsets are
//! exact functions of the inputs and never exceed the radius.

use vstd::prelude::*;

use vstd::arithmetic::div_mod::lemma_div_is_ordered;
use vstd::arithmetic::div_mod::lemma_div_multiples_vanish_fancy;
use vstd::arithmetic::div_mod::lemma_div_pos_is_pos;
use vstd::arithmetic::mul::lemma_mul_inequality;
use vstd::arithmetic::mul::lemma_mul_nonnegative;

verus! {

/// How many perimeter segments every circle is tessellated into.  A
/// fixed design constant, not configurable.
pub const CIRCLE_SEGMENTS: usize = 32;

/// The cosine of `2*pi*i/32`, scaled by 65536 and rounded to nearest.
pub open spec fn cos_q16(i: int) -> int {
    if i == 0 {
        65536
    } else
    if i == 1 {
        64277
    } else
    if i == 2 {
        60547
    } else
    if i == 3 {
        54491
    } else
    if i == 4 {
        46341
    } else
    if i == 5 {
        36410
    } else
    if i == 6 {
        25080
    } else
    if i == 7 {
        12785
    } else
    if i == 8 {
        0
    } else
    if i == 9 {
        -12785
    } else
    if i == 10 {
        -25080
    } else
    if i == 11 {
        -36410
    } else
    if i == 12 {
        -46341
    } else
    if i == 13 {
        -54491
    } else
    if i == 14 {
        -60547
    } else
    if i == 15 {
        -64277
    } else
    if i == 16 {
        -65536
    } else
    if i == 17 {
        -64277
    } else
    if i == 18 {
        -60547
    } else
    if i == 19 {
        -54491
    } else
    if i == 20 {
        -46341
    } else
    if i == 21 {
        -36410
    } else
    if i == 22 {
        -25080
    } else
    if i == 23 {
        -12785
    } else
    if i == 24 {
        0
    } else
    if i == 25 {
        12785
    } else
    if i == 26 {
        25080
    } else
    if i == 27 {
        36410
    } else
    if i == 28 {
        46341
    } else
    if i == 29 {
        54491
    } else
    if i == 30 {
        60547
    } else
    if i == 31 {
        64277
    } else {
        0
    }
}

/// The sine of `2*pi*i/32`, scaled by 65536 and rounded to nearest.
pub open spec fn sin_q16(i: int) -> int {
    if i == 0 {
        0
    } else
    if i == 1 {
        12785
    } else
    if i == 2 {
        25080
    } else
    if i == 3 {
        36410
    } else
    if i == 4 {
        46341
    } else
    if i == 5 {
        54491
    } else
    if i == 6 {
        60547
    } else
    if i == 7 {
        64277
    } else
    if i == 8 {
        65536
    } else
    if i == 9 {
        64277
    } else
    if i == 10 {
        60547
    } else
    if i == 11 {
        54491
    } else
    if i == 12 {
        46341
    } else
    if i == 13 {
        36410
    } else
    if i == 14 {
        25080
    } else
    if i == 15 {
        12785
    } else
    if i == 16 {
        0
    } else
    if i == 17 {
        -12785
    } else
    if i == 18 {
        -25080
    } else
    if i == 19 {
        -36410
    } else
    if i == 20 {
        -46341
    } else
    if i == 21 {
        -54491
    } else
    if i == 22 {
        -60547
    } else
    if i == 23 {
        -64277
    } else
    if i == 24 {
        -65536
    } else
    if i == 25 {
        -64277
    } else
    if i == 26 {
        -60547
    } else
    if i == 27 {
        -54491
    } else
    if i == 28 {
        -46341
    } else
    if i == 29 {
        -36410
    } else
    if i == 30 {
        -25080
    } else
    if i == 31 {
        -12785
    } else {
        0
    }
}

/// The unit direction of perimeter vertex `i`, as the fixed-point pair
/// `(cos_q16(i), sin_q16(i))`.
pub fn circle_direction(i: usize) -> (d: (i64, i64))
    requires
        i < CIRCLE_SEGMENTS,
    ensures
        d.0 == cos_q16(i as int),
        d.1 == sin_q16(i as int),
{
    match i {
        0 => (65536, 0),
        1 => (64277, 12785),
        2 => (60547, 25080),
        3 => (54491, 36410),
        4 => (46341, 46341),
        5 => (36410, 54491),
        6 => (25080, 60547),
        7 => (12785, 64277),
        8 => (0, 65536),
        9 => (-12785, 64277),
        10 => (-25080, 60547),
        11 => (-36410, 54491),
        12 => (-46341, 46341),
        13 => (-54491, 36410),
        14 => (-60547, 25080),
        15 => (-64277, 12785),
        16 => (-65536, 0),
        17 => (-64277, -12785),
        18 => (-60547, -25080),
        19 => (-54491, -36410),
        20 => (-46341, -46341),
        21 => (-36410, -54491),
        22 => (-25080, -60547),
        23 => (-12785, -64277),
        24 => (0, -65536),
        25 => (12785, -64277),
        26 => (25080, -60547),
        27 => (36410, -54491),
        28 => (46341, -46341),
        29 => (54491, -36410),
        30 => (60547, -25080),
        31 => (64277, -12785),
        _ => (0, 0),
    }
}

/// Both direction components lie within one fixed-point unit.
pub proof fn lemma_direction_bounded(i: int)
    requires
        0 <= i < CIRCLE_SEGMENTS,
    ensures
        -65536 <= cos_q16(i) <= 65536,
        -65536 <= sin_q16(i) <= 65536,
{
}

/// A radius scaled by a fixed-point direction component, rounded to the
/// nearest pixel (away from the center on ties): the perimeter offset
/// along one axis.
pub open spec fn scale_radius(r: int, t: int) -> int {
    if t >= 0 {
        (r * t + 32768) / 65536
    } else {
        -((r * (-t) + 32768) / 65536)
    }
}

/// The scaled offset never exceeds the radius in magnitude.
pub proof fn lemma_scale_radius_bounded(r: int, t: int)
    requires
        0 <= r,
        -65536 <= t <= 65536,
    ensures
        -r <= scale_radius(r, t) <= r,
{
    if t >= 0 {
        lemma_mul_nonnegative(r, t);
        lemma_div_pos_is_pos(r * t + 32768, 65536);
        lemma_mul_inequality(t, 65536, r);
        assert(t * r <= 65536 * r);
        assert(r * t <= 65536 * r) by {
            assert(r * t == t * r) by (nonlinear_arith);
        }
        lemma_div_is_ordered(r * t + 32768, 65536 * r + 32768, 65536);
        lemma_div_multiples_vanish_fancy(r, 32768, 65536);
        assert((65536 * r + 32768) / 65536 == r);
    } else {
        let u = -t;
        lemma_mul_nonnegative(r, u);
        lemma_div_pos_is_pos(r * u + 32768, 65536);
        lemma_mul_inequality(u, 65536, r);
        assert(u * r <= 65536 * r);
        assert(r * u <= 65536 * r) by {
            assert(r * u == u * r) by (nonlinear_arith);
        }
        lemma_div_is_ordered(r * u + 32768, 65536 * r + 32768, 65536);
        lemma_div_multiples_vanish_fancy(r, 32768, 65536);
        assert((65536 * r + 32768) / 65536 == r);
    }
}

/// Computes `scale_radius` on machine integers.
pub fn scale_radius_exec(r: u32, t: i64) -> (d: i64)
    requires
        -65536 <= t <= 65536,
    ensures
        d == scale_radius(r as int, t as int),
        -(r as int) <= d <= r as int,
{
    proof {
        lemma_scale_radius_bounded(r as int, t as int);
    }
    if t >= 0 {
        let m: u64 = (r as u64) * (t as u64) + 32768;
        proof {
            lemma_mul_nonnegative(r as int, t as int);
            lemma_div_pos_is_pos(m as int, 65536);
        }
        (m / 65536) as i64
    } else {
        let u: u64 = (-t) as u64;
        let m: u64 = (r as u64) * u + 32768;
        proof {
            lemma_mul_nonnegative(r as int, u as int);
            lemma_div_pos_is_pos(m as int, 65536);
        }
        -((m / 65536) as i64)
    }
}

} // verus!
