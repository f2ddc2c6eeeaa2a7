//! The scale mapper: linear conversion of a value from a source integer
//! range to a destination integer range.
//!
//! The conversion uses the machine's truncating integer division, so the
//! destination range may be reversed (`end < start`) to flip orientation;
//! vertical axes use this to let data grow upward while pixel rows grow
//! downward.

use vstd::prelude::*;
use vstd::arithmetic::div_mod::{
    lemma_div_basics, lemma_div_is_ordered, lemma_div_is_ordered_by_denominator,
    lemma_div_multiples_vanish, lemma_div_pos_is_pos,
};
use vstd::arithmetic::mul::{lemma_mul_inequality, lemma_mul_is_commutative, lemma_mul_upper_bound};
use vstd::math::abs;
use core::ops::Range;

verus! {

/// A bound on coordinate magnitudes under which no mapping arithmetic can
/// overflow; any realistic display and data set stays far below it.
pub const MODERATE: i32 = 16384;

/// True when `x` lies within the moderate band `[-MODERATE, MODERATE]`.
pub open spec fn within_moderate(x: int) -> bool {
    -(MODERATE as int) <= x <= MODERATE as int
}

/// True when `x` lies within the representable range of `i32`.
pub open spec fn fits_i32(x: int) -> bool {
    i32::MIN <= x <= i32::MAX
}

/// Integer division rounding toward zero, as the `/` operator of the
/// machine's signed integers computes it.
pub open spec fn trunc_div(a: int, b: int) -> int
    recommends
        b != 0,
{
    if (a < 0) == (b < 0) {
        abs(a) as int / abs(b) as int
    } else {
        -(abs(a) as int / abs(b) as int)
    }
}

/// The linear map of `value` from range `src` onto range `dst`:
/// `dst.start + (value - src.start) * (dst.end - dst.start) / (src.end - src.start)`
/// with truncating division.
pub open spec fn scale_value(value: int, src: Range<i32>, dst: Range<i32>) -> int
    recommends
        src.start != src.end,
{
    dst.start + trunc_div((value - src.start) * (dst.end - dst.start), src.end - src.start)
}

/// Every intermediate value of the mapping stays within `i32`, as the
/// machine arithmetic of the conversion demands.
pub open spec fn scale_fits(value: int, src: Range<i32>, dst: Range<i32>) -> bool {
    &&& fits_i32(value - src.start)
    &&& fits_i32(dst.end - dst.start)
    &&& fits_i32(src.end - src.start)
    &&& fits_i32((value - src.start) * (dst.end - dst.start))
    &&& fits_i32(scale_value(value, src, dst))
}

/// Maps `value` linearly from `input_range` onto `output_range`, truncating
/// toward zero.
pub fn scale_between_ranges(value: i32, input_range: &Range<i32>, output_range: &Range<i32>) -> (r:
    i32)
    requires
        input_range.start != input_range.end,
        scale_fits(value as int, *input_range, *output_range),
    ensures
        r == scale_value(value as int, *input_range, *output_range),
{
    let num: i64 = value as i64 - input_range.start as i64;
    let span: i64 = output_range.end as i64 - output_range.start as i64;
    let den: i64 = input_range.end as i64 - input_range.start as i64;
    let prod: i64 = num * span;
    let prod_abs: u64 = if prod < 0 {
        (-prod) as u64
    } else {
        prod as u64
    };
    let den_abs: u64 = if den < 0 {
        (-den) as u64
    } else {
        den as u64
    };
    let quot: u64 = prod_abs / den_abs;
    assert(quot == abs(prod as int) as int / abs(den as int) as int);
    let r64: i64 = if (prod < 0) != (den < 0) {
        output_range.start as i64 - quot as i64
    } else {
        output_range.start as i64 + quot as i64
    };
    assert(r64 == scale_value(value as int, *input_range, *output_range));
    r64 as i32
}

/// The start of the source range maps exactly onto the start of the
/// destination range.
pub proof fn lemma_scale_start(src: Range<i32>, dst: Range<i32>)
    requires
        src.start != src.end,
    ensures
        scale_value(src.start as int, src, dst) == dst.start,
{
    assert((src.start - src.start) * (dst.end - dst.start) == 0);
    assert(abs(0) as int / abs(src.end - src.start) as int == 0) by {
        lemma_div_pos_is_pos(0, abs(src.end - src.start) as int);
        lemma_div_is_ordered(0, 0, abs(src.end - src.start) as int);
        assert(0int / abs(src.end - src.start) as int <= 0) by {
            lemma_div_multiples_vanish(0, abs(src.end - src.start) as int);
        }
    }
}

/// The end of the source range maps exactly onto the end of the destination
/// range; the division is exact there.  For a vertical axis rendered into a
/// reversed destination range this puts the largest data value at the top
/// pixel row.
pub proof fn lemma_scale_end(src: Range<i32>, dst: Range<i32>)
    requires
        src.start != src.end,
    ensures
        scale_value(src.end as int, src, dst) == dst.end,
{
    let w = dst.end - dst.start;
    let d = src.end - src.start;
    assert((src.end - src.start) * (dst.end - dst.start) == d * w);
    assert(abs(d * w) == abs(d) * abs(w)) by (nonlinear_arith);
    assert((abs(d) * abs(w)) as int / abs(d) as int == abs(w)) by {
        lemma_mul_is_commutative(abs(d) as int, abs(w) as int);
        lemma_div_multiples_vanish(abs(w) as int, abs(d) as int);
    }
    if w == 0 {
        assert(d * w == 0) by (nonlinear_arith)
            requires
                w == 0,
        ;
        assert(trunc_div(d * w, d) == 0);
    } else {
        assert(((d * w) < 0) == ((d < 0) != (w < 0))) by (nonlinear_arith)
            requires
                d != 0 && w != 0,
        ;
        if (d * w < 0) == (d < 0) {
            assert(w >= 0);
            assert(trunc_div(d * w, d) == w);
        } else {
            assert(w <= 0);
            assert(trunc_div(d * w, d) == -(abs(w) as int) == w);
        }
    }
}

/// Truncating division never exceeds the numerator in magnitude.
pub proof fn lemma_trunc_div_magnitude(a: int, b: int)
    requires
        b != 0,
    ensures
        -abs(a) <= trunc_div(a, b) <= abs(a),
{
    assert(0 <= abs(a) as int / abs(b) as int <= abs(a)) by {
        lemma_div_pos_is_pos(abs(a) as int, abs(b) as int);
        lemma_div_is_ordered_by_denominator(abs(a) as int, 1, abs(b) as int);
        lemma_div_basics(abs(a) as int);
    }
}

/// For values and ranges of moderate magnitude — within `MODERATE`, enough
/// for any pixel display and far beyond — the mapping cannot overflow, and
/// its result stays moderate as well.
pub proof fn lemma_scale_fits_moderate(value: int, src: Range<i32>, dst: Range<i32>)
    requires
        src.start != src.end,
        -(MODERATE as int) <= value <= MODERATE as int,
        -(MODERATE as int) <= src.start <= MODERATE as int,
        -(MODERATE as int) <= src.end <= MODERATE as int,
        -(MODERATE as int) <= dst.start <= MODERATE as int,
        -(MODERATE as int) <= dst.end <= MODERATE as int,
    ensures
        scale_fits(value, src, dst),
        -0x4001_0000 <= scale_value(value, src, dst) <= 0x4001_0000,
{
    let u = value - src.start;
    let w = dst.end - dst.start;
    let p = u * w;
    assert(abs(u * w) == abs(u) * abs(w)) by (nonlinear_arith);
    assert(abs(u) * abs(w) <= 32768 * 32768) by {
        lemma_mul_upper_bound(abs(u) as int, 32768, abs(w) as int, 32768);
    }
    lemma_trunc_div_magnitude(p, src.end - src.start);
}

/// Truncating division is monotone in its numerator for a positive
/// denominator.
proof fn lemma_trunc_div_monotone(a1: int, a2: int, d: int)
    requires
        a1 <= a2,
        0 < d,
    ensures
        trunc_div(a1, d) <= trunc_div(a2, d),
{
    if a1 >= 0 {
        lemma_div_is_ordered(a1, a2, d);
    } else if a2 < 0 {
        assert(abs(a2) <= abs(a1));
        lemma_div_is_ordered(abs(a2) as int, abs(a1) as int, d);
    } else {
        lemma_div_pos_is_pos(abs(a1) as int, d);
        lemma_div_pos_is_pos(abs(a2) as int, d);
    }
}

/// The mapping is monotone in `value` when neither range is reversed.
pub proof fn lemma_scale_monotone(v1: int, v2: int, src: Range<i32>, dst: Range<i32>)
    requires
        src.start < src.end,
        dst.start <= dst.end,
        v1 <= v2,
    ensures
        scale_value(v1, src, dst) <= scale_value(v2, src, dst),
{
    lemma_mul_inequality(v1 - src.start, v2 - src.start, dst.end - dst.start);
    lemma_trunc_div_monotone(
        (v1 - src.start) * (dst.end - dst.start),
        (v2 - src.start) * (dst.end - dst.start),
        src.end - src.start,
    );
}

/// The mapping reverses order in `value` when the destination range is
/// reversed.
pub proof fn lemma_scale_antitone(v1: int, v2: int, src: Range<i32>, dst: Range<i32>)
    requires
        src.start < src.end,
        dst.start > dst.end,
        v1 <= v2,
    ensures
        scale_value(v1, src, dst) >= scale_value(v2, src, dst),
{
    assert((v1 - src.start) * (dst.end - dst.start) >= (v2 - src.start) * (dst.end - dst.start))
        by {
        lemma_mul_inequality(v1 - src.start, v2 - src.start, dst.start - dst.end);
        assert((v1 - src.start) * (dst.start - dst.end) == -((v1 - src.start) * (dst.end
            - dst.start))) by (nonlinear_arith);
        assert((v2 - src.start) * (dst.start - dst.end) == -((v2 - src.start) * (dst.end
            - dst.start))) by (nonlinear_arith);
    }
    lemma_trunc_div_monotone(
        (v2 - src.start) * (dst.end - dst.start),
        (v1 - src.start) * (dst.end - dst.start),
        src.end - src.start,
    );
}

} // verus!
