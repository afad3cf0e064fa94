use vstd::prelude::*;
use vstd::math::abs;
use vstd::math::max;
use vstd::arithmetic::div_mod::lemma_basic_div;
use vstd::arithmetic::div_mod::lemma_div_is_ordered;
use vstd::arithmetic::div_mod::lemma_div_pos_is_pos;
use vstd::arithmetic::div_mod::lemma_fundamental_div_mod;
use vstd::arithmetic::div_mod::lemma_hoist_over_denominator;
use vstd::arithmetic::div_mod::lemma_mod_bound;

verus! {

/// Division of `a` by a positive `b`, rounded to the nearest integer, with
/// halves rounded up.
pub open spec fn round_div(a: int, b: int) -> int {
    (a + b / 2) / b
}

/// The aspect-fit rule. A `w` x `h` source is scaled by the exact rational
/// factor min(max_w / w, max_h / h): the side whose bound is the tighter one
/// meets its bound exactly, the other side is scaled by the same factor,
/// rounded to the nearest integer and never below 1. The factor may exceed 1:
/// a source smaller than the box in both dimensions is scaled up until it
/// fits the box ("always fit", no "only downscale" exception).
pub open spec fn fit_spec(w: int, h: int, max_w: int, max_h: int) -> (int, int) {
    if max_w * h <= max_h * w {
        (max_w, max(1, round_div(h * max_w, w)))
    } else {
        (max(1, round_div(w * max_h, h)), max_h)
    }
}

/// A rounded quotient of nonnegative `a` over positive `b` is nonnegative,
/// and bounded by any `c` with `a <= c * b`.
proof fn lemma_round_div_le(a: int, b: int, c: int)
    requires
        1 <= b,
        0 <= a,
        0 <= c,
        a <= c * b,
    ensures
        0 <= round_div(a, b),
        round_div(a, b) <= c,
{
    lemma_div_pos_is_pos(a + b / 2, b);
    lemma_div_is_ordered(a + b / 2, c * b + b / 2, b);
    lemma_hoist_over_denominator(b / 2, c, b as nat);
    lemma_basic_div(b / 2, b);
}

/// Rounding to the nearest multiple lands within half a denominator of the
/// exact value: `2 * |b * round_div(a, b) - a| <= b`.
proof fn lemma_round_div_close(a: int, b: int)
    requires
        1 <= b,
        0 <= a,
    ensures
        2 * abs(b * round_div(a, b) - a) <= b,
{
    lemma_fundamental_div_mod(a + b / 2, b);
    lemma_mod_bound(a + b / 2, b);
}

/// LAW (box fit): for every positive source and box, the aspect-fit
/// dimensions are at least 1 x 1, lie within the box, and at least one side
/// meets its bound exactly.
pub proof fn lemma_fit_within_box(w: int, h: int, max_w: int, max_h: int)
    requires
        1 <= w,
        1 <= h,
        1 <= max_w,
        1 <= max_h,
    ensures
        1 <= fit_spec(w, h, max_w, max_h).0 <= max_w,
        1 <= fit_spec(w, h, max_w, max_h).1 <= max_h,
        fit_spec(w, h, max_w, max_h).0 == max_w || fit_spec(w, h, max_w, max_h).1 == max_h,
{
    if max_w * h <= max_h * w {
        assert(h * max_w <= max_h * w) by (nonlinear_arith)
            requires
                max_w * h <= max_h * w,
        ;
        lemma_round_div_le(h * max_w, w, max_h);
    } else {
        assert(w * max_h <= max_w * h) by (nonlinear_arith)
            requires
                max_w * h > max_h * w,
        ;
        lemma_round_div_le(w * max_h, h, max_w);
    }
}

/// LAW (aspect preservation up to rounding): whenever the rounded side is not
/// clamped up to 1, the realized pair lies within half a source unit of the
/// exact ratio line. The clamp case is excluded: a source so oblong that the
/// scaled short side rounds to zero keeps no usable ratio.
pub proof fn lemma_fit_preserves_ratio(w: int, h: int, max_w: int, max_h: int)
    requires
        1 <= w,
        1 <= h,
        1 <= max_w,
        1 <= max_h,
    ensures
        max_w * h <= max_h * w && 1 <= round_div(h * max_w, w) ==> 2 * abs(
            w * fit_spec(w, h, max_w, max_h).1 - h * max_w,
        ) <= w,
        max_w * h > max_h * w && 1 <= round_div(w * max_h, h) ==> 2 * abs(
            h * fit_spec(w, h, max_w, max_h).0 - w * max_h,
        ) <= h,
{
    lemma_round_div_close(h * max_w, w);
    lemma_round_div_close(w * max_h, h);
}

/// Compute the aspect-fit dimensions of a `w` x `h` source inside a
/// `max_w` x `max_h` box, exactly as `fit_spec` states them.
pub fn fit_dimensions(w: u32, h: u32, max_w: u32, max_h: u32) -> (r: (u32, u32))
    requires
        1 <= w,
        1 <= h,
        1 <= max_w,
        1 <= max_h,
    ensures
        (r.0 as int, r.1 as int) == fit_spec(w as int, h as int, max_w as int, max_h as int),
{
    let ws: u64 = w as u64;
    let hs: u64 = h as u64;
    let mws: u64 = max_w as u64;
    let mhs: u64 = max_h as u64;
    proof {
        assert(mws * hs <= 0xffff_fffe_0000_0001 && mhs * ws <= 0xffff_fffe_0000_0001
            && hs * mws <= 0xffff_fffe_0000_0001 && ws * mhs <= 0xffff_fffe_0000_0001
            && hs * mws == mws * hs && ws * mhs == mhs * ws) by (nonlinear_arith)
            requires
                ws <= 0xffff_ffff,
                hs <= 0xffff_ffff,
                mws <= 0xffff_ffff,
                mhs <= 0xffff_ffff,
        ;
    }
    if mws * hs <= mhs * ws {
        let num: u64 = hs * mws;
        let q: u64 = (num + ws / 2) / ws;
        proof {
            lemma_round_div_le(num as int, ws as int, mhs as int);
        }
        let rh: u64 = if q == 0 {
            1
        } else {
            q
        };
        (max_w, rh as u32)
    } else {
        let num: u64 = ws * mhs;
        let q: u64 = (num + hs / 2) / hs;
        proof {
            lemma_round_div_le(num as int, hs as int, mws as int);
        }
        let rw: u64 = if q == 0 {
            1
        } else {
            q
        };
        (rw as u32, max_h)
    }
}

} // verus!
