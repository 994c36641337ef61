use vstd::prelude::*;
use vstd::arithmetic::div_mod::lemma_fundamental_div_mod;
use vstd::arithmetic::div_mod::lemma_mod_bound;

verus! {

/// Integer rounding of `a / b` to the nearest whole number, halves upward.
pub open spec fn round_div(a: int, b: int) -> int {
    (2 * a + b) / (2 * b)
}

/// The dimensions a source of `w` by `h` pixels takes under a bounding box
/// of `bound` by `bound`: kept as they are when they already fit, otherwise
/// shrunk proportionally so that the larger axis becomes `bound`; each axis
/// of the result is at least one pixel.
pub open spec fn fit_dims_spec(w: int, h: int, bound: int) -> (int, int) {
    let w0 = if w < 1 { 1 } else { w };
    let h0 = if h < 1 { 1 } else { h };
    if w0 <= bound && h0 <= bound {
        (w0, h0)
    } else if h0 <= w0 {
        let q = round_div(h0 * bound, w0);
        ((if bound < 1 { 1 } else { bound }), (if q < 1 { 1 } else { q }))
    } else {
        let q = round_div(w0 * bound, h0);
        ((if q < 1 { 1 } else { q }), (if bound < 1 { 1 } else { bound }))
    }
}

/// The rounded quotient is within half a denominator of the true ratio,
/// and rounding a ratio whose numerator is bounded by `c * b` stays at
/// or below `c`.
proof fn lemma_round_div_bounds(a: int, b: int)
    requires
        0 <= a,
        1 <= b,
    ensures
        ({
            let q = round_div(a, b);
            &&& 0 <= q
            &&& 2 * (q * b) <= 2 * a + b
            &&& 2 * a + b < 2 * (q * b) + 2 * b
        }),
{
    let x = 2 * a + b;
    let d = 2 * b;
    let q = x / d;
    lemma_fundamental_div_mod(x, d);
    lemma_mod_bound(x, d);
    assert(x == d * q + x % d);
    assert(0 <= q) by (nonlinear_arith)
        requires
            x == d * q + x % d,
            0 <= x % d < d,
            0 < d,
            0 < x,
    ;
    assert(2 * (q * b) <= 2 * a + b && 2 * a + b < 2 * (q * b) + 2 * b) by (nonlinear_arith)
        requires
            x == d * q + x % d,
            0 <= x % d < d,
            x == 2 * a + b,
            d == 2 * b,
    ;
}

/// The upper bound of the rounded ratio: when the numerator is at most
/// `c * b` with `c >= 1`, the rounded quotient is at most `c`.
proof fn lemma_round_div_at_most(a: int, b: int, c: int)
    requires
        0 <= a,
        1 <= b,
        1 <= c,
        a <= c * b,
    ensures
        round_div(a, b) <= c,
{
    let q = round_div(a, b);
    lemma_round_div_bounds(a, b);
    assert(q <= c) by (nonlinear_arith)
        requires
            2 * (q * b) <= 2 * a + b,
            a <= c * b,
            1 <= b,
            1 <= c,
    ;
}

/// Computes the thumbnail dimensions for a source of `w` by `h` pixels
/// under a `bound` by `bound` bounding box: shrink to fit, never upscale,
/// never below one pixel per axis.
pub fn fit_dimensions(w: u32, h: u32, bound: u32) -> (r: (u32, u32))
    ensures
        (r.0 as int, r.1 as int) == fit_dims_spec(w as int, h as int, bound as int),
        1 <= r.0,
        1 <= r.1,
        1 <= bound ==> r.0 <= bound && r.1 <= bound,
        1 <= w <= bound && 1 <= h <= bound ==> r.0 == w && r.1 == h,
{
    let w0: u32 = if w < 1 { 1 } else { w };
    let h0: u32 = if h < 1 { 1 } else { h };
    if w0 <= bound && h0 <= bound {
        (w0, h0)
    } else if h0 <= w0 {
        proof {
            assert((h0 as int) * (bound as int) <= 0xffff_ffff * 0xffff_ffff) by (nonlinear_arith)
                requires
                    0 <= h0 as int <= 0xffff_ffff,
                    0 <= bound as int <= 0xffff_ffff,
            ;
        }
        let num: u128 = 2 * ((h0 as u128) * (bound as u128)) + (w0 as u128);
        let den: u128 = 2 * (w0 as u128);
        let q128: u128 = num / den;
        proof {
            lemma_round_div_bounds(h0 as int * bound as int, w0 as int);
            assert(h0 as int * bound as int <= (if bound < 1 { 1int } else { bound as int }) * w0 as int)
                by (nonlinear_arith)
                requires
                    h0 <= w0,
                    0 <= bound,
                    1 <= w0,
            ;
            lemma_round_div_at_most(h0 as int * bound as int, w0 as int, if bound < 1 { 1 } else { bound as int });
            assert(q128 as int == round_div(h0 as int * bound as int, w0 as int));
        }
        let q: u32 = if q128 < 1 { 1 } else { q128 as u32 };
        let b1: u32 = if bound < 1 { 1 } else { bound };
        (b1, q)
    } else {
        proof {
            assert((w0 as int) * (bound as int) <= 0xffff_ffff * 0xffff_ffff) by (nonlinear_arith)
                requires
                    0 <= w0 as int <= 0xffff_ffff,
                    0 <= bound as int <= 0xffff_ffff,
            ;
        }
        let num: u128 = 2 * ((w0 as u128) * (bound as u128)) + (h0 as u128);
        let den: u128 = 2 * (h0 as u128);
        let q128: u128 = num / den;
        proof {
            lemma_round_div_bounds(w0 as int * bound as int, h0 as int);
            assert(w0 as int * bound as int <= (if bound < 1 { 1int } else { bound as int }) * h0 as int)
                by (nonlinear_arith)
                requires
                    w0 <= h0,
                    0 <= bound,
                    1 <= h0,
            ;
            lemma_round_div_at_most(w0 as int * bound as int, h0 as int, if bound < 1 { 1 } else { bound as int });
            assert(q128 as int == round_div(w0 as int * bound as int, h0 as int));
        }
        let q: u32 = if q128 < 1 { 1 } else { q128 as u32 };
        let b1: u32 = if bound < 1 { 1 } else { bound };
        (q, b1)
    }
}

/// Law: under a positive bound, fitted dimensions never exceed the bound on
/// either axis; dimensions that already fit are kept unchanged (no
/// upscaling); and shrinking preserves the aspect ratio within one rounding
/// step of the larger source axis: `|fw * h - fh * w| <= max(w, h)`.
pub proof fn lemma_fit_dims_ratio(w: int, h: int, bound: int)
    requires
        1 <= w,
        1 <= h,
        1 <= bound,
    ensures
        ({
            let (fw, fh) = fit_dims_spec(w, h, bound);
            &&& 1 <= fw <= bound
            &&& 1 <= fh <= bound
            &&& (w <= bound && h <= bound ==> fw == w && fh == h)
            &&& fw * h - fh * w <= (if h <= w { w } else { h })
            &&& fh * w - fw * h <= (if h <= w { w } else { h })
        }),
{
    if w <= bound && h <= bound {
    } else if h <= w {
        let q = round_div(h * bound, w);
        assert(1 <= h * bound && h * bound <= bound * w) by (nonlinear_arith)
            requires
                1 <= h,
                h <= w,
                1 <= bound,
        ;
        lemma_round_div_bounds(h * bound, w);
        lemma_round_div_at_most(h * bound, w, bound);
        let fh = if q < 1 { 1int } else { q };
        assert(bound * h - fh * w <= w && fh * w - bound * h <= w) by (nonlinear_arith)
            requires
                2 * (q * w) <= 2 * (h * bound) + w,
                2 * (h * bound) + w < 2 * (q * w) + 2 * w,
                fh == (if q < 1 { 1int } else { q }),
                1 <= h * bound,
                1 <= w,
                1 <= h,
                1 <= bound,
                0 <= q,
        ;
    } else {
        let q = round_div(w * bound, h);
        assert(1 <= w * bound && w * bound <= bound * h) by (nonlinear_arith)
            requires
                1 <= w,
                w <= h,
                1 <= bound,
        ;
        lemma_round_div_bounds(w * bound, h);
        lemma_round_div_at_most(w * bound, h, bound);
        let fw = if q < 1 { 1int } else { q };
        assert(bound * w - fw * h <= h && fw * h - bound * w <= h) by (nonlinear_arith)
            requires
                2 * (q * h) <= 2 * (w * bound) + h,
                2 * (w * bound) + h < 2 * (q * h) + 2 * h,
                fw == (if q < 1 { 1int } else { q }),
                1 <= w * bound,
                1 <= h,
                1 <= w,
                1 <= bound,
                0 <= q,
        ;
    }
}

} // verus!
