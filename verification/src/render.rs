//! Software rendering of lock-surface content.
//!
//! Every frame is a flat byte buffer in the surface's native pixel format,
//! little-endian ARGB8888: each pixel is the four bytes B, G, R, A.

use vstd::prelude::*;
use vstd::arithmetic::div_mod::{
    lemma_div_is_ordered, lemma_div_multiples_vanish, lemma_div_pos_is_pos,
    lemma_fundamental_div_mod_converse,
};
use vstd::arithmetic::mul::lemma_mul_nonnegative;
use vstd::math::min;

verus! {

/// What the render dispatcher submits for one configure event.
#[derive(Debug)]
pub enum Frame {
    /// CPU-generated ARGB8888 bytes, ready for presentation.
    Pixels(Vec<u8>),
    /// A full-surface GPU draw from this shader source; compiling and running
    /// it is the external renderer's job.
    ShaderDraw(String),
    /// Nothing to paint: the surface has no usable size yet.
    Skip,
}

/// An 8-bit-per-channel RGBA colour.
#[derive(Clone, Copy, Debug, PartialEq, Eq, Structural)]
pub struct Color {
    pub r: u8,
    pub g: u8,
    pub b: u8,
    pub a: u8,
}

/// The four bytes of one pixel of colour `c` in little-endian ARGB8888 order.
pub open spec fn argb_bytes(c: Color) -> Seq<u8> {
    seq![c.b, c.g, c.r, c.a]
}

/// A `w` by `h` frame in which every pixel holds colour `c`.
pub open spec fn spec_solid_frame(c: Color, w: int, h: int) -> Seq<u8> {
    Seq::new((4 * w * h) as nat, |i: int| argb_bytes(c)[i % 4])
}

/// Fill a whole `w` by `h` frame with one colour.
pub fn render_solid(w: u32, h: u32, c: Color) -> (out: Vec<u8>)
    requires
        4 * (w as int) * (h as int) <= usize::MAX as int,
    ensures
        out@ == spec_solid_frame(c, w as int, h as int),
{
    proof {
        assert(0 <= (w as int) * (h as int) && (w as int) * (h as int) * 4 == 4 * (w as int) * (
        h as int)) by (nonlinear_arith);
    }
    let n: usize = (w as usize) * (h as usize) * 4;
    let mut out: Vec<u8> = Vec::new();
    let mut i: usize = 0;
    while i < n
        invariant
            n == 4 * (w as int) * (h as int),
            i <= n,
            out@.len() == i,
            forall|j: int| 0 <= j < i ==> out@[j] == argb_bytes(c)[j % 4],
        decreases n - i,
    {
        let byte: u8 = match i % 4 {
            0 => c.b,
            1 => c.g,
            2 => c.r,
            _ => c.a,
        };
        out.push(byte);
        i = i + 1;
    }
    proof {
        assert(out@ =~= spec_solid_frame(c, w as int, h as int));
    }
    out
}

/// Red channel of the fallback gradient at pixel (x, y) of a `w` by `h` surface.
pub open spec fn gradient_r(w: int, h: int, x: int, y: int) -> int {
    min(((w - x) * 255) / w, ((h - y) * 255) / h)
}

/// Green channel of the fallback gradient.
pub open spec fn gradient_g(w: int, h: int, x: int, y: int) -> int {
    min((x * 255) / w, ((h - y) * 255) / h)
}

/// Blue channel of the fallback gradient.
pub open spec fn gradient_b(w: int, h: int, x: int, y: int) -> int {
    min(((w - x) * 255) / w, (y * 255) / h)
}

/// The colour of the fallback gradient at pixel (x, y); fully opaque.
pub open spec fn gradient_color(w: int, h: int, x: int, y: int) -> Color {
    Color {
        r: gradient_r(w, h, x, y) as u8,
        g: gradient_g(w, h, x, y) as u8,
        b: gradient_b(w, h, x, y) as u8,
        a: 255,
    }
}

/// `(n * 255) / d` stays inside a byte whenever `0 <= n <= d`.
proof fn lemma_ratio_byte(n: int, d: int)
    requires
        0 < d,
        0 <= n <= d,
    ensures
        0 <= (n * 255) / d <= 255,
{
    lemma_mul_nonnegative(n, 255);
    lemma_div_pos_is_pos(n * 255, d);
    assert(n * 255 <= d * 255) by (nonlinear_arith)
        requires
            0 <= n <= d,
    ;
    lemma_div_is_ordered(n * 255, d * 255, d);
    lemma_div_multiples_vanish(255, d);
}

/// Compute the fallback-gradient colour of one pixel.
pub fn gradient_pixel(w: u32, h: u32, x: u32, y: u32) -> (c: Color)
    requires
        0 < w,
        0 < h,
        x < w,
        y < h,
    ensures
        c == gradient_color(w as int, h as int, x as int, y as int),
{
    proof {
        lemma_ratio_byte(w - x, w as int);
        lemma_ratio_byte(x as int, w as int);
        lemma_ratio_byte(h - y, h as int);
        lemma_ratio_byte(y as int, h as int);
    }
    let wu: u64 = w as u64;
    let hu: u64 = h as u64;
    let xu: u64 = x as u64;
    let yu: u64 = y as u64;
    let left: u64 = ((wu - xu) * 255) / wu;
    let right: u64 = (xu * 255) / wu;
    let top: u64 = ((hu - yu) * 255) / hu;
    let bottom: u64 = (yu * 255) / hu;
    let r: u64 = if left < top { left } else { top };
    let g: u64 = if right < top { right } else { top };
    let b: u64 = if left < bottom { left } else { bottom };
    Color { r: r as u8, g: g as u8, b: b as u8, a: 255 }
}

/// The fallback gradient as a whole `w` by `h` frame in ARGB8888 order.
pub open spec fn spec_gradient_frame(w: int, h: int) -> Seq<u8> {
    Seq::new(
        (4 * w * h) as nat,
        |i: int| argb_bytes(gradient_color(w, h, (i / 4) % w, (i / 4) / w))[i % 4],
    )
}

/// Paint the deterministic diagonal four-corner gradient shown when no media
/// is configured, so that the screen is never left blank.
pub fn render_gradient(w: u32, h: u32) -> (out: Vec<u8>)
    requires
        0 < w,
        0 < h,
        4 * (w as int) * (h as int) <= usize::MAX as int,
    ensures
        out@ == spec_gradient_frame(w as int, h as int),
{
    let mut out: Vec<u8> = Vec::new();
    let mut y: u32 = 0;
    while y < h
        invariant
            0 < w,
            0 < h,
            y <= h,
            4 * (w as int) * (h as int) <= usize::MAX as int,
            out@.len() == 4 * ((y as int) * (w as int)),
            forall|j: int|
                0 <= j < out@.len() ==> out@[j] == spec_gradient_frame(w as int, h as int)[j],
        decreases h - y,
    {
        let mut x: u32 = 0;
        proof {
            assert(0 <= (y as int) * (w as int) && (y as int) * (w as int) <= ((h as int) - 1) * (
            w as int) && ((h as int) - 1) * (w as int) + (w as int) == (h as int) * (w as int) && (
            h as int) * (w as int) == (w as int) * (h as int)) by (nonlinear_arith)
                requires
                    0 <= (y as int) < (h as int),
                    0 < w,
            ;
        }
        while x < w
            invariant
                0 < w,
                0 < h,
                y < h,
                x <= w,
                4 * (w as int) * (h as int) <= usize::MAX as int,
                0 <= (y as int) * (w as int),
                (y as int) * (w as int) + (x as int) <= (h as int) * (w as int),
                ((h as int) - 1) * (w as int) + (w as int) == (h as int) * (w as int),
                (y as int) * (w as int) <= ((h as int) - 1) * (w as int),
                (h as int) * (w as int) == (w as int) * (h as int),
                out@.len() == 4 * ((y as int) * (w as int) + (x as int)),
                forall|j: int|
                    0 <= j < out@.len() ==> out@[j] == spec_gradient_frame(w as int, h as int)[j],
            decreases w - x,
        {
            let c = gradient_pixel(w, h, x, y);
            out.push(c.b);
            out.push(c.g);
            out.push(c.r);
            out.push(c.a);
            proof {
                let wi = w as int;
                let hi = h as int;
                let p = (y as int) * wi + (x as int);
                lemma_fundamental_div_mod_converse(p, wi, y as int, x as int);
                assert forall|k: int| 0 <= k < 4 implies spec_gradient_frame(wi, hi)[4 * p + k]
                    == argb_bytes(gradient_color(wi, hi, x as int, y as int))[k] by {
                    lemma_fundamental_div_mod_converse(4 * p + k, 4, p, k);
                    assert(p < hi * wi);
                    assert(4 * p + k < 4 * wi * hi && 4 * (wi * hi) == 4 * wi * hi)
                        by (nonlinear_arith)
                        requires
                            0 <= k < 4,
                            p < hi * wi,
                            hi * wi == wi * hi,
                    ;
                }
                assert(out@.len() == 4 * p + 4);
                assert(out@[4 * p] == c.b && out@[4 * p + 1] == c.g && out@[4 * p + 2] == c.r
                    && out@[4 * p + 3] == c.a);
                assert(argb_bytes(c)[0] == c.b && argb_bytes(c)[1] == c.g && argb_bytes(c)[2]
                    == c.r && argb_bytes(c)[3] == c.a);
                assert forall|j: int| 4 * p <= j < 4 * p + 4 implies out@[j]
                    == spec_gradient_frame(wi, hi)[j] by {
                    let k = j - 4 * p;
                    assert(spec_gradient_frame(wi, hi)[4 * p + k] == argb_bytes(
                        gradient_color(wi, hi, x as int, y as int))[k]);
                }
            }
            x = x + 1;
        }
        y = y + 1;
        proof {
            assert((((y as int) - 1) * (w as int) + (w as int)) == (y as int) * (w as int))
                by (nonlinear_arith);
        }
    }
    proof {
        assert(out@.len() == 4 * ((h as int) * (w as int)));
        assert(4 * ((h as int) * (w as int)) == 4 * (w as int) * (h as int)) by (nonlinear_arith);
        assert(out@ =~= spec_gradient_frame(w as int, h as int));
    }
    out
}

/// An RGBA byte buffer reordered into little-endian ARGB8888 (B, G, R, A).
pub open spec fn spec_swizzle(src: Seq<u8>) -> Seq<u8> {
    Seq::new(
        src.len(),
        |i: int|
            if i % 4 == 0 {
                src[i + 2]
            } else if i % 4 == 2 {
                src[i - 2]
            } else {
                src[i]
            },
    )
}

/// Copy a decoded RGBA image into the surface's native ARGB8888 byte order.
pub fn rgba_to_argb(src: &Vec<u8>) -> (out: Vec<u8>)
    requires
        src@.len() % 4 == 0,
    ensures
        out@ == spec_swizzle(src@),
{
    let n: usize = src.len();
    let mut out: Vec<u8> = Vec::new();
    let mut i: usize = 0;
    while i < n
        invariant
            i <= n,
            i % 4 == 0,
            n == src@.len(),
            n % 4 == 0,
            out@.len() == i,
            forall|j: int| 0 <= j < i ==> out@[j] == spec_swizzle(src@)[j],
        decreases n - i,
    {
        out.push(src[i + 2]);
        out.push(src[i + 1]);
        out.push(src[i]);
        out.push(src[i + 3]);
        i = i + 4;
    }
    proof {
        assert(out@ =~= spec_swizzle(src@));
    }
    out
}

} // verus!
