//! The RGBA color value and the alpha-over compositing rule.
//!
//! All color math lives here: higher-level blend operations reduce to
//! per-pixel invocations of [`Color::blend`]. Alpha values are conceptually
//! normalized to `[0, 1]` from the 8-bit channel; the arithmetic below works
//! on the common denominator `255 * 255` so that everything stays exact in
//! the integers, and results are re-quantized to 8 bits (the quantized
//! channel provably never exceeds 255, so the write-back cannot wrap).

use vstd::prelude::*;

verus! {

/// An RGBA8 value: red, green, blue, alpha. A plain value with no identity.
#[derive(Clone, Copy, Debug, PartialEq, Eq, Structural)]
pub struct Color(pub u8, pub u8, pub u8, pub u8);

/// The distinguished fully-transparent color: the universal fill value for
/// new and cleared buffers.
pub open spec fn clear_color() -> Color {
    Color(0, 0, 0, 0)
}

/// Common denominator of the blended alpha: `alpha_out * 255 * 255`, where
/// `ab` is the base (bottom) alpha channel and `aa` the incoming (top) one.
pub open spec fn blend_den(ab: int, aa: int) -> int {
    255 * aa + ab * (255 - aa)
}

/// The blended 8-bit alpha channel: `a_in + a_base * (1 - a_in)`, re-quantized.
pub open spec fn blend_alpha(ab: int, aa: int) -> int {
    blend_den(ab, aa) / 255
}

/// One blended 8-bit color channel:
/// `(c_in * a_in + c_base * a_base * (1 - a_in)) / alpha_out`,
/// or 0 when the blended alpha is 0.
pub open spec fn blend_channel(cb: int, ab: int, ca: int, aa: int) -> int {
    if blend_den(ab, aa) == 0 {
        0
    } else {
        (ca * aa * 255 + cb * ab * (255 - aa)) / blend_den(ab, aa)
    }
}

/// The full alpha-over composite of `over` on top of `base`.
pub open spec fn blend_spec(base: Color, over: Color) -> Color {
    Color(
        blend_channel(base.0 as int, base.3 as int, over.0 as int, over.3 as int) as u8,
        blend_channel(base.1 as int, base.3 as int, over.1 as int, over.3 as int) as u8,
        blend_channel(base.2 as int, base.3 as int, over.2 as int, over.3 as int) as u8,
        blend_alpha(base.3 as int, over.3 as int) as u8,
    )
}

/// The blended alpha channel always fits in 8 bits.
pub proof fn lemma_blend_alpha_bounds(ab: int, aa: int)
    requires
        0 <= ab <= 255,
        0 <= aa <= 255,
    ensures
        0 <= blend_alpha(ab, aa) <= 255,
        0 <= blend_den(ab, aa) <= 255 * 255,
{
    assert(0 <= blend_den(ab, aa) <= 255 * 255) by (nonlinear_arith)
        requires
            0 <= ab <= 255,
            0 <= aa <= 255,
    ;
    assert(0 <= blend_den(ab, aa) / 255 <= 255) by (nonlinear_arith)
        requires
            0 <= blend_den(ab, aa) <= 255 * 255,
    ;
}

/// Each blended color channel always fits in 8 bits.
pub proof fn lemma_blend_channel_bounds(cb: int, ab: int, ca: int, aa: int)
    requires
        0 <= cb <= 255,
        0 <= ab <= 255,
        0 <= ca <= 255,
        0 <= aa <= 255,
    ensures
        0 <= blend_channel(cb, ab, ca, aa) <= 255,
{
    if blend_den(ab, aa) != 0 {
        assert(0 <= ca * aa * 255 + cb * ab * (255 - aa) <= 255 * blend_den(ab, aa))
            by (nonlinear_arith)
            requires
                0 <= cb <= 255,
                0 <= ab <= 255,
                0 <= ca <= 255,
                0 <= aa <= 255,
        ;
        assert(blend_den(ab, aa) > 0) by (nonlinear_arith)
            requires
                0 <= ab <= 255,
                0 <= aa <= 255,
                blend_den(ab, aa) != 0,
        ;
        assert(0 <= (ca * aa * 255 + cb * ab * (255 - aa)) / blend_den(ab, aa) <= 255)
            by (nonlinear_arith)
            requires
                blend_den(ab, aa) > 0,
                0 <= ca * aa * 255 + cb * ab * (255 - aa) <= 255 * blend_den(ab, aa),
        ;
    }
}

/// A product of two bounded non-negative factors stays under the product of
/// the bounds.
pub proof fn lemma_mul_bounds(x: int, y: int, bx: int, by: int)
    requires
        0 <= x <= bx,
        0 <= y <= by,
    ensures
        0 <= x * y <= bx * by,
{
    assert(0 <= x * y <= bx * by) by (nonlinear_arith)
        requires
            0 <= x <= bx,
            0 <= y <= by,
    ;
}

impl Color {
    /// The fully transparent color `(0, 0, 0, 0)`.
    pub fn clear() -> (c: Color)
        ensures
            c == clear_color(),
    {
        Color(0, 0, 0, 0)
    }

    /// Composites `color` *over* `self` with the standard alpha-over rule and
    /// stores the result, each channel re-quantized to 8 bits.
    pub fn blend(&mut self, color: Color)
        ensures
            *final(self) == blend_spec(*old(self), color),
    {
        let aa: u32 = color.3 as u32;
        let ab: u32 = self.3 as u32;
        proof {
            lemma_blend_alpha_bounds(ab as int, aa as int);
            lemma_mul_bounds(ab as int, 255 - aa as int, 255, 255);
        }
        let den: u32 = 255 * aa + ab * (255 - aa);
        if den == 0 {
            self.0 = 0;
            self.1 = 0;
            self.2 = 0;
            self.3 = 0;
        } else {
            proof {
                lemma_blend_channel_bounds(self.0 as int, ab as int, color.0 as int, aa as int);
                lemma_blend_channel_bounds(self.1 as int, ab as int, color.1 as int, aa as int);
                lemma_blend_channel_bounds(self.2 as int, ab as int, color.2 as int, aa as int);
                lemma_mul_bounds(color.0 as int, aa as int, 255, 255);
                lemma_mul_bounds(color.1 as int, aa as int, 255, 255);
                lemma_mul_bounds(color.2 as int, aa as int, 255, 255);
                lemma_mul_bounds(self.0 as int, ab as int, 255, 255);
                lemma_mul_bounds(self.1 as int, ab as int, 255, 255);
                lemma_mul_bounds(self.2 as int, ab as int, 255, 255);
                lemma_mul_bounds(self.0 as int * ab as int, 255 - aa as int, 255int * 255, 255);
                lemma_mul_bounds(self.1 as int * ab as int, 255 - aa as int, 255int * 255, 255);
                lemma_mul_bounds(self.2 as int * ab as int, 255 - aa as int, 255int * 255, 255);
            }
            let r: u32 = ((color.0 as u32) * aa * 255 + (self.0 as u32) * ab * (255 - aa)) / den;
            let g: u32 = ((color.1 as u32) * aa * 255 + (self.1 as u32) * ab * (255 - aa)) / den;
            let b: u32 = ((color.2 as u32) * aa * 255 + (self.2 as u32) * ab * (255 - aa)) / den;
            let a: u32 = den / 255;
            self.0 = r as u8;
            self.1 = g as u8;
            self.2 = b as u8;
            self.3 = a as u8;
        }
    }
}

/// Blend idempotence of full opacity: compositing a fully opaque color over
/// any base yields exactly the incoming color.
pub proof fn lemma_blend_opaque_wins(base: Color, over: Color)
    requires
        over.3 == 255,
    ensures
        blend_spec(base, over) == over,
{
    let ab = base.3 as int;
    assert(blend_den(ab, 255) == 255 * 255) by (nonlinear_arith)
        requires
            0 <= ab <= 255,
    ;
    lemma_opaque_channel(base.0 as int, ab, over.0 as int);
    lemma_opaque_channel(base.1 as int, ab, over.1 as int);
    lemma_opaque_channel(base.2 as int, ab, over.2 as int);
    assert(blend_alpha(ab, 255) == 255) by (nonlinear_arith)
        requires
            blend_den(ab, 255) == 255 * 255,
    ;
}

proof fn lemma_opaque_channel(cb: int, ab: int, ca: int)
    requires
        0 <= cb <= 255,
        0 <= ab <= 255,
        0 <= ca <= 255,
    ensures
        blend_channel(cb, ab, ca, 255) == ca,
{
    assert(blend_den(ab, 255) == 255 * 255) by (nonlinear_arith)
        requires
            0 <= ab <= 255,
    ;
    assert((ca * 255 * 255 + cb * ab * (255 - 255)) / (255int * 255) == ca) by (nonlinear_arith)
        requires
            0 <= ca <= 255,
    ;
}

/// Blend with zero alpha is a no-op: compositing a fully transparent color
/// over a base leaves the base unchanged. The one family of bases this rule
/// cannot cover is an invisible-but-tinted value (alpha 0 with a nonzero
/// color channel): there the blended alpha is 0 and every channel quantizes
/// to 0, so the tint is lost.
pub proof fn lemma_blend_transparent_noop(base: Color, over: Color)
    requires
        over.3 == 0,
        base.3 > 0 || (base.0 == 0 && base.1 == 0 && base.2 == 0),
    ensures
        blend_spec(base, over) == base,
{
    let ab = base.3 as int;
    assert(blend_den(ab, 0) == ab * 255) by (nonlinear_arith);
    if base.3 == 0 {
        assert(blend_den(ab, 0) == 0) by (nonlinear_arith)
            requires
                ab == 0,
        ;
    } else {
        assert(blend_den(ab, 0) > 0) by (nonlinear_arith)
            requires
                ab > 0,
        ;
        lemma_transparent_channel(base.0 as int, ab, over.0 as int);
        lemma_transparent_channel(base.1 as int, ab, over.1 as int);
        lemma_transparent_channel(base.2 as int, ab, over.2 as int);
        assert(blend_alpha(ab, 0) == ab) by (nonlinear_arith)
            requires
                0 <= ab <= 255,
                blend_den(ab, 0) == ab * 255,
        ;
    }
}

proof fn lemma_transparent_channel(cb: int, ab: int, ca: int)
    requires
        0 <= cb <= 255,
        0 < ab <= 255,
        0 <= ca <= 255,
    ensures
        blend_channel(cb, ab, ca, 0) == cb,
{
    assert(blend_den(ab, 0) == ab * 255 && ab * 255 > 0) by (nonlinear_arith)
        requires
            0 < ab <= 255,
    ;
    assert((ca * 0 * 255 + cb * ab * (255 - 0)) / (ab * 255) == cb) by (nonlinear_arith)
        requires
            0 <= cb <= 255,
            0 < ab <= 255,
    ;
}

} // verus!

