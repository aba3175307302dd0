//! Straight-alpha RGBA colours and the "over" operator.

use vstd::prelude::*;

verus! {

/// One straight-alpha RGBA colour.
#[derive(Clone, Copy, Debug, PartialEq, Eq, Structural)]
pub struct PartPixel {
    pub r: u8,
    pub g: u8,
    pub b: u8,
    pub a: u8,
}

/// One opaque RGB colour, as the canvas holds it.
#[derive(Clone, Copy, Debug, PartialEq, Eq, Structural)]
pub struct ScreenPixel {
    pub r: u8,
    pub g: u8,
    pub b: u8,
}

pub open spec fn spec_transparent() -> PartPixel {
    PartPixel { r: 0, g: 0, b: 0, a: 0 }
}

pub open spec fn spec_black() -> PartPixel {
    PartPixel { r: 0, g: 0, b: 0, a: 255 }
}

/// The colour of a pixel nothing was drawn on.
#[verifier::when_used_as_spec(spec_transparent)]
pub fn transparent() -> (p: PartPixel)
    ensures
        p == spec_transparent(),
{
    PartPixel { r: 0, g: 0, b: 0, a: 0 }
}

/// The canvas background.
#[verifier::when_used_as_spec(spec_black)]
pub fn black() -> (p: PartPixel)
    ensures
        p == spec_black(),
{
    PartPixel { r: 0, g: 0, b: 0, a: 255 }
}

pub fn white() -> (p: PartPixel)
    ensures
        p == (PartPixel { r: 255, g: 255, b: 255, a: 255 }),
{
    PartPixel { r: 255, g: 255, b: 255, a: 255 }
}

pub fn red() -> (p: PartPixel)
    ensures
        p == (PartPixel { r: 255, g: 0, b: 0, a: 255 }),
{
    PartPixel { r: 255, g: 0, b: 0, a: 255 }
}

pub fn green() -> (p: PartPixel)
    ensures
        p == (PartPixel { r: 0, g: 255, b: 0, a: 255 }),
{
    PartPixel { r: 0, g: 255, b: 0, a: 255 }
}

pub fn blue() -> (p: PartPixel)
    ensures
        p == (PartPixel { r: 0, g: 0, b: 255, a: 255 }),
{
    PartPixel { r: 0, g: 0, b: 255, a: 255 }
}

pub fn half_white() -> (p: PartPixel)
    ensures
        p == (PartPixel { r: 255, g: 255, b: 255, a: 128 }),
{
    PartPixel { r: 255, g: 255, b: 255, a: 128 }
}

pub fn half_yellow() -> (p: PartPixel)
    ensures
        p == (PartPixel { r: 255, g: 255, b: 0, a: 128 }),
{
    PartPixel { r: 255, g: 255, b: 0, a: 128 }
}

/// What `image::Pixel::blend` leaves in an RGBA destination when the source
/// is neither fully transparent nor fully opaque.
pub uninterp spec fn blended(dst: PartPixel, src: PartPixel) -> PartPixel;

/// `src` composited over `dst`: a fully transparent source leaves the
/// destination as it is, a fully opaque source replaces it, and anything in
/// between is mixed.
pub open spec fn over(dst: PartPixel, src: PartPixel) -> PartPixel {
    if src.a == 0 {
        dst
    } else if src.a == 255 {
        src
    } else {
        blended(dst, src)
    }
}

/// The colour channels of a pixel, without its alpha.
pub open spec fn opaque(p: PartPixel) -> ScreenPixel {
    ScreenPixel { r: p.r, g: p.g, b: p.b }
}

/// Calls `image::Pixel::blend` for `image::Rgba<u8>`, with `dst` as the
/// receiver. Claimed of it: the result depends on the two pixels alone; a
/// source with alpha 0 returns the destination unchanged and a source with
/// alpha 255 returns the source, which are the two early returns of that
/// function.
#[verifier::external_body]
pub(crate) fn blend(dst: PartPixel, src: PartPixel) -> (out: PartPixel)
    ensures
        out == over(dst, src),
        src.a != 0 && src.a != 255 ==> out == blended(dst, src),
{
    let mut d = image::Rgba([dst.r, dst.g, dst.b, dst.a]);
    let s = image::Rgba([src.r, src.g, src.b, src.a]);
    image::Pixel::blend(&mut d, &s);
    PartPixel { r: d.0[0], g: d.0[1], b: d.0[2], a: d.0[3] }
}

} // verus!
