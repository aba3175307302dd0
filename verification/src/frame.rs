//! RGBA frames, kept in an `image::ImageBuffer`.
//!
//! A frame is described by two things: how wide it is, and its rows of pixels.
//! Everything the rest of the library proves about pictures is stated over
//! those two.

use vstd::prelude::*;
use crate::pixel::{PartPixel, transparent, spec_transparent};

pub mod canvas;

verus! {

/// A frame: a width x height buffer of straight-alpha RGBA pixels. It is an
/// `image::ImageBuffer` of `Rgba<u8>` over a `Vec<u8>`, which stays closed to
/// the verifier: what is known of a frame is what `frame_width` and
/// `frame_rows` say of it.
#[verifier::external_body]
pub struct PartImage {
    inner: image::ImageBuffer<image::Rgba<u8>, Vec<u8>>,
}

/// The pixels of a frame, one sequence per row from top to bottom, each row
/// from left to right.
pub uninterp spec fn frame_rows(img: &PartImage) -> Seq<Seq<PartPixel>>;

/// What `ImageBuffer::width` returns for a frame.
pub uninterp spec fn frame_width(img: &PartImage) -> u32;

/// The largest number of bytes one buffer may hold.
pub open spec fn max_bytes() -> int {
    isize::MAX as int
}

/// Whether a width x height RGBA buffer can be allocated at all: the bytes
/// of one row can be counted, and those of all rows are no more than a
/// buffer may hold.
pub open spec fn fits(width: u32, height: u32) -> bool {
    4 * width <= usize::MAX && 4 * (width * height) <= max_bytes()
}

/// A buffer that is no higher than one that can be allocated can be
/// allocated too.
pub proof fn lemma_fits_lower(width: u32, lower: u32, height: u32)
    requires
        fits(width, height),
        lower <= height,
    ensures
        fits(width, lower),
{
    assert(width * lower <= width * height) by (nonlinear_arith)
        requires
            0 <= lower <= height,
            0 <= width,
    ;
}

/// Whether a width x height RGBA buffer can be allocated at all.
pub fn can_hold(width: u32, height: u32) -> (ok: bool)
    ensures
        ok == fits(width, height),
{
    let w = width as u64;
    let h = height as u64;
    assert(w * h <= 0xFFFF_FFFF * 0xFFFF_FFFF) by (nonlinear_arith)
        requires
            w <= 0xFFFF_FFFF,
            h <= 0xFFFF_FFFF,
    ;
    let area: u64 = w * h;
    assert(area == width * height);
    4 * w <= usize::MAX as u64 && area <= (isize::MAX as u64) / 4
}

/// Calls `ImageBuffer::new`, which panics when the byte length overflows;
/// the allocation of more than `isize::MAX` bytes is left out too. The new
/// buffer is filled with zeros, so every pixel is transparent.
#[verifier::external_body]
pub(crate) fn buffer_new(width: u32, height: u32) -> (img: PartImage)
    requires
        fits(width, height),
    ensures
        frame_width(&img) == width,
        frame_rows(&img) == Seq::new(
            height as nat,
            |y: int| Seq::new(width as nat, |x: int| spec_transparent()),
        ),
{
    PartImage { inner: image::ImageBuffer::new(width, height) }
}

/// Calls `ImageBuffer::width`. Every row of the frame holds that many pixels.
#[verifier::external_body]
pub(crate) fn buffer_width(img: &PartImage) -> (w: u32)
    ensures
        w == frame_width(img),
        forall|y: int|
            0 <= y < frame_rows(img).len() ==> (#[trigger] frame_rows(img)[y]).len() == w,
{
    img.inner.width()
}

/// Calls `ImageBuffer::height`. The frame holds that many rows.
#[verifier::external_body]
pub(crate) fn buffer_height(img: &PartImage) -> (h: u32)
    ensures
        h == frame_rows(img).len(),
{
    img.inner.height()
}

/// Calls `ImageBuffer::get_pixel`, which panics out of bounds, and copies the
/// four channels out.
#[verifier::external_body]
pub(crate) fn buffer_get(img: &PartImage, x: u32, y: u32) -> (p: PartPixel)
    requires
        x < frame_width(img),
        y < frame_rows(img).len(),
    ensures
        p == frame_rows(img)[y as int][x as int],
{
    let q = img.inner.get_pixel(x, y);
    PartPixel { r: q.0[0], g: q.0[1], b: q.0[2], a: q.0[3] }
}

/// Calls `ImageBuffer::put_pixel`, which panics out of bounds. One pixel
/// changes; the size and every other pixel stay.
#[verifier::external_body]
pub(crate) fn buffer_put(img: &mut PartImage, x: u32, y: u32, p: PartPixel)
    requires
        x < frame_width(old(img)),
        y < frame_rows(old(img)).len(),
    ensures
        frame_width(final(img)) == frame_width(old(img)),
        frame_rows(final(img)) == frame_rows(old(img)).update(
            y as int,
            frame_rows(old(img))[y as int].update(x as int, p),
        ),
{
    img.inner.put_pixel(x, y, image::Rgba([p.r, p.g, p.b, p.a]));
}

/// Calls `Clone::clone` of `ImageBuffer`, which copies size and data.
#[verifier::external_body]
pub(crate) fn buffer_clone(img: &PartImage) -> (copy: PartImage)
    ensures
        frame_width(&copy) == frame_width(img),
        frame_rows(&copy) == frame_rows(img),
{
    PartImage { inner: img.inner.clone() }
}

/// Whether `len` bytes are enough for a width x height RGBA buffer.
pub open spec fn enough(width: u32, height: u32, len: nat) -> bool {
    4 * width <= usize::MAX && 4 * width * height <= len
}

/// The pixel that four consecutive bytes of raw RGBA data stand for.
pub open spec fn raw_pixel(data: Seq<u8>, at: int) -> PartPixel {
    PartPixel { r: data[at], g: data[at + 1], b: data[at + 2], a: data[at + 3] }
}

/// The rows that row-major raw RGBA data stand for.
pub open spec fn raw_rows(width: u32, height: u32, data: Seq<u8>) -> Seq<Seq<PartPixel>> {
    Seq::new(
        height as nat,
        |y: int| Seq::new(width as nat, |x: int| raw_pixel(data, 4 * (y * width + x))),
    )
}

/// Calls `ImageBuffer::from_raw`, which accepts the data exactly when the
/// bytes of one row can be counted and the data holds at least four bytes
/// for each of the width x height pixels, and reads them row by row.
#[verifier::external_body]
pub(crate) fn buffer_from_raw(width: u32, height: u32, data: Vec<u8>) -> (img: Option<PartImage>)
    ensures
        img.is_some() <==> enough(width, height, data@.len()),
        img.is_some() ==> frame_width(&img.unwrap()) == width,
        img.is_some() ==> frame_rows(&img.unwrap()) == raw_rows(width, height, data@),
{
    match image::ImageBuffer::from_raw(width, height, data) {
        Some(inner) => Some(PartImage { inner }),
        None => None,
    }
}

impl PartImage {
    /// The width in pixels.
    pub open spec fn spec_width(&self) -> int {
        frame_width(self) as int
    }

    /// The height in pixels.
    pub open spec fn spec_height(&self) -> int {
        frame_rows(self).len() as int
    }

    /// The pixel in column `x` of row `y`.
    #[verifier::inline]
    pub open spec fn at(&self, x: int, y: int) -> PartPixel {
        frame_rows(self)[y][x]
    }

    /// Whether `(x, y)` names a pixel of this frame.
    pub open spec fn holds(&self, x: int, y: int) -> bool {
        0 <= x < self.spec_width() && 0 <= y < self.spec_height()
    }

    /// Every row is as long as the frame is wide.
    pub open spec fn shaped(&self) -> bool {
        forall|y: int|
            0 <= y < frame_rows(self).len() ==> (#[trigger] frame_rows(self)[y]).len()
                == frame_width(self)
    }

    /// Same size and same pixels.
    pub open spec fn same_as(&self, other: &PartImage) -> bool {
        frame_width(self) == frame_width(other) && frame_rows(self) == frame_rows(other)
    }

    /// Every pixel has the colour `color`.
    pub open spec fn is_solid(&self, color: PartPixel) -> bool {
        forall|x: int, y: int| self.holds(x, y) ==> (#[trigger] self.at(x, y)) == color
    }

    /// A transparent frame of the given size.
    pub fn new(width: u32, height: u32) -> (img: PartImage)
        requires
            fits(width, height),
        ensures
            img.spec_width() == width,
            img.spec_height() == height,
            img.shaped(),
            img.is_solid(transparent()),
    {
        buffer_new(width, height)
    }

    /// A frame over raw row-major RGBA bytes; `None` when there are fewer
    /// than four bytes per pixel, or a row is too long to count its bytes.
    pub fn from_raw(width: u32, height: u32, data: Vec<u8>) -> (img: Option<PartImage>)
        ensures
            img.is_some() <==> enough(width, height, data@.len()),
            img.is_some() ==> {
                let f = img.unwrap();
                &&& f.spec_width() == width
                &&& f.spec_height() == height
                &&& f.shaped()
                &&& forall|x: int, y: int|
                    f.holds(x, y) ==> (#[trigger] f.at(x, y)) == raw_pixel(data@, 4 * (y * width + x))
            },
    {
        buffer_from_raw(width, height, data)
    }

    /// The width in pixels.
    pub fn width(&self) -> (w: u32)
        ensures
            w == self.spec_width(),
            self.shaped(),
    {
        buffer_width(self)
    }

    /// The height in pixels.
    pub fn height(&self) -> (h: u32)
        ensures
            h == self.spec_height(),
    {
        buffer_height(self)
    }

    /// The pixel at `(x, y)`.
    pub fn get_pixel(&self, x: u32, y: u32) -> (p: PartPixel)
        requires
            self.holds(x as int, y as int),
        ensures
            p == self.at(x as int, y as int),
    {
        buffer_get(self, x, y)
    }

    /// Sets the pixel at `(x, y)` and nothing else.
    pub fn put_pixel(&mut self, x: u32, y: u32, p: PartPixel)
        requires
            old(self).holds(x as int, y as int),
        ensures
            final(self).spec_width() == old(self).spec_width(),
            final(self).spec_height() == old(self).spec_height(),
            final(self).shaped(),
            forall|i: int, j: int|
                old(self).holds(i, j) ==> (#[trigger] final(self).at(i, j)) == if i == x && j == y {
                    p
                } else {
                    old(self).at(i, j)
                },
    {
        let _ = buffer_width(self);
        buffer_put(self, x, y, p);
    }

    /// A copy with the same size and pixels.
    pub fn copy(&self) -> (img: PartImage)
        ensures
            img.same_as(self),
    {
        buffer_clone(self)
    }
}

/// Sets every pixel of `image` to `color`.
pub fn fill(image: &mut PartImage, color: PartPixel)
    ensures
        final(image).spec_width() == old(image).spec_width(),
        final(image).spec_height() == old(image).spec_height(),
        final(image).shaped(),
        final(image).is_solid(color),
{
    let w = image.width();
    let h = image.height();
    let mut x: u32 = 0;
    while x < w
        invariant
            x <= w,
            w == image.spec_width(),
            h == image.spec_height(),
            image.spec_width() == old(image).spec_width(),
            image.spec_height() == old(image).spec_height(),
            image.shaped(),
            forall|i: int, j: int|
                image.holds(i, j) && i < x ==> (#[trigger] image.at(i, j)) == color,
        decreases w - x,
    {
        let mut y: u32 = 0;
        while y < h
            invariant
                x < w,
                y <= h,
                w == image.spec_width(),
                h == image.spec_height(),
                image.spec_width() == old(image).spec_width(),
                image.spec_height() == old(image).spec_height(),
                image.shaped(),
                forall|i: int, j: int|
                    image.holds(i, j) && (i < x || (i == x && j < y)) ==> (#[trigger] image.at(
                        i,
                        j,
                    )) == color,
            decreases h - y,
        {
            image.put_pixel(x, y, color);
            y = y + 1;
        }
        x = x + 1;
    }
}

} // verus!
