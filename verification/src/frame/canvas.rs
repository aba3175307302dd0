//! The compositor's output: opaque RGB pixels, kept in an
//! `image::ImageBuffer`.

use vstd::prelude::*;
use crate::frame::{PartImage, frame_rows, frame_width};
use crate::pixel::PartPixel;
use crate::pixel::{ScreenPixel, opaque};

verus! {

/// A canvas: a width x height buffer of opaque RGB pixels. It is an
/// `image::ImageBuffer` of `Rgb<u8>` over a `Vec<u8>`, which stays closed to
/// the verifier: what is known of a canvas is what `canvas_width` and
/// `canvas_rows` say of it.
#[verifier::external_body]
pub struct ScreenImage {
    inner: image::ImageBuffer<image::Rgb<u8>, Vec<u8>>,
}

/// The pixels of a canvas, one sequence per row from top to bottom, each row
/// from left to right.
pub uninterp spec fn canvas_rows(img: &ScreenImage) -> Seq<Seq<ScreenPixel>>;

/// What `ImageBuffer::width` returns for a canvas.
pub uninterp spec fn canvas_width(img: &ScreenImage) -> u32;

/// The rows of a frame without their alpha.
pub open spec fn opaque_rows(rows: Seq<Seq<PartPixel>>) -> Seq<Seq<ScreenPixel>> {
    Seq::new(rows.len(), |y: int| Seq::new(rows[y].len(), |x: int| opaque(rows[y][x])))
}

/// Calls `ConvertBuffer::convert` from RGBA to RGB, which makes a buffer of
/// the same size and copies red, green and blue of every pixel.
#[verifier::external_body]
pub(crate) fn buffer_convert(img: &PartImage) -> (canvas: ScreenImage)
    ensures
        canvas_width(&canvas) == frame_width(img),
        canvas_rows(&canvas) == opaque_rows(frame_rows(img)),
{
    ScreenImage { inner: image::buffer::ConvertBuffer::convert(&img.inner) }
}

/// Calls `ImageBuffer::width`. Every row of the canvas holds that many
/// pixels.
#[verifier::external_body]
pub(crate) fn canvas_buffer_width(img: &ScreenImage) -> (w: u32)
    ensures
        w == canvas_width(img),
        forall|y: int|
            0 <= y < canvas_rows(img).len() ==> (#[trigger] canvas_rows(img)[y]).len() == w,
{
    img.inner.width()
}

/// Calls `ImageBuffer::height`. The canvas holds that many rows.
#[verifier::external_body]
pub(crate) fn canvas_buffer_height(img: &ScreenImage) -> (h: u32)
    ensures
        h == canvas_rows(img).len(),
{
    img.inner.height()
}

/// Calls `ImageBuffer::get_pixel`, which panics out of bounds, and copies the
/// three channels out.
#[verifier::external_body]
pub(crate) fn canvas_buffer_get(img: &ScreenImage, x: u32, y: u32) -> (p: ScreenPixel)
    requires
        x < canvas_width(img),
        y < canvas_rows(img).len(),
    ensures
        p == canvas_rows(img)[y as int][x as int],
{
    let q = img.inner.get_pixel(x, y);
    ScreenPixel { r: q.0[0], g: q.0[1], b: q.0[2] }
}

impl ScreenImage {
    /// The width in pixels.
    pub open spec fn spec_width(&self) -> int {
        canvas_width(self) as int
    }

    /// The height in pixels.
    pub open spec fn spec_height(&self) -> int {
        canvas_rows(self).len() as int
    }

    /// The pixel in column `x` of row `y`.
    #[verifier::inline]
    pub open spec fn at(&self, x: int, y: int) -> ScreenPixel {
        canvas_rows(self)[y][x]
    }

    /// Whether `(x, y)` names a pixel of this canvas.
    pub open spec fn holds(&self, x: int, y: int) -> bool {
        0 <= x < self.spec_width() && 0 <= y < self.spec_height()
    }

    /// `frame` flattened: same size, and each pixel without its alpha.
    pub open spec fn flattens(&self, frame: &PartImage) -> bool {
        &&& self.spec_width() == frame.spec_width()
        &&& self.spec_height() == frame.spec_height()
        &&& forall|x: int, y: int|
            self.holds(x, y) ==> (#[trigger] self.at(x, y)) == opaque(frame.at(x, y))
    }

    /// The canvas that shows `frame` without its alpha channel.
    pub fn from_frame(frame: &PartImage) -> (canvas: ScreenImage)
        ensures
            canvas.flattens(frame),
    {
        let _ = frame.width();
        buffer_convert(frame)
    }

    /// The width in pixels.
    pub fn width(&self) -> (w: u32)
        ensures
            w == self.spec_width(),
    {
        canvas_buffer_width(self)
    }

    /// The height in pixels.
    pub fn height(&self) -> (h: u32)
        ensures
            h == self.spec_height(),
    {
        canvas_buffer_height(self)
    }

    /// The pixel at `(x, y)`.
    pub fn get_pixel(&self, x: u32, y: u32) -> (p: ScreenPixel)
        requires
            self.holds(x as int, y as int),
        ensures
            p == self.at(x as int, y as int),
    {
        canvas_buffer_get(self, x, y)
    }
}

} // verus!
