//! Drawing one frame into another, and the generators built on it.

use vstd::prelude::*;
use crate::frame::{PartImage, fits};
use crate::pixel::{PartPixel, spec_transparent};

pub mod scroll;
pub mod wigwag;

verus! {

/// The pixel at `(x, y)` once `src` has been drawn onto `below` with its
/// top-left corner at `(left, top)`: the source pixel where the source
/// covers `(x, y)`, the pixel below elsewhere.
pub open spec fn drawn(
    src: &PartImage,
    below: &PartImage,
    left: int,
    top: int,
    x: int,
    y: int,
) -> PartPixel {
    if src.holds(x - left, y - top) {
        src.at(x - left, y - top)
    } else {
        below.at(x, y)
    }
}

/// `after` is `before` with `src` drawn at `(left, top)`, clipped to the
/// bounds of `before`.
pub open spec fn is_drawn(
    after: &PartImage,
    src: &PartImage,
    before: &PartImage,
    left: int,
    top: int,
) -> bool {
    &&& after.spec_width() == before.spec_width()
    &&& after.spec_height() == before.spec_height()
    &&& after.shaped()
    &&& forall|x: int, y: int|
        before.holds(x, y) ==> (#[trigger] after.at(x, y)) == drawn(src, before, left, top, x, y)
}

/// The pixel at `(x, y)` of a transparent picture on which `src` has been
/// drawn with its top-left corner at `(left, top)`.
pub open spec fn view_pixel(src: &PartImage, left: int, top: int, x: int, y: int) -> PartPixel {
    if src.holds(x - left, y - top) {
        src.at(x - left, y - top)
    } else {
        spec_transparent()
    }
}

/// `frame` is a transparent `width` x `height` picture on which `src` has
/// been drawn with its top-left corner at `(left, top)`: covered pixels show
/// the source, all others are transparent, and what falls outside is dropped.
pub open spec fn is_view(
    frame: &PartImage,
    src: &PartImage,
    width: int,
    height: int,
    left: int,
    top: int,
) -> bool {
    &&& frame.spec_width() == width
    &&& frame.spec_height() == height
    &&& frame.shaped()
    &&& forall|x: int, y: int|
        frame.holds(x, y) ==> (#[trigger] frame.at(x, y)) == view_pixel(src, left, top, x, y)
}

/// A transparent `width` x `height` frame with `src` drawn at `(left, top)`.
pub fn view_of(src: &PartImage, width: u32, height: u32, left: i64, top: i64) -> (frame: PartImage)
    requires
        fits(width, height),
    ensures
        is_view(&frame, src, width as int, height as int, left as int, top as int),
{
    let mut frame = PartImage::new(width, height);
    blit_at(src, &mut frame, left, top);
    frame
}

/// What `blit_at` has drawn when it stands at source column `col`, row `row`.
spec fn drawn_so_far(
    src: &PartImage,
    below: &PartImage,
    left: int,
    top: int,
    col: int,
    row: int,
    x: int,
    y: int,
) -> PartPixel {
    let sx = x - left;
    let sy = y - top;
    if src.holds(sx, sy) && (sx < col || (sx == col && sy < row)) {
        src.at(sx, sy)
    } else {
        below.at(x, y)
    }
}

/// Copies `src` into `dest` with its top-left corner at `(dest_x, dest_y)`.
/// Source pixels that fall outside `dest` are dropped.
pub fn blit_at(src: &PartImage, dest: &mut PartImage, dest_x: i64, dest_y: i64)
    ensures
        is_drawn(final(dest), src, old(dest), dest_x as int, dest_y as int),
{
    let sw = src.width();
    let sh = src.height();
    let dw = dest.width();
    let dh = dest.height();
    let mut x: u32 = 0;
    while x < sw
        invariant
            x <= sw,
            sw == src.spec_width(),
            sh == src.spec_height(),
            dw == dest.spec_width(),
            dh == dest.spec_height(),
            dest.spec_width() == old(dest).spec_width(),
            dest.spec_height() == old(dest).spec_height(),
            dest.shaped(),
            forall|i: int, j: int|
                old(dest).holds(i, j) ==> (#[trigger] dest.at(i, j)) == drawn_so_far(
                    src,
                    old(dest),
                    dest_x as int,
                    dest_y as int,
                    x as int,
                    0,
                    i,
                    j,
                ),
        decreases sw - x,
    {
        let mut y: u32 = 0;
        while y < sh
            invariant
                x < sw,
                y <= sh,
                sw == src.spec_width(),
                sh == src.spec_height(),
                dw == dest.spec_width(),
                dh == dest.spec_height(),
                dest.spec_width() == old(dest).spec_width(),
                dest.spec_height() == old(dest).spec_height(),
                dest.shaped(),
                forall|i: int, j: int|
                    old(dest).holds(i, j) ==> (#[trigger] dest.at(i, j)) == drawn_so_far(
                        src,
                        old(dest),
                        dest_x as int,
                        dest_y as int,
                        x as int,
                        y as int,
                        i,
                        j,
                    ),
            decreases sh - y,
        {
            let px: i128 = x as i128 + dest_x as i128;
            let py: i128 = y as i128 + dest_y as i128;
            if px >= 0 && px < dw as i128 && py >= 0 && py < dh as i128 {
                let p = src.get_pixel(x, y);
                dest.put_pixel(px as u32, py as u32, p);
            }
            y = y + 1;
        }
        x = x + 1;
    }
}

/// Copies `src` into `dest` with its top-left corner at `(dest_x, dest_y)`.
/// Source pixels that fall outside `dest` are dropped.
pub fn blit(src: &PartImage, dest: &mut PartImage, dest_x: i32, dest_y: i32)
    ensures
        is_drawn(final(dest), src, old(dest), dest_x as int, dest_y as int),
{
    blit_at(src, dest, dest_x as i64, dest_y as i64)
}

} // verus!
