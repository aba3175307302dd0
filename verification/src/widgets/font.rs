//! Text set in a bitmap font: glyphs side by side, every dot a block of
//! pixels.

use vstd::prelude::*;
use vstd::arithmetic::mul::{lemma_mul_inequality, lemma_mul_is_distributive_add_other_way};
use crate::frame::{PartImage, fill, fits, can_hold};
use crate::pixel::PartPixel;

verus! {

/// One glyph of a bitmap font: the size of its box and the dots that are
/// set, each by column and row within the box.
#[derive(Clone, Debug)]
pub struct BitmapGlyph {
    pub width: u32,
    pub height: u32,
    pub dots: Vec<(u32, u32)>,
}

/// The width of the first `count` glyphs side by side, in dots.
pub open spec fn line_width(glyphs: Seq<BitmapGlyph>, count: int) -> int
    decreases count,
{
    if count <= 0 {
        0
    } else {
        line_width(glyphs, count - 1) + glyphs[count - 1].width
    }
}

/// The height of the highest of the first `count` glyphs, in dots.
pub open spec fn line_height(glyphs: Seq<BitmapGlyph>, count: int) -> int
    decreases count,
{
    if count <= 0 {
        0
    } else if glyphs[count - 1].height > line_height(glyphs, count - 1) {
        glyphs[count - 1].height as int
    } else {
        line_height(glyphs, count - 1)
    }
}

/// Whether the pixel `(x, y)` lies in the block that stands for the dot in
/// column `col` and row `row`, each dot being `scale_x` pixels wide and
/// `scale_y` pixels high.
pub open spec fn in_block(col: int, row: int, scale_x: int, scale_y: int, x: int, y: int) -> bool {
    col * scale_x <= x < col * scale_x + scale_x && row * scale_y <= y < row * scale_y + scale_y
}

/// Whether one of the first `count` dots of `glyph`, whose box begins
/// `left` dots from the left edge, lights the pixel `(x, y)`. A dot outside
/// the box of its glyph lights nothing.
pub open spec fn glyph_lights(
    glyph: BitmapGlyph,
    count: int,
    left: int,
    scale_x: int,
    scale_y: int,
    x: int,
    y: int,
) -> bool
    decreases count,
{
    if count <= 0 {
        false
    } else {
        let dot = glyph.dots@[count - 1];
        ||| (dot.0 < glyph.width && dot.1 < glyph.height && in_block(
            left + dot.0,
            dot.1 as int,
            scale_x,
            scale_y,
            x,
            y,
        ))
        ||| glyph_lights(glyph, count - 1, left, scale_x, scale_y, x, y)
    }
}

/// Whether one of the first `count` glyphs, set side by side from the left
/// edge, lights the pixel `(x, y)`.
pub open spec fn text_lights(
    glyphs: Seq<BitmapGlyph>,
    count: int,
    scale_x: int,
    scale_y: int,
    x: int,
    y: int,
) -> bool
    decreases count,
{
    if count <= 0 {
        false
    } else {
        ||| glyph_lights(
            glyphs[count - 1],
            glyphs[count - 1].dots@.len() as int,
            line_width(glyphs, count - 1),
            scale_x,
            scale_y,
            x,
            y,
        )
        ||| text_lights(glyphs, count - 1, scale_x, scale_y, x, y)
    }
}

/// Whether the picture of `glyphs` at this scale can be allocated.
pub open spec fn text_fits(glyphs: Seq<BitmapGlyph>, scale_x: u32, scale_y: u32) -> bool {
    let width = line_width(glyphs, glyphs.len() as int) * scale_x;
    let height = line_height(glyphs, glyphs.len() as int) * scale_y;
    width <= u32::MAX && height <= u32::MAX && fits(width as u32, height as u32)
}

/// More glyphs are at least as wide.
pub proof fn lemma_line_width_grows(glyphs: Seq<BitmapGlyph>, fewer: int, more: int)
    requires
        fewer <= more,
    ensures
        line_width(glyphs, fewer) <= line_width(glyphs, more),
        0 <= line_width(glyphs, fewer),
    decreases more - fewer, more,
{
    if fewer < more {
        lemma_line_width_grows(glyphs, fewer, more - 1);
    } else if fewer > 0 {
        lemma_line_width_grows(glyphs, fewer - 1, fewer - 1);
    }
}

/// More glyphs are at least as high, and none is higher than the line.
pub proof fn lemma_line_height_grows(glyphs: Seq<BitmapGlyph>, fewer: int, more: int)
    requires
        fewer <= more,
    ensures
        line_height(glyphs, fewer) <= line_height(glyphs, more),
        0 <= line_height(glyphs, fewer),
        fewer > 0 ==> glyphs[fewer - 1].height <= line_height(glyphs, more),
    decreases more - fewer, more,
{
    if fewer < more {
        lemma_line_height_grows(glyphs, fewer, more - 1);
    } else if fewer > 0 {
        lemma_line_height_grows(glyphs, fewer - 1, fewer - 1);
    }
}

/// Paints the block of pixels whose top-left corner is `(left, top)` and
/// which is `width` pixels wide and `height` pixels high.
pub fn fill_block(img: &mut PartImage, left: u32, top: u32, width: u32, height: u32, color: PartPixel)
    requires
        left + width <= old(img).spec_width(),
        top + height <= old(img).spec_height(),
    ensures
        final(img).spec_width() == old(img).spec_width(),
        final(img).spec_height() == old(img).spec_height(),
        final(img).shaped(),
        forall|x: int, y: int|
            old(img).holds(x, y) ==> (#[trigger] final(img).at(x, y)) == if left <= x < left + width
                && top <= y < top + height {
                color
            } else {
                old(img).at(x, y)
            },
{
    let _ = img.width();
    let _ = img.height();
    let mut a: u32 = 0;
    while a < width
        invariant
            a <= width,
            img.spec_height() <= u32::MAX,
            left + width <= img.spec_width(),
            top + height <= img.spec_height(),
            img.spec_width() == old(img).spec_width(),
            img.spec_height() == old(img).spec_height(),
            img.shaped(),
            forall|x: int, y: int|
                old(img).holds(x, y) ==> (#[trigger] img.at(x, y)) == if left <= x < left + a && top
                    <= y < top + height {
                    color
                } else {
                    old(img).at(x, y)
                },
        decreases width - a,
    {
        let mut b: u32 = 0;
        while b < height
            invariant
                a < width,
                b <= height,
                img.spec_height() <= u32::MAX,
                left + width <= img.spec_width(),
                top + height <= img.spec_height(),
                img.spec_width() == old(img).spec_width(),
                img.spec_height() == old(img).spec_height(),
                img.shaped(),
                forall|x: int, y: int|
                    old(img).holds(x, y) ==> (#[trigger] img.at(x, y)) == if top <= y < top + height
                        && (left <= x < left + a || (x == left + a && y < top + b)) {
                        color
                    } else {
                        old(img).at(x, y)
                    },
            decreases height - b,
        {
            img.put_pixel(left + a, top + b, color);
            b = b + 1;
        }
        a = a + 1;
    }
}

/// The block of the dot in column `col` and row `row` lies within a picture
/// that is `columns` dots wide and `rows` dots high.
proof fn lemma_block_inside(col: int, row: int, columns: int, rows: int, scale_x: int, scale_y: int)
    requires
        0 <= col < columns,
        0 <= row < rows,
        0 <= scale_x,
        0 <= scale_y,
    ensures
        0 <= col * scale_x,
        col * scale_x + scale_x <= columns * scale_x,
        0 <= row * scale_y,
        row * scale_y + scale_y <= rows * scale_y,
{
    lemma_mul_inequality(col + 1, columns, scale_x);
    lemma_mul_is_distributive_add_other_way(scale_x, col, 1);
    lemma_mul_inequality(row + 1, rows, scale_y);
    lemma_mul_is_distributive_add_other_way(scale_y, row, 1);
    lemma_mul_inequality(0, col, scale_x);
    lemma_mul_inequality(0, row, scale_y);
}

/// Paints the dots of `glyph`, whose box begins `left` dots from the left
/// edge of the picture.
pub fn paint_glyph(
    img: &mut PartImage,
    glyph: &BitmapGlyph,
    left: u32,
    scale_x: u32,
    scale_y: u32,
    color: PartPixel,
)
    requires
        (left + glyph.width) * scale_x <= old(img).spec_width(),
        glyph.height * scale_y <= old(img).spec_height(),
    ensures
        final(img).spec_width() == old(img).spec_width(),
        final(img).spec_height() == old(img).spec_height(),
        final(img).shaped(),
        forall|x: int, y: int|
            old(img).holds(x, y) ==> (#[trigger] final(img).at(x, y)) == if glyph_lights(
                *glyph,
                glyph.dots@.len() as int,
                left as int,
                scale_x as int,
                scale_y as int,
                x,
                y,
            ) {
                color
            } else {
                old(img).at(x, y)
            },
{
    let _ = img.width();
    let _ = img.height();
    let mut d: usize = 0;
    while d < glyph.dots.len()
        invariant
            d <= glyph.dots.len(),
            (left + glyph.width) * scale_x <= img.spec_width(),
            glyph.height * scale_y <= img.spec_height(),
            img.spec_width() == old(img).spec_width(),
            img.spec_height() == old(img).spec_height(),
            img.spec_width() <= u32::MAX,
            img.spec_height() <= u32::MAX,
            img.shaped(),
            forall|x: int, y: int|
                old(img).holds(x, y) ==> (#[trigger] img.at(x, y)) == if glyph_lights(
                    *glyph,
                    d as int,
                    left as int,
                    scale_x as int,
                    scale_y as int,
                    x,
                    y,
                ) {
                    color
                } else {
                    old(img).at(x, y)
                },
        decreases glyph.dots.len() - d,
    {
        let dot = glyph.dots[d];
        if dot.0 < glyph.width && dot.1 < glyph.height {
            proof {
                lemma_block_inside(
                    left + dot.0,
                    dot.1 as int,
                    left + glyph.width,
                    glyph.height as int,
                    scale_x as int,
                    scale_y as int,
                );
            }
            let col: u64 = left as u64 + dot.0 as u64;
            let block_left: u64 = col * (scale_x as u64);
            let block_top: u64 = (dot.1 as u64) * (scale_y as u64);
            fill_block(img, block_left as u32, block_top as u32, scale_x, scale_y, color);
        }
        d = d + 1;
    }
}

/// The picture of `glyphs` set side by side: every dot of a glyph is a
/// block of `scale_x` x `scale_y` pixels in `color`, on a ground of
/// `background`. The picture is as wide as all glyphs together and as high
/// as the highest of them. There is none where it could not be allocated.
pub fn draw_bitmap_text(
    glyphs: &Vec<BitmapGlyph>,
    color: PartPixel,
    background: PartPixel,
    scale_x: u32,
    scale_y: u32,
) -> (out: Option<PartImage>)
    ensures
        out.is_some() <==> text_fits(glyphs@, scale_x, scale_y),
        out.is_some() ==> {
            let img = out.unwrap();
            &&& img.spec_width() == line_width(glyphs@, glyphs@.len() as int) * scale_x
            &&& img.spec_height() == line_height(glyphs@, glyphs@.len() as int) * scale_y
            &&& img.shaped()
            &&& forall|x: int, y: int|
                img.holds(x, y) ==> (#[trigger] img.at(x, y)) == if text_lights(
                    glyphs@,
                    glyphs@.len() as int,
                    scale_x as int,
                    scale_y as int,
                    x,
                    y,
                ) {
                    color
                } else {
                    background
                }
        },
{
    let mut width: u128 = 0;
    let mut height: u32 = 0;
    let mut k: usize = 0;
    while k < glyphs.len()
        invariant
            k <= glyphs.len(),
            width == line_width(glyphs@, k as int),
            height == line_height(glyphs@, k as int),
            width <= k * 0x1_0000_0000,
        decreases glyphs.len() - k,
    {
        width = width + glyphs[k].width as u128;
        if glyphs[k].height > height {
            height = glyphs[k].height;
        }
        k = k + 1;
    }
    if scale_x > 0 && width > u32::MAX as u128 {
        proof {
            lemma_mul_inequality(1, scale_x as int, width as int);
            assert(width * scale_x == scale_x * width) by (nonlinear_arith);
        }
        return None;
    }
    let full_width: u64 = if scale_x == 0 {
        assert(width * scale_x == 0) by (nonlinear_arith)
            requires
                scale_x == 0,
        ;
        0
    } else {
        assert(width * scale_x <= 0xFFFF_FFFF * 0xFFFF_FFFF) by (nonlinear_arith)
            requires
                0 <= width <= 0xFFFF_FFFF,
                0 <= scale_x <= 0xFFFF_FFFF,
        ;
        (width as u64) * (scale_x as u64)
    };
    assert(height * scale_y <= 0xFFFF_FFFF * 0xFFFF_FFFF) by (nonlinear_arith)
        requires
            0 <= height <= 0xFFFF_FFFF,
            0 <= scale_y <= 0xFFFF_FFFF,
    ;
    let full_height: u64 = (height as u64) * (scale_y as u64);
    if full_width > u32::MAX as u64 || full_height > u32::MAX as u64 || !can_hold(
        full_width as u32,
        full_height as u32,
    ) {
        return None;
    }
    let mut img = PartImage::new(full_width as u32, full_height as u32);
    fill(&mut img, background);
    if scale_x == 0 || scale_y == 0 {
        assert(height * scale_y == 0 || width * scale_x == 0) by (nonlinear_arith)
            requires
                scale_x == 0 || scale_y == 0,
        ;
        return Some(img);
    }
    let mut left: u32 = 0;
    let mut k: usize = 0;
    while k < glyphs.len()
        invariant
            k <= glyphs.len(),
            left == line_width(glyphs@, k as int),
            width <= u32::MAX,
            width == line_width(glyphs@, glyphs@.len() as int),
            height == line_height(glyphs@, glyphs@.len() as int),
            img.spec_width() == width * scale_x,
            img.spec_height() == height * scale_y,
            img.shaped(),
            forall|x: int, y: int|
                img.holds(x, y) ==> (#[trigger] img.at(x, y)) == if text_lights(
                    glyphs@,
                    k as int,
                    scale_x as int,
                    scale_y as int,
                    x,
                    y,
                ) {
                    color
                } else {
                    background
                },
        decreases glyphs.len() - k,
    {
        proof {
            lemma_line_width_grows(glyphs@, k as int + 1, glyphs@.len() as int);
            lemma_line_height_grows(glyphs@, k as int + 1, glyphs@.len() as int);
            lemma_mul_inequality(left + glyphs@[k as int].width, width as int, scale_x as int);
            lemma_mul_inequality(glyphs@[k as int].height as int, height as int, scale_y as int);
        }
        paint_glyph(&mut img, &glyphs[k], left, scale_x, scale_y, color);
        left = left + glyphs[k].width;
        k = k + 1;
    }
    Some(img)
}

} // verus!
