//! The compositor: one cell per widget, flattened on demand into a canvas.

use vstd::prelude::*;
use crate::frame::canvas::ScreenImage;
use crate::frame::{PartImage, fill, fits};
use crate::pixel::{PartPixel, ScreenPixel, over, opaque, blend, black, spec_black};
use crate::widgets::WidgetConf;
use crate::widgets::message::{Dispatch, NeoClockMessage, cells_after, msg_handler, routed};

verus! {

/// A sink for finished pixels: a panel, a window, anything that can be told
/// to show a colour at a place.
///
/// Nothing here verifies the sinks themselves. Whoever implements this trait
/// owes what `set_pixel` promises: that the sink takes note of what it is
/// told, place by place.
pub trait Drawable {
    /// The colour this sink was last told to show at `(x, y)`; none where it
    /// has not been told any.
    spec fn told(&self, x: u32, y: u32) -> Option<ScreenPixel>;

    /// Tells the sink to show the colour `(r, g, b)` at `(x, y)`. What it was
    /// told for every other place stays.
    fn set_pixel(&mut self, x: u32, y: u32, r: u8, g: u8, b: u8)
        ensures
            forall|i: u32, j: u32|
                #[trigger] final(self).told(i, j) == if i == x && j == y {
                    Some(ScreenPixel { r, g, b })
                } else {
                    old(self).told(i, j)
                },
    ;
}

/// The cell a widget shares with the compositor: where it stands, whether it
/// is shown, and its current frame.
pub struct PartContent {
    pub x: u32,
    pub y: u32,
    pub visible: bool,
    pub image: Option<PartImage>,
}

impl PartContent {
    /// Whether the compositor draws this widget at all.
    pub open spec fn shown(&self) -> bool {
        self.visible && self.image.is_some()
    }

    /// Whether the widget's frame covers the canvas pixel `(cx, cy)`.
    pub open spec fn covers(&self, cx: int, cy: int) -> bool {
        self.shown() && self.image.unwrap().holds(cx - self.x, cy - self.y)
    }

    /// The frame pixel that lies on the canvas pixel `(cx, cy)`.
    pub open spec fn pixel_on(&self, cx: int, cy: int) -> PartPixel {
        self.image.unwrap().at(cx - self.x, cy - self.y)
    }

    /// Same place, same visibility, same frame.
    pub open spec fn same_as(&self, other: &PartContent) -> bool {
        &&& self.x == other.x
        &&& self.y == other.y
        &&& self.visible == other.visible
        &&& self.image.is_some() == other.image.is_some()
        &&& self.image.is_some() ==> self.image.unwrap().same_as(&other.image.unwrap())
    }

    /// The cell of a widget that has not produced a frame yet. It is visible
    /// unless the configuration says otherwise.
    pub fn new(x: u32, y: u32, visible: Option<bool>) -> (part: PartContent)
        ensures
            part.x == x,
            part.y == y,
            part.visible == (visible != Some(false)),
            part.image.is_none(),
    {
        let visible = match visible {
            Some(v) => v,
            None => true,
        };
        PartContent { x, y, visible, image: None }
    }

    /// A copy of the cell as it is now.
    pub fn snapshot(&self) -> (copy: PartContent)
        ensures
            copy.same_as(self),
    {
        let image = match &self.image {
            Some(img) => Some(img.copy()),
            None => None,
        };
        PartContent { x: self.x, y: self.y, visible: self.visible, image }
    }
}

/// The canvas pixel `(cx, cy)` after `part` has been painted over `below`.
pub open spec fn painted(below: PartPixel, part: &PartContent, cx: int, cy: int) -> PartPixel {
    if part.covers(cx, cy) {
        over(below, part.pixel_on(cx, cy))
    } else {
        below
    }
}

/// The canvas pixel `(cx, cy)` after the first `count` widgets have been
/// painted, in order, over the black background.
pub open spec fn composed(parts: Seq<PartContent>, count: int, cx: int, cy: int) -> PartPixel
    decreases count,
{
    if count <= 0 {
        spec_black()
    } else {
        painted(composed(parts, count - 1, cx, cy), &parts[count - 1], cx, cy)
    }
}

/// What `blend_part` has painted when it stands at frame column `col`, row
/// `row`.
spec fn painted_so_far(
    below: PartPixel,
    part: &PartContent,
    col: int,
    row: int,
    cx: int,
    cy: int,
) -> PartPixel {
    let fx = cx - part.x;
    let fy = cy - part.y;
    if part.covers(cx, cy) && (fx < col || (fx == col && fy < row)) {
        over(below, part.pixel_on(cx, cy))
    } else {
        below
    }
}

/// Paints one widget onto the canvas: where it is shown and its frame covers
/// a canvas pixel, the frame pixel is blended over what was there. Frame
/// pixels that fall outside the canvas are dropped.
pub fn blend_part(screen: &mut PartImage, part: &PartContent)
    ensures
        final(screen).spec_width() == old(screen).spec_width(),
        final(screen).spec_height() == old(screen).spec_height(),
        final(screen).shaped(),
        forall|cx: int, cy: int|
            old(screen).holds(cx, cy) ==> (#[trigger] final(screen).at(cx, cy)) == painted(
                old(screen).at(cx, cy),
                part,
                cx,
                cy,
            ),
{
    let width = screen.width();
    let height = screen.height();
    if !part.visible {
        return ;
    }
    match &part.image {
        None => {},
        Some(img) => {
            let iw = img.width();
            let ih = img.height();
            let x = part.x;
            let y = part.y;
            let mut px: u32 = 0;
            while px < iw
                invariant
                    px <= iw,
                    part.shown(),
                    part.image == Some(*img),
                    x == part.x,
                    y == part.y,
                    iw == img.spec_width(),
                    ih == img.spec_height(),
                    width == screen.spec_width(),
                    height == screen.spec_height(),
                    screen.spec_width() == old(screen).spec_width(),
                    screen.spec_height() == old(screen).spec_height(),
                    screen.shaped(),
                    forall|cx: int, cy: int|
                        old(screen).holds(cx, cy) ==> (#[trigger] screen.at(cx, cy)) == painted_so_far(
                            old(screen).at(cx, cy),
                            part,
                            px as int,
                            0,
                            cx,
                            cy,
                        ),
                decreases iw - px,
            {
                let mut py: u32 = 0;
                while py < ih
                    invariant
                        px < iw,
                        py <= ih,
                        part.shown(),
                        part.image == Some(*img),
                        x == part.x,
                        y == part.y,
                        iw == img.spec_width(),
                        ih == img.spec_height(),
                        width == screen.spec_width(),
                        height == screen.spec_height(),
                        screen.spec_width() == old(screen).spec_width(),
                        screen.spec_height() == old(screen).spec_height(),
                        screen.shaped(),
                        forall|cx: int, cy: int|
                            old(screen).holds(cx, cy) ==> (#[trigger] screen.at(cx, cy)) == painted_so_far(
                                old(screen).at(cx, cy),
                                part,
                                px as int,
                                py as int,
                                cx,
                                cy,
                            ),
                    decreases ih - py,
                {
                    let cx: u64 = px as u64 + x as u64;
                    let cy: u64 = py as u64 + y as u64;
                    if cx < width as u64 && cy < height as u64 {
                        let below = screen.get_pixel(cx as u32, cy as u32);
                        let above = img.get_pixel(px, py);
                        screen.put_pixel(cx as u32, cy as u32, blend(below, above));
                    }
                    py = py + 1;
                }
                px = px + 1;
            }
        },
    }
}

/// `canvas` shows `parts` painted in order over a black background of
/// `width` x `height` pixels.
pub open spec fn is_composed(
    canvas: &ScreenImage,
    width: u32,
    height: u32,
    parts: Seq<PartContent>,
) -> bool {
    &&& canvas.spec_width() == width
    &&& canvas.spec_height() == height
    &&& forall|x: int, y: int|
        canvas.holds(x, y) ==> (#[trigger] canvas.at(x, y)) == opaque(
            composed(parts, parts.len() as int, x, y),
        )
}

/// Flattens the cells into a canvas: a black background on which every
/// widget that is visible and has a frame is blended, the later over the
/// earlier, at its place. What lies outside the canvas is dropped.
pub fn compose(width: u32, height: u32, parts: &Vec<PartContent>) -> (canvas: ScreenImage)
    requires
        fits(width, height),
    ensures
        is_composed(&canvas, width, height, parts@),
{
    let mut screen = PartImage::new(width, height);
    fill(&mut screen, black());
    let mut k: usize = 0;
    while k < parts.len()
        invariant
            k <= parts.len(),
            screen.spec_width() == width,
            screen.spec_height() == height,
            screen.shaped(),
            forall|x: int, y: int|
                screen.holds(x, y) ==> (#[trigger] screen.at(x, y)) == composed(parts@, k as int, x, y),
        decreases parts.len() - k,
    {
        blend_part(&mut screen, &parts[k]);
        k = k + 1;
    }
    ScreenImage::from_frame(&screen)
}

/// The compositor: the size of the canvas and one cell per widget, in the
/// order of the configuration.
pub struct Screen {
    pub width: u32,
    pub height: u32,
    pub parts: Vec<PartContent>,
}

impl Screen {
    /// The cells of the widgets, in order.
    pub open spec fn parts(&self) -> Seq<PartContent> {
        self.parts@
    }

    /// A screen with one cell per configured widget. Each cell stands where
    /// its widget is configured, is visible unless configured otherwise, and
    /// has no frame yet.
    pub fn new(width: u32, height: u32, widgets: &Vec<WidgetConf>) -> (screen: Screen)
        ensures
            screen.width == width,
            screen.height == height,
            screen.parts().len() == widgets@.len(),
            forall|i: int|
                0 <= i < widgets@.len() ==> {
                    let part = #[trigger] screen.parts()[i];
                    &&& part.x == widgets@[i].x
                    &&& part.y == widgets@[i].y
                    &&& part.visible == (widgets@[i].visible != Some(false))
                    &&& part.image.is_none()
                },
    {
        let mut children: Vec<PartContent> = Vec::with_capacity(widgets.len());
        let mut idx: usize = 0;
        while idx < widgets.len()
            invariant
                idx <= widgets.len(),
                children@.len() == idx,
                forall|i: int|
                    0 <= i < idx ==> {
                        let part = #[trigger] children@[i];
                        &&& part.x == widgets@[i].x
                        &&& part.y == widgets@[i].y
                        &&& part.visible == (widgets@[i].visible != Some(false))
                        &&& part.image.is_none()
                    },
            decreases widgets.len() - idx,
        {
            let w = &widgets[idx];
            children.push(PartContent::new(w.x, w.y, w.visible));
            idx = idx + 1;
        }
        Screen { width, height, parts: children }
    }

    /// The number of widgets.
    pub fn len(&self) -> (n: usize)
        ensures
            n == self.parts().len(),
    {
        self.parts.len()
    }

    /// The cell of widget `idx`.
    pub fn part(&self, idx: usize) -> (part: Option<&PartContent>)
        ensures
            part.is_some() <==> idx < self.parts().len(),
            part.is_some() ==> *part.unwrap() == self.parts()[idx as int],
    {
        if idx < self.parts.len() {
            Some(&self.parts[idx])
        } else {
            None
        }
    }

    /// Replaces the frame of widget `idx`, as its worker does on every tick.
    /// No other cell changes, nor the place and visibility of this one; an
    /// index that names no widget changes nothing.
    pub fn publish(&mut self, idx: usize, image: Option<PartImage>)
        ensures
            final(self).width == old(self).width,
            final(self).height == old(self).height,
            idx >= old(self).parts().len() ==> final(self).parts() == old(self).parts(),
            idx < old(self).parts().len() ==> final(self).parts() == old(self).parts().update(
                idx as int,
                PartContent { image, ..old(self).parts()[idx as int] },
            ),
    {
        if idx < self.parts.len() {
            self.parts[idx].image = image;
        }
    }

    /// Handles one control message: see `msg_handler`.
    pub fn control(&mut self, msg: NeoClockMessage) -> (d: Dispatch)
        ensures
            final(self).width == old(self).width,
            final(self).height == old(self).height,
            d == routed(msg, old(self).parts().len() as int),
            final(self).parts() == cells_after(old(self).parts(), msg),
    {
        msg_handler(&mut self.parts, msg)
    }

    /// The canvas as it is now: see `compose`.
    pub fn render(&self) -> (canvas: ScreenImage)
        requires
            fits(self.width, self.height),
        ensures
            is_composed(&canvas, self.width, self.height, self.parts()),
    {
        compose(self.width, self.height, &self.parts)
    }

    /// Renders, and hands every pixel of the canvas to `target`, column by
    /// column. Afterwards the sink has been told, for every place of the
    /// canvas, the colour that the cells compose there; what it was told for
    /// places outside the canvas stays.
    pub fn render_to<T: Drawable>(&self, target: &mut T)
        requires
            fits(self.width, self.height),
        ensures
            forall|x: u32, y: u32|
                #[trigger] final(target).told(x, y) == if x < self.width && y < self.height {
                    Some(
                        opaque(
                            composed(self.parts(), self.parts().len() as int, x as int, y as int),
                        ),
                    )
                } else {
                    old(target).told(x, y)
                },
    {
        let image = self.render();
        let w = image.width();
        let h = image.height();
        let mut x: u32 = 0;
        while x < w
            invariant
                x <= w,
                w == image.spec_width(),
                h == image.spec_height(),
                forall|i: u32, j: u32|
                    #[trigger] target.told(i, j) == if i < x && j < h {
                        Some(image.at(i as int, j as int))
                    } else {
                        old(target).told(i, j)
                    },
            decreases w - x,
        {
            let mut y: u32 = 0;
            while y < h
                invariant
                    x < w,
                    y <= h,
                    w == image.spec_width(),
                    h == image.spec_height(),
                    forall|i: u32, j: u32|
                        #[trigger] target.told(i, j) == if j < h && (i < x || (i == x && j < y)) {
                            Some(image.at(i as int, j as int))
                        } else {
                            old(target).told(i, j)
                        },
                decreases h - y,
            {
                let pixel = image.get_pixel(x, y);
                target.set_pixel(x, y, pixel.r, pixel.g, pixel.b);
                y = y + 1;
            }
            x = x + 1;
        }
    }
}

/// A canvas composed of cells of which none is shown, be it hidden or
/// without a frame, is black everywhere.
pub proof fn blank_canvas(canvas: &ScreenImage, width: u32, height: u32, parts: Seq<PartContent>)
    requires
        is_composed(canvas, width, height, parts),
        forall|i: int| 0 <= i < parts.len() ==> !(#[trigger] parts[i]).shown(),
    ensures
        forall|x: int, y: int|
            canvas.holds(x, y) ==> (#[trigger] canvas.at(x, y)) == opaque(spec_black()),
{
    assert forall|x: int, y: int| canvas.holds(x, y) implies (#[trigger] canvas.at(x, y))
        == opaque(spec_black()) by {
        nothing_shown_is_background(parts, parts.len() as int, x, y);
    }
}

/// With no widget shown, the canvas is the background.
pub proof fn nothing_shown_is_background(parts: Seq<PartContent>, count: int, cx: int, cy: int)
    requires
        forall|i: int| 0 <= i < parts.len() ==> !(#[trigger] parts[i]).shown(),
        count <= parts.len(),
    ensures
        composed(parts, count, cx, cy) == spec_black(),
    decreases count,
{
    if count > 0 {
        nothing_shown_is_background(parts, count - 1, cx, cy);
    }
}

/// A pixel that no widget covers shows the background.
pub proof fn uncovered_is_background(parts: Seq<PartContent>, count: int, cx: int, cy: int)
    requires
        forall|i: int| 0 <= i < parts.len() ==> !(#[trigger] parts[i]).covers(cx, cy),
        count <= parts.len(),
    ensures
        composed(parts, count, cx, cy) == spec_black(),
    decreases count,
{
    if count > 0 {
        uncovered_is_background(parts, count - 1, cx, cy);
    }
}

/// A pixel whose topmost covering frame pixel is opaque shows that pixel:
/// widget `top` covers `(cx, cy)` with an opaque pixel and no later widget
/// covers it.
pub proof fn opaque_on_top_wins(parts: Seq<PartContent>, top: int, count: int, cx: int, cy: int)
    requires
        0 <= top < count <= parts.len(),
        parts[top].covers(cx, cy),
        parts[top].pixel_on(cx, cy).a == 255,
        forall|i: int| top < i < parts.len() ==> !(#[trigger] parts[i]).covers(cx, cy),
    ensures
        composed(parts, count, cx, cy) == parts[top].pixel_on(cx, cy),
    decreases count,
{
    if count - 1 > top {
        opaque_on_top_wins(parts, top, count - 1, cx, cy);
    }
}

/// A widget paints only where its frame lies: a canvas pixel that the frame
/// of widget `count - 1` does not cover is what it was without that widget.
pub proof fn painting_is_clipped(parts: Seq<PartContent>, count: int, cx: int, cy: int)
    requires
        0 < count <= parts.len(),
        !parts[count - 1].covers(cx, cy),
    ensures
        composed(parts, count, cx, cy) == composed(parts, count - 1, cx, cy),
{
}

} // verus!
