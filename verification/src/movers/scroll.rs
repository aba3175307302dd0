//! The scroll generator: a source picture that travels across a viewport and
//! starts over once it has left it.

use vstd::prelude::*;
use crate::frame::{PartImage, fits};
use crate::movers::{is_view, view_of};

verus! {

/// Where an axis starts: a source that moves towards smaller coordinates
/// starts just past the far edge of the viewport, any other at 0.
pub open spec fn start_origin(step: int, target: int) -> int {
    if step < 0 {
        target
    } else {
        0
    }
}

/// Whether an origin puts the whole source outside the viewport on one axis.
pub open spec fn out_of_view(origin: int, source: int, target: int) -> bool {
    origin <= -source || origin >= target
}

/// The origin one tick after `origin`: moved by `step`, or back at the start
/// where the move would put the source out of view.
pub open spec fn next_origin(origin: int, step: int, source: int, target: int) -> int {
    if out_of_view(origin + step, source, target) {
        start_origin(step, target)
    } else {
        origin + step
    }
}

/// The origin after `ticks` ticks.
pub open spec fn origin_after(ticks: nat, step: int, source: int, target: int) -> int
    decreases ticks,
{
    if ticks == 0 {
        start_origin(step, target)
    } else {
        next_origin(origin_after((ticks - 1) as nat, step, source, target), step, source, target)
    }
}

/// An origin that a generator can be at: the start, or a place where part
/// of the source is in view.
pub open spec fn in_cycle(origin: int, step: int, source: int, target: int) -> bool {
    origin == start_origin(step, target) || !out_of_view(origin, source, target)
}

/// An endless sequence of viewport-sized frames showing a source picture at a
/// moving origin.
pub struct ScrollIterator {
    image: PartImage,
    target_width: u32,
    target_height: u32,
    delta_x: i32,
    delta_y: i32,
    orig_x: i64,
    orig_y: i64,
}

impl ScrollIterator {
    /// The picture that scrolls.
    pub closed spec fn source(&self) -> PartImage {
        self.image
    }

    pub closed spec fn target_width(&self) -> u32 {
        self.target_width
    }

    pub closed spec fn target_height(&self) -> u32 {
        self.target_height
    }

    pub closed spec fn delta_x(&self) -> i32 {
        self.delta_x
    }

    pub closed spec fn delta_y(&self) -> i32 {
        self.delta_y
    }

    /// Where the next frame shows the left edge of the source.
    pub closed spec fn origin_x(&self) -> int {
        self.orig_x as int
    }

    /// Where the next frame shows the top edge of the source.
    pub closed spec fn origin_y(&self) -> int {
        self.orig_y as int
    }

    /// The viewport can be allocated and both origins are on their cycle.
    pub open spec fn wf(&self) -> bool {
        &&& fits(self.target_width(), self.target_height())
        &&& in_cycle(
            self.origin_x(),
            self.delta_x() as int,
            self.source().spec_width(),
            self.target_width() as int,
        )
        &&& in_cycle(
            self.origin_y(),
            self.delta_y() as int,
            self.source().spec_height(),
            self.target_height() as int,
        )
    }

    /// Same source, viewport and steps; only the origins may differ.
    pub open spec fn same_setup(&self, other: &ScrollIterator) -> bool {
        &&& self.source().same_as(&other.source())
        &&& self.target_width() == other.target_width()
        &&& self.target_height() == other.target_height()
        &&& self.delta_x() == other.delta_x()
        &&& self.delta_y() == other.delta_y()
    }

    /// A generator over `image` for a viewport of the given size, moving by
    /// `(delta_x, delta_y)` each tick, at its starting origins.
    pub fn new(
        image: PartImage,
        target_width: u32,
        target_height: u32,
        delta_x: i32,
        delta_y: i32,
    ) -> (s: ScrollIterator)
        requires
            fits(target_width, target_height),
        ensures
            s.wf(),
            s.source().same_as(&image),
            s.target_width() == target_width,
            s.target_height() == target_height,
            s.delta_x() == delta_x,
            s.delta_y() == delta_y,
            s.origin_x() == start_origin(delta_x as int, target_width as int),
            s.origin_y() == start_origin(delta_y as int, target_height as int),
    {
        let mut r = ScrollIterator {
            image,
            target_width,
            target_height,
            delta_x,
            delta_y,
            orig_x: 0,
            orig_y: 0,
        };
        let (orig_x, orig_y) = r.get_origin();
        r.orig_x = orig_x;
        r.orig_y = orig_y;
        r
    }

    /// Where the next frame shows the top-left corner of the source.
    pub fn origin(&self) -> (o: (i64, i64))
        ensures
            o.0 == self.origin_x(),
            o.1 == self.origin_y(),
    {
        (self.orig_x, self.orig_y)
    }

    /// The starting origins of both axes.
    pub fn get_origin(&self) -> (o: (i64, i64))
        ensures
            o.0 == start_origin(self.delta_x() as int, self.target_width() as int),
            o.1 == start_origin(self.delta_y() as int, self.target_height() as int),
    {
        let orig_x: i64 = if self.delta_x < 0 {
            self.target_width as i64
        } else {
            0
        };
        let orig_y: i64 = if self.delta_y < 0 {
            self.target_height as i64
        } else {
            0
        };
        (orig_x, orig_y)
    }

    /// The frame for this tick: the source drawn at the current origins on a
    /// transparent viewport. Then both origins take one step.
    pub fn next(&mut self) -> (frame: Option<PartImage>)
        requires
            old(self).wf(),
        ensures
            final(self).wf(),
            final(self).same_setup(old(self)),
            final(self).origin_x() == next_origin(
                old(self).origin_x(),
                old(self).delta_x() as int,
                old(self).source().spec_width(),
                old(self).target_width() as int,
            ),
            final(self).origin_y() == next_origin(
                old(self).origin_y(),
                old(self).delta_y() as int,
                old(self).source().spec_height(),
                old(self).target_height() as int,
            ),
            frame.is_some(),
            is_view(
                &frame.unwrap(),
                &old(self).source(),
                old(self).target_width() as int,
                old(self).target_height() as int,
                old(self).origin_x(),
                old(self).origin_y(),
            ),
    {
        let img = view_of(&self.image, self.target_width, self.target_height, self.orig_x, self.orig_y);
        let (nox, noy) = self.get_origin();
        let sw = self.image.width();
        let sh = self.image.height();
        let moved_x: i64 = self.orig_x + self.delta_x as i64;
        if moved_x <= -(sw as i64) || moved_x >= self.target_width as i64 {
            self.orig_x = nox;
        } else {
            self.orig_x = moved_x;
        }
        let moved_y: i64 = self.orig_y + self.delta_y as i64;
        if moved_y <= -(sh as i64) || moved_y >= self.target_height as i64 {
            self.orig_y = noy;
        } else {
            self.orig_y = moved_y;
        }
        Some(img)
    }
}

/// While a source that moves one pixel per tick towards smaller coordinates
/// is on its way, its origin has fallen by one for each tick.
proof fn lemma_backward_origin(ticks: nat, source: nat, target: nat)
    requires
        ticks < source + target,
    ensures
        origin_after(ticks, -1, source as int, target as int) == target - ticks,
    decreases ticks,
{
    if ticks > 0 {
        lemma_backward_origin((ticks - 1) as nat, source, target);
    }
}

/// Periodicity of a scroll by one pixel per tick towards smaller coordinates
/// (`step` is -1): with a source of extent `source` and a viewport of extent
/// `target`, the origin is back where it started after exactly
/// `target + source` ticks, and at no tick before.
pub proof fn scroll_period(step: int, source: nat, target: nat)
    requires
        step == -1,
    ensures
        origin_after(target + source, step, source as int, target as int) == start_origin(
            step,
            target as int,
        ),
        forall|ticks: nat|
            0 < ticks < target + source ==> #[trigger] origin_after(
                ticks,
                step,
                source as int,
                target as int,
            ) != start_origin(step, target as int),
{
    if target + source > 0 {
        lemma_backward_origin((target + source - 1) as nat, source, target);
    }
    assert forall|ticks: nat| 0 < ticks < target + source implies #[trigger] origin_after(
        ticks,
        step,
        source as int,
        target as int,
    ) != start_origin(step, target as int) by {
        lemma_backward_origin(ticks, source, target);
    }
}

/// While a source that moves one pixel per tick towards larger coordinates
/// is on its way, its origin has risen by one for each tick.
proof fn lemma_forward_origin(ticks: nat, source: nat, target: nat)
    requires
        ticks < target,
    ensures
        origin_after(ticks, 1, source as int, target as int) == ticks,
    decreases ticks,
{
    if ticks > 0 {
        lemma_forward_origin((ticks - 1) as nat, source, target);
    }
}

/// A scroll by one pixel per tick towards larger coordinates starts at 0 and
/// is back there after exactly `target` ticks, whatever the source's extent.
pub proof fn scroll_forward_period(source: nat, target: nat)
    requires
        target > 0,
    ensures
        origin_after(target, 1, source as int, target as int) == 0,
        forall|ticks: nat|
            0 < ticks < target ==> origin_after(ticks, 1, source as int, target as int) != 0,
{
    lemma_forward_origin((target - 1) as nat, source, target);
    assert forall|ticks: nat| 0 < ticks < target implies origin_after(
        ticks,
        1,
        source as int,
        target as int,
    ) != 0 by {
        lemma_forward_origin(ticks, source, target);
    }
}

/// A step of zero keeps the origin at 0 for good.
pub proof fn scroll_still(ticks: nat, source: nat, target: nat)
    ensures
        origin_after(ticks, 0, source as int, target as int) == 0,
    decreases ticks,
{
    if ticks > 0 {
        scroll_still((ticks - 1) as nat, source, target);
    }
}

/// Pictures that can be scrolled.
pub trait Scrollable {
    /// A scroll generator over a copy of this picture.
    fn scroll(&self, target_width: u32, target_height: u32, delta_x: i32, delta_y: i32) -> (s:
        ScrollIterator)
        requires
            fits(target_width, target_height),
        ensures
            s.wf(),
            s.target_width() == target_width,
            s.target_height() == target_height,
            s.delta_x() == delta_x,
            s.delta_y() == delta_y,
            s.origin_x() == start_origin(delta_x as int, target_width as int),
            s.origin_y() == start_origin(delta_y as int, target_height as int),
    ;
}

impl Scrollable for PartImage {
    fn scroll(&self, target_width: u32, target_height: u32, delta_x: i32, delta_y: i32) -> (s:
        ScrollIterator)
        ensures
            s.source().same_as(self),
    {
        ScrollIterator::new(self.copy(), target_width, target_height, delta_x, delta_y)
    }
}

} // verus!
