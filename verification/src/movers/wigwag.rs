//! The wigwag generator: a source picture that swings between the two
//! positions where it is flush with one edge of the viewport.

use vstd::prelude::*;
use crate::frame::{PartImage, fits};
use crate::movers::{is_view, view_of};

verus! {

/// The smallest offset on one axis.
pub open spec fn lower_bound(source: int, target: int) -> int {
    if target - source < 0 {
        target - source
    } else {
        0
    }
}

/// The largest offset on one axis.
pub open spec fn upper_bound(source: int, target: int) -> int {
    if target - source > 0 {
        target - source
    } else {
        0
    }
}

/// Whether an offset lies within the bounds of its axis.
pub open spec fn in_bounds(offset: int, source: int, target: int) -> bool {
    lower_bound(source, target) <= offset <= upper_bound(source, target)
}

/// The step an axis starts with: towards smaller offsets where the source is
/// longer than the viewport, towards larger ones where it is shorter, none
/// where they are equal.
pub open spec fn first_step(source: int, target: int) -> int {
    if source > target {
        -1
    } else if source < target {
        1
    } else {
        0
    }
}

/// Whether the axis turns round on this tick: it does exactly when one more
/// step in the current direction would leave the bounds.
pub open spec fn turns(offset: int, step: int, source: int, target: int) -> bool {
    !in_bounds(offset + step, source, target)
}

/// The step after this tick.
pub open spec fn next_step(offset: int, step: int, source: int, target: int) -> int {
    if turns(offset, step, source, target) {
        -step
    } else {
        step
    }
}

/// The offset after this tick: the turn, if there is one, is taken before
/// the move.
pub open spec fn next_offset(offset: int, step: int, source: int, target: int) -> int {
    offset + next_step(offset, step, source, target)
}

/// An offset and a step that a generator can be at.
pub open spec fn swinging(offset: int, step: int, source: int, target: int) -> bool {
    &&& in_bounds(offset, source, target)
    &&& step == 0 || ((step == 1 || step == -1) && source != target)
}

/// Offset and step of one axis after `ticks` ticks.
pub open spec fn swing_after(ticks: nat, source: int, target: int) -> (int, int)
    decreases ticks,
{
    if ticks == 0 {
        (0, first_step(source, target))
    } else {
        let before = swing_after((ticks - 1) as nat, source, target);
        (
            next_offset(before.0, before.1, source, target),
            next_step(before.0, before.1, source, target),
        )
    }
}

/// An endless sequence of viewport-sized frames showing a source picture
/// that swings to and fro.
pub struct WigwagIterator {
    image: PartImage,
    target_width: u32,
    target_height: u32,
    delta_x: i32,
    delta_y: i32,
    current_x: i64,
    current_y: i64,
    min_x: i64,
    max_x: i64,
    min_y: i64,
    max_y: i64,
}

impl WigwagIterator {
    /// The picture that swings.
    pub closed spec fn source(&self) -> PartImage {
        self.image
    }

    pub closed spec fn target_width(&self) -> u32 {
        self.target_width
    }

    pub closed spec fn target_height(&self) -> u32 {
        self.target_height
    }

    /// The horizontal step of the next move.
    pub closed spec fn delta_x(&self) -> int {
        self.delta_x as int
    }

    /// The vertical step of the next move.
    pub closed spec fn delta_y(&self) -> int {
        self.delta_y as int
    }

    /// Where the next frame shows the left edge of the source.
    pub closed spec fn offset_x(&self) -> int {
        self.current_x as int
    }

    /// Where the next frame shows the top edge of the source.
    pub closed spec fn offset_y(&self) -> int {
        self.current_y as int
    }

    /// The stored bounds are those of the source and the viewport.
    pub closed spec fn bounds_kept(&self) -> bool {
        &&& self.image.spec_height() <= u32::MAX
        &&& self.min_x == lower_bound(self.image.spec_width(), self.target_width as int)
        &&& self.max_x == upper_bound(self.image.spec_width(), self.target_width as int)
        &&& self.min_y == lower_bound(self.image.spec_height(), self.target_height as int)
        &&& self.max_y == upper_bound(self.image.spec_height(), self.target_height as int)
    }

    /// The viewport can be allocated, and on both axes the offset is within
    /// its bounds and the step is one the axis can take.
    pub open spec fn wf(&self) -> bool {
        &&& fits(self.target_width(), self.target_height())
        &&& self.bounds_kept()
        &&& swinging(
            self.offset_x(),
            self.delta_x(),
            self.source().spec_width(),
            self.target_width() as int,
        )
        &&& swinging(
            self.offset_y(),
            self.delta_y(),
            self.source().spec_height(),
            self.target_height() as int,
        )
    }

    /// Same source and viewport; only offsets and steps may differ.
    pub open spec fn same_setup(&self, other: &WigwagIterator) -> bool {
        &&& self.source().same_as(&other.source())
        &&& self.target_width() == other.target_width()
        &&& self.target_height() == other.target_height()
    }

    /// A generator over `image` for a viewport of the given size, at offset
    /// `(0, 0)` and with the first step of each axis.
    pub fn new(image: PartImage, target_width: u32, target_height: u32) -> (w: WigwagIterator)
        requires
            fits(target_width, target_height),
        ensures
            w.wf(),
            w.source().same_as(&image),
            w.target_width() == target_width,
            w.target_height() == target_height,
            w.offset_x() == 0,
            w.offset_y() == 0,
            w.delta_x() == first_step(image.spec_width(), target_width as int),
            w.delta_y() == first_step(image.spec_height(), target_height as int),
    {
        let iw = image.width();
        let ih = image.height();
        let room_x: i64 = target_width as i64 - iw as i64;
        let room_y: i64 = target_height as i64 - ih as i64;
        let min_x: i64 = if room_x < 0 { room_x } else { 0 };
        let max_x: i64 = if room_x > 0 { room_x } else { 0 };
        let min_y: i64 = if room_y < 0 { room_y } else { 0 };
        let max_y: i64 = if room_y > 0 { room_y } else { 0 };
        let delta_x: i32 = if iw > target_width {
            -1
        } else if iw < target_width {
            1
        } else {
            0
        };
        let delta_y: i32 = if ih > target_height {
            -1
        } else if ih < target_height {
            1
        } else {
            0
        };
        WigwagIterator {
            image,
            target_width,
            target_height,
            delta_x,
            delta_y,
            current_x: 0,
            current_y: 0,
            min_x,
            max_x,
            min_y,
            max_y,
        }
    }

    /// Where the next frame shows the top-left corner of the source.
    pub fn offset(&self) -> (o: (i64, i64))
        ensures
            o.0 == self.offset_x(),
            o.1 == self.offset_y(),
    {
        (self.current_x, self.current_y)
    }

    /// The steps of the next move.
    pub fn step(&self) -> (d: (i32, i32))
        ensures
            d.0 == self.delta_x(),
            d.1 == self.delta_y(),
    {
        (self.delta_x, self.delta_y)
    }

    /// The frame for this tick: the source drawn at the current offset on a
    /// transparent viewport. Then each axis turns round if one more step
    /// would leave its bounds, and moves.
    pub fn next(&mut self) -> (frame: Option<PartImage>)
        requires
            old(self).wf(),
        ensures
            final(self).wf(),
            final(self).same_setup(old(self)),
            final(self).delta_x() == next_step(
                old(self).offset_x(),
                old(self).delta_x(),
                old(self).source().spec_width(),
                old(self).target_width() as int,
            ),
            final(self).offset_x() == next_offset(
                old(self).offset_x(),
                old(self).delta_x(),
                old(self).source().spec_width(),
                old(self).target_width() as int,
            ),
            final(self).delta_y() == next_step(
                old(self).offset_y(),
                old(self).delta_y(),
                old(self).source().spec_height(),
                old(self).target_height() as int,
            ),
            final(self).offset_y() == next_offset(
                old(self).offset_y(),
                old(self).delta_y(),
                old(self).source().spec_height(),
                old(self).target_height() as int,
            ),
            frame.is_some(),
            is_view(
                &frame.unwrap(),
                &old(self).source(),
                old(self).target_width() as int,
                old(self).target_height() as int,
                old(self).offset_x(),
                old(self).offset_y(),
            ),
    {
        let image = view_of(
            &self.image,
            self.target_width,
            self.target_height,
            self.current_x,
            self.current_y,
        );
        let new_x: i64 = self.current_x + self.delta_x as i64;
        if new_x < self.min_x || new_x > self.max_x {
            self.delta_x = -self.delta_x;
        }
        self.current_x = self.current_x + self.delta_x as i64;
        let new_y: i64 = self.current_y + self.delta_y as i64;
        if new_y < self.min_y || new_y > self.max_y {
            self.delta_y = -self.delta_y;
        }
        self.current_y = self.current_y + self.delta_y as i64;
        Some(image)
    }
}

/// However long a generator has run, the offset of an axis is within its
/// bounds, and its step is one the axis can take.
pub proof fn wigwag_stays_in_bounds(ticks: nat, source: nat, target: nat)
    ensures
        swinging(
            swing_after(ticks, source as int, target as int).0,
            swing_after(ticks, source as int, target as int).1,
            source as int,
            target as int,
        ),
        in_bounds(swing_after(ticks, source as int, target as int).0, source as int, target as int),
    decreases ticks,
{
    if ticks > 0 {
        wigwag_stays_in_bounds((ticks - 1) as nat, source, target);
    }
}

/// On every tick the direction of an axis is reversed exactly when the next
/// step in the old direction would leave the bounds; otherwise it is kept.
pub proof fn wigwag_turns_at_bounds(ticks: nat, source: nat, target: nat)
    ensures
        ({
            let before = swing_after(ticks, source as int, target as int);
            let after = swing_after(ticks + 1, source as int, target as int);
            &&& turns(before.0, before.1, source as int, target as int) ==> after.1 == -before.1
            &&& !turns(before.0, before.1, source as int, target as int) ==> after.1 == before.1
            &&& after.0 == before.0 + after.1
            &&& before.1 != 0 ==> (after.1 != before.1 <==> turns(
                before.0,
                before.1,
                source as int,
                target as int,
            ))
        }),
{
    wigwag_stays_in_bounds(ticks, source, target);
    assert(swing_after((ticks + 1) as nat, source as int, target as int) == (
        next_offset(
            swing_after(ticks, source as int, target as int).0,
            swing_after(ticks, source as int, target as int).1,
            source as int,
            target as int,
        ),
        next_step(
            swing_after(ticks, source as int, target as int).0,
            swing_after(ticks, source as int, target as int).1,
            source as int,
            target as int,
        ),
    ));
}

/// Pictures that can be made to swing.
pub trait Wigwagable {
    /// A wigwag generator over a copy of this picture.
    fn wigwag(&self, target_width: u32, target_height: u32) -> (w: WigwagIterator)
        requires
            fits(target_width, target_height),
        ensures
            w.wf(),
            w.target_width() == target_width,
            w.target_height() == target_height,
            w.offset_x() == 0,
            w.offset_y() == 0,
    ;
}

impl Wigwagable for PartImage {
    fn wigwag(&self, target_width: u32, target_height: u32) -> (w: WigwagIterator)
        ensures
            w.source().same_as(self),
            w.delta_x() == first_step(self.spec_width(), target_width as int),
            w.delta_y() == first_step(self.spec_height(), target_height as int),
    {
        WigwagIterator::new(self.copy(), target_width, target_height)
    }
}

} // verus!
