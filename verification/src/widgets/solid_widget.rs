//! A rectangle of one colour.

use vstd::prelude::*;
use crate::frame::{PartImage, fill, fits};
use crate::pixel::PartPixel;
use crate::widgets::IDLE_SECS;

verus! {

#[derive(Clone, Debug)]
pub struct SolidWidget {
    pub width: u32,
    pub height: u32,
    pub color: PartPixel,
}

impl SolidWidget {
    /// The frame of every tick: `width` x `height` pixels of `color`.
    pub fn tick(&self) -> (img: PartImage)
        requires
            fits(self.width, self.height),
        ensures
            img.spec_width() == self.width,
            img.spec_height() == self.height,
            img.shaped(),
            img.is_solid(self.color),
    {
        let mut img = PartImage::new(self.width, self.height);
        fill(&mut img, self.color);
        img
    }

    /// How long to wait for a message after a tick, in seconds.
    pub fn wait_secs(&self) -> (secs: u64)
        ensures
            secs == IDLE_SECS,
    {
        IDLE_SECS
    }
}

} // verus!
