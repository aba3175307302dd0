//! The banner: one line of text that swings across its viewport.

use vstd::prelude::*;
use crate::frame::{PartImage, fits};
use crate::movers::wigwag::{WigwagIterator, Wigwagable, first_step};
use crate::pixel::PartPixel;
use crate::widgets::interval_millis;

verus! {

#[derive(Clone, Debug)]
pub struct WigwagWidget {
    pub width: u32,
    pub height: u32,
    pub text: String,
    pub text_color: PartPixel,
    pub background_color: PartPixel,
    pub speed: u32,
}

impl Default for WigwagWidget {
    fn default() -> (w: WigwagWidget)
        ensures
            w.width == 0,
            w.height == 0,
            w.text@.len() == 0,
            w.text_color == (PartPixel { r: 255, g: 255, b: 0, a: 255 }),
            w.background_color == (PartPixel { r: 0, g: 0, b: 0, a: 0 }),
            w.speed == 100,
    {
        WigwagWidget {
            width: 0,
            height: 0,
            text: String::new(),
            text_color: PartPixel { r: 255, g: 255, b: 0, a: 255 },
            background_color: PartPixel { r: 0, g: 0, b: 0, a: 0 },
            speed: 100,
        }
    }
}

impl WigwagWidget {
    /// The generator of this banner's frames, over the picture of its text.
    pub fn banner(&self, text_img: &PartImage) -> (w: WigwagIterator)
        requires
            fits(self.width, self.height),
        ensures
            w.wf(),
            w.source().same_as(text_img),
            w.target_width() == self.width,
            w.target_height() == self.height,
            w.offset_x() == 0,
            w.offset_y() == 0,
            w.delta_x() == first_step(text_img.spec_width(), self.width as int),
            w.delta_y() == first_step(text_img.spec_height(), self.height as int),
    {
        text_img.wigwag(self.width, self.height)
    }

    /// The time between two frames, in milliseconds.
    pub fn wait_millis(&self) -> (millis: u64)
        requires
            self.speed > 0,
        ensures
            millis == 1000int / (self.speed as int),
    {
        interval_millis(self.speed)
    }
}

} // verus!
