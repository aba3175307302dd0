//! The kinds of widgets, their configuration and what drives them.

use vstd::prelude::*;
use crate::widgets::calendar_widget::CalendarWidget;
use crate::widgets::clock_widget::ClockWidget;
use crate::widgets::flyer_widget::FlyerWidget;
use crate::widgets::gif_widget::GifWidget;
use crate::widgets::matrix_rain_widget::MatrixRainWidget;
use crate::widgets::solid_widget::SolidWidget;
use crate::widgets::wigwag_widget::WigwagWidget;

pub mod calendar_widget;
pub mod clock_widget;
pub mod flyer_widget;
pub mod font;
pub mod gif_widget;
pub mod matrix_rain_widget;
pub mod message;
pub mod solid_widget;
pub mod wigwag_widget;

verus! {

/// How long, in seconds, a widget with nothing to do waits for a message.
pub const IDLE_SECS: u64 = 86400;

/// One widget of a configured kind.
#[derive(Clone, Debug)]
pub enum Widget {
    Solid(SolidWidget),
    Clock(ClockWidget),
    Calendar(CalendarWidget),
    MatrixRain(MatrixRainWidget),
    Gif(GifWidget),
    Flyer(FlyerWidget),
    Wigwag(WigwagWidget),
}

/// One entry of the configuration: a widget, where it stands, and whether
/// it is shown from the start.
#[derive(Clone, Debug)]
pub struct WidgetConf {
    pub x: u32,
    pub y: u32,
    pub visible: Option<bool>,
    pub widget: Widget,
}

/// The time between two frames, in milliseconds, of a widget that runs at
/// `speed` frames per second.
pub fn interval_millis(speed: u32) -> (millis: u64)
    requires
        speed > 0,
    ensures
        millis == 1000int / (speed as int),
{
    (1000 / speed) as u64
}

} // verus!
