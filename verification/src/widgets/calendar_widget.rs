//! The calendar: month, day of the month and day of the week.

use vstd::prelude::*;
use crate::pixel::PartPixel;
use crate::widgets::clock_widget::{LocalTime, local_now, push_two_digits, two_digits};

verus! {

/// The short name of month `month`, which counts from 1.
pub open spec fn month_name(month: int) -> Seq<char> {
    if month == 1 {
        "Jan"@
    } else if month == 2 {
        "Feb"@
    } else if month == 3 {
        "Mar"@
    } else if month == 4 {
        "Apr"@
    } else if month == 5 {
        "May"@
    } else if month == 6 {
        "Jun"@
    } else if month == 7 {
        "Jul"@
    } else if month == 8 {
        "Aug"@
    } else if month == 9 {
        "Sep"@
    } else if month == 10 {
        "Oct"@
    } else if month == 11 {
        "Nov"@
    } else {
        "Dec"@
    }
}

/// The short name of the day that lies `weekday` days after Monday.
pub open spec fn weekday_name(weekday: int) -> Seq<char> {
    if weekday == 0 {
        "Mon"@
    } else if weekday == 1 {
        "Tue"@
    } else if weekday == 2 {
        "Wed"@
    } else if weekday == 3 {
        "Thu"@
    } else if weekday == 4 {
        "Fri"@
    } else if weekday == 5 {
        "Sat"@
    } else {
        "Sun"@
    }
}

/// The text the calendar shows at `t`.
pub open spec fn calendar_text(t: LocalTime) -> Seq<char> {
    month_name(t.month as int) + " "@ + two_digits(t.day as int) + " "@ + weekday_name(
        t.weekday as int,
    )
}

/// Nanoseconds from `second` seconds and `nanos` nanoseconds past a whole
/// minute to the next whole minute; none once the minute is over.
pub open spec fn to_next_minute(second: int, nanos: int) -> int {
    if second * 1_000_000_000 + nanos < 60_000_000_000 {
        60_000_000_000 - (second * 1_000_000_000 + nanos)
    } else {
        0
    }
}

fn month_str(month: u32) -> (s: &'static str)
    ensures
        s@ == month_name(month as int),
{
    if month == 1 {
        "Jan"
    } else if month == 2 {
        "Feb"
    } else if month == 3 {
        "Mar"
    } else if month == 4 {
        "Apr"
    } else if month == 5 {
        "May"
    } else if month == 6 {
        "Jun"
    } else if month == 7 {
        "Jul"
    } else if month == 8 {
        "Aug"
    } else if month == 9 {
        "Sep"
    } else if month == 10 {
        "Oct"
    } else if month == 11 {
        "Nov"
    } else {
        "Dec"
    }
}

fn weekday_str(weekday: u32) -> (s: &'static str)
    ensures
        s@ == weekday_name(weekday as int),
{
    if weekday == 0 {
        "Mon"
    } else if weekday == 1 {
        "Tue"
    } else if weekday == 2 {
        "Wed"
    } else if weekday == 3 {
        "Thu"
    } else if weekday == 4 {
        "Fri"
    } else if weekday == 5 {
        "Sat"
    } else {
        "Sun"
    }
}

#[derive(Clone, Debug)]
pub struct CalendarWidget {
    pub width: u32,
    pub height: u32,
    pub text_color: PartPixel,
    pub background_color: PartPixel,
}

impl Default for CalendarWidget {
    fn default() -> (w: CalendarWidget)
        ensures
            w.width == 0,
            w.height == 0,
            w.text_color == (PartPixel { r: 255, g: 255, b: 0, a: 255 }),
            w.background_color == (PartPixel { r: 0, g: 0, b: 0, a: 0 }),
    {
        CalendarWidget {
            width: 0,
            height: 0,
            text_color: PartPixel { r: 255, g: 255, b: 0, a: 255 },
            background_color: PartPixel { r: 0, g: 0, b: 0, a: 0 },
        }
    }
}

impl CalendarWidget {
    /// The text to show at `t`: the month's short name, the day in two
    /// digits and the weekday's short name, with blanks between them.
    pub fn text(t: &LocalTime) -> (text: String)
        requires
            t.day < 100,
        ensures
            text@ == calendar_text(*t),
    {
        let mut text = String::new();
        text.append(month_str(t.month));
        text.append(" ");
        push_two_digits(&mut text, t.day);
        text.append(" ");
        text.append(weekday_str(t.weekday));
        assert(text@ =~= calendar_text(*t));
        text
    }

    /// How long the text for `t` is looked at again: the nanoseconds until
    /// the next whole minute.
    pub fn wait_nanos(t: &LocalTime) -> (nanos: u64)
        ensures
            nanos == to_next_minute(t.second as int, t.nanos as int),
    {
        let past: u64 = t.second as u64 * 1_000_000_000 + t.nanos as u64;
        if past < 60_000_000_000 {
            60_000_000_000 - past
        } else {
            0
        }
    }

    /// Reads the wall clock, and says what to show and for how many
    /// nanoseconds.
    pub fn tick(&self) -> (out: (String, u64))
        ensures
            exists|t: LocalTime|
                t.valid() && out.0@ == calendar_text(t) && out.1 == to_next_minute(
                    t.second as int,
                    t.nanos as int,
                ),
    {
        let t = local_now();
        (Self::text(&t), Self::wait_nanos(&t))
    }
}

} // verus!
