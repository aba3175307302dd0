//! The clock: hours and minutes, with a separator that blinks once a second.

use vstd::prelude::*;
use chrono::{Datelike, Timelike};
use crate::pixel::PartPixel;

verus! {

/// One reading of the wall clock, in local time.
#[derive(Clone, Copy, Debug)]
pub struct LocalTime {
    pub year: i32,
    /// 1 to 12.
    pub month: u32,
    /// 1 to 31.
    pub day: u32,
    /// Days since Monday, 0 to 6.
    pub weekday: u32,
    pub hour: u32,
    pub minute: u32,
    pub second: u32,
    /// Nanoseconds since the last whole second; 1,000,000,000 and more
    /// during a leap second.
    pub nanos: u32,
    /// Seconds since the epoch.
    pub timestamp: i64,
}

impl LocalTime {
    /// The fields are in the ranges of a calendar and a clock.
    pub open spec fn valid(&self) -> bool {
        &&& 1 <= self.month <= 12
        &&& 1 <= self.day <= 31
        &&& self.weekday < 7
        &&& self.hour < 24
        &&& self.minute < 60
        &&& self.second < 60
        &&& self.nanos < 2_000_000_000
    }
}

/// Calls `chrono::Local::now` and reads its fields with the getters of
/// `Datelike` and `Timelike`, whose documented ranges are all that is
/// claimed: which time comes back is up to the clock.
#[verifier::external_body]
pub(crate) fn local_now() -> (t: LocalTime)
    ensures
        t.valid(),
{
    let now = chrono::Local::now();
    LocalTime {
        year: now.year(),
        month: now.month(),
        day: now.day(),
        weekday: now.weekday().num_days_from_monday(),
        hour: now.hour(),
        minute: now.minute(),
        second: now.second(),
        nanos: now.nanosecond(),
        timestamp: now.timestamp(),
    }
}

/// The decimal digit `d`.
pub open spec fn digit(d: int) -> Seq<char> {
    if d == 0 {
        "0"@
    } else if d == 1 {
        "1"@
    } else if d == 2 {
        "2"@
    } else if d == 3 {
        "3"@
    } else if d == 4 {
        "4"@
    } else if d == 5 {
        "5"@
    } else if d == 6 {
        "6"@
    } else if d == 7 {
        "7"@
    } else if d == 8 {
        "8"@
    } else {
        "9"@
    }
}

/// A number below 100 in two digits.
pub open spec fn two_digits(n: int) -> Seq<char> {
    digit(n / 10) + digit(n % 10)
}

/// What stands between hours and minutes: a blank in even seconds, a colon
/// in odd ones.
pub open spec fn separator(timestamp: int) -> Seq<char> {
    if timestamp % 2 == 0 {
        " "@
    } else {
        ":"@
    }
}

/// The text the clock shows at `t`.
pub open spec fn clock_text(t: LocalTime) -> Seq<char> {
    two_digits(t.hour as int) + separator(t.timestamp as int) + two_digits(t.minute as int)
}

/// Nanoseconds from `nanos` past a whole second to the next whole second;
/// none during a leap second.
pub open spec fn to_next_second(nanos: int) -> int {
    if nanos < 1_000_000_000 {
        1_000_000_000 - nanos
    } else {
        0
    }
}

fn digit_str(d: u32) -> (s: &'static str)
    requires
        d < 10,
    ensures
        s@ == digit(d as int),
{
    if d == 0 {
        "0"
    } else if d == 1 {
        "1"
    } else if d == 2 {
        "2"
    } else if d == 3 {
        "3"
    } else if d == 4 {
        "4"
    } else if d == 5 {
        "5"
    } else if d == 6 {
        "6"
    } else if d == 7 {
        "7"
    } else if d == 8 {
        "8"
    } else {
        "9"
    }
}

/// Appends `n` in two digits to `text`.
pub fn push_two_digits(text: &mut String, n: u32)
    requires
        n < 100,
    ensures
        final(text)@ == old(text)@ + two_digits(n as int),
{
    text.append(digit_str(n / 10));
    text.append(digit_str(n % 10));
}

#[derive(Clone, Debug)]
pub struct ClockWidget {
    pub width: u32,
    pub height: u32,
    pub text_color: PartPixel,
    pub background_color: PartPixel,
}

impl Default for ClockWidget {
    fn default() -> (w: ClockWidget)
        ensures
            w.width == 0,
            w.height == 0,
            w.text_color == (PartPixel { r: 255, g: 255, b: 0, a: 255 }),
            w.background_color == (PartPixel { r: 0, g: 0, b: 0, a: 0 }),
    {
        ClockWidget {
            width: 0,
            height: 0,
            text_color: PartPixel { r: 255, g: 255, b: 0, a: 255 },
            background_color: PartPixel { r: 0, g: 0, b: 0, a: 0 },
        }
    }
}

impl ClockWidget {
    /// The text to show at `t`: hours and minutes in two digits each, with
    /// a blank between them in even seconds and a colon in odd ones.
    pub fn text(t: &LocalTime) -> (text: String)
        requires
            t.hour < 100,
            t.minute < 100,
        ensures
            text@ == clock_text(*t),
    {
        let mut text = String::new();
        push_two_digits(&mut text, t.hour);
        if t.timestamp % 2 == 0 {
            text.append(" ");
        } else {
            text.append(":");
        }
        push_two_digits(&mut text, t.minute);
        text
    }

    /// How long the text for `t` stays right: the nanoseconds until the next
    /// whole second.
    pub fn wait_nanos(t: &LocalTime) -> (nanos: u64)
        ensures
            nanos == to_next_second(t.nanos as int),
    {
        if t.nanos < 1_000_000_000 {
            (1_000_000_000 - t.nanos) as u64
        } else {
            0
        }
    }

    /// Reads the wall clock, and says what to show and for how many
    /// nanoseconds.
    pub fn tick(&self) -> (out: (String, u64))
        ensures
            exists|t: LocalTime|
                t.valid() && out.0@ == clock_text(t) && out.1 == to_next_second(t.nanos as int),
    {
        let t = local_now();
        (Self::text(&t), Self::wait_nanos(&t))
    }
}

} // verus!
